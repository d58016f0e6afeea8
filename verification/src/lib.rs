//! A user-space Win32 ABI shim layer: guest memory, an address-space
//! allocator, stdcall argument marshalling, COM-style vtable objects, and a
//! small DirectDraw7 emulation, all against a recorded host backend.
//!
//! Guest code reaches a shim by transferring control to a reserved address;
//! the shim pops its stdcall arguments from the guest stack, performs its
//! effect against guest memory or the host, writes its result into `eax`,
//! and the interpreter's return primitive then pops the return address.

pub mod ddraw;
pub mod ddraw7;
pub mod surface7;
pub mod gdi32;
pub mod heap;
pub mod host;
pub mod kernel32;
pub mod mem;
pub mod table;
pub mod user32;

use vstd::prelude::*;

use crate::host::Host;
use crate::mem::{store_u32, u32_at, Mem};

verus! {

/// Pseudo-handle for the process's standard output.
pub const STDOUT_HFILE: u32 = 0xF11E_0100;

/// Return address pushed for guest callbacks run on behalf of a shim; the
/// interpreter yields back to the suspended shim when the guest returns here.
pub const CALLBACK_SENTINEL: u32 = 0xFFFF_F00C;

/// A host callback a resolved import dispatches to, one per `(dll, symbol)`
/// pair the shim layer implements.
#[derive(Clone, Copy, Debug, PartialEq, Eq, Structural)]
pub enum Shim {
    ExitProcess,
    GetModuleHandleA,
    WriteFile,
    VirtualAlloc,
    RegisterClassA,
    CreateWindowExA,
    UpdateWindow,
}

/// Compare two strings character by character.
fn str_eq(a: &str, b: &str) -> (r: bool)
    ensures
        r == (a@ == b@),
{
    let la = a.unicode_len();
    let lb = b.unicode_len();
    if la != lb {
        return false;
    }
    let mut i: usize = 0;
    while i < la
        invariant
            i <= la,
            la == a@.len(),
            lb == b@.len(),
            la == lb,
            forall|j: int| 0 <= j < i ==> a@[j] == b@[j],
        decreases la - i,
    {
        if a.get_char(i) != b.get_char(i) {
            return false;
        }
        i = i + 1;
    }
    proof {
        assert(a@ =~= b@);
    }
    true
}

/// The shim that the import key `s` (`"<dll>!<symbol>"`) resolves to, if
/// any.
pub open spec fn resolve_spec(s: Seq<char>) -> Option<Shim> {
    if s == "kernel32.dll!ExitProcess"@ {
        Some(Shim::ExitProcess)
    } else if s == "kernel32.dll!GetModuleHandleA"@ {
        Some(Shim::GetModuleHandleA)
    } else if s == "kernel32.dll!WriteFile"@ {
        Some(Shim::WriteFile)
    } else if s == "kernel32.dll!VirtualAlloc"@ {
        Some(Shim::VirtualAlloc)
    } else if s == "user32.dll!RegisterClassA"@ {
        Some(Shim::RegisterClassA)
    } else if s == "user32.dll!CreateWindowExA"@ {
        Some(Shim::CreateWindowExA)
    } else if s == "user32.dll!UpdateWindow"@ {
        Some(Shim::UpdateWindow)
    } else {
        None
    }
}

/// Resolve an import key `"<dll>!<symbol>"` to its host callback. Lookup
/// failure is reported to the caller as `None` (an unresolved import).
pub fn resolve(sym: &str) -> (r: Option<Shim>)
    ensures
        r == resolve_spec(sym@),
{
    if str_eq(sym, "kernel32.dll!ExitProcess") {
        Some(Shim::ExitProcess)
    } else if str_eq(sym, "kernel32.dll!GetModuleHandleA") {
        Some(Shim::GetModuleHandleA)
    } else if str_eq(sym, "kernel32.dll!WriteFile") {
        Some(Shim::WriteFile)
    } else if str_eq(sym, "kernel32.dll!VirtualAlloc") {
        Some(Shim::VirtualAlloc)
    } else if str_eq(sym, "user32.dll!RegisterClassA") {
        Some(Shim::RegisterClassA)
    } else if str_eq(sym, "user32.dll!CreateWindowExA") {
        Some(Shim::CreateWindowExA)
    } else if str_eq(sym, "user32.dll!UpdateWindow") {
        Some(Shim::UpdateWindow)
    } else {
        None
    }
}

/// The CPU registers the shims observe.
pub struct Regs {
    pub eax: u32,
    pub esp: u32,
    pub eip: u32,
}

/// A shim suspended on a guest callback, waiting to be resumed.
pub enum PendingCall {
    EnumDisplayModes { desc_addr: u32 },
}

/// Process-wide emulator state, one block per emulated DLL, plus the
/// suspended shim of the async bridge, if any.
pub struct State {
    pub kernel32: kernel32::State,
    pub user32: user32::State,
    pub gdi32: gdi32::State,
    pub ddraw: ddraw::State,
    pub pending: Option<PendingCall>,
}

impl State {
    pub fn new() -> (r: State)
        ensures
            r.kernel32.wf(),
            r.kernel32.image_base == 0,
            r.kernel32.teb == 0,
            r.kernel32.mappings@.len() == 1,
            r.kernel32.mappings@[0].addr == 0,
            r.kernel32.mappings@[0].size == kernel32::NULL_POINTER_REGION_SIZE,
            r.user32.wf(),
            r.user32.windows@ == Map::<u32, user32::Window>::empty(),
            r.gdi32.wf(),
            r.gdi32.dcs@ == Map::<u32, gdi32::DC>::empty(),
            r.ddraw.wf(4),
            r.ddraw.surfaces@ == Map::<u32, ddraw::Surface>::empty(),
            r.ddraw.palettes@ == Map::<u32, Vec<ddraw::PaletteEntry>>::empty(),
            r.ddraw.heap.size == 0,
            r.pending is None,
    {
        State {
            kernel32: kernel32::State::new(),
            user32: user32::State::new(),
            gdi32: gdi32::State::new(),
            ddraw: ddraw::State::new(),
            pending: None,
        }
    }
}

/// The machine a shim acts on: registers, guest memory, emulator state, and
/// the host backend.
pub struct X86 {
    pub regs: Regs,
    pub mem: Mem,
    pub state: State,
    pub host: Host,
}

/// The memory and stack pointer after pushing `v`.
pub open spec fn pushed(m: Seq<u8>, esp: u32, v: u32) -> (Seq<u8>, u32) {
    (store_u32(m, esp - 4, v), (esp - 4) as u32)
}

/// The memory and stack pointer after pushing `args` right to left (the
/// last argument first, so `args[0]` ends on top).
pub open spec fn pushed_args(m: Seq<u8>, esp: u32, args: Seq<u32>) -> (Seq<u8>, u32)
    decreases args.len(),
{
    if args.len() == 0 {
        (m, esp)
    } else {
        let (m1, esp1) = pushed_args(m, esp, args.drop_first());
        pushed(m1, esp1, args[0])
    }
}

/// The memory and stack pointer after a full stdcall frame: the return
/// address, then the arguments right to left.
pub open spec fn pushed_frame(m: Seq<u8>, esp: u32, ret_addr: u32, args: Seq<u32>) -> (
    Seq<u8>,
    u32,
) {
    let (m1, esp1) = pushed(m, esp, ret_addr);
    pushed_args(m1, esp1, args)
}

proof fn lemma_pushed_args(m: Seq<u8>, esp: u32, args: Seq<u32>)
    requires
        m.len() <= 0xFFFF_F000,
        4 * args.len() <= esp <= m.len(),
    ensures
        ({
            let (m1, esp1) = pushed_args(m, esp, args);
            &&& m1.len() == m.len()
            &&& esp1 == esp - 4 * args.len()
            &&& forall|i: int| 0 <= i < args.len() ==> u32_at(m1, esp1 + 4 * i) == args[i]
            &&& forall|j: int| 0 <= j < m.len() && !(esp1 <= j < esp) ==> m1[j] == m[j]
        }),
    decreases args.len(),
{
    if args.len() > 0 {
        lemma_pushed_args(m, esp, args.drop_first());
        let (m1, esp1) = pushed_args(m, esp, args.drop_first());
        mem::lemma_store_u32(m1, esp1 - 4, args[0]);
        let (m2, esp2) = pushed_args(m, esp, args);
        assert(m2 == store_u32(m1, esp1 - 4, args[0]));
        assert forall|i: int| 1 <= i < args.len() implies u32_at(m2, esp2 + 4 * i) == args[i] by {
            assert(u32_at(m1, esp1 + 4 * (i - 1)) == args.drop_first()[i - 1]);
            assert(args.drop_first()[i - 1] == args[i]);
            assert(esp2 + 4 * i == esp1 + 4 * (i - 1));
            assert(m2[esp1 + 4 * (i - 1)] == m1[esp1 + 4 * (i - 1)]);
            assert(m2[esp1 + 4 * (i - 1) + 1] == m1[esp1 + 4 * (i - 1) + 1]);
            assert(m2[esp1 + 4 * (i - 1) + 2] == m1[esp1 + 4 * (i - 1) + 2]);
            assert(m2[esp1 + 4 * (i - 1) + 3] == m1[esp1 + 4 * (i - 1) + 3]);
        }
    }
}

/// Law (stdcall roundtrip): after a caller pushes a return address and then
/// `N` arguments right to left, popping the `N` arguments reads exactly
/// those arguments left to right, the slot below them still holds the
/// return address, and the return primitive's pop of that slot restores the
/// stack pointer to its value from before the frame was pushed.
pub proof fn lemma_stdcall_roundtrip(m: Seq<u8>, esp: u32, ret_addr: u32, args: Seq<u32>)
    requires
        m.len() <= 0xFFFF_F000,
        4 * (args.len() + 1) <= esp <= m.len(),
    ensures
        ({
            let (m1, esp1) = pushed_frame(m, esp, ret_addr, args);
            &&& m1.len() == m.len()
            &&& esp1 == esp - 4 * (args.len() + 1)
            &&& forall|i: int| 0 <= i < args.len() ==> u32_at(m1, esp1 + 4 * i) == args[i]
            &&& u32_at(m1, esp1 + 4 * args.len()) == ret_addr
            &&& esp1 + 4 * args.len() + 4 == esp
        }),
{
    let m_ra = store_u32(m, esp - 4, ret_addr);
    mem::lemma_store_u32(m, esp - 4, ret_addr);
    lemma_pushed_args(m_ra, (esp - 4) as u32, args);
    let (m1, esp1) = pushed_args(m_ra, (esp - 4) as u32, args);
    assert(m1[esp - 4] == m_ra[esp - 4]);
    assert(m1[esp - 3] == m_ra[esp - 3]);
    assert(m1[esp - 2] == m_ra[esp - 2]);
    assert(m1[esp - 1] == m_ra[esp - 1]);
    assert(u32_at(m1, esp - 4) == u32_at(m_ra, esp - 4));
}

impl X86 {
    /// Machine well-formedness: the guest memory fits the 32-bit address
    /// space and every subsystem's invariant holds.
    pub open spec fn wf(&self) -> bool {
        &&& self.mem@.len() <= 0xFFFF_F000
        &&& self.state.kernel32.wf()
        &&& self.state.user32.wf()
        &&& self.state.gdi32.wf()
        &&& self.state.ddraw.wf(self.mem@.len() as int)
    }

    /// A fresh machine with `size` bytes of zeroed guest memory.
    pub fn new(size: usize) -> (r: X86)
        requires
            0x1000 <= size <= 0xFFFF_F000,
        ensures
            r.wf(),
            r.mem@.len() == size,
            forall|i: int| 0 <= i < size ==> r.mem@[i] == 0u8,
            r.regs.eax == 0 && r.regs.esp == 0 && r.regs.eip == 0,
            r.state.kernel32.mappings@.len() == 1,
            r.state.kernel32.mappings@[0].addr == 0,
            r.state.kernel32.mappings@[0].size == kernel32::NULL_POINTER_REGION_SIZE,
            r.state.kernel32.image_base == 0,
            r.state.ddraw.surfaces@ == Map::<u32, ddraw::Surface>::empty(),
            r.state.ddraw.palettes@ == Map::<u32, Vec<ddraw::PaletteEntry>>::empty(),
            r.state.user32.windows@ == Map::<u32, user32::Window>::empty(),
            r.state.gdi32.dcs@ == Map::<u32, gdi32::DC>::empty(),
            r.state.pending is None,
            r.host.events@ == Seq::<host::HostEvent>::empty(),
            r.host.next_handle == 1,
            !r.host.exited,
    {
        X86 {
            regs: Regs { eax: 0, esp: 0, eip: 0 },
            mem: Mem::new(size),
            state: State::new(),
            host: Host::new(),
        }
    }

    /// Pop one 32-bit value off the guest stack.
    pub fn pop(&mut self) -> (r: u32)
        requires
            old(self).wf(),
            old(self).regs.esp + 4 <= old(self).mem@.len(),
        ensures
            final(self).wf(),
            r == u32_at(old(self).mem@, old(self).regs.esp as int),
            final(self).regs.esp == old(self).regs.esp + 4,
            final(self).regs.eax == old(self).regs.eax,
            final(self).regs.eip == old(self).regs.eip,
            final(self).mem@ == old(self).mem@,
            final(self).state == old(self).state,
            final(self).host == old(self).host,
    {
        let r = self.mem.read_u32(self.regs.esp);
        self.regs.esp = self.regs.esp + 4;
        r
    }

    /// Push one 32-bit value onto the guest stack.
    pub fn push(&mut self, v: u32)
        requires
            old(self).wf(),
            4 <= old(self).regs.esp <= old(self).mem@.len(),
        ensures
            final(self).wf(),
            (final(self).mem@, final(self).regs.esp) == pushed(
                old(self).mem@,
                old(self).regs.esp,
                v,
            ),
            final(self).regs.esp == old(self).regs.esp - 4,
            final(self).mem@ == store_u32(old(self).mem@, old(self).regs.esp - 4, v),
            final(self).regs.eax == old(self).regs.eax,
            final(self).regs.eip == old(self).regs.eip,
            final(self).state == old(self).state,
            final(self).host == old(self).host,
    {
        self.regs.esp = self.regs.esp - 4;
        self.mem.write_u32(self.regs.esp, v);
    }

    /// The interpreter's stdcall return primitive: pop the return address
    /// into `eip`.
    pub fn do_ret(&mut self)
        requires
            old(self).wf(),
            old(self).regs.esp + 4 <= old(self).mem@.len(),
        ensures
            final(self).wf(),
            final(self).regs.eip == u32_at(old(self).mem@, old(self).regs.esp as int),
            final(self).regs.esp == old(self).regs.esp + 4,
            final(self).regs.eax == old(self).regs.eax,
            final(self).mem@ == old(self).mem@,
            final(self).state == old(self).state,
            final(self).host == old(self).host,
    {
        let addr = self.mem.read_u32(self.regs.esp);
        self.regs.esp = self.regs.esp + 4;
        self.regs.eip = addr;
    }

    /// Push a whole stdcall frame: the return address, then `args` right to
    /// left, leaving `args[0]` on top of the stack.
    pub fn push_stdcall_frame(&mut self, ret_addr: u32, args: &[u32])
        requires
            old(self).wf(),
            4 * (args@.len() + 1) <= old(self).regs.esp <= old(self).mem@.len(),
        ensures
            final(self).wf(),
            (final(self).mem@, final(self).regs.esp) == pushed_frame(
                old(self).mem@,
                old(self).regs.esp,
                ret_addr,
                args@,
            ),
            final(self).regs.esp == old(self).regs.esp - 4 * (args@.len() + 1),
            forall|i: int|
                0 <= i < args@.len() ==> u32_at(final(self).mem@, final(self).regs.esp + 4 * i)
                    == args@[i],
            u32_at(final(self).mem@, old(self).regs.esp - 4) == ret_addr,
            final(self).mem@.len() == old(self).mem@.len(),
            final(self).regs.eax == old(self).regs.eax,
            final(self).regs.eip == old(self).regs.eip,
            final(self).state == old(self).state,
            final(self).host == old(self).host,
    {
        proof {
            lemma_stdcall_roundtrip(old(self).mem@, old(self).regs.esp, ret_addr, args@);
        }
        self.push(ret_addr);
        let ghost m_ra = self.mem@;
        let ghost esp_ra = self.regs.esp;
        let n = args.len();
        let mut i: usize = n;
        while i > 0
            invariant
                i <= n,
                n == args@.len(),
                self.wf(),
                m_ra.len() <= 0xFFFF_F000,
                4 * args@.len() <= esp_ra <= m_ra.len(),
                (self.mem@, self.regs.esp) == pushed_args(
                    m_ra,
                    esp_ra,
                    args@.subrange(i as int, n as int),
                ),
                self.regs.esp == esp_ra - 4 * (n - i),
                self.regs.eax == old(self).regs.eax,
                self.regs.eip == old(self).regs.eip,
                self.state == old(self).state,
                self.host == old(self).host,
            decreases i,
        {
            proof {
                lemma_pushed_args(m_ra, esp_ra, args@.subrange(i as int, n as int));
            }
            i = i - 1;
            self.push(args[i]);
            proof {
                let s = args@.subrange(i as int, n as int);
                assert(s.drop_first() =~= args@.subrange(i + 1, n as int));
                assert(s[0] == args@[i as int]);
            }
        }
        proof {
            assert(args@.subrange(0, n as int) =~= args@);
        }
    }
}

} // verus!
