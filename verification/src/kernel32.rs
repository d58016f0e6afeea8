//! kernel32: the address-space allocator (a sorted, disjoint list of
//! mappings) and the kernel32 stdcall shims.

use vstd::prelude::*;
use vstd::string::StringExecFns;

use crate::host::HostEvent;
use crate::mem::{store_u32, u32_at};
use crate::{STDOUT_HFILE, X86};

verus! {

/// The only VirtualAlloc allocation type the shim supports.
pub const MEM_COMMIT: u32 = 0x1000;

/// Addresses below this are never mapped, so that null pointers fault.
pub const NULL_POINTER_REGION_SIZE: u32 = 0x10000;

/// A mapped range of the guest address space.
pub struct Mapping {
    pub addr: u32,
    pub size: u32,
    pub desc: String,
}

/// `x` rounded up to the next 4 KiB page boundary.
pub open spec fn page_round_up(x: u32) -> u32 {
    ((x + 0xFFF) as u32) & !0xFFFu32
}

pub proof fn lemma_page_round_up(x: u32)
    requires
        x <= 0xFFFF_F000,
    ensures
        page_round_up(x) % 0x1000 == 0,
        x <= page_round_up(x),
        page_round_up(x) < x + 0x1000,
{
    assert((((x + 0xFFF) as u32) & !0xFFFu32) % 0x1000 == 0) by (bit_vector)
        requires
            x <= 0xFFFF_F000u32,
    ;
    assert(x <= (((x + 0xFFF) as u32) & !0xFFFu32)) by (bit_vector)
        requires
            x <= 0xFFFF_F000u32,
    ;
    assert((((x + 0xFFF) as u32) & !0xFFFu32) < x + 0x1000) by (bit_vector)
        requires
            x <= 0xFFFF_F000u32,
    ;
}

/// The mapping-list invariant: each mapping ends before the next one starts
/// (so the list is sorted by address and pairwise disjoint), and every
/// mapping ends low enough that page rounding cannot overflow.
pub open spec fn mappings_wf(ms: Seq<Mapping>) -> bool {
    &&& forall|i: int| 0 <= i < ms.len() ==> (#[trigger] ms[i]).addr + ms[i].size <= 0xFFFF_F000
    &&& forall|i: int|
        0 <= i && i + 1 < ms.len() ==> (#[trigger] ms[i]).addr + ms[i].size <= ms[i + 1].addr
}

/// Law: in a well-formed mapping list every pair of mappings is disjoint and
/// ordered: an earlier entry ends at or before a later entry starts.
pub proof fn lemma_mappings_sorted_disjoint(ms: Seq<Mapping>, i: int, j: int)
    requires
        mappings_wf(ms),
        0 <= i < j < ms.len(),
    ensures
        ms[i].addr + ms[i].size <= ms[j].addr,
    decreases j - i,
{
    if j > i + 1 {
        lemma_mappings_sorted_disjoint(ms, i, j - 1);
    }
}

/// The position where a mapping with base `addr` belongs: the index of the
/// first mapping whose base exceeds `addr`.
pub open spec fn insert_pos(ms: Seq<Mapping>, addr: u32) -> int
    decreases ms.len(),
{
    if ms.len() == 0 {
        0
    } else if ms[0].addr > addr {
        0
    } else {
        1 + insert_pos(ms.subrange(1, ms.len() as int), addr)
    }
}

proof fn lemma_insert_pos_char(ms: Seq<Mapping>, addr: u32, p: int)
    requires
        0 <= p <= ms.len(),
        forall|k: int| 0 <= k < p ==> (#[trigger] ms[k]).addr <= addr,
        p < ms.len() ==> ms[p].addr > addr,
    ensures
        insert_pos(ms, addr) == p,
    decreases ms.len(),
{
    if ms.len() == 0 {
    } else if ms[0].addr > addr {
        assert(p == 0);
    } else {
        let tail = ms.subrange(1, ms.len() as int);
        assert(forall|k: int| 0 <= k < p - 1 ==> (#[trigger] tail[k]).addr <= addr);
        lemma_insert_pos_char(tail, addr, p - 1);
    }
}

/// A mapping may be added when it fits between its would-be neighbours.
pub open spec fn can_add(ms: Seq<Mapping>, m: Mapping) -> bool {
    let pos = insert_pos(ms, m.addr);
    &&& (pos > 0 ==> ms[pos - 1].addr + ms[pos - 1].size <= m.addr)
    &&& (pos < ms.len() ==> m.addr + m.size <= ms[pos].addr)
}

proof fn lemma_insert_wf(ms: Seq<Mapping>, pos: int, m: Mapping)
    requires
        mappings_wf(ms),
        0 <= pos <= ms.len(),
        m.addr + m.size <= 0xFFFF_F000,
        pos > 0 ==> ms[pos - 1].addr + ms[pos - 1].size <= m.addr,
        pos < ms.len() ==> m.addr + m.size <= ms[pos].addr,
    ensures
        mappings_wf(ms.insert(pos, m)),
{
    let ns = ms.insert(pos, m);
    assert forall|i: int| 0 <= i && i + 1 < ns.len() implies (#[trigger] ns[i]).addr + ns[i].size
        <= ns[i + 1].addr by {
        if i + 1 < pos {
            assert(ns[i] == ms[i]);
            assert(ns[i + 1] == ms[i + 1]);
        } else if i + 1 == pos {
            assert(ns[i] == ms[i]);
            assert(ns[i + 1] == m);
        } else if i == pos {
            assert(ns[i] == m);
            assert(ns[i + 1] == ms[i]);
        } else {
            assert(ns[i] == ms[i - 1]);
            assert(ns[i + 1] == ms[i]);
        }
    }
    assert forall|i: int| 0 <= i < ns.len() implies (#[trigger] ns[i]).addr + ns[i].size
        <= 0xFFFF_F000 by {
        if i < pos {
            assert(ns[i] == ms[i]);
        } else if i == pos {
        } else {
            assert(ns[i] == ms[i - 1]);
        }
    }
}

/// One step of the allocation scan is safe when the running end does not
/// pass the next mapping's base (otherwise the gap computation underflows).
pub open spec fn scan_ok_rec(ms: Seq<Mapping>, end: u32, size: u32) -> bool
    decreases ms.len(),
{
    if ms.len() == 0 {
        true
    } else if end > ms[0].addr {
        false
    } else if ms[0].addr - end > size {
        true
    } else {
        scan_ok_rec(
            ms.subrange(1, ms.len() as int),
            page_round_up((ms[0].addr + ms[0].size) as u32),
            size,
        )
    }
}

pub open spec fn scan_ok(ms: Seq<Mapping>, size: u32) -> bool {
    scan_ok_rec(ms, 0, size)
}

/// The base address the allocation scan yields: the start of the first gap
/// strictly larger than `size` between the page-rounded end of one mapping
/// and the base of the next, or the page-rounded end of the last mapping if
/// that still leaves room below the top of the address space.
pub open spec fn find_gap_rec(ms: Seq<Mapping>, end: u32, size: u32) -> Option<u32>
    decreases ms.len(),
{
    if ms.len() == 0 {
        if end + size <= 0xFFFF_F000 {
            Some(end)
        } else {
            None
        }
    } else if ms[0].addr - end > size {
        Some(end)
    } else {
        find_gap_rec(
            ms.subrange(1, ms.len() as int),
            page_round_up((ms[0].addr + ms[0].size) as u32),
            size,
        )
    }
}

pub open spec fn find_gap(ms: Seq<Mapping>, size: u32) -> Option<u32> {
    find_gap_rec(ms, 0, size)
}

/// Per-process kernel32 state: the image base, the TEB address, and the
/// list of address-space mappings.
pub struct State {
    pub image_base: u32,
    pub teb: u32,
    pub mappings: Vec<Mapping>,
}

impl State {
    pub open spec fn wf(&self) -> bool {
        mappings_wf(self.mappings@)
    }

    /// Fresh state: no image, no TEB, and only the null-pointer guard mapped.
    pub fn new() -> (r: State)
        ensures
            r.wf(),
            r.image_base == 0,
            r.teb == 0,
            r.mappings@.len() == 1,
            r.mappings@[0].addr == 0,
            r.mappings@[0].size == NULL_POINTER_REGION_SIZE,
    {
        let mut mappings: Vec<Mapping> = Vec::new();
        mappings.push(
            Mapping {
                addr: 0,
                size: NULL_POINTER_REGION_SIZE,
                desc: String::from_str("avoid null pointers"),
            },
        );
        State { image_base: 0, teb: 0, mappings }
    }

    /// Insert `mapping` at the unique position that keeps the list sorted;
    /// the caller must ensure it does not overlap a neighbour.
    pub fn add_mapping(&mut self, mapping: Mapping)
        requires
            old(self).wf(),
            mapping.addr + mapping.size <= 0xFFFF_F000,
            can_add(old(self).mappings@, mapping),
        ensures
            final(self).wf(),
            final(self).mappings@ == old(self).mappings@.insert(
                insert_pos(old(self).mappings@, mapping.addr),
                mapping,
            ),
            final(self).image_base == old(self).image_base,
            final(self).teb == old(self).teb,
    {
        let n = self.mappings.len();
        let mut pos: usize = 0;
        while pos < n && self.mappings[pos].addr <= mapping.addr
            invariant
                *self == *old(self),
                n == self.mappings@.len(),
                pos <= n,
                forall|k: int| 0 <= k < pos ==> (#[trigger] self.mappings@[k]).addr <= mapping.addr,
            decreases n - pos,
        {
            pos = pos + 1;
        }
        proof {
            lemma_insert_pos_char(self.mappings@, mapping.addr, pos as int);
            lemma_insert_wf(self.mappings@, pos as int, mapping);
        }
        self.mappings.insert(pos, mapping);
    }

    /// Whether `allocate(size, ..)` may be called: the allocation scan is
    /// free of underflow and finds a sufficient gap.
    pub fn can_allocate(&self, size: u32) -> (r: bool)
        requires
            self.wf(),
        ensures
            r == (scan_ok(self.mappings@, size) && find_gap(self.mappings@, size).is_some()),
    {
        let ghost ms0 = self.mappings@;
        let n = self.mappings.len();
        proof {
            assert(ms0.subrange(0, n as int) =~= ms0);
        }
        let mut end: u32 = 0;
        let mut pos: usize = 0;
        while pos < n
            invariant
                mappings_wf(self.mappings@),
                n == self.mappings@.len(),
                ms0 == self.mappings@,
                pos <= n,
                scan_ok(ms0, size) == scan_ok_rec(ms0.subrange(pos as int, n as int), end, size),
                scan_ok(ms0, size) ==> find_gap(ms0, size) == find_gap_rec(
                    ms0.subrange(pos as int, n as int),
                    end,
                    size,
                ),
            decreases n - pos,
        {
            let ghost rest = ms0.subrange(pos as int, n as int);
            proof {
                assert(rest[0] == ms0[pos as int]);
            }
            let m_addr = self.mappings[pos].addr;
            let m_size = self.mappings[pos].size;
            if end > m_addr {
                return false;
            }
            let space = m_addr - end;
            if space > size {
                return true;
            }
            let m_end = m_addr + m_size;
            end = (m_end + 0xFFF) & !0xFFF;
            proof {
                assert(ms0.subrange(pos + 1, n as int) == rest.subrange(1, rest.len() as int));
            }
            pos = pos + 1;
        }
        proof {
            assert(ms0.subrange(n as int, n as int).len() == 0);
        }
        if end <= 0xFFFF_F000 && size <= 0xFFFF_F000 - end {
            true
        } else {
            false
        }
    }

    /// Allocate a `size`-byte mapping in the first sufficient gap; the base
    /// is always 4 KiB aligned.
    pub fn allocate(&mut self, size: u32, desc: String) -> (r: Mapping)
        requires
            old(self).wf(),
            scan_ok(old(self).mappings@, size),
            find_gap(old(self).mappings@, size).is_some(),
        ensures
            final(self).wf(),
            r.addr == find_gap(old(self).mappings@, size).unwrap(),
            r.size == size,
            r.desc == desc,
            r.addr % 0x1000 == 0,
            exists|pos: int|
                0 <= pos <= old(self).mappings@.len() && final(self).mappings@ == old(
                    self,
                ).mappings@.insert(pos, r),
            final(self).image_base == old(self).image_base,
            final(self).teb == old(self).teb,
    {
        let ghost ms0 = self.mappings@;
        let n = self.mappings.len();
        proof {
            assert(ms0.subrange(0, n as int) =~= ms0);
        }
        let mut end: u32 = 0;
        let mut pos: usize = 0;
        while pos < n
            invariant
                *self == *old(self),
                mappings_wf(self.mappings@),
                n == self.mappings@.len(),
                ms0 == self.mappings@,
                pos <= n,
                end % 0x1000 == 0,
                pos > 0 ==> self.mappings@[pos - 1].addr + self.mappings@[pos - 1].size <= end,
                scan_ok_rec(ms0.subrange(pos as int, n as int), end, size),
                find_gap_rec(ms0.subrange(pos as int, n as int), end, size) == find_gap(ms0, size),
            decreases n - pos,
        {
            let ghost rest = ms0.subrange(pos as int, n as int);
            proof {
                assert(rest[0] == ms0[pos as int]);
            }
            let m_addr = self.mappings[pos].addr;
            let m_size = self.mappings[pos].size;
            let space = m_addr - end;
            if space > size {
                let r = Mapping { addr: end, size, desc: desc.clone() };
                proof {
                    lemma_insert_wf(ms0, pos as int, r);
                }
                self.mappings.insert(pos, Mapping { addr: end, size, desc });
                proof {
                    assert(self.mappings@ == ms0.insert(pos as int, r));
                }
                return r;
            }
            let m_end = m_addr + m_size;
            end = (m_end + 0xFFF) & !0xFFF;
            proof {
                lemma_page_round_up(m_end);
                assert(ms0.subrange(pos + 1, n as int) == rest.subrange(1, rest.len() as int));
            }
            pos = pos + 1;
        }
        proof {
            assert(ms0.subrange(n as int, n as int).len() == 0);
        }
        let r = Mapping { addr: end, size, desc: desc.clone() };
        proof {
            lemma_insert_wf(ms0, n as int, r);
        }
        self.mappings.push(Mapping { addr: end, size, desc });
        proof {
            assert(self.mappings@ =~= ms0.insert(n as int, r));
        }
        r
    }
}

/// kernel32.dll!ExitProcess(uExitCode): terminate the process through the
/// host. The exit code is the single stdcall argument.
#[allow(non_snake_case)]
pub fn ExitProcess(x86: &mut X86)
    requires
        old(x86).wf(),
        old(x86).regs.esp + 4 <= old(x86).mem@.len(),
    ensures
        final(x86).wf(),
        final(x86).regs.esp == old(x86).regs.esp + 4,
        final(x86).host.events@ == old(x86).host.events@.push(
            HostEvent::Exit { code: u32_at(old(x86).mem@, old(x86).regs.esp as int) },
        ),
        final(x86).host.exited,
        final(x86).host.next_handle == old(x86).host.next_handle,
        final(x86).mem@ == old(x86).mem@,
        final(x86).state == old(x86).state,
        final(x86).regs.eax == old(x86).regs.eax,
        final(x86).regs.eip == old(x86).regs.eip,
{
    let uExitCode = x86.pop();
    x86.host.exit(uExitCode);
}

/// kernel32.dll!GetModuleHandleA(lpModuleName): the module handle is the
/// image base for a null name; any other name is unimplemented and yields 0.
#[allow(non_snake_case)]
pub fn GetModuleHandleA(x86: &mut X86)
    requires
        old(x86).wf(),
        old(x86).regs.esp + 4 <= old(x86).mem@.len(),
    ensures
        final(x86).wf(),
        final(x86).regs.esp == old(x86).regs.esp + 4,
        final(x86).regs.eax == if u32_at(old(x86).mem@, old(x86).regs.esp as int) == 0 {
            old(x86).state.kernel32.image_base
        } else {
            0u32
        },
        final(x86).regs.eip == old(x86).regs.eip,
        final(x86).mem@ == old(x86).mem@,
        final(x86).state == old(x86).state,
        final(x86).host == old(x86).host,
{
    let lpModuleName = x86.pop();
    if lpModuleName == 0 {
        x86.regs.eax = x86.state.kernel32.image_base;
    } else {
        x86.regs.eax = 0;
    }
}

/// kernel32.dll!WriteFile(hFile, lpBuffer, n, lpNumberOfBytesWritten,
/// lpOverlapped): write `n` guest bytes at `lpBuffer` to standard output.
/// Only `hFile == STDOUT_HFILE` with no overlapped I/O is supported; the
/// byte count is stored at `lpNumberOfBytesWritten` and `eax` is set to 1.
#[allow(non_snake_case)]
pub fn WriteFile(x86: &mut X86)
    requires
        old(x86).wf(),
        old(x86).regs.esp + 20 <= old(x86).mem@.len(),
        u32_at(old(x86).mem@, old(x86).regs.esp as int) == STDOUT_HFILE,
        u32_at(old(x86).mem@, old(x86).regs.esp + 16) == 0,
        u32_at(old(x86).mem@, old(x86).regs.esp + 4) + u32_at(
            old(x86).mem@,
            old(x86).regs.esp + 8,
        ) <= old(x86).mem@.len(),
        u32_at(old(x86).mem@, old(x86).regs.esp + 12) + 4 <= old(x86).mem@.len(),
    ensures
        final(x86).wf(),
        final(x86).regs.esp == old(x86).regs.esp + 20,
        ({
            let buf = u32_at(old(x86).mem@, old(x86).regs.esp + 4);
            let n = u32_at(old(x86).mem@, old(x86).regs.esp + 8);
            let written = u32_at(old(x86).mem@, old(x86).regs.esp + 12);
            &&& final(x86).host.events@.len() == old(x86).host.events@.len() + 1
            &&& final(x86).host.events@.subrange(0, old(x86).host.events@.len() as int) == old(
                x86,
            ).host.events@
            &&& (final(x86).host.events@.last() matches HostEvent::Write { buf: b } && b@ == old(
                x86,
            ).mem@.subrange(buf as int, buf + n))
            &&& final(x86).mem@ == store_u32(old(x86).mem@, written as int, n)
        }),
        final(x86).regs.eax == 1,
        final(x86).regs.eip == old(x86).regs.eip,
        final(x86).state == old(x86).state,
        final(x86).host.next_handle == old(x86).host.next_handle,
        final(x86).host.exited == old(x86).host.exited,
{
    let _hFile = x86.pop();
    let lpBuffer = x86.pop();
    let nNumberOfBytesToWrite = x86.pop();
    let lpNumberOfBytesWritten = x86.pop();
    let _lpOverlapped = x86.pop();

    let buf = x86.mem.read_bytes(lpBuffer, nNumberOfBytesToWrite);
    let n = x86.host.write(buf);
    x86.mem.write_u32(lpNumberOfBytesWritten, n);
    x86.regs.eax = 1;
}

/// kernel32.dll!VirtualAlloc(lpAddress, dwSize, flAllocationType,
/// flProtect): allocate a fresh `dwSize`-byte mapping and return its base.
/// Only `lpAddress == 0` and `flAllocationType == MEM_COMMIT` are supported.
#[allow(non_snake_case)]
pub fn VirtualAlloc(x86: &mut X86)
    requires
        old(x86).wf(),
        old(x86).regs.esp + 16 <= old(x86).mem@.len(),
        u32_at(old(x86).mem@, old(x86).regs.esp as int) == 0,
        u32_at(old(x86).mem@, old(x86).regs.esp + 8) == MEM_COMMIT,
        scan_ok(
            old(x86).state.kernel32.mappings@,
            u32_at(old(x86).mem@, old(x86).regs.esp + 4),
        ),
        find_gap(
            old(x86).state.kernel32.mappings@,
            u32_at(old(x86).mem@, old(x86).regs.esp + 4),
        ).is_some(),
    ensures
        final(x86).wf(),
        final(x86).regs.esp == old(x86).regs.esp + 16,
        ({
            let size = u32_at(old(x86).mem@, old(x86).regs.esp + 4);
            let ms = old(x86).state.kernel32.mappings@;
            let base = find_gap(ms, size).unwrap();
            &&& final(x86).regs.eax == base
            &&& base % 0x1000 == 0
            &&& exists|pos: int, m: Mapping|
                0 <= pos <= ms.len() && final(x86).state.kernel32.mappings@ == ms.insert(pos, m)
                    && m.addr == base && m.size == size
        }),
        final(x86).state.kernel32.image_base == old(x86).state.kernel32.image_base,
        final(x86).state.kernel32.teb == old(x86).state.kernel32.teb,
        final(x86).state.user32 == old(x86).state.user32,
        final(x86).state.gdi32 == old(x86).state.gdi32,
        final(x86).state.ddraw == old(x86).state.ddraw,
        final(x86).state.pending == old(x86).state.pending,
        final(x86).regs.eip == old(x86).regs.eip,
        final(x86).mem@ == old(x86).mem@,
        final(x86).host == old(x86).host,
{
    let _lpAddress = x86.pop();
    let dwSize = x86.pop();
    let _flAllocationType = x86.pop();
    let _flProtect = x86.pop();

    let mapping = x86.state.kernel32.allocate(dwSize, String::from_str("VirtualAlloc"));
    x86.regs.eax = mapping.addr;
}

} // verus!
