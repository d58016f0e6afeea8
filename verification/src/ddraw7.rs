//! The IDirectDraw7 interface: vtable installation, COM object
//! construction, and the IDirectDraw7 methods.

#![allow(non_snake_case)]

use vstd::prelude::*;
use vstd::string::StringExecFns;

use crate::ddraw::{
    iface_slots, vtable_slot_ok, vtable_contents_ok, vtables_inited, Interface, PaletteEntry,
    Surface, DDPCAPS_8BIT, DDPF_OFF_ALPHABITMASK, DDPF_OFF_BBITMASK, DDPF_OFF_GBITMASK,
    DDPF_OFF_RBITMASK, DDPF_OFF_RGBBITCOUNT, DDPF_SIZE, DDSCAPS_PRIMARYSURFACE, DDSD2_OFF_CAPS1,
    DDSD2_OFF_FLAGS, DDSD2_OFF_HEIGHT, DDSD2_OFF_PIXELFORMAT, DDSD2_OFF_WIDTH, DDSD2_SIZE,
    DDSD_CAPS, DDSD_HEIGHT, DDSD_WIDTH, DD_OK, IDIRECTDRAW7_SLOTS, IDIRECTDRAWPALETTE_SLOTS,
    IDIRECTDRAWSURFACE7_SLOTS,
};
use crate::heap::{lemma_round_up4, Heap};
use crate::host::HostEvent;
use crate::kernel32::{find_gap, scan_ok, Mapping};
use crate::mem::{lemma_store_u32, store_u32, u32_at, zero_range, Mem};
use crate::{PendingCall, X86, CALLBACK_SENTINEL};

verus! {

/// The interface identifier of IDirectDraw7,
/// {15E65EC0-3B9C-11D2-B92F-00609797EA5B}, as its 16 little-endian guest
/// bytes.
#[allow(non_upper_case_globals)]
pub const IID_IDirectDraw7: [u8; 16] = [
    0xc0, 0x5e, 0xe6, 0x15, 0x9c, 0x3b, 0xd2, 0x11, 0xb9, 0x2f, 0x00, 0x60, 0x97, 0x97, 0xea, 0x5b,
];

/// One vtable entry: slot `k` holds the `k`-th thunk address of the block
/// at `shim_base`.
pub open spec fn vtable_entry_ok(m: Seq<u8>, vt: u32, shim_base: u32, k: u32) -> bool {
    u32_at(m, vt + 4 * k) == shim_base + 4 * k
}

proof fn lemma_u32_at_unchanged(m1: Seq<u8>, m2: Seq<u8>, a: int)
    requires
        0 <= a,
        a + 4 <= m1.len(),
        m1.len() == m2.len(),
        forall|j: int| a <= j < a + 4 ==> m1[j] == m2[j],
    ensures
        u32_at(m1, a) == u32_at(m2, a),
{
}

/// Fill the vtable at `vt` with `n` consecutive thunk addresses starting at
/// `shim_base`.
fn write_vtable(mem: &mut Mem, vt: u32, shim_base: u32, n: u32)
    requires
        old(mem)@.len() <= 0x1_0000_0000,
        vt + 4 * n <= old(mem)@.len(),
        shim_base + 4 * n <= 0xFFFF_FFFF,
    ensures
        final(mem)@.len() == old(mem)@.len(),
        forall|k: u32| k < n ==> #[trigger] vtable_entry_ok(final(mem)@, vt, shim_base, k),
        forall|j: int|
            0 <= j < final(mem)@.len() && !(vt <= j < vt + 4 * n) ==> final(mem)@[j] == old(
                mem,
            )@[j],
{
    let mut k: u32 = 0;
    while k < n
        invariant
            k <= n,
            mem@.len() == old(mem)@.len(),
            mem@.len() <= 0x1_0000_0000,
            vt + 4 * n <= mem@.len(),
            shim_base + 4 * n <= 0xFFFF_FFFF,
            forall|j: u32| j < k ==> #[trigger] vtable_entry_ok(mem@, vt, shim_base, j),
            forall|j: int|
                0 <= j < mem@.len() && !(vt <= j < vt + 4 * k) ==> mem@[j] == old(mem)@[j],
        decreases n - k,
    {
        let ghost mprev = mem@;
        mem.write_u32(vt + 4 * k, shim_base + 4 * k);
        proof {
            assert forall|j: u32| j < k + 1 implies #[trigger] vtable_entry_ok(
                mem@,
                vt,
                shim_base,
                j,
            ) by {
                if j < k {
                    assert(vtable_entry_ok(mprev, vt, shim_base, j));
                    lemma_u32_at_unchanged(mem@, mprev, vt + 4 * j);
                } else {
                    assert(u32_at(mem@, vt + 4 * k) == shim_base + 4 * k);
                }
            }
        }
        k = k + 1;
    }
}

/// Install the DirectDraw vtables: allocate a mapping for the DirectDraw
/// heap, intern one block of shim thunk addresses and one vtable per
/// interface at its base, and record their addresses.
pub fn ddraw_init(x86: &mut X86, heap_size: u32)
    requires
        old(x86).wf(),
        old(x86).state.ddraw.surfaces@ == Map::<u32, Surface>::empty(),
        old(x86).state.ddraw.palettes@ == Map::<u32, Vec<PaletteEntry>>::empty(),
        688 <= heap_size,
        scan_ok(old(x86).state.kernel32.mappings@, heap_size),
        find_gap(old(x86).state.kernel32.mappings@, heap_size).is_some(),
        find_gap(old(x86).state.kernel32.mappings@, heap_size).unwrap() != 0,
        find_gap(old(x86).state.kernel32.mappings@, heap_size).unwrap() + heap_size <= old(x86).mem@.len(),
    ensures
        final(x86).wf(),
        vtables_inited(final(x86).state.ddraw),
        vtable_contents_ok(final(x86).state.ddraw, final(x86).mem@),
        ({
            let base = find_gap(old(x86).state.kernel32.mappings@, heap_size).unwrap();
            &&& final(x86).state.ddraw.heap.addr == base
            &&& final(x86).state.ddraw.heap.size == heap_size
            &&& final(x86).state.ddraw.heap.next == 688
            &&& exists|pos: int, m: Mapping|
                0 <= pos <= old(x86).state.kernel32.mappings@.len() && final(x86).state.kernel32.mappings@ == old(x86).state.kernel32.mappings@.insert(pos, m)
                    && m.addr == base && m.size == heap_size
            &&& forall|j: int|
                0 <= j < final(x86).mem@.len() && !(base <= j < base + 688) ==> final(x86).mem@[j]
                    == old(x86).mem@[j]
        }),
        final(x86).mem@.len() == old(x86).mem@.len(),
        final(x86).state.ddraw.surfaces@ == old(x86).state.ddraw.surfaces@,
        final(x86).state.ddraw.palettes@ == old(x86).state.ddraw.palettes@,
        final(x86).state.ddraw.hwnd == old(x86).state.ddraw.hwnd,
        final(x86).state.ddraw.width == old(x86).state.ddraw.width,
        final(x86).state.ddraw.height == old(x86).state.ddraw.height,
        final(x86).state.ddraw.palette_hack == old(x86).state.ddraw.palette_hack,
        final(x86).state.kernel32.image_base == old(x86).state.kernel32.image_base,
        final(x86).state.user32 == old(x86).state.user32,
        final(x86).state.gdi32 == old(x86).state.gdi32,
        final(x86).state.pending == old(x86).state.pending,
        final(x86).regs == old(x86).regs,
        final(x86).host == old(x86).host,
{
    let mapping = x86.state.kernel32.allocate(heap_size, String::from_str("ddraw.dll"));
    let base = mapping.addr;
    proof {
        assert(base % 4 == 0) by (bit_vector)
            requires
                base % 0x1000 == 0u32,
        ;
        lemma_round_up4(120);
        lemma_round_up4(196);
        lemma_round_up4(28);
    }
    let mut hp = Heap::new(base, heap_size);
    let shims_dd7 = hp.allocate(120);
    let shims_s7 = hp.allocate(196);
    let shims_pal = hp.allocate(28);
    let vt_dd7 = hp.allocate(120);
    let vt_s7 = hp.allocate(196);
    let vt_pal = hp.allocate(28);
    x86.state.ddraw.heap = hp;
    x86.state.ddraw.shims_ddraw7 = shims_dd7;
    x86.state.ddraw.shims_surface7 = shims_s7;
    x86.state.ddraw.shims_palette = shims_pal;
    x86.state.ddraw.vtable_ddraw7 = vt_dd7;
    x86.state.ddraw.vtable_surface7 = vt_s7;
    x86.state.ddraw.vtable_palette = vt_pal;
    write_vtable(&mut x86.mem, vt_dd7, shims_dd7, IDIRECTDRAW7_SLOTS);
    let ghost m1 = x86.mem@;
    write_vtable(&mut x86.mem, vt_s7, shims_s7, IDIRECTDRAWSURFACE7_SLOTS);
    let ghost m2 = x86.mem@;
    write_vtable(&mut x86.mem, vt_pal, shims_pal, IDIRECTDRAWPALETTE_SLOTS);
    proof {
        let d = x86.state.ddraw;
        let m3 = x86.mem@;
        assert forall|i: Interface, k: u32| k < iface_slots(i) implies #[trigger] vtable_slot_ok(
            d,
            m3,
            i,
            k,
        ) by {
            match i {
                Interface::DirectDraw7 => {
                    assert(vtable_entry_ok(m1, vt_dd7, shims_dd7, k));
                    lemma_u32_at_unchanged(m2, m1, vt_dd7 + 4 * k);
                    lemma_u32_at_unchanged(m3, m2, vt_dd7 + 4 * k);
                },
                Interface::DirectDrawSurface7 => {
                    assert(vtable_entry_ok(m2, vt_s7, shims_s7, k));
                    lemma_u32_at_unchanged(m3, m2, vt_s7 + 4 * k);
                },
                Interface::DirectDrawPalette => {
                    assert(vtable_entry_ok(m3, vt_pal, shims_pal, k));
                },
            }
        }
    }
}

/// Allocate a 4-byte COM object on the DirectDraw heap whose single field
/// is the guest address of `vtable`; object identity is its address.
pub(crate) fn new_com_object(x86: &mut X86, vtable: u32) -> (r: u32)
    requires
        old(x86).wf(),
        old(x86).state.ddraw.heap.next + 4 <= old(x86).state.ddraw.heap.size,
    ensures
        final(x86).wf(),
        r == old(x86).state.ddraw.heap.addr + old(x86).state.ddraw.heap.next,
        r % 4 == 0,
        r > 0,
        r + 4 <= old(x86).state.ddraw.heap.addr + old(x86).state.ddraw.heap.size,
        final(x86).state.ddraw.heap.next == old(x86).state.ddraw.heap.next + 4,
        final(x86).state.ddraw.heap.last == r,
        final(x86).state.ddraw.heap.addr == old(x86).state.ddraw.heap.addr,
        final(x86).state.ddraw.heap.size == old(x86).state.ddraw.heap.size,
        final(x86).mem@ == store_u32(old(x86).mem@, r as int, vtable),
        u32_at(final(x86).mem@, r as int) == vtable,
        final(x86).mem@.len() == old(x86).mem@.len(),
        final(x86).state.ddraw.surfaces == old(x86).state.ddraw.surfaces,
        final(x86).state.ddraw.palettes == old(x86).state.ddraw.palettes,
        final(x86).state.ddraw.hwnd == old(x86).state.ddraw.hwnd,
        final(x86).state.ddraw.width == old(x86).state.ddraw.width,
        final(x86).state.ddraw.height == old(x86).state.ddraw.height,
        final(x86).state.ddraw.palette_hack == old(x86).state.ddraw.palette_hack,
        final(x86).state.ddraw.vtable_ddraw7 == old(x86).state.ddraw.vtable_ddraw7,
        final(x86).state.ddraw.vtable_surface7 == old(x86).state.ddraw.vtable_surface7,
        final(x86).state.ddraw.vtable_palette == old(x86).state.ddraw.vtable_palette,
        final(x86).state.ddraw.shims_ddraw7 == old(x86).state.ddraw.shims_ddraw7,
        final(x86).state.ddraw.shims_surface7 == old(x86).state.ddraw.shims_surface7,
        final(x86).state.ddraw.shims_palette == old(x86).state.ddraw.shims_palette,
        final(x86).state.kernel32 == old(x86).state.kernel32,
        final(x86).state.user32 == old(x86).state.user32,
        final(x86).state.gdi32 == old(x86).state.gdi32,
        final(x86).state.pending == old(x86).state.pending,
        final(x86).regs == old(x86).regs,
        final(x86).host == old(x86).host,
{
    proof {
        lemma_round_up4(4);
    }
    let r = x86.state.ddraw.heap.allocate(4);
    x86.mem.write_u32(r, vtable);
    r
}

/// IDirectDraw7::Release: object destruction is a leak by design; always 0.
pub fn Release(x86: &mut X86, this: u32) -> (r: u32)
    requires
        old(x86).wf(),
    ensures
        final(x86).wf(),
        r == 0,
        final(x86).mem@ == old(x86).mem@,
        final(x86).state == old(x86).state,
        final(x86).regs == old(x86).regs,
        final(x86).host == old(x86).host,
{
    let _ = this;
    0
}

/// The palette entry stored at offset `a`: a red, green, blue, flags
/// byte quadruple.
pub open spec fn palette_entry_at(m: Seq<u8>, a: int) -> PaletteEntry {
    PaletteEntry { red: m[a], green: m[a + 1], blue: m[a + 2], flags: m[a + 3] }
}

/// Read the 256 palette entries at `addr`.
fn read_palette_entries(mem: &Mem, addr: u32) -> (r: Vec<PaletteEntry>)
    requires
        mem@.len() <= 0x1_0000_0000,
        addr + 1024 <= mem@.len(),
    ensures
        r@.len() == 256,
        forall|i: int| 0 <= i < 256 ==> r@[i] == palette_entry_at(mem@, addr + 4 * i),
{
    let mut r: Vec<PaletteEntry> = Vec::new();
    let mut i: u32 = 0;
    while i < 256
        invariant
            i <= 256,
            mem@.len() <= 0x1_0000_0000,
            addr + 1024 <= mem@.len(),
            r@.len() == i,
            forall|j: int| 0 <= j < i ==> r@[j] == palette_entry_at(mem@, addr + 4 * j),
        decreases 256 - i,
    {
        let a = addr + 4 * i;
        let red = mem.read_u8(a);
        let green = mem.read_u8(a + 1);
        let blue = mem.read_u8(a + 2);
        let flags = mem.read_u8(a + 3);
        r.push(PaletteEntry { red, green, blue, flags });
        i = i + 1;
    }
    r
}

/// IDirectDraw7::CreatePalette(flags, entries, lplpPalette, _): the flags
/// must contain the 8-bit capability; reads 256 entries from guest memory,
/// constructs a palette object, and stores its address at `lplpPalette`.
pub fn CreatePalette(
    x86: &mut X86,
    this: u32,
    flags: u32,
    entries: u32,
    lplpPalette: u32,
    unused: u32,
) -> (r: u32)
    requires
        old(x86).wf(),
        flags & DDPCAPS_8BIT != 0,
        entries + 1024 <= old(x86).mem@.len(),
        lplpPalette + 4 <= old(x86).mem@.len(),
        old(x86).state.ddraw.heap.next + 4 <= old(x86).state.ddraw.heap.size,
    ensures
        final(x86).wf(),
        r == DD_OK,
        ({
            let pal = old(x86).state.ddraw.heap.addr + old(x86).state.ddraw.heap.next;
            &&& final(x86).state.ddraw.palettes@.dom() == old(x86).state.ddraw.palettes@.dom().insert(pal as u32)
            &&& final(x86).state.ddraw.palettes@[pal as u32]@.len() == 256
            &&& forall|i: int|
                0 <= i < 256 ==> #[trigger] (final(x86).state.ddraw.palettes@[pal as u32]@[i])
                    == palette_entry_at(old(x86).mem@, entries + 4 * i)
            &&& forall|k: u32|
                old(x86).state.ddraw.palettes@.dom().contains(k) && k != pal ==> final(x86).state.ddraw.palettes@[k] == old(x86).state.ddraw.palettes@[k]
            &&& final(x86).mem@ == store_u32(
                store_u32(old(x86).mem@, pal as int, old(x86).state.ddraw.vtable_palette),
                lplpPalette as int,
                pal as u32,
            )
            &&& u32_at(final(x86).mem@, lplpPalette as int) == pal
        }),
        final(x86).state.ddraw.surfaces == old(x86).state.ddraw.surfaces,
        final(x86).state.ddraw.palette_hack == old(x86).state.ddraw.palette_hack,
        final(x86).state.kernel32 == old(x86).state.kernel32,
        final(x86).state.user32 == old(x86).state.user32,
        final(x86).state.gdi32 == old(x86).state.gdi32,
        final(x86).state.pending == old(x86).state.pending,
        final(x86).regs == old(x86).regs,
        final(x86).host == old(x86).host,
{
    let _ = this;
    let _ = unused;
    let entries_vec = read_palette_entries(&x86.mem, entries);
    let vtable = x86.state.ddraw.vtable_palette;
    let palette = new_com_object(x86, vtable);
    x86.state.ddraw.palettes.insert(palette, entries_vec);
    x86.mem.write_u32(lplpPalette, palette);
    proof {
        lemma_store_u32(
            store_u32(old(x86).mem@, palette as int, old(x86).state.ddraw.vtable_palette),
            lplpPalette as int,
            palette,
        );
        assert(x86.state.ddraw.palettes@.dom() =~= old(x86).state.ddraw.palettes@.dom().insert(
            palette,
        ));
    }
    DD_OK
}

/// IDirectDraw7::CreateSurface(lpDesc, lpOut, _): derive the new surface's
/// geometry from the description's width/height fields; a primary surface
/// takes the current display mode instead. Creates a host surface,
/// materializes the guest object, and stores its address at `lpOut`.
pub fn CreateSurface(x86: &mut X86, this: u32, lpDesc: u32, lpOut: u32, unused: u32) -> (r: u32)
    requires
        old(x86).wf(),
        lpDesc != 0,
        lpDesc + DDSD2_SIZE <= old(x86).mem@.len(),
        lpOut != 0,
        lpOut + 4 <= old(x86).mem@.len(),
        u32_at(old(x86).mem@, lpDesc as int) == DDSD2_SIZE,
        old(x86).state.ddraw.heap.next + 4 <= old(x86).state.ddraw.heap.size,
        old(x86).host.next_handle < u32::MAX,
    ensures
        final(x86).wf(),
        r == DD_OK,
        ({
            let flags = u32_at(old(x86).mem@, lpDesc + DDSD2_OFF_FLAGS);
            let primary = flags & DDSD_CAPS != 0 && u32_at(old(x86).mem@, lpDesc + DDSD2_OFF_CAPS1)
                & DDSCAPS_PRIMARYSURFACE != 0;
            let w = if primary {
                old(x86).state.ddraw.width
            } else if flags & DDSD_WIDTH != 0 {
                u32_at(old(x86).mem@, lpDesc + DDSD2_OFF_WIDTH)
            } else {
                0u32
            };
            let h = if primary {
                old(x86).state.ddraw.height
            } else if flags & DDSD_HEIGHT != 0 {
                u32_at(old(x86).mem@, lpDesc + DDSD2_OFF_HEIGHT)
            } else {
                0u32
            };
            let obj = old(x86).state.ddraw.heap.addr + old(x86).state.ddraw.heap.next;
            &&& final(x86).host.events@ == old(x86).host.events@.push(
                HostEvent::CreateSurface {
                    handle: old(x86).host.next_handle,
                    width: w,
                    height: h,
                    primary,
                },
            )
            &&& final(x86).state.ddraw.surfaces@ == old(x86).state.ddraw.surfaces@.insert(
                obj as u32,
                Surface {
                    host: old(x86).host.next_handle,
                    width: w,
                    height: h,
                    palette: 0,
                    pixels: 0,
                },
            )
            &&& final(x86).mem@ == store_u32(
                store_u32(old(x86).mem@, obj as int, old(x86).state.ddraw.vtable_surface7),
                lpOut as int,
                obj as u32,
            )
            &&& u32_at(final(x86).mem@, lpOut as int) == obj
        }),
        final(x86).host.next_handle == old(x86).host.next_handle + 1,
        final(x86).host.exited == old(x86).host.exited,
        final(x86).state.ddraw.heap.next == old(x86).state.ddraw.heap.next + 4,
        final(x86).state.ddraw.heap.addr == old(x86).state.ddraw.heap.addr,
        final(x86).state.ddraw.heap.size == old(x86).state.ddraw.heap.size,
        final(x86).state.ddraw.palettes == old(x86).state.ddraw.palettes,
        final(x86).state.ddraw.palette_hack == old(x86).state.ddraw.palette_hack,
        final(x86).state.ddraw.hwnd == old(x86).state.ddraw.hwnd,
        final(x86).state.ddraw.width == old(x86).state.ddraw.width,
        final(x86).state.ddraw.height == old(x86).state.ddraw.height,
        final(x86).state.kernel32 == old(x86).state.kernel32,
        final(x86).state.user32 == old(x86).state.user32,
        final(x86).state.gdi32 == old(x86).state.gdi32,
        final(x86).state.pending == old(x86).state.pending,
        final(x86).regs == old(x86).regs,
{
    let _ = this;
    let _ = unused;
    let flags = x86.mem.read_u32(lpDesc + DDSD2_OFF_FLAGS);
    let mut width: u32 = 0;
    let mut height: u32 = 0;
    if flags & DDSD_WIDTH != 0 {
        width = x86.mem.read_u32(lpDesc + DDSD2_OFF_WIDTH);
    }
    if flags & DDSD_HEIGHT != 0 {
        height = x86.mem.read_u32(lpDesc + DDSD2_OFF_HEIGHT);
    }
    let mut primary = false;
    if flags & DDSD_CAPS != 0 {
        let caps1 = x86.mem.read_u32(lpDesc + DDSD2_OFF_CAPS1);
        if caps1 & DDSCAPS_PRIMARYSURFACE != 0 {
            width = x86.state.ddraw.width;
            height = x86.state.ddraw.height;
            primary = true;
        }
    }
    let host_surface = x86.host.create_surface(width, height, primary);
    let vtable = x86.state.ddraw.vtable_surface7;
    let obj = new_com_object(x86, vtable);
    x86.mem.write_u32(lpOut, obj);
    let created = Surface { host: host_surface, width, height, palette: 0, pixels: 0 };
    proof {
        crate::ddraw::lemma_surfaces_ok_insert(
            x86.state.ddraw.surfaces@,
            x86.state.ddraw.heap,
            obj,
            created,
        );
        lemma_store_u32(
            store_u32(old(x86).mem@, obj as int, old(x86).state.ddraw.vtable_surface7),
            lpOut as int,
            obj,
        );
    }
    x86.state.ddraw.surfaces.insert(obj, created);
    DD_OK
}

/// IDirectDraw7::SetCooperativeLevel(hwnd, flags): records the cooperating
/// window.
pub fn SetCooperativeLevel(x86: &mut X86, this: u32, hwnd: u32, flags: u32) -> (r: u32)
    requires
        old(x86).wf(),
    ensures
        final(x86).wf(),
        r == DD_OK,
        final(x86).state.ddraw.hwnd == hwnd,
        final(x86).state.ddraw.width == old(x86).state.ddraw.width,
        final(x86).state.ddraw.height == old(x86).state.ddraw.height,
        final(x86).state.ddraw.palette_hack == old(x86).state.ddraw.palette_hack,
        final(x86).state.ddraw.surfaces == old(x86).state.ddraw.surfaces,
        final(x86).state.ddraw.palettes == old(x86).state.ddraw.palettes,
        final(x86).state.ddraw.heap == old(x86).state.ddraw.heap,
        final(x86).mem@ == old(x86).mem@,
        final(x86).state.kernel32 == old(x86).state.kernel32,
        final(x86).state.user32 == old(x86).state.user32,
        final(x86).state.gdi32 == old(x86).state.gdi32,
        final(x86).state.pending == old(x86).state.pending,
        final(x86).regs == old(x86).regs,
        final(x86).host == old(x86).host,
{
    let _ = this;
    let _ = flags;
    x86.state.ddraw.hwnd = hwnd;
    DD_OK
}

/// IDirectDraw7::SetDisplayMode(width, height, bpp, refresh, flags):
/// records the display mode; if a cooperating window is known, resizes its
/// host window.
pub fn SetDisplayMode(
    x86: &mut X86,
    this: u32,
    width: u32,
    height: u32,
    bpp: u32,
    refresh: u32,
    flags: u32,
) -> (r: u32)
    requires
        old(x86).wf(),
        old(x86).state.ddraw.hwnd != 0 ==> old(x86).state.user32.windows@.dom().contains(
            old(x86).state.ddraw.hwnd,
        ),
    ensures
        final(x86).wf(),
        r == DD_OK,
        final(x86).state.ddraw.width == width,
        final(x86).state.ddraw.height == height,
        old(x86).state.ddraw.hwnd != 0 ==> final(x86).host.events@ == old(x86).host.events@.push(
            HostEvent::SetSize {
                window: old(x86).state.user32.windows@[old(x86).state.ddraw.hwnd].host,
                width,
                height,
            },
        ),
        old(x86).state.ddraw.hwnd == 0 ==> final(x86).host == old(x86).host,
        final(x86).host.next_handle == old(x86).host.next_handle,
        final(x86).host.exited == old(x86).host.exited,
        final(x86).state.ddraw.hwnd == old(x86).state.ddraw.hwnd,
        final(x86).state.ddraw.palette_hack == old(x86).state.ddraw.palette_hack,
        final(x86).state.ddraw.surfaces == old(x86).state.ddraw.surfaces,
        final(x86).state.ddraw.palettes == old(x86).state.ddraw.palettes,
        final(x86).state.ddraw.heap == old(x86).state.ddraw.heap,
        final(x86).mem@ == old(x86).mem@,
        final(x86).state.kernel32 == old(x86).state.kernel32,
        final(x86).state.user32 == old(x86).state.user32,
        final(x86).state.gdi32 == old(x86).state.gdi32,
        final(x86).state.pending == old(x86).state.pending,
        final(x86).regs == old(x86).regs,
{
    let _ = this;
    let _ = bpp;
    let _ = refresh;
    let _ = flags;
    x86.state.ddraw.width = width;
    x86.state.ddraw.height = height;
    let hwnd = x86.state.ddraw.hwnd;
    if hwnd != 0 {
        let host_window = match x86.state.user32.windows.get(hwnd) {
            Some(w) => w.host,
            None => vstd::pervasive::unreached(),
        };
        x86.host.set_size(host_window, width, height);
    }
    DD_OK
}

/// IDirectDraw7::EnumDisplayModes(dwFlags, lpSurfaceDesc, lpContext,
/// lpEnumCallback): publishes one hard-coded display mode description
/// (320x200 at 8 bpp) on the scratch heap, then suspends on the guest
/// callback: the callback's stdcall frame `(desc, lpContext)` is pushed
/// with the sentinel return address, control transfers to the callback,
/// and the shim records itself as pending; `resume_pending` finishes it.
#[verifier::rlimit(60)]
pub fn EnumDisplayModes(
    x86: &mut X86,
    this: u32,
    dwFlags: u32,
    lpSurfaceDesc: u32,
    lpContext: u32,
    lpEnumCallback: u32,
) -> (r: u32)
    requires
        old(x86).wf(),
        lpSurfaceDesc == 0,
        old(x86).state.pending is None,
        old(x86).state.ddraw.heap.next + DDSD2_SIZE <= old(x86).state.ddraw.heap.size,
        12 <= old(x86).regs.esp <= old(x86).mem@.len(),
    ensures
        final(x86).wf(),
        r == DD_OK,
        ({
            let d = old(x86).state.ddraw.heap.addr + old(x86).state.ddraw.heap.next;
            let m0 = zero_range(old(x86).mem@, d as int, DDSD2_SIZE as int);
            let m1 = store_u32(m0, d as int, DDSD2_SIZE);
            let m2 = store_u32(m1, d + DDSD2_OFF_HEIGHT, 200);
            let m3 = store_u32(m2, d + DDSD2_OFF_WIDTH, 320);
            let m4 = store_u32(m3, d + DDSD2_OFF_PIXELFORMAT, DDPF_SIZE);
            let m5 = store_u32(m4, d + DDSD2_OFF_PIXELFORMAT + DDPF_OFF_RGBBITCOUNT, 8);
            let m6 = store_u32(m5, d + DDSD2_OFF_PIXELFORMAT + DDPF_OFF_RBITMASK, 0xFF00_0000);
            let m7 = store_u32(m6, d + DDSD2_OFF_PIXELFORMAT + DDPF_OFF_GBITMASK, 0x00FF_0000);
            let m8 = store_u32(m7, d + DDSD2_OFF_PIXELFORMAT + DDPF_OFF_BBITMASK, 0x0000_FF00);
            let m9 = store_u32(m8, d + DDSD2_OFF_PIXELFORMAT + DDPF_OFF_ALPHABITMASK, 0x0000_00FF);
            &&& (final(x86).mem@, final(x86).regs.esp) == crate::pushed_frame(
                m9,
                old(x86).regs.esp,
                CALLBACK_SENTINEL,
                seq![d as u32, lpContext],
            )
            &&& final(x86).regs.eip == lpEnumCallback
            &&& final(x86).state.pending == Some(
                PendingCall::EnumDisplayModes { desc_addr: d as u32 },
            )
            &&& final(x86).state.ddraw.heap.next == old(x86).state.ddraw.heap.next + DDSD2_SIZE
            &&& final(x86).state.ddraw.heap.last == d
        }),
        final(x86).state.ddraw.heap.addr == old(x86).state.ddraw.heap.addr,
        final(x86).state.ddraw.heap.size == old(x86).state.ddraw.heap.size,
        final(x86).state.ddraw.surfaces == old(x86).state.ddraw.surfaces,
        final(x86).state.ddraw.palettes == old(x86).state.ddraw.palettes,
        final(x86).state.ddraw.hwnd == old(x86).state.ddraw.hwnd,
        final(x86).state.ddraw.width == old(x86).state.ddraw.width,
        final(x86).state.ddraw.height == old(x86).state.ddraw.height,
        final(x86).state.ddraw.palette_hack == old(x86).state.ddraw.palette_hack,
        final(x86).state.kernel32 == old(x86).state.kernel32,
        final(x86).state.user32 == old(x86).state.user32,
        final(x86).state.gdi32 == old(x86).state.gdi32,
        final(x86).regs.eax == old(x86).regs.eax,
        final(x86).host == old(x86).host,
{
    let _ = this;
    let _ = dwFlags;
    let _ = lpSurfaceDesc;
    proof {
        lemma_round_up4(DDSD2_SIZE);
    }
    let d = x86.state.ddraw.heap.allocate(DDSD2_SIZE);
    x86.mem.zero_bytes(d, DDSD2_SIZE);
    x86.mem.write_u32(d, DDSD2_SIZE);
    x86.mem.write_u32(d + DDSD2_OFF_HEIGHT, 200);
    x86.mem.write_u32(d + DDSD2_OFF_WIDTH, 320);
    x86.mem.write_u32(d + DDSD2_OFF_PIXELFORMAT, DDPF_SIZE);
    x86.mem.write_u32(d + DDSD2_OFF_PIXELFORMAT + DDPF_OFF_RGBBITCOUNT, 8);
    x86.mem.write_u32(d + DDSD2_OFF_PIXELFORMAT + DDPF_OFF_RBITMASK, 0xFF00_0000);
    x86.mem.write_u32(d + DDSD2_OFF_PIXELFORMAT + DDPF_OFF_GBITMASK, 0x00FF_0000);
    x86.mem.write_u32(d + DDSD2_OFF_PIXELFORMAT + DDPF_OFF_BBITMASK, 0x0000_FF00);
    x86.mem.write_u32(d + DDSD2_OFF_PIXELFORMAT + DDPF_OFF_ALPHABITMASK, 0x0000_00FF);
    let frame: [u32; 2] = [d, lpContext];
    x86.push_stdcall_frame(CALLBACK_SENTINEL, frame.as_slice());
    x86.regs.eip = lpEnumCallback;
    x86.state.pending = Some(PendingCall::EnumDisplayModes { desc_addr: d });
    DD_OK
}

/// Resume the shim suspended on a guest callback once the guest has
/// returned to the sentinel address: the scratch description is freed (the
/// heap rolls back to its prior frontier) and the shim's result goes to
/// `eax`.
pub fn resume_pending(x86: &mut X86) -> (r: u32)
    requires
        old(x86).wf(),
        old(x86).state.pending is Some,
    ensures
        final(x86).wf(),
        r == DD_OK,
        final(x86).regs.eax == DD_OK,
        final(x86).state.pending is None,
        (old(x86).state.pending matches Some(PendingCall::EnumDisplayModes { desc_addr })
            ==> ((desc_addr == old(x86).state.ddraw.heap.last && desc_addr != 0 ==> final(x86).state.ddraw.heap.next == desc_addr - old(x86).state.ddraw.heap.addr && final(x86).state.ddraw.heap.last == 0) && (!(desc_addr == old(x86).state.ddraw.heap.last
            && desc_addr != 0) ==> final(x86).state.ddraw.heap.next == old(x86).state.ddraw.heap.next))),
        final(x86).state.ddraw.heap.addr == old(x86).state.ddraw.heap.addr,
        final(x86).state.ddraw.heap.size == old(x86).state.ddraw.heap.size,
        final(x86).state.ddraw.surfaces == old(x86).state.ddraw.surfaces,
        final(x86).state.ddraw.palettes == old(x86).state.ddraw.palettes,
        final(x86).state.ddraw.hwnd == old(x86).state.ddraw.hwnd,
        final(x86).state.ddraw.width == old(x86).state.ddraw.width,
        final(x86).state.ddraw.height == old(x86).state.ddraw.height,
        final(x86).state.ddraw.palette_hack == old(x86).state.ddraw.palette_hack,
        final(x86).mem@ == old(x86).mem@,
        final(x86).state.kernel32 == old(x86).state.kernel32,
        final(x86).state.user32 == old(x86).state.user32,
        final(x86).state.gdi32 == old(x86).state.gdi32,
        final(x86).regs.esp == old(x86).regs.esp,
        final(x86).regs.eip == old(x86).regs.eip,
        final(x86).host == old(x86).host,
{
    let d: u32 = match &x86.state.pending {
        Some(PendingCall::EnumDisplayModes { desc_addr }) => *desc_addr,
        None => vstd::pervasive::unreached(),
    };
    x86.state.ddraw.heap.free(d);
    x86.state.pending = None;
    x86.regs.eax = DD_OK;
    DD_OK
}

} // verus!
