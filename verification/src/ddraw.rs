//! DirectDraw: shared state, records, return codes, flag sets, and the
//! guest-memory layouts of the DirectDraw structures.

use vstd::prelude::*;

use crate::heap::Heap;
use crate::table::Table;

verus! {

pub const DD_OK: u32 = 0;

pub const DDERR_GENERIC: u32 = 0x80004005;

// DDSURFACEDESC2 field flags.
pub const DDSD_CAPS: u32 = 0x1;

pub const DDSD_HEIGHT: u32 = 0x2;

pub const DDSD_WIDTH: u32 = 0x4;

pub const DDSD_PITCH: u32 = 0x8;

pub const DDSD_BACKBUFFERCOUNT: u32 = 0x20;

pub const DDSD_LPSURFACE: u32 = 0x800;

pub const DDSD_PIXELFORMAT: u32 = 0x1000;

// DDSCAPS bits.
pub const DDSCAPS_PRIMARYSURFACE: u32 = 0x200;

// DDPCAPS bits.
pub const DDPCAPS_8BIT: u32 = 0x4;

/// The bits a DDSCL cooperative-level flag word may carry.
pub const DDSCL_VALID: u32 = 0x1FDF;

/// The bits a DDFLIP flip flag word may carry.
pub const DDFLIP_VALID: u32 = 0x0700_003F;

/// Decode a DDSCL flag word: the raw bits when they are all known, or the
/// word itself as the error.
pub fn ddscl_from_bits(value: u32) -> (r: Result<u32, u32>)
    ensures
        r == if value & !DDSCL_VALID == 0 {
            Result::<u32, u32>::Ok(value)
        } else {
            Result::<u32, u32>::Err(value)
        },
{
    if value & !DDSCL_VALID == 0 {
        Ok(value)
    } else {
        Err(value)
    }
}

/// Decode a DDFLIP flag word, as `ddscl_from_bits` does for DDSCL.
pub fn ddflip_from_bits(value: u32) -> (r: Result<u32, u32>)
    ensures
        r == if value & !DDFLIP_VALID == 0 {
            Result::<u32, u32>::Ok(value)
        } else {
            Result::<u32, u32>::Err(value)
        },
{
    if value & !DDFLIP_VALID == 0 {
        Ok(value)
    } else {
        Err(value)
    }
}

// Guest-memory layout of DDSURFACEDESC2 (128 bytes, little-endian).
pub const DDSD2_SIZE: u32 = 128;

pub const DDSD2_OFF_SIZE: u32 = 0;

pub const DDSD2_OFF_FLAGS: u32 = 4;

pub const DDSD2_OFF_HEIGHT: u32 = 8;

pub const DDSD2_OFF_WIDTH: u32 = 12;

pub const DDSD2_OFF_PITCH: u32 = 16;

pub const DDSD2_OFF_BACKBUFFERCOUNT: u32 = 20;

pub const DDSD2_OFF_LPSURFACE: u32 = 36;

pub const DDSD2_OFF_PIXELFORMAT: u32 = 72;

pub const DDSD2_OFF_CAPS1: u32 = 104;

// Guest-memory layout of DDPIXELFORMAT (32 bytes), relative to its start.
pub const DDPF_SIZE: u32 = 32;

pub const DDPF_OFF_SIZE: u32 = 0;

pub const DDPF_OFF_FLAGS: u32 = 4;

pub const DDPF_OFF_FOURCC: u32 = 8;

pub const DDPF_OFF_RGBBITCOUNT: u32 = 12;

pub const DDPF_OFF_RBITMASK: u32 = 16;

pub const DDPF_OFF_GBITMASK: u32 = 20;

pub const DDPF_OFF_BBITMASK: u32 = 24;

pub const DDPF_OFF_ALPHABITMASK: u32 = 28;

// Guest-memory layout of RECT (16 bytes).
pub const RECT_SIZE: u32 = 16;

pub const RECT_OFF_LEFT: u32 = 0;

pub const RECT_OFF_TOP: u32 = 4;

pub const RECT_OFF_RIGHT: u32 = 8;

pub const RECT_OFF_BOTTOM: u32 = 12;

/// One palette entry: a red, green, blue, flags byte quadruple.
#[derive(Clone, Copy, Debug, PartialEq, Eq, Structural)]
pub struct PaletteEntry {
    pub red: u8,
    pub green: u8,
    pub blue: u8,
    pub flags: u8,
}

/// Host-side record of a guest DirectDraw surface.
#[derive(Clone, Copy, Debug, PartialEq, Eq, Structural)]
pub struct Surface {
    /// Host surface handle.
    pub host: u32,
    pub width: u32,
    pub height: u32,
    /// Guest address of the palette object set on this surface, 0 if none.
    pub palette: u32,
    /// Guest address of the locked pixel buffer, 0 if never locked.
    pub pixels: u32,
}

/// The vtable interfaces the DirectDraw emulation installs.
#[derive(Clone, Copy, Debug, PartialEq, Eq, Structural)]
pub enum Interface {
    DirectDraw7,
    DirectDrawSurface7,
    DirectDrawPalette,
}

pub const IDIRECTDRAW7_SLOTS: u32 = 30;

pub const IDIRECTDRAWSURFACE7_SLOTS: u32 = 49;

pub const IDIRECTDRAWPALETTE_SLOTS: u32 = 7;

pub open spec fn iface_slots(i: Interface) -> u32 {
    match i {
        Interface::DirectDraw7 => IDIRECTDRAW7_SLOTS,
        Interface::DirectDrawSurface7 => IDIRECTDRAWSURFACE7_SLOTS,
        Interface::DirectDrawPalette => IDIRECTDRAWPALETTE_SLOTS,
    }
}

/// A surface's locked pixel buffer, when it has one, lies inside the
/// DirectDraw heap (so it is addressable guest memory).
pub open spec fn surface_ok(s: Surface, heap: Heap) -> bool {
    s.pixels != 0 ==> s.pixels + s.width * s.height <= heap.addr + heap.size
}

pub open spec fn surfaces_ok(m: Map<u32, Surface>, heap: Heap) -> bool {
    forall|k: u32| m.dom().contains(k) ==> surface_ok(#[trigger] m[k], heap)
}

pub proof fn lemma_surfaces_ok_insert(m: Map<u32, Surface>, heap: Heap, k: u32, s: Surface)
    requires
        surfaces_ok(m, heap),
        surface_ok(s, heap),
    ensures
        surfaces_ok(m.insert(k, s), heap),
{
    assert forall|k2: u32| m.insert(k, s).dom().contains(k2) implies surface_ok(
        #[trigger] m.insert(k, s)[k2],
        heap,
    ) by {
        if k2 != k {
            assert(m.dom().contains(k2));
        }
    }
}

/// Every palette holds exactly 256 entries.
pub open spec fn palettes_ok(m: Map<u32, Vec<PaletteEntry>>) -> bool {
    forall|k: u32| m.dom().contains(k) ==> (#[trigger] m[k])@.len() == 256
}

/// DirectDraw subsystem state: the current display mode and cooperating
/// window, the handle tables, the scratch heap, and the interned vtables.
pub struct State {
    pub hwnd: u32,
    pub width: u32,
    pub height: u32,
    /// The palette most recently set on any surface; used to expand 8 bpp
    /// pixels on unlock.
    pub palette_hack: u32,
    pub surfaces: Table<Surface>,
    pub palettes: Table<Vec<PaletteEntry>>,
    pub heap: Heap,
    pub vtable_ddraw7: u32,
    pub shims_ddraw7: u32,
    pub vtable_surface7: u32,
    pub shims_surface7: u32,
    pub vtable_palette: u32,
    pub shims_palette: u32,
}

impl State {
    /// Well-formed against a guest memory of `mem_len` bytes: the scratch
    /// heap lies inside it and the handle tables are tables.
    pub open spec fn wf(&self, mem_len: int) -> bool {
        &&& self.heap.wf()
        &&& self.heap.addr + self.heap.size <= mem_len
        &&& self.surfaces.wf()
        &&& self.palettes.wf()
        &&& surfaces_ok(self.surfaces@, self.heap)
        &&& palettes_ok(self.palettes@)
    }

    pub fn new() -> (r: State)
        ensures
            forall|l: int| 4 <= l ==> r.wf(l),
            r.surfaces@ == Map::<u32, Surface>::empty(),
            r.palettes@ == Map::<u32, Vec<PaletteEntry>>::empty(),
            r.hwnd == 0,
            r.width == 0,
            r.height == 0,
            r.palette_hack == 0,
            r.heap.size == 0,
    {
        State {
            hwnd: 0,
            width: 0,
            height: 0,
            palette_hack: 0,
            surfaces: Table::new(1),
            palettes: Table::new(1),
            heap: Heap::new(4, 0),
            vtable_ddraw7: 0,
            shims_ddraw7: 0,
            vtable_surface7: 0,
            shims_surface7: 0,
            vtable_palette: 0,
            shims_palette: 0,
        }
    }
}

/// The method slots of each interface that the emulation implements. The
/// per-interface slot list is fixed by the Win32 ABI; a call through any
/// other slot reaches an unimplemented-method stub.
pub open spec fn slot_implemented_spec(i: Interface, k: u32) -> bool {
    match i {
        Interface::DirectDraw7 => k == 2 || k == 5 || k == 6 || k == 8 || k == 20 || k == 21,
        Interface::DirectDrawSurface7 => k == 2 || k == 7 || k == 11 || k == 12 || k == 17 || k
            == 22 || k == 25 || k == 26 || k == 27 || k == 31 || k == 32,
        Interface::DirectDrawPalette => false,
    }
}

/// Whether slot `k` of interface `i` dispatches to an implemented method
/// (IDirectDraw7: Release, CreatePalette, CreateSurface, EnumDisplayModes,
/// SetCooperativeLevel, SetDisplayMode; IDirectDrawSurface7: Release,
/// BltFast, Flip, GetAttachedSurface, GetDC, GetSurfaceDesc, Lock,
/// ReleaseDC, Restore, SetPalette, Unlock).
pub fn slot_implemented(i: Interface, k: u32) -> (r: bool)
    ensures
        r == slot_implemented_spec(i, k),
{
    match i {
        Interface::DirectDraw7 => k == 2 || k == 5 || k == 6 || k == 8 || k == 20 || k == 21,
        Interface::DirectDrawSurface7 => k == 2 || k == 7 || k == 11 || k == 12 || k == 17 || k
            == 22 || k == 25 || k == 26 || k == 27 || k == 31 || k == 32,
        Interface::DirectDrawPalette => false,
    }
}

/// The guest address of interface `i`'s block of shim thunk addresses.
pub open spec fn iface_shims(d: State, i: Interface) -> u32 {
    match i {
        Interface::DirectDraw7 => d.shims_ddraw7,
        Interface::DirectDrawSurface7 => d.shims_surface7,
        Interface::DirectDrawPalette => d.shims_palette,
    }
}

/// The guest address of interface `i`'s interned vtable.
pub open spec fn iface_vtable(d: State, i: Interface) -> u32 {
    match i {
        Interface::DirectDraw7 => d.vtable_ddraw7,
        Interface::DirectDrawSurface7 => d.vtable_surface7,
        Interface::DirectDrawPalette => d.vtable_palette,
    }
}

/// The vtables and shim thunk blocks are interned at the base of the
/// DirectDraw heap, one 4-byte slot per method.
pub open spec fn vtables_inited(d: State) -> bool {
    &&& d.heap.wf()
    &&& d.shims_ddraw7 == d.heap.addr
    &&& d.shims_surface7 == d.heap.addr + 120
    &&& d.shims_palette == d.heap.addr + 316
    &&& d.vtable_ddraw7 == d.heap.addr + 344
    &&& d.vtable_surface7 == d.heap.addr + 464
    &&& d.vtable_palette == d.heap.addr + 660
    &&& 688 <= d.heap.size
    &&& 688 <= d.heap.next
}

/// Slot `k` of interface `i`'s vtable holds the `k`-th shim thunk address.
pub open spec fn vtable_slot_ok(d: State, m: Seq<u8>, i: Interface, k: u32) -> bool {
    crate::mem::u32_at(m, iface_vtable(d, i) + 4 * k) == iface_shims(d, i) + 4 * k
}

pub open spec fn vtable_contents_ok(d: State, m: Seq<u8>) -> bool {
    forall|i: Interface, k: u32| k < iface_slots(i) ==> #[trigger] vtable_slot_ok(d, m, i, k)
}

/// Which interface and method slot a shim thunk address dispatches to.
pub open spec fn resolve_shim_spec(d: State, addr: u32) -> Option<(Interface, u32)> {
    if d.shims_ddraw7 <= addr && addr < d.shims_ddraw7 + 120 && (addr - d.shims_ddraw7) % 4 == 0 {
        Some((Interface::DirectDraw7, ((addr - d.shims_ddraw7) / 4) as u32))
    } else if d.shims_surface7 <= addr && addr < d.shims_surface7 + 196 && (addr
        - d.shims_surface7) % 4 == 0 {
        Some((Interface::DirectDrawSurface7, ((addr - d.shims_surface7) / 4) as u32))
    } else if d.shims_palette <= addr && addr < d.shims_palette + 28 && (addr - d.shims_palette)
        % 4 == 0 {
        Some((Interface::DirectDrawPalette, ((addr - d.shims_palette) / 4) as u32))
    } else {
        None
    }
}

/// Dispatch a shim thunk address back to its interface and method slot.
pub fn resolve_shim(d: &State, addr: u32) -> (r: Option<(Interface, u32)>)
    requires
        vtables_inited(*d),
    ensures
        r == resolve_shim_spec(*d, addr),
{
    if d.shims_ddraw7 <= addr && addr < d.shims_ddraw7 + 120 && (addr - d.shims_ddraw7) % 4 == 0 {
        Some((Interface::DirectDraw7, (addr - d.shims_ddraw7) / 4))
    } else if d.shims_surface7 <= addr && addr < d.shims_surface7 + 196 && (addr
        - d.shims_surface7) % 4 == 0 {
        Some((Interface::DirectDrawSurface7, (addr - d.shims_surface7) / 4))
    } else if d.shims_palette <= addr && addr < d.shims_palette + 28 && (addr - d.shims_palette)
        % 4 == 0 {
        Some((Interface::DirectDrawPalette, (addr - d.shims_palette) / 4))
    } else {
        None
    }
}

/// Law: in an initialized DirectDraw state, slot `k` of interface `i`'s
/// vtable holds a distinct shim thunk address, and the dispatcher resolves
/// that address back to exactly interface `i`, method `k`.
pub proof fn lemma_vtable_dispatch(d: State, m: Seq<u8>, i: Interface, k: u32)
    requires
        vtables_inited(d),
        vtable_contents_ok(d, m),
        k < iface_slots(i),
    ensures
        crate::mem::u32_at(m, iface_vtable(d, i) + 4 * k) == iface_shims(d, i) + 4 * k,
        resolve_shim_spec(d, (iface_shims(d, i) + 4 * k) as u32) == Some((i, k)),
{
    assert(vtable_slot_ok(d, m, i, k));
    let addr = (iface_shims(d, i) + 4 * k) as u32;
    match i {
        Interface::DirectDraw7 => {
            assert((addr - d.shims_ddraw7) % 4 == 0 && (addr - d.shims_ddraw7) / 4 == k);
        },
        Interface::DirectDrawSurface7 => {
            assert((addr - d.shims_surface7) % 4 == 0 && (addr - d.shims_surface7) / 4 == k);
        },
        Interface::DirectDrawPalette => {
            assert((addr - d.shims_palette) % 4 == 0 && (addr - d.shims_palette) / 4 == k);
        },
    }
}

} // verus!
