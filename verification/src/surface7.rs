//! The IDirectDrawSurface7 interface: object construction, blits, flips,
//! lock/unlock of the pixel buffer, palettes, and device contexts.

#![allow(non_snake_case)]

use vstd::prelude::*;

use crate::ddraw::{
    lemma_surfaces_ok_insert, PaletteEntry, Surface, DDERR_GENERIC, DDSD2_OFF_FLAGS,
    DDSD2_OFF_HEIGHT, DDSD2_OFF_LPSURFACE, DDSD2_OFF_PITCH, DDSD2_OFF_WIDTH, DDSD2_SIZE,
    DDSD_HEIGHT, DDSD_LPSURFACE, DDSD_WIDTH, DD_OK, RECT_OFF_BOTTOM, RECT_OFF_RIGHT, RECT_OFF_TOP,
    RECT_SIZE,
};
use crate::gdi32::DC;
use crate::heap::{lemma_round_up4, round_up4};
use crate::host::{HostEvent, Rgba};
use crate::mem::{store_u32, u32_at};
use crate::X86;

verus! {

/// A palettized pixel buffer expanded through a palette to RGBA, alpha 255.
pub open spec fn expand_palette(bytes: Seq<u8>, pal: Seq<PaletteEntry>) -> Seq<Rgba> {
    bytes.map(
        |i: int, px: u8|
            Rgba { r: pal[px as int].red, g: pal[px as int].green, b: pal[px as int].blue, a: 255 },
    )
}

/// Construct a guest IDirectDrawSurface7 object: 4 bytes on the DirectDraw
/// heap holding the interface's vtable address; the object's address is its
/// identity.
pub fn new(x86: &mut X86) -> (r: u32)
    requires
        old(x86).wf(),
        old(x86).state.ddraw.heap.next + 4 <= old(x86).state.ddraw.heap.size,
    ensures
        final(x86).wf(),
        r == old(x86).state.ddraw.heap.addr + old(x86).state.ddraw.heap.next,
        r % 4 == 0,
        r > 0,
        u32_at(final(x86).mem@, r as int) == old(x86).state.ddraw.vtable_surface7,
        final(x86).mem@ == store_u32(old(x86).mem@, r as int, old(x86).state.ddraw.vtable_surface7),
        final(x86).state.ddraw.heap.next == old(x86).state.ddraw.heap.next + 4,
        final(x86).state.ddraw.heap.addr == old(x86).state.ddraw.heap.addr,
        final(x86).state.ddraw.heap.size == old(x86).state.ddraw.heap.size,
        final(x86).state.ddraw.surfaces == old(x86).state.ddraw.surfaces,
        final(x86).state.ddraw.palettes == old(x86).state.ddraw.palettes,
        final(x86).state.ddraw.hwnd == old(x86).state.ddraw.hwnd,
        final(x86).state.ddraw.width == old(x86).state.ddraw.width,
        final(x86).state.ddraw.height == old(x86).state.ddraw.height,
        final(x86).state.ddraw.palette_hack == old(x86).state.ddraw.palette_hack,
        final(x86).state.ddraw.vtable_surface7 == old(x86).state.ddraw.vtable_surface7,
        final(x86).state.kernel32 == old(x86).state.kernel32,
        final(x86).state.user32 == old(x86).state.user32,
        final(x86).state.gdi32 == old(x86).state.gdi32,
        final(x86).state.pending == old(x86).state.pending,
        final(x86).regs == old(x86).regs,
        final(x86).host == old(x86).host,
{
    let vtable = x86.state.ddraw.vtable_surface7;
    crate::ddraw7::new_com_object(x86, vtable)
}

/// IDirectDrawSurface7::Release: a leak by design; always 0.
pub fn Release(x86: &mut X86, this: u32) -> (r: u32)
    requires
        old(x86).wf(),
    ensures
        final(x86).wf(),
        r == 0,
        final(x86).mem@ == old(x86).mem@,
        final(x86).state == old(x86).state,
        final(x86).regs == old(x86).regs,
        final(x86).host == old(x86).host,
{
    let _ = this;
    0
}

/// IDirectDrawSurface7::BltFast(x, y, lpSurf, lpRect, flags): copy the
/// rectangle `[left, right) x [top, bottom)` of the source surface to
/// `(x, y)` on this surface, through the host's blit.
pub fn BltFast(
    x86: &mut X86,
    this: u32,
    x: u32,
    y: u32,
    lpSurf: u32,
    lpRect: u32,
    flags: u32,
) -> (r: u32)
    requires
        old(x86).wf(),
        this != lpSurf,
        old(x86).state.ddraw.surfaces@.dom().contains(this),
        old(x86).state.ddraw.surfaces@.dom().contains(lpSurf),
        lpRect != 0,
        lpRect + RECT_SIZE <= old(x86).mem@.len(),
        u32_at(old(x86).mem@, lpRect as int) <= u32_at(old(x86).mem@, lpRect + RECT_OFF_RIGHT),
        u32_at(old(x86).mem@, lpRect + RECT_OFF_TOP) <= u32_at(old(x86).mem@, lpRect + RECT_OFF_BOTTOM),
    ensures
        final(x86).wf(),
        r == DD_OK,
        ({
            let left = u32_at(old(x86).mem@, lpRect as int);
            let top = u32_at(old(x86).mem@, lpRect + RECT_OFF_TOP);
            let right = u32_at(old(x86).mem@, lpRect + RECT_OFF_RIGHT);
            let bottom = u32_at(old(x86).mem@, lpRect + RECT_OFF_BOTTOM);
            final(x86).host.events@ == old(x86).host.events@.push(
                HostEvent::BitBlt {
                    dst: old(x86).state.ddraw.surfaces@[this].host,
                    dx: x,
                    dy: y,
                    src: old(x86).state.ddraw.surfaces@[lpSurf].host,
                    sx: left,
                    sy: top,
                    w: (right - left) as u32,
                    h: (bottom - top) as u32,
                },
            )
        }),
        final(x86).host.next_handle == old(x86).host.next_handle,
        final(x86).host.exited == old(x86).host.exited,
        final(x86).mem@ == old(x86).mem@,
        final(x86).state == old(x86).state,
        final(x86).regs == old(x86).regs,
{
    let _ = flags;
    let dst_host = match x86.state.ddraw.surfaces.get(this) {
        Some(s) => s.host,
        None => vstd::pervasive::unreached(),
    };
    let src_host = match x86.state.ddraw.surfaces.get(lpSurf) {
        Some(s) => s.host,
        None => vstd::pervasive::unreached(),
    };
    let left = x86.mem.read_u32(lpRect);
    let top = x86.mem.read_u32(lpRect + RECT_OFF_TOP);
    let right = x86.mem.read_u32(lpRect + RECT_OFF_RIGHT);
    let bottom = x86.mem.read_u32(lpRect + RECT_OFF_BOTTOM);
    let w = right - left;
    let h = bottom - top;
    x86.host.bit_blt(dst_host, x, y, src_host, left, top, w, h);
    DD_OK
}

/// IDirectDrawSurface7::Flip(lpSurf, flags): flip this surface on the host.
pub fn Flip(x86: &mut X86, this: u32, lpSurf: u32, flags: u32) -> (r: u32)
    requires
        old(x86).wf(),
        old(x86).state.ddraw.surfaces@.dom().contains(this),
    ensures
        final(x86).wf(),
        r == DD_OK,
        final(x86).host.events@ == old(x86).host.events@.push(
            HostEvent::Flip { surface: old(x86).state.ddraw.surfaces@[this].host },
        ),
        final(x86).host.next_handle == old(x86).host.next_handle,
        final(x86).host.exited == old(x86).host.exited,
        final(x86).mem@ == old(x86).mem@,
        final(x86).state == old(x86).state,
        final(x86).regs == old(x86).regs,
{
    let _ = lpSurf;
    let _ = flags;
    let host_surface = match x86.state.ddraw.surfaces.get(this) {
        Some(s) => s.host,
        None => vstd::pervasive::unreached(),
    };
    x86.host.flip(host_surface);
    DD_OK
}

/// IDirectDrawSurface7::GetAttachedSurface(lpDDSCaps2, lpOut): obtain the
/// host's attached (back) surface, materialize a new guest surface object
/// wrapping it that inherits this surface's geometry, palette and pixel
/// buffer, and store its address at `lpOut`.
pub fn GetAttachedSurface(x86: &mut X86, this: u32, lpDDSCaps2: u32, lpOut: u32) -> (r: u32)
    requires
        old(x86).wf(),
        old(x86).state.ddraw.surfaces@.dom().contains(this),
        lpOut + 4 <= old(x86).mem@.len(),
        old(x86).state.ddraw.heap.next + 4 <= old(x86).state.ddraw.heap.size,
        old(x86).host.next_handle < u32::MAX,
    ensures
        final(x86).wf(),
        r == DD_OK,
        ({
            let obj = old(x86).state.ddraw.heap.addr + old(x86).state.ddraw.heap.next;
            let orig = old(x86).state.ddraw.surfaces@[this];
            &&& final(x86).host.events@ == old(x86).host.events@.push(
                HostEvent::GetAttached { surface: orig.host, handle: old(x86).host.next_handle },
            )
            &&& final(x86).state.ddraw.surfaces@ == old(x86).state.ddraw.surfaces@.insert(
                obj as u32,
                Surface {
                    host: old(x86).host.next_handle,
                    width: orig.width,
                    height: orig.height,
                    palette: orig.palette,
                    pixels: orig.pixels,
                },
            )
            &&& final(x86).mem@ == store_u32(
                store_u32(old(x86).mem@, obj as int, old(x86).state.ddraw.vtable_surface7),
                lpOut as int,
                obj as u32,
            )
            &&& u32_at(final(x86).mem@, lpOut as int) == obj
        }),
        final(x86).host.next_handle == old(x86).host.next_handle + 1,
        final(x86).host.exited == old(x86).host.exited,
        final(x86).state.ddraw.palettes == old(x86).state.ddraw.palettes,
        final(x86).state.ddraw.palette_hack == old(x86).state.ddraw.palette_hack,
        final(x86).state.ddraw.hwnd == old(x86).state.ddraw.hwnd,
        final(x86).state.ddraw.width == old(x86).state.ddraw.width,
        final(x86).state.ddraw.height == old(x86).state.ddraw.height,
        final(x86).state.kernel32 == old(x86).state.kernel32,
        final(x86).state.user32 == old(x86).state.user32,
        final(x86).state.gdi32 == old(x86).state.gdi32,
        final(x86).state.pending == old(x86).state.pending,
        final(x86).regs == old(x86).regs,
{
    let _ = lpDDSCaps2;
    let orig: Surface = match x86.state.ddraw.surfaces.get(this) {
        Some(s) => *s,
        None => vstd::pervasive::unreached(),
    };
    let host_attached = x86.host.get_attached(orig.host);
    let obj = new(x86);
    x86.mem.write_u32(lpOut, obj);
    let created = Surface {
        host: host_attached,
        width: orig.width,
        height: orig.height,
        palette: orig.palette,
        pixels: orig.pixels,
    };
    proof {
        lemma_surfaces_ok_insert(
            x86.state.ddraw.surfaces@,
            x86.state.ddraw.heap,
            obj,
            created,
        );
        crate::mem::lemma_store_u32(
            store_u32(old(x86).mem@, obj as int, old(x86).state.ddraw.vtable_surface7),
            lpOut as int,
            obj,
        );
    }
    x86.state.ddraw.surfaces.insert(obj, created);
    DD_OK
}

/// IDirectDrawSurface7::GetDC(lpHDC): create a device context carrying this
/// surface and store its fresh handle at `lpHDC`.
pub fn GetDC(x86: &mut X86, this: u32, lpHDC: u32) -> (r: u32)
    requires
        old(x86).wf(),
        lpHDC + 4 <= old(x86).mem@.len(),
        old(x86).state.gdi32.dcs.next < u32::MAX,
    ensures
        final(x86).wf(),
        r == DD_OK,
        final(x86).state.gdi32.dcs@ == old(x86).state.gdi32.dcs@.insert(
            old(x86).state.gdi32.dcs.next,
            DC { ddraw_surface: this },
        ),
        final(x86).mem@ == store_u32(old(x86).mem@, lpHDC as int, old(x86).state.gdi32.dcs.next),
        u32_at(final(x86).mem@, lpHDC as int) == old(x86).state.gdi32.dcs.next,
        final(x86).state.ddraw == old(x86).state.ddraw,
        final(x86).state.kernel32 == old(x86).state.kernel32,
        final(x86).state.user32 == old(x86).state.user32,
        final(x86).state.pending == old(x86).state.pending,
        final(x86).regs == old(x86).regs,
        final(x86).host == old(x86).host,
{
    let mut dc = DC::new();
    dc.ddraw_surface = this;
    let handle = x86.state.gdi32.dcs.add(dc);
    x86.mem.write_u32(lpHDC, handle);
    DD_OK
}

/// IDirectDrawSurface7::GetSurfaceDesc(lpDesc): fill the width and height
/// the caller asked for from the surface record. (Always answers
/// DDERR_GENERIC, as the Win32 layer this models does.)
pub fn GetSurfaceDesc(x86: &mut X86, this: u32, lpDesc: u32) -> (r: u32)
    requires
        old(x86).wf(),
        old(x86).state.ddraw.surfaces@.dom().contains(this),
        lpDesc != 0,
        lpDesc + DDSD2_SIZE <= old(x86).mem@.len(),
        u32_at(old(x86).mem@, lpDesc as int) == DDSD2_SIZE,
    ensures
        final(x86).wf(),
        r == DDERR_GENERIC,
        ({
            let flags = u32_at(old(x86).mem@, lpDesc + DDSD2_OFF_FLAGS);
            let surf = old(x86).state.ddraw.surfaces@[this];
            let m1 = if flags & DDSD_WIDTH != 0 {
                store_u32(old(x86).mem@, lpDesc + DDSD2_OFF_WIDTH, surf.width)
            } else {
                old(x86).mem@
            };
            let m2 = if flags & DDSD_HEIGHT != 0 {
                store_u32(m1, lpDesc + DDSD2_OFF_HEIGHT, surf.height)
            } else {
                m1
            };
            final(x86).mem@ == m2
        }),
        final(x86).state == old(x86).state,
        final(x86).regs == old(x86).regs,
        final(x86).host == old(x86).host,
{
    let surf: Surface = match x86.state.ddraw.surfaces.get(this) {
        Some(s) => *s,
        None => vstd::pervasive::unreached(),
    };
    let flags = x86.mem.read_u32(lpDesc + DDSD2_OFF_FLAGS);
    if flags & DDSD_WIDTH != 0 {
        x86.mem.write_u32(lpDesc + DDSD2_OFF_WIDTH, surf.width);
    }
    if flags & DDSD_HEIGHT != 0 {
        x86.mem.write_u32(lpDesc + DDSD2_OFF_HEIGHT, surf.height);
    }
    DDERR_GENERIC
}

/// IDirectDrawSurface7::Lock(rect, lpDesc, flags, _): on first lock,
/// allocate the 8 bpp pixel buffer on the DirectDraw heap; fill the
/// caller's description with the buffer address and pitch. The whole
/// surface is locked: `rect` must be null.
pub fn Lock(x86: &mut X86, this: u32, rect: u32, lpDesc: u32, flags: u32, unused: u32) -> (r: u32)
    requires
        old(x86).wf(),
        rect == 0,
        lpDesc != 0,
        lpDesc + DDSD2_SIZE <= old(x86).mem@.len(),
        old(x86).state.ddraw.surfaces@.dom().contains(this),
        ({
            let surf = old(x86).state.ddraw.surfaces@[this];
            surf.pixels == 0 ==> surf.width * surf.height <= 0xFFFF_FFFC && old(
                x86,
            ).state.ddraw.heap.next + round_up4((surf.width * surf.height) as u32) <= old(
                x86,
            ).state.ddraw.heap.size
        }),
    ensures
        final(x86).wf(),
        r == DD_OK,
        ({
            let surf = old(x86).state.ddraw.surfaces@[this];
            let px = if surf.pixels != 0 {
                surf.pixels
            } else {
                (old(x86).state.ddraw.heap.addr + old(x86).state.ddraw.heap.next) as u32
            };
            &&& final(x86).state.ddraw.surfaces@ == old(x86).state.ddraw.surfaces@.insert(
                this,
                Surface {
                    host: surf.host,
                    width: surf.width,
                    height: surf.height,
                    palette: surf.palette,
                    pixels: px,
                },
            )
            &&& px != 0
            &&& px + surf.width * surf.height <= final(x86).mem@.len()
            &&& final(x86).mem@ == store_u32(
                store_u32(store_u32(old(x86).mem@, lpDesc + DDSD2_OFF_FLAGS, DDSD_LPSURFACE), lpDesc + DDSD2_OFF_LPSURFACE, px),
                lpDesc + DDSD2_OFF_PITCH,
                surf.width,
            )
            &&& (surf.pixels == 0 ==> final(x86).state.ddraw.heap.next == old(
                x86,
            ).state.ddraw.heap.next + round_up4((surf.width * surf.height) as u32))
            &&& (surf.pixels != 0 ==> final(x86).state.ddraw.heap == old(x86).state.ddraw.heap)
        }),
        final(x86).state.ddraw.heap.addr == old(x86).state.ddraw.heap.addr,
        final(x86).state.ddraw.heap.size == old(x86).state.ddraw.heap.size,
        final(x86).state.ddraw.palettes == old(x86).state.ddraw.palettes,
        final(x86).state.ddraw.palette_hack == old(x86).state.ddraw.palette_hack,
        final(x86).state.ddraw.hwnd == old(x86).state.ddraw.hwnd,
        final(x86).state.kernel32 == old(x86).state.kernel32,
        final(x86).state.user32 == old(x86).state.user32,
        final(x86).state.gdi32 == old(x86).state.gdi32,
        final(x86).state.pending == old(x86).state.pending,
        final(x86).regs == old(x86).regs,
        final(x86).host == old(x86).host,
{
    let _ = rect;
    let _ = flags;
    let _ = unused;
    let surf: Surface = match x86.state.ddraw.surfaces.get(this) {
        Some(s) => *s,
        None => vstd::pervasive::unreached(),
    };
    let bytes_per_pixel: u32 = 1;
    let px: u32 = if surf.pixels == 0 {
        let n = surf.width * surf.height * bytes_per_pixel;
        let p = x86.state.ddraw.heap.allocate(n);
        proof {
            lemma_round_up4(n);
        }
        p
    } else {
        surf.pixels
    };
    let updated = Surface {
        host: surf.host,
        width: surf.width,
        height: surf.height,
        palette: surf.palette,
        pixels: px,
    };
    proof {
        lemma_surfaces_ok_insert(x86.state.ddraw.surfaces@, x86.state.ddraw.heap, this, updated);
    }
    x86.state.ddraw.surfaces.insert(this, updated);
    x86.mem.write_u32(lpDesc + DDSD2_OFF_FLAGS, DDSD_LPSURFACE);
    x86.mem.write_u32(lpDesc + DDSD2_OFF_LPSURFACE, px);
    x86.mem.write_u32(lpDesc + DDSD2_OFF_PITCH, surf.width * bytes_per_pixel);
    DD_OK
}

/// IDirectDrawSurface7::ReleaseDC(hDC): the DC leaks; DD_OK.
pub fn ReleaseDC(x86: &mut X86, this: u32, hDC: u32) -> (r: u32)
    requires
        old(x86).wf(),
    ensures
        final(x86).wf(),
        r == DD_OK,
        final(x86).mem@ == old(x86).mem@,
        final(x86).state == old(x86).state,
        final(x86).regs == old(x86).regs,
        final(x86).host == old(x86).host,
{
    let _ = this;
    let _ = hDC;
    DD_OK
}

/// IDirectDrawSurface7::Restore: nothing to restore; DD_OK.
pub fn Restore(x86: &mut X86, this: u32) -> (r: u32)
    requires
        old(x86).wf(),
    ensures
        final(x86).wf(),
        r == DD_OK,
        final(x86).mem@ == old(x86).mem@,
        final(x86).state == old(x86).state,
        final(x86).regs == old(x86).regs,
        final(x86).host == old(x86).host,
{
    let _ = this;
    DD_OK
}

/// IDirectDrawSurface7::SetPalette(palette): store the palette on the
/// surface record and remember it as the subsystem's current palette.
pub fn SetPalette(x86: &mut X86, this: u32, palette: u32) -> (r: u32)
    requires
        old(x86).wf(),
        old(x86).state.ddraw.surfaces@.dom().contains(this),
    ensures
        final(x86).wf(),
        r == DD_OK,
        ({
            let surf = old(x86).state.ddraw.surfaces@[this];
            final(x86).state.ddraw.surfaces@ == old(x86).state.ddraw.surfaces@.insert(
                this,
                Surface {
                    host: surf.host,
                    width: surf.width,
                    height: surf.height,
                    palette,
                    pixels: surf.pixels,
                },
            )
        }),
        final(x86).state.ddraw.palette_hack == palette,
        final(x86).state.ddraw.palettes == old(x86).state.ddraw.palettes,
        final(x86).state.ddraw.heap == old(x86).state.ddraw.heap,
        final(x86).state.ddraw.hwnd == old(x86).state.ddraw.hwnd,
        final(x86).state.ddraw.width == old(x86).state.ddraw.width,
        final(x86).state.ddraw.height == old(x86).state.ddraw.height,
        final(x86).mem@ == old(x86).mem@,
        final(x86).state.kernel32 == old(x86).state.kernel32,
        final(x86).state.user32 == old(x86).state.user32,
        final(x86).state.gdi32 == old(x86).state.gdi32,
        final(x86).state.pending == old(x86).state.pending,
        final(x86).regs == old(x86).regs,
        final(x86).host == old(x86).host,
{
    let surf: Surface = match x86.state.ddraw.surfaces.get(this) {
        Some(s) => *s,
        None => vstd::pervasive::unreached(),
    };
    let updated = Surface {
        host: surf.host,
        width: surf.width,
        height: surf.height,
        palette,
        pixels: surf.pixels,
    };
    proof {
        lemma_surfaces_ok_insert(x86.state.ddraw.surfaces@, x86.state.ddraw.heap, this, updated);
    }
    x86.state.ddraw.surfaces.insert(this, updated);
    x86.state.ddraw.palette_hack = palette;
    DD_OK
}

fn expand_pixels(bytes: &Vec<u8>, pal: &Vec<PaletteEntry>) -> (r: Vec<Rgba>)
    requires
        pal@.len() == 256,
    ensures
        r@ == expand_palette(bytes@, pal@),
{
    let mut r: Vec<Rgba> = Vec::new();
    let n = bytes.len();
    let mut i: usize = 0;
    while i < n
        invariant
            i <= n,
            n == bytes@.len(),
            pal@.len() == 256,
            r@.len() == i,
            forall|j: int|
                0 <= j < i ==> r@[j] == (Rgba {
                    r: pal@[bytes@[j] as int].red,
                    g: pal@[bytes@[j] as int].green,
                    b: pal@[bytes@[j] as int].blue,
                    a: 255,
                }),
        decreases n - i,
    {
        let px = bytes[i];
        let e = pal[px as usize];
        r.push(Rgba { r: e.red, g: e.green, b: e.blue, a: 255 });
        i = i + 1;
    }
    proof {
        assert(r@ =~= expand_palette(bytes@, pal@));
    }
    r
}

/// IDirectDrawSurface7::Unlock(lpRect): fill the caller's rectangle with
/// the full surface; if the surface has been locked and a palette is
/// current, expand the 8 bpp pixels through it and push them to the host.
pub fn Unlock(x86: &mut X86, this: u32, lpRect: u32) -> (r: u32)
    requires
        old(x86).wf(),
        old(x86).state.ddraw.surfaces@.dom().contains(this),
        lpRect != 0 ==> lpRect + RECT_SIZE <= old(x86).mem@.len(),
        ({
            let surf = old(x86).state.ddraw.surfaces@[this];
            let phack = old(x86).state.ddraw.palette_hack;
            surf.pixels != 0 && phack != 0 ==> old(x86).state.ddraw.palettes@.dom().contains(phack)
        }),
    ensures
        final(x86).wf(),
        r == DD_OK,
        ({
            let surf = old(x86).state.ddraw.surfaces@[this];
            let phack = old(x86).state.ddraw.palette_hack;
            let m1 = if lpRect != 0 {
                store_u32(
                    store_u32(
                        store_u32(store_u32(old(x86).mem@, lpRect as int, 0), lpRect + RECT_OFF_TOP, 0),
                        lpRect + RECT_OFF_RIGHT,
                        surf.width,
                    ),
                    lpRect + RECT_OFF_BOTTOM,
                    surf.height,
                )
            } else {
                old(x86).mem@
            };
            &&& final(x86).mem@ == m1
            &&& (surf.pixels != 0 && phack != 0 ==> final(x86).host.events@.len() == old(
                x86,
            ).host.events@.len() + 1 && final(x86).host.events@.subrange(
                0,
                old(x86).host.events@.len() as int,
            ) == old(x86).host.events@ && (final(x86).host.events@.last()
                matches HostEvent::WritePixels { surface, pixels } && surface == surf.host
                && pixels@ == expand_palette(
                m1.subrange(surf.pixels as int, surf.pixels + surf.width * surf.height),
                old(x86).state.ddraw.palettes@[phack]@,
            )))
            &&& (!(surf.pixels != 0 && phack != 0) ==> final(x86).host == old(x86).host)
        }),
        final(x86).host.next_handle == old(x86).host.next_handle,
        final(x86).host.exited == old(x86).host.exited,
        final(x86).state == old(x86).state,
        final(x86).regs == old(x86).regs,
{
    let surf: Surface = match x86.state.ddraw.surfaces.get(this) {
        Some(s) => *s,
        None => vstd::pervasive::unreached(),
    };
    if lpRect != 0 {
        x86.mem.write_u32(lpRect, 0);
        x86.mem.write_u32(lpRect + RECT_OFF_TOP, 0);
        x86.mem.write_u32(lpRect + RECT_OFF_RIGHT, surf.width);
        x86.mem.write_u32(lpRect + RECT_OFF_BOTTOM, surf.height);
    }
    let phack = x86.state.ddraw.palette_hack;
    if surf.pixels != 0 && phack != 0 {
        let bytes_per_pixel: u32 = 1;
        let n = surf.width * surf.height * bytes_per_pixel;
        let bytes = x86.mem.read_bytes(surf.pixels, n);
        let pixels32 = match x86.state.ddraw.palettes.get(phack) {
            Some(pal) => expand_pixels(&bytes, pal),
            None => vstd::pervasive::unreached(),
        };
        x86.host.write_pixels(surf.host, pixels32);
    }
    DD_OK
}

} // verus!
