//! Tests of the DirectDraw7 emulation: vtables, surfaces, palettes,
//! lock/unlock, blits, and the display-mode enumeration bridge.

use win32::ddraw::{
    self, resolve_shim, Interface, DDPCAPS_8BIT, DDSCAPS_PRIMARYSURFACE, DDSD_CAPS, DDSD_HEIGHT,
    DDSD_WIDTH, DD_OK, DDERR_GENERIC,
};
use win32::ddraw7;
use win32::host::{HostEvent, Rgba};
use win32::surface7;
use win32::{X86, CALLBACK_SENTINEL};

fn setup() -> X86 {
    let mut x86 = X86::new(0x100000);
    x86.regs.esp = 0x8000;
    ddraw7::ddraw_init(&mut x86, 0x10000);
    x86
}

/// Write a DDSURFACEDESC2 asking for a width x height surface at `addr`.
fn write_sized_desc(x86: &mut X86, addr: u32, width: u32, height: u32) {
    x86.mem.zero_bytes(addr, 128);
    x86.mem.write_u32(addr, 128);
    x86.mem.write_u32(addr + 4, DDSD_WIDTH | DDSD_HEIGHT);
    x86.mem.write_u32(addr + 8, height);
    x86.mem.write_u32(addr + 12, width);
}

fn create_surface(x86: &mut X86, desc_addr: u32, width: u32, height: u32) -> u32 {
    write_sized_desc(x86, desc_addr, width, height);
    let out = desc_addr + 0x200;
    let r = ddraw7::CreateSurface(x86, 0, desc_addr, out, 0);
    assert_eq!(r, DD_OK);
    x86.mem.read_u32(out)
}

#[test]
fn com_object_points_at_its_vtable() {
    let mut x86 = setup();
    let obj = surface7::new(&mut x86);
    // The 4 bytes at the object hold the interface's vtable address.
    assert_eq!(x86.mem.read_u32(obj), x86.state.ddraw.vtable_surface7);
    // Each vtable slot holds a distinct thunk that resolves back to the
    // interface's method of that index.
    for k in 0..49u32 {
        let thunk = x86.mem.read_u32(x86.state.ddraw.vtable_surface7 + 4 * k);
        assert_eq!(thunk, x86.state.ddraw.shims_surface7 + 4 * k);
        assert_eq!(
            resolve_shim(&x86.state.ddraw, thunk),
            Some((Interface::DirectDrawSurface7, k))
        );
    }
    for k in 0..30u32 {
        let thunk = x86.mem.read_u32(x86.state.ddraw.vtable_ddraw7 + 4 * k);
        assert_eq!(
            resolve_shim(&x86.state.ddraw, thunk),
            Some((Interface::DirectDraw7, k))
        );
    }
    assert_eq!(resolve_shim(&x86.state.ddraw, 0), None);
    assert_eq!(
        resolve_shim(&x86.state.ddraw, x86.state.ddraw.shims_ddraw7 + 1),
        None
    );
}

#[test]
fn create_palette_set_palette_unlock_pushes_expanded_pixels() {
    let mut x86 = setup();
    // Palette whose entry 7 is (10, 20, 30).
    let entries: u32 = 0x20000;
    for i in 0..256u32 {
        let (r, g, b) = if i == 7 { (10, 20, 30) } else { (0, 0, 0) };
        x86.mem.write_u8(entries + 4 * i, r);
        x86.mem.write_u8(entries + 4 * i + 1, g);
        x86.mem.write_u8(entries + 4 * i + 2, b);
        x86.mem.write_u8(entries + 4 * i + 3, 0);
    }
    let lplp: u32 = 0x21000;
    let r = ddraw7::CreatePalette(&mut x86, 0, DDPCAPS_8BIT, entries, lplp, 0);
    assert_eq!(r, DD_OK);
    let palette = x86.mem.read_u32(lplp);
    assert_eq!(x86.mem.read_u32(palette), x86.state.ddraw.vtable_palette);

    // A 4x1 primary surface takes its size from the display mode.
    assert_eq!(ddraw7::SetDisplayMode(&mut x86, 0, 4, 1, 8, 0, 0), DD_OK);
    let desc: u32 = 0x22000;
    x86.mem.zero_bytes(desc, 128);
    x86.mem.write_u32(desc, 128);
    x86.mem.write_u32(desc + 4, DDSD_CAPS);
    x86.mem.write_u32(desc + 104, DDSCAPS_PRIMARYSURFACE);
    let out: u32 = 0x23000;
    assert_eq!(ddraw7::CreateSurface(&mut x86, 0, desc, out, 0), DD_OK);
    let surf = x86.mem.read_u32(out);
    match x86.host.events.last().unwrap() {
        HostEvent::CreateSurface { width, height, primary, .. } => {
            assert_eq!((*width, *height, *primary), (4, 1, true));
        }
        e => panic!("unexpected host event {:?}", e),
    }

    assert_eq!(surface7::SetPalette(&mut x86, surf, palette), DD_OK);

    let lock_desc: u32 = 0x24000;
    x86.mem.zero_bytes(lock_desc, 128);
    assert_eq!(surface7::Lock(&mut x86, surf, 0, lock_desc, 0, 0), DD_OK);
    let pixels = x86.mem.read_u32(lock_desc + 36);
    assert_ne!(pixels, 0);
    assert_eq!(x86.mem.read_u32(lock_desc + 16), 4); // pitch: width * 1 byte
    x86.mem.write_bytes(pixels, &[7, 7, 7, 7]);
    assert_eq!(surface7::Unlock(&mut x86, surf, 0), DD_OK);
    match x86.host.events.last().unwrap() {
        HostEvent::WritePixels { pixels: px, .. } => {
            let want = Rgba { r: 10, g: 20, b: 30, a: 255 };
            assert_eq!(px.as_slice(), &[want, want, want, want]);
        }
        e => panic!("unexpected host event {:?}", e),
    }
}

#[test]
fn lock_then_unlock_keeps_pixels_stable_and_addressable() {
    let mut x86 = setup();
    let desc: u32 = 0x22000;
    let surf = create_surface(&mut x86, desc, 16, 16);
    let lock_desc: u32 = 0x24000;
    x86.mem.zero_bytes(lock_desc, 128);
    assert_eq!(surface7::Lock(&mut x86, surf, 0, lock_desc, 0, 0), DD_OK);
    let pixels = x86.mem.read_u32(lock_desc + 36);
    assert_ne!(pixels, 0);
    // The whole buffer is addressable guest memory.
    assert!((pixels as usize) + 16 * 16 <= x86.mem.len());
    assert_eq!(surface7::Unlock(&mut x86, surf, 0), DD_OK);
    assert_eq!(x86.state.ddraw.surfaces.get(surf).unwrap().pixels, pixels);
    // A second lock hands out the same buffer.
    assert_eq!(surface7::Lock(&mut x86, surf, 0, lock_desc, 0, 0), DD_OK);
    assert_eq!(x86.mem.read_u32(lock_desc + 36), pixels);
}

#[test]
fn unlock_with_rect_reports_the_full_surface() {
    let mut x86 = setup();
    let surf = create_surface(&mut x86, 0x22000, 320, 200);
    let rect: u32 = 0x25000;
    assert_eq!(surface7::Unlock(&mut x86, surf, rect), DD_OK);
    assert_eq!(x86.mem.read_u32(rect), 0);
    assert_eq!(x86.mem.read_u32(rect + 4), 0);
    assert_eq!(x86.mem.read_u32(rect + 8), 320);
    assert_eq!(x86.mem.read_u32(rect + 12), 200);
}

#[test]
fn blt_fast_copies_the_rectangle() {
    let mut x86 = setup();
    let dst = create_surface(&mut x86, 0x22000, 16, 16);
    let src = create_surface(&mut x86, 0x26000, 16, 16);
    // Fill the source with 0x42.
    let lock_desc: u32 = 0x24000;
    x86.mem.zero_bytes(lock_desc, 128);
    assert_eq!(surface7::Lock(&mut x86, src, 0, lock_desc, 0, 0), DD_OK);
    let spx = x86.mem.read_u32(lock_desc + 36);
    x86.mem.write_bytes(spx, &[0x42; 256]);
    assert_eq!(surface7::Unlock(&mut x86, src, 0), DD_OK);

    let rect: u32 = 0x25000;
    x86.mem.write_u32(rect, 0);
    x86.mem.write_u32(rect + 4, 0);
    x86.mem.write_u32(rect + 8, 8);
    x86.mem.write_u32(rect + 12, 8);
    let dst_host = x86.state.ddraw.surfaces.get(dst).unwrap().host;
    let src_host = x86.state.ddraw.surfaces.get(src).unwrap().host;
    assert_eq!(surface7::BltFast(&mut x86, dst, 4, 4, src, rect, 0), DD_OK);
    assert_eq!(
        x86.host.events.last().unwrap(),
        &HostEvent::BitBlt {
            dst: dst_host,
            dx: 4,
            dy: 4,
            src: src_host,
            sx: 0,
            sy: 0,
            w: 8,
            h: 8
        }
    );
}

#[test]
fn enum_display_modes_invokes_the_callback_once_and_frees_the_scratch() {
    let mut x86 = setup();
    let heap_next_before = x86.state.ddraw.heap.next;
    let esp_before = x86.regs.esp;
    let r = ddraw7::EnumDisplayModes(&mut x86, 0, 0, 0, 0xAA55, 0x5000);
    assert_eq!(r, DD_OK);
    // Control is in the guest callback, with (desc, context) on the stack.
    assert_eq!(x86.regs.eip, 0x5000);
    let desc = x86.pop();
    let context = x86.pop();
    assert_eq!(context, 0xAA55);
    assert_eq!(x86.mem.read_u32(desc), 128);
    assert_eq!(x86.mem.read_u32(desc + 12), 320); // dwWidth
    assert_eq!(x86.mem.read_u32(desc + 8), 200); // dwHeight
    assert_eq!(x86.mem.read_u32(desc + 84), 8); // 8 bpp
    assert_eq!(x86.mem.read_u32(desc + 88), 0xFF00_0000);
    assert_eq!(x86.mem.read_u32(desc + 92), 0x00FF_0000);
    assert_eq!(x86.mem.read_u32(desc + 96), 0x0000_FF00);
    assert_eq!(x86.mem.read_u32(desc + 100), 0x0000_00FF);
    // The callback returns to the sentinel; the suspended shim resumes.
    x86.do_ret();
    assert_eq!(x86.regs.eip, CALLBACK_SENTINEL);
    assert_eq!(x86.regs.esp, esp_before);
    assert_eq!(ddraw7::resume_pending(&mut x86), DD_OK);
    assert_eq!(x86.regs.eax, DD_OK);
    assert!(x86.state.pending.is_none());
    // The scratch description was freed: the heap is back to its prior state.
    assert_eq!(x86.state.ddraw.heap.next, heap_next_before);
}

#[test]
fn flip_and_release_and_restore() {
    let mut x86 = setup();
    let surf = create_surface(&mut x86, 0x22000, 16, 16);
    let host = x86.state.ddraw.surfaces.get(surf).unwrap().host;
    assert_eq!(surface7::Flip(&mut x86, surf, 0, 0), DD_OK);
    assert_eq!(
        x86.host.events.last().unwrap(),
        &HostEvent::Flip { surface: host }
    );
    assert_eq!(surface7::Release(&mut x86, surf), 0);
    assert_eq!(ddraw7::Release(&mut x86, 0), 0);
    assert_eq!(surface7::Restore(&mut x86, surf), DD_OK);
    assert_eq!(surface7::ReleaseDC(&mut x86, surf, 1), DD_OK);
}

#[test]
fn get_attached_surface_inherits_the_record() {
    let mut x86 = setup();
    let surf = create_surface(&mut x86, 0x22000, 16, 16);
    let out: u32 = 0x27000;
    assert_eq!(surface7::GetAttachedSurface(&mut x86, surf, 0, out), DD_OK);
    let back = x86.mem.read_u32(out);
    assert_ne!(back, surf);
    assert_eq!(x86.mem.read_u32(back), x86.state.ddraw.vtable_surface7);
    let orig = *x86.state.ddraw.surfaces.get(surf).unwrap();
    let created = *x86.state.ddraw.surfaces.get(back).unwrap();
    assert_eq!((created.width, created.height), (orig.width, orig.height));
    assert_eq!((created.palette, created.pixels), (orig.palette, orig.pixels));
    assert_ne!(created.host, orig.host);
    match x86.host.events.last().unwrap() {
        HostEvent::GetAttached { surface, handle } => {
            assert_eq!(*surface, orig.host);
            assert_eq!(*handle, created.host);
        }
        e => panic!("unexpected host event {:?}", e),
    }
}

#[test]
fn get_dc_records_the_surface() {
    let mut x86 = setup();
    let surf = create_surface(&mut x86, 0x22000, 16, 16);
    let out: u32 = 0x27000;
    assert_eq!(surface7::GetDC(&mut x86, surf, out), DD_OK);
    let hdc = x86.mem.read_u32(out);
    assert_eq!(hdc, 1);
    assert_eq!(
        x86.state.gdi32.dcs.get(hdc).unwrap().ddraw_surface,
        surf
    );
}

#[test]
fn get_surface_desc_fills_requested_fields() {
    let mut x86 = setup();
    let surf = create_surface(&mut x86, 0x22000, 320, 200);
    let desc: u32 = 0x28000;
    x86.mem.zero_bytes(desc, 128);
    x86.mem.write_u32(desc, 128);
    x86.mem.write_u32(desc + 4, DDSD_WIDTH | DDSD_HEIGHT);
    assert_eq!(surface7::GetSurfaceDesc(&mut x86, surf, desc), DDERR_GENERIC);
    assert_eq!(x86.mem.read_u32(desc + 12), 320);
    assert_eq!(x86.mem.read_u32(desc + 8), 200);
}

#[test]
fn set_cooperative_level_and_display_mode_resize_the_window() {
    let mut x86 = setup();
    // Create a window through the user32 shim.
    let mut args = [0u32; 12];
    args[0] = 0;
    x86.push(0x1234);
    for &a in args.iter().rev() {
        x86.push(a);
    }
    win32::user32::CreateWindowExA(&mut x86);
    let hwnd = x86.regs.eax;
    let host_window = x86.state.user32.windows.get(hwnd).unwrap().host;

    assert_eq!(ddraw7::SetCooperativeLevel(&mut x86, 0, hwnd, 0x11), DD_OK);
    assert_eq!(x86.state.ddraw.hwnd, hwnd);
    assert_eq!(ddraw7::SetDisplayMode(&mut x86, 0, 320, 200, 8, 0, 0), DD_OK);
    assert_eq!((x86.state.ddraw.width, x86.state.ddraw.height), (320, 200));
    assert_eq!(
        x86.host.events.last().unwrap(),
        &HostEvent::SetSize { window: host_window, width: 320, height: 200 }
    );
}

#[test]
fn implemented_slots_match_the_interface_tables() {
    // IDirectDraw7: CreateSurface is slot 6, SetDisplayMode slot 21.
    assert!(ddraw::slot_implemented(Interface::DirectDraw7, 6));
    assert!(ddraw::slot_implemented(Interface::DirectDraw7, 21));
    // QueryInterface and Compact are stubs.
    assert!(!ddraw::slot_implemented(Interface::DirectDraw7, 0));
    assert!(!ddraw::slot_implemented(Interface::DirectDraw7, 3));
    // IDirectDrawSurface7: BltFast is slot 7, Lock slot 25, Unlock slot 32.
    assert!(ddraw::slot_implemented(Interface::DirectDrawSurface7, 7));
    assert!(ddraw::slot_implemented(Interface::DirectDrawSurface7, 25));
    assert!(ddraw::slot_implemented(Interface::DirectDrawSurface7, 32));
    assert!(!ddraw::slot_implemented(Interface::DirectDrawSurface7, 5)); // Blt
    assert!(!ddraw::slot_implemented(Interface::DirectDrawPalette, 2));
}

#[test]
fn flag_words_decode_only_known_bits() {
    assert_eq!(ddraw::ddscl_from_bits(0x11), Ok(0x11));
    assert_eq!(ddraw::ddscl_from_bits(0x2000), Err(0x2000));
    assert_eq!(ddraw::ddflip_from_bits(0x1), Ok(0x1));
    assert_eq!(ddraw::ddflip_from_bits(0x4000_0000), Err(0x4000_0000));
}
