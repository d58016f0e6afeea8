//! The host backend, modelled as a recorder: every call the core makes into
//! the host (writes, surface creation, blits, flips, pixel pushes, window
//! resizes, process exit) is appended to an event list that callers and
//! tests can inspect. Handles for host surfaces and windows are handed out
//! from a counter.

use vstd::prelude::*;

verus! {

/// One 32-bit RGBA pixel as pushed to a host surface.
#[derive(Clone, Copy, Debug, PartialEq, Eq, Structural)]
pub struct Rgba {
    pub r: u8,
    pub g: u8,
    pub b: u8,
    pub a: u8,
}

/// A call made into the host backend, in program order.
#[derive(Clone, Debug, PartialEq)]
pub enum HostEvent {
    Exit { code: u32 },
    Write { buf: Vec<u8> },
    CreateSurface { handle: u32, width: u32, height: u32, primary: bool },
    GetAttached { surface: u32, handle: u32 },
    Flip { surface: u32 },
    BitBlt { dst: u32, dx: u32, dy: u32, src: u32, sx: u32, sy: u32, w: u32, h: u32 },
    WritePixels { surface: u32, pixels: Vec<Rgba> },
    CreateWindow { handle: u32 },
    SetSize { window: u32, width: u32, height: u32 },
}

/// The host backend. `events` records every call; `next_handle` numbers the
/// host-side surfaces and windows; `exited` is set once the guest exits.
pub struct Host {
    pub events: Vec<HostEvent>,
    pub next_handle: u32,
    pub exited: bool,
}

impl Host {
    pub fn new() -> (r: Host)
        ensures
            r.events@ == Seq::<HostEvent>::empty(),
            r.next_handle == 1,
            !r.exited,
    {
        Host { events: Vec::new(), next_handle: 1, exited: false }
    }

    /// Terminate the process with `code`.
    pub fn exit(&mut self, code: u32)
        ensures
            final(self).events@ == old(self).events@.push(HostEvent::Exit { code }),
            final(self).exited,
            final(self).next_handle == old(self).next_handle,
    {
        self.events.push(HostEvent::Exit { code });
        self.exited = true;
    }

    /// Write `buf` to the host's output; every byte is accepted.
    pub fn write(&mut self, buf: Vec<u8>) -> (r: u32)
        requires
            buf@.len() <= u32::MAX,
        ensures
            final(self).events@ == old(self).events@.push(HostEvent::Write { buf: buf }),
            r == buf@.len(),
            final(self).next_handle == old(self).next_handle,
            final(self).exited == old(self).exited,
    {
        let n = buf.len() as u32;
        self.events.push(HostEvent::Write { buf });
        n
    }

    /// Create a host surface and hand back a fresh handle for it.
    pub fn create_surface(&mut self, width: u32, height: u32, primary: bool) -> (r: u32)
        requires
            old(self).next_handle < u32::MAX,
        ensures
            r == old(self).next_handle,
            final(self).next_handle == old(self).next_handle + 1,
            final(self).events@ == old(self).events@.push(
                HostEvent::CreateSurface { handle: r, width, height, primary },
            ),
            final(self).exited == old(self).exited,
    {
        let handle = self.next_handle;
        self.next_handle = self.next_handle + 1;
        self.events.push(HostEvent::CreateSurface { handle, width, height, primary });
        handle
    }

    /// The surface attached to `surface` (its back buffer), as a fresh handle.
    pub fn get_attached(&mut self, surface: u32) -> (r: u32)
        requires
            old(self).next_handle < u32::MAX,
        ensures
            r == old(self).next_handle,
            final(self).next_handle == old(self).next_handle + 1,
            final(self).events@ == old(self).events@.push(
                HostEvent::GetAttached { surface, handle: r },
            ),
            final(self).exited == old(self).exited,
    {
        let handle = self.next_handle;
        self.next_handle = self.next_handle + 1;
        self.events.push(HostEvent::GetAttached { surface, handle });
        handle
    }

    pub fn flip(&mut self, surface: u32)
        ensures
            final(self).events@ == old(self).events@.push(HostEvent::Flip { surface }),
            final(self).next_handle == old(self).next_handle,
            final(self).exited == old(self).exited,
    {
        self.events.push(HostEvent::Flip { surface });
    }

    /// Copy the `w`x`h` rectangle at (`sx`,`sy`) of `src` to (`dx`,`dy`) of `dst`.
    pub fn bit_blt(&mut self, dst: u32, dx: u32, dy: u32, src: u32, sx: u32, sy: u32, w: u32, h: u32)
        ensures
            final(self).events@ == old(self).events@.push(
                HostEvent::BitBlt { dst, dx, dy, src, sx, sy, w, h },
            ),
            final(self).next_handle == old(self).next_handle,
            final(self).exited == old(self).exited,
    {
        self.events.push(HostEvent::BitBlt { dst, dx, dy, src, sx, sy, w, h });
    }

    /// Push a full frame of RGBA pixels to `surface`.
    pub fn write_pixels(&mut self, surface: u32, pixels: Vec<Rgba>)
        ensures
            final(self).events@ == old(self).events@.push(
                HostEvent::WritePixels { surface, pixels: pixels },
            ),
            final(self).next_handle == old(self).next_handle,
            final(self).exited == old(self).exited,
    {
        self.events.push(HostEvent::WritePixels { surface, pixels });
    }

    /// Create a host window and hand back a fresh handle for it.
    pub fn create_window(&mut self) -> (r: u32)
        requires
            old(self).next_handle < u32::MAX,
        ensures
            r == old(self).next_handle,
            final(self).next_handle == old(self).next_handle + 1,
            final(self).events@ == old(self).events@.push(HostEvent::CreateWindow { handle: r }),
            final(self).exited == old(self).exited,
    {
        let handle = self.next_handle;
        self.next_handle = self.next_handle + 1;
        self.events.push(HostEvent::CreateWindow { handle });
        handle
    }

    pub fn set_size(&mut self, window: u32, width: u32, height: u32)
        ensures
            final(self).events@ == old(self).events@.push(
                HostEvent::SetSize { window, width, height },
            ),
            final(self).next_handle == old(self).next_handle,
            final(self).exited == old(self).exited,
    {
        self.events.push(HostEvent::SetSize { window, width, height });
    }
}

} // verus!
