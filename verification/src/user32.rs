//! user32: window bookkeeping and the user32 stdcall shims. Window classes
//! and window messages are accepted and recorded only as far as the
//! DirectDraw pipeline needs them.

use vstd::prelude::*;

use crate::host::HostEvent;
use crate::table::Table;
use crate::X86;

verus! {

/// A guest window, backed by a host window that can be resized.
#[derive(Clone, Copy, Debug, PartialEq, Eq, Structural)]
pub struct Window {
    pub host: u32,
}

pub struct State {
    pub windows: Table<Window>,
}

impl State {
    pub open spec fn wf(&self) -> bool {
        self.windows.wf()
    }

    pub fn new() -> (r: State)
        ensures
            r.wf(),
            r.windows@ == Map::<u32, Window>::empty(),
            r.windows.next == 1,
    {
        State { windows: Table::new(1) }
    }
}

/// user32.dll!RegisterClassA: accepts and discards the class description.
#[allow(non_snake_case)]
pub fn RegisterClassA(x86: &mut X86)
    requires
        old(x86).wf(),
        old(x86).regs.esp + 4 <= old(x86).mem@.len(),
    ensures
        final(x86).wf(),
        final(x86).regs.esp == old(x86).regs.esp + 4,
        final(x86).regs.eax == old(x86).regs.eax,
        final(x86).regs.eip == old(x86).regs.eip,
        final(x86).mem@ == old(x86).mem@,
        final(x86).state == old(x86).state,
        final(x86).host == old(x86).host,
{
    let _lpWndClass = x86.pop();
}

/// user32.dll!CreateWindowExA: pops the twelve creation arguments, creates
/// a host window, and returns a fresh window handle in `eax`.
#[allow(non_snake_case)]
pub fn CreateWindowExA(x86: &mut X86)
    requires
        old(x86).wf(),
        old(x86).regs.esp + 48 <= old(x86).mem@.len(),
        old(x86).state.user32.windows.next < u32::MAX,
        old(x86).host.next_handle < u32::MAX,
    ensures
        final(x86).wf(),
        final(x86).regs.esp == old(x86).regs.esp + 48,
        final(x86).regs.eax == old(x86).state.user32.windows.next,
        final(x86).regs.eip == old(x86).regs.eip,
        final(x86).mem@ == old(x86).mem@,
        final(x86).state.user32.windows@ == old(x86).state.user32.windows@.insert(
            old(x86).state.user32.windows.next,
            Window { host: old(x86).host.next_handle },
        ),
        final(x86).host.events@ == old(x86).host.events@.push(
            HostEvent::CreateWindow { handle: old(x86).host.next_handle },
        ),
        final(x86).host.next_handle == old(x86).host.next_handle + 1,
        final(x86).host.exited == old(x86).host.exited,
        final(x86).state.kernel32 == old(x86).state.kernel32,
        final(x86).state.gdi32 == old(x86).state.gdi32,
        final(x86).state.ddraw == old(x86).state.ddraw,
        final(x86).state.pending == old(x86).state.pending,
{
    let _dwExStyle = x86.pop();
    let _lpClassName = x86.pop();
    let _lpWindowName = x86.pop();
    let _dwStyle = x86.pop();
    let _x = x86.pop();
    let _y = x86.pop();
    let _nWidth = x86.pop();
    let _nHeight = x86.pop();
    let _hWndParent = x86.pop();
    let _hMenu = x86.pop();
    let _hInstance = x86.pop();
    let _lpParam = x86.pop();
    let host_window = x86.host.create_window();
    let handle = x86.state.user32.windows.add(Window { host: host_window });
    x86.regs.eax = handle;
}

/// user32.dll!UpdateWindow: accepted and ignored.
#[allow(non_snake_case)]
pub fn UpdateWindow(x86: &mut X86)
    requires
        old(x86).wf(),
        old(x86).regs.esp + 4 <= old(x86).mem@.len(),
    ensures
        final(x86).wf(),
        final(x86).regs.esp == old(x86).regs.esp + 4,
        final(x86).regs.eax == old(x86).regs.eax,
        final(x86).regs.eip == old(x86).regs.eip,
        final(x86).mem@ == old(x86).mem@,
        final(x86).state == old(x86).state,
        final(x86).host == old(x86).host,
{
    let _hWnd = x86.pop();
}

} // verus!
