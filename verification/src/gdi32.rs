//! gdi32: device contexts obtained from DirectDraw surfaces.

use vstd::prelude::*;

use crate::table::Table;

verus! {

/// A device context; it remembers the guest surface it was obtained from.
#[derive(Clone, Copy, Debug, PartialEq, Eq, Structural)]
pub struct DC {
    pub ddraw_surface: u32,
}

impl DC {
    pub fn new() -> (r: DC)
        ensures
            r.ddraw_surface == 0,
    {
        DC { ddraw_surface: 0 }
    }
}

pub struct State {
    pub dcs: Table<DC>,
}

impl State {
    pub open spec fn wf(&self) -> bool {
        self.dcs.wf()
    }

    pub fn new() -> (r: State)
        ensures
            r.wf(),
            r.dcs@ == Map::<u32, DC>::empty(),
            r.dcs.next == 1,
    {
        State { dcs: Table::new(1) }
    }
}

} // verus!
