//! The rendered frame as the update loop hands it on: the encoded picture,
//! the tick that it shows, and whether the panel is to be cleared for it.

use vstd::prelude::*;
use crate::schedule::Tick;

verus! {

/// An encoded picture of the display at one tick.
#[derive(Debug)]
pub struct RenderedFrame {
    tick: Tick,
    bytes: Vec<u8>,
    full_refresh: bool,
}

impl RenderedFrame {
    pub closed spec fn tick(&self) -> Tick {
        self.tick
    }

    pub closed spec fn bytes(&self) -> Seq<u8> {
        self.bytes@
    }

    /// Whether the panel is cleared before the frame is shown.
    pub closed spec fn full_refresh(&self) -> bool {
        self.full_refresh
    }

    /// The frame asks for a full refresh exactly at the top of the hour.
    #[verifier::type_invariant]
    pub open spec fn wf(&self) -> bool {
        self.full_refresh() <==> self.tick().spec_minute() == 0
    }

    /// Tags the encoded picture with the tick that it was drawn for.
    pub fn new(tick: Tick, bytes: Vec<u8>) -> (frame: RenderedFrame)
        ensures
            frame.wf(),
            frame.tick() == tick,
            frame.bytes() == bytes@,
            frame.full_refresh() <==> tick.spec_minute() == 0,
    {
        let full_refresh: bool = tick.minute() == 0;
        RenderedFrame { tick, bytes, full_refresh }
    }

    pub fn shown_tick(&self) -> (r: Tick)
        ensures
            r == self.tick(),
            r.wf(),
    {
        proof {
            use_type_invariant(&self.tick);
        }
        self.tick
    }

    pub fn is_full_refresh(&self) -> (r: bool)
        ensures
            r == self.full_refresh(),
            r <==> self.tick().spec_minute() == 0,
    {
        proof {
            use_type_invariant(self);
        }
        self.full_refresh
    }

    pub fn as_bytes(&self) -> (r: &Vec<u8>)
        ensures
            r@ == self.bytes(),
    {
        &self.bytes
    }
}

} // verus!
