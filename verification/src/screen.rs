//! The screen that receives the finished frames.

use vstd::prelude::*;
use crate::ppu::{Color, SCREEN_BUFFER_SIZE};

verus! {

/// A sink for frames of 256 by 240 pixels, stored row by row.
pub trait Screen {
    /// Every frame handed to `draw` so far, oldest first.
    spec fn frames(&self) -> Seq<Seq<Color>>;

    fn draw(&mut self, buf: &[Color; SCREEN_BUFFER_SIZE])
        ensures
            final(self).frames() == old(self).frames().push(buf@),
    ;
}

/// A screen that shows nothing.
pub struct DummyScreen {
    shown: Ghost<Seq<Seq<Color>>>,
}

impl DummyScreen {
    pub fn new() -> (s: DummyScreen)
        ensures
            s.frames() == Seq::<Seq<Color>>::empty(),
    {
        DummyScreen { shown: Ghost(Seq::empty()) }
    }
}

impl Screen for DummyScreen {
    closed spec fn frames(&self) -> Seq<Seq<Color>> {
        self.shown@
    }

    fn draw(&mut self, buf: &[Color; SCREEN_BUFFER_SIZE]) {
        proof {
            self.shown@ = self.shown@.push(buf@);
        }
    }
}

/// A screen that keeps the last frame it was given. It stands between the
/// PPU and a screen of the host, which shows the frame when it sees that
/// the count has gone up.
pub struct FrameCapture {
    latest: [Color; SCREEN_BUFFER_SIZE],
    count: u64,
    shown: Ghost<Seq<Seq<Color>>>,
}

impl FrameCapture {
    /// The frame that the screen keeps.
    pub closed spec fn spec_latest(&self) -> Seq<Color> {
        self.latest@
    }

    /// True if count and last frame agree with what the screen was given.
    pub closed spec fn wf(&self) -> bool {
        &&& self.count == self.shown@.len() || (self.count == u64::MAX && self.shown@.len()
            > u64::MAX)
        &&& self.shown@.len() > 0 ==> self.latest@ == self.shown@.last()
    }

    /// A screen that has been given nothing yet.
    pub fn new() -> (s: FrameCapture)
        ensures
            s.wf(),
            s.frames() == Seq::<Seq<Color>>::empty(),
            s.spec_latest() == Seq::new(
                SCREEN_BUFFER_SIZE as nat,
                |i: int| Color::spec_from_bits_truncate(0),
            ),
    {
        let s = FrameCapture {
            latest: [Color::from_bits_truncate(0); 61440],
            count: 0,
            shown: Ghost(Seq::empty()),
        };
        assert(s.spec_latest() =~= Seq::new(
            SCREEN_BUFFER_SIZE as nat,
            |i: int| Color::spec_from_bits_truncate(0),
        ));
        s
    }

    /// The number of frames given to the screen; it stops at the largest
    /// number that fits.
    pub fn count(&self) -> (n: u64)
        requires
            self.wf(),
        ensures
            n == self.frames().len() || (n == u64::MAX && self.frames().len() > u64::MAX),
    {
        self.count
    }

    /// The last frame given to the screen.
    pub fn latest(&self) -> (frame: &[Color; SCREEN_BUFFER_SIZE])
        requires
            self.wf(),
        ensures
            frame@ == self.spec_latest(),
            self.frames().len() > 0 ==> frame@ == self.frames().last(),
    {
        &self.latest
    }
}

impl Screen for FrameCapture {
    closed spec fn frames(&self) -> Seq<Seq<Color>> {
        self.shown@
    }

    fn draw(&mut self, buf: &[Color; SCREEN_BUFFER_SIZE])
        ensures
            old(self).wf() ==> final(self).wf(),
            final(self).spec_latest() == buf@,
    {
        self.latest = *buf;
        if self.count < u64::MAX {
            self.count = self.count + 1;
        }
        proof {
            self.shown@ = self.shown@.push(buf@);
        }
    }
}

} // verus!
