//! The audio sink that receives the PCM stream.

use vstd::prelude::*;
use vstd::slice::slice_to_vec;

verus! {

/// A device that plays signed 16-bit mono samples at a fixed rate.
pub trait AudioOut {
    /// Every buffer handed to `play` so far, oldest first.
    spec fn played(&self) -> Seq<Seq<i16>>;

    /// The rate of the device in samples per second.
    spec fn rate(&self) -> u32;

    fn play(&mut self, samples: &[i16])
        ensures
            final(self).played() == old(self).played().push(samples@),
            final(self).rate() == old(self).rate(),
    ;

    fn sample_rate(&self) -> (r: u32)
        ensures
            r == self.rate(),
    ;
}

/// A device that drops what it is given.
pub struct DummyAudioOut {
    heard: Ghost<Seq<Seq<i16>>>,
}

impl DummyAudioOut {
    pub fn new() -> (d: DummyAudioOut)
        ensures
            d.played() == Seq::<Seq<i16>>::empty(),
            d.rate() == 44100,
    {
        DummyAudioOut { heard: Ghost(Seq::empty()) }
    }
}

impl AudioOut for DummyAudioOut {
    closed spec fn played(&self) -> Seq<Seq<i16>> {
        self.heard@
    }

    open spec fn rate(&self) -> u32 {
        44100
    }

    fn play(&mut self, samples: &[i16]) {
        proof {
            self.heard@ = self.heard@.push(samples@);
        }
    }

    fn sample_rate(&self) -> (r: u32) {
        44100
    }
}

/// A device that keeps what it is given until somebody takes it. It
/// stands between the APU and a device of the host: the APU plays into the
/// queue, and the host takes the buffers out and plays them.
pub struct AudioQueue {
    rate: u32,
    queue: Vec<Vec<i16>>,
    heard: Ghost<Seq<Seq<i16>>>,
}

impl AudioQueue {
    /// The buffers that wait to be taken, oldest first.
    pub closed spec fn pending(&self) -> Seq<Seq<i16>> {
        Seq::new(self.queue@.len(), |i: int| self.queue@[i]@)
    }

    /// An empty queue for a device of `rate` samples per second.
    pub fn new(rate: u32) -> (q: AudioQueue)
        ensures
            q.rate() == rate,
            q.played() == Seq::<Seq<i16>>::empty(),
            q.pending() == Seq::<Seq<i16>>::empty(),
    {
        let q = AudioQueue { rate, queue: Vec::new(), heard: Ghost(Seq::empty()) };
        assert(q.pending() =~= Seq::<Seq<i16>>::empty());
        q
    }

    /// The number of buffers that wait to be taken.
    pub fn len(&self) -> (n: usize)
        ensures
            n == self.pending().len(),
    {
        self.queue.len()
    }

    /// The buffer at place `i` of the queue.
    pub fn get(&self, i: usize) -> (buffer: &Vec<i16>)
        requires
            i < self.pending().len(),
        ensures
            buffer@ == self.pending()[i as int],
    {
        &self.queue[i]
    }

    /// Takes every waiting buffer out of the queue, oldest first.
    pub fn take(&mut self) -> (taken: Vec<Vec<i16>>)
        ensures
            taken@.len() == old(self).pending().len(),
            forall|i: int| 0 <= i < taken@.len() ==> taken@[i]@ == old(self).pending()[i],
            final(self).pending() == Seq::<Seq<i16>>::empty(),
            final(self).played() == old(self).played(),
            final(self).rate() == old(self).rate(),
    {
        let mut taken: Vec<Vec<i16>> = Vec::new();
        core::mem::swap(&mut taken, &mut self.queue);
        assert(self.pending() =~= Seq::<Seq<i16>>::empty());
        taken
    }
}

impl AudioOut for AudioQueue {
    closed spec fn played(&self) -> Seq<Seq<i16>> {
        self.heard@
    }

    closed spec fn rate(&self) -> u32 {
        self.rate
    }

    fn play(&mut self, samples: &[i16])
        ensures
            final(self).pending() == old(self).pending().push(samples@),
    {
        let copy = slice_to_vec(samples);
        self.queue.push(copy);
        proof {
            self.heard@ = self.heard@.push(samples@);
            assert(self.pending() =~= old(self).pending().push(samples@));
        }
    }

    fn sample_rate(&self) -> (r: u32) {
        self.rate
    }
}

} // verus!
