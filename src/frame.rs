use vstd::prelude::*;
use std::collections::VecDeque;

verus! {

/// One decoded video frame as raw bytes in the negotiated layout, or the
/// empty frame (no buffer at all).
#[derive(Debug)]
pub struct Frame {
    buffer: Option<Vec<u8>>,
}

impl View for Frame {
    type V = Option<Seq<u8>>;

    closed spec fn view(&self) -> Option<Seq<u8>> {
        match self.buffer {
            Some(b) => Some(b@),
            None => None,
        }
    }
}

impl Frame {
    /// The frame that holds no buffer.
    pub fn empty() -> (r: Frame)
        ensures
            r@ == None::<Seq<u8>>,
    {
        Frame { buffer: None }
    }

    /// A frame holding the given bytes.
    pub fn from_bytes(bytes: Vec<u8>) -> (r: Frame)
        ensures
            r@ == Some(bytes@),
    {
        Frame { buffer: Some(bytes) }
    }

    /// The frame's bytes, if it holds a buffer.
    pub fn readable(&self) -> (r: Option<&[u8]>)
        ensures
            match r {
                Some(s) => self@ == Some(s@),
                None => self@ == None::<Seq<u8>>,
            },
    {
        match &self.buffer {
            Some(b) => Some(b.as_slice()),
            None => None,
        }
    }

    /// A second frame with the same contents.
    pub fn duplicate(&self) -> (r: Frame)
        ensures
            r@ == self@,
    {
        match &self.buffer {
            Some(b) => {
                let c = b.clone();
                assert(c@ =~= b@);
                Frame { buffer: Some(c) }
            },
            None => Frame { buffer: None },
        }
    }
}

/// The last `n` elements of `s` (all of it when it is shorter).
pub open spec fn keep_last<A>(s: Seq<A>, n: nat) -> Seq<A> {
    if s.len() <= n {
        s
    } else {
        s.subrange(s.len() - n, s.len() as int)
    }
}

/// A bounded first-in first-out queue of recent frames. Pushing beyond the
/// capacity drops the oldest frames; capacity zero keeps it empty.
#[derive(Debug)]
pub struct FrameBuffer {
    frames: VecDeque<Frame>,
    capacity: usize,
}

impl FrameBuffer {
    /// The frames held, oldest first.
    pub closed spec fn frames(&self) -> Seq<Option<Seq<u8>>> {
        self.frames@.map_values(|f: Frame| f@)
    }

    /// The most frames the buffer keeps.
    pub closed spec fn capacity(&self) -> nat {
        self.capacity as nat
    }

    /// The buffer never holds more than its capacity.
    pub open spec fn wf(&self) -> bool {
        self.frames().len() <= self.capacity()
    }

    /// An empty buffer of the given capacity.
    pub fn new(capacity: usize) -> (r: FrameBuffer)
        ensures
            r.wf(),
            r.frames() == Seq::<Option<Seq<u8>>>::empty(),
            r.capacity() == capacity,
    {
        let r = FrameBuffer { frames: VecDeque::new(), capacity };
        assert(r.frames() =~= Seq::<Option<Seq<u8>>>::empty());
        r
    }

    /// Number of frames held.
    pub fn len(&self) -> (r: usize)
        ensures
            r == self.frames().len(),
    {
        self.frames.len()
    }

    /// The capacity.
    pub fn capacity_value(&self) -> (r: usize)
        ensures
            r == self.capacity(),
    {
        self.capacity
    }

    /// Appends a frame, then drops frames from the front until the capacity
    /// holds again.
    pub fn push_bounded(&mut self, frame: Frame)
        requires
            old(self).wf(),
        ensures
            final(self).wf(),
            final(self).capacity() == old(self).capacity(),
            final(self).frames() == keep_last(old(self).frames().push(frame@), old(self).capacity()),
    {
        let ghost before = self.frames@;
        self.frames.push_back(frame);
        assert(self.frames@.map_values(|f: Frame| f@) =~= before.map_values(|f: Frame| f@).push(
            frame@,
        ));
        if self.frames.len() > self.capacity {
            let ghost pushed = self.frames@;
            let _ = self.frames.pop_front();
            assert(self.frames@.map_values(|f: Frame| f@) =~= pushed.map_values(
                |f: Frame| f@,
            ).subrange(1, pushed.len() as int));
        }
    }

    /// Removes and returns the oldest frame.
    pub fn pop_oldest(&mut self) -> (r: Option<Frame>)
        requires
            old(self).wf(),
        ensures
            final(self).wf(),
            final(self).capacity() == old(self).capacity(),
            old(self).frames().len() == 0 ==> r.is_none() && final(self).frames() == old(
                self,
            ).frames(),
            old(self).frames().len() > 0 ==> r.is_some() && r.unwrap()@ == old(self).frames()[0]
                && final(self).frames() == old(self).frames().drop_first(),
    {
        let ghost before = self.frames@;
        let r = self.frames.pop_front();
        proof {
            if before.len() > 0 {
                assert(self.frames@.map_values(|f: Frame| f@) =~= before.map_values(
                    |f: Frame| f@,
                ).drop_first());
            }
        }
        r
    }

    /// Removes every frame.
    pub fn clear(&mut self)
        ensures
            final(self).wf(),
            final(self).capacity() == old(self).capacity(),
            final(self).frames() == Seq::<Option<Seq<u8>>>::empty(),
    {
        self.frames.clear();
        assert(self.frames() =~= Seq::<Option<Seq<u8>>>::empty());
    }

    /// Sets a new capacity and drops the oldest frames until it holds
    /// (capacity zero empties the buffer).
    pub fn set_capacity(&mut self, capacity: usize)
        requires
            old(self).wf(),
        ensures
            final(self).wf(),
            final(self).capacity() == capacity,
            final(self).frames() == keep_last(old(self).frames(), capacity as nat),
    {
        self.capacity = capacity;
        if capacity == 0 {
            self.frames.clear();
            assert(self.frames() =~= keep_last(old(self).frames(), 0));
        } else {
            let ghost all = old(self).frames();
            let ghost dropped: int = 0;
            while self.frames.len() > capacity
                invariant
                    self.capacity == capacity,
                    0 <= dropped <= all.len(),
                    self.frames() == all.subrange(dropped, all.len() as int),
                    dropped > 0 ==> all.len() - dropped >= capacity,
                decreases self.frames@.len(),
            {
                let ghost before = self.frames@;
                let _ = self.frames.pop_front();
                assert(self.frames@.map_values(|f: Frame| f@) =~= before.map_values(
                    |f: Frame| f@,
                ).drop_first());
                proof {
                    dropped = dropped + 1;
                }
                assert(self.frames() =~= all.subrange(dropped, all.len() as int));
            }
            assert(self.frames() =~= keep_last(all, capacity as nat));
        }
    }
}

} // verus!
