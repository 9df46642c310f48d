//! The fan-out hub: a bounded-history broadcast conduit.
//!
//! Producers publish serialized frames; every subscriber session holds an
//! independent cursor into the published history.  The hub retains only the
//! newest `capacity` frames: a cursor that falls behind the retained window
//! is resynchronized by skipping forward, which is reported as a lag, not a
//! failure.  Publishing never blocks and never fails the producer, with or
//! without subscribers.
//!
//! The ghost `history` field carries the full sequence of frames ever
//! published, so contracts can speak of absolute sequence numbers while the
//! code stores only the retained tail.

use vstd::prelude::*;

verus! {

/// The retained-history bound the server runs with.
pub const HUB_DEFAULT_CAPACITY: usize = 500;

/// The broadcast hub.  One per process; all producers publish into it.
pub struct Hub {
    capacity: usize,
    next_seq: u64,
    buffer: Vec<String>,
    history: Ghost<Seq<Seq<char>>>,
}

/// One subscriber's independent read position, counted in absolute sequence
/// numbers from the start of the history.
pub struct Cursor {
    pos: u64,
}

impl Cursor {
    /// The absolute sequence number of the next frame this cursor reads.
    pub closed spec fn spec_pos(&self) -> u64 {
        self.pos
    }
}

/// What one receive attempt yields.
pub enum RecvOutcome {
    /// The next frame in publish order.
    Event(String),
    /// The cursor had fallen behind the retained window; it skipped the
    /// given number of frames and now sits at the oldest retained one.
    Lagged(u64),
    /// Nothing published beyond this cursor yet.
    Empty,
}

impl Hub {
    /// Every frame ever published, in publish order.
    pub closed spec fn spec_events(&self) -> Seq<Seq<char>> {
        self.history@
    }

    /// How many frames the hub retains.
    pub closed spec fn spec_capacity(&self) -> int {
        self.capacity as int
    }

    /// The absolute sequence number of the oldest frame still retained.
    pub open spec fn spec_first_retained(&self) -> int {
        if self.spec_events().len() <= self.spec_capacity() {
            0
        } else {
            self.spec_events().len() - self.spec_capacity()
        }
    }

    /// The hub's internal shape: the buffer is exactly the newest
    /// `capacity` frames of the history (all of it while shorter).
    pub closed spec fn wf(&self) -> bool {
        &&& self.capacity >= 1
        &&& self.next_seq as int == self.history@.len()
        &&& self.buffer@.len() == if self.history@.len() <= self.capacity as int {
            self.history@.len() as int
        } else {
            self.capacity as int
        }
        &&& forall|i: int|
            0 <= i < self.buffer@.len() ==> (#[trigger] self.buffer@[i])@ == self.history@[
                self.history@.len() - self.buffer@.len() + i
            ]
    }

    /// A fresh hub with the given retained-history bound and no events.
    pub fn new(capacity: usize) -> (h: Hub)
        requires
            capacity >= 1,
        ensures
            h.wf(),
            h.spec_events().len() == 0,
            h.spec_capacity() == capacity,
    {
        Hub { capacity, next_seq: 0, buffer: Vec::new(), history: Ghost(Seq::empty()) }
    }

    /// How many frames have ever been published.
    pub fn len(&self) -> (n: u64)
        requires
            self.wf(),
        ensures
            n as int == self.spec_events().len(),
    {
        self.next_seq
    }

    /// Publish one frame.  Appends to the history, evicting the oldest
    /// retained frame once the buffer is full; succeeds whether or not
    /// anyone is subscribed, and touches no cursor.
    pub fn publish(&mut self, frame: String)
        requires
            old(self).wf(),
            old(self).spec_events().len() < u64::MAX,
        ensures
            final(self).wf(),
            final(self).spec_events() == old(self).spec_events().push(frame@),
            final(self).spec_capacity() == old(self).spec_capacity(),
    {
        let ghost fstr = frame;
        self.buffer.push(frame);
        proof {
            self.history@ = self.history@.push(fstr@);
        }
        if self.buffer.len() > self.capacity {
            let _evicted = self.buffer.remove(0);
        }
        self.next_seq = self.next_seq + 1;
        proof {
            let h = self.history@;
            let oh = old(self).history@;
            let ob = old(self).buffer@;
            let b = self.buffer@;
            if ob.len() < self.capacity as int {
                assert(b == ob.push(fstr));
                assert forall|i: int| 0 <= i < b.len() implies (#[trigger] b[i])@ == h[h.len()
                    - b.len() + i] by {
                    if i < b.len() - 1 {
                        assert(b[i] == ob[i]);
                        assert(ob[i]@ == oh[oh.len() - ob.len() + i]);
                    } else {
                        assert(b[i] == fstr);
                    }
                }
            } else {
                assert(b == ob.push(fstr).remove(0));
                assert forall|i: int| 0 <= i < b.len() implies (#[trigger] b[i])@ == h[h.len()
                    - b.len() + i] by {
                    assert(b[i] == ob.push(fstr)[i + 1]);
                    if i + 1 < ob.len() {
                        assert(b[i] == ob[i + 1]);
                        assert(ob[i + 1]@ == oh[oh.len() - ob.len() + i + 1]);
                    } else {
                        assert(b[i] == fstr);
                    }
                }
            }
        }
    }

    /// Take a new cursor.  It observes exactly the frames published from
    /// this moment onward (subject to the eviction policy): its position is
    /// the current end of the history.
    pub fn subscribe(&self) -> (c: Cursor)
        requires
            self.wf(),
        ensures
            c.spec_pos() as int == self.spec_events().len(),
    {
        Cursor { pos: self.next_seq }
    }

    /// Advance a cursor by one receive attempt.
    ///
    /// - `Empty` exactly when the cursor already sits at the end of the
    ///   history; the cursor stays put.
    /// - `Lagged(k)` exactly when the cursor has fallen behind the retained
    ///   window: it skips the `k` evicted frames and resynchronizes at the
    ///   oldest retained one, and nothing is lost silently.
    /// - `Event(f)` otherwise: `f` is precisely the frame at the cursor's
    ///   position in the full history, and the cursor advances by one, so a
    ///   reader that keeps up sees every frame, in order, with no gaps.
    ///
    /// The cursor never moves backwards, so no frame published before a
    /// subscription is ever returned to it.
    pub fn recv(&self, c: &mut Cursor) -> (r: RecvOutcome)
        requires
            self.wf(),
            old(c).spec_pos() as int <= self.spec_events().len(),
        ensures
            final(c).spec_pos() as int <= self.spec_events().len(),
            final(c).spec_pos() >= old(c).spec_pos(),
            (r is Empty) <==> old(c).spec_pos() as int == self.spec_events().len(),
            r is Empty ==> final(c).spec_pos() == old(c).spec_pos(),
            (r is Lagged) <==> (old(c).spec_pos() as int) < self.spec_first_retained(),
            r matches RecvOutcome::Lagged(k) ==> k as int == self.spec_first_retained() - old(
                c,
            ).spec_pos() && final(c).spec_pos() as int == self.spec_first_retained(),
            (r is Event) <==> self.spec_first_retained() <= old(c).spec_pos()
                < self.spec_events().len(),
            r matches RecvOutcome::Event(f) ==> f@ == self.spec_events()[old(c).spec_pos() as int]
                && final(c).spec_pos() == old(c).spec_pos() + 1,
    {
        if c.pos == self.next_seq {
            return RecvOutcome::Empty;
        }
        let first = self.next_seq - self.buffer.len() as u64;
        if c.pos < first {
            let k = first - c.pos;
            c.pos = first;
            RecvOutcome::Lagged(k)
        } else {
            let idx = (c.pos - first) as usize;
            let f = self.buffer[idx].clone();
            c.pos = c.pos + 1;
            RecvOutcome::Event(f)
        }
    }
}

/// Hub fan-out, one half: a publish is seen by every cursor taken strictly
/// before it.  Right after the hub moves from `h0` to `h1` by publishing
/// `f`, a cursor position taken under `h0` still lies at or before the new
/// frame's sequence number, the new frame is retained, and the frame at
/// that sequence number is `f` itself — so such a cursor reaches `f` by
/// `recv` alone, which returns frames at the cursor's position and only
/// ever skips forward to the oldest retained frame.
pub proof fn lemma_fanout_sees_publish(h0: Hub, h1: Hub, f: Seq<char>, pos: int)
    requires
        h1.spec_events() == h0.spec_events().push(f),
        h1.spec_capacity() == h0.spec_capacity(),
        h1.spec_capacity() >= 1,
        0 <= pos <= h0.spec_events().len(),
    ensures
        pos <= h0.spec_events().len() < h1.spec_events().len(),
        h1.spec_events()[h0.spec_events().len() as int] == f,
        h1.spec_first_retained() <= h0.spec_events().len(),
{
}

/// Hub fan-out, the other half: a cursor taken strictly after a publish
/// never observes it.  A cursor starts at the end of the history and never
/// moves backwards, and `recv` only returns the frame at the cursor's own
/// position; so every frame it ever returns has a sequence number at or
/// past the subscription point, and the index of a frame published earlier
/// lies strictly below it.
pub proof fn lemma_late_subscriber_misses_publish(
    events_at_subscribe: Seq<Seq<char>>,
    published_index: int,
    cursor_pos: int,
)
    requires
        0 <= published_index < events_at_subscribe.len(),
        cursor_pos >= events_at_subscribe.len(),
    ensures
        published_index < cursor_pos,
{
}

} // verus!
