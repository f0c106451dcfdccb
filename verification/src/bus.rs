//! The broadcast bus: a bounded fan-out channel with slow-consumer drop.
//!
//! Every published envelope gets a global position. The bus retains at most
//! `capacity` recent envelopes; a subscriber that falls behind the retained
//! window misses the overwritten envelopes, learns how many it missed, and
//! keeps receiving — falling behind is recoverable, never fatal.

use vstd::prelude::*;

verus! {

/// A broadcast envelope: a complete, newline-terminated message text
/// together with the identity of the connection that published it.
#[derive(Clone)]
pub struct Envelope {
    pub text: String,
    pub origin: u64,
}

impl Envelope {
    /// Creates an envelope carrying `text` published by `origin`.
    pub fn new(text: String, origin: u64) -> (e: Envelope)
        ensures
            e@ == (text@, origin),
    {
        Envelope { text, origin }
    }

    /// Copies an envelope.
    pub fn duplicate(&self) -> (e: Envelope)
        ensures
            e@ == self@,
    {
        Envelope { text: self.text.clone(), origin: self.origin }
    }
}

impl View for Envelope {
    type V = (Seq<char>, u64);

    open spec fn view(&self) -> (Seq<char>, u64) {
        (self.text@, self.origin)
    }
}

/// The view of an optional envelope.
pub open spec fn env_opt_view(o: Option<Envelope>) -> Option<(Seq<char>, u64)> {
    match o {
        Some(e) => Some(e@),
        None => None,
    }
}

/// One publish on the retained window: appends, dropping the oldest
/// retained envelope when the window is full. Returns the new window and
/// its new start position.
pub open spec fn bus_publish(
    q: Seq<(Seq<char>, u64)>,
    start: int,
    cap: nat,
    m: (Seq<char>, u64),
) -> (Seq<(Seq<char>, u64)>, int) {
    if q.len() < cap {
        (q.push(m), start)
    } else {
        (q.subrange(1, q.len() as int).push(m), start + 1)
    }
}

/// A whole sequence of publishes, oldest first.
pub open spec fn bus_publish_all(
    q: Seq<(Seq<char>, u64)>,
    start: int,
    cap: nat,
    msgs: Seq<(Seq<char>, u64)>,
) -> (Seq<(Seq<char>, u64)>, int)
    decreases msgs.len(),
{
    if msgs.len() == 0 {
        (q, start)
    } else {
        let (q1, s1) = bus_publish(q, start, cap, msgs[0]);
        bus_publish_all(q1, s1, cap, msgs.subrange(1, msgs.len() as int))
    }
}

/// After any sequence of publishes the window holds the newest envelopes,
/// at most `cap` of them, and the window start accounts exactly for what
/// was dropped.
pub proof fn lemma_publish_all_window(
    q: Seq<(Seq<char>, u64)>,
    start: int,
    cap: nat,
    msgs: Seq<(Seq<char>, u64)>,
)
    requires
        q.len() <= cap,
        cap >= 1,
    ensures
        ({
            let (q1, s1) = bus_publish_all(q, start, cap, msgs);
            let kept: int = if q.len() + msgs.len() <= cap {
                q.len() + msgs.len() as int
            } else {
                cap as int
            };
            q1.len() == kept && s1 == start + q.len() + msgs.len() - kept && q1 == (q
                + msgs).subrange(q.len() + msgs.len() - kept, q.len() + msgs.len() as int)
        }),
    decreases msgs.len(),
{
    if msgs.len() == 0 {
        let (q1, s1) = bus_publish_all(q, start, cap, msgs);
        assert(q1 =~= (q + msgs).subrange(0, q.len() as int));
    } else {
        let (qa, sa) = bus_publish(q, start, cap, msgs[0]);
        let rest = msgs.subrange(1, msgs.len() as int);
        lemma_publish_all_window(qa, sa, cap, rest);
        assert(qa + rest =~= if q.len() < cap {
            q + msgs
        } else {
            (q + msgs).subrange(1, q.len() + msgs.len() as int)
        });
        let (q1, s1) = bus_publish_all(qa, sa, cap, rest);
        let kept: int = if q.len() + msgs.len() <= cap {
            q.len() + msgs.len() as int
        } else {
            cap as int
        };
        assert(q1 =~= (q + msgs).subrange(q.len() + msgs.len() - kept, q.len() + msgs.len() as int));
    }
}

/// Lossy broadcast: a subscriber standing at position `p` (everything
/// published so far consumed) while more envelopes than the bus can hold
/// are published misses exactly the overflow — the window start moves
/// `msgs.len() - cap` past `p` — and the bus retains the newest `cap`
/// envelopes in publish order, which the subscriber can still receive.
pub proof fn lemma_lossy_broadcast(
    q: Seq<(Seq<char>, u64)>,
    start: int,
    cap: nat,
    msgs: Seq<(Seq<char>, u64)>,
    p: int,
)
    requires
        q.len() <= cap,
        cap >= 1,
        p == start + q.len(),
        msgs.len() >= cap,
    ensures
        ({
            let (q1, s1) = bus_publish_all(q, start, cap, msgs);
            s1 - p == msgs.len() - cap && q1 == msgs.subrange(
                msgs.len() - cap,
                msgs.len() as int,
            ) && s1 + q1.len() == p + msgs.len()
        }),
{
    lemma_publish_all_window(q, start, cap, msgs);
    let (q1, s1) = bus_publish_all(q, start, cap, msgs);
    assert(q1 =~= msgs.subrange(msgs.len() - cap, msgs.len() as int));
}

/// What one receive attempt yields: the next retained envelope, a report
/// of how many envelopes were missed, or nothing pending.
pub enum Recv {
    /// The next envelope, in publish order.
    Message(Envelope),
    /// The subscriber fell behind: this many envelopes were dropped
    /// before it caught up to the oldest retained one.
    Lagged(u64),
    /// Nothing published beyond the subscriber's position yet.
    Empty,
}

/// A subscriber's cursor into the bus.
pub struct Subscription {
    pos: u64,
}

impl Subscription {
    /// The next position this subscriber will read.
    pub closed spec fn pos(&self) -> int {
        self.pos as int
    }
}

/// The bounded broadcast bus itself.
pub struct Bus {
    capacity: usize,
    first: u64,
    buffer: Vec<Envelope>,
}

impl Bus {
    /// How many envelopes the bus retains at most.
    pub closed spec fn cap(&self) -> nat {
        self.capacity as nat
    }

    /// The position of the oldest retained envelope.
    pub closed spec fn start_pos(&self) -> int {
        self.first as int
    }

    /// The retained envelopes, oldest first.
    pub closed spec fn window(&self) -> Seq<(Seq<char>, u64)> {
        self.buffer@.map_values(|e: Envelope| e@)
    }

    /// The position one past the newest retained envelope.
    pub open spec fn end_pos(&self) -> int {
        self.start_pos() + self.window().len()
    }

    /// The window never outgrows the capacity, and positions fit the
    /// machine word.
    pub closed spec fn wf(&self) -> bool {
        self.buffer@.len() <= self.capacity && self.capacity >= 1 && self.first
            + self.buffer@.len() <= u64::MAX
    }

    /// Creates a bus that retains at most `capacity` envelopes.
    pub fn new(capacity: usize) -> (b: Bus)
        requires
            capacity >= 1,
        ensures
            b.wf(),
            b.cap() == capacity,
            b.start_pos() == 0,
            b.window() == Seq::<(Seq<char>, u64)>::empty(),
    {
        let b = Bus { capacity, first: 0, buffer: Vec::new() };
        proof {
            assert(b.window() =~= Seq::<(Seq<char>, u64)>::empty());
        }
        b
    }

    /// Publishes an envelope: appends it to the window, dropping the
    /// oldest retained envelope when the window is full. Publishing never
    /// fails and never blocks, whether or not anybody subscribed.
    pub fn publish(&mut self, env: Envelope)
        requires
            old(self).wf(),
            old(self).end_pos() < u64::MAX,
        ensures
            final(self).wf(),
            final(self).cap() == old(self).cap(),
            ({
                let (q1, s1) = bus_publish(old(self).window(), old(self).start_pos(),
                    old(self).cap(), env@);
                final(self).window() == q1 && final(self).start_pos() == s1
            }),
            final(self).end_pos() == old(self).end_pos() + 1,
    {
        if self.buffer.len() == self.capacity {
            let _ = self.buffer.remove(0);
            self.first = self.first + 1;
            self.buffer.push(env);
            proof {
                let (q1, s1) = bus_publish(old(self).window(), old(self).start_pos(),
                    old(self).cap(), env@);
                assert(self.window() =~= q1);
            }
        } else {
            self.buffer.push(env);
            proof {
                let (q1, s1) = bus_publish(old(self).window(), old(self).start_pos(),
                    old(self).cap(), env@);
                assert(self.window() =~= q1);
            }
        }
    }

    /// Issues a fresh subscription positioned at "now": it will never see
    /// an envelope published before this call.
    pub fn subscribe(&self) -> (s: Subscription)
        requires
            self.wf(),
        ensures
            s.pos() == self.end_pos(),
    {
        Subscription { pos: self.first + self.buffer.len() as u64 }
    }

    /// One receive attempt for `sub`. A subscriber that fell behind the
    /// retained window gets `Lagged` with the exact number of envelopes it
    /// missed and is moved to the oldest retained position, so it can keep
    /// receiving; it never misses silently and never has to stop.
    pub fn try_recv(&self, sub: &mut Subscription) -> (r: Recv)
        requires
            self.wf(),
            old(sub).pos() <= self.end_pos(),
        ensures
            final(sub).pos() <= self.end_pos(),
            old(sub).pos() < self.start_pos() ==> (r matches Recv::Lagged(n) && n
                == self.start_pos() - old(sub).pos() && final(sub).pos() == self.start_pos()),
            self.start_pos() <= old(sub).pos() < self.end_pos() ==> (r matches Recv::Message(e)
                && e@ == self.window()[old(sub).pos() - self.start_pos()] && final(sub).pos()
                == old(sub).pos() + 1),
            old(sub).pos() == self.end_pos() ==> (r is Empty && final(sub).pos() == old(sub).pos()),
    {
        if sub.pos < self.first {
            let missed = self.first - sub.pos;
            sub.pos = self.first;
            Recv::Lagged(missed)
        } else {
            let offset = sub.pos - self.first;
            if (offset as usize) < self.buffer.len() {
                let env = self.buffer[offset as usize].duplicate();
                sub.pos = sub.pos + 1;
                Recv::Message(env)
            } else {
                Recv::Empty
            }
        }
    }
}

} // verus!
