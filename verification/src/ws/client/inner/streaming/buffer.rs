use vstd::prelude::*;

use crate::ws::event::EventData;

verus! {

/// Events that arrived ahead of their turn, in the order of their serial
/// numbers, each number at most once.
#[derive(Debug)]
pub struct EventBuffer {
    buffer: Vec<EventData>,
}

/// Whether the serial numbers of `s` grow from each entry to the next.
pub open spec fn sorted(s: Seq<EventData>) -> bool {
    forall|i: int, j: int| 0 <= i < j < s.len() ==> s[i].sn < s[j].sn
}

/// Whether `s` has an entry with the serial number `sn`.
pub open spec fn holds(s: Seq<EventData>, sn: u64) -> bool {
    exists|i: int| 0 <= i < s.len() && s[i].sn == sn
}

/// The place of the serial number `sn` in `s`: the number of entries up to
/// the last one that is smaller.
pub open spec fn rank(s: Seq<EventData>, sn: u64) -> nat
    decreases s.len(),
{
    if s.len() == 0 || s.last().sn < sn {
        s.len()
    } else {
        rank(s.drop_last(), sn)
    }
}

/// The buffer after `item` came while `sn` was the last number delivered:
/// an event that was delivered or is buffered already is dropped, any other
/// takes its place in the order.
pub open spec fn put_spec(s: Seq<EventData>, sn: u64, item: EventData) -> Seq<EventData> {
    if item.sn <= sn || holds(s, item.sn) {
        s
    } else {
        s.insert(rank(s, item.sn) as int, item)
    }
}

/// The number of events at the head of `s` that can be delivered after
/// `sn`: those that continue it without a gap.
pub open spec fn ready(s: Seq<EventData>, sn: u64) -> nat
    decreases s.len(),
{
    if s.len() > 0 && sn < u64::MAX && s[0].sn == sn + 1 {
        1 + ready(s.skip(1), (sn + 1) as u64)
    } else {
        0
    }
}

/// The place of a number is within the buffer.
pub proof fn lemma_rank_bounds(s: Seq<EventData>, sn: u64)
    ensures
        rank(s, sn) <= s.len(),
    decreases s.len(),
{
    if s.len() > 0 && s.last().sn >= sn {
        lemma_rank_bounds(s.drop_last(), sn);
    }
}

/// In a sorted buffer every entry before the place of `sn` is smaller and
/// every entry from it on is not.
pub proof fn lemma_rank_splits(s: Seq<EventData>, sn: u64)
    requires
        sorted(s),
    ensures
        rank(s, sn) <= s.len(),
        forall|i: int| 0 <= i < rank(s, sn) ==> (#[trigger] s[i]).sn < sn,
        forall|i: int| rank(s, sn) <= i < s.len() ==> (#[trigger] s[i]).sn >= sn,
    decreases s.len(),
{
    if s.len() > 0 && s.last().sn >= sn {
        let head = s.drop_last();
        lemma_rank_splits(head, sn);
        assert forall|i: int| 0 <= i < rank(s, sn) implies (#[trigger] s[i]).sn < sn by {
            assert(s[i] == head[i]);
        }
        assert forall|i: int| rank(s, sn) <= i < s.len() implies (#[trigger] s[i]).sn >= sn by {
            if i < head.len() {
                assert(s[i] == head[i]);
            }
        }
    }
}

/// Putting an event keeps the buffer sorted.
pub proof fn lemma_put_sorted(s: Seq<EventData>, sn: u64, item: EventData)
    requires
        sorted(s),
    ensures
        sorted(put_spec(s, sn, item)),
{
    if !(item.sn <= sn || holds(s, item.sn)) {
        lemma_rank_splits(s, item.sn);
        let k = rank(s, item.sn) as int;
        let t = s.insert(k, item);
        assert forall|i: int, j: int| 0 <= i < j < t.len() implies t[i].sn < t[j].sn by {
            if j == k {
                assert(t[i] == s[i]);
            } else if i == k {
                assert(t[j] == s[j - 1]);
                assert(s[j - 1].sn != item.sn);
            } else {
                let a = if i < k {
                    i
                } else {
                    i - 1
                };
                let b = if j < k {
                    j
                } else {
                    j - 1
                };
                assert(t[i] == s[a] && t[j] == s[b]);
            }
        }
    }
}

/// The events that can be delivered after `sn` carry the numbers that
/// follow it, one by one.
pub proof fn lemma_ready_run(s: Seq<EventData>, sn: u64)
    ensures
        ready(s, sn) <= s.len(),
        sn + ready(s, sn) <= u64::MAX,
        forall|i: int| 0 <= i < ready(s, sn) ==> (#[trigger] s[i]).sn == sn + 1 + i,
    decreases s.len(),
{
    if s.len() > 0 && sn < u64::MAX && s[0].sn == sn + 1 {
        let rest = s.skip(1);
        lemma_ready_run(rest, (sn + 1) as u64);
        assert forall|i: int| 0 <= i < ready(s, sn) implies (#[trigger] s[i]).sn == sn + 1 + i by {
            if i > 0 {
                assert(s[i] == rest[i - 1]);
            }
        }
    }
}

/// An event that arrives ahead of its predecessor waits for it: while the
/// number `k + 1` is missing, the event `k + 2` is not delivered; once
/// `k + 1` has come, it is delivered first and `k + 2` right behind it.
pub proof fn lemma_gap_tolerance(s: Seq<EventData>, k: u64, early: EventData, late: EventData)
    requires
        sorted(s),
        forall|i: int| 0 <= i < s.len() ==> (#[trigger] s[i]).sn > k + 2,
        k + 2 <= u64::MAX,
        early.sn == k + 2,
        late.sn == k + 1,
    ensures
        ready(put_spec(s, k, early), k) == 0,
        ready(put_spec(put_spec(s, k, early), k, late), k) >= 2,
        put_spec(put_spec(s, k, early), k, late)[0] == late,
        put_spec(put_spec(s, k, early), k, late)[1] == early,
{
    lemma_rank_splits(s, early.sn);
    assert(rank(s, early.sn) == 0) by {
        if rank(s, early.sn) > 0 {
            assert(s[0].sn < early.sn);
        }
    }
    let one = put_spec(s, k, early);
    assert(one == s.insert(0, early));
    assert(one[0] == early);
    lemma_put_sorted(s, k, early);
    lemma_rank_splits(one, late.sn);
    assert(rank(one, late.sn) == 0) by {
        if rank(one, late.sn) > 0 {
            assert(one[0].sn < late.sn);
        }
    }
    assert(!holds(one, late.sn)) by {
        if holds(one, late.sn) {
            let i = choose|i: int| 0 <= i < one.len() && one[i].sn == late.sn;
            if i > 0 {
                assert(one[i] == s[i - 1]);
            }
        }
    }
    let two = put_spec(one, k, late);
    assert(two == one.insert(0, late));
    assert(two[0] == late);
    assert(two[1] == early);
    let rest = two.skip(1);
    assert(rest[0] == early);
    assert(ready(rest, (k + 1) as u64) >= 1);
}

impl View for EventBuffer {
    type V = Seq<EventData>;

    closed spec fn view(&self) -> Seq<EventData> {
        self.buffer@
    }
}

impl EventBuffer {
    /// The buffer's invariant: its events stand in the order of their
    /// serial numbers, and no number occurs twice.
    pub open spec fn wf(&self) -> bool {
        sorted(self@)
    }

    /// An empty buffer.
    pub fn new() -> (buffer: Self)
        ensures
            buffer.wf(),
            buffer@ == Seq::<EventData>::empty(),
    {
        EventBuffer { buffer: Vec::new() }
    }

    /// Takes in an event that came while `sn` was the last number
    /// delivered.
    pub fn put(&mut self, sn: u64, item: EventData)
        requires
            old(self).wf(),
        ensures
            final(self).wf(),
            final(self)@ == put_spec(old(self)@, sn, item),
    {
        if item.sn <= sn {
            return ;
        }
        let ghost s = self.buffer@;
        let mut i: usize = self.buffer.len();
        assert(s.subrange(0, i as int) =~= s);
        while i > 0 && self.buffer[i - 1].sn >= item.sn
            invariant
                i <= self.buffer.len(),
                self.buffer@ == s,
                rank(s, item.sn) == rank(s.subrange(0, i as int), item.sn),
            decreases i,
        {
            assert(s.subrange(0, i as int).drop_last() =~= s.subrange(0, i - 1));
            i = i - 1;
        }
        proof {
            lemma_rank_splits(s, item.sn);
            lemma_put_sorted(s, sn, item);
        }
        if i < self.buffer.len() && self.buffer[i].sn == item.sn {
            return ;
        }
        assert(!holds(s, item.sn)) by {
            if holds(s, item.sn) {
                let j = choose|j: int| 0 <= j < s.len() && s[j].sn == item.sn;
                if j > i {
                    assert(s[i as int].sn < s[j].sn);
                }
            }
        }
        self.buffer.insert(i, item);
    }

    /// The buffered event with the smallest serial number.
    pub fn peek(&self) -> (first: Option<&EventData>)
        ensures
            match first {
                Some(event) => self@.len() > 0 && *event == self@[0],
                None => self@.len() == 0,
            },
    {
        if self.buffer.len() > 0 {
            Some(&self.buffer[0])
        } else {
            None
        }
    }

    /// Takes out the buffered event with the smallest serial number.
    pub fn pop(&mut self) -> (first: Option<EventData>)
        requires
            old(self).wf(),
        ensures
            final(self).wf(),
            match first {
                Some(event) => old(self)@.len() > 0 && event == old(self)@[0] && final(self)@
                    == old(self)@.skip(1),
                None => old(self)@.len() == 0 && final(self)@ == old(self)@,
            },
    {
        if self.buffer.len() > 0 {
            let ghost s = self.buffer@;
            let first = self.buffer.remove(0);
            assert(self.buffer@ =~= s.skip(1));
            Some(first)
        } else {
            None
        }
    }

    /// Starts a walk through the events that can be delivered after `sn`:
    /// those that continue it without a gap, in their order.
    pub fn events_can_be_sent(&mut self, sn: u64) -> (walk: EventsCanBeSend<'_>)
        ensures
            walk.sn == sn,
            *walk.buffer == *old(self),
            *final(self) == *final(walk.buffer),
    {
        EventsCanBeSend { sn, buffer: self }
    }
}

/// The events of a buffer that can be delivered after a serial number,
/// handed out one by one.
pub struct EventsCanBeSend<'a> {
    /// the serial number of the last event handed out, or the number that
    /// the walk started from
    pub sn: u64,
    /// the buffer that the events are taken from
    pub buffer: &'a mut EventBuffer,
}

impl<'a> EventsCanBeSend<'a> {
    /// Hands out the buffer's first event if it continues the last one
    /// without a gap: then the event leaves the buffer and its number is
    /// the last one. Else nothing is handed out and nothing changes.
    pub fn next(&mut self) -> (item: Option<EventData>)
        requires
            old(self).buffer.wf(),
        ensures
            final(self).buffer.wf(),
            *final(final(self).buffer) == *final(old(self).buffer),
            match item {
                Some(event) => {
                    &&& old(self).buffer@.len() > 0
                    &&& event == old(self).buffer@[0]
                    &&& event.sn == old(self).sn + 1
                    &&& final(self).sn == event.sn
                    &&& final(self).buffer@ == old(self).buffer@.skip(1)
                },
                None => {
                    &&& !(old(self).buffer@.len() > 0 && old(self).buffer@[0].sn == old(self).sn
                        + 1)
                    &&& final(self).sn == old(self).sn
                    &&& final(self).buffer@ == old(self).buffer@
                },
            },
    {
        let due = match self.buffer.peek() {
            Some(first) => self.sn < u64::MAX && first.sn == self.sn + 1,
            None => false,
        };
        if due {
            self.sn = self.sn + 1;
            self.buffer.pop()
        } else {
            None
        }
    }

    /// Takes out every event that can be delivered: the walk goes on until
    /// the buffer's first event leaves a gap.
    pub fn all(self) -> (events: Vec<EventData>)
        requires
            self.buffer.wf(),
        ensures
            final(self.buffer).wf(),
            events@ == old(self.buffer)@.take(ready(old(self.buffer)@, self.sn) as int),
            final(self.buffer)@ == old(self.buffer)@.skip(
                ready(old(self.buffer)@, self.sn) as int,
            ),
    {
        let ghost s = self.buffer@;
        let ghost sn = self.sn;
        let mut walk = self;
        let mut events: Vec<EventData> = Vec::new();
        proof {
            lemma_ready_run(s, sn);
        }
        loop
            invariant
                walk.buffer.wf(),
                *final(walk.buffer) == *final(self.buffer),
                events@ + walk.buffer@ == s,
                events@.len() + ready(walk.buffer@, walk.sn) == ready(s, sn),
                walk.sn == sn + events@.len(),
                ready(s, sn) <= s.len(),
            ensures
                walk.buffer.wf(),
                *final(walk.buffer) == *final(self.buffer),
                events@ + walk.buffer@ == s,
                events@.len() == ready(s, sn),
            decreases walk.buffer@.len(),
        {
            let ghost before = walk.buffer@;
            let ghost sent = events@;
            match walk.next() {
                Some(event) => {
                    events.push(event);
                    assert(events@ + walk.buffer@ =~= sent + before);
                },
                None => {
                    break ;
                },
            }
        }
        assert(events@ =~= s.take(ready(s, sn) as int));
        assert(walk.buffer@ =~= s.skip(ready(s, sn) as int));
        events
    }
}

} // verus!
