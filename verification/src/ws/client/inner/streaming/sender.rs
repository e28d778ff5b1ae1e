use vstd::prelude::*;

use super::buffer::{lemma_ready_run, put_spec, ready, sorted, EventBuffer};
use super::stream::{EventStream, EventStreamError, EventStreamErrorKind, EventStreamItem};
use crate::api::types::GatewayResumeArguments;
use crate::ws::event::EventData;
use crate::ws::message::{Message, MessageStreamSinkError, Reconnect, SN};

verus! {

/// Keeps the resume arguments of the session: the serial number of the last
/// event delivered, and the session's id.
#[derive(Debug)]
pub struct SnRecorder {
    resume: GatewayResumeArguments,
}

impl SnRecorder {
    /// The resume arguments kept.
    pub closed spec fn resume(&self) -> GatewayResumeArguments {
        self.resume
    }

    /// Moves the serial number up to `val`; it never moves down.
    pub fn update_sn(&mut self, val: u64) -> (accepted: bool)
        ensures
            accepted,
            final(self).resume().session_id == old(self).resume().session_id,
            final(self).resume().sn == if old(self).resume().sn < val {
                val
            } else {
                old(self).resume().sn
            },
    {
        if self.resume.sn < val {
            self.resume.sn = val;
        }
        true
    }
}

/// The items that a run of events is delivered as: the body of each, in
/// the same order.
pub open spec fn items_of(events: Seq<EventData>) -> Seq<EventStreamItem> {
    events.map_values(|e: EventData| Ok::<_, EventStreamError>(e.event))
}

/// The serial numbers of a run of events.
pub open spec fn numbers_of(events: Seq<EventData>) -> Seq<u64> {
    events.map_values(|e: EventData| e.sn)
}

/// The sending side of the event stream: it holds back what came ahead of
/// its turn, delivers events in the order of their serial numbers without
/// gap or repetition, and keeps the resume arguments up to date.
pub struct EventStreamSender {
    buffer: EventBuffer,
    stream: EventStream,
    recorder: SnRecorder,
    first_sn: Ghost<u64>,
    delivered: Ghost<Seq<u64>>,
}

impl EventStreamSender {
    /// The events held back, in the order of their serial numbers.
    pub closed spec fn buffered(&self) -> Seq<EventData> {
        self.buffer@
    }

    /// The items sent and not taken yet, oldest first.
    pub closed spec fn pending(&self) -> Seq<EventStreamItem> {
        self.stream@
    }

    /// Whether the stream takes in what is sent: no error has been sent and
    /// the consumer has not dropped it.
    pub closed spec fn open(&self) -> bool {
        self.stream.open()
    }

    /// Whether the consumer has dropped the stream.
    pub closed spec fn dropped(&self) -> bool {
        self.stream.dropped()
    }

    /// The resume arguments as they stand.
    pub closed spec fn spec_resume(&self) -> GatewayResumeArguments {
        self.recorder.resume()
    }

    /// The serial number of the last event delivered.
    pub open spec fn spec_sn(&self) -> u64 {
        self.spec_resume().sn
    }

    /// The serial number that the sender started from.
    pub closed spec fn first_sn(&self) -> u64 {
        self.first_sn@
    }

    /// The serial numbers of all events delivered so far, in the order of
    /// delivery.
    pub closed spec fn delivered(&self) -> Seq<u64> {
        self.delivered@
    }

    /// The sender's invariant: what is held back is still to come, and the
    /// events delivered carry the numbers that follow the first one by one,
    /// up to the number that the resume arguments hold.
    pub closed spec fn wf(&self) -> bool {
        &&& self.buffer.wf()
        &&& self.stream.wf()
        &&& forall|i: int| 0 <= i < self.buffer@.len() ==> (#[trigger] self.buffer@[i]).sn > self.spec_sn()
        &&& self.spec_sn() == self.first_sn@ + self.delivered@.len()
        &&& forall|i: int| 0 <= i < self.delivered@.len() ==> #[trigger] self.delivered@[i]
            == self.first_sn@ + 1 + i
    }

    /// Whether `post` is this sender but for its buffer, its stream's items,
    /// its serial number and the log of what was delivered.
    pub open spec fn kept(self, post: Self) -> bool {
        &&& post.wf()
        &&& post.first_sn() == self.first_sn()
        &&& post.dropped() == self.dropped()
        &&& post.spec_resume().session_id == self.spec_resume().session_id
    }

    /// Whether `post` is this sender with nothing changed that a
    /// specification can see.
    pub open spec fn unchanged(self, post: Self) -> bool {
        &&& self.kept(post)
        &&& post.open() == self.open()
        &&& post.spec_resume() == self.spec_resume()
        &&& post.buffered() == self.buffered()
        &&& post.pending() == self.pending()
        &&& post.delivered() == self.delivered()
    }

    /// Whether `post` is this sender after the buffer became `held` and what
    /// was due in it was delivered: the events that continue the last one
    /// delivered without a gap leave the buffer for the stream, in their
    /// order, and the serial number moves along. A stream that is not open
    /// takes nothing, and everything stays.
    pub open spec fn after_delivery(self, held: Seq<EventData>, post: Self) -> bool {
        let n = ready(held, self.spec_sn()) as int;
        &&& self.kept(post)
        &&& post.open() == self.open()
        &&& self.open() ==> {
            &&& post.spec_sn() == self.spec_sn() + n
            &&& post.buffered() == held.skip(n)
            &&& post.pending() == self.pending() + items_of(held.take(n))
            &&& post.delivered() == self.delivered() + numbers_of(held.take(n))
        }
        &&& !self.open() ==> {
            &&& post.spec_resume() == self.spec_resume()
            &&& post.buffered() == held
            &&& post.pending() == self.pending()
            &&& post.delivered() == self.delivered()
        }
    }

    /// Whether delivering what is due in `held` lets the engine go on: it
    /// does not when an event is due and the stream does not take it.
    pub open spec fn may_go_on(self, held: Seq<EventData>) -> bool {
        self.open() || ready(held, self.spec_sn()) == 0
    }

    /// Whether `post` is this sender after `event` was held back.
    pub open spec fn after_put(self, event: EventData, post: Self) -> bool {
        &&& self.kept(post)
        &&& post.open() == self.open()
        &&& post.spec_resume() == self.spec_resume()
        &&& post.buffered() == put_spec(self.buffered(), self.spec_sn(), event)
        &&& post.pending() == self.pending()
        &&& post.delivered() == self.delivered()
    }

    /// Whether `post` is this sender after the error `err` ended its
    /// stream: an open stream takes the error, with the resume arguments as
    /// they stand, as its last item.
    pub open spec fn after_error(self, err: EventStreamErrorKind, post: Self) -> bool {
        &&& self.kept(post)
        &&& !post.open()
        &&& post.spec_resume() == self.spec_resume()
        &&& post.buffered() == self.buffered()
        &&& post.delivered() == self.delivered()
        &&& post.pending() == if self.open() {
            self.pending().push(Err(EventStreamError { resume: self.spec_resume(), source: err }))
        } else {
            self.pending()
        }
    }

    /// Whether `post` is this sender with the session's id set to
    /// `session_id`.
    pub open spec fn after_hello(self, session_id: String, post: Self) -> bool {
        &&& post.wf()
        &&& post.first_sn() == self.first_sn()
        &&& post.dropped() == self.dropped()
        &&& post.open() == self.open()
        &&& post.spec_resume() == (GatewayResumeArguments { sn: self.spec_sn(), session_id })
        &&& post.buffered() == self.buffered()
        &&& post.pending() == self.pending()
        &&& post.delivered() == self.delivered()
    }

    /// Whether `post` is this sender after its consumer took `item`, the
    /// oldest item of the stream, or found the stream empty.
    pub open spec fn after_next(self, item: Option<EventStreamItem>, post: Self) -> bool {
        &&& self.kept(post)
        &&& post.open() == self.open()
        &&& post.spec_resume() == self.spec_resume()
        &&& post.buffered() == self.buffered()
        &&& post.delivered() == self.delivered()
        &&& match item {
            Some(first) => self.pending().len() > 0 && first == self.pending()[0] && post.pending()
                == self.pending().skip(1),
            None => self.pending().len() == 0 && post.pending() == self.pending(),
        }
    }

    /// Whether `post` is this sender after its consumer dropped the stream.
    pub open spec fn after_cancel(self, post: Self) -> bool {
        &&& post.wf()
        &&& post.dropped()
        &&& !post.open()
        &&& post.first_sn() == self.first_sn()
        &&& post.spec_resume() == self.spec_resume()
        &&& post.buffered() == self.buffered()
        &&& post.pending() == self.pending()
        &&& post.delivered() == self.delivered()
    }

    /// Events reach the consumer in the order of their serial numbers, each
    /// number one more than the one before: none twice, none skipped.
    pub proof fn lemma_monotone_delivery(&self, i: int, j: int)
        requires
            self.wf(),
            0 <= i < j < self.delivered().len(),
        ensures
            self.delivered()[i] < self.delivered()[j],
            self.delivered()[i + 1] == self.delivered()[i] + 1,
    {
    }

    /// No serial number is delivered twice.
    pub proof fn lemma_no_duplicates(&self, i: int, j: int)
        requires
            self.wf(),
            0 <= i < self.delivered().len(),
            0 <= j < self.delivered().len(),
            i != j,
        ensures
            self.delivered()[i] != self.delivered()[j],
    {
    }

    /// The resume arguments hold the number of the last event delivered, or
    /// the number that the sender started from if none was.
    pub proof fn lemma_resume_completeness(&self)
        requires
            self.wf(),
        ensures
            self.spec_sn() == if self.delivered().len() == 0 {
                self.first_sn()
            } else {
                self.delivered().last()
            },
    {
    }

    /// An error ends the stream: no item but the last one that the stream
    /// holds is an error, and once it holds one it takes nothing in.
    pub proof fn lemma_error_is_last(&self, i: int)
        requires
            self.wf(),
            0 <= i < self.pending().len(),
            self.pending()[i] is Err,
        ensures
            i == self.pending().len() - 1,
            !self.open(),
    {
    }

    /// What is held back stands in the order of its serial numbers, and no
    /// two events held back share a number.
    pub proof fn lemma_buffered_sorted(&self, i: int, j: int)
        requires
            self.wf(),
            0 <= i < j < self.buffered().len(),
        ensures
            sorted(self.buffered()),
            self.buffered()[i].sn < self.buffered()[j].sn,
    {
    }

    /// What is held back is still to come: every buffered number is above
    /// the last one delivered, so no number delivered is delivered again.
    pub proof fn lemma_buffered_ahead(&self, i: int)
        requires
            self.wf(),
            0 <= i < self.buffered().len(),
        ensures
            self.buffered()[i].sn > self.spec_sn(),
    {
    }

    /// A sender that starts from the given resume arguments, with an empty
    /// stream.
    pub fn new(resume: GatewayResumeArguments) -> (sender: Self)
        ensures
            sender.wf(),
            sender.open(),
            sender.spec_resume() == resume,
            sender.first_sn() == resume.sn,
            sender.buffered() == Seq::<EventData>::empty(),
            sender.pending() == Seq::<EventStreamItem>::empty(),
            sender.delivered() == Seq::<u64>::empty(),
    {
        let ghost first = resume.sn;
        EventStreamSender {
            buffer: EventBuffer::new(),
            stream: EventStream::new(),
            recorder: SnRecorder { resume },
            first_sn: Ghost(first),
            delivered: Ghost(Seq::empty()),
        }
    }

    /// The resume arguments as they stand.
    pub fn resume(&self) -> (resume: &GatewayResumeArguments)
        ensures
            *resume == self.spec_resume(),
    {
        &self.recorder.resume
    }

    /// The serial number of the last event delivered.
    pub fn sn(&self) -> (sn: u64)
        ensures
            sn == self.spec_sn(),
    {
        self.recorder.resume.sn
    }

    /// Whether the stream takes in what is sent.
    pub fn is_open(&self) -> (open: bool)
        ensures
            open == self.open(),
    {
        self.stream.is_open()
    }

    /// The ping that reports the last serial number delivered.
    pub fn ping(&self) -> (message: Message)
        ensures
            message == Message::Ping(SN { sn: self.spec_sn() }),
    {
        self.recorder.resume.ping()
    }

    /// Takes the id of the session that a hello has opened.
    pub fn set_session_id(&mut self, session_id: String)
        requires
            old(self).wf(),
        ensures
            old(self).after_hello(session_id, *final(self)),
    {
        self.recorder.resume.session_id = session_id;
    }

    /// Delivers the events that continue the last one delivered without a
    /// gap, in their order, and moves the serial number along. Says whether
    /// the engine may go on: it may not when an event is due and the stream
    /// does not take it.
    pub fn flush(&mut self) -> (go_on: bool)
        requires
            old(self).wf(),
        ensures
            go_on == old(self).may_go_on(old(self).buffered()),
            old(self).after_delivery(old(self).buffered(), *final(self)),
    {
        let sn = self.recorder.resume.sn;
        if !self.stream.is_open() {
            return match self.buffer.peek() {
                Some(first) => !(sn < u64::MAX && first.sn == sn + 1),
                None => true,
            };
        }
        let ghost held = self.buffer@;
        let ghost sent = self.stream@;
        let ghost log = self.delivered@;
        let ghost session = self.recorder.resume.session_id;
        proof {
            lemma_ready_run(held, sn);
        }
        let mut events = self.buffer.events_can_be_sent(sn).all();
        let ghost all = events@;
        let total: usize = events.len();
        let ghost n = total as int;
        assert forall|i: int| 0 <= i < self.buffer@.len() implies (#[trigger] self.buffer@[i]).sn > sn
            + n by {
            assert(self.buffer@[i] == held[i + n]);
            if n > 0 {
                assert(held[n - 1].sn < held[i + n].sn);
            }
        }
        let mut count: usize = 0;
        while events.len() > 0
            invariant
                self.buffer.wf(),
                self.buffer@ == held.skip(n),
                self.stream.wf(),
                self.stream.open(),
                self.stream.dropped() == old(self).stream.dropped(),
                self.first_sn == old(self).first_sn,
                n == all.len(),
                n == total,
                0 <= count <= n,
                events@ == all.skip(count as int),
                sn + n <= u64::MAX,
                forall|i: int| 0 <= i < n ==> (#[trigger] all[i]).sn == sn + 1 + i,
                self.recorder.resume.sn == sn + count,
                self.recorder.resume.session_id == session,
                self.stream@ == sent + items_of(all.take(count as int)),
                self.delivered@ == log + numbers_of(all.take(count as int)),
            decreases events.len(),
        {
            let ghost rest = events@;
            let data = events.remove(0);
            assert(data == all[count as int]);
            assert(events@ =~= all.skip(count + 1));
            let ghost before = self.stream@;
            let ghost numbers = self.delivered@;
            self.stream.send(Ok(data.event));
            self.recorder.update_sn(data.sn);
            self.delivered = Ghost(numbers.push(data.sn));
            assert(all.take(count + 1) =~= all.take(count as int).push(data));
            assert(items_of(all.take(count + 1)) =~= items_of(all.take(count as int)).push(
                Ok(data.event),
            ));
            assert(numbers_of(all.take(count + 1)) =~= numbers_of(all.take(count as int)).push(
                data.sn,
            ));
            assert(self.stream@ =~= sent + items_of(all.take(count + 1)));
            assert(self.delivered@ =~= log + numbers_of(all.take(count + 1)));
            count = count + 1;
        }
        assert(all.take(count as int) =~= all);
        assert forall|i: int| 0 <= i < self.delivered@.len() implies #[trigger] self.delivered@[i]
            == self.first_sn@ + 1 + i by {
            if i >= log.len() {
                assert(self.delivered@[i] == numbers_of(all)[i - log.len()]);
                assert(numbers_of(all)[i - log.len()] == all[i - log.len()].sn);
            } else {
                assert(self.delivered@[i] == log[i]);
            }
        }
        true
    }

    /// Holds an event back until its turn; one that was delivered or is
    /// held back already is dropped.
    pub fn put(&mut self, event: EventData)
        requires
            old(self).wf(),
        ensures
            old(self).after_put(event, *final(self)),
    {
        let ghost held = self.buffer@;
        let sn = self.recorder.resume.sn;
        self.buffer.put(sn, event);
        assert forall|i: int| 0 <= i < self.buffer@.len() implies (#[trigger] self.buffer@[i]).sn
            > sn by {
            if self.buffer@ != held {
                let k = super::buffer::rank(held, event.sn) as int;
                super::buffer::lemma_rank_bounds(held, event.sn);
                if i < k {
                    assert(self.buffer@[i] == held[i]);
                } else if i > k {
                    assert(self.buffer@[i] == held[i - 1]);
                }
            }
        }
    }

    /// Takes in an event and delivers what is due; see [`Self::put`] and
    /// [`Self::flush`].
    pub fn send_event(&mut self, event: EventData) -> (go_on: bool)
        requires
            old(self).wf(),
        ensures
            ({
                let held = put_spec(old(self).buffered(), old(self).spec_sn(), event);
                &&& go_on == old(self).may_go_on(held)
                &&& old(self).after_delivery(held, *final(self))
            }),
    {
        self.put(event);
        self.flush()
    }

    /// Ends the stream with an error that carries the resume arguments as
    /// they stand. Says whether the stream took it.
    pub fn send_err(&mut self, err: EventStreamErrorKind) -> (taken: bool)
        requires
            old(self).wf(),
        ensures
            taken == old(self).open(),
            old(self).after_error(err, *final(self)),
    {
        let resume = self.recorder.resume.clone();
        self.stream.send(Err(EventStreamError { resume, source: err }))
    }

    /// Ends the stream because the server asked the client to reconnect.
    pub fn send_reconnect(&mut self, data: Reconnect)
        requires
            old(self).wf(),
        ensures
            old(self).after_error(
                EventStreamErrorKind::Reconnect { code: data.code, message: data.err },
                *final(self),
            ),
    {
        self.send_err(EventStreamErrorKind::Reconnect { code: data.code, message: data.err });
    }

    /// Ends the stream because the message stream broke.
    pub fn send_message_stream_broken(&mut self, err: MessageStreamSinkError)
        requires
            old(self).wf(),
        ensures
            old(self).after_error(
                EventStreamErrorKind::MessageStream { source: err },
                *final(self),
            ),
    {
        self.send_err(EventStreamErrorKind::MessageStream { source: err });
    }

    /// Takes the oldest item out of the stream, as its consumer does.
    pub fn next(&mut self) -> (item: Option<EventStreamItem>)
        requires
            old(self).wf(),
        ensures
            old(self).after_next(item, *final(self)),
    {
        self.stream.next()
    }

    /// Drops the stream, as its consumer does to stop the engine: from now
    /// on the stream takes nothing in.
    pub fn cancel(&mut self)
        requires
            old(self).wf(),
        ensures
            old(self).after_cancel(*final(self)),
    {
        self.stream.cancel();
    }
}

} // verus!
