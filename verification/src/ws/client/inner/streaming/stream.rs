use vstd::prelude::*;

use crate::api::types::GatewayResumeArguments;
use crate::ws::client::inner::connected::WaitHelloError;
use crate::ws::client::inner::gateway::ConnectGatewayError;
use crate::ws::event::Event;
use crate::ws::message::MessageStreamSinkError;

verus! {

/// Error for event stream
#[derive(Debug)]
pub struct EventStreamError {
    /// arguments for conversion resume
    pub resume: GatewayResumeArguments,
    /// real error
    pub source: EventStreamErrorKind,
}

/// Error kind for event stream
#[derive(Debug)]
pub enum EventStreamErrorKind {
    /// underlying message stream broken
    MessageStream {
        /// source error
        source: MessageStreamSinkError,
    },
    /// received server reconnect message
    Reconnect {
        /// reconnect reason code
        code: i64,
        /// reconnect reason message
        message: String,
    },
    /// reconnect to websocket gateway failed
    ReConnectGatewayFailed {
        /// source error
        source: ConnectGatewayError,
    },
    /// reconnect to websocket gateway failed
    ReWaitHelloFailed {
        /// source error
        source: WaitHelloError,
    },
}

/// Items that the channel between the engine and the consumer holds at
/// most. When it is full the engine waits with its next step until the
/// consumer has taken an item; nothing is dropped.
pub const EVENT_STREAM_CAPACITY: usize = 32;

/// What the stream hands to its consumer: an event, or the error that ends
/// the stream.
pub type EventStreamItem = Result<Event, EventStreamError>;

/// Kaiheila websocket event stream: the items that the engine has sent and
/// the consumer has not taken yet, oldest first.
///
/// The stream ends with the first error sent into it, or when its consumer
/// drops it; from then on it takes nothing in.
#[derive(Debug)]
pub struct EventStream {
    items: Vec<EventStreamItem>,
    ended: bool,
    dropped: bool,
}

impl View for EventStream {
    type V = Seq<EventStreamItem>;

    closed spec fn view(&self) -> Seq<EventStreamItem> {
        self.items@
    }
}

/// Whether no item of `items` but the last is an error.
pub open spec fn error_only_last(items: Seq<EventStreamItem>) -> bool {
    forall|i: int| 0 <= i < items.len() - 1 ==> (#[trigger] items[i]) is Ok
}

impl EventStream {
    /// Whether an error has been sent into the stream.
    pub closed spec fn ended(&self) -> bool {
        self.ended
    }

    /// Whether the consumer has dropped the stream.
    pub closed spec fn dropped(&self) -> bool {
        self.dropped
    }

    /// Whether the stream takes in what is sent.
    pub open spec fn open(&self) -> bool {
        !self.ended() && !self.dropped()
    }

    /// The stream's invariant: an error is the last item, and the stream
    /// has ended where it holds one.
    pub open spec fn wf(&self) -> bool {
        &&& error_only_last(self@)
        &&& self@.len() > 0 && self@.last() is Err ==> self.ended()
    }

    /// An empty stream that is open.
    pub fn new() -> (stream: Self)
        ensures
            stream.wf(),
            stream.open(),
            stream@ == Seq::<EventStreamItem>::empty(),
    {
        EventStream { items: Vec::new(), ended: false, dropped: false }
    }

    /// Whether the stream takes in what is sent.
    pub fn is_open(&self) -> (open: bool)
        ensures
            open == self.open(),
    {
        !self.ended && !self.dropped
    }

    /// Sends an item into the stream and says whether the stream took it:
    /// an open stream does, and ends if the item is an error.
    pub fn send(&mut self, item: EventStreamItem) -> (taken: bool)
        requires
            old(self).wf(),
        ensures
            final(self).wf(),
            taken == old(self).open(),
            final(self).dropped() == old(self).dropped(),
            taken ==> final(self)@ == old(self)@.push(item) && final(self).ended() == (item is Err),
            !taken ==> final(self)@ == old(self)@ && final(self).ended() == old(self).ended(),
    {
        if self.ended || self.dropped {
            return false;
        }
        let ghost before = self.items@;
        assert(before.len() > 0 ==> before.last() is Ok);
        if item.is_err() {
            self.ended = true;
        }
        self.items.push(item);
        assert forall|i: int| 0 <= i < self.items@.len() - 1 implies (#[trigger] self.items@[i]) is Ok by {
            assert(self.items@[i] == before[i]);
        }
        true
    }

    /// Takes the oldest item out of the stream.
    pub fn next(&mut self) -> (item: Option<EventStreamItem>)
        requires
            old(self).wf(),
        ensures
            final(self).wf(),
            final(self).ended() == old(self).ended(),
            final(self).dropped() == old(self).dropped(),
            match item {
                Some(first) => old(self)@.len() > 0 && first == old(self)@[0] && final(self)@
                    == old(self)@.skip(1),
                None => old(self)@.len() == 0 && final(self)@ == old(self)@,
            },
    {
        if self.items.len() > 0 {
            let ghost before = self.items@;
            let first = self.items.remove(0);
            assert(self.items@ =~= before.skip(1));
            assert forall|i: int| 0 <= i < self.items@.len() - 1 implies (#[trigger] self.items@[i]) is Ok by {
                assert(self.items@[i] == before[i + 1]);
            }
            Some(first)
        } else {
            None
        }
    }

    /// Drops the stream: it takes nothing in from now on. What it holds
    /// stays.
    pub fn cancel(&mut self)
        requires
            old(self).wf(),
        ensures
            final(self).wf(),
            final(self).dropped(),
            final(self).ended() == old(self).ended(),
            final(self)@ == old(self)@,
    {
        self.dropped = true;
    }
}

} // verus!
