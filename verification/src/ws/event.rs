//! Kaiheila websocket events, carried by the event message type.

use vstd::prelude::*;

verus! {

/// The body of an event: the JSON text of the object that the platform sent.
/// The engine never looks inside it.
#[derive(Debug, Default)]
pub struct Event {
    /// JSON text of the event object
    pub payload: Vec<u8>,
}

impl View for Event {
    type V = Seq<u8>;

    open spec fn view(&self) -> Seq<u8> {
        self.payload@
    }
}

impl Clone for Event {
    fn clone(&self) -> (copy: Self)
        ensures
            copy@ == self@,
    {
        Event { payload: self.payload.clone() }
    }
}

/// Event data: an event and the serial number that the gateway gave it.
#[derive(Debug)]
pub struct EventData {
    /// serial number
    pub sn: u64,
    /// event body
    pub event: Event,
}

/// Mathematical value of an [`EventData`].
pub ghost struct EventDataView {
    pub sn: u64,
    pub event: Seq<u8>,
}

impl View for EventData {
    type V = EventDataView;

    open spec fn view(&self) -> EventDataView {
        EventDataView { sn: self.sn, event: self.event@ }
    }
}

impl Clone for EventData {
    fn clone(&self) -> (copy: Self)
        ensures
            copy@ == self@,
    {
        EventData { sn: self.sn, event: self.event.clone() }
    }
}

} // verus!
