use vstd::prelude::*;

use super::sender::EventStreamSender;
use crate::ws::client::inner::{later, PONG_TIMEOUT, STREAMING_STATE_PING_INTERVAL};
use crate::ws::message::{Message, SN};

verus! {

/// Paces the pings while events flow.
#[derive(Debug, Clone, Copy, PartialEq, Eq, Structural)]
pub struct PingWorker {
    /// when the next ping is due
    pub send_ping_tick: u64,
}

impl PingWorker {
    /// A worker whose first ping is due at once.
    pub fn new(now: u64) -> (worker: Self)
        ensures
            worker == (PingWorker { send_ping_tick: now }),
    {
        PingWorker { send_ping_tick: now }
    }

    /// Whether a ping is due.
    pub open spec fn due(self, now: u64) -> bool {
        now >= self.send_ping_tick
    }

    /// Where a ping is due: the ping to send, which reports the last serial
    /// number delivered, and the time by which the server must answer,
    /// [`PONG_TIMEOUT`] seconds after `now`. The next ping is then due
    /// [`STREAMING_STATE_PING_INTERVAL`] seconds after the time at which
    /// this one was due, however late it is sent: the schedule does not
    /// drift.
    pub fn run(&mut self, now: u64, sender: &EventStreamSender) -> (ping: Option<(Message, u64)>)
        ensures
            if old(self).due(now) {
                &&& ping == Some(
                    (Message::Ping(SN { sn: sender.spec_sn() }), later(now, PONG_TIMEOUT)),
                )
                &&& *final(self) == (PingWorker {
                    send_ping_tick: later(old(self).send_ping_tick, STREAMING_STATE_PING_INTERVAL),
                })
            } else {
                &&& ping is None
                &&& *final(self) == *old(self)
            },
    {
        if now >= self.send_ping_tick {
            self.send_ping_tick = later(self.send_ping_tick, STREAMING_STATE_PING_INTERVAL);
            Some((sender.ping(), later(now, PONG_TIMEOUT)))
        } else {
            None
        }
    }
}

/// The time at which the ping with the number `i` is due, counted from
/// zero, for a worker that started at `start`: each ping is due
/// [`STREAMING_STATE_PING_INTERVAL`] seconds after the one before.
pub open spec fn scheduled(start: u64, i: nat) -> u64
    decreases i,
{
    if i == 0 {
        start
    } else {
        later(scheduled(start, (i - 1) as nat), STREAMING_STATE_PING_INTERVAL)
    }
}

/// The pings follow an absolute schedule: the ping with the number `i` is
/// due `i` intervals after the worker started, whenever the pings before it
/// were sent.
pub proof fn lemma_schedule_is_absolute(start: u64, i: nat)
    requires
        start + i * (STREAMING_STATE_PING_INTERVAL * 1000) <= u64::MAX,
    ensures
        scheduled(start, i) == start + i * (STREAMING_STATE_PING_INTERVAL * 1000),
    decreases i,
{
    let d: int = STREAMING_STATE_PING_INTERVAL * 1000;
    assert(d == 30000);
    assert(i * d == i * 30000) by (nonlinear_arith)
        requires
            d == 30000,
    ;
    if i > 0 {
        assert((i - 1) * d == (i - 1) * 30000) by (nonlinear_arith)
            requires
                d == 30000,
        ;
        lemma_schedule_is_absolute(start, (i - 1) as nat);
    }
}

/// Sending a ping moves the worker one place on in its schedule, at
/// whatever time the ping is sent.
pub proof fn lemma_run_follows_schedule(before: PingWorker, after: PingWorker, start: u64, i: nat)
    requires
        before.send_ping_tick == scheduled(start, i),
        after == (PingWorker {
            send_ping_tick: later(before.send_ping_tick, STREAMING_STATE_PING_INTERVAL),
        }),
    ensures
        after.send_ping_tick == scheduled(start, i + 1),
{
}

} // verus!
