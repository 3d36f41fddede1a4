//! Keeps track of the pings of the server, so that each gets its answer.
//!
//! The tracker has no clock of its own: the caller hands it the time, as a
//! count of milliseconds from a moment of the caller's choice.
use vstd::prelude::*;
use crate::encode::fmt::Formattable;
use crate::encode::{pong, Pong};
use crate::message::{Message, MessageModel};
use crate::messages::Ping;
use crate::typed_messages::TypedMessageMarker;

verus! {

/// Remembers when the server last sent a ping that has not been answered, and
/// tells when the server has been silent for too long.
#[derive(Debug, Clone)]
pub struct PingTracker {
    threshold: u64,
    last: Option<u64>,
}

/// Whether `message` is a ping that can be answered.
pub open spec fn is_ping(message: MessageModel) -> bool {
    Ping::accepts(message.kind) && Ping::narrowed(message) is Some
}

/// How much time has passed at `now` since `at`; none where the clock has
/// gone backwards.
pub open spec fn elapsed(at: u64, now: u64) -> int {
    if now >= at {
        now - at
    } else {
        0
    }
}

impl PingTracker {
    /// The time after which the server counts as silent.
    pub closed spec fn limit(&self) -> u64 {
        self.threshold
    }

    /// When the ping came that has not been answered yet.
    pub closed spec fn waiting(&self) -> Option<u64> {
        self.last
    }

    /// A tracker that has seen no ping. After `threshold` milliseconds
    /// without an answered ping the server counts as silent.
    pub fn new(threshold: u64) -> (r: PingTracker)
        ensures
            r.limit() == threshold,
            r.waiting() is None,
    {
        PingTracker { threshold, last: None }
    }

    /// The time after which the server counts as silent.
    pub fn threshold(&self) -> (r: u64)
        ensures
            r == self.limit(),
    {
        self.threshold
    }

    /// Takes note of a message that came at the time `now`. Only a ping
    /// changes anything.
    pub fn update(&mut self, msg: &Message<'_>, now: u64)
        ensures
            final(self).limit() == old(self).limit(),
            final(self).waiting() == if is_ping(msg@) {
                Some(now)
            } else {
                old(self).waiting()
            },
    {
        if msg.as_typed_message::<Ping>().is_some() {
            self.last = Some(now);
        }
    }

    /// The answer that is due, if a ping came since the last answer.
    pub fn should_pong(&mut self) -> (r: Option<Pong<'static>>)
        ensures
            final(self).limit() == old(self).limit(),
            final(self).waiting() is None,
            r is Some <==> old(self).waiting() is Some,
            r matches Some(answer) ==> answer.wire() == "PONG :"@ + "tmi.twitch.tv"@ + "\r\n"@,
    {
        match self.last {
            Some(_) => {
                self.last = None;
                Some(pong("tmi.twitch.tv"))
            },
            None => None,
        }
    }

    /// Whether, at the time `now`, a ping has been waiting for its answer for
    /// as long as the threshold or longer.
    pub fn probably_timed_out(&self, now: u64) -> (r: bool)
        ensures
            r == (self.waiting() matches Some(at) && elapsed(at, now) >= self.limit()),
    {
        match self.last {
            Some(at) => {
                let passed: u64 = if now >= at {
                    now - at
                } else {
                    0
                };
                passed >= self.threshold
            },
            None => false,
        }
    }
}

} // verus!
