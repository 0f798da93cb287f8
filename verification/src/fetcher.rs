//! The fetcher: one request with a bounded number of attempts.
//!
//! Sending the request, measuring how long it took and sleeping are the
//! caller's part. After each attempt the caller reports how it ended and is
//! told how the fetch goes on and how long to sleep first.

use crate::limiter::{pause_needed, remaining_wait};
use vstd::prelude::*;

verus! {

/// A fetch makes at most this many attempts.
pub const MAX_ATTEMPTS: u32 = 3;

/// Milliseconds to sleep after an attempt that timed out.
pub const RETRY_PAUSE: u64 = 2000;

/// The one HTTP status that counts as success.
pub const STATUS_OK: u16 = 200;

/// How one attempt ended.
#[derive(Clone, Copy, Debug, PartialEq, Eq)]
pub enum Reply {
    /// The attempt failed with an error that is a timeout.
    TimedOut,
    /// A response arrived with this status, `elapsed` milliseconds after the
    /// attempt began.
    Answered { status: u16, elapsed: u64 },
    /// The attempt failed with an error that is no timeout.
    Failed,
}

/// Where a fetch stands.
#[derive(Clone, Copy, Debug, PartialEq, Eq)]
pub enum Fetch {
    /// The attempt with this number, counted from 1, is to be made next.
    Trying { attempt: u32 },
    /// A response with status 200 arrived: its body is the result.
    Delivered,
    /// Every attempt was used up: the result is the empty string.
    Exhausted,
}

impl Fetch {
    /// No further attempt will be made.
    pub open spec fn ended(self) -> bool {
        self is Delivered || self is Exhausted
    }

    /// The state after an attempt that did not succeed.
    pub open spec fn after_failure(attempt: u32) -> Fetch {
        if attempt < MAX_ATTEMPTS {
            Fetch::Trying { attempt: (attempt + 1) as u32 }
        } else {
            Fetch::Exhausted
        }
    }

    /// The state that follows `self` when the attempt ended with `reply`. A
    /// fetch that has ended stays as it is.
    pub open spec fn next(self, reply: Reply) -> Fetch {
        match self {
            Fetch::Trying { attempt } => match reply {
                Reply::Answered { status, elapsed } => if status == STATUS_OK {
                    Fetch::Delivered
                } else {
                    Fetch::after_failure(attempt)
                },
                _ => Fetch::after_failure(attempt),
            },
            _ => self,
        }
    }

    /// Milliseconds to sleep before going on from `self` after `reply`: the
    /// fixed pause after a timeout, what the rate limiter asks for after a
    /// success, and nothing otherwise.
    pub open spec fn pause(self, reply: Reply, interval: u64) -> int {
        match self {
            Fetch::Trying { attempt } => match reply {
                Reply::TimedOut => RETRY_PAUSE as int,
                Reply::Answered { status, elapsed } => if status == STATUS_OK {
                    pause_needed(interval as int, elapsed as int)
                } else {
                    0
                },
                Reply::Failed => 0,
            },
            _ => 0,
        }
    }

    /// The state after the replies of `replies`, one after the other.
    pub open spec fn run(self, replies: Seq<Reply>) -> Fetch
        decreases replies.len(),
    {
        if replies.len() == 0 {
            self
        } else {
            self.next(replies[0]).run(replies.drop_first())
        }
    }

    /// A fetch before its first attempt.
    pub fn start() -> (fetch: Fetch)
        ensures
            fetch == (Fetch::Trying { attempt: 1 }),
    {
        Fetch::Trying { attempt: 1 }
    }

    /// Whether a further attempt is to be made.
    pub fn is_trying(&self) -> (trying: bool)
        ensures
            trying == !self.ended(),
    {
        match self {
            Fetch::Trying { .. } => true,
            _ => false,
        }
    }

    /// Takes the reply to the attempt just made and returns the state that
    /// follows and the milliseconds to sleep before acting on it.
    ///
    /// A timeout is answered with a fixed pause and another attempt, as long
    /// as attempts are left. A response with status 200 ends the fetch; the
    /// pause is then what is missing to `interval` since the attempt began,
    /// so that the next request starts no sooner than the rate limit allows.
    /// Any other reply uses up the attempt without a pause.
    pub fn advance(self, reply: Reply, interval: u64) -> (then: (Fetch, u64))
        ensures
            then.0 == self.next(reply),
            then.1 == self.pause(reply, interval),
    {
        match self {
            Fetch::Trying { attempt } => {
                let failed = if attempt < MAX_ATTEMPTS {
                    Fetch::Trying { attempt: attempt + 1 }
                } else {
                    Fetch::Exhausted
                };
                match reply {
                    Reply::TimedOut => (failed, RETRY_PAUSE),
                    Reply::Answered { status, elapsed } => {
                        if status == STATUS_OK {
                            (Fetch::Delivered, remaining_wait(interval, elapsed))
                        } else {
                            (failed, 0)
                        }
                    },
                    Reply::Failed => (failed, 0),
                }
            },
            Fetch::Delivered => (Fetch::Delivered, 0),
            Fetch::Exhausted => (Fetch::Exhausted, 0),
        }
    }

    /// What the fetch returns once it has ended: the body of the response if
    /// one with status 200 arrived, and the empty string otherwise.
    pub fn result(self, body: String) -> (text: String)
        ensures
            self is Delivered ==> text@ == body@,
            !(self is Delivered) ==> text@.len() == 0,
    {
        match self {
            Fetch::Delivered => body,
            _ => String::new(),
        }
    }
}

/// A fetch that has ended is not moved by further replies.
pub proof fn lemma_ended_stays(fetch: Fetch, replies: Seq<Reply>)
    requires
        fetch.ended(),
    ensures
        fetch.run(replies) == fetch,
    decreases replies.len(),
{
    if replies.len() > 0 {
        lemma_ended_stays(fetch, replies.drop_first());
    }
}

/// A fetch has ended after at most `MAX_ATTEMPTS` replies, whatever they are.
pub proof fn lemma_fetch_ends(replies: Seq<Reply>)
    requires
        replies.len() >= MAX_ATTEMPTS,
    ensures
        (Fetch::Trying { attempt: 1 }).run(replies).ended(),
{
    let first = Fetch::Trying { attempt: 1 };
    let second = first.next(replies[0]);
    let rest1 = replies.drop_first();
    let third = second.next(rest1[0]);
    let rest2 = rest1.drop_first();
    let fourth = third.next(rest2[0]);
    let rest3 = rest2.drop_first();
    assert(first.run(replies) == second.run(rest1));
    assert(second.run(rest1) == third.run(rest2));
    assert(third.run(rest2) == fourth.run(rest3));
    assert(fourth.ended());
    lemma_ended_stays(fourth, rest3);
}

/// The reply is a response with status 200.
pub open spec fn succeeds(reply: Reply) -> bool {
    reply matches Reply::Answered { status, .. } && status == STATUS_OK
}

/// After `MAX_ATTEMPTS` replies the fetch has delivered if one of them was a
/// success, and is exhausted if none was.
pub proof fn lemma_fetch_outcome(first: Reply, second: Reply, third: Reply)
    ensures
        (Fetch::Trying { attempt: 1 }).run(seq![first, second, third]) == if succeeds(first)
            || succeeds(second) || succeeds(third) {
            Fetch::Delivered
        } else {
            Fetch::Exhausted
        },
{
    let replies = seq![first, second, third];
    let s0 = Fetch::Trying { attempt: 1 };
    let s1 = s0.next(first);
    let s2 = s1.next(second);
    let s3 = s2.next(third);
    let r1 = replies.drop_first();
    let r2 = r1.drop_first();
    let r3 = r2.drop_first();
    assert(replies[0] == first && r1[0] == second && r2[0] == third);
    assert(s0.run(replies) == s1.run(r1));
    assert(s1.run(r1) == s2.run(r2));
    assert(s2.run(r2) == s3.run(r3));
    assert(r3.len() == 0);
    assert(s3.run(r3) == s3);
}

} // verus!
