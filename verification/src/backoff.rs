//! The delay between connection attempts, and when to stop trying.

use vstd::prelude::*;

use crate::text::decimal_string;

verus! {

/// The delay before the first retry, in seconds.
pub const INITIAL_DELAY_SECS: u64 = 1;

/// The longest delay between two attempts, in seconds.
pub const MAX_DELAY_SECS: u64 = 30;

/// How long to wait after the next failure, and how many failures were counted.
///
/// Failures are counted only while there is a limit on them.
#[derive(Clone, Copy, Debug, PartialEq, Eq, Structural)]
pub struct Backoff {
    pub delay_secs: u64,
    pub attempts: u32,
}

/// What is announced before waiting for another attempt.
#[derive(Clone, Copy, Debug, PartialEq, Eq, Structural)]
pub struct Notice {
    pub attempt: u32,
    pub waiting_secs: u64,
}

/// What to do after a failure.
#[derive(Clone, Copy, Debug, PartialEq, Eq, Structural)]
pub enum Verdict {
    /// Wait, then try again.
    Wait { secs: u64, notice: Option<Notice> },
    /// Stop: more than `max` failures were counted.
    GiveUp { max: u32 },
}

/// The delay that follows a delay of `secs`: twice as long, up to the longest delay.
pub open spec fn doubled(secs: int) -> int {
    if 2 * secs <= MAX_DELAY_SECS {
        2 * secs
    } else {
        MAX_DELAY_SECS as int
    }
}

impl Backoff {
    /// The state before any failure.
    pub open spec fn initial() -> Backoff {
        Backoff { delay_secs: INITIAL_DELAY_SECS, attempts: 0 }
    }

    /// What holds of every backoff: its delay is within bounds.
    pub open spec fn valid(self) -> bool {
        INITIAL_DELAY_SECS <= self.delay_secs <= MAX_DELAY_SECS
    }

    /// Whether no more failures were counted than `limit` allows.
    pub open spec fn within(self, limit: Option<u32>) -> bool {
        limit is Some ==> self.attempts <= limit->0
    }

    /// The number of counted failures after one more, where `limit` is the number allowed.
    pub open spec fn counted(self, limit: Option<u32>) -> int {
        if limit is Some {
            self.attempts + 1
        } else {
            self.attempts as int
        }
    }

    /// Whether one more failure is one too many.
    pub open spec fn gives_up(self, limit: Option<u32>) -> bool {
        limit is Some && self.attempts + 1 > limit->0
    }

    /// Whether the attempt counter can take one more failure, and the attempt that would
    /// be announced can be numbered.
    pub open spec fn room(self, limit: Option<u32>, noticed: bool) -> bool {
        &&& self.counted(limit) <= u32::MAX
        &&& noticed && !self.gives_up(limit) ==> self.counted(limit) + 1 <= u32::MAX
    }

    /// The state after one more failure.
    pub open spec fn after_failure(self, limit: Option<u32>) -> Backoff {
        Backoff {
            delay_secs: if self.gives_up(limit) {
                self.delay_secs
            } else {
                doubled(self.delay_secs as int) as u64
            },
            attempts: self.counted(limit) as u32,
        }
    }

    /// What to do after one more failure.
    pub open spec fn verdict(self, limit: Option<u32>, noticed: bool) -> Verdict {
        if self.gives_up(limit) {
            Verdict::GiveUp { max: limit->0 }
        } else {
            Verdict::Wait {
                secs: self.delay_secs,
                notice: if noticed {
                    Some(
                        Notice {
                            attempt: (self.counted(limit) + 1) as u32,
                            waiting_secs: self.delay_secs,
                        },
                    )
                } else {
                    None
                },
            }
        }
    }

    /// Starts with the shortest delay and no failure counted.
    pub fn new() -> (b: Backoff)
        ensures
            b == Backoff::initial(),
            b.valid(),
    {
        Backoff { delay_secs: INITIAL_DELAY_SECS, attempts: 0 }
    }

    /// Tells whether one more failure can be recorded.
    pub fn has_room(&self, limit: Option<u32>, noticed: bool) -> (b: bool)
        ensures
            b == self.room(limit, noticed),
    {
        match limit {
            Some(max) => self.attempts < u32::MAX && (!noticed || self.attempts >= max
                || self.attempts < u32::MAX - 1),
            None => !noticed || self.attempts < u32::MAX,
        }
    }

    /// Records a failure. Of the failures since the last reset `limit` are allowed.
    pub fn record_failure(&mut self, limit: Option<u32>, noticed: bool) -> (v: Verdict)
        requires
            old(self).room(limit, noticed),
            old(self).valid(),
        ensures
            final(self).valid(),
            *final(self) == old(self).after_failure(limit),
            v == old(self).verdict(limit, noticed),
    {
        if let Some(max) = limit {
            self.attempts = self.attempts + 1;
            if self.attempts > max {
                return Verdict::GiveUp { max };
            }
        }
        let secs: u64 = self.delay_secs;
        let notice = if noticed {
            Some(Notice { attempt: self.attempts + 1, waiting_secs: secs })
        } else {
            None
        };
        self.delay_secs = if 2 * secs <= MAX_DELAY_SECS {
            2 * secs
        } else {
            MAX_DELAY_SECS
        };
        Verdict::Wait { secs, notice }
    }
}

/// The delay after so many failures: a second, doubled for each of them, up to the longest delay.
pub open spec fn delay_after(failures: nat) -> nat {
    if vstd::arithmetic::power2::pow2(failures) <= MAX_DELAY_SECS {
        vstd::arithmetic::power2::pow2(failures)
    } else {
        MAX_DELAY_SECS as nat
    }
}

/// Whether the limit `b` allows every number of failures that the limit `a` allows.
pub open spec fn allows_as_many(a: Option<u32>, b: Option<u32>) -> bool {
    b is Some ==> a is Some && a->0 <= b->0
}

/// Before any failure the delay is the shortest one, and each failure doubles it up to the longest;
/// it is never outside these two.
pub proof fn delay_doubles_up_to_the_longest(failures: nat)
    ensures
        delay_after(0) == INITIAL_DELAY_SECS,
        delay_after(failures + 1) == doubled(delay_after(failures) as int),
        INITIAL_DELAY_SECS <= delay_after(failures) <= MAX_DELAY_SECS,
{
    vstd::arithmetic::power2::lemma2_to64();
    vstd::arithmetic::power2::lemma_pow2_unfold(failures + 1);
    vstd::arithmetic::power2::lemma_pow2_pos(failures);
}

/// The delay after so many failures is two to that power, in seconds, but no more than thirty.
pub proof fn delay_is_a_power_of_two_up_to_thirty(failures: nat)
    ensures
        delay_after(failures) == vstd::math::min(
            vstd::arithmetic::power2::pow2(failures) as int,
            30,
        ),
{
}

/// What a failure does. With a limit it is counted, and without one it is not. If it is one too many
/// the delay stays, and there is no going on. Otherwise the wait is as long as the delay was, the
/// delay after it is twice as long but at most thirty seconds, and the attempt that is announced,
/// if one is to be, has the number after that of the failures counted.
pub proof fn failure_is_counted_and_waited_for(b: Backoff, limit: Option<u32>, noticed: bool)
    requires
        1 <= b.delay_secs <= 30,
        limit is Some || noticed ==> b.attempts < u32::MAX,
        limit is Some && noticed && b.attempts < limit->0 ==> b.attempts < u32::MAX - 1,
    ensures
        limit is Some ==> b.after_failure(limit).attempts == b.attempts + 1,
        limit is None ==> b.after_failure(limit).attempts == b.attempts,
        limit is Some && b.attempts >= limit->0 ==> {
            &&& b.verdict(limit, noticed) == (Verdict::GiveUp { max: limit->0 })
            &&& b.after_failure(limit).delay_secs == b.delay_secs
        },
        limit is None || b.attempts < limit->0 ==> {
            &&& b.verdict(limit, noticed) matches Verdict::Wait { secs, notice }
            &&& secs == b.delay_secs
            &&& noticed ==> notice == Some(
                Notice {
                    attempt: (b.after_failure(limit).attempts + 1) as u32,
                    waiting_secs: b.delay_secs,
                },
            )
            &&& !noticed ==> notice is None
            &&& b.after_failure(limit).delay_secs == vstd::math::min(2 * b.delay_secs, 30)
        },
{
}

/// A failure cannot be taken exactly when it would count beyond the largest number of 32 bits, or
/// announce an attempt with a larger number.
pub proof fn room_ends_with_the_counter(b: Backoff, limit: Option<u32>, noticed: bool)
    ensures
        limit is None ==> (b.room(limit, noticed) <==> !(noticed && b.attempts == u32::MAX)),
        limit is Some ==> (b.room(limit, noticed) <==> b.attempts < u32::MAX && !(noticed
            && b.attempts < limit->0 && b.attempts == u32::MAX - 1)),
{
}

/// At first the delay is one second and no failure is counted; delays are never shorter than one
/// second nor longer than thirty.
pub proof fn delays_are_bounded(b: Backoff)
    ensures
        Backoff::initial().delay_secs == 1 && Backoff::initial().attempts == 0,
        b.valid() <==> 1 <= b.delay_secs <= 30,
{
}

/// An announcement is a fixed text with the number of the attempt and the seconds of the wait in it,
/// in that order.
pub proof fn notice_says_attempt_and_wait(n: Notice)
    ensures
        ({
            let attempt = crate::text::decimal(n.attempt as nat);
            let secs = crate::text::decimal(n.waiting_secs as nat);
            let first = "Attempting to reconnect (attempt "@;
            let second = ", waiting "@;
            let rest = n.text().skip((first.len() + attempt.len()) as int);
            &&& first.is_prefix_of(n.text())
            &&& attempt.is_prefix_of(n.text().skip(first.len() as int))
            &&& second.is_prefix_of(rest)
            &&& secs.is_prefix_of(rest.skip(second.len() as int))
            &&& rest.skip((second.len() + secs.len()) as int) == "s)..."@
        }),
{
    let attempt = crate::text::decimal(n.attempt as nat);
    let secs = crate::text::decimal(n.waiting_secs as nat);
    let first = "Attempting to reconnect (attempt "@;
    let second = ", waiting "@;
    let last = "s)..."@;
    assert(n.text() =~= first + (attempt + (second + (secs + last))));
    assert(n.text().skip(first.len() as int) =~= attempt + (second + (secs + last)));
    let rest = n.text().skip((first.len() + attempt.len()) as int);
    assert(rest =~= second + (secs + last));
    assert(rest.skip(second.len() as int) =~= secs + last);
    assert(rest.skip((second.len() + secs.len()) as int) =~= last);
}

/// More failures never make the delay shorter.
pub proof fn delay_never_shrinks(fewer: nat, more: nat)
    requires
        fewer <= more,
    ensures
        delay_after(fewer) <= delay_after(more),
    decreases more - fewer,
{
    if fewer < more {
        delay_never_shrinks(fewer, (more - 1) as nat);
        delay_doubles_up_to_the_longest((more - 1) as nat);
    }
}

impl Notice {
    /// Whether both announce a wait of the same length.
    pub open spec fn same_wait(a: Option<Notice>, b: Option<Notice>) -> bool {
        &&& a is Some <==> b is Some
        &&& a is Some ==> a->0.waiting_secs == b->0.waiting_secs
    }

    /// The wording of the announcement.
    pub open spec fn text(self) -> Seq<char> {
        "Attempting to reconnect (attempt "@ + crate::text::decimal(self.attempt as nat)
            + ", waiting "@ + crate::text::decimal(self.waiting_secs as nat) + "s)..."@
    }

    /// Words the announcement.
    pub fn message(&self) -> (s: String)
        ensures
            s@ == self.text(),
    {
        "Attempting to reconnect (attempt ".to_owned().concat(
            decimal_string(self.attempt as u64).as_str(),
        ).concat(", waiting ").concat(decimal_string(self.waiting_secs).as_str()).concat("s)...")
    }
}

} // verus!
