//! Waiting for a callback to succeed: the decisions of the retry loop. The
//! caller owns the clock and the callback; this machine says when to call and
//! when to give up.
use vstd::prelude::*;
use crate::error::{QueryError, WaitForError};
use crate::types::config::Config;
use crate::types::wait_for::WaitForOptions;

verus! {

/// The state of one wait. Times are readings of the caller's clock.
pub struct WaitFor<E> {
    /// When the wait began.
    pub start: u64,
    /// When the wait gives up.
    pub deadline: u64,
    /// The time between two polls, at least 1.
    pub interval: u64,
    /// When the callback is called next.
    pub next_poll: u64,
    /// Whether the callback has been called at all.
    pub polled: bool,
    /// The error of the last call that failed.
    pub last_error: Option<E>,
    /// Whether the wait is over. Nothing happens to a wait that is over.
    pub settled: bool,
}

/// What the caller does next.
#[derive(Clone, Copy, Debug, PartialEq, Eq, Structural)]
pub enum WaitAction {
    /// Call the callback at the time `at` and hand the outcome to `on_poll`.
    Poll { at: u64 },
    /// Call `on_timeout` at the time `at`.
    TimeOut { at: u64 },
    /// Nothing: the wait is over, and both timers are cleared.
    Done,
}

/// The sum, or the greatest number where the sum is beyond it.
pub open spec fn saturating_sum(a: u64, b: u64) -> u64 {
    if a + b > u64::MAX {
        u64::MAX
    } else {
        (a + b) as u64
    }
}

fn saturating_add(a: u64, b: u64) -> (r: u64)
    ensures
        r == saturating_sum(a, b),
{
    if b > u64::MAX - a {
        u64::MAX
    } else {
        a + b
    }
}

/// The time that the options ask for: not below `least`, and the default
/// where they name none.
pub open spec fn time_of(option: Option<i32>, default: u64, least: u64) -> u64 {
    match option {
        Some(value) => if value < least {
            least
        } else {
            value as u64
        },
        None => if default < least {
            least
        } else {
            default
        },
    }
}

fn read_time(option: Option<i32>, default: u64, least: u64) -> (r: u64)
    requires
        least <= 1,
    ensures
        r == time_of(option, default, least),
        r >= least,
{
    match option {
        Some(value) => if value < 0 || (value as u64) < least {
            least
        } else {
            value as u64
        },
        None => if default < least {
            least
        } else {
            default
        },
    }
}

impl<E> WaitFor<E> {
    /// A wait that begins at `now`. It gives up after the options' timeout,
    /// or the configuration's; it polls every interval, 50 where none is
    /// given and never less than 1.
    pub fn new(now: u64, options: &WaitForOptions, config: &Config) -> (r: Self)
        ensures
            r == begun::<E>(
                now,
                time_of(options.timeout, config.async_util_timeout, 0),
                time_of(options.interval, 50, 1),
            ),
    {
        let timeout = read_time(options.timeout, config.async_util_timeout, 0);
        let interval = read_time(options.interval, 50, 1);
        WaitFor {
            start: now,
            deadline: saturating_add(now, timeout),
            interval,
            next_poll: now,
            polled: false,
            last_error: None,
            settled: false,
        }
    }

    /// What comes next. The callback is called once at the start, and then
    /// at every interval that ends before the deadline; at the deadline the
    /// wait times out.
    pub open spec fn next(self) -> WaitAction {
        if self.settled {
            WaitAction::Done
        } else if !self.polled || self.next_poll < self.deadline {
            WaitAction::Poll { at: self.next_poll }
        } else {
            WaitAction::TimeOut { at: self.deadline }
        }
    }

    /// What the caller does next.
    pub fn next_action(&self) -> (action: WaitAction)
        ensures
            action == self.next(),
    {
        if self.settled {
            WaitAction::Done
        } else if !self.polled || self.next_poll < self.deadline {
            WaitAction::Poll { at: self.next_poll }
        } else {
            WaitAction::TimeOut { at: self.deadline }
        }
    }

    /// The state after a call of the callback that failed with `error`.
    pub open spec fn failed(self, error: E) -> Self {
        WaitFor {
            polled: true,
            last_error: Some(error),
            next_poll: saturating_sum(
                self.next_poll,
                if self.interval == 0 {
                    1
                } else {
                    self.interval
                },
            ),
            ..self
        }
    }

    /// Takes the outcome of a call of the callback. Success ends the wait
    /// with the value. A failure is kept as the last error, and the wait goes
    /// on. A wait that is over takes nothing.
    pub fn on_poll<T>(&mut self, outcome: Result<T, E>) -> (r: Option<Result<T, WaitForError<E>>>)
        ensures
            old(self).settled ==> r is None && *final(self) == *old(self),
            !old(self).settled ==> match outcome {
                Ok(value) => r == Some(Ok::<T, WaitForError<E>>(value)) && *final(self) == (WaitFor {
                    settled: true,
                    polled: true,
                    ..*old(self)
                }),
                Err(error) => r is None && *final(self) == old(self).failed(error),
            },
    {
        if self.settled {
            return None;
        }
        self.polled = true;
        match outcome {
            Ok(value) => {
                self.settled = true;
                Some(Ok(value))
            },
            Err(error) => {
                self.last_error = Some(error);
                let step = if self.interval == 0 {
                    1
                } else {
                    self.interval
                };
                self.next_poll = saturating_add(self.next_poll, step);
                None
            },
        }
    }

    /// How a wait that timed out ends: with the last error where a call
    /// failed, else as timed out.
    pub open spec fn timed_out(last_error: Option<E>) -> WaitForError<E> {
        match last_error {
            Some(error) => WaitForError::Error(error),
            None => WaitForError::TimedOut,
        }
    }

    /// Ends the wait at its deadline. A wait that is over takes nothing.
    pub fn on_timeout<T>(&mut self) -> (r: Option<Result<T, WaitForError<E>>>)
        ensures
            old(self).settled ==> r is None && *final(self) == *old(self),
            !old(self).settled ==> r == Some(
                Err::<T, WaitForError<E>>(Self::timed_out(old(self).last_error)),
            ) && *final(self) == (WaitFor { settled: true, last_error: None, ..*old(self) }),
    {
        if self.settled {
            return None;
        }
        self.settled = true;
        let mut last: Option<E> = None;
        core::mem::swap(&mut self.last_error, &mut last);
        match last {
            Some(error) => Some(Err(WaitForError::Error(error))),
            None => Some(Err(WaitForError::TimedOut)),
        }
    }

    /// Ends the wait at once with an error that no retry can mend. A wait that
    /// is over takes nothing.
    pub fn fail<T>(&mut self, error: E) -> (r: Option<Result<T, WaitForError<E>>>)
        ensures
            old(self).settled ==> r is None && *final(self) == *old(self),
            !old(self).settled ==> r == Some(Err::<T, WaitForError<E>>(WaitForError::Error(error)))
                && *final(self) == (WaitFor { settled: true, ..*old(self) }),
    {
        if self.settled {
            return None;
        }
        self.settled = true;
        Some(Err(WaitForError::Error(error)))
    }

    /// When a wait ends whose callback fails at every call, where it ends
    /// within `fuel` calls.
    pub open spec fn failing_end(self, error: E, fuel: nat) -> Option<u64>
        decreases fuel,
    {
        match self.next() {
            WaitAction::Done => None,
            WaitAction::TimeOut { at } => Some(at),
            WaitAction::Poll { at } => if fuel == 0 {
                None
            } else {
                self.failed(error).failing_end(error, (fuel - 1) as nat)
            },
        }
    }
}

/// A wait whose callback always fails ends by timing out, and it does so at
/// its deadline: as long after its start as the timeout says, which is no
/// earlier than the timeout and no later than one interval after it.
pub proof fn lemma_failing_wait_times_out<E>(wait: WaitFor<E>, error: E)
    requires
        !wait.settled,
        wait.next_poll <= wait.deadline,
    ensures
        wait.failing_end(error, (wait.deadline - wait.next_poll + 2) as nat) == Some(wait.deadline),
    decreases wait.deadline - wait.next_poll + (if wait.polled {
        0int
    } else {
        1int
    }),
{
    match wait.next() {
        WaitAction::Poll { at } => {
            let after = wait.failed(error);
            if after.next_poll <= after.deadline && after.next_poll > wait.next_poll {
                lemma_failing_wait_times_out(after, error);
                lemma_more_fuel(
                    after,
                    error,
                    (after.deadline - after.next_poll + 2) as nat,
                    (wait.deadline - wait.next_poll + 1) as nat,
                );
            } else {
                assert(after.next() == WaitAction::TimeOut { at: after.deadline });
            }
        },
        _ => {},
    }
}

/// A wait that has just begun.
pub open spec fn begun<E>(start: u64, timeout: u64, interval: u64) -> WaitFor<E> {
    WaitFor {
        start,
        deadline: saturating_sum(start, timeout),
        interval,
        next_poll: start,
        polled: false,
        last_error: None,
        settled: false,
    }
}

/// A wait whose callback always fails, and whose clock can count up to the
/// deadline, ends no earlier than its timeout after its start and no later
/// than its timeout and one interval after it.
pub proof fn lemma_failing_wait_ends_in_time<E>(start: u64, timeout: u64, interval: u64, error: E)
    requires
        start + timeout <= u64::MAX,
    ensures
        begun::<E>(start, timeout, interval).failing_end(error, (timeout + 2) as nat) matches Some(
            end,
        ) && start + timeout <= end <= start + timeout + interval,
{
    lemma_failing_wait_times_out(begun::<E>(start, timeout, interval), error);
}

/// A wait that ends within some number of calls ends at the same time within
/// any greater number.
proof fn lemma_more_fuel<E>(wait: WaitFor<E>, error: E, fuel: nat, more: nat)
    requires
        fuel <= more,
        wait.failing_end(error, fuel) is Some,
    ensures
        wait.failing_end(error, more) == wait.failing_end(error, fuel),
    decreases fuel,
{
    match wait.next() {
        WaitAction::Poll { at } => {
            if fuel > 0 {
                lemma_more_fuel(wait.failed(error), error, (fuel - 1) as nat, (more - 1) as nat);
            }
        },
        _ => {},
    }
}

/// Whether a failed query is tried again: only where it found no element, or
/// too many. Options that cannot be used stay so, whatever the document turns
/// into.
pub open spec fn is_retried(error: QueryError) -> bool {
    error is Element
}

/// Takes the outcome of a query that is retried until it succeeds. An error
/// that no retry can mend ends the wait at once.
pub fn on_query_poll<T>(wait: &mut WaitFor<QueryError>, outcome: Result<T, QueryError>) -> (r: Option<
    Result<T, WaitForError<QueryError>>,
>)
    ensures
        old(wait).settled ==> r is None && *final(wait) == *old(wait),
        !old(wait).settled ==> match outcome {
            Ok(value) => r == Some(Ok::<T, WaitForError<QueryError>>(value)) && final(wait).settled,
            Err(error) => if is_retried(error) {
                r is None && *final(wait) == old(wait).failed(error)
            } else {
                r == Some(Err::<T, WaitForError<QueryError>>(WaitForError::Error(error)))
                    && final(wait).settled
            },
        },
{
    match outcome {
        Ok(value) => wait.on_poll(Ok(value)),
        Err(error) => {
            let retried = match &error {
                QueryError::Element(_) => true,
                _ => false,
            };
            if retried {
                wait.on_poll(Err(error))
            } else {
                wait.fail(error)
            }
        },
    }
}

/// The clock that a wait runs by.
pub trait Clock {
    /// The time now.
    fn now(&self) -> u64;

    /// Returns when the time `at` has come.
    fn sleep_until(&self, at: u64);
}

/// Whether a wait by this clock has lasted its whole time: the clock was
/// read, and it was slept by until the timeout after that reading.
pub open spec fn waited_out<C: Clock>(clock: &C, options: WaitForOptions, config: Config) -> bool {
    exists|start: u64| #[trigger]
        call_ensures(C::now, (clock,), start) && call_ensures(
            C::sleep_until,
            (clock, saturating_sum(start, time_of(options.timeout, config.async_util_timeout, 0))),
            (),
        )
}

/// Calls the callback until it succeeds or the time is over: once at the
/// start, and then at every interval that ends before the timeout. Returns
/// what the callback returned when it succeeded; at the timeout, the error of
/// the last call, of which there is always one. So a callback that cannot
/// fail makes the wait succeed, and one that cannot succeed makes it fail;
/// and the wait fails only when it has lasted its whole time.
pub fn wait_for<T, E, F: Fn() -> Result<T, E>, C: Clock>(
    callback: F,
    clock: &C,
    options: &WaitForOptions,
    config: &Config,
) -> (r: Result<T, WaitForError<E>>)
    requires
        call_requires(callback, ()),
    ensures
        r matches Ok(value) ==> call_ensures(callback, (), Ok::<T, E>(value)),
        r matches Err(failure) ==> failure matches WaitForError::Error(error) && call_ensures(
            callback,
            (),
            Err::<T, E>(error),
        ),
        (forall|outcome: Result<T, E>| #[trigger]
            call_ensures(callback, (), outcome) ==> outcome is Ok) ==> r is Ok,
        (forall|outcome: Result<T, E>| #[trigger]
            call_ensures(callback, (), outcome) ==> outcome is Err) ==> r is Err,
        r is Err ==> waited_out(clock, *options, *config),
{
    let start = clock.now();
    let mut wait: WaitFor<E> = WaitFor::new(start, options, config);
    loop
        invariant
            call_requires(callback, ()),
            call_ensures(C::now, (clock,), start),
            wait.deadline == saturating_sum(
                start,
                time_of(options.timeout, config.async_util_timeout, 0),
            ),
            !wait.settled,
            wait.polled ==> wait.last_error is Some,
            wait.last_error matches Some(error) ==> call_ensures(callback, (), Err::<T, E>(error)),
        decreases
                (if !wait.polled {
                    u64::MAX + 2
                } else if wait.next_poll < wait.deadline {
                    wait.deadline - wait.next_poll + 1
                } else {
                    1
                }),
    {
        match wait.next_action() {
            WaitAction::Poll { at } => {
                clock.sleep_until(at);
                let outcome = callback();
                match wait.on_poll(outcome) {
                    Some(result) => {
                        return result;
                    },
                    None => {},
                }
            },
            WaitAction::TimeOut { at } => {
                clock.sleep_until(at);
                match wait.on_timeout() {
                    Some(result) => {
                        return result;
                    },
                    None => {},
                }
            },
            WaitAction::Done => {},
        }
    }
}

} // verus!
