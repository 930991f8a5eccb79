//! The failover controller of the process's own VPN.
//!
//! When upstream blocks the address that the gateway's traffic leaves from,
//! the VPN is told to reconnect. Many requests may see the block at once, so
//! the decision is made under a lock on a small state and recorded there
//! before any call goes out: at most one attempt per cooldown, and no more
//! than a fixed number in a row without a success.
//!
//! Nothing here performs a call or waits. `trigger_local_vpn_reconnect` decides
//! on a block signal, the caller waits and makes the call, and
//! `finish_local_vpn_reconnect` takes the answer.

pub use crate::fleet::{InstanceConfig, VpnManager};
use vstd::prelude::*;

verus! {

/// Seconds that must lie between two reconnect attempts.
pub const VPN_RECONNECT_COOLDOWN: u64 = 30;

/// Attempts in a row after which block signals are refused.
pub const VPN_MAX_RECONNECT_ATTEMPTS: u32 = 3;

/// The wait before the second attempt; it doubles with each further one.
pub const BACKOFF_BASE_SECS: u64 = 5;

/// The longest wait before an attempt.
pub const BACKOFF_CAP_SECS: u64 = 20;

/// Seconds that a call to the control endpoint is given. The endpoint is on
/// the local machine, so the time is short.
pub const CONTROL_TIMEOUT_SECS: u64 = 30;

/// What the process remembers of its reconnects. Times are milliseconds
/// since the Unix epoch.
#[derive(Clone, Copy, Debug, PartialEq, Eq, Structural)]
pub struct VpnReconnectState {
    /// The time of the last attempt that was let through.
    pub last_reconnect: u64,
    /// Attempts since the last success.
    pub attempts: u32,
}

/// What a block signal leads to.
#[derive(Clone, Copy, Debug, PartialEq, Eq, Structural)]
pub enum Trigger {
    /// The last attempt is too recent: nothing is to be done.
    Swallowed,
    /// An attempt is due: wait `wait_secs` seconds, then tell the VPN to reconnect.
    Dispatch { attempt: u32, wait_secs: u64 },
}

/// Why the controller gave up.
#[derive(Clone, Copy, Debug, PartialEq, Eq, Structural)]
pub enum VpnError {
    /// The ceiling of attempts in a row is reached.
    MaxAttemptsReached,
    /// The control endpoint could not be reached.
    RequestFailed,
}

/// The answer of the control endpoint to a call.
#[derive(Clone, Copy, Debug, PartialEq, Eq, Structural)]
pub enum ControlReply {
    /// It answered with this HTTP status.
    Status(u16),
    /// It did not answer.
    Unreachable,
}

/// True for the HTTP statuses of success, 200 to 299.
pub open spec fn is_success(status: u16) -> bool {
    200 <= status <= 299
}

/// Two to the power `k`.
pub open spec fn doubling(k: nat) -> nat
    decreases k,
{
    if k == 0 {
        1
    } else {
        2 * doubling((k - 1) as nat)
    }
}

/// Seconds to wait before attempt number `attempt`: none before the first,
/// then five seconds doubled with each attempt, up to the cap.
pub open spec fn backoff(attempt: u32) -> u64 {
    if attempt < 2 {
        0
    } else if BACKOFF_BASE_SECS * doubling((attempt - 1) as nat) < BACKOFF_CAP_SECS {
        (BACKOFF_BASE_SECS * doubling((attempt - 1) as nat)) as u64
    } else {
        BACKOFF_CAP_SECS
    }
}

/// True when an attempt at the time `last` is less than `cooldown` seconds
/// before the time `now`, both in milliseconds.
pub open spec fn cooling_down(last: u64, now: u64, cooldown: u64) -> bool {
    now - last < cooldown * 1000
}

/// The state after a block signal at `now`.
pub open spec fn state_after_signal(s: VpnReconnectState, now: u64) -> VpnReconnectState {
    if s.attempts >= VPN_MAX_RECONNECT_ATTEMPTS || cooling_down(
        s.last_reconnect,
        now,
        VPN_RECONNECT_COOLDOWN,
    ) {
        s
    } else {
        VpnReconnectState { last_reconnect: now, attempts: (s.attempts + 1) as u32 }
    }
}

/// What a block signal at `now` leads to.
pub open spec fn signal_outcome(s: VpnReconnectState, now: u64) -> Result<Trigger, VpnError> {
    if s.attempts >= VPN_MAX_RECONNECT_ATTEMPTS {
        Err(VpnError::MaxAttemptsReached)
    } else if cooling_down(s.last_reconnect, now, VPN_RECONNECT_COOLDOWN) {
        Ok(Trigger::Swallowed)
    } else {
        Ok(
            Trigger::Dispatch {
                attempt: (s.attempts + 1) as u32,
                wait_secs: backoff((s.attempts + 1) as u32),
            },
        )
    }
}

/// The state after the control endpoint has answered an attempt.
pub open spec fn state_after_reply(s: VpnReconnectState, reply: ControlReply) -> VpnReconnectState {
    match reply {
        ControlReply::Status(status) => if is_success(status) {
            VpnReconnectState { last_reconnect: s.last_reconnect, attempts: 0 }
        } else {
            s
        },
        ControlReply::Unreachable => s,
    }
}

/// What an attempt came to: `Ok(true)` for a reconnect that the endpoint confirmed.
pub open spec fn reply_outcome(reply: ControlReply) -> Result<bool, VpnError> {
    match reply {
        ControlReply::Status(status) => Ok(is_success(status)),
        ControlReply::Unreachable => Err(VpnError::RequestFailed),
    }
}

proof fn lemma_doubling_grows(k: nat)
    ensures
        doubling(k) >= 1,
        k >= 2 ==> doubling(k) >= 4,
    decreases k,
{
    if k > 0 {
        lemma_doubling_grows((k - 1) as nat);
    }
}

/// True for the HTTP statuses of success.
pub fn status_is_success(status: u16) -> (ok: bool)
    ensures
        ok == is_success(status),
{
    200 <= status && status <= 299
}

/// Seconds to wait before attempt number `attempt`.
pub fn backoff_secs(attempt: u32) -> (secs: u64)
    ensures
        secs == backoff(attempt),
        secs <= BACKOFF_CAP_SECS,
{
    proof {
        lemma_doubling_grows((attempt - 1) as nat);
        reveal_with_fuel(doubling, 3);
    }
    if attempt < 2 {
        0
    } else if attempt == 2 {
        10
    } else {
        20
    }
}

impl VpnReconnectState {
    /// The state of a process that has not reconnected yet.
    pub fn new() -> (s: Self)
        ensures
            s.last_reconnect == 0,
            s.attempts == 0,
    {
        VpnReconnectState { last_reconnect: 0, attempts: 0 }
    }

    /// True when the next block signal would be refused for good.
    pub fn exhausted(&self) -> (r: bool)
        ensures
            r == (self.attempts >= VPN_MAX_RECONNECT_ATTEMPTS),
    {
        self.attempts >= VPN_MAX_RECONNECT_ATTEMPTS
    }
}

impl Default for VpnReconnectState {
    fn default() -> (s: Self)
        ensures
            s.last_reconnect == 0,
            s.attempts == 0,
    {
        VpnReconnectState { last_reconnect: 0, attempts: 0 }
    }
}

/// True when an attempt at the time `last` is less than `cooldown` seconds
/// before the time `now`, both in milliseconds.
pub fn is_cooling_down(last: u64, now: u64, cooldown: u64) -> (r: bool)
    ensures
        r == cooling_down(last, now, cooldown),
{
    if now < last {
        return true;
    }
    let since: u128 = (now - last) as u128;
    let pause: u128 = cooldown as u128 * 1000;
    since < pause
}

/// Takes a block signal at the time `now`, in milliseconds.
///
/// An attempt is let through only below the ceiling of attempts and outside the
/// cooldown, and it is recorded in `state` before this returns, so that a
/// second signal that comes while the first attempt is still under way is not
/// let through too. The caller holds the lock on `state` for this call alone.
pub fn trigger_local_vpn_reconnect(state: &mut VpnReconnectState, now: u64) -> (r: Result<
    Trigger,
    VpnError,
>)
    ensures
        r == signal_outcome(*old(state), now),
        *final(state) == state_after_signal(*old(state), now),
{
    if state.attempts >= VPN_MAX_RECONNECT_ATTEMPTS {
        return Err(VpnError::MaxAttemptsReached);
    }
    if is_cooling_down(state.last_reconnect, now, VPN_RECONNECT_COOLDOWN) {
        return Ok(Trigger::Swallowed);
    }
    state.last_reconnect = now;
    state.attempts = state.attempts + 1;
    let attempt: u32 = state.attempts;
    Ok(Trigger::Dispatch { attempt, wait_secs: backoff_secs(attempt) })
}

/// Takes the answer of the control endpoint to an attempt.
///
/// A confirmed reconnect clears the count of attempts; anything else leaves
/// it, so that the attempts that follow wait longer and reach the ceiling.
pub fn finish_local_vpn_reconnect(state: &mut VpnReconnectState, reply: ControlReply) -> (r: Result<
    bool,
    VpnError,
>)
    ensures
        r == reply_outcome(reply),
        *final(state) == state_after_reply(*old(state), reply),
{
    match reply {
        ControlReply::Status(status) => {
            if status_is_success(status) {
                state.attempts = 0;
                Ok(true)
            } else {
                Ok(false)
            }
        },
        ControlReply::Unreachable => Err(VpnError::RequestFailed),
    }
}

/// Cooldown. Of two block signals less than the cooldown apart, at most the
/// first is let through, whatever the control endpoint answered in between;
/// and unless the ceiling is reached, the second is swallowed.
pub proof fn law_cooldown(s: VpnReconnectState, first: u64, second: u64, reply: ControlReply)
    requires
        first <= second,
        second - first < VPN_RECONNECT_COOLDOWN * 1000,
        signal_outcome(s, first) matches Ok(Trigger::Dispatch { .. }),
    ensures
        !(signal_outcome(state_after_signal(s, first), second) matches Ok(Trigger::Dispatch { .. })),
        !(signal_outcome(
            state_after_reply(state_after_signal(s, first), reply),
            second,
        ) matches Ok(Trigger::Dispatch { .. })),
        state_after_reply(state_after_signal(s, first), reply).attempts
            < VPN_MAX_RECONNECT_ATTEMPTS ==> signal_outcome(
            state_after_reply(state_after_signal(s, first), reply),
            second,
        ) == Ok::<Trigger, VpnError>(Trigger::Swallowed),
        state_after_signal(state_after_reply(state_after_signal(s, first), reply), second)
            == state_after_reply(state_after_signal(s, first), reply),
{
}

/// Ceiling. Once the attempts in a row have reached the ceiling, every further
/// block signal is refused with `MaxAttemptsReached`, at any time, and the
/// state stays as it is.
pub proof fn law_ceiling(s: VpnReconnectState, now: u64)
    requires
        s.attempts >= VPN_MAX_RECONNECT_ATTEMPTS,
    ensures
        signal_outcome(s, now) == Err::<Trigger, VpnError>(VpnError::MaxAttemptsReached),
        state_after_signal(s, now) == s,
{
}

/// Three failures in a row reach the ceiling. Starting from a state without
/// attempts, three signals that are each let through and each followed by an
/// answer that confirms nothing leave a state that refuses the fourth.
pub proof fn law_three_failures(
    s: VpnReconnectState,
    t1: u64,
    t2: u64,
    t3: u64,
    t4: u64,
    r1: ControlReply,
    r2: ControlReply,
    r3: ControlReply,
)
    requires
        s.attempts == 0,
        reply_outcome(r1) != Ok::<bool, VpnError>(true),
        reply_outcome(r2) != Ok::<bool, VpnError>(true),
        reply_outcome(r3) != Ok::<bool, VpnError>(true),
        !cooling_down(s.last_reconnect, t1, VPN_RECONNECT_COOLDOWN),
        !cooling_down(t1, t2, VPN_RECONNECT_COOLDOWN),
        !cooling_down(t2, t3, VPN_RECONNECT_COOLDOWN),
    ensures
        ({
            let s1 = state_after_reply(state_after_signal(s, t1), r1);
            let s2 = state_after_reply(state_after_signal(s1, t2), r2);
            let s3 = state_after_reply(state_after_signal(s2, t3), r3);
            &&& signal_outcome(s, t1) == Ok::<Trigger, VpnError>(
                Trigger::Dispatch { attempt: 1, wait_secs: 0 },
            )
            &&& signal_outcome(s1, t2) == Ok::<Trigger, VpnError>(
                Trigger::Dispatch { attempt: 2, wait_secs: 10 },
            )
            &&& signal_outcome(s2, t3) == Ok::<Trigger, VpnError>(
                Trigger::Dispatch { attempt: 3, wait_secs: 20 },
            )
            &&& signal_outcome(s3, t4) == Err::<Trigger, VpnError>(VpnError::MaxAttemptsReached)
            &&& state_after_signal(s3, t4) == s3
        }),
{
    reveal_with_fuel(doubling, 3);
}

/// The count of attempts changes by steps only: a signal adds at most one and
/// never goes past the ceiling from below it, and only a confirmed reconnect
/// brings it back to zero.
pub proof fn law_attempts_bounded(s: VpnReconnectState, now: u64, reply: ControlReply)
    requires
        s.attempts <= VPN_MAX_RECONNECT_ATTEMPTS,
    ensures
        state_after_signal(s, now).attempts <= VPN_MAX_RECONNECT_ATTEMPTS,
        s.attempts <= state_after_signal(s, now).attempts <= s.attempts + 1,
        state_after_reply(s, reply).attempts == (if reply_outcome(reply) == Ok::<bool, VpnError>(
            true,
        ) {
            0
        } else {
            s.attempts
        }),
{
}

} // verus!
