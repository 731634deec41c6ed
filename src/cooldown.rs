use vstd::prelude::*;

verus! {

/// When the last alert went out, in milliseconds since the Unix epoch; `None`
/// while no alert has gone out in the current problem period.
#[derive(Debug, Clone, Copy, PartialEq, Eq, Structural)]
pub struct AlertState {
    pub last_alert_time: Option<i64>,
}

/// Whether an alert may go out at `now`: always when unset, else
/// once strictly more than `cooldown` milliseconds have passed.
pub open spec fn permits(state: AlertState, now: int, cooldown: int) -> bool {
    match state.last_alert_time {
        None => true,
        Some(t) => now - t > cooldown,
    }
}

impl AlertState {
    /// A state in which no alert has gone out.
    pub fn new() -> (s: AlertState)
        ensures
            s.last_alert_time is None,
    {
        AlertState { last_alert_time: None }
    }

    /// The state after an alert went out at `now`.
    pub open spec fn stamped(now: i64) -> AlertState {
        AlertState { last_alert_time: Some(now) }
    }

    /// Notes that an alert went out at `now`.
    pub fn record_alert(&mut self, now: i64)
        ensures
            *final(self) == AlertState::stamped(now),
    {
        self.last_alert_time = Some(now);
    }

    /// Forgets the last alert, so that the next problem period starts its own cooldown.
    pub fn clear(&mut self)
        ensures
            final(self).last_alert_time is None,
    {
        self.last_alert_time = None;
    }

    /// The stamp never lies after `now`.
    pub open spec fn not_after(self, now: int) -> bool {
        match self.last_alert_time {
            None => true,
            Some(t) => t <= now,
        }
    }
}

/// Whether an alert may go out at `now` given a cooldown of `cooldown`
/// milliseconds. It reads the state and changes nothing.
pub fn should_alert(state: &AlertState, now: i64, cooldown: u64) -> (r: bool)
    ensures
        r == permits(*state, now as int, cooldown as int),
{
    match state.last_alert_time {
        None => true,
        Some(t) => (now as i128) - (t as i128) > (cooldown as i128),
    }
}

/// The first alert always goes out; it holds back an alert at the very
/// moment of the last one and at exactly the cooldown after it; it lets one
/// through once strictly more than the cooldown has passed.
pub proof fn lemma_cooldown_window(t: i64, now: i64, cooldown: u64)
    ensures
        permits(AlertState { last_alert_time: None }, now as int, cooldown as int),
        !permits(AlertState::stamped(t), t as int, cooldown as int),
        now - t > cooldown ==> permits(AlertState::stamped(t), now as int, cooldown as int),
        now - t == cooldown ==> !permits(AlertState::stamped(t), now as int, cooldown as int),
        now - t <= cooldown ==> !permits(AlertState::stamped(t), now as int, cooldown as int),
{
}

} // verus!
