use vstd::prelude::*;
use crate::cooldown::{permits, should_alert, AlertState};
use crate::health::HealthVerdict;

verus! {

/// Whether a cycle with `verdict` sends an alert: the verdict calls for one
/// and the cooldown has run out.
pub open spec fn cycle_dispatches(
    state: AlertState,
    verdict: HealthVerdict,
    now: i64,
    cooldown: u64,
) -> bool {
    verdict.alertable() && permits(state, now as int, cooldown as int)
}

/// The alert state once a cycle with `verdict` has been planned: cleared on a
/// synced verdict, untouched otherwise.
pub open spec fn planned_state(state: AlertState, verdict: HealthVerdict) -> AlertState {
    if verdict is Synced {
        AlertState { last_alert_time: None }
    } else {
        state
    }
}

/// The alert state once a dispatch attempt has ended: stamped with `sent_at`
/// on success, untouched on failure.
pub open spec fn dispatched_state(state: AlertState, sent: bool, sent_at: i64) -> AlertState {
    if sent {
        AlertState::stamped(sent_at)
    } else {
        state
    }
}

/// The alert state after a whole cycle: planning, then the dispatch attempt if
/// there is one, which succeeded when `sent` holds and ended at `sent_at`.
pub open spec fn cycle_state(
    state: AlertState,
    verdict: HealthVerdict,
    now: i64,
    cooldown: u64,
    sent: bool,
    sent_at: i64,
) -> AlertState {
    let planned = planned_state(state, verdict);
    if cycle_dispatches(state, verdict, now, cooldown) {
        dispatched_state(planned, sent, sent_at)
    } else {
        planned
    }
}

/// Decides the alerting side of a cycle whose verdict is `verdict`, judged at
/// `now`. A synced verdict clears the state; the return value says whether an
/// alert is to be dispatched. The state is stamped only later, by
/// `finish_dispatch`, once the dispatch succeeded.
pub fn plan_cycle(state: &mut AlertState, verdict: &HealthVerdict, now: i64, cooldown: u64) -> (dispatch: bool)
    ensures
        dispatch == cycle_dispatches(*old(state), *verdict, now, cooldown),
        *final(state) == planned_state(*old(state), *verdict),
        old(state).not_after(now as int) ==> final(state).not_after(now as int),
{
    if verdict.is_synced() {
        state.clear();
        false
    } else if verdict.is_alertable() {
        should_alert(state, now, cooldown)
    } else {
        false
    }
}

/// Records the end of a dispatch attempt that ended at `sent_at`: only a
/// successful one stamps the state, so a failed one is retried next cycle.
pub fn finish_dispatch(state: &mut AlertState, sent: bool, sent_at: i64)
    ensures
        *final(state) == dispatched_state(*old(state), sent, sent_at),
        old(state).not_after(sent_at as int) ==> final(state).not_after(sent_at as int),
{
    if sent {
        state.record_alert(sent_at);
    }
}

/// The alert state after a run of cycles, one for each verdict, with the
/// judging time, dispatch outcome and dispatch end time of each.
pub open spec fn run_cycles(
    state: AlertState,
    verdicts: Seq<HealthVerdict>,
    nows: Seq<i64>,
    cooldown: u64,
    sent: Seq<bool>,
    sent_at: Seq<i64>,
) -> AlertState
    decreases verdicts.len(),
{
    if verdicts.len() == 0 {
        state
    } else {
        run_cycles(
            cycle_state(state, verdicts[0], nows[0], cooldown, sent[0], sent_at[0]),
            verdicts.drop_first(),
            nows.drop_first(),
            cooldown,
            sent.drop_first(),
            sent_at.drop_first(),
        )
    }
}

/// A synced cycle never dispatches, from any state, and leaves the state unset;
/// so any non-empty run of synced cycles leaves it unset too.
pub proof fn lemma_synced_cycles_are_quiet(
    state: AlertState,
    verdicts: Seq<HealthVerdict>,
    nows: Seq<i64>,
    cooldown: u64,
    sent: Seq<bool>,
    sent_at: Seq<i64>,
)
    requires
        verdicts.len() > 0,
        forall|i: int| 0 <= i < verdicts.len() ==> #[trigger] verdicts[i] is Synced,
        nows.len() == verdicts.len(),
        sent.len() == verdicts.len(),
        sent_at.len() == verdicts.len(),
    ensures
        forall|s: AlertState, i: int|
            0 <= i < verdicts.len() ==> !#[trigger] cycle_dispatches(s, verdicts[i], nows[i], cooldown),
        run_cycles(state, verdicts, nows, cooldown, sent, sent_at).last_alert_time is None,
    decreases verdicts.len(),
{
    let next = cycle_state(state, verdicts[0], nows[0], cooldown, sent[0], sent_at[0]);
    assert(next.last_alert_time is None);
    if verdicts.len() > 1 {
        let rest = verdicts.drop_first();
        assert forall|i: int| 0 <= i < rest.len() implies #[trigger] rest[i] is Synced by {
            assert(rest[i] == verdicts[i + 1]);
        }
        lemma_synced_cycles_are_quiet(
            next,
            rest,
            nows.drop_first(),
            cooldown,
            sent.drop_first(),
            sent_at.drop_first(),
        );
    }
}

/// A verdict that does not call for an alert never dispatches, and a local
/// node ahead of the reference or an unreachable reference leaves the alert
/// state as it was.
pub proof fn lemma_benign_cycles_keep_state(
    state: AlertState,
    verdict: HealthVerdict,
    now: i64,
    cooldown: u64,
    sent: bool,
    sent_at: i64,
)
    requires
        verdict is LocalAhead || verdict is RemoteUnreachable,
    ensures
        !cycle_dispatches(state, verdict, now, cooldown),
        cycle_state(state, verdict, now, cooldown, sent, sent_at) == state,
{
}

/// A dispatch attempt that fails leaves the state as it was; one that succeeds
/// holds back further alerts until strictly more than the cooldown has passed.
pub proof fn lemma_dispatch_outcome(
    state: AlertState,
    verdict: HealthVerdict,
    now: i64,
    cooldown: u64,
    sent_at: i64,
    later: i64,
)
    requires
        cycle_dispatches(state, verdict, now, cooldown),
    ensures
        cycle_state(state, verdict, now, cooldown, false, sent_at) == state,
        cycle_state(state, verdict, now, cooldown, true, sent_at) == AlertState::stamped(sent_at),
        later - sent_at <= cooldown ==> !cycle_dispatches(
            AlertState::stamped(sent_at),
            verdict,
            later,
            cooldown,
        ),
{
}

} // verus!
