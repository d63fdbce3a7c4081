//! Runs of the purchase worker: what its rule comes to over a sequence of
//! events.

use vstd::prelude::*;
use crate::error::Error;
use crate::error::RecvError;
use crate::model::Variant;
use crate::monitor::Snapshot;
use crate::retry::RetryBudget;
use crate::task::drawn_from;
use crate::task::fair_pick;
use crate::task::initial;
use crate::task::step;
use crate::task::Action;
use crate::task::Event;
use crate::task::Failure;
use crate::task::Phase;
use crate::task::Progress;
use crate::task::ADDRESS_ATTEMPTS;
use crate::task::ORDER_ATTEMPTS;
use crate::task::SESSION_ATTEMPTS;

verus! {

/// The worker after a run: what it knows after taking `events` one after
/// the other, each with the variant drawn for it, and the last action it
/// asked for. An event that it was not waiting for leaves it as it was.
pub open spec fn replay(start: Progress, events: Seq<Event>, picks: Seq<Option<Variant>>) -> (
    Progress,
    Option<Action>,
)
    decreases events.len(),
{
    if events.len() == 0 {
        (start, None)
    } else {
        let before = replay(start, events.drop_last(), picks.drop_last()).0;
        match step(before, events.last(), picks.last()) {
            Some((after, action)) => (after, Some(action)),
            None => (before, None),
        }
    }
}

/// A run of session requests that all failed.
pub open spec fn failed_sessions(errors: Seq<Error>) -> Seq<Event> {
    Seq::new(errors.len(), |i: int| Event::Session(Err(errors[i])))
}

/// A run of order creations that all failed.
pub open spec fn failed_orders(errors: Seq<Error>) -> Seq<Event> {
    Seq::new(errors.len(), |i: int| Event::Order(Err(errors[i])))
}

/// A run of address patches that all failed.
pub open spec fn failed_patches(errors: Seq<Error>) -> Seq<Event> {
    Seq::new(errors.len(), |i: int| Event::Address(Err(errors[i])))
}

/// Whether the worker holds what its phase needs: a snapshot with a
/// variant to buy, once a purchase cycle has begun.
pub open spec fn sound(progress: Progress) -> bool {
    match progress.phase {
        Phase::CreatingOrder { .. } | Phase::AssigningAddress { .. } | Phase::SubmittingPayment {
            ..
        } => progress.pool matches Some(snapshot) && snapshot.1@.len() > 0,
        _ => true,
    }
}

/// The session is attempted six times: each of the first five failures in
/// a row is followed by another attempt, and the sixth ends the worker with
/// the error of that attempt.
pub proof fn law_session_budget(start: Progress, errors: Seq<Error>, picks: Seq<Option<Variant>>)
    requires
        start.phase == (Phase::Session { budget: RetryBudget::fresh(SESSION_ATTEMPTS) }),
        1 <= errors.len() <= SESSION_ATTEMPTS,
        picks.len() == errors.len(),
    ensures
        errors.len() < SESSION_ATTEMPTS ==> replay(start, failed_sessions(errors), picks) == (
            Progress {
                phase: Phase::Session {
                    budget: RetryBudget {
                        max_attempts: SESSION_ATTEMPTS,
                        failures: errors.len() as u32,
                    },
                },
                pool: start.pool,
            },
            Some(Action::CreateSession),
        ),
        errors.len() == SESSION_ATTEMPTS ==> replay(start, failed_sessions(errors), picks) == (
            Progress { phase: Phase::Stopped, pool: start.pool },
            Some(Action::Stop(Failure::SessionFailed(errors.last()))),
        ),
    decreases errors.len(),
{
    let events = failed_sessions(errors);
    assert(events.drop_last() =~= failed_sessions(errors.drop_last()));
    assert(events.last() == Event::Session(Err(errors.last())));
    if errors.len() > 1 {
        law_session_budget(start, errors.drop_last(), picks.drop_last());
    } else {
        assert(replay(start, events.drop_last(), picks.drop_last()).0 == start);
    }
}

/// An order's creation is attempted eleven times: each of the first ten
/// failures in a row is followed by another attempt, with the variant drawn
/// for it, and the eleventh ends the worker with the error of that attempt.
pub proof fn law_order_budget(start: Progress, errors: Seq<Error>, picks: Seq<Option<Variant>>)
    requires
        start.phase == (Phase::CreatingOrder { budget: RetryBudget::fresh(ORDER_ATTEMPTS) }),
        start.pool is Some,
        1 <= errors.len() <= ORDER_ATTEMPTS,
        picks.len() == errors.len(),
        forall|i: int| 0 <= i < picks.len() ==> (#[trigger] picks[i]) is Some,
    ensures
        errors.len() < ORDER_ATTEMPTS ==> replay(start, failed_orders(errors), picks) == (
            Progress {
                phase: Phase::CreatingOrder {
                    budget: RetryBudget {
                        max_attempts: ORDER_ATTEMPTS,
                        failures: errors.len() as u32,
                    },
                },
                pool: start.pool,
            },
            Some(
                Action::CreateOrder {
                    product: start.pool.unwrap().0,
                    variant: picks.last().unwrap(),
                },
            ),
        ),
        errors.len() == ORDER_ATTEMPTS ==> replay(start, failed_orders(errors), picks) == (
            Progress { phase: Phase::Stopped, pool: start.pool },
            Some(Action::Stop(Failure::OrderCreationFailed(errors.last()))),
        ),
    decreases errors.len(),
{
    let events = failed_orders(errors);
    assert(events.drop_last() =~= failed_orders(errors.drop_last()));
    assert(events.last() == Event::Order(Err(errors.last())));
    assert(picks.last() is Some);
    if errors.len() > 1 {
        law_order_budget(start, errors.drop_last(), picks.drop_last());
    } else {
        assert(replay(start, events.drop_last(), picks.drop_last()).0 == start);
    }
}

/// An order's addresses are assigned in at most eleven attempts: each of
/// the first ten failures in a row is followed by another attempt, and the
/// eleventh ends the worker with the error of that attempt.
pub proof fn law_address_budget(
    start: Progress,
    order: i64,
    errors: Seq<Error>,
    picks: Seq<Option<Variant>>,
)
    requires
        start.phase == (Phase::AssigningAddress {
            order,
            budget: RetryBudget::fresh(ADDRESS_ATTEMPTS),
        }),
        1 <= errors.len() <= ADDRESS_ATTEMPTS,
        picks.len() == errors.len(),
    ensures
        errors.len() < ADDRESS_ATTEMPTS ==> replay(start, failed_patches(errors), picks) == (
            Progress {
                phase: Phase::AssigningAddress {
                    order,
                    budget: RetryBudget {
                        max_attempts: ADDRESS_ATTEMPTS,
                        failures: errors.len() as u32,
                    },
                },
                pool: start.pool,
            },
            Some(Action::PatchAddress { order }),
        ),
        errors.len() == ADDRESS_ATTEMPTS ==> replay(start, failed_patches(errors), picks) == (
            Progress { phase: Phase::Stopped, pool: start.pool },
            Some(Action::Stop(Failure::AddressAssignmentFailed(errors.last()))),
        ),
    decreases errors.len(),
{
    let events = failed_patches(errors);
    assert(events.drop_last() =~= failed_patches(errors.drop_last()));
    assert(events.last() == Event::Address(Err(errors.last())));
    if errors.len() > 1 {
        law_address_budget(start, order, errors.drop_last(), picks.drop_last());
    } else {
        assert(replay(start, events.drop_last(), picks.drop_last()).0 == start);
    }
}

/// A success ends its step at once, whatever the failures before it: the
/// worker goes on to the next step, which starts with its own full budget.
pub proof fn law_success_is_immediate(
    pool: Option<Snapshot>,
    budget: RetryBudget,
    order: i64,
    pick: Option<Variant>,
)
    ensures
        step(Progress { phase: Phase::Session { budget }, pool }, Event::Session(Ok(())), pick)
            == Some((Progress { phase: Phase::AwaitingSnapshot, pool }, Action::ReceiveSnapshot)),
        step(
            Progress { phase: Phase::CreatingOrder { budget }, pool },
            Event::Order(Ok(order)),
            pick,
        ) == Some(
            (
                Progress {
                    phase: Phase::AssigningAddress {
                        order,
                        budget: RetryBudget::fresh(ADDRESS_ATTEMPTS),
                    },
                    pool,
                },
                Action::PatchAddress { order },
            ),
        ),
        step(
            Progress { phase: Phase::AssigningAddress { order, budget }, pool },
            Event::Address(Ok(())),
            pick,
        ) == Some(
            (
                Progress { phase: Phase::SubmittingPayment { order }, pool },
                Action::SubmitPayment { order },
            ),
        ),
{
}

/// A payment that failed ends nothing: like one that went through, it is
/// followed by the first attempt at a new order, of a variant of the
/// snapshot retained, with a full budget.
pub proof fn law_payment_failure_starts_a_cycle(
    before: Progress,
    outcome: Result<(), Error>,
    pick: Option<Variant>,
)
    requires
        before.phase is SubmittingPayment,
        sound(before),
        fair_pick(before, Event::Payment(outcome), pick),
    ensures
        pick matches Some(variant) && before.pool matches Some(snapshot) && snapshot.1@.contains(
            variant,
        ) && step(before, Event::Payment(outcome), pick) == Some(
            (
                Progress {
                    phase: Phase::CreatingOrder { budget: RetryBudget::fresh(ORDER_ATTEMPTS) },
                    pool: before.pool,
                },
                Action::CreateOrder { product: snapshot.0, variant },
            ),
        ),
{
    assert(drawn_from(pick, before.pool));
}

/// What the worker holds stays sound through every step, and the snapshot
/// retained is never replaced. The worker ends for want of a variant only
/// when the snapshot that arrives holds none.
pub proof fn law_steps_keep_sound(before: Progress, event: Event, pick: Option<Variant>)
    requires
        sound(before),
        fair_pick(before, event, pick),
        step(before, event, pick) is Some,
    ensures
        sound(step(before, event, pick).unwrap().0),
        before.phase != Phase::AwaitingSnapshot ==> step(before, event, pick).unwrap().0.pool
            == before.pool,
        step(before, event, pick).unwrap().1 == Action::Stop(Failure::MissingVariant) ==> {
            &&& before.phase == Phase::AwaitingSnapshot
            &&& event matches Event::Snapshot(Ok(snapshot))
            &&& snapshot.1@.len() == 0
        },
{
    match (before.phase, event) {
        (Phase::AwaitingSnapshot, Event::Snapshot(Ok(snapshot))) => {
            if pick is Some {
                assert(snapshot.1@.contains(pick.unwrap()));
            }
        },
        _ => {},
    }
}

/// A worker that has ended stays ended: it takes no event, whatever comes
/// and however often.
pub proof fn law_stop_is_final(
    pool: Option<Snapshot>,
    events: Seq<Event>,
    picks: Seq<Option<Variant>>,
)
    ensures
        replay(Progress { phase: Phase::Stopped, pool }, events, picks).0 == (Progress {
            phase: Phase::Stopped,
            pool,
        }),
        events.len() > 0 ==> replay(Progress { phase: Phase::Stopped, pool }, events, picks).1
            is None,
    decreases events.len(),
{
    if events.len() > 0 {
        law_stop_is_final(pool, events.drop_last(), picks.drop_last());
    }
}

/// A worker that has not started is sound, and takes no event.
pub proof fn law_initial_is_sound(event: Event, pick: Option<Variant>)
    ensures
        sound(initial()),
        step(initial(), event, pick) is None,
{
}

/// A lag on the snapshot channel ends nothing, however many snapshots
/// were missed: the worker asks for the next snapshot, and the one that
/// then arrives is the one it buys from.
pub proof fn law_lag_is_survived(
    before: Progress,
    missed: u64,
    snapshot: Snapshot,
    pick: Option<Variant>,
)
    requires
        before.phase == Phase::AwaitingSnapshot,
        pick is Some,
    ensures
        step(before, Event::Snapshot(Err(RecvError::Lagged(missed))), None) == Some(
            (before, Action::ReceiveSnapshot),
        ),
        replay(
            before,
            seq![Event::Snapshot(Err(RecvError::Lagged(missed))), Event::Snapshot(Ok(snapshot))],
            seq![None, pick],
        ) == (
            Progress {
                phase: Phase::CreatingOrder { budget: RetryBudget::fresh(ORDER_ATTEMPTS) },
                pool: Some(snapshot),
            },
            Some(Action::CreateOrder { product: snapshot.0, variant: pick.unwrap() }),
        ),
{
    let lagged = Event::Snapshot(Err(RecvError::Lagged(missed)));
    let events = seq![lagged, Event::Snapshot(Ok(snapshot))];
    assert(events.drop_last() =~= seq![lagged]);
    assert(events.drop_last().drop_last() =~= Seq::<Event>::empty());
    reveal_with_fuel(replay, 3);
}

} // verus!
