//! The infrastructure lifecycle controller: a strictly sequential, fail-fast
//! bring-up of the backing services — mount volumes, virtual network, broker
//! container, analytics-store container — with one bounded recovery branch:
//! a network found absent is created once and re-validated once.
//!
//! The controller is a state machine over plain outcomes. The process around
//! the library runs the loop: it asks [`current_action`] what to perform,
//! performs it (a container command, a readiness probe), and feeds the
//! outcome back through [`lifecycle_step`]. Every run, whatever the outcomes,
//! creates the network at most once and stops at the first failure.

use vstd::prelude::*;
use crate::display::Message;

verus! {

/// One command the controller asks the executor to perform.
#[derive(Debug, Clone, Copy, PartialEq, Eq, Structural)]
pub enum LifecycleAction {
    ValidateMounts,
    ValidateNetwork,
    CreateNetwork,
    StartBroker,
    ValidateBroker,
    StartStore,
    ValidateStore,
}

/// Why a bring-up stopped.
#[derive(Debug, Clone, Copy, PartialEq, Eq, Structural)]
pub enum LifecycleError {
    MountsMissing,
    NetworkCreateFailed,
    NetworkStillAbsent,
    BrokerStartFailed,
    BrokerNotRunning,
    StoreStartFailed,
    StoreNotRunning,
}

/// Where the bring-up stands.
#[derive(Debug, Clone, Copy, PartialEq, Eq, Structural)]
pub enum LifecycleState {
    CheckMounts,
    CheckNetwork,
    RepairNetwork,
    RecheckNetwork,
    BrokerStart,
    BrokerCheck,
    StoreStart,
    StoreCheck,
    Ready,
    Failed(LifecycleError),
}

/// The bring-up is over: serving may begin, or the failure is being reported.
pub open spec fn is_terminal(s: LifecycleState) -> bool {
    s is Ready || s is Failed
}

/// The command an active state performs.
pub open spec fn action_of(s: LifecycleState) -> LifecycleAction
    recommends
        !is_terminal(s),
{
    match s {
        LifecycleState::CheckMounts => LifecycleAction::ValidateMounts,
        LifecycleState::CheckNetwork => LifecycleAction::ValidateNetwork,
        LifecycleState::RepairNetwork => LifecycleAction::CreateNetwork,
        LifecycleState::RecheckNetwork => LifecycleAction::ValidateNetwork,
        LifecycleState::BrokerStart => LifecycleAction::StartBroker,
        LifecycleState::BrokerCheck => LifecycleAction::ValidateBroker,
        LifecycleState::StoreStart => LifecycleAction::StartStore,
        LifecycleState::StoreCheck => LifecycleAction::ValidateStore,
        LifecycleState::Ready => LifecycleAction::ValidateMounts,
        LifecycleState::Failed(_) => LifecycleAction::ValidateMounts,
    }
}

/// The transition relation: where the controller stands after its current
/// action reports `ok` or not. Terminal states absorb.
pub open spec fn spec_step(s: LifecycleState, ok: bool) -> LifecycleState {
    match s {
        LifecycleState::CheckMounts => if ok {
            LifecycleState::CheckNetwork
        } else {
            LifecycleState::Failed(LifecycleError::MountsMissing)
        },
        LifecycleState::CheckNetwork => if ok {
            LifecycleState::BrokerStart
        } else {
            LifecycleState::RepairNetwork
        },
        LifecycleState::RepairNetwork => if ok {
            LifecycleState::RecheckNetwork
        } else {
            LifecycleState::Failed(LifecycleError::NetworkCreateFailed)
        },
        LifecycleState::RecheckNetwork => if ok {
            LifecycleState::BrokerStart
        } else {
            LifecycleState::Failed(LifecycleError::NetworkStillAbsent)
        },
        LifecycleState::BrokerStart => if ok {
            LifecycleState::BrokerCheck
        } else {
            LifecycleState::Failed(LifecycleError::BrokerStartFailed)
        },
        LifecycleState::BrokerCheck => if ok {
            LifecycleState::StoreStart
        } else {
            LifecycleState::Failed(LifecycleError::BrokerNotRunning)
        },
        LifecycleState::StoreStart => if ok {
            LifecycleState::StoreCheck
        } else {
            LifecycleState::Failed(LifecycleError::StoreStartFailed)
        },
        LifecycleState::StoreCheck => if ok {
            LifecycleState::Ready
        } else {
            LifecycleState::Failed(LifecycleError::StoreNotRunning)
        },
        LifecycleState::Ready => LifecycleState::Ready,
        LifecycleState::Failed(e) => LifecycleState::Failed(e),
    }
}

/// The state a run of outcomes leads to; the run stops at the first terminal
/// state, whatever outcomes remain.
pub open spec fn run_state(s: LifecycleState, events: Seq<bool>) -> LifecycleState
    decreases events.len(),
{
    if is_terminal(s) || events.len() == 0 {
        s
    } else {
        run_state(spec_step(s, events[0]), events.drop_first())
    }
}

/// The commands a run of outcomes performs, in order.
pub open spec fn run_actions(s: LifecycleState, events: Seq<bool>) -> Seq<LifecycleAction>
    decreases events.len(),
{
    if is_terminal(s) || events.len() == 0 {
        Seq::<LifecycleAction>::empty()
    } else {
        seq![action_of(s)] + run_actions(spec_step(s, events[0]), events.drop_first())
    }
}

/// How often `a` occurs in `s`.
pub open spec fn count_action(s: Seq<LifecycleAction>, a: LifecycleAction) -> nat
    decreases s.len(),
{
    if s.len() == 0 {
        0
    } else {
        count_action(s.drop_first(), a) + (if s[0] == a {
            1nat
        } else {
            0nat
        })
    }
}

pub proof fn lemma_count_cons(x: LifecycleAction, t: Seq<LifecycleAction>, a: LifecycleAction)
    ensures
        count_action(seq![x] + t, a) == count_action(t, a) + (if x == a {
            1nat
        } else {
            0nat
        }),
{
    assert((seq![x] + t).drop_first() =~= t);
    assert((seq![x] + t)[0] == x);
}

/// How many network creations a run from `s` may still perform.
pub open spec fn creates_allowed(s: LifecycleState) -> nat {
    match s {
        LifecycleState::CheckMounts => 1,
        LifecycleState::CheckNetwork => 1,
        LifecycleState::RepairNetwork => 1,
        _ => 0,
    }
}

/// Whatever the outcomes, a run never creates the network more than its
/// state allows — from the start, at most once.
pub proof fn lemma_creates_bounded(s: LifecycleState, events: Seq<bool>)
    ensures
        count_action(run_actions(s, events), LifecycleAction::CreateNetwork) <= creates_allowed(s),
    decreases events.len(),
{
    if !is_terminal(s) && events.len() > 0 {
        let next = spec_step(s, events[0]);
        lemma_creates_bounded(next, events.drop_first());
        lemma_count_cons(
            action_of(s),
            run_actions(next, events.drop_first()),
            LifecycleAction::CreateNetwork,
        );
    }
}

/// After the network stage, a run performs no mount or network action at all.
pub proof fn lemma_no_network_actions_after(s: LifecycleState, events: Seq<bool>)
    requires
        s is BrokerStart || s is BrokerCheck || s is StoreStart || s is StoreCheck || s is Ready
            || s is Failed,
    ensures
        count_action(run_actions(s, events), LifecycleAction::CreateNetwork) == 0,
        count_action(run_actions(s, events), LifecycleAction::ValidateNetwork) == 0,
        count_action(run_actions(s, events), LifecycleAction::ValidateMounts) == 0,
    decreases events.len(),
{
    if !is_terminal(s) && events.len() > 0 {
        let next = spec_step(s, events[0]);
        lemma_no_network_actions_after(next, events.drop_first());
        lemma_count_cons(
            action_of(s),
            run_actions(next, events.drop_first()),
            LifecycleAction::CreateNetwork,
        );
        lemma_count_cons(
            action_of(s),
            run_actions(next, events.drop_first()),
            LifecycleAction::ValidateNetwork,
        );
        lemma_count_cons(
            action_of(s),
            run_actions(next, events.drop_first()),
            LifecycleAction::ValidateMounts,
        );
    }
}

/// A network present on the first check is never created: with the mounts in
/// place and the first network validation succeeding, no run performs a
/// network creation.
pub proof fn lemma_network_present_no_create(events: Seq<bool>)
    requires
        events.len() >= 2,
        events[0],
        events[1],
    ensures
        count_action(
            run_actions(LifecycleState::CheckMounts, events),
            LifecycleAction::CreateNetwork,
        ) == 0,
{
    let e1 = events.drop_first();
    let e2 = e1.drop_first();
    assert(e1[0] == events[1]);
    lemma_no_network_actions_after(LifecycleState::BrokerStart, e2);
    lemma_count_cons(
        LifecycleAction::ValidateNetwork,
        run_actions(LifecycleState::BrokerStart, e2),
        LifecycleAction::CreateNetwork,
    );
    lemma_count_cons(
        LifecycleAction::ValidateMounts,
        run_actions(LifecycleState::CheckNetwork, e1),
        LifecycleAction::CreateNetwork,
    );
}

/// A network absent on the first check is created exactly once and, when the
/// creation succeeds, re-validated exactly once: the network is validated
/// twice in the whole run, and never created again.
pub proof fn lemma_network_absent_one_create(events: Seq<bool>)
    requires
        events.len() >= 3,
        events[0],
        !events[1],
    ensures
        count_action(
            run_actions(LifecycleState::CheckMounts, events),
            LifecycleAction::CreateNetwork,
        ) == 1,
        events.len() >= 4 && events[2] ==> count_action(
            run_actions(LifecycleState::CheckMounts, events),
            LifecycleAction::ValidateNetwork,
        ) == 2,
{
    let e1 = events.drop_first();
    let e2 = e1.drop_first();
    let e3 = e2.drop_first();
    assert(e1[0] == events[1]);
    assert(e2[0] == events[2]);
    if events[2] {
        // the creation succeeded: the run re-validates, then leaves the
        // network stage for good
        let e4 = e3.drop_first();
        if events.len() >= 4 {
            assert(e3[0] == events[3]);
            let after = spec_step(LifecycleState::RecheckNetwork, events[3]);
            lemma_no_network_actions_after(after, e4);
            lemma_count_cons(
                LifecycleAction::ValidateNetwork,
                run_actions(after, e4),
                LifecycleAction::CreateNetwork,
            );
            lemma_count_cons(
                LifecycleAction::ValidateNetwork,
                run_actions(after, e4),
                LifecycleAction::ValidateNetwork,
            );
        }
        lemma_count_cons(
            LifecycleAction::CreateNetwork,
            run_actions(LifecycleState::RecheckNetwork, e3),
            LifecycleAction::CreateNetwork,
        );
        lemma_count_cons(
            LifecycleAction::CreateNetwork,
            run_actions(LifecycleState::RecheckNetwork, e3),
            LifecycleAction::ValidateNetwork,
        );
    } else {
        // the creation failed: the run is over
        lemma_count_cons(
            LifecycleAction::CreateNetwork,
            run_actions(LifecycleState::Failed(LifecycleError::NetworkCreateFailed), e3),
            LifecycleAction::CreateNetwork,
        );
    }
    lemma_count_cons(
        LifecycleAction::ValidateNetwork,
        run_actions(LifecycleState::RepairNetwork, e2),
        LifecycleAction::CreateNetwork,
    );
    lemma_count_cons(
        LifecycleAction::ValidateNetwork,
        run_actions(LifecycleState::RepairNetwork, e2),
        LifecycleAction::ValidateNetwork,
    );
    lemma_count_cons(
        LifecycleAction::ValidateMounts,
        run_actions(LifecycleState::CheckNetwork, e1),
        LifecycleAction::CreateNetwork,
    );
    lemma_count_cons(
        LifecycleAction::ValidateMounts,
        run_actions(LifecycleState::CheckNetwork, e1),
        LifecycleAction::ValidateNetwork,
    );
}

/// Fail-fast, in general: once a step has failed, the controller performs no
/// further command, whatever outcomes are still offered to it.
pub proof fn lemma_failed_absorbing(e: LifecycleError, events: Seq<bool>)
    ensures
        run_actions(LifecycleState::Failed(e), events) == Seq::<LifecycleAction>::empty(),
        run_state(LifecycleState::Failed(e), events) == LifecycleState::Failed(e),
{
}

/// From the store stage onward, a run only ever ends in the store stage:
/// running, ready, or failed on the store itself.
pub proof fn lemma_store_stage_outcomes(s: LifecycleState, events: Seq<bool>)
    requires
        s is StoreStart || s is StoreCheck || s is Ready || (s matches LifecycleState::Failed(e)
            && (e is StoreStartFailed || e is StoreNotRunning)),
    ensures
        run_state(s, events) is StoreStart || run_state(s, events) is StoreCheck || run_state(
            s,
            events,
        ) is Ready || (run_state(s, events) matches LifecycleState::Failed(e) && (
        e is StoreStartFailed || e is StoreNotRunning)),
    decreases events.len(),
{
    if !is_terminal(s) && events.len() > 0 {
        lemma_store_stage_outcomes(spec_step(s, events[0]), events.drop_first());
    }
}

/// Fail-fast: a run that ends on a broker failure never starts the analytics
/// store — after a failing step, no further step is performed.
pub proof fn lemma_fail_fast_broker(s: LifecycleState, events: Seq<bool>)
    ensures
        (run_state(s, events) matches LifecycleState::Failed(e) && (e is BrokerStartFailed
            || e is BrokerNotRunning)) ==> count_action(
            run_actions(s, events),
            LifecycleAction::StartStore,
        ) == 0,
    decreases events.len(),
{
    if !is_terminal(s) && events.len() > 0 {
        let next = spec_step(s, events[0]);
        lemma_fail_fast_broker(next, events.drop_first());
        if s is StoreStart {
            lemma_store_stage_outcomes(s, events);
        } else {
            lemma_count_cons(
                action_of(s),
                run_actions(next, events.drop_first()),
                LifecycleAction::StartStore,
            );
        }
    }
}

/// The state the bring-up begins in.
pub fn initial_state() -> (s: LifecycleState)
    ensures
        s == LifecycleState::CheckMounts,
{
    LifecycleState::CheckMounts
}

/// Whether the bring-up is over.
pub fn is_done(s: &LifecycleState) -> (b: bool)
    ensures
        b == is_terminal(*s),
{
    match s {
        LifecycleState::Ready => true,
        LifecycleState::Failed(_) => true,
        _ => false,
    }
}

/// The command to perform in an active state.
pub fn current_action(s: &LifecycleState) -> (a: LifecycleAction)
    requires
        !is_terminal(*s),
    ensures
        a == action_of(*s),
{
    match s {
        LifecycleState::CheckMounts => LifecycleAction::ValidateMounts,
        LifecycleState::CheckNetwork => LifecycleAction::ValidateNetwork,
        LifecycleState::RepairNetwork => LifecycleAction::CreateNetwork,
        LifecycleState::RecheckNetwork => LifecycleAction::ValidateNetwork,
        LifecycleState::BrokerStart => LifecycleAction::StartBroker,
        LifecycleState::BrokerCheck => LifecycleAction::ValidateBroker,
        LifecycleState::StoreStart => LifecycleAction::StartStore,
        LifecycleState::StoreCheck => LifecycleAction::ValidateStore,
        LifecycleState::Ready => LifecycleAction::ValidateMounts,
        LifecycleState::Failed(_) => LifecycleAction::ValidateMounts,
    }
}

/// The command to perform, or nothing once the bring-up is over.
pub fn pending_action(s: &LifecycleState) -> (a: Option<LifecycleAction>)
    ensures
        is_terminal(*s) ==> a is None,
        !is_terminal(*s) ==> a == Some(action_of(*s)),
{
    if is_done(s) {
        None
    } else {
        Some(current_action(s))
    }
}

/// Advances the controller by the outcome of its current action.
pub fn lifecycle_step(s: LifecycleState, ok: bool) -> (t: LifecycleState)
    ensures
        t == spec_step(s, ok),
{
    match s {
        LifecycleState::CheckMounts => if ok {
            LifecycleState::CheckNetwork
        } else {
            LifecycleState::Failed(LifecycleError::MountsMissing)
        },
        LifecycleState::CheckNetwork => if ok {
            LifecycleState::BrokerStart
        } else {
            LifecycleState::RepairNetwork
        },
        LifecycleState::RepairNetwork => if ok {
            LifecycleState::RecheckNetwork
        } else {
            LifecycleState::Failed(LifecycleError::NetworkCreateFailed)
        },
        LifecycleState::RecheckNetwork => if ok {
            LifecycleState::BrokerStart
        } else {
            LifecycleState::Failed(LifecycleError::NetworkStillAbsent)
        },
        LifecycleState::BrokerStart => if ok {
            LifecycleState::BrokerCheck
        } else {
            LifecycleState::Failed(LifecycleError::BrokerStartFailed)
        },
        LifecycleState::BrokerCheck => if ok {
            LifecycleState::StoreStart
        } else {
            LifecycleState::Failed(LifecycleError::BrokerNotRunning)
        },
        LifecycleState::StoreStart => if ok {
            LifecycleState::StoreCheck
        } else {
            LifecycleState::Failed(LifecycleError::StoreStartFailed)
        },
        LifecycleState::StoreCheck => if ok {
            LifecycleState::Ready
        } else {
            LifecycleState::Failed(LifecycleError::StoreNotRunning)
        },
        LifecycleState::Ready => LifecycleState::Ready,
        LifecycleState::Failed(e) => LifecycleState::Failed(e),
    }
}

/// Replays a sequence of outcomes against the controller from the start,
/// returning the commands performed and the state reached. The serving
/// process instead feeds outcomes in one at a time through
/// [`lifecycle_step`]; this entry point makes whole runs a plain value.
pub fn run_lifecycle(events: &Vec<bool>) -> (r: (Vec<LifecycleAction>, LifecycleState))
    ensures
        r.0@ == run_actions(LifecycleState::CheckMounts, events@),
        r.1 == run_state(LifecycleState::CheckMounts, events@),
{
    let n = events.len();
    let mut state = LifecycleState::CheckMounts;
    let mut actions: Vec<LifecycleAction> = Vec::new();
    let mut i: usize = 0;
    proof {
        assert(events@.subrange(0, n as int) =~= events@);
    }
    while i < n
        invariant
            n == events@.len(),
            i <= n,
            run_actions(LifecycleState::CheckMounts, events@) == actions@ + run_actions(
                state,
                events@.subrange(i as int, n as int),
            ),
            run_state(LifecycleState::CheckMounts, events@) == run_state(
                state,
                events@.subrange(i as int, n as int),
            ),
        decreases n - i,
    {
        let ghost rest = events@.subrange(i as int, n as int);
        proof {
            assert(rest[0] == events@[i as int]);
            assert(rest.drop_first() =~= events@.subrange(i + 1, n as int));
        }
        if !is_done(&state) {
            let a = current_action(&state);
            let ghost old_actions = actions@;
            actions.push(a);
            state = lifecycle_step(state, events[i]);
            proof {
                assert(old_actions + seq![a] + run_actions(state, rest.drop_first())
                    =~= old_actions + (seq![a] + run_actions(state, rest.drop_first())));
                assert(actions@ =~= old_actions + seq![a]);
            }
        }
        i = i + 1;
    }
    proof {
        assert(events@.subrange(n as int, n as int) =~= Seq::<bool>::empty());
        assert(actions@ =~= actions@ + run_actions(
            state,
            events@.subrange(n as int, n as int),
        ));
    }
    (actions, state)
}

/// The message reported when the bring-up completes.
pub fn success_message() -> (m: Message)
    ensures
        m.action@ == "Successfully"@,
        m.details@ == "ran local infrastructure"@,
{
    Message::new("Successfully".to_owned(), "ran local infrastructure".to_owned())
}

/// The detail text reported for each bring-up failure, naming the step that
/// failed.
pub open spec fn failure_details(e: LifecycleError) -> Seq<char> {
    match e {
        LifecycleError::MountsMissing => "to validate mount volumes, run init first"@,
        LifecycleError::NetworkCreateFailed => "to create panda_house docker network"@,
        LifecycleError::NetworkStillAbsent => "to validate panda_house docker network"@,
        LifecycleError::BrokerStartFailed => "to run redpanda container"@,
        LifecycleError::BrokerNotRunning => "to validate red panda docker container"@,
        LifecycleError::StoreStartFailed => "to run clickhouse container"@,
        LifecycleError::StoreNotRunning => "to validate clickhouse docker container"@,
    }
}

/// The action/detail pair reported for each bring-up failure, naming the
/// step that failed.
pub fn failure_message(e: &LifecycleError) -> (m: Message)
    ensures
        m.action@ == "Failed"@,
        m.details@ == failure_details(*e),
{
    let details = match e {
        LifecycleError::MountsMissing => "to validate mount volumes, run init first".to_owned(),
        LifecycleError::NetworkCreateFailed => "to create panda_house docker network".to_owned(),
        LifecycleError::NetworkStillAbsent => "to validate panda_house docker network".to_owned(),
        LifecycleError::BrokerStartFailed => "to run redpanda container".to_owned(),
        LifecycleError::BrokerNotRunning => "to validate red panda docker container".to_owned(),
        LifecycleError::StoreStartFailed => "to run clickhouse container".to_owned(),
        LifecycleError::StoreNotRunning => "to validate clickhouse docker container".to_owned(),
    };
    Message::new("Failed".to_owned(), details)
}

/// What tear-down stops, in order: the broker container, then the
/// analytics-store container.
#[derive(Debug, Clone, Copy, PartialEq, Eq, Structural)]
pub enum TeardownAction {
    StopBroker,
    StopStore,
}

/// The tear-down sequence; failures along it are logged, never retried.
pub fn teardown_actions() -> (a: Vec<TeardownAction>)
    ensures
        a@ == seq![TeardownAction::StopBroker, TeardownAction::StopStore],
{
    let mut a: Vec<TeardownAction> = Vec::new();
    a.push(TeardownAction::StopBroker);
    a.push(TeardownAction::StopStore);
    proof {
        assert(a@ =~= seq![TeardownAction::StopBroker, TeardownAction::StopStore]);
    }
    a
}

/// What a stop reports, as the tear-down logs it.
pub fn stop_message(ok: bool) -> (m: String)
    ensures
        ok ==> m@ == "Stopped docker container"@,
        !ok ==> m@ == "Failed to stop docker container"@,
{
    if ok {
        "Stopped docker container".to_owned()
    } else {
        "Failed to stop docker container".to_owned()
    }
}

} // verus!
