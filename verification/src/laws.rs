//! What holds of every deployment.
//!
//! The statements here speak of [`run`]: a deployment opened on a
//! notification and fed the results of its steps in the order it ordered
//! them. `issued` is the record of what it ordered, so "a step is run" reads
//! "the step stands in `issued`".

use vstd::prelude::*;

use crate::agent::started_agent;
use crate::config::target_directory;
use crate::config::DeployConfigView;
use crate::config::DeployNotificationView;
use crate::error::ErrorView;
use crate::idempotency::already_current;
use crate::idempotency::marker;
use crate::invocation::Step;
use crate::invocation::StepResultView;
use crate::outcome::DeployOutcomeView;
use crate::pipeline::advance_spec;
use crate::pipeline::begin_spec;
use crate::pipeline::consistent;
use crate::pipeline::feed;
use crate::pipeline::lemma_advance_keeps_consistent;
use crate::pipeline::lemma_begin_is_consistent;
use crate::pipeline::pull_verdict;
use crate::pipeline::run;
use crate::pipeline::through_build;
use crate::pipeline::through_release;
use crate::pipeline::through_restart;
use crate::pipeline::DeploymentView;
use crate::pipeline::DirectiveView;
use crate::pipeline::PhaseView;
use crate::search::occurs_at;

verus! {

/// How many times `step` stands in `steps`.
pub open spec fn times(steps: Seq<Step>, step: Step) -> nat
    decreases steps.len(),
{
    if steps.len() == 0 {
        0
    } else {
        times(steps.drop_last(), step) + if steps.last() == step {
            1nat
        } else {
            0nat
        }
    }
}

/// One more step at the end counts once more if it is the step counted.
pub proof fn lemma_times_push(steps: Seq<Step>, last: Step, step: Step)
    ensures
        times(steps.push(last), step) == times(steps, step) + if last == step {
            1nat
        } else {
            0nat
        },
{
    assert(steps.push(last).drop_last() =~= steps);
}

/// The agent's release stands once in every record that reaches it, and in
/// no shorter one.
proof fn lemma_times_released()
    ensures
        times(Seq::<Step>::empty(), Step::ReleaseAgent) == 0,
        times(seq![Step::StartAgent], Step::ReleaseAgent) == 0,
        times(seq![Step::StartAgent, Step::Pull], Step::ReleaseAgent) == 0,
        times(through_release(), Step::ReleaseAgent) == 1,
        times(through_build(), Step::ReleaseAgent) == 1,
        times(through_restart(), Step::ReleaseAgent) == 1,
{
    let none = Seq::<Step>::empty();
    let one = seq![Step::StartAgent];
    let two = seq![Step::StartAgent, Step::Pull];
    assert(one =~= none.push(Step::StartAgent));
    assert(two =~= one.push(Step::Pull));
    assert(through_release() =~= two.push(Step::ReleaseAgent));
    assert(through_build() =~= through_release().push(Step::Build));
    assert(through_restart() =~= through_build().push(Step::Restart));
    lemma_times_push(none, Step::StartAgent, Step::ReleaseAgent);
    lemma_times_push(one, Step::Pull, Step::ReleaseAgent);
    lemma_times_push(two, Step::ReleaseAgent, Step::ReleaseAgent);
    lemma_times_push(through_release(), Step::Build, Step::ReleaseAgent);
    lemma_times_push(through_build(), Step::Restart, Step::ReleaseAgent);
}

/// A deployment records exactly what it orders: a step is added to `issued`
/// when, and only when, a directive to run it is handed out, and the
/// deployment is over exactly when the directive says so.
pub proof fn lemma_orders_are_recorded(state: DeploymentView, result: StepResultView)
    ensures
        match advance_spec(state, result).1 {
            DirectiveView::Run(invocation) => {
                &&& advance_spec(state, result).0.issued == state.issued.push(invocation.step)
                &&& !(advance_spec(state, result).0.phase is Finished)
            },
            DirectiveView::Done(outcome) => {
                &&& advance_spec(state, result).0.issued == state.issued
                &&& advance_spec(state, result).0.phase == (PhaseView::Finished { outcome })
            },
        },
        advance_spec(state, result).0.directory == state.directory,
        advance_spec(state, result).0.service == state.service,
{
}

/// A deployment that is over stays as it is, whatever is fed to it.
pub proof fn lemma_finished_stays(state: DeploymentView, results: Seq<StepResultView>)
    requires
        state.phase is Finished,
    ensures
        feed(state, results) == state,
    decreases results.len(),
{
    if results.len() > 0 {
        lemma_finished_stays(state, results.drop_first());
    }
}

/// Every deployment is consistent at every moment: its steps are ordered in
/// the one order start agent, pull, release agent, build, restart, each at
/// most once and none before the one before it.
pub proof fn lemma_run_is_consistent(
    config: DeployConfigView,
    notification: DeployNotificationView,
    results: Seq<StepResultView>,
)
    ensures
        consistent(run(config, notification, results)),
{
    lemma_begin_is_consistent(config, notification);
    lemma_feed_keeps_consistent(begin_spec(config, notification).0, results);
}

/// Feeding results to a consistent deployment leaves it consistent.
pub proof fn lemma_feed_keeps_consistent(state: DeploymentView, results: Seq<StepResultView>)
    requires
        consistent(state),
    ensures
        consistent(feed(state, results)),
    decreases results.len(),
{
    if results.len() > 0 {
        lemma_advance_keeps_consistent(state, results.first());
        lemma_feed_keeps_consistent(advance_spec(state, results.first()).0, results.drop_first());
    }
}

/// A deployment works in one place from beginning to end: the directory
/// that belongs to the configured repository, and the configured service.
pub proof fn lemma_run_keeps_its_target(
    config: DeployConfigView,
    notification: DeployNotificationView,
    results: Seq<StepResultView>,
)
    ensures
        run(config, notification, results).directory == target_directory(config.repository_name),
        run(config, notification, results).service == config.service_name,
{
    lemma_feed_keeps_its_target(begin_spec(config, notification).0, results);
}

/// Feeding results changes neither the directory nor the service.
proof fn lemma_feed_keeps_its_target(state: DeploymentView, results: Seq<StepResultView>)
    ensures
        feed(state, results).directory == state.directory,
        feed(state, results).service == state.service,
    decreases results.len(),
{
    if results.len() > 0 {
        lemma_feed_keeps_its_target(advance_spec(state, results.first()).0, results.drop_first());
    }
}

/// How many results a deployment in `phase` still waits for, at most.
pub open spec fn results_awaited(phase: PhaseView) -> nat {
    match phase {
        PhaseView::StartingAgent => 5,
        PhaseView::Pulling { .. } => 4,
        PhaseView::ReleasingAgent { .. } => 3,
        PhaseView::Building => 2,
        PhaseView::Restarting => 1,
        PhaseView::Finished { .. } => 0,
    }
}

/// A deployment is over once it has had as many results as it waits for.
pub proof fn lemma_feed_finishes(state: DeploymentView, results: Seq<StepResultView>)
    requires
        results.len() >= results_awaited(state.phase),
    ensures
        feed(state, results).phase is Finished,
    decreases results.len(),
{
    if state.phase is Finished {
        lemma_finished_stays(state, results);
    } else {
        lemma_feed_finishes(advance_spec(state, results.first()).0, results.drop_first());
    }
}

/// Every deployment is over after five results at the latest, and none
/// orders more than five steps.
pub proof fn lemma_five_results_finish(
    config: DeployConfigView,
    notification: DeployNotificationView,
    results: Seq<StepResultView>,
)
    ensures
        results.len() >= 5 ==> run(config, notification, results).phase is Finished,
        run(config, notification, results).issued.len() <= 5,
{
    lemma_run_is_consistent(config, notification, results);
    if results.len() >= 5 {
        lemma_feed_finishes(begin_spec(config, notification).0, results);
    }
}

/// A notification for another repository is rejected before anything is
/// ordered: the deployment is over at once with `WrongRepository` and the
/// rejected name, and no step is ever run.
pub proof fn lemma_wrong_repository_runs_nothing(
    config: DeployConfigView,
    notification: DeployNotificationView,
    results: Seq<StepResultView>,
)
    requires
        notification.repository_name != config.repository_name,
    ensures
        begin_spec(config, notification).1 == DirectiveView::Done(
            DeployOutcomeView::Failed(ErrorView::WrongRepository(notification.repository_name)),
        ),
        run(config, notification, results).phase == (PhaseView::Finished {
            outcome: DeployOutcomeView::Failed(
                ErrorView::WrongRepository(notification.repository_name),
            ),
        }),
        run(config, notification, results).issued == Seq::<Step>::empty(),
{
    lemma_finished_stays(begin_spec(config, notification).0, results);
}

/// The marker makes a text "already current" wherever it stands in it.
pub proof fn lemma_marker_anywhere(before: Seq<char>, after: Seq<char>)
    ensures
        already_current(before + marker() + after),
{
    let text = before + marker() + after;
    let at: int = before.len() as int;
    assert(text.subrange(at, at + marker().len()) =~= marker());
    assert(occurs_at(text, marker(), at));
}

/// Where the agent does not start, the deployment ends with
/// `AgentStartFailed` and nothing else is run: no pull, no build, no
/// restart, and no release either.
pub proof fn lemma_failed_start_runs_nothing_more(
    config: DeployConfigView,
    notification: DeployNotificationView,
    results: Seq<StepResultView>,
)
    requires
        notification.repository_name == config.repository_name,
        results.len() >= 1,
        started_agent(results[0]) is None,
    ensures
        run(config, notification, results).phase == (PhaseView::Finished {
            outcome: DeployOutcomeView::Failed(ErrorView::AgentStartFailed),
        }),
        run(config, notification, results).issued == seq![Step::StartAgent],
{
    let opened = begin_spec(config, notification).0;
    let ended = advance_spec(opened, results[0]).0;
    assert(ended.issued =~= seq![Step::StartAgent]);
    lemma_finished_stays(ended, results.drop_first());
}

/// The state of a deployment whose agent started, after the pull and the
/// release that follows it: the agent's release has been ordered, whatever
/// the pull gave, and its result does not matter.
proof fn lemma_after_release(
    config: DeployConfigView,
    notification: DeployNotificationView,
    results: Seq<StepResultView>,
)
    requires
        notification.repository_name == config.repository_name,
        results.len() >= 3,
        started_agent(results[0]) is Some,
    ensures
        run(config, notification, results) == feed(
            advance_spec(
                DeploymentView {
                    phase: PhaseView::ReleasingAgent { pull: pull_verdict(results[1]) },
                    issued: through_release(),
                    ..begin_spec(config, notification).0
                },
                results[2],
            ).0,
            results.subrange(3, results.len() as int),
        ),
{
    let opened = begin_spec(config, notification).0;
    let pulling = advance_spec(opened, results[0]).0;
    let releasing = advance_spec(pulling, results[1]).0;
    let first = results.drop_first();
    let second = first.drop_first();
    assert(first.first() == results[1]);
    assert(second.first() == results[2]);
    assert(second.drop_first() =~= results.subrange(3, results.len() as int));
    assert(releasing.issued =~= through_release());
    assert(feed(opened, results) == feed(pulling, first));
    assert(feed(pulling, first) == feed(releasing, second));
    assert(feed(releasing, second) == feed(
        advance_spec(releasing, results[2]).0,
        second.drop_first(),
    ));
}

/// A pull that succeeds and whose output holds the marker ends the
/// deployment as `Skipped`, once the agent has been released; neither build
/// nor restart is run.
pub proof fn lemma_current_pull_is_skipped(
    config: DeployConfigView,
    notification: DeployNotificationView,
    results: Seq<StepResultView>,
)
    requires
        notification.repository_name == config.repository_name,
        results.len() >= 3,
        started_agent(results[0]) is Some,
        results[1].status is Success,
        already_current(results[1].output),
    ensures
        run(config, notification, results).phase == (PhaseView::Finished {
            outcome: DeployOutcomeView::Skipped,
        }),
        run(config, notification, results).issued == through_release(),
        !run(config, notification, results).issued.contains(Step::Build),
        !run(config, notification, results).issued.contains(Step::Restart),
{
    lemma_after_release(config, notification, results);
    let releasing = DeploymentView {
        phase: PhaseView::ReleasingAgent { pull: pull_verdict(results[1]) },
        issued: through_release(),
        ..begin_spec(config, notification).0
    };
    lemma_finished_stays(
        advance_spec(releasing, results[2]).0,
        results.subrange(3, results.len() as int),
    );
}

/// A pull that succeeds and whose output does not hold the marker is
/// followed by the build, after the agent's release; a build that succeeds
/// is followed by the restart. Pull, build and restart are run in that
/// order.
pub proof fn lemma_changed_pull_builds_then_restarts(
    config: DeployConfigView,
    notification: DeployNotificationView,
    results: Seq<StepResultView>,
)
    requires
        notification.repository_name == config.repository_name,
        results.len() >= 4,
        started_agent(results[0]) is Some,
        results[1].status is Success,
        !already_current(results[1].output),
    ensures
        run(config, notification, results).issued.subrange(0, 4) == through_build(),
        results[3].status is Success ==> run(config, notification, results).issued
            == through_restart(),
        !(results[3].status is Success) ==> run(config, notification, results).issued
            == through_build(),
{
    lemma_after_release(config, notification, results);
    let releasing = DeploymentView {
        phase: PhaseView::ReleasingAgent { pull: pull_verdict(results[1]) },
        issued: through_release(),
        ..begin_spec(config, notification).0
    };
    let building = advance_spec(releasing, results[2]).0;
    assert(building.issued =~= through_build());
    let rest = results.subrange(3, results.len() as int);
    assert(rest.first() == results[3]);
    let built = advance_spec(building, results[3]).0;
    if results[3].status is Success {
        assert(built.issued =~= through_restart());
        lemma_feed_from_restarting(built, rest.drop_first());
    } else {
        lemma_finished_stays(built, rest.drop_first());
    }
    assert(through_restart().subrange(0, 4) =~= through_build());
    assert(through_build().subrange(0, 4) =~= through_build());
}

/// Once the restart has been ordered nothing more is.
proof fn lemma_feed_from_restarting(state: DeploymentView, results: Seq<StepResultView>)
    requires
        state.phase is Restarting,
    ensures
        feed(state, results).issued == state.issued,
{
    if results.len() > 0 {
        lemma_finished_stays(advance_spec(state, results.first()).0, results.drop_first());
    }
}

/// A deployment that is over has released the agent exactly once if the
/// agent started, however the steps after the start ended, and has not
/// ordered a release at all if the agent never started.
pub proof fn lemma_agent_released_exactly_once(
    config: DeployConfigView,
    notification: DeployNotificationView,
    results: Seq<StepResultView>,
)
    requires
        run(config, notification, results).phase is Finished,
    ensures
        times(run(config, notification, results).issued, Step::ReleaseAgent) == if
            notification.repository_name == config.repository_name && results.len() >= 1
            && started_agent(results[0]) is Some {
            1nat
        } else {
            0nat
        },
{
    let ended = run(config, notification, results);
    lemma_run_is_consistent(config, notification, results);
    lemma_times_released();
    if notification.repository_name != config.repository_name {
        lemma_wrong_repository_runs_nothing(config, notification, results);
    } else if results.len() == 0 {
    } else if started_agent(results[0]) is None {
        lemma_failed_start_runs_nothing_more(config, notification, results);
    } else {
        let opened = begin_spec(config, notification).0;
        let pulling = advance_spec(opened, results[0]).0;
        lemma_orders_grow(pulling, results.drop_first());
        assert(pulling.issued =~= seq![Step::StartAgent, Step::Pull]);
        assert(ended.issued.len() >= 2);
    }
}

/// At no moment of a deployment has the agent's release been ordered more
/// than once, and at no moment before the pull has been ordered.
pub proof fn lemma_agent_released_at_most_once(
    config: DeployConfigView,
    notification: DeployNotificationView,
    results: Seq<StepResultView>,
)
    ensures
        times(run(config, notification, results).issued, Step::ReleaseAgent) <= 1,
        run(config, notification, results).issued.contains(Step::ReleaseAgent) ==> run(
            config,
            notification,
            results,
        ).issued.subrange(0, 3) == through_release(),
{
    lemma_run_is_consistent(config, notification, results);
    lemma_times_released();
    assert(through_release().subrange(0, 3) =~= through_release());
    assert(through_build().subrange(0, 3) =~= through_release());
    assert(through_restart().subrange(0, 3) =~= through_release());
}

/// Feeding results never takes a step off the record.
proof fn lemma_orders_grow(state: DeploymentView, results: Seq<StepResultView>)
    ensures
        feed(state, results).issued.len() >= state.issued.len(),
    decreases results.len(),
{
    if results.len() > 0 {
        lemma_orders_are_recorded(state, results.first());
        lemma_orders_grow(advance_spec(state, results.first()).0, results.drop_first());
    }
}

} // verus!
