//! What the workflow does as a whole: the commands it asks for, in order,
//! and how it ends, as a function of the outcomes of those commands.

use crate::report::{default_host, default_toolchain, matching_line, named_override, override_marker};
use crate::sync::{
    complete_name, first_step, lossy_utf8, report_text, stage_command, status_command,
    step_result, upgrade_step, wasm_target, OutcomeView, ProgressView, StageView,
};
use crate::text::{contains, occurs_at};
use vstd::prelude::*;

verus! {

/// A run of the workflow: the commands asked for so far, each by its
/// arguments, and the result once the workflow has ended.
pub struct Trace {
    pub commands: Seq<Seq<Seq<char>>>,
    pub result: Option<Result<(), Seq<char>>>,
}

/// The run from `stage` on, where the k-th command asked for has the outcome
/// `outcomes[k]`. The run stops at the end of the workflow, or waits on a
/// command where the outcomes run out first.
pub open spec fn upgrade_trace(pinned: Seq<char>, stage: StageView, outcomes: Seq<OutcomeView>) -> Trace
    decreases outcomes.len(),
{
    if outcomes.len() == 0 {
        Trace { commands: seq![stage_command(stage)], result: None }
    } else {
        match upgrade_step(pinned, stage, outcomes[0]) {
            ProgressView::Done(result) => Trace {
                commands: seq![stage_command(stage)],
                result: Some(result),
            },
            ProgressView::Run(next) => {
                let rest = upgrade_trace(pinned, next, outcomes.drop_first());
                Trace {
                    commands: seq![stage_command(stage)] + rest.commands,
                    result: rest.result,
                }
            },
        }
    }
}

/// The run of the whole workflow for the pinned name, where the k-th command
/// asked for has the outcome `outcomes[k]`.
pub open spec fn workflow_trace(pinned: Seq<char>, outcomes: Seq<OutcomeView>) -> Trace {
    if outcomes.len() == 0 {
        Trace { commands: seq![status_command()], result: None }
    } else {
        match first_step(pinned, outcomes[0]) {
            ProgressView::Done(result) => Trace {
                commands: seq![status_command()],
                result: Some(result),
            },
            ProgressView::Run(next) => {
                let rest = upgrade_trace(pinned, next, outcomes.drop_first());
                Trace { commands: seq![status_command()] + rest.commands, result: rest.result }
            },
        }
    }
}

/// `n` status queries in a row.
pub open spec fn status_queries(n: int) -> Seq<Seq<Seq<char>>> {
    Seq::new(n as nat, |k: int| status_command())
}

/// How many status queries it takes to learn the toolchain in effect: two
/// where the first report can be read and has no override line, else one.
pub open spec fn queries_for_active(outcomes: Seq<OutcomeView>) -> int {
    if outcomes.len() >= 1 && report_text(outcomes[0]) is Ok && matching_line(
        report_text(outcomes[0])->Ok_0,
        override_marker(),
    ) is None {
        2
    } else {
        1
    }
}

/// The toolchain in effect, as the first status queries tell it: the
/// directory override that the first report names or, where that report has
/// no override line, the default toolchain that the second report names.
pub open spec fn active_toolchain(outcomes: Seq<OutcomeView>) -> Result<Seq<char>, Seq<char>>
    recommends
        outcomes.len() >= queries_for_active(outcomes),
{
    match report_text(outcomes[0]) {
        Err(e) => Err(e),
        Ok(first) => match matching_line(first, override_marker()) {
            Some(line) => named_override(line),
            None => match report_text(outcomes[1]) {
                Err(e) => Err(e),
                Ok(second) => default_toolchain(second),
            },
        },
    }
}

/// The default host according to the outcome of a status query.
pub open spec fn reported_host(outcome: OutcomeView) -> Result<Seq<char>, Seq<char>> {
    match report_text(outcome) {
        Err(e) => Err(e),
        Ok(report) => default_host(report),
    }
}

/// The three commands of an upgrade to `toolchain`: install it, add the
/// target, set the override.
pub open spec fn upgrade_commands(toolchain: Seq<char>) -> Seq<Seq<Seq<char>>> {
    seq![
        seq!["toolchain"@, "install"@, toolchain],
        seq!["target"@, "add"@, wasm_target()],
        seq!["override"@, "set"@, toolchain],
    ]
}

/// The run of an upgrade whose host query, the first of `outcomes`, names a
/// host: after that query the three upgrade commands in order, each only
/// where the one before it succeeded, and the result of the first that
/// failed, or that of the last.
pub open spec fn upgrade_in_order(pinned: Seq<char>, outcomes: Seq<OutcomeView>) -> Trace
    recommends
        outcomes.len() >= 4,
        reported_host(outcomes[0]) is Ok,
{
    let toolchain = complete_name(pinned, reported_host(outcomes[0])->Ok_0);
    let install = step_result(outcomes[1]);
    let target = step_result(outcomes[2]);
    let set = step_result(outcomes[3]);
    if install is Err {
        Trace {
            commands: seq![status_command()] + upgrade_commands(toolchain).take(1),
            result: Some(install),
        }
    } else if target is Err {
        Trace {
            commands: seq![status_command()] + upgrade_commands(toolchain).take(2),
            result: Some(target),
        }
    } else {
        Trace { commands: seq![status_command()] + upgrade_commands(toolchain), result: Some(set) }
    }
}

/// Where the toolchain in effect contains the pinned name, the workflow ends
/// with success after the status queries that it took to learn it, and asks
/// for no other command.
pub proof fn lemma_current_toolchain_runs_nothing(pinned: Seq<char>, outcomes: Seq<OutcomeView>)
    requires
        outcomes.len() >= queries_for_active(outcomes),
        active_toolchain(outcomes) is Ok,
        contains(active_toolchain(outcomes)->Ok_0, pinned),
    ensures
        workflow_trace(pinned, outcomes).commands == status_queries(queries_for_active(outcomes)),
        workflow_trace(pinned, outcomes).result == Some(Ok::<(), Seq<char>>(())),
{
    let trace = workflow_trace(pinned, outcomes);
    let queries = queries_for_active(outcomes);
    if queries == 2 {
        let rest = outcomes.drop_first();
        assert(rest[0] == outcomes[1]);
        let after = upgrade_trace(pinned, StageView::ReadDefault, rest);
        assert(after.commands == seq![status_command()]);
    }
    assert(trace.commands =~= status_queries(queries));
}

/// Where the toolchain in effect does not contain the pinned name, the
/// workflow goes on, after the status queries that it took to learn it,
/// with the upgrade, which begins with the query for the host.
pub proof fn lemma_outdated_toolchain_begins_upgrade(pinned: Seq<char>, outcomes: Seq<OutcomeView>)
    requires
        outcomes.len() >= queries_for_active(outcomes),
        active_toolchain(outcomes) is Ok,
        !contains(active_toolchain(outcomes)->Ok_0, pinned),
    ensures
        ({
            let queries = queries_for_active(outcomes);
            let upgrade = upgrade_trace(pinned, StageView::ReadHost, outcomes.skip(queries));
            &&& workflow_trace(pinned, outcomes).commands == status_queries(queries)
                + upgrade.commands
            &&& workflow_trace(pinned, outcomes).result == upgrade.result
        }),
{
    let trace = workflow_trace(pinned, outcomes);
    let queries = queries_for_active(outcomes);
    let upgrade = upgrade_trace(pinned, StageView::ReadHost, outcomes.skip(queries));
    let rest = outcomes.drop_first();
    if queries == 2 {
        assert(rest[0] == outcomes[1]);
        assert(rest.drop_first() =~= outcomes.skip(2));
        let after = upgrade_trace(pinned, StageView::ReadDefault, rest);
        assert(after.commands == seq![status_command()] + upgrade.commands);
        assert(trace.commands == seq![status_command()] + after.commands);
    } else {
        assert(rest =~= outcomes.skip(1));
    }
    assert(trace.commands =~= status_queries(queries) + upgrade.commands);
}

/// An upgrade whose host query names a host asks for the three upgrade
/// commands in order and stops at the first that fails.
pub proof fn lemma_upgrade_runs_in_order(pinned: Seq<char>, outcomes: Seq<OutcomeView>)
    requires
        outcomes.len() >= 4,
        reported_host(outcomes[0]) is Ok,
    ensures
        upgrade_trace(pinned, StageView::ReadHost, outcomes) == upgrade_in_order(pinned, outcomes),
{
    let toolchain = complete_name(pinned, reported_host(outcomes[0])->Ok_0);
    let o1 = outcomes.drop_first();
    let o2 = o1.drop_first();
    let o3 = o2.drop_first();
    assert(o1[0] == outcomes[1]);
    assert(o2[0] == outcomes[2]);
    assert(o3[0] == outcomes[3]);
    let install = step_result(outcomes[1]);
    let target = step_result(outcomes[2]);
    let t3 = upgrade_trace(pinned, StageView::SetOverride { toolchain }, o3);
    assert(t3.commands == seq![stage_command(StageView::SetOverride { toolchain })]);
    let t2 = upgrade_trace(pinned, StageView::AddTarget { toolchain }, o2);
    let t1 = upgrade_trace(pinned, StageView::Install { toolchain }, o1);
    let t0 = upgrade_trace(pinned, StageView::ReadHost, outcomes);
    assert(t0.commands == seq![status_command()] + t1.commands);
    if install is Err {
        assert(t0.commands =~= upgrade_in_order(pinned, outcomes).commands);
    } else if target is Err {
        assert(t1.commands == seq![stage_command(StageView::Install { toolchain })] + t2.commands);
        assert(t0.commands =~= upgrade_in_order(pinned, outcomes).commands);
    } else {
        assert(t2.commands == seq![stage_command(StageView::AddTarget { toolchain })]
            + t3.commands);
        assert(t1.commands == seq![stage_command(StageView::Install { toolchain })] + t2.commands);
        assert(t0.commands =~= upgrade_in_order(pinned, outcomes).commands);
    }
}

/// Where the toolchain in effect does not contain the pinned name and the
/// host can be read, the workflow asks, after its status queries, for
/// exactly the three upgrade commands in order, and stops at the first that
/// fails.
pub proof fn lemma_outdated_toolchain_runs_upgrade(pinned: Seq<char>, outcomes: Seq<OutcomeView>)
    requires
        outcomes.len() >= queries_for_active(outcomes) + 4,
        active_toolchain(outcomes) is Ok,
        !contains(active_toolchain(outcomes)->Ok_0, pinned),
        reported_host(outcomes[queries_for_active(outcomes)]) is Ok,
    ensures
        ({
            let queries = queries_for_active(outcomes);
            let upgrade = upgrade_in_order(pinned, outcomes.skip(queries));
            &&& workflow_trace(pinned, outcomes).commands == status_queries(queries)
                + upgrade.commands
            &&& workflow_trace(pinned, outcomes).result == upgrade.result
        }),
{
    let queries = queries_for_active(outcomes);
    assert(outcomes.skip(queries)[0] == outcomes[queries]);
    lemma_outdated_toolchain_begins_upgrade(pinned, outcomes);
    lemma_upgrade_runs_in_order(pinned, outcomes.skip(queries));
}

/// Where the install command exits with a failure, the workflow ends there:
/// neither the target nor the override command is asked for, and the message
/// it ends with is what the install command wrote to its standard error, so
/// that it contains that text.
pub proof fn lemma_failed_install_stops(
    pinned: Seq<char>,
    outcomes: Seq<OutcomeView>,
    stdout: Seq<u8>,
    stderr: Seq<u8>,
)
    requires
        outcomes.len() >= queries_for_active(outcomes) + 2,
        active_toolchain(outcomes) is Ok,
        !contains(active_toolchain(outcomes)->Ok_0, pinned),
        reported_host(outcomes[queries_for_active(outcomes)]) is Ok,
        outcomes[queries_for_active(outcomes) + 1] == (OutcomeView::Exited {
            success: false,
            stdout,
            stderr,
        }),
    ensures
        ({
            let queries = queries_for_active(outcomes);
            let toolchain = complete_name(pinned, reported_host(outcomes[queries])->Ok_0);
            let trace = workflow_trace(pinned, outcomes);
            &&& trace.commands == status_queries(queries + 1).push(
                seq!["toolchain"@, "install"@, toolchain],
            )
            &&& trace.result == Some(Err::<(), Seq<char>>(lossy_utf8(stderr)))
            &&& contains(trace.result->Some_0->Err_0, lossy_utf8(stderr))
        }),
{
    let queries = queries_for_active(outcomes);
    let toolchain = complete_name(pinned, reported_host(outcomes[queries])->Ok_0);
    let o0 = outcomes.skip(queries);
    let o1 = o0.drop_first();
    assert(o0[0] == outcomes[queries]);
    assert(o1[0] == outcomes[queries + 1]);
    lemma_outdated_toolchain_begins_upgrade(pinned, outcomes);
    let t1 = upgrade_trace(pinned, StageView::Install { toolchain }, o1);
    let t0 = upgrade_trace(pinned, StageView::ReadHost, o0);
    assert(t0.commands == seq![status_command()] + t1.commands);
    assert(workflow_trace(pinned, outcomes).commands =~= status_queries(queries + 1).push(
        seq!["toolchain"@, "install"@, toolchain],
    ));
    lemma_contains_itself(lossy_utf8(stderr));
}

/// Every text contains itself.
pub proof fn lemma_contains_itself(text: Seq<char>)
    ensures
        contains(text, text),
{
    assert(text.subrange(0, text.len() as int) =~= text);
    assert(occurs_at(text, text, 0));
}

} // verus!
