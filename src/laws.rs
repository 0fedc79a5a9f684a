use vstd::prelude::*;
use crate::config::{BUILD_MODE_CONFIG, DEFAULT_MODE_CONFIG};
use crate::pipeline::{
    action_of, default_write_of, exit_code_of, initial_phase, next_phase, target_of,
    triple_usable, ActionView, Phase, Verdict,
};
use crate::stages::{FRONTEND_TOOL, PACKAGING_TOOL};

verus! {

/// The phases a run passes through from `p` when the pending actions end as
/// `outcomes` says, one outcome per action: `p` first, then one phase for
/// each outcome.
pub open spec fn phases_from(p: Phase, outcomes: Seq<bool>) -> Seq<Phase>
    decreases outcomes.len(),
{
    if outcomes.len() == 0 {
        seq![p]
    } else {
        seq![p] + phases_from(next_phase(p, outcomes[0]), outcomes.subrange(1, outcomes.len() as int))
    }
}

/// The actions handed out by a run for the request `triple`, `root`: the
/// first one, then the one after each outcome.
pub open spec fn run_actions(triple: Option<Seq<char>>, root: Seq<char>, outcomes: Seq<bool>) -> Seq<ActionView> {
    phases_from(initial_phase(triple_usable(triple)), outcomes).map_values(
        |p: Phase| action_of(p, target_of(triple), root),
    )
}

proof fn lemma_phases_len(p: Phase, outcomes: Seq<bool>)
    ensures
        phases_from(p, outcomes).len() == outcomes.len() + 1,
        phases_from(p, outcomes)[0] == p,
    decreases outcomes.len(),
{
    if outcomes.len() > 0 {
        lemma_phases_len(next_phase(p, outcomes[0]), outcomes.subrange(1, outcomes.len() as int));
    }
}

proof fn lemma_phases_shift(p: Phase, outcomes: Seq<bool>, i: int)
    requires
        1 <= i <= outcomes.len(),
    ensures
        phases_from(p, outcomes)[i]
            == phases_from(next_phase(p, outcomes[0]), outcomes.subrange(1, outcomes.len() as int))[i - 1],
{
    lemma_phases_len(next_phase(p, outcomes[0]), outcomes.subrange(1, outcomes.len() as int));
}

proof fn lemma_finished_stays(v: Verdict, outcomes: Seq<bool>)
    ensures
        forall|i: int| 0 <= i <= outcomes.len() ==> phases_from(Phase::Finished(v), outcomes)[i] == Phase::Finished(v),
    decreases outcomes.len(),
{
    lemma_phases_len(Phase::Finished(v), outcomes);
    if outcomes.len() > 0 {
        let rest = outcomes.subrange(1, outcomes.len() as int);
        lemma_finished_stays(v, rest);
        assert forall|i: int| 1 <= i <= outcomes.len() implies phases_from(Phase::Finished(v), outcomes)[i]
            == Phase::Finished(v) by {
            lemma_phases_shift(Phase::Finished(v), outcomes, i);
        }
    }
}

/// Once restoration begins, every later phase is finished with the same verdict.
proof fn lemma_restoring_then_finished(v: Verdict, outcomes: Seq<bool>)
    ensures
        forall|i: int| 1 <= i <= outcomes.len() ==> phases_from(Phase::Restoring(v), outcomes)[i] == Phase::Finished(v),
{
    lemma_phases_len(Phase::Restoring(v), outcomes);
    if outcomes.len() > 0 {
        let rest = outcomes.subrange(1, outcomes.len() as int);
        lemma_finished_stays(v, rest);
        assert forall|i: int| 1 <= i <= outcomes.len() implies phases_from(Phase::Restoring(v), outcomes)[i]
            == Phase::Finished(v) by {
            lemma_phases_shift(Phase::Restoring(v), outcomes, i);
        }
    }
}

/// Every run that starts with a usable triple has this shape: the
/// build-mode write; then, if it succeeded, the frontend stage; then either
/// restoration after a failed frontend, or the application stage and
/// restoration after it; then the end, whose verdict never changes again.
pub proof fn lemma_run_shape(outcomes: Seq<bool>)
    ensures
        ({
            let ph = phases_from(Phase::WritingBuildConfig, outcomes);
            &&& ph.len() == outcomes.len() + 1
            &&& ph[0] == Phase::WritingBuildConfig
            &&& outcomes.len() >= 1 && !outcomes[0] ==> forall|i: int| 1 <= i < ph.len()
                ==> ph[i] == Phase::Finished(Verdict::ConfigWriteFailed)
            &&& outcomes.len() >= 1 && outcomes[0] ==> ph[1] == Phase::RunningFrontend
            &&& outcomes.len() >= 2 && outcomes[0] && !outcomes[1] ==> ph[2] == Phase::Restoring(
                Verdict::FrontendFailed,
            ) && forall|i: int| 3 <= i < ph.len() ==> ph[i] == Phase::Finished(Verdict::FrontendFailed)
            &&& outcomes.len() >= 2 && outcomes[0] && outcomes[1] ==> ph[2] == Phase::RunningApplication
            &&& outcomes.len() >= 3 && outcomes[0] && outcomes[1] ==> ({
                let v = if outcomes[2] {
                    Verdict::Succeeded
                } else {
                    Verdict::AppFailed
                };
                ph[3] == Phase::Restoring(v) && forall|i: int| 4 <= i < ph.len() ==> ph[i] == Phase::Finished(v)
            })
        }),
{
    let n = outcomes.len() as int;
    let p0 = Phase::WritingBuildConfig;
    lemma_phases_len(p0, outcomes);
    if n >= 1 {
        let o1 = outcomes.subrange(1, n);
        let p1 = next_phase(p0, outcomes[0]);
        lemma_phases_len(p1, o1);
        assert forall|i: int| 1 <= i <= n implies phases_from(p0, outcomes)[i] == phases_from(p1, o1)[i - 1] by {
            lemma_phases_shift(p0, outcomes, i);
        }
        if !outcomes[0] {
            lemma_finished_stays(Verdict::ConfigWriteFailed, o1);
        } else if n >= 2 {
            let o2 = o1.subrange(1, o1.len() as int);
            let p2 = next_phase(p1, o1[0]);
            lemma_phases_len(p2, o2);
            assert forall|i: int| 1 <= i <= n - 1 implies phases_from(p1, o1)[i] == phases_from(p2, o2)[i - 1] by {
                lemma_phases_shift(p1, o1, i);
            }
            if !outcomes[1] {
                lemma_restoring_then_finished(Verdict::FrontendFailed, o2);
            } else if n >= 3 {
                let o3 = o2.subrange(1, o2.len() as int);
                let p3 = next_phase(p2, o2[0]);
                assert forall|i: int| 1 <= i <= n - 2 implies phases_from(p2, o2)[i] == phases_from(p3, o3)[i - 1] by {
                    lemma_phases_shift(p2, o2, i);
                }
                let v = if outcomes[2] {
                    Verdict::Succeeded
                } else {
                    Verdict::AppFailed
                };
                lemma_phases_len(p3, o3);
                lemma_restoring_then_finished(v, o3);
            }
        }
    }
}

proof fn lemma_actions(triple: Option<Seq<char>>, root: Seq<char>, outcomes: Seq<bool>)
    ensures
        run_actions(triple, root, outcomes).len() == outcomes.len() + 1,
        forall|i: int| 0 <= i <= outcomes.len() ==> #[trigger] run_actions(triple, root, outcomes)[i]
            == action_of(phases_from(initial_phase(triple_usable(triple)), outcomes)[i], target_of(triple), root),
{
    lemma_phases_len(initial_phase(triple_usable(triple)), outcomes);
}

proof fn lemma_modes_differ()
    ensures
        BUILD_MODE_CONFIG@ != DEFAULT_MODE_CONFIG@,
        PACKAGING_TOOL@ != FRONTEND_TOOL@,
{
    reveal_strlit("[alias]\nrelease = \"run --manifest-path ./release/Cargo.toml --\"\n\n[unstable]\nbuild-std = [\"std\", \"panic_abort\"]\nbuild-std-features = [\"panic_immediate_abort\"]\ntrim-paths = true\n");
    reveal_strlit("[alias]\nrelease = \"run --manifest-path ./release/Cargo.toml --\"\n");
    reveal_strlit("cargo");
    reveal_strlit("trunk");
    assert(BUILD_MODE_CONFIG@.len() != DEFAULT_MODE_CONFIG@.len());
    assert(PACKAGING_TOOL@[0] != FRONTEND_TOOL@[0]);
}

/// Without a usable target triple the run hands out no configuration write
/// and nothing else but the exit, with status 1.
pub proof fn law_missing_triple(triple: Option<Seq<char>>, root: Seq<char>, outcomes: Seq<bool>)
    requires
        !triple_usable(triple),
    ensures
        forall|i: int| 0 <= i < run_actions(triple, root, outcomes).len()
            ==> run_actions(triple, root, outcomes)[i] == ActionView::Exit(Verdict::InputInvalid),
        forall|i: int| 0 <= i < run_actions(triple, root, outcomes).len()
            ==> !(run_actions(triple, root, outcomes)[i] is Write),
        exit_code_of(Verdict::InputInvalid) == 1,
{
    lemma_actions(triple, root, outcomes);
    lemma_finished_stays(Verdict::InputInvalid, outcomes);
}

/// Once the build-mode write has succeeded, whenever the run hands out its
/// exit, the default-mode write was handed out before it, and only the exit
/// came after that write.
pub proof fn law_config_restored(triple: Option<Seq<char>>, root: Seq<char>, outcomes: Seq<bool>)
    requires
        triple_usable(triple),
        outcomes.len() >= 1,
        outcomes[0],
    ensures
        forall|i: int| 0 <= i < run_actions(triple, root, outcomes).len()
            && run_actions(triple, root, outcomes)[i] is Exit ==> exists|j: int| 0 < j < i
            && run_actions(triple, root, outcomes)[j] == ActionView::Write(default_write_of(root))
            && forall|k: int| j < k <= i ==> run_actions(triple, root, outcomes)[k] is Exit,
{
    let acts = run_actions(triple, root, outcomes);
    let ph = phases_from(Phase::WritingBuildConfig, outcomes);
    lemma_actions(triple, root, outcomes);
    lemma_run_shape(outcomes);
    assert forall|i: int| 0 <= i < acts.len() && acts[i] is Exit implies exists|j: int| 0 < j < i
        && acts[j] == ActionView::Write(default_write_of(root))
        && forall|k: int| j < k <= i ==> acts[k] is Exit by {
        if outcomes[1] {
            assert(acts[3] == ActionView::Write(default_write_of(root)));
            assert(forall|k: int| 3 < k <= i ==> acts[k] is Exit);
        } else {
            assert(acts[2] == ActionView::Write(default_write_of(root)));
            assert(forall|k: int| 2 < k <= i ==> acts[k] is Exit);
        }
    }
}

/// The default-mode write is handed out at most once in a run, and never
/// when the build-mode write did not succeed.
pub proof fn law_restored_once(triple: Option<Seq<char>>, root: Seq<char>, outcomes: Seq<bool>)
    ensures
        forall|i: int, j: int| 0 <= i < run_actions(triple, root, outcomes).len()
            && 0 <= j < run_actions(triple, root, outcomes).len()
            && run_actions(triple, root, outcomes)[i] == ActionView::Write(default_write_of(root))
            && run_actions(triple, root, outcomes)[j] == ActionView::Write(default_write_of(root))
            ==> i == j,
        outcomes.len() == 0 || !outcomes[0] ==> forall|i: int| 0 <= i < run_actions(triple, root, outcomes).len()
            ==> run_actions(triple, root, outcomes)[i] != ActionView::Write(default_write_of(root)),
{
    let acts = run_actions(triple, root, outcomes);
    lemma_actions(triple, root, outcomes);
    lemma_modes_differ();
    if triple_usable(triple) {
        lemma_run_shape(outcomes);
    } else {
        lemma_finished_stays(Verdict::InputInvalid, outcomes);
    }
}

/// When the frontend stage fails, the packaging tool is never run.
pub proof fn law_fail_fast(triple: Option<Seq<char>>, root: Seq<char>, outcomes: Seq<bool>)
    requires
        triple_usable(triple),
        outcomes.len() >= 2,
        outcomes[0],
        !outcomes[1],
    ensures
        forall|i: int| 0 <= i < run_actions(triple, root, outcomes).len()
            ==> !(#[trigger] run_actions(triple, root, outcomes)[i] matches ActionView::Run(c) && c.program == PACKAGING_TOOL@),
{
    lemma_actions(triple, root, outcomes);
    lemma_run_shape(outcomes);
    lemma_modes_differ();
}

/// A run exits with status 0 exactly when the triple was usable, the
/// build-mode write succeeded and both stages succeeded; otherwise with a
/// non-zero status.
pub proof fn law_exit_status(triple: Option<Seq<char>>, root: Seq<char>, outcomes: Seq<bool>)
    ensures
        forall|i: int| 0 <= i < run_actions(triple, root, outcomes).len()
            ==> (#[trigger] run_actions(triple, root, outcomes)[i] matches ActionView::Exit(v) ==> (exit_code_of(v) == 0
            <==> (triple_usable(triple) && outcomes.len() >= 3 && outcomes[0] && outcomes[1] && outcomes[2]))),
{
    lemma_actions(triple, root, outcomes);
    if triple_usable(triple) {
        lemma_run_shape(outcomes);
    } else {
        lemma_finished_stays(Verdict::InputInvalid, outcomes);
    }
}

} // verus!
