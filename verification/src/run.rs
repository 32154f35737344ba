//! The course of a one-call run and the codes it ends with.
//!
//! A run checks its input path, creates its output directory, reads the
//! input, imports the instance, optimizes, and writes the result.  The first
//! step that fails ends the run with that step's code; a run that gets
//! through every step ends with `0`.  A run that panics ends with `-1`.
use vstd::prelude::*;

verus! {

/// Where a run stands: the step it is about to take, or the code it ended with.
#[derive(Clone, Copy, Debug, PartialEq, Eq, Structural)]
pub enum RunStage {
    CreateOutputDir,
    ReadInput,
    ImportInstance,
    Optimize,
    WriteOutput,
    Finished(i32),
}

/// The input path is missing or empty.
pub const CODE_EMPTY_INPUT_PATH: i32 = 1i32;

/// The output directory could not be created.
pub const CODE_CREATE_OUTPUT_DIR: i32 = 2i32;

/// The input could not be read.
pub const CODE_READ_INPUT: i32 = 3i32;

/// The instance could not be imported.
pub const CODE_IMPORT_INSTANCE: i32 = 4i32;

/// The result could not be written.
pub const CODE_WRITE_OUTPUT: i32 = 5i32;

/// The run panicked.
pub const CODE_PANIC: i32 = -1i32;

/// The step that comes after `stage` when it succeeds.
pub open spec fn spec_next_step(stage: RunStage) -> RunStage {
    match stage {
        RunStage::CreateOutputDir => RunStage::ReadInput,
        RunStage::ReadInput => RunStage::ImportInstance,
        RunStage::ImportInstance => RunStage::Optimize,
        RunStage::Optimize => RunStage::WriteOutput,
        RunStage::WriteOutput => RunStage::Finished(0),
        RunStage::Finished(code) => RunStage::Finished(code),
    }
}

/// The code a run ends with when `stage` fails.
pub open spec fn spec_failure_code(stage: RunStage) -> i32 {
    match stage {
        RunStage::CreateOutputDir => CODE_CREATE_OUTPUT_DIR,
        RunStage::ReadInput => CODE_READ_INPUT,
        RunStage::ImportInstance => CODE_IMPORT_INSTANCE,
        RunStage::Optimize => CODE_PANIC,
        RunStage::WriteOutput => CODE_WRITE_OUTPUT,
        RunStage::Finished(code) => code,
    }
}

/// The stage after `stage`, which `succeeded` or not.  A finished run stays
/// finished with its code.
pub open spec fn spec_advance(stage: RunStage, succeeded: bool) -> RunStage {
    match stage {
        RunStage::Finished(code) => RunStage::Finished(code),
        _ => if succeeded {
            spec_next_step(stage)
        } else {
            RunStage::Finished(spec_failure_code(stage))
        },
    }
}

/// The first stage of a run: it ends at once with code 1 when the input path
/// is empty.
pub open spec fn spec_begin(input_path_empty: bool) -> RunStage {
    if input_path_empty {
        RunStage::Finished(CODE_EMPTY_INPUT_PATH)
    } else {
        RunStage::CreateOutputDir
    }
}

/// The stage a run reaches from `stage` when its steps have the outcomes
/// `outcomes`, in order.
pub open spec fn spec_drive(stage: RunStage, outcomes: Seq<bool>) -> RunStage
    decreases outcomes.len(),
{
    if outcomes.len() == 0 {
        stage
    } else {
        spec_drive(spec_advance(stage, outcomes[0]), outcomes.drop_first())
    }
}

/// How many steps remain before `stage` is finished when all succeed.
pub open spec fn steps_left(stage: RunStage) -> nat {
    match stage {
        RunStage::CreateOutputDir => 5,
        RunStage::ReadInput => 4,
        RunStage::ImportInstance => 3,
        RunStage::Optimize => 2,
        RunStage::WriteOutput => 1,
        RunStage::Finished(_) => 0,
    }
}

/// Starts a run, given its input path.
pub fn begin_run(input_path: &str) -> (stage: RunStage)
    ensures
        stage == spec_begin(input_path@.len() == 0),
        input_path@.len() == 0 ==> stage == RunStage::Finished(1),
        input_path@.len() != 0 ==> stage == RunStage::CreateOutputDir,
{
    if input_path.is_empty() {
        RunStage::Finished(CODE_EMPTY_INPUT_PATH)
    } else {
        RunStage::CreateOutputDir
    }
}

/// Moves a run on after the step `stage` has succeeded or failed.
pub fn advance_run(stage: RunStage, succeeded: bool) -> (next: RunStage)
    ensures
        next == spec_advance(stage, succeeded),
        stage is Finished ==> next == stage,
        stage == RunStage::CreateOutputDir ==> next == (if succeeded {
            RunStage::ReadInput
        } else {
            RunStage::Finished(2)
        }),
        stage == RunStage::ReadInput ==> next == (if succeeded {
            RunStage::ImportInstance
        } else {
            RunStage::Finished(3)
        }),
        stage == RunStage::ImportInstance ==> next == (if succeeded {
            RunStage::Optimize
        } else {
            RunStage::Finished(4)
        }),
        stage == RunStage::Optimize ==> next == (if succeeded {
            RunStage::WriteOutput
        } else {
            RunStage::Finished(-1i32)
        }),
        stage == RunStage::WriteOutput ==> next == (if succeeded {
            RunStage::Finished(0)
        } else {
            RunStage::Finished(5)
        }),
{
    match stage {
        RunStage::Finished(code) => RunStage::Finished(code),
        RunStage::CreateOutputDir => if succeeded {
            RunStage::ReadInput
        } else {
            RunStage::Finished(CODE_CREATE_OUTPUT_DIR)
        },
        RunStage::ReadInput => if succeeded {
            RunStage::ImportInstance
        } else {
            RunStage::Finished(CODE_READ_INPUT)
        },
        RunStage::ImportInstance => if succeeded {
            RunStage::Optimize
        } else {
            RunStage::Finished(CODE_IMPORT_INSTANCE)
        },
        RunStage::Optimize => if succeeded {
            RunStage::WriteOutput
        } else {
            RunStage::Finished(CODE_PANIC)
        },
        RunStage::WriteOutput => if succeeded {
            RunStage::Finished(0)
        } else {
            RunStage::Finished(CODE_WRITE_OUTPUT)
        },
    }
}

/// The code of a run that panicked, given the code it had recorded so far:
/// a failure recorded before the panic is kept, otherwise the code is `-1`.
pub fn panic_code(recorded: i32) -> (code: i32)
    ensures
        code == (if recorded == 0 {
            CODE_PANIC
        } else {
            recorded
        }),
        recorded == 0 ==> code == -1,
        recorded != 0 ==> code == recorded,
{
    if recorded == 0 {
        CODE_PANIC
    } else {
        recorded
    }
}

/// A finished run stays finished with its code, whatever follows.
pub proof fn lemma_finished_is_final(code: i32, outcomes: Seq<bool>)
    ensures
        spec_drive(RunStage::Finished(code), outcomes) == RunStage::Finished(code),
    decreases outcomes.len(),
{
    if outcomes.len() > 0 {
        lemma_finished_is_final(code, outcomes.drop_first());
    }
}

/// From any step, a run whose next steps all succeed finishes with `0` once
/// the remaining steps are through; and a run finishes with `0` only if
/// every one of those steps succeeded.
pub proof fn lemma_success_needs_every_step(stage: RunStage, outcomes: Seq<bool>)
    requires
        !(stage is Finished),
    ensures
        spec_drive(stage, outcomes) == RunStage::Finished(0) <==> (outcomes.len() >= steps_left(
            stage,
        ) && forall|i: int| 0 <= i < steps_left(stage) ==> #[trigger] outcomes[i]),
    decreases outcomes.len(),
{
    if outcomes.len() == 0 {
    } else {
        let next = spec_advance(stage, outcomes[0]);
        let rest = outcomes.drop_first();
        if !outcomes[0] {
            lemma_finished_is_final(spec_failure_code(stage), rest);
            assert(!(forall|i: int| 0 <= i < steps_left(stage) ==> #[trigger] outcomes[i])) by {
                assert(!outcomes[0]);
            }
        } else if stage is WriteOutput {
            lemma_finished_is_final(0, rest);
        } else {
            lemma_success_needs_every_step(next, rest);
            assert(steps_left(next) + 1 == steps_left(stage));
            if rest.len() >= steps_left(next) && forall|i: int|
                0 <= i < steps_left(next) ==> #[trigger] rest[i] {
                assert forall|i: int| 0 <= i < steps_left(stage) implies #[trigger] outcomes[i] by {
                    if i > 0 {
                        assert(outcomes[i] == rest[i - 1]);
                    }
                }
            }
            if outcomes.len() >= steps_left(stage) && forall|i: int|
                0 <= i < steps_left(stage) ==> #[trigger] outcomes[i] {
                assert forall|i: int| 0 <= i < steps_left(next) implies #[trigger] rest[i] by {
                    assert(rest[i] == outcomes[i + 1]);
                }
            }
        }
    }
}

/// The step a run reaches from `stage` after `k` steps that succeeded.
pub open spec fn spec_after_successes(stage: RunStage, k: nat) -> RunStage
    decreases k,
{
    if k == 0 {
        stage
    } else {
        spec_after_successes(spec_next_step(stage), (k - 1) as nat)
    }
}

proof fn lemma_first_failure_from(stage: RunStage, outcomes: Seq<bool>, k: nat)
    requires
        k < steps_left(stage),
        k < outcomes.len(),
        !outcomes[k as int],
        forall|i: int| 0 <= i < k ==> #[trigger] outcomes[i],
    ensures
        spec_drive(stage, outcomes) == RunStage::Finished(
            spec_failure_code(spec_after_successes(stage, k)),
        ),
    decreases k,
{
    let rest = outcomes.drop_first();
    if k == 0 {
        lemma_finished_is_final(spec_failure_code(stage), rest);
    } else {
        assert(outcomes[0]);
        assert forall|i: int| 0 <= i < k - 1 implies #[trigger] rest[i] by {
            assert(rest[i] == outcomes[i + 1]);
        }
        assert(rest[k - 1] == outcomes[k as int]);
        lemma_first_failure_from(spec_next_step(stage), rest, (k - 1) as nat);
    }
}

/// A run from a non-empty input path whose `k`-th step is the first to fail
/// ends with that step's code: 2, 3, 4, `-1` or 5 for creating the
/// directory, reading, importing, optimizing and writing.
pub proof fn lemma_first_failure_decides(outcomes: Seq<bool>, k: nat)
    requires
        k < 5,
        k < outcomes.len(),
        !outcomes[k as int],
        forall|i: int| 0 <= i < k ==> #[trigger] outcomes[i],
    ensures
        spec_drive(spec_begin(false), outcomes) == RunStage::Finished(
            if k == 0 {
                CODE_CREATE_OUTPUT_DIR
            } else if k == 1 {
                CODE_READ_INPUT
            } else if k == 2 {
                CODE_IMPORT_INSTANCE
            } else if k == 3 {
                CODE_PANIC
            } else {
                CODE_WRITE_OUTPUT
            },
        ),
{
    reveal_with_fuel(spec_after_successes, 5);
    lemma_first_failure_from(RunStage::CreateOutputDir, outcomes, k);
}

} // verus!
