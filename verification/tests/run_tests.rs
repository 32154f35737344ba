use sparrow::run::{advance_run, begin_run, panic_code, RunStage};

fn drive(input: &str, outcomes: &[bool]) -> RunStage {
    let mut stage = begin_run(input);
    for &ok in outcomes {
        stage = advance_run(stage, ok);
    }
    stage
}

#[test]
fn empty_input_path_is_code_1() {
    assert_eq!(begin_run(""), RunStage::Finished(1));
    assert_eq!(drive("", &[true, true, true, true, true]), RunStage::Finished(1));
}

#[test]
fn every_step_succeeding_is_code_0() {
    assert_eq!(begin_run("in.json"), RunStage::CreateOutputDir);
    assert_eq!(drive("in.json", &[true, true, true, true, true]), RunStage::Finished(0));
}

#[test]
fn first_failure_decides_the_code() {
    assert_eq!(drive("in.json", &[false, true, true]), RunStage::Finished(2));
    assert_eq!(drive("in.json", &[true, false, true]), RunStage::Finished(3));
    assert_eq!(drive("in.json", &[true, true, false, false]), RunStage::Finished(4));
    assert_eq!(drive("in.json", &[true, true, true, false]), RunStage::Finished(-1));
    assert_eq!(drive("in.json", &[true, true, true, true, false]), RunStage::Finished(5));
}

#[test]
fn unfinished_run() {
    assert_eq!(drive("in.json", &[true, true]), RunStage::ImportInstance);
}

#[test]
fn panic_keeps_a_recorded_failure() {
    assert_eq!(panic_code(0), -1);
    assert_eq!(panic_code(3), 3);
}
