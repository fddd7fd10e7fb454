use gchimp::run::{ItemOutcome, S2GRun};
use gchimp::steps::Stage;

fn strings(v: &[&str]) -> Vec<String> {
    v.iter().map(|s| s.to_string()).collect()
}

fn two_steps() -> Vec<Stage> {
    vec![Stage::Assemble, Stage::Compile]
}

/// Drives every stage of the current item to success.
fn succeed_item(run: &mut S2GRun) {
    let item = run.next_action().unwrap().0;
    while let Some((i, _stage)) = run.next_action() {
        if i != item {
            break;
        }
        run.apply(true, String::new());
    }
}

#[test]
fn without_force_a_failure_ends_the_whole_run() {
    let mut run = S2GRun::new(strings(&["a.mdl", "b.mdl", "c.mdl"]), two_steps(), false);
    // item 1 succeeds
    succeed_item(&mut run);
    assert!(!run.is_done());
    // item 2 fails at its first stage
    let (i, stage) = run.next_action().unwrap();
    assert_eq!(i, 1);
    assert_eq!(stage, Stage::Assemble);
    run.apply(false, "tool exited with status 1".to_string());
    // the run is over; item 3 is never attempted
    assert!(run.is_done());
    assert!(run.next_action().is_none());
    let result = run.result();
    assert_eq!(result.len(), 2);
    assert_eq!(result[0].0, "a.mdl".to_string());
    assert!(matches!(result[0].1, ItemOutcome::Succeeded));
    assert_eq!(result[1].0, "b.mdl".to_string());
    match &result[1].1 {
        ItemOutcome::Failed(e) => {
            assert_eq!(e.stage, Stage::Assemble);
            assert_eq!(e.message, "tool exited with status 1".to_string());
        }
        ItemOutcome::Succeeded => panic!("item 2 must have failed"),
    }
}

#[test]
fn with_force_every_item_gets_an_outcome() {
    let mut run = S2GRun::new(strings(&["a.mdl", "b.mdl", "c.mdl"]), two_steps(), true);
    // item 1 succeeds
    succeed_item(&mut run);
    // item 2 fails at its second stage
    run.apply(true, String::new());
    let (i, stage) = run.next_action().unwrap();
    assert_eq!((i, stage), (1, Stage::Compile));
    run.apply(false, "compiler crashed".to_string());
    // the run moves on to item 3, which succeeds
    assert!(!run.is_done());
    assert_eq!(run.next_action().unwrap().0, 2);
    succeed_item(&mut run);
    assert!(run.is_done());
    let result = run.result();
    assert_eq!(result.len(), 3);
    assert!(matches!(result[0].1, ItemOutcome::Succeeded));
    match &result[1].1 {
        ItemOutcome::Failed(e) => {
            assert_eq!(e.stage, Stage::Compile);
            assert_eq!(e.message, "compiler crashed".to_string());
        }
        ItemOutcome::Succeeded => panic!("item 2 must have failed"),
    }
    assert!(matches!(result[2].1, ItemOutcome::Succeeded));
}

#[test]
fn a_failing_item_skips_its_remaining_stages() {
    let mut run = S2GRun::new(strings(&["a.mdl", "b.mdl"]), two_steps(), true);
    run.apply(false, "assembly failed".to_string());
    // the next invocation belongs to the next item, not to a.mdl's
    // compile stage
    assert_eq!(run.next_action().unwrap(), (1, Stage::Assemble));
}

#[test]
fn done_stays_done_however_often_it_is_polled() {
    let mut run = S2GRun::new(strings(&["a.mdl"]), vec![Stage::Compile], false);
    assert!(!run.is_done());
    run.apply(true, String::new());
    for _ in 0..10 {
        assert!(run.is_done());
        assert!(run.next_action().is_none());
    }
}

#[test]
fn empty_batch_completes_immediately() {
    let run = S2GRun::new(Vec::new(), two_steps(), false);
    assert!(run.is_done());
    assert_eq!(run.result().len(), 0);
}

#[test]
fn no_enabled_stage_means_every_item_trivially_succeeds() {
    let run = S2GRun::new(strings(&["a.mdl", "b.mdl"]), Vec::new(), false);
    assert!(run.is_done());
    let result = run.result();
    assert_eq!(result.len(), 2);
    assert!(matches!(result[0].1, ItemOutcome::Succeeded));
    assert!(matches!(result[1].1, ItemOutcome::Succeeded));
}

#[test]
fn cancellation_takes_effect_between_items() {
    let mut run = S2GRun::new(strings(&["a.mdl", "b.mdl", "c.mdl"]), two_steps(), false);
    run.request_cancel();
    // the item in flight still finishes both its stages
    run.apply(true, String::new());
    assert!(!run.is_done());
    run.apply(true, String::new());
    // then the run stops instead of starting item 2
    assert!(run.is_done());
    assert_eq!(run.result().len(), 1);
}
