use gchimp::steps::{S2GSteps, Stage};

#[test]
fn default_policy_runs_every_stage_in_order() {
    let steps: S2GSteps = Default::default();
    let e = steps.effective_steps();
    assert_eq!(
        e,
        vec![
            Stage::Decompile,
            Stage::ConvertVtf,
            Stage::ConvertBmp,
            Stage::Assemble,
            Stage::Compile
        ]
    );
}

#[test]
fn compile_only_policy_pulls_in_assembly() {
    let steps = S2GSteps {
        decompile: false,
        vtf: false,
        bmp: false,
        smd_and_qc: false,
        compile: true,
    };
    let e = steps.effective_steps();
    assert_eq!(e, vec![Stage::Assemble, Stage::Compile]);
}

#[test]
fn all_disabled_policy_runs_nothing() {
    let steps = S2GSteps {
        decompile: false,
        vtf: false,
        bmp: false,
        smd_and_qc: false,
        compile: false,
    };
    assert_eq!(steps.effective_steps(), Vec::<Stage>::new());
}

#[test]
fn assembly_without_compile_stays_alone() {
    let steps = S2GSteps {
        decompile: true,
        vtf: false,
        bmp: false,
        smd_and_qc: true,
        compile: false,
    };
    assert_eq!(
        steps.effective_steps(),
        vec![Stage::Decompile, Stage::Assemble]
    );
}

#[test]
fn every_policy_keeps_compile_behind_assembly() {
    for bits in 0u32..32 {
        let steps = S2GSteps {
            decompile: bits & 1 != 0,
            vtf: bits & 2 != 0,
            bmp: bits & 4 != 0,
            smd_and_qc: bits & 8 != 0,
            compile: bits & 16 != 0,
        };
        let e = steps.effective_steps();
        if e.contains(&Stage::Compile) {
            assert!(e.contains(&Stage::Assemble));
        }
        // strictly ascending in the fixed global order
        let index = |s: &Stage| match s {
            Stage::Decompile => 0,
            Stage::ConvertVtf => 1,
            Stage::ConvertBmp => 2,
            Stage::Assemble => 3,
            Stage::Compile => 4,
        };
        for w in e.windows(2) {
            assert!(index(&w[0]) < index(&w[1]));
        }
    }
}
