use gchimp::run::{ItemOutcome, S2GOptions};
use gchimp::s2g::{
    compile_invocation, decompile_invocation, png_to_bmp_path, vtf_to_png_path, ConfigError,
    Invocation, ToolConfig, WorkItem, S2G,
};
use gchimp::steps::{S2GSteps, Stage};
use gchimp::walker::PathKind;

fn strings(v: &[&str]) -> Vec<String> {
    v.iter().map(|s| s.to_string()).collect()
}

fn tool_config() -> ToolConfig {
    ToolConfig::new(
        "/tools/studiomdl.exe".to_string(),
        "/tools/crowbar.exe".to_string(),
        Some("/home/user/.wine".to_string()),
        true,
    )
    .unwrap()
}

#[test]
fn tool_config_rejects_each_missing_piece() {
    let e = ToolConfig::new(String::new(), "c".to_string(), None, false);
    assert!(matches!(e, Err(ConfigError::MissingStudiomdl)));
    let e = ToolConfig::new("s".to_string(), String::new(), None, false);
    assert!(matches!(e, Err(ConfigError::MissingCrowbar)));
    let e = ToolConfig::new("s".to_string(), "c".to_string(), None, true);
    assert!(matches!(e, Err(ConfigError::MissingWineprefix)));
    // without the runtime requirement the prefix may be absent
    let ok = ToolConfig::new("s".to_string(), "c".to_string(), None, false);
    assert!(ok.is_ok());
}

#[test]
fn work_item_derives_its_artifact_names() {
    let item = WorkItem::new("props/crate.mdl".to_string());
    assert_eq!(item.stem(), "props/crate".to_string());
    assert_eq!(item.qc_path(), "props/crate.qc".to_string());
    assert_eq!(item.output_mdl(false), "props/crate.mdl".to_string());
    assert_eq!(item.output_mdl(true), "props/crate_goldsrc.mdl".to_string());
}

#[test]
fn decompile_runs_the_decompiler_on_the_model() {
    let item = WorkItem::new("props/crate.mdl".to_string());
    let inv: Invocation = decompile_invocation(&tool_config(), &item);
    assert_eq!(inv.program, "/tools/crowbar.exe".to_string());
    assert_eq!(inv.args, strings(&["props/crate.mdl", "props/crate"]));
    assert_eq!(inv.wineprefix, Some("/home/user/.wine".to_string()));
}

#[test]
fn compile_runs_the_compiler_on_the_descriptor() {
    let item = WorkItem::new("props/crate.mdl".to_string());
    let inv = compile_invocation(&tool_config(), &item);
    assert_eq!(inv.program, "/tools/studiomdl.exe".to_string());
    assert_eq!(inv.args, strings(&["props/crate.qc"]));
}

#[test]
fn texture_conversions_keep_the_stem() {
    assert_eq!(vtf_to_png_path("tex/wall.vtf"), "tex/wall.png".to_string());
    assert_eq!(png_to_bmp_path("tex/wall.png"), "tex/wall.bmp".to_string());
}

#[test]
fn a_directory_run_drives_every_eligible_item_to_its_outcome() {
    let coordinator = S2G::new(
        "models".to_string(),
        tool_config(),
        S2GSteps {
            decompile: false,
            vtf: false,
            bmp: false,
            smd_and_qc: false,
            compile: true,
        },
        S2GOptions {
            force: true,
            add_suffix: false,
            ignore_converted: true,
            flatshade: false,
        },
    );
    let entries = strings(&["models/a.mdl", "models/done_goldsrc.mdl", "models/b.mdl", "readme"]);
    let mut run = coordinator.begin(PathKind::Directory, &entries).unwrap();
    // compile-only policy still assembles first
    assert_eq!(run.next_action().unwrap(), (0, Stage::Assemble));
    let mut invocations = 0;
    while let Some((_item, _stage)) = run.next_action() {
        run.apply(true, String::new());
        invocations += 1;
    }
    // two eligible items times two stages
    assert_eq!(invocations, 4);
    let result = run.result();
    assert_eq!(result.len(), 2);
    assert_eq!(result[0].0, "models/a.mdl".to_string());
    assert_eq!(result[1].0, "models/b.mdl".to_string());
    assert!(matches!(result[0].1, ItemOutcome::Succeeded));
    assert!(matches!(result[1].1, ItemOutcome::Succeeded));
}

#[test]
fn a_missing_target_fails_before_any_stage() {
    let coordinator = S2G::new(
        "gone".to_string(),
        tool_config(),
        Default::default(),
        Default::default(),
    );
    let r = coordinator.begin(PathKind::Missing, &Vec::new());
    assert_eq!(r.err().unwrap().path, "gone".to_string());
}

#[test]
fn a_single_file_target_is_the_whole_batch() {
    let coordinator = S2G::new(
        "lone.mdl".to_string(),
        tool_config(),
        Default::default(),
        Default::default(),
    );
    let run = coordinator.begin(PathKind::File, &Vec::new()).unwrap();
    assert_eq!(run.items, strings(&["lone.mdl"]));
}
