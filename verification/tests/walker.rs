use gchimp::walker::{
    collect_work_items, eligible_items, has_marker, is_model_path, with_goldsrc_suffix, PathKind,
};

fn strings(v: &[&str]) -> Vec<String> {
    v.iter().map(|s| s.to_string()).collect()
}

#[test]
fn directory_yields_one_item_per_model_file() {
    let entries = strings(&[
        "a/barney.mdl",
        "a/readme.txt",
        "a/gman.mdl",
        "a/thumbs.db",
        "a/notes.md",
    ]);
    let items = eligible_items(&entries, false);
    assert_eq!(items, strings(&["a/barney.mdl", "a/gman.mdl"]));
}

#[test]
fn empty_directory_yields_no_items() {
    let items = eligible_items(&Vec::new(), true);
    assert_eq!(items, Vec::<String>::new());
}

#[test]
fn non_model_files_never_count() {
    let entries = strings(&["x.bmp", "y.qc", "z.smd", ".mdl", "w/.mdl"]);
    assert_eq!(eligible_items(&entries, false), Vec::<String>::new());
}

#[test]
fn ignore_converted_skips_marker_suffixed_files() {
    let entries = strings(&[
        "scout.mdl",
        "scout_goldsrc.mdl",
        "heavy.mdl",
        "heavy_goldsrc.mdl",
    ]);
    assert_eq!(
        eligible_items(&entries, true),
        strings(&["scout.mdl", "heavy.mdl"])
    );
    // without the flag the converted files are picked up again
    assert_eq!(eligible_items(&entries, false), entries);
}

#[test]
fn suffixed_outputs_are_excluded_on_rerun() {
    // the outputs of a run with add_suffix on ...
    let first_run = strings(&["a.mdl", "b.mdl"]);
    let outputs: Vec<String> = first_run
        .iter()
        .map(|p| with_goldsrc_suffix(p))
        .collect();
    assert_eq!(outputs, strings(&["a_goldsrc.mdl", "b_goldsrc.mdl"]));
    // ... are exactly what a rerun with ignore_converted leaves out
    let mut second_input = first_run.clone();
    second_input.extend(outputs);
    assert_eq!(eligible_items(&second_input, true), first_run);
}

#[test]
fn marker_detection_matches_suffixing() {
    assert!(has_marker("model_goldsrc.mdl"));
    assert!(!has_marker("model.mdl"));
    assert!(has_marker(&with_goldsrc_suffix("model.mdl")));
}

#[test]
fn model_path_requires_a_real_stem() {
    assert!(is_model_path("x.mdl"));
    assert!(is_model_path("dir/x.mdl"));
    assert!(!is_model_path(".mdl"));
    assert!(!is_model_path("dir/.mdl"));
    assert!(!is_model_path("x.md"));
    assert!(!is_model_path("mdl"));
}

#[test]
fn single_model_file_is_its_own_work_set() {
    let r = collect_work_items("poly.mdl", PathKind::File, &Vec::new(), false);
    assert_eq!(r.unwrap(), strings(&["poly.mdl"]));
}

#[test]
fn single_non_model_file_yields_empty_work_set() {
    let r = collect_work_items("poly.txt", PathKind::File, &Vec::new(), false);
    assert_eq!(r.unwrap(), Vec::<String>::new());
}

#[test]
fn missing_target_is_a_walk_error() {
    let r = collect_work_items("nowhere", PathKind::Missing, &Vec::new(), false);
    let e = r.err().unwrap();
    assert_eq!(e.path, "nowhere".to_string());
}

#[test]
fn suffix_without_extension_is_appended() {
    assert_eq!(with_goldsrc_suffix("strange"), "strange_goldsrc".to_string());
}
