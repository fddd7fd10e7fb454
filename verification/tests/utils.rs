use gchimp::utils::{
    files_with_extension, fix_backslash, has_extension, join_with_spaces,
    maybe_add_extension_to_string, relative_to_less_relative, remove_texture_prefix,
    split_whitespace_tokens, str_ends_with, strip_suffix,
};

fn strings(v: &[&str]) -> Vec<String> {
    v.iter().map(|s| s.to_string()).collect()
}

#[test]
fn extension_is_added_only_when_missing() {
    assert_eq!(
        maybe_add_extension_to_string("model", "qc"),
        "model.qc".to_string()
    );
    assert_eq!(
        maybe_add_extension_to_string("model.qc", "qc"),
        "model.qc".to_string()
    );
    assert_eq!(
        maybe_add_extension_to_string("model.smd", "qc"),
        "model.smd.qc".to_string()
    );
}

#[test]
fn backslashes_become_forward_slashes() {
    assert_eq!(
        fix_backslash("C:\\games\\models\\x.mdl"),
        "C:/games/models/x.mdl".to_string()
    );
    assert_eq!(fix_backslash("already/fine"), "already/fine".to_string());
    assert_eq!(fix_backslash(""), "".to_string());
}

#[test]
fn texture_markers_are_stripped() {
    assert_eq!(remove_texture_prefix("{glass"), "glass".to_string());
    assert_eq!(remove_texture_prefix("~lamp"), "lamp".to_string());
    assert_eq!(remove_texture_prefix("!water"), "water".to_string());
    assert_eq!(remove_texture_prefix("plain"), "plain".to_string());
}

#[test]
fn joining_paths_respects_absolute_and_trailing_slash() {
    assert_eq!(
        relative_to_less_relative("/root", "sub/x.mdl"),
        "/root/sub/x.mdl".to_string()
    );
    assert_eq!(
        relative_to_less_relative("/root/", "x.mdl"),
        "/root/x.mdl".to_string()
    );
    assert_eq!(
        relative_to_less_relative("/root", "/abs/x.mdl"),
        "/abs/x.mdl".to_string()
    );
    assert_eq!(relative_to_less_relative("", "x.mdl"), "x.mdl".to_string());
}

#[test]
fn suffix_tests_and_stripping_agree() {
    assert!(str_ends_with("barney.mdl", ".mdl"));
    assert!(!str_ends_with("barney.md", ".mdl"));
    assert!(str_ends_with("anything", ""));
    assert_eq!(strip_suffix("barney.mdl", ".mdl"), "barney".to_string());
    assert_eq!(strip_suffix("barney.smd", ".mdl"), "barney.smd".to_string());
}

#[test]
fn extension_test_needs_a_stem_before_the_dot() {
    assert!(has_extension("x.mdl", "mdl"));
    assert!(has_extension("a/b/x.tga", "tga"));
    assert!(!has_extension(".mdl", "mdl"));
    assert!(!has_extension("a/.mdl", "mdl"));
    assert!(!has_extension("x.mdl", "md"));
}

#[test]
fn whitespace_splitting_drops_all_separators() {
    assert_eq!(
        split_whitespace_tokens("png  jpg\ttga\njpeg"),
        strings(&["png", "jpg", "tga", "jpeg"])
    );
    assert_eq!(split_whitespace_tokens(""), Vec::<String>::new());
    assert_eq!(split_whitespace_tokens("   \t \r\n"), Vec::<String>::new());
    assert_eq!(split_whitespace_tokens("  one  "), strings(&["one"]));
}

#[test]
fn joining_then_splitting_restores_the_tokens() {
    let tokens = strings(&["png", "jpg", "bmp"]);
    let joined = join_with_spaces(&tokens);
    assert_eq!(joined, "png jpg bmp".to_string());
    assert_eq!(split_whitespace_tokens(&joined), tokens);
}

#[test]
fn folder_filtering_keeps_only_the_asked_extension() {
    let paths = strings(&["a.wad", "b.bsp", "c.wad", "d.txt"]);
    assert_eq!(
        files_with_extension(&paths, "wad"),
        strings(&["a.wad", "c.wad"])
    );
    assert_eq!(files_with_extension(&paths, "mdl"), Vec::<String>::new());
}
