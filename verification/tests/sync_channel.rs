use gchimp::sync::S2GSync;

#[test]
fn a_fresh_channel_is_idle_and_empty() {
    let sync = S2GSync::new();
    assert!(sync.is_done());
    assert!(!sync.is_running());
    assert_eq!(sync.read_snapshot(), "".to_string());
}

#[test]
fn written_lines_accumulate_in_order() {
    let sync = S2GSync::new();
    sync.write("decompiling a.mdl\n");
    sync.write("compiling a.qc\n");
    assert_eq!(
        sync.read_snapshot(),
        "decompiling a.mdl\ncompiling a.qc\n".to_string()
    );
}

#[test]
fn the_running_flag_follows_the_worker() {
    let sync = S2GSync::new();
    sync.set_running(true);
    assert!(sync.is_running());
    assert!(!sync.is_done());
    sync.set_running(false);
    assert!(!sync.is_running());
    for _ in 0..5 {
        assert!(sync.is_done());
    }
}

#[test]
fn clearing_replaces_the_whole_log() {
    let sync = S2GSync::new();
    sync.write("old noise");
    sync.set_text("");
    assert_eq!(sync.read_snapshot(), "".to_string());
    sync.set_text("Idle");
    assert_eq!(sync.read_snapshot(), "Idle".to_string());
}

#[test]
fn clones_share_one_channel() {
    let sync = S2GSync::new();
    let observer = sync.clone();
    sync.write("visible to both");
    sync.set_running(true);
    assert_eq!(observer.read_snapshot(), "visible to both".to_string());
    assert!(observer.is_running());
}
