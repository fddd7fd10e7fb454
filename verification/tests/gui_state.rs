use gchimp::config::Config;
use gchimp::gui::{BLBHGui, Map2MdlGui, Misc, S2GGui, TexTileGui};
use gchimp::i18n::Language;

fn config() -> Config {
    Config {
        studiomdl: "/tools/studiomdl.exe".to_string(),
        crowbar: "/tools/crowbar.exe".to_string(),
        wineprefix: Some("/home/user/.wine".to_string()),
        theme: "dark".to_string(),
    }
}

#[test]
fn converter_tab_starts_idle_with_everything_enabled() {
    let gui = S2GGui::new(config());
    assert!(gui.is_idle);
    assert!(gui.drag_and_drop.use_file && gui.drag_and_drop.use_folder);
    assert!(gui.steps.decompile && gui.steps.compile);
    assert!(!gui.options.force && !gui.options.add_suffix);
    assert_eq!(gui.current_language, Language::Chinese);
    assert!(gui.s2g_sync.is_done());
}

#[test]
fn converter_tab_targets_file_or_folder() {
    let mut gui = S2GGui::new(config());
    gui.drag_and_drop.file_path = "a.mdl".to_string();
    gui.drag_and_drop.folder_path = "models".to_string();
    gui.drag_and_drop.use_file = true;
    assert_eq!(gui.target_path(), "a.mdl".to_string());
    gui.drag_and_drop.use_file = false;
    assert_eq!(gui.target_path(), "models".to_string());
}

#[test]
fn lightmap_tab_starts_with_default_clamp() {
    let gui = BLBHGui::new(config());
    assert_eq!(gui.clamp_value, "0.001".to_string());
    assert!(gui.options.convert_texture && gui.options.compile_model);
    assert_eq!(gui.status.read_snapshot(), "Idle".to_string());
}

#[test]
fn map_tab_starts_on_the_map_side() {
    let gui = Map2MdlGui::new(config());
    assert!(!gui.use_entity);
    assert!(gui.map.is_empty() && gui.entity.is_empty());
    assert!(gui.options.auto_pickup_wad && gui.options.export_texture);
    assert!(!gui.options.reverse_normal);
}

#[test]
fn misc_tab_statuses_start_idle() {
    let misc: Misc = Default::default();
    assert!(misc.loop_wave_loop);
    assert_eq!(misc.split_model_status.read_snapshot(), "空闲".to_string());
    assert_eq!(misc.loop_wave_status.read_snapshot(), "空闲".to_string());
    assert_eq!(misc.resmake_status.read_snapshot(), "空闲".to_string());
    assert!(misc.resmake_options.res && !misc.resmake_options.zip);
}

#[test]
fn textile_tab_shows_its_default_extensions() {
    let gui: TexTileGui = Default::default();
    assert_eq!(gui.extensions, "png jpg jpeg bmp".to_string());
    assert!(gui.items.is_empty());
    assert!(gui.options.change_name);
}

#[test]
fn textile_extensions_follow_the_text_field() {
    let mut gui: TexTileGui = Default::default();
    gui.extensions = "tga  gif".to_string();
    gui.update_extensions();
    assert_eq!(
        gui.options.extensions,
        vec!["tga".to_string(), "gif".to_string()]
    );
}

#[test]
fn textile_accepts_only_matching_items() {
    let mut gui: TexTileGui = Default::default();
    gui.add_item("textures/wall.png");
    gui.add_item("notes.txt");
    gui.add_item("textures/floor.jpg");
    assert_eq!(
        gui.items,
        vec!["textures/wall.png".to_string(), "textures/floor.jpg".to_string()]
    );
}

#[test]
fn textile_check_honours_a_narrowed_list() {
    let mut gui: TexTileGui = Default::default();
    gui.extensions = "png".to_string();
    gui.add_item("a.jpg");
    assert!(gui.items.is_empty());
    gui.add_item("b.png");
    assert_eq!(gui.items, vec!["b.png".to_string()]);
}
