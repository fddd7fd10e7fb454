//! The state behind each front-end tab.  Only state and the decisions
//! on it live here: what the widgets look like, and the worker threads
//! the buttons start, belong to the shell around the library.

use vstd::prelude::*;

use crate::config::Config;
use crate::i18n::{get_text, Language, TextKey};
use crate::run::S2GOptions;
use crate::steps::S2GSteps;
use crate::sync::S2GSync;
use crate::utils::{
    has_extension, has_extension_spec, join_with_spaces, joined_with_spaces,
    split_whitespace_spec, split_whitespace_tokens,
};

verus! {

/// The converter tab's drag-and-drop target: a single model file or a
/// whole folder, with one of the two active.
pub struct DragAndDrop {
    pub file_path: String,
    pub use_file: bool,
    pub folder_path: String,
    pub use_folder: bool,
}

impl Default for DragAndDrop {
    /// Both targets start enabled so either can be chosen first.
    fn default() -> (r: Self)
        ensures
            r.file_path@.len() == 0,
            r.use_file,
            r.folder_path@.len() == 0,
            r.use_folder,
    {
        DragAndDrop {
            file_path: String::new(),
            use_file: true,
            folder_path: String::new(),
            use_folder: true,
        }
    }
}

/// The state of the converter tab: the application configuration, the
/// shared progress channel its worker reports into, the chosen target,
/// and the run's step policy and options.
pub struct S2GGui {
    pub app_config: Config,
    pub s2g_sync: S2GSync,
    pub drag_and_drop: DragAndDrop,
    pub steps: S2GSteps,
    pub options: S2GOptions,
    pub is_idle: bool,
    pub current_language: Language,
}

impl S2GGui {
    /// A fresh tab: every stage on, every option off, no target yet.
    pub fn new(app_config: Config) -> (r: S2GGui)
        ensures
            r.app_config == app_config,
            r.drag_and_drop.file_path@.len() == 0,
            r.drag_and_drop.use_file,
            r.drag_and_drop.folder_path@.len() == 0,
            r.drag_and_drop.use_folder,
            r.steps.decompile && r.steps.vtf && r.steps.bmp && r.steps.smd_and_qc
                && r.steps.compile,
            !r.options.force && !r.options.add_suffix && !r.options.ignore_converted
                && !r.options.flatshade,
            r.is_idle,
            r.current_language == Language::Chinese,
    {
        S2GGui {
            app_config,
            s2g_sync: S2GSync::new(),
            drag_and_drop: Default::default(),
            steps: Default::default(),
            options: Default::default(),
            is_idle: true,
            current_language: Language::Chinese,
        }
    }

    /// The path the next run works on: the file when the file target is
    /// the active one, else the folder.
    pub fn target_path(&self) -> (r: String)
        ensures
            r@ == if self.drag_and_drop.use_file {
                self.drag_and_drop.file_path@
            } else {
                self.drag_and_drop.folder_path@
            },
    {
        if self.drag_and_drop.use_file {
            self.drag_and_drop.file_path.clone()
        } else {
            self.drag_and_drop.folder_path.clone()
        }
    }
}

/// Options of the lightmap-baking helper: which of its three phases
/// run, whether textures get the flat-shade flag, and the compiler the
/// last phase invokes.
pub struct BLBHOptions {
    pub convert_texture: bool,
    pub convert_smd: bool,
    pub compile_model: bool,
    pub flat_shade: bool,
    pub studiomdl: String,
    pub wineprefix: Option<String>,
}

impl Default for BLBHOptions {
    /// All three phases on, flat shade on, tools not yet chosen.
    fn default() -> (r: Self)
        ensures
            r.convert_texture && r.convert_smd && r.compile_model && r.flat_shade,
            r.studiomdl@.len() == 0,
            r.wineprefix is None,
    {
        BLBHOptions {
            convert_texture: true,
            convert_smd: true,
            compile_model: true,
            flat_shade: true,
            studiomdl: String::new(),
            wineprefix: None,
        }
    }
}

/// The state of the lightmap-baking helper tab.
pub struct BLBHGui {
    pub config: Config,
    pub smd_path: String,
    pub texture_path: String,
    pub options: BLBHOptions,
    pub clamp_value: String,
    pub check_clamp_value: bool,
    pub status: S2GSync,
    pub current_language: Language,
}

impl BLBHGui {
    /// A fresh tab, with the UV clamp factor at its default.
    pub fn new(config: Config) -> (r: BLBHGui)
        ensures
            r.config == config,
            r.smd_path@.len() == 0,
            r.texture_path@.len() == 0,
            r.options.convert_texture && r.options.convert_smd && r.options.compile_model
                && r.options.flat_shade,
            r.clamp_value@ == "0.001"@,
            !r.check_clamp_value,
            r.current_language == Language::Chinese,
    {
        let status = S2GSync::new();
        status.set_text("Idle");
        BLBHGui {
            config,
            smd_path: String::new(),
            texture_path: String::new(),
            options: Default::default(),
            clamp_value: String::from_str("0.001"),
            check_clamp_value: false,
            status,
            current_language: Language::Chinese,
        }
    }
}

/// Options of the map-to-model converter.
pub struct Map2MdlOptions {
    pub auto_pickup_wad: bool,
    pub export_texture: bool,
    pub move_to_origin: bool,
    pub marked_entity: bool,
    pub flatshade: bool,
    pub uppercase: bool,
    pub reverse_normal: bool,
}

impl Default for Map2MdlOptions {
    /// Archives are picked up and textures exported by default; the
    /// model is centered; the rewriting options start off.
    fn default() -> (r: Self)
        ensures
            r.auto_pickup_wad && r.export_texture && r.move_to_origin,
            !r.marked_entity && !r.flatshade && !r.uppercase && !r.reverse_normal,
    {
        Map2MdlOptions {
            auto_pickup_wad: true,
            export_texture: true,
            move_to_origin: true,
            marked_entity: false,
            flatshade: false,
            uppercase: false,
            reverse_normal: false,
        }
    }
}

/// The state of the map-to-model tab: a map file or a pasted entity as
/// input, never both at once.
pub struct Map2MdlGui {
    pub app_config: Config,
    pub map: String,
    pub entity: String,
    pub use_entity: bool,
    pub options: Map2MdlOptions,
    pub sync: S2GSync,
    pub current_language: Language,
    pub extensions: String,
}

impl Map2MdlGui {
    /// A fresh tab: no input yet, the map side active.
    pub fn new(app_config: Config) -> (r: Map2MdlGui)
        ensures
            r.app_config == app_config,
            r.map@.len() == 0,
            r.entity@.len() == 0,
            !r.use_entity,
            r.options.auto_pickup_wad && r.options.export_texture && r.options.move_to_origin,
            !r.options.marked_entity && !r.options.flatshade && !r.options.uppercase
                && !r.options.reverse_normal,
            r.current_language == Language::Chinese,
            r.extensions@.len() == 0,
    {
        Map2MdlGui {
            app_config,
            map: String::new(),
            entity: String::new(),
            use_entity: false,
            options: Default::default(),
            sync: S2GSync::new(),
            current_language: Language::Chinese,
            extensions: String::new(),
        }
    }
}

/// Options of the resource-manifest builder.
pub struct ResMakeOptions {
    pub res: bool,
    pub zip: bool,
    pub wad_check: bool,
    pub include_default_resource: bool,
    pub zip_ignore_missing: bool,
    pub create_linked_wad: bool,
    pub skip_created_res: bool,
}

impl Default for ResMakeOptions {
    /// Only the manifest itself is produced by default.
    fn default() -> (r: Self)
        ensures
            r.res,
            !r.zip && !r.wad_check && !r.include_default_resource && !r.zip_ignore_missing
                && !r.create_linked_wad && !r.skip_created_res,
    {
        ResMakeOptions {
            res: true,
            zip: false,
            wad_check: false,
            include_default_resource: false,
            zip_ignore_missing: false,
            create_linked_wad: false,
            skip_created_res: false,
        }
    }
}

/// The state of the miscellaneous-tools tab: a model splitter, a sound
/// looper and the resource-manifest builder, each with its own status
/// line.
pub struct Misc {
    pub qc: String,
    pub wav: String,
    pub bsp: String,
    pub resmake_options: ResMakeOptions,
    pub split_model_status: S2GSync,
    pub loop_wave_loop: bool,
    pub loop_wave_status: S2GSync,
    pub resmake_status: S2GSync,
    pub language: Language,
}

impl Default for Misc {
    /// A fresh tab: no inputs, looping on, every status line idle.
    fn default() -> (r: Self)
        ensures
            r.qc@.len() == 0,
            r.wav@.len() == 0,
            r.bsp@.len() == 0,
            r.resmake_options.res,
            !r.resmake_options.zip && !r.resmake_options.wad_check
                && !r.resmake_options.include_default_resource
                && !r.resmake_options.zip_ignore_missing && !r.resmake_options.create_linked_wad
                && !r.resmake_options.skip_created_res,
            r.loop_wave_loop,
            r.language == Language::Chinese,
    {
        let idle = get_text(TextKey::Idle, Language::Chinese);
        let split_model_status = S2GSync::new();
        split_model_status.set_text(idle);
        let loop_wave_status = S2GSync::new();
        loop_wave_status.set_text(idle);
        let resmake_status = S2GSync::new();
        resmake_status.set_text(idle);
        Misc {
            qc: String::new(),
            wav: String::new(),
            bsp: String::new(),
            resmake_options: Default::default(),
            split_model_status,
            loop_wave_loop: true,
            loop_wave_status,
            resmake_status,
            language: Language::Chinese,
        }
    }
}

/// Options of the texture-tiling processor.  The tiling scalar
/// multiplies a texture's dimensions; the transparency threshold is the
/// share of one dominant colour, in percent, above which a texture is
/// treated as transparent.
pub struct TexTileOptions {
    pub extensions: Vec<String>,
    pub is_tiling: bool,
    pub tiling_scalar: u32,
    pub is_transparent: bool,
    pub transparent_threshold_percent: u32,
    pub change_name: bool,
}

impl Default for TexTileOptions {
    /// The common raster formats are accepted; names are rewritten but
    /// nothing is tiled or made transparent until asked.
    fn default() -> (r: Self)
        ensures
            r.extensions.deep_view() =~= seq!["png"@, "jpg"@, "jpeg"@, "bmp"@],
            !r.is_tiling,
            r.tiling_scalar == 1,
            !r.is_transparent,
            r.transparent_threshold_percent == 75,
            r.change_name,
    {
        let mut extensions: Vec<String> = Vec::new();
        extensions.push(String::from_str("png"));
        extensions.push(String::from_str("jpg"));
        extensions.push(String::from_str("jpeg"));
        extensions.push(String::from_str("bmp"));
        proof {
            assert(extensions.deep_view() =~= seq!["png"@, "jpg"@, "jpeg"@, "bmp"@]);
        }
        TexTileOptions {
            extensions,
            is_tiling: false,
            tiling_scalar: 1,
            is_transparent: false,
            transparent_threshold_percent: 75,
            change_name: true,
        }
    }
}

impl TexTileOptions {
    /// Whether the processor accepts this item: its extension is one of
    /// the accepted ones.
    pub fn check_item(&self, path: &str) -> (r: bool)
        ensures
            r == exists|j: int|
                0 <= j < self.extensions@.len() && has_extension_spec(
                    path@,
                    (#[trigger] self.extensions@[j])@,
                ),
    {
        let mut j: usize = 0;
        while j < self.extensions.len()
            invariant
                j <= self.extensions@.len(),
                forall|k: int|
                    0 <= k < j ==> !has_extension_spec(path@, (#[trigger] self.extensions@[k])@),
            decreases self.extensions@.len() - j,
        {
            if has_extension(path, self.extensions[j].as_str()) {
                return true;
            }
            j += 1;
        }
        false
    }
}

/// The state of the texture-tiling tab: the items queued for the next
/// run, the options, and the raw extension text the options are parsed
/// from.
pub struct TexTileGui {
    pub items: Vec<String>,
    pub options: TexTileOptions,
    pub extensions: String,
    pub sync: S2GSync,
    pub current_language: Language,
}

impl Default for TexTileGui {
    /// A fresh tab: no items, default options, and the extension text
    /// showing exactly the default extensions.
    fn default() -> (r: Self)
        ensures
            r.items@.len() == 0,
            r.extensions@ == joined_with_spaces(r.options.extensions.deep_view()),
            !r.options.is_tiling,
            r.options.change_name,
            r.current_language == Language::Chinese,
    {
        let options: TexTileOptions = Default::default();
        let extensions = join_with_spaces(&options.extensions);
        TexTileGui {
            items: Vec::new(),
            options,
            extensions,
            sync: S2GSync::new(),
            current_language: Language::Chinese,
        }
    }
}

impl TexTileGui {
    /// Re-parses the extension text into the options: the accepted
    /// extensions become exactly the whitespace-separated tokens.
    pub fn update_extensions(&mut self)
        ensures
            final(self).options.extensions.deep_view() == split_whitespace_spec(
                old(self).extensions@,
            ),
            final(self).items == old(self).items,
            final(self).extensions == old(self).extensions,
            final(self).options.is_tiling == old(self).options.is_tiling,
            final(self).options.tiling_scalar == old(self).options.tiling_scalar,
            final(self).options.is_transparent == old(self).options.is_transparent,
            final(self).options.transparent_threshold_percent
                == old(self).options.transparent_threshold_percent,
            final(self).options.change_name == old(self).options.change_name,
            final(self).current_language == old(self).current_language,
    {
        let tokens = split_whitespace_tokens(self.extensions.as_str());
        self.options.extensions = tokens;
    }

    /// Queues one item, after refreshing the accepted extensions from
    /// the extension text: the item joins the list exactly when it
    /// carries one of them.
    pub fn add_item(&mut self, path: &str)
        ensures
            final(self).options.extensions.deep_view() == split_whitespace_spec(
                old(self).extensions@,
            ),
            final(self).extensions == old(self).extensions,
            (exists|j: int|
                0 <= j < split_whitespace_spec(old(self).extensions@).len() && has_extension_spec(
                    path@,
                    #[trigger] split_whitespace_spec(old(self).extensions@)[j],
                )) ==> final(self).items@.len() == old(self).items@.len() + 1
                && final(self).items@.last()@ == path@ && (forall|i: int|
                0 <= i < old(self).items@.len() ==> final(self).items@[i] == old(self).items@[i]),
            !(exists|j: int|
                0 <= j < split_whitespace_spec(old(self).extensions@).len() && has_extension_spec(
                    path@,
                    #[trigger] split_whitespace_spec(old(self).extensions@)[j],
                )) ==> final(self).items == old(self).items,
    {
        self.update_extensions();
        let ok = self.options.check_item(path);
        proof {
            let toks = split_whitespace_spec(old(self).extensions@);
            assert(forall|j: int|
                0 <= j < toks.len() ==> #[trigger] toks[j] == self.options.extensions@[j]@);
            if ok {
                let j = choose|j: int|
                    0 <= j < self.options.extensions@.len() && has_extension_spec(
                        path@,
                        (#[trigger] self.options.extensions@[j])@,
                    );
                assert(has_extension_spec(path@, toks[j]));
            } else {
                assert(!(exists|j: int|
                    0 <= j < toks.len() && has_extension_spec(path@, #[trigger] toks[j]))) by {
                    if exists|j: int|
                        0 <= j < toks.len() && has_extension_spec(path@, #[trigger] toks[j]) {
                        let j = choose|j: int|
                            0 <= j < toks.len() && has_extension_spec(path@, #[trigger] toks[j]);
                        assert(has_extension_spec(path@, (self.options.extensions@[j])@));
                    }
                }
            }
        }
        if ok {
            self.items.push(String::from_str(path));
        }
    }
}

} // verus!
