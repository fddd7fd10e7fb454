//! The pipeline coordinator: the immutable per-run configuration, the
//! work items with their derived artifact names, the command lines the
//! stages invoke, and the facade that ties the step policy, the walker
//! and the run state machine together.

use vstd::prelude::*;

use crate::run::{S2GOptions, S2GRun};
use crate::steps::{spec_effective_steps, S2GSteps};
use crate::utils::strip_suffix_spec;
use crate::utils::strip_suffix;
use crate::walker::{
    collect_work_items, eligible_items_spec, is_model_file, with_goldsrc_suffix,
    with_goldsrc_suffix_spec, PathKind, WalkError,
};

verus! {

/// Why a run could not even be configured.
#[derive(Clone, Copy, Debug, PartialEq, Eq, Structural)]
pub enum ConfigError {
    MissingStudiomdl,
    MissingCrowbar,
    MissingWineprefix,
}

/// The immutable tool configuration of one run: the compiler and the
/// decompiler, and — on hosts that cannot execute the compiler natively
/// — the platform-runtime prefix.
#[derive(Debug)]
pub struct ToolConfig {
    pub studiomdl: String,
    pub crowbar: String,
    pub wineprefix: Option<String>,
}

impl ToolConfig {
    /// Validates and freezes the tool configuration.  Each path must be
    /// given; the runtime prefix only when `needs_runtime` says the
    /// host requires one.  Whether the paths actually exist on disk is
    /// checked by whoever read them, before the run starts.
    pub fn new(studiomdl: String, crowbar: String, wineprefix: Option<String>, needs_runtime: bool) -> (r:
        Result<ToolConfig, ConfigError>)
        ensures
            match r {
                Ok(c) => {
                    &&& studiomdl@.len() > 0
                    &&& crowbar@.len() > 0
                    &&& (needs_runtime ==> wineprefix is Some)
                    &&& c.studiomdl == studiomdl
                    &&& c.crowbar == crowbar
                    &&& c.wineprefix == wineprefix
                },
                Err(e) => match e {
                    ConfigError::MissingStudiomdl => studiomdl@.len() == 0,
                    ConfigError::MissingCrowbar => studiomdl@.len() > 0 && crowbar@.len() == 0,
                    ConfigError::MissingWineprefix => studiomdl@.len() > 0 && crowbar@.len() > 0
                        && needs_runtime && wineprefix is None,
                },
            },
    {
        if studiomdl.as_str().is_empty() {
            Err(ConfigError::MissingStudiomdl)
        } else if crowbar.as_str().is_empty() {
            Err(ConfigError::MissingCrowbar)
        } else if needs_runtime && wineprefix.is_none() {
            Err(ConfigError::MissingWineprefix)
        } else {
            Ok(ToolConfig { studiomdl, crowbar, wineprefix })
        }
    }
}

/// One input model and the artifact names derived from it.
#[derive(Debug)]
pub struct WorkItem {
    pub mdl_path: String,
}

impl WorkItem {
    pub fn new(mdl_path: String) -> (r: WorkItem)
        ensures
            r.mdl_path == mdl_path,
    {
        WorkItem { mdl_path }
    }

    /// The item's path without its `.mdl` extension: the stem every
    /// stage derives its artifact names from.  The decompiler unpacks
    /// into the directory of this name.
    pub fn stem(&self) -> (r: String)
        ensures
            r@ == strip_suffix_spec(self.mdl_path@, ".mdl"@),
    {
        strip_suffix(self.mdl_path.as_str(), ".mdl")
    }

    /// The descriptor file the assembly stage writes and the compile
    /// stage consumes: the stem with `.qc` appended.
    pub fn qc_path(&self) -> (r: String)
        ensures
            r@ == strip_suffix_spec(self.mdl_path@, ".mdl"@) + ".qc"@,
    {
        self.stem().concat(".qc")
    }

    /// Where the compiled model ends up: the input name itself, or with
    /// the conversion marker spliced in before the extension when the
    /// run tags its outputs.
    pub fn output_mdl(&self, add_suffix: bool) -> (r: String)
        ensures
            add_suffix ==> r@ == with_goldsrc_suffix_spec(self.mdl_path@),
            !add_suffix ==> r@ == self.mdl_path@,
    {
        if add_suffix {
            with_goldsrc_suffix(self.mdl_path.as_str())
        } else {
            self.mdl_path.clone()
        }
    }
}

/// One external-tool invocation, ready to spawn: the program, its
/// arguments, and the runtime prefix to export when the tool is not
/// native to the host.
#[derive(Debug)]
pub struct Invocation {
    pub program: String,
    pub args: Vec<String>,
    pub wineprefix: Option<String>,
}

/// The decompile stage's command: the decompiler, on the input model,
/// unpacking into the directory named after the item's stem.
pub fn decompile_invocation(config: &ToolConfig, item: &WorkItem) -> (r: Invocation)
    ensures
        r.program == config.crowbar,
        r.args@.len() == 2,
        r.args@[0] == item.mdl_path,
        r.args@[1]@ == strip_suffix_spec(item.mdl_path@, ".mdl"@),
        r.wineprefix == config.wineprefix,
{
    let mut args: Vec<String> = Vec::new();
    args.push(item.mdl_path.clone());
    args.push(item.stem());
    Invocation {
        program: config.crowbar.clone(),
        args,
        wineprefix: match &config.wineprefix {
            Some(w) => Some(w.clone()),
            None => None,
        },
    }
}

/// The compile stage's command: the compiler, on the item's assembled
/// descriptor.
pub fn compile_invocation(config: &ToolConfig, item: &WorkItem) -> (r: Invocation)
    ensures
        r.program == config.studiomdl,
        r.args@.len() == 1,
        r.args@[0]@ == strip_suffix_spec(item.mdl_path@, ".mdl"@) + ".qc"@,
        r.wineprefix == config.wineprefix,
{
    let mut args: Vec<String> = Vec::new();
    args.push(item.qc_path());
    Invocation {
        program: config.studiomdl.clone(),
        args,
        wineprefix: match &config.wineprefix {
            Some(w) => Some(w.clone()),
            None => None,
        },
    }
}

/// The file the first texture-conversion stage must produce for a
/// source texture: same stem, target raster format.
pub fn vtf_to_png_path(texture: &str) -> (r: String)
    ensures
        r@ == strip_suffix_spec(texture@, ".vtf"@) + ".png"@,
{
    strip_suffix(texture, ".vtf").concat(".png")
}

/// The file the second texture-conversion stage must produce: same
/// stem, the compiler's raster format.
pub fn png_to_bmp_path(texture: &str) -> (r: String)
    ensures
        r@ == strip_suffix_spec(texture@, ".png"@) + ".bmp"@,
{
    strip_suffix(texture, ".png").concat(".bmp")
}

/// The pipeline coordinator: one target (a model file or a directory),
/// the frozen tool configuration, the step policy and the run options.
#[derive(Debug)]
pub struct S2G {
    pub target: String,
    pub config: ToolConfig,
    pub steps: S2GSteps,
    pub options: S2GOptions,
}

impl S2G {
    pub fn new(target: String, config: ToolConfig, steps: S2GSteps, options: S2GOptions) -> (r: S2G)
        ensures
            r.target == target,
            r.config == config,
            r.steps == steps,
            r.options == options,
    {
        S2G { target, config, steps, options }
    }

    /// Builds the run for this coordinator's target: the walker turns
    /// the target into the work set (honouring `ignore_converted`), the
    /// policy into the effective steps, and the machine starts from
    /// there.  A target that is neither a model file nor a directory is
    /// refused before any stage executes.
    pub fn begin(&self, kind: PathKind, dir_entries: &Vec<String>) -> (r: Result<S2GRun, WalkError>)
        ensures
            match r {
                Ok(run) => {
                    &&& run.wf()
                    &&& run.steps@ == spec_effective_steps(self.steps)
                    &&& run.force == self.options.force
                    &&& !run.cancel_requested
                    &&& !run.cancelled
                    &&& match kind {
                        PathKind::File => (if is_model_file(self.target@) {
                            run.items@.len() == 1 && run.items@[0]@ == self.target@
                        } else {
                            run.items@.len() == 0
                        }),
                        PathKind::Directory => run.items@ == eligible_items_spec(
                            dir_entries@,
                            self.options.ignore_converted,
                        ),
                        PathKind::Missing => false,
                    }
                },
                Err(e) => kind is Missing && e.path@ == self.target@,
            },
    {
        let steps = self.steps.effective_steps();
        match collect_work_items(
            self.target.as_str(),
            kind,
            dir_entries,
            self.options.ignore_converted,
        ) {
            Ok(items) => Ok(S2GRun::new(items, steps, self.options.force)),
            Err(e) => Err(e),
        }
    }
}

} // verus!
