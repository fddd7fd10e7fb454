//! The step policy: which stages of the conversion pipeline run, and in
//! what order.  The order of the stages is fixed once and for all; a
//! policy only switches individual stages on or off, and requesting the
//! compile stage always pulls the assembly stage in with it, because the
//! compiler consumes the files that assembly produces.

use vstd::prelude::*;

verus! {

/// One stage of the conversion pipeline, in the fixed global order:
/// decompile the source model, convert its textures out of the source
/// raster format, convert them into the target raster format, assemble
/// the descriptor and mesh files, compile the target model.
#[derive(Clone, Copy, Debug, PartialEq, Eq, Structural)]
pub enum Stage {
    Decompile,
    ConvertVtf,
    ConvertBmp,
    Assemble,
    Compile,
}

/// Position of a stage in the fixed global order.
pub open spec fn stage_index(s: Stage) -> int {
    match s {
        Stage::Decompile => 0,
        Stage::ConvertVtf => 1,
        Stage::ConvertBmp => 2,
        Stage::Assemble => 3,
        Stage::Compile => 4,
    }
}

/// The five stage switches of a run, each independently settable.
#[derive(Clone, Copy, Debug, PartialEq, Eq, Structural)]
pub struct S2GSteps {
    pub decompile: bool,
    pub vtf: bool,
    pub bmp: bool,
    pub smd_and_qc: bool,
    pub compile: bool,
}

impl Default for S2GSteps {
    /// Every stage is enabled by default.
    fn default() -> (r: Self)
        ensures
            r.decompile && r.vtf && r.bmp && r.smd_and_qc && r.compile,
    {
        S2GSteps { decompile: true, vtf: true, bmp: true, smd_and_qc: true, compile: true }
    }
}

/// Whether a policy makes a stage run.  Assembly also runs whenever the
/// compile stage is requested.
pub open spec fn stage_enabled(s: S2GSteps, st: Stage) -> bool {
    match st {
        Stage::Decompile => s.decompile,
        Stage::ConvertVtf => s.vtf,
        Stage::ConvertBmp => s.bmp,
        Stage::Assemble => s.smd_and_qc || s.compile,
        Stage::Compile => s.compile,
    }
}

/// The stages a policy runs, in the fixed global order.
pub open spec fn spec_effective_steps(s: S2GSteps) -> Seq<Stage> {
    (if s.decompile {
        seq![Stage::Decompile]
    } else {
        Seq::<Stage>::empty()
    }) + (if s.vtf {
        seq![Stage::ConvertVtf]
    } else {
        Seq::<Stage>::empty()
    }) + (if s.bmp {
        seq![Stage::ConvertBmp]
    } else {
        Seq::<Stage>::empty()
    }) + (if s.smd_and_qc || s.compile {
        seq![Stage::Assemble]
    } else {
        Seq::<Stage>::empty()
    }) + (if s.compile {
        seq![Stage::Compile]
    } else {
        Seq::<Stage>::empty()
    })
}

impl S2GSteps {
    /// The ordered list of stages this policy runs.
    pub fn effective_steps(&self) -> (r: Vec<Stage>)
        ensures
            r@ == spec_effective_steps(*self),
    {
        let mut r: Vec<Stage> = Vec::new();
        if self.decompile {
            r.push(Stage::Decompile);
        }
        if self.vtf {
            r.push(Stage::ConvertVtf);
        }
        if self.bmp {
            r.push(Stage::ConvertBmp);
        }
        if self.smd_and_qc || self.compile {
            r.push(Stage::Assemble);
        }
        if self.compile {
            r.push(Stage::Compile);
        }
        proof {
            assert(r@ =~= spec_effective_steps(*self));
        }
        r
    }
}

/// A stage appears among the effective steps exactly when the policy
/// enables it.
pub proof fn lemma_effective_steps_membership(s: S2GSteps, st: Stage)
    ensures
        spec_effective_steps(s).contains(st) <==> stage_enabled(s, st),
{
    let e = spec_effective_steps(s);
    let a: int = if s.decompile {
        1
    } else {
        0
    };
    let b: int = a + if s.vtf {
        1int
    } else {
        0
    };
    let c: int = b + if s.bmp {
        1int
    } else {
        0
    };
    let d: int = c + if s.smd_and_qc || s.compile {
        1int
    } else {
        0
    };
    if stage_enabled(s, st) {
        match st {
            Stage::Decompile => {
                assert(e[0] == Stage::Decompile);
            },
            Stage::ConvertVtf => {
                assert(e[a] == Stage::ConvertVtf);
            },
            Stage::ConvertBmp => {
                assert(e[b] == Stage::ConvertBmp);
            },
            Stage::Assemble => {
                assert(e[c] == Stage::Assemble);
            },
            Stage::Compile => {
                assert(e[d] == Stage::Compile);
            },
        }
    }
}

/// The effective steps never contain the compile stage without the
/// assembly stage, and are always strictly sorted by the fixed global
/// order (so no stage repeats and the order never varies).
pub proof fn lemma_effective_steps_well_formed(s: S2GSteps)
    ensures
        spec_effective_steps(s).contains(Stage::Compile) ==> spec_effective_steps(s).contains(
            Stage::Assemble,
        ),
        forall|i: int, j: int|
            0 <= i < j < spec_effective_steps(s).len() ==> stage_index(
                #[trigger] spec_effective_steps(s)[i],
            ) < stage_index(#[trigger] spec_effective_steps(s)[j]),
{
    lemma_effective_steps_membership(s, Stage::Compile);
    lemma_effective_steps_membership(s, Stage::Assemble);
}

} // verus!
