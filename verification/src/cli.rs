//! The decisions behind the command-line subcommands.  Parsing the
//! command line and printing belong to the shell; what is verified here
//! is how parsed flags become a step policy, and which textures a map
//! misses.

use vstd::prelude::*;

use crate::steps::S2GSteps;

verus! {

/// The converter subcommand.
pub struct S2GCli;

impl S2GCli {
    /// The subcommand's name.
    pub fn name(&self) -> (r: &'static str)
        ensures
            r@ == "s2g"@,
    {
        "s2g"
    }
}

/// The command line expresses the policy negatively — each flag skips
/// its stage — while the policy holds what runs: every field is its
/// flag's negation.
pub fn steps_from_skip_flags(
    skip_decompile: bool,
    skip_vtf: bool,
    skip_bmp: bool,
    skip_assembly: bool,
    skip_compile: bool,
) -> (r: S2GSteps)
    ensures
        r.decompile == !skip_decompile,
        r.vtf == !skip_vtf,
        r.bmp == !skip_bmp,
        r.smd_and_qc == !skip_assembly,
        r.compile == !skip_compile,
{
    S2GSteps {
        decompile: !skip_decompile,
        vtf: !skip_vtf,
        bmp: !skip_bmp,
        smd_and_qc: !skip_assembly,
        compile: !skip_compile,
    }
}

/// The texture-coverage subcommand.
pub struct CheckMissingTexture;

impl CheckMissingTexture {
    /// The subcommand's name.
    pub fn name(&self) -> (r: &'static str)
        ensures
            r@ == "missing_texture"@,
    {
        "missing_texture"
    }
}

/// True when some entry of `avail` reads `t`.
pub open spec fn contains_text(avail: Seq<String>, t: Seq<char>) -> bool {
    exists|i: int| 0 <= i < avail.len() && (#[trigger] avail[i])@ == t
}

/// The entries of `used` that no entry of `avail` covers, in order,
/// repeats included.
pub open spec fn missing_textures_spec(used: Seq<String>, avail: Seq<String>) -> Seq<String> {
    used.filter(|t: String| !contains_text(avail, t@))
}

/// Whether `t` occurs in `v`.
pub fn contains_string(v: &Vec<String>, t: &String) -> (r: bool)
    ensures
        r == contains_text(v@, t@),
{
    let mut i: usize = 0;
    while i < v.len()
        invariant
            i <= v@.len(),
            forall|k: int| 0 <= k < i ==> (#[trigger] v@[k])@ != t@,
        decreases v@.len() - i,
    {
        if v[i].eq(t) {
            proof {
                assert((v@[i as int])@ == t@);
            }
            return true;
        }
        i += 1;
    }
    false
}

proof fn lemma_missing_textures_step(used: Seq<String>, avail: Seq<String>, i: int)
    requires
        0 <= i < used.len(),
    ensures
        missing_textures_spec(used.take(i + 1), avail) == if contains_text(avail, used[i]@) {
            missing_textures_spec(used.take(i), avail)
        } else {
            missing_textures_spec(used.take(i), avail).push(used[i])
        },
{
    reveal(Seq::filter);
    assert(used.take(i + 1).drop_last() =~= used.take(i));
}

/// The textures the map uses that none of the loaded archives
/// provides: the caller extracts the used and the provided names, this
/// function reports every used name without cover, in the order of
/// use.
pub fn missing_textures(used: &Vec<String>, available: &Vec<String>) -> (r: Vec<String>)
    ensures
        r@ == missing_textures_spec(used@, available@),
{
    let mut r: Vec<String> = Vec::new();
    let mut i: usize = 0;
    while i < used.len()
        invariant
            i <= used@.len(),
            r@ == missing_textures_spec(used@.take(i as int), available@),
        decreases used@.len() - i,
    {
        proof {
            lemma_missing_textures_step(used@, available@, i as int);
        }
        if !contains_string(available, &used[i]) {
            r.push(used[i].clone());
        }
        i += 1;
    }
    proof {
        assert(used@.take(used@.len() as int) =~= used@);
    }
    r
}

} // verus!
