//! The batch walker: which files a run works on.  The walker itself
//! never touches the file system; the caller says whether the target is
//! a file or a directory and lists the directory's entries, and the
//! functions here select the eligible model files and derive the names
//! of converted outputs.

use vstd::prelude::*;

use crate::utils::{ends_with_spec, has_extension, has_extension_spec, str_ends_with};

verus! {

/// True when the path names a model file: its extension is `mdl`.
pub open spec fn is_model_file(p: Seq<char>) -> bool {
    has_extension_spec(p, "mdl"@)
}

/// True when the path already carries the conversion marker: converted
/// models end in `_goldsrc.mdl`.
pub open spec fn has_conversion_marker(p: Seq<char>) -> bool {
    ends_with_spec(p, "_goldsrc.mdl"@)
}

/// True when the walker hands the path to the pipeline: a model file,
/// and not an already-converted one when those are to be skipped.
pub open spec fn eligible_model_spec(p: Seq<char>, ignore_converted: bool) -> bool {
    is_model_file(p) && (ignore_converted ==> !has_conversion_marker(p))
}

/// The entries of a directory listing that the pipeline works on, in
/// their given order.
pub open spec fn eligible_items_spec(entries: Seq<String>, ignore_converted: bool) -> Seq<String> {
    entries.filter(|p: String| eligible_model_spec(p@, ignore_converted))
}

/// Model-file test over whole characters.
pub fn is_model_path(p: &str) -> (r: bool)
    ensures
        r == is_model_file(p@),
{
    has_extension(p, "mdl")
}

/// Conversion-marker test over whole characters.
pub fn has_marker(p: &str) -> (r: bool)
    ensures
        r == has_conversion_marker(p@),
{
    str_ends_with(p, "_goldsrc.mdl")
}

proof fn lemma_eligible_items_step(entries: Seq<String>, ignore_converted: bool, i: int)
    requires
        0 <= i < entries.len(),
    ensures
        eligible_items_spec(entries.take(i + 1), ignore_converted) == if eligible_model_spec(
            entries[i]@,
            ignore_converted,
        ) {
            eligible_items_spec(entries.take(i), ignore_converted).push(entries[i])
        } else {
            eligible_items_spec(entries.take(i), ignore_converted)
        },
{
    reveal(Seq::filter);
    assert(entries.take(i + 1).drop_last() =~= entries.take(i));
}

/// Selects the entries the pipeline works on: exactly the model files,
/// minus the already-converted ones when `ignore_converted` is set, in
/// the order given.
pub fn eligible_items(entries: &Vec<String>, ignore_converted: bool) -> (r: Vec<String>)
    ensures
        r@ == eligible_items_spec(entries@, ignore_converted),
{
    let mut r: Vec<String> = Vec::new();
    let mut i: usize = 0;
    while i < entries.len()
        invariant
            i <= entries@.len(),
            r@ == eligible_items_spec(entries@.take(i as int), ignore_converted),
        decreases entries@.len() - i,
    {
        proof {
            lemma_eligible_items_step(entries@, ignore_converted, i as int);
        }
        let p = entries[i].as_str();
        if is_model_path(p) && (!ignore_converted || !has_marker(p)) {
            r.push(entries[i].clone());
        }
        i += 1;
    }
    proof {
        assert(entries@.take(entries@.len() as int) =~= entries@);
    }
    r
}

/// The name a converted model is written under when the marker suffix
/// is requested: the marker slips in just before the `.mdl` extension;
/// a name without that extension simply gets the marker appended.
pub open spec fn with_goldsrc_suffix_spec(p: Seq<char>) -> Seq<char> {
    if ends_with_spec(p, ".mdl"@) {
        p.take(p.len() - 4) + "_goldsrc"@ + ".mdl"@
    } else {
        p + "_goldsrc"@
    }
}

/// Appends the conversion marker to a model name, in front of its
/// `.mdl` extension.
pub fn with_goldsrc_suffix(path: &str) -> (r: String)
    ensures
        r@ == with_goldsrc_suffix_spec(path@),
{
    proof {
        reveal_strlit(".mdl");
    }
    let n: usize = path.unicode_len();
    if str_ends_with(path, ".mdl") {
        let stem = path.substring_char(0, n - 4);
        let r = String::from_str(stem).concat("_goldsrc").concat(".mdl");
        proof {
            assert(stem@ =~= path@.take(path@.len() - 4));
        }
        r
    } else {
        String::from_str(path).concat("_goldsrc")
    }
}

/// What rerunning a suffixing run skips: a model name that went through
/// `with_goldsrc_suffix` carries the marker, so the walker leaves it out
/// whenever `ignore_converted` is set.  Together with
/// `eligible_items`'s contract this makes a rerun over a previous run's
/// outputs a no-op on them.
pub proof fn lemma_suffixed_output_not_eligible(p: Seq<char>)
    requires
        is_model_file(p),
    ensures
        has_conversion_marker(with_goldsrc_suffix_spec(p)),
        !eligible_model_spec(with_goldsrc_suffix_spec(p), true),
{
    reveal_strlit("mdl");
    reveal_strlit(".mdl");
    reveal_strlit("_goldsrc");
    reveal_strlit("_goldsrc.mdl");
    assert((seq!['.'] + "mdl"@) =~= ".mdl"@);
    assert(ends_with_spec(p, ".mdl"@)) by {
        assert(p.subrange(p.len() - 4, p.len() as int) == p.subrange(
            p.len() - (seq!['.'] + "mdl"@).len(),
            p.len() as int,
        ));
    }
    let q = with_goldsrc_suffix_spec(p);
    assert(q.subrange(q.len() - 12, q.len() as int) =~= "_goldsrc.mdl"@);
}

/// Appending one more entry to a directory listing changes the work set
/// in the only two ways possible: an ineligible entry (whatever its
/// number of siblings) adds nothing, an eligible model file adds
/// exactly itself at the end.
pub proof fn lemma_one_more_entry(entries: Seq<String>, e: String, ignore_converted: bool)
    ensures
        !eligible_model_spec(e@, ignore_converted) ==> eligible_items_spec(
            entries.push(e),
            ignore_converted,
        ) == eligible_items_spec(entries, ignore_converted),
        eligible_model_spec(e@, ignore_converted) ==> eligible_items_spec(
            entries.push(e),
            ignore_converted,
        ) == eligible_items_spec(entries, ignore_converted).push(e),
{
    reveal(Seq::filter);
    assert(entries.push(e).drop_last() =~= entries);
}

/// How many entries of a listing the pipeline would work on.
pub open spec fn count_eligible(entries: Seq<String>, ignore_converted: bool) -> int
    decreases entries.len(),
{
    if entries.len() == 0 {
        0
    } else {
        count_eligible(entries.drop_last(), ignore_converted) + if eligible_model_spec(
            entries.last()@,
            ignore_converted,
        ) {
            1int
        } else {
            0int
        }
    }
}

/// A listing yields exactly one work item per eligible model file in
/// it, however many other entries surround them; a listing without
/// eligible entries yields none.
pub proof fn lemma_work_set_size(entries: Seq<String>, ignore_converted: bool)
    ensures
        eligible_items_spec(entries, ignore_converted).len() == count_eligible(
            entries,
            ignore_converted,
        ),
    decreases entries.len(),
{
    reveal(Seq::filter);
    if entries.len() > 0 {
        lemma_work_set_size(entries.drop_last(), ignore_converted);
    }
}

/// What kind of thing the target path turned out to be on disk.
#[derive(Clone, Copy, Debug, PartialEq, Eq, Structural)]
pub enum PathKind {
    File,
    Directory,
    Missing,
}

/// The target was neither a model file nor a directory; the run aborts
/// before any stage executes.
#[derive(Debug)]
pub struct WalkError {
    pub path: String,
}

/// Turns the target into the run's work set.  A single model file is
/// its own work set; any other single file yields an empty one.  For a
/// directory the caller passes the recursively collected entries and
/// the eligible ones are selected.  A target that is neither is a
/// `WalkError`.
pub fn collect_work_items(
    path: &str,
    kind: PathKind,
    dir_entries: &Vec<String>,
    ignore_converted: bool,
) -> (r: Result<Vec<String>, WalkError>)
    ensures
        match r {
            Ok(items) => match kind {
                PathKind::File => (if is_model_file(path@) {
                    items@.len() == 1 && items@[0]@ == path@
                } else {
                    items@.len() == 0
                }),
                PathKind::Directory => items@ == eligible_items_spec(
                    dir_entries@,
                    ignore_converted,
                ),
                PathKind::Missing => false,
            },
            Err(e) => kind is Missing && e.path@ == path@,
        },
{
    match kind {
        PathKind::File => {
            let mut items: Vec<String> = Vec::new();
            if is_model_path(path) {
                items.push(String::from_str(path));
            }
            Ok(items)
        },
        PathKind::Directory => Ok(eligible_items(dir_entries, ignore_converted)),
        PathKind::Missing => Err(WalkError { path: String::from_str(path) }),
    }
}

} // verus!
