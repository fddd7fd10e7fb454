//! String and path helpers shared by the pipeline, the walker and the
//! front-end state types.  Paths are handled as plain strings with `/` as
//! the separator; a path is treated as absolute exactly when it starts
//! with `/`.

use vstd::prelude::*;

verus! {

/// True when `suffix` is a suffix of `s`.
pub open spec fn ends_with_spec(s: Seq<char>, suffix: Seq<char>) -> bool {
    s.len() >= suffix.len() && s.subrange(s.len() - suffix.len(), s.len() as int) == suffix
}

/// Suffix test over whole characters.
pub fn str_ends_with(s: &str, suffix: &str) -> (r: bool)
    ensures
        r == ends_with_spec(s@, suffix@),
{
    let n: usize = s.unicode_len();
    let m: usize = suffix.unicode_len();
    if m > n {
        return false;
    }
    let off: usize = n - m;
    let mut i: usize = 0;
    while i < m
        invariant
            m <= n,
            off == n - m,
            i <= m,
            n == s@.len(),
            m == suffix@.len(),
            forall|j: int| 0 <= j < i ==> s@[off + j] == suffix@[j],
        decreases m - i,
    {
        if s.get_char(off + i) != suffix.get_char(i) {
            proof {
                if ends_with_spec(s@, suffix@) {
                    assert(suffix@[i as int] == s@.subrange(
                        s@.len() - suffix@.len(),
                        s@.len() as int,
                    )[i as int]);
                }
            }
            return false;
        }
        i += 1;
    }
    proof {
        assert(s@.subrange(s@.len() - suffix@.len(), s@.len() as int) =~= suffix@);
    }
    true
}

/// What the string becomes when the extension `ext` is ensured:
/// unchanged when it already ends in `.ext`, else with `.ext` appended.
pub open spec fn with_extension_spec(s: Seq<char>, ext: Seq<char>) -> Seq<char> {
    if ends_with_spec(s, seq!['.'] + ext) {
        s
    } else {
        s + seq!['.'] + ext
    }
}

/// Appends `.ext` to `s` unless `s` already ends with it.
pub fn maybe_add_extension_to_string(s: &str, ext: &str) -> (r: String)
    ensures
        r@ == with_extension_spec(s@, ext@),
{
    let ext_with_dot = String::from_str(".").concat(ext);
    proof {
        reveal_strlit(".");
        assert(ext_with_dot@ =~= seq!['.'] + ext@);
    }
    if str_ends_with(s, ext_with_dot.as_str()) {
        String::from_str(s)
    } else {
        String::from_str(s).concat(ext_with_dot.as_str())
    }
}

/// A backslash becomes a forward slash; everything else is kept.
pub open spec fn slash_fixed(c: char) -> char {
    if c == '\\' {
        '/'
    } else {
        c
    }
}

/// The string with every backslash replaced by a forward slash.
pub open spec fn fix_backslash_spec(s: Seq<char>) -> Seq<char> {
    s.map_values(|c: char| slash_fixed(c))
}

/// Replaces every backslash in `i` with a forward slash.
pub fn fix_backslash(i: &str) -> (r: String)
    ensures
        r@ == fix_backslash_spec(i@),
{
    let n: usize = i.unicode_len();
    let mut r = String::new();
    let mut idx: usize = 0;
    while idx < n
        invariant
            idx <= n,
            n == i@.len(),
            r@ =~= fix_backslash_spec(i@.take(idx as int)),
        decreases n - idx,
    {
        let c = i.get_char(idx);
        if c == '\\' {
            r.append("/");
            proof {
                reveal_strlit("/");
            }
        } else {
            let piece = i.substring_char(idx, idx + 1);
            r.append(piece);
        }
        idx += 1;
        proof {
            assert(r@ =~= fix_backslash_spec(i@.take(idx as int)));
        }
    }
    proof {
        assert(i@.take(n as int) =~= i@);
    }
    r
}

/// The texture-name markers this library strips: the flags a texture name
/// may carry in front of (or inside) its base name.
pub open spec fn is_texture_prefix_char(c: char) -> bool {
    c == '{' || c == '!' || c == '~'
}

/// The name with every marker character removed.
pub open spec fn remove_texture_prefix_spec(s: Seq<char>) -> Seq<char> {
    s.filter(|c: char| !is_texture_prefix_char(c))
}

proof fn lemma_remove_texture_prefix_step(s: Seq<char>, i: int)
    requires
        0 <= i < s.len(),
    ensures
        remove_texture_prefix_spec(s.take(i + 1)) == if is_texture_prefix_char(s[i]) {
            remove_texture_prefix_spec(s.take(i))
        } else {
            remove_texture_prefix_spec(s.take(i)).push(s[i])
        },
{
    reveal(Seq::filter);
    assert(s.take(i + 1).drop_last() =~= s.take(i));
}

/// Removes every texture-marker character from `i`.
pub fn remove_texture_prefix(i: &str) -> (r: String)
    ensures
        r@ == remove_texture_prefix_spec(i@),
{
    let n: usize = i.unicode_len();
    let mut r = String::new();
    let mut idx: usize = 0;
    while idx < n
        invariant
            idx <= n,
            n == i@.len(),
            r@ == remove_texture_prefix_spec(i@.take(idx as int)),
        decreases n - idx,
    {
        let c = i.get_char(idx);
        if !(c == '{' || c == '!' || c == '~') {
            let piece = i.substring_char(idx, idx + 1);
            r.append(piece);
        }
        proof {
            lemma_remove_texture_prefix_step(i@, idx as int);
        }
        idx += 1;
    }
    proof {
        assert(i@.take(n as int) =~= i@);
    }
    r
}

/// Joining a root path with a relative one: an absolute `relative` wins,
/// an empty root adds nothing, and exactly one `/` separates the parts.
pub open spec fn join_paths_spec(root: Seq<char>, relative: Seq<char>) -> Seq<char> {
    if relative.len() > 0 && relative[0] == '/' {
        relative
    } else if root.len() == 0 {
        relative
    } else if root.last() == '/' {
        root + relative
    } else {
        root + seq!['/'] + relative
    }
}

/// Joins `relative` onto `root`.
pub fn relative_to_less_relative(root: &str, relative: &str) -> (r: String)
    ensures
        r@ == join_paths_spec(root@, relative@),
{
    let rel_len: usize = relative.unicode_len();
    let root_len: usize = root.unicode_len();
    if rel_len > 0 && relative.get_char(0) == '/' {
        String::from_str(relative)
    } else if root_len == 0 {
        String::from_str(relative)
    } else if root.get_char(root_len - 1) == '/' {
        String::from_str(root).concat(relative)
    } else {
        let r = String::from_str(root).concat("/").concat(relative);
        proof {
            reveal_strlit("/");
            assert(r@ =~= root@ + seq!['/'] + relative@);
        }
        r
    }
}

/// True when the file name at the end of `p` carries the extension `ext`:
/// `p` ends in `.ext` and the dot neither starts the name nor follows a
/// path separator.
pub open spec fn has_extension_spec(p: Seq<char>, ext: Seq<char>) -> bool {
    &&& p.len() >= ext.len() + 2
    &&& ends_with_spec(p, seq!['.'] + ext)
    &&& p[p.len() - ext.len() - 2] != '/'
}

/// Extension test over whole characters.
pub fn has_extension(p: &str, ext: &str) -> (r: bool)
    ensures
        r == has_extension_spec(p@, ext@),
{
    let n: usize = p.unicode_len();
    let m: usize = ext.unicode_len();
    if n <= m || n - m < 2 {
        return false;
    }
    let ext_with_dot = String::from_str(".").concat(ext);
    proof {
        reveal_strlit(".");
        assert(ext_with_dot@ =~= seq!['.'] + ext@);
    }
    str_ends_with(p, ext_with_dot.as_str()) && p.get_char(n - m - 2) != '/'
}

/// The string with `suffix` removed from its end, when it is there.
pub open spec fn strip_suffix_spec(s: Seq<char>, suffix: Seq<char>) -> Seq<char> {
    if ends_with_spec(s, suffix) {
        s.take(s.len() - suffix.len())
    } else {
        s
    }
}

/// Removes `suffix` from the end of `s` if `s` carries it.
pub fn strip_suffix(s: &str, suffix: &str) -> (r: String)
    ensures
        r@ == strip_suffix_spec(s@, suffix@),
{
    let n: usize = s.unicode_len();
    let m: usize = suffix.unicode_len();
    if str_ends_with(s, suffix) {
        let stem = s.substring_char(0, n - m);
        proof {
            assert(stem@ =~= s@.take(s@.len() - suffix@.len()));
        }
        String::from_str(stem)
    } else {
        String::from_str(s)
    }
}

/// ASCII whitespace: the separators that `split_whitespace_tokens`
/// honours.
pub open spec fn is_space(c: char) -> bool {
    c == ' ' || c == '\t' || c == '\n' || c == '\r'
}

/// One pass of the splitter over `s` from position `i` on, carrying the
/// token read so far and the tokens already finished.
pub open spec fn split_ws_from(s: Seq<char>, i: int, cur: Seq<char>, acc: Seq<Seq<char>>) -> Seq<
    Seq<char>,
>
    decreases s.len() - i,
{
    if i < 0 || i >= s.len() {
        if cur.len() > 0 {
            acc.push(cur)
        } else {
            acc
        }
    } else if is_space(s[i]) {
        if cur.len() > 0 {
            split_ws_from(s, i + 1, Seq::empty(), acc.push(cur))
        } else {
            split_ws_from(s, i + 1, cur, acc)
        }
    } else {
        split_ws_from(s, i + 1, cur.push(s[i]), acc)
    }
}

/// The whitespace-separated tokens of `s`, in order: the maximal runs
/// of non-whitespace characters.
pub open spec fn split_whitespace_spec(s: Seq<char>) -> Seq<Seq<char>> {
    split_ws_from(s, 0, Seq::empty(), Seq::empty())
}

/// Splits `s` on ASCII whitespace; tokens keep their order, separators
/// vanish, and no token is empty.
pub fn split_whitespace_tokens(s: &str) -> (r: Vec<String>)
    ensures
        r.deep_view() == split_whitespace_spec(s@),
{
    let n: usize = s.unicode_len();
    let mut r: Vec<String> = Vec::new();
    let mut cur = String::new();
    let mut i: usize = 0;
    proof {
        assert(cur@ =~= Seq::<char>::empty());
        assert(r.deep_view() =~= Seq::<Seq<char>>::empty());
    }
    while i < n
        invariant
            i <= n,
            n == s@.len(),
            split_whitespace_spec(s@) == split_ws_from(s@, i as int, cur@, r.deep_view()),
        decreases n - i,
    {
        let ghost prev_cur = cur@;
        let ghost prev_dv = r.deep_view();
        let c = s.get_char(i);
        if c == ' ' || c == '\t' || c == '\n' || c == '\r' {
            if !cur.as_str().is_empty() {
                let finished = cur;
                cur = String::new();
                r.push(finished);
                proof {
                    assert(r.deep_view() =~= prev_dv.push(prev_cur));
                    assert(cur@ =~= Seq::<char>::empty());
                }
            }
        } else {
            let piece = s.substring_char(i, i + 1);
            cur.append(piece);
            proof {
                assert(cur@ =~= prev_cur.push(s@[i as int]));
            }
        }
        i += 1;
        proof {
            assert(split_ws_from(s@, i - 1, prev_cur, prev_dv) == split_ws_from(
                s@,
                i as int,
                cur@,
                r.deep_view(),
            ));
        }
    }
    if !cur.as_str().is_empty() {
        let ghost prev_cur = cur@;
        let ghost prev_dv = r.deep_view();
        let finished = cur;
        r.push(finished);
        proof {
            assert(r.deep_view() =~= prev_dv.push(prev_cur));
        }
    }
    r
}

/// The parts laid end to end with a single space between them.
pub open spec fn joined_with_spaces(parts: Seq<Seq<char>>) -> Seq<char>
    decreases parts.len(),
{
    if parts.len() == 0 {
        Seq::empty()
    } else if parts.len() == 1 {
        parts[0]
    } else {
        joined_with_spaces(parts.drop_last()) + seq![' '] + parts.last()
    }
}

/// Joins the parts with single spaces.
pub fn join_with_spaces(parts: &Vec<String>) -> (r: String)
    ensures
        r@ == joined_with_spaces(parts.deep_view()),
{
    let mut r = String::new();
    let mut i: usize = 0;
    while i < parts.len()
        invariant
            i <= parts@.len(),
            r@ == joined_with_spaces(parts.deep_view().take(i as int)),
        decreases parts@.len() - i,
    {
        if i > 0 {
            r.append(" ");
        }
        r.append(parts[i].as_str());
        proof {
            reveal_strlit(" ");
            let dv = parts.deep_view();
            assert(dv.take(i + 1).drop_last() =~= dv.take(i as int));
            assert(dv.take(i + 1).last() == dv[i as int]);
            assert(r@ =~= joined_with_spaces(dv.take(i + 1)));
        }
        i += 1;
    }
    proof {
        assert(parts.deep_view().take(parts.deep_view().len() as int) =~= parts.deep_view());
    }
    r
}

/// The entries of `paths` whose extension is `ext`, in their given order.
pub open spec fn filter_by_extension(paths: Seq<String>, ext: Seq<char>) -> Seq<String> {
    paths.filter(|p: String| has_extension_spec(p@, ext))
}

proof fn lemma_filter_by_extension_step(paths: Seq<String>, ext: Seq<char>, i: int)
    requires
        0 <= i < paths.len(),
    ensures
        filter_by_extension(paths.take(i + 1), ext) == if has_extension_spec(paths[i]@, ext) {
            filter_by_extension(paths.take(i), ext).push(paths[i])
        } else {
            filter_by_extension(paths.take(i), ext)
        },
{
    reveal(Seq::filter);
    assert(paths.take(i + 1).drop_last() =~= paths.take(i));
}

/// Keeps the paths that carry the extension `ext`.  This is the part of
/// scanning a folder that does not touch the file system: the caller
/// lists the entries, this function selects the matching ones.
pub fn files_with_extension(paths: &Vec<String>, ext: &str) -> (r: Vec<String>)
    ensures
        r@ == filter_by_extension(paths@, ext@),
{
    let mut r: Vec<String> = Vec::new();
    let mut i: usize = 0;
    while i < paths.len()
        invariant
            i <= paths@.len(),
            r@ == filter_by_extension(paths@.take(i as int), ext@),
        decreases paths@.len() - i,
    {
        proof {
            lemma_filter_by_extension_step(paths@, ext@, i as int);
        }
        if has_extension(paths[i].as_str(), ext) {
            r.push(paths[i].clone());
        }
        i += 1;
    }
    proof {
        assert(paths@.take(paths@.len() as int) =~= paths@);
    }
    r
}

} // verus!
