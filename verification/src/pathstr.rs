//! Verified string-level path handling: file names, file stems, hidden-file
//! trimming, component counting, joining and normalisation. Paths are plain
//! strings whose components are separated by `/`.

use vstd::prelude::*;

verus! {

/// Index of the last `/` at or before position `i`, or `-1` when none.
pub open spec fn last_slash_at(s: Seq<char>, i: int) -> int
    decreases i + 1,
{
    if i < 0 {
        -1
    } else if s[i] == '/' {
        i
    } else {
        last_slash_at(s, i - 1)
    }
}

/// What follows the last `/`; the whole string when it has no `/`.
pub open spec fn spec_file_name(s: Seq<char>) -> Seq<char> {
    s.subrange(last_slash_at(s, s.len() - 1) + 1, s.len() as int)
}

/// Index of the last `.` at a position in `[1, i]`, or `-1` when none. A
/// leading dot never splits a name, so hidden files keep their whole name
/// as their stem.
pub open spec fn last_dot_at(s: Seq<char>, i: int) -> int
    decreases i + 1,
{
    if i < 1 {
        -1
    } else if s[i] == '.' {
        i
    } else {
        last_dot_at(s, i - 1)
    }
}

/// The file name without its extension: everything before the last `.`,
/// except that a dot in the leading position does not count.
pub open spec fn spec_file_stem(name: Seq<char>) -> Seq<char> {
    let d = last_dot_at(name, name.len() - 1);
    if d >= 1 {
        name.subrange(0, d)
    } else {
        name
    }
}

/// A hidden file's name without the leading dot, so it sorts alongside
/// visible names.
pub open spec fn spec_trim_hidden(s: Seq<char>) -> Seq<char> {
    if s.len() > 0 && s[0] == '.' {
        s.subrange(1, s.len() as int)
    } else {
        s
    }
}

/// The key the alphabetical sort compares: the file stem, hidden-file dot
/// removed.
pub open spec fn spec_sort_stem(path: Seq<char>) -> Seq<char> {
    spec_trim_hidden(spec_file_stem(spec_file_name(path)))
}

/// Whether position `i` starts a path component: a non-separator at the
/// start of the string or right after a separator.
pub open spec fn starts_component(s: Seq<char>, i: int) -> bool {
    s[i] != '/' && (i == 0 || s[i - 1] == '/')
}

/// Number of components starting at or after position `i`.
pub open spec fn components_from(s: Seq<char>, i: int) -> int
    decreases s.len() - i,
{
    if i < 0 || i >= s.len() {
        0
    } else {
        (if starts_component(s, i) {
            1int
        } else {
            0int
        }) + components_from(s, i + 1)
    }
}

/// Number of non-empty `/`-separated components of a path.
pub open spec fn spec_depth(s: Seq<char>) -> int {
    components_from(s, 0)
}

proof fn lemma_components_bound(s: Seq<char>, i: int)
    requires
        0 <= i <= s.len(),
    ensures
        0 <= components_from(s, i) <= s.len() - i,
    decreases s.len() - i,
{
    if i < s.len() {
        lemma_components_bound(s, i + 1);
    }
}

/// The file-name part of a path: what follows the last separator.
pub fn file_name_of(s: &str) -> (r: String)
    ensures
        r@ == spec_file_name(s@),
{
    let n: usize = s.unicode_len();
    let mut i: usize = n;
    while i > 0
        invariant
            i <= n,
            n == s@.len(),
            last_slash_at(s@, n - 1) == last_slash_at(s@, i - 1),
        ensures
            i <= n,
            last_slash_at(s@, n as int - 1) == i as int - 1,
        decreases i,
    {
        if s.get_char(i - 1) == '/' {
            break ;
        }
        i = i - 1;
    }
    let sub = s.substring_char(i, n);
    String::from_str(sub)
}

/// The stem of a file name: the part before the last dot, a leading dot
/// never splitting.
pub fn file_stem_of(name: &str) -> (r: String)
    ensures
        r@ == spec_file_stem(name@),
{
    let n: usize = name.unicode_len();
    let mut i: usize = n;
    while i > 1
        invariant
            i <= n,
            n == name@.len(),
            last_dot_at(name@, n - 1) == last_dot_at(name@, i - 1),
        ensures
            i <= n,
            last_dot_at(name@, n as int - 1) == if i > 1 {
                i as int - 1
            } else {
                -1
            },
        decreases i,
    {
        if name.get_char(i - 1) == '.' {
            break ;
        }
        i = i - 1;
    }
    if i > 1 {
        let sub = name.substring_char(0, i - 1);
        String::from_str(sub)
    } else {
        String::from_str(name)
    }
}

/// Remove the leading dot of a hidden file's name.
pub fn trim_hidden(s: &str) -> (r: String)
    ensures
        r@ == spec_trim_hidden(s@),
{
    let n: usize = s.unicode_len();
    if n > 0 && s.get_char(0) == '.' {
        String::from_str(s.substring_char(1, n))
    } else {
        String::from_str(s)
    }
}

/// The key the alphabetical sort compares, see [`spec_sort_stem`].
pub fn sort_stem_of(path: &str) -> (r: String)
    ensures
        r@ == spec_sort_stem(path@),
{
    let name = file_name_of(path);
    let stem = file_stem_of(name.as_str());
    trim_hidden(stem.as_str())
}

/// Number of non-empty `/`-separated components of a path; deeper paths
/// have more.
pub fn calculate_depth(path: &str) -> (r: usize)
    ensures
        r == spec_depth(path@),
{
    let n: usize = path.unicode_len();
    let mut count: usize = 0;
    let mut i: usize = 0;
    proof {
        lemma_components_bound(path@, 0);
    }
    while i < n
        invariant
            i <= n,
            n == path@.len(),
            count + components_from(path@, i as int) == spec_depth(path@),
            count <= i,
            0 <= spec_depth(path@) <= n,
        decreases n - i,
    {
        let c = path.get_char(i);
        let starts = if c == '/' {
            false
        } else if i == 0 {
            true
        } else {
            path.get_char(i - 1) == '/'
        };
        if starts {
            count = count + 1;
        }
        i = i + 1;
    }
    count
}

/// Index of the first `/` at or after position `i`; the length when there
/// is none.
pub open spec fn first_slash_at(s: Seq<char>, i: int) -> int
    decreases s.len() - i,
{
    if i < 0 || i >= s.len() {
        s.len() as int
    } else if s[i] == '/' {
        i
    } else {
        first_slash_at(s, i + 1)
    }
}

/// The `/`-separated pieces of a path, separators dropped; splitting keeps
/// empty pieces, so a leading separator yields a leading empty piece.
pub open spec fn spec_split(s: Seq<char>) -> Seq<Seq<char>>
    decreases s.len(),
{
    let k = first_slash_at(s, 0);
    if k < 0 || k >= s.len() {
        seq![s]
    } else {
        seq![s.subrange(0, k)] + spec_split(s.subrange(k + 1, s.len() as int))
    }
}

/// The pieces joined back with `/` between them.
pub open spec fn spec_join(cs: Seq<Seq<char>>) -> Seq<char>
    decreases cs.len(),
{
    if cs.len() == 0 {
        Seq::empty()
    } else if cs.len() == 1 {
        cs[0]
    } else {
        cs[0] + seq!['/'] + spec_join(cs.drop_first())
    }
}

proof fn lemma_join_push(cs: Seq<Seq<char>>, c: Seq<char>)
    ensures
        spec_join(cs.push(c)) == if cs.len() == 0 {
            c
        } else {
            spec_join(cs) + seq!['/'] + c
        },
    decreases cs.len(),
{
    if cs.len() == 0 {
        assert(cs.push(c)[0] == c);
    } else {
        lemma_join_push(cs.drop_first(), c);
        assert(cs.push(c).drop_first() =~= cs.drop_first().push(c));
        assert(cs.push(c)[0] == cs[0]);
        if cs.len() == 1 {
            assert(spec_join(cs.push(c)) == cs[0] + seq!['/'] + spec_join(
                cs.drop_first().push(c),
            ));
            assert(cs.drop_first().push(c).len() == 1);
            assert(spec_join(cs.drop_first().push(c)) == c);
        }
    }
}

/// One pass over path pieces: `.` is dropped, `..` removes what came before
/// it, anything else is kept.
pub open spec fn norm_fold(acc: Seq<Seq<char>>, cs: Seq<Seq<char>>, i: int) -> Seq<Seq<char>>
    decreases cs.len() - i,
{
    if i < 0 || i >= cs.len() {
        acc
    } else {
        let c = cs[i];
        if c == seq!['.', '.'] {
            norm_fold(
                if acc.len() > 0 {
                    acc.drop_last()
                } else {
                    acc
                },
                cs,
                i + 1,
            )
        } else if c == seq!['.'] {
            norm_fold(acc, cs, i + 1)
        } else {
            norm_fold(acc.push(c), cs, i + 1)
        }
    }
}

/// A path with `.` pieces dropped and `..` pieces resolved against what
/// precedes them.
pub open spec fn spec_normalize(s: Seq<char>) -> Seq<char> {
    spec_join(norm_fold(Seq::empty(), spec_split(s), 0))
}

/// Split a path at its separators; see [`spec_split`].
pub fn split_components(s: &str) -> (r: Vec<String>)
    ensures
        r.deep_view() == spec_split(s@),
{
    let n: usize = s.unicode_len();
    let mut done: Vec<String> = Vec::new();
    let mut seg_start: usize = 0;
    let mut i: usize = 0;
    proof {
        assert(s@.subrange(0, n as int) =~= s@);
    }
    while i < n
        invariant
            seg_start <= i <= n,
            n == s@.len(),
            forall|k: int| seg_start <= k < i ==> s@[k] != '/',
            spec_split(s@) == done.deep_view() + spec_split(
                s@.subrange(seg_start as int, n as int),
            ),
        decreases n - i,
    {
        if s.get_char(i) == '/' {
            let ghost suffix: Seq<char> = s@.subrange(seg_start as int, n as int);
            let segment = String::from_str(s.substring_char(seg_start, i));
            let ghost dv_before: Seq<Seq<char>> = done.deep_view();
            done.push(segment);
            proof {
                let j = i - seg_start;
                assert forall|k: int| 0 <= k < j implies suffix[k] != '/' by {
                    assert(suffix[k] == s@[seg_start + k]);
                }
                lemma_first_slash_at_of(suffix, j);
                assert(first_slash_at(suffix, 0) == j);
                assert(suffix.subrange(0, j) =~= s@.subrange(seg_start as int, i as int));
                assert(suffix.subrange(j + 1, suffix.len() as int) =~= s@.subrange(
                    i + 1,
                    n as int,
                ));
                assert(spec_split(suffix) == seq![segment@] + spec_split(
                    s@.subrange(i + 1, n as int),
                ));
                assert(done.deep_view() =~= dv_before + seq![segment@]);
                assert(done.deep_view() + spec_split(s@.subrange(i + 1, n as int)) =~= dv_before
                    + spec_split(suffix));
            }
            seg_start = i + 1;
        }
        i = i + 1;
    }
    let last_segment = String::from_str(s.substring_char(seg_start, n));
    let ghost dv_before: Seq<Seq<char>> = done.deep_view();
    done.push(last_segment);
    proof {
        let ghost suffix: Seq<char> = s@.subrange(seg_start as int, n as int);
        let j = n - seg_start;
        assert forall|k: int| 0 <= k < j implies suffix[k] != '/' by {
            assert(suffix[k] == s@[seg_start + k]);
        }
        lemma_first_slash_at_of(suffix, j as int);
        assert(first_slash_at(suffix, 0) == suffix.len());
        assert(spec_split(suffix) == seq![suffix]);
        assert(last_segment@ == suffix);
        assert(done.deep_view() =~= dv_before + seq![suffix]);
        assert(done.deep_view() =~= spec_split(s@));
    }
    done
}

proof fn lemma_first_slash_at_of(s: Seq<char>, j: int)
    requires
        0 <= j <= s.len(),
        forall|k: int| 0 <= k < j ==> s[k] != '/',
    ensures
        j < s.len() && s[j] == '/' ==> first_slash_at(s, 0) == j,
        j == s.len() ==> first_slash_at(s, 0) == s.len(),
    decreases s.len(),
{
    lemma_first_slash_walk(s, 0, j);
}

proof fn lemma_first_slash_walk(s: Seq<char>, i: int, j: int)
    requires
        0 <= i <= j <= s.len(),
        forall|k: int| i <= k < j ==> s[k] != '/',
    ensures
        first_slash_at(s, i) == first_slash_at(s, j),
    decreases j - i,
{
    if i < j {
        lemma_first_slash_walk(s, i + 1, j);
    }
}

/// Join path pieces with separators; see [`spec_join`].
pub fn join_components(cs: &Vec<String>) -> (r: String)
    ensures
        r@ == spec_join(cs.deep_view()),
{
    let n: usize = cs.len();
    let mut out = String::new();
    let mut i: usize = 0;
    while i < n
        invariant
            i <= n,
            n == cs@.len(),
            out@ == spec_join(cs.deep_view().subrange(0, i as int)),
        decreases n - i,
    {
        if i > 0 {
            out.append("/");
            proof {
                reveal_strlit("/");
            }
        }
        out.append(cs[i].as_str());
        proof {
            let prefix = cs.deep_view().subrange(0, i as int);
            lemma_join_push(prefix, cs.deep_view()[i as int]);
            assert(prefix.push(cs.deep_view()[i as int]) =~= cs.deep_view().subrange(0, i + 1));
            assert("/"@ =~= seq!['/']) by {
                reveal_strlit("/");
            }
        }
        i = i + 1;
    }
    proof {
        assert(cs.deep_view().subrange(0, n as int) =~= cs.deep_view());
    }
    out
}

/// Whether a path piece spells `.`.
fn is_dot(s: &str) -> (r: bool)
    ensures
        r == (s@ == seq!['.']),
{
    let n: usize = s.unicode_len();
    if n == 1 && s.get_char(0) == '.' {
        proof {
            assert(s@ =~= seq!['.']);
        }
        true
    } else {
        proof {
            assert(s@ != seq!['.']);
        }
        false
    }
}

/// Whether a path piece spells `..`.
fn is_dot_dot(s: &str) -> (r: bool)
    ensures
        r == (s@ == seq!['.', '.']),
{
    let n: usize = s.unicode_len();
    if n == 2 && s.get_char(0) == '.' && s.get_char(1) == '.' {
        proof {
            assert(s@ =~= seq!['.', '.']);
        }
        true
    } else {
        proof {
            assert(s@ != seq!['.', '.']);
        }
        false
    }
}

/// Normalise a path: drop `.` pieces and resolve `..` pieces against what
/// precedes them; see [`spec_normalize`]. Links on disk are not consulted;
/// the caller resolves those if it needs to.
pub fn normalize_path(path: &str) -> (r: String)
    ensures
        r@ == spec_normalize(path@),
{
    let comps = split_components(path);
    let ghost all: Seq<Seq<char>> = comps.deep_view();
    let mut stack: Vec<String> = Vec::new();
    let mut i: usize = 0;
    proof {
        assert(stack.deep_view() =~= Seq::<Seq<char>>::empty());
    }
    while i < comps.len()
        invariant
            i <= comps@.len(),
            comps.deep_view() == all,
            norm_fold(Seq::empty(), all, 0) == norm_fold(stack.deep_view(), all, i as int),
        decreases comps@.len() - i,
    {
        let ghost st: Seq<Seq<char>> = stack.deep_view();
        if is_dot_dot(comps[i].as_str()) {
            if stack.len() > 0 {
                stack.pop();
                proof {
                    assert(stack.deep_view() =~= st.drop_last());
                }
            }
        } else if is_dot(comps[i].as_str()) {
        } else {
            stack.push(comps[i].clone());
            proof {
                assert(stack.deep_view() =~= st.push(all[i as int]));
            }
        }
        i = i + 1;
    }
    join_components(&stack)
}

/// The last path component as the platform resolves it before trashing:
/// trailing separators and trailing `.` components are ignored, and a bare
/// `.` names no component at all. `a/../`, `a/../.` and `/..` all end in
/// the component `..`.
pub open spec fn spec_path_final_component(s: Seq<char>) -> Seq<char>
    decreases s.len(),
{
    if s.len() > 0 && s[s.len() - 1] == '/' {
        spec_path_final_component(s.drop_last())
    } else if s.len() >= 2 && s[s.len() - 1] == '.' && s[s.len() - 2] == '/' {
        spec_path_final_component(s.subrange(0, s.len() - 2))
    } else if s.len() == 1 && s[0] == '.' {
        Seq::empty()
    } else {
        spec_file_name(s)
    }
}

/// See [`spec_path_final_component`].
pub fn path_final_component(s: &str) -> (r: String)
    ensures
        r@ == spec_path_final_component(s@),
{
    let n: usize = s.unicode_len();
    let mut end: usize = n;
    proof {
        assert(s@.subrange(0, n as int) =~= s@);
    }
    loop
        invariant
            end <= n,
            n == s@.len(),
            spec_path_final_component(s@) == spec_path_final_component(
                s@.subrange(0, end as int),
            ),
        ensures
            end <= n,
            spec_path_final_component(s@) == spec_path_final_component(
                s@.subrange(0, end as int),
            ),
            !(end > 0 && s@[end - 1] == '/'),
            !(end >= 2 && s@[end - 1] == '.' && s@[end - 2] == '/'),
        decreases end,
    {
        proof {
            assert(s@.subrange(0, 0int) =~= Seq::<char>::empty());
        }
        if end > 0 && s.get_char(end - 1) == '/' {
            proof {
                assert(s@.subrange(0, end as int).drop_last() =~= s@.subrange(0, end - 1));
            }
            end = end - 1;
        } else if end >= 2 && s.get_char(end - 1) == '.' && s.get_char(end - 2) == '/' {
            proof {
                assert(s@.subrange(0, end as int).subrange(0, end - 2) =~= s@.subrange(
                    0,
                    end - 2,
                ));
            }
            end = end - 2;
        } else {
            break ;
        }
    }
    if end == 1 && s.get_char(0) == '.' {
        proof {
            assert(spec_path_final_component(s@.subrange(0, 1int)) =~= Seq::<char>::empty());
        }
        String::new()
    } else {
        let trimmed = s.substring_char(0, end);
        proof {
            assert(spec_path_final_component(s@.subrange(0, end as int)) == spec_file_name(
                s@.subrange(0, end as int),
            ));
        }
        file_name_of(trimmed)
    }
}

} // verus!
