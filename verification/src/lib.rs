//! riv: the core of a keyboard-driven image browser.
//!
//! The library owns the image-path registry with its current-position
//! invariant, the modal input state machine with its repeat-count prefix,
//! the sorter, and the command sub-language. The surrounding binary does
//! the drawing, the event polling and the file discovery.

pub mod cli;
pub mod command_mode;
pub mod deepseq;
pub mod fsops;
pub mod infobar;
pub mod paths;
pub mod pathstr;
pub mod program;
pub mod sort;
pub mod text;
pub mod ui;

use crate::command_mode::{remove_escapes, spec_remove_escapes};
use crate::fsops::{expand_full, is_directory};
use crate::pathstr::{normalize_path, spec_normalize};
use vstd::prelude::*;

verus! {

/// Where a glob argument points once the expanded text is cleaned of escape
/// sequences, resolved against the base directory when relative, and
/// normalised.
pub open spec fn spec_resolved_path(cur: Seq<char>, expanded: Seq<char>) -> Seq<char> {
    let cleaned = spec_remove_escapes(expanded);
    let joined = if cleaned.len() > 0 && cleaned[0] == '/' {
        cleaned
    } else {
        cur + seq!['/'] + cleaned
    };
    spec_normalize(joined)
}

/// Resolve an already-expanded glob argument against the base directory;
/// see [`spec_resolved_path`].
pub fn resolve_path(current_dir: &str, expanded: &str) -> (r: String)
    ensures
        r@ == spec_resolved_path(current_dir@, expanded@),
{
    let cleaned = remove_escapes(expanded);
    let n: usize = cleaned.as_str().unicode_len();
    let joined: String = if n > 0 && cleaned.as_str().get_char(0) == '/' {
        cleaned
    } else {
        let mut j = String::from_str(current_dir);
        j.append("/");
        j.append(cleaned.as_str());
        proof {
            reveal_strlit("/");
            assert(j@ =~= current_dir@ + seq!['/'] + cleaned@);
        }
        j
    };
    normalize_path(joined.as_str())
}

/// Converts the path the user gave into one that can be globbed: `~` and
/// environment variables are expanded, escaped characters unescaped,
/// relative paths resolved against `current_dir`, `.` and `..` removed, and
/// a path that names a directory on disk gets `/*` appended so its files
/// are matched. The expansion reads the process environment, so most of the
/// contract says what every outcome looks like; an argument that holds no
/// `$` and does not start with `~` passes through the expansion unchanged,
/// so for it success is promised outright.
pub fn path_to_glob(current_dir: &str, path: &str) -> (r: Result<String, String>)
    ensures
        r matches Ok(g) ==> exists|e: Seq<char>|
            g@ == spec_resolved_path(current_dir@, e) || g@ == #[trigger] spec_resolved_path(
                current_dir@,
                e,
            ) + "/*"@,
        !path@.contains('$') && !(path@.len() > 0 && path@[0] == '~') ==> (r matches Ok(g) && (g@
            == spec_resolved_path(current_dir@, path@) || g@ == spec_resolved_path(
            current_dir@,
            path@,
        ) + "/*"@)),
{
    let expanded = match expand_full(path) {
        Ok(e) => e,
        Err(msg) => {
            return Err(msg);
        },
    };
    let resolved = resolve_path(current_dir, expanded.as_str());
    if is_directory(resolved.as_str()) {
        let mut g = resolved;
        g.append("/*");
        proof {
            assert(g@ == spec_resolved_path(current_dir@, expanded@) + "/*"@);
        }
        Ok(g)
    } else {
        proof {
            assert(resolved@ == spec_resolved_path(current_dir@, expanded@));
        }
        Ok(resolved)
    }
}

/// The closest ancestor of the path that is a directory on disk: the new
/// base directory after a glob change. What is on disk decides which
/// ancestor wins, so the contract promises that the answer is an ancestor:
/// the whole path, a prefix that ends right before a separator, or the
/// root separator alone.
pub fn new_base_dir(path: &str) -> (r: Result<String, String>)
    ensures
        r matches Ok(p) ==> {
            &&& p@.len() <= path@.len()
            &&& p@ == path@.subrange(0, p@.len() as int)
            &&& (p@ == path@ || (p@.len() < path@.len() && path@[p@.len() as int] == '/') || (
            p@.len() == 1 && p@[0] == '/'))
        },
        r matches Err(m) ==> m@ == "Failed to get new base directory for path: \""@ + path@
            + "\""@,
{
    let mut cur = String::from_str(path);
    proof {
        assert(path@.subrange(0, path@.len() as int) =~= path@);
    }
    loop
        invariant
            cur@.len() <= path@.len(),
            cur@ == path@.subrange(0, cur@.len() as int),
            cur@ == path@ || (cur@.len() < path@.len() && path@[cur@.len() as int] == '/') || (
            cur@.len() == 1 && cur@[0] == '/'),
        decreases cur@.len(),
    {
        if is_directory(cur.as_str()) {
            return Ok(cur);
        }
        let n: usize = cur.as_str().unicode_len();
        let mut i: usize = n;
        while i > 0
            invariant
                i <= n,
                n == cur@.len(),
            ensures
                i <= n,
                i > 0 ==> cur@[i as int - 1] == '/',
            decreases i,
        {
            if cur.as_str().get_char(i - 1) == '/' {
                break ;
            }
            i = i - 1;
        }
        if i == 0 {
            // No separator left: the path has no further ancestors.
            break ;
        }
        // Keep the root separator itself as the last ancestor.
        let cut: usize = if i == 1 {
            1
        } else {
            i - 1
        };
        if cut >= n {
            break ;
        }
        let shorter = String::from_str(cur.as_str().substring_char(0, cut));
        proof {
            assert(shorter@ =~= path@.subrange(0, cut as int));
        }
        cur = shorter;
    }
    let mut m = String::from_str("Failed to get new base directory for path: \"");
    m.append(path);
    m.append("\"");
    Err(m)
}

} // verus!
