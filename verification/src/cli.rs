//! What the command line resolves to at startup, and the filter that keeps
//! only recognised image files among discovered paths. The argument parsing
//! itself and the globbing are the binary's work.

use crate::pathstr::{last_dot_at, spec_file_name};
use crate::text::{lower_str, spec_lower, spec_lower_seq};
use crate::sort::SortOrder;
use vstd::prelude::*;

verus! {

/// The startup configuration, resolved once from the command line.
pub struct Args {
    /// The image files the initial glob matched.
    pub files: Vec<String>,
    /// Where copy and move operations put images.
    pub dest_folder: String,
    /// The order to sort the images by.
    pub sort_order: SortOrder,
    /// Whether to reverse the sorted order.
    pub reverse: bool,
    /// The soft cap on viewable images; zero means no cap.
    pub max_length: usize,
    /// Whether to start fullscreen.
    pub fullscreen: bool,
    /// Directory against which relative glob arguments are resolved.
    pub base_dir: String,
}

/// A path's extension: what follows the last dot of its file name, a
/// leading dot never counting; empty when there is no such dot.
pub open spec fn spec_extension(p: Seq<char>) -> Seq<char> {
    let name = spec_file_name(p);
    let d = last_dot_at(name, name.len() - 1);
    if d >= 1 {
        name.subrange(d + 1, name.len() as int)
    } else {
        Seq::empty()
    }
}

/// The file extensions recognised as images, compared after lowering.
pub open spec fn spec_is_image_ext(e: Seq<char>) -> bool {
    ||| e == "jpg"@
    ||| e == "jpeg"@
    ||| e == "png"@
    ||| e == "bmp"@
    ||| e == "webp"@
    ||| e == "gif"@
    ||| e == "lbm"@
    ||| e == "pcx"@
    ||| e == "pnm"@
    ||| e == "svg"@
    ||| e == "tga"@
    ||| e == "tiff"@
    ||| e == "xcf"@
    ||| e == "xpm"@
    ||| e == "xv"@
}

/// Whether a path names a recognised image file.
pub open spec fn spec_is_image_path(p: Seq<char>) -> bool {
    spec_is_image_ext(spec_lower_seq(spec_extension(p)))
}

fn extension_of(p: &str) -> (r: String)
    ensures
        r@ == spec_extension(p@),
{
    let name = crate::pathstr::file_name_of(p);
    let n: usize = name.as_str().unicode_len();
    let mut i: usize = n;
    while i > 1
        invariant
            i <= n,
            n == name@.len(),
            last_dot_at(name@, n - 1) == last_dot_at(name@, i - 1),
        ensures
            i <= n,
            last_dot_at(name@, n as int - 1) == if i > 1 {
                i as int - 1
            } else {
                -1
            },
        decreases i,
    {
        if name.as_str().get_char(i - 1) == '.' {
            break ;
        }
        i = i - 1;
    }
    if i > 1 {
        String::from_str(name.as_str().substring_char(i, n))
    } else {
        proof {
            assert(Seq::<char>::empty() =~= spec_extension(p@));
        }
        String::new()
    }
}

/// Keep the path when it names a recognised image file, judged by its
/// extension, lowercased.
pub fn push_image_path(v: &mut Vec<String>, p: String)
    ensures
        final(v)@ == if spec_is_image_path(p@) {
            old(v)@.push(p)
        } else {
            old(v)@
        },
{
    let ext = extension_of(p.as_str());
    let low = lower_str(ext.as_str());
    let keep = crate::text::str_eq(low.as_str(), "jpg") || crate::text::str_eq(low.as_str(), "jpeg")
        || crate::text::str_eq(low.as_str(), "png") || crate::text::str_eq(low.as_str(), "bmp")
        || crate::text::str_eq(low.as_str(), "webp") || crate::text::str_eq(low.as_str(), "gif")
        || crate::text::str_eq(low.as_str(), "lbm") || crate::text::str_eq(low.as_str(), "pcx")
        || crate::text::str_eq(low.as_str(), "pnm") || crate::text::str_eq(low.as_str(), "svg")
        || crate::text::str_eq(low.as_str(), "tga") || crate::text::str_eq(low.as_str(), "tiff")
        || crate::text::str_eq(low.as_str(), "xcf") || crate::text::str_eq(low.as_str(), "xpm")
        || crate::text::str_eq(low.as_str(), "xv");
    if keep {
        v.push(p);
    }
}

} // verus!
