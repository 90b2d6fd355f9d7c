//! The dispatcher that carries actions out: navigation on the registry,
//! batch copy, move, delete and trash of the current images, and the
//! decisions of the repeat-count mode. Drawing and event polling live with
//! the binary; every decision here is verified.

use crate::fsops::{copy_file, ensure_dir, move_file, remove_file, trash_file};
use crate::paths::{
    decrement_view, increment_view, remove_image_view, wf_view, Paths, RegistryView,
};
use crate::pathstr::{file_name_of, path_final_component, spec_file_name, spec_path_final_component};
use crate::text::{spec_decimal, str_eq, usize_to_string};
use crate::ui::{
    records_last_action, Action, Mode, MultiNormalAction, ProcessAction, Register, RotAngle,
    RotationDirection, State,
};
use vstd::pervasive::unreached;
use vstd::prelude::*;

verus! {

/// Skip step used by the skip-forward and skip-back actions: a tenth of the
/// image count, with a floor of one so progress is guaranteed on small sets.
pub open spec fn spec_skip_size(len: int) -> int {
    if len / 10 >= 1 {
        len / 10
    } else {
        1
    }
}

/// See [`spec_skip_size`].
pub fn compute_skip_size(len: usize) -> (r: usize)
    ensures
        r == spec_skip_size(len as int),
        r >= 1,
{
    let chunk: usize = len / 10;
    if chunk >= 1 {
        chunk
    } else {
        1
    }
}

/// A product capped at the largest representable value instead of
/// overflowing.
pub open spec fn spec_sat_mul(a: int, b: int) -> int {
    if a * b > usize::MAX {
        usize::MAX as int
    } else {
        a * b
    }
}

fn sat_mul(a: usize, b: usize) -> (r: usize)
    ensures
        r == spec_sat_mul(a as int, b as int),
{
    if b == 0 {
        proof {
            assert(a as int * 0 == 0) by (nonlinear_arith);
        }
        0
    } else if a > usize::MAX / b {
        proof {
            assert(a as int * b as int > usize::MAX) by (nonlinear_arith)
                requires
                    a > usize::MAX / b,
                    b >= 1,
            ;
        }
        usize::MAX
    } else {
        proof {
            assert(a as int * b as int <= usize::MAX) by (nonlinear_arith)
                requires
                    a <= usize::MAX / b,
                    b >= 1,
            ;
        }
        a * b
    }
}

/// How the destination path of a copy or move is formed: the file name of
/// the source, under the destination folder.
pub open spec fn spec_dest_filepath(dest_folder: Seq<char>, src: Seq<char>) -> Seq<char> {
    dest_folder + "/"@ + spec_file_name(src)
}

/// The file name of `src_path` joined under the destination folder; fails
/// exactly when the source path has no file name.
fn join_dest(dest_folder: &str, src_path: &str) -> (r: Result<String, String>)
    ensures
        spec_file_name(src_path@).len() > 0 ==> (r matches Ok(p) && p@ == spec_dest_filepath(
            dest_folder@,
            src_path@,
        )),
        spec_file_name(src_path@).len() == 0 ==> (r matches Err(m) && m@
            == "failed to read filename for current image"@),
{
    let name = file_name_of(src_path);
    if name.as_str().unicode_len() == 0 {
        return Err(String::from_str("failed to read filename for current image"));
    }
    let mut dest = String::from_str(dest_folder);
    dest.append("/");
    dest.append(name.as_str());
    Ok(dest)
}

/// The destination path for copying or moving `src_path`: its file name
/// joined under the destination folder, which is created when missing.
/// Fails when the folder cannot be created or the source path has no file
/// name.
pub fn construct_dest_filepath(dest_folder: &str, src_path: &str) -> (r: Result<String, String>)
    ensures
        r matches Ok(p) ==> spec_file_name(src_path@).len() > 0 && p@ == spec_dest_filepath(
            dest_folder@,
            src_path@,
        ),
        spec_file_name(src_path@).len() == 0 ==> r is Err,
{
    match ensure_dir(dest_folder) {
        Ok(()) => join_dest(dest_folder, src_path),
        Err(e) => Err(e),
    }
}

/// The three operations that take an image out of the registry.
#[derive(Clone, Copy, Debug)]
pub enum RemovalKind {
    /// Move the file to the destination folder.
    Move,
    /// Move the file to the platform trash.
    Trash,
    /// Delete the file.
    Delete,
}

/// How many images an "act on `amount` images" operation covers: from the
/// cursor through `amount - 1` more, capped at the last viewable index.
pub open spec fn spec_total_removes(v: RegistryView, amount: int) -> int {
    match v.index {
        Some(c) => {
            let last = if c + amount - 1 <= v.art_len - 1 {
                c + amount - 1
            } else {
                v.art_len - 1
            };
            last - c + 1
        },
        None => 0,
    }
}

/// The registry after a batch removal that took `removed` images out: a
/// contiguous run starting at the cursor leaves the image sequence, the
/// viewable count shrinks with it, and the cursor stays put unless the run
/// reached the end of the viewable range, in which case it steps back to
/// the new last slot, or goes away with the last viewable image.
pub open spec fn removal_result_view(v: RegistryView, removed: int) -> RegistryView {
    match v.index {
        Some(c) => {
            let remaining = v.images.subrange(0, c) + v.images.subrange(
                c + removed,
                v.images.len() as int,
            );
            let art2 = v.art_len - removed;
            RegistryView {
                images: remaining,
                art_len: art2,
                index: if art2 == 0 {
                    None
                } else if c < art2 {
                    Some(c)
                } else {
                    Some(art2 - 1)
                },
                ..v
            }
        },
        None => v,
    }
}

/// Removing the current image of a partially-removed batch is one more
/// step of the batch.
proof fn lemma_removal_step(v: RegistryView, r: int)
    requires
        wf_view(v),
        v.index is Some,
        0 <= r,
        (match v.index {
            Some(c) => c,
            None => 0,
        }) < v.art_len - r,
    ensures
        ({
            let c = match v.index {
                Some(c) => c,
                None => 0,
            };
            remove_image_view(removal_result_view(v, r), c) == removal_result_view(v, r + 1)
        }),
{
    let c = match v.index {
        Some(c) => c,
        None => 0,
    };
    let mid = removal_result_view(v, r);
    assert(mid.images.remove(c) =~= v.images.subrange(0, c) + v.images.subrange(
        c + r + 1,
        v.images.len() as int,
    ));
    assert(remove_image_view(mid, c) =~= removal_result_view(v, r + 1));
}

/// The success message of a batch removal.
pub open spec fn spec_removal_ok_msg(kind: RemovalKind, n: int, dest: Seq<char>) -> Seq<char> {
    match kind {
        RemovalKind::Move => "moved "@ + spec_decimal(n) + " image(s) succesfully to "@ + dest,
        RemovalKind::Trash => "Trashed "@ + spec_decimal(n) + " image(s)"@,
        RemovalKind::Delete => "Deleted "@ + spec_decimal(n) + " image(s)"@,
    }
}

/// The failure message of a batch removal.
pub open spec fn spec_removal_fail_msg(kind: RemovalKind, f: int, n: int) -> Seq<char> {
    (match kind {
        RemovalKind::Move => "Failed to move "@,
        RemovalKind::Trash => "Failed to trash "@,
        RemovalKind::Delete => "Failed to delete "@,
    }) + spec_decimal(f) + " of "@ + spec_decimal(n) + " images"@
}

fn removal_ok_msg(kind: RemovalKind, n: usize, dest: &str) -> (r: String)
    ensures
        r@ == spec_removal_ok_msg(kind, n as int, dest@),
{
    match kind {
        RemovalKind::Move => {
            let mut m = String::from_str("moved ");
            m.append(usize_to_string(n).as_str());
            m.append(" image(s) succesfully to ");
            m.append(dest);
            m
        },
        RemovalKind::Trash => {
            let mut m = String::from_str("Trashed ");
            m.append(usize_to_string(n).as_str());
            m.append(" image(s)");
            m
        },
        RemovalKind::Delete => {
            let mut m = String::from_str("Deleted ");
            m.append(usize_to_string(n).as_str());
            m.append(" image(s)");
            m
        },
    }
}

fn removal_fail_msg(kind: RemovalKind, f: usize, n: usize) -> (r: String)
    ensures
        r@ == spec_removal_fail_msg(kind, f as int, n as int),
{
    let mut m = match kind {
        RemovalKind::Move => String::from_str("Failed to move "),
        RemovalKind::Trash => String::from_str("Failed to trash "),
        RemovalKind::Delete => String::from_str("Failed to delete "),
    };
    m.append(usize_to_string(f).as_str());
    m.append(" of ");
    m.append(usize_to_string(n).as_str());
    m.append(" images");
    m
}

/// Act on the current image and its successors: move, trash or delete each
/// in turn, dropping the image at the cursor from the registry only when
/// its file operation succeeded, and continuing past per-item failures. A
/// move stops early when its destination cannot even be formed.
fn removal_batch(paths: &mut Paths, amount: usize, kind: RemovalKind) -> (r: Result<String, String>)
    requires
        wf_view(old(paths)@),
        amount >= 1,
        old(paths)@.index is Some,
    ensures
        wf_view(final(paths)@),
        final(paths)@ == removal_result_view(
            old(paths)@,
            old(paths)@.images.len() - final(paths)@.images.len(),
        ),
        0 <= old(paths)@.images.len() - final(paths)@.images.len() <= spec_total_removes(
            old(paths)@,
            amount as int,
        ),
        r is Err ==> old(paths)@.images.len() - final(paths)@.images.len() < spec_total_removes(
            old(paths)@,
            amount as int,
        ),
        r matches Ok(m) ==> {
            &&& old(paths)@.images.len() - final(paths)@.images.len() == spec_total_removes(
                old(paths)@,
                amount as int,
            )
            &&& m@ == spec_removal_ok_msg(
                kind,
                spec_total_removes(old(paths)@, amount as int),
                old(paths)@.dest_folder,
            )
        },
        !(kind is Move) ==> (r matches Err(m) ==> m@ == spec_removal_fail_msg(
            kind,
            spec_total_removes(old(paths)@, amount as int) - (old(paths)@.images.len() - final(paths)@.images.len()),
            spec_total_removes(old(paths)@, amount as int),
        )),
        kind is Move ==> (r matches Err(m) ==> (m@ == spec_removal_fail_msg(
            kind,
            spec_total_removes(old(paths)@, amount as int) - (old(paths)@.images.len() - final(paths)@.images.len()),
            spec_total_removes(old(paths)@, amount as int),
        ) || m@ == "failed to read filename for current image"@ || final(paths)@ == old(paths)@)),
{
    let cur: usize = match paths.index() {
        Some(i) => i,
        None => unreached(),
    };
    let max_index: usize = match paths.max_viewable_index() {
        Some(m) => m,
        None => unreached(),
    };
    proof {
        assert(removal_result_view(old(paths)@, 0) =~= old(paths)@);
    }
    if let RemovalKind::Move = kind {
        // The destination folder does not change during the batch, so it is
        // created once up front.
        match ensure_dir(paths.dest_folder().as_str()) {
            Ok(()) => {},
            Err(e) => {
                return Err(e);
            },
        }
    }
    let span: usize = max_index - cur;
    let total: usize = if amount - 1 >= span {
        span + 1
    } else {
        amount
    };
    proof {
        assert(total as int == spec_total_removes(old(paths)@, amount as int));
    }
    let mut failures: usize = 0;
    let mut k: usize = 0;
    while k < total
        invariant
            wf_view(paths@),
            wf_view(old(paths)@),
            k <= total,
            failures <= k,
            old(paths)@.index == Some(cur as int),
            total as int == spec_total_removes(old(paths)@, amount as int),
            total + cur <= old(paths)@.art_len,
            0 <= old(paths)@.images.len() - paths@.images.len() <= k,
            old(paths)@.images.len() - paths@.images.len() + failures == k,
            paths@ == removal_result_view(
                old(paths)@,
                old(paths)@.images.len() - paths@.images.len(),
            ),
        decreases total - k,
    {
        let ghost removed: int = old(paths)@.images.len() - paths@.images.len();
        proof {
            assert(cur < paths@.art_len);
            assert(paths@.index == Some(cur as int));
        }
        let src: String = match paths.current_image_path() {
            Some(p) => p.clone(),
            None => unreached(),
        };
        let outcome: Result<(), String> = match kind {
            RemovalKind::Move => {
                match join_dest(paths.dest_folder().as_str(), src.as_str()) {
                    Ok(dst) => move_file(src.as_str(), dst.as_str()),
                    Err(e) => {
                        return Err(e);
                    },
                }
            },
            RemovalKind::Trash => {
                let name = path_final_component(src.as_str());
                if str_eq(name.as_str(), "..") {
                    // The trash crate cannot take a path whose final
                    // component walks upward; count it as a failed item.
                    Err(String::from_str("cannot trash a path that ends in \"..\""))
                } else {
                    proof {
                        reveal_strlit("..");
                        assert(".."@ =~= seq!['.', '.']);
                        assert(spec_path_final_component(src@) != seq!['.', '.']);
                    }
                    trash_file(src.as_str())
                }
            },
            RemovalKind::Delete => remove_file(src.as_str()),
        };
        match outcome {
            Ok(()) => {
                // Only a successful file operation takes the image out of
                // the registry.
                proof {
                    lemma_removal_step(old(paths)@, removed);
                }
                paths.remove_current_image();
            },
            Err(_) => {
                failures = failures + 1;
            },
        }
        k = k + 1;
    }
    if failures == 0 {
        Ok(removal_ok_msg(kind, total, paths.dest_folder().as_str()))
    } else {
        Err(removal_fail_msg(kind, failures, total))
    }
}

/// The success message of a batch copy./// The success message of a batch copy.
pub open spec fn spec_copy_ok_msg(n: int, dest: Seq<char>) -> Seq<char> {
    "copied "@ + spec_decimal(n) + " image(s) to "@ + dest + " succesfully"@
}

/// The failure message of a batch copy.
pub open spec fn spec_copy_fail_msg(f: int, n: int) -> Seq<char> {
    "Failed to copy "@ + spec_decimal(f) + " of "@ + spec_decimal(n) + " images"@
}

/// Copies the current image and `amount - 1` of its successors, capped at
/// the last viewable image, to the destination folder, continuing past
/// per-item failures. The registry itself is not changed.
pub fn copy_images(paths: &Paths, amount: usize) -> (r: Result<String, String>)
    requires
        wf_view(paths@),
    ensures
        amount == 0 ==> (r matches Ok(m) && m@ == "0 images asked to copy"@),
        amount > 0 && paths@.index is None ==> (r matches Err(m) && m@ == "no images to copy"@),
        amount > 0 && paths@.index is Some ==> match r {
            Ok(m) => m@ == spec_copy_ok_msg(
                spec_total_removes(paths@, amount as int),
                paths@.dest_folder,
            ),
            Err(m) => exists|f: int|
                1 <= f <= spec_total_removes(paths@, amount as int) && m@ == spec_copy_fail_msg(
                    f,
                    spec_total_removes(paths@, amount as int),
                ),
        },
{
    if amount == 0 {
        return Ok(String::from_str("0 images asked to copy"));
    }
    let cur: usize = match paths.index() {
        Some(i) => i,
        None => {
            return Err(String::from_str("no images to copy"));
        },
    };
    let last: usize = if amount - 1 >= usize::MAX - cur {
        usize::MAX
    } else {
        cur + (amount - 1)
    };
    let batch: Vec<String> = match paths.get_range(cur, last) {
        Some(v) => v,
        None => unreached(),
    };
    let n: usize = batch.len();
    proof {
        broadcast use vstd::std_specs::vec::group_vec_axioms;

        let v = paths@;
        let capped = if last as int >= v.art_len - 1 {
            v.art_len - 1
        } else {
            last as int
        };
        assert(batch.deep_view() == v.images.subrange(cur as int, capped + 1));
        assert(batch.deep_view().len() == batch@.len());
        assert(n as int == batch@.len());
        assert(n as int == capped + 1 - cur);
        assert(n as int == spec_total_removes(v, amount as int));
    }
    let mut failures: usize = 0;
    let mut k: usize = 0;
    while k < n
        invariant
            k <= n,
            failures <= k,
            n == batch@.len(),
        decreases n - k,
    {
        match construct_dest_filepath(paths.dest_folder().as_str(), batch[k].as_str()) {
            Ok(dst) => {
                match copy_file(batch[k].as_str(), dst.as_str()) {
                    Ok(()) => {},
                    Err(_) => {
                        failures = failures + 1;
                    },
                }
            },
            Err(_) => {
                failures = failures + 1;
            },
        }
        k = k + 1;
    }
    if failures == 0 {
        let mut m = String::from_str("copied ");
        m.append(usize_to_string(n).as_str());
        m.append(" image(s) to ");
        m.append(paths.dest_folder().as_str());
        m.append(" succesfully");
        Ok(m)
    } else {
        let mut m = String::from_str("Failed to copy ");
        m.append(usize_to_string(failures).as_str());
        m.append(" of ");
        m.append(usize_to_string(n).as_str());
        m.append(" images");
        proof {
            assert(m@ == spec_copy_fail_msg(failures as int, n as int));
        }
        Err(m)
    }
}

/// Moves the current image and `amount - 1` of its successors to the
/// destination folder; see [`RemovalKind::Move`].
pub fn move_images(paths: &mut Paths, amount: usize) -> (r: Result<String, String>)
    requires
        wf_view(old(paths)@),
    ensures
        wf_view(final(paths)@),
        amount == 0 ==> (final(paths)@ == old(paths)@ && (r matches Ok(m) && m@
            == "0 images asked to move"@)),
        amount > 0 && old(paths)@.index is None ==> (final(paths)@ == old(paths)@ && (r matches Err(m)
            && m@ == "no images to move"@)),
        final(paths)@.dest_folder == old(paths)@.dest_folder,
        final(paths)@.base_dir == old(paths)@.base_dir,
        final(paths)@.art_len_orig == old(paths)@.art_len_orig,
        old(paths)@.images.len() - final(paths)@.images.len() == old(paths)@.art_len - final(paths)@.art_len,
        0 <= old(paths)@.images.len() - final(paths)@.images.len() <= spec_total_removes(
            old(paths)@,
            amount as int,
        ),
        amount > 0 && old(paths)@.index is Some ==> final(paths)@ == removal_result_view(
            old(paths)@,
            old(paths)@.images.len() - final(paths)@.images.len(),
        ),
        amount > 0 && old(paths)@.index is Some ==> (r is Err ==> old(paths)@.images.len() - final(paths)@.images.len() < spec_total_removes(old(paths)@, amount as int)),
        amount > 0 && old(paths)@.index is Some ==> (r matches Ok(m) ==> {
            &&& old(paths)@.images.len() - final(paths)@.images.len() == spec_total_removes(
                old(paths)@,
                amount as int,
            )
            &&& m@ == spec_removal_ok_msg(
                RemovalKind::Move,
                spec_total_removes(old(paths)@, amount as int),
                old(paths)@.dest_folder,
            )
        }),
        amount > 0 && old(paths)@.index is Some ==> (r matches Err(m) ==> (m@
            == spec_removal_fail_msg(
            RemovalKind::Move,
            spec_total_removes(old(paths)@, amount as int) - (old(paths)@.images.len() - final(paths)@.images.len()),
            spec_total_removes(old(paths)@, amount as int),
        ) || m@ == "failed to read filename for current image"@ || final(paths)@ == old(paths)@)),
{
    if amount == 0 {
        return Ok(String::from_str("0 images asked to move"));
    }
    match paths.index() {
        Some(_) => {},
        None => {
            return Err(String::from_str("no images to move"));
        },
    }
    removal_batch(paths, amount, RemovalKind::Move)
}

/// Moves the current image and `amount - 1` of its successors to the
/// platform trash; see [`RemovalKind::Trash`].
pub fn trash_images(paths: &mut Paths, amount: usize) -> (r: Result<String, String>)
    requires
        wf_view(old(paths)@),
    ensures
        wf_view(final(paths)@),
        amount == 0 ==> (final(paths)@ == old(paths)@ && (r matches Ok(m) && m@
            == "0 images asked to trash"@)),
        amount > 0 && old(paths)@.index is None ==> (final(paths)@ == old(paths)@ && (r matches Err(m)
            && m@ == "no images to trash"@)),
        final(paths)@.dest_folder == old(paths)@.dest_folder,
        final(paths)@.base_dir == old(paths)@.base_dir,
        final(paths)@.art_len_orig == old(paths)@.art_len_orig,
        old(paths)@.images.len() - final(paths)@.images.len() == old(paths)@.art_len - final(paths)@.art_len,
        0 <= old(paths)@.images.len() - final(paths)@.images.len() <= spec_total_removes(
            old(paths)@,
            amount as int,
        ),
        amount > 0 && old(paths)@.index is Some ==> final(paths)@ == removal_result_view(
            old(paths)@,
            old(paths)@.images.len() - final(paths)@.images.len(),
        ),
        amount > 0 && old(paths)@.index is Some ==> (r is Err ==> old(paths)@.images.len() - final(paths)@.images.len() < spec_total_removes(old(paths)@, amount as int)),
        amount > 0 && old(paths)@.index is Some ==> match r {
            Ok(m) => {
                &&& old(paths)@.images.len() - final(paths)@.images.len() == spec_total_removes(
                    old(paths)@,
                    amount as int,
                )
                &&& m@ == spec_removal_ok_msg(
                    RemovalKind::Trash,
                    spec_total_removes(old(paths)@, amount as int),
                    old(paths)@.dest_folder,
                )
            },
            Err(m) => m@ == spec_removal_fail_msg(
                RemovalKind::Trash,
                spec_total_removes(old(paths)@, amount as int) - (old(paths)@.images.len() - final(paths)@.images.len()),
                spec_total_removes(old(paths)@, amount as int),
            ),
        },
{
    if amount == 0 {
        return Ok(String::from_str("0 images asked to trash"));
    }
    match paths.index() {
        Some(_) => {},
        None => {
            return Err(String::from_str("no images to trash"));
        },
    }
    removal_batch(paths, amount, RemovalKind::Trash)
}

/// Deletes the current image and `amount - 1` of its successors; see
/// [`RemovalKind::Delete`].
pub fn delete_images(paths: &mut Paths, amount: usize) -> (r: Result<String, String>)
    requires
        wf_view(old(paths)@),
    ensures
        wf_view(final(paths)@),
        amount == 0 ==> (final(paths)@ == old(paths)@ && (r matches Ok(m) && m@
            == "0 images asked to delete"@)),
        amount > 0 && old(paths)@.index is None ==> (final(paths)@ == old(paths)@ && (r matches Err(m)
            && m@ == "no images to delete"@)),
        final(paths)@.dest_folder == old(paths)@.dest_folder,
        final(paths)@.base_dir == old(paths)@.base_dir,
        final(paths)@.art_len_orig == old(paths)@.art_len_orig,
        old(paths)@.images.len() - final(paths)@.images.len() == old(paths)@.art_len - final(paths)@.art_len,
        0 <= old(paths)@.images.len() - final(paths)@.images.len() <= spec_total_removes(
            old(paths)@,
            amount as int,
        ),
        amount > 0 && old(paths)@.index is Some ==> final(paths)@ == removal_result_view(
            old(paths)@,
            old(paths)@.images.len() - final(paths)@.images.len(),
        ),
        amount > 0 && old(paths)@.index is Some ==> (r is Err ==> old(paths)@.images.len() - final(paths)@.images.len() < spec_total_removes(old(paths)@, amount as int)),
        amount > 0 && old(paths)@.index is Some ==> match r {
            Ok(m) => {
                &&& old(paths)@.images.len() - final(paths)@.images.len() == spec_total_removes(
                    old(paths)@,
                    amount as int,
                )
                &&& m@ == spec_removal_ok_msg(
                    RemovalKind::Delete,
                    spec_total_removes(old(paths)@, amount as int),
                    old(paths)@.dest_folder,
                )
            },
            Err(m) => m@ == spec_removal_fail_msg(
                RemovalKind::Delete,
                spec_total_removes(old(paths)@, amount as int) - (old(paths)@.images.len() - final(paths)@.images.len()),
                spec_total_removes(old(paths)@, amount as int),
            ),
        },
{
    if amount == 0 {
        return Ok(String::from_str("0 images asked to delete"));
    }
    match paths.index() {
        Some(_) => {},
        None => {
            return Err(String::from_str("no images to delete"));
        },
    }
    removal_batch(paths, amount, RemovalKind::Delete)
}

/// Whether the normal-mode loop goes on after an action, or breaks out to
/// let the run loop observe a mode change.
#[derive(Clone, Copy, Debug, PartialEq, Eq, Structural)]
pub enum CompleteType {
    /// Keep reading events in the current mode.
    Complete,
    /// Leave the current mode's loop; the mode decides what runs next.
    Break,
}

/// What the run loop must do after an action was dispatched.
#[derive(Clone, Copy, Debug)]
pub struct DispatchOutcome {
    /// Whether to keep reading events in the current mode.
    pub next: CompleteType,
    /// Whether the screen must be redrawn.
    pub render: bool,
    /// A zoom, pan, fit or centre request, which only the renderer that
    /// owns the continuous view state can carry out.
    pub visual: Option<ProcessAction>,
}

/// The state-machine fields [`dispatch_normal`] never touches.
pub open spec fn same_but_mode(s: State, s2: State) -> bool {
    &&& s2.render_infobar == s.render_infobar
    &&& s2.render_help == s.render_help
    &&& s2.fullscreen == s.fullscreen
    &&& s2.last_action == s.last_action
    &&& s2.flip_horizontal == s.flip_horizontal
    &&& s2.flip_vertical == s.flip_vertical
    &&& s2.rot_angle == s.rot_angle
    &&& s2.register == s.register
}

/// What dispatching one action does: how the state machine, the registry
/// and the outcome relate to the action. The file-backed actions promise
/// a success or error overlay and exact bounds on what left the registry;
/// which of the two comes back depends on the filesystem.
pub open spec fn dispatch_rel(
    s: State,
    v: RegistryView,
    pa: ProcessAction,
    s2: State,
    v2: RegistryView,
    r: DispatchOutcome,
) -> bool {
    match pa.action {
        Action::Quit => s2 == (State { mode: Mode::Exit, ..s }) && v2 == v && r.next is Break
            && r.visual is None,
        Action::ToggleFullscreen => s2 == (State { fullscreen: !s.fullscreen, ..s }) && v2 == v
            && r.next is Complete && r.render && r.visual is None,
        Action::ReRender => s2 == s && v2 == v && r.next is Complete && r.render && r.visual
            is None,
        Action::SwitchCommandMode => {
            &&& same_but_mode(s, s2)
            &&& s2.mode matches Mode::Command(t) && t@ == Seq::<char>::empty()
            &&& v2 == v
            &&& r.next is Break
            &&& r.visual is None
        },
        Action::SwitchNormalMode => s2 == s && v2 == v && r.next is Complete && !r.render
            && r.visual is None,
        Action::SwitchMultiNormalMode => s2 == (State { mode: Mode::MultiNormal, ..s }) && v2 == v
            && r.next is Break && r.visual is None,
        Action::ToggleFit | Action::CenterImage | Action::Zoom(_) | Action::Pan(_) => s2 == s && v2
            == v && r.next is Complete && r.render && r.visual == Some(pa),
        Action::FlipHorizontal => s2 == (State { flip_horizontal: !s.flip_horizontal, ..s }) && v2
            == v && r.next is Complete && r.render && r.visual is None,
        Action::FlipVertical => s2 == (State { flip_vertical: !s.flip_vertical, ..s }) && v2 == v
            && r.next is Complete && r.render && r.visual is None,
        Action::Rotate(d) => {
            let turned = match d {
                RotationDirection::Clockwise => match s.rot_angle {
                    RotAngle::Up => RotAngle::Right,
                    RotAngle::Right => RotAngle::Down,
                    RotAngle::Down => RotAngle::Left,
                    RotAngle::Left => RotAngle::Up,
                },
                RotationDirection::CounterClockwise => match s.rot_angle {
                    RotAngle::Up => RotAngle::Left,
                    RotAngle::Left => RotAngle::Down,
                    RotAngle::Down => RotAngle::Right,
                    RotAngle::Right => RotAngle::Up,
                },
            };
            s2 == (State { rot_angle: turned, ..s }) && v2 == v && r.next is Complete && r.render
                && r.visual is None
        },
        Action::Next => s2 == s && v2 == increment_view(v, pa.times as int) && r.next is Complete
            && r.render && r.visual is None,
        Action::Prev => s2 == s && v2 == decrement_view(v, pa.times as int) && r.next is Complete
            && r.render && r.visual is None,
        Action::First => s2 == s && v2 == (if v.index is Some {
            RegistryView { index: Some(0), ..v }
        } else {
            v
        }) && r.next is Complete && r.render && r.visual is None,
        Action::Last => s2 == s && v2 == (if v.art_len > 0 {
            RegistryView { index: Some(v.art_len - 1), ..v }
        } else {
            v
        }) && r.next is Complete && r.render && r.visual is None,
        Action::SkipForward => s2 == s && v2 == increment_view(
            v,
            spec_sat_mul(spec_skip_size(v.images.len() as int), pa.times as int),
        ) && r.next is Complete && r.render && r.visual is None,
        Action::SkipBack => s2 == s && v2 == decrement_view(
            v,
            spec_sat_mul(spec_skip_size(v.images.len() as int), pa.times as int),
        ) && r.next is Complete && r.render && r.visual is None,
        Action::Copy => {
            &&& same_but_mode(s, s2)
            &&& v2 == v
            &&& r.next is Break
            &&& r.visual is None
            &&& (s2.mode is Success || s2.mode is Error)
            &&& (s2.mode matches Mode::Success(m) ==> (pa.times == 0 ==> m@
                == "0 images asked to copy"@) && (pa.times > 0 && v.index is Some ==> m@
                == spec_copy_ok_msg(spec_total_removes(v, pa.times as int), v.dest_folder)))
            &&& (pa.times > 0 && v.index is None ==> (s2.mode matches Mode::Error(m) && m@
                == "Failed to copy file: "@ + "no images to copy"@))
            &&& (pa.times > 0 && v.index is Some ==> (s2.mode matches Mode::Error(m)
                ==> exists|f: int|
                    1 <= f <= spec_total_removes(v, pa.times as int) && m@
                        == "Failed to copy file: "@ + spec_copy_fail_msg(
                        f,
                        spec_total_removes(v, pa.times as int),
                    )))
        },
        Action::Move | Action::Delete | Action::Trash => {
            let kind = match pa.action {
                Action::Move => RemovalKind::Move,
                Action::Trash => RemovalKind::Trash,
                _ => RemovalKind::Delete,
            };
            let prefix = match pa.action {
                Action::Move => "Failed to move file: "@,
                _ => "Failed to delete file: "@,
            };
            let total = spec_total_removes(v, pa.times as int);
            let removed = v.images.len() - v2.images.len();
            &&& same_but_mode(s, s2)
            &&& r.next is Break
            &&& r.visual is None
            &&& (s2.mode is Success || s2.mode is Error)
            &&& (pa.times == 0 ==> v2 == v && s2.mode is Success)
            &&& (pa.times > 0 && v.index is None ==> v2 == v && s2.mode is Error)
            &&& (pa.times > 0 && v.index is Some ==> {
                &&& v2 == removal_result_view(v, removed)
                &&& 0 <= removed <= total
                &&& (s2.mode matches Mode::Success(m) ==> removed == total && m@
                    == spec_removal_ok_msg(kind, total, v.dest_folder))
                &&& (s2.mode is Error ==> removed < total)
                &&& (!(pa.action is Move) ==> (s2.mode matches Mode::Error(m) ==> m@ == prefix
                    + spec_removal_fail_msg(kind, total - removed, total)))
                &&& (pa.action is Move ==> (s2.mode matches Mode::Error(m) ==> (m@ == prefix
                    + spec_removal_fail_msg(kind, total - removed, total) || m@ == prefix
                    + "failed to read filename for current image"@ || v2 == v)))
            })
        },
        Action::Backspace | Action::KeyboardInput(_) | Action::Noop => s2 == s && v2 == v && r.next
            is Complete && !r.render && r.visual is None,
    }
}

/// Carry one normal-mode action out: mode switches and overlays on the
/// state machine, navigation on the registry, file work through the
/// filesystem collaborators. Zoom, pan, fit and centring are handed back
/// for the renderer to apply.
pub fn dispatch_normal(state: &mut State, paths: &mut Paths, pa: ProcessAction) -> (r:
    DispatchOutcome)
    requires
        wf_view(old(paths)@),
    ensures
        wf_view(final(paths)@),
        dispatch_rel(*old(state), old(paths)@, pa, *final(state), final(paths)@, r),
{
    match pa.action {
        Action::Quit => {
            state.mode = Mode::Exit;
            DispatchOutcome { next: CompleteType::Break, render: false, visual: None }
        },
        Action::ToggleFullscreen => {
            state.fullscreen = !state.fullscreen;
            DispatchOutcome { next: CompleteType::Complete, render: true, visual: None }
        },
        Action::ReRender => DispatchOutcome {
            next: CompleteType::Complete,
            render: true,
            visual: None,
        },
        Action::SwitchCommandMode => {
            state.mode = Mode::Command(String::new());
            DispatchOutcome { next: CompleteType::Break, render: false, visual: None }
        },
        Action::SwitchMultiNormalMode => {
            state.mode = Mode::MultiNormal;
            DispatchOutcome { next: CompleteType::Break, render: false, visual: None }
        },
        Action::ToggleFit | Action::CenterImage | Action::Zoom(_) | Action::Pan(_) => {
            DispatchOutcome { next: CompleteType::Complete, render: true, visual: Some(pa) }
        },
        Action::FlipHorizontal => {
            state.flip_horizontal = !state.flip_horizontal;
            DispatchOutcome { next: CompleteType::Complete, render: true, visual: None }
        },
        Action::FlipVertical => {
            state.flip_vertical = !state.flip_vertical;
            DispatchOutcome { next: CompleteType::Complete, render: true, visual: None }
        },
        Action::Rotate(d) => {
            state.rot_angle = match d {
                RotationDirection::Clockwise => state.rot_angle.rot_clockwise(),
                RotationDirection::CounterClockwise => state.rot_angle.rot_clockclockwise(),
            };
            DispatchOutcome { next: CompleteType::Complete, render: true, visual: None }
        },
        Action::Next => {
            paths.increment(pa.times);
            DispatchOutcome { next: CompleteType::Complete, render: true, visual: None }
        },
        Action::Prev => {
            paths.decrement(pa.times);
            DispatchOutcome { next: CompleteType::Complete, render: true, visual: None }
        },
        Action::First => {
            match paths.index() {
                Some(_) => paths.set_index(0),
                None => {},
            }
            DispatchOutcome { next: CompleteType::Complete, render: true, visual: None }
        },
        Action::Last => {
            match paths.max_viewable_index() {
                Some(mi) => paths.set_index(mi),
                None => {},
            }
            DispatchOutcome { next: CompleteType::Complete, render: true, visual: None }
        },
        Action::SkipForward => {
            let skip = compute_skip_size(paths.images().len());
            paths.increment(sat_mul(skip, pa.times));
            DispatchOutcome { next: CompleteType::Complete, render: true, visual: None }
        },
        Action::SkipBack => {
            let skip = compute_skip_size(paths.images().len());
            paths.decrement(sat_mul(skip, pa.times));
            DispatchOutcome { next: CompleteType::Complete, render: true, visual: None }
        },
        Action::Copy => {
            match copy_images(paths, pa.times) {
                Ok(m) => {
                    state.mode = Mode::Success(m);
                },
                Err(e) => {
                    let mut msg = String::from_str("Failed to copy file: ");
                    msg.append(e.as_str());
                    state.mode = Mode::Error(msg);
                },
            }
            DispatchOutcome { next: CompleteType::Break, render: false, visual: None }
        },
        Action::Move => {
            match move_images(paths, pa.times) {
                Ok(m) => {
                    state.mode = Mode::Success(m);
                },
                Err(e) => {
                    let mut msg = String::from_str("Failed to move file: ");
                    msg.append(e.as_str());
                    state.mode = Mode::Error(msg);
                },
            }
            DispatchOutcome { next: CompleteType::Break, render: false, visual: None }
        },
        Action::Delete => {
            match delete_images(paths, pa.times) {
                Ok(m) => {
                    state.mode = Mode::Success(m);
                },
                Err(e) => {
                    let mut msg = String::from_str("Failed to delete file: ");
                    msg.append(e.as_str());
                    state.mode = Mode::Error(msg);
                },
            }
            DispatchOutcome { next: CompleteType::Break, render: false, visual: None }
        },
        Action::Trash => {
            match trash_images(paths, pa.times) {
                Ok(m) => {
                    state.mode = Mode::Success(m);
                },
                Err(e) => {
                    let mut msg = String::from_str("Failed to delete file: ");
                    msg.append(e.as_str());
                    state.mode = Mode::Error(msg);
                },
            }
            DispatchOutcome { next: CompleteType::Break, render: false, visual: None }
        },
        Action::Backspace | Action::KeyboardInput(_) | Action::SwitchNormalMode | Action::Noop => {
            DispatchOutcome { next: CompleteType::Complete, render: false, visual: None }
        },
    }
}

/// What the run loop must do after a repeat-count-mode decision.
#[derive(Clone, Copy, Debug)]
pub struct MultiOutcome {
    /// Whether the repeat-count mode is finished.
    pub complete: bool,
    /// Whether the screen must be redrawn.
    pub render: bool,
}

/// Where a capped jump-to-index lands: the entered count names a one-based
/// image number, clamped to the viewable range.
pub open spec fn spec_jump_index(v: RegistryView, times: int) -> int {
    let requested = if times >= 1 {
        times - 1
    } else {
        0
    };
    if requested <= v.art_len - 1 {
        requested
    } else {
        v.art_len - 1
    }
}

/// What handling one repeat-count-mode decision does; see
/// [`handle_multi_action`].
pub open spec fn multi_rel(
    s: State,
    v: RegistryView,
    ma: MultiNormalAction,
    s2: State,
    v2: RegistryView,
    r: MultiOutcome,
) -> bool {
    match ma {
        MultiNormalAction::MoreInput => s2 == s && v2 == v && !r.complete && r.render,
        MultiNormalAction::Cancel | MultiNormalAction::SwitchBackNormalMode => s2 == (State {
            mode: Mode::Normal,
            ..s
        }) && v2 == v && r.complete && !r.render,
        MultiNormalAction::Quit => s2 == (State { mode: Mode::Exit, ..s }) && v2 == v && r.complete
            && !r.render,
        MultiNormalAction::ReRender | MultiNormalAction::Noop => s2 == s && v2 == v && r.complete
            && !r.render,
        MultiNormalAction::Repeat(process) => {
            let s1 = State {
                last_action: if records_last_action(process.action) {
                    process
                } else {
                    s.last_action
                },
                ..s
            };
            match process.action {
                Action::Backspace => {
                    let divided = (s.register.cur_action.times / 10) as usize;
                    let stripped = State {
                        register: Register {
                            cur_action: ProcessAction {
                                action: s.register.cur_action.action,
                                times: divided,
                            },
                        },
                        ..s1
                    };
                    if divided == 0 {
                        // An emptied accumulator cancels back to normal mode.
                        s2 == (State { mode: Mode::Normal, ..stripped }) && v2 == v && r.complete
                            && r.render
                    } else {
                        s2 == stripped && v2 == v && !r.complete && r.render
                    }
                },
                Action::Last => {
                    &&& s2 == (State { mode: Mode::Normal, ..s1 })
                    &&& v2 == (if v.art_len > 0 {
                        RegistryView {
                            index: Some(spec_jump_index(v, s.register.cur_action.times as int)),
                            ..v
                        }
                    } else {
                        v
                    })
                    &&& r.complete
                    &&& r.render
                },
                _ => s2 == (State {
                    register: Register {
                        cur_action: ProcessAction {
                            action: process.action,
                            times: s.register.cur_action.times,
                        },
                    },
                    mode: Mode::Normal,
                    ..s1
                }) && v2 == v && r.complete && !r.render,
            }
        },
    }
}

/// Handle what the repeat-count mode decided: digits keep the mode open,
/// backspace strips the last digit of the count, a jump lands on the
/// entered image number, and any other action is parked in the register
/// for the normal-mode loop to perform in bulk.
pub fn handle_multi_action(state: &mut State, paths: &mut Paths, ma: MultiNormalAction) -> (r:
    MultiOutcome)
    requires
        wf_view(old(paths)@),
    ensures
        wf_view(final(paths)@),
        multi_rel(*old(state), old(paths)@, ma, *final(state), final(paths)@, r),
{
    match ma {
        MultiNormalAction::MoreInput => MultiOutcome { complete: false, render: true },
        MultiNormalAction::Cancel | MultiNormalAction::SwitchBackNormalMode => {
            state.mode = Mode::Normal;
            MultiOutcome { complete: true, render: false }
        },
        MultiNormalAction::Quit => {
            state.mode = Mode::Exit;
            MultiOutcome { complete: true, render: false }
        },
        MultiNormalAction::ReRender | MultiNormalAction::Noop => MultiOutcome {
            complete: true,
            render: false,
        },
        MultiNormalAction::Repeat(process) => {
            state.process_action(process);
            match process.action {
                Action::Backspace => {
                    // Strip the last digit of the accumulated count; an
                    // emptied count cancels the mode.
                    state.register.cur_action.times = state.register.cur_action.times / 10;
                    if state.register.cur_action.times == 0 {
                        state.mode = Mode::Normal;
                        MultiOutcome { complete: true, render: true }
                    } else {
                        MultiOutcome { complete: false, render: true }
                    }
                },
                Action::Last => {
                    let times: usize = state.register.cur_action.times;
                    let requested: usize = if times >= 1 {
                        times - 1
                    } else {
                        0
                    };
                    match paths.max_viewable_index() {
                        Some(mi) => {
                            paths.set_index(
                                if requested <= mi {
                                    requested
                                } else {
                                    mi
                                },
                            );
                        },
                        None => {},
                    }
                    state.mode = Mode::Normal;
                    MultiOutcome { complete: true, render: true }
                },
                _ => {
                    state.register.cur_action.action = process.action;
                    state.mode = Mode::Normal;
                    MultiOutcome { complete: true, render: false }
                },
            }
        },
    }
}

/// The key table shown by the help overlay.
pub fn help_text() -> (r: Vec<&'static str>)
    ensures
        r@.len() == 19,
{
    let mut t: Vec<&'static str> = Vec::new();
    t.push(
        "+------------+----------------------------+-----------------------------------------------------+",
    );
    t.push(
        "| Key 1      | Key 2                      | Action                                              |",
    );
    t.push(
        "|------------+----------------------------|-----------------------------------------------------|",
    );
    t.push(
        "| q          | Esc                        | Quit                                                |",
    );
    t.push(
        "| k/j        | Left/Right                 | Previous/Next Image                                 |",
    );
    t.push(
        "| i/o        | Up/Down                    | Zoom in/out                                         |",
    );
    t.push(
        "| H, J, K, L | Shift + Up/Down/Left/Right | Pan left/down/up/right                              |",
    );
    t.push(
        "| b/w        | PageDown/PageUp            | Backward/Forward 10% of images                      |",
    );
    t.push(
        "| g/G        | Home/End                   | First/Last Image                                    |",
    );
    t.push(
        "| m          |                            | Move image to destination folder (default ./keep)   |",
    );
    t.push(
        "| c          |                            | Copy image to destination folder (default ./keep)   |",
    );
    t.push(
        "| d          | Delete                     | Delete image from it's location                     |",
    );
    t.push(
        "| t          |                            | Toggle information bar                              |",
    );
    t.push(
        "| f          | F11                        | Toggle fullscreen mode                              |",
    );
    t.push(
        "| ?          |                            | Toggle help box                                     |",
    );
    t.push(
        "| z          | Left Click                 | Toggle actual size vs scaled image                  |",
    );
    t.push(
        "| Z          |                            | Center image                                        |",
    );
    t.push(
        "| . (period) |                            | Repeat last action                                  |",
    );
    t.push(
        "+------------+----------------------------+-----------------------------------------------------+",
    );
    t
}

} // verus!
