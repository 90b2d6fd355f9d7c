//! The image-path registry: the ordered path list, the current position,
//! the destination folder and the user-set soft cap on how many images are
//! viewable. Every public operation keeps the current position inside the
//! viewable range.

use crate::deepseq::{
    lemma_deep_remove, lemma_deep_reverse, lemma_deep_subrange, lemma_vec_deep, reverse_vec,
};
use vstd::prelude::*;

verus! {

/// Mathematical model of a registry: the paths as sequences of characters,
/// the cursor, the effective viewable count (`art_len`) and the cap the user
/// asked for (`art_len_orig`).
#[verifier::ext_equal]
pub ghost struct RegistryView {
    pub images: Seq<Seq<char>>,
    pub index: Option<int>,
    pub art_len: int,
    pub art_len_orig: Option<int>,
    pub dest_folder: Seq<char>,
    pub base_dir: Seq<char>,
}

/// The registry invariant: the viewable count never exceeds the number of
/// images, the cursor exists exactly when something is viewable, the cursor
/// stays below the viewable count, and a recorded user cap is positive.
pub open spec fn wf_view(v: RegistryView) -> bool {
    &&& v.images.len() <= usize::MAX
    &&& 0 <= v.art_len <= v.images.len()
    &&& (v.index is None <==> v.art_len == 0)
    &&& (v.index matches Some(i) ==> 0 <= i < v.art_len)
    &&& (v.art_len_orig matches Some(m) ==> m >= 1)
}

/// The model of a registry after `reverse`: the paths in the opposite order,
/// the cursor mirrored inside the viewable range.
pub open spec fn reversed_view(v: RegistryView) -> RegistryView {
    RegistryView {
        images: v.images.reverse(),
        index: match v.index {
            Some(i) => Some(v.art_len - 1 - i),
            None => None,
        },
        ..v
    }
}

/// Applying `reverse` twice restores both the image order and the cursor.
pub proof fn lemma_reverse_twice(v: RegistryView)
    requires
        wf_view(v),
    ensures
        reversed_view(reversed_view(v)) == v,
{
    assert(v.images.reverse().reverse() =~= v.images);
    assert(reversed_view(reversed_view(v)) =~= v);
}

/// Builds a registry, letting the soft cap be chosen before `build`.
pub struct PathsBuilder {
    images: Vec<String>,
    dest_folder: String,
    base_dir: String,
    index: Option<usize>,
    art_len: usize,
    art_len_orig: Option<usize>,
}

/// The registry itself. Construct it with [`PathsBuilder`].
pub struct Paths {
    /// All image paths currently tracked, in navigation order.
    images: Vec<String>,
    /// Where copy and move operations put images.
    dest_folder: String,
    /// Directory against which relative glob arguments are resolved.
    base_dir: String,
    /// Position of the image currently shown; `None` when nothing is viewable.
    index: Option<usize>,
    /// Effective viewable count: how many of `images` the user may reach.
    art_len: usize,
    /// The cap the user asked for, kept so a reload can re-apply it.
    art_len_orig: Option<usize>,
}

pub open spec fn opt_usize_as_int(o: Option<usize>) -> Option<int> {
    match o {
        Some(i) => Some(i as int),
        None => None,
    }
}

impl View for Paths {
    type V = RegistryView;

    closed spec fn view(&self) -> RegistryView {
        RegistryView {
            images: self.images.deep_view(),
            index: opt_usize_as_int(self.index),
            art_len: self.art_len as int,
            art_len_orig: opt_usize_as_int(self.art_len_orig),
            dest_folder: self.dest_folder@,
            base_dir: self.base_dir@,
        }
    }
}

impl PathsBuilder {
    /// Construct an image tracker with no soft cap on images.
    pub fn new(images: Vec<String>, dest_folder: String, base_dir: String) -> (r: Self)
        ensures
            r@.images == images.deep_view(),
            r@.dest_folder == dest_folder@,
            r@.base_dir == base_dir@,
            r@.art_len == images.deep_view().len(),
            r@.art_len_orig is None,
            r@.index == if images.deep_view().len() == 0 {
                Option::<int>::None
            } else {
                Option::<int>::Some(0)
            },
            wf_view(r@),
    {
        let index: Option<usize> = if images.len() == 0 {
            None
        } else {
            Some(0)
        };
        let art_len: usize = images.len();
        Self { images, dest_folder, base_dir, index, art_len, art_len_orig: None }
    }

    /// Cap how many images are viewable even if more were discovered;
    /// zero means no cap.
    pub fn with_maximum_viewable(self, cap: usize) -> (r: Self)
        requires
            wf_view(self@),
            self@.index is None <==> self@.images.len() == 0,
            self@.index matches Some(i) ==> i == 0,
        ensures
            wf_view(r@),
            r@ == if cap == 0 {
                (RegistryView {
                    art_len: self@.images.len() as int,
                    art_len_orig: None,
                    ..self@
                })
            } else {
                (RegistryView {
                    art_len: if cap <= self@.images.len() {
                        cap as int
                    } else {
                        self@.images.len() as int
                    },
                    art_len_orig: Some(cap as int),
                    ..self@
                })
            },
    {
        let mut b = self;
        if cap == 0 {
            b.art_len = b.images.len();
            b.art_len_orig = None;
        } else {
            b.art_len = if cap <= b.images.len() {
                cap
            } else {
                b.images.len()
            };
            b.art_len_orig = Some(cap);
        }
        b
    }

    /// Finish building the registry.
    pub fn build(self) -> (r: Paths)
        requires
            wf_view(self@),
        ensures
            r@ == self@,
            wf_view(r@),
    {
        Paths {
            images: self.images,
            dest_folder: self.dest_folder,
            base_dir: self.base_dir,
            index: self.index,
            art_len: self.art_len,
            art_len_orig: self.art_len_orig,
        }
    }
}

impl View for PathsBuilder {
    type V = RegistryView;

    closed spec fn view(&self) -> RegistryView {
        RegistryView {
            images: self.images.deep_view(),
            index: opt_usize_as_int(self.index),
            art_len: self.art_len as int,
            art_len_orig: opt_usize_as_int(self.art_len_orig),
            dest_folder: self.dest_folder@,
            base_dir: self.base_dir@,
        }
    }
}

impl Paths {
    /// Immutable access to the tracked image paths.
    pub fn images(&self) -> (r: &Vec<String>)
        ensures
            r.deep_view() == self@.images,
    {
        &self.images
    }

    /// Index of the image currently viewed, `None` when nothing is viewable.
    pub fn index(&self) -> (r: Option<usize>)
        ensures
            opt_usize_as_int(r) == self@.index,
    {
        self.index
    }

    /// The destination folder for copy and move operations.
    pub fn dest_folder(&self) -> (r: &String)
        ensures
            r@ == self@.dest_folder,
    {
        &self.dest_folder
    }

    /// Replace the destination folder.
    pub fn set_dest_folder(&mut self, dest: String)
        ensures
            final(self)@ == (RegistryView { dest_folder: dest@, ..old(self)@ }),
    {
        self.dest_folder = dest;
    }

    /// Directory against which relative glob arguments are resolved.
    pub fn base_dir(&self) -> (r: &String)
        ensures
            r@ == self@.base_dir,
    {
        &self.base_dir
    }

    /// Replace the base directory.
    pub fn set_base_dir(&mut self, dir: String)
        ensures
            final(self)@ == (RegistryView { base_dir: dir@, ..old(self)@ }),
    {
        self.base_dir = dir;
    }

    /// The viewable image count, `None` when nothing is viewable.
    pub fn max_viewable(&self) -> (r: Option<usize>)
        ensures
            r == if self@.art_len == 0 {
                Option::<usize>::None
            } else {
                Option::<usize>::Some(self@.art_len as usize)
            },
    {
        if self.art_len == 0 {
            None
        } else {
            Some(self.art_len)
        }
    }

    /// Largest reachable index, `None` when nothing is viewable.
    pub fn max_viewable_index(&self) -> (r: Option<usize>)
        ensures
            r == if self@.art_len == 0 {
                Option::<usize>::None
            } else {
                Option::<usize>::Some((self@.art_len - 1) as usize)
            },
    {
        match self.max_viewable() {
            None => None,
            Some(m) => Some(m - 1),
        }
    }

    /// Sets which image index is the current image. The index must stay
    /// inside the viewable range, so the registry must be non-empty.
    pub fn set_index(&mut self, i: usize)
        requires
            wf_view(old(self)@),
            old(self)@.art_len > 0,
            i < old(self)@.art_len,
        ensures
            wf_view(final(self)@),
            final(self)@ == (RegistryView { index: Some(i as int), ..old(self)@ }),
    {
        self.index = Some(i);
    }

    /// Returns current index and the path at it.
    pub fn current_index_and_path(&self) -> (r: Option<(usize, &String)>)
        requires
            wf_view(self@),
        ensures
            match r {
                Some((i, p)) => self@.index == Some(i as int) && p@ == self@.images[i as int],
                None => self@.index is None,
            },
    {
        match self.index {
            None => None,
            Some(i) => Some((i, &self.images[i])),
        }
    }

    /// Number of the current image as shown to the user (one-based).
    pub fn current_image(&self) -> (r: Option<usize>)
        requires
            wf_view(self@),
        ensures
            r == match self@.index {
                Some(i) => Some((i + 1) as usize),
                None => Option::<usize>::None,
            },
    {
        match self.index {
            None => None,
            Some(i) => Some(i + 1),
        }
    }

    /// The file path of the current image, `None` when nothing is viewable.
    pub fn current_image_path(&self) -> (r: Option<&String>)
        requires
            wf_view(self@),
        ensures
            match r {
                Some(p) => self@.index matches Some(i) && p@ == self@.images[i],
                None => self@.index is None,
            },
    {
        match self.index {
            None => None,
            Some(i) => Some(&self.images[i]),
        }
    }

    /// Immutable access to a single image path, past the soft cap as well.
    pub fn get(&self, i: usize) -> (r: Option<&String>)
        ensures
            match r {
                Some(p) => i < self@.images.len() && p@ == self@.images[i as int],
                None => i >= self@.images.len(),
            },
    {
        if i < self.images.len() {
            Some(&self.images[i])
        } else {
            None
        }
    }

    /// Move the cursor back by `step`, stopping at the first image.
    /// Does nothing when nothing is viewable.
    pub fn decrement(&mut self, step: usize)
        requires
            wf_view(old(self)@),
        ensures
            wf_view(final(self)@),
            final(self)@ == decrement_view(old(self)@, step as int),
    {
        if let Some(i) = self.index {
            self.index = Some(if i >= step {
                i - step
            } else {
                0
            });
        }
    }

    /// Move the cursor forward by `step`, stopping at the last viewable
    /// image. Does nothing when nothing is viewable.
    pub fn increment(&mut self, step: usize)
        requires
            wf_view(old(self)@),
        ensures
            wf_view(final(self)@),
            final(self)@ == increment_view(old(self)@, step as int),
    {
        let i = match self.index {
            Some(i) => i,
            None => {
                return ;
            },
        };
        // The cursor caps at the last viewable index, so the step is taken
        // at most up to there.
        let max_viewable_index: usize = self.art_len - 1;
        let remaining: usize = max_viewable_index - i;
        if step >= remaining {
            self.index = Some(max_viewable_index);
        } else {
            self.index = Some(i + step);
        }
    }

    /// Update at runtime the maximum images viewable at once; zero clears
    /// the cap. The cursor is clamped down if the new cap is smaller.
    pub fn set_actual_maximum(&mut self, art_max: usize)
        requires
            wf_view(old(self)@),
        ensures
            wf_view(final(self)@),
            final(self)@ == set_maximum_view(old(self)@, art_max as int),
            // Clearing the cap always restores the full image count as the
            // viewable count.
            art_max == 0 ==> final(self)@.art_len == old(self)@.images.len(),
    {
        if art_max == 0 {
            self.art_len_orig = None;
            self.art_len = self.images.len();
        } else {
            self.art_len_orig = Some(art_max);
            self.art_len = if art_max <= self.images.len() {
                art_max
            } else {
                self.images.len()
            };
        }
        // Re-establish the cursor inside the new viewable range.
        match self.index {
            None => {
                if self.art_len > 0 {
                    self.index = Some(0);
                }
            },
            Some(i) => {
                if self.art_len == 0 {
                    self.index = None;
                } else if i >= self.art_len {
                    self.index = Some(self.art_len - 1);
                }
            },
        }
    }

    /// Removes the image at position `i` and keeps the cursor inside the
    /// viewable range: it moves back one slot when the removed position was
    /// the last viewable one, and is clamped to the new last slot otherwise.
    pub fn remove_image(&mut self, i: usize)
        requires
            wf_view(old(self)@),
            old(self)@.art_len > 0 ==> i < old(self)@.art_len,
        ensures
            wf_view(final(self)@),
            final(self)@ == remove_image_view(old(self)@, i as int),
    {
        if self.art_len == 0 {
            // Nothing viewable, nothing to remove.
            return ;
        }
        let ghost before: Seq<String> = self.images@;
        self.images.remove(i);
        proof {
            lemma_vec_deep(old(self).images);
            lemma_deep_remove(before, i as int);
            lemma_vec_deep(self.images);
        }
        self.art_len = self.art_len - 1;
        let new_len: usize = self.art_len;
        if new_len == 0 {
            self.index = None;
            return ;
        }
        let cur: usize = match self.index {
            Some(c) => c,
            None => 0,
        };
        let adjusted: usize = if i >= new_len && cur > 0 {
            cur - 1
        } else {
            cur
        };
        self.index = Some(if adjusted <= new_len - 1 {
            adjusted
        } else {
            new_len - 1
        });
    }

    /// Removes the image the cursor points at; a no-op when nothing is
    /// viewable.
    pub fn remove_current_image(&mut self)
        requires
            wf_view(old(self)@),
        ensures
            wf_view(final(self)@),
            final(self)@ == match old(self)@.index {
                Some(i) => remove_image_view(old(self)@, i),
                None => old(self)@,
            },
    {
        if let Some(i) = self.index() {
            self.remove_image(i);
        }
    }

    /// Replace the image paths with a new set. The cursor returns to the
    /// first image, and the viewable count is re-derived from the cap the
    /// user last asked for.
    pub fn reload_images(&mut self, new_images: Vec<String>)
        requires
            wf_view(old(self)@),
        ensures
            wf_view(final(self)@),
            final(self)@ == reload_view(old(self)@, new_images.deep_view()),
    {
        let ghost incoming: Seq<Seq<char>> = new_images.deep_view();
        self.images = new_images;
        if self.images.len() == 0 {
            self.index = None;
            self.art_len = 0;
        } else {
            self.index = Some(0);
            self.art_len = match self.art_len_orig {
                Some(orig) => {
                    if orig <= self.images.len() {
                        orig
                    } else {
                        self.images.len()
                    }
                },
                None => self.images.len(),
            };
        }
    }

    /// Reverses the image order and mirrors the cursor inside the viewable
    /// range, so applying it twice restores the registry.
    pub fn reverse(&mut self)
        requires
            wf_view(old(self)@),
        ensures
            wf_view(final(self)@),
            final(self)@ == reversed_view(old(self)@),
    {
        let ghost before: Seq<String> = self.images@;
        reverse_vec(&mut self.images);
        proof {
            lemma_vec_deep(old(self).images);
            lemma_deep_reverse(before);
            lemma_vec_deep(self.images);
        }
        if self.art_len == 0 {
            return ;
        }
        let max_viewable_index: usize = self.art_len - 1;
        let i: usize = match self.index {
            Some(c) => c,
            None => 0,
        };
        self.index = Some(max_viewable_index - i);
    }

    /// The image paths from `start` through `end`, capped at the last
    /// viewable index. `None` when nothing is viewable or `start` itself is
    /// past the viewable range.
    pub fn get_range(&self, start: usize, end: usize) -> (r: Option<Vec<String>>)
        requires
            wf_view(self@),
            start <= end,
        ensures
            match r {
                None => self@.art_len == 0 || start > self@.art_len - 1,
                Some(v) => {
                    let capped_end = if end >= self@.art_len - 1 {
                        self@.art_len - 1
                    } else {
                        end as int
                    };
                    &&& self@.art_len > 0
                    &&& start <= capped_end
                    &&& v.deep_view() == self@.images.subrange(start as int, capped_end + 1)
                },
            },
    {
        if self.art_len == 0 {
            return None;
        }
        let max_index: usize = self.art_len - 1;
        if start > max_index {
            return None;
        }
        let capped_end: usize = if end >= max_index {
            max_index
        } else {
            end
        };
        let mut out: Vec<String> = Vec::new();
        let mut idx: usize = start;
        while idx <= capped_end
            invariant
                start <= idx <= capped_end + 1,
                capped_end < self.art_len,
                self.art_len <= self.images@.len(),
                out@ =~= self.images@.subrange(start as int, idx as int),
            decreases capped_end + 1 - idx,
        {
            out.push(self.images[idx].clone());
            proof {
                assert(out@ =~= self.images@.subrange(start as int, idx + 1));
            }
            idx = idx + 1;
        }
        proof {
            lemma_vec_deep(out);
            lemma_deep_subrange(self.images@, start as int, capped_end + 1);
            assert(self.images@.subrange(start as int, capped_end + 1) =~= out@);
        }
        Some(out)
    }

    /// Mutable access to the image paths, for re-ordering in place. The
    /// caller is responsible for keeping the number of images unchanged;
    /// a caller that changes the length must re-establish the registry
    /// invariant itself.
    pub fn images_as_mut_slice(&mut self) -> (r: &mut Vec<String>)
        ensures
            r.deep_view() == old(self)@.images,
            final(self)@ == (RegistryView { images: final(r).deep_view(), ..old(self)@ }),
    {
        &mut self.images
    }
}

/// The model of a registry after `set_actual_maximum`: zero clears the cap,
/// anything else records it and clamps both the viewable count and the
/// cursor; see [`Paths::set_actual_maximum`].
pub open spec fn set_maximum_view(v: RegistryView, art_max: int) -> RegistryView {
    if art_max == 0 {
        RegistryView {
            art_len: v.images.len() as int,
            art_len_orig: None,
            index: if v.images.len() == 0 {
                None
            } else {
                match v.index {
                    Some(i) => Some(i),
                    None => Some(0),
                }
            },
            ..v
        }
    } else {
        let cap = if art_max <= v.images.len() {
            art_max
        } else {
            v.images.len() as int
        };
        RegistryView {
            art_len: cap,
            art_len_orig: Some(art_max),
            index: if cap == 0 {
                None
            } else {
                match v.index {
                    Some(i) => Some(
                        if i < cap {
                            i
                        } else {
                            cap - 1
                        },
                    ),
                    None => Some(0),
                }
            },
            ..v
        }
    }
}

/// The model of a registry after moving the cursor back by `step`; see
/// [`Paths::decrement`].
pub open spec fn decrement_view(v: RegistryView, step: int) -> RegistryView {
    match v.index {
        None => v,
        Some(i) => RegistryView {
            index: Some(
                if i - step >= 0 {
                    i - step
                } else {
                    0
                },
            ),
            ..v
        },
    }
}

/// The model of a registry after moving the cursor forward by `step`; see
/// [`Paths::increment`].
pub open spec fn increment_view(v: RegistryView, step: int) -> RegistryView {
    match v.index {
        None => v,
        Some(i) => RegistryView {
            index: Some(
                if i + step >= v.art_len - 1 {
                    v.art_len - 1
                } else {
                    i + step
                },
            ),
            ..v
        },
    }
}

/// The model of a registry after removing the image at `i`; see
/// [`Paths::remove_image`].
pub open spec fn remove_image_view(v: RegistryView, i: int) -> RegistryView {
    if v.art_len == 0 {
        v
    } else {
        let new_len = v.art_len - 1;
        let cur = match v.index {
            Some(c) => c,
            None => 0,
        };
        let adjusted = if i >= new_len && cur > 0 {
            cur - 1
        } else {
            cur
        };
        RegistryView {
            images: v.images.remove(i),
            art_len: new_len,
            index: if new_len == 0 {
                None
            } else {
                Some(
                    if adjusted <= new_len - 1 {
                        adjusted
                    } else {
                        new_len - 1
                    },
                )
            },
            ..v
        }
    }
}

/// The model of a registry after replacing its images with `incoming`; see
/// [`Paths::reload_images`].
pub open spec fn reload_view(v: RegistryView, incoming: Seq<Seq<char>>) -> RegistryView {
    if incoming.len() == 0 {
        RegistryView { images: incoming, index: None, art_len: 0, ..v }
    } else {
        RegistryView {
            images: incoming,
            index: Some(0),
            art_len: match v.art_len_orig {
                Some(orig) => if orig <= incoming.len() {
                    orig
                } else {
                    incoming.len() as int
                },
                None => incoming.len() as int,
            },
            ..v
        }
    }
}

} // verus!
