//! The command sub-language: parsing one line of free text into a verb with
//! arguments, and applying each verb's effect to the registry and the
//! sorter. Discovery of new images is I/O, so the `newglob` verb hands the
//! pattern back to the caller, which feeds the discovered paths to
//! [`apply_newglob`].

use crate::fsops::expand_full;
use crate::paths::{
    opt_usize_as_int, reload_view, reversed_view, set_maximum_view, wf_view, Paths, RegistryView,
};
use crate::program::same_but_mode;
use crate::sort::{ordered_by, spec_sort_order_of, SortOrder, Sorter};
use crate::text::{all_digits, digits_val, parse_usize, push_char, spec_decimal,
    spec_numeral_digits, str_eq, usize_to_string};
use crate::ui::{HelpRender, Mode, State};
use vstd::prelude::*;

verus! {

/// The verbs of the command sub-language.
#[derive(Clone, Copy, Debug, PartialEq, Eq, Structural)]
pub enum Commands {
    /// Re-sort, with the existing or a newly named order.
    Sort,
    /// Re-discover images from a new path or glob.
    NewGlob,
    /// Toggle the command-mode help overlay.
    Help,
    /// Stop the application.
    Quit,
    /// Reverse the image order, keeping the current image current.
    Reverse,
    /// Set the destination folder for copy and move operations.
    DestFolder,
    /// Set the maximum number of images viewable at once.
    MaximumImages,
}

/// Which verb a command word names.
pub open spec fn spec_command_of(w: Seq<char>) -> Option<Commands> {
    if w == "sort"@ {
        Some(Commands::Sort)
    } else if w == "ng"@ || w == "newglob"@ {
        Some(Commands::NewGlob)
    } else if w == "?"@ || w == "help"@ {
        Some(Commands::Help)
    } else if w == "q"@ || w == "quit"@ {
        Some(Commands::Quit)
    } else if w == "r"@ || w == "reverse"@ {
        Some(Commands::Reverse)
    } else if w == "df"@ || w == "destfolder"@ {
        Some(Commands::DestFolder)
    } else if w == "m"@ || w == "max"@ {
        Some(Commands::MaximumImages)
    } else {
        None
    }
}

/// The message shown for a command word that names no verb.
pub open spec fn spec_no_such_command_msg(w: Seq<char>) -> Seq<char> {
    "No such command \""@ + w + "\", type :? for command help"@
}

impl Commands {
    /// Parse a command word into a verb.
    pub fn from_str(s: &str) -> (r: Result<Commands, String>)
        ensures
            match r {
                Ok(c) => spec_command_of(s@) == Some(c),
                Err(e) => spec_command_of(s@) is None && e@ == spec_no_such_command_msg(s@),
            },
    {
        if str_eq(s, "sort") {
            Ok(Commands::Sort)
        } else if str_eq(s, "ng") || str_eq(s, "newglob") {
            Ok(Commands::NewGlob)
        } else if str_eq(s, "?") || str_eq(s, "help") {
            Ok(Commands::Help)
        } else if str_eq(s, "q") || str_eq(s, "quit") {
            Ok(Commands::Quit)
        } else if str_eq(s, "r") || str_eq(s, "reverse") {
            Ok(Commands::Reverse)
        } else if str_eq(s, "df") || str_eq(s, "destfolder") {
            Ok(Commands::DestFolder)
        } else if str_eq(s, "m") || str_eq(s, "max") {
            Ok(Commands::MaximumImages)
        } else {
            let mut e = String::from_str("No such command \"");
            e.append(s);
            e.append("\", type :? for command help");
            Err(e)
        }
    }
}

/// Index of the first space at or after position `i`; the length when there
/// is none.
pub open spec fn first_space_at(s: Seq<char>, i: int) -> int
    decreases s.len() - i,
{
    if i < 0 || i >= s.len() {
        s.len() as int
    } else if s[i] == ' ' {
        i
    } else {
        first_space_at(s, i + 1)
    }
}

/// The command word: everything before the first space.
pub open spec fn spec_cmd_word(input: Seq<char>) -> Seq<char> {
    input.subrange(0, first_space_at(input, 0))
}

/// The arguments: everything after the first space; empty without one.
pub open spec fn spec_cmd_args(input: Seq<char>) -> Seq<char> {
    let k = first_space_at(input, 0);
    if k < input.len() {
        input.subrange(k + 1, input.len() as int)
    } else {
        Seq::empty()
    }
}

/// Separate user input into the main command and its arguments.
pub fn parse_user_input(input: &str) -> (r: Result<(Commands, String), String>)
    ensures
        match r {
            Ok((c, args)) => spec_command_of(spec_cmd_word(input@)) == Some(c) && args@
                == spec_cmd_args(input@),
            Err(e) => spec_command_of(spec_cmd_word(input@)) is None && e@
                == spec_no_such_command_msg(spec_cmd_word(input@)),
        },
{
    let n: usize = input.unicode_len();
    let mut i: usize = 0;
    while i < n
        invariant
            i <= n,
            n == input@.len(),
            first_space_at(input@, 0) == first_space_at(input@, i as int),
        ensures
            i <= n,
            first_space_at(input@, 0) == i as int,
        decreases n - i,
    {
        if input.get_char(i) == ' ' {
            break ;
        }
        i = i + 1;
    }
    let word = input.substring_char(0, i);
    let command = match Commands::from_str(word) {
        Ok(c) => c,
        Err(e) => {
            return Err(e);
        },
    };
    let arguments: String = if i < n {
        String::from_str(input.substring_char(i + 1, n))
    } else {
        String::new()
    };
    Ok((command, arguments))
}

/// The text with every backslash escape collapsed: a backslash is dropped
/// and the character it protects is kept.
pub open spec fn spec_remove_escapes(s: Seq<char>) -> Seq<char>
    decreases s.len(),
{
    if s.len() == 0 {
        s
    } else if s[0] == '\\' && s.len() >= 2 {
        seq![s[1]] + spec_remove_escapes(s.subrange(2, s.len() as int))
    } else {
        seq![s[0]] + spec_remove_escapes(s.subrange(1, s.len() as int))
    }
}

/// Collapse backslash escapes, so `folder\ path` becomes `folder path`.
pub fn remove_escapes(s: &str) -> (r: String)
    ensures
        r@ == spec_remove_escapes(s@),
{
    let n: usize = s.unicode_len();
    let mut out = String::new();
    let mut i: usize = 0;
    proof {
        assert(s@.subrange(0, n as int) =~= s@);
        assert(out@ + spec_remove_escapes(s@) =~= spec_remove_escapes(s@));
    }
    while i < n
        invariant
            i <= n,
            n == s@.len(),
            spec_remove_escapes(s@) == out@ + spec_remove_escapes(
                s@.subrange(i as int, n as int),
            ),
        decreases n - i,
    {
        let ghost suffix: Seq<char> = s@.subrange(i as int, n as int);
        let ghost before_out: Seq<char> = out@;
        let c = s.get_char(i);
        if c == '\\' && i + 1 < n {
            let protected = s.get_char(i + 1);
            push_char(&mut out, protected);
            proof {
                assert(suffix[0] == '\\' && suffix.len() >= 2);
                assert(suffix[1] == protected);
                assert(suffix.subrange(2, suffix.len() as int) =~= s@.subrange(i + 2, n as int));
                assert(spec_remove_escapes(suffix) == seq![protected] + spec_remove_escapes(
                    s@.subrange(i + 2, n as int),
                ));
                assert(out@ =~= before_out + seq![protected]);
                assert(out@ + spec_remove_escapes(s@.subrange(i + 2, n as int)) =~= before_out
                    + spec_remove_escapes(suffix));
            }
            i = i + 2;
        } else {
            push_char(&mut out, c);
            proof {
                assert(suffix[0] == c);
                assert(!(suffix[0] == '\\' && suffix.len() >= 2));
                assert(suffix.subrange(1, suffix.len() as int) =~= s@.subrange(i + 1, n as int));
                assert(spec_remove_escapes(suffix) == seq![c] + spec_remove_escapes(
                    s@.subrange(i + 1, n as int),
                ));
                assert(out@ =~= before_out + seq![c]);
                assert(out@ + spec_remove_escapes(s@.subrange(i + 1, n as int)) =~= before_out
                    + spec_remove_escapes(suffix));
            }
            i = i + 1;
        }
    }
    proof {
        assert(s@.subrange(n as int, n as int) =~= Seq::<char>::empty());
        assert(out@ + spec_remove_escapes(Seq::<char>::empty()) =~= out@);
    }
    out
}

/// Index of the first image whose path equals `t`, at or after position
/// `i`; `None` when there is none.
pub open spec fn first_match_from(s: Seq<Seq<char>>, t: Seq<char>, i: int) -> Option<int>
    decreases s.len() - i,
{
    if i < 0 || i >= s.len() {
        None
    } else if s[i] == t {
        Some(i)
    } else {
        first_match_from(s, t, i + 1)
    }
}

proof fn lemma_first_match_none(s: Seq<Seq<char>>, t: Seq<char>, i: int)
    requires
        0 <= i,
        first_match_from(s, t, i) is None,
    ensures
        forall|k: int| i <= k < s.len() ==> s[k] != t,
    decreases s.len() - i,
{
    if i < s.len() {
        lemma_first_match_none(s, t, i + 1);
    }
}

proof fn lemma_first_match_some(s: Seq<Seq<char>>, t: Seq<char>, i: int)
    requires
        0 <= i,
        first_match_from(s, t, i) is Some,
    ensures
        first_match_from(s, t, i) matches Some(k) ==> i <= k < s.len() && s[k] == t,
    decreases s.len() - i,
{
    if i < s.len() && s[i] != t {
        lemma_first_match_some(s, t, i + 1);
    }
}

/// The position of the first image whose path equals `t`.
fn position_of(v: &Vec<String>, t: &String) -> (r: Option<usize>)
    ensures
        opt_usize_as_int(r) == first_match_from(v.deep_view(), t@, 0),
{
    let n: usize = v.len();
    let mut i: usize = 0;
    while i < n
        invariant
            i <= n,
            n == v@.len(),
            first_match_from(v.deep_view(), t@, 0) == first_match_from(
                v.deep_view(),
                t@,
                i as int,
            ),
        decreases n - i,
    {
        if str_eq(v[i].as_str(), t.as_str()) {
            proof {
                assert(v.deep_view()[i as int] == t@);
            }
            return Some(i);
        }
        proof {
            assert(v.deep_view()[i as int] != t@);
        }
        i = i + 1;
    }
    None
}

/// Where the cursor lands when the image that was current is looked up
/// again after a re-ordering: its first position where that is viewable,
/// the first image where it is past the viewable range, and the old cursor
/// where it is gone or nothing is viewable.
pub open spec fn anchor_index(v: RegistryView, t: Seq<char>) -> Option<int> {
    match first_match_from(v.images, t, 0) {
        Some(k) => if v.art_len > 0 {
            Some(
                if k <= v.art_len - 1 {
                    k
                } else {
                    0
                },
            )
        } else {
            v.index
        },
        None => v.index,
    }
}

/// Point the cursor back at the image with path `t`; see [`anchor_index`].
fn restore_anchor(paths: &mut Paths, t: &String)
    requires
        wf_view(old(paths)@),
    ensures
        wf_view(final(paths)@),
        final(paths)@ == (RegistryView { index: anchor_index(old(paths)@, t@), ..old(paths)@ }),
{
    let found = position_of(paths.images(), t);
    match found {
        Some(idx) => {
            proof {
                lemma_first_match_some(paths@.images, t@, 0);
            }
            match paths.max_viewable_index() {
                Some(max_i) => {
                    if idx <= max_i {
                        paths.set_index(idx);
                    } else {
                        paths.set_index(0);
                    }
                },
                None => {},
            }
        },
        None => {},
    }
}

/// The message shown when the sort argument names no order.
pub open spec fn spec_invalid_sort_msg(a: Seq<char>) -> Seq<char> {
    "Invalid value \""@ + a
        + "\". valid values: Alphabetical, BreadthFirst, Date, DepthFirst, Size"@
}

/// What the sort verb does; see [`run_sort`]. With a valid (or absent)
/// order argument the images are re-ordered in place, the cap and counts
/// are untouched, and when the whole image set is viewable the image that
/// was current stays current.
pub open spec fn sort_rel(
    s: State,
    v: RegistryView,
    so: Sorter,
    args: Seq<char>,
    s2: State,
    v2: RegistryView,
    so2: Sorter,
) -> bool {
    let valid = args.len() == 0 || spec_sort_order_of(args) is Some;
    let order2 = if args.len() == 0 {
        so.spec_order()
    } else {
        match spec_sort_order_of(args) {
            Some(o) => o,
            None => so.spec_order(),
        }
    };
    if !valid {
        &&& same_but_mode(s, s2)
        &&& s2.mode matches Mode::Error(m) && m@ == spec_invalid_sort_msg(args)
        &&& v2 == v
        &&& so2 == so
    } else {
        &&& s2 == s
        &&& so2.spec_order() == order2
        &&& so2.spec_reverse() == so.spec_reverse()
        &&& v2.images.to_multiset() == v.images.to_multiset()
        &&& v2.images.len() == v.images.len()
        &&& v2.art_len == v.art_len
        &&& v2.art_len_orig == v.art_len_orig
        &&& v2.dest_folder == v.dest_folder
        &&& v2.base_dir == v.base_dir
        &&& (!so.spec_reverse() ==> ordered_by(order2, v2.images))
        &&& (so.spec_reverse() ==> ordered_by(order2, v2.images.reverse()))
        &&& (v.index is None ==> v2.index == v.index)
        &&& (v.index matches Some(i) ==> v2.index == (match first_match_from(
            v2.images,
            v.images[i],
            0,
        ) {
            Some(k) => if k <= v2.art_len - 1 {
                Some(k)
            } else {
                Some(0int)
            },
            None => v.index,
        }))
        &&& (v.index matches Some(i) ==> (v2.index matches Some(j) && (v2.images[j] == v.images[i]
            || j == 0)))
    }
}

/// The sort verb: an argument first changes the order, then the images are
/// re-sorted, and the image that was current before the sort is made
/// current again where it still is viewable, falling back to the first
/// image.
#[verifier::rlimit(80)]
pub fn run_sort(state: &mut State, paths: &mut Paths, sorter: &mut Sorter, arguments: &str)
    requires
        wf_view(old(paths)@),
    ensures
        wf_view(final(paths)@),
        sort_rel(
            *old(state),
            old(paths)@,
            *old(sorter),
            arguments@,
            *final(state),
            final(paths)@,
            *final(sorter),
        ),
{
    broadcast use vstd::seq_lib::group_to_multiset_ensures;

    if arguments.unicode_len() > 0 {
        match SortOrder::from_str(arguments) {
            Some(order) => sorter.set_order(order),
            None => {
                let mut m = String::from_str("Invalid value \"");
                m.append(arguments);
                m.append("\". valid values: Alphabetical, BreadthFirst, Date, DepthFirst, Size");
                state.mode = Mode::Error(m);
                return ;
            },
        }
    }
    let target: Option<String> = match paths.current_image_path() {
        Some(p) => Some(p.clone()),
        None => None,
    };
    let ghost pre: RegistryView = paths@;
    let imgs = paths.images_as_mut_slice();
    sorter.sort(imgs);
    proof {
        assert(wf_view(paths@));
    }
    if let Some(t) = target {
        let ghost sorted_v: RegistryView = paths@;
        restore_anchor(paths, &t);
        proof {
            if pre.index is Some {
                let i = match pre.index {
                    Some(i) => i,
                    None => 0,
                };
                assert(t@ == pre.images[i]);
                assert(pre.images.contains(t@)) by {
                    assert(pre.images[i] == t@);
                }
                assert(pre.images.to_multiset().count(t@) > 0);
                assert(sorted_v.images.to_multiset().count(t@) > 0);
                assert(sorted_v.images.contains(t@));
                if first_match_from(sorted_v.images, t@, 0) is None {
                    lemma_first_match_none(sorted_v.images, t@, 0);
                    assert(false);
                }
                lemma_first_match_some(sorted_v.images, t@, 0);
            }
        }
    }
}

/// The message shown when the maximum argument is not a number.
pub open spec fn spec_not_positive_msg(a: Seq<char>) -> Seq<char> {
    "\""@ + a + "\" is not a positive integer"@
}

/// The max verb: a decimal argument, with an optional leading `+`, becomes
/// the new soft cap, zero meaning unbounded; anything else is rejected with
/// an error overlay.
pub fn maximum_viewable(state: &mut State, paths: &mut Paths, max: &str)
    requires
        wf_view(old(paths)@),
    ensures
        wf_view(final(paths)@),
        ({
            let digits = spec_numeral_digits(max@);
            &&& (digits.len() > 0 && all_digits(digits) && digits_val(digits) <= usize::MAX
                ==> final(paths)@ == set_maximum_view(old(paths)@, digits_val(digits))
                    && *final(state) == *old(state))
            &&& (!(digits.len() > 0 && all_digits(digits) && digits_val(digits) <= usize::MAX)
                ==> (final(paths)@ == old(paths)@ && same_but_mode(*old(state), *final(state)) && (
            final(state).mode matches Mode::Error(m) && m@ == spec_not_positive_msg(max@))))
        }),
{
    match parse_usize(max) {
        Some(new_max) => {
            paths.set_actual_maximum(new_max);
        },
        None => {
            let mut m = String::from_str("\"");
            m.append(max);
            m.append("\" is not a positive integer");
            state.mode = Mode::Error(m);
        },
    }
}

/// What the caller must still do after a command ran: nothing, or discover
/// images for a `newglob`.
#[derive(Clone, Debug)]
pub enum CommandOutcome {
    /// The command's whole effect has been applied.
    Done,
    /// Glob this pattern and hand the matches to [`apply_newglob`].
    NeedsGlob(String),
}

/// Toggling of the command-mode help overlay by the help verb.
pub open spec fn spec_toggled_command_help(h: HelpRender) -> HelpRender {
    if h is Command {
        HelpRender::Off
    } else {
        HelpRender::Command
    }
}

/// Run one line of command-mode input: parse it into a verb and apply the
/// verb's effect. Discovery for `newglob` is handed back to the caller.
/// The mode always leaves command mode: normal on success, an overlay
/// mode on an error or a report, exit for the quit verb.
pub fn execute_command(
    state: &mut State,
    paths: &mut Paths,
    sorter: &mut Sorter,
    input: String,
) -> (r: CommandOutcome)
    requires
        wf_view(old(paths)@),
    ensures
        wf_view(final(paths)@),
        ({
            let w = spec_cmd_word(input@);
            let c = spec_command_of(w);
            let a = spec_cmd_args(input@);
            let snorm = State { mode: Mode::Normal, ..*old(state) };
            &&& (input@.len() == 0 ==> final(paths)@ == old(paths)@ && *final(sorter) == *old(
                sorter,
            ) && *final(state) == snorm && r is Done)
            &&& (input@.len() > 0 && c is None ==> final(paths)@ == old(paths)@ && *final(sorter)
                == *old(sorter) && same_but_mode(*old(state), *final(state)) && (final(state).mode
                matches Mode::Error(m) && m@ == spec_no_such_command_msg(w)) && r is Done)
            &&& (input@.len() > 0 && c == Some(Commands::Help) ==> final(paths)@ == old(paths)@
                && *final(sorter) == *old(sorter) && *final(state) == (State {
                mode: Mode::Normal,
                render_help: spec_toggled_command_help(old(state).render_help),
                ..*old(state)
            }) && r is Done)
            &&& (input@.len() > 0 && c == Some(Commands::Quit) ==> final(paths)@ == old(paths)@
                && *final(sorter) == *old(sorter) && *final(state) == (State {
                mode: Mode::Exit,
                ..*old(state)
            }) && r is Done)
            &&& (input@.len() > 0 && c == Some(Commands::Reverse) ==> final(paths)@
                == reversed_view(old(paths)@) && *final(sorter) == *old(sorter) && *final(state)
                == snorm && r is Done)
            &&& (input@.len() > 0 && c == Some(Commands::NewGlob) && a.len() == 0 ==> final(paths)@
                == old(paths)@ && *final(sorter) == *old(sorter) && same_but_mode(
                *old(state),
                *final(state),
            ) && (final(state).mode matches Mode::Error(m) && m@
                == "Command \"newglob\" or \":ng\" requires a glob"@) && r is Done)
            &&& (input@.len() > 0 && c == Some(Commands::NewGlob) && a.len() > 0 ==> final(paths)@
                == old(paths)@ && *final(sorter) == *old(sorter) && *final(state) == snorm && (
            r matches CommandOutcome::NeedsGlob(p) && p@ == a))
            &&& (input@.len() > 0 && c == Some(Commands::DestFolder) && a.len() == 0 ==> final(paths)@ == old(paths)@ && *final(sorter) == *old(sorter) && same_but_mode(
                *old(state),
                *final(state),
            ) && (final(state).mode matches Mode::Error(m) && m@
                == "Command \":destfolder\" or \":d\" requires a path"@) && r is Done)
            &&& (input@.len() > 0 && c == Some(Commands::DestFolder) && a.len() > 0 ==> {
                &&& *final(sorter) == *old(sorter)
                &&& same_but_mode(*old(state), *final(state))
                &&& r is Done
                &&& (final(state).mode is Success || final(state).mode is Error)
                &&& (final(state).mode is Error ==> final(paths)@ == old(paths)@)
                &&& (final(state).mode matches Mode::Success(m) ==> final(paths)@ == (RegistryView {
                    dest_folder: final(paths)@.dest_folder,
                    ..old(paths)@
                }) && m@ == "destination folder successfully set to "@
                    + final(paths)@.dest_folder)
                &&& (!a.contains('$') && a[0] != '~' ==> (final(state).mode is Success
                    && final(paths)@.dest_folder == spec_remove_escapes(a)))
            })
            &&& (input@.len() > 0 && c == Some(Commands::MaximumImages) && a.len() == 0 ==> final(paths)@ == old(paths)@ && *final(sorter) == *old(sorter) && same_but_mode(
                *old(state),
                *final(state),
            ) && (final(state).mode matches Mode::Error(m) && m@
                == "Command \":max\" or \":m\" requires a new maximum number of files to display"@)
                && r is Done)
            &&& (input@.len() > 0 && c == Some(Commands::MaximumImages) && a.len() > 0 ==> {
                let digits = spec_numeral_digits(a);
                &&& *final(sorter) == *old(sorter)
                &&& r is Done
                &&& (digits.len() > 0 && all_digits(digits) && digits_val(digits) <= usize::MAX
                    ==> final(paths)@ == set_maximum_view(old(paths)@, digits_val(digits))
                        && *final(state) == snorm)
                &&& (!(digits.len() > 0 && all_digits(digits) && digits_val(digits) <= usize::MAX)
                    ==> final(paths)@ == old(paths)@ && same_but_mode(*old(state), *final(state))
                        && (final(state).mode matches Mode::Error(m) && m@
                        == spec_not_positive_msg(a)))
            })
            &&& (input@.len() > 0 && c == Some(Commands::Sort) ==> sort_rel(
                snorm,
                old(paths)@,
                *old(sorter),
                a,
                *final(state),
                final(paths)@,
                *final(sorter),
            ) && r is Done)
        }),
{
    // After a command the interaction always returns to normal mode unless
    // the command itself says otherwise.
    state.mode = Mode::Normal;
    if input.as_str().unicode_len() == 0 {
        return CommandOutcome::Done;
    }
    let (command, arguments) = match parse_user_input(input.as_str()) {
        Ok(p) => p,
        Err(e) => {
            state.mode = Mode::Error(e);
            return CommandOutcome::Done;
        },
    };
    match command {
        Commands::NewGlob => {
            if arguments.as_str().unicode_len() == 0 {
                state.mode = Mode::Error(
                    String::from_str("Command \"newglob\" or \":ng\" requires a glob"),
                );
                CommandOutcome::Done
            } else {
                CommandOutcome::NeedsGlob(arguments)
            }
        },
        Commands::Help => {
            state.render_help = if state.render_help == HelpRender::Command {
                HelpRender::Off
            } else {
                HelpRender::Command
            };
            CommandOutcome::Done
        },
        Commands::Quit => {
            state.mode = Mode::Exit;
            CommandOutcome::Done
        },
        Commands::Reverse => {
            paths.reverse();
            CommandOutcome::Done
        },
        Commands::DestFolder => {
            if arguments.as_str().unicode_len() == 0 {
                state.mode = Mode::Error(
                    String::from_str("Command \":destfolder\" or \":d\" requires a path"),
                );
                return CommandOutcome::Done;
            }
            match expand_full(arguments.as_str()) {
                Ok(path) => {
                    let cleaned = remove_escapes(path.as_str());
                    let mut m = String::from_str("destination folder successfully set to ");
                    m.append(cleaned.as_str());
                    paths.set_dest_folder(cleaned);
                    state.mode = Mode::Success(m);
                },
                Err(e) => {
                    state.mode = Mode::Error(e);
                },
            }
            CommandOutcome::Done
        },
        Commands::MaximumImages => {
            if arguments.as_str().unicode_len() == 0 {
                state.mode = Mode::Error(
                    String::from_str(
                        "Command \":max\" or \":m\" requires a new maximum number of files to display",
                    ),
                );
                return CommandOutcome::Done;
            }
            maximum_viewable(state, paths, arguments.as_str());
            CommandOutcome::Done
        },
        Commands::Sort => {
            run_sort(state, paths, sorter, arguments.as_str());
            CommandOutcome::Done
        },
    }
}

/// The message shown when a new glob matched nothing.
pub open spec fn spec_no_images_msg(shown: Seq<char>) -> Seq<char> {
    "Path \""@ + shown + "\" had no images"@
}

/// The message shown when a new glob succeeded.
pub open spec fn spec_found_msg(n: int, pattern: Seq<char>) -> Seq<char> {
    "found "@ + spec_decimal(n) + " images in "@ + pattern
}

/// Take the images a `newglob` discovered into the registry: nothing
/// happens but an error overlay when the discovery came back empty;
/// otherwise the registry is reloaded, the base directory updated, the
/// images sorted, and the image that was current is made current again
/// where possible, the first image otherwise.
#[verifier::rlimit(60)]
pub fn apply_newglob(
    state: &mut State,
    paths: &mut Paths,
    sorter: &Sorter,
    new_images: Vec<String>,
    shown_path: &str,
    pattern: &str,
    new_base: Option<String>,
)
    requires
        wf_view(old(paths)@),
    ensures
        wf_view(final(paths)@),
        new_images.deep_view().len() == 0 ==> final(paths)@ == old(paths)@ && same_but_mode(
            *old(state),
            *final(state),
        ) && (final(state).mode matches Mode::Error(m) && m@ == spec_no_images_msg(shown_path@)),
        new_images.deep_view().len() > 0 ==> {
            let reloaded = reload_view(old(paths)@, new_images.deep_view());
            &&& final(paths)@.images.to_multiset() == new_images.deep_view().to_multiset()
            &&& final(paths)@.images.len() == new_images.deep_view().len()
            &&& final(paths)@.art_len == reloaded.art_len
            &&& final(paths)@.art_len_orig == old(paths)@.art_len_orig
            &&& final(paths)@.dest_folder == old(paths)@.dest_folder
            &&& final(paths)@.base_dir == (match new_base {
                Some(b) => b@,
                None => old(paths)@.base_dir,
            })
            &&& (!sorter.spec_reverse() ==> ordered_by(sorter.spec_order(), final(paths)@.images))
            &&& (sorter.spec_reverse() ==> ordered_by(
                sorter.spec_order(),
                final(paths)@.images.reverse(),
            ))
            &&& same_but_mode(*old(state), *final(state))
            &&& (final(state).mode matches Mode::Success(m) && m@ == spec_found_msg(
                new_images.deep_view().len() as int,
                pattern@,
            ))
            &&& (old(paths)@.index is None ==> final(paths)@.index == Some(0int))
            &&& (old(paths)@.index matches Some(i) ==> final(paths)@.index == (
            match first_match_from(final(paths)@.images, old(paths)@.images[i], 0) {
                Some(k) => if k <= final(paths)@.art_len - 1 {
                    Some(k)
                } else {
                    Some(0int)
                },
                None => Some(0int),
            }))
            &&& (old(paths)@.index matches Some(i) ==> (final(paths)@.index matches Some(j) && (
            final(paths)@.images[j] == old(paths)@.images[i] || j == 0)))
        },
{
    if new_images.len() == 0 {
        let mut m = String::from_str("Path \"");
        m.append(shown_path);
        m.append("\" had no images");
        state.mode = Mode::Error(m);
        return ;
    }
    let found_count: usize = new_images.len();
    let target: Option<String> = match paths.current_image_path() {
        Some(p) => Some(p.clone()),
        None => None,
    };
    paths.reload_images(new_images);
    match new_base {
        Some(b) => paths.set_base_dir(b),
        None => {},
    }
    let ghost reloaded: RegistryView = paths@;
    let imgs = paths.images_as_mut_slice();
    sorter.sort(imgs);
    proof {
        assert(wf_view(paths@));
    }
    match target {
        Some(t) => {
            restore_anchor(paths, &t);
            proof {
                if first_match_from(paths@.images, t@, 0) is Some {
                    lemma_first_match_some(paths@.images, t@, 0);
                }
            }
        },
        None => {},
    }
    let mut m = String::from_str("found ");
    m.append(usize_to_string(found_count).as_str());
    m.append(" images in ");
    m.append(pattern);
    state.mode = Mode::Success(m);
}

} // verus!
