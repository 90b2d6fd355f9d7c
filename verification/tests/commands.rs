//! The command sub-language: parsing, each verb's effect, each error
//! message, and the anchor-preserving sort and reload.

use riv::command_mode::{
    apply_newglob, execute_command, parse_user_input, run_sort, CommandOutcome, Commands,
};
use riv::paths::{Paths, PathsBuilder};
use riv::sort::{SortOrder, Sorter};
use riv::ui::{HelpRender, Mode, State};

fn registry(paths: Vec<&str>) -> Paths {
    let owned: Vec<String> = paths.into_iter().map(String::from).collect();
    PathsBuilder::new(owned, String::from("./keep"), String::from(".")).build()
}

#[test]
fn parse_splits_verb_and_arguments() {
    let (c, args) = parse_user_input("ng ~/photos deep").unwrap();
    assert!(matches!(c, Commands::NewGlob));
    assert_eq!(args, "~/photos deep");
    let (c, args) = parse_user_input("sort").unwrap();
    assert!(matches!(c, Commands::Sort));
    assert_eq!(args, "");
}

#[test]
fn parse_rejects_unknown_verbs_with_a_help_hint() {
    let err = parse_user_input("bogus arg").unwrap_err();
    assert_eq!(err, "No such command \"bogus\", type :? for command help");
}

#[test]
fn verbs_have_short_and_long_spellings() {
    assert!(Commands::from_str("r").is_ok());
    assert!(Commands::from_str("reverse").is_ok());
    assert!(Commands::from_str("df").is_ok());
    assert!(Commands::from_str("destfolder").is_ok());
    assert!(Commands::from_str("m").is_ok());
    assert!(Commands::from_str("max").is_ok());
    assert!(Commands::from_str("?").is_ok());
    assert!(Commands::from_str("help").is_ok());
    assert!(Commands::from_str("q").is_ok());
    assert!(Commands::from_str("quit").is_ok());
    assert!(Commands::from_str("ng").is_ok());
    assert!(Commands::from_str("newglob").is_ok());
    assert!(Commands::from_str("sort").is_ok());
    assert!(Commands::from_str("Sort").is_err());
}

#[test]
fn empty_input_returns_to_normal_mode_with_no_effect() {
    let mut state = State::default();
    let mut paths = registry(vec!["a.png"]);
    let mut sorter = Sorter::new(SortOrder::DepthFirst, false);
    let out = execute_command(&mut state, &mut paths, &mut sorter, String::new());
    assert!(matches!(out, CommandOutcome::Done));
    assert!(matches!(state.mode, Mode::Normal));
    assert_eq!(paths.images().len(), 1);
}

#[test]
fn quit_verb_enters_exit_mode() {
    let mut state = State::default();
    let mut paths = registry(vec!["a.png"]);
    let mut sorter = Sorter::new(SortOrder::DepthFirst, false);
    execute_command(&mut state, &mut paths, &mut sorter, String::from("q"));
    assert!(matches!(state.mode, Mode::Exit));
}

#[test]
fn help_verb_toggles_the_command_overlay() {
    let mut state = State::default();
    let mut paths = registry(vec!["a.png"]);
    let mut sorter = Sorter::new(SortOrder::DepthFirst, false);
    execute_command(&mut state, &mut paths, &mut sorter, String::from("help"));
    assert_eq!(state.render_help, HelpRender::Command);
    execute_command(&mut state, &mut paths, &mut sorter, String::from("?"));
    assert_eq!(state.render_help, HelpRender::Off);
}

#[test]
fn reverse_verb_reverses_and_keeps_the_current_image() {
    let mut state = State::default();
    let mut paths = registry(vec!["a.png", "b.png", "c.png"]);
    let mut sorter = Sorter::new(SortOrder::DepthFirst, false);
    execute_command(&mut state, &mut paths, &mut sorter, String::from("r"));
    assert_eq!(paths.index(), Some(2));
    assert_eq!(paths.current_image_path(), Some(&String::from("a.png")));
}

#[test]
fn unknown_verb_is_surfaced_as_an_error_overlay() {
    let mut state = State::default();
    let mut paths = registry(vec!["a.png"]);
    let mut sorter = Sorter::new(SortOrder::DepthFirst, false);
    execute_command(&mut state, &mut paths, &mut sorter, String::from("wibble"));
    match &state.mode {
        Mode::Error(m) => assert_eq!(m, "No such command \"wibble\", type :? for command help"),
        other => panic!("expected an error overlay, got {:?}", other),
    }
}

#[test]
fn newglob_without_a_pattern_is_an_error() {
    let mut state = State::default();
    let mut paths = registry(vec!["a.png"]);
    let mut sorter = Sorter::new(SortOrder::DepthFirst, false);
    execute_command(&mut state, &mut paths, &mut sorter, String::from("ng"));
    match &state.mode {
        Mode::Error(m) => assert_eq!(m, "Command \"newglob\" or \":ng\" requires a glob"),
        other => panic!("expected an error overlay, got {:?}", other),
    }
}

#[test]
fn newglob_with_a_pattern_asks_for_discovery() {
    let mut state = State::default();
    let mut paths = registry(vec!["a.png"]);
    let mut sorter = Sorter::new(SortOrder::DepthFirst, false);
    let out = execute_command(&mut state, &mut paths, &mut sorter, String::from("ng ~/pics"));
    match out {
        CommandOutcome::NeedsGlob(p) => assert_eq!(p, "~/pics"),
        CommandOutcome::Done => panic!("expected a discovery request"),
    }
}

#[test]
fn destfolder_without_a_path_is_an_error() {
    let mut state = State::default();
    let mut paths = registry(vec!["a.png"]);
    let mut sorter = Sorter::new(SortOrder::DepthFirst, false);
    execute_command(&mut state, &mut paths, &mut sorter, String::from("df"));
    match &state.mode {
        Mode::Error(m) => assert_eq!(m, "Command \":destfolder\" or \":d\" requires a path"),
        other => panic!("expected an error overlay, got {:?}", other),
    }
}

#[test]
fn destfolder_sets_the_folder_and_reports_success() {
    let mut state = State::default();
    let mut paths = registry(vec!["a.png"]);
    let mut sorter = Sorter::new(SortOrder::DepthFirst, false);
    execute_command(
        &mut state,
        &mut paths,
        &mut sorter,
        String::from("df /tmp/riv\\ keep"),
    );
    match &state.mode {
        Mode::Success(m) => {
            assert_eq!(m, "destination folder successfully set to /tmp/riv keep")
        }
        other => panic!("expected a success overlay, got {:?}", other),
    }
    assert_eq!(paths.dest_folder(), "/tmp/riv keep");
}

#[test]
fn max_without_a_number_is_an_error() {
    let mut state = State::default();
    let mut paths = registry(vec!["a.png"]);
    let mut sorter = Sorter::new(SortOrder::DepthFirst, false);
    execute_command(&mut state, &mut paths, &mut sorter, String::from("m"));
    match &state.mode {
        Mode::Error(m) => assert_eq!(
            m,
            "Command \":max\" or \":m\" requires a new maximum number of files to display"
        ),
        other => panic!("expected an error overlay, got {:?}", other),
    }
}

#[test]
fn max_with_a_word_is_an_error() {
    let mut state = State::default();
    let mut paths = registry(vec!["a.png"]);
    let mut sorter = Sorter::new(SortOrder::DepthFirst, false);
    execute_command(&mut state, &mut paths, &mut sorter, String::from("max ten"));
    match &state.mode {
        Mode::Error(m) => assert_eq!(m, "\"ten\" is not a positive integer"),
        other => panic!("expected an error overlay, got {:?}", other),
    }
}

#[test]
fn max_caps_the_viewable_count_and_zero_clears_it() {
    let mut state = State::default();
    let mut paths = registry(vec!["a.png", "b.png", "c.png"]);
    let mut sorter = Sorter::new(SortOrder::DepthFirst, false);
    execute_command(&mut state, &mut paths, &mut sorter, String::from("m +2"));
    assert_eq!(paths.max_viewable(), Some(2));
    execute_command(&mut state, &mut paths, &mut sorter, String::from("m 0"));
    assert_eq!(paths.max_viewable(), Some(3));
}

#[test]
fn sort_with_a_bad_order_is_an_error() {
    let mut state = State::default();
    let mut paths = registry(vec!["a.png"]);
    let mut sorter = Sorter::new(SortOrder::DepthFirst, false);
    execute_command(&mut state, &mut paths, &mut sorter, String::from("sort Bogus"));
    match &state.mode {
        Mode::Error(m) => assert_eq!(
            m,
            "Invalid value \"Bogus\". valid values: Alphabetical, BreadthFirst, Date, DepthFirst, Size"
        ),
        other => panic!("expected an error overlay, got {:?}", other),
    }
}

#[test]
fn sort_keeps_the_current_image_current() {
    let mut state = State::default();
    let mut paths = registry(vec!["z.png", "m.png", "a.png"]);
    let mut sorter = Sorter::new(SortOrder::DepthFirst, false);
    paths.set_index(1);
    run_sort(&mut state, &mut paths, &mut sorter, "Alphabetical");
    assert_eq!(
        paths.images().as_slice(),
        [
            String::from("a.png"),
            String::from("m.png"),
            String::from("z.png"),
        ]
    );
    assert_eq!(paths.current_image_path(), Some(&String::from("m.png")));
    assert_eq!(paths.index(), Some(1));
}

#[test]
fn sort_falls_back_to_the_first_image_when_the_anchor_leaves_the_viewable_range() {
    let mut state = State::default();
    let owned: Vec<String> = vec![
        String::from("a.png"),
        String::from("z.png"),
        String::from("m.png"),
    ];
    let mut paths = PathsBuilder::new(owned, String::from("./keep"), String::from("."))
        .with_maximum_viewable(2)
        .build();
    let mut sorter = Sorter::new(SortOrder::DepthFirst, false);
    paths.set_index(1);
    run_sort(&mut state, &mut paths, &mut sorter, "Alphabetical");
    // z.png sorted to position 2, past the soft cap of 2 viewable images.
    assert_eq!(
        paths.images().as_slice(),
        [String::from("a.png"), String::from("m.png"), String::from("z.png")]
    );
    assert_eq!(paths.index(), Some(0));
}

#[test]
fn sort_keeps_the_anchor_under_a_soft_cap_when_it_stays_viewable() {
    let mut state = State::default();
    let owned: Vec<String> = vec![
        String::from("z.png"),
        String::from("a.png"),
        String::from("m.png"),
    ];
    let mut paths = PathsBuilder::new(owned, String::from("./keep"), String::from("."))
        .with_maximum_viewable(2)
        .build();
    let mut sorter = Sorter::new(SortOrder::DepthFirst, false);
    paths.set_index(1);
    run_sort(&mut state, &mut paths, &mut sorter, "Alphabetical");
    assert_eq!(paths.current_image_path(), Some(&String::from("a.png")));
    assert_eq!(paths.index(), Some(0));
}

#[test]
fn bare_sort_uses_the_configured_order_and_keeps_the_anchor() {
    let mut state = State::default();
    let mut paths = registry(vec!["top.png", "a/b/deep.png"]);
    let mut sorter = Sorter::new(SortOrder::DepthFirst, false);
    run_sort(&mut state, &mut paths, &mut sorter, "");
    assert_eq!(
        paths.images().as_slice(),
        [String::from("a/b/deep.png"), String::from("top.png")]
    );
    assert_eq!(paths.current_image_path(), Some(&String::from("top.png")));
}

#[test]
fn newglob_results_replace_sort_and_report() {
    let mut state = State::default();
    let mut paths = registry(vec!["old.png"]);
    let sorter = Sorter::new(SortOrder::Alphabetical, false);
    let incoming: Vec<String> = vec![
        String::from("b.png"),
        String::from("old.png"),
        String::from("a.png"),
    ];
    apply_newglob(
        &mut state,
        &mut paths,
        &sorter,
        incoming,
        "/pics/*",
        "~/pics",
        Some(String::from("/pics")),
    );
    match &state.mode {
        Mode::Success(m) => assert_eq!(m, "found 3 images in ~/pics"),
        other => panic!("expected a success overlay, got {:?}", other),
    }
    assert_eq!(paths.base_dir(), "/pics");
    // The image that was current is current again, at its sorted position.
    assert_eq!(paths.current_image_path(), Some(&String::from("old.png")));
    assert_eq!(paths.index(), Some(2));
}

#[test]
fn newglob_with_no_matches_leaves_the_registry_alone() {
    let mut state = State::default();
    let mut paths = registry(vec!["old.png"]);
    let sorter = Sorter::new(SortOrder::Alphabetical, false);
    apply_newglob(
        &mut state,
        &mut paths,
        &sorter,
        Vec::new(),
        "/empty/*",
        "~/empty",
        None,
    );
    match &state.mode {
        Mode::Error(m) => assert_eq!(m, "Path \"/empty/*\" had no images"),
        other => panic!("expected an error overlay, got {:?}", other),
    }
    assert_eq!(paths.images().as_slice(), [String::from("old.png")]);
}
