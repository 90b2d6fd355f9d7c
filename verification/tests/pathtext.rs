//! Path-string handling, decimal text, the info bar, the image filter and
//! the batch file operations.

use riv::cli::push_image_path;
use riv::infobar::Text;
use riv::paths::PathsBuilder;
use riv::pathstr::{calculate_depth, file_name_of, file_stem_of, normalize_path,
    path_final_component, sort_stem_of, trim_hidden};
use riv::program::{
    compute_skip_size, construct_dest_filepath, copy_images, delete_images, help_text,
    move_images, trash_images,
};
use riv::text::{parse_usize, str_eq, usize_to_string};
use riv::ui::{Mode, State};
use riv::{new_base_dir, resolve_path};

fn registry(paths: Vec<&str>) -> riv::paths::Paths {
    let owned: Vec<String> = paths.into_iter().map(String::from).collect();
    PathsBuilder::new(owned, String::from("/tmp/riv_test_keep"), String::from(".")).build()
}

#[test]
fn file_name_and_stem_follow_the_separator_and_dot_rules() {
    assert_eq!(file_name_of("a/b/c.png"), "c.png");
    assert_eq!(file_name_of("c.png"), "c.png");
    assert_eq!(file_name_of("a/b/"), "");
    assert_eq!(file_stem_of("c.png"), "c");
    assert_eq!(file_stem_of("archive.tar.gz"), "archive.tar");
    assert_eq!(file_stem_of(".gitignore"), ".gitignore");
    assert_eq!(file_stem_of(".b.png"), ".b");
    assert_eq!(trim_hidden(".b"), "b");
    assert_eq!(trim_hidden("b"), "b");
    assert_eq!(sort_stem_of("pics/.b.png"), "b");
}

#[test]
fn the_final_component_ignores_trailing_separators_and_dots() {
    assert_eq!(path_final_component("a/b/c.png"), "c.png");
    assert_eq!(path_final_component("a/b/"), "b");
    assert_eq!(path_final_component("/../"), "..");
    assert_eq!(path_final_component("a/../."), "..");
    assert_eq!(path_final_component("."), "");
    assert_eq!(path_final_component("a/..b"), "..b");
}

#[test]
fn depth_counts_nonempty_components() {
    assert_eq!(calculate_depth("a/b/c.png"), 3);
    assert_eq!(calculate_depth("/a/b.png"), 2);
    assert_eq!(calculate_depth("top.png"), 1);
    assert_eq!(calculate_depth(""), 0);
}

#[test]
fn normalisation_resolves_dots() {
    assert_eq!(normalize_path("/a/./b/../c"), "/a/c");
    assert_eq!(normalize_path("a/b/./c"), "a/b/c");
    assert_eq!(normalize_path("a/../b"), "b");
}

#[test]
fn resolving_joins_relative_paths_and_unescapes() {
    assert_eq!(resolve_path("/base", "sub/pics"), "/base/sub/pics");
    assert_eq!(resolve_path("/base", "/abs/pics"), "/abs/pics");
    assert_eq!(resolve_path("/base", "my\\ pics"), "/base/my pics");
    assert_eq!(resolve_path("/base", "../up"), "/up");
}

#[test]
fn the_base_dir_is_the_closest_ancestor_directory() {
    assert_eq!(
        new_base_dir("/definitely/not/there/x.png"),
        Ok(String::from("/"))
    );
    assert_eq!(
        new_base_dir("relative/nowhere/x.png"),
        Err(String::from(
            "Failed to get new base directory for path: \"relative/nowhere/x.png\""
        ))
    );
}

#[test]
fn decimal_text_round_trips() {
    assert_eq!(usize_to_string(0), "0");
    assert_eq!(usize_to_string(123), "123");
    assert_eq!(parse_usize("123"), Some(123));
    assert_eq!(parse_usize("0"), Some(0));
    assert_eq!(parse_usize("+42"), Some(42));
    assert_eq!(parse_usize("+"), None);
    assert_eq!(parse_usize("++1"), None);
    assert_eq!(parse_usize(""), None);
    assert_eq!(parse_usize("12a"), None);
    assert_eq!(parse_usize("99999999999999999999999999"), None);
    assert!(str_eq("abc", "abc"));
    assert!(!str_eq("abc", "abd"));
}

#[test]
fn skip_size_is_a_tenth_with_a_floor_of_one() {
    assert_eq!(compute_skip_size(0), 1);
    assert_eq!(compute_skip_size(5), 1);
    assert_eq!(compute_skip_size(95), 9);
    assert_eq!(compute_skip_size(100), 10);
}

#[test]
fn the_help_table_has_all_its_rows() {
    assert_eq!(help_text().len(), 19);
}

#[test]
fn the_image_filter_keeps_known_extensions_case_insensitively() {
    let mut v: Vec<String> = Vec::new();
    push_image_path(&mut v, String::from("a.JPG"));
    push_image_path(&mut v, String::from("b.txt"));
    push_image_path(&mut v, String::from("c.jpeg"));
    push_image_path(&mut v, String::from("noext"));
    push_image_path(&mut v, String::from("d.WebP"));
    assert_eq!(
        v,
        vec![
            String::from("a.JPG"),
            String::from("c.jpeg"),
            String::from("d.WebP"),
        ]
    );
}

#[test]
fn the_infobar_shows_the_image_number_and_path() {
    let paths = registry(vec!["pics/a.png", "pics/b.png"]);
    let state = State::default();
    let text = Text::update(&Mode::Normal, &paths, &state);
    assert_eq!(text.mode, "1 of 2");
    assert_eq!(text.information, "pics/a.png");
    let text = Text::update(&Mode::Error(String::from("boom")), &paths, &state);
    assert_eq!(text.mode, "Error");
    assert_eq!(text.information, "boom");
    let text = Text::update(&Mode::Command(String::from("ng x")), &paths, &state);
    assert_eq!(text.mode, "Command");
    assert_eq!(text.information, ":ng x");
}

#[test]
fn the_infobar_reports_an_empty_registry() {
    let paths = registry(vec![]);
    let state = State::default();
    let text = Text::update(&Mode::Normal, &paths, &state);
    assert_eq!(text.mode, "No files in path");
    assert_eq!(text.information, "No file selected");
}

#[test]
fn dest_filepaths_join_the_file_name_under_the_folder() {
    assert_eq!(
        construct_dest_filepath("/tmp/riv_test_keep", "pics/a.png"),
        Ok(String::from("/tmp/riv_test_keep/a.png"))
    );
    assert!(construct_dest_filepath("/tmp/riv_test_keep", "pics/").is_err());
}

#[test]
fn batch_operations_refuse_an_empty_registry() {
    let mut paths = registry(vec![]);
    assert_eq!(copy_images(&paths, 2), Err(String::from("no images to copy")));
    assert_eq!(move_images(&mut paths, 2), Err(String::from("no images to move")));
    assert_eq!(trash_images(&mut paths, 2), Err(String::from("no images to trash")));
    assert_eq!(delete_images(&mut paths, 2), Err(String::from("no images to delete")));
}

#[test]
fn batch_operations_do_nothing_for_a_zero_amount() {
    let mut paths = registry(vec!["a.png"]);
    assert_eq!(copy_images(&paths, 0), Ok(String::from("0 images asked to copy")));
    assert_eq!(move_images(&mut paths, 0), Ok(String::from("0 images asked to move")));
    assert_eq!(delete_images(&mut paths, 0), Ok(String::from("0 images asked to delete")));
    assert_eq!(paths.images().len(), 1);
}

#[test]
fn deleting_missing_files_counts_as_success_and_shrinks_the_registry() {
    // Removing a file that is already gone succeeds, so the registry drops
    // the entries.
    let mut paths = registry(vec![
        "/nowhere/a.png",
        "/nowhere/b.png",
        "/nowhere/c.png",
    ]);
    let msg = delete_images(&mut paths, 2).unwrap();
    assert_eq!(msg, "Deleted 2 image(s)");
    assert_eq!(paths.images().len(), 1);
    assert_eq!(paths.max_viewable(), Some(1));
}

#[test]
fn copying_missing_files_reports_the_failures() {
    let paths = registry(vec!["/nowhere/a.png", "/nowhere/b.png"]);
    let err = copy_images(&paths, 2).unwrap_err();
    assert_eq!(err, "Failed to copy 2 of 2 images");
}

#[test]
fn trashing_missing_files_reports_the_failures_and_keeps_the_registry() {
    let mut paths = registry(vec!["/nowhere/a.png", "/nowhere/b.png"]);
    let err = trash_images(&mut paths, 2).unwrap_err();
    assert_eq!(err, "Failed to trash 2 of 2 images");
    assert_eq!(paths.images().len(), 2);
}

#[test]
fn trashing_a_path_that_walks_upward_is_a_failure_not_a_crash() {
    // The trash crate cannot take a path whose last component is `..`; the
    // batch counts it as a failed item instead of calling it.
    let mut paths = registry(vec!["/.."]);
    let err = trash_images(&mut paths, 1).unwrap_err();
    assert_eq!(err, "Failed to trash 1 of 1 images");
    assert_eq!(paths.images().len(), 1);
}

#[test]
fn trashing_a_path_with_a_trailing_separator_after_dots_is_also_a_failure() {
    let mut paths = registry(vec!["/../"]);
    let err = trash_images(&mut paths, 1).unwrap_err();
    assert_eq!(err, "Failed to trash 1 of 1 images");
    assert_eq!(paths.images().len(), 1);
}

#[test]
fn deleting_removes_the_run_starting_at_the_cursor() {
    let mut paths = registry(vec![
        "/nowhere/a.png",
        "/nowhere/b.png",
        "/nowhere/c.png",
        "/nowhere/d.png",
    ]);
    paths.set_index(1);
    let msg = delete_images(&mut paths, 2).unwrap();
    assert_eq!(msg, "Deleted 2 image(s)");
    assert_eq!(
        paths.images().as_slice(),
        [String::from("/nowhere/a.png"), String::from("/nowhere/d.png")]
    );
    assert_eq!(paths.index(), Some(1));
}

#[test]
fn deleting_through_the_end_steps_the_cursor_back() {
    let mut paths = registry(vec!["/nowhere/a.png", "/nowhere/b.png", "/nowhere/c.png"]);
    paths.set_index(1);
    let msg = delete_images(&mut paths, 9).unwrap();
    assert_eq!(msg, "Deleted 2 image(s)");
    assert_eq!(paths.images().as_slice(), [String::from("/nowhere/a.png")]);
    assert_eq!(paths.index(), Some(0));
}

#[test]
fn plain_glob_arguments_always_resolve() {
    assert_eq!(
        riv::path_to_glob("/base", "sub/pics/x.png"),
        Ok(String::from("/base/sub/pics/x.png"))
    );
}

#[test]
fn moving_missing_files_reports_the_failures_and_keeps_the_registry() {
    let mut paths = registry(vec!["/nowhere/a.png", "/nowhere/b.png"]);
    let err = move_images(&mut paths, 2).unwrap_err();
    assert_eq!(err, "Failed to move 2 of 2 images");
    assert_eq!(paths.images().len(), 2);
}
