//! The registry's index bookkeeping across builds, navigation, removal,
//! reloads and cap changes.

use riv::paths::{Paths, PathsBuilder};

fn dummy_vec(n: usize) -> Vec<String> {
    let mut v = Vec::new();
    let mut i = 0;
    while i < n {
        v.push(String::new());
        i += 1;
    }
    v
}

fn dummy_paths_builder(n: usize) -> PathsBuilder {
    PathsBuilder::new(dummy_vec(n), String::from("./keep"), String::from("."))
}

fn dummy_paths(n: usize) -> Paths {
    dummy_paths_builder(n).build()
}

#[test]
fn test_no_artificial_cap_reload_with_no_existing_and_new_images() {
    let mut images = dummy_paths(0);
    images.reload_images(dummy_vec(0));
    assert_eq!(images.index(), None);
    assert_eq!(images.current_image(), None);
    assert_eq!(images.max_viewable(), None);
}

#[test]
fn test_no_artificial_cap_reload_with_no_existing_and_some_new_images() {
    let mut images = dummy_paths(0);
    images.reload_images(dummy_vec(100));
    assert_eq!(images.max_viewable_index(), Some(99));
    assert_eq!(images.index(), Some(0));
    assert_eq!(images.max_viewable(), Some(100));
}

#[test]
fn test_removing_all_images_with_art_len_and_spare_has_no_index_or_max_viewable() {
    let mut images = dummy_paths_builder(10).with_maximum_viewable(2).build();
    images.increment(3);
    images.remove_current_image();
    images.remove_current_image();
    assert_eq!(images.current_image(), None);
    assert_eq!(images.max_viewable(), None);
}

#[test]
fn test_current_image_number_when_remove_last_image_with_one_left_with_artificial_len() {
    let mut images = dummy_paths_builder(10).with_maximum_viewable(2).build();
    images.increment(3);
    images.remove_current_image();
    assert_eq!(images.current_image(), Some(1));
}

#[test]
fn test_get_indexes() {
    let images = dummy_paths(10);
    let slice = images.get(5);
    let multi_slice = images.get_range(1, 5);
    assert_eq!(slice, Some(&String::new()));
    assert_eq!(multi_slice.unwrap().len(), 5);
}

#[test]
fn test_decrement_gives_correct_index() {
    let mut images = dummy_paths(10);
    images.decrement(99);
    assert_eq!(images.index(), Some(0));
}

#[test]
fn test_remove_current_image_last_image_no_panic() {
    let mut images = dummy_paths(50);
    images.increment(60);
    images.remove_current_image();
    assert_eq!(images.index(), Some(48));
}

#[test]
fn test_remove_current_image_middle_same_index() {
    let mut images = dummy_paths(50);
    images.increment(20);
    assert_eq!(images.index(), Some(20));
    images.remove_current_image();
    assert_eq!(images.index(), Some(20));
}

#[test]
fn test_index_gives_correct_index() {
    let mut images = dummy_paths(99);
    images.increment(33);
    images.decrement(88);
    images.increment(2);
    assert_eq!(images.index(), Some(2));
}

#[test]
fn test_max_index_gives_valid_current_image() {
    let max_images = 84;
    let mut images = dummy_paths(max_images);
    images.increment(max_images);
    let current_image_number = images.current_image();
    assert_eq!(current_image_number, Some(max_images));
}

#[test]
fn test_max_viewable_index_gives_correct_index() {
    let max_images = 10;
    let mut images = dummy_paths(max_images);
    images.increment(max_images);
    let current_image_index = images.max_viewable_index();
    assert_eq!(current_image_index, Some(max_images - 1));
}

#[test]
fn test_max_viewable_with_lower_artificial_len_gives_lower_len() {
    let max_images = 50;
    let mut images = dummy_paths(max_images);
    images.increment(max_images);
    let current_image_number = images.max_viewable();
    assert_eq!(current_image_number, Some(max_images));
}

#[test]
fn test_setting_new_actual_maximum_and_maximum_also_updates_index() {
    let mut images = dummy_paths_builder(50).with_maximum_viewable(50).build();
    images.increment(50);
    images.set_actual_maximum(20);
    assert_eq!(images.index(), Some(19));
}

#[test]
fn test_setting_zero_actual_maximum_removes_sets_art_len_to_all_images_no_index_disturb() {
    let mut images = dummy_paths_builder(100).with_maximum_viewable(20).build();
    images.increment(50);
    assert_eq!(images.index(), Some(19));
    images.set_actual_maximum(0);
    images.increment(50);
    assert_eq!(images.index(), Some(69));
    // Still capped at last image
    images.increment(999);
    assert_eq!(images.index(), Some(99));
}

#[test]
fn test_artificial_len_maximum_view() {
    let mut images = dummy_paths_builder(50).with_maximum_viewable(10).build();
    images.increment(20);
    assert_eq!(images.index(), images.max_viewable_index());
}

#[test]
fn test_artificial_maximum_limits_current_glob_on_image_delete() {
    let mut images = dummy_paths_builder(50).with_maximum_viewable(2).build();
    images.increment(99);
    images.remove_current_image();
    assert_eq!(images.max_viewable_index(), Some(0));
}

#[test]
fn test_artificial_len_after_delete_at_end() {
    let mut images = dummy_paths(50);
    images.increment(99);
    images.remove_current_image();
    assert_eq!(images.max_viewable_index(), Some(48));
}

#[test]
fn test_increment_image() {
    let mut images = dummy_paths(50);
    images.increment(1);
    assert_eq!(images.index(), Some(1));
    assert_eq!(images.max_viewable(), Some(50));
    assert_eq!(images.current_image(), Some(2));
}

#[test]
fn test_replacing_images_resets_index() {
    let mut images = dummy_paths(50);
    images.increment(30);
    images.reload_images(dummy_vec(10));
    assert_eq!(images.index(), Some(0));
    assert_eq!(images.max_viewable_index(), Some(9));
}

#[test]
fn test_removing_and_replacing_images_updates_artificial_len_to_higher_user_set() {
    let mut images = dummy_paths_builder(50).with_maximum_viewable(1).build();
    images.remove_current_image();
    images.set_actual_maximum(10);
    images.reload_images(dummy_vec(10));
    assert_eq!(images.max_viewable(), Some(10));
}

#[test]
fn test_reverse_twice_restores_order_and_index() {
    let paths: Vec<String> = vec![
        String::from("a.png"),
        String::from("b.png"),
        String::from("c.png"),
        String::from("d.png"),
    ];
    let mut images = PathsBuilder::new(paths.clone(), String::from("./keep"), String::from("."))
        .build();
    images.increment(2);
    images.reverse();
    assert_eq!(images.index(), Some(1));
    assert_eq!(images.current_image_path(), Some(&String::from("c.png")));
    images.reverse();
    assert_eq!(images.index(), Some(2));
    assert_eq!(images.images().as_slice(), paths.as_slice());
}

#[test]
fn test_reverse_keeps_current_image_without_cap() {
    let paths: Vec<String> = vec![String::from("x.png"), String::from("y.png")];
    let mut images = PathsBuilder::new(paths, String::from("./keep"), String::from(".")).build();
    images.reverse();
    assert_eq!(images.current_image_path(), Some(&String::from("x.png")));
}
