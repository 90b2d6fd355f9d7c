//! The modal state machine: repeat-count accumulation, the key tables, the
//! command-line editing steps and the dispatcher's mode changes.

use riv::paths::PathsBuilder;
use riv::program::{dispatch_normal, handle_multi_action, CompleteType};
use riv::ui::{
    cap_zoom_times, get_command_step, process_command_mode, process_multi_normal_mode,
    process_normal_mode, Action, HelpRender, InputEvent, Key, Mode, MultiNormalAction, PanAction,
    ProcessAction, RotAngle, State, ZoomAction,
};

fn dummy_paths(n: usize) -> riv::paths::Paths {
    let mut v: Vec<String> = Vec::new();
    let mut i = 0;
    while i < n {
        v.push(String::new());
        i += 1;
    }
    PathsBuilder::new(v, String::from("./keep"), String::from(".")).build()
}

#[test]
fn repeat_count_accumulates_digit_by_digit() {
    let mut state = State::default();
    let mut paths = dummy_paths(5);
    let first = process_normal_mode(&mut state, &InputEvent::Text('1'));
    assert!(matches!(first.action, Action::SwitchMultiNormalMode));
    assert_eq!(state.register.cur_action.times, 1);
    let more = process_multi_normal_mode(&mut state, &InputEvent::Text('2'));
    assert!(matches!(more, MultiNormalAction::MoreInput));
    assert_eq!(state.register.cur_action.times, 12);
    let more = process_multi_normal_mode(&mut state, &InputEvent::Text('3'));
    assert!(matches!(more, MultiNormalAction::MoreInput));
    assert_eq!(state.register.cur_action.times, 123);
    // A backspace strips the last digit again.
    let back = process_multi_normal_mode(&mut state, &InputEvent::KeyDown(Key::Backspace, false));
    let outcome = handle_multi_action(&mut state, &mut paths, back);
    assert!(!outcome.complete);
    assert_eq!(state.register.cur_action.times, 12);
}

#[test]
fn backspacing_the_whole_count_cancels_the_mode() {
    let mut state = State::default();
    let mut paths = dummy_paths(5);
    state.mode = Mode::MultiNormal;
    state.register.cur_action.times = 7;
    let back = process_multi_normal_mode(&mut state, &InputEvent::KeyDown(Key::Backspace, false));
    let outcome = handle_multi_action(&mut state, &mut paths, back);
    assert!(outcome.complete);
    assert!(matches!(state.mode, Mode::Normal));
    assert_eq!(state.register.cur_action.times, 0);
}

#[test]
fn repeat_count_saturates_instead_of_overflowing() {
    let mut state = State::default();
    state.register.cur_action.times = usize::MAX / 2;
    let more = process_multi_normal_mode(&mut state, &InputEvent::Text('9'));
    assert!(matches!(more, MultiNormalAction::MoreInput));
    assert_eq!(state.register.cur_action.times, usize::MAX);
}

#[test]
fn normal_mode_key_table() {
    let mut state = State::default();
    let cases: Vec<(char, Action)> = vec![
        ('c', Action::Copy),
        ('d', Action::Trash),
        ('D', Action::Delete),
        ('g', Action::First),
        ('G', Action::Last),
        ('j', Action::Next),
        ('k', Action::Prev),
        ('i', Action::Zoom(ZoomAction::In)),
        ('o', Action::Zoom(ZoomAction::Out)),
        ('H', Action::Pan(PanAction::Left)),
        ('m', Action::Move),
        ('w', Action::SkipForward),
        ('b', Action::SkipBack),
        ('z', Action::ToggleFit),
        ('Z', Action::CenterImage),
        (':', Action::SwitchCommandMode),
        ('q', Action::Quit),
        ('x', Action::Noop),
    ];
    for (c, expected) in cases {
        let got = process_normal_mode(&mut state, &InputEvent::Text(c));
        assert_eq!(got.action, expected);
        assert_eq!(got.times, 1);
    }
}

#[test]
fn period_replays_the_recorded_action() {
    let mut state = State::default();
    let pa = process_normal_mode(&mut state, &InputEvent::Text('j'));
    state.process_action(pa);
    assert_eq!(state.last_action.action, Action::Next);
    let replay = process_normal_mode(&mut state, &InputEvent::KeyDown(Key::Period, false));
    assert_eq!(replay.action, Action::Next);
}

#[test]
fn quit_and_mode_switch_actions_are_not_recorded() {
    let mut state = State::default();
    state.process_action(ProcessAction::new(Action::Next, 3));
    state.process_action(ProcessAction::new(Action::Quit, 1));
    state.process_action(ProcessAction::new(Action::ReRender, 1));
    state.process_action(ProcessAction::new(Action::SwitchMultiNormalMode, 1));
    state.process_action(ProcessAction::new(Action::Noop, 1));
    assert_eq!(state.last_action, ProcessAction::new(Action::Next, 3));
}

#[test]
fn multi_mode_replays_at_the_count_entered_now() {
    let mut state = State::default();
    state.last_action = ProcessAction::new(Action::Next, 7);
    state.register.cur_action.times = 4;
    let got = process_multi_normal_mode(&mut state, &InputEvent::KeyDown(Key::Period, false));
    match got {
        MultiNormalAction::Repeat(pa) => {
            assert_eq!(pa.action, Action::Next);
            assert_eq!(pa.times, 4);
        }
        _ => panic!("expected a repeat"),
    }
}

#[test]
fn escape_cancels_the_repeat_count() {
    let mut state = State::default();
    let mut paths = dummy_paths(3);
    state.mode = Mode::MultiNormal;
    let got = process_multi_normal_mode(&mut state, &InputEvent::KeyDown(Key::Escape, false));
    assert!(matches!(got, MultiNormalAction::Cancel));
    let outcome = handle_multi_action(&mut state, &mut paths, got);
    assert!(outcome.complete);
    assert!(matches!(state.mode, Mode::Normal));
}

#[test]
fn multi_mode_jump_lands_on_the_entered_image_number() {
    let mut state = State::default();
    let mut paths = dummy_paths(50);
    state.register.cur_action.times = 7;
    let got = process_multi_normal_mode(&mut state, &InputEvent::Text('G'));
    let outcome = handle_multi_action(&mut state, &mut paths, got);
    assert!(outcome.complete);
    assert_eq!(paths.index(), Some(6));
}

#[test]
fn command_mode_editing_steps() {
    let mut line = String::new();
    assert!(!get_command_step(&mut line, &Action::KeyboardInput(':')));
    assert_eq!(line, "");
    for c in "sort".chars() {
        assert!(!get_command_step(&mut line, &Action::KeyboardInput(c)));
    }
    assert_eq!(line, "sort");
    assert!(!get_command_step(&mut line, &Action::Backspace));
    assert_eq!(line, "sor");
    assert!(get_command_step(&mut line, &Action::SwitchNormalMode));
    assert_eq!(line, "sor");
}

#[test]
fn command_mode_backspace_on_empty_line_finishes() {
    let mut line = String::new();
    assert!(get_command_step(&mut line, &Action::Backspace));
    assert_eq!(line, "");
}

#[test]
fn command_mode_event_table() {
    assert_eq!(process_command_mode(&InputEvent::Text('a')), Action::KeyboardInput('a'));
    assert_eq!(
        process_command_mode(&InputEvent::KeyDown(Key::Backspace, false)),
        Action::Backspace
    );
    assert_eq!(
        process_command_mode(&InputEvent::KeyDown(Key::Return, false)),
        Action::SwitchNormalMode
    );
    assert_eq!(
        process_command_mode(&InputEvent::KeyDown(Key::Escape, false)),
        Action::SwitchNormalMode
    );
    assert_eq!(process_command_mode(&InputEvent::WindowChanged), Action::ReRender);
}

#[test]
fn dispatch_moves_the_cursor_and_caps_at_the_end() {
    let mut state = State::default();
    let mut paths = dummy_paths(10);
    let out = dispatch_normal(&mut state, &mut paths, ProcessAction::new(Action::Next, 3));
    assert!(matches!(out.next, CompleteType::Complete));
    assert!(out.render);
    assert_eq!(paths.index(), Some(3));
    dispatch_normal(&mut state, &mut paths, ProcessAction::new(Action::Next, 99));
    assert_eq!(paths.index(), Some(9));
    dispatch_normal(&mut state, &mut paths, ProcessAction::new(Action::Prev, 2));
    assert_eq!(paths.index(), Some(7));
    dispatch_normal(&mut state, &mut paths, ProcessAction::new(Action::First, 1));
    assert_eq!(paths.index(), Some(0));
    dispatch_normal(&mut state, &mut paths, ProcessAction::new(Action::Last, 1));
    assert_eq!(paths.index(), Some(9));
}

#[test]
fn dispatch_skip_moves_a_tenth_with_a_floor_of_one() {
    let mut state = State::default();
    let mut paths = dummy_paths(50);
    dispatch_normal(&mut state, &mut paths, ProcessAction::new(Action::SkipForward, 1));
    assert_eq!(paths.index(), Some(5));
    dispatch_normal(&mut state, &mut paths, ProcessAction::new(Action::SkipBack, 1));
    assert_eq!(paths.index(), Some(0));
}

#[test]
fn dispatch_quit_enters_exit_mode() {
    let mut state = State::default();
    let mut paths = dummy_paths(1);
    let out = dispatch_normal(&mut state, &mut paths, ProcessAction::new(Action::Quit, 1));
    assert!(matches!(out.next, CompleteType::Break));
    assert!(matches!(state.mode, Mode::Exit));
}

#[test]
fn dispatch_hands_visual_actions_back() {
    let mut state = State::default();
    let mut paths = dummy_paths(1);
    let pa = ProcessAction::new(Action::Zoom(ZoomAction::In), 2);
    let out = dispatch_normal(&mut state, &mut paths, pa);
    assert_eq!(out.visual, Some(pa));
    let out = dispatch_normal(&mut state, &mut paths, ProcessAction::new(Action::Next, 1));
    assert_eq!(out.visual, None);
}

#[test]
fn dispatch_toggles_flips_and_rotation() {
    let mut state = State::default();
    let mut paths = dummy_paths(1);
    dispatch_normal(&mut state, &mut paths, ProcessAction::new(Action::FlipHorizontal, 1));
    assert!(state.flip_horizontal);
    dispatch_normal(&mut state, &mut paths, ProcessAction::new(Action::FlipVertical, 1));
    assert!(state.flip_vertical);
    dispatch_normal(
        &mut state,
        &mut paths,
        ProcessAction::new(
            Action::Rotate(riv::ui::RotationDirection::Clockwise),
            1,
        ),
    );
    assert_eq!(state.rot_angle, RotAngle::Right);
}

#[test]
fn rotation_cycles_through_quarter_turns() {
    assert_eq!(RotAngle::Up.rot_clockwise(), RotAngle::Right);
    assert_eq!(RotAngle::Right.rot_clockwise(), RotAngle::Down);
    assert_eq!(RotAngle::Down.rot_clockwise(), RotAngle::Left);
    assert_eq!(RotAngle::Left.rot_clockwise(), RotAngle::Up);
    assert_eq!(RotAngle::Up.rot_clockclockwise(), RotAngle::Left);
    assert_eq!(RotAngle::Left.rot_clockclockwise(), RotAngle::Down);
}

#[test]
fn help_toggle_from_either_mode() {
    let mut state = State::default();
    assert_eq!(state.render_help, HelpRender::Off);
    process_normal_mode(&mut state, &InputEvent::Text('?'));
    assert_eq!(state.render_help, HelpRender::Normal);
    process_normal_mode(&mut state, &InputEvent::Text('?'));
    assert_eq!(state.render_help, HelpRender::Off);
}

#[test]
fn zoom_times_cap() {
    assert_eq!(cap_zoom_times(0), 1);
    assert_eq!(cap_zoom_times(5), 5);
    assert_eq!(cap_zoom_times(usize::MAX), 1);
}

#[test]
fn shifted_arrows_pan_and_plain_arrows_navigate() {
    let mut state = State::default();
    let pan = process_normal_mode(&mut state, &InputEvent::KeyDown(Key::Left, true));
    assert_eq!(pan.action, Action::Pan(PanAction::Left));
    let nav = process_normal_mode(&mut state, &InputEvent::KeyDown(Key::Left, false));
    assert_eq!(nav.action, Action::Prev);
    let zoom = process_normal_mode(&mut state, &InputEvent::KeyDown(Key::Up, false));
    assert_eq!(zoom.action, Action::Zoom(ZoomAction::In));
}
