//! The modal input state machine: how raw input events become actions, how
//! the repeat-count prefix is accumulated digit by digit, and how the last
//! action is recorded for the repeat operator.

use crate::text::push_char;
use vstd::prelude::*;

verus! {

/// Direction to rotate the image.
#[derive(Clone, Copy, Debug, PartialEq, Eq, Structural)]
pub enum RotationDirection {
    Clockwise,
    CounterClockwise,
}

/// Zooming in or out.
#[derive(Clone, Copy, Debug, PartialEq, Eq, Structural)]
pub enum ZoomAction {
    In,
    Out,
}

/// Panning direction.
#[derive(Clone, Copy, Debug, PartialEq, Eq, Structural)]
pub enum PanAction {
    Left,
    Right,
    Up,
    Down,
}

/// The actions an event can ask for.
#[derive(Clone, Copy, Debug, PartialEq, Eq, Structural)]
pub enum Action {
    /// Stop the application.
    Quit,
    /// Toggle the fullscreen state.
    ToggleFullscreen,
    /// Redraw, for instance after a window resize.
    ReRender,
    /// Enter command mode.
    SwitchCommandMode,
    /// Remove the last character of the command line.
    Backspace,
    /// A character the user typed.
    KeyboardInput(char),
    /// Return to normal mode.
    SwitchNormalMode,
    /// Enter the repeat-count mode.
    SwitchMultiNormalMode,
    /// Toggle between fit-to-window and actual size.
    ToggleFit,
    /// Centre the image.
    CenterImage,
    /// Flip the image horizontally.
    FlipHorizontal,
    /// Flip the image vertically.
    FlipVertical,
    /// Move to the next image.
    Next,
    /// Move to the previous image.
    Prev,
    /// Move to the first image.
    First,
    /// Move to the last viewable image.
    Last,
    /// Jump forward by a tenth of the image count.
    SkipForward,
    /// Jump back by a tenth of the image count.
    SkipBack,
    /// Zoom in or out.
    Zoom(ZoomAction),
    /// Rotate the image.
    Rotate(RotationDirection),
    /// Pan the image.
    Pan(PanAction),
    /// Copy the current images to the destination folder.
    Copy,
    /// Move the current images to the destination folder.
    Move,
    /// Delete the current images.
    Delete,
    /// Move the current images to the system trash.
    Trash,
    /// Do nothing.
    Noop,
}

/// An action together with how many times to perform it.
#[derive(Clone, Copy, Debug, PartialEq, Eq, Structural)]
pub struct ProcessAction {
    /// The action to perform.
    pub action: Action,
    /// How many times to perform it.
    pub times: usize,
}

impl ProcessAction {
    /// Pair an action with a repeat count.
    pub fn new(action: Action, times: usize) -> (r: Self)
        ensures
            r == (ProcessAction { action, times }),
    {
        Self { action, times }
    }
}

impl Default for ProcessAction {
    /// Do nothing, once.
    fn default() -> (r: Self)
        ensures
            r == (ProcessAction { action: Action::Noop, times: 1 }),
    {
        Self { action: Action::Noop, times: 1 }
    }
}

/// What a repeat-count-mode event asks for.
#[derive(Clone, Copy, Debug)]
pub enum MultiNormalAction {
    /// Redraw the screen.
    ReRender,
    /// Keep listening: the repeat count is still being typed.
    MoreInput,
    /// Done: perform this action the accumulated number of times.
    Repeat(ProcessAction),
    /// Return to normal mode.
    SwitchBackNormalMode,
    /// Discard the accumulated count and return to normal mode.
    Cancel,
    /// Stop the application.
    Quit,
    /// Do not respond to the event.
    Noop,
}

/// The interaction modes; which one is current decides how events are read.
#[derive(Clone, Debug)]
pub enum Mode {
    /// Single-key actions execute immediately.
    Normal,
    /// A repeat count is being accumulated.
    MultiNormal,
    /// A command line is being typed; the payload is the line so far.
    Command(String),
    /// A transient error overlay.
    Error(String),
    /// A transient success overlay.
    Success(String),
    /// The run loop observes this mode and stops.
    Exit,
}

/// Which help overlay to draw.
#[derive(Clone, Copy, Debug, PartialEq, Eq, Structural)]
pub enum HelpRender {
    /// No help overlay.
    Off,
    /// The normal-mode key table.
    Normal,
    /// The command-mode verb table.
    Command,
}

/// Keys the state machine reacts to; everything else is `Other`.
#[derive(Clone, Copy, Debug, PartialEq, Eq, Structural)]
pub enum Key {
    Left,
    Right,
    Up,
    Down,
    Delete,
    Escape,
    PageUp,
    PageDown,
    Home,
    End,
    Period,
    Backspace,
    Return,
    F11,
    Other,
}

/// A raw input event, reduced to the values the state machine reads: the
/// event source hands these over one at a time.
#[derive(Clone, Copy, Debug)]
pub enum InputEvent {
    /// The platform asked the application to quit.
    Quit,
    /// A typed character.
    Text(char),
    /// A key went down; the flag says whether shift was held.
    KeyDown(Key, bool),
    /// The window was exposed, resized or maximised and needs a redraw.
    WindowChanged,
    /// The left mouse button was released.
    MouseLeftUp,
    /// Any event the machine does not react to.
    Other,
}

/// Storage for the action being accumulated across events.
#[derive(Clone, Copy, Debug, PartialEq, Eq, Structural)]
pub struct Register {
    /// The action, and so far accumulated count, to perform later.
    pub cur_action: ProcessAction,
}

impl Default for Register {
    /// Do nothing, once.
    fn default() -> (r: Self)
        ensures
            r == (Register { cur_action: ProcessAction { action: Action::Noop, times: 1 } }),
    {
        Self { cur_action: ProcessAction { action: Action::Noop, times: 1 } }
    }
}

/// Rotation angle of the image, in quarter turns.
#[derive(Clone, Copy, Debug, PartialEq, Eq, Structural)]
pub enum RotAngle {
    /// No rotation.
    Up,
    /// A quarter turn clockwise.
    Right,
    /// A half turn.
    Down,
    /// A quarter turn counterclockwise.
    Left,
}

impl RotAngle {
    /// The angle after one clockwise quarter turn.
    pub fn rot_clockwise(&self) -> (r: RotAngle)
        ensures
            r == match *self {
                RotAngle::Up => RotAngle::Right,
                RotAngle::Right => RotAngle::Down,
                RotAngle::Down => RotAngle::Left,
                RotAngle::Left => RotAngle::Up,
            },
    {
        match self {
            RotAngle::Up => RotAngle::Right,
            RotAngle::Right => RotAngle::Down,
            RotAngle::Down => RotAngle::Left,
            RotAngle::Left => RotAngle::Up,
        }
    }

    /// The angle after one counterclockwise quarter turn.
    pub fn rot_clockclockwise(&self) -> (r: RotAngle)
        ensures
            r == match *self {
                RotAngle::Up => RotAngle::Left,
                RotAngle::Left => RotAngle::Down,
                RotAngle::Down => RotAngle::Right,
                RotAngle::Right => RotAngle::Up,
            },
    {
        match self {
            RotAngle::Up => RotAngle::Left,
            RotAngle::Left => RotAngle::Down,
            RotAngle::Down => RotAngle::Right,
            RotAngle::Right => RotAngle::Up,
        }
    }
}

/// Everything the state machine tracks across events. Continuous zoom and
/// pan state lives with the renderer, which owns the drawing surface.
pub struct State {
    /// Whether the info bar is drawn.
    pub render_infobar: bool,
    /// Which help overlay is drawn.
    pub render_help: HelpRender,
    /// Whether the application is fullscreen.
    pub fullscreen: bool,
    /// The current interaction mode.
    pub mode: Mode,
    /// The last action performed, for the repeat operator.
    pub last_action: ProcessAction,
    /// Whether the image is flipped horizontally.
    pub flip_horizontal: bool,
    /// Whether the image is flipped vertically.
    pub flip_vertical: bool,
    /// The image's rotation angle.
    pub rot_angle: RotAngle,
    /// The action being accumulated in repeat-count mode.
    pub register: Register,
}

impl Default for State {
    /// Normal mode, info bar on, no overlays, nothing recorded.
    fn default() -> (r: Self)
        ensures
            r.render_infobar == true,
            r.render_help == HelpRender::Off,
            r.fullscreen == false,
            r.mode is Normal,
            r.last_action == (ProcessAction { action: Action::Noop, times: 1 }),
            r.flip_horizontal == false,
            r.flip_vertical == false,
            r.rot_angle == RotAngle::Up,
            r.register.cur_action == (ProcessAction { action: Action::Noop, times: 1 }),
    {
        Self {
            render_infobar: true,
            render_help: HelpRender::Off,
            fullscreen: false,
            mode: Mode::Normal,
            last_action: ProcessAction { action: Action::Noop, times: 1 },
            flip_horizontal: false,
            flip_vertical: false,
            rot_angle: RotAngle::Up,
            register: Register { cur_action: ProcessAction { action: Action::Noop, times: 1 } },
        }
    }
}

/// Whether performing this action is recorded for the repeat operator.
pub open spec fn records_last_action(a: Action) -> bool {
    !(a is Noop || a is Quit || a is ReRender || a is SwitchMultiNormalMode)
}

impl State {
    /// Record the action for the repeat operator, unless it is one of the
    /// never-replayed ones, and hand it back.
    pub fn process_action(&mut self, pa: ProcessAction) -> (r: ProcessAction)
        ensures
            r == pa,
            final(self).last_action == if records_last_action(pa.action) {
                pa
            } else {
                old(self).last_action
            },
            final(self).render_infobar == old(self).render_infobar,
            final(self).render_help == old(self).render_help,
            final(self).fullscreen == old(self).fullscreen,
            final(self).mode == old(self).mode,
            final(self).flip_horizontal == old(self).flip_horizontal,
            final(self).flip_vertical == old(self).flip_vertical,
            final(self).rot_angle == old(self).rot_angle,
            final(self).register == old(self).register,
    {
        match pa.action {
            Action::Noop | Action::Quit | Action::ReRender | Action::SwitchMultiNormalMode => {},
            _ => {
                self.last_action = pa;
            },
        }
        pa
    }
}

/// The single-key table shared by normal and repeat-count mode: which
/// action each plain key asks for. Digits, `q`, `t`, `?` and `:` carry
/// mode-specific meaning and are handled by the mode functions themselves.
pub open spec fn spec_key_action(c: char) -> Action {
    match c {
        'c' => Action::Copy,
        'd' => Action::Trash,
        'D' => Action::Delete,
        'f' => Action::ToggleFullscreen,
        'g' => Action::First,
        'G' => Action::Last,
        'h' => Action::FlipHorizontal,
        'H' => Action::Pan(PanAction::Left),
        'i' => Action::Zoom(ZoomAction::In),
        'j' => Action::Next,
        'J' => Action::Pan(PanAction::Down),
        'k' => Action::Prev,
        'K' => Action::Pan(PanAction::Up),
        'L' => Action::Pan(PanAction::Right),
        'm' => Action::Move,
        'o' => Action::Zoom(ZoomAction::Out),
        'r' => Action::Rotate(RotationDirection::Clockwise),
        'R' => Action::Rotate(RotationDirection::CounterClockwise),
        'v' => Action::FlipVertical,
        'w' => Action::SkipForward,
        'b' => Action::SkipBack,
        'z' => Action::ToggleFit,
        'Z' => Action::CenterImage,
        _ => Action::Noop,
    }
}

fn key_action(c: char) -> (r: Action)
    ensures
        r == spec_key_action(c),
{
    match c {
        'c' => Action::Copy,
        'd' => Action::Trash,
        'D' => Action::Delete,
        'f' => Action::ToggleFullscreen,
        'g' => Action::First,
        'G' => Action::Last,
        'h' => Action::FlipHorizontal,
        'H' => Action::Pan(PanAction::Left),
        'i' => Action::Zoom(ZoomAction::In),
        'j' => Action::Next,
        'J' => Action::Pan(PanAction::Down),
        'k' => Action::Prev,
        'K' => Action::Pan(PanAction::Up),
        'L' => Action::Pan(PanAction::Right),
        'm' => Action::Move,
        'o' => Action::Zoom(ZoomAction::Out),
        'r' => Action::Rotate(RotationDirection::Clockwise),
        'R' => Action::Rotate(RotationDirection::CounterClockwise),
        'v' => Action::FlipVertical,
        'w' => Action::SkipForward,
        'b' => Action::SkipBack,
        'z' => Action::ToggleFit,
        'Z' => Action::CenterImage,
        _ => Action::Noop,
    }
}

/// The arrow-key table: panning with shift held, navigation and zoom
/// without.
pub open spec fn spec_arrow_action(k: Key, shift: bool) -> Action {
    if shift {
        match k {
            Key::Left => Action::Pan(PanAction::Left),
            Key::Right => Action::Pan(PanAction::Right),
            Key::Up => Action::Pan(PanAction::Up),
            Key::Down => Action::Pan(PanAction::Down),
            _ => Action::Noop,
        }
    } else {
        match k {
            Key::Right => Action::Next,
            Key::Left => Action::Prev,
            Key::Up => Action::Zoom(ZoomAction::In),
            Key::Down => Action::Zoom(ZoomAction::Out),
            _ => Action::Noop,
        }
    }
}

/// The help overlay after the `?` key in normal or repeat-count mode: the
/// normal table goes away if shown, and replaces anything else.
pub open spec fn spec_toggled_help(h: HelpRender) -> HelpRender {
    if h is Normal {
        HelpRender::Off
    } else {
        HelpRender::Normal
    }
}

/// What normal mode answers to an event; see [`process_normal_mode`].
pub open spec fn spec_normal_result(s: State, e: InputEvent) -> ProcessAction {
    match e {
        InputEvent::Quit => ProcessAction { action: Action::Quit, times: 1 },
        InputEvent::Text(c) => {
            if 49 <= c as u32 <= 57 {
                ProcessAction { action: Action::SwitchMultiNormalMode, times: 1 }
            } else if c == '?' || c == 't' {
                ProcessAction { action: Action::ReRender, times: 1 }
            } else if c == 'q' {
                ProcessAction { action: Action::Quit, times: 1 }
            } else if c == ':' {
                ProcessAction { action: Action::SwitchCommandMode, times: 1 }
            } else {
                ProcessAction { action: spec_key_action(c), times: 1 }
            }
        },
        InputEvent::KeyDown(k, shift) => {
            if !shift && k is Delete {
                ProcessAction { action: Action::Delete, times: 1 }
            } else if !shift && k is F11 {
                ProcessAction { action: Action::ToggleFullscreen, times: 1 }
            } else if !shift && k is Escape {
                ProcessAction { action: Action::Quit, times: 1 }
            } else if !shift && k is PageUp {
                ProcessAction { action: Action::SkipForward, times: 1 }
            } else if !shift && k is PageDown {
                ProcessAction { action: Action::SkipBack, times: 1 }
            } else if !shift && k is Home {
                ProcessAction { action: Action::First, times: 1 }
            } else if !shift && k is End {
                ProcessAction { action: Action::Last, times: 1 }
            } else if !shift && k is Period {
                s.last_action
            } else {
                ProcessAction { action: spec_arrow_action(k, shift), times: 1 }
            }
        },
        InputEvent::WindowChanged => ProcessAction { action: Action::ReRender, times: 1 },
        InputEvent::MouseLeftUp => ProcessAction { action: Action::ToggleFit, times: 1 },
        InputEvent::Other => ProcessAction { action: Action::Noop, times: 1 },
    }
}

/// How normal mode changes the state: a first digit seeds the repeat
/// accumulator, `?` toggles the help overlay, `t` the info bar.
pub open spec fn spec_normal_state(s: State, e: InputEvent) -> State {
    match e {
        InputEvent::Text(c) => {
            if 49 <= c as u32 <= 57 {
                State {
                    register: Register {
                        cur_action: ProcessAction {
                            action: s.register.cur_action.action,
                            times: (c as u32 - 48) as usize,
                        },
                    },
                    ..s
                }
            } else if c == '?' {
                State { render_help: spec_toggled_help(s.render_help), ..s }
            } else if c == 't' {
                State { render_infobar: !s.render_infobar, ..s }
            } else {
                s
            }
        },
        _ => s,
    }
}

/// Interpret one event in normal mode: the returned action executes
/// immediately, with a repeat count of one unless the repeat operator
/// replays the recorded action.
pub fn process_normal_mode(state: &mut State, event: &InputEvent) -> (r: ProcessAction)
    ensures
        r == spec_normal_result(*old(state), *event),
        *final(state) == spec_normal_state(*old(state), *event),
{
    match *event {
        InputEvent::Quit => ProcessAction::new(Action::Quit, 1),
        InputEvent::Text(c) => {
            let code: u32 = c as u32;
            if 49 <= code && code <= 57 {
                // A leading digit seeds the repeat count and switches modes.
                state.register.cur_action.times = (code - 48) as usize;
                ProcessAction::new(Action::SwitchMultiNormalMode, 1)
            } else if c == '?' {
                state.render_help = if state.render_help == HelpRender::Normal {
                    HelpRender::Off
                } else {
                    HelpRender::Normal
                };
                ProcessAction::new(Action::ReRender, 1)
            } else if c == 't' {
                state.render_infobar = !state.render_infobar;
                ProcessAction::new(Action::ReRender, 1)
            } else if c == 'q' {
                ProcessAction::new(Action::Quit, 1)
            } else if c == ':' {
                ProcessAction::new(Action::SwitchCommandMode, 1)
            } else {
                ProcessAction::new(key_action(c), 1)
            }
        },
        InputEvent::KeyDown(k, shift) => {
            if !shift && k == Key::Delete {
                ProcessAction::new(Action::Delete, 1)
            } else if !shift && k == Key::F11 {
                ProcessAction::new(Action::ToggleFullscreen, 1)
            } else if !shift && k == Key::Escape {
                ProcessAction::new(Action::Quit, 1)
            } else if !shift && k == Key::PageUp {
                ProcessAction::new(Action::SkipForward, 1)
            } else if !shift && k == Key::PageDown {
                ProcessAction::new(Action::SkipBack, 1)
            } else if !shift && k == Key::Home {
                ProcessAction::new(Action::First, 1)
            } else if !shift && k == Key::End {
                ProcessAction::new(Action::Last, 1)
            } else if !shift && k == Key::Period {
                state.last_action
            } else {
                let a = if shift {
                    match k {
                        Key::Left => Action::Pan(PanAction::Left),
                        Key::Right => Action::Pan(PanAction::Right),
                        Key::Up => Action::Pan(PanAction::Up),
                        Key::Down => Action::Pan(PanAction::Down),
                        _ => Action::Noop,
                    }
                } else {
                    match k {
                        Key::Right => Action::Next,
                        Key::Left => Action::Prev,
                        Key::Up => Action::Zoom(ZoomAction::In),
                        Key::Down => Action::Zoom(ZoomAction::Out),
                        _ => Action::Noop,
                    }
                };
                ProcessAction::new(a, 1)
            }
        },
        InputEvent::WindowChanged => ProcessAction::new(Action::ReRender, 1),
        InputEvent::MouseLeftUp => ProcessAction::new(Action::ToggleFit, 1),
        InputEvent::Other => ProcessAction::new(Action::Noop, 1),
    }
}

/// A digit appended to the repeat accumulator, capped at the largest
/// representable count instead of overflowing.
pub open spec fn spec_accum_digit(t: int, d: int) -> int {
    if t * 10 + d > usize::MAX {
        usize::MAX as int
    } else {
        t * 10 + d
    }
}

fn accum_digit(times: usize, d: usize) -> (r: usize)
    requires
        d <= 9,
    ensures
        r == spec_accum_digit(times as int, d as int),
{
    if times > (usize::MAX - d) / 10 {
        proof {
            assert(times * 10 + d > usize::MAX) by (nonlinear_arith)
                requires
                    times > (usize::MAX - d) / 10,
                    0 <= d <= 9,
            ;
        }
        usize::MAX
    } else {
        proof {
            assert(times * 10 + d <= usize::MAX) by (nonlinear_arith)
                requires
                    times <= (usize::MAX - d) / 10,
                    0 <= d <= 9,
            ;
        }
        times * 10 + d
    }
}

/// What repeat-count mode answers to an event; see
/// [`process_multi_normal_mode`].
pub open spec fn spec_multi_result(s: State, e: InputEvent) -> MultiNormalAction {
    let times = s.register.cur_action.times;
    match e {
        InputEvent::Quit => MultiNormalAction::Quit,
        InputEvent::Text(c) => {
            if 48 <= c as u32 <= 57 {
                MultiNormalAction::MoreInput
            } else if c == '?' || c == 't' {
                MultiNormalAction::Repeat(ProcessAction { action: Action::ReRender, times })
            } else if c == 'q' {
                MultiNormalAction::Quit
            } else if spec_key_action(c) is Noop {
                MultiNormalAction::Noop
            } else {
                MultiNormalAction::Repeat(ProcessAction { action: spec_key_action(c), times })
            }
        },
        InputEvent::KeyDown(k, shift) => {
            if !shift && k is Delete {
                MultiNormalAction::Repeat(ProcessAction { action: Action::Delete, times })
            } else if !shift && k is Escape {
                MultiNormalAction::Cancel
            } else if !shift && k is PageUp {
                MultiNormalAction::Repeat(ProcessAction { action: Action::SkipForward, times })
            } else if !shift && k is PageDown {
                MultiNormalAction::Repeat(ProcessAction { action: Action::SkipBack, times })
            } else if !shift && k is Period {
                // Replay the recorded action at the count entered now.
                MultiNormalAction::Repeat(
                    ProcessAction { action: s.last_action.action, times },
                )
            } else if !shift && k is Backspace {
                MultiNormalAction::Repeat(ProcessAction { action: Action::Backspace, times: 1 })
            } else if spec_arrow_action(k, shift) is Noop {
                MultiNormalAction::Noop
            } else {
                MultiNormalAction::Repeat(
                    ProcessAction { action: spec_arrow_action(k, shift), times },
                )
            }
        },
        InputEvent::WindowChanged => MultiNormalAction::ReRender,
        InputEvent::MouseLeftUp => MultiNormalAction::Noop,
        InputEvent::Other => MultiNormalAction::Noop,
    }
}

/// How repeat-count mode changes the state: digits accumulate, `?` and `t`
/// toggle overlays, the repeat operator re-stamps the recorded action with
/// the count entered now.
pub open spec fn spec_multi_state(s: State, e: InputEvent) -> State {
    match e {
        InputEvent::Text(c) => {
            if 48 <= c as u32 <= 57 {
                State {
                    register: Register {
                        cur_action: ProcessAction {
                            action: s.register.cur_action.action,
                            times: spec_accum_digit(
                                s.register.cur_action.times as int,
                                c as u32 - 48,
                            ) as usize,
                        },
                    },
                    ..s
                }
            } else if c == '?' {
                State { render_help: spec_toggled_help(s.render_help), ..s }
            } else if c == 't' {
                State { render_infobar: !s.render_infobar, ..s }
            } else {
                s
            }
        },
        InputEvent::KeyDown(k, shift) => {
            if !shift && k is Period {
                State {
                    last_action: ProcessAction {
                        action: s.last_action.action,
                        times: s.register.cur_action.times,
                    },
                    ..s
                }
            } else {
                s
            }
        },
        _ => s,
    }
}

/// Interpret one event while the repeat count is being typed: digits
/// accumulate into the count, an action key dispatches with the
/// accumulated count, escape cancels.
pub fn process_multi_normal_mode(state: &mut State, event: &InputEvent) -> (r: MultiNormalAction)
    ensures
        r == spec_multi_result(*old(state), *event),
        *final(state) == spec_multi_state(*old(state), *event),
{
    let times: usize = state.register.cur_action.times;
    match *event {
        InputEvent::Quit => MultiNormalAction::Quit,
        InputEvent::Text(c) => {
            let code: u32 = c as u32;
            if 48 <= code && code <= 57 {
                let digit: usize = (code - 48) as usize;
                state.register.cur_action.times = accum_digit(times, digit);
                MultiNormalAction::MoreInput
            } else if c == '?' {
                state.render_help = if state.render_help == HelpRender::Normal {
                    HelpRender::Off
                } else {
                    HelpRender::Normal
                };
                MultiNormalAction::Repeat(ProcessAction::new(Action::ReRender, times))
            } else if c == 't' {
                state.render_infobar = !state.render_infobar;
                MultiNormalAction::Repeat(ProcessAction::new(Action::ReRender, times))
            } else if c == 'q' {
                MultiNormalAction::Quit
            } else {
                let a = key_action(c);
                if a == Action::Noop {
                    MultiNormalAction::Noop
                } else {
                    MultiNormalAction::Repeat(ProcessAction::new(a, times))
                }
            }
        },
        InputEvent::KeyDown(k, shift) => {
            if !shift && k == Key::Delete {
                MultiNormalAction::Repeat(ProcessAction::new(Action::Delete, times))
            } else if !shift && k == Key::Escape {
                MultiNormalAction::Cancel
            } else if !shift && k == Key::PageUp {
                MultiNormalAction::Repeat(ProcessAction::new(Action::SkipForward, times))
            } else if !shift && k == Key::PageDown {
                MultiNormalAction::Repeat(ProcessAction::new(Action::SkipBack, times))
            } else if !shift && k == Key::Period {
                state.last_action.times = times;
                MultiNormalAction::Repeat(state.last_action)
            } else if !shift && k == Key::Backspace {
                MultiNormalAction::Repeat(ProcessAction::new(Action::Backspace, 1))
            } else {
                let a = if shift {
                    match k {
                        Key::Left => Action::Pan(PanAction::Left),
                        Key::Right => Action::Pan(PanAction::Right),
                        Key::Up => Action::Pan(PanAction::Up),
                        Key::Down => Action::Pan(PanAction::Down),
                        _ => Action::Noop,
                    }
                } else {
                    match k {
                        Key::Right => Action::Next,
                        Key::Left => Action::Prev,
                        Key::Up => Action::Zoom(ZoomAction::In),
                        Key::Down => Action::Zoom(ZoomAction::Out),
                        _ => Action::Noop,
                    }
                };
                if a == Action::Noop {
                    MultiNormalAction::Noop
                } else {
                    MultiNormalAction::Repeat(ProcessAction::new(a, times))
                }
            }
        },
        InputEvent::WindowChanged => MultiNormalAction::ReRender,
        InputEvent::MouseLeftUp => MultiNormalAction::Noop,
        InputEvent::Other => MultiNormalAction::Noop,
    }
}

/// What command mode answers to an event; see [`process_command_mode`].
pub open spec fn spec_command_action(e: InputEvent) -> Action {
    match e {
        InputEvent::Text(c) => Action::KeyboardInput(c),
        InputEvent::KeyDown(k, shift) => {
            if k is Backspace {
                Action::Backspace
            } else if k is Escape || k is Return {
                Action::SwitchNormalMode
            } else {
                Action::Noop
            }
        },
        InputEvent::WindowChanged => Action::ReRender,
        _ => Action::Noop,
    }
}

/// Interpret one event in command mode: characters feed the line buffer,
/// enter and escape leave the mode.
pub fn process_command_mode(event: &InputEvent) -> (r: Action)
    ensures
        r == spec_command_action(*event),
{
    match *event {
        InputEvent::Text(c) => Action::KeyboardInput(c),
        InputEvent::KeyDown(k, _shift) => match k {
            Key::Backspace => Action::Backspace,
            Key::Escape => Action::SwitchNormalMode,
            Key::Return => Action::SwitchNormalMode,
            _ => Action::Noop,
        },
        InputEvent::WindowChanged => Action::ReRender,
        InputEvent::MouseLeftUp => Action::Noop,
        InputEvent::Quit => Action::Noop,
        InputEvent::Other => Action::Noop,
    }
}

/// The command line after one editing step; see [`get_command_step`].
pub open spec fn spec_command_buffer(buf: Seq<char>, a: Action) -> Seq<char> {
    match a {
        Action::Backspace => if buf.len() == 0 {
            buf
        } else {
            buf.drop_last()
        },
        Action::KeyboardInput(c) => {
            let pushed = buf.push(c);
            if pushed[0] == ':' {
                pushed.subrange(1, pushed.len() as int)
            } else {
                pushed
            }
        },
        _ => buf,
    }
}

/// One editing step of the command line: characters append (a retyped
/// leading `:` is dropped), backspace removes the last character or leaves
/// the mode when the line is already empty, enter and escape finish the
/// line.
pub fn get_command_step(input: &mut String, action: &Action) -> (done: bool)
    ensures
        final(input)@ == spec_command_buffer(old(input)@, *action),
        done == (*action is SwitchNormalMode || (*action is Backspace && old(input)@.len() == 0)),
{
    match *action {
        Action::Backspace => {
            let n: usize = input.as_str().unicode_len();
            if n == 0 {
                true
            } else {
                let shorter = String::from_str(input.as_str().substring_char(0, n - 1));
                proof {
                    assert(old(input)@.subrange(0, old(input)@.len() - 1) =~= old(
                        input,
                    )@.drop_last());
                }
                *input = shorter;
                false
            }
        },
        Action::KeyboardInput(c) => {
            push_char(input, c);
            let n: usize = input.as_str().unicode_len();
            if input.as_str().get_char(0) == ':' {
                let stripped = String::from_str(input.as_str().substring_char(1, n));
                *input = stripped;
            }
            false
        },
        Action::SwitchNormalMode => true,
        _ => false,
    }
}

/// The zoom repetition as the renderer takes it: at least one, and capped
/// at what a signed 32-bit count can hold.
pub fn cap_zoom_times(times: usize) -> (r: i32)
    ensures
        r == if 1 <= times <= i32::MAX as usize {
            times as i32
        } else {
            1i32
        },
        r >= 1,
{
    if times >= 1 && times <= i32::MAX as usize {
        times as i32
    } else {
        1
    }
}

} // verus!
