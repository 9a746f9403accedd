//! The input that carries out an action: the key presses, mouse clicks, window
//! commands and program starts, in order, that the system is asked to perform.
use vstd::prelude::*;
use vstd::string::*;
use crate::config::{
    Action, KeyboardAction, MouseAction, MouseActionType, MouseButton, RunAction,
    WindowAction, WindowCommand,
};
use crate::keys::{key_code, map_key_to_vk, uppercase_of, KeyMapError};
use crate::text::{views, words, split_whitespace_str};

verus! {

/// Pause between pressing and releasing the keys of a shortcut, in milliseconds.
pub const KEY_HOLD_MILLIS: u32 = 10;

/// Pause between the two clicks of a double click, in milliseconds.
pub const DOUBLE_CLICK_PAUSE_MILLIS: u32 = 50;

/// Show command of the window-show call: minimized.
pub const SW_SHOWMINIMIZED: i32 = 2;
/// Show command: maximized.
pub const SW_SHOWMAXIMIZED: i32 = 3;
/// Show command: restored.
pub const SW_RESTORE: i32 = 9;

/// Key codes pressed to show the desktop (Windows key + D).
pub const VK_LWIN_CODE: u16 = 0x5B;
/// Key code of D.
pub const VK_D_CODE: u16 = 0x44;

/// One piece of simulated input or window handling.
#[derive(Debug)]
pub enum InputStep {
    /// A key goes down or up.
    Key { vk: u16, down: bool },
    /// A mouse button is pressed and released (one input pair with these flags and data).
    MouseClick { down_flags: u32, up_flags: u32, data: u32 },
    /// Wait.
    Pause { millis: u32 },
    /// Show the foreground window with this show command.
    ShowWindow { show: i32 },
    /// Ask the foreground window to close.
    CloseWindow,
    /// Start a program with arguments.
    Run { program: String, args: Vec<String> },
}

/// Abstract value of an input step.
pub enum StepView {
    Key { vk: u16, down: bool },
    MouseClick { down_flags: u32, up_flags: u32, data: u32 },
    Pause { millis: u32 },
    ShowWindow { show: i32 },
    CloseWindow,
    Run { program: Seq<char>, args: Seq<Seq<char>> },
}

impl View for InputStep {
    type V = StepView;

    open spec fn view(&self) -> StepView {
        match self {
            InputStep::Key { vk, down } => StepView::Key { vk: *vk, down: *down },
            InputStep::MouseClick { down_flags, up_flags, data } => StepView::MouseClick {
                down_flags: *down_flags,
                up_flags: *up_flags,
                data: *data,
            },
            InputStep::Pause { millis } => StepView::Pause { millis: *millis },
            InputStep::ShowWindow { show } => StepView::ShowWindow { show: *show },
            InputStep::CloseWindow => StepView::CloseWindow,
            InputStep::Run { program, args } => StepView::Run { program: program@, args: views(args@) },
        }
    }
}

/// The views of a list of steps.
pub open spec fn steps_view(s: Seq<InputStep>) -> Seq<StepView> {
    s.map_values(|x: InputStep| x@)
}

/// The key name is known (or a number).
pub open spec fn known_key(k: Seq<char>) -> bool {
    key_code(uppercase_of(k), k) is Some
}

/// The code of a known key name.
pub open spec fn code_of(k: Seq<char>) -> u16 {
    key_code(uppercase_of(k), k).unwrap()
}

/// The key-down steps of `keys`, in order.
pub open spec fn presses(keys: Seq<Seq<char>>) -> Seq<StepView> {
    keys.map_values(|k: Seq<char>| StepView::Key { vk: code_of(k), down: true })
}

/// The key-up steps of `keys`, last key first.
pub open spec fn releases(keys: Seq<Seq<char>>) -> Seq<StepView> {
    Seq::new(keys.len(), |i: int| StepView::Key { vk: code_of(keys[keys.len() - 1 - i]), down: false })
}

/// The steps of a shortcut whose keys are all known: press them in order, hold, then
/// release them in reverse order; nothing for no keys.
pub open spec fn shortcut_steps(keys: Seq<Seq<char>>) -> Seq<StepView> {
    if keys.len() == 0 {
        Seq::empty()
    } else {
        presses(keys) + seq![StepView::Pause { millis: KEY_HOLD_MILLIS }] + releases(keys)
    }
}

/// The unknown key named by a planning error, if any.
pub open spec fn err_key(r: Result<(), KeyMapError>) -> Option<Seq<char>> {
    match r {
        Ok(_) => None,
        Err(KeyMapError::UnknownKey(k)) => Some(k@),
    }
}

/// `steps` and `err` are what planning the shortcut `keys` gives: with all keys known,
/// the shortcut's steps and no error; otherwise the presses of the keys before the
/// first unknown one, and that key.
pub open spec fn keyboard_plan(keys: Seq<Seq<char>>, steps: Seq<StepView>, err: Option<Seq<char>>) -> bool {
    &&& (err is None) == (forall|i: int| 0 <= i < keys.len() ==> known_key(#[trigger] keys[i]))
    &&& err is None ==> steps == shortcut_steps(keys)
    &&& err matches Some(k) ==> exists|n: int|
        0 <= n < keys.len() && !known_key(#[trigger] keys[n]) && k == keys[n] && (forall|i: int|
            0 <= i < n ==> known_key(#[trigger] keys[i])) && steps == presses(keys.take(n))
}

/// The down flags, up flags and data of a click of `b`.
pub open spec fn click_flags(b: MouseButton) -> (u32, u32, u32) {
    match b {
        MouseButton::Left => (0x0002, 0x0004, 0),
        MouseButton::Right => (0x0008, 0x0010, 0),
        MouseButton::Middle => (0x0020, 0x0040, 0),
        MouseButton::X1 => (0x0080, 0x0100, 1),
        MouseButton::X2 => (0x0080, 0x0100, 2),
    }
}

/// The click step of `b`.
pub open spec fn click_step(b: MouseButton) -> StepView {
    StepView::MouseClick {
        down_flags: click_flags(b).0,
        up_flags: click_flags(b).1,
        data: click_flags(b).2,
    }
}

/// The steps of a mouse action: one click, or two with a pause between.
pub open spec fn mouse_steps(b: MouseButton, t: MouseActionType) -> Seq<StepView> {
    match t {
        MouseActionType::Click => seq![click_step(b)],
        MouseActionType::DoubleClick => seq![
            click_step(b),
            StepView::Pause { millis: DOUBLE_CLICK_PAUSE_MILLIS },
            click_step(b),
        ],
    }
}

/// The steps of a window command.
pub open spec fn window_steps(c: WindowCommand) -> Seq<StepView> {
    match c {
        WindowCommand::Minimize => seq![StepView::ShowWindow { show: SW_SHOWMINIMIZED }],
        WindowCommand::Maximize => seq![StepView::ShowWindow { show: SW_SHOWMAXIMIZED }],
        WindowCommand::Restore => seq![StepView::ShowWindow { show: SW_RESTORE }],
        WindowCommand::Close => seq![StepView::CloseWindow],
        WindowCommand::ShowDesktop => seq![
            StepView::Key { vk: VK_LWIN_CODE, down: true },
            StepView::Key { vk: VK_D_CODE, down: true },
            StepView::Key { vk: VK_D_CODE, down: false },
            StepView::Key { vk: VK_LWIN_CODE, down: false },
        ],
    }
}

/// The step of a run action: the command, with the whitespace-separated words of the
/// arguments.
pub open spec fn run_step(command: Seq<char>, args: Option<Seq<char>>) -> StepView {
    StepView::Run {
        program: command,
        args: match args {
            Some(a) => words(a),
            None => Seq::empty(),
        },
    }
}

/// The flags and data of a click of `button`.
pub fn mouse_click_flags(button: &MouseButton) -> (r: (u32, u32, u32))
    ensures
        r == click_flags(*button),
{
    match button {
        MouseButton::Left => (0x0002, 0x0004, 0),
        MouseButton::Right => (0x0008, 0x0010, 0),
        MouseButton::Middle => (0x0020, 0x0040, 0),
        MouseButton::X1 => (0x0080, 0x0100, 1),
        MouseButton::X2 => (0x0080, 0x0100, 2),
    }
}

/// The click step of `button`.
fn click(button: &MouseButton) -> (r: InputStep)
    ensures
        r@ == click_step(*button),
{
    let (d, u, data) = mouse_click_flags(button);
    InputStep::MouseClick { down_flags: d, up_flags: u, data }
}

/// The steps of a shortcut. When a key name is unknown, the keys before it have been
/// pressed (and stay down) and the error names the unknown key.
pub fn plan_keyboard(action: &KeyboardAction) -> (r: (Vec<InputStep>, Result<(), KeyMapError>))
    ensures
        keyboard_plan(views(action.keys@), steps_view(r.0@), err_key(r.1)),
{
    let ghost keys = views(action.keys@);
    let mut steps: Vec<InputStep> = Vec::new();
    let mut codes: Vec<u16> = Vec::new();
    if action.keys.len() == 0 {
        proof {
            assert(steps_view(steps@) =~= shortcut_steps(keys));
        }
        return (steps, Ok(()));
    }
    let n = action.keys.len();
    let mut i: usize = 0;
    while i < n
        invariant
            n == action.keys@.len(),
            keys == views(action.keys@),
            i <= n,
            codes@.len() == i,
            forall|j: int| 0 <= j < i ==> known_key(#[trigger] keys[j]),
            forall|j: int| 0 <= j < i ==> #[trigger] codes@[j] == code_of(keys[j]),
            steps_view(steps@) == presses(keys.take(i as int)),
        decreases n - i,
    {
        match map_key_to_vk(action.keys[i].as_str()) {
            Ok(vk) => {
                let ghost before = steps_view(steps@);
                steps.push(InputStep::Key { vk, down: true });
                codes.push(vk);
                proof {
                    assert(keys[i as int] == action.keys@[i as int]@);
                    assert(steps_view(steps@) =~= before.push(StepView::Key { vk, down: true }));
                    assert(presses(keys.take(i + 1)) =~= presses(keys.take(i as int)).push(
                        StepView::Key { vk, down: true },
                    ));
                }
                i = i + 1;
            },
            Err(e) => {
                proof {
                    assert(keys[i as int] == action.keys@[i as int]@);
                }
                return (steps, Err(e));
            },
        }
    }
    let ghost downs = steps_view(steps@);
    steps.push(InputStep::Pause { millis: KEY_HOLD_MILLIS });
    proof {
        assert(keys.take(n as int) =~= keys);
        assert(steps_view(steps@) =~= downs.push(StepView::Pause { millis: KEY_HOLD_MILLIS }));
    }
    let mut j: usize = 0;
    while j < n
        invariant
            n == keys.len(),
            codes@.len() == n,
            j <= n,
            forall|k: int| 0 <= k < n ==> #[trigger] codes@[k] == code_of(keys[k]),
            steps_view(steps@) == presses(keys) + seq![StepView::Pause { millis: KEY_HOLD_MILLIS }]
                + releases(keys).take(j as int),
        decreases n - j,
    {
        let vk = codes[n - 1 - j];
        let ghost before = steps_view(steps@);
        steps.push(InputStep::Key { vk, down: false });
        proof {
            assert(steps_view(steps@) =~= before.push(StepView::Key { vk, down: false }));
            assert(releases(keys).take(j + 1) =~= releases(keys).take(j as int).push(
                StepView::Key { vk, down: false },
            ));
        }
        j = j + 1;
    }
    proof {
        assert(releases(keys).take(n as int) =~= releases(keys));
    }
    (steps, Ok(()))
}

/// The steps of a mouse action.
pub fn plan_mouse(action: &MouseAction) -> (r: Vec<InputStep>)
    ensures
        steps_view(r@) == mouse_steps(action.button, action.action_type),
{
    let mut steps: Vec<InputStep> = Vec::new();
    match action.action_type {
        MouseActionType::Click => {
            steps.push(click(&action.button));
        },
        MouseActionType::DoubleClick => {
            steps.push(click(&action.button));
            steps.push(InputStep::Pause { millis: DOUBLE_CLICK_PAUSE_MILLIS });
            steps.push(click(&action.button));
        },
    }
    proof {
        assert(steps_view(steps@) =~= mouse_steps(action.button, action.action_type));
    }
    steps
}

/// The steps of a window command.
pub fn plan_window_command(action: &WindowAction) -> (r: Vec<InputStep>)
    ensures
        steps_view(r@) == window_steps(action.command),
{
    let mut steps: Vec<InputStep> = Vec::new();
    match action.command {
        WindowCommand::Minimize => steps.push(InputStep::ShowWindow { show: SW_SHOWMINIMIZED }),
        WindowCommand::Maximize => steps.push(InputStep::ShowWindow { show: SW_SHOWMAXIMIZED }),
        WindowCommand::Restore => steps.push(InputStep::ShowWindow { show: SW_RESTORE }),
        WindowCommand::Close => steps.push(InputStep::CloseWindow),
        WindowCommand::ShowDesktop => {
            steps.push(InputStep::Key { vk: VK_LWIN_CODE, down: true });
            steps.push(InputStep::Key { vk: VK_D_CODE, down: true });
            steps.push(InputStep::Key { vk: VK_D_CODE, down: false });
            steps.push(InputStep::Key { vk: VK_LWIN_CODE, down: false });
        },
    }
    proof {
        assert(steps_view(steps@) =~= window_steps(action.command));
    }
    steps
}

/// The step of a run action.
pub fn plan_run(action: &RunAction) -> (r: InputStep)
    ensures
        r@ == run_step(
            action.command@,
            match action.args {
                Some(a) => Some(a@),
                None => None,
            },
        ),
{
    let args = match &action.args {
        Some(a) => split_whitespace_str(a.as_str()),
        None => {
            let v: Vec<String> = Vec::new();
            proof {
                assert(views(v@) =~= Seq::<Seq<char>>::empty());
            }
            v
        },
    };
    InputStep::Run { program: action.command.clone(), args }
}

/// The steps that carry out `action`; for a shortcut with an unknown key, the steps up
/// to it and the error.
pub fn plan_action(action: &Action) -> (r: (Vec<InputStep>, Result<(), KeyMapError>))
    ensures
        match action {
            Action::Keyboard(kb) => keyboard_plan(views(kb.keys@), steps_view(r.0@), err_key(r.1)),
            Action::Mouse(m) => r.1 is Ok && steps_view(r.0@) == mouse_steps(m.button, m.action_type),
            Action::Window(w) => r.1 is Ok && steps_view(r.0@) == window_steps(w.command),
            Action::Run(run) => r.1 is Ok && steps_view(r.0@) == seq![
                run_step(
                    run.command@,
                    match run.args {
                        Some(a) => Some(a@),
                        None => None,
                    },
                ),
            ],
        },
{
    match action {
        Action::Keyboard(kb) => plan_keyboard(kb),
        Action::Mouse(m) => (plan_mouse(m), Ok(())),
        Action::Window(w) => (plan_window_command(w), Ok(())),
        Action::Run(run) => {
            let step = plan_run(run);
            let mut steps: Vec<InputStep> = Vec::new();
            steps.push(step);
            proof {
                assert(steps_view(steps@) =~= seq![step@]);
            }
            (steps, Ok(()))
        },
    }
}

} // verus!
