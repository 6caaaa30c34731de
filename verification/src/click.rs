//! How a click, a scroll or a pointer move is carried out: which helper
//! programs are tried, in which order, with which arguments.
//!
//! Nothing here runs a program. A plan lists the attempts; a [`Runner`] tells
//! the caller which command to run next and takes what came of it.

use crate::text::{decimal, decimal_of, texts};
use vstd::prelude::*;
use vstd::string::StringExecFns;

verus! {

/// A mouse button.
#[derive(Debug, Clone, Copy, PartialEq, Eq, Structural)]
pub enum ClickButton {
    Left,
    Right,
    Middle,
}

/// A direction to scroll in.
#[derive(Debug, Clone, Copy, PartialEq, Eq, Structural)]
pub enum ScrollDirection {
    Up,
    Down,
    Left,
    Right,
}

/// How long the pointer is given to arrive after Hyprland has moved it, in
/// milliseconds.
pub const SETTLE_MS: u64 = 10;

/// How far one scroll step of `wlrctl` goes.
pub const WLRCTL_SCROLL_UNIT: i32 = 15;

/// What a command must do for its step to count as done.
#[derive(Debug, Clone, Copy, PartialEq, Eq, Structural)]
pub enum Check {
    /// The program must start; how it ends does not matter.
    Started,
    /// The program must start and end with success.
    Succeeded,
}

/// One command of an attempt.
#[derive(Debug)]
pub struct Step {
    pub program: String,
    pub args: Vec<String>,
    /// What is written to the program's standard input, if anything.
    pub stdin: Option<String>,
    pub check: Check,
    /// How many times the command is run, one after the other.
    pub repeat: u32,
    /// How long to wait after a run that counts as done, in milliseconds.
    pub pause_ms: u64,
}

/// One way to reach the goal: commands that must all be done, in order.
#[derive(Debug)]
pub struct Attempt {
    pub steps: Vec<Step>,
}

/// A step as mathematical values.
pub struct StepView {
    pub program: Seq<char>,
    pub args: Seq<Seq<char>>,
    pub stdin: Option<Seq<char>>,
    pub check: Check,
    pub repeat: nat,
    pub pause_ms: nat,
}

impl View for Step {
    type V = StepView;

    open spec fn view(&self) -> StepView {
        StepView {
            program: self.program@,
            args: texts(self.args@),
            stdin: match self.stdin {
                Some(text) => Some(text@),
                None => None,
            },
            check: self.check,
            repeat: self.repeat as nat,
            pause_ms: self.pause_ms as nat,
        }
    }
}

impl View for Attempt {
    type V = Seq<StepView>;

    open spec fn view(&self) -> Seq<StepView> {
        self.steps@.map_values(|s: Step| s@)
    }
}

/// The mathematical values of a plan.
pub open spec fn plan_view(plan: Seq<Attempt>) -> Seq<Seq<StepView>> {
    plan.map_values(|a: Attempt| a@)
}

/// A command that is run once, must succeed and gets no input.
pub open spec fn run(program: Seq<char>, args: Seq<Seq<char>>) -> StepView {
    StepView { program, args, stdin: None, check: Check::Succeeded, repeat: 1, pause_ms: 0 }
}

/// The code by which `ydotool` knows a click of a button.
pub open spec fn button_code(button: ClickButton) -> Seq<char> {
    match button {
        ClickButton::Left => "0xC0"@,
        ClickButton::Right => "0xC1"@,
        ClickButton::Middle => "0xC2"@,
    }
}

/// The code by which `ydotool` knows the press of a button.
pub open spec fn press_code(button: ClickButton) -> Seq<char> {
    match button {
        ClickButton::Left => "0x40"@,
        ClickButton::Right => "0x41"@,
        ClickButton::Middle => "0x42"@,
    }
}

/// The code by which `ydotool` knows the release of a button.
pub open spec fn release_code(button: ClickButton) -> Seq<char> {
    match button {
        ClickButton::Left => "0x80"@,
        ClickButton::Right => "0x81"@,
        ClickButton::Middle => "0x82"@,
    }
}

/// The name of a button.
pub open spec fn button_name(button: ClickButton) -> Seq<char> {
    match button {
        ClickButton::Left => "left"@,
        ClickButton::Right => "right"@,
        ClickButton::Middle => "middle"@,
    }
}

/// `hyprctl dispatch movecursor x y`, followed by a wait.
pub open spec fn hyprctl_move(x: int, y: int, pause_ms: nat) -> StepView {
    StepView {
        pause_ms,
        ..run("hyprctl"@, seq!["dispatch"@, "movecursor"@, decimal_of(x), decimal_of(y)])
    }
}

/// `ydotool mousemove --absolute -x x -y y`.
pub open spec fn ydotool_move(x: int, y: int, check: Check) -> StepView {
    StepView {
        check,
        ..run(
            "ydotool"@,
            seq!["mousemove"@, "--absolute"@, "-x"@, decimal_of(x), "-y"@, decimal_of(y)],
        )
    }
}

/// `ydotool click code`.
pub open spec fn ydotool_click(code: Seq<char>) -> StepView {
    run("ydotool"@, seq!["click"@, code])
}

/// `wlrctl pointer move x y`.
pub open spec fn wlrctl_move(x: int, y: int) -> StepView {
    run("wlrctl"@, seq!["pointer"@, "move"@, decimal_of(x), decimal_of(y)])
}

/// `wlrctl pointer click button`.
pub open spec fn wlrctl_click(button: ClickButton) -> StepView {
    run("wlrctl"@, seq!["pointer"@, "click"@, button_name(button)])
}

/// `dotool`, fed with `script`.
pub open spec fn dotool(script: Seq<char>, check: Check) -> StepView {
    StepView { stdin: Some(script), check, ..run("dotool"@, Seq::empty()) }
}

/// The line that moves `dotool`'s pointer.
pub open spec fn mouseto(x: int, y: int) -> Seq<char> {
    "mouseto "@ + decimal_of(x) + " "@ + decimal_of(y) + "\n"@
}

/// The ways to click at (`x`, `y`), in the order in which they are tried.
/// On Hyprland, where `hyprland` holds the offset of the focused monitor,
/// its own way comes first, with the offset added to the position.
pub open spec fn click_attempts(
    x: int,
    y: int,
    button: ClickButton,
    hyprland: Option<(i32, i32)>,
) -> Seq<Seq<StepView>> {
    (match hyprland {
        Some(offset) => seq![
            seq![
                hyprctl_move(x + offset.0, y + offset.1, SETTLE_MS as nat),
                ydotool_click(button_code(button)),
            ],
        ],
        None => Seq::empty(),
    }) + seq![
        seq![ydotool_move(x, y, Check::Succeeded), ydotool_click(button_code(button))],
        seq![wlrctl_move(x, y), wlrctl_click(button)],
        seq![dotool(mouseto(x, y) + "click "@ + button_name(button) + "\n"@, Check::Succeeded)],
        seq![ydotool_move(x, y, Check::Started), wlrctl_click(button)],
    ]
}

/// The sum of a position and an offset, where an `i32` holds it.
pub open spec fn shifted(v: i32, offset: i32) -> bool {
    i32::MIN <= v + offset <= i32::MAX
}

/// Whether the position, moved by the monitor's offset, still lies within
/// `i32` coordinates.
pub open spec fn reachable(x: i32, y: i32, hyprland: Option<(i32, i32)>) -> bool {
    match hyprland {
        Some(offset) => shifted(x, offset.0) && shifted(y, offset.1),
        None => true,
    }
}

fn text(literal: &str) -> (s: String)
    ensures
        s@ == literal@,
{
    String::from_str(literal)
}

fn run_step(program: &str, args: Vec<String>) -> (step: Step)
    ensures
        step@ == run(program@, texts(args@)),
{
    Step {
        program: text(program),
        args,
        stdin: None,
        check: Check::Succeeded,
        repeat: 1,
        pause_ms: 0,
    }
}

fn button_code_text(button: ClickButton) -> (code: String)
    ensures
        code@ == button_code(button),
{
    match button {
        ClickButton::Left => text("0xC0"),
        ClickButton::Right => text("0xC1"),
        ClickButton::Middle => text("0xC2"),
    }
}

fn button_name_text(button: ClickButton) -> (name: &'static str)
    ensures
        name@ == button_name(button),
{
    match button {
        ClickButton::Left => "left",
        ClickButton::Right => "right",
        ClickButton::Middle => "middle",
    }
}

fn hyprctl_move_step(x: i32, y: i32, pause_ms: u64) -> (step: Step)
    ensures
        step@ == hyprctl_move(x as int, y as int, pause_ms as nat),
{
    let mut args: Vec<String> = Vec::new();
    args.push(text("dispatch"));
    args.push(text("movecursor"));
    args.push(decimal(x));
    args.push(decimal(y));
    assert(texts(args@) =~= seq![
        "dispatch"@,
        "movecursor"@,
        decimal_of(x as int),
        decimal_of(y as int),
    ]);
    let mut step = run_step("hyprctl", args);
    step.pause_ms = pause_ms;
    step
}

fn ydotool_move_step(x: i32, y: i32, check: Check) -> (step: Step)
    ensures
        step@ == ydotool_move(x as int, y as int, check),
{
    let mut args: Vec<String> = Vec::new();
    args.push(text("mousemove"));
    args.push(text("--absolute"));
    args.push(text("-x"));
    args.push(decimal(x));
    args.push(text("-y"));
    args.push(decimal(y));
    assert(texts(args@) =~= seq![
        "mousemove"@,
        "--absolute"@,
        "-x"@,
        decimal_of(x as int),
        "-y"@,
        decimal_of(y as int),
    ]);
    let mut step = run_step("ydotool", args);
    step.check = check;
    step
}

fn ydotool_click_step(code: String) -> (step: Step)
    ensures
        step@ == ydotool_click(code@),
{
    let mut args: Vec<String> = Vec::new();
    args.push(text("click"));
    let ghost wanted = code@;
    args.push(code);
    assert(texts(args@) =~= seq!["click"@, wanted]);
    run_step("ydotool", args)
}

fn wlrctl_move_step(x: i32, y: i32) -> (step: Step)
    ensures
        step@ == wlrctl_move(x as int, y as int),
{
    let mut args: Vec<String> = Vec::new();
    args.push(text("pointer"));
    args.push(text("move"));
    args.push(decimal(x));
    args.push(decimal(y));
    assert(texts(args@) =~= seq!["pointer"@, "move"@, decimal_of(x as int), decimal_of(y as int)]);
    run_step("wlrctl", args)
}

fn wlrctl_click_step(button: ClickButton) -> (step: Step)
    ensures
        step@ == wlrctl_click(button),
{
    let mut args: Vec<String> = Vec::new();
    args.push(text("pointer"));
    args.push(text("click"));
    args.push(text(button_name_text(button)));
    assert(texts(args@) =~= seq!["pointer"@, "click"@, button_name(button)]);
    run_step("wlrctl", args)
}

fn dotool_step(script: String, check: Check) -> (step: Step)
    ensures
        step@ == dotool(script@, check),
{
    let args: Vec<String> = Vec::new();
    assert(texts(args@) =~= Seq::empty());
    let mut step = run_step("dotool", args);
    step.stdin = Some(script);
    step.check = check;
    step
}

fn mouseto_text(x: i32, y: i32) -> (script: String)
    ensures
        script@ == mouseto(x as int, y as int),
{
    let mut script = text("mouseto ");
    script.append(decimal(x).as_str());
    script.append(" ");
    script.append(decimal(y).as_str());
    script.append("\n");
    script
}

fn pair(first: Step, second: Step) -> (attempt: Attempt)
    ensures
        attempt@ == seq![first@, second@],
{
    let mut steps: Vec<Step> = Vec::new();
    steps.push(first);
    steps.push(second);
    let attempt = Attempt { steps };
    attempt
}

fn single(step: Step) -> (attempt: Attempt)
    ensures
        attempt@ == seq![step@],
{
    let mut steps: Vec<Step> = Vec::new();
    steps.push(step);
    let attempt = Attempt { steps };
    attempt
}

/// The ways to click at (`x`, `y`) with `button`, in the order in which they
/// are to be tried. `hyprland` holds the offset of the focused monitor where
/// the compositor is Hyprland.
pub fn click_plan(x: i32, y: i32, button: ClickButton, hyprland: Option<(i32, i32)>) -> (plan: Vec<
    Attempt,
>)
    requires
        reachable(x, y, hyprland),
    ensures
        plan_view(plan@) == click_attempts(x as int, y as int, button, hyprland),
{
    let mut plan: Vec<Attempt> = Vec::new();
    match hyprland {
        Some(offset) => {
            plan.push(
                pair(
                    hyprctl_move_step(x + offset.0, y + offset.1, SETTLE_MS),
                    ydotool_click_step(button_code_text(button)),
                ),
            );
        },
        None => {},
    }
    plan.push(
        pair(ydotool_move_step(x, y, Check::Succeeded), ydotool_click_step(button_code_text(button))),
    );
    plan.push(pair(wlrctl_move_step(x, y), wlrctl_click_step(button)));
    let mut script = mouseto_text(x, y);
    script.append("click ");
    script.append(button_name_text(button));
    script.append("\n");
    plan.push(single(dotool_step(script, Check::Succeeded)));
    plan.push(pair(ydotool_move_step(x, y, Check::Started), wlrctl_click_step(button)));
    plan
}

/// The option by which `ydotool` scrolls in a direction.
pub open spec fn wheel_option(direction: ScrollDirection) -> Seq<char> {
    match direction {
        ScrollDirection::Up | ScrollDirection::Down => "--wheel"@,
        ScrollDirection::Left | ScrollDirection::Right => "--hwheel"@,
    }
}

/// The amount that `ydotool` is given: down and left count backwards.
pub open spec fn wheel_amount(direction: ScrollDirection, amount: int) -> int {
    match direction {
        ScrollDirection::Up | ScrollDirection::Right => amount,
        ScrollDirection::Down | ScrollDirection::Left => -amount,
    }
}

/// `ydotool mousemove --wheel amount` or `--hwheel amount`.
pub open spec fn ydotool_wheel(direction: ScrollDirection, amount: int) -> StepView {
    run(
        "ydotool"@,
        seq!["mousemove"@, wheel_option(direction), decimal_of(wheel_amount(direction, amount))],
    )
}

/// The line that makes `dotool` scroll. Down and left are written with a
/// minus sign in front of the amount as it stands.
pub open spec fn dotool_scroll_line(direction: ScrollDirection, amount: int) -> Seq<char> {
    match direction {
        ScrollDirection::Up => "scroll "@ + decimal_of(amount),
        ScrollDirection::Down => "scroll -"@ + decimal_of(amount),
        ScrollDirection::Left => "hscroll -"@ + decimal_of(amount),
        ScrollDirection::Right => "hscroll "@ + decimal_of(amount),
    }
}

/// How many times `wlrctl` is asked to scroll: once for every 15 units of
/// the amount, whatever its sign, and at least once.
pub open spec fn wlrctl_clicks(amount: int) -> nat {
    let size = if amount < 0 {
        -amount
    } else {
        amount
    };
    if size / 15 >= 1 {
        (size / 15) as nat
    } else {
        1
    }
}

/// `wlrctl pointer scroll up` or `down`, several times.
pub open spec fn wlrctl_scroll(direction: ScrollDirection, amount: int) -> StepView {
    StepView {
        repeat: wlrctl_clicks(amount),
        ..run(
            "wlrctl"@,
            seq![
                "pointer"@,
                "scroll"@,
                if direction == ScrollDirection::Up {
                    "up"@
                } else {
                    "down"@
                },
            ],
        )
    }
}

/// The ways to scroll by `amount` in `direction` at (`x`, `y`), in the order
/// in which they are tried. `wlrctl` comes last and only scrolls up and down.
pub open spec fn scroll_attempts(
    x: int,
    y: int,
    direction: ScrollDirection,
    amount: int,
    hyprland: Option<(i32, i32)>,
) -> Seq<Seq<StepView>> {
    (match hyprland {
        Some(offset) => seq![
            seq![
                hyprctl_move(x + offset.0, y + offset.1, SETTLE_MS as nat),
                ydotool_wheel(direction, amount),
            ],
        ],
        None => Seq::empty(),
    }) + seq![
        seq![ydotool_move(x, y, Check::Started), ydotool_wheel(direction, amount)],
        seq![
            dotool(mouseto(x, y) + dotool_scroll_line(direction, amount) + "\n"@, Check::Succeeded),
        ],
    ] + (match direction {
        ScrollDirection::Up | ScrollDirection::Down => seq![seq![wlrctl_scroll(direction, amount)]],
        _ => Seq::empty(),
    })
}

/// The ways to move the pointer to (`x`, `y`), in the order in which they
/// are tried. The last one counts as done as soon as its program starts.
pub open spec fn move_attempts(x: int, y: int, hyprland: Option<(i32, i32)>) -> Seq<Seq<StepView>> {
    (match hyprland {
        Some(offset) => seq![seq![hyprctl_move(x + offset.0, y + offset.1, 0)]],
        None => Seq::empty(),
    }) + seq![
        seq![ydotool_move(x, y, Check::Succeeded)],
        seq![wlrctl_move(x, y)],
        seq![dotool(mouseto(x, y), Check::Started)],
    ]
}

/// The ways to press a button and hold it, or to release it.
pub open spec fn button_attempts(button: ClickButton, down: bool) -> Seq<Seq<StepView>> {
    seq![
        seq![
            ydotool_click(
                if down {
                    press_code(button)
                } else {
                    release_code(button)
                },
            ),
        ],
        seq![
            dotool(
                (if down {
                    "buttondown "@
                } else {
                    "buttonup "@
                }) + button_name(button) + "\n"@,
                Check::Started,
            ),
        ],
    ]
}

fn ydotool_wheel_step(direction: ScrollDirection, amount: i32) -> (step: Step)
    requires
        amount > i32::MIN,
    ensures
        step@ == ydotool_wheel(direction, amount as int),
{
    let (option, value) = match direction {
        ScrollDirection::Up => ("--wheel", decimal(amount)),
        ScrollDirection::Down => ("--wheel", decimal(-amount)),
        ScrollDirection::Left => ("--hwheel", decimal(-amount)),
        ScrollDirection::Right => ("--hwheel", decimal(amount)),
    };
    let mut args: Vec<String> = Vec::new();
    args.push(text("mousemove"));
    args.push(text(option));
    args.push(value);
    assert(texts(args@) =~= seq![
        "mousemove"@,
        wheel_option(direction),
        decimal_of(wheel_amount(direction, amount as int)),
    ]);
    run_step("ydotool", args)
}

fn dotool_scroll_text(x: i32, y: i32, direction: ScrollDirection, amount: i32) -> (script: String)
    ensures
        script@ == mouseto(x as int, y as int) + dotool_scroll_line(direction, amount as int)
            + "\n"@,
{
    let mut line = match direction {
        ScrollDirection::Up => text("scroll "),
        ScrollDirection::Down => text("scroll -"),
        ScrollDirection::Left => text("hscroll -"),
        ScrollDirection::Right => text("hscroll "),
    };
    line.append(decimal(amount).as_str());
    let mut script = mouseto_text(x, y);
    script.append(line.as_str());
    script.append("\n");
    script
}

fn wlrctl_scroll_step(direction: ScrollDirection, amount: i32) -> (step: Step)
    requires
        amount > i32::MIN,
    ensures
        step@ == wlrctl_scroll(direction, amount as int),
{
    let size: i32 = if amount < 0 {
        -amount
    } else {
        amount
    };
    let clicks: i32 = if size / WLRCTL_SCROLL_UNIT >= 1 {
        size / WLRCTL_SCROLL_UNIT
    } else {
        1
    };
    let mut args: Vec<String> = Vec::new();
    args.push(text("pointer"));
    args.push(text("scroll"));
    args.push(
        match direction {
            ScrollDirection::Up => text("up"),
            _ => text("down"),
        },
    );
    assert(texts(args@) =~= seq![
        "pointer"@,
        "scroll"@,
        if direction == ScrollDirection::Up {
            "up"@
        } else {
            "down"@
        },
    ]);
    let mut step = run_step("wlrctl", args);
    step.repeat = clicks as u32;
    step
}

/// The ways to scroll by `amount` in `direction` at (`x`, `y`), in the order
/// in which they are to be tried.
pub fn scroll_plan(
    x: i32,
    y: i32,
    direction: ScrollDirection,
    amount: i32,
    hyprland: Option<(i32, i32)>,
) -> (plan: Vec<Attempt>)
    requires
        reachable(x, y, hyprland),
        amount > i32::MIN,
    ensures
        plan_view(plan@) == scroll_attempts(x as int, y as int, direction, amount as int, hyprland),
{
    let mut plan: Vec<Attempt> = Vec::new();
    match hyprland {
        Some(offset) => {
            plan.push(
                pair(
                    hyprctl_move_step(x + offset.0, y + offset.1, SETTLE_MS),
                    ydotool_wheel_step(direction, amount),
                ),
            );
        },
        None => {},
    }
    plan.push(pair(ydotool_move_step(x, y, Check::Started), ydotool_wheel_step(direction, amount)));
    plan.push(single(dotool_step(dotool_scroll_text(x, y, direction, amount), Check::Succeeded)));
    match direction {
        ScrollDirection::Up | ScrollDirection::Down => {
            plan.push(single(wlrctl_scroll_step(direction, amount)));
        },
        _ => {},
    }
    plan
}

/// The ways to move the pointer to (`x`, `y`), in the order in which they
/// are to be tried.
pub fn move_plan(x: i32, y: i32, hyprland: Option<(i32, i32)>) -> (plan: Vec<Attempt>)
    requires
        reachable(x, y, hyprland),
    ensures
        plan_view(plan@) == move_attempts(x as int, y as int, hyprland),
{
    let mut plan: Vec<Attempt> = Vec::new();
    match hyprland {
        Some(offset) => {
            plan.push(single(hyprctl_move_step(x + offset.0, y + offset.1, 0)));
        },
        None => {},
    }
    plan.push(single(ydotool_move_step(x, y, Check::Succeeded)));
    plan.push(single(wlrctl_move_step(x, y)));
    plan.push(single(dotool_step(mouseto_text(x, y), Check::Started)));
    plan
}

/// The ways to press `button` and hold it (`down`), or to release it.
pub fn button_plan(button: ClickButton, down: bool) -> (plan: Vec<Attempt>)
    ensures
        plan_view(plan@) == button_attempts(button, down),
{
    let code = match (down, button) {
        (true, ClickButton::Left) => text("0x40"),
        (true, ClickButton::Right) => text("0x41"),
        (true, ClickButton::Middle) => text("0x42"),
        (false, ClickButton::Left) => text("0x80"),
        (false, ClickButton::Right) => text("0x81"),
        (false, ClickButton::Middle) => text("0x82"),
    };
    let mut script = if down {
        text("buttondown ")
    } else {
        text("buttonup ")
    };
    script.append(button_name_text(button));
    script.append("\n");
    let mut plan: Vec<Attempt> = Vec::new();
    plan.push(single(ydotool_click_step(code)));
    plan.push(single(dotool_step(script, Check::Started)));
    plan
}

/// What came of running a command.
#[derive(Debug, Clone, Copy, PartialEq, Eq, Structural)]
pub enum Report {
    /// The program could not be started, or its input could not be written.
    Failed,
    /// The program ran and ended, with success or without.
    Exited(bool),
}

/// Whether a report is good enough for a check.
pub open spec fn passes(check: Check, report: Report) -> bool {
    match report {
        Report::Failed => false,
        Report::Exited(success) => check == Check::Started || success,
    }
}

/// Whether a report is good enough for a check.
pub fn accepts(check: Check, report: Report) -> (good: bool)
    ensures
        good == passes(check, report),
{
    match report {
        Report::Failed => false,
        Report::Exited(success) => check == Check::Started || success,
    }
}

/// How far a plan has been carried out.
pub struct Progress {
    pub plan: Seq<Seq<StepView>>,
    /// The attempt that is being made.
    pub attempt: nat,
    /// The step of that attempt that is being taken.
    pub step: nat,
    /// How many of the step's runs are done.
    pub done: nat,
}

/// Whether there is nothing left to try.
pub open spec fn exhausted(p: Progress) -> bool {
    p.attempt >= p.plan.len()
}

/// Progress moved past the steps that have had all their runs.
pub open spec fn settled(p: Progress) -> Progress
    decreases
        if p.attempt < p.plan.len() && p.step < p.plan[p.attempt as int].len() {
            p.plan[p.attempt as int].len() - p.step
        } else {
            0
        },
{
    if p.attempt < p.plan.len() && p.step < p.plan[p.attempt as int].len() && p.done
        >= p.plan[p.attempt as int][p.step as int].repeat {
        settled(Progress { step: p.step + 1, done: 0, ..p })
    } else {
        p
    }
}

/// How a plan went, once that is known: `Some(true)` when an attempt has had
/// all its steps done, `Some(false)` when no attempt is left.
pub open spec fn outcome_of(p: Progress) -> Option<bool> {
    if exhausted(p) {
        Some(false)
    } else if p.step >= p.plan[p.attempt as int].len() {
        Some(true)
    } else {
        None
    }
}

/// The step that is to be run next, while the outcome is open.
pub open spec fn pending(p: Progress) -> Option<StepView> {
    if outcome_of(p) is None {
        Some(p.plan[p.attempt as int][p.step as int])
    } else {
        None
    }
}

/// Where a plan starts.
pub open spec fn started(plan: Seq<Seq<StepView>>) -> Progress {
    settled(Progress { plan, attempt: 0, step: 0, done: 0 })
}

/// Progress after a report on the pending step: a run that passes counts,
/// one that does not ends the attempt and the next attempt begins. Once the
/// outcome is known, reports change nothing.
pub open spec fn reported(p: Progress, report: Report) -> Progress {
    match pending(p) {
        None => p,
        Some(step) => if passes(step.check, report) {
            settled(Progress { done: p.done + 1, ..p })
        } else {
            settled(Progress { attempt: p.attempt + 1, step: 0, done: 0, ..p })
        },
    }
}

/// Carries out a plan: says which command to run next and takes reports.
pub struct Runner {
    plan: Vec<Attempt>,
    attempt: usize,
    step: usize,
    done: u32,
}

impl View for Runner {
    type V = Progress;

    closed spec fn view(&self) -> Progress {
        settled(
            Progress {
                plan: plan_view(self.plan@),
                attempt: self.attempt as nat,
                step: self.step as nat,
                done: self.done as nat,
            },
        )
    }
}

impl Runner {
    #[verifier::type_invariant]
    spec fn well_formed(&self) -> bool {
        &&& self.attempt <= self.plan.len()
        &&& self.attempt < self.plan.len() ==> self.step <= self.plan[self.attempt as int].steps.len()
    }

    /// The step and the number of its runs at which the progress stands,
    /// past the steps that have had all their runs.
    fn position(&self) -> (at: (usize, u32))
        ensures
            self@ == (Progress {
                plan: plan_view(self.plan@),
                attempt: self.attempt as nat,
                step: at.0 as nat,
                done: at.1 as nat,
            }),
            self.attempt <= self.plan.len(),
            self.attempt < self.plan.len() ==> {
                &&& at.0 <= self.plan[self.attempt as int].steps.len()
                &&& plan_view(self.plan@)[self.attempt as int] == self.plan[self.attempt as int]@
                &&& at.0 < self.plan[self.attempt as int].steps.len() ==> {
                    &&& at.1 < self.plan[self.attempt as int].steps[at.0 as int].repeat
                    &&& self.plan[self.attempt as int]@[at.0 as int]
                        == self.plan[self.attempt as int].steps[at.0 as int]@
                }
            },
    {
        proof {
            use_type_invariant(self);
        }
        if self.attempt >= self.plan.len() {
            return (self.step, self.done);
        }
        let steps = &self.plan[self.attempt].steps;
        let ghost views = plan_view(self.plan@);
        let mut step = self.step;
        let mut done = self.done;
        while step < steps.len() && done >= steps[step].repeat
            invariant
                self.attempt < self.plan.len(),
                steps == self.plan[self.attempt as int].steps,
                views == plan_view(self.plan@),
                views[self.attempt as int] == self.plan[self.attempt as int]@,
                step <= steps.len(),
                settled(
                    Progress {
                        plan: views,
                        attempt: self.attempt as nat,
                        step: step as nat,
                        done: done as nat,
                    },
                ) == self@,
            decreases steps.len() - step,
        {
            step += 1;
            done = 0;
        }
        proof {
            if step < steps.len() {
                assert(views[self.attempt as int][step as int] == steps[step as int]@);
            }
        }
        (step, done)
    }

    /// A runner at the start of `plan`.
    pub fn new(plan: Vec<Attempt>) -> (runner: Runner)
        ensures
            runner@ == started(plan_view(plan@)),
    {
        Runner { plan, attempt: 0, step: 0, done: 0 }
    }

    /// How the plan went, once that is known.
    pub fn outcome(&self) -> (outcome: Option<bool>)
        ensures
            outcome == outcome_of(self@),
    {
        let (step, _) = self.position();
        if self.attempt >= self.plan.len() {
            Some(false)
        } else if step >= self.plan[self.attempt].steps.len() {
            Some(true)
        } else {
            None
        }
    }

    /// The step that is to be run next, while the outcome is open.
    pub fn current(&self) -> (step: Option<&Step>)
        ensures
            match step {
                Some(s) => pending(self@) == Some(s@),
                None => pending(self@) is None,
            },
    {
        let (step, _) = self.position();
        if self.attempt >= self.plan.len() {
            None
        } else if step >= self.plan[self.attempt].steps.len() {
            None
        } else {
            Some(&self.plan[self.attempt].steps[step])
        }
    }

    /// Takes the report on one run of the pending step.
    pub fn report(&mut self, report: Report)
        ensures
            final(self)@ == reported(old(self)@, report),
    {
        let (step, done) = self.position();
        if self.attempt >= self.plan.len() {
            return ;
        }
        if step >= self.plan[self.attempt].steps.len() {
            return ;
        }
        let check = self.plan[self.attempt].steps[step].check;
        if accepts(check, report) {
            self.step = step;
            self.done = done + 1;
        } else {
            self.step = 0;
            self.done = 0;
            self.attempt = self.attempt + 1;
        }
    }
}

} // verus!
