use vimium_linux::click::{
    accepts, button_plan, click_plan, move_plan, scroll_plan, Attempt, Check, ClickButton, Report,
    Runner, ScrollDirection, Step,
};

fn command_line(step: &Step) -> String {
    let mut line = step.program.clone();
    for arg in &step.args {
        line.push(' ');
        line.push_str(arg);
    }
    line
}

fn lines(plan: &[Attempt]) -> Vec<Vec<String>> {
    plan.iter().map(|a| a.steps.iter().map(command_line).collect()).collect()
}

fn step(program: &str, check: Check, repeat: u32) -> Step {
    Step {
        program: program.to_string(),
        args: vec![],
        stdin: None,
        check,
        repeat,
        pause_ms: 0,
    }
}

/// Runs a plan; `result` says what comes of each command.
fn run_with(plan: Vec<Attempt>, result: &dyn Fn(&Step) -> Report) -> (Vec<String>, Option<bool>) {
    let mut runner = Runner::new(plan);
    let mut log = Vec::new();
    loop {
        let report = match runner.current() {
            Some(step) => {
                log.push(command_line(step));
                result(step)
            }
            None => break,
        };
        assert!(runner.outcome().is_none());
        assert!(log.len() < 10_000);
        runner.report(report);
    }
    (log, runner.outcome())
}

#[test]
fn click_plan_without_hyprland() {
    let plan = click_plan(120, 45, ClickButton::Left, None);
    assert_eq!(
        lines(&plan),
        vec![
            vec!["ydotool mousemove --absolute -x 120 -y 45", "ydotool click 0xC0"],
            vec!["wlrctl pointer move 120 45", "wlrctl pointer click left"],
            vec!["dotool"],
            vec!["ydotool mousemove --absolute -x 120 -y 45", "wlrctl pointer click left"],
        ]
    );
    assert_eq!(plan[2].steps[0].stdin.as_deref(), Some("mouseto 120 45\nclick left\n"));
    assert!(plan[0].steps.iter().all(|s| s.stdin.is_none() && s.repeat == 1 && s.pause_ms == 0));
    assert!(plan.iter().take(3).all(|a| a.steps.iter().all(|s| s.check == Check::Succeeded)));
    assert_eq!(plan[3].steps[0].check, Check::Started);
    assert_eq!(plan[3].steps[1].check, Check::Succeeded);
}

#[test]
fn click_plan_on_hyprland_adds_the_monitor_offset() {
    let plan = click_plan(10, 20, ClickButton::Right, Some((1920, -300)));
    let all = lines(&plan);
    assert_eq!(all.len(), 5);
    assert_eq!(all[0], vec!["hyprctl dispatch movecursor 1930 -280", "ydotool click 0xC1"]);
    assert_eq!(all[1], vec!["ydotool mousemove --absolute -x 10 -y 20", "ydotool click 0xC1"]);
    assert_eq!(all[2], vec!["wlrctl pointer move 10 20", "wlrctl pointer click right"]);
    assert_eq!(plan[0].steps[0].pause_ms, 10);
    assert_eq!(plan[0].steps[1].pause_ms, 0);
    assert_eq!(plan[3].steps[0].stdin.as_deref(), Some("mouseto 10 20\nclick right\n"));
    let middle = click_plan(-7, 0, ClickButton::Middle, Some((0, 0)));
    assert_eq!(
        lines(&middle)[0],
        vec!["hyprctl dispatch movecursor -7 0", "ydotool click 0xC2"]
    );
    assert_eq!(lines(&middle)[4][1], "wlrctl pointer click middle");
}

#[test]
fn decimal_arguments() {
    let plan = move_plan(i32::MAX, i32::MIN, None);
    assert_eq!(
        lines(&plan)[0],
        vec!["ydotool mousemove --absolute -x 2147483647 -y -2147483648"]
    );
    let plan = move_plan(0, -1, None);
    assert_eq!(lines(&plan)[1], vec!["wlrctl pointer move 0 -1"]);
    let plan = move_plan(1000, 909, None);
    assert_eq!(plan[2].steps[0].stdin.as_deref(), Some("mouseto 1000 909\n"));
}

#[test]
fn scroll_plans() {
    let plan = scroll_plan(5, 6, ScrollDirection::Down, 50, None);
    assert_eq!(
        lines(&plan),
        vec![
            vec!["ydotool mousemove --absolute -x 5 -y 6", "ydotool mousemove --wheel -50"],
            vec!["dotool"],
            vec!["wlrctl pointer scroll down"],
        ]
    );
    assert_eq!(plan[0].steps[0].check, Check::Started);
    assert_eq!(plan[0].steps[1].check, Check::Succeeded);
    assert_eq!(plan[1].steps[0].stdin.as_deref(), Some("mouseto 5 6\nscroll -50\n"));
    assert_eq!(plan[2].steps[0].repeat, 3);

    let plan = scroll_plan(5, 6, ScrollDirection::Up, 500, Some((100, 200)));
    assert_eq!(
        lines(&plan)[0],
        vec!["hyprctl dispatch movecursor 105 206", "ydotool mousemove --wheel 500"]
    );
    assert_eq!(plan[0].steps[0].pause_ms, 10);
    assert_eq!(plan[2].steps[0].stdin.as_deref(), Some("mouseto 5 6\nscroll 500\n"));
    assert_eq!(lines(&plan)[3], vec!["wlrctl pointer scroll up"]);
    assert_eq!(plan[3].steps[0].repeat, 33);

    let plan = scroll_plan(5, 6, ScrollDirection::Left, 50, None);
    assert_eq!(lines(&plan).len(), 2);
    assert_eq!(lines(&plan)[0][1], "ydotool mousemove --hwheel -50");
    assert_eq!(plan[1].steps[0].stdin.as_deref(), Some("mouseto 5 6\nhscroll -50\n"));

    let plan = scroll_plan(5, 6, ScrollDirection::Right, 50, None);
    assert_eq!(lines(&plan).len(), 2);
    assert_eq!(lines(&plan)[0][1], "ydotool mousemove --hwheel 50");
    assert_eq!(plan[1].steps[0].stdin.as_deref(), Some("mouseto 5 6\nhscroll 50\n"));
}

#[test]
fn scroll_amounts_at_the_edges() {
    for (amount, clicks) in [(0, 1), (1, 1), (14, 1), (15, 1), (29, 1), (30, 2), (-30, 2), (-44, 2), (-45, 3), (10000, 666), (i32::MAX, 143165576)] {
        let plan = scroll_plan(0, 0, ScrollDirection::Up, amount, None);
        assert_eq!(plan[2].steps[0].repeat, clicks);
    }
    let plan = scroll_plan(0, 0, ScrollDirection::Down, -5, None);
    assert_eq!(lines(&plan)[0][1], "ydotool mousemove --wheel 5");
    assert_eq!(plan[1].steps[0].stdin.as_deref(), Some("mouseto 0 0\nscroll --5\n"));
    let plan = scroll_plan(0, 0, ScrollDirection::Left, -2147483647, None);
    assert_eq!(lines(&plan)[0][1], "ydotool mousemove --hwheel 2147483647");
}

#[test]
fn move_plans() {
    let plan = move_plan(3, 4, Some((10, 20)));
    assert_eq!(
        lines(&plan),
        vec![
            vec!["hyprctl dispatch movecursor 13 24"],
            vec!["ydotool mousemove --absolute -x 3 -y 4"],
            vec!["wlrctl pointer move 3 4"],
            vec!["dotool"],
        ]
    );
    assert_eq!(plan[0].steps[0].pause_ms, 0);
    assert_eq!(plan[3].steps[0].check, Check::Started);
    assert_eq!(plan[3].steps[0].stdin.as_deref(), Some("mouseto 3 4\n"));
    assert_eq!(lines(&move_plan(3, 4, None)).len(), 3);
}

#[test]
fn button_plans() {
    let cases = [
        (ClickButton::Left, true, "0x40", "buttondown left\n"),
        (ClickButton::Right, true, "0x41", "buttondown right\n"),
        (ClickButton::Middle, true, "0x42", "buttondown middle\n"),
        (ClickButton::Left, false, "0x80", "buttonup left\n"),
        (ClickButton::Right, false, "0x81", "buttonup right\n"),
        (ClickButton::Middle, false, "0x82", "buttonup middle\n"),
    ];
    for (button, down, code, script) in cases {
        let plan = button_plan(button, down);
        assert_eq!(lines(&plan), vec![vec![format!("ydotool click {}", code)], vec!["dotool".to_string()]]);
        assert_eq!(plan[0].steps[0].check, Check::Succeeded);
        assert_eq!(plan[1].steps[0].check, Check::Started);
        assert_eq!(plan[1].steps[0].stdin.as_deref(), Some(script));
    }
}

#[test]
fn runner_stops_at_the_first_attempt_that_works() {
    let plan = click_plan(1, 2, ClickButton::Left, Some((0, 0)));
    let (log, outcome) = run_with(plan, &|step| Report::Exited(step.program == "wlrctl"));
    assert_eq!(outcome, Some(true));
    assert_eq!(
        log,
        vec![
            "hyprctl dispatch movecursor 1 2",
            "ydotool mousemove --absolute -x 1 -y 2",
            "wlrctl pointer move 1 2",
            "wlrctl pointer click left",
        ]
    );
    let plan = click_plan(1, 2, ClickButton::Left, None);
    let (log, outcome) = run_with(plan, &|_| Report::Exited(true));
    assert_eq!(outcome, Some(true));
    assert_eq!(log, vec!["ydotool mousemove --absolute -x 1 -y 2", "ydotool click 0xC0"]);
}

#[test]
fn runner_fails_when_nothing_works() {
    let plan = click_plan(1, 2, ClickButton::Left, None);
    let (log, outcome) = run_with(plan, &|_| Report::Failed);
    assert_eq!(outcome, Some(false));
    assert_eq!(
        log,
        vec![
            "ydotool mousemove --absolute -x 1 -y 2",
            "wlrctl pointer move 1 2",
            "dotool",
            "ydotool mousemove --absolute -x 1 -y 2",
        ]
    );
    let plan = click_plan(1, 2, ClickButton::Left, None);
    let (log, outcome) = run_with(plan, &|_| Report::Exited(false));
    assert_eq!(outcome, Some(false));
    // The last attempt goes on after its first command, which only has to start.
    assert_eq!(log.len(), 5);
    assert_eq!(log[4], "wlrctl pointer click left");
}

#[test]
fn a_step_that_only_has_to_start_passes_whatever_its_end() {
    let plan = move_plan(1, 2, None);
    let (log, outcome) = run_with(plan, &|step| {
        if step.program == "dotool" { Report::Exited(false) } else { Report::Failed }
    });
    assert_eq!(outcome, Some(true));
    assert_eq!(log.len(), 3);
    let plan = move_plan(1, 2, None);
    let (_, outcome) = run_with(plan, &|_| Report::Failed);
    assert_eq!(outcome, Some(false));
}

#[test]
fn runner_repeats_a_step_until_it_has_had_its_runs() {
    let plan = scroll_plan(0, 0, ScrollDirection::Up, 45, None);
    let (log, outcome) = run_with(plan, &|step| Report::Exited(step.program == "wlrctl"));
    assert_eq!(outcome, Some(true));
    assert_eq!(
        log,
        vec![
            "ydotool mousemove --absolute -x 0 -y 0",
            "ydotool mousemove --wheel 45",
            "dotool",
            "wlrctl pointer scroll up",
            "wlrctl pointer scroll up",
            "wlrctl pointer scroll up",
        ]
    );
    // A run that fails ends the attempt at once.
    let count = std::cell::Cell::new(0);
    let plan = scroll_plan(0, 0, ScrollDirection::Up, 45, None);
    let (log, outcome) = run_with(plan, &|step| {
        if step.program == "wlrctl" {
            count.set(count.get() + 1);
            Report::Exited(count.get() < 2)
        } else {
            Report::Failed
        }
    });
    assert_eq!(outcome, Some(false));
    assert_eq!(log.len(), 4);
}

#[test]
fn runner_on_plans_of_odd_shape() {
    // No attempt: nothing to run, the plan has failed.
    let mut runner = Runner::new(vec![]);
    assert!(runner.current().is_none());
    assert_eq!(runner.outcome(), Some(false));
    runner.report(Report::Exited(true));
    assert_eq!(runner.outcome(), Some(false));
    // An attempt without steps is done at once.
    let runner = Runner::new(vec![Attempt { steps: vec![] }, Attempt { steps: vec![step("a", Check::Succeeded, 1)] }]);
    assert!(runner.current().is_none());
    assert_eq!(runner.outcome(), Some(true));
    // A step that is to be run no times is passed over.
    let plan = vec![Attempt {
        steps: vec![
            step("zero", Check::Succeeded, 0),
            step("one", Check::Succeeded, 1),
            step("none", Check::Succeeded, 0),
            step("two", Check::Succeeded, 2),
            step("never", Check::Succeeded, 0),
        ],
    }];
    let (log, outcome) = run_with(plan, &|_| Report::Exited(true));
    assert_eq!(log, vec!["one", "two", "two"]);
    assert_eq!(outcome, Some(true));
    let plan = vec![
        Attempt { steps: vec![step("a", Check::Succeeded, 1)] },
        Attempt { steps: vec![step("zero", Check::Succeeded, 0)] },
        Attempt { steps: vec![step("b", Check::Succeeded, 1)] },
    ];
    let (log, outcome) = run_with(plan, &|_| Report::Failed);
    assert_eq!(log, vec!["a"]);
    assert_eq!(outcome, Some(true));
}

#[test]
fn reports_after_the_end_change_nothing() {
    let mut runner = Runner::new(vec![Attempt { steps: vec![step("a", Check::Succeeded, 1)] }, Attempt { steps: vec![step("b", Check::Succeeded, 1)] }]);
    assert_eq!(runner.current().unwrap().program, "a");
    runner.report(Report::Exited(true));
    assert_eq!(runner.outcome(), Some(true));
    runner.report(Report::Failed);
    runner.report(Report::Exited(false));
    assert_eq!(runner.outcome(), Some(true));
    assert!(runner.current().is_none());
}

#[test]
fn what_counts_as_done() {
    assert!(accepts(Check::Succeeded, Report::Exited(true)));
    assert!(!accepts(Check::Succeeded, Report::Exited(false)));
    assert!(!accepts(Check::Succeeded, Report::Failed));
    assert!(accepts(Check::Started, Report::Exited(true)));
    assert!(accepts(Check::Started, Report::Exited(false)));
    assert!(!accepts(Check::Started, Report::Failed));
}
