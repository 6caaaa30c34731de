use vimium_linux::click::ClickButton;
use vimium_linux::config::ActionMode;
use vimium_linux::element::ClickableElement;
use vimium_linux::mode::{
    button_for, fallback_bus_address, filter_by_role, final_action, log_directive,
};

fn element(name: &str, role: &str) -> ClickableElement {
    ClickableElement {
        name: name.to_string(),
        role: role.to_string(),
        x: 1,
        y: 2,
        width: 3,
        height: 4,
    }
}

fn names(elements: &[ClickableElement]) -> Vec<&str> {
    elements.iter().map(|e| e.name.as_str()).collect()
}

#[test]
fn filter_by_role_keeps_matching_kinds_in_order() {
    let elements = vec![
        element("a", "PushButton"),
        element("b", "Link"),
        element("c", "ToggleButton"),
        element("d", "Entry"),
        element("e", "RadioButton"),
    ];
    assert_eq!(names(&filter_by_role(&elements, "button")), vec!["a", "c", "e"]);
    assert_eq!(names(&filter_by_role(&elements, "BUTTON")), vec!["a", "c", "e"]);
    assert_eq!(names(&filter_by_role(&elements, "link")), vec!["b"]);
    assert_eq!(names(&filter_by_role(&elements, "n")), vec!["a", "b", "c", "d", "e"]);
    assert_eq!(names(&filter_by_role(&elements, "")), vec!["a", "b", "c", "d", "e"]);
    assert_eq!(names(&filter_by_role(&elements, "tog")), vec!["c"]);
    assert!(filter_by_role(&elements, "buttons").is_empty());
    assert!(filter_by_role(&elements, "push button").is_empty());
    assert!(filter_by_role(&[], "button").is_empty());
    let kept = filter_by_role(&elements, "entry");
    assert_eq!(kept.len(), 1);
    assert_eq!((kept[0].x, kept[0].y, kept[0].width, kept[0].height), (1, 2, 3, 4));
    assert_eq!(kept[0].role, "Entry");
}

#[test]
fn the_modifier_action_wins() {
    assert_eq!(final_action(None, ActionMode::Click), ActionMode::Click);
    assert_eq!(final_action(None, ActionMode::Scroll), ActionMode::Scroll);
    assert_eq!(final_action(Some(ActionMode::RightClick), ActionMode::Click), ActionMode::RightClick);
    assert_eq!(final_action(Some(ActionMode::MiddleClick), ActionMode::RightClick), ActionMode::MiddleClick);
    assert_eq!(final_action(Some(ActionMode::Click), ActionMode::Drag), ActionMode::Click);
}

#[test]
fn buttons_of_actions() {
    assert_eq!(button_for(ActionMode::Click), ClickButton::Left);
    assert_eq!(button_for(ActionMode::RightClick), ClickButton::Right);
    assert_eq!(button_for(ActionMode::MiddleClick), ClickButton::Middle);
    assert_eq!(button_for(ActionMode::Scroll), ClickButton::Left);
    assert_eq!(button_for(ActionMode::Text), ClickButton::Left);
    assert_eq!(button_for(ActionMode::Drag), ClickButton::Left);
}

#[test]
fn log_directives() {
    assert_eq!(log_directive(0), "vimium_linux=warn");
    assert_eq!(log_directive(1), "vimium_linux=info");
    assert_eq!(log_directive(2), "vimium_linux=debug");
    assert_eq!(log_directive(3), "vimium_linux=trace");
    assert_eq!(log_directive(255), "vimium_linux=trace");
}

#[test]
fn bus_addresses() {
    assert_eq!(fallback_bus_address(Some("/run/user/1234")), "unix:path=/run/user/1234/at-spi/bus_0");
    assert_eq!(fallback_bus_address(Some("")), "unix:path=/at-spi/bus_0");
    assert_eq!(fallback_bus_address(None), "unix:path=/run/user/1000/at-spi/bus_0");
}
