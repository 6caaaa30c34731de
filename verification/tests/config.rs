use vimium_linux::config::{
    parse_color, ActionMode, BehaviorConfig, ColorConfig, Config, HintConfig, ScrollConfig,
};

#[test]
fn test_parse_color_rgb() {
    assert_eq!(parse_color("#ff0000"), (255, 0, 0, 255));
    assert_eq!(parse_color("#00ff00"), (0, 255, 0, 255));
    assert_eq!(parse_color("#0000ff"), (0, 0, 255, 255));
    assert_eq!(parse_color("ffffff"), (255, 255, 255, 255));
}

#[test]
fn test_parse_color_rgba() {
    assert_eq!(parse_color("#ff000080"), (255, 0, 0, 128));
    assert_eq!(parse_color("#000000b4"), (0, 0, 0, 180));
}

#[test]
fn test_default_config() {
    let config = Config::default();
    assert!(config.behavior.auto_select);
    assert_eq!(config.hints.font_size, 14);
}

#[test]
fn parse_color_of_wrong_length_is_opaque_black() {
    assert_eq!(parse_color(""), (0, 0, 0, 255));
    assert_eq!(parse_color("#"), (0, 0, 0, 255));
    assert_eq!(parse_color("#fff"), (0, 0, 0, 255));
    assert_eq!(parse_color("#ff00000"), (0, 0, 0, 255));
    assert_eq!(parse_color("#ff0000800"), (0, 0, 0, 255));
}

#[test]
fn parse_color_takes_both_cases_and_any_number_of_hashes() {
    assert_eq!(parse_color("#AbCdEf"), (0xab, 0xcd, 0xef, 255));
    assert_eq!(parse_color("###102030"), (0x10, 0x20, 0x30, 255));
    assert_eq!(parse_color("##10203040"), (0x10, 0x20, 0x30, 0x40));
    // A hash that is not in front counts as a character of the colour.
    assert_eq!(parse_color("10#203"), (0x10, 0, 3, 255));
}

#[test]
fn parse_color_pair_that_is_no_number_gives_the_fallback() {
    assert_eq!(parse_color("#gg1122"), (0, 0x11, 0x22, 255));
    assert_eq!(parse_color("#11zz22"), (0x11, 0, 0x22, 255));
    assert_eq!(parse_color("#1122 3"), (0x11, 0x22, 0, 255));
    assert_eq!(parse_color("#112233xx"), (0x11, 0x22, 0x33, 255));
    assert_eq!(parse_color("#11223300"), (0x11, 0x22, 0x33, 0));
    assert_eq!(parse_color("#-1-2-3"), (0, 0, 0, 255));
}

#[test]
fn parse_color_takes_a_plus_sign_before_one_digit() {
    assert_eq!(parse_color("#+f+a+0"), (15, 10, 0, 255));
    assert_eq!(parse_color("#000000+9"), (0, 0, 0, 9));
    assert_eq!(parse_color("#++0000"), (0, 0, 0, 255));
    assert_eq!(parse_color("#f+0000"), (0, 0, 0, 255));
}

#[test]
fn parse_color_of_text_outside_ascii() {
    // Two characters of two bytes each, then two digits: six bytes.
    assert_eq!(parse_color("éé12"), (0, 0, 0x12, 255));
    assert_eq!(parse_color("#12éé"), (0x12, 0, 0, 255));
}

#[test]
fn default_values() {
    let hints = HintConfig::default();
    assert_eq!(hints.chars, "asdfghjklqwertyuiopzxcvbnm");
    assert_eq!(hints.font_size, 14);
    assert_eq!(hints.font_family, "monospace");
    assert_eq!(hints.padding, 4);
    let colors = ColorConfig::default();
    assert_eq!(colors.background, "#00000080");
    assert_eq!(colors.hint_bg, "#ffffff");
    assert_eq!(colors.hint_text, "#000000");
    assert_eq!(colors.hint_text_matched, "#888888");
    assert_eq!(colors.input_bg, "#ffffffee");
    assert_eq!(colors.input_text, "#000000");
    let behavior = BehaviorConfig::default();
    assert!(behavior.auto_select);
    assert!(behavior.exit_on_click);
    assert_eq!(behavior.default_mode, ActionMode::Click);
    assert!(!behavior.show_element_names);
    let scroll = ScrollConfig::default();
    assert_eq!(scroll.scroll_step, 50);
    assert_eq!(scroll.page_step, 500);
    assert!(scroll.smooth);
    assert_eq!(ActionMode::default(), ActionMode::Click);
}

#[test]
fn default_colours_parse() {
    let colors = Config::default().colors;
    assert_eq!(parse_color(&colors.background), (0, 0, 0, 128));
    assert_eq!(parse_color(&colors.hint_bg), (255, 255, 255, 255));
    assert_eq!(parse_color(&colors.hint_text_matched), (0x88, 0x88, 0x88, 255));
    assert_eq!(parse_color(&colors.input_bg), (255, 255, 255, 0xee));
}

#[test]
fn config_clone_keeps_every_field() {
    let mut config = Config::default();
    config.hints.chars = "xyz".to_string();
    config.scroll.page_step = 7;
    config.behavior.default_mode = ActionMode::Drag;
    let copy = config.clone();
    assert_eq!(copy.hints.chars, "xyz");
    assert_eq!(copy.scroll.page_step, 7);
    assert_eq!(copy.behavior.default_mode, ActionMode::Drag);
    assert_eq!(copy.colors.input_bg, "#ffffffee");
}
