//! Configuration values and their defaults, and the colour notation that the
//! configuration uses.

use vstd::prelude::*;
use vstd::string::{StringExecFns, StringSliceAdditionalSpecFns};

verus! {

/// What is done with the selected element.
#[derive(Debug, Clone, Copy, PartialEq, Eq, Structural)]
pub enum ActionMode {
    /// An ordinary click.
    Click,
    /// A click with the right button.
    RightClick,
    /// A click with the middle button.
    MiddleClick,
    /// Scrolling at the element.
    Scroll,
    /// Focusing a text field.
    Text,
    /// Dragging.
    Drag,
}

impl Default for ActionMode {
    fn default() -> (mode: Self)
        ensures
            mode == ActionMode::Click,
    {
        ActionMode::Click
    }
}

/// How hints are drawn.
#[derive(Debug)]
pub struct HintConfig {
    /// The characters that labels are made of, in order of preference.
    pub chars: String,
    /// Font size in pixels.
    pub font_size: u32,
    /// Font family.
    pub font_family: String,
    /// Padding inside a hint box, in pixels.
    pub padding: u32,
}

/// Colours, each written as `#RRGGBB` or `#RRGGBBAA`.
#[derive(Debug)]
pub struct ColorConfig {
    /// Background of the overlay.
    pub background: String,
    /// Background of a hint box.
    pub hint_bg: String,
    /// Text of a hint, the part not typed yet.
    pub hint_text: String,
    /// Text of a hint, the part typed already.
    pub hint_text_matched: String,
    /// Background of the input display.
    pub input_bg: String,
    /// Text of the input display.
    pub input_text: String,
}

/// How selection behaves.
#[derive(Debug)]
pub struct BehaviorConfig {
    /// Select as soon as the typed characters are the label of one element.
    pub auto_select: bool,
    /// Leave after the click.
    pub exit_on_click: bool,
    /// What is done with the selected element when nothing else is asked for.
    pub default_mode: ActionMode,
    /// Show the names of the elements beside the hints.
    pub show_element_names: bool,
}

/// How scroll mode behaves.
#[derive(Debug)]
pub struct ScrollConfig {
    /// Pixels to scroll per key press.
    pub scroll_step: i32,
    /// Pixels to scroll per page.
    pub page_step: i32,
    /// Scroll in several small steps.
    pub smooth: bool,
}

/// The whole configuration.
#[derive(Debug)]
pub struct Config {
    pub hints: HintConfig,
    pub colors: ColorConfig,
    pub behavior: BehaviorConfig,
    pub scroll: ScrollConfig,
}

impl Clone for HintConfig {
    fn clone(&self) -> (copy: Self)
        ensures
            copy == *self,
    {
        HintConfig {
            chars: self.chars.clone(),
            font_size: self.font_size,
            font_family: self.font_family.clone(),
            padding: self.padding,
        }
    }
}

impl Clone for ColorConfig {
    fn clone(&self) -> (copy: Self)
        ensures
            copy == *self,
    {
        ColorConfig {
            background: self.background.clone(),
            hint_bg: self.hint_bg.clone(),
            hint_text: self.hint_text.clone(),
            hint_text_matched: self.hint_text_matched.clone(),
            input_bg: self.input_bg.clone(),
            input_text: self.input_text.clone(),
        }
    }
}

impl Clone for BehaviorConfig {
    fn clone(&self) -> (copy: Self)
        ensures
            copy == *self,
    {
        BehaviorConfig {
            auto_select: self.auto_select,
            exit_on_click: self.exit_on_click,
            default_mode: self.default_mode,
            show_element_names: self.show_element_names,
        }
    }
}

impl Clone for ScrollConfig {
    fn clone(&self) -> (copy: Self)
        ensures
            copy == *self,
    {
        ScrollConfig {
            scroll_step: self.scroll_step,
            page_step: self.page_step,
            smooth: self.smooth,
        }
    }
}

impl Clone for Config {
    fn clone(&self) -> (copy: Self)
        ensures
            copy == *self,
    {
        Config {
            hints: self.hints.clone(),
            colors: self.colors.clone(),
            behavior: self.behavior.clone(),
            scroll: self.scroll.clone(),
        }
    }
}

impl Default for HintConfig {
    fn default() -> (config: Self)
        ensures
            config.chars@ == "asdfghjklqwertyuiopzxcvbnm"@,
            config.font_size == 14,
            config.font_family@ == "monospace"@,
            config.padding == 4,
    {
        HintConfig {
            chars: String::from_str("asdfghjklqwertyuiopzxcvbnm"),
            font_size: 14,
            font_family: String::from_str("monospace"),
            padding: 4,
        }
    }
}

impl Default for ColorConfig {
    fn default() -> (config: Self)
        ensures
            config.background@ == "#00000080"@,
            config.hint_bg@ == "#ffffff"@,
            config.hint_text@ == "#000000"@,
            config.hint_text_matched@ == "#888888"@,
            config.input_bg@ == "#ffffffee"@,
            config.input_text@ == "#000000"@,
    {
        ColorConfig {
            background: String::from_str("#00000080"),
            hint_bg: String::from_str("#ffffff"),
            hint_text: String::from_str("#000000"),
            hint_text_matched: String::from_str("#888888"),
            input_bg: String::from_str("#ffffffee"),
            input_text: String::from_str("#000000"),
        }
    }
}

impl Default for BehaviorConfig {
    fn default() -> (config: Self)
        ensures
            config.auto_select,
            config.exit_on_click,
            config.default_mode == ActionMode::Click,
            !config.show_element_names,
    {
        BehaviorConfig {
            auto_select: true,
            exit_on_click: true,
            default_mode: ActionMode::Click,
            show_element_names: false,
        }
    }
}

impl Default for ScrollConfig {
    fn default() -> (config: Self)
        ensures
            config.scroll_step == 50,
            config.page_step == 500,
            config.smooth,
    {
        ScrollConfig { scroll_step: 50, page_step: 500, smooth: true }
    }
}

impl Default for Config {
    fn default() -> (config: Self)
        ensures
            config.hints.chars@ == "asdfghjklqwertyuiopzxcvbnm"@,
            config.hints.font_size == 14,
            config.hints.font_family@ == "monospace"@,
            config.hints.padding == 4,
            config.colors.background@ == "#00000080"@,
            config.colors.hint_bg@ == "#ffffff"@,
            config.colors.hint_text@ == "#000000"@,
            config.colors.hint_text_matched@ == "#888888"@,
            config.colors.input_bg@ == "#ffffffee"@,
            config.colors.input_text@ == "#000000"@,
            config.behavior.auto_select,
            config.behavior.exit_on_click,
            config.behavior.default_mode == ActionMode::Click,
            !config.behavior.show_element_names,
            config.scroll.scroll_step == 50,
            config.scroll.page_step == 500,
            config.scroll.smooth,
    {
        Config {
            hints: HintConfig::default(),
            colors: ColorConfig::default(),
            behavior: BehaviorConfig::default(),
            scroll: ScrollConfig::default(),
        }
    }
}

/// The byte `#`.
pub const HASH: u8 = 0x23;

/// The byte `+`.
pub const PLUS: u8 = 0x2b;

/// The value of a hexadecimal digit, in either case.
pub open spec fn hex_value(byte: u8) -> Option<int> {
    if 0x30 <= byte <= 0x39 {
        Some(byte - 0x30)
    } else if 0x61 <= byte <= 0x66 {
        Some(byte - 0x61 + 10)
    } else if 0x41 <= byte <= 0x46 {
        Some(byte - 0x41 + 10)
    } else {
        None
    }
}

/// The number that two bytes denote in base sixteen: two digits, or a plus
/// sign and one digit.
pub open spec fn hex_pair(high: u8, low: u8) -> Option<int> {
    if high == PLUS {
        hex_value(low)
    } else {
        match (hex_value(high), hex_value(low)) {
            (Some(h), Some(l)) => Some(16 * h + l),
            _ => None,
        }
    }
}

/// The bytes that are left when every leading `#` is taken away.
pub open spec fn strip_hashes(bytes: Seq<u8>) -> Seq<u8>
    decreases bytes.len(),
{
    if bytes.len() > 0 && bytes[0] == HASH {
        strip_hashes(bytes.drop_first())
    } else {
        bytes
    }
}

/// The component that the two bytes at `at` denote, or `fallback` where they
/// denote none.
pub open spec fn component(hex: Seq<u8>, at: int, fallback: int) -> int {
    match hex_pair(hex[at], hex[at + 1]) {
        Some(value) => value,
        None => fallback,
    }
}

/// The colour that a text denotes, as red, green, blue and alpha.
///
/// After any leading `#`, six bytes are red, green and blue with full alpha,
/// eight bytes are red, green, blue and alpha, and anything else is opaque
/// black. A pair of bytes that is no number gives 0, for alpha 255.
pub open spec fn color_of(bytes: Seq<u8>) -> (int, int, int, int) {
    let hex = strip_hashes(bytes);
    if hex.len() == 6 {
        (component(hex, 0, 0), component(hex, 2, 0), component(hex, 4, 0), 255)
    } else if hex.len() == 8 {
        (component(hex, 0, 0), component(hex, 2, 0), component(hex, 4, 0), component(hex, 6, 255))
    } else {
        (0, 0, 0, 255)
    }
}

/// The value of a hexadecimal digit.
fn digit(byte: u8) -> (value: Option<u8>)
    ensures
        value is Some <==> hex_value(byte) is Some,
        value is Some ==> value->0 == hex_value(byte)->0,
        value is Some ==> value->0 < 16,
{
    if 0x30 <= byte && byte <= 0x39 {
        Some(byte - 0x30)
    } else if 0x61 <= byte && byte <= 0x66 {
        Some(byte - 0x61 + 10)
    } else if 0x41 <= byte && byte <= 0x46 {
        Some(byte - 0x41 + 10)
    } else {
        None
    }
}

/// The number that two bytes denote in base sixteen.
fn pair(high: u8, low: u8) -> (value: Option<u8>)
    ensures
        value is Some <==> hex_pair(high, low) is Some,
        value is Some ==> value->0 == hex_pair(high, low)->0,
{
    if high == PLUS {
        digit(low)
    } else {
        match (digit(high), digit(low)) {
            (Some(h), Some(l)) => Some(16 * h + l),
            _ => None,
        }
    }
}

/// The component at `at` of the bytes from `start` on.
fn component_at(bytes: &[u8], start: usize, at: usize, fallback: u8) -> (value: u8)
    requires
        start + at + 1 < bytes.len(),
    ensures
        value == component(bytes@.subrange(start as int, bytes.len() as int), at as int, fallback as int),
{
    match pair(bytes[start + at], bytes[start + at + 1]) {
        Some(value) => value,
        None => fallback,
    }
}

/// Reads a colour in hexadecimal notation, with or without a leading `#`.
pub fn parse_color(hex: &str) -> (rgba: (u8, u8, u8, u8))
    ensures
        (rgba.0 as int, rgba.1 as int, rgba.2 as int, rgba.3 as int) == color_of(hex.spec_bytes()),
{
    let bytes = hex.as_bytes();
    let mut start: usize = 0;
    assert(bytes@.subrange(0, bytes.len() as int) =~= bytes@);
    while start < bytes.len() && bytes[start] == HASH
        invariant
            start <= bytes.len(),
            strip_hashes(bytes@) == strip_hashes(bytes@.subrange(start as int, bytes.len() as int)),
        decreases bytes.len() - start,
    {
        assert(bytes@.subrange(start as int, bytes.len() as int).drop_first() =~= bytes@.subrange(
            start + 1,
            bytes.len() as int,
        ));
        start += 1;
    }
    let len: usize = bytes.len() - start;
    if len == 6 {
        let r = component_at(bytes, start, 0, 0);
        let g = component_at(bytes, start, 2, 0);
        let b = component_at(bytes, start, 4, 0);
        (r, g, b, 255)
    } else if len == 8 {
        let r = component_at(bytes, start, 0, 0);
        let g = component_at(bytes, start, 2, 0);
        let b = component_at(bytes, start, 4, 0);
        let a = component_at(bytes, start, 6, 255);
        (r, g, b, a)
    } else {
        (0, 0, 0, 255)
    }
}

} // verus!
