//! Selection by typing: the state of one session and how each key changes it.

use crate::config::ActionMode;
use crate::hints::{
    exactly_matched, find_exact_match, find_unique_match, uniquely_matched, with_prefix,
    HintedElement,
};
use crate::text::lowercase_of;
use vstd::prelude::*;

verus! {

/// The key symbol of the Escape key.
pub const KEY_ESCAPE: u32 = 0xff1b;

/// The key symbol of the Backspace key.
pub const KEY_BACKSPACE: u32 = 0xff08;

/// The key symbol of the Return key.
pub const KEY_RETURN: u32 = 0xff0d;

/// The modifier keys that selection looks at.
#[derive(Debug, Clone, Copy, PartialEq, Eq, Structural)]
pub struct Modifiers {
    pub shift: bool,
    pub ctrl: bool,
}

impl Default for Modifiers {
    fn default() -> (modifiers: Self)
        ensures
            !modifiers.shift,
            !modifiers.ctrl,
    {
        Modifiers { shift: false, ctrl: false }
    }
}

/// How a session ended.
#[derive(Debug)]
pub enum SelectionResult {
    /// An element was selected, maybe with an action that overrides the
    /// caller's.
    Selected(HintedElement, Option<ActionMode>),
    /// The session was cancelled.
    Cancelled,
}

impl Clone for SelectionResult {
    fn clone(&self) -> (copy: Self)
        ensures
            copy == *self,
    {
        match self {
            SelectionResult::Selected(element, action) => SelectionResult::Selected(
                element.clone(),
                *action,
            ),
            SelectionResult::Cancelled => SelectionResult::Cancelled,
        }
    }
}

/// The state of one selection session.
#[derive(Debug)]
pub struct SelectionState {
    /// The candidates with their labels.
    pub elements: Vec<HintedElement>,
    /// What has been typed so far.
    pub input_buffer: String,
    /// The modifier keys as last reported.
    pub modifiers: Modifiers,
    /// Whether a typed character that completes a label selects at once.
    pub auto_select: bool,
    /// How the session ended; `None` while it goes on.
    pub result: Option<SelectionResult>,
}

/// A session as mathematical values.
pub struct SelectionView {
    pub elements: Seq<HintedElement>,
    pub buffer: Seq<char>,
    pub modifiers: Modifiers,
    pub auto_select: bool,
    pub result: Option<SelectionResult>,
}

impl View for SelectionState {
    type V = SelectionView;

    open spec fn view(&self) -> SelectionView {
        SelectionView {
            elements: self.elements@,
            buffer: self.input_buffer@,
            modifiers: self.modifiers,
            auto_select: self.auto_select,
            result: self.result,
        }
    }
}

/// The character that a key symbol types: a lowercase letter, a digit or a
/// semicolon. Other keys type nothing.
pub open spec fn key_char(keysym: u32) -> Option<char> {
    if 0x61 <= keysym <= 0x7a || 0x30 <= keysym <= 0x39 || keysym == 0x3b {
        Some(keysym as char)
    } else {
        None
    }
}

/// The action that the held modifier keys ask for: shift asks for a right
/// click, control without shift for a middle click.
pub open spec fn action_override(modifiers: Modifiers) -> Option<ActionMode> {
    if modifiers.shift {
        Some(ActionMode::RightClick)
    } else if modifiers.ctrl {
        Some(ActionMode::MiddleClick)
    } else {
        None
    }
}

/// The element that `wanted` selects outright, if any.
pub open spec fn exact_choice(elements: Seq<HintedElement>, wanted: Seq<char>) -> Option<
    HintedElement,
> {
    if exactly_matched(elements, wanted) {
        Some(with_prefix(elements, wanted)[0])
    } else {
        None
    }
}

/// The only element whose label starts with `wanted`, if there is just one.
pub open spec fn unique_choice(elements: Seq<HintedElement>, wanted: Seq<char>) -> Option<
    HintedElement,
> {
    if uniquely_matched(elements, wanted) {
        Some(with_prefix(elements, wanted)[0])
    } else {
        None
    }
}

/// The session ended with `element`, under the modifiers held at this moment.
pub open spec fn selected(s: SelectionView, element: HintedElement) -> SelectionView {
    SelectionView {
        result: Some(SelectionResult::Selected(element, action_override(s.modifiers))),
        ..s
    }
}

/// The session after the character `c` was typed.
pub open spec fn typed(s: SelectionView, c: char) -> SelectionView {
    let grown = SelectionView { buffer: s.buffer.push(c), ..s };
    if s.auto_select {
        match exact_choice(s.elements, lowercase_of(grown.buffer)) {
            Some(element) => selected(grown, element),
            None => grown,
        }
    } else {
        grown
    }
}

/// The session after the last typed character was taken back.
pub open spec fn erased(s: SelectionView) -> SelectionView {
    if s.buffer.len() > 0 {
        SelectionView { buffer: s.buffer.drop_last(), ..s }
    } else {
        s
    }
}

/// The session after the input was confirmed: the element that the input
/// selects outright, else the only one that it can still mean, is selected;
/// where there is neither, nothing changes.
pub open spec fn confirmed(s: SelectionView) -> SelectionView {
    match exact_choice(s.elements, lowercase_of(s.buffer)) {
        Some(element) => selected(s, element),
        None => match unique_choice(s.elements, lowercase_of(s.buffer)) {
            Some(element) => selected(s, element),
            None => s,
        },
    }
}

/// The session after it was cancelled: the input is discarded.
pub open spec fn cancelled(s: SelectionView) -> SelectionView {
    SelectionView { buffer: Seq::empty(), result: Some(SelectionResult::Cancelled), ..s }
}

/// The session after a key press. A session that has ended stays as it is.
pub open spec fn keyed(s: SelectionView, keysym: u32) -> SelectionView {
    if s.result is Some {
        s
    } else if keysym == KEY_ESCAPE {
        cancelled(s)
    } else if keysym == KEY_BACKSPACE {
        erased(s)
    } else if keysym == KEY_RETURN {
        confirmed(s)
    } else {
        match key_char(keysym) {
            Some(c) => typed(s, c),
            None => s,
        }
    }
}

/// The character that a key symbol types, if it types one.
pub fn keysym_to_char(keysym: u32) -> (c: Option<char>)
    ensures
        c == key_char(keysym),
{
    if (0x61 <= keysym && keysym <= 0x7a) || (0x30 <= keysym && keysym <= 0x39) || keysym == 0x3b {
        let code: u8 = keysym as u8;
        Some(code as char)
    } else {
        None
    }
}

impl SelectionState {
    /// A session over `elements` that has just begun: nothing is typed, no
    /// modifier is held.
    pub fn new(elements: Vec<HintedElement>, auto_select: bool) -> (state: Self)
        ensures
            state@ == (SelectionView {
                elements: elements@,
                buffer: Seq::empty(),
                modifiers: Modifiers { shift: false, ctrl: false },
                auto_select,
                result: None,
            }),
    {
        SelectionState {
            elements,
            input_buffer: String::new(),
            modifiers: Modifiers { shift: false, ctrl: false },
            auto_select,
            result: None,
        }
    }

    /// Whether the session still takes input.
    pub fn is_active(&self) -> (active: bool)
        ensures
            active == (self.result is None),
    {
        self.result.is_none()
    }

    /// Records which modifier keys are held. Neither the input nor the
    /// outcome changes.
    pub fn update_modifiers(&mut self, modifiers: Modifiers)
        ensures
            final(self)@ == (SelectionView { modifiers, ..old(self)@ }),
    {
        self.modifiers = modifiers;
    }

    /// The action that the held modifier keys ask for.
    pub fn get_action_from_modifiers(&self) -> (action: Option<ActionMode>)
        ensures
            action == action_override(self.modifiers),
    {
        if self.modifiers.shift {
            Some(ActionMode::RightClick)
        } else if self.modifiers.ctrl {
            Some(ActionMode::MiddleClick)
        } else {
            None
        }
    }

    /// Ends the session with `element`, under the modifiers held now.
    pub fn select_element(&mut self, element: &HintedElement)
        ensures
            final(self)@ == selected(old(self)@, *element),
    {
        let action = self.get_action_from_modifiers();
        self.result = Some(SelectionResult::Selected(element.clone(), action));
    }

    /// Takes a key press.
    ///
    /// Escape cancels and discards the input. Backspace takes the last
    /// character back. Return selects the element that the input means, if it
    /// means one. A key that types a character appends it, and selects at
    /// once where that is switched on and the input is the full label of the
    /// only candidate left. Once the session has ended, keys do nothing.
    pub fn handle_key(&mut self, keysym: u32)
        ensures
            final(self)@ == keyed(old(self)@, keysym),
    {
        if self.result.is_some() {
            return ;
        }
        if keysym == KEY_ESCAPE {
            self.input_buffer = String::new();
            self.result = Some(SelectionResult::Cancelled);
        } else if keysym == KEY_BACKSPACE {
            self.input_buffer.pop();
        } else if keysym == KEY_RETURN {
            let chosen = match find_exact_match(self.elements.as_slice(), self.input_buffer.as_str()) {
                Some(element) => Some(element.clone()),
                None => match find_unique_match(
                    self.elements.as_slice(),
                    self.input_buffer.as_str(),
                ) {
                    Some(element) => Some(element.clone()),
                    None => None,
                },
            };
            match chosen {
                Some(element) => {
                    self.select_element(&element);
                },
                None => {},
            }
        } else {
            match keysym_to_char(keysym) {
                Some(c) => {
                    self.input_buffer.push(c);
                    if self.auto_select {
                        let chosen = match find_exact_match(
                            self.elements.as_slice(),
                            self.input_buffer.as_str(),
                        ) {
                            Some(element) => Some(element.clone()),
                            None => None,
                        };
                        match chosen {
                            Some(element) => {
                                self.select_element(&element);
                            },
                            None => {},
                        }
                    }
                },
                None => {},
            }
        }
    }
}

} // verus!
