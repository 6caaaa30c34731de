//! The semantic kinds of accessible objects and the predicates that pick
//! candidates by kind.

use vstd::prelude::*;
use vstd::string::StringExecFns;

verus! {

/// The kind of an accessible object, as far as discovery tells kinds apart.
/// Every kind that no predicate selects is `Other`.
#[derive(Debug, Clone, Copy, PartialEq, Eq, Structural)]
pub enum Role {
    PushButton,
    ToggleButton,
    RadioButton,
    CheckBox,
    MenuItem,
    Link,
    Entry,
    PasswordText,
    ComboBox,
    PageTab,
    ListItem,
    TreeItem,
    Icon,
    SpinButton,
    Slider,
    TableCell,
    ScrollPane,
    Viewport,
    Panel,
    DocumentFrame,
    DocumentWeb,
    Application,
    Frame,
    ScrollBar,
    Terminal,
    Other,
}

/// The kinds that can be clicked or otherwise activated.
pub open spec fn actionable(role: Role) -> bool {
    match role {
        Role::PushButton
        | Role::ToggleButton
        | Role::RadioButton
        | Role::CheckBox
        | Role::MenuItem
        | Role::Link
        | Role::Entry
        | Role::PasswordText
        | Role::ComboBox
        | Role::PageTab
        | Role::ListItem
        | Role::TreeItem
        | Role::Icon
        | Role::SpinButton
        | Role::Slider
        | Role::TableCell => true,
        _ => false,
    }
}

/// The kinds that contain scrollable content.
pub open spec fn scrollable(role: Role) -> bool {
    match role {
        Role::ScrollPane
        | Role::Viewport
        | Role::Panel
        | Role::DocumentFrame
        | Role::DocumentWeb
        | Role::Application
        | Role::Frame
        | Role::ScrollBar => true,
        _ => false,
    }
}

/// The kinds that take typed text.
pub open spec fn text_input(role: Role) -> bool {
    match role {
        Role::Entry | Role::PasswordText | Role::SpinButton | Role::ComboBox | Role::Terminal => true,
        _ => false,
    }
}

/// Whether objects of this kind can be clicked or otherwise activated.
pub fn is_actionable_role(role: Role) -> (yes: bool)
    ensures
        yes == actionable(role),
{
    matches!(
        role,
        Role::PushButton
            | Role::ToggleButton
            | Role::RadioButton
            | Role::CheckBox
            | Role::MenuItem
            | Role::Link
            | Role::Entry
            | Role::PasswordText
            | Role::ComboBox
            | Role::PageTab
            | Role::ListItem
            | Role::TreeItem
            | Role::Icon
            | Role::SpinButton
            | Role::Slider
            | Role::TableCell
    )
}

/// Whether objects of this kind contain scrollable content.
pub fn is_scrollable_role(role: Role) -> (yes: bool)
    ensures
        yes == scrollable(role),
{
    matches!(
        role,
        Role::ScrollPane
            | Role::Viewport
            | Role::Panel
            | Role::DocumentFrame
            | Role::DocumentWeb
            | Role::Application
            | Role::Frame
            | Role::ScrollBar
    )
}

/// Whether objects of this kind take typed text.
pub fn is_text_input_role(role: Role) -> (yes: bool)
    ensures
        yes == text_input(role),
{
    matches!(
        role,
        Role::Entry | Role::PasswordText | Role::SpinButton | Role::ComboBox | Role::Terminal
    )
}

/// A predicate by which discovery picks its candidates: one of the three
/// usual ones, or any choice of kinds.
#[derive(Debug, PartialEq, Eq)]
pub enum RoleFilter {
    Actionable,
    Scrollable,
    TextInput,
    /// The kinds that are listed.
    AnyOf(Vec<Role>),
}

/// Whether a kind is among the listed ones.
fn listed(roles: &Vec<Role>, role: Role) -> (yes: bool)
    ensures
        yes == roles@.contains(role),
{
    let mut i: usize = 0;
    while i < roles.len()
        invariant
            i <= roles.len(),
            forall|j: int| 0 <= j < i ==> roles[j] != role,
        decreases roles.len() - i,
    {
        if roles[i] == role {
            return true;
        }
        i += 1;
    }
    false
}

impl RoleFilter {
    /// Whether the predicate selects the kind.
    pub open spec fn admits_spec(self, role: Role) -> bool {
        match self {
            RoleFilter::Actionable => actionable(role),
            RoleFilter::Scrollable => scrollable(role),
            RoleFilter::TextInput => text_input(role),
            RoleFilter::AnyOf(roles) => roles@.contains(role),
        }
    }

    /// Whether the predicate selects the kind.
    pub fn admits(&self, role: Role) -> (yes: bool)
        ensures
            yes == self.admits_spec(role),
    {
        match self {
            RoleFilter::Actionable => is_actionable_role(role),
            RoleFilter::Scrollable => is_scrollable_role(role),
            RoleFilter::TextInput => is_text_input_role(role),
            RoleFilter::AnyOf(roles) => listed(roles, role),
        }
    }
}

/// The name under which a kind is recorded in an element.
pub open spec fn role_name(role: Role) -> Seq<char> {
    match role {
        Role::PushButton => "PushButton"@,
        Role::ToggleButton => "ToggleButton"@,
        Role::RadioButton => "RadioButton"@,
        Role::CheckBox => "CheckBox"@,
        Role::MenuItem => "MenuItem"@,
        Role::Link => "Link"@,
        Role::Entry => "Entry"@,
        Role::PasswordText => "PasswordText"@,
        Role::ComboBox => "ComboBox"@,
        Role::PageTab => "PageTab"@,
        Role::ListItem => "ListItem"@,
        Role::TreeItem => "TreeItem"@,
        Role::Icon => "Icon"@,
        Role::SpinButton => "SpinButton"@,
        Role::Slider => "Slider"@,
        Role::TableCell => "TableCell"@,
        Role::ScrollPane => "ScrollPane"@,
        Role::Viewport => "Viewport"@,
        Role::Panel => "Panel"@,
        Role::DocumentFrame => "DocumentFrame"@,
        Role::DocumentWeb => "DocumentWeb"@,
        Role::Application => "Application"@,
        Role::Frame => "Frame"@,
        Role::ScrollBar => "ScrollBar"@,
        Role::Terminal => "Terminal"@,
        Role::Other => "Other"@,
    }
}

impl Role {
    /// The name under which the kind is recorded in an element.
    pub fn name(self) -> (name: String)
        ensures
            name@ == role_name(self),
    {
        let text = match self {
            Role::PushButton => "PushButton",
            Role::ToggleButton => "ToggleButton",
            Role::RadioButton => "RadioButton",
            Role::CheckBox => "CheckBox",
            Role::MenuItem => "MenuItem",
            Role::Link => "Link",
            Role::Entry => "Entry",
            Role::PasswordText => "PasswordText",
            Role::ComboBox => "ComboBox",
            Role::PageTab => "PageTab",
            Role::ListItem => "ListItem",
            Role::TreeItem => "TreeItem",
            Role::Icon => "Icon",
            Role::SpinButton => "SpinButton",
            Role::Slider => "Slider",
            Role::TableCell => "TableCell",
            Role::ScrollPane => "ScrollPane",
            Role::Viewport => "Viewport",
            Role::Panel => "Panel",
            Role::DocumentFrame => "DocumentFrame",
            Role::DocumentWeb => "DocumentWeb",
            Role::Application => "Application",
            Role::Frame => "Frame",
            Role::ScrollBar => "ScrollBar",
            Role::Terminal => "Terminal",
            Role::Other => "Other",
        };
        String::from_str(text)
    }
}

} // verus!
