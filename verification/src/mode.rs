//! The decisions around a session: which elements take part, which action
//! is carried out in the end, and a few values that the program derives from
//! its surroundings.

use crate::click::ClickButton;
use crate::config::ActionMode;
use crate::element::ClickableElement;
use crate::text::{contains_text, lowercase_of, occurs_in};
use vstd::prelude::*;
use vstd::string::StringExecFns;

verus! {

/// Whether an element's kind is one that `wanted` asks for: the lowercase
/// form of `wanted` occurs in the lowercase form of the kind's name.
pub open spec fn role_matches(element: ClickableElement, wanted: Seq<char>) -> bool {
    occurs_in(lowercase_of(wanted), lowercase_of(element.role@))
}

/// The elements whose kind `wanted` asks for.
pub open spec fn of_role(elements: Seq<ClickableElement>, wanted: Seq<char>) -> Seq<
    ClickableElement,
> {
    elements.filter(|e: ClickableElement| role_matches(e, wanted))
}

/// The elements whose kind `role_filter` asks for, in their order. Capitals
/// and small letters count alike.
pub fn filter_by_role(elements: &[ClickableElement], role_filter: &str) -> (kept: Vec<
    ClickableElement,
>)
    ensures
        kept@ == of_role(elements@, role_filter@),
{
    let wanted = role_filter.to_lowercase();
    let mut kept: Vec<ClickableElement> = Vec::new();
    let mut i: usize = 0;
    assert(of_role(elements@.take(0), role_filter@) =~= Seq::<ClickableElement>::empty()) by {
        reveal(Seq::filter);
    }
    while i < elements.len()
        invariant
            i <= elements.len(),
            wanted@ == lowercase_of(role_filter@),
            kept@ == of_role(elements@.take(i as int), role_filter@),
        decreases elements.len() - i,
    {
        let element = &elements[i];
        proof {
            elements@.take(i as int).lemma_filter_push(
                *element,
                |e: ClickableElement| role_matches(e, role_filter@),
            );
            assert(elements@.take(i as int).push(*element) =~= elements@.take(i + 1));
        }
        if contains_text(element.role.to_lowercase().as_str(), wanted.as_str()) {
            kept.push(element.clone());
        }
        i += 1;
    }
    assert(elements@.take(elements.len() as int) =~= elements@);
    kept
}

/// The action that is carried out: the one that the modifier keys asked for,
/// else the one that the caller chose.
pub fn final_action(modifier_action: Option<ActionMode>, action: ActionMode) -> (chosen: ActionMode)
    ensures
        chosen == match modifier_action {
            Some(asked) => asked,
            None => action,
        },
{
    match modifier_action {
        Some(asked) => asked,
        None => action,
    }
}

/// The button with which an action clicks: the right one for a right click,
/// the middle one for a middle click, the left one for everything else.
pub open spec fn button_of(action: ActionMode) -> ClickButton {
    match action {
        ActionMode::RightClick => ClickButton::Right,
        ActionMode::MiddleClick => ClickButton::Middle,
        _ => ClickButton::Left,
    }
}

/// The button with which an action clicks.
pub fn button_for(action: ActionMode) -> (button: ClickButton)
    ensures
        button == button_of(action),
{
    match action {
        ActionMode::RightClick => ClickButton::Right,
        ActionMode::MiddleClick => ClickButton::Middle,
        _ => ClickButton::Left,
    }
}

/// The level of detail of the log for a number of `-v` flags.
pub open spec fn level_name(verbose: u8) -> Seq<char> {
    if verbose == 0 {
        "warn"@
    } else if verbose == 1 {
        "info"@
    } else if verbose == 2 {
        "debug"@
    } else {
        "trace"@
    }
}

/// The directive that sets the log's level of detail for this program.
pub fn log_directive(verbose: u8) -> (directive: String)
    ensures
        directive@ == "vimium_linux="@ + level_name(verbose),
{
    let level = match verbose {
        0 => "warn",
        1 => "info",
        2 => "debug",
        _ => "trace",
    };
    let mut directive = String::from_str("vimium_linux=");
    directive.append(level);
    directive
}

/// Where the accessibility bus is looked for when the session bus does not
/// say: under the user's runtime directory, or under that of user 1000 where
/// none is known.
pub open spec fn bus_address(runtime_dir: Option<Seq<char>>) -> Seq<char> {
    match runtime_dir {
        Some(dir) => "unix:path="@ + dir + "/at-spi/bus_0"@,
        None => "unix:path=/run/user/1000/at-spi/bus_0"@,
    }
}

/// The address at which the accessibility bus is tried directly.
pub fn fallback_bus_address(runtime_dir: Option<&str>) -> (address: String)
    ensures
        address@ == bus_address(
            match runtime_dir {
                Some(dir) => Some(dir@),
                None => None,
            },
        ),
{
    match runtime_dir {
        Some(dir) => {
            let mut address = String::from_str("unix:path=");
            address.append(dir);
            address.append("/at-spi/bus_0");
            address
        },
        None => String::from_str("unix:path=/run/user/1000/at-spi/bus_0"),
    }
}

} // verus!
