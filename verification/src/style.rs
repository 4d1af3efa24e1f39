//! How the popup looks: a value that is settled once for the platform and
//! handed to the host with every construction.

use vstd::prelude::*;

verus! {

/// The popup's styling flags. The two title-bar flags are `None` on a
/// platform whose windows have no title bar that can be styled.
#[derive(Clone, Copy, Debug, PartialEq, Eq, Structural)]
pub struct PopupStyle {
    pub transparent: bool,
    pub decorations: bool,
    pub shadow: bool,
    pub resizable: bool,
    pub always_on_top: bool,
    pub focused: bool,
    pub hidden_title: Option<bool>,
    pub transparent_title_bar: Option<bool>,
}

/// The overlay: a transparent window without decorations or shadow, of fixed
/// size, above all others and focused from the start; where the platform
/// styles title bars, the title is hidden and its bar transparent.
pub open spec fn overlay_style(styled_title_bar: bool) -> PopupStyle {
    PopupStyle {
        transparent: true,
        decorations: false,
        shadow: false,
        resizable: false,
        always_on_top: true,
        focused: true,
        hidden_title: if styled_title_bar { Some(true) } else { None },
        transparent_title_bar: if styled_title_bar { Some(true) } else { None },
    }
}

impl PopupStyle {
    /// The overlay style for a platform that does, or does not, style title
    /// bars.
    pub fn overlay(styled_title_bar: bool) -> (style: PopupStyle)
        ensures
            style == overlay_style(styled_title_bar),
    {
        let title_bar = if styled_title_bar { Some(true) } else { None };
        PopupStyle {
            transparent: true,
            decorations: false,
            shadow: false,
            resizable: false,
            always_on_top: true,
            focused: true,
            hidden_title: title_bar,
            transparent_title_bar: title_bar,
        }
    }
}

} // verus!
