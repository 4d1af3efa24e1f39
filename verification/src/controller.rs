//! The controller's decisions, as functions of what the window host reported.
//!
//! The caller asks the host, hands the answers in, performs the plan that
//! comes back, and hands the host's verdict to the matching `*_result`
//! function. Nothing here touches a window.

use vstd::prelude::*;
use vstd::string::*;
use crate::geometry::{placement_of, Placement, PopupLayout, Position, Size, place_popup};

verus! {

/// Why a command failed. Each failure of the host carries the host's own
/// description of it.
#[derive(Clone, Debug, PartialEq, Eq)]
pub enum PopupError {
    /// No window is registered as the main window.
    MainWindowNotFound,
    /// The host could not report the main window's position or extent.
    GeometryReadFailure(String),
    /// The host could not bring the popup to the foreground.
    FocusFailure(String),
    /// The host refused the request to close the popup.
    CloseFailure(String),
}

/// What the host reported of the main window's outer frame. Either reading may
/// have failed, with the host's description of the failure.
#[derive(Debug, PartialEq, Eq)]
pub struct MainWindow {
    pub position: Result<Position, String>,
    pub size: Result<Size, String>,
}

/// What an open request asks of the host.
#[derive(Clone, Copy, Debug, PartialEq, Eq, Structural)]
pub enum OpenPlan {
    /// A popup exists: bring it to the foreground, and leave it where it is.
    Focus,
    /// No popup exists: build one at this rectangle.
    Build(Placement),
}

/// What a close request asks of the host.
#[derive(Clone, Copy, Debug, PartialEq, Eq, Structural)]
pub enum ClosePlan {
    /// No popup exists: there is nothing to close.
    Nothing,
    /// A popup exists: request its close.
    Close,
}

/// The text every diagnostic line on a failed construction starts with.
pub open spec fn build_failure_prefix() -> Seq<char> {
    "Failed to build popup window: "@
}

/// The diagnostic line for a construction that failed with `description`.
pub open spec fn build_failure_line(description: Seq<char>) -> Seq<char> {
    build_failure_prefix() + description
}

/// The plan for an open request: the main window must exist and both of its
/// readings must have succeeded, the position's failure coming first; then an
/// existing popup is focused, and a missing one built under the main window.
pub open spec fn open_plan(
    main: Option<MainWindow>,
    popup_present: bool,
    layout: PopupLayout,
) -> Result<OpenPlan, PopupError> {
    match main {
        None => Err(PopupError::MainWindowNotFound),
        Some(window) => match (window.position, window.size) {
            (Err(description), _) => Err(PopupError::GeometryReadFailure(description)),
            (Ok(_), Err(description)) => Err(PopupError::GeometryReadFailure(description)),
            (Ok(position), Ok(size)) => if popup_present {
                Ok(OpenPlan::Focus)
            } else {
                Ok(OpenPlan::Build(placement_of(position, size, layout)))
            },
        },
    }
}

/// The plan for a close request.
pub open spec fn close_plan(popup_present: bool) -> ClosePlan {
    if popup_present {
        ClosePlan::Close
    } else {
        ClosePlan::Nothing
    }
}

impl Clone for MainWindow {
    fn clone(&self) -> (copy: MainWindow)
        ensures
            copy == *self,
    {
        let position = match &self.position {
            Ok(position) => Ok(*position),
            Err(description) => Err(description.clone()),
        };
        let size = match &self.size {
            Ok(size) => Ok(*size),
            Err(description) => Err(description.clone()),
        };
        MainWindow { position, size }
    }
}

impl PopupError {
    /// The text a caller is shown for this error.
    pub open spec fn description(self) -> Seq<char> {
        match self {
            PopupError::MainWindowNotFound => "Main window not found"@,
            PopupError::GeometryReadFailure(description) => description@,
            PopupError::FocusFailure(description) => description@,
            PopupError::CloseFailure(description) => description@,
        }
    }

    /// Renders the error: a fixed sentence for a missing main window, and the
    /// host's own description for each failure of the host.
    pub fn message(&self) -> (text: String)
        ensures
            text@ == self.description(),
    {
        match self {
            PopupError::MainWindowNotFound => String::from_str("Main window not found"),
            PopupError::GeometryReadFailure(description) => description.clone(),
            PopupError::FocusFailure(description) => description.clone(),
            PopupError::CloseFailure(description) => description.clone(),
        }
    }
}

/// Decides what an open request does, given the main window's readings (`None`
/// where no main window is registered) and whether a popup is registered.
pub fn plan_open(main: &Option<MainWindow>, popup_present: bool, layout: &PopupLayout) -> (plan:
    Result<OpenPlan, PopupError>)
    ensures
        plan == open_plan(*main, popup_present, *layout),
        main is None ==> plan == Err::<OpenPlan, PopupError>(PopupError::MainWindowNotFound),
{
    match main {
        None => Err(PopupError::MainWindowNotFound),
        Some(window) => match &window.position {
            Err(description) => Err(PopupError::GeometryReadFailure(description.clone())),
            Ok(position) => match &window.size {
                Err(description) => Err(PopupError::GeometryReadFailure(description.clone())),
                Ok(size) => if popup_present {
                    Ok(OpenPlan::Focus)
                } else {
                    Ok(OpenPlan::Build(place_popup(*position, *size, layout)))
                },
            },
        },
    }
}

/// Decides what a close request does, given whether a popup is registered.
pub fn plan_close(popup_present: bool) -> (plan: ClosePlan)
    ensures
        plan == close_plan(popup_present),
{
    if popup_present {
        ClosePlan::Close
    } else {
        ClosePlan::Nothing
    }
}

/// The result of an open request whose plan was to focus, given the host's
/// verdict on the focus request.
pub fn focus_result(verdict: Result<(), String>) -> (result: Result<(), PopupError>)
    ensures
        result == match verdict {
            Ok(_) => Ok::<(), PopupError>(()),
            Err(description) => Err(PopupError::FocusFailure(description)),
        },
{
    match verdict {
        Ok(_) => Ok(()),
        Err(description) => Err(PopupError::FocusFailure(description)),
    }
}

/// The result of a close request whose plan was to close, given the host's
/// verdict on the close request.
pub fn close_result(verdict: Result<(), String>) -> (result: Result<(), PopupError>)
    ensures
        result == match verdict {
            Ok(_) => Ok::<(), PopupError>(()),
            Err(description) => Err(PopupError::CloseFailure(description)),
        },
{
    match verdict {
        Ok(_) => Ok(()),
        Err(description) => Err(PopupError::CloseFailure(description)),
    }
}

/// What becomes of a construction's verdict. The open request returned before
/// the construction ended, so a failure reaches no caller: it yields one
/// diagnostic line, and a success yields nothing.
pub fn build_result(verdict: Result<(), String>) -> (diagnostic: Option<String>)
    ensures
        verdict is Ok <==> diagnostic is None,
        verdict matches Err(description) ==> diagnostic->Some_0@ == build_failure_line(
            description@,
        ),
{
    match verdict {
        Ok(_) => None,
        Err(description) => {
            let mut line = String::from_str("Failed to build popup window: ");
            line.append(description.as_str());
            Some(line)
        },
    }
}

} // verus!
