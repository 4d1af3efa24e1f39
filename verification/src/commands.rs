//! The commands a front end invokes, run against a window registry.

use vstd::prelude::*;
use vstd::string::*;
use crate::controller::{
    build_failure_line, close_plan, close_result, focus_result, open_plan, plan_close, plan_open,
    ClosePlan, OpenPlan, PopupError,
};
use crate::geometry::{standard_layout, PopupLayout};
use crate::registry::{label_taken, PopupState, WindowRegistry};

verus! {

/// The greeting for `name`.
pub open spec fn greeting(name: Seq<char>) -> Seq<char> {
    "Hello, "@ + name + "! You've been greeted from Rust!"@
}

/// `post` and `result` are what an open request makes of `pre`.
///
/// A request that fails before anything is asked of the host leaves the
/// registry as it was. One that finds a popup brings it to the foreground and
/// changes nothing else. One that finds none starts a construction and
/// succeeds at once, whatever becomes of the construction.
pub open spec fn after_open(
    pre: WindowRegistry,
    post: WindowRegistry,
    result: Result<(), PopupError>,
) -> bool {
    match open_plan(pre.main, pre.popup is Some, standard_layout()) {
        Err(error) => post == pre && result == Err::<(), PopupError>(error),
        Ok(OpenPlan::Focus) => WindowRegistry::focused(pre, post) && result == match pre.faults.focus {
            None => Ok::<(), PopupError>(()),
            Some(description) => Err(PopupError::FocusFailure(description)),
        },
        Ok(OpenPlan::Build(placement)) => {
            &&& result == Ok::<(), PopupError>(())
            &&& WindowRegistry::started(pre, post, placement)
        },
    }
}

/// `post` and `result` are what a close request makes of `pre`.
pub open spec fn after_close(
    pre: WindowRegistry,
    post: WindowRegistry,
    result: Result<(), PopupError>,
) -> bool {
    match close_plan(pre.popup is Some) {
        ClosePlan::Nothing => post == pre && result == Ok::<(), PopupError>(()),
        ClosePlan::Close => WindowRegistry::closed(pre, post) && result == match pre.faults.close {
            None => Ok::<(), PopupError>(()),
            Some(description) => Err(PopupError::CloseFailure(description)),
        },
    }
}

/// Greets `name`.
pub fn greet(name: &str) -> (text: String)
    ensures
        text@ == greeting(name@),
{
    let mut text = String::from_str("Hello, ");
    text.append(name);
    text.append("! You've been greeted from Rust!");
    text
}

/// Opens the popup under the main window, or focuses the one that exists.
///
/// Without a main window the request fails and nothing is built. An existing
/// popup is focused where it stands: nothing is started and nothing moves.
pub fn open_popup_window(registry: &mut WindowRegistry) -> (result: Result<(), PopupError>)
    ensures
        after_open(*old(registry), *final(registry), result),
        old(registry).main is None ==> {
            &&& result == Err::<(), PopupError>(PopupError::MainWindowNotFound)
            &&& *final(registry) == *old(registry)
        },
        old(registry).popup matches Some(popup) ==> {
            &&& final(registry).popup matches Some(kept)
            &&& kept.placement == popup.placement
            &&& final(registry).pending == old(registry).pending
            &&& final(registry).constructions == old(registry).constructions
        },
{
    let layout = PopupLayout::standard();
    let popup_present = registry.popup_present();
    match plan_open(&registry.main, popup_present, &layout) {
        Err(error) => Err(error),
        Ok(OpenPlan::Focus) => focus_result(registry.focus_popup()),
        Ok(OpenPlan::Build(placement)) => {
            registry.start_construction(placement);
            Ok(())
        },
    }
}

/// Closes the popup. Where none exists there is nothing to do, and that is
/// success; where one exists it leaves the registry, unless the host refuses.
pub fn close_popup_window(registry: &mut WindowRegistry) -> (result: Result<(), PopupError>)
    ensures
        after_close(*old(registry), *final(registry), result),
        old(registry).popup is None ==> {
            &&& result == Ok::<(), PopupError>(())
            &&& *final(registry) == *old(registry)
        },
        old(registry).popup is Some && old(registry).faults.close is None ==> {
            &&& result == Ok::<(), PopupError>(())
            &&& final(registry).popup is None
        },
{
    let popup_present = registry.popup_present();
    match plan_close(popup_present) {
        ClosePlan::Nothing => Ok(()),
        ClosePlan::Close => close_result(registry.close_popup()),
    }
}

/// A successful open request leaves an open popup open, and otherwise leaves
/// a construction under way.
pub proof fn open_step(pre: WindowRegistry, post: WindowRegistry, result: Result<(), PopupError>)
    requires
        after_open(pre, post, result),
        result is Ok,
    ensures
        pre.lifecycle() == PopupState::Open ==> post.lifecycle() == PopupState::Open,
        pre.lifecycle() != PopupState::Open ==> post.lifecycle() == PopupState::Constructing,
{
}

/// A close request succeeds on an absent popup and leaves it absent; one that
/// succeeds on an open popup leaves none registered, and the popup absent
/// unless another construction is still under way.
pub proof fn close_step(pre: WindowRegistry, post: WindowRegistry, result: Result<(), PopupError>)
    requires
        after_close(pre, post, result),
    ensures
        pre.lifecycle() == PopupState::Absent ==> result is Ok && post.lifecycle()
            == PopupState::Absent,
        result is Ok ==> post.lifecycle() != PopupState::Open,
        result is Ok && pre.pending@.len() == 0 ==> post.lifecycle() == PopupState::Absent,
        result is Err ==> post == pre && pre.lifecycle() == PopupState::Open,
{
}

/// The one construction under way ends with the popup open, or, where the
/// host fails it, with the popup absent and one line on the diagnostic output.
pub proof fn settle_step(pre: WindowRegistry, post: WindowRegistry)
    requires
        WindowRegistry::settled(pre, post),
        pre.lifecycle() == PopupState::Constructing,
        pre.pending@.len() == 1,
    ensures
        pre.faults.build is None ==> post.lifecycle() == PopupState::Open && post.diagnostics
            == pre.diagnostics,
        pre.faults.build is Some ==> post.lifecycle() == PopupState::Absent
            && post.diagnostics@.len() == pre.diagnostics@.len() + 1,
{
}

/// An open request that follows a successful one, with the host done with
/// every construction and no close between the two, only focuses: the registry
/// holds the one popup it held before, and nothing more was started. This is
/// for a host whose constructions succeed.
pub proof fn second_open_only_focuses(
    start: WindowRegistry,
    started: WindowRegistry,
    settled: WindowRegistry,
    again: WindowRegistry,
    first: Result<(), PopupError>,
    second: Result<(), PopupError>,
)
    requires
        start.pending@.len() == 0,
        start.faults.build is None,
        after_open(start, started, first),
        first is Ok,
        WindowRegistry::settled(started, settled),
        after_open(settled, again, second),
    ensures
        settled.popup is Some,
        settled.pending@.len() == 0,
        again.popup is Some,
        again.popup->Some_0.placement == settled.popup->Some_0.placement,
        again.pending@.len() == 0,
        again.constructions@ == started.constructions@,
        again.diagnostics == settled.diagnostics,
        second is Ok <==> start.faults.focus is None,
        second is Ok ==> again.popup->Some_0.foreground,
{
}

/// Two open requests before the host settles anything start two
/// constructions, and still at most one of them registers a popup: the other
/// is refused and leaves a line on the diagnostic output.
pub proof fn racing_opens_register_one_popup(
    start: WindowRegistry,
    once: WindowRegistry,
    twice: WindowRegistry,
    half: WindowRegistry,
    done: WindowRegistry,
    first: Result<(), PopupError>,
    second: Result<(), PopupError>,
)
    requires
        start.popup is None,
        start.pending@.len() == 0,
        start.faults.build is None,
        after_open(start, once, first),
        first is Ok,
        after_open(once, twice, second),
        WindowRegistry::settled(twice, half),
        WindowRegistry::settled(half, done),
    ensures
        second is Ok,
        twice.constructions@.len() == start.constructions@.len() + 2,
        done.popup is Some,
        done.popup == half.popup,
        done.pending@.len() == 0,
        done.diagnostics@.len() == start.diagnostics@.len() + 1,
        done.diagnostics@.last()@ == build_failure_line(label_taken()),
{
}

/// Open, settle, close, open, each request with success and starting with no
/// popup and nothing under way, starts two constructions: the close leaves no
/// popup behind, so the second open cannot find the first one again and
/// starts a construction of its own.
pub proof fn reopen_builds_again(
    start: WindowRegistry,
    opened: WindowRegistry,
    settled: WindowRegistry,
    closed: WindowRegistry,
    reopened: WindowRegistry,
    first: Result<(), PopupError>,
    close: Result<(), PopupError>,
    second: Result<(), PopupError>,
)
    requires
        start.popup is None,
        start.pending@.len() == 0,
        after_open(start, opened, first),
        first is Ok,
        WindowRegistry::settled(opened, settled),
        after_close(settled, closed, close),
        close is Ok,
        after_open(closed, reopened, second),
    ensures
        closed.popup is None,
        second is Ok,
        opened.constructions@.len() == start.constructions@.len() + 1,
        reopened.constructions@.len() == start.constructions@.len() + 2,
        reopened.constructions@.drop_last() =~= opened.constructions@,
        reopened.constructions@.last() == opened.constructions@.last(),
        reopened.pending@.len() == 1,
{
}

} // verus!
