//! An in-memory window host: the two windows the controller deals with, the
//! constructions that are under way, the faults the host is set to answer
//! with, and a record of what was built and of the diagnostic output.

use vstd::prelude::*;
use vstd::string::*;
use crate::controller::{build_failure_line, build_result, MainWindow};
use crate::geometry::Placement;

verus! {

/// The failures the host answers with. Each is `None` where the request
/// succeeds, and otherwise the description the host gives of its failure.
#[derive(Clone, Debug, PartialEq, Eq)]
pub struct HostFaults {
    pub focus: Option<String>,
    pub close: Option<String>,
    pub build: Option<String>,
}

/// A registered popup: the rectangle it was built at, and whether it is the
/// window in the foreground.
#[derive(Clone, Copy, Debug, PartialEq, Eq, Structural)]
pub struct PopupWindow {
    pub placement: Placement,
    pub foreground: bool,
}

/// Where the popup stands in its life.
#[derive(Clone, Copy, Debug, PartialEq, Eq, Structural)]
pub enum PopupState {
    /// No popup is registered and none is being built.
    Absent,
    /// No popup is registered yet, and a construction is under way.
    Constructing,
    /// A popup is registered.
    Open,
}

/// The host's registry, as far as the controller reads and writes it.
///
/// `popup` is the one entry under the popup's label, so at most one popup is
/// ever registered. A construction that was started waits in `pending`, oldest
/// first, until the host settles it; `constructions` keeps the rectangle of
/// every construction ever started, whatever became of it.
#[derive(Clone, Debug, PartialEq, Eq)]
pub struct WindowRegistry {
    pub main: Option<MainWindow>,
    pub popup: Option<PopupWindow>,
    pub faults: HostFaults,
    pub pending: Vec<Placement>,
    pub constructions: Vec<Placement>,
    pub diagnostics: Vec<String>,
}

/// What the host answers to a construction under a label that is in use.
pub open spec fn label_taken() -> Seq<char> {
    "a window with this label already exists"@
}

/// The popup built at `placement`, in the foreground.
pub open spec fn foreground_popup(placement: Placement) -> PopupWindow {
    PopupWindow { placement, foreground: true }
}

/// `after` is `before` with one more line, whose text is `line`.
pub open spec fn one_more_line(before: Seq<String>, after: Seq<String>, line: Seq<char>) -> bool {
    &&& after.len() == before.len() + 1
    &&& after.drop_last() =~= before
    &&& after.last()@ == line
}

impl HostFaults {
    /// A host on which every request succeeds.
    pub fn none() -> (faults: HostFaults)
        ensures
            faults.focus is None,
            faults.close is None,
            faults.build is None,
    {
        HostFaults { focus: None, close: None, build: None }
    }
}

impl WindowRegistry {
    /// A registry that holds `main` and no popup, on a host without faults,
    /// with nothing under way, nothing built and nothing reported yet.
    pub fn new(main: Option<MainWindow>) -> (registry: WindowRegistry)
        ensures
            registry.main == main,
            registry.popup is None,
            registry.faults.focus is None,
            registry.faults.close is None,
            registry.faults.build is None,
            registry.pending@.len() == 0,
            registry.constructions@.len() == 0,
            registry.diagnostics@.len() == 0,
    {
        WindowRegistry {
            main,
            popup: None,
            faults: HostFaults::none(),
            pending: Vec::new(),
            constructions: Vec::new(),
            diagnostics: Vec::new(),
        }
    }

    /// Where the popup stands in its life.
    pub open spec fn lifecycle(self) -> PopupState {
        if self.popup is Some {
            PopupState::Open
        } else if self.pending@.len() > 0 {
            PopupState::Constructing
        } else {
            PopupState::Absent
        }
    }

    /// `post` is `pre` with a construction at `placement` started: it is under
    /// way and on record, and no window has changed yet.
    pub open spec fn started(pre: WindowRegistry, post: WindowRegistry, placement: Placement) -> bool {
        &&& post.main == pre.main
        &&& post.popup == pre.popup
        &&& post.faults == pre.faults
        &&& post.diagnostics == pre.diagnostics
        &&& post.pending@ == pre.pending@.push(placement)
        &&& post.constructions@ == pre.constructions@.push(placement)
    }

    /// `post` is `pre` after the host worked on the popup's entry alone and
    /// left `popup` in it.
    pub open spec fn popup_set(pre: WindowRegistry, post: WindowRegistry, popup: Option<PopupWindow>) -> bool {
        &&& post.main == pre.main
        &&& post.popup == popup
        &&& post.faults == pre.faults
        &&& post.pending == pre.pending
        &&& post.constructions == pre.constructions
        &&& post.diagnostics == pre.diagnostics
    }

    /// `post` is `pre` after the host was asked to close the popup: the entry
    /// is empty unless the host is set to refuse.
    pub open spec fn closed(pre: WindowRegistry, post: WindowRegistry) -> bool {
        if pre.faults.close is None {
            WindowRegistry::popup_set(pre, post, None)
        } else {
            post == pre
        }
    }

    /// `post` is `pre` after the host settled the oldest construction under
    /// way, if there is one. The construction fails where the host is set to
    /// fail constructions, and otherwise where a popup is registered already;
    /// a failure changes no window and adds one line to the diagnostic
    /// output. A construction that succeeds registers the popup at its
    /// rectangle, in the foreground, and reports nothing.
    pub open spec fn settled(pre: WindowRegistry, post: WindowRegistry) -> bool {
        if pre.pending@.len() == 0 {
            post == pre
        } else {
            &&& post.main == pre.main
            &&& post.faults == pre.faults
            &&& post.constructions == pre.constructions
            &&& post.pending@ =~= pre.pending@.remove(0)
            &&& match (pre.faults.build, pre.popup) {
                (Some(description), _) => {
                    &&& post.popup == pre.popup
                    &&& one_more_line(
                        pre.diagnostics@,
                        post.diagnostics@,
                        build_failure_line(description@),
                    )
                },
                (None, Some(_)) => {
                    &&& post.popup == pre.popup
                    &&& one_more_line(
                        pre.diagnostics@,
                        post.diagnostics@,
                        build_failure_line(label_taken()),
                    )
                },
                (None, None) => {
                    &&& post.popup == Some(foreground_popup(pre.pending@[0]))
                    &&& post.diagnostics == pre.diagnostics
                },
            }
        }
    }

    /// Where the popup stands in its life.
    pub fn state(&self) -> (state: PopupState)
        ensures
            state == self.lifecycle(),
    {
        if self.popup.is_some() {
            PopupState::Open
        } else if self.pending.len() > 0 {
            PopupState::Constructing
        } else {
            PopupState::Absent
        }
    }

    /// Whether a popup is registered.
    pub fn popup_present(&self) -> (present: bool)
        ensures
            present == self.popup is Some,
    {
        self.popup.is_some()
    }

    /// `post` is `pre` after the host was asked to bring the popup to the
    /// foreground: the popup is there, where it was built, unless the host is
    /// set to refuse or there is no popup.
    pub open spec fn focused(pre: WindowRegistry, post: WindowRegistry) -> bool {
        match (pre.faults.focus, pre.popup) {
            (None, Some(popup)) => WindowRegistry::popup_set(
                pre,
                post,
                Some(foreground_popup(popup.placement)),
            ),
            _ => post == pre,
        }
    }

    /// Asks the host to bring the popup to the foreground.
    pub fn focus_popup(&mut self) -> (verdict: Result<(), String>)
        ensures
            WindowRegistry::focused(*old(self), *final(self)),
            verdict == match old(self).faults.focus {
                None => Ok::<(), String>(()),
                Some(description) => Err(description),
            },
    {
        match &self.faults.focus {
            None => {
                match self.popup {
                    Some(popup) => {
                        self.popup = Some(
                            PopupWindow { placement: popup.placement, foreground: true },
                        );
                    },
                    None => {},
                }
                Ok(())
            },
            Some(description) => Err(description.clone()),
        }
    }

    /// Asks the host to close the popup.
    pub fn close_popup(&mut self) -> (verdict: Result<(), String>)
        ensures
            WindowRegistry::closed(*old(self), *final(self)),
            verdict == match old(self).faults.close {
                None => Ok::<(), String>(()),
                Some(description) => Err(description),
            },
    {
        match &self.faults.close {
            None => {
                self.popup = None;
                Ok(())
            },
            Some(description) => Err(description.clone()),
        }
    }

    /// Asks the host to build a popup at `placement`. The host's build fault
    /// comes first; without one, a label in use is refused, and a free one
    /// gets the window.
    pub fn build_popup(&mut self, placement: Placement) -> (verdict: Result<(), String>)
        ensures
            match (old(self).faults.build, old(self).popup) {
                (Some(description), _) => {
                    &&& verdict == Err::<(), String>(description)
                    &&& *final(self) == *old(self)
                },
                (None, Some(_)) => {
                    &&& verdict is Err
                    &&& verdict->Err_0@ == label_taken()
                    &&& *final(self) == *old(self)
                },
                (None, None) => {
                    &&& verdict is Ok
                    &&& WindowRegistry::popup_set(
                        *old(self),
                        *final(self),
                        Some(foreground_popup(placement)),
                    )
                },
            },
    {
        match &self.faults.build {
            Some(description) => Err(description.clone()),
            None => {
                if self.popup.is_some() {
                    Err(String::from_str("a window with this label already exists"))
                } else {
                    self.popup = Some(PopupWindow { placement, foreground: true });
                    Ok(())
                }
            },
        }
    }

    /// Starts a construction at `placement` and returns without waiting for
    /// it.
    pub fn start_construction(&mut self, placement: Placement)
        ensures
            WindowRegistry::started(*old(self), *final(self), placement),
    {
        self.pending.push(placement);
        self.constructions.push(placement);
    }

    /// Lets the host settle the oldest construction under way. Its verdict
    /// reaches no caller: a failure leaves one line on the diagnostic output.
    /// Returns whether there was a construction to settle.
    pub fn settle_construction(&mut self) -> (worked: bool)
        ensures
            WindowRegistry::settled(*old(self), *final(self)),
            worked == (old(self).pending@.len() > 0),
    {
        if self.pending.len() == 0 {
            return false;
        }
        let placement = self.pending.remove(0);
        let verdict = self.build_popup(placement);
        match build_result(verdict) {
            None => {},
            Some(line) => {
                self.report(line);
            },
        }
        true
    }

    /// Writes one line to the diagnostic output.
    pub fn report(&mut self, line: String)
        ensures
            final(self).main == old(self).main,
            final(self).popup == old(self).popup,
            final(self).faults == old(self).faults,
            final(self).pending == old(self).pending,
            final(self).constructions == old(self).constructions,
            one_more_line(old(self).diagnostics@, final(self).diagnostics@, line@),
    {
        self.diagnostics.push(line);
    }
}

} // verus!
