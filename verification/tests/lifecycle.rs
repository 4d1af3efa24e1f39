use popup_controller::commands::{close_popup_window, greet, open_popup_window};
use popup_controller::controller::{MainWindow, PopupError};
use popup_controller::geometry::{Placement, Position, Size};
use popup_controller::registry::{HostFaults, PopupState, PopupWindow, WindowRegistry};

fn main_at(x: i32, y: i32, width: u32, height: u32) -> Option<MainWindow> {
    Some(MainWindow { position: Ok(Position { x, y }), size: Ok(Size { width, height }) })
}

fn standard_registry() -> WindowRegistry {
    WindowRegistry::new(main_at(100, 100, 800, 600))
}

fn standard_placement() -> Placement {
    Placement { x: 275, x_half: false, y: 705, width: 450, height: 350 }
}

fn fresh(placement: Placement) -> Option<PopupWindow> {
    Some(PopupWindow { placement, foreground: true })
}

fn registry_with_popup() -> WindowRegistry {
    let mut registry = standard_registry();
    assert_eq!(open_popup_window(&mut registry), Ok(()));
    assert!(registry.settle_construction());
    assert_eq!(registry.popup, fresh(standard_placement()));
    registry
}

#[test]
fn new_registry_is_empty() {
    let registry = WindowRegistry::new(None);
    assert_eq!(registry.main, None);
    assert_eq!(registry.popup, None);
    assert_eq!(registry.faults, HostFaults { focus: None, close: None, build: None });
    assert_eq!(HostFaults::none(), registry.faults);
    assert!(registry.pending.is_empty());
    assert!(registry.constructions.is_empty());
    assert!(registry.diagnostics.is_empty());
    assert!(!registry.popup_present());
}

#[test]
fn open_returns_before_the_popup_is_registered() {
    let mut registry = standard_registry();
    assert_eq!(open_popup_window(&mut registry), Ok(()));
    assert_eq!(registry.popup, None);
    assert_eq!(registry.pending, vec![standard_placement()]);
    assert_eq!(registry.constructions, vec![standard_placement()]);
    assert!(registry.diagnostics.is_empty());
    assert_eq!(registry.main, main_at(100, 100, 800, 600));
}

#[test]
fn settled_construction_registers_popup_under_main_window() {
    let mut registry = standard_registry();
    assert_eq!(open_popup_window(&mut registry), Ok(()));
    assert!(registry.settle_construction());
    assert_eq!(registry.popup, fresh(standard_placement()));
    assert!(registry.pending.is_empty());
    assert_eq!(registry.constructions, vec![standard_placement()]);
    assert!(registry.diagnostics.is_empty());
    assert!(!registry.settle_construction());
    assert_eq!(registry.popup, fresh(standard_placement()));
}

#[test]
fn open_twice_keeps_one_popup() {
    let mut registry = registry_with_popup();
    let once = registry.clone();
    assert_eq!(open_popup_window(&mut registry), Ok(()));
    assert_eq!(registry, once);
    assert_eq!(registry.popup, fresh(standard_placement()));
    assert_eq!(registry.constructions.len(), 1);
    assert!(registry.pending.is_empty());
}

#[test]
fn racing_opens_register_one_popup_and_log_the_other() {
    let mut registry = standard_registry();
    assert_eq!(open_popup_window(&mut registry), Ok(()));
    registry.main = main_at(0, 0, 450, 10);
    assert_eq!(open_popup_window(&mut registry), Ok(()));
    let second = Placement { x: 0, x_half: false, y: 15, width: 450, height: 350 };
    assert_eq!(registry.pending, vec![standard_placement(), second]);
    assert_eq!(registry.constructions, vec![standard_placement(), second]);
    assert!(registry.settle_construction());
    assert_eq!(registry.popup, fresh(standard_placement()));
    assert_eq!(registry.pending, vec![second]);
    assert!(registry.diagnostics.is_empty());
    assert!(registry.settle_construction());
    assert_eq!(registry.popup, fresh(standard_placement()));
    assert!(registry.pending.is_empty());
    assert_eq!(
        registry.diagnostics,
        vec![String::from(
            "Failed to build popup window: a window with this label already exists"
        )]
    );
}

#[test]
fn focused_popup_keeps_its_place_after_main_window_moved() {
    let mut registry = registry_with_popup();
    registry.main = main_at(500, 500, 1000, 700);
    assert_eq!(open_popup_window(&mut registry), Ok(()));
    assert_eq!(registry.popup, fresh(standard_placement()));
    assert_eq!(registry.constructions, vec![standard_placement()]);
    assert!(registry.pending.is_empty());
}

#[test]
fn open_brings_a_popup_in_the_background_forward() {
    let mut registry = registry_with_popup();
    registry.popup = Some(PopupWindow { placement: standard_placement(), foreground: false });
    assert_eq!(open_popup_window(&mut registry), Ok(()));
    assert_eq!(registry.popup, fresh(standard_placement()));
    assert_eq!(registry.constructions, vec![standard_placement()]);
    assert!(registry.pending.is_empty());
    assert!(registry.diagnostics.is_empty());
}

#[test]
fn failed_focus_leaves_the_popup_in_the_background() {
    let mut registry = registry_with_popup();
    registry.popup = Some(PopupWindow { placement: standard_placement(), foreground: false });
    registry.faults.focus = Some(String::from("cannot focus"));
    let before = registry.clone();
    assert_eq!(
        open_popup_window(&mut registry),
        Err(PopupError::FocusFailure(String::from("cannot focus")))
    );
    assert_eq!(registry, before);
}

#[test]
fn close_without_popup_succeeds() {
    let mut registry = standard_registry();
    let before = registry.clone();
    assert_eq!(close_popup_window(&mut registry), Ok(()));
    assert_eq!(registry, before);
}

#[test]
fn close_without_popup_ignores_close_fault() {
    let mut registry = standard_registry();
    registry.faults.close = Some(String::from("busy"));
    let before = registry.clone();
    assert_eq!(close_popup_window(&mut registry), Ok(()));
    assert_eq!(registry, before);
}

#[test]
fn close_removes_popup() {
    let mut registry = registry_with_popup();
    assert!(registry.popup_present());
    assert_eq!(close_popup_window(&mut registry), Ok(()));
    assert_eq!(registry.popup, None);
    assert!(!registry.popup_present());
    assert_eq!(registry.constructions, vec![standard_placement()]);
    assert_eq!(registry.main, main_at(100, 100, 800, 600));
    assert_eq!(close_popup_window(&mut registry), Ok(()));
    assert_eq!(registry.popup, None);
}

#[test]
fn open_without_main_window_fails_and_builds_nothing() {
    let mut registry = WindowRegistry::new(None);
    let before = registry.clone();
    let result = open_popup_window(&mut registry);
    assert_eq!(result, Err(PopupError::MainWindowNotFound));
    assert_eq!(result.unwrap_err().message(), "Main window not found");
    assert_eq!(registry, before);
    assert_eq!(registry.popup, None);
    assert!(registry.pending.is_empty());
    assert!(registry.constructions.is_empty());
    assert!(!registry.settle_construction());
    assert_eq!(registry.popup, None);
}

#[test]
fn open_close_open_builds_twice() {
    let mut registry = registry_with_popup();
    assert_eq!(registry.constructions.len(), 1);
    assert_eq!(close_popup_window(&mut registry), Ok(()));
    assert_eq!(registry.popup, None);
    registry.main = main_at(0, 0, 450, 10);
    assert_eq!(open_popup_window(&mut registry), Ok(()));
    let second = Placement { x: 0, x_half: false, y: 15, width: 450, height: 350 };
    assert_eq!(registry.constructions, vec![standard_placement(), second]);
    assert_eq!(registry.popup, None);
    assert!(registry.settle_construction());
    assert_eq!(registry.popup, fresh(second));
    assert!(registry.diagnostics.is_empty());
}

#[test]
fn open_surfaces_geometry_failure() {
    let mut registry = WindowRegistry::new(Some(MainWindow {
        position: Ok(Position { x: 0, y: 0 }),
        size: Err(String::from("size unavailable")),
    }));
    let before = registry.clone();
    let result = open_popup_window(&mut registry);
    assert_eq!(result, Err(PopupError::GeometryReadFailure(String::from("size unavailable"))));
    assert_eq!(result.unwrap_err().message(), "size unavailable");
    assert_eq!(registry, before);
}

#[test]
fn open_surfaces_geometry_failure_even_with_popup() {
    let mut registry = registry_with_popup();
    registry.main = Some(MainWindow {
        position: Err(String::from("position unavailable")),
        size: Ok(Size { width: 1, height: 1 }),
    });
    let before = registry.clone();
    assert_eq!(
        open_popup_window(&mut registry),
        Err(PopupError::GeometryReadFailure(String::from("position unavailable")))
    );
    assert_eq!(registry, before);
}

#[test]
fn open_surfaces_focus_failure() {
    let mut registry = registry_with_popup();
    registry.faults.focus = Some(String::from("cannot focus"));
    let before = registry.clone();
    let result = open_popup_window(&mut registry);
    assert_eq!(result, Err(PopupError::FocusFailure(String::from("cannot focus"))));
    assert_eq!(result.unwrap_err().message(), "cannot focus");
    assert_eq!(registry, before);
}

#[test]
fn close_surfaces_close_failure_and_keeps_popup() {
    let mut registry = registry_with_popup();
    registry.faults.close = Some(String::from("busy"));
    let before = registry.clone();
    let result = close_popup_window(&mut registry);
    assert_eq!(result, Err(PopupError::CloseFailure(String::from("busy"))));
    assert_eq!(result.unwrap_err().message(), "busy");
    assert_eq!(registry, before);
    assert!(registry.popup_present());
}

#[test]
fn failed_construction_is_logged_and_not_surfaced() {
    let mut registry = standard_registry();
    registry.faults.build = Some(String::from("no display"));
    assert_eq!(open_popup_window(&mut registry), Ok(()));
    assert!(registry.settle_construction());
    assert_eq!(registry.popup, None);
    assert!(registry.pending.is_empty());
    assert_eq!(registry.constructions, vec![standard_placement()]);
    assert_eq!(
        registry.diagnostics,
        vec![String::from("Failed to build popup window: no display")]
    );
    assert_eq!(open_popup_window(&mut registry), Ok(()));
    assert!(registry.settle_construction());
    assert_eq!(registry.constructions.len(), 2);
    assert_eq!(registry.diagnostics.len(), 2);
    assert_eq!(registry.popup, None);
}

#[test]
fn host_operations_follow_the_faults() {
    let mut registry = standard_registry();
    assert_eq!(registry.focus_popup(), Ok(()));
    assert_eq!(registry.build_popup(standard_placement()), Ok(()));
    assert_eq!(registry.popup, fresh(standard_placement()));
    let other = Placement { x: 1, x_half: true, y: 2, width: 3, height: 4 };
    assert_eq!(
        registry.build_popup(other),
        Err(String::from("a window with this label already exists"))
    );
    assert_eq!(registry.popup, fresh(standard_placement()));
    assert_eq!(registry.close_popup(), Ok(()));
    assert_eq!(registry.popup, None);
    registry.faults = HostFaults {
        focus: Some(String::from("f")),
        close: Some(String::from("c")),
        build: Some(String::from("b")),
    };
    assert_eq!(registry.focus_popup(), Err(String::from("f")));
    assert_eq!(registry.build_popup(standard_placement()), Err(String::from("b")));
    assert_eq!(registry.popup, None);
    registry.popup = fresh(standard_placement());
    assert_eq!(registry.close_popup(), Err(String::from("c")));
    assert_eq!(registry.popup, fresh(standard_placement()));
    assert!(registry.constructions.is_empty());
    registry.report(String::from("line"));
    assert_eq!(registry.diagnostics, vec![String::from("line")]);
}

#[test]
fn constructions_settle_oldest_first() {
    let mut registry = WindowRegistry::new(None);
    let first = Placement { x: 1, x_half: false, y: 1, width: 1, height: 1 };
    let second = Placement { x: 2, x_half: true, y: 2, width: 2, height: 2 };
    registry.start_construction(first);
    registry.start_construction(second);
    assert_eq!(registry.pending, vec![first, second]);
    assert_eq!(registry.constructions, vec![first, second]);
    assert_eq!(registry.popup, None);
    assert!(registry.settle_construction());
    assert_eq!(registry.popup, fresh(first));
    assert_eq!(registry.pending, vec![second]);
    assert_eq!(registry.constructions, vec![first, second]);
}

#[test]
fn state_follows_the_lifecycle() {
    let mut registry = standard_registry();
    assert_eq!(registry.state(), PopupState::Absent);
    assert_eq!(close_popup_window(&mut registry), Ok(()));
    assert_eq!(registry.state(), PopupState::Absent);
    assert_eq!(open_popup_window(&mut registry), Ok(()));
    assert_eq!(registry.state(), PopupState::Constructing);
    assert!(registry.settle_construction());
    assert_eq!(registry.state(), PopupState::Open);
    assert_eq!(open_popup_window(&mut registry), Ok(()));
    assert_eq!(registry.state(), PopupState::Open);
    assert_eq!(close_popup_window(&mut registry), Ok(()));
    assert_eq!(registry.state(), PopupState::Absent);
    registry.faults.build = Some(String::from("no display"));
    assert_eq!(open_popup_window(&mut registry), Ok(()));
    assert_eq!(registry.state(), PopupState::Constructing);
    assert!(registry.settle_construction());
    assert_eq!(registry.state(), PopupState::Absent);
}

#[test]
fn greet_wraps_the_name() {
    assert_eq!(greet("World"), "Hello, World! You've been greeted from Rust!");
    assert_eq!(greet(""), "Hello, ! You've been greeted from Rust!");
}
