//! The diagnostic stack and its rendered banner on concrete inputs.

use pi_inky_weather_epd::{DashboardError, DiagnosticStack};

#[test]
fn empty_stack_renders_nothing() {
    let stack = DiagnosticStack::new();
    let (visible, message, svg) = stack.render();
    assert!(!visible);
    assert_eq!(message, "");
    assert_eq!(svg, "");
}

#[test]
fn priorities_follow_the_fixed_order() {
    let incomplete = DashboardError::IncompleteData { details: "d".to_string() };
    let stale = DashboardError::StaleData { details: "d".to_string() };
    let update = DashboardError::UpdateFailed { details: "d".to_string() };
    assert_eq!(incomplete.priority(), 3);
    assert_eq!(stale.priority(), 2);
    assert_eq!(update.priority(), 1);
}

#[test]
fn descriptions_and_icons_per_kind() {
    let e = DashboardError::IncompleteData { details: "three days gone".to_string() };
    assert_eq!(e.short_description(), "Incomplete data");
    assert_eq!(e.long_description(), "three days gone");
    assert_eq!(e.get_icon_path(), "static/warning_icons/incomplete-data.svg");
    let w = DashboardError::StaleData { details: "cache used".to_string() };
    assert_eq!(w.short_description(), "Stale data");
    assert_eq!(w.get_icon_path(), "static/warning_icons/stale-data.svg");
    let u = DashboardError::UpdateFailed { details: "no network".to_string() };
    assert_eq!(u.short_description(), "Update failed");
    assert_eq!(u.get_icon_path(), "static/warning_icons/update-failed.svg");
}

#[test]
fn single_diagnostic_renders_one_icon() {
    let mut stack = DiagnosticStack::new();
    stack.push(DashboardError::UpdateFailed { details: "x".to_string() });
    let (visible, message, svg) = stack.render();
    assert!(visible);
    assert_eq!(message, "Update failed");
    assert_eq!(
        svg,
        "<image x=\"63\" y=\"-10\" width=\"74\" height=\"74\" \
         href=\"static/warning_icons/update-failed.svg\"/>"
    );
}

#[test]
fn stacked_icons_order_front_to_back_by_priority() {
    // pushed lowest-priority first; the render must put the highest priority
    // at the largest offset, written last (in front)
    let mut stack = DiagnosticStack::new();
    stack.push(DashboardError::UpdateFailed { details: "u".to_string() });
    stack.push(DashboardError::IncompleteData { details: "i".to_string() });
    stack.push(DashboardError::StaleData { details: "s".to_string() });
    let (visible, message, svg) = stack.render();
    assert!(visible);
    assert_eq!(message, "Incomplete data");
    // exactly one image element per diagnostic
    assert_eq!(svg.matches("<image ").count(), 3);
    // back-to-front: positions strictly decrease along the sorted stack, so
    // the text lists the lowest priority (largest index, smallest offset)
    // first and the highest priority at (63,-10) last
    let expected = "<image x=\"53\" y=\"-16\" width=\"74\" height=\"74\" \
         href=\"static/warning_icons/update-failed.svg\"/>\n        \
         <image x=\"58\" y=\"-13\" width=\"74\" height=\"74\" \
         href=\"static/warning_icons/stale-data.svg\"/>\n        \
         <image x=\"63\" y=\"-10\" width=\"74\" height=\"74\" \
         href=\"static/warning_icons/incomplete-data.svg\"/>";
    assert_eq!(svg, expected);
}

#[test]
fn ties_keep_first_found_message() {
    let mut stack = DiagnosticStack::new();
    stack.push(DashboardError::StaleData { details: "first".to_string() });
    stack.push(DashboardError::StaleData { details: "second".to_string() });
    let (visible, message, svg) = stack.render();
    assert!(visible);
    assert_eq!(message, "Stale data");
    assert_eq!(svg.matches("<image ").count(), 2);
}

#[test]
fn render_is_idempotent() {
    let mut stack = DiagnosticStack::new();
    stack.push(DashboardError::IncompleteData { details: "d".to_string() });
    let first = stack.render();
    let second = stack.render();
    assert_eq!(first.0, second.0);
    assert_eq!(first.1, second.1);
    assert_eq!(first.2, second.2);
    assert_eq!(stack.len(), 1);
}
