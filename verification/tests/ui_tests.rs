use chronoward::ui::{
    effective_overlay_position, export_file_name, export_outcome, imported_file_name,
    overlay_anchor, tray_menu_action, OverlayAnchor, TrayAction,
};

#[test]
fn overlay_anchors() {
    assert_eq!(overlay_anchor("top-left"), OverlayAnchor::TopLeft);
    assert_eq!(overlay_anchor("center-left"), OverlayAnchor::CenterLeft);
    assert_eq!(overlay_anchor("bottom-left"), OverlayAnchor::BottomLeft);
    assert_eq!(overlay_anchor("center-right"), OverlayAnchor::CenterRight);
    assert_eq!(overlay_anchor("bottom-right"), OverlayAnchor::BottomRight);
    assert_eq!(overlay_anchor("top-right"), OverlayAnchor::TopRight);
    assert_eq!(overlay_anchor("middle"), OverlayAnchor::TopRight);
    assert_eq!(effective_overlay_position(None), "top-right");
    assert_eq!(effective_overlay_position(Some("top-left".to_string())), "top-left");
}

#[test]
fn tray_actions() {
    assert_eq!(tray_menu_action("open"), TrayAction::Open);
    assert_eq!(tray_menu_action("quit"), TrayAction::Quit);
    assert_eq!(tray_menu_action("other"), TrayAction::Ignore);
}

#[test]
fn csv_names_and_outcomes() {
    assert_eq!(export_file_name("2025-01-15"), "timesheet_2025-01-15.csv");
    let r = export_outcome(Some("/home/u/t.csv".to_string()));
    assert!(r.success);
    assert_eq!(r.path.as_deref(), Some("/home/u/t.csv"));
    let r = export_outcome(None);
    assert!(!r.success);
    assert!(r.path.is_none());
    assert_eq!(imported_file_name(None), "unknown.csv");
    assert_eq!(imported_file_name(Some("a.csv".to_string())), "a.csv");
}
