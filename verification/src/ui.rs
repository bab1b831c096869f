//! The decisions behind the desktop commands: where the overlay widget
//! sits, what a tray-menu entry does, and how CSV export and import name
//! their files and report back.

use vstd::prelude::*;
use vstd::string::*;

use crate::text::str_equals;

verus! {

// ── Overlay ─────────────────────────────────────────────────────────────────

/// The screen corner or edge the overlay widget sits at.
#[derive(Debug, Clone, Copy, PartialEq, Eq, Structural)]
pub enum OverlayAnchor {
    TopLeft,
    CenterLeft,
    BottomLeft,
    CenterRight,
    BottomRight,
    TopRight,
}

/// The anchor that an overlay-position setting names; anything unknown is
/// the top-right corner.
pub open spec fn overlay_anchor_spec(position: Seq<char>) -> OverlayAnchor {
    if position == "top-left"@ {
        OverlayAnchor::TopLeft
    } else if position == "center-left"@ {
        OverlayAnchor::CenterLeft
    } else if position == "bottom-left"@ {
        OverlayAnchor::BottomLeft
    } else if position == "center-right"@ {
        OverlayAnchor::CenterRight
    } else if position == "bottom-right"@ {
        OverlayAnchor::BottomRight
    } else {
        OverlayAnchor::TopRight
    }
}

/// The anchor that an overlay-position setting names.
pub fn overlay_anchor(position: &str) -> (a: OverlayAnchor)
    ensures
        a == overlay_anchor_spec(position@),
{
    if str_equals(position, "top-left") {
        OverlayAnchor::TopLeft
    } else if str_equals(position, "center-left") {
        OverlayAnchor::CenterLeft
    } else if str_equals(position, "bottom-left") {
        OverlayAnchor::BottomLeft
    } else if str_equals(position, "center-right") {
        OverlayAnchor::CenterRight
    } else if str_equals(position, "bottom-right") {
        OverlayAnchor::BottomRight
    } else {
        OverlayAnchor::TopRight
    }
}

/// The overlay position in effect: the cached setting, or `top-right` while
/// settings are not loaded.
pub fn effective_overlay_position(cached: Option<String>) -> (p: String)
    ensures
        match cached {
            Some(c) => p == c,
            None => p@ == "top-right"@,
        },
{
    match cached {
        Some(position) => position,
        None => String::from_str("top-right"),
    }
}

// ── Tray ────────────────────────────────────────────────────────────────────

/// What a tray-menu entry does.
#[derive(Debug, Clone, Copy, PartialEq, Eq, Structural)]
pub enum TrayAction {
    /// Restore the main window.
    Open,
    /// Quit the app.
    Quit,
    /// Nothing.
    Ignore,
}

/// What the tray-menu entry with the given id does.
pub fn tray_menu_action(id: &str) -> (a: TrayAction)
    ensures
        a == (if id@ == "open"@ {
            TrayAction::Open
        } else if id@ == "quit"@ {
            TrayAction::Quit
        } else {
            TrayAction::Ignore
        }),
{
    if str_equals(id, "open") {
        TrayAction::Open
    } else if str_equals(id, "quit") {
        TrayAction::Quit
    } else {
        TrayAction::Ignore
    }
}

// ── CSV export and import ───────────────────────────────────────────────────

/// What the renderer hands over for export: the CSV text, already
/// formatted, and the date it covers.
#[derive(Debug)]
pub struct ExportCsvPayload {
    pub content: String,
    pub date: String,
}

/// How an export ended: whether a file was written, and where.
#[derive(Debug)]
pub struct ExportResult {
    pub success: bool,
    pub path: Option<String>,
}

/// A CSV file read for import.
#[derive(Debug)]
pub struct ImportedFile {
    pub path: String,
    pub name: String,
    pub content: String,
}

/// The file name the save dialog proposes: `timesheet_<date>.csv`.
pub fn export_file_name(date: &str) -> (name: String)
    ensures
        name@ == "timesheet_"@ + date@ + ".csv"@,
{
    let mut name = String::from_str("timesheet_");
    name.append(date);
    name.append(".csv");
    name
}

/// How an export ended, given where the file was written (`None` when the
/// dialog was cancelled).
pub fn export_outcome(written_to: Option<String>) -> (r: ExportResult)
    ensures
        r.success == (written_to is Some),
        r.path == written_to,
{
    match written_to {
        Some(path) => ExportResult { success: true, path: Some(path) },
        None => ExportResult { success: false, path: None },
    }
}

/// The name an imported file is shown under: its file name, or
/// `unknown.csv` when its path has none.
pub fn imported_file_name(file_name: Option<String>) -> (name: String)
    ensures
        match file_name {
            Some(n) => name == n,
            None => name@ == "unknown.csv"@,
        },
{
    match file_name {
        Some(n) => n,
        None => String::from_str("unknown.csv"),
    }
}

} // verus!
