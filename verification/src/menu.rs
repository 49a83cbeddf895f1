//! Which native menu clicks reach the editor front end, and the theme
//! menu's radio behaviour.
use vstd::prelude::*;
use crate::text::{starts_with, str_eq};

verus! {

/// The event name under which forwarded menu clicks are sent.
pub const MENU_ACTION_EVENT: &'static str = "menu-action";

/// The menu items (besides the theme items) whose clicks the front end
/// handles.
pub open spec fn forwarded_menu_ids() -> Seq<Seq<char>> {
    seq![
        "new-tab"@,
        "open-file"@,
        "open-dir"@,
        "save"@,
        "close-tab"@,
        "print"@,
        "export-pdf"@,
        "export-html"@,
        "export-md"@,
        "settings"@,
        "help"@,
        "toggle-stylebar"@,
        "toggle-statusbar"@,
        "toggle-source"@,
        "sidebar-outline"@,
        "toggle-keymap-panel"@,
        "toggle-abbrs-panel"@,
        "toggle-zoom-allow"@,
        "zoom-reset"@,
        "zoom-in"@,
        "zoom-out"@,
        "toggle-always-on-top"@,
        "toggle-fullscreen"@,
        "reset-settings"@,
        "appearance"@,
        "doc-moachigi"@,
        "doc-markdown"@,
        "doc-autocomplete"@,
        "doc-files"@,
        "doc-shortcuts"@,
        "about"@,
        "check-update"@,
        "para-h1"@,
        "para-h2"@,
        "para-h3"@,
        "para-h4"@,
        "para-h5"@,
        "para-h6"@,
        "para-body"@,
        "para-heading-promote"@,
        "para-heading-demote"@,
        "para-table-insert"@,
        "para-math-block"@,
        "para-code-fence"@,
        "para-code-trim"@,
        "para-alert-note"@,
        "para-alert-tip"@,
        "para-alert-important"@,
        "para-alert-warning"@,
        "para-alert-caution"@,
        "para-quote"@,
        "para-ol"@,
        "para-ul"@,
        "para-task"@,
        "para-task-check"@,
        "para-task-uncheck"@,
        "para-task-toggle"@,
        "para-indent-in"@,
        "para-indent-out"@,
        "para-indent-reset"@,
        "para-insert-before"@,
        "para-insert-after"@,
        "para-link"@,
        "para-footnote"@,
        "para-hr"@,
        "para-toc"@,
        "para-yaml"@,
    ]
}

/// Whether a click on menu item `id` is sent to the front end: one of
/// [`forwarded_menu_ids`], or any `theme-` item.
pub open spec fn forwards_menu_click(id: Seq<char>) -> bool {
    forwarded_menu_ids().contains(id) || "theme-"@.is_prefix_of(id)
}

/// Whether a click on menu item `id` is sent to the front end as a
/// [`MENU_ACTION_EVENT`] (see [`forwards_menu_click`]).
pub fn is_forwarded_menu_click(id: &str) -> (r: bool)
    ensures
        r == forwards_menu_click(id@),
{
    let ids: Vec<&str> = vec![
        "new-tab",
        "open-file",
        "open-dir",
        "save",
        "close-tab",
        "print",
        "export-pdf",
        "export-html",
        "export-md",
        "settings",
        "help",
        "toggle-stylebar",
        "toggle-statusbar",
        "toggle-source",
        "sidebar-outline",
        "toggle-keymap-panel",
        "toggle-abbrs-panel",
        "toggle-zoom-allow",
        "zoom-reset",
        "zoom-in",
        "zoom-out",
        "toggle-always-on-top",
        "toggle-fullscreen",
        "reset-settings",
        "appearance",
        "doc-moachigi",
        "doc-markdown",
        "doc-autocomplete",
        "doc-files",
        "doc-shortcuts",
        "about",
        "check-update",
        "para-h1",
        "para-h2",
        "para-h3",
        "para-h4",
        "para-h5",
        "para-h6",
        "para-body",
        "para-heading-promote",
        "para-heading-demote",
        "para-table-insert",
        "para-math-block",
        "para-code-fence",
        "para-code-trim",
        "para-alert-note",
        "para-alert-tip",
        "para-alert-important",
        "para-alert-warning",
        "para-alert-caution",
        "para-quote",
        "para-ol",
        "para-ul",
        "para-task",
        "para-task-check",
        "para-task-uncheck",
        "para-task-toggle",
        "para-indent-in",
        "para-indent-out",
        "para-indent-reset",
        "para-insert-before",
        "para-insert-after",
        "para-link",
        "para-footnote",
        "para-hr",
        "para-toc",
        "para-yaml",
    ];
    let ghost known = ids@.map_values(|s: &str| s@);
    assert(known =~= forwarded_menu_ids());
    let mut i: usize = 0;
    while i < ids.len()
        invariant
            i <= ids@.len(),
            known == ids@.map_values(|s: &str| s@),
            known == forwarded_menu_ids(),
            forall|k: int| 0 <= k < i ==> known[k] != id@,
        decreases ids@.len() - i,
    {
        if str_eq(ids[i], id) {
            assert(forwarded_menu_ids()[i as int] == id@);
            return true;
        }
        i = i + 1;
    }
    starts_with(id, "theme-")
}

/// The theme menu is a radio group: a `theme-` item is checked exactly
/// when it is `theme-` followed by the active theme; other items are not
/// theme items (`None`).
pub fn theme_item_checked(item_id: &str, active: &str) -> (r: Option<bool>)
    ensures
        "theme-"@.is_prefix_of(item_id@) ==> r == Some(item_id@ == "theme-"@ + active@),
        !"theme-"@.is_prefix_of(item_id@) ==> r is None,
{
    if !starts_with(item_id, "theme-") {
        return None;
    }
    let mut target = crate::text::string_of("theme-");
    crate::text::push_str(&mut target, active);
    Some(str_eq(item_id, target.as_str()))
}

} // verus!
