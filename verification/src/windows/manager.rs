//! What the windowing layer is told when a window is created.

use crate::windows::ids::WindowKind;
use vstd::prelude::*;
use vstd::string::StringExecFns;

verus! {

/// The kinds of window that are created, hidden, when the application starts.
pub open spec fn precreated_kinds() -> Seq<WindowKind> {
    seq![
        WindowKind::ActionBar,
        WindowKind::Translate,
        WindowKind::Summary,
        WindowKind::Explain,
        WindowKind::Settings,
    ]
}

/// The kinds of window to create when the application starts, in order.
pub fn precreate_kinds() -> (kinds: Vec<WindowKind>)
    ensures
        kinds@ == precreated_kinds(),
{
    let kinds = vec![
        WindowKind::ActionBar,
        WindowKind::Translate,
        WindowKind::Summary,
        WindowKind::Explain,
        WindowKind::Settings,
    ];
    kinds
}

/// The page that a window of the given kind loads.
pub open spec fn app_url_text(kind: WindowKind) -> Seq<char> {
    if kind == WindowKind::Main {
        "index.html"@
    } else {
        "index.html?window="@ + kind.label_text()
    }
}

/// The script that tells the page its kind before anything else runs.
pub open spec fn init_script_text(kind: WindowKind) -> Seq<char> {
    "window.__SNAPPARSE_WINDOW_KIND = '"@ + kind.label_text() + "';"@
}

/// The path, within the application, of the page for `kind`.
pub fn app_url_from_kind(kind: WindowKind) -> (url: String)
    ensures
        url@ == app_url_text(kind),
{
    match kind {
        WindowKind::Main => "index.html".to_owned(),
        _ => {
            let mut url = "index.html?window=".to_owned();
            url.append(kind.query_value());
            url
        },
    }
}

/// The initialisation script for a window of the given kind.
pub fn init_script_for_kind(kind: WindowKind) -> (script: String)
    ensures
        script@ == init_script_text(kind),
{
    let mut script = "window.__SNAPPARSE_WINDOW_KIND = '".to_owned();
    script.append(kind.query_value());
    script.append("';");
    script
}

} // verus!
