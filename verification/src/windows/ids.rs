//! The kinds of window and the fixed traits of each.

use vstd::prelude::*;

verus! {

pub const MAIN_WINDOW_LABEL: &'static str = "main";

pub const ACTION_BAR_WINDOW_LABEL: &'static str = "action-bar";

pub const TRANSLATE_WINDOW_LABEL: &'static str = "translate";

pub const SUMMARY_WINDOW_LABEL: &'static str = "summary";

pub const EXPLAIN_WINDOW_LABEL: &'static str = "explain";

pub const OPTIMIZE_WINDOW_LABEL: &'static str = "optimize";

pub const SETTINGS_WINDOW_LABEL: &'static str = "settings";

pub const OCR_CAPTURE_WINDOW_LABEL: &'static str = "ocr-capture";

/// A kind of window; there is at most one window of each kind.
#[derive(Debug, Clone, Copy, Eq, PartialEq, Structural)]
pub enum WindowKind {
    Main,
    ActionBar,
    Translate,
    Summary,
    Explain,
    Optimize,
    Settings,
    OcrCapture,
}

impl WindowKind {
    /// The label of the kind, as a sequence of characters.
    pub open spec fn label_text(self) -> Seq<char> {
        match self {
            WindowKind::Main => "main"@,
            WindowKind::ActionBar => "action-bar"@,
            WindowKind::Translate => "translate"@,
            WindowKind::Summary => "summary"@,
            WindowKind::Explain => "explain"@,
            WindowKind::Optimize => "optimize"@,
            WindowKind::Settings => "settings"@,
            WindowKind::OcrCapture => "ocr-capture"@,
        }
    }

    /// The title of the kind, as a sequence of characters.
    pub open spec fn title_text(self) -> Seq<char> {
        match self {
            WindowKind::Main => "SnapParse"@,
            WindowKind::ActionBar => "SnapParse Action Bar"@,
            WindowKind::Translate => "翻译"@,
            WindowKind::Summary => "总结"@,
            WindowKind::Explain => "解释"@,
            WindowKind::Optimize => "优化"@,
            WindowKind::Settings => "设置"@,
            WindowKind::OcrCapture => "SnapParse Capture"@,
        }
    }

    /// The size with which a window of this kind is created, in logical pixels.
    pub open spec fn default_size_of(self) -> (u32, u32) {
        match self {
            WindowKind::Main => (1200, 780),
            WindowKind::ActionBar => (402, 48),
            WindowKind::Translate => (680, 520),
            WindowKind::Summary => (680, 520),
            WindowKind::Explain => (680, 520),
            WindowKind::Optimize => (680, 520),
            WindowKind::Settings => (800, 600),
            WindowKind::OcrCapture => (800, 600),
        }
    }

    /// The name by which the windowing layer knows the window.
    pub fn label(self) -> (label: &'static str)
        ensures
            label@ == self.label_text(),
    {
        match self {
            WindowKind::Main => MAIN_WINDOW_LABEL,
            WindowKind::ActionBar => ACTION_BAR_WINDOW_LABEL,
            WindowKind::Translate => TRANSLATE_WINDOW_LABEL,
            WindowKind::Summary => SUMMARY_WINDOW_LABEL,
            WindowKind::Explain => EXPLAIN_WINDOW_LABEL,
            WindowKind::Optimize => OPTIMIZE_WINDOW_LABEL,
            WindowKind::Settings => SETTINGS_WINDOW_LABEL,
            WindowKind::OcrCapture => OCR_CAPTURE_WINDOW_LABEL,
        }
    }

    /// The text in the window's title bar.
    pub fn title(self) -> (title: &'static str)
        ensures
            title@ == self.title_text(),
    {
        match self {
            WindowKind::Main => "SnapParse",
            WindowKind::ActionBar => "SnapParse Action Bar",
            WindowKind::Translate => "翻译",
            WindowKind::Summary => "总结",
            WindowKind::Explain => "解释",
            WindowKind::Optimize => "优化",
            WindowKind::Settings => "设置",
            WindowKind::OcrCapture => "SnapParse Capture",
        }
    }

    /// The value that tells the page which window it is shown in.
    pub fn query_value(self) -> (value: &'static str)
        ensures
            value@ == self.label_text(),
    {
        self.label()
    }

    /// The size with which a window of this kind is created, in logical pixels.
    pub fn default_size(self) -> (size: (u32, u32))
        ensures
            size == self.default_size_of(),
    {
        match self {
            WindowKind::Main => (1200, 780),
            WindowKind::ActionBar => (402, 48),
            WindowKind::Translate => (680, 520),
            WindowKind::Summary => (680, 520),
            WindowKind::Explain => (680, 520),
            WindowKind::Optimize => (680, 520),
            WindowKind::Settings => (800, 600),
            WindowKind::OcrCapture => (800, 600),
        }
    }

    /// Every window but the main one and the settings has no frame.
    pub fn frameless(self) -> (frameless: bool)
        ensures
            frameless == !(self == WindowKind::Main || self == WindowKind::Settings),
    {
        match self {
            WindowKind::Main | WindowKind::Settings => false,
            _ => true,
        }
    }

    /// Only the action bar is transparent, so that it can float.
    pub fn transparent(self) -> (transparent: bool)
        ensures
            transparent == (self == WindowKind::ActionBar),
    {
        match self {
            WindowKind::ActionBar => true,
            _ => false,
        }
    }

    /// Every window but the action bar can be resized.
    pub fn resizable(self) -> (resizable: bool)
        ensures
            resizable == (self != WindowKind::ActionBar),
    {
        match self {
            WindowKind::ActionBar => false,
            _ => true,
        }
    }

    /// Only the action bar stays above other windows.
    pub fn always_on_top(self) -> (on_top: bool)
        ensures
            on_top == (self == WindowKind::ActionBar),
    {
        match self {
            WindowKind::ActionBar => true,
            _ => false,
        }
    }

    /// Only the action bar is kept out of the task bar.
    pub fn skip_taskbar(self) -> (skip: bool)
        ensures
            skip == (self == WindowKind::ActionBar),
    {
        match self {
            WindowKind::ActionBar => true,
            _ => false,
        }
    }
}

/// No two kinds share a label.
pub proof fn lemma_labels_are_distinct(a: WindowKind, b: WindowKind)
    requires
        a != b,
    ensures
        a.label_text() != b.label_text(),
{
    reveal_strlit("main");
    reveal_strlit("action-bar");
    reveal_strlit("translate");
    reveal_strlit("summary");
    reveal_strlit("explain");
    reveal_strlit("optimize");
    reveal_strlit("settings");
    reveal_strlit("ocr-capture");
    assert("main"@.len() == 4);
    assert("action-bar"@.len() == 10);
    assert("translate"@.len() == 9);
    assert("summary"@.len() == 7 && "summary"@[0] == 's');
    assert("explain"@.len() == 7 && "explain"@[0] == 'e');
    assert("optimize"@.len() == 8 && "optimize"@[0] == 'o');
    assert("settings"@.len() == 8 && "settings"@[0] == 's');
}

} // verus!
