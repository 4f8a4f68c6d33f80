//! Where recognised text goes: which window takes it and how it is announced.

use crate::ocr::hotkeys::{capture_mode_tag, capture_mode_to_str, CaptureEntryKind};
use crate::settings::model::{
    CaptureMode, CustomFeatureAction, FeaturesSettings, OcrSettings, WindowSizePreset,
};
use crate::text::{str_eq, text_of, trim, trimmed};
use crate::windows::ids::WindowKind;
use vstd::prelude::*;

verus! {

/// The window that takes recognised text, and what it is told.
#[derive(Debug, Clone)]
pub struct OcrActionRoute {
    pub target_window: WindowKind,
    pub target: &'static str,
    pub title: Option<String>,
    pub custom_prompt: Option<String>,
    pub custom_model: Option<String>,
}

/// [`OcrActionRoute`] with its texts as sequences of characters.
pub struct RouteView {
    pub target_window: WindowKind,
    pub target: Seq<char>,
    pub title: Option<Seq<char>>,
    pub custom_prompt: Option<Seq<char>>,
    pub custom_model: Option<Seq<char>>,
}

impl View for OcrActionRoute {
    type V = RouteView;

    open spec fn view(&self) -> RouteView {
        RouteView {
            target_window: self.target_window,
            target: self.target@,
            title: text_of(self.title),
            custom_prompt: text_of(self.custom_prompt),
            custom_model: text_of(self.custom_model),
        }
    }
}

/// The route to a built-in window.
pub open spec fn plain_route(window: WindowKind, target: Seq<char>, title: Option<Seq<char>>) -> RouteView {
    RouteView { target_window: window, target, title, custom_prompt: None, custom_model: None }
}

/// `text` without surrounding white space, unless nothing is left of it.
pub open spec fn unless_blank(text: Seq<char>) -> Option<Seq<char>> {
    if trimmed(text).len() > 0 {
        Some(trimmed(text))
    } else {
        None
    }
}

/// The route to an action that the user has defined: the window for
/// polishing text, under the action's name, with its prompt and model.
pub open spec fn custom_route(action: CustomFeatureAction) -> RouteView {
    RouteView {
        target_window: WindowKind::Optimize,
        target: "optimize"@,
        title: match unless_blank(action.name@) {
            Some(name) => Some(name),
            None => Some("优化"@),
        },
        custom_prompt: unless_blank(action.prompt@),
        custom_model: unless_blank(action.model@),
    }
}

/// Whether a user's action is the one that `id` names: it is enabled, and its
/// id without surrounding white space is `id`.
pub open spec fn names_action(action: CustomFeatureAction, id: Seq<char>) -> bool {
    action.enabled && trimmed(action.id@) == id
}

/// The first action from index `from` on that `id` names.
pub open spec fn find_action(actions: Seq<CustomFeatureAction>, id: Seq<char>, from: int) -> Option<
    int,
>
    decreases actions.len() - from,
{
    if from < 0 || from >= actions.len() {
        None
    } else if names_action(actions[from], id) {
        Some(from)
    } else {
        find_action(actions, id, from + 1)
    }
}

/// The route for the id of the action that follows recognition, which has no
/// surrounding white space.
pub open spec fn route_for(id: Seq<char>, features: FeaturesSettings) -> RouteView {
    if id == "translate"@ {
        plain_route(WindowKind::Translate, "translate"@, None)
    } else if id == "summary"@ || id == "summarize"@ {
        plain_route(WindowKind::Summary, "summary"@, None)
    } else if id == "explain"@ {
        plain_route(WindowKind::Explain, "explain"@, None)
    } else if id == "optimize"@ {
        plain_route(WindowKind::Optimize, "optimize"@, Some("优化"@))
    } else if features.custom_actions_enabled {
        match find_action(features.custom_actions@, id, 0) {
            Some(k) => custom_route(features.custom_actions@[k]),
            None => plain_route(WindowKind::Translate, "translate"@, None),
        }
    } else {
        plain_route(WindowKind::Translate, "translate"@, None)
    }
}

fn built_in(window: WindowKind, target: &'static str, title: Option<String>) -> (route:
    OcrActionRoute)
    ensures
        route@ == plain_route(window, target@, text_of(title)),
{
    OcrActionRoute { target_window: window, target, title, custom_prompt: None, custom_model: None }
}

fn text_unless_blank(text: &str) -> (kept: Option<String>)
    ensures
        text_of(kept) == unless_blank(text@),
{
    let t = trim(text);
    if t.is_empty() {
        None
    } else {
        Some(t.to_owned())
    }
}

fn route_to_custom(action: &CustomFeatureAction) -> (route: OcrActionRoute)
    ensures
        route@ == custom_route(*action),
{
    let title = match text_unless_blank(action.name.as_str()) {
        Some(name) => Some(name),
        None => Some("优化".to_owned()),
    };
    OcrActionRoute {
        target_window: WindowKind::Optimize,
        target: "optimize",
        title,
        custom_prompt: text_unless_blank(action.prompt.as_str()),
        custom_model: text_unless_blank(action.model.as_str()),
    }
}

fn find_custom_action(actions: &Vec<CustomFeatureAction>, id: &str) -> (found: Option<usize>)
    ensures
        match found {
            Some(k) => find_action(actions@, id@, 0) == Some(k as int) && k < actions@.len(),
            None => find_action(actions@, id@, 0) is None,
        },
{
    let mut i: usize = 0;
    while i < actions.len()
        invariant
            i <= actions@.len(),
            find_action(actions@, id@, 0) == find_action(actions@, id@, i as int),
        decreases actions@.len() - i,
    {
        let action = &actions[i];
        if action.enabled && str_eq(trim(action.id.as_str()), id) {
            return Some(i);
        }
        i += 1;
    }
    None
}

/// Decides where recognised text goes, from the id of the action that the
/// settings name. The built-in ids lead to their windows; any other id leads
/// to the user's first enabled action of that id, if the user's actions are
/// switched on; whatever is left leads to the window for translations.
pub fn resolve_ocr_action_route(ocr: &OcrSettings, features: &FeaturesSettings) -> (route:
    OcrActionRoute)
    ensures
        route@ == route_for(trimmed(ocr.post_action_id@), *features),
{
    let action_id = trim(ocr.post_action_id.as_str());
    if str_eq(action_id, "translate") {
        built_in(WindowKind::Translate, "translate", None)
    } else if str_eq(action_id, "summary") || str_eq(action_id, "summarize") {
        built_in(WindowKind::Summary, "summary", None)
    } else if str_eq(action_id, "explain") {
        built_in(WindowKind::Explain, "explain", None)
    } else if str_eq(action_id, "optimize") {
        built_in(WindowKind::Optimize, "optimize", Some("优化".to_owned()))
    } else {
        if features.custom_actions_enabled {
            match find_custom_action(&features.custom_actions, action_id) {
                Some(k) => {
                    return route_to_custom(&features.custom_actions[k]);
                },
                None => {},
            }
        }
        built_in(WindowKind::Translate, "translate", None)
    }
}

/// The size of a feature window for a preset, in logical pixels.
pub fn resolve_feature_window_size(preset: WindowSizePreset) -> (size: (u32, u32))
    ensures
        size == match preset {
            WindowSizePreset::Large => (520u32, 400u32),
            WindowSizePreset::Medium => (460u32, 360u32),
            WindowSizePreset::Small => (400u32, 320u32),
        },
{
    match preset {
        WindowSizePreset::Large => (520, 400),
        WindowSizePreset::Medium => (460, 360),
        WindowSizePreset::Small => (400, 320),
    }
}

/// What a window is told when text arrives for it.
#[derive(Debug, Clone)]
pub struct ChangeTextPayload {
    pub text: String,
    pub source: &'static str,
    pub target: &'static str,
    pub title: Option<String>,
    pub custom_prompt: Option<String>,
    pub custom_model: Option<String>,
    pub request_id: Option<u64>,
    pub ocr_stage: Option<&'static str>,
}

/// How far a recognition has come.
#[derive(Debug, Clone, Copy, PartialEq, Eq, Structural)]
pub enum OcrStage {
    /// The picture is with the recogniser.
    Recognizing,
    /// The recogniser failed; the window is idle again.
    Idle,
    /// The text is there and is being worked on.
    Processing,
}

impl OcrStage {
    /// The tag of the stage, as a sequence of characters.
    pub open spec fn tag(self) -> Seq<char> {
        match self {
            OcrStage::Recognizing => "ocring"@,
            OcrStage::Idle => "idle"@,
            OcrStage::Processing => "processing"@,
        }
    }

    /// The tag by which the window knows the stage.
    pub fn as_str(self) -> (tag: &'static str)
        ensures
            tag@ == self.tag(),
    {
        match self {
            OcrStage::Recognizing => "ocring",
            OcrStage::Idle => "idle",
            OcrStage::Processing => "processing",
        }
    }
}

fn copy_of(value: &Option<String>) -> (copy: Option<String>)
    ensures
        text_of(copy) == text_of(*value),
{
    match value {
        Some(v) => Some(v.clone()),
        None => None,
    }
}

/// What the window at the end of a route is told at a stage of a recognition.
pub fn change_text_payload(
    route: &OcrActionRoute,
    text: String,
    stage: OcrStage,
    request_id: Option<u64>,
) -> (payload: ChangeTextPayload)
    ensures
        payload.text@ == text@,
        payload.source@ == "ocr"@,
        payload.target@ == route@.target,
        text_of(payload.title) == route@.title,
        text_of(payload.custom_prompt) == route@.custom_prompt,
        text_of(payload.custom_model) == route@.custom_model,
        payload.request_id == request_id,
        payload.ocr_stage matches Some(tag) && tag@ == stage.tag(),
{
    ChangeTextPayload {
        text,
        source: "ocr",
        target: route.target,
        title: copy_of(&route.title),
        custom_prompt: copy_of(&route.custom_prompt),
        custom_model: copy_of(&route.custom_model),
        request_id,
        ocr_stage: Some(stage.as_str()),
    }
}

/// What the overlay is told when it opens.
#[derive(Debug, Clone)]
pub struct CaptureOpenedPayload {
    pub entry_kind: &'static str,
    pub initial_mode: Option<&'static str>,
}

/// What the overlay is told when it opens for an entry kind and a mode.
pub fn capture_opened_payload(entry_kind: CaptureEntryKind, initial_mode: Option<CaptureMode>) -> (payload:
    CaptureOpenedPayload)
    ensures
        payload.entry_kind@ == entry_kind.tag(),
        match initial_mode {
            Some(mode) => payload.initial_mode matches Some(tag) && tag@ == capture_mode_tag(mode),
            None => payload.initial_mode is None,
        },
{
    CaptureOpenedPayload {
        entry_kind: entry_kind.as_str(),
        initial_mode: match initial_mode {
            Some(mode) => Some(capture_mode_to_str(mode)),
            None => None,
        },
    }
}

} // verus!
