//! The settings and the values they start with.

use vstd::prelude::*;

verus! {

/// Everything the user can configure.
#[derive(Debug, Clone, PartialEq)]
pub struct AppSettings {
    pub general: GeneralSettings,
    pub api: ApiSettings,
    pub ocr: OcrSettings,
    pub toolbar: ToolbarSettings,
    pub window: WindowSettings,
    pub features: FeaturesSettings,
    pub advanced: AdvancedSettings,
}

impl Default for AppSettings {
    fn default() -> (settings: Self)
        ensures
            settings.general.is_default(),
            settings.api.is_default(),
            settings.ocr.is_default(),
            settings.toolbar.is_default(),
            settings.window.is_default(),
            settings.features.is_default(),
            settings.advanced.is_default(),
    {
        AppSettings {
            general: GeneralSettings::default(),
            api: ApiSettings::default(),
            ocr: OcrSettings::default(),
            toolbar: ToolbarSettings::default(),
            window: WindowSettings::default(),
            features: FeaturesSettings::default(),
            advanced: AdvancedSettings::default(),
        }
    }
}

/// General behaviour of the application.
#[derive(Debug, Clone, PartialEq)]
pub struct GeneralSettings {
    pub launch_at_startup: bool,
    pub silent_startup: bool,
    pub language: AppLanguage,
}

impl GeneralSettings {
    /// Whether every field has the value it starts with.
    pub open spec fn is_default(self) -> bool {
        &&& !self.launch_at_startup
        &&& !self.silent_startup
        &&& self.language == AppLanguage::ZhCn
    }
}

impl Default for GeneralSettings {
    fn default() -> (settings: Self)
        ensures
            settings.is_default(),
    {
        GeneralSettings {
            launch_at_startup: false,
            silent_startup: false,
            language: AppLanguage::default(),
        }
    }
}

/// The language of the user interface.
#[derive(Debug, Copy, Clone, Eq, PartialEq, Structural)]
pub enum AppLanguage {
    ZhCn,
    EnUs,
}

impl Default for AppLanguage {
    fn default() -> (language: Self)
        ensures
            language == AppLanguage::ZhCn,
    {
        AppLanguage::ZhCn
    }
}

/// How the language model is reached. The temperature is held in
/// thousandths, so that 300 stands for 0.3.
#[derive(Debug, Clone, PartialEq)]
pub struct ApiSettings {
    pub base_url: String,
    pub api_key: String,
    pub model: String,
    pub timeout_ms: u64,
    pub temperature_milli: u32,
    pub feature_models: FeatureModels,
}

impl ApiSettings {
    /// Whether every field has the value it starts with.
    pub open spec fn is_default(self) -> bool {
        &&& self.base_url@ == "https://api.openai.com/v1"@
        &&& self.api_key@ == Seq::<char>::empty()
        &&& self.model@ == "gpt-4o-mini"@
        &&& self.timeout_ms == 30_000
        &&& self.temperature_milli == 300
        &&& self.feature_models.is_default()
    }
}

impl Default for ApiSettings {
    fn default() -> (settings: Self)
        ensures
            settings.is_default(),
    {
        let model = "gpt-4o-mini".to_owned();
        ApiSettings {
            base_url: "https://api.openai.com/v1".to_owned(),
            api_key: String::new(),
            model: model.clone(),
            timeout_ms: 30_000,
            temperature_milli: 300,
            feature_models: FeatureModels {
                translate: model.clone(),
                summarize: model.clone(),
                explain: model,
                optimize: "gpt-4o-mini".to_owned(),
            },
        }
    }
}

/// How text recognition is reached and triggered.
#[derive(Debug, Clone, PartialEq)]
pub struct OcrSettings {
    pub enabled: bool,
    pub capture_hotkey: String,
    pub quick_ocr_hotkey: String,
    pub capture_default_mode: CaptureMode,
    pub show_shortcut_hints: bool,
    pub mode_hotkeys: OcrModeHotkeys,
    pub provider: OcrProvider,
    pub base_url: String,
    pub api_key: String,
    pub model: String,
    pub timeout_ms: u64,
    pub prompt: String,
    pub post_action_id: String,
}

impl OcrSettings {
    /// Whether every field has the value it starts with.
    pub open spec fn is_default(self) -> bool {
        &&& !self.enabled
        &&& self.capture_hotkey@ == "Ctrl+Shift+X"@
        &&& self.quick_ocr_hotkey@ == "Ctrl+Shift+O"@
        &&& self.capture_default_mode == CaptureMode::Region
        &&& self.show_shortcut_hints
        &&& self.mode_hotkeys.is_default()
        &&& self.provider == OcrProvider::OpenaiVision
        &&& self.base_url@ == "https://api.openai.com/v1"@
        &&& self.api_key@ == Seq::<char>::empty()
        &&& self.model@ == "gpt-4o-mini"@
        &&& self.timeout_ms == 45_000
        &&& self.prompt@
            == "You are an OCR engine. Extract all visible text from the image in natural reading order. Return plain text only, preserve line breaks when meaningful, and do not add explanations."@
        &&& self.post_action_id@ == "translate"@
    }
}

impl Default for OcrSettings {
    fn default() -> (settings: Self)
        ensures
            settings.is_default(),
    {
        OcrSettings {
            enabled: false,
            capture_hotkey: default_ocr_capture_hotkey(),
            quick_ocr_hotkey: default_ocr_quick_hotkey(),
            capture_default_mode: CaptureMode::default(),
            show_shortcut_hints: default_ocr_show_shortcut_hints(),
            mode_hotkeys: OcrModeHotkeys::default(),
            provider: OcrProvider::default(),
            base_url: default_ocr_base_url(),
            api_key: String::new(),
            model: default_ocr_model(),
            timeout_ms: default_ocr_timeout_ms(),
            prompt: default_ocr_prompt(),
            post_action_id: default_ocr_post_action_id(),
        }
    }
}

pub fn default_ocr_capture_hotkey() -> (hotkey: String)
    ensures
        hotkey@ == "Ctrl+Shift+X"@,
{
    "Ctrl+Shift+X".to_owned()
}

pub fn default_ocr_quick_hotkey() -> (hotkey: String)
    ensures
        hotkey@ == "Ctrl+Shift+O"@,
{
    "Ctrl+Shift+O".to_owned()
}

pub fn default_ocr_show_shortcut_hints() -> (show: bool)
    ensures
        show,
{
    true
}

pub fn default_ocr_base_url() -> (url: String)
    ensures
        url@ == "https://api.openai.com/v1"@,
{
    "https://api.openai.com/v1".to_owned()
}

pub fn default_ocr_model() -> (model: String)
    ensures
        model@ == "gpt-4o-mini"@,
{
    "gpt-4o-mini".to_owned()
}

pub fn default_ocr_timeout_ms() -> (timeout_ms: u64)
    ensures
        timeout_ms == 45_000,
{
    45_000
}

pub fn default_ocr_prompt() -> (prompt: String)
    ensures
        prompt@
            == "You are an OCR engine. Extract all visible text from the image in natural reading order. Return plain text only, preserve line breaks when meaningful, and do not add explanations."@,
{
    "You are an OCR engine. Extract all visible text from the image in natural reading order. Return plain text only, preserve line breaks when meaningful, and do not add explanations.".to_owned()
}

pub fn default_ocr_post_action_id() -> (id: String)
    ensures
        id@ == "translate"@,
{
    "translate".to_owned()
}

/// The service that recognises text.
#[derive(Debug, Copy, Clone, Eq, PartialEq, Structural)]
pub enum OcrProvider {
    OpenaiVision,
    GlmOcr,
}

impl Default for OcrProvider {
    fn default() -> (provider: Self)
        ensures
            provider == OcrProvider::OpenaiVision,
    {
        OcrProvider::OpenaiVision
    }
}

/// What a capture takes: a region, the whole screen or one window.
#[derive(Debug, Copy, Clone, Eq, PartialEq, Structural)]
pub enum CaptureMode {
    Region,
    Fullscreen,
    Window,
}

impl Default for CaptureMode {
    fn default() -> (mode: Self)
        ensures
            mode == CaptureMode::Region,
    {
        CaptureMode::Region
    }
}

/// The hotkey of each capture mode.
#[derive(Debug, Clone, PartialEq)]
pub struct OcrModeHotkeys {
    pub region: String,
    pub fullscreen: String,
    pub window: String,
}

impl OcrModeHotkeys {
    /// Whether every field has the value it starts with.
    pub open spec fn is_default(self) -> bool {
        &&& self.region@ == "Ctrl+Shift+X"@
        &&& self.fullscreen@ == "Ctrl+Shift+A"@
        &&& self.window@ == "Ctrl+Shift+M"@
    }
}

impl Default for OcrModeHotkeys {
    fn default() -> (hotkeys: Self)
        ensures
            hotkeys.is_default(),
    {
        OcrModeHotkeys {
            region: default_mode_hotkey_region(),
            fullscreen: default_mode_hotkey_fullscreen(),
            window: default_mode_hotkey_window(),
        }
    }
}

pub fn default_mode_hotkey_region() -> (hotkey: String)
    ensures
        hotkey@ == "Ctrl+Shift+X"@,
{
    "Ctrl+Shift+X".to_owned()
}

pub fn default_mode_hotkey_fullscreen() -> (hotkey: String)
    ensures
        hotkey@ == "Ctrl+Shift+A"@,
{
    "Ctrl+Shift+A".to_owned()
}

pub fn default_mode_hotkey_window() -> (hotkey: String)
    ensures
        hotkey@ == "Ctrl+Shift+M"@,
{
    "Ctrl+Shift+M".to_owned()
}

/// The model that each built-in feature asks.
#[derive(Debug, Clone, PartialEq)]
pub struct FeatureModels {
    pub translate: String,
    pub summarize: String,
    pub explain: String,
    pub optimize: String,
}

impl FeatureModels {
    /// Whether every field has the value it starts with.
    pub open spec fn is_default(self) -> bool {
        &&& self.translate@ == "gpt-4o-mini"@
        &&& self.summarize@ == "gpt-4o-mini"@
        &&& self.explain@ == "gpt-4o-mini"@
        &&& self.optimize@ == "gpt-4o-mini"@
    }
}

impl Default for FeatureModels {
    fn default() -> (models: Self)
        ensures
            models.is_default(),
    {
        FeatureModels {
            translate: default_feature_model(),
            summarize: default_feature_model(),
            explain: default_feature_model(),
            optimize: default_feature_model(),
        }
    }
}

pub fn default_feature_model() -> (model: String)
    ensures
        model@ == "gpt-4o-mini"@,
{
    "gpt-4o-mini".to_owned()
}

/// How the action bar looks and when it appears.
#[derive(Debug, Clone, PartialEq)]
pub struct ToolbarSettings {
    pub trigger_mode: TriggerMode,
    pub trigger_hotkey: String,
    pub compact_mode: bool,
    pub show_label: bool,
    pub theme_mode: ThemeMode,
    pub actions: Vec<ToolbarAction>,
}

pub fn default_trigger_hotkey() -> (hotkey: String)
    ensures
        hotkey@ == "Ctrl+Shift+Space"@,
{
    "Ctrl+Shift+Space".to_owned()
}

/// The actions of the bar in the order in which they start out.
pub open spec fn default_action_ids() -> Seq<ActionId> {
    seq![
        ActionId::Translate,
        ActionId::Explain,
        ActionId::Summarize,
        ActionId::Optimize,
        ActionId::Search,
        ActionId::Copy,
    ]
}

/// The labels of the bar's actions in the order in which they start out.
pub open spec fn default_action_labels() -> Seq<Seq<char>> {
    seq!["翻译"@, "解释"@, "总结"@, "优化"@, "搜索"@, "复制"@]
}

impl ToolbarSettings {
    /// Whether every field has the value it starts with: the six actions in
    /// their order, each enabled and under its label.
    pub open spec fn is_default(self) -> bool {
        &&& self.trigger_mode == TriggerMode::Selection
        &&& self.trigger_hotkey@ == "Ctrl+Shift+Space"@
        &&& !self.compact_mode
        &&& self.show_label
        &&& self.theme_mode == ThemeMode::Dark
        &&& self.actions@.len() == 6
        &&& forall|i: int|
            0 <= i < 6 ==> {
                &&& (#[trigger] self.actions@[i]).id == default_action_ids()[i]
                &&& self.actions@[i].label@ == default_action_labels()[i]
                &&& self.actions@[i].enabled
                &&& self.actions@[i].order == i
            }
    }
}

impl Default for ToolbarSettings {
    fn default() -> (settings: Self)
        ensures
            settings.is_default(),
    {
        ToolbarSettings {
            trigger_mode: TriggerMode::Selection,
            trigger_hotkey: default_trigger_hotkey(),
            compact_mode: false,
            show_label: true,
            theme_mode: ThemeMode::Dark,
            actions: vec![
                ToolbarAction::new(ActionId::Translate, "翻译", 0),
                ToolbarAction::new(ActionId::Explain, "解释", 1),
                ToolbarAction::new(ActionId::Summarize, "总结", 2),
                ToolbarAction::new(ActionId::Optimize, "优化", 3),
                ToolbarAction::new(ActionId::Search, "搜索", 4),
                ToolbarAction::new(ActionId::Copy, "复制", 5),
            ],
        }
    }
}

/// One button of the action bar.
#[derive(Debug, Clone, PartialEq)]
pub struct ToolbarAction {
    pub id: ActionId,
    pub label: String,
    pub enabled: bool,
    pub order: u8,
}

impl ToolbarAction {
    /// An enabled action with the given label and place.
    pub fn new(id: ActionId, label: &str, order: u8) -> (action: Self)
        ensures
            action.id == id,
            action.label@ == label@,
            action.enabled,
            action.order == order,
    {
        ToolbarAction { id, label: label.to_owned(), enabled: true, order }
    }
}

#[derive(Debug, Copy, Clone, Eq, PartialEq, Structural)]
pub enum ThemeMode {
    Light,
    Dark,
    System,
}

#[derive(Debug, Copy, Clone, Eq, PartialEq, Structural)]
pub enum TriggerMode {
    Selection,
    Ctrl,
    Hotkey,
}

#[derive(Debug, Copy, Clone, Eq, PartialEq, Structural)]
pub enum ActionId {
    Translate,
    Explain,
    Summarize,
    Optimize,
    Search,
    Copy,
}

#[derive(Debug, Copy, Clone, Eq, PartialEq, Structural)]
pub enum WindowSizePreset {
    Large,
    Medium,
    Small,
}

impl Default for WindowSizePreset {
    fn default() -> (preset: Self)
        ensures
            preset == WindowSizePreset::Large,
    {
        WindowSizePreset::Large
    }
}

/// How the feature windows behave.
#[derive(Debug, Clone, PartialEq)]
pub struct WindowSettings {
    pub follow_toolbar: bool,
    pub remember_size: bool,
    pub auto_close: bool,
    pub auto_pin: bool,
    pub window_size: WindowSizePreset,
    pub font_size: u32,
}

pub fn default_font_size() -> (size: u32)
    ensures
        size == 14,
{
    14
}

impl WindowSettings {
    /// Whether every field has the value it starts with.
    pub open spec fn is_default(self) -> bool {
        &&& self.follow_toolbar
        &&& self.remember_size
        &&& !self.auto_close
        &&& !self.auto_pin
        &&& self.window_size == WindowSizePreset::Large
        &&& self.font_size == 14
    }
}

impl Default for WindowSettings {
    fn default() -> (settings: Self)
        ensures
            settings.is_default(),
    {
        WindowSettings {
            follow_toolbar: true,
            remember_size: true,
            auto_close: false,
            auto_pin: false,
            window_size: WindowSizePreset::default(),
            font_size: default_font_size(),
        }
    }
}

/// Which features are offered.
#[derive(Debug, Clone, PartialEq)]
pub struct FeaturesSettings {
    pub custom_actions_enabled: bool,
    pub enabled_actions: Vec<ActionId>,
    pub custom_actions: Vec<CustomFeatureAction>,
}

impl FeaturesSettings {
    /// Whether every field has the value it starts with.
    pub open spec fn is_default(self) -> bool {
        &&& !self.custom_actions_enabled
        &&& self.enabled_actions@ == default_action_ids()
        &&& self.custom_actions@.len() == 0
    }
}

impl Default for FeaturesSettings {
    fn default() -> (settings: Self)
        ensures
            settings.is_default(),
    {
        FeaturesSettings {
            custom_actions_enabled: false,
            enabled_actions: default_enabled_actions(),
            custom_actions: Vec::new(),
        }
    }
}

pub fn default_enabled_actions() -> (actions: Vec<ActionId>)
    ensures
        actions@ == default_action_ids(),
{
    let actions = vec![
        ActionId::Translate,
        ActionId::Explain,
        ActionId::Summarize,
        ActionId::Optimize,
        ActionId::Search,
        ActionId::Copy,
    ];
    actions
}

/// An action that the user has defined.
#[derive(Debug, Clone, PartialEq)]
pub struct CustomFeatureAction {
    pub id: String,
    pub name: String,
    pub icon: String,
    pub prompt: String,
    pub model: String,
    pub enabled: bool,
    pub order: u16,
}

/// Settings for troubleshooting and filtering.
#[derive(Debug, Clone, PartialEq)]
pub struct AdvancedSettings {
    pub app_filter_mode: AppFilterMode,
    pub app_list: Vec<String>,
    pub log_level: LogLevel,
}

impl AdvancedSettings {
    /// Whether every field has the value it starts with.
    pub open spec fn is_default(self) -> bool {
        &&& self.app_filter_mode == AppFilterMode::Off
        &&& self.app_list@.len() == 0
        &&& self.log_level == LogLevel::Info
    }
}

impl Default for AdvancedSettings {
    fn default() -> (settings: Self)
        ensures
            settings.is_default(),
    {
        AdvancedSettings {
            app_filter_mode: AppFilterMode::Off,
            app_list: Vec::new(),
            log_level: LogLevel::Info,
        }
    }
}

#[derive(Debug, Copy, Clone, Eq, PartialEq, Structural)]
pub enum AppFilterMode {
    Off,
    Whitelist,
    Blacklist,
}

#[derive(Debug, Copy, Clone, Eq, PartialEq, Structural)]
pub enum LogLevel {
    Error,
    Warn,
    Info,
    Debug,
}

} // verus!
