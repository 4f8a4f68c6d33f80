//! Which global hotkeys are registered, and what changes when the settings do.
//!
//! A key is a symbolic string such as `Ctrl+Shift+X`. Two keys that differ
//! only in the case of ASCII letters are the same key to the operating system.

use crate::settings::model::{CaptureMode, OcrSettings};
use crate::text::{ascii_lowercase, text_of, texts, to_ascii_lowercase, trim, trimmed};
use vstd::prelude::*;
use vstd::string::StringExecFns;

verus! {

/// How a capture was asked for: to keep the picture, or to read its text.
#[derive(Debug, Copy, Clone, PartialEq, Eq, Structural)]
pub enum CaptureEntryKind {
    Screenshot,
    Ocr,
}

impl CaptureEntryKind {
    /// The tag of the kind, as a sequence of characters.
    pub open spec fn tag(self) -> Seq<char> {
        match self {
            CaptureEntryKind::Screenshot => "screenshot"@,
            CaptureEntryKind::Ocr => "ocr"@,
        }
    }

    /// The tag under which the overlay learns how it was opened.
    pub fn as_str(self) -> (tag: &'static str)
        ensures
            tag@ == self.tag(),
    {
        match self {
            CaptureEntryKind::Screenshot => "screenshot",
            CaptureEntryKind::Ocr => "ocr",
        }
    }
}

/// The tag of a capture mode, as a sequence of characters.
pub open spec fn capture_mode_tag(mode: CaptureMode) -> Seq<char> {
    match mode {
        CaptureMode::Region => "region"@,
        CaptureMode::Fullscreen => "fullscreen"@,
        CaptureMode::Window => "window"@,
    }
}

/// The tag by which a capture mode is named in requests and events.
pub fn capture_mode_to_str(mode: CaptureMode) -> (tag: &'static str)
    ensures
        tag@ == capture_mode_tag(mode),
{
    match mode {
        CaptureMode::Region => "region",
        CaptureMode::Fullscreen => "fullscreen",
        CaptureMode::Window => "window",
    }
}

/// The hotkeys of the four capture actions; `None` where an action has none.
#[derive(Debug, Clone, Eq, PartialEq)]
pub struct RegisteredOcrHotkeys {
    pub screenshot_hotkey: Option<String>,
    pub fullscreen_hotkey: Option<String>,
    pub window_hotkey: Option<String>,
    pub quick_ocr_hotkey: Option<String>,
}

/// [`RegisteredOcrHotkeys`] with each key as a sequence of characters.
pub struct HotkeySetView {
    pub screenshot: Option<Seq<char>>,
    pub fullscreen: Option<Seq<char>>,
    pub window: Option<Seq<char>>,
    pub quick_ocr: Option<Seq<char>>,
}

impl View for RegisteredOcrHotkeys {
    type V = HotkeySetView;

    open spec fn view(&self) -> HotkeySetView {
        HotkeySetView {
            screenshot: text_of(self.screenshot_hotkey),
            fullscreen: text_of(self.fullscreen_hotkey),
            window: text_of(self.window_hotkey),
            quick_ocr: text_of(self.quick_ocr_hotkey),
        }
    }
}

impl Default for RegisteredOcrHotkeys {
    fn default() -> (hotkeys: Self)
        ensures
            hotkeys@ == HotkeySetView::none(),
    {
        RegisteredOcrHotkeys {
            screenshot_hotkey: None,
            fullscreen_hotkey: None,
            window_hotkey: None,
            quick_ocr_hotkey: None,
        }
    }
}

impl HotkeySetView {
    /// The set without any key.
    pub open spec fn none() -> HotkeySetView {
        HotkeySetView { screenshot: None, fullscreen: None, window: None, quick_ocr: None }
    }

    /// The keys that are present, in the order in which they are released:
    /// region screenshot, full screen, window, quick recognition.
    pub open spec fn keys(self) -> Seq<Seq<char>> {
        present(self.screenshot) + present(self.fullscreen) + present(self.window) + present(
            self.quick_ocr,
        )
    }

    /// The bindings that are wanted, from the highest priority to the lowest:
    /// quick recognition, full screen, window, region screenshot.
    pub open spec fn candidates(self) -> Seq<HotkeyBindingView> {
        candidate(
            self.quick_ocr,
            CaptureEntryKind::Ocr,
            CaptureMode::Region,
            "ocr hotkey"@,
        ) + candidate(
            self.fullscreen,
            CaptureEntryKind::Screenshot,
            CaptureMode::Fullscreen,
            "fullscreen screenshot hotkey"@,
        ) + candidate(
            self.window,
            CaptureEntryKind::Screenshot,
            CaptureMode::Window,
            "window screenshot hotkey"@,
        ) + candidate(
            self.screenshot,
            CaptureEntryKind::Screenshot,
            CaptureMode::Region,
            "region screenshot hotkey"@,
        )
    }
}

/// A key as a sequence of one element, or the empty sequence.
pub open spec fn present(key: Option<Seq<char>>) -> Seq<Seq<char>> {
    match key {
        Some(k) => seq![k],
        None => seq![],
    }
}

/// The binding of a key to an action as a sequence of one element, or the
/// empty sequence where the key is absent.
pub open spec fn candidate(
    key: Option<Seq<char>>,
    entry_kind: CaptureEntryKind,
    mode: CaptureMode,
    label: Seq<char>,
) -> Seq<HotkeyBindingView> {
    match key {
        Some(k) => seq![
            HotkeyBindingView { hotkey: k, entry_kind, initial_mode: Some(mode), label },
        ],
        None => seq![],
    }
}

/// A key and the capture that it starts.
#[derive(Debug, Clone)]
pub struct HotkeyBinding {
    /// The key as the user wrote it, without surrounding white space.
    pub hotkey: String,
    pub entry_kind: CaptureEntryKind,
    pub initial_mode: Option<CaptureMode>,
    /// What the binding is called in messages.
    pub label: &'static str,
}

/// [`HotkeyBinding`] with its texts as sequences of characters.
pub struct HotkeyBindingView {
    pub hotkey: Seq<char>,
    pub entry_kind: CaptureEntryKind,
    pub initial_mode: Option<CaptureMode>,
    pub label: Seq<char>,
}

impl View for HotkeyBinding {
    type V = HotkeyBindingView;

    open spec fn view(&self) -> HotkeyBindingView {
        HotkeyBindingView {
            hotkey: self.hotkey@,
            entry_kind: self.entry_kind,
            initial_mode: self.initial_mode,
            label: self.label@,
        }
    }
}

/// The key that a setting asks for: its text without surrounding white space,
/// or none where capture is disabled or the text is blank.
pub open spec fn wanted_key(enabled: bool, setting: Seq<char>) -> Option<Seq<char>> {
    if enabled && trimmed(setting).len() > 0 {
        Some(trimmed(setting))
    } else {
        None
    }
}

/// The hotkeys that the settings ask for.
pub open spec fn wanted_hotkeys(ocr: OcrSettings) -> HotkeySetView {
    HotkeySetView {
        screenshot: wanted_key(ocr.enabled, ocr.capture_hotkey@),
        fullscreen: wanted_key(ocr.enabled, ocr.mode_hotkeys.fullscreen@),
        window: wanted_key(ocr.enabled, ocr.mode_hotkeys.window@),
        quick_ocr: wanted_key(ocr.enabled, ocr.quick_ocr_hotkey@),
    }
}

fn hotkey_setting(enabled: bool, setting: &str) -> (key: Option<String>)
    ensures
        text_of(key) == wanted_key(enabled, setting@),
{
    if !enabled {
        return None;
    }
    let hotkey = trim(setting);
    if hotkey.is_empty() {
        None
    } else {
        Some(hotkey.to_owned())
    }
}

/// Reads from the settings which hotkeys should be registered.
pub fn desired_hotkeys(ocr: &OcrSettings) -> (desired: RegisteredOcrHotkeys)
    ensures
        desired@ == wanted_hotkeys(*ocr),
{
    RegisteredOcrHotkeys {
        screenshot_hotkey: hotkey_setting(ocr.enabled, ocr.capture_hotkey.as_str()),
        fullscreen_hotkey: hotkey_setting(ocr.enabled, ocr.mode_hotkeys.fullscreen.as_str()),
        window_hotkey: hotkey_setting(ocr.enabled, ocr.mode_hotkeys.window.as_str()),
        quick_ocr_hotkey: hotkey_setting(ocr.enabled, ocr.quick_ocr_hotkey.as_str()),
    }
}

/// The view of each binding.
pub open spec fn binding_views(bindings: Seq<HotkeyBinding>) -> Seq<HotkeyBindingView> {
    bindings.map_values(|b: HotkeyBinding| b@)
}

/// The key of each binding.
pub open spec fn binding_keys(bindings: Seq<HotkeyBindingView>) -> Seq<Seq<char>> {
    bindings.map_values(|b: HotkeyBindingView| b.hotkey)
}

/// Whether no index before `i` holds the key at `i`, ignoring case.
pub open spec fn is_first_claim(keys: Seq<Seq<char>>, i: int) -> bool {
    forall|j: int| 0 <= j < i ==> ascii_lowercase(#[trigger] keys[j]) != ascii_lowercase(keys[i])
}

/// Whether `key` is one of `keys`, ignoring case.
pub open spec fn key_among(keys: Seq<Seq<char>>, key: Seq<char>) -> bool {
    exists|j: int|
        0 <= j < keys.len() && ascii_lowercase(#[trigger] keys[j]) == ascii_lowercase(key)
}

/// The indices below `n`, in rising order, at which a key occurs for the
/// first time.
pub open spec fn claiming(keys: Seq<Seq<char>>, n: int) -> Seq<int>
    decreases n,
{
    if n <= 0 {
        seq![]
    } else if is_first_claim(keys, n - 1) {
        claiming(keys, n - 1).push(n - 1)
    } else {
        claiming(keys, n - 1)
    }
}

/// The indices below `n`, in rising order, at which a key of `active` occurs
/// for the first time and is none of `desired`.
pub open spec fn releasing(active: Seq<Seq<char>>, desired: Seq<Seq<char>>, n: int) -> Seq<int>
    decreases n,
{
    if n <= 0 {
        seq![]
    } else if is_first_claim(active, n - 1) && !key_among(desired, active[n - 1]) {
        releasing(active, desired, n - 1).push(n - 1)
    } else {
        releasing(active, desired, n - 1)
    }
}

/// The bindings to register for `desired`: each wanted binding whose key no
/// binding of higher priority has, in order of priority.
pub open spec fn registrations(desired: HotkeySetView) -> Seq<HotkeyBindingView> {
    let wanted = desired.candidates();
    claiming(binding_keys(wanted), wanted.len() as int).map_values(|i: int| wanted[i])
}

/// The keys to unregister on the way from `active` to `desired`: each active
/// key that is not wanted any more, once.
pub open spec fn unregistrations(active: HotkeySetView, desired: HotkeySetView) -> Seq<Seq<char>> {
    let held = active.keys();
    releasing(held, desired.keys(), held.len() as int).map_values(|i: int| held[i])
}

/// What to ask of the operating system so that the registered hotkeys become
/// the desired ones.
#[derive(Debug, Clone)]
pub struct HotkeySyncPlan {
    /// Keys to unregister, each once.
    pub unregister: Vec<String>,
    /// Bindings to register, from the highest priority to the lowest.
    pub register: Vec<HotkeyBinding>,
}

fn same_key(a: &Option<String>, b: &Option<String>) -> (same: bool)
    ensures
        same == (text_of(*a) == text_of(*b)),
{
    match (a, b) {
        (Some(x), Some(y)) => *x == *y,
        (None, None) => true,
        _ => false,
    }
}

/// Whether two sets hold the same key for each action, letter for letter.
pub fn same_hotkeys(a: &RegisteredOcrHotkeys, b: &RegisteredOcrHotkeys) -> (same: bool)
    ensures
        same == (a@ == b@),
{
    same_key(&a.screenshot_hotkey, &b.screenshot_hotkey) && same_key(
        &a.fullscreen_hotkey,
        &b.fullscreen_hotkey,
    ) && same_key(&a.window_hotkey, &b.window_hotkey) && same_key(
        &a.quick_ocr_hotkey,
        &b.quick_ocr_hotkey,
    )
}

fn push_present(keys: &mut Vec<String>, key: &Option<String>)
    ensures
        texts(final(keys)@) == texts(old(keys)@) + present(text_of(*key)),
{
    match key {
        Some(k) => {
            keys.push(k.clone());
        },
        None => {},
    }
}

fn present_keys(set: &RegisteredOcrHotkeys) -> (keys: Vec<String>)
    ensures
        texts(keys@) == set@.keys(),
{
    let mut keys: Vec<String> = Vec::new();
    push_present(&mut keys, &set.screenshot_hotkey);
    push_present(&mut keys, &set.fullscreen_hotkey);
    push_present(&mut keys, &set.window_hotkey);
    push_present(&mut keys, &set.quick_ocr_hotkey);
    keys
}

fn push_candidate(
    bindings: &mut Vec<HotkeyBinding>,
    key: &Option<String>,
    entry_kind: CaptureEntryKind,
    mode: CaptureMode,
    label: &'static str,
)
    ensures
        binding_views(final(bindings)@) == binding_views(old(bindings)@) + candidate(
            text_of(*key),
            entry_kind,
            mode,
            label@,
        ),
{
    match key {
        Some(k) => {
            bindings.push(
                HotkeyBinding { hotkey: k.clone(), entry_kind, initial_mode: Some(mode), label },
            );
        },
        None => {},
    }
}

/// The bindings that `set` asks for, from the highest priority to the lowest.
pub fn candidate_bindings(set: &RegisteredOcrHotkeys) -> (bindings: Vec<HotkeyBinding>)
    ensures
        binding_views(bindings@) == set@.candidates(),
{
    let mut bindings: Vec<HotkeyBinding> = Vec::new();
    push_candidate(
        &mut bindings,
        &set.quick_ocr_hotkey,
        CaptureEntryKind::Ocr,
        CaptureMode::Region,
        "ocr hotkey",
    );
    push_candidate(
        &mut bindings,
        &set.fullscreen_hotkey,
        CaptureEntryKind::Screenshot,
        CaptureMode::Fullscreen,
        "fullscreen screenshot hotkey",
    );
    push_candidate(
        &mut bindings,
        &set.window_hotkey,
        CaptureEntryKind::Screenshot,
        CaptureMode::Window,
        "window screenshot hotkey",
    );
    push_candidate(
        &mut bindings,
        &set.screenshot_hotkey,
        CaptureEntryKind::Screenshot,
        CaptureMode::Region,
        "region screenshot hotkey",
    );
    bindings
}

/// The lower-case form of each key.
fn normalized_keys(keys: &Vec<String>) -> (normalized: Vec<String>)
    ensures
        normalized@.len() == keys@.len(),
        forall|i: int|
            0 <= i < keys@.len() ==> (#[trigger] normalized@[i])@ == ascii_lowercase(keys@[i]@),
{
    let mut normalized: Vec<String> = Vec::new();
    let mut i: usize = 0;
    while i < keys.len()
        invariant
            i <= keys@.len(),
            normalized@.len() == i,
            forall|j: int| 0 <= j < i ==> (#[trigger] normalized@[j])@ == ascii_lowercase(keys@[j]@),
        decreases keys@.len() - i,
    {
        normalized.push(to_ascii_lowercase(keys[i].as_str()));
        i += 1;
    }
    normalized
}

/// Whether one of the first `end` entries of `normalized` equals `key`.
fn occurs_among(normalized: &Vec<String>, end: usize, key: &String) -> (found: bool)
    requires
        end <= normalized@.len(),
    ensures
        found == exists|j: int| 0 <= j < end && (#[trigger] normalized@[j])@ == key@,
{
    let mut j: usize = 0;
    while j < end
        invariant
            j <= end <= normalized@.len(),
            forall|k: int| 0 <= k < j ==> (#[trigger] normalized@[k])@ != key@,
        decreases end - j,
    {
        if normalized[j] == *key {
            return true;
        }
        j += 1;
    }
    false
}

/// The keys of `active` to unregister when `desired` is wanted.
fn keys_to_release(active: &RegisteredOcrHotkeys, desired: &RegisteredOcrHotkeys) -> (keys: Vec<
    String,
>)
    ensures
        texts(keys@) == unregistrations(active@, desired@),
{
    let held = present_keys(active);
    let wanted = present_keys(desired);
    let held_normalized = normalized_keys(&held);
    let wanted_normalized = normalized_keys(&wanted);
    let ghost held_texts = texts(held@);
    let ghost wanted_texts = texts(wanted@);

    let mut keys: Vec<String> = Vec::new();
    let mut i: usize = 0;
    while i < held.len()
        invariant
            i <= held@.len(),
            held_texts == texts(held@),
            wanted_texts == texts(wanted@),
            held_normalized@.len() == held@.len(),
            wanted_normalized@.len() == wanted@.len(),
            forall|j: int|
                0 <= j < held@.len() ==> (#[trigger] held_normalized@[j])@ == ascii_lowercase(
                    held@[j]@,
                ),
            forall|j: int|
                0 <= j < wanted@.len() ==> (#[trigger] wanted_normalized@[j])@ == ascii_lowercase(
                    wanted@[j]@,
                ),
            texts(keys@) == releasing(held_texts, wanted_texts, i as int).map_values(
                |k: int| held_texts[k],
            ),
        decreases held@.len() - i,
    {
        let seen = occurs_among(&held_normalized, i, &held_normalized[i]);
        let kept = occurs_among(&wanted_normalized, wanted_normalized.len(), &held_normalized[i]);
        proof {
            assert(seen == !is_first_claim(held_texts, i as int)) by {
                if seen {
                    let j = choose|j: int|
                        0 <= j < i && (#[trigger] held_normalized@[j])@ == held_normalized@[i as int]@;
                    assert(ascii_lowercase(held_texts[j]) == ascii_lowercase(held_texts[i as int]));
                } else {
                    assert forall|j: int| 0 <= j < i implies ascii_lowercase(
                        #[trigger] held_texts[j],
                    ) != ascii_lowercase(held_texts[i as int]) by {
                        assert(held_normalized@[j]@ != held_normalized@[i as int]@);
                    }
                }
            }
            assert(kept == key_among(wanted_texts, held_texts[i as int])) by {
                if kept {
                    let j = choose|j: int|
                        0 <= j < wanted_normalized@.len() && (#[trigger] wanted_normalized@[j])@
                            == held_normalized@[i as int]@;
                    assert(ascii_lowercase(wanted_texts[j]) == ascii_lowercase(
                        held_texts[i as int],
                    ));
                } else {
                    assert forall|j: int| 0 <= j < wanted_texts.len() implies ascii_lowercase(
                        #[trigger] wanted_texts[j],
                    ) != ascii_lowercase(held_texts[i as int]) by {
                        assert(wanted_normalized@[j]@ != held_normalized@[i as int]@);
                    }
                }
            }
        }
        let ghost before = keys@;
        if !seen && !kept {
            keys.push(held[i].clone());
            assert(texts(keys@) =~= texts(before).push(held_texts[i as int]));
        }
        i += 1;
    }
    keys
}

/// The bindings to register when `desired` is wanted.
fn bindings_to_claim(desired: &RegisteredOcrHotkeys) -> (bindings: Vec<HotkeyBinding>)
    ensures
        binding_views(bindings@) == registrations(desired@),
{
    let wanted = candidate_bindings(desired);
    let ghost wanted_views = binding_views(wanted@);
    let ghost wanted_keys = binding_keys(wanted_views);

    let mut raw_keys: Vec<String> = Vec::new();
    let mut k: usize = 0;
    while k < wanted.len()
        invariant
            k <= wanted@.len(),
            raw_keys@.len() == k,
            forall|j: int| 0 <= j < k ==> (#[trigger] raw_keys@[j])@ == wanted@[j].hotkey@,
        decreases wanted@.len() - k,
    {
        raw_keys.push(wanted[k].hotkey.clone());
        k += 1;
    }
    let normalized = normalized_keys(&raw_keys);

    let mut bindings: Vec<HotkeyBinding> = Vec::new();
    let mut i: usize = 0;
    while i < wanted.len()
        invariant
            i <= wanted@.len(),
            wanted_views == binding_views(wanted@),
            wanted_keys == binding_keys(wanted_views),
            normalized@.len() == wanted@.len(),
            forall|j: int|
                0 <= j < wanted@.len() ==> (#[trigger] normalized@[j])@ == ascii_lowercase(
                    wanted@[j].hotkey@,
                ),
            binding_views(bindings@) == claiming(wanted_keys, i as int).map_values(
                |m: int| wanted_views[m],
            ),
        decreases wanted@.len() - i,
    {
        let seen = occurs_among(&normalized, i, &normalized[i]);
        proof {
            assert(seen == !is_first_claim(wanted_keys, i as int)) by {
                if seen {
                    let j = choose|j: int|
                        0 <= j < i && (#[trigger] normalized@[j])@ == normalized@[i as int]@;
                    assert(ascii_lowercase(wanted_keys[j]) == ascii_lowercase(wanted_keys[i as int]));
                } else {
                    assert forall|j: int| 0 <= j < i implies ascii_lowercase(
                        #[trigger] wanted_keys[j],
                    ) != ascii_lowercase(wanted_keys[i as int]) by {
                        assert(normalized@[j]@ != normalized@[i as int]@);
                    }
                }
            }
        }
        let ghost before = bindings@;
        if !seen {
            let binding = &wanted[i];
            bindings.push(
                HotkeyBinding {
                    hotkey: binding.hotkey.clone(),
                    entry_kind: binding.entry_kind,
                    initial_mode: binding.initial_mode,
                    label: binding.label,
                },
            );
            assert(binding_views(bindings@) =~= binding_views(before).push(
                wanted_views[i as int],
            ));
        }
        i += 1;
    }
    bindings
}

/// Plans the way from the hotkeys that are registered to those that are
/// desired.
///
/// Where the two sets are the same, nothing is to be done. Otherwise every
/// active key that is no longer wanted is unregistered once, and every wanted
/// key is registered once, for the action of highest priority that wants it.
pub fn plan_hotkey_sync(active: &RegisteredOcrHotkeys, desired: &RegisteredOcrHotkeys) -> (plan:
    HotkeySyncPlan)
    ensures
        active@ == desired@ ==> plan.unregister@.len() == 0 && plan.register@.len() == 0,
        active@ != desired@ ==> texts(plan.unregister@) == unregistrations(active@, desired@),
        active@ != desired@ ==> binding_views(plan.register@) == registrations(desired@),
{
    if same_hotkeys(active, desired) {
        HotkeySyncPlan { unregister: Vec::new(), register: Vec::new() }
    } else {
        HotkeySyncPlan {
            unregister: keys_to_release(active, desired),
            register: bindings_to_claim(desired),
        }
    }
}

/// The hotkeys that are registered with the operating system.
#[derive(Debug)]
pub struct HotkeyRouter {
    active: RegisteredOcrHotkeys,
}

impl View for HotkeyRouter {
    type V = HotkeySetView;

    closed spec fn view(&self) -> HotkeySetView {
        self.active@
    }
}

impl HotkeyRouter {
    /// A router with no hotkey registered.
    pub fn new() -> (router: Self)
        ensures
            router@ == HotkeySetView::none(),
    {
        HotkeyRouter { active: RegisteredOcrHotkeys::default() }
    }

    /// The hotkeys that were committed last.
    pub fn active(&self) -> (active: &RegisteredOcrHotkeys)
        ensures
            active@ == self@,
    {
        &self.active
    }

    /// Plans the way from the registered hotkeys to `desired`; the record of
    /// what is registered stays as it is until [`HotkeyRouter::commit`].
    pub fn plan(&self, desired: &RegisteredOcrHotkeys) -> (plan: HotkeySyncPlan)
        ensures
            self@ == desired@ ==> plan.unregister@.len() == 0 && plan.register@.len() == 0,
            self@ != desired@ ==> texts(plan.unregister@) == unregistrations(self@, desired@),
            self@ != desired@ ==> binding_views(plan.register@) == registrations(desired@),
    {
        plan_hotkey_sync(&self.active, desired)
    }

    /// Records, once every step of a plan has been attempted, that `desired`
    /// is what is registered.
    pub fn commit(&mut self, desired: RegisteredOcrHotkeys)
        ensures
            final(self)@ == desired@,
    {
        self.active = desired;
    }
}

/// The message for a binding that the operating system refused.
pub open spec fn registration_failure_text(binding: HotkeyBindingView, error: Seq<char>) -> Seq<
    char,
> {
    "failed to register "@ + binding.label + " `"@ + binding.hotkey + "`: "@ + error
}

/// The message for a binding that the operating system refused, given the
/// reason it gave.
pub fn registration_failure(binding: &HotkeyBinding, error: &str) -> (message: String)
    ensures
        message@ == registration_failure_text(binding@, error@),
{
    let mut message = "failed to register ".to_owned();
    message.append(binding.label);
    message.append(" `");
    message.append(binding.hotkey.as_str());
    message.append("`: ");
    message.append(error);
    message
}

/// Whether index `k` is the first at which a registration failed.
pub open spec fn is_first_failure(
    bindings: Seq<HotkeyBinding>,
    outcomes: Seq<Option<String>>,
    k: int,
) -> bool {
    &&& 0 <= k < bindings.len()
    &&& k < outcomes.len()
    &&& outcomes[k] is Some
    &&& forall|j: int| 0 <= j < k ==> (#[trigger] outcomes[j]) is None
}

/// The result of a pass in which every binding of a plan was attempted:
/// `outcomes[k]` is the reason for which `bindings[k]` was refused, or `None`
/// where it was registered. The first refusal is reported.
pub fn registration_report(bindings: &Vec<HotkeyBinding>, outcomes: &Vec<Option<String>>) -> (report:
    Result<(), String>)
    ensures
        report is Ok <==> forall|k: int|
            0 <= k < bindings@.len() && k < outcomes@.len() ==> (#[trigger] outcomes@[k]) is None,
        report matches Err(message) ==> exists|k: int|
            is_first_failure(bindings@, outcomes@, k) && message@ == registration_failure_text(
                bindings@[k]@,
                outcomes@[k]->0@,
            ),
{
    let mut k: usize = 0;
    while k < bindings.len() && k < outcomes.len()
        invariant
            forall|j: int| 0 <= j < k ==> (#[trigger] outcomes@[j]) is None,
        decreases bindings@.len() - k,
    {
        match &outcomes[k] {
            Some(error) => {
                let message = registration_failure(&bindings[k], error.as_str());
                assert(is_first_failure(bindings@, outcomes@, k as int));
                return Err(message);
            },
            None => {},
        }
        k += 1;
    }
    Ok(())
}

/// Every index that [`claiming`] yields lies below `n` and holds its key
/// first; the indices rise; and every index below `n` that holds its key
/// first is yielded.
pub proof fn lemma_claiming(keys: Seq<Seq<char>>, n: int)
    requires
        0 <= n <= keys.len(),
    ensures
        forall|k: int|
            0 <= k < claiming(keys, n).len() ==> 0 <= #[trigger] claiming(keys, n)[k] < n
                && is_first_claim(keys, claiming(keys, n)[k]),
        forall|a: int, b: int|
            0 <= a < b < claiming(keys, n).len() ==> #[trigger] claiming(keys, n)[a]
                < #[trigger] claiming(keys, n)[b],
        forall|m: int|
            0 <= m < n && is_first_claim(keys, m) ==> exists|k: int|
                0 <= k < claiming(keys, n).len() && #[trigger] claiming(keys, n)[k] == m,
    decreases n,
{
    if n > 0 {
        lemma_claiming(keys, n - 1);
        let before = claiming(keys, n - 1);
        let now = claiming(keys, n);
        if is_first_claim(keys, n - 1) {
            assert forall|m: int| 0 <= m < n && is_first_claim(keys, m) implies exists|k: int|
                0 <= k < now.len() && #[trigger] now[k] == m by {
                if m == n - 1 {
                    assert(now[before.len() as int] == m);
                } else {
                    let k = choose|k: int| 0 <= k < before.len() && #[trigger] before[k] == m;
                    assert(now[k] == m);
                }
            }
        }
    }
}

/// The first index that holds the key found at `j`, ignoring case.
pub proof fn lemma_first_holder(keys: Seq<Seq<char>>, j: int) -> (owner: int)
    requires
        0 <= j < keys.len(),
    ensures
        0 <= owner <= j,
        ascii_lowercase(keys[owner]) == ascii_lowercase(keys[j]),
        is_first_claim(keys, owner),
    decreases j,
{
    if is_first_claim(keys, j) {
        j
    } else {
        let earlier = choose|e: int|
            0 <= e < j && ascii_lowercase(#[trigger] keys[e]) == ascii_lowercase(keys[j]);
        lemma_first_holder(keys, earlier)
    }
}

/// Where two wanted bindings have the same key, ignoring case, exactly one
/// registration has that key, and it is the binding of highest priority
/// among those that want the key.
pub proof fn lemma_shared_key_is_registered_once(desired: HotkeySetView, i: int, j: int)
    requires
        0 <= i < j < desired.candidates().len(),
        ascii_lowercase(desired.candidates()[i].hotkey) == ascii_lowercase(
            desired.candidates()[j].hotkey,
        ),
    ensures
        ({
            let wanted = desired.candidates();
            let registered = registrations(desired);
            let key = ascii_lowercase(wanted[j].hotkey);
            exists|k: int, owner: int|
                {
                    &&& 0 <= k < registered.len()
                    &&& 0 <= owner <= i
                    &&& #[trigger] registered[k] == #[trigger] wanted[owner]
                    &&& ascii_lowercase(wanted[owner].hotkey) == key
                    &&& forall|m: int|
                        0 <= m < owner ==> ascii_lowercase((#[trigger] wanted[m]).hotkey) != key
                    &&& forall|other: int|
                        0 <= other < registered.len() && ascii_lowercase(
                            (#[trigger] registered[other]).hotkey,
                        ) == key ==> other == k
                }
        }),
{
    let wanted = desired.candidates();
    let keys = binding_keys(wanted);
    let n = wanted.len() as int;
    let chosen = claiming(keys, n);
    let registered = registrations(desired);
    let key = ascii_lowercase(wanted[j].hotkey);
    lemma_claiming(keys, n);
    let owner = lemma_first_holder(keys, j);
    assert(keys[i] == wanted[i].hotkey);
    let k = choose|k: int| 0 <= k < chosen.len() && #[trigger] chosen[k] == owner;
    assert(registered[k] == wanted[owner]);
    assert forall|m: int| 0 <= m < owner implies ascii_lowercase((#[trigger] wanted[m]).hotkey)
        != key by {
        assert(keys[m] == wanted[m].hotkey);
    }
    assert forall|other: int|
        0 <= other < registered.len() && ascii_lowercase((#[trigger] registered[other]).hotkey)
            == key implies other == k by {
        let at = chosen[other];
        assert(keys[at] == wanted[at].hotkey);
        assert(at == owner);
    }
}

/// No key is unregistered twice, and none that is still wanted.
pub proof fn lemma_each_key_is_released_once(active: HotkeySetView, desired: HotkeySetView)
    ensures
        forall|a: int, b: int|
            0 <= a < b < unregistrations(active, desired).len() ==> ascii_lowercase(
                #[trigger] unregistrations(active, desired)[a],
            ) != ascii_lowercase(#[trigger] unregistrations(active, desired)[b]),
        forall|a: int|
            0 <= a < unregistrations(active, desired).len() ==> !key_among(
                desired.keys(),
                #[trigger] unregistrations(active, desired)[a],
            ),
{
    let held = active.keys();
    let wanted = desired.keys();
    lemma_releasing(held, wanted, held.len() as int);
    let chosen = releasing(held, wanted, held.len() as int);
    let released = unregistrations(active, desired);
    assert forall|a: int, b: int| 0 <= a < b < released.len() implies ascii_lowercase(
        #[trigger] released[a],
    ) != ascii_lowercase(#[trigger] released[b]) by {
        assert(chosen[a] < chosen[b]);
    }
    assert forall|a: int| 0 <= a < released.len() implies !key_among(
        wanted,
        #[trigger] released[a],
    ) by {
        assert(released[a] == held[chosen[a]]);
    }
}

proof fn lemma_releasing(active: Seq<Seq<char>>, desired: Seq<Seq<char>>, n: int)
    requires
        0 <= n <= active.len(),
    ensures
        forall|k: int|
            0 <= k < releasing(active, desired, n).len() ==> {
                &&& 0 <= #[trigger] releasing(active, desired, n)[k] < n
                &&& is_first_claim(active, releasing(active, desired, n)[k])
                &&& !key_among(desired, active[releasing(active, desired, n)[k]])
            },
        forall|a: int, b: int|
            0 <= a < b < releasing(active, desired, n).len() ==> #[trigger] releasing(
                active,
                desired,
                n,
            )[a] < #[trigger] releasing(active, desired, n)[b],
    decreases n,
{
    if n > 0 {
        lemma_releasing(active, desired, n - 1);
        let before = releasing(active, desired, n - 1);
        if is_first_claim(active, n - 1) && !key_among(desired, active[n - 1]) {
            assert(releasing(active, desired, n) == before.push(n - 1));
        } else {
            assert(releasing(active, desired, n) == before);
        }
    }
}

} // verus!
