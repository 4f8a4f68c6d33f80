use snapparse::ocr::hotkeys::{
    candidate_bindings, capture_mode_to_str, desired_hotkeys, plan_hotkey_sync,
    registration_failure, registration_report, same_hotkeys, CaptureEntryKind, HotkeyRouter,
    RegisteredOcrHotkeys,
};
use snapparse::settings::model::{CaptureMode, OcrSettings};

fn keys(
    screenshot: Option<&str>,
    fullscreen: Option<&str>,
    window: Option<&str>,
    quick: Option<&str>,
) -> RegisteredOcrHotkeys {
    RegisteredOcrHotkeys {
        screenshot_hotkey: screenshot.map(String::from),
        fullscreen_hotkey: fullscreen.map(String::from),
        window_hotkey: window.map(String::from),
        quick_ocr_hotkey: quick.map(String::from),
    }
}

#[test]
fn disabled_capture_wants_no_hotkey() {
    let settings = OcrSettings::default();
    assert!(!settings.enabled);
    assert_eq!(desired_hotkeys(&settings), RegisteredOcrHotkeys::default());
    assert_eq!(RegisteredOcrHotkeys::default(), keys(None, None, None, None));
}

#[test]
fn enabled_capture_wants_the_trimmed_keys_that_are_not_blank() {
    let mut settings = OcrSettings::default();
    settings.enabled = true;
    assert_eq!(
        desired_hotkeys(&settings),
        keys(Some("Ctrl+Shift+X"), Some("Ctrl+Shift+A"), Some("Ctrl+Shift+M"), Some("Ctrl+Shift+O"))
    );
    settings.capture_hotkey = String::from("  Alt+1\t");
    settings.mode_hotkeys.fullscreen = String::from("   ");
    settings.mode_hotkeys.window = String::new();
    settings.mode_hotkeys.region = String::from("Alt+9");
    settings.quick_ocr_hotkey = String::from("\u{3000}Alt+2\u{a0}");
    assert_eq!(desired_hotkeys(&settings), keys(Some("Alt+1"), None, None, Some("Alt+2")));
}

#[test]
fn bindings_come_in_order_of_priority() {
    let all = keys(Some("R"), Some("F"), Some("W"), Some("Q"));
    let bindings = candidate_bindings(&all);
    let seen: Vec<_> = bindings
        .iter()
        .map(|b| (b.hotkey.as_str(), b.entry_kind, b.initial_mode, b.label))
        .collect();
    assert_eq!(
        seen,
        vec![
            ("Q", CaptureEntryKind::Ocr, Some(CaptureMode::Region), "ocr hotkey"),
            (
                "F",
                CaptureEntryKind::Screenshot,
                Some(CaptureMode::Fullscreen),
                "fullscreen screenshot hotkey"
            ),
            ("W", CaptureEntryKind::Screenshot, Some(CaptureMode::Window), "window screenshot hotkey"),
            ("R", CaptureEntryKind::Screenshot, Some(CaptureMode::Region), "region screenshot hotkey"),
        ]
    );
    assert_eq!(candidate_bindings(&keys(None, None, Some("W"), None)).len(), 1);
    assert_eq!(CaptureEntryKind::Ocr.as_str(), "ocr");
    assert_eq!(CaptureEntryKind::Screenshot.as_str(), "screenshot");
    assert_eq!(capture_mode_to_str(CaptureMode::Region), "region");
    assert_eq!(capture_mode_to_str(CaptureMode::Fullscreen), "fullscreen");
    assert_eq!(capture_mode_to_str(CaptureMode::Window), "window");
}

#[test]
fn shared_key_is_registered_once_for_the_higher_priority() {
    let active = RegisteredOcrHotkeys::default();
    let desired = keys(Some("ctrl+shift+x"), Some("Alt+F"), None, Some("Ctrl+Shift+X"));
    let plan = plan_hotkey_sync(&active, &desired);
    assert!(plan.unregister.is_empty());
    assert_eq!(plan.register.len(), 2);
    assert_eq!(plan.register[0].hotkey, "Ctrl+Shift+X");
    assert_eq!(plan.register[0].entry_kind, CaptureEntryKind::Ocr);
    assert_eq!(plan.register[0].initial_mode, Some(CaptureMode::Region));
    assert_eq!(plan.register[0].label, "ocr hotkey");
    assert_eq!(plan.register[1].hotkey, "Alt+F");
    assert_eq!(plan.register[1].entry_kind, CaptureEntryKind::Screenshot);
    assert_eq!(plan.register[1].initial_mode, Some(CaptureMode::Fullscreen));
    let owners =
        plan.register.iter().filter(|b| b.hotkey.to_ascii_lowercase() == "ctrl+shift+x").count();
    assert_eq!(owners, 1);
}

#[test]
fn all_four_on_one_key_leave_one_registration() {
    let desired = keys(Some("F1"), Some("f1"), Some("F1"), Some("f1"));
    let plan = plan_hotkey_sync(&RegisteredOcrHotkeys::default(), &desired);
    assert_eq!(plan.register.len(), 1);
    assert_eq!(plan.register[0].hotkey, "f1");
    assert_eq!(plan.register[0].entry_kind, CaptureEntryKind::Ocr);
}

#[test]
fn keys_that_are_no_longer_wanted_are_released_once() {
    let active = keys(Some("Ctrl+A"), Some("ctrl+a"), Some("Ctrl+B"), Some("Ctrl+C"));
    let desired = keys(Some("Ctrl+D"), None, None, Some("CTRL+C"));
    let plan = plan_hotkey_sync(&active, &desired);
    assert_eq!(plan.unregister, vec![String::from("Ctrl+A"), String::from("Ctrl+B")]);
    let registered: Vec<_> = plan.register.iter().map(|b| b.hotkey.as_str()).collect();
    assert_eq!(registered, vec!["CTRL+C", "Ctrl+D"]);
}

#[test]
fn unchanged_hotkeys_need_nothing() {
    let active = keys(Some("Ctrl+A"), None, Some("Ctrl+B"), None);
    let plan = plan_hotkey_sync(&active, &active.clone());
    assert!(plan.unregister.is_empty());
    assert!(plan.register.is_empty());
    assert!(same_hotkeys(&active, &active.clone()));
    assert!(!same_hotkeys(&active, &keys(Some("ctrl+a"), None, Some("Ctrl+B"), None)));
    assert!(!same_hotkeys(&active, &keys(None, Some("Ctrl+A"), Some("Ctrl+B"), None)));
}

#[test]
fn only_ascii_letters_are_folded() {
    let desired = keys(Some("Ä"), Some("ä"), None, None);
    let plan = plan_hotkey_sync(&RegisteredOcrHotkeys::default(), &desired);
    let registered: Vec<_> = plan.register.iter().map(|b| b.hotkey.as_str()).collect();
    assert_eq!(registered, vec!["ä", "Ä"]);
}

#[test]
fn router_keeps_what_was_committed() {
    let mut router = HotkeyRouter::new();
    assert_eq!(*router.active(), RegisteredOcrHotkeys::default());
    let first = keys(Some("Ctrl+1"), None, None, Some("Ctrl+2"));
    let plan = router.plan(&first);
    assert_eq!(plan.register.len(), 2);
    assert_eq!(*router.active(), RegisteredOcrHotkeys::default());
    router.commit(first.clone());
    assert_eq!(*router.active(), first);
    let again = router.plan(&first);
    assert!(again.register.is_empty() && again.unregister.is_empty());
    let second = keys(None, None, None, Some("Ctrl+2"));
    let plan = router.plan(&second);
    assert_eq!(plan.unregister, vec![String::from("Ctrl+1")]);
    assert_eq!(plan.register.len(), 1);
    router.commit(second.clone());
    assert_eq!(*router.active(), second);
}

#[test]
fn first_refusal_is_reported_after_every_binding_was_attempted() {
    let desired = keys(Some("R"), Some("F"), Some("W"), Some("Q"));
    let bindings = candidate_bindings(&desired);
    assert_eq!(registration_report(&bindings, &vec![None, None, None, None]), Ok(()));
    let outcomes = vec![None, Some(String::from("taken")), None, Some(String::from("busy"))];
    assert_eq!(
        registration_report(&bindings, &outcomes),
        Err(String::from("failed to register fullscreen screenshot hotkey `F`: taken"))
    );
    assert_eq!(
        registration_failure(&bindings[0], "already in use"),
        "failed to register ocr hotkey `Q`: already in use"
    );
    assert_eq!(registration_report(&bindings, &Vec::new()), Ok(()));
    assert_eq!(registration_report(&Vec::new(), &outcomes), Ok(()));
}
