use layout_follow::control::{ControlLoop, SwitchDecision, TickAction, decide_switch, path_changed};
use layout_follow::locale::{LayoutId, layout_for_language, layout_from_code, parse_locale_string};
use layout_follow::policy::{
    PolicyMap, file_name, find_app_lang, lex_less, lists_program, matching_language,
};
use layout_follow::system::{
    Foreground, LayoutQueryError, QueryError, SwitchError, WindowHandle, LAYOUT_CAPACITY,
    active_window_app_path, change_lang, check_delivery, check_loaded_layout, current_langid,
    get_current_langs, get_foreground_process_thread_id, get_window, resolve_foreground,
};

const EN_US: LayoutId = LayoutId { code: 0x0409 };
const FR_FR: LayoutId = LayoutId { code: 0x040C };

fn sample_policy() -> PolicyMap {
    let mut policy = PolicyMap::new();
    policy.add_language("en-US".to_string(), vec!["notepad.exe".to_string()]);
    policy.add_language("fr-FR".to_string(), vec!["code.exe".to_string()]);
    policy
}

fn foreground(window: usize, thread: u32, path: &str) -> Foreground {
    Foreground { window: WindowHandle { raw: window }, thread, path: path.to_string() }
}

#[test]
fn locale_string_is_eight_upper_hex_digits() {
    assert_eq!(EN_US.locale_string(), "00000409");
    assert_eq!(FR_FR.locale_string(), "0000040C");
    assert_eq!(LayoutId { code: 0 }.locale_string(), "00000000");
    assert_eq!(LayoutId { code: 0xFFFF }.locale_string(), "0000FFFF");
    assert_eq!(LayoutId { code: 0xABCD }.locale_string(), "0000ABCD");
}

#[test]
fn locale_string_round_trips_for_every_code() {
    for code in 0..=u16::MAX {
        let s = LayoutId { code }.locale_string();
        assert_eq!(parse_locale_string(&s), Some(code as u32));
    }
}

#[test]
fn parse_locale_string_rejects_malformed() {
    assert_eq!(parse_locale_string("0000040c"), Some(0x040C));
    assert_eq!(parse_locale_string("FFFFFFFF"), Some(0xFFFF_FFFF));
    assert_eq!(parse_locale_string("409"), None);
    assert_eq!(parse_locale_string("000004090"), None);
    assert_eq!(parse_locale_string("0000040G"), None);
    assert_eq!(parse_locale_string(""), None);
}

#[test]
fn catalog_resolves_language_names() {
    assert_eq!(layout_for_language("en-US"), Some(EN_US));
    assert_eq!(layout_for_language("fr-FR"), Some(FR_FR));
    assert_eq!(layout_for_language("no-such-language"), None);
    assert_eq!(EN_US.language_name(), Some("en-US".to_string()));
    assert_eq!(FR_FR.language_name(), Some("fr-FR".to_string()));
    assert_eq!(LayoutId { code: 0 }.language_name(), None);
}

#[test]
fn codes_wider_than_sixteen_bits_name_no_layout() {
    assert_eq!(layout_from_code(Some(0x0409)), Some(EN_US));
    assert_eq!(layout_from_code(Some(0x1_0000)), None);
    assert_eq!(layout_from_code(None), None);
}

#[test]
fn file_name_is_the_final_component() {
    assert_eq!(file_name("C:\\Windows\\notepad.exe"), Some("notepad.exe".to_string()));
    assert_eq!(file_name("C:/tools/code.exe"), Some("code.exe".to_string()));
    assert_eq!(file_name("code.exe"), Some("code.exe".to_string()));
    assert_eq!(file_name("C:\\tools\\"), None);
    assert_eq!(file_name(""), None);
}

#[test]
fn lists_program_compares_exactly() {
    let programs = vec!["notepad.exe".to_string(), "code.exe".to_string()];
    assert!(lists_program(&programs, &"code.exe".to_string()));
    assert!(!lists_program(&programs, &"Code.exe".to_string()));
    assert!(!lists_program(&Vec::new(), &"code.exe".to_string()));
}

#[test]
fn policy_lookup_takes_first_listing_entry() {
    let mut policy = sample_policy();
    policy.add_language("de-DE".to_string(), vec!["code.exe".to_string(), "word.exe".to_string()]);
    let code = "C:\\Program Files\\code.exe".to_string();
    assert_eq!(matching_language(&code, &policy), Some("de-DE".to_string()));
    assert_eq!(find_app_lang(&code, &policy), Some(LayoutId { code: 0x0407 }));
    let notepad = "C:\\notepad.exe".to_string();
    assert_eq!(find_app_lang(&notepad, &policy), Some(EN_US));
    let other = "C:\\other.exe".to_string();
    assert_eq!(matching_language(&other, &policy), None);
    assert_eq!(find_app_lang(&other, &policy), None);
}

#[test]
fn policy_languages_are_kept_in_name_order() {
    let mut policy = PolicyMap::new();
    policy.add_language("fr-FR".to_string(), vec!["edit.exe".to_string()]);
    policy.add_language("en-US".to_string(), vec!["edit.exe".to_string()]);
    let edit = "C:\\edit.exe".to_string();
    assert_eq!(find_app_lang(&edit, &policy), Some(EN_US));
}

#[test]
fn adding_a_language_again_replaces_its_list() {
    let mut policy = sample_policy();
    policy.add_language("en-US".to_string(), vec!["word.exe".to_string()]);
    assert_eq!(find_app_lang(&"C:\\notepad.exe".to_string(), &policy), None);
    assert_eq!(find_app_lang(&"C:\\word.exe".to_string(), &policy), Some(EN_US));
    assert_eq!(find_app_lang(&"C:\\code.exe".to_string(), &policy), Some(FR_FR));
}

#[test]
fn lexicographic_comparison() {
    assert!(lex_less("en-US", "fr-FR"));
    assert!(!lex_less("fr-FR", "en-US"));
    assert!(lex_less("en", "en-US"));
    assert!(!lex_less("en-US", "en"));
    assert!(!lex_less("en-US", "en-US"));
    assert!(lex_less("", "a"));
    assert!(lex_less("Z", "a"));
}

#[test]
fn unknown_policy_language_is_no_policy() {
    let mut policy = PolicyMap::new();
    policy.add_language("Klingon".to_string(), vec!["game.exe".to_string()]);
    policy.add_language("en-US".to_string(), vec!["game.exe".to_string()]);
    assert_eq!(find_app_lang(&"D:\\game.exe".to_string(), &policy), None);
}

#[test]
fn path_changed_compares_whole_paths() {
    let a = "C:\\a\\notepad.exe".to_string();
    let b = "C:\\b\\notepad.exe".to_string();
    assert!(path_changed(None, &a));
    assert!(path_changed(Some(&a), &b));
    assert!(!path_changed(Some(&a), &a.clone()));
}

#[test]
fn window_and_thread_checks() {
    assert_eq!(get_window(0, 5), Err(QueryError::NoForegroundWindow));
    assert_eq!(get_window(4, 0), Err(QueryError::NoForegroundWindow));
    assert_eq!(get_window(4, 5), Ok(WindowHandle { raw: 5 }));
    assert_eq!(get_foreground_process_thread_id(0, 9), Err(QueryError::NoForegroundWindow));
    assert_eq!(get_foreground_process_thread_id(4, 0), Err(QueryError::NoForegroundWindow));
    assert_eq!(get_foreground_process_thread_id(4, 9), Ok(9));
}

#[test]
fn app_path_from_buffer() {
    let mut buffer = vec![0u8; 16];
    let text = b"C:\\a\\b.exe";
    buffer[..text.len()].copy_from_slice(text);
    assert_eq!(active_window_app_path(true, &buffer, text.len()), Ok("C:\\a\\b.exe".to_string()));
    assert_eq!(active_window_app_path(false, &buffer, text.len()), Err(QueryError::ProcessAccessDenied));
    assert_eq!(active_window_app_path(true, &buffer, 0), Err(QueryError::PathUnavailable));
    assert_eq!(active_window_app_path(true, &buffer, 16), Err(QueryError::PathUnavailable));
    let bad = vec![0xFFu8, 0xFE, 0];
    assert_eq!(active_window_app_path(true, &bad, 2), Err(QueryError::PathUnavailable));
}

#[test]
fn resolve_foreground_reports_first_failure() {
    let ok = resolve_foreground(4, 5, 9, Ok("C:\\x.exe".to_string())).unwrap();
    assert_eq!(ok.window, WindowHandle { raw: 5 });
    assert_eq!(ok.thread, 9);
    assert_eq!(ok.path, "C:\\x.exe");
    assert!(matches!(
        resolve_foreground(0, 0, 0, Err(QueryError::ProcessAccessDenied)),
        Err(QueryError::NoForegroundWindow)
    ));
    assert!(matches!(
        resolve_foreground(4, 5, 9, Err(QueryError::ProcessAccessDenied)),
        Err(QueryError::ProcessAccessDenied)
    ));
}

#[test]
fn current_layout_is_low_sixteen_bits() {
    assert_eq!(current_langid(0), Err(LayoutQueryError::InvalidLayoutHandle));
    assert_eq!(current_langid(0x0409_0409), Ok(EN_US));
    assert_eq!(current_langid(0xF00C_040C), Ok(FR_FR));
}

#[test]
fn installed_layouts_enumeration() {
    assert_eq!(
        get_current_langs(101, LAYOUT_CAPACITY, &vec![0x0409_0409]),
        Err(LayoutQueryError::EnumerationOverflow)
    );
    assert_eq!(
        get_current_langs(2, LAYOUT_CAPACITY, &vec![0x0409_0409, 0]),
        Err(LayoutQueryError::InvalidLayoutHandle)
    );
    assert_eq!(
        get_current_langs(2, LAYOUT_CAPACITY, &vec![0x0409_0409, 0x040C_040C]),
        Ok(vec![EN_US, FR_FR])
    );
    assert_eq!(get_current_langs(0, 0, &Vec::new()), Ok(Vec::new()));
    assert_eq!(
        get_current_langs(2, LAYOUT_CAPACITY, &vec![0x0409_0409; LAYOUT_CAPACITY + 1]),
        Err(LayoutQueryError::EnumerationOverflow)
    );
    assert_eq!(
        get_current_langs(2, 1, &vec![0x0409_0409, 0x040C_040C]),
        Err(LayoutQueryError::EnumerationOverflow)
    );
}

#[test]
fn switch_request_and_outcomes() {
    let req = change_lang(WindowHandle { raw: 7 }, FR_FR);
    assert_eq!(req.window, WindowHandle { raw: 7 });
    assert_eq!(req.layout, FR_FR);
    assert_eq!(req.locale, "0000040C");
    assert_eq!(check_loaded_layout(0), Err(SwitchError::LayoutLoadFailed));
    assert_eq!(check_loaded_layout(0x040C_040C), Ok(0x040C_040C));
    assert_eq!(check_delivery(true), Ok(()));
    assert_eq!(check_delivery(false), Err(SwitchError::MessageDeliveryFailed));
}

#[test]
fn switch_only_on_mismatch() {
    let w = WindowHandle { raw: 3 };
    assert_eq!(decide_switch(w, EN_US, Ok(EN_US)), SwitchDecision::AlreadyActive);
    assert_eq!(
        decide_switch(w, FR_FR, Ok(EN_US)),
        SwitchDecision::Switch { window: w, layout: FR_FR }
    );
    assert_eq!(
        decide_switch(w, FR_FR, Err(LayoutQueryError::InvalidLayoutHandle)),
        SwitchDecision::LayoutUnreadable(LayoutQueryError::InvalidLayoutHandle)
    );
}

#[test]
fn notepad_then_code_switches_once_to_french() {
    let policy = sample_policy();
    let mut lp = ControlLoop::new();
    let first = lp.on_foreground(Ok(foreground(10, 100, "C:\\Windows\\notepad.exe")), &policy);
    assert_eq!(
        first,
        TickAction::CheckLayout { window: WindowHandle { raw: 10 }, thread: 100, desired: EN_US }
    );
    assert_eq!(decide_switch(WindowHandle { raw: 10 }, EN_US, Ok(EN_US)), SwitchDecision::AlreadyActive);
    let second = lp.on_foreground(Ok(foreground(20, 200, "C:\\Code\\code.exe")), &policy);
    assert_eq!(
        second,
        TickAction::CheckLayout { window: WindowHandle { raw: 20 }, thread: 200, desired: FR_FR }
    );
    let decision = decide_switch(WindowHandle { raw: 20 }, FR_FR, Ok(EN_US));
    assert_eq!(decision, SwitchDecision::Switch { window: WindowHandle { raw: 20 }, layout: FR_FR });
    assert_eq!(change_lang(WindowHandle { raw: 20 }, FR_FR).locale, "0000040C");
}

#[test]
fn stable_focus_queries_nothing() {
    let policy = sample_policy();
    let mut lp = ControlLoop::new();
    let path = "C:\\Windows\\notepad.exe";
    assert!(matches!(
        lp.on_foreground(Ok(foreground(10, 100, path)), &policy),
        TickAction::CheckLayout { .. }
    ));
    assert_eq!(lp.on_foreground(Ok(foreground(11, 101, path)), &policy), TickAction::Unchanged);
    assert_eq!(lp.on_foreground(Ok(foreground(12, 102, path)), &policy), TickAction::Unchanged);
    assert_eq!(lp.last, Some(path.to_string()));
}

#[test]
fn unlisted_app_is_never_switched() {
    let policy = sample_policy();
    let mut lp = ControlLoop::new();
    let action = lp.on_foreground(Ok(foreground(10, 100, "C:\\Games\\game.exe")), &policy);
    assert_eq!(action, TickAction::NoPolicy);
    assert_eq!(lp.last, Some("C:\\Games\\game.exe".to_string()));
}

#[test]
fn failed_resolutions_keep_state() {
    let policy = sample_policy();
    let mut lp = ControlLoop::new();
    lp.on_foreground(Ok(foreground(10, 100, "C:\\Windows\\notepad.exe")), &policy);
    for _ in 0..3 {
        let action = lp.on_foreground(Err(QueryError::NoForegroundWindow), &policy);
        assert_eq!(action, TickAction::Skip(QueryError::NoForegroundWindow));
        assert_eq!(lp.last, Some("C:\\Windows\\notepad.exe".to_string()));
    }
    let mut fresh = ControlLoop::new();
    for _ in 0..3 {
        fresh.on_foreground(Err(QueryError::NoForegroundWindow), &policy);
    }
    assert_eq!(fresh.last, None);
}

#[test]
fn returning_to_an_app_after_another_rechecks() {
    let policy = sample_policy();
    let mut lp = ControlLoop::new();
    lp.on_foreground(Ok(foreground(10, 100, "C:\\notepad.exe")), &policy);
    lp.on_foreground(Ok(foreground(20, 200, "C:\\code.exe")), &policy);
    assert_eq!(
        lp.on_foreground(Ok(foreground(30, 300, "C:\\notepad.exe")), &policy),
        TickAction::CheckLayout { window: WindowHandle { raw: 30 }, thread: 300, desired: EN_US }
    );
}
