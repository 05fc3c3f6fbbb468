use smart_keyword::decision::{
    heuristic_language_for_app, heuristic_reason_text, learned_reason_text, rule_reason_text,
    source_label, yes_no,
};
use smart_keyword::models::{FocusedApp, LanguageMode, LearnedAppPreference, ManualRule, ResolutionSource};
use smart_keyword::platform::{language_from_input_state, switch_request_delivered, PlatformCapabilities};

fn app(executable: &str, title: &str) -> FocusedApp {
    FocusedApp {
        executable: executable.to_string(),
        process_path: None,
        window_title: title.to_string(),
        pid: 1,
    }
}

#[test]
fn chat_apps_are_chinese() {
    assert_eq!(heuristic_language_for_app(&app("WeChat.exe", "")), Some(LanguageMode::Chinese));
    assert_eq!(heuristic_language_for_app(&app("Feishu.exe", "")), Some(LanguageMode::Chinese));
    assert_eq!(heuristic_language_for_app(&app("browser.exe", "微信 网页版")), Some(LanguageMode::Chinese));
}

#[test]
fn development_tools_are_english() {
    assert_eq!(heuristic_language_for_app(&app("Code.exe", "")), Some(LanguageMode::English));
    assert_eq!(heuristic_language_for_app(&app("WindowsTerminal.exe", "")), Some(LanguageMode::English));
    assert_eq!(heuristic_language_for_app(&app("browser.exe", "GitHub - Pull requests")), Some(LanguageMode::English));
}

#[test]
fn chinese_keywords_win_over_english_ones() {
    // "notes" is a Chinese keyword, "code" an English one.
    assert_eq!(heuristic_language_for_app(&app("codenotes.exe", "")), Some(LanguageMode::Chinese));
}

#[test]
fn unknown_apps_get_no_guess() {
    assert_eq!(heuristic_language_for_app(&app("explorer.exe", "Downloads")), None);
}

#[test]
fn labels_for_sources_and_switches() {
    assert_eq!(source_label(ResolutionSource::ManualRule), "手动规则");
    assert_eq!(source_label(ResolutionSource::LearnedPreference), "学习偏好");
    assert_eq!(source_label(ResolutionSource::Heuristic), "启发式判断");
    assert_eq!(source_label(ResolutionSource::ManualObservation), "手动学习");
    assert_eq!(source_label(ResolutionSource::Unresolved), "无决策");
    assert_eq!(yes_no(true), "开启");
    assert_eq!(yes_no(false), "关闭");
}

#[test]
fn reasons() {
    let rule = ManualRule {
        executable: "Code.exe".to_string(),
        preferred_language: LanguageMode::English,
        note: None,
        updated_at_epoch: 0,
    };
    assert_eq!(rule_reason_text(&rule), "命中手动规则：Code.exe -> English。");
    let p = LearnedAppPreference {
        executable: "QQ.exe".to_string(),
        chinese_score: 9,
        english_score: 1,
        last_observed_epoch: 0,
    };
    assert_eq!(learned_reason_text(&p), "命中学习偏好：置信度 90%（9 / 1）。");
    assert_eq!(
        heuristic_reason_text("WeChat.exe", LanguageMode::Chinese),
        "根据应用类型启发式判断：WeChat.exe 更可能需要 中文。"
    );
}

#[test]
fn windows_input_state() {
    // 0x0804: Chinese (PRC); 0x0409: English (US).
    assert_eq!(language_from_input_state(0x0804_0804, true), LanguageMode::Chinese);
    assert_eq!(language_from_input_state(0x0804_0804, false), LanguageMode::English);
    assert_eq!(language_from_input_state(0x0409_0409, true), LanguageMode::English);
    assert!(switch_request_delivered(false, true));
    assert!(!switch_request_delivered(false, false));
}

#[test]
fn capabilities() {
    let c = PlatformCapabilities::unsupported("linux");
    assert_eq!(c.name, "linux");
    assert!(!c.supports_focus_tracking && !c.supports_input_control);
    let w = PlatformCapabilities::windows();
    assert_eq!(w.name, "windows");
    assert!(w.supports_focus_tracking && w.supports_input_control);
}
