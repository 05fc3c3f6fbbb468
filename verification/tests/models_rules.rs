use smart_keyword::models::{
    EngineSettings, FocusedApp, LanguageMode, LearnedAppPreference, LearnedPreferenceView,
};

fn pref(chinese: u32, english: u32, last: u64) -> LearnedAppPreference {
    LearnedAppPreference {
        executable: "App.exe".to_string(),
        chinese_score: chinese,
        english_score: english,
        last_observed_epoch: last,
    }
}

#[test]
fn labels() {
    assert_eq!(LanguageMode::Chinese.label(), "中文");
    assert_eq!(LanguageMode::English.label(), "English");
}

#[test]
fn app_key_is_normalized_executable() {
    let app = FocusedApp {
        executable: " WeChat.exe ".to_string(),
        process_path: None,
        window_title: "微信".to_string(),
        pid: 4,
    };
    assert_eq!(app.app_key(), "wechat.exe");
}

#[test]
fn record_adds_weight_and_dates() {
    let mut p = pref(1, 2, 10);
    p.record(LanguageMode::Chinese, 3, 99);
    assert_eq!((p.chinese_score, p.english_score, p.last_observed_epoch), (4, 2, 99));
    p.record(LanguageMode::English, 2, 100);
    assert_eq!((p.chinese_score, p.english_score, p.last_observed_epoch), (4, 4, 100));
}

#[test]
fn record_saturates() {
    let mut p = pref(u32::MAX - 1, 0, 0);
    p.record(LanguageMode::Chinese, 5, 1);
    assert_eq!(p.chinese_score, u32::MAX);
    assert_eq!(pref(u32::MAX, 7, 0).total(), u32::MAX);
}

#[test]
fn total_and_preferred_language() {
    assert_eq!(pref(3, 4, 0).total(), 7);
    assert_eq!(pref(3, 3, 0).preferred_language(), None);
    assert_eq!(pref(4, 3, 0).preferred_language(), Some(LanguageMode::Chinese));
    assert_eq!(pref(2, 5, 0).preferred_language(), Some(LanguageMode::English));
}

#[test]
fn confidence_threshold_is_exact() {
    // 18 / 25 is exactly 0.72.
    assert!(pref(18, 7, 0).confidence_reaches(720_000));
    assert!(!pref(17, 8, 0).confidence_reaches(720_000));
    assert!(pref(0, 0, 0).confidence_reaches(0));
    assert!(!pref(0, 0, 0).confidence_reaches(1));
    assert!(!pref(5, 0, 0).confidence_reaches(u32::MAX));
}

#[test]
fn confidence_percent_rounds_half_to_even() {
    assert_eq!(pref(3, 1, 0).confidence_percent(), 75);
    assert_eq!(pref(2, 1, 0).confidence_percent(), 67);
    // 5 / 8 = 62.5 %, written as 62 as `{:.0}` writes it.
    assert_eq!(pref(5, 3, 0).confidence_percent(), 62);
    // 7 / 8 = 87.5 %, written as 88.
    assert_eq!(pref(7, 1, 0).confidence_percent(), 88);
    assert_eq!(pref(0, 0, 0).confidence_percent(), 0);
}

#[test]
fn default_settings() {
    let s = EngineSettings::default();
    assert!(s.auto_switch_enabled);
    assert!(s.learning_enabled);
    assert_eq!(s.poll_interval_ms, 900);
    assert_eq!(s.learning_confidence_threshold_ppm, 720_000);
    assert_eq!(s.min_learning_samples, 3);
}

#[test]
fn preference_views_rank_by_confidence_then_recency() {
    let strong = LearnedPreferenceView::from_preference(&pref(9, 1, 5));
    let weak = LearnedPreferenceView::from_preference(&pref(6, 4, 50));
    assert_eq!(strong.preferred_language, Some(LanguageMode::Chinese));
    assert!(strong.ranks_before(&weak));
    assert!(!weak.ranks_before(&strong));
    let older = LearnedPreferenceView::from_preference(&pref(2, 1, 1));
    let newer = LearnedPreferenceView::from_preference(&pref(4, 2, 2));
    assert!(newer.ranks_before(&older));
    assert!(!older.ranks_before(&newer));
    let empty = LearnedPreferenceView::from_preference(&pref(0, 0, 9));
    assert!(older.ranks_before(&empty));
}
