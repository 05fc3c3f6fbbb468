use smart_keyword::models::{
    EngineSettings, FocusedApp, LanguageMode, LearnedAppPreference, ManualRule, PersistedState,
    ResolutionSource,
};
use smart_keyword::platform::PlatformCapabilities;
use smart_keyword::service::{Reply, Request, SmartSwitcherService};
use smart_keyword::steps::Clock;

fn clock(ms: u64) -> Clock {
    Clock { monotonic_ms: ms, epoch_secs: 1_700_000_000 + ms / 1000 }
}

fn app(executable: &str, title: &str) -> FocusedApp {
    FocusedApp {
        executable: executable.to_string(),
        process_path: Some(format!("C:\\Apps\\{executable}")),
        window_title: title.to_string(),
        pid: 42,
    }
}

fn windows_service() -> SmartSwitcherService {
    SmartSwitcherService::new(PlatformCapabilities::windows())
}

fn expect_save(r: Request) -> PersistedState {
    match r {
        Request::Save(p) => p,
        other => panic!("expected a save request, got {other:?}"),
    }
}

fn expect_done(r: Request) -> Result<(), String> {
    match r {
        Request::Done(o) => o,
        other => panic!("expected the end of the operation, got {other:?}"),
    }
}

fn save_ok(s: &mut SmartSwitcherService, r: Request, c: Clock) -> Request {
    expect_save(r);
    s.resume(Reply::Saved(Ok(())), c)
}

fn add_rule(s: &mut SmartSwitcherService, exe: &str, mode: LanguageMode) {
    let r = s.upsert_manual_rule(exe.to_string(), mode, None, clock(0));
    assert_eq!(expect_done(save_ok(s, r, clock(0))), Ok(()));
}

/// Focuses `a`, reporting `mode` for every read, and accepting every switch.
fn focus(s: &mut SmartSwitcherService, a: &FocusedApp, mode: Option<LanguageMode>, at: u64) -> Result<(), String> {
    let mut r = s.poll_once(Some(a.clone()), mode, clock(at));
    loop {
        r = match r {
            Request::Done(o) => return o,
            Request::Save(_) => s.resume(Reply::Saved(Ok(())), clock(at)),
            Request::ReadInputMode(_) => s.resume(Reply::InputMode(Ok(mode)), clock(at)),
            Request::SetInputMode(_, _) => s.resume(Reply::Switched(Ok(true)), clock(at)),
        };
    }
}

#[test]
fn initialize_loads_state_and_logs_start() {
    let mut s = SmartSwitcherService::new(PlatformCapabilities::unsupported("linux"));
    let mut p = PersistedState::default();
    p.settings.learning_enabled = false;
    p.manual_rules.push(ManualRule {
        executable: " QQ.exe".to_string(),
        preferred_language: LanguageMode::Chinese,
        note: None,
        updated_at_epoch: 1,
    });
    p.manual_rules.push(ManualRule {
        executable: "qq.EXE".to_string(),
        preferred_language: LanguageMode::English,
        note: Some("later wins".to_string()),
        updated_at_epoch: 2,
    });
    s.initialize(p, clock(0));
    let o = s.overview();
    assert!(!o.settings.learning_enabled);
    assert_eq!(o.manual_rules.len(), 1);
    assert_eq!(o.manual_rules[0].executable, "qq.EXE");
    assert_eq!(o.manual_rules[0].preferred_language, LanguageMode::English);
    assert_eq!(o.recent_events.len(), 1);
    assert_eq!(o.recent_events[0].app, "system");
    assert_eq!(o.recent_events[0].summary, "后台服务已启动");
    assert_eq!(o.recent_events[0].detail, o.platform.notes);
    assert_eq!(o.platform.name, "linux");
}

#[test]
fn blank_rule_names_are_refused() {
    let mut s = windows_service();
    let r = s.upsert_manual_rule("   ".to_string(), LanguageMode::English, None, clock(0));
    assert_eq!(expect_done(r), Err("应用名不能为空。".to_string()));
    assert!(s.overview().manual_rules.is_empty());
}

#[test]
fn saved_rule_is_trimmed_and_logged() {
    let mut s = windows_service();
    let r = s.upsert_manual_rule("  Code.exe ".to_string(), LanguageMode::English, Some("dev".to_string()), clock(3000));
    let p = expect_save(r);
    assert_eq!(p.manual_rules.len(), 1);
    assert_eq!(p.manual_rules[0].executable, "Code.exe");
    assert_eq!(p.manual_rules[0].updated_at_epoch, clock(3000).epoch_secs);
    assert_eq!(expect_done(s.resume(Reply::Saved(Ok(())), clock(3000))), Ok(()));
    let o = s.overview();
    assert_eq!(o.recent_events[0].app, "Code.exe");
    assert_eq!(o.recent_events[0].summary, "已保存手动规则");
    assert_eq!(o.recent_events[0].detail, "切换到该应用时优先使用 English。");
}

#[test]
fn failed_save_reports_the_error_and_keeps_the_rule() {
    let mut s = windows_service();
    let r = s.upsert_manual_rule("Code.exe".to_string(), LanguageMode::English, None, clock(0));
    expect_save(r);
    let r = s.resume(Reply::Saved(Err("disk full".to_string())), clock(0));
    assert_eq!(expect_done(r), Err("disk full".to_string()));
    let o = s.overview();
    assert_eq!(o.manual_rules.len(), 1);
    assert!(o.recent_events.is_empty());
}

#[test]
fn rules_are_listed_by_key() {
    let mut s = windows_service();
    add_rule(&mut s, "WeChat.exe", LanguageMode::Chinese);
    add_rule(&mut s, "Code.exe", LanguageMode::English);
    add_rule(&mut s, "alacritty.exe", LanguageMode::English);
    add_rule(&mut s, "code.EXE", LanguageMode::Chinese);
    let names: Vec<String> = s.overview().manual_rules.iter().map(|r| r.executable.clone()).collect();
    assert_eq!(names, vec!["alacritty.exe", "code.EXE", "WeChat.exe"]);
}

#[test]
fn deleting_a_rule() {
    let mut s = windows_service();
    add_rule(&mut s, "Code.exe", LanguageMode::English);
    let r = s.delete_manual_rule(" CODE.exe");
    assert!(expect_save(r).manual_rules.is_empty());
    assert_eq!(expect_done(s.resume(Reply::Saved(Ok(())), clock(0))), Ok(()));
    let o = s.overview();
    assert!(o.manual_rules.is_empty());
    assert_eq!(o.recent_events[0].app, " CODE.exe");
    assert_eq!(o.recent_events[0].summary, "已删除手动规则");
    assert_eq!(o.recent_events[0].detail, "之后将回退到学习偏好或启发式判断。");
}

#[test]
fn updating_settings() {
    let mut s = windows_service();
    let r = s.update_settings(false, true);
    let p = expect_save(r);
    assert!(!p.settings.auto_switch_enabled && p.settings.learning_enabled);
    assert_eq!(expect_done(s.resume(Reply::Saved(Ok(())), clock(0))), Ok(()));
    let o = s.overview();
    assert_eq!(o.recent_events[0].app, "settings");
    assert_eq!(o.recent_events[0].summary, "设置已更新");
    assert_eq!(o.recent_events[0].detail, "自动切换：关闭，自学习：开启。");
}

#[test]
fn learning_needs_an_app_and_a_mode() {
    let mut s = windows_service();
    assert_eq!(expect_done(s.learn_current_preference(clock(0))), Err("当前没有前台应用，无法学习。".to_string()));
    let mut u = SmartSwitcherService::new(PlatformCapabilities::unsupported("linux"));
    assert_eq!(focus(&mut u, &app("explorer.exe", ""), None, 0), Ok(()));
    assert_eq!(expect_done(u.learn_current_preference(clock(0))), Err("当前无法读取输入法状态，无法学习。".to_string()));
}

#[test]
fn learning_the_current_mode() {
    let mut s = SmartSwitcherService::new(PlatformCapabilities::unsupported("linux"));
    assert_eq!(focus(&mut s, &app("Notepad.exe", "a.txt"), Some(LanguageMode::Chinese), 0), Ok(()));
    let p = expect_save(s.learn_current_preference(clock(0)));
    assert_eq!(p.learned_preferences.len(), 1);
    assert_eq!(p.learned_preferences[0].chinese_score, 3);
    assert_eq!(expect_done(s.resume(Reply::Saved(Ok(())), clock(0))), Ok(()));
    let o = s.overview();
    let d = o.last_decision.unwrap();
    assert_eq!(d.target_language, Some(LanguageMode::Chinese));
    assert_eq!(d.source, ResolutionSource::ManualObservation);
    assert_eq!(d.reason, "已根据你当前在该应用中的输入法状态补充一条学习样本。");
    assert_eq!(o.recent_events[0].summary, "已手动强化学习样本");
    assert_eq!(o.recent_events[0].detail, "记录为 中文 偏好。");
    // The preference now decides for the application.
    let decision = s.resolve_target_language(&app("notepad.exe", ""));
    assert_eq!(decision.source, ResolutionSource::LearnedPreference);
    assert_eq!(decision.reason, "命中学习偏好：置信度 100%（3 / 0）。");
}

#[test]
fn focus_switches_to_the_rule_and_confirms() {
    let mut s = windows_service();
    add_rule(&mut s, "Code.exe", LanguageMode::English);
    let code = app("Code.exe", "main.rs");
    let r = s.poll_once(Some(code.clone()), Some(LanguageMode::Chinese), clock(100));
    assert!(matches!(r, Request::ReadInputMode(ref a) if a.executable == "Code.exe"));
    let r = s.resume(Reply::InputMode(Ok(Some(LanguageMode::Chinese))), clock(110));
    assert!(matches!(r, Request::SetInputMode(_, LanguageMode::English)));
    let r = s.resume(Reply::Switched(Ok(true)), clock(120));
    assert!(matches!(r, Request::ReadInputMode(_)));
    let r = s.resume(Reply::InputMode(Ok(Some(LanguageMode::English))), clock(130));
    assert_eq!(expect_done(r), Ok(()));
    let o = s.overview();
    assert_eq!(o.current_input_mode, Some(LanguageMode::English));
    assert_eq!(o.active_app.unwrap().executable, "Code.exe");
    assert_eq!(o.recent_events[0].summary, "切换焦点时自动调整输入法");
    assert_eq!(o.recent_events[0].detail, "手动规则 -> English");
    let d = o.last_decision.unwrap();
    assert_eq!(d.source, ResolutionSource::ManualRule);
    assert_eq!(d.reason, "命中手动规则：Code.exe -> English。");
}

#[test]
fn unconfirmed_switch_is_logged() {
    let mut s = windows_service();
    let code = app("Code.exe", "");
    s.poll_once(Some(code), Some(LanguageMode::Chinese), clock(0));
    s.resume(Reply::InputMode(Ok(Some(LanguageMode::Chinese))), clock(0));
    s.resume(Reply::Switched(Ok(false)), clock(0));
    let r = s.resume(Reply::InputMode(Ok(None)), clock(0));
    assert_eq!(expect_done(r), Ok(()));
    let o = s.overview();
    assert_eq!(o.recent_events[0].summary, "尝试自动调整输入法但未确认成功");
    assert_eq!(o.recent_events[0].detail, "目标为 English，当前检测结果为 未知。");
    assert_eq!(o.current_input_mode, None);
}

#[test]
fn platform_errors_end_the_poll() {
    let mut s = windows_service();
    s.poll_once(Some(app("Code.exe", "")), None, clock(0));
    s.resume(Reply::InputMode(Ok(Some(LanguageMode::Chinese))), clock(0));
    let r = s.resume(Reply::Switched(Err("no layout".to_string())), clock(0));
    assert_eq!(expect_done(r), Err("no layout".to_string()));
    // The next operation starts from an idle switcher.
    let r = s.update_settings(true, true);
    expect_save(r);
}

#[test]
fn no_switch_without_input_control() {
    let mut s = SmartSwitcherService::new(PlatformCapabilities::unsupported("linux"));
    assert_eq!(focus(&mut s, &app("WeChat.exe", "聊天"), Some(LanguageMode::English), 0), Ok(()));
    let o = s.overview();
    assert_eq!(o.recent_events[0].summary, "检测到应用切换");
    assert_eq!(o.recent_events[0].detail, "根据应用类型启发式判断：WeChat.exe 更可能需要 中文。");
    assert_eq!(o.current_input_mode, Some(LanguageMode::English));
}

#[test]
fn losing_the_focus_is_noted() {
    let mut s = windows_service();
    focus(&mut s, &app("explorer.exe", ""), Some(LanguageMode::English), 0).unwrap();
    let o = s.overview();
    let d = o.last_decision.unwrap();
    assert_eq!(d.source, ResolutionSource::Unresolved);
    assert_eq!(d.reason, "当前没有命中规则，也还没有足够的学习样本。");
    let r = s.poll_once(None, None, clock(10));
    assert_eq!(expect_done(r), Ok(()));
    let o = s.overview();
    assert!(o.active_app.is_none());
    assert_eq!(o.last_decision.unwrap().reason, "当前没有可识别的前台应用。");
}

#[test]
fn a_long_stay_teaches_the_mode_kept() {
    let mut s = SmartSwitcherService::new(PlatformCapabilities::unsupported("linux"));
    let notes = app("Obsidian.exe", "vault");
    focus(&mut s, &notes, Some(LanguageMode::English), 1000).unwrap();
    // The user moves to Chinese while staying.
    assert_eq!(expect_done(s.poll_once(Some(notes.clone()), Some(LanguageMode::Chinese), clock(3000))), Ok(()));
    let r = s.poll_once(Some(app("Code.exe", "")), Some(LanguageMode::English), clock(6000));
    let p = expect_save(r);
    assert_eq!(p.learned_preferences.len(), 1);
    assert_eq!(p.learned_preferences[0].executable, "Obsidian.exe");
    assert_eq!(p.learned_preferences[0].chinese_score, 2);
    let r = s.resume(Reply::Saved(Ok(())), clock(6000));
    assert!(matches!(r, Request::ReadInputMode(ref a) if a.executable == "Code.exe"));
    let o = s.overview();
    assert_eq!(o.recent_events[0].summary, "已更新学习偏好");
    assert_eq!(o.recent_events[0].detail, "本次会话最终稳定在 中文，已写入学习模型。");
}

#[test]
fn a_short_stay_teaches_nothing() {
    let mut s = SmartSwitcherService::new(PlatformCapabilities::unsupported("linux"));
    focus(&mut s, &app("Obsidian.exe", ""), Some(LanguageMode::Chinese), 1000).unwrap();
    let r = s.poll_once(Some(app("Code.exe", "")), Some(LanguageMode::English), clock(4999));
    assert!(matches!(r, Request::ReadInputMode(_)));
    s.resume(Reply::InputMode(Ok(Some(LanguageMode::English))), clock(4999));
    assert!(s.persisted_state().learned_preferences.is_empty());
}

#[test]
fn overriding_an_automatic_switch_weighs_three() {
    let mut s = windows_service();
    let chat = app("WeChat.exe", "");
    focus(&mut s, &chat, Some(LanguageMode::Chinese), 0).unwrap();
    // The heuristic wanted Chinese and the mode already was Chinese: no switch.
    add_rule(&mut s, "Code.exe", LanguageMode::English);
    let code = app("Code.exe", "");
    let r = s.poll_once(Some(code.clone()), Some(LanguageMode::Chinese), clock(1000));
    // WeChat was focused for only a second: nothing is learned.
    assert!(matches!(r, Request::ReadInputMode(_)));
    s.resume(Reply::InputMode(Ok(Some(LanguageMode::Chinese))), clock(1000));
    s.resume(Reply::Switched(Ok(true)), clock(1000));
    s.resume(Reply::InputMode(Ok(Some(LanguageMode::English))), clock(1000));
    // Code has a rule, so it is never learned; switch back to WeChat, then
    // stay in WeChat and override the switch.
    let r = s.poll_once(Some(chat.clone()), Some(LanguageMode::English), clock(9000));
    assert!(matches!(r, Request::ReadInputMode(_)));
    s.resume(Reply::InputMode(Ok(Some(LanguageMode::English))), clock(9000));
    s.resume(Reply::Switched(Ok(true)), clock(9000));
    s.resume(Reply::InputMode(Ok(Some(LanguageMode::Chinese))), clock(9000));
    // Within the guard the user goes back to English.
    s.poll_once(Some(chat.clone()), Some(LanguageMode::English), clock(9500));
    let r = s.poll_once(Some(app("explorer.exe", "")), Some(LanguageMode::English), clock(20000));
    let p = expect_save(r);
    assert_eq!(p.learned_preferences.len(), 1);
    assert_eq!(p.learned_preferences[0].english_score, 3);
    assert_eq!(p.learned_preferences[0].chinese_score, 0);
}

#[test]
fn the_log_keeps_sixteen_entries() {
    let mut s = windows_service();
    for i in 0..20 {
        let r = s.update_settings(i % 2 == 0, true);
        expect_done(save_ok(&mut s, r, clock(i * 1000))).unwrap();
    }
    let o = s.overview();
    assert_eq!(o.recent_events.len(), 16);
    assert_eq!(o.recent_events[0].detail, "自动切换：关闭，自学习：开启。");
    assert_eq!(o.recent_events[0].timestamp_epoch, clock(19000).epoch_secs);
}

#[test]
fn saved_state_loads_back() {
    let mut s = windows_service();
    add_rule(&mut s, "Code.exe", LanguageMode::English);
    focus(&mut s, &app("Notepad.exe", ""), Some(LanguageMode::Chinese), 0).unwrap();
    let r = s.learn_current_preference(clock(0));
    expect_done(save_ok(&mut s, r, clock(0))).unwrap();
    let saved = s.persisted_state();
    let mut t = windows_service();
    t.initialize(saved, clock(0));
    let again = t.persisted_state();
    assert_eq!(again.settings, s.persisted_state().settings);
    assert_eq!(again.manual_rules.len(), 1);
    assert_eq!(again.manual_rules[0].executable, "Code.exe");
    assert_eq!(again.learned_preferences.len(), 1);
    assert_eq!(again.learned_preferences[0].chinese_score, 3);
}

#[test]
fn preferences_are_ranked_in_the_overview() {
    let mut s = windows_service();
    let mut p = PersistedState::default();
    p.settings = EngineSettings { min_learning_samples: 100, ..EngineSettings::default() };
    for (exe, zh, en, last) in [("a.exe", 1, 1, 5), ("b.exe", 9, 1, 1), ("c.exe", 3, 1, 7), ("d.exe", 6, 2, 9)] {
        p.learned_preferences.push(LearnedAppPreference {
            executable: exe.to_string(),
            chinese_score: zh,
            english_score: en,
            last_observed_epoch: last,
        });
    }
    s.initialize(p, clock(0));
    let names: Vec<String> = s.overview().learned_preferences.iter().map(|v| v.executable.clone()).collect();
    assert_eq!(names, vec!["b.exe", "d.exe", "c.exe", "a.exe"]);
    // Too few samples: the preference does not decide.
    assert_eq!(s.resolve_target_language(&app("b.exe", "")).source, ResolutionSource::Unresolved);
}

#[test]
fn a_rule_applies_to_the_name_in_any_ascii_case() {
    let mut s = windows_service();
    add_rule(&mut s, "  code.EXE ", LanguageMode::English);
    let d = s.resolve_target_language(&app("Code.exe", "notes"));
    assert_eq!(d.source, ResolutionSource::ManualRule);
    assert_eq!(d.target_language, Some(LanguageMode::English));
    let r = s.delete_manual_rule("CODE.EXE");
    expect_done(save_ok(&mut s, r, clock(0))).unwrap();
    let d = s.resolve_target_language(&app("Code.exe", "notes"));
    assert_eq!(d.source, ResolutionSource::Heuristic);
    assert_eq!(d.reason, "根据应用类型启发式判断：Code.exe 更可能需要 English。");
}

#[test]
fn nothing_is_learned_while_learning_is_off() {
    let mut s = SmartSwitcherService::new(PlatformCapabilities::unsupported("linux"));
    let r = s.update_settings(true, false);
    expect_done(save_ok(&mut s, r, clock(0))).unwrap();
    focus(&mut s, &app("Obsidian.exe", ""), Some(LanguageMode::Chinese), 0).unwrap();
    let r = s.poll_once(Some(app("Code.exe", "")), Some(LanguageMode::English), clock(60_000));
    assert!(matches!(r, Request::ReadInputMode(_)));
    s.resume(Reply::InputMode(Ok(Some(LanguageMode::English))), clock(60_000));
    assert!(s.persisted_state().learned_preferences.is_empty());
}

#[test]
fn applications_with_a_rule_are_not_learned() {
    let mut s = SmartSwitcherService::new(PlatformCapabilities::unsupported("linux"));
    add_rule(&mut s, "Obsidian.exe", LanguageMode::English);
    focus(&mut s, &app("Obsidian.exe", ""), Some(LanguageMode::Chinese), 0).unwrap();
    let r = s.poll_once(Some(app("Code.exe", "")), Some(LanguageMode::English), clock(60_000));
    assert!(matches!(r, Request::ReadInputMode(_)));
}

#[test]
fn a_steady_focus_changes_only_the_mode() {
    let mut s = windows_service();
    let code = app("Code.exe", "");
    focus(&mut s, &code, Some(LanguageMode::English), 0).unwrap();
    let before = s.overview();
    let r = s.poll_once(Some(app(" CODE.exe", "other title")), Some(LanguageMode::Chinese), clock(500));
    assert_eq!(expect_done(r), Ok(()));
    let after = s.overview();
    assert_eq!(after.recent_events.len(), before.recent_events.len());
    assert_eq!(after.current_input_mode, Some(LanguageMode::Chinese));
    assert_eq!(after.last_decision.unwrap().reason, before.last_decision.unwrap().reason);
}
