//! Properties that hold across the switcher's operations.
use vstd::prelude::*;
use crate::models::{
    recorded, total_score, LanguageMode, ManualRuleModel, PersistedModel, PreferenceModel,
    ResolutionSource, EventModel, FocusedAppModel,
};
use crate::decision::{
    chinese_app_keywords, chinese_title_keywords, english_app_keywords, heuristic_language,
};
use crate::platform::mode_of_input_state;
use crate::steps::{
    focus_read, observed, sample_weight, switch_verified, SessionModel, SESSION_GUARD_MS,
};
use crate::models::DecisionModel;
use crate::text::{ascii_lower_text, contains_text, is_white_space, lemma_trim_ends, lower_char};
use crate::steps::{
    accepts, decide, leaving_sample, lists_preferences, lists_rules, logged, observation_learned,
    polled, preferences_from, resumed, rule_deleted, rule_upserted, rules_from, settings_updated,
    snapshot_of, initialized, Action, Clock, PendingModel, ReplyModel, ServiceModel,
    MAX_RECENT_EVENTS,
};
use crate::text::{lemma_normalized_of_trimmed, normalized, trim_text};

verus! {

/// The activity log holds at most `MAX_RECENT_EVENTS` entries: a new entry
/// comes first, followed by the newest of the earlier ones, in their order.
pub proof fn lemma_log_keeps_newest(events: Seq<EventModel>, ev: EventModel)
    ensures
        logged(events, ev).len() == if events.len() + 1 > MAX_RECENT_EVENTS {
            MAX_RECENT_EVENTS as int
        } else {
            events.len() + 1int
        },
        logged(events, ev)[0] == ev,
        forall|i: int| 0 <= i < logged(events, ev).len() - 1 ==> #[trigger] logged(events, ev)[i + 1] == events[i],
{
    let s = seq![ev] + events;
    assert forall|i: int| 0 <= i < logged(events, ev).len() - 1 implies #[trigger] logged(events, ev)[i + 1] == events[i] by {
        assert(s[i + 1] == events[i]);
    }
}

/// A manual rule decides the mode of its application, before any learned
/// preference or guess.
pub proof fn lemma_manual_rule_decides(m: ServiceModel, app: FocusedAppModel)
    requires
        m.rules.contains_key(normalized(app.executable)),
    ensures
        decide(m, app).target_language == Some(m.rules[normalized(app.executable)].preferred_language),
        decide(m, app).source == ResolutionSource::ManualRule,
{
}

/// Once a manual rule is saved for a name, every application of that name,
/// up to surrounding white space and ASCII case, is switched to its mode.
pub proof fn lemma_saved_rule_applies(
    m: ServiceModel,
    executable: Seq<char>,
    language: LanguageMode,
    note: Option<Seq<char>>,
    clock: Clock,
    app: FocusedAppModel,
)
    requires
        trim_text(executable).len() > 0,
        normalized(app.executable) == normalized(executable),
    ensures
        decide(rule_upserted(m, executable, language, note, clock).0, app).target_language == Some(
            language,
        ),
        decide(rule_upserted(m, executable, language, note, clock).0, app).source
            == ResolutionSource::ManualRule,
{
    lemma_normalized_of_trimmed(executable);
}

/// A deleted manual rule no longer decides for its application.
pub proof fn lemma_deleted_rule_gone(m: ServiceModel, executable: Seq<char>, app: FocusedAppModel)
    requires
        normalized(app.executable) == normalized(executable),
    ensures
        decide(rule_deleted(m, executable).0, app).source != ResolutionSource::ManualRule,
{
}

/// The outcome of storing the state never undoes an operation on the rules,
/// the settings or the learned preferences: they stay as the operation left them.
pub proof fn lemma_replies_keep_rules_and_preferences(m: ServiceModel, r: ReplyModel, clock: Clock)
    ensures
        resumed(m, r, clock).0.rules == m.rules,
        resumed(m, r, clock).0.preferences == m.preferences,
        resumed(m, r, clock).0.settings == m.settings,
{
}

/// While learning is off, polling never changes the learned preferences.
pub proof fn lemma_no_learning_when_disabled(
    m: ServiceModel,
    active: Option<FocusedAppModel>,
    mode: Option<LanguageMode>,
    clock: Clock,
)
    requires
        !m.settings.learning_enabled,
    ensures
        polled(m, active, mode, clock).0.preferences == m.preferences,
{
}

/// Leaving an application that has a manual rule teaches nothing.
pub proof fn lemma_ruled_apps_not_learned(m: ServiceModel, now_ms: u64)
    requires
        m.session is Some,
        m.rules.contains_key(normalized(m.session->0.app.executable)),
    ensures
        leaving_sample(m, now_ms) is None,
{
}

/// A learning sample never lowers a score, and dates the preference.
pub proof fn lemma_sample_keeps_evidence(
    p: PreferenceModel,
    language: LanguageMode,
    weight: u32,
    timestamp: u64,
)
    ensures
        recorded(p, language, weight, timestamp).chinese_score >= p.chinese_score,
        recorded(p, language, weight, timestamp).english_score >= p.english_score,
        total_score(recorded(p, language, weight, timestamp)) >= total_score(p),
        recorded(p, language, weight, timestamp).last_observed_epoch == timestamp,
        recorded(p, language, weight, timestamp).executable == p.executable,
{
}

/// The step `p` waits in takes the reply that action `a` asks for; where `a`
/// is final, nothing is pending.
pub open spec fn awaits(p: PendingModel, a: Action) -> bool {
    match a {
        Action::Done(_) => p is Idle,
        Action::Save => accepts(p, ReplyModel::Saved(Ok(()))),
        Action::ReadInputMode(_) => accepts(p, ReplyModel::InputMode(Ok(None))),
        Action::SetInputMode(_, _) => accepts(p, ReplyModel::Switched(Ok(false))),
    }
}

/// Every operation, started from an idle switcher, either finishes with
/// nothing pending or waits for exactly the reply that its request asks for.
pub proof fn lemma_operations_await_their_reply(
    m: ServiceModel,
    active: Option<FocusedAppModel>,
    mode: Option<LanguageMode>,
    executable: Seq<char>,
    language: LanguageMode,
    note: Option<Seq<char>>,
    auto_switch_enabled: bool,
    learning_enabled: bool,
    clock: Clock,
)
    requires
        m.pending is Idle,
    ensures
        awaits(polled(m, active, mode, clock).0.pending, polled(m, active, mode, clock).1),
        awaits(
            rule_upserted(m, executable, language, note, clock).0.pending,
            rule_upserted(m, executable, language, note, clock).1,
        ),
        awaits(rule_deleted(m, executable).0.pending, rule_deleted(m, executable).1),
        awaits(
            settings_updated(m, auto_switch_enabled, learning_enabled).0.pending,
            settings_updated(m, auto_switch_enabled, learning_enabled).1,
        ),
        awaits(observation_learned(m, clock).0.pending, observation_learned(m, clock).1),
{
}

/// Every reply of the kind awaited moves the operation on to its end or to
/// the next reply it waits for.
pub proof fn lemma_replies_await_their_reply(m: ServiceModel, r: ReplyModel, clock: Clock)
    requires
        accepts(m.pending, r),
    ensures
        awaits(resumed(m, r, clock).0.pending, resumed(m, r, clock).1),
{
}

proof fn lemma_rules_listing_restores(l: Seq<ManualRuleModel>, m: Map<Seq<char>, ManualRuleModel>)
    requires
        lists_rules(l, m),
    ensures
        rules_from(l) =~= m,
    decreases l.len(),
{
    if l.len() == 0 {
        assert forall|k: Seq<char>| !m.contains_key(k) by {
            if m.contains_key(k) {
                let i = choose|i: int| 0 <= i < l.len() && normalized(#[trigger] l[i].executable) == k;
            }
        }
    } else {
        let d = l.drop_last();
        let k = normalized(l.last().executable);
        let m1 = m.remove(k);
        assert(l[l.len() - 1] == l.last());
        assert forall|i: int| 0 <= i < d.len() implies m1.contains_key(
            normalized(#[trigger] d[i].executable),
        ) && m1[normalized(d[i].executable)] == d[i] by {
            assert(d[i] == l[i]);
            assert(crate::text::text_less(normalized(l[i].executable), normalized(l[l.len() - 1].executable)));
            crate::text::lemma_text_less_irreflexive(k);
        }
        assert forall|q: Seq<char>| m1.contains_key(q) implies exists|i: int|
            0 <= i < d.len() && normalized(#[trigger] d[i].executable) == q by {
            let i = choose|i: int| 0 <= i < l.len() && normalized(#[trigger] l[i].executable) == q;
            assert(i != l.len() - 1);
            assert(d[i] == l[i]);
        }
        assert forall|i: int, j: int| 0 <= i < j < d.len() implies crate::text::text_less(
            normalized(#[trigger] d[i].executable),
            normalized(#[trigger] d[j].executable),
        ) by {
            assert(d[i] == l[i] && d[j] == l[j]);
        }
        lemma_rules_listing_restores(d, m1);
        assert(rules_from(l) =~= m1.insert(k, l.last()));
    }
}

proof fn lemma_preferences_listing_restores(l: Seq<PreferenceModel>, m: Map<Seq<char>, PreferenceModel>)
    requires
        lists_preferences(l, m),
    ensures
        preferences_from(l) =~= m,
    decreases l.len(),
{
    if l.len() == 0 {
        assert forall|k: Seq<char>| !m.contains_key(k) by {
            if m.contains_key(k) {
                let i = choose|i: int| 0 <= i < l.len() && normalized(#[trigger] l[i].executable) == k;
            }
        }
    } else {
        let d = l.drop_last();
        let k = normalized(l.last().executable);
        let m1 = m.remove(k);
        assert(l[l.len() - 1] == l.last());
        assert forall|i: int| 0 <= i < d.len() implies m1.contains_key(
            normalized(#[trigger] d[i].executable),
        ) && m1[normalized(d[i].executable)] == d[i] by {
            assert(d[i] == l[i]);
            assert(normalized(l[i].executable) != normalized(l[l.len() - 1].executable));
        }
        assert forall|q: Seq<char>| m1.contains_key(q) implies exists|i: int|
            0 <= i < d.len() && normalized(#[trigger] d[i].executable) == q by {
            let i = choose|i: int| 0 <= i < l.len() && normalized(#[trigger] l[i].executable) == q;
            assert(i != l.len() - 1);
            assert(d[i] == l[i]);
        }
        assert forall|i: int, j: int| 0 <= i < j < d.len() implies normalized(
            #[trigger] d[i].executable,
        ) != normalized(#[trigger] d[j].executable) by {
            assert(d[i] == l[i] && d[j] == l[j]);
        }
        lemma_preferences_listing_restores(d, m1);
        assert(preferences_from(l) =~= m1.insert(k, l.last()));
    }
}

/// Loading what was saved gives back the same settings, rules and learned
/// preferences.
pub proof fn lemma_saved_state_restores(p: PersistedModel, m: ServiceModel, other: ServiceModel, clock: Clock)
    requires
        snapshot_of(p, m),
    ensures
        initialized(other, p, clock).settings == m.settings,
        initialized(other, p, clock).rules == m.rules,
        initialized(other, p, clock).preferences == m.preferences,
{
    lemma_rules_listing_restores(p.manual_rules, m.rules);
    lemma_preferences_listing_restores(p.learned_preferences, m.preferences);
}

/// While the same application keeps the focus, a poll changes nothing but
/// the session's observations and the current mode, and asks for nothing more.
pub proof fn lemma_steady_focus_is_quiet(
    m: ServiceModel,
    app: FocusedAppModel,
    mode: Option<LanguageMode>,
    clock: Clock,
)
    requires
        m.active_app is Some,
        normalized(m.active_app->0.executable) == normalized(app.executable),
    ensures
        polled(m, Some(app), mode, clock).1 == Action::Done(Ok(())),
        polled(m, Some(app), mode, clock).0.rules == m.rules,
        polled(m, Some(app), mode, clock).0.preferences == m.preferences,
        polled(m, Some(app), mode, clock).0.last_decision == m.last_decision,
        polled(m, Some(app), mode, clock).0.recent_events == m.recent_events,
        polled(m, Some(app), mode, clock).0.current_input_mode == mode,
{
}


/// With automatic switching turned off, taking up a newly focused application
/// never asks to switch its input mode, whatever mode was read; the mode read
/// is kept and the focus change is logged.
pub proof fn lemma_no_switch_when_auto_switch_off(
    m: ServiceModel,
    app: FocusedAppModel,
    reply: Result<Option<LanguageMode>, Seq<char>>,
    clock: Clock,
)
    requires
        !m.settings.auto_switch_enabled,
    ensures
        !(focus_read(m, app, reply, clock).1 is SetInputMode),
        reply is Ok ==> focus_read(m, app, reply, clock).1 == Action::Done(Ok(())),
        reply is Ok ==> focus_read(m, app, reply, clock).0.current_input_mode == reply->Ok_0,
        reply is Ok ==> focus_read(m, app, reply, clock).0.recent_events[0].summary
            == "检测到应用切换"@,
        reply is Ok ==> focus_read(m, app, reply, clock).0.pending is Idle,
        m.pending is FocusRead && m.pending->FocusRead_app == app ==> !(resumed(
            m,
            ReplyModel::InputMode(reply),
            clock,
        ).1 is SetInputMode),
{
}

/// A platform that cannot control the input mode is never asked to switch it.
pub proof fn lemma_no_switch_without_input_control(
    m: ServiceModel,
    app: FocusedAppModel,
    reply: Result<Option<LanguageMode>, Seq<char>>,
    clock: Clock,
)
    requires
        !m.capabilities.supports_input_control,
    ensures
        !(focus_read(m, app, reply, clock).1 is SetInputMode),
{
}

/// With automatic switching on and a platform that can switch, a newly
/// focused application whose decided mode differs from the mode read is
/// switched to the decided mode.
pub proof fn lemma_switch_to_decided_mode(
    m: ServiceModel,
    app: FocusedAppModel,
    current: Option<LanguageMode>,
    target: LanguageMode,
    clock: Clock,
)
    requires
        m.settings.auto_switch_enabled,
        m.capabilities.supports_input_control,
        decide(ServiceModel { current_input_mode: current, ..m }, app).target_language == Some(target),
        current != Some(target),
    ensures
        focus_read(m, app, Ok(current), clock).1 == Action::SetInputMode(app, target),
{
}

/// An application without a manual rule whose learned preference has enough
/// samples, reaches the confidence threshold and has a strict majority is
/// switched to that majority mode, because of that preference, whatever its
/// kind suggests.
pub proof fn lemma_confident_preference_decides(m: ServiceModel, app: FocusedAppModel)
    requires
        !m.rules.contains_key(normalized(app.executable)),
        m.preferences.contains_key(normalized(app.executable)),
        total_score(m.preferences[normalized(app.executable)]) >= m.settings.min_learning_samples,
        total_score(m.preferences[normalized(app.executable)]) > 0,
        ({
            let p = m.preferences[normalized(app.executable)];
            let top = if p.chinese_score >= p.english_score {
                p.chinese_score
            } else {
                p.english_score
            };
            top * 1_000_000 >= m.settings.learning_confidence_threshold_ppm * total_score(p)
        }),
        m.preferences[normalized(app.executable)].chinese_score != m.preferences[normalized(
            app.executable,
        )].english_score,
    ensures
        decide(m, app).source == ResolutionSource::LearnedPreference,
        decide(m, app).target_language == Some(
            if m.preferences[normalized(app.executable)].chinese_score > m.preferences[normalized(
                app.executable,
            )].english_score {
                LanguageMode::Chinese
            } else {
                LanguageMode::English
            },
        ),
{
}

/// A learned preference with fewer samples than required never decides.
pub proof fn lemma_thin_preference_does_not_decide(m: ServiceModel, app: FocusedAppModel)
    requires
        m.preferences.contains_key(normalized(app.executable)),
        total_score(m.preferences[normalized(app.executable)]) < m.settings.min_learning_samples,
    ensures
        decide(m, app).source != ResolutionSource::LearnedPreference,
{
}

/// The Windows input mode depends on the keyboard layout only through the
/// low ten bits of its language identifier: Chinese exactly where those bits
/// are 0x04 (any Chinese locale) and the IME is open.
pub proof fn lemma_windows_mode_by_primary_language(layout: usize, ime_open: bool)
    ensures
        mode_of_input_state(layout, ime_open) == (if ime_open && layout % 1024 == 4 {
            LanguageMode::Chinese
        } else {
            LanguageMode::English
        }),
{
    assert((((layout & 0xffff) as u16) & 0x03ff == 4u16) == (layout % 1024 == 4)) by (bit_vector);
}

/// While the focused application keeps its normalized executable name,
/// whatever its title or other details, a poll that reads a mode records it as
/// the latest mode of the stay, and as the settled one where no guard holds;
/// the rest of the session stays.
pub proof fn lemma_reading_during_stay_is_latest(
    s: SessionModel,
    app: FocusedAppModel,
    mode: LanguageMode,
    now_ms: u64,
)
    requires
        normalized(s.app.executable) == normalized(app.executable),
    ensures
        observed(Some(s), Some(app), Some(mode), now_ms) is Some,
        observed(Some(s), Some(app), Some(mode), now_ms)->0.latest_observed_mode == Some(mode),
        observed(Some(s), Some(app), Some(mode), now_ms)->0.app == s.app,
        observed(Some(s), Some(app), Some(mode), now_ms)->0.entered_at_ms == s.entered_at_ms,
        observed(Some(s), Some(app), Some(mode), now_ms)->0.initial_mode == s.initial_mode,
        observed(Some(s), Some(app), Some(mode), now_ms)->0.auto_applied_mode
            == s.auto_applied_mode,
        s.switch_guard_until_ms is None ==> observed(
            Some(s),
            Some(app),
            Some(mode),
            now_ms,
        )->0.settled_mode == Some(mode),
{
}

/// Leaving an application after a long enough stay, with learning on and no
/// manual rule, teaches the last mode read during the stay.
pub proof fn lemma_leaving_teaches_last_reading(m: ServiceModel, now_ms: u64, mode: LanguageMode)
    requires
        m.session is Some,
        m.settings.learning_enabled,
        !m.rules.contains_key(normalized(m.session->0.app.executable)),
        now_ms >= m.session->0.entered_at_ms + 4000,
        m.session->0.latest_observed_mode == Some(mode),
    ensures
        leaving_sample(m, now_ms) == Some(mode),
{
}

/// Staying in an application whose window title changes, then moving the
/// focus to another application after a long enough stay, with learning on,
/// no manual rule and no automatic switch during the stay, saves a sample of
/// weight two for the last mode read during the stay.
pub proof fn lemma_stay_then_leave_learns_last_reading(
    m: ServiceModel,
    stay: FocusedAppModel,
    mode: LanguageMode,
    t1: Clock,
    next: FocusedAppModel,
    next_mode: Option<LanguageMode>,
    t2: Clock,
)
    requires
        m.session is Some,
        m.active_app is Some,
        normalized(m.active_app->0.executable) == normalized(stay.executable),
        normalized(m.session->0.app.executable) == normalized(stay.executable),
        normalized(next.executable) != normalized(stay.executable),
        m.session->0.auto_applied_mode is None,
        m.settings.learning_enabled,
        !m.rules.contains_key(normalized(stay.executable)),
        t2.monotonic_ms >= m.session->0.entered_at_ms + 4000,
    ensures
        ({
            let key = normalized(stay.executable);
            let m1 = polled(m, Some(stay), Some(mode), t1).0;
            let r = polled(m1, Some(next), next_mode, t2);
            let zh = if m.preferences.contains_key(key) {
                m.preferences[key].chinese_score as int
            } else {
                0
            };
            let en = if m.preferences.contains_key(key) {
                m.preferences[key].english_score as int
            } else {
                0
            };
            &&& r.1 == Action::Save
            &&& r.0.pending is LeavingSaved
            &&& r.0.pending->LeavingSaved_mode == mode
            &&& r.0.pending->LeavingSaved_executable == m.session->0.app.executable
            &&& r.0.session is None
            &&& r.0.preferences.contains_key(key)
            &&& mode == LanguageMode::Chinese ==> r.0.preferences[key].chinese_score == (if zh + 2
                > u32::MAX {
                u32::MAX as int
            } else {
                zh + 2
            }) && r.0.preferences[key].english_score == en
            &&& mode == LanguageMode::English ==> r.0.preferences[key].english_score == (if en + 2
                > u32::MAX {
                u32::MAX as int
            } else {
                en + 2
            }) && r.0.preferences[key].chinese_score == zh
        }),
{
}

/// Without a manual rule and without a learned preference that decides (too
/// few samples, too little confidence or no majority), the guess from the
/// kind of application decides, or nothing does.
pub proof fn lemma_guess_decides_otherwise(m: ServiceModel, app: FocusedAppModel)
    requires
        !m.rules.contains_key(normalized(app.executable)),
        m.preferences.contains_key(normalized(app.executable)) ==> ({
            let p = m.preferences[normalized(app.executable)];
            let top = if p.chinese_score >= p.english_score {
                p.chinese_score
            } else {
                p.english_score
            };
            ||| total_score(p) < m.settings.min_learning_samples
            ||| total_score(p) == 0
            ||| top * 1_000_000 < m.settings.learning_confidence_threshold_ppm * total_score(p)
            ||| p.chinese_score == p.english_score
        }),
    ensures
        decide(m, app).target_language == heuristic_language(app),
        heuristic_language(app) is Some ==> decide(m, app).source == ResolutionSource::Heuristic,
        heuristic_language(app) is None ==> decide(m, app).source == ResolutionSource::Unresolved,
{
}

proof fn lemma_keyword_match(hay: Seq<char>, keywords: Seq<Seq<char>>, j: int)
    requires
        0 <= j < keywords.len(),
        contains_text(hay, keywords[j]),
    ensures
        crate::text::contains_any_text(hay, keywords),
{
}

/// Chat, notes and music applications are guessed Chinese from their
/// executable name.
pub proof fn lemma_chinese_apps_guessed_chinese(app: FocusedAppModel)
    ensures
        ({
            let key = normalized(app.executable);
            contains_text(key, "wechat"@) || contains_text(key, "weixin"@) || contains_text(key, "qq"@)
                || contains_text(key, "tim"@) || contains_text(key, "dingtalk"@) || contains_text(
                key,
                "feishu"@,
            ) || contains_text(key, "lark"@) || contains_text(key, "wecom"@) || contains_text(
                key,
                "wxwork"@,
            ) || contains_text(key, "music"@) || contains_text(key, "notes"@) || contains_text(
                key,
                "notion"@,
            )
        }) ==> heuristic_language(app) == Some(LanguageMode::Chinese),
{
    let key = normalized(app.executable);
    let k = chinese_app_keywords();
    let words = seq![
        "wechat"@, "weixin"@, "qq"@, "tim"@, "dingtalk"@, "feishu"@, "lark"@, "wecom"@,
        "wxwork"@, "music"@, "notes"@, "notion"@,
    ];
    assert(k =~= words);
    assert forall|j: int| 0 <= j < k.len() && contains_text(key, #[trigger] k[j]) implies crate::text::contains_any_text(key, k) by {
        lemma_keyword_match(key, k, j);
    }
    assert(words[0] == "wechat"@ && words[1] == "weixin"@ && words[2] == "qq"@ && words[3]
        == "tim"@ && words[4] == "dingtalk"@ && words[5] == "feishu"@ && words[6] == "lark"@
        && words[7] == "wecom"@ && words[8] == "wxwork"@ && words[9] == "music"@ && words[10]
        == "notes"@ && words[11] == "notion"@);
}

/// Chat and document windows are guessed Chinese from their title.
pub proof fn lemma_chinese_titles_guessed_chinese(app: FocusedAppModel)
    ensures
        ({
            let title = ascii_lower_text(app.window_title);
            contains_text(title, "微信"@) || contains_text(title, "聊天"@) || contains_text(
                title,
                "消息"@,
            ) || contains_text(title, "备注"@) || contains_text(title, "文档"@)
        }) ==> heuristic_language(app) == Some(LanguageMode::Chinese),
{
    let title = ascii_lower_text(app.window_title);
    let k = chinese_title_keywords();
    let words = seq!["微信"@, "聊天"@, "消息"@, "备注"@, "文档"@];
    assert(k =~= words);
    assert forall|j: int| 0 <= j < k.len() && contains_text(title, #[trigger] k[j]) implies crate::text::contains_any_text(title, k) by {
        lemma_keyword_match(title, k, j);
    }
    assert(words[0] == "微信"@ && words[1] == "聊天"@ && words[2] == "消息"@ && words[3]
        == "备注"@ && words[4] == "文档"@);
}

/// Editors, IDEs, terminals and shells not guessed Chinese are guessed
/// English from their executable name.
pub proof fn lemma_development_apps_guessed_english(app: FocusedAppModel)
    ensures
        heuristic_language(app) != Some(LanguageMode::Chinese) && ({
            let key = normalized(app.executable);
            contains_text(key, "code"@) || contains_text(key, "cursor"@) || contains_text(
                key,
                "idea"@,
            ) || contains_text(key, "pycharm"@) || contains_text(key, "goland"@) || contains_text(
                key,
                "clion"@,
            ) || contains_text(key, "webstorm"@) || contains_text(key, "rider"@) || contains_text(
                key,
                "datagrip"@,
            ) || contains_text(key, "terminal"@) || contains_text(key, "powershell"@)
                || contains_text(key, "cmd"@) || contains_text(key, "alacritty"@) || contains_text(
                key,
                "wezterm"@,
            ) || contains_text(key, "kitty"@) || contains_text(key, "bash"@) || contains_text(
                key,
                "zsh"@,
            ) || contains_text(key, "git"@) || contains_text(key, "devenv"@) || contains_text(
                key,
                "notepad++"@,
            )
        }) ==> heuristic_language(app) == Some(LanguageMode::English),
{
    let key = normalized(app.executable);
    let k = english_app_keywords();
    let words = seq![
        "code"@, "cursor"@, "idea"@, "pycharm"@, "goland"@, "clion"@, "webstorm"@, "rider"@,
        "datagrip"@, "terminal"@, "powershell"@, "cmd"@, "alacritty"@, "wezterm"@, "kitty"@,
        "bash"@, "zsh"@, "git"@, "devenv"@, "notepad++"@,
    ];
    assert(k =~= words);
    assert forall|j: int| 0 <= j < k.len() && contains_text(key, #[trigger] k[j]) implies crate::text::contains_any_text(key, k) by {
        lemma_keyword_match(key, k, j);
    }
    assert(words[0] == "code"@ && words[1] == "cursor"@ && words[2] == "idea"@ && words[3]
        == "pycharm"@ && words[4] == "goland"@ && words[5] == "clion"@ && words[6]
        == "webstorm"@ && words[7] == "rider"@ && words[8] == "datagrip"@ && words[9]
        == "terminal"@ && words[10] == "powershell"@ && words[11] == "cmd"@ && words[12]
        == "alacritty"@ && words[13] == "wezterm"@ && words[14] == "kitty"@ && words[15]
        == "bash"@ && words[16] == "zsh"@ && words[17] == "git"@ && words[18] == "devenv"@
        && words[19] == "notepad++"@);
}


/// After a switch, the new mode counts as applied automatically exactly when
/// the platform reported success and the mode read back is the target; then
/// the settling of the mode is guarded for `SESSION_GUARD_MS`.
pub proof fn lemma_switch_confirmation(
    m: ServiceModel,
    app: FocusedAppModel,
    d: DecisionModel,
    initial_mode: Option<LanguageMode>,
    target: LanguageMode,
    switched: bool,
    refreshed: Option<LanguageMode>,
    clock: Clock,
)
    requires
        clock.monotonic_ms + SESSION_GUARD_MS <= u64::MAX,
    ensures
        ({
            let r = switch_verified(m, app, d, initial_mode, target, switched, Ok(refreshed), clock);
            &&& r.1 == Action::Done(Ok(()))
            &&& r.0.current_input_mode == refreshed
            &&& r.0.last_decision == Some(d)
            &&& r.0.session is Some
            &&& r.0.session->0.app == app
            &&& r.0.session->0.entered_at_ms == clock.monotonic_ms
            &&& r.0.session->0.initial_mode == initial_mode
            &&& (switched && refreshed == Some(target)) ==> r.0.session->0.auto_applied_mode == Some(
                target,
            ) && r.0.session->0.switch_guard_until_ms == Some(
                (clock.monotonic_ms + 1400) as u64,
            ) && r.0.recent_events[0].summary == "切换焦点时自动调整输入法"@
            &&& !(switched && refreshed == Some(target)) ==> r.0.session->0.auto_applied_mode is None
                && r.0.session->0.switch_guard_until_ms is None && r.0.recent_events[0].summary
                == "尝试自动调整输入法但未确认成功"@
        }),
{
}

/// A learning sample weighs three where the user overrode an automatic
/// switch, one where they kept it, and two where nothing was switched.
pub proof fn lemma_sample_weights(applied: LanguageMode, kept: LanguageMode)
    ensures
        applied != kept ==> sample_weight(Some(applied), kept) == 3,
        applied == kept ==> sample_weight(Some(applied), kept) == 1,
        sample_weight(None, kept) == 2,
{
}

/// A learned preference whose majority falls short of the confidence
/// threshold never decides.
pub proof fn lemma_unconfident_preference_does_not_decide(m: ServiceModel, app: FocusedAppModel)
    requires
        m.preferences.contains_key(normalized(app.executable)),
        total_score(m.preferences[normalized(app.executable)]) > 0,
        ({
            let p = m.preferences[normalized(app.executable)];
            let top = if p.chinese_score >= p.english_score {
                p.chinese_score
            } else {
                p.english_score
            };
            top * 1_000_000 < m.settings.learning_confidence_threshold_ppm * total_score(p)
        }),
    ensures
        decide(m, app).source != ResolutionSource::LearnedPreference,
{
}

/// A mode read while an automatic switch is still guarded does not yet settle
/// the session; once the guard has passed, the guard is dropped and the mode
/// read settles it.
pub proof fn lemma_guard_delays_settling(
    s: SessionModel,
    app: FocusedAppModel,
    mode: LanguageMode,
    now_ms: u64,
    until: u64,
)
    requires
        normalized(s.app.executable) == normalized(app.executable),
        s.switch_guard_until_ms == Some(until),
    ensures
        now_ms < until ==> observed(Some(s), Some(app), Some(mode), now_ms)->0.settled_mode
            == s.settled_mode && observed(Some(s), Some(app), Some(mode), now_ms)->0.switch_guard_until_ms
            == Some(until),
        now_ms >= until ==> observed(Some(s), Some(app), Some(mode), now_ms)->0.settled_mode
            == Some(mode) && observed(Some(s), Some(app), Some(mode), now_ms)->0.switch_guard_until_ms
            is None,
{
}

/// A rule for a blank name is refused and changes nothing.
pub proof fn lemma_blank_rule_refused(
    m: ServiceModel,
    executable: Seq<char>,
    language: LanguageMode,
    note: Option<Seq<char>>,
    clock: Clock,
)
    requires
        forall|i: int| 0 <= i < executable.len() ==> is_white_space(#[trigger] executable[i]),
    ensures
        rule_upserted(m, executable, language, note, clock).0 == m,
        rule_upserted(m, executable, language, note, clock).1 == Action::Done(Err("应用名不能为空。"@)),
{
    lemma_blank_trims_to_nothing(executable);
}

proof fn lemma_blank_trims_to_nothing(s: Seq<char>)
    requires
        forall|i: int| 0 <= i < s.len() ==> is_white_space(#[trigger] s[i]),
    ensures
        trim_text(s).len() == 0,
    decreases s.len(),
{
    if s.len() > 0 {
        let d = s.drop_first();
        assert(is_white_space(s[0]));
        assert forall|i: int| 0 <= i < d.len() implies is_white_space(#[trigger] d[i]) by {
            assert(d[i] == s[i + 1]);
        }
        lemma_blank_trims_to_nothing(d);
    }
}

/// When storing fails, the operation fails with the storage's error and
/// logs nothing.
pub proof fn lemma_failed_save_reports_error(m: ServiceModel, e: Seq<char>, clock: Clock)
    requires
        m.pending is RuleSaved || m.pending is RuleRemovalSaved || m.pending is SettingsSaved
            || m.pending is SampleSaved,
    ensures
        resumed(m, ReplyModel::Saved(Err(e)), clock).1 == Action::Done(Err(e)),
        resumed(m, ReplyModel::Saved(Err(e)), clock).0.recent_events == m.recent_events,
        resumed(m, ReplyModel::Saved(Err(e)), clock).0.last_decision == m.last_decision,
{
}

/// Learning from the current mode adds three to the score of that mode in
/// the preference of the application in focus, and dates it.
pub proof fn lemma_observation_weighs_three(m: ServiceModel, clock: Clock)
    requires
        m.active_app is Some,
        m.current_input_mode is Some,
    ensures
        ({
            let key = normalized(m.active_app->0.executable);
            let r = observation_learned(m, clock).0;
            let before_zh = if m.preferences.contains_key(key) {
                m.preferences[key].chinese_score as int
            } else {
                0
            };
            let before_en = if m.preferences.contains_key(key) {
                m.preferences[key].english_score as int
            } else {
                0
            };
            &&& observation_learned(m, clock).1 == Action::Save
            &&& r.preferences.contains_key(key)
            &&& r.preferences[key].last_observed_epoch == clock.epoch_secs
            &&& m.current_input_mode == Some(LanguageMode::Chinese) ==> r.preferences[key].chinese_score
                == (if before_zh + 3 > u32::MAX { u32::MAX as int } else { before_zh + 3 })
                && r.preferences[key].english_score == before_en
            &&& m.current_input_mode == Some(LanguageMode::English) ==> r.preferences[key].english_score
                == (if before_en + 3 > u32::MAX { u32::MAX as int } else { before_en + 3 })
                && r.preferences[key].chinese_score == before_zh
        }),
{
}

/// A key has no white space at either end and no ASCII capital letter.
pub proof fn lemma_key_shape(s: Seq<char>)
    ensures
        normalized(s).len() > 0 ==> !is_white_space(normalized(s).first()) && !is_white_space(
            normalized(s).last(),
        ),
        forall|i: int| 0 <= i < normalized(s).len() ==> !('A' <= #[trigger] normalized(s)[i] && normalized(s)[i] <= 'Z'),
{
    let t = trim_text(s);
    lemma_trim_ends(s);
    if t.len() > 0 {
        assert(normalized(s).first() == lower_char(t.first()));
        assert(normalized(s).last() == lower_char(t.last()));
    }
}

} // verus!
