//! What the switcher's operations do, stated over its abstract state: the
//! decision for an application, a poll, the replies that move a pending
//! operation on, and the operations started by the user.
use vstd::prelude::*;
use crate::decision::{heuristic_language, heuristic_reason, learned_reason, on_off_text, rule_reason, source_text};
use crate::models::{
    confidence_reaches, label_text, preferred, ranks_before, recorded, total_score, DecisionModel,
    EngineSettings, EventModel, FocusedAppModel, LanguageMode, ManualRuleModel, PersistedModel,
    PreferenceModel, PreferenceViewModel, ResolutionSource, preference_view_of,
};
use crate::platform::CapabilitiesModel;
use crate::text::{normalized, text_less, trim_text};

verus! {

/// The number of activity events kept, newest first.
pub const MAX_RECENT_EVENTS: usize = 16;

/// How long after an automatic switch the observed mode is not yet taken as
/// the one the user settled on, in milliseconds.
pub const SESSION_GUARD_MS: u64 = 1400;

/// How long a stay in an application must last before it counts as a
/// learning sample, in milliseconds.
pub const MIN_LEARNING_SESSION_MS: u64 = 4000;

/// Readings of the two clocks: a monotonic one for durations, in
/// milliseconds, and the wall clock, in seconds since the Unix epoch.
#[derive(Debug, Clone, Copy, PartialEq, Eq, Structural)]
pub struct Clock {
    pub monotonic_ms: u64,
    pub epoch_secs: u64,
}

/// A new entry of the activity log.
pub open spec fn event(epoch: u64, app: Seq<char>, summary: Seq<char>, detail: Seq<char>) -> EventModel {
    EventModel { timestamp_epoch: epoch, app, summary, detail }
}

/// The log with `ev` added in front, cut to its newest `MAX_RECENT_EVENTS` entries.
pub open spec fn logged(events: Seq<EventModel>, ev: EventModel) -> Seq<EventModel> {
    let s = seq![ev] + events;
    if s.len() > MAX_RECENT_EVENTS {
        s.subrange(0, MAX_RECENT_EVENTS as int)
    } else {
        s
    }
}

/// The manual rules that a list of rules stands for, each filed under its
/// normalized executable; a later rule for the same application replaces an earlier one.
pub open spec fn rules_from(l: Seq<ManualRuleModel>) -> Map<Seq<char>, ManualRuleModel>
    decreases l.len(),
{
    if l.len() == 0 {
        Map::empty()
    } else {
        rules_from(l.drop_last()).insert(normalized(l.last().executable), l.last())
    }
}

/// The learned preferences that a list stands for, as `rules_from` does for rules.
pub open spec fn preferences_from(l: Seq<PreferenceModel>) -> Map<Seq<char>, PreferenceModel>
    decreases l.len(),
{
    if l.len() == 0 {
        Map::empty()
    } else {
        preferences_from(l.drop_last()).insert(normalized(l.last().executable), l.last())
    }
}

/// `l` lists the rules of `m`, each once, in ascending order of their keys.
pub open spec fn lists_rules(l: Seq<ManualRuleModel>, m: Map<Seq<char>, ManualRuleModel>) -> bool {
    &&& forall|i: int|
        0 <= i < l.len() ==> m.contains_key(normalized(#[trigger] l[i].executable)) && m[normalized(
            l[i].executable,
        )] == l[i]
    &&& forall|k: Seq<char>|
        m.contains_key(k) ==> exists|i: int| 0 <= i < l.len() && normalized(#[trigger] l[i].executable) == k
    &&& forall|i: int, j: int|
        0 <= i < j < l.len() ==> text_less(
            normalized(#[trigger] l[i].executable),
            normalized(#[trigger] l[j].executable),
        )
}

/// `l` lists the preferences of `m`, each once, in some order.
pub open spec fn lists_preferences(l: Seq<PreferenceModel>, m: Map<Seq<char>, PreferenceModel>) -> bool {
    &&& forall|i: int|
        0 <= i < l.len() ==> m.contains_key(normalized(#[trigger] l[i].executable)) && m[normalized(
            l[i].executable,
        )] == l[i]
    &&& forall|k: Seq<char>|
        m.contains_key(k) ==> exists|i: int| 0 <= i < l.len() && normalized(#[trigger] l[i].executable) == k
    &&& forall|i: int, j: int|
        0 <= i < j < l.len() ==> normalized(#[trigger] l[i].executable) != normalized(
            #[trigger] l[j].executable,
        )
}

pub struct SessionModel {
    pub app: FocusedAppModel,
    pub entered_at_ms: u64,
    pub initial_mode: Option<LanguageMode>,
    pub auto_applied_mode: Option<LanguageMode>,
    pub latest_observed_mode: Option<LanguageMode>,
    pub settled_mode: Option<LanguageMode>,
    pub switch_guard_until_ms: Option<u64>,
}

pub enum PendingModel {
    Idle,
    LeavingSaved {
        executable: Seq<char>,
        mode: LanguageMode,
        active: Option<FocusedAppModel>,
        current_mode: Option<LanguageMode>,
    },
    FocusRead { app: FocusedAppModel },
    SwitchSent {
        app: FocusedAppModel,
        decision: DecisionModel,
        initial_mode: Option<LanguageMode>,
        target: LanguageMode,
    },
    SwitchVerified {
        app: FocusedAppModel,
        decision: DecisionModel,
        initial_mode: Option<LanguageMode>,
        target: LanguageMode,
        switched: bool,
    },
    RuleSaved { executable: Seq<char>, language: LanguageMode },
    RuleRemovalSaved { executable: Seq<char> },
    SettingsSaved { auto_switch_enabled: bool, learning_enabled: bool },
    SampleSaved { executable: Seq<char>, mode: LanguageMode },
}

/// The abstract state of the switcher.
pub struct ServiceModel {
    pub capabilities: CapabilitiesModel,
    pub settings: EngineSettings,
    /// Manual rules, by normalized executable name.
    pub rules: Map<Seq<char>, ManualRuleModel>,
    /// Learned preferences, by normalized executable name.
    pub preferences: Map<Seq<char>, PreferenceModel>,
    pub active_app: Option<FocusedAppModel>,
    pub current_input_mode: Option<LanguageMode>,
    pub last_decision: Option<DecisionModel>,
    /// The activity log, newest first.
    pub recent_events: Seq<EventModel>,
    pub session: Option<SessionModel>,
    pub pending: PendingModel,
}

/// The preference filed under `key` before a sample, or an empty one for `executable`.
pub open spec fn preference_or_empty(
    prefs: Map<Seq<char>, PreferenceModel>,
    key: Seq<char>,
    executable: Seq<char>,
) -> PreferenceModel {
    if prefs.contains_key(key) {
        prefs[key]
    } else {
        PreferenceModel { executable, chinese_score: 0, english_score: 0, last_observed_epoch: 0 }
    }
}

/// The preferences after one sample of `weight` for `mode`, filed under `key`.
pub open spec fn sampled(
    prefs: Map<Seq<char>, PreferenceModel>,
    key: Seq<char>,
    executable: Seq<char>,
    mode: LanguageMode,
    weight: u32,
    epoch: u64,
) -> Map<Seq<char>, PreferenceModel> {
    prefs.insert(key, recorded(preference_or_empty(prefs, key, executable), mode, weight, epoch))
}

pub open spec fn outcome(r: Result<(), String>) -> Result<(), Seq<char>> {
    match r {
        Ok(()) => Ok(()),
        Err(e) => Err(e@),
    }
}

pub open spec fn error_text<T>(r: Result<T, String>) -> Result<T, Seq<char>> {
    match r {
        Ok(t) => Ok(t),
        Err(e) => Err(e@),
    }
}

/// A request, with the state to be stored left out.
pub enum Action {
    Save,
    ReadInputMode(FocusedAppModel),
    SetInputMode(FocusedAppModel, LanguageMode),
    Done(Result<(), Seq<char>>),
}

pub enum ReplyModel {
    Saved(Result<(), Seq<char>>),
    InputMode(Result<Option<LanguageMode>, Seq<char>>),
    Switched(Result<bool, Seq<char>>),
}

/// `p` holds the settings, the rules and the preferences of `m`.
pub open spec fn snapshot_of(p: PersistedModel, m: ServiceModel) -> bool {
    &&& p.settings == m.settings
    &&& lists_rules(p.manual_rules, m.rules)
    &&& lists_preferences(p.learned_preferences, m.preferences)
}

/// The step that `p` waits in takes a reply of the kind of `r`.
pub open spec fn accepts(p: PendingModel, r: ReplyModel) -> bool {
    match p {
        PendingModel::Idle => false,
        PendingModel::FocusRead { .. } => r is InputMode,
        PendingModel::SwitchSent { .. } => r is Switched,
        PendingModel::SwitchVerified { .. } => r is InputMode,
        _ => r is Saved,
    }
}

pub open spec fn idle(m: ServiceModel) -> ServiceModel {
    ServiceModel { pending: PendingModel::Idle, ..m }
}

pub open spec fn with_event(m: ServiceModel, ev: EventModel) -> ServiceModel {
    ServiceModel { recent_events: logged(m.recent_events, ev), ..m }
}

/// A learned preference decides where it has enough evidence, a confident
/// enough majority, and a mode with strictly more evidence.
pub open spec fn learned_applies(p: PreferenceModel, s: EngineSettings) -> bool {
    &&& total_score(p) >= s.min_learning_samples
    &&& confidence_reaches(p, s.learning_confidence_threshold_ppm)
    &&& preferred(p) is Some
}

pub open spec fn unresolved_reason() -> Seq<char> {
    "当前没有命中规则，也还没有足够的学习样本。"@
}

/// The mode for `app`: its manual rule where it has one; else its learned
/// preference where that decides; else the guess from the kind of application.
pub open spec fn decide(m: ServiceModel, app: FocusedAppModel) -> DecisionModel {
    let key = normalized(app.executable);
    if m.rules.contains_key(key) {
        DecisionModel {
            target_language: Some(m.rules[key].preferred_language),
            source: ResolutionSource::ManualRule,
            reason: rule_reason(m.rules[key]),
        }
    } else if m.preferences.contains_key(key) && learned_applies(m.preferences[key], m.settings) {
        DecisionModel {
            target_language: preferred(m.preferences[key]),
            source: ResolutionSource::LearnedPreference,
            reason: learned_reason(m.preferences[key]),
        }
    } else {
        match heuristic_language(app) {
            Some(language) => DecisionModel {
                target_language: Some(language),
                source: ResolutionSource::Heuristic,
                reason: heuristic_reason(app.executable, language),
            },
            None => DecisionModel {
                target_language: None,
                source: ResolutionSource::Unresolved,
                reason: unresolved_reason(),
            },
        }
    }
}

pub open spec fn same_app(a: FocusedAppModel, b: FocusedAppModel) -> bool {
    normalized(a.executable) == normalized(b.executable)
}

/// The focus moved: to another application, or from none to one, or back.
pub open spec fn focus_changed(prev: Option<FocusedAppModel>, next: Option<FocusedAppModel>) -> bool {
    match (prev, next) {
        (Some(p), Some(n)) => !same_app(p, n),
        (None, None) => false,
        _ => true,
    }
}

/// The session after a poll saw `active` in `mode`: while the same
/// application keeps the focus, an expired guard is dropped and a mode that was
/// read becomes the latest one, and also the settled one where no guard holds.
pub open spec fn observed(
    s: Option<SessionModel>,
    active: Option<FocusedAppModel>,
    mode: Option<LanguageMode>,
    now_ms: u64,
) -> Option<SessionModel> {
    match (s, active) {
        (Some(sess), Some(app)) => if same_app(sess.app, app) {
            let guard = match sess.switch_guard_until_ms {
                Some(until) => if now_ms >= until {
                    None
                } else {
                    Some(until)
                },
                None => None,
            };
            if mode is Some {
                Some(
                    SessionModel {
                        switch_guard_until_ms: guard,
                        latest_observed_mode: mode,
                        settled_mode: if guard is None {
                            mode
                        } else {
                            sess.settled_mode
                        },
                        ..sess
                    },
                )
            } else {
                Some(SessionModel { switch_guard_until_ms: guard, ..sess })
            }
        } else {
            s
        },
        _ => s,
    }
}

pub open spec fn first_some(a: Option<LanguageMode>, b: Option<LanguageMode>) -> Option<LanguageMode> {
    if a is Some {
        a
    } else {
        b
    }
}

pub open spec fn elapsed_ms(now_ms: u64, since_ms: u64) -> int {
    if now_ms >= since_ms {
        now_ms - since_ms
    } else {
        0
    }
}

/// The weight of a learning sample: three where the user overrode an
/// automatic switch, one where they kept it, two where nothing was switched.
pub open spec fn sample_weight(auto_applied: Option<LanguageMode>, final_mode: LanguageMode) -> u32 {
    match auto_applied {
        Some(a) => if a != final_mode {
            3
        } else {
            1
        },
        None => 2,
    }
}

/// The mode that leaving the session of `m` teaches: none where learning is
/// off, where the application has a manual rule, or where the stay was too
/// short; else the mode last seen, or the settled one, or the initial one.
pub open spec fn leaving_sample(m: ServiceModel, now_ms: u64) -> Option<LanguageMode> {
    match m.session {
        None => None,
        Some(s) => if !m.settings.learning_enabled || m.rules.contains_key(
            normalized(s.app.executable),
        ) || elapsed_ms(now_ms, s.entered_at_ms) < MIN_LEARNING_SESSION_MS {
            None
        } else {
            first_some(s.latest_observed_mode, first_some(s.settled_mode, s.initial_mode))
        },
    }
}

pub open spec fn no_app_decision() -> DecisionModel {
    DecisionModel {
        target_language: None,
        source: ResolutionSource::Unresolved,
        reason: "当前没有可识别的前台应用。"@,
    }
}

/// The focus has moved to `active`: record it, then read the mode of the new
/// application, or note that there is none.
pub open spec fn take_up(
    m: ServiceModel,
    active: Option<FocusedAppModel>,
    mode: Option<LanguageMode>,
) -> (ServiceModel, Action) {
    let m1 = ServiceModel { active_app: active, current_input_mode: mode, ..m };
    match active {
        Some(app) => (
            ServiceModel { pending: PendingModel::FocusRead { app }, ..m1 },
            Action::ReadInputMode(app),
        ),
        None => (
            ServiceModel {
                last_decision: Some(no_app_decision()),
                pending: PendingModel::Idle,
                ..m1
            },
            Action::Done(Ok(())),
        ),
    }
}

/// A poll that found `active` in the foreground, in `mode`.
pub open spec fn polled(
    m: ServiceModel,
    active: Option<FocusedAppModel>,
    mode: Option<LanguageMode>,
    clock: Clock,
) -> (ServiceModel, Action) {
    let m1 = ServiceModel { session: observed(m.session, active, mode, clock.monotonic_ms), ..m };
    if !focus_changed(m.active_app, active) {
        (
            ServiceModel { active_app: active, current_input_mode: mode, ..m1 },
            Action::Done(Ok(())),
        )
    } else {
        let m2 = ServiceModel { session: None, ..m1 };
        match leaving_sample(m1, clock.monotonic_ms) {
            Some(final_mode) => {
                let left = m1.session->0.app;
                let weight = sample_weight(m1.session->0.auto_applied_mode, final_mode);
                (
                    ServiceModel {
                        preferences: sampled(
                            m2.preferences,
                            normalized(left.executable),
                            left.executable,
                            final_mode,
                            weight,
                            clock.epoch_secs,
                        ),
                        pending: PendingModel::LeavingSaved {
                            executable: left.executable,
                            mode: final_mode,
                            active,
                            current_mode: mode,
                        },
                        ..m2
                    },
                    Action::Save,
                )
            },
            None => take_up(m2, active, mode),
        }
    }
}

/// The mode of a window as the log names it.
pub open spec fn mode_text(mode: Option<LanguageMode>) -> Seq<char> {
    match mode {
        Some(l) => label_text(l),
        None => "未知"@,
    }
}

/// Whether the mode should be switched on focus: automatic switching is on,
/// the platform can switch, and the decision names a mode other than the current one.
pub open spec fn wants_switch(m: ServiceModel, d: DecisionModel, current: Option<LanguageMode>) -> bool {
    &&& m.settings.auto_switch_enabled
    &&& m.capabilities.supports_input_control
    &&& d.target_language is Some
    &&& current != d.target_language
}

/// The mode of the newly focused `app` has been read.
pub open spec fn focus_read(
    m: ServiceModel,
    app: FocusedAppModel,
    reply: Result<Option<LanguageMode>, Seq<char>>,
    clock: Clock,
) -> (ServiceModel, Action) {
    match reply {
        Err(e) => (idle(m), Action::Done(Err(e))),
        Ok(current) => {
            let m1 = ServiceModel { current_input_mode: current, ..m };
            let d = decide(m1, app);
            if wants_switch(m1, d, current) {
                (
                    ServiceModel {
                        pending: PendingModel::SwitchSent {
                            app,
                            decision: d,
                            initial_mode: current,
                            target: d.target_language->0,
                        },
                        ..m1
                    },
                    Action::SetInputMode(app, d.target_language->0),
                )
            } else {
                let m2 = with_event(
                    m1,
                    event(clock.epoch_secs, app.executable, "检测到应用切换"@, d.reason),
                );
                (
                    ServiceModel {
                        last_decision: Some(d),
                        session: Some(
                            SessionModel {
                                app,
                                entered_at_ms: clock.monotonic_ms,
                                initial_mode: current,
                                auto_applied_mode: None,
                                latest_observed_mode: current,
                                settled_mode: current,
                                switch_guard_until_ms: None,
                            },
                        ),
                        pending: PendingModel::Idle,
                        ..m2
                    },
                    Action::Done(Ok(())),
                )
            }
        },
    }
}

/// The switch has been attempted; its result is `reply`.
pub open spec fn switch_sent(
    m: ServiceModel,
    app: FocusedAppModel,
    decision: DecisionModel,
    initial_mode: Option<LanguageMode>,
    target: LanguageMode,
    reply: Result<bool, Seq<char>>,
) -> (ServiceModel, Action) {
    match reply {
        Err(e) => (idle(m), Action::Done(Err(e))),
        Ok(switched) => (
            ServiceModel {
                pending: PendingModel::SwitchVerified { app, decision, initial_mode, target, switched },
                ..m
            },
            Action::ReadInputMode(app),
        ),
    }
}

/// The log entry for a switch that was made and confirmed.
pub open spec fn switched_event(epoch: u64, app: Seq<char>, d: DecisionModel, target: LanguageMode) -> EventModel {
    event(
        epoch,
        app,
        "切换焦点时自动调整输入法"@,
        source_text(d.source) + " -> "@ + label_text(target),
    )
}

/// The log entry for a switch that was not confirmed.
pub open spec fn unconfirmed_event(
    epoch: u64,
    app: Seq<char>,
    target: LanguageMode,
    seen: Option<LanguageMode>,
) -> EventModel {
    event(
        epoch,
        app,
        "尝试自动调整输入法但未确认成功"@,
        "目标为 "@ + label_text(target) + "，当前检测结果为 "@ + mode_text(seen) + "。"@,
    )
}

/// The mode has been read again after the switch; a switch counts as applied
/// where it succeeded and the mode read is the target.
pub open spec fn switch_verified(
    m: ServiceModel,
    app: FocusedAppModel,
    d: DecisionModel,
    initial_mode: Option<LanguageMode>,
    target: LanguageMode,
    switched: bool,
    reply: Result<Option<LanguageMode>, Seq<char>>,
    clock: Clock,
) -> (ServiceModel, Action) {
    match reply {
        Err(e) => (idle(m), Action::Done(Err(e))),
        Ok(refreshed) => {
            let confirmed = switched && refreshed == Some(target);
            let auto = if confirmed {
                Some(target)
            } else {
                None
            };
            let guard = if confirmed {
                Some((clock.monotonic_ms + SESSION_GUARD_MS) as u64)
            } else {
                None
            };
            let ev = if confirmed {
                switched_event(clock.epoch_secs, app.executable, d, target)
            } else {
                unconfirmed_event(clock.epoch_secs, app.executable, target, refreshed)
            };
            let m1 = with_event(ServiceModel { current_input_mode: refreshed, ..m }, ev);
            (
                ServiceModel {
                    last_decision: Some(d),
                    session: Some(
                        SessionModel {
                            app,
                            entered_at_ms: clock.monotonic_ms,
                            initial_mode,
                            auto_applied_mode: auto,
                            latest_observed_mode: first_some(refreshed, initial_mode),
                            settled_mode: first_some(auto, first_some(refreshed, initial_mode)),
                            switch_guard_until_ms: guard,
                        },
                    ),
                    pending: PendingModel::Idle,
                    ..m1
                },
                Action::Done(Ok(())),
            )
        },
    }
}

/// A save finished: on failure the operation fails with the storage's error;
/// on success `ev` is logged.
pub open spec fn saved_then(m: ServiceModel, reply: Result<(), Seq<char>>, ev: EventModel) -> (
    ServiceModel,
    Action,
) {
    match reply {
        Err(e) => (idle(m), Action::Done(Err(e))),
        Ok(()) => (idle(with_event(m, ev)), Action::Done(Ok(()))),
    }
}

pub open spec fn learned_event(epoch: u64, app: Seq<char>, mode: LanguageMode) -> EventModel {
    event(
        epoch,
        app,
        "已更新学习偏好"@,
        "本次会话最终稳定在 "@ + label_text(mode) + "，已写入学习模型。"@,
    )
}

pub open spec fn rule_saved_event(epoch: u64, app: Seq<char>, language: LanguageMode) -> EventModel {
    event(epoch, app, "已保存手动规则"@, "切换到该应用时优先使用 "@ + label_text(language) + "。"@)
}

pub open spec fn rule_removed_event(epoch: u64, app: Seq<char>) -> EventModel {
    event(epoch, app, "已删除手动规则"@, "之后将回退到学习偏好或启发式判断。"@)
}

pub open spec fn settings_event(epoch: u64, auto_switch: bool, learning: bool) -> EventModel {
    event(
        epoch,
        "settings"@,
        "设置已更新"@,
        "自动切换："@ + on_off_text(auto_switch) + "，自学习："@ + on_off_text(learning) + "。"@,
    )
}

pub open spec fn observation_decision(mode: LanguageMode) -> DecisionModel {
    DecisionModel {
        target_language: Some(mode),
        source: ResolutionSource::ManualObservation,
        reason: "已根据你当前在该应用中的输入法状态补充一条学习样本。"@,
    }
}

pub open spec fn observation_event(epoch: u64, app: Seq<char>, mode: LanguageMode) -> EventModel {
    event(epoch, app, "已手动强化学习样本"@, "记录为 "@ + label_text(mode) + " 偏好。"@)
}

/// The log entry of a stored learning sample, then the newly focused application.
pub open spec fn leaving_saved(
    m: ServiceModel,
    executable: Seq<char>,
    mode: LanguageMode,
    active: Option<FocusedAppModel>,
    current_mode: Option<LanguageMode>,
    res: Result<(), Seq<char>>,
    clock: Clock,
) -> (ServiceModel, Action) {
    let m1 = if res is Ok {
        with_event(m, learned_event(clock.epoch_secs, executable, mode))
    } else {
        m
    };
    take_up(m1, active, current_mode)
}

/// A learning sample from the current application has been stored, or not.
pub open spec fn sample_saved(
    m: ServiceModel,
    executable: Seq<char>,
    mode: LanguageMode,
    res: Result<(), Seq<char>>,
    clock: Clock,
) -> (ServiceModel, Action) {
    match res {
        Err(e) => (idle(m), Action::Done(Err(e))),
        Ok(()) => (
            idle(
                with_event(
                    ServiceModel { last_decision: Some(observation_decision(mode)), ..m },
                    observation_event(clock.epoch_secs, executable, mode),
                ),
            ),
            Action::Done(Ok(())),
        ),
    }
}

/// The step that the reply `r` moves the switcher on by.
pub open spec fn resumed(m: ServiceModel, r: ReplyModel, clock: Clock) -> (ServiceModel, Action) {
    let m0 = idle(m);
    match (m.pending, r) {
        (
            PendingModel::LeavingSaved { executable, mode, active, current_mode },
            ReplyModel::Saved(res),
        ) => leaving_saved(m0, executable, mode, active, current_mode, res, clock),
        (PendingModel::FocusRead { app }, ReplyModel::InputMode(res)) => focus_read(
            m0,
            app,
            res,
            clock,
        ),
        (
            PendingModel::SwitchSent { app, decision, initial_mode, target },
            ReplyModel::Switched(res),
        ) => switch_sent(m0, app, decision, initial_mode, target, res),
        (
            PendingModel::SwitchVerified { app, decision, initial_mode, target, switched },
            ReplyModel::InputMode(res),
        ) => switch_verified(m0, app, decision, initial_mode, target, switched, res, clock),
        (PendingModel::RuleSaved { executable, language }, ReplyModel::Saved(res)) => saved_then(
            m0,
            res,
            rule_saved_event(clock.epoch_secs, executable, language),
        ),
        (PendingModel::RuleRemovalSaved { executable }, ReplyModel::Saved(res)) => saved_then(
            m0,
            res,
            rule_removed_event(clock.epoch_secs, executable),
        ),
        (
            PendingModel::SettingsSaved { auto_switch_enabled, learning_enabled },
            ReplyModel::Saved(res),
        ) => saved_then(
            m0,
            res,
            settings_event(clock.epoch_secs, auto_switch_enabled, learning_enabled),
        ),
        (PendingModel::SampleSaved { executable, mode }, ReplyModel::Saved(res)) => sample_saved(
            m0,
            executable,
            mode,
            res,
            clock,
        ),
        _ => (m, Action::Done(Ok(()))),
    }
}

/// Saving a manual rule for `executable`: refused where the name is blank;
/// else the rule, under the trimmed name, replaces any rule for the application.
pub open spec fn rule_upserted(
    m: ServiceModel,
    executable: Seq<char>,
    language: LanguageMode,
    note: Option<Seq<char>>,
    clock: Clock,
) -> (ServiceModel, Action) {
    let name = trim_text(executable);
    if name.len() == 0 {
        (m, Action::Done(Err("应用名不能为空。"@)))
    } else {
        (
            ServiceModel {
                rules: m.rules.insert(
                    normalized(name),
                    ManualRuleModel {
                        executable: name,
                        preferred_language: language,
                        note,
                        updated_at_epoch: clock.epoch_secs,
                    },
                ),
                pending: PendingModel::RuleSaved { executable: name, language },
                ..m
            },
            Action::Save,
        )
    }
}

/// Deleting the manual rule of `executable`, where there is one.
pub open spec fn rule_deleted(m: ServiceModel, executable: Seq<char>) -> (ServiceModel, Action) {
    (
        ServiceModel {
            rules: m.rules.remove(normalized(executable)),
            pending: PendingModel::RuleRemovalSaved { executable },
            ..m
        },
        Action::Save,
    )
}

/// Turning automatic switching and learning on or off.
pub open spec fn settings_updated(m: ServiceModel, auto_switch_enabled: bool, learning_enabled: bool) -> (
    ServiceModel,
    Action,
) {
    (
        ServiceModel {
            settings: EngineSettings { auto_switch_enabled, learning_enabled, ..m.settings },
            pending: PendingModel::SettingsSaved { auto_switch_enabled, learning_enabled },
            ..m
        },
        Action::Save,
    )
}

/// Learning from the mode the user is in now: refused where no application
/// is in focus or its mode is unknown; else a sample of weight three.
pub open spec fn observation_learned(m: ServiceModel, clock: Clock) -> (ServiceModel, Action) {
    match m.active_app {
        None => (m, Action::Done(Err("当前没有前台应用，无法学习。"@))),
        Some(app) => match m.current_input_mode {
            None => (m, Action::Done(Err("当前无法读取输入法状态，无法学习。"@))),
            Some(mode) => (
                ServiceModel {
                    preferences: sampled(
                        m.preferences,
                        normalized(app.executable),
                        app.executable,
                        mode,
                        3,
                        clock.epoch_secs,
                    ),
                    pending: PendingModel::SampleSaved { executable: app.executable, mode },
                    ..m
                },
                Action::Save,
            ),
        },
    }
}

/// The state after loading `p`: its settings, rules and preferences, and a
/// log entry that the service started.
pub open spec fn initialized(m: ServiceModel, p: PersistedModel, clock: Clock) -> ServiceModel {
    with_event(
        ServiceModel {
            settings: p.settings,
            rules: rules_from(p.manual_rules),
            preferences: preferences_from(p.learned_preferences),
            ..m
        },
        event(clock.epoch_secs, "system"@, "后台服务已启动"@, m.capabilities.notes),
    )
}

/// `l` shows the preferences of `m`, each once, in an order in which each
/// may be listed before the ones after it.
pub open spec fn lists_ranked(l: Seq<PreferenceViewModel>, m: Map<Seq<char>, PreferenceModel>) -> bool {
    &&& forall|i: int|
        0 <= i < l.len() ==> m.contains_key(normalized(#[trigger] l[i].executable))
            && preference_view_of(m[normalized(l[i].executable)]) == l[i]
    &&& forall|k: Seq<char>|
        m.contains_key(k) ==> exists|i: int| 0 <= i < l.len() && normalized(#[trigger] l[i].executable) == k
    &&& forall|i: int, j: int|
        0 <= i < j < l.len() ==> normalized(#[trigger] l[i].executable) != normalized(
            #[trigger] l[j].executable,
        )
    &&& forall|i: int, j: int| 0 <= i < j < l.len() ==> ranks_before(#[trigger] l[i], #[trigger] l[j])
}

} // verus!
