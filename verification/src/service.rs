//! The switcher's state and the decisions it takes. The platform and the
//! storage are driven from outside: each operation that needs them returns a
//! `Request`, and the caller performs it and hands the outcome back through
//! `SmartSwitcherService::resume`.
use vstd::prelude::*;
use crate::decision::{
    heuristic_language_for_app, heuristic_reason_text, learned_reason_text, rule_reason_text,
    source_label, yes_no,
};
use crate::models::{
    opt_text, ActivityEvent, AppOverview, DecisionSnapshot, EngineSettings, FocusedApp,
    LanguageMode, LearnedAppPreference, LearnedPreferenceView, ManualRule, ManualRuleModel,
    PersistedState, PlatformSnapshot, PreferenceModel, ResolutionSource, default_settings,
    preference_view_of, ranks_before, same_mode, lemma_ranks_total, lemma_ranks_transitive,
};
use crate::platform::PlatformCapabilities;
use crate::registry::{
    entries_view, find_entry, key_index, keyed_map, lemma_key_index, lemma_keyed_map_domain,
    lemma_sorted_unique, lemma_unique_key_index, preference_entries, preferences_filed,
    record_sample, remove_rule_entry, rule_entries, rules_filed, sorted_keys, unique_keys,
    upsert_preference_entry, upsert_rule_entry,
};
use crate::steps::{
    accepts, decide, error_text, event, focus_changed, focus_read, idle, initialized,
    leaving_sample, leaving_saved, lists_ranked, lists_rules, logged, mode_text,
    observation_learned, observed, outcome, polled, preferences_from, resumed, rule_deleted,
    rule_removed_event, rule_saved_event, rules_from, rule_upserted, sample_saved, sample_weight,
    saved_then, settings_event, settings_updated,
    snapshot_of, switch_sent, switch_verified, take_up, with_event, Action, Clock, PendingModel,
    ReplyModel, ServiceModel, SessionModel, MAX_RECENT_EVENTS, MIN_LEARNING_SESSION_MS,
    SESSION_GUARD_MS,
};
use crate::text::{join_texts, joined, normalize_key, normalized, text_less, trim};

verus! {

/// The application's session: the time it got the focus and the modes seen since.
#[derive(Debug)]
pub struct AppSession {
    pub app: FocusedApp,
    pub entered_at_ms: u64,
    pub initial_mode: Option<LanguageMode>,
    pub auto_applied_mode: Option<LanguageMode>,
    pub latest_observed_mode: Option<LanguageMode>,
    pub settled_mode: Option<LanguageMode>,
    pub switch_guard_until_ms: Option<u64>,
}

impl View for AppSession {
    type V = SessionModel;

    open spec fn view(&self) -> SessionModel {
        SessionModel {
            app: self.app@,
            entered_at_ms: self.entered_at_ms,
            initial_mode: self.initial_mode,
            auto_applied_mode: self.auto_applied_mode,
            latest_observed_mode: self.latest_observed_mode,
            settled_mode: self.settled_mode,
            switch_guard_until_ms: self.switch_guard_until_ms,
        }
    }
}

impl DeepView for AppSession {
    type V = SessionModel;

    open spec fn deep_view(&self) -> SessionModel {
        self@
    }
}

/// The step that an operation waits in for the outcome of a request.
#[derive(Debug)]
pub enum Pending {
    Idle,
    /// A learning sample from the application left behind is being saved;
    /// then the newly focused application is taken up.
    LeavingSaved {
        executable: String,
        mode: LanguageMode,
        active: Option<FocusedApp>,
        current_mode: Option<LanguageMode>,
    },
    /// The input mode of the newly focused application is being read.
    FocusRead { app: FocusedApp },
    /// A switch to `target` has been requested.
    SwitchSent {
        app: FocusedApp,
        decision: DecisionSnapshot,
        initial_mode: Option<LanguageMode>,
        target: LanguageMode,
    },
    /// The input mode is being read again after the switch.
    SwitchVerified {
        app: FocusedApp,
        decision: DecisionSnapshot,
        initial_mode: Option<LanguageMode>,
        target: LanguageMode,
        switched: bool,
    },
    RuleSaved { executable: String, language: LanguageMode },
    RuleRemovalSaved { executable: String },
    SettingsSaved { auto_switch_enabled: bool, learning_enabled: bool },
    SampleSaved { executable: String, mode: LanguageMode },
}

impl View for Pending {
    type V = PendingModel;

    open spec fn view(&self) -> PendingModel {
        match self {
            Pending::Idle => PendingModel::Idle,
            Pending::LeavingSaved { executable, mode, active, current_mode } => PendingModel::LeavingSaved {
                executable: executable@,
                mode: *mode,
                active: active.deep_view(),
                current_mode: *current_mode,
            },
            Pending::FocusRead { app } => PendingModel::FocusRead { app: app@ },
            Pending::SwitchSent { app, decision, initial_mode, target } => PendingModel::SwitchSent {
                app: app@,
                decision: decision@,
                initial_mode: *initial_mode,
                target: *target,
            },
            Pending::SwitchVerified { app, decision, initial_mode, target, switched } =>
                PendingModel::SwitchVerified {
                app: app@,
                decision: decision@,
                initial_mode: *initial_mode,
                target: *target,
                switched: *switched,
            },
            Pending::RuleSaved { executable, language } => PendingModel::RuleSaved {
                executable: executable@,
                language: *language,
            },
            Pending::RuleRemovalSaved { executable } => PendingModel::RuleRemovalSaved {
                executable: executable@,
            },
            Pending::SettingsSaved { auto_switch_enabled, learning_enabled } =>
                PendingModel::SettingsSaved {
                auto_switch_enabled: *auto_switch_enabled,
                learning_enabled: *learning_enabled,
            },
            Pending::SampleSaved { executable, mode } => PendingModel::SampleSaved {
                executable: executable@,
                mode: *mode,
            },
        }
    }
}

/// The switcher: settings, rules, learned preferences, what is in focus, the
/// last decision, the activity log, and the step an operation waits in.
pub struct SmartSwitcherService {
    capabilities: PlatformCapabilities,
    settings: EngineSettings,
    manual_rules: Vec<(String, ManualRule)>,
    learned_preferences: Vec<(String, LearnedAppPreference)>,
    active_app: Option<FocusedApp>,
    current_input_mode: Option<LanguageMode>,
    last_decision: Option<DecisionSnapshot>,
    recent_events: Vec<ActivityEvent>,
    current_session: Option<AppSession>,
    pending: Pending,
}

impl View for SmartSwitcherService {
    type V = ServiceModel;

    closed spec fn view(&self) -> ServiceModel {
        ServiceModel {
            capabilities: self.capabilities@,
            settings: self.settings,
            rules: keyed_map(rule_entries(self.manual_rules@)),
            preferences: keyed_map(preference_entries(self.learned_preferences@)),
            active_app: self.active_app.deep_view(),
            current_input_mode: self.current_input_mode,
            last_decision: self.last_decision.deep_view(),
            recent_events: self.recent_events.deep_view(),
            session: self.current_session.deep_view(),
            pending: self.pending@,
        }
    }
}

impl SmartSwitcherService {
    /// The rules are held in ascending order of their keys, the preferences
    /// without repeated keys, and every entry is filed under the normalized
    /// name of its executable.
    pub closed spec fn wf(&self) -> bool {
        &&& sorted_keys(rule_entries(self.manual_rules@))
        &&& unique_keys(preference_entries(self.learned_preferences@))
        &&& rules_filed(self.manual_rules@)
        &&& preferences_filed(self.learned_preferences@)
    }
}

impl SmartSwitcherService {
    proof fn lemma_entries_views(&self)
        ensures
            rule_entries(self.manual_rules@) == entries_view(self.manual_rules@),
            preference_entries(self.learned_preferences@) == entries_view(
                self.learned_preferences@,
            ),
    {
        assert(rule_entries(self.manual_rules@) =~= entries_view(self.manual_rules@));
        assert(preference_entries(self.learned_preferences@) =~= entries_view(
            self.learned_preferences@,
        ));
    }

    /// Adds `ev` to the activity log.
    fn push_event(&mut self, ev: ActivityEvent)
        ensures
            final(self)@ == (ServiceModel { recent_events: logged(old(self)@.recent_events, ev@), ..old(self)@ }),
            final(self).wf() == old(self).wf(),
    {
        let ghost old_events = self.recent_events.deep_view();
        let ghost evm = ev@;
        let mut events: Vec<ActivityEvent> = Vec::new();
        std::mem::swap(&mut events, &mut self.recent_events);
        events.insert(0, ev);
        let ghost full = seq![evm] + old_events;
        assert(events.deep_view() =~= full);
        while events.len() > MAX_RECENT_EVENTS
            invariant
                events@.len() <= full.len(),
                full.len() > MAX_RECENT_EVENTS ==> events@.len() >= MAX_RECENT_EVENTS,
                full.len() <= MAX_RECENT_EVENTS ==> events@.len() == full.len(),
                events.deep_view() == full.subrange(0, events@.len() as int),
            decreases events@.len(),
        {
            events.pop();
            assert(events.deep_view() =~= full.subrange(0, events@.len() as int));
        }
        self.recent_events = events;
        assert(self.recent_events.deep_view() =~= logged(old_events, evm));
    }
}

/// What an operation asks of its caller next.
#[derive(Debug)]
pub enum Request {
    /// Store this state, then resume with `Reply::Saved`.
    Save(PersistedState),
    /// Read the input mode of this application, then resume with `Reply::InputMode`.
    ReadInputMode(FocusedApp),
    /// Switch this application to the mode, then resume with `Reply::Switched`.
    SetInputMode(FocusedApp, LanguageMode),
    /// The operation is over, with this outcome.
    Done(Result<(), String>),
}

/// The outcome of a request.
#[derive(Debug)]
pub enum Reply {
    Saved(Result<(), String>),
    InputMode(Result<Option<LanguageMode>, String>),
    Switched(Result<bool, String>),
}

pub open spec fn action_of(r: Request) -> Action {
    match r {
        Request::Save(_) => Action::Save,
        Request::ReadInputMode(app) => Action::ReadInputMode(app@),
        Request::SetInputMode(app, mode) => Action::SetInputMode(app@, mode),
        Request::Done(o) => Action::Done(outcome(o)),
    }
}

impl View for Reply {
    type V = ReplyModel;

    open spec fn view(&self) -> ReplyModel {
        match self {
            Reply::Saved(r) => ReplyModel::Saved(outcome(*r)),
            Reply::InputMode(r) => ReplyModel::InputMode(error_text(*r)),
            Reply::Switched(r) => ReplyModel::Switched(error_text(*r)),
        }
    }
}

/// A request to save holds the state `m`.
pub open spec fn request_fits(r: Request, m: ServiceModel) -> bool {
    match r {
        Request::Save(p) => snapshot_of(p@, m),
        _ => true,
    }
}

impl SmartSwitcherService {
    /// A switcher with default settings, no rules and nothing learned, on a
    /// platform with `capabilities`.
    pub fn new(capabilities: PlatformCapabilities) -> (service: Self)
        ensures
            service.wf(),
            service@ == (ServiceModel {
                capabilities: capabilities@,
                settings: default_settings(),
                rules: Map::empty(),
                preferences: Map::empty(),
                active_app: None,
                current_input_mode: None,
                last_decision: None,
                recent_events: Seq::empty(),
                session: None,
                pending: PendingModel::Idle,
            }),
    {
        let service = SmartSwitcherService {
            capabilities,
            settings: EngineSettings::default(),
            manual_rules: Vec::new(),
            learned_preferences: Vec::new(),
            active_app: None,
            current_input_mode: None,
            last_decision: None,
            recent_events: Vec::new(),
            current_session: None,
            pending: Pending::Idle,
        };
        assert(rule_entries(service.manual_rules@) =~= Seq::empty());
        assert(preference_entries(service.learned_preferences@) =~= Seq::empty());
        assert(service.recent_events.deep_view() =~= Seq::empty());
        service
    }

    /// The decision for `app`: its manual rule, else a learned preference that
    /// decides, else the guess from the kind of application.
    pub fn resolve_target_language(&self, app: &FocusedApp) -> (d: DecisionSnapshot)
        ensures
            d@ == decide(self@, app@),
    {
        let key = app.app_key();
        proof {
            self.lemma_entries_views();
            lemma_key_index(rule_entries(self.manual_rules@), key@);
            lemma_key_index(preference_entries(self.learned_preferences@), key@);
        }
        if let Some(i) = find_entry(&self.manual_rules, &key) {
            let rule = &self.manual_rules[i].1;
            return DecisionSnapshot {
                target_language: Some(rule.preferred_language),
                source: ResolutionSource::ManualRule,
                reason: rule_reason_text(rule),
            };
        }
        if let Some(i) = find_entry(&self.learned_preferences, &key) {
            let preference = &self.learned_preferences[i].1;
            if preference.total() >= self.settings.min_learning_samples
                && preference.confidence_reaches(self.settings.learning_confidence_threshold_ppm) {
                if let Some(language) = preference.preferred_language() {
                    return DecisionSnapshot {
                        target_language: Some(language),
                        source: ResolutionSource::LearnedPreference,
                        reason: learned_reason_text(preference),
                    };
                }
            }
        }
        if let Some(language) = heuristic_language_for_app(app) {
            return DecisionSnapshot {
                target_language: Some(language),
                source: ResolutionSource::Heuristic,
                reason: heuristic_reason_text(app.executable.as_str(), language),
            };
        }
        DecisionSnapshot {
            target_language: None,
            source: ResolutionSource::Unresolved,
            reason: String::from_str("当前没有命中规则，也还没有足够的学习样本。"),
        }
    }

    /// The state to be kept between runs: the settings, the rules in order of
    /// their keys, and the learned preferences.
    pub fn persisted_state(&self) -> (p: PersistedState)
        requires
            self.wf(),
        ensures
            snapshot_of(p@, self@),
    {
        let ghost rs = rule_entries(self.manual_rules@);
        let ghost ps = preference_entries(self.learned_preferences@);
        proof {
            lemma_sorted_unique(rs);
        }
        let mut rules: Vec<ManualRule> = Vec::new();
        let n = self.manual_rules.len();
        let mut i: usize = 0;
        while i < n
            invariant
                n == self.manual_rules@.len(),
                rs == rule_entries(self.manual_rules@),
                i <= n,
                rules@.len() == i,
                forall|j: int| 0 <= j < i ==> (#[trigger] rules@[j])@ == rs[j].1,
            decreases n - i,
        {
            rules.push(self.manual_rules[i].1.clone());
            i = i + 1;
        }
        let mut prefs: Vec<LearnedAppPreference> = Vec::new();
        let n = self.learned_preferences.len();
        let mut i: usize = 0;
        while i < n
            invariant
                n == self.learned_preferences@.len(),
                ps == preference_entries(self.learned_preferences@),
                i <= n,
                prefs@.len() == i,
                forall|j: int| 0 <= j < i ==> (#[trigger] prefs@[j])@ == ps[j].1,
            decreases n - i,
        {
            prefs.push(self.learned_preferences[i].1.clone());
            i = i + 1;
        }
        let p = PersistedState { settings: self.settings, manual_rules: rules, learned_preferences: prefs };
        proof {
            let lr = p@.manual_rules;
            let lp = p@.learned_preferences;
            assert forall|j: int| 0 <= j < lr.len() implies self@.rules.contains_key(
                normalized(#[trigger] lr[j].executable),
            ) && self@.rules[normalized(lr[j].executable)] == lr[j] by {
                assert(lr[j] == rules@[j]@);
                assert(rs[j].0 == self.manual_rules@[j].0@);
                lemma_unique_key_index(rs, j);
            }
            assert forall|k: Seq<char>| self@.rules.contains_key(k) implies exists|j: int|
                0 <= j < lr.len() && normalized(#[trigger] lr[j].executable) == k by {
                lemma_keyed_map_domain(rs, k);
                let j = choose|j: int| 0 <= j < rs.len() && #[trigger] rs[j].0 == k;
                assert(lr[j] == rules@[j]@);
                assert(rs[j].0 == self.manual_rules@[j].0@);
                assert(normalized(lr[j].executable) == k);
            }
            assert forall|a: int, b: int| 0 <= a < b < lr.len() implies text_less(
                normalized(#[trigger] lr[a].executable),
                normalized(#[trigger] lr[b].executable),
            ) by {
                assert(lr[a] == rules@[a]@ && lr[b] == rules@[b]@);
                assert(rs[a].0 == self.manual_rules@[a].0@ && rs[b].0 == self.manual_rules@[b].0@);
            }
            assert forall|j: int| 0 <= j < lp.len() implies self@.preferences.contains_key(
                normalized(#[trigger] lp[j].executable),
            ) && self@.preferences[normalized(lp[j].executable)] == lp[j] by {
                assert(lp[j] == prefs@[j]@);
                assert(ps[j].0 == self.learned_preferences@[j].0@);
                lemma_unique_key_index(ps, j);
            }
            assert forall|k: Seq<char>| self@.preferences.contains_key(k) implies exists|j: int|
                0 <= j < lp.len() && normalized(#[trigger] lp[j].executable) == k by {
                lemma_keyed_map_domain(ps, k);
                let j = choose|j: int| 0 <= j < ps.len() && #[trigger] ps[j].0 == k;
                assert(lp[j] == prefs@[j]@);
                assert(ps[j].0 == self.learned_preferences@[j].0@);
                assert(normalized(lp[j].executable) == k);
            }
            assert forall|a: int, b: int| 0 <= a < b < lp.len() implies normalized(
                #[trigger] lp[a].executable,
            ) != normalized(#[trigger] lp[b].executable) by {
                assert(lp[a] == prefs@[a]@ && lp[b] == prefs@[b]@);
                assert(ps[a].0 == self.learned_preferences@[a].0@ && ps[b].0
                    == self.learned_preferences@[b].0@);
            }
        }
        p
    }
}

fn clone_app_opt(o: &Option<FocusedApp>) -> (r: Option<FocusedApp>)
    ensures
        r.deep_view() == o.deep_view(),
{
    match o {
        Some(app) => Some(app.clone()),
        None => None,
    }
}

fn make_event(epoch: u64, app: String, summary: &str, detail: String) -> (ev: ActivityEvent)
    ensures
        ev@ == event(epoch, app@, summary@, detail@),
{
    ActivityEvent { timestamp_epoch: epoch, app, summary: String::from_str(summary), detail }
}

fn mode_label(mode: Option<LanguageMode>) -> (text: &'static str)
    ensures
        text@ == mode_text(mode),
{
    match mode {
        Some(l) => l.label(),
        None => "未知",
    }
}

fn session_update(
    session: &mut Option<AppSession>,
    active: &Option<FocusedApp>,
    mode: Option<LanguageMode>,
    now_ms: u64,
)
    ensures
        final(session).deep_view() == observed(old(session).deep_view(), active.deep_view(), mode, now_ms),
{
    let mut taken: Option<AppSession> = None;
    std::mem::swap(&mut taken, session);
    match taken {
        Some(mut s) => {
            match active {
                Some(app) => {
                    if s.app.app_key() == app.app_key() {
                        match s.switch_guard_until_ms {
                            Some(until) => {
                                if now_ms >= until {
                                    s.switch_guard_until_ms = None;
                                }
                            },
                            None => {},
                        }
                        if mode.is_some() {
                            s.latest_observed_mode = mode;
                            if s.switch_guard_until_ms.is_none() {
                                s.settled_mode = mode;
                            }
                        }
                    }
                },
                None => {},
            }
            *session = Some(s);
        },
        None => {},
    }
}

fn focus_moved(prev: &Option<FocusedApp>, next: &Option<FocusedApp>) -> (b: bool)
    ensures
        b == focus_changed(prev.deep_view(), next.deep_view()),
{
    match (prev, next) {
        (Some(p), Some(n)) => !(p.app_key() == n.app_key()),
        (None, None) => false,
        _ => true,
    }
}

impl SmartSwitcherService {
    /// Whether a rule is filed under `key`.
    fn has_rule(&self, key: &String) -> (b: bool)
        ensures
            b == self@.rules.contains_key(key@),
    {
        proof {
            self.lemma_entries_views();
            lemma_key_index(rule_entries(self.manual_rules@), key@);
        }
        find_entry(&self.manual_rules, key).is_some()
    }

    /// The mode and weight of the sample that leaving the session teaches.
    fn leaving_sample(&self, now_ms: u64) -> (r: Option<(LanguageMode, u32)>)
        ensures
            match r {
                Some((mode, weight)) => leaving_sample(self@, now_ms) == Some(mode) && weight
                    == sample_weight(self@.session->0.auto_applied_mode, mode),
                None => leaving_sample(self@, now_ms) is None,
            },
    {
        match &self.current_session {
            None => None,
            Some(s) => {
                if !self.settings.learning_enabled {
                    return None;
                }
                let key = s.app.app_key();
                if self.has_rule(&key) {
                    return None;
                }
                if now_ms.saturating_sub(s.entered_at_ms) < MIN_LEARNING_SESSION_MS {
                    return None;
                }
                let final_mode = if s.latest_observed_mode.is_some() {
                    s.latest_observed_mode
                } else if s.settled_mode.is_some() {
                    s.settled_mode
                } else {
                    s.initial_mode
                };
                match final_mode {
                    None => None,
                    Some(mode) => {
                        let weight: u32 = match s.auto_applied_mode {
                            Some(auto_mode) => if auto_mode != mode {
                                3
                            } else {
                                1
                            },
                            None => 2,
                        };
                        Some((mode, weight))
                    },
                }
            },
        }
    }

    /// The focus has moved to `active`.
    fn take_up(&mut self, active: Option<FocusedApp>, mode: Option<LanguageMode>) -> (r: Request)
        requires
            old(self).wf(),
        ensures
            final(self).wf(),
            (final(self)@, action_of(r)) == take_up(old(self)@, active.deep_view(), mode),
    {
        self.current_input_mode = mode;
        match active {
            Some(app) => {
                let read = app.clone();
                self.pending = Pending::FocusRead { app: app.clone() };
                self.active_app = Some(app);
                Request::ReadInputMode(read)
            },
            None => {
                self.active_app = None;
                self.last_decision = Some(
                    DecisionSnapshot {
                        target_language: None,
                        source: ResolutionSource::Unresolved,
                        reason: String::from_str("当前没有可识别的前台应用。"),
                    },
                );
                self.pending = Pending::Idle;
                Request::Done(Ok(()))
            },
        }
    }

    /// One poll of the platform: `active` is the application in the foreground
    /// and `current_mode` its input mode. Where the focus moved, the session of
    /// the application left behind may yield a learning sample, and the newly
    /// focused application is taken up.
    pub fn poll_once(
        &mut self,
        active: Option<FocusedApp>,
        current_mode: Option<LanguageMode>,
        clock: Clock,
    ) -> (r: Request)
        requires
            old(self).wf(),
            old(self)@.pending is Idle,
        ensures
            final(self).wf(),
            (final(self)@, action_of(r)) == polled(old(self)@, active.deep_view(), current_mode, clock),
            request_fits(r, final(self)@),
    {
        session_update(&mut self.current_session, &active, current_mode, clock.monotonic_ms);
        if !focus_moved(&self.active_app, &active) {
            self.active_app = active;
            self.current_input_mode = current_mode;
            return Request::Done(Ok(()));
        }
        let sample = self.leaving_sample(clock.monotonic_ms);
        let mut left: Option<AppSession> = None;
        std::mem::swap(&mut left, &mut self.current_session);
        match sample {
            Some((final_mode, weight)) => {
                let session = left.unwrap();
                let key = session.app.app_key();
                proof {
                    self.lemma_entries_views();
                }
                record_sample(
                    &mut self.learned_preferences,
                    key,
                    &session.app.executable,
                    final_mode,
                    weight,
                    clock.epoch_secs,
                );
                self.pending = Pending::LeavingSaved {
                    executable: session.app.executable,
                    mode: final_mode,
                    active,
                    current_mode,
                };
                Request::Save(self.persisted_state())
            },
            None => self.take_up(active, current_mode),
        }
    }
}

impl SmartSwitcherService {
    fn log(&mut self, ev: ActivityEvent)
        ensures
            final(self)@ == with_event(old(self)@, ev@),
            final(self).wf() == old(self).wf(),
    {
        self.push_event(ev);
    }

    fn finish_save(&mut self, reply: Result<(), String>, ev: ActivityEvent) -> (r: Request)
        requires
            old(self).wf(),
            old(self)@.pending is Idle,
        ensures
            final(self).wf(),
            (final(self)@, action_of(r)) == saved_then(old(self)@, outcome(reply), ev@),
    {
        match reply {
            Err(e) => Request::Done(Err(e)),
            Ok(()) => {
                self.log(ev);
                Request::Done(Ok(()))
            },
        }
    }

    fn focus_read(
        &mut self,
        app: FocusedApp,
        reply: Result<Option<LanguageMode>, String>,
        clock: Clock,
    ) -> (r: Request)
        requires
            old(self).wf(),
            old(self)@.pending is Idle,
        ensures
            final(self).wf(),
            (final(self)@, action_of(r)) == focus_read(old(self)@, app@, error_text(reply), clock),
    {
        match reply {
            Err(e) => Request::Done(Err(e)),
            Ok(current) => {
                self.current_input_mode = current;
                let decision = self.resolve_target_language(&app);
                if self.settings.auto_switch_enabled && self.capabilities.supports_input_control
                    && decision.target_language.is_some() && !same_mode(
                    current,
                    decision.target_language,
                ) {
                    let target = decision.target_language.unwrap();
                    let request_app = app.clone();
                    self.pending = Pending::SwitchSent { app, decision, initial_mode: current, target };
                    Request::SetInputMode(request_app, target)
                } else {
                    let ev = make_event(
                        clock.epoch_secs,
                        app.executable.clone(),
                        "检测到应用切换",
                        decision.reason.clone(),
                    );
                    self.log(ev);
                    self.last_decision = Some(decision);
                    self.current_session = Some(
                        AppSession {
                            app,
                            entered_at_ms: clock.monotonic_ms,
                            initial_mode: current,
                            auto_applied_mode: None,
                            latest_observed_mode: current,
                            settled_mode: current,
                            switch_guard_until_ms: None,
                        },
                    );
                    Request::Done(Ok(()))
                }
            },
        }
    }

    fn switch_verified(
        &mut self,
        app: FocusedApp,
        decision: DecisionSnapshot,
        initial_mode: Option<LanguageMode>,
        target: LanguageMode,
        switched: bool,
        reply: Result<Option<LanguageMode>, String>,
        clock: Clock,
    ) -> (r: Request)
        requires
            old(self).wf(),
            old(self)@.pending is Idle,
            clock.monotonic_ms + SESSION_GUARD_MS <= u64::MAX,
        ensures
            final(self).wf(),
            (final(self)@, action_of(r)) == switch_verified(
                old(self)@,
                app@,
                decision@,
                initial_mode,
                target,
                switched,
                error_text(reply),
                clock,
            ),
    {
        match reply {
            Err(e) => Request::Done(Err(e)),
            Ok(refreshed) => {
                self.current_input_mode = refreshed;
                let confirmed = switched && same_mode(refreshed, Some(target));
                let auto_applied_mode = if confirmed {
                    Some(target)
                } else {
                    None
                };
                let guard = if confirmed {
                    Some(clock.monotonic_ms + SESSION_GUARD_MS)
                } else {
                    None
                };
                let ev = if confirmed {
                    make_event(
                        clock.epoch_secs,
                        app.executable.clone(),
                        "切换焦点时自动调整输入法",
                        join_texts(&[source_label(decision.source), " -> ", target.label()]),
                    )
                } else {
                    make_event(
                        clock.epoch_secs,
                        app.executable.clone(),
                        "尝试自动调整输入法但未确认成功",
                        join_texts(
                            &["目标为 ", target.label(), "，当前检测结果为 ", mode_label(refreshed), "。"],
                        ),
                    )
                };
                proof {
                    reveal_with_fuel(joined, 6);
                }
                self.log(ev);
                let latest = if refreshed.is_some() {
                    refreshed
                } else {
                    initial_mode
                };
                let settled = if auto_applied_mode.is_some() {
                    auto_applied_mode
                } else {
                    latest
                };
                self.last_decision = Some(decision);
                self.current_session = Some(
                    AppSession {
                        app,
                        entered_at_ms: clock.monotonic_ms,
                        initial_mode,
                        auto_applied_mode,
                        latest_observed_mode: latest,
                        settled_mode: settled,
                        switch_guard_until_ms: guard,
                    },
                );
                Request::Done(Ok(()))
            },
        }
    }

    fn leaving_saved(
        &mut self,
        executable: String,
        mode: LanguageMode,
        active: Option<FocusedApp>,
        current_mode: Option<LanguageMode>,
        res: Result<(), String>,
        clock: Clock,
    ) -> (r: Request)
        requires
            old(self).wf(),
        ensures
            final(self).wf(),
            (final(self)@, action_of(r)) == leaving_saved(
                old(self)@,
                executable@,
                mode,
                active.deep_view(),
                current_mode,
                outcome(res),
                clock,
            ),
    {
        if res.is_ok() {
            let detail = join_texts(&["本次会话最终稳定在 ", mode.label(), "，已写入学习模型。"]);
            proof {
                reveal_with_fuel(joined, 4);
            }
            self.log(make_event(clock.epoch_secs, executable, "已更新学习偏好", detail));
        }
        self.take_up(active, current_mode)
    }

    fn switch_sent(
        &mut self,
        app: FocusedApp,
        decision: DecisionSnapshot,
        initial_mode: Option<LanguageMode>,
        target: LanguageMode,
        res: Result<bool, String>,
    ) -> (r: Request)
        requires
            old(self).wf(),
            old(self)@.pending is Idle,
        ensures
            final(self).wf(),
            (final(self)@, action_of(r)) == switch_sent(
                old(self)@,
                app@,
                decision@,
                initial_mode,
                target,
                error_text(res),
            ),
    {
        match res {
            Err(e) => Request::Done(Err(e)),
            Ok(switched) => {
                let read = app.clone();
                self.pending = Pending::SwitchVerified { app, decision, initial_mode, target, switched };
                Request::ReadInputMode(read)
            },
        }
    }

    fn rule_saved(&mut self, executable: String, language: LanguageMode, res: Result<(), String>, clock: Clock) -> (r: Request)
        requires
            old(self).wf(),
            old(self)@.pending is Idle,
        ensures
            final(self).wf(),
            (final(self)@, action_of(r)) == saved_then(
                old(self)@,
                outcome(res),
                rule_saved_event(clock.epoch_secs, executable@, language),
            ),
    {
        let detail = join_texts(&["切换到该应用时优先使用 ", language.label(), "。"]);
        proof {
            reveal_with_fuel(joined, 4);
        }
        self.finish_save(res, make_event(clock.epoch_secs, executable, "已保存手动规则", detail))
    }

    fn rule_removal_saved(&mut self, executable: String, res: Result<(), String>, clock: Clock) -> (r: Request)
        requires
            old(self).wf(),
            old(self)@.pending is Idle,
        ensures
            final(self).wf(),
            (final(self)@, action_of(r)) == saved_then(
                old(self)@,
                outcome(res),
                rule_removed_event(clock.epoch_secs, executable@),
            ),
    {
        let detail = String::from_str("之后将回退到学习偏好或启发式判断。");
        self.finish_save(res, make_event(clock.epoch_secs, executable, "已删除手动规则", detail))
    }

    fn settings_saved(
        &mut self,
        auto_switch_enabled: bool,
        learning_enabled: bool,
        res: Result<(), String>,
        clock: Clock,
    ) -> (r: Request)
        requires
            old(self).wf(),
            old(self)@.pending is Idle,
        ensures
            final(self).wf(),
            (final(self)@, action_of(r)) == saved_then(
                old(self)@,
                outcome(res),
                settings_event(clock.epoch_secs, auto_switch_enabled, learning_enabled),
            ),
    {
        let detail = join_texts(
            &["自动切换：", yes_no(auto_switch_enabled), "，自学习：", yes_no(learning_enabled), "。"],
        );
        proof {
            reveal_with_fuel(joined, 6);
        }
        self.finish_save(
            res,
            make_event(clock.epoch_secs, String::from_str("settings"), "设置已更新", detail),
        )
    }

    fn sample_saved(&mut self, executable: String, mode: LanguageMode, res: Result<(), String>, clock: Clock) -> (r: Request)
        requires
            old(self).wf(),
            old(self)@.pending is Idle,
        ensures
            final(self).wf(),
            (final(self)@, action_of(r)) == sample_saved(old(self)@, executable@, mode, outcome(res), clock),
    {
        match res {
            Err(e) => Request::Done(Err(e)),
            Ok(()) => {
                self.last_decision = Some(
                    DecisionSnapshot {
                        target_language: Some(mode),
                        source: ResolutionSource::ManualObservation,
                        reason: String::from_str("已根据你当前在该应用中的输入法状态补充一条学习样本。"),
                    },
                );
                let detail = join_texts(&["记录为 ", mode.label(), " 偏好。"]);
                proof {
                    reveal_with_fuel(joined, 4);
                }
                self.log(make_event(clock.epoch_secs, executable, "已手动强化学习样本", detail));
                Request::Done(Ok(()))
            },
        }
    }

    /// Moves the pending operation on by the outcome `reply` of its request,
    /// read at `clock`.
    pub fn resume(&mut self, reply: Reply, clock: Clock) -> (r: Request)
        requires
            old(self).wf(),
            accepts(old(self)@.pending, reply@),
            old(self)@.pending is SwitchVerified ==> clock.monotonic_ms + SESSION_GUARD_MS
                <= u64::MAX,
        ensures
            final(self).wf(),
            (final(self)@, action_of(r)) == resumed(old(self)@, reply@, clock),
            request_fits(r, final(self)@),
    {
        let ghost m = self@;
        let mut pending = Pending::Idle;
        std::mem::swap(&mut pending, &mut self.pending);
        assert(self@ == idle(m));
        match (pending, reply) {
            (Pending::LeavingSaved { executable, mode, active, current_mode }, Reply::Saved(res)) =>
                self.leaving_saved(executable, mode, active, current_mode, res, clock),
            (Pending::FocusRead { app }, Reply::InputMode(res)) => self.focus_read(app, res, clock),
            (Pending::SwitchSent { app, decision, initial_mode, target }, Reply::Switched(res)) =>
                self.switch_sent(app, decision, initial_mode, target, res),
            (
                Pending::SwitchVerified { app, decision, initial_mode, target, switched },
                Reply::InputMode(res),
            ) => self.switch_verified(app, decision, initial_mode, target, switched, res, clock),
            (Pending::RuleSaved { executable, language }, Reply::Saved(res)) => self.rule_saved(
                executable,
                language,
                res,
                clock,
            ),
            (Pending::RuleRemovalSaved { executable }, Reply::Saved(res)) => self.rule_removal_saved(
                executable,
                res,
                clock,
            ),
            (Pending::SettingsSaved { auto_switch_enabled, learning_enabled }, Reply::Saved(res)) =>
                self.settings_saved(auto_switch_enabled, learning_enabled, res, clock),
            (Pending::SampleSaved { executable, mode }, Reply::Saved(res)) => self.sample_saved(
                executable,
                mode,
                res,
                clock,
            ),
            _ => Request::Done(Ok(())),
        }
    }
}

impl SmartSwitcherService {
    /// Loads the state kept between runs and logs that the service started.
    pub fn initialize(&mut self, persisted: PersistedState, clock: Clock)
        requires
            old(self).wf(),
        ensures
            final(self).wf(),
            final(self)@ == initialized(old(self)@, persisted@, clock),
    {
        let ghost lr = persisted@.manual_rules;
        let ghost lp = persisted@.learned_preferences;
        let mut rules: Vec<(String, ManualRule)> = Vec::new();
        let n = persisted.manual_rules.len();
        let mut i: usize = 0;
        assert(rule_entries(rules@) =~= Seq::empty());
        assert(lr.subrange(0, 0) =~= Seq::<ManualRuleModel>::empty());
        while i < n
            invariant
                n == persisted.manual_rules@.len(),
                lr == persisted@.manual_rules,
                i <= n,
                sorted_keys(rule_entries(rules@)),
                rules_filed(rules@),
                keyed_map(rule_entries(rules@)) == rules_from(lr.subrange(0, i as int)),
            decreases n - i,
        {
            let rule = persisted.manual_rules[i].clone();
            let key = normalize_key(rule.executable.as_str());
            upsert_rule_entry(&mut rules, key, rule);
            assert(lr.subrange(0, i + 1).drop_last() =~= lr.subrange(0, i as int));
            i = i + 1;
        }
        assert(lr.subrange(0, n as int) =~= lr);
        let mut prefs: Vec<(String, LearnedAppPreference)> = Vec::new();
        let n = persisted.learned_preferences.len();
        let mut i: usize = 0;
        assert(preference_entries(prefs@) =~= Seq::empty());
        assert(lp.subrange(0, 0) =~= Seq::<PreferenceModel>::empty());
        while i < n
            invariant
                n == persisted.learned_preferences@.len(),
                lp == persisted@.learned_preferences,
                i <= n,
                unique_keys(preference_entries(prefs@)),
                preferences_filed(prefs@),
                keyed_map(preference_entries(prefs@)) == preferences_from(lp.subrange(0, i as int)),
            decreases n - i,
        {
            let pref = persisted.learned_preferences[i].clone();
            let key = normalize_key(pref.executable.as_str());
            upsert_preference_entry(&mut prefs, key, pref);
            assert(lp.subrange(0, i + 1).drop_last() =~= lp.subrange(0, i as int));
            i = i + 1;
        }
        assert(lp.subrange(0, n as int) =~= lp);
        self.settings = persisted.settings;
        self.manual_rules = rules;
        self.learned_preferences = prefs;
        let notes = String::from_str(self.capabilities.notes);
        self.log(make_event(clock.epoch_secs, String::from_str("system"), "后台服务已启动", notes));
    }

    /// Saves a manual rule that sets `preferred_language` for `executable`.
    pub fn upsert_manual_rule(
        &mut self,
        executable: String,
        preferred_language: LanguageMode,
        note: Option<String>,
        clock: Clock,
    ) -> (r: Request)
        requires
            old(self).wf(),
            old(self)@.pending is Idle,
        ensures
            final(self).wf(),
            (final(self)@, action_of(r)) == rule_upserted(
                old(self)@,
                executable@,
                preferred_language,
                opt_text(note),
                clock,
            ),
            request_fits(r, final(self)@),
    {
        let name = String::from_str(trim(executable.as_str()));
        if name.unicode_len() == 0 {
            return Request::Done(Err(String::from_str("应用名不能为空。")));
        }
        let key = normalize_key(name.as_str());
        let rule = ManualRule {
            executable: name.clone(),
            preferred_language,
            note,
            updated_at_epoch: clock.epoch_secs,
        };
        proof {
            self.lemma_entries_views();
        }
        upsert_rule_entry(&mut self.manual_rules, key, rule);
        self.pending = Pending::RuleSaved { executable: name, language: preferred_language };
        Request::Save(self.persisted_state())
    }

    /// Deletes the manual rule of `executable`, where there is one.
    pub fn delete_manual_rule(&mut self, executable: &str) -> (r: Request)
        requires
            old(self).wf(),
            old(self)@.pending is Idle,
        ensures
            final(self).wf(),
            (final(self)@, action_of(r)) == rule_deleted(old(self)@, executable@),
            request_fits(r, final(self)@),
    {
        let key = normalize_key(executable);
        remove_rule_entry(&mut self.manual_rules, &key);
        self.pending = Pending::RuleRemovalSaved { executable: String::from_str(executable) };
        Request::Save(self.persisted_state())
    }

    /// Turns automatic switching and learning on or off.
    pub fn update_settings(&mut self, auto_switch_enabled: bool, learning_enabled: bool) -> (r: Request)
        requires
            old(self).wf(),
            old(self)@.pending is Idle,
        ensures
            final(self).wf(),
            (final(self)@, action_of(r)) == settings_updated(
                old(self)@,
                auto_switch_enabled,
                learning_enabled,
            ),
            request_fits(r, final(self)@),
    {
        self.settings.auto_switch_enabled = auto_switch_enabled;
        self.settings.learning_enabled = learning_enabled;
        self.pending = Pending::SettingsSaved { auto_switch_enabled, learning_enabled };
        Request::Save(self.persisted_state())
    }

    /// Takes the mode the user is in now, in the application in focus, as a
    /// learning sample of weight three.
    pub fn learn_current_preference(&mut self, clock: Clock) -> (r: Request)
        requires
            old(self).wf(),
            old(self)@.pending is Idle,
        ensures
            final(self).wf(),
            (final(self)@, action_of(r)) == observation_learned(old(self)@, clock),
            request_fits(r, final(self)@),
    {
        let app = match &self.active_app {
            Some(app) => app.clone(),
            None => {
                return Request::Done(Err(String::from_str("当前没有前台应用，无法学习。")));
            },
        };
        let mode = match self.current_input_mode {
            Some(mode) => mode,
            None => {
                return Request::Done(Err(String::from_str("当前无法读取输入法状态，无法学习。")));
            },
        };
        let key = app.app_key();
        proof {
            self.lemma_entries_views();
        }
        record_sample(&mut self.learned_preferences, key, &app.executable, mode, 3, clock.epoch_secs);
        self.pending = Pending::SampleSaved { executable: app.executable, mode };
        Request::Save(self.persisted_state())
    }
}

/// `o` shows the state `m`.
pub open spec fn overview_of(o: AppOverview, m: ServiceModel) -> bool {
    &&& o.platform.name@ == m.capabilities.name
    &&& o.platform.supports_focus_tracking == m.capabilities.supports_focus_tracking
    &&& o.platform.supports_input_control == m.capabilities.supports_input_control
    &&& o.platform.notes@ == m.capabilities.notes
    &&& o.settings == m.settings
    &&& o.active_app.deep_view() == m.active_app
    &&& o.current_input_mode == m.current_input_mode
    &&& lists_rules(o.manual_rules.deep_view(), m.rules)
    &&& lists_ranked(o.learned_preferences.deep_view(), m.preferences)
    &&& o.last_decision.deep_view() == m.last_decision
    &&& o.recent_events.deep_view() == m.recent_events
}

fn clone_decision_opt(o: &Option<DecisionSnapshot>) -> (r: Option<DecisionSnapshot>)
    ensures
        r.deep_view() == o.deep_view(),
{
    match o {
        Some(d) => Some(d.clone()),
        None => None,
    }
}

fn clone_events(v: &Vec<ActivityEvent>) -> (r: Vec<ActivityEvent>)
    ensures
        r.deep_view() == v.deep_view(),
{
    let mut r: Vec<ActivityEvent> = Vec::new();
    let mut i: usize = 0;
    while i < v.len()
        invariant
            i <= v@.len(),
            r.deep_view() == v.deep_view().subrange(0, i as int),
        decreases v@.len() - i,
    {
        let e = v[i].clone();
        assert(e@ == v@[i as int]@);
        let ghost before = r.deep_view();
        r.push(e);
        assert(r.deep_view() =~= before.push(v@[i as int]@));
        assert(v.deep_view()[i as int] == v@[i as int]@);
        assert(r.deep_view() =~= v.deep_view().subrange(0, i + 1));
        i = i + 1;
    }
    assert(v.deep_view().subrange(0, v@.len() as int) =~= v.deep_view());
    r
}

spec fn covers(origin: Seq<int>, j: int) -> bool {
    exists|x: int| 0 <= x < origin.len() && #[trigger] origin[x] == j
}

impl SmartSwitcherService {
    /// The learned preferences as the overview shows them: most confident
    /// first, and among equally confident ones the most recently observed first.
    fn ranked_preferences(&self) -> (l: Vec<LearnedPreferenceView>)
        requires
            self.wf(),
        ensures
            lists_ranked(l.deep_view(), self@.preferences),
    {
        let ghost ps = preference_entries(self.learned_preferences@);
        let n = self.learned_preferences.len();
        let mut ranked: Vec<LearnedPreferenceView> = Vec::new();
        let ghost mut origin: Seq<int> = Seq::empty();
        let mut i: usize = 0;
        while i < n
            invariant
                n == self.learned_preferences@.len(),
                ps == preference_entries(self.learned_preferences@),
                unique_keys(ps),
                preferences_filed(self.learned_preferences@),
                i <= n,
                origin.len() == ranked@.len(),
                forall|x: int| 0 <= x < origin.len() ==> 0 <= #[trigger] origin[x] < i,
                forall|x: int|
                    0 <= x < origin.len() ==> #[trigger] ranked.deep_view()[x] == preference_view_of(
                        ps[origin[x]].1,
                    ),
                forall|x: int, y: int|
                    0 <= x < y < origin.len() ==> #[trigger] origin[x] != #[trigger] origin[y],
                forall|j: int| 0 <= j < i ==> #[trigger] covers(origin, j),
                forall|x: int, y: int|
                    0 <= x < y < ranked@.len() ==> ranks_before(
                        #[trigger] ranked.deep_view()[x],
                        #[trigger] ranked.deep_view()[y],
                    ),
            decreases n - i,
        {
            let view = LearnedPreferenceView::from_preference(&self.learned_preferences[i].1);
            let len = ranked.len();
            let mut p: usize = 0;
            while p < len && ranked[p].ranks_before(&view)
                invariant
                    len == ranked@.len(),
                    p <= len,
                    forall|x: int| 0 <= x < p ==> ranks_before(#[trigger] ranked.deep_view()[x], view@),
                decreases len - p,
            {
                assert(ranked.deep_view()[p as int] == ranked@[p as int]@);
                p = p + 1;
            }
            let ghost old_ranked = ranked.deep_view();
            let ghost old_origin = origin;
            let ghost vm = view@;
            proof {
                if p < len {
                    assert(ranked.deep_view()[p as int] == ranked@[p as int]@);
                    lemma_ranks_total(old_ranked[p as int], vm);
                }
                assert forall|y: int| p <= y < old_ranked.len() implies ranks_before(
                    vm,
                    #[trigger] old_ranked[y],
                ) by {
                    if y > p {
                        lemma_ranks_transitive(vm, old_ranked[p as int], old_ranked[y]);
                    }
                }
            }
            ranked.insert(p, view);
            proof {
                origin = old_origin.insert(p as int, i as int);
                let nr = ranked.deep_view();
                assert(nr =~= old_ranked.insert(p as int, vm));
                assert forall|x: int, y: int| 0 <= x < y < nr.len() implies ranks_before(
                    #[trigger] nr[x],
                    #[trigger] nr[y],
                ) by {
                    if y < p {
                    } else if y == p {
                    } else if x < p {
                        assert(nr[y] == old_ranked[y - 1]);
                        lemma_ranks_transitive(nr[x], vm, old_ranked[y - 1]);
                    } else if x == p {
                        assert(nr[y] == old_ranked[y - 1]);
                    } else {
                        assert(nr[x] == old_ranked[x - 1] && nr[y] == old_ranked[y - 1]);
                    }
                }
                assert forall|x: int| 0 <= x < origin.len() implies #[trigger] nr[x]
                    == preference_view_of(ps[origin[x]].1) by {
                    if x < p {
                        assert(nr[x] == old_ranked[x] && origin[x] == old_origin[x]);
                    } else if x > p {
                        assert(nr[x] == old_ranked[x - 1] && origin[x] == old_origin[x - 1]);
                    } else {
                        assert(ps[i as int].1 == self.learned_preferences@[i as int].1@);
                    }
                }
                assert forall|x: int, y: int| 0 <= x < y < origin.len() implies #[trigger] origin[x]
                    != #[trigger] origin[y] by {
                    let x0 = if x < p { x } else { x - 1 };
                    let y0 = if y < p { y } else { y - 1 };
                    if x != p && y != p {
                        assert(origin[x] == old_origin[x0] && origin[y] == old_origin[y0]);
                    } else if x == p {
                        assert(origin[y] == old_origin[y0]);
                    } else {
                        assert(origin[x] == old_origin[x0]);
                    }
                }
                assert forall|j: int| 0 <= j < i + 1 implies #[trigger] covers(origin, j) by {
                    if j == i {
                        assert(origin[p as int] == j);
                    } else {
                        assert(covers(old_origin, j));
                        let x0 = choose|x: int| 0 <= x < old_origin.len() && #[trigger] old_origin[x] == j;
                        if x0 < p {
                            assert(origin[x0] == j);
                        } else {
                            assert(origin[x0 + 1] == j);
                        }
                    }
                }
            }
            i = i + 1;
        }
        proof {
            let l = ranked.deep_view();
            assert forall|x: int| 0 <= x < l.len() implies self@.preferences.contains_key(
                normalized(#[trigger] l[x].executable),
            ) && preference_view_of(self@.preferences[normalized(l[x].executable)]) == l[x] by {
                let j = origin[x];
                assert(ps[j].0 == self.learned_preferences@[j].0@);
                lemma_unique_key_index(ps, j);
            }
            assert forall|k: Seq<char>| self@.preferences.contains_key(k) implies exists|x: int|
                0 <= x < l.len() && normalized(#[trigger] l[x].executable) == k by {
                lemma_keyed_map_domain(ps, k);
                let j = choose|j: int| 0 <= j < ps.len() && #[trigger] ps[j].0 == k;
                assert(covers(origin, j));
                let x = choose|x: int| 0 <= x < origin.len() && #[trigger] origin[x] == j;
                assert(ps[j].0 == self.learned_preferences@[j].0@);
                assert(normalized(l[x].executable) == k);
            }
            assert forall|x: int, y: int| 0 <= x < y < l.len() implies normalized(
                #[trigger] l[x].executable,
            ) != normalized(#[trigger] l[y].executable) by {
                let jx = origin[x];
                let jy = origin[y];
                assert(ps[jx].0 == self.learned_preferences@[jx].0@);
                assert(ps[jy].0 == self.learned_preferences@[jy].0@);
                if jx < jy {
                    assert(ps[jx].0 != ps[jy].0);
                } else {
                    assert(ps[jy].0 != ps[jx].0);
                }
            }
        }
        ranked
    }

    /// Everything the user interface shows.
    pub fn overview(&self) -> (o: AppOverview)
        requires
            self.wf(),
        ensures
            overview_of(o, self@),
    {
        let persisted = self.persisted_state();
        AppOverview {
            platform: PlatformSnapshot {
                name: String::from_str(self.capabilities.name),
                supports_focus_tracking: self.capabilities.supports_focus_tracking,
                supports_input_control: self.capabilities.supports_input_control,
                notes: String::from_str(self.capabilities.notes),
            },
            settings: self.settings,
            active_app: clone_app_opt(&self.active_app),
            current_input_mode: self.current_input_mode,
            manual_rules: persisted.manual_rules,
            learned_preferences: self.ranked_preferences(),
            last_decision: clone_decision_opt(&self.last_decision),
            recent_events: clone_events(&self.recent_events),
        }
    }
}

impl SmartSwitcherService {
    /// Whether no operation waits for a reply, so that a new one may start.
    pub fn is_idle(&self) -> (b: bool)
        ensures
            b == (self@.pending is Idle),
    {
        match self.pending {
            Pending::Idle => true,
            _ => false,
        }
    }

    /// Whether the pending operation waits for a reply of the kind of `reply`.
    pub fn awaits(&self, reply: &Reply) -> (b: bool)
        ensures
            b == accepts(self@.pending, reply@),
    {
        match (&self.pending, reply) {
            (Pending::Idle, _) => false,
            (Pending::FocusRead { .. }, Reply::InputMode(_)) => true,
            (Pending::SwitchVerified { .. }, Reply::InputMode(_)) => true,
            (Pending::SwitchSent { .. }, Reply::Switched(_)) => true,
            (Pending::LeavingSaved { .. }, Reply::Saved(_)) => true,
            (Pending::RuleSaved { .. }, Reply::Saved(_)) => true,
            (Pending::RuleRemovalSaved { .. }, Reply::Saved(_)) => true,
            (Pending::SettingsSaved { .. }, Reply::Saved(_)) => true,
            (Pending::SampleSaved { .. }, Reply::Saved(_)) => true,
            _ => false,
        }
    }
}

impl SmartSwitcherService {
    /// Every rule and every learned preference is filed under the normalized
    /// name of its own executable.
    pub proof fn lemma_entries_filed_by_name(&self)
        requires
            self.wf(),
        ensures
            forall|k: Seq<char>|
                #[trigger] self@.rules.contains_key(k) ==> normalized(self@.rules[k].executable) == k,
            forall|k: Seq<char>|
                #[trigger] self@.preferences.contains_key(k) ==> normalized(
                    self@.preferences[k].executable,
                ) == k,
    {
        let rs = rule_entries(self.manual_rules@);
        let ps = preference_entries(self.learned_preferences@);
        assert forall|k: Seq<char>| #[trigger] self@.rules.contains_key(k) implies normalized(
            self@.rules[k].executable,
        ) == k by {
            lemma_key_index(rs, k);
            let i = key_index(rs, k);
            assert(rs[i].0 == self.manual_rules@[i].0@);
        }
        assert forall|k: Seq<char>| #[trigger] self@.preferences.contains_key(k) implies normalized(
            self@.preferences[k].executable,
        ) == k by {
            lemma_key_index(ps, k);
            let i = key_index(ps, k);
            assert(ps[i].0 == self.learned_preferences@[i].0@);
        }
    }
}

} // verus!
