//! The switcher's data: input modes, focused applications, manual rules,
//! learned preferences, settings, decisions and the activity log.
use vstd::prelude::*;

verus! {

/// The two input modes the switcher distinguishes.
#[derive(Debug, Clone, Copy, PartialEq, Eq, Structural)]
pub enum LanguageMode {
    Chinese,
    English,
}

/// The text shown to the user for a mode.
pub open spec fn label_text(mode: LanguageMode) -> Seq<char> {
    match mode {
        LanguageMode::Chinese => "中文"@,
        LanguageMode::English => "English"@,
    }
}

impl LanguageMode {
    pub fn label(self) -> (text: &'static str)
        ensures
            text@ == label_text(self),
    {
        match self {
            LanguageMode::Chinese => "中文",
            LanguageMode::English => "English",
        }
    }
}

/// Where a decision on the input mode came from.
#[derive(Debug, Clone, Copy, PartialEq, Eq, Structural)]
pub enum ResolutionSource {
    ManualRule,
    LearnedPreference,
    Heuristic,
    ManualObservation,
    /// No rule, preference or heuristic applied.
    Unresolved,
}

/// Two optional modes are the same.
pub fn same_mode(a: Option<LanguageMode>, b: Option<LanguageMode>) -> (r: bool)
    ensures
        r == (a == b),
{
    match (a, b) {
        (Some(x), Some(y)) => x == y,
        (None, None) => true,
        _ => false,
    }
}

/// The view of an optional text.
pub open spec fn opt_text(o: Option<String>) -> Option<Seq<char>> {
    match o {
        Some(s) => Some(s@),
        None => None,
    }
}

pub fn clone_opt_text(o: &Option<String>) -> (r: Option<String>)
    ensures
        opt_text(r) == opt_text(*o),
{
    match o {
        Some(s) => Some(s.clone()),
        None => None,
    }
}

/// The application that holds the keyboard focus.
#[derive(Debug)]
pub struct FocusedApp {
    pub executable: String,
    pub process_path: Option<String>,
    pub window_title: String,
    pub pid: u32,
}

pub struct FocusedAppModel {
    pub executable: Seq<char>,
    pub process_path: Option<Seq<char>>,
    pub window_title: Seq<char>,
    pub pid: u32,
}

impl View for FocusedApp {
    type V = FocusedAppModel;

    open spec fn view(&self) -> FocusedAppModel {
        FocusedAppModel {
            executable: self.executable@,
            process_path: opt_text(self.process_path),
            window_title: self.window_title@,
            pid: self.pid,
        }
    }
}

impl DeepView for FocusedApp {
    type V = FocusedAppModel;

    open spec fn deep_view(&self) -> FocusedAppModel {
        self@
    }
}

impl Clone for FocusedApp {
    fn clone(&self) -> (r: Self)
        ensures
            r@ == self@,
    {
        FocusedApp {
            executable: self.executable.clone(),
            process_path: clone_opt_text(&self.process_path),
            window_title: self.window_title.clone(),
            pid: self.pid,
        }
    }
}

impl FocusedApp {
    /// The key under which this application's rules and preferences are filed.
    pub fn app_key(&self) -> (key: String)
        ensures
            key@ == crate::text::normalized(self.executable@),
    {
        crate::text::normalize_key(self.executable.as_str())
    }
}

/// A preference that the user set by hand for one application.
#[derive(Debug)]
pub struct ManualRule {
    pub executable: String,
    pub preferred_language: LanguageMode,
    pub note: Option<String>,
    pub updated_at_epoch: u64,
}

pub struct ManualRuleModel {
    pub executable: Seq<char>,
    pub preferred_language: LanguageMode,
    pub note: Option<Seq<char>>,
    pub updated_at_epoch: u64,
}

impl View for ManualRule {
    type V = ManualRuleModel;

    open spec fn view(&self) -> ManualRuleModel {
        ManualRuleModel {
            executable: self.executable@,
            preferred_language: self.preferred_language,
            note: opt_text(self.note),
            updated_at_epoch: self.updated_at_epoch,
        }
    }
}

impl DeepView for ManualRule {
    type V = ManualRuleModel;

    open spec fn deep_view(&self) -> ManualRuleModel {
        self@
    }
}

impl Clone for ManualRule {
    fn clone(&self) -> (r: Self)
        ensures
            r@ == self@,
    {
        ManualRule {
            executable: self.executable.clone(),
            preferred_language: self.preferred_language,
            note: clone_opt_text(&self.note),
            updated_at_epoch: self.updated_at_epoch,
        }
    }
}

/// `a + b`, held at `u32::MAX` where it would pass it.
pub open spec fn sat_add(a: u32, b: u32) -> u32 {
    if a + b > u32::MAX {
        u32::MAX
    } else {
        (a + b) as u32
    }
}

/// The evidence gathered on which mode the user keeps in one application.
#[derive(Debug)]
pub struct LearnedAppPreference {
    pub executable: String,
    pub chinese_score: u32,
    pub english_score: u32,
    pub last_observed_epoch: u64,
}

pub struct PreferenceModel {
    pub executable: Seq<char>,
    pub chinese_score: u32,
    pub english_score: u32,
    pub last_observed_epoch: u64,
}

impl View for LearnedAppPreference {
    type V = PreferenceModel;

    open spec fn view(&self) -> PreferenceModel {
        PreferenceModel {
            executable: self.executable@,
            chinese_score: self.chinese_score,
            english_score: self.english_score,
            last_observed_epoch: self.last_observed_epoch,
        }
    }
}

impl DeepView for LearnedAppPreference {
    type V = PreferenceModel;

    open spec fn deep_view(&self) -> PreferenceModel {
        self@
    }
}

impl Clone for LearnedAppPreference {
    fn clone(&self) -> (r: Self)
        ensures
            r@ == self@,
    {
        LearnedAppPreference {
            executable: self.executable.clone(),
            chinese_score: self.chinese_score,
            english_score: self.english_score,
            last_observed_epoch: self.last_observed_epoch,
        }
    }
}

/// One observation of `weight` in favour of `language` at `timestamp`.
pub open spec fn recorded(
    p: PreferenceModel,
    language: LanguageMode,
    weight: u32,
    timestamp: u64,
) -> PreferenceModel {
    match language {
        LanguageMode::Chinese => PreferenceModel {
            chinese_score: sat_add(p.chinese_score, weight),
            last_observed_epoch: timestamp,
            ..p
        },
        LanguageMode::English => PreferenceModel {
            english_score: sat_add(p.english_score, weight),
            last_observed_epoch: timestamp,
            ..p
        },
    }
}

/// All evidence, held at `u32::MAX`.
pub open spec fn total_score(p: PreferenceModel) -> u32 {
    sat_add(p.chinese_score, p.english_score)
}

/// The mode with strictly more evidence, if either has.
pub open spec fn preferred(p: PreferenceModel) -> Option<LanguageMode> {
    if p.chinese_score == p.english_score {
        None
    } else if p.chinese_score > p.english_score {
        Some(LanguageMode::Chinese)
    } else {
        Some(LanguageMode::English)
    }
}

pub open spec fn max_score(p: PreferenceModel) -> u32 {
    if p.chinese_score >= p.english_score {
        p.chinese_score
    } else {
        p.english_score
    }
}

/// The confidence `max_score / total_score` (zero when there is no evidence)
/// is at least `ppm` millionths.
pub open spec fn confidence_reaches(p: PreferenceModel, ppm: u32) -> bool {
    if total_score(p) == 0 {
        ppm == 0
    } else {
        max_score(p) * 1_000_000 >= ppm * total_score(p)
    }
}

/// The confidence in percent, rounded to the nearest integer, ties to even.
pub open spec fn confidence_percent_of(p: PreferenceModel) -> nat {
    if total_score(p) == 0 {
        0
    } else {
        let scaled = max_score(p) * 100;
        let q = scaled / (total_score(p) as int);
        let r = scaled % (total_score(p) as int);
        if 2 * r > total_score(p) || (2 * r == total_score(p) && q % 2 == 1) {
            (q + 1) as nat
        } else {
            q as nat
        }
    }
}

proof fn lemma_product_fits(a: u32, b: u32)
    ensures
        a * b <= u64::MAX,
{
    assert(a * b <= 0xffff_ffffu64 * 0xffff_ffffu64) by (nonlinear_arith)
        requires
            a <= 0xffff_ffffu64,
            b <= 0xffff_ffffu64,
    ;
}

impl LearnedAppPreference {
    /// A preference with no evidence yet.
    pub fn empty(executable: String) -> (p: Self)
        ensures
            p@ == (PreferenceModel {
                executable: executable@,
                chinese_score: 0,
                english_score: 0,
                last_observed_epoch: 0,
            }),
    {
        LearnedAppPreference { executable, chinese_score: 0, english_score: 0, last_observed_epoch: 0 }
    }

    pub fn record(&mut self, language: LanguageMode, weight: u32, timestamp: u64)
        ensures
            final(self)@ == recorded(old(self)@, language, weight, timestamp),
    {
        self.last_observed_epoch = timestamp;
        match language {
            LanguageMode::Chinese => {
                self.chinese_score = self.chinese_score.saturating_add(weight);
            },
            LanguageMode::English => {
                self.english_score = self.english_score.saturating_add(weight);
            },
        }
    }

    pub fn total(&self) -> (t: u32)
        ensures
            t == total_score(self@),
    {
        self.chinese_score.saturating_add(self.english_score)
    }

    pub fn preferred_language(&self) -> (mode: Option<LanguageMode>)
        ensures
            mode == preferred(self@),
    {
        if self.chinese_score == self.english_score {
            None
        } else if self.chinese_score > self.english_score {
            Some(LanguageMode::Chinese)
        } else {
            Some(LanguageMode::English)
        }
    }

    fn max_score(&self) -> (m: u32)
        ensures
            m == max_score(self@),
    {
        if self.chinese_score >= self.english_score {
            self.chinese_score
        } else {
            self.english_score
        }
    }

    /// Whether the confidence reaches `threshold_ppm` millionths.
    pub fn confidence_reaches(&self, threshold_ppm: u32) -> (b: bool)
        ensures
            b == confidence_reaches(self@, threshold_ppm),
    {
        let total = self.total();
        if total == 0 {
            threshold_ppm == 0
        } else {
            let max = self.max_score();
            proof {
                lemma_product_fits(threshold_ppm, total);
            }
            (max as u64) * 1_000_000 >= (threshold_ppm as u64) * (total as u64)
        }
    }

    /// The confidence in whole percent, rounded to nearest, ties to even.
    pub fn confidence_percent(&self) -> (pct: u64)
        ensures
            pct == confidence_percent_of(self@),
    {
        let total = self.total() as u64;
        if total == 0 {
            0
        } else {
            let scaled = (self.max_score() as u64) * 100;
            let q = scaled / total;
            let r = scaled % total;
            if 2 * r > total || (2 * r == total && q % 2 == 1) {
                q + 1
            } else {
                q
            }
        }
    }
}


/// How the switcher behaves; a confidence threshold is held in millionths.
#[derive(Debug, Clone, Copy, PartialEq, Eq, Structural)]
pub struct EngineSettings {
    pub auto_switch_enabled: bool,
    pub learning_enabled: bool,
    pub poll_interval_ms: u64,
    pub learning_confidence_threshold_ppm: u32,
    pub min_learning_samples: u32,
}

pub open spec fn default_settings() -> EngineSettings {
    EngineSettings {
        auto_switch_enabled: true,
        learning_enabled: true,
        poll_interval_ms: 900,
        learning_confidence_threshold_ppm: 720_000,
        min_learning_samples: 3,
    }
}

impl Default for EngineSettings {
    fn default() -> (s: Self)
        ensures
            s == default_settings(),
    {
        EngineSettings {
            auto_switch_enabled: true,
            learning_enabled: true,
            poll_interval_ms: 900,
            learning_confidence_threshold_ppm: 720_000,
            min_learning_samples: 3,
        }
    }
}

/// What is kept between runs.
#[derive(Debug)]
pub struct PersistedState {
    pub settings: EngineSettings,
    pub manual_rules: Vec<ManualRule>,
    pub learned_preferences: Vec<LearnedAppPreference>,
}

pub struct PersistedModel {
    pub settings: EngineSettings,
    pub manual_rules: Seq<ManualRuleModel>,
    pub learned_preferences: Seq<PreferenceModel>,
}

impl View for PersistedState {
    type V = PersistedModel;

    open spec fn view(&self) -> PersistedModel {
        PersistedModel {
            settings: self.settings,
            manual_rules: self.manual_rules.deep_view(),
            learned_preferences: self.learned_preferences.deep_view(),
        }
    }
}

impl Default for PersistedState {
    /// The state of a first run: default settings, no rules, nothing learned.
    fn default() -> (p: Self)
        ensures
            p@.settings == default_settings(),
            p@.manual_rules.len() == 0,
            p@.learned_preferences.len() == 0,
    {
        PersistedState {
            settings: EngineSettings::default(),
            manual_rules: Vec::new(),
            learned_preferences: Vec::new(),
        }
    }
}

/// The mode chosen for an application, where the choice came from, and why.
#[derive(Debug)]
pub struct DecisionSnapshot {
    pub target_language: Option<LanguageMode>,
    pub source: ResolutionSource,
    pub reason: String,
}

pub struct DecisionModel {
    pub target_language: Option<LanguageMode>,
    pub source: ResolutionSource,
    pub reason: Seq<char>,
}

impl View for DecisionSnapshot {
    type V = DecisionModel;

    open spec fn view(&self) -> DecisionModel {
        DecisionModel {
            target_language: self.target_language,
            source: self.source,
            reason: self.reason@,
        }
    }
}

impl DeepView for DecisionSnapshot {
    type V = DecisionModel;

    open spec fn deep_view(&self) -> DecisionModel {
        self@
    }
}

impl Clone for DecisionSnapshot {
    fn clone(&self) -> (r: Self)
        ensures
            r@ == self@,
    {
        DecisionSnapshot {
            target_language: self.target_language,
            source: self.source,
            reason: self.reason.clone(),
        }
    }
}

/// One entry of the activity log.
#[derive(Debug)]
pub struct ActivityEvent {
    pub timestamp_epoch: u64,
    pub app: String,
    pub summary: String,
    pub detail: String,
}

pub struct EventModel {
    pub timestamp_epoch: u64,
    pub app: Seq<char>,
    pub summary: Seq<char>,
    pub detail: Seq<char>,
}

impl View for ActivityEvent {
    type V = EventModel;

    open spec fn view(&self) -> EventModel {
        EventModel {
            timestamp_epoch: self.timestamp_epoch,
            app: self.app@,
            summary: self.summary@,
            detail: self.detail@,
        }
    }
}

impl DeepView for ActivityEvent {
    type V = EventModel;

    open spec fn deep_view(&self) -> EventModel {
        self@
    }
}

impl Clone for ActivityEvent {
    fn clone(&self) -> (r: Self)
        ensures
            r@ == self@,
    {
        ActivityEvent {
            timestamp_epoch: self.timestamp_epoch,
            app: self.app.clone(),
            summary: self.summary.clone(),
            detail: self.detail.clone(),
        }
    }
}

/// A learned preference as the overview shows it; the confidence that goes
/// with it is `max(chinese_score, english_score) / total`.
#[derive(Debug)]
pub struct LearnedPreferenceView {
    pub executable: String,
    pub preferred_language: Option<LanguageMode>,
    pub chinese_score: u32,
    pub english_score: u32,
    pub last_observed_epoch: u64,
}

pub struct PreferenceViewModel {
    pub executable: Seq<char>,
    pub preferred_language: Option<LanguageMode>,
    pub chinese_score: u32,
    pub english_score: u32,
    pub last_observed_epoch: u64,
}

impl View for LearnedPreferenceView {
    type V = PreferenceViewModel;

    open spec fn view(&self) -> PreferenceViewModel {
        PreferenceViewModel {
            executable: self.executable@,
            preferred_language: self.preferred_language,
            chinese_score: self.chinese_score,
            english_score: self.english_score,
            last_observed_epoch: self.last_observed_epoch,
        }
    }
}

impl DeepView for LearnedPreferenceView {
    type V = PreferenceViewModel;

    open spec fn deep_view(&self) -> PreferenceViewModel {
        self@
    }
}

pub open spec fn preference_view_of(p: PreferenceModel) -> PreferenceViewModel {
    PreferenceViewModel {
        executable: p.executable,
        preferred_language: preferred(p),
        chinese_score: p.chinese_score,
        english_score: p.english_score,
        last_observed_epoch: p.last_observed_epoch,
    }
}

impl LearnedPreferenceView {
    pub fn from_preference(value: &LearnedAppPreference) -> (v: Self)
        ensures
            v@ == preference_view_of(value@),
    {
        LearnedPreferenceView {
            executable: value.executable.clone(),
            preferred_language: value.preferred_language(),
            chinese_score: value.chinese_score,
            english_score: value.english_score,
            last_observed_epoch: value.last_observed_epoch,
        }
    }
}

/// What the platform adapter can do, as the overview shows it.
#[derive(Debug)]
pub struct PlatformSnapshot {
    pub name: String,
    pub supports_focus_tracking: bool,
    pub supports_input_control: bool,
    pub notes: String,
}

/// Everything the user interface shows.
#[derive(Debug)]
pub struct AppOverview {
    pub platform: PlatformSnapshot,
    pub settings: EngineSettings,
    pub active_app: Option<FocusedApp>,
    pub current_input_mode: Option<LanguageMode>,
    pub manual_rules: Vec<ManualRule>,
    pub learned_preferences: Vec<LearnedPreferenceView>,
    pub last_decision: Option<DecisionSnapshot>,
    pub recent_events: Vec<ActivityEvent>,
}


pub open spec fn view_total(v: PreferenceViewModel) -> u32 {
    sat_add(v.chinese_score, v.english_score)
}

pub open spec fn view_max(v: PreferenceViewModel) -> u32 {
    if v.chinese_score >= v.english_score {
        v.chinese_score
    } else {
        v.english_score
    }
}

/// `a` is at least as confident as `b`; no evidence counts as confidence zero.
pub open spec fn view_confidence_at_least(a: PreferenceViewModel, b: PreferenceViewModel) -> bool {
    if view_total(b) == 0 {
        true
    } else if view_total(a) == 0 {
        false
    } else {
        view_max(a) * view_total(b) >= view_max(b) * view_total(a)
    }
}

/// `a` may be listed before `b`: it is more confident, or as confident and
/// observed no earlier.
pub open spec fn ranks_before(a: PreferenceViewModel, b: PreferenceViewModel) -> bool {
    &&& view_confidence_at_least(a, b)
    &&& view_confidence_at_least(b, a) ==> a.last_observed_epoch >= b.last_observed_epoch
}

proof fn lemma_cross_multiplication(ma: int, ta: int, mb: int, tb: int, mc: int, tc: int)
    requires
        ta > 0,
        tb > 0,
        tc > 0,
        ma * tb >= mb * ta,
        mb * tc >= mc * tb,
    ensures
        ma * tc >= mc * ta,
{
    assert(ma * tb * tc >= mb * ta * tc) by (nonlinear_arith)
        requires
            ma * tb >= mb * ta,
            tc > 0,
    ;
    assert(mb * tc * ta >= mc * tb * ta) by (nonlinear_arith)
        requires
            mb * tc >= mc * tb,
            ta > 0,
    ;
    assert(ma * tb * tc == tb * (ma * tc)) by (nonlinear_arith);
    assert(mb * ta * tc == mb * tc * ta) by (nonlinear_arith);
    assert(mc * tb * ta == tb * (mc * ta)) by (nonlinear_arith);
    assert(ma * tc >= mc * ta) by (nonlinear_arith)
        requires
            tb * (ma * tc) >= tb * (mc * ta),
            tb > 0,
    ;
}

proof fn lemma_view_max_positive(v: PreferenceViewModel)
    ensures
        view_total(v) > 0 ==> view_max(v) > 0,
{
}

/// Confidence is ordered transitively.
pub proof fn lemma_confidence_transitive(
    a: PreferenceViewModel,
    b: PreferenceViewModel,
    c: PreferenceViewModel,
)
    requires
        view_confidence_at_least(a, b),
        view_confidence_at_least(b, c),
    ensures
        view_confidence_at_least(a, c),
{
    lemma_view_max_positive(a);
    lemma_view_max_positive(b);
    lemma_view_max_positive(c);
    if view_total(c) > 0 && view_total(a) > 0 {
        if view_total(b) == 0 {
            assert(view_confidence_at_least(b, c));
        } else {
            lemma_cross_multiplication(
                view_max(a) as int,
                view_total(a) as int,
                view_max(b) as int,
                view_total(b) as int,
                view_max(c) as int,
                view_total(c) as int,
            );
        }
    }
}

/// Of two preferences, one may always be listed before the other.
pub proof fn lemma_ranks_total(a: PreferenceViewModel, b: PreferenceViewModel)
    ensures
        ranks_before(a, b) || ranks_before(b, a),
{
}

/// Listing order is transitive.
pub proof fn lemma_ranks_transitive(a: PreferenceViewModel, b: PreferenceViewModel, c: PreferenceViewModel)
    requires
        ranks_before(a, b),
        ranks_before(b, c),
    ensures
        ranks_before(a, c),
{
    lemma_confidence_transitive(a, b, c);
    if view_confidence_at_least(c, a) {
        lemma_confidence_transitive(c, a, b);
        lemma_confidence_transitive(b, c, a);
    }
}

impl LearnedPreferenceView {
    fn view_total(&self) -> (t: u32)
        ensures
            t == view_total(self@),
    {
        self.chinese_score.saturating_add(self.english_score)
    }

    fn view_max(&self) -> (m: u32)
        ensures
            m == view_max(self@),
    {
        if self.chinese_score >= self.english_score {
            self.chinese_score
        } else {
            self.english_score
        }
    }

    fn confidence_at_least(&self, other: &LearnedPreferenceView) -> (b: bool)
        ensures
            b == view_confidence_at_least(self@, other@),
    {
        let ta = self.view_total();
        let tb = other.view_total();
        if tb == 0 {
            true
        } else if ta == 0 {
            false
        } else {
            proof {
                lemma_product_fits(view_max(self@), view_total(other@));
                lemma_product_fits(view_max(other@), view_total(self@));
            }
            (self.view_max() as u64) * (tb as u64) >= (other.view_max() as u64) * (ta as u64)
        }
    }

    /// Whether this preference may be listed before `other`.
    pub fn ranks_before(&self, other: &LearnedPreferenceView) -> (b: bool)
        ensures
            b == ranks_before(self@, other@),
    {
        self.confidence_at_least(other) && (!other.confidence_at_least(self)
            || self.last_observed_epoch >= other.last_observed_epoch)
    }
}

} // verus!
