//! The rules by which an application's input mode is guessed, and the texts
//! that explain decisions and events.
use vstd::prelude::*;
use crate::models::{
    confidence_percent_of, label_text, FocusedApp, FocusedAppModel, LanguageMode,
    LearnedAppPreference, ManualRule, ManualRuleModel, PreferenceModel, ResolutionSource,
};
use crate::text::{
    ascii_lower_text, contains_any, contains_any_text, decimal_string, decimal_text, normalized,
    to_ascii_lowercase,
};

verus! {

/// Executable names of chat, notes and music applications.
pub open spec fn chinese_app_keywords() -> Seq<Seq<char>> {
    seq![
        "wechat"@, "weixin"@, "qq"@, "tim"@, "dingtalk"@, "feishu"@, "lark"@, "wecom"@,
        "wxwork"@, "music"@, "notes"@, "notion"@,
    ]
}

/// Window-title words of chat and document windows.
pub open spec fn chinese_title_keywords() -> Seq<Seq<char>> {
    seq!["微信"@, "聊天"@, "消息"@, "备注"@, "文档"@]
}

/// Executable names of editors, IDEs, terminals and shells.
pub open spec fn english_app_keywords() -> Seq<Seq<char>> {
    seq![
        "code"@, "cursor"@, "idea"@, "pycharm"@, "goland"@, "clion"@, "webstorm"@, "rider"@,
        "datagrip"@, "terminal"@, "powershell"@, "cmd"@, "alacritty"@, "wezterm"@, "kitty"@,
        "bash"@, "zsh"@, "git"@, "devenv"@, "notepad++"@,
    ]
}

/// Window-title words of terminals and development windows.
pub open spec fn english_title_keywords() -> Seq<Seq<char>> {
    seq!["terminal"@, "shell"@, "code"@, "github"@, "commit"@, "debug"@]
}

/// The mode that the kind of application suggests: Chinese for chat, notes
/// and document applications, English for development tools; the application's
/// key and its lowercased window title are searched for keywords, the Chinese
/// ones first.
pub open spec fn heuristic_language(app: FocusedAppModel) -> Option<LanguageMode> {
    let key = normalized(app.executable);
    let title = ascii_lower_text(app.window_title);
    if contains_any_text(key, chinese_app_keywords()) || contains_any_text(
        title,
        chinese_title_keywords(),
    ) {
        Some(LanguageMode::Chinese)
    } else if contains_any_text(key, english_app_keywords()) || contains_any_text(
        title,
        english_title_keywords(),
    ) {
        Some(LanguageMode::English)
    } else {
        None
    }
}

pub fn heuristic_language_for_app(app: &FocusedApp) -> (mode: Option<LanguageMode>)
    ensures
        mode == heuristic_language(app@),
{
    let key = app.app_key();
    let title = to_ascii_lowercase(app.window_title.as_str());
    let chinese_apps: [&str; 12] = [
        "wechat", "weixin", "qq", "tim", "dingtalk", "feishu", "lark", "wecom", "wxwork", "music",
        "notes", "notion",
    ];
    let chinese_titles: [&str; 5] = ["微信", "聊天", "消息", "备注", "文档"];
    let english_apps: [&str; 20] = [
        "code", "cursor", "idea", "pycharm", "goland", "clion", "webstorm", "rider", "datagrip",
        "terminal", "powershell", "cmd", "alacritty", "wezterm", "kitty", "bash", "zsh", "git",
        "devenv", "notepad++",
    ];
    let english_titles: [&str; 6] = ["terminal", "shell", "code", "github", "commit", "debug"];
    assert(chinese_apps@.map_values(|k: &str| k@) =~= chinese_app_keywords());
    assert(chinese_titles@.map_values(|k: &str| k@) =~= chinese_title_keywords());
    assert(english_apps@.map_values(|k: &str| k@) =~= english_app_keywords());
    assert(english_titles@.map_values(|k: &str| k@) =~= english_title_keywords());
    if contains_any(key.as_str(), &chinese_apps) || contains_any(title.as_str(), &chinese_titles) {
        return Some(LanguageMode::Chinese);
    }
    if contains_any(key.as_str(), &english_apps) || contains_any(title.as_str(), &english_titles) {
        return Some(LanguageMode::English);
    }
    None
}

/// The text naming where a decision came from.
pub open spec fn source_text(source: ResolutionSource) -> Seq<char> {
    match source {
        ResolutionSource::ManualRule => "手动规则"@,
        ResolutionSource::LearnedPreference => "学习偏好"@,
        ResolutionSource::Heuristic => "启发式判断"@,
        ResolutionSource::ManualObservation => "手动学习"@,
        ResolutionSource::Unresolved => "无决策"@,
    }
}

pub fn source_label(source: ResolutionSource) -> (text: &'static str)
    ensures
        text@ == source_text(source),
{
    match source {
        ResolutionSource::ManualRule => "手动规则",
        ResolutionSource::LearnedPreference => "学习偏好",
        ResolutionSource::Heuristic => "启发式判断",
        ResolutionSource::ManualObservation => "手动学习",
        ResolutionSource::Unresolved => "无决策",
    }
}

/// "On" or "off".
pub open spec fn on_off_text(value: bool) -> Seq<char> {
    if value {
        "开启"@
    } else {
        "关闭"@
    }
}

pub fn yes_no(value: bool) -> (text: &'static str)
    ensures
        text@ == on_off_text(value),
{
    if value {
        "开启"
    } else {
        "关闭"
    }
}

/// The reason given for a manual rule.
pub open spec fn rule_reason(rule: ManualRuleModel) -> Seq<char> {
    "命中手动规则："@ + rule.executable + " -> "@ + label_text(rule.preferred_language) + "。"@
}

pub fn rule_reason_text(rule: &ManualRule) -> (text: String)
    ensures
        text@ == rule_reason(rule@),
{
    let mut text = String::from_str("命中手动规则：");
    text.append(rule.executable.as_str());
    text.append(" -> ");
    text.append(rule.preferred_language.label());
    text.append("。");
    text
}

/// The reason given for a learned preference: its confidence in percent and
/// the two scores.
pub open spec fn learned_reason(p: PreferenceModel) -> Seq<char> {
    "命中学习偏好：置信度 "@ + decimal_text(confidence_percent_of(p)) + "%（"@ + decimal_text(
        p.chinese_score as nat,
    ) + " / "@ + decimal_text(p.english_score as nat) + "）。"@
}

pub fn learned_reason_text(p: &LearnedAppPreference) -> (text: String)
    ensures
        text@ == learned_reason(p@),
{
    let mut text = String::from_str("命中学习偏好：置信度 ");
    let pct = decimal_string(p.confidence_percent());
    text.append(pct.as_str());
    text.append("%（");
    let chinese = decimal_string(p.chinese_score as u64);
    text.append(chinese.as_str());
    text.append(" / ");
    let english = decimal_string(p.english_score as u64);
    text.append(english.as_str());
    text.append("）。");
    text
}

/// The reason given for a guess from the kind of application.
pub open spec fn heuristic_reason(executable: Seq<char>, language: LanguageMode) -> Seq<char> {
    "根据应用类型启发式判断："@ + executable + " 更可能需要 "@ + label_text(language) + "。"@
}

pub fn heuristic_reason_text(executable: &str, language: LanguageMode) -> (text: String)
    ensures
        text@ == heuristic_reason(executable@, language),
{
    let mut text = String::from_str("根据应用类型启发式判断：");
    text.append(executable);
    text.append(" 更可能需要 ");
    text.append(language.label());
    text.append("。");
    text
}

} // verus!
