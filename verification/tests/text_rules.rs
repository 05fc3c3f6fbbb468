use smart_keyword::text::{
    contains, contains_any, decimal_string, normalize_key, text_before, to_ascii_lowercase, trim,
};

#[test]
fn trim_removes_unicode_white_space_at_both_ends() {
    assert_eq!(trim("  \t WeChat.exe \n"), "WeChat.exe");
    assert_eq!(trim("\u{3000}微信\u{00a0}"), "微信");
    assert_eq!(trim("a b"), "a b");
    assert_eq!(trim("   "), "");
    assert_eq!(trim(""), "");
}

#[test]
fn normalize_key_trims_and_lowercases_ascii_only() {
    assert_eq!(normalize_key("  WeChat.EXE "), "wechat.exe");
    assert_eq!(normalize_key("Ärger.exe"), "Ärger.exe");
    assert_eq!(normalize_key(&normalize_key(" Code.exe ")), "code.exe");
}

#[test]
fn ascii_lowercase_folds_letters() {
    assert_eq!(to_ascii_lowercase("GitHub Desktop"), "github desktop");
}

#[test]
fn contains_finds_runs() {
    assert!(contains("wezterm-gui.exe", "wezterm"));
    assert!(contains("abc", ""));
    assert!(!contains("ab", "abc"));
    assert!(contains("微信聊天", "聊天"));
    assert!(!contains("wechat", "weixin"));
}

#[test]
fn contains_any_checks_each_keyword() {
    assert!(contains_any("qqmusic.exe", &["wechat", "music"]));
    assert!(!contains_any("explorer.exe", &["wechat", "music"]));
    assert!(!contains_any("anything", &[]));
}

#[test]
fn decimal_rendering() {
    assert_eq!(decimal_string(0), "0");
    assert_eq!(decimal_string(7), "7");
    assert_eq!(decimal_string(1400), "1400");
    assert_eq!(decimal_string(u64::MAX), u64::MAX.to_string());
}

#[test]
fn names_order_by_code_points() {
    assert!(text_before("code.exe", "wechat.exe"));
    assert!(!text_before("wechat.exe", "code.exe"));
    assert!(text_before("code", "code.exe"));
    assert!(!text_before("code", "code"));
    assert_eq!(text_before("Zed", "abc"), "Zed" < "abc");
}
