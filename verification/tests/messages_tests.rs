use nekostream::messages::{default_locales, normalize_locale, MessageCatalog, MessageTable};

fn default_catalog(locale: &str) -> MessageCatalog {
    MessageCatalog::from_templates(None, locale)
}

#[test]
fn english_defaults() {
    let c = default_catalog("en-US");
    assert_eq!(c.t("join_success"), "Joined voice channel.");
    assert_eq!(c.t("stop_already_stopped"), "No active stream right now.");
}

#[test]
fn chinese_defaults() {
    let c = default_catalog("zh-TW");
    assert_eq!(c.t("unknown_command"), "未知指令。");
    assert_eq!(c.t("status_streaming_active"), "進行中");
}

#[test]
fn unknown_key_is_returned_as_is() {
    let c = default_catalog("en-US");
    assert_eq!(c.t("no_such_key"), "no_such_key");
}

#[test]
fn missing_locale_falls_back_to_english() {
    let c = default_catalog("fr");
    assert_eq!(c.locale(), "fr");
    assert_eq!(c.t("leave_success"), "Left voice channel.");
}

#[test]
fn locale_text_wins_over_fallback() {
    let mut table = MessageTable::new();
    table.insert_locale(
        "fr".to_string(),
        vec![("join_success".to_string(), "Rejoint.".to_string())],
    );
    table.insert_locale(
        "en-US".to_string(),
        vec![
            ("join_success".to_string(), "Joined.".to_string()),
            ("leave_success".to_string(), "Left.".to_string()),
        ],
    );
    let c = MessageCatalog::from_templates(Some(table), "fr");
    assert_eq!(c.t("join_success"), "Rejoint.");
    assert_eq!(c.t("leave_success"), "Left.");
    assert_eq!(c.t("stop_success"), "stop_success");
}

#[test]
fn later_pair_wins_within_a_locale() {
    let mut table = MessageTable::new();
    table.insert_locale(
        "en-US".to_string(),
        vec![
            ("k".to_string(), "first".to_string()),
            ("k".to_string(), "second".to_string()),
        ],
    );
    let c = MessageCatalog::from_templates(Some(table), "en");
    assert_eq!(c.t("k"), "second");
}

#[test]
fn empty_template_file_uses_defaults() {
    let c = MessageCatalog::from_templates(Some(MessageTable::new()), "en-us");
    assert_eq!(c.t("start_enabled"), "Streaming started.");
    assert!(!default_locales().is_empty());
}

#[test]
fn template_without_fallback_locale() {
    let mut table = MessageTable::new();
    table.insert_locale("de".to_string(), vec![]);
    let c = MessageCatalog::from_templates(Some(table), "en-US");
    assert_eq!(c.t("join_success"), "join_success");
}

#[test]
fn fills_variables() {
    let c = default_catalog("en-US");
    assert_eq!(
        c.tr("status_summary", &[("streaming", "Active"), ("autoleave", "Disabled")]),
        "Streaming: Active\nAutoleave: Disabled"
    );
    assert_eq!(
        c.tr("command_error", &[("error", "boom")]),
        "Command failed: boom"
    );
    assert_eq!(c.tr("join_success", &[("error", "x")]), "Joined voice channel.");
    assert_eq!(c.tr("join_success", &[]), c.t("join_success"));
}

#[test]
fn variables_apply_in_order() {
    let mut table = MessageTable::new();
    table.insert_locale(
        "en-US".to_string(),
        vec![("k".to_string(), "{a} {b} {a}".to_string())],
    );
    let c = MessageCatalog::from_templates(Some(table), "en-US");
    assert_eq!(c.tr("k", &[("a", "{b}"), ("b", "x")]), "x x x");
    assert_eq!(c.tr("k", &[("b", "x"), ("a", "{b}")]), "{b} x {b}");
}

#[test]
fn normalizes_locale_spellings() {
    assert_eq!(normalize_locale("ZH-tw"), "zh-TW");
    assert_eq!(normalize_locale("zh_TW"), "zh-TW");
    assert_eq!(normalize_locale("Zh-Hant"), "zh-TW");
    assert_eq!(normalize_locale("EN"), "en-US");
    assert_eq!(normalize_locale("en_us"), "en-US");
    assert_eq!(normalize_locale("en-GB"), "en-GB");
    assert_eq!(normalize_locale("Fr-FR"), "Fr-FR");
    assert_eq!(normalize_locale(&normalize_locale("EN-us")), "en-US");
}

#[test]
fn catalog_keeps_normalized_locale() {
    assert_eq!(default_catalog("ZH_TW").locale(), "zh-TW");
}

#[test]
fn reads_toml_templates() {
    let text = "[en-US]\njoin_success = \"Hi there\"\n\n[fr]\nleave_success = \"Au revoir\"\n";
    let c = MessageCatalog::from_file_contents(Some(text), "fr");
    assert_eq!(c.t("leave_success"), "Au revoir");
    assert_eq!(c.t("join_success"), "Hi there");
    assert_eq!(c.t("stop_success"), "stop_success");
}

#[test]
fn unusable_toml_falls_back_to_defaults() {
    let bad = MessageCatalog::from_file_contents(Some("not = [toml"), "en");
    assert_eq!(bad.t("join_success"), "Joined voice channel.");
    let wrong_shape = MessageCatalog::from_file_contents(Some("key = \"top-level string\""), "en");
    assert_eq!(wrong_shape.t("join_success"), "Joined voice channel.");
    let number = MessageCatalog::from_file_contents(Some("[en-US]\njoin_success = 3\n"), "en");
    assert_eq!(number.t("join_success"), "Joined voice channel.");
    let empty = MessageCatalog::from_file_contents(Some(""), "en");
    assert_eq!(empty.t("join_success"), "Joined voice channel.");
    let missing = MessageCatalog::from_file_contents(None, "zh-tw");
    assert_eq!(missing.t("join_success"), "已加入語音頻道。");
}

#[test]
fn builds_table_from_locale_list() {
    let table = MessageTable::from_locales(vec![
        ("en-US".to_string(), vec![("a".to_string(), "one".to_string())]),
        ("en-US".to_string(), vec![("b".to_string(), "two".to_string())]),
    ]);
    let c = MessageCatalog::from_templates(Some(table), "en-US");
    assert_eq!(c.t("a"), "a");
    assert_eq!(c.t("b"), "two");
}
