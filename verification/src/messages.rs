//! Localized response templates: lookup with fallback, placeholder filling
//! and locale normalization.

use vstd::prelude::*;
use std::collections::HashMap;
use vstd::hash_map::StringHashMap;

use crate::text::{
    ascii_lowercase, chars_equal, chars_of, replace_all, replace_all_chars, string_from,
    to_ascii_lowercase,
};

verus! {

/// Texts of one locale, by message key.
pub type Texts = Map<Seq<char>, Seq<char>>;

/// Texts of every locale, by locale name.
pub type TextTable = Map<Seq<char>, Texts>;

/// The texts held by a map from keys to `String`s.
pub open spec fn text_view(m: Map<Seq<char>, String>) -> Texts {
    m.map_values(|s: String| s@)
}

/// The texts held by a map from locales to per-locale maps.
pub open spec fn table_view(m: Map<Seq<char>, StringHashMap<String>>) -> TextTable {
    m.map_values(|t: StringHashMap<String>| text_view(t@))
}

/// The map that inserting `pairs` from first to last builds; a later pair
/// wins over an earlier one with the same key.
pub open spec fn pairs_map(pairs: Seq<(Seq<char>, Seq<char>)>) -> Texts
    decreases pairs.len(),
{
    if pairs.len() == 0 {
        Map::empty()
    } else {
        pairs_map(pairs.drop_last()).insert(pairs.last().0, pairs.last().1)
    }
}

/// The character views of a list of `(key, text)` string pairs.
pub open spec fn pairs_view(pairs: Seq<(String, String)>) -> Seq<(Seq<char>, Seq<char>)> {
    pairs.map_values(|p: (String, String)| (p.0@, p.1@))
}

/// The locale whose texts stand in for a key that the active locale lacks.
pub open spec fn fallback_locale() -> Seq<char> {
    "en-US"@
}

/// The `(locale, texts)` views of a list of locales with their
/// `(key, text)` pairs.
pub open spec fn locales_view(v: Seq<(String, Vec<(String, String)>)>) -> Seq<(Seq<char>, Texts)> {
    v.map_values(|p: (String, Vec<(String, String)>)| (p.0@, pairs_map(pairs_view(p.1@))))
}

/// The table that setting the locales of `v` from first to last builds.
pub open spec fn locales_table(v: Seq<(Seq<char>, Texts)>) -> TextTable
    decreases v.len(),
{
    if v.len() == 0 {
        TextTable::empty()
    } else {
        locales_table(v.drop_last()).insert(v.last().0, v.last().1)
    }
}

/// The templates that a TOML text holds, read as a table of tables of
/// strings, or `None` when the text is no such TOML document.
pub uninterp spec fn toml_templates(text: Seq<char>) -> Option<TextTable>;

/// `toml::from_str` into a map from locale names to maps from keys to
/// texts. The contract claims that it succeeds exactly when the named result
/// is some table, and that the returned locales, set from first to last,
/// build that table (each locale and key comes once, from a map).
#[verifier::external_body]
fn parse_templates(text: &str) -> (r: Option<Vec<(String, Vec<(String, String)>)>>)
    ensures
        r is Some <==> toml_templates(text@) is Some,
        r matches Some(v) ==> locales_table(locales_view(v@)) == toml_templates(text@)->0,
{
    match toml::from_str::<HashMap<String, HashMap<String, String>>>(text) {
        Ok(m) => Some(m.into_iter().map(|(k, v)| (k, v.into_iter().collect())).collect()),
        Err(_) => None,
    }
}

/// A set of message templates for several locales.
pub struct MessageTable {
    locales: StringHashMap<StringHashMap<String>>,
}

impl View for MessageTable {
    type V = TextTable;

    closed spec fn view(&self) -> TextTable {
        table_view(self.locales@)
    }
}

proof fn lemma_text_view_insert(m: Map<Seq<char>, String>, k: Seq<char>, v: String)
    ensures
        text_view(m.insert(k, v)) == text_view(m).insert(k, v@),
{
    assert(text_view(m.insert(k, v)) =~= text_view(m).insert(k, v@));
}

proof fn lemma_table_view_insert(
    m: Map<Seq<char>, StringHashMap<String>>,
    k: Seq<char>,
    v: StringHashMap<String>,
)
    ensures
        table_view(m.insert(k, v)) == table_view(m).insert(k, text_view(v@)),
{
    assert(table_view(m.insert(k, v)) =~= table_view(m).insert(k, text_view(v@)));
}

/// Adds `key => text` to a locale's texts.
fn add_text(m: &mut StringHashMap<String>, key: &str, text: &str)
    ensures
        text_view(final(m)@) == text_view(old(m)@).insert(key@, text@),
{
    let k = key.to_owned();
    let v = text.to_owned();
    proof {
        lemma_text_view_insert(m@, k@, v);
    }
    m.insert(k, v);
}

impl MessageTable {
    /// A table with no locale.
    pub fn new() -> (r: MessageTable)
        ensures
            r@ == TextTable::empty(),
    {
        let r = MessageTable { locales: StringHashMap::new() };
        assert(r@ =~= TextTable::empty());
        r
    }

    /// Sets the texts of `locale` to the given `(key, text)` pairs, replacing
    /// what the locale held before.
    pub fn insert_locale(&mut self, locale: String, messages: Vec<(String, String)>)
        ensures
            final(self)@ == old(self)@.insert(locale@, pairs_map(pairs_view(messages@))),
    {
        let mut inner: StringHashMap<String> = StringHashMap::new();
        let ghost pv = pairs_view(messages@);
        assert(text_view(inner@) =~= pairs_map(pv.take(0)));
        let mut i: usize = 0;
        while i < messages.len()
            invariant
                i <= messages.len(),
                pv == pairs_view(messages@),
                text_view(inner@) == pairs_map(pv.take(i as int)),
            decreases messages.len() - i,
        {
            let k = messages[i].0.clone();
            let v = messages[i].1.clone();
            proof {
                lemma_text_view_insert(inner@, k@, v);
                assert(pv.take(i + 1).drop_last() == pv.take(i as int));
            }
            inner.insert(k, v);
            i = i + 1;
        }
        assert(pv.take(messages.len() as int) == pv);
        proof {
            lemma_table_view_insert(self.locales@, locale@, inner);
        }
        self.locales.insert(locale, inner);
    }

    /// The table with the locales of `v`, set from first to last.
    pub fn from_locales(v: Vec<(String, Vec<(String, String)>)>) -> (r: MessageTable)
        ensures
            r@ == locales_table(locales_view(v@)),
    {
        let ghost lv = locales_view(v@);
        let ghost n = v@.len();
        let mut rest = v;
        let mut table = MessageTable::new();
        assert(lv.take(0) =~= Seq::<(Seq<char>, Texts)>::empty());
        while rest.len() > 0
            invariant
                rest@.len() <= n,
                lv.len() == n,
                forall|j: int|
                    0 <= j < rest@.len() ==> (#[trigger] rest@[j].0@, pairs_map(pairs_view(rest@[j].1@)))
                        == lv[n - rest@.len() + j],
                table@ == locales_table(lv.take(n - rest@.len())),
            decreases rest@.len(),
        {
            let ghost k = n - rest@.len();
            let ghost before = rest@;
            let (name, texts) = rest.remove(0);
            assert((before[0].0@, pairs_map(pairs_view(before[0].1@))) == lv[k]);
            table.insert_locale(name, texts);
            assert(lv.take(k + 1).drop_last() == lv.take(k));
            assert forall|j: int| 0 <= j < rest@.len() implies (
                #[trigger] rest@[j].0@,
                pairs_map(pairs_view(rest@[j].1@)),
            ) == lv[n - rest@.len() + j] by {
                assert(rest@[j] == before[j + 1]);
            }
        }
        assert(lv.take(n as int) == lv);
        table
    }

    /// Whether the table holds no locale.
    pub fn is_empty(&self) -> (r: bool)
        ensures
            r == self@.is_empty(),
    {
        let r = self.locales.is_empty();
        assert(self@.dom() =~= self.locales@.dom());
        r
    }

    /// The texts of `locale`, if the table holds it.
    fn locale_texts(&self, locale: &str) -> (r: Option<&StringHashMap<String>>)
        ensures
            match r {
                Some(m) => self@.contains_key(locale@) && self@[locale@] == text_view(m@),
                None => !self@.contains_key(locale@),
            },
    {
        self.locales.get(locale)
    }

    /// The text of `key` in `locale`, if there is one.
    fn text(&self, locale: &str, key: &str) -> (r: Option<String>)
        ensures
            match r {
                Some(t) => self@.contains_key(locale@) && self@[locale@].contains_key(key@)
                    && t@ == self@[locale@][key@],
                None => !(self@.contains_key(locale@) && self@[locale@].contains_key(key@)),
            },
    {
        match self.locale_texts(locale) {
            Some(m) => match m.get(key) {
                Some(t) => Some(t.clone()),
                None => None,
            },
            None => None,
        }
    }
}

/// What a catalog holds: its active locale and the templates of all locales.
pub struct CatalogView {
    pub locale: Seq<char>,
    pub locales: TextTable,
}

/// The text that `key` resolves to: the active locale's template, else the
/// fallback locale's template, else the key itself.
pub open spec fn lookup_text(c: CatalogView, key: Seq<char>) -> Seq<char> {
    if c.locales.contains_key(c.locale) && c.locales[c.locale].contains_key(key) {
        c.locales[c.locale][key]
    } else if c.locales.contains_key(fallback_locale()) && c.locales[fallback_locale()].contains_key(
        key,
    ) {
        c.locales[fallback_locale()][key]
    } else {
        key
    }
}

/// The placeholder `{name}` that a template uses for the variable `name`.
pub open spec fn placeholder(name: Seq<char>) -> Seq<char> {
    seq!['{'] + name + seq!['}']
}

/// `template` with the variables filled in one after the other: each
/// variable's placeholder is replaced everywhere by its value, in the text
/// that the earlier variables left.
pub open spec fn render(template: Seq<char>, vars: Seq<(Seq<char>, Seq<char>)>) -> Seq<char>
    decreases vars.len(),
{
    if vars.len() == 0 {
        template
    } else {
        replace_all(render(template, vars.drop_last()), placeholder(vars.last().0), vars.last().1)
    }
}

/// The character views of `(name, value)` variable pairs.
pub open spec fn vars_view(vars: Seq<(&str, &str)>) -> Seq<(Seq<char>, Seq<char>)> {
    vars.map_values(|p: (&str, &str)| (p.0@, p.1@))
}

/// The locale name that a configured locale stands for: the spellings of
/// Traditional Chinese and of US English, in any ASCII case, become `zh-TW`
/// and `en-US`; any other name is kept as given.
pub open spec fn normalized_locale(s: Seq<char>) -> Seq<char> {
    let l = ascii_lowercase(s);
    if l == "zh-tw"@ || l == "zh_tw"@ || l == "zh-hant"@ {
        "zh-TW"@
    } else if l == "en"@ || l == "en-us"@ || l == "en_us"@ {
        "en-US"@
    } else {
        s
    }
}

/// Response templates of one bot, with the locale it answers in.
pub struct MessageCatalog {
    locale: String,
    locales: MessageTable,
}

impl View for MessageCatalog {
    type V = CatalogView;

    closed spec fn view(&self) -> CatalogView {
        CatalogView { locale: self.locale@, locales: self.locales@ }
    }
}

impl MessageCatalog {
    /// A catalog answering in the normalized form of `locale`, with the
    /// templates that were read from the template file when there are any,
    /// else with the built-in templates.
    pub fn from_templates(parsed: Option<MessageTable>, locale: &str) -> (r: MessageCatalog)
        ensures
            r@.locale == normalized_locale(locale@),
            r@.locales == (match parsed {
                Some(t) => if t@.is_empty() {
                    default_table()
                } else {
                    t@
                },
                None => default_table(),
            }),
    {
        let locales = match parsed {
            Some(t) => if t.is_empty() {
                default_locales()
            } else {
                t
            },
            None => default_locales(),
        };
        MessageCatalog { locale: normalize_locale(locale), locales }
    }

    /// A catalog answering in the normalized form of `locale`, with the
    /// templates of the template file's contents when they are a TOML table
    /// of tables of strings holding at least one locale, else with the
    /// built-in templates.
    pub fn from_file_contents(content: Option<&str>, locale: &str) -> (r: MessageCatalog)
        ensures
            r@.locale == normalized_locale(locale@),
            r@.locales == (match content {
                Some(text) => match toml_templates(text@) {
                    Some(t) => if t.is_empty() {
                        default_table()
                    } else {
                        t
                    },
                    None => default_table(),
                },
                None => default_table(),
            }),
    {
        let parsed = match content {
            Some(text) => match parse_templates(text) {
                Some(v) => Some(MessageTable::from_locales(v)),
                None => None,
            },
            None => None,
        };
        Self::from_templates(parsed, locale)
    }

    /// The text of `key`: the active locale's template, else the `en-US`
    /// template, else the key itself.
    pub fn t(&self, key: &str) -> (r: String)
        ensures
            r@ == lookup_text(self@, key@),
    {
        if let Some(m) = self.locale_map() {
            if let Some(v) = m.get(key) {
                return v.clone();
            }
        }
        match self.locales.text("en-US", key) {
            Some(v) => v,
            None => key.to_owned(),
        }
    }

    /// The text of `key` with each `{name}` placeholder replaced by its
    /// value, variable by variable in the order given.
    pub fn tr(&self, key: &str, vars: &[(&str, &str)]) -> (r: String)
        ensures
            r@ == render(lookup_text(self@, key@), vars_view(vars@)),
    {
        let base = self.t(key);
        let mut message = chars_of(base.as_str());
        let ghost vv = vars_view(vars@);
        let mut i: usize = 0;
        assert(vv.take(0).len() == 0);
        while i < vars.len()
            invariant
                i <= vars@.len(),
                vv == vars_view(vars@),
                message@ == render(lookup_text(self@, key@), vv.take(i as int)),
            decreases vars.len() - i,
        {
            let (name, value) = vars[i];
            let mut pat: Vec<char> = Vec::new();
            pat.push('{');
            let name_chars = chars_of(name);
            crate::text::extend_chars(&mut pat, &name_chars);
            pat.push('}');
            assert(pat@ == placeholder(name@));
            let rep = chars_of(value);
            message = replace_all_chars(&message, &pat, &rep);
            proof {
                assert(vv.take(i + 1).drop_last() == vv.take(i as int));
                assert(vv.take(i + 1).last() == vv[i as int]);
            }
            i = i + 1;
        }
        assert(vv.take(vars@.len() as int) == vv);
        string_from(&message)
    }

    /// The active locale.
    pub fn locale(&self) -> (r: &str)
        ensures
            r@ == self@.locale,
    {
        self.locale.as_str()
    }

    /// The templates of the active locale, if the catalog holds it.
    fn locale_map(&self) -> (r: Option<&StringHashMap<String>>)
        ensures
            match r {
                Some(m) => self@.locales.contains_key(self@.locale) && self@.locales[self@.locale]
                    == text_view(m@),
                None => !self@.locales.contains_key(self@.locale),
            },
    {
        self.locales.locale_texts(self.locale.as_str())
    }
}

/// The locale name that `locale` stands for (see [`normalized_locale`]).
pub fn normalize_locale(locale: &str) -> (r: String)
    ensures
        r@ == normalized_locale(locale@),
{
    let l = to_ascii_lowercase(locale);
    if chars_equal(&l, &chars_of("zh-tw")) || chars_equal(&l, &chars_of("zh_tw")) || chars_equal(
        &l,
        &chars_of("zh-hant"),
    ) {
        "zh-TW".to_owned()
    } else if chars_equal(&l, &chars_of("en")) || chars_equal(&l, &chars_of("en-us"))
        || chars_equal(&l, &chars_of("en_us")) {
        "en-US".to_owned()
    } else {
        locale.to_owned()
    }
}

/// The built-in Traditional Chinese templates.
pub open spec fn default_zh_tw() -> Texts {
    Texts::empty()
        .insert("unknown_command"@, "未知指令。"@)
        .insert("command_error"@, "執行失敗：{error}"@)
        .insert("join_already_in_channel"@, "已在你的語音頻道。"@)
        .insert("join_success"@, "已加入語音頻道。"@)
        .insert("leave_success"@, "已離開語音頻道。"@)
        .insert("start_already_active"@, "此伺服器已在串流中。"@)
        .insert("start_enabled"@, "已開始串流。"@)
        .insert("stop_success"@, "已停止串流。"@)
        .insert("stop_already_stopped"@, "目前沒有進行中的串流。"@)
        .insert("autoleave_set_disabled"@, "已關閉自動離開。"@)
        .insert("autoleave_set_when_no_humans"@, "已啟用自動離開（無真人時離開）。"@)
        .insert("autoleave_status"@, "目前自動離開模式：{mode}"@)
        .insert("autoleave_mode_disabled"@, "關閉"@)
        .insert("autoleave_mode_when_no_humans"@, "無真人即離開"@)
        .insert("status_summary"@, "串流：{streaming}\n自動離開：{autoleave}"@)
        .insert("status_streaming_active"@, "進行中"@)
        .insert("status_streaming_inactive"@, "未開始"@)
}

/// The built-in US English templates.
pub open spec fn default_en_us() -> Texts {
    Texts::empty()
        .insert("unknown_command"@, "Unknown command."@)
        .insert("command_error"@, "Command failed: {error}"@)
        .insert("join_already_in_channel"@, "Already in your voice channel."@)
        .insert("join_success"@, "Joined voice channel."@)
        .insert("leave_success"@, "Left voice channel."@)
        .insert("start_already_active"@, "Streaming is already active for this server."@)
        .insert("start_enabled"@, "Streaming started."@)
        .insert("stop_success"@, "Streaming stopped."@)
        .insert("stop_already_stopped"@, "No active stream right now."@)
        .insert("autoleave_set_disabled"@, "Autoleave disabled."@)
        .insert("autoleave_set_when_no_humans"@, "Autoleave enabled (leave when no humans remain)."@)
        .insert("autoleave_status"@, "Current autoleave mode: {mode}"@)
        .insert("autoleave_mode_disabled"@, "Disabled"@)
        .insert("autoleave_mode_when_no_humans"@, "Leave when no humans remain"@)
        .insert("status_summary"@, "Streaming: {streaming}\nAutoleave: {autoleave}"@)
        .insert("status_streaming_active"@, "Active"@)
        .insert("status_streaming_inactive"@, "Inactive"@)
}

/// The built-in templates: Traditional Chinese and US English.
pub open spec fn default_table() -> TextTable {
    TextTable::empty().insert("zh-TW"@, default_zh_tw()).insert("en-US"@, default_en_us())
}

/// The built-in templates.
pub fn default_locales() -> (r: MessageTable)
    ensures
        r@ == default_table(),
{
    let mut zh_tw: StringHashMap<String> = StringHashMap::new();
    assert(text_view(zh_tw@) =~= Texts::empty());
    add_text(&mut zh_tw, "unknown_command", "未知指令。");
    add_text(&mut zh_tw, "command_error", "執行失敗：{error}");
    add_text(&mut zh_tw, "join_already_in_channel", "已在你的語音頻道。");
    add_text(&mut zh_tw, "join_success", "已加入語音頻道。");
    add_text(&mut zh_tw, "leave_success", "已離開語音頻道。");
    add_text(&mut zh_tw, "start_already_active", "此伺服器已在串流中。");
    add_text(&mut zh_tw, "start_enabled", "已開始串流。");
    add_text(&mut zh_tw, "stop_success", "已停止串流。");
    add_text(&mut zh_tw, "stop_already_stopped", "目前沒有進行中的串流。");
    add_text(&mut zh_tw, "autoleave_set_disabled", "已關閉自動離開。");
    add_text(&mut zh_tw, "autoleave_set_when_no_humans", "已啟用自動離開（無真人時離開）。");
    add_text(&mut zh_tw, "autoleave_status", "目前自動離開模式：{mode}");
    add_text(&mut zh_tw, "autoleave_mode_disabled", "關閉");
    add_text(&mut zh_tw, "autoleave_mode_when_no_humans", "無真人即離開");
    add_text(&mut zh_tw, "status_summary", "串流：{streaming}\n自動離開：{autoleave}");
    add_text(&mut zh_tw, "status_streaming_active", "進行中");
    add_text(&mut zh_tw, "status_streaming_inactive", "未開始");
    let mut en_us: StringHashMap<String> = StringHashMap::new();
    assert(text_view(en_us@) =~= Texts::empty());
    add_text(&mut en_us, "unknown_command", "Unknown command.");
    add_text(&mut en_us, "command_error", "Command failed: {error}");
    add_text(&mut en_us, "join_already_in_channel", "Already in your voice channel.");
    add_text(&mut en_us, "join_success", "Joined voice channel.");
    add_text(&mut en_us, "leave_success", "Left voice channel.");
    add_text(&mut en_us, "start_already_active", "Streaming is already active for this server.");
    add_text(&mut en_us, "start_enabled", "Streaming started.");
    add_text(&mut en_us, "stop_success", "Streaming stopped.");
    add_text(&mut en_us, "stop_already_stopped", "No active stream right now.");
    add_text(&mut en_us, "autoleave_set_disabled", "Autoleave disabled.");
    add_text(&mut en_us, "autoleave_set_when_no_humans", "Autoleave enabled (leave when no humans remain).");
    add_text(&mut en_us, "autoleave_status", "Current autoleave mode: {mode}");
    add_text(&mut en_us, "autoleave_mode_disabled", "Disabled");
    add_text(&mut en_us, "autoleave_mode_when_no_humans", "Leave when no humans remain");
    add_text(&mut en_us, "status_summary", "Streaming: {streaming}\nAutoleave: {autoleave}");
    add_text(&mut en_us, "status_streaming_active", "Active");
    add_text(&mut en_us, "status_streaming_inactive", "Inactive");
    assert(text_view(zh_tw@) == default_zh_tw());
    assert(text_view(en_us@) == default_en_us());
    let mut locales: StringHashMap<StringHashMap<String>> = StringHashMap::new();
    assert(table_view(locales@) =~= TextTable::empty());
    let zh_name = "zh-TW".to_owned();
    let en_name = "en-US".to_owned();
    proof {
        lemma_table_view_insert(locales@, zh_name@, zh_tw);
    }
    locales.insert(zh_name, zh_tw);
    proof {
        lemma_table_view_insert(locales@, en_name@, en_us);
    }
    locales.insert(en_name, en_us);
    let r = MessageTable { locales };
    assert(r@ =~= default_table());
    r
}

/// Filling in no variable leaves the looked-up text as it is: `tr` with no
/// variables answers what `t` answers.
pub proof fn law_tr_without_vars(c: CatalogView, key: Seq<char>)
    ensures
        render(lookup_text(c, key), Seq::empty()) == lookup_text(c, key),
{
}

/// A variable whose placeholder does not occur in a text leaves the text
/// unchanged.
pub proof fn law_absent_placeholder_kept(s: Seq<char>, pat: Seq<char>, rep: Seq<char>)
    requires
        pat.len() > 0,
        forall|i: int| 0 <= i < s.len() ==> !#[trigger] crate::text::occurs_at(s, pat, i),
    ensures
        replace_all(s, pat, rep) == s,
    decreases s.len(),
{
    if s.len() > 0 {
        assert(!crate::text::occurs_at(s, pat, 0));
        let t = s.skip(1);
        assert forall|i: int| 0 <= i < t.len() implies !#[trigger] crate::text::occurs_at(t, pat, i) by {
            if crate::text::occurs_at(t, pat, i) {
                assert(t.subrange(i, i + pat.len()) == s.subrange(i + 1, i + 1 + pat.len()));
                assert(crate::text::occurs_at(s, pat, i + 1));
            }
        }
        law_absent_placeholder_kept(t, pat, rep);
        assert(seq![s[0]] + t == s);
    }
}

/// Normalizing a locale twice gives what normalizing it once gives.
pub proof fn law_normalize_idempotent(s: Seq<char>)
    ensures
        normalized_locale(normalized_locale(s)) == normalized_locale(s),
{
    reveal_strlit("zh-TW");
    reveal_strlit("zh-tw");
    reveal_strlit("en-US");
    reveal_strlit("en-us");
    let n = normalized_locale(s);
    if n == "zh-TW"@ {
        assert(ascii_lowercase(n) =~= "zh-tw"@);
        assert(normalized_locale(n) == "zh-TW"@);
    } else if n == "en-US"@ {
        assert(ascii_lowercase(n) =~= "en-us"@);
        reveal_strlit("zh_tw");
        reveal_strlit("zh-hant");
        assert(ascii_lowercase(n)[0] == 'e');
        assert(("zh-tw"@)[0] == 'z');
        assert(("zh_tw"@)[0] == 'z');
        assert(("zh-hant"@)[0] == 'z');
        assert(normalized_locale(n) == "en-US"@);
    } else {
        assert(n == s);
    }
}

/// The built-in locales define the same message keys.
pub proof fn law_default_locales_share_keys()
    ensures
        default_zh_tw().dom() == default_en_us().dom(),
        default_table().contains_key("zh-TW"@),
        default_table().contains_key("en-US"@),
{
    assert(default_zh_tw().dom() =~= default_en_us().dom());
}

/// Each built-in Traditional Chinese template, key by key.
proof fn lemma_default_zh_tw_texts()
    ensures
        default_zh_tw().contains_key("unknown_command"@) && default_zh_tw()["unknown_command"@] == "未知指令。"@,
        default_zh_tw().contains_key("command_error"@) && default_zh_tw()["command_error"@] == "執行失敗：{error}"@,
        default_zh_tw().contains_key("join_already_in_channel"@) && default_zh_tw()["join_already_in_channel"@] == "已在你的語音頻道。"@,
        default_zh_tw().contains_key("join_success"@) && default_zh_tw()["join_success"@] == "已加入語音頻道。"@,
        default_zh_tw().contains_key("leave_success"@) && default_zh_tw()["leave_success"@] == "已離開語音頻道。"@,
        default_zh_tw().contains_key("start_already_active"@) && default_zh_tw()["start_already_active"@] == "此伺服器已在串流中。"@,
        default_zh_tw().contains_key("start_enabled"@) && default_zh_tw()["start_enabled"@] == "已開始串流。"@,
        default_zh_tw().contains_key("stop_success"@) && default_zh_tw()["stop_success"@] == "已停止串流。"@,
        default_zh_tw().contains_key("stop_already_stopped"@) && default_zh_tw()["stop_already_stopped"@] == "目前沒有進行中的串流。"@,
        default_zh_tw().contains_key("autoleave_set_disabled"@) && default_zh_tw()["autoleave_set_disabled"@] == "已關閉自動離開。"@,
        default_zh_tw().contains_key("autoleave_set_when_no_humans"@) && default_zh_tw()["autoleave_set_when_no_humans"@] == "已啟用自動離開（無真人時離開）。"@,
        default_zh_tw().contains_key("autoleave_status"@) && default_zh_tw()["autoleave_status"@] == "目前自動離開模式：{mode}"@,
        default_zh_tw().contains_key("autoleave_mode_disabled"@) && default_zh_tw()["autoleave_mode_disabled"@] == "關閉"@,
        default_zh_tw().contains_key("autoleave_mode_when_no_humans"@) && default_zh_tw()["autoleave_mode_when_no_humans"@] == "無真人即離開"@,
        default_zh_tw().contains_key("status_summary"@) && default_zh_tw()["status_summary"@] == "串流：{streaming}\n自動離開：{autoleave}"@,
        default_zh_tw().contains_key("status_streaming_active"@) && default_zh_tw()["status_streaming_active"@] == "進行中"@,
        default_zh_tw().contains_key("status_streaming_inactive"@) && default_zh_tw()["status_streaming_inactive"@] == "未開始"@,
{
    reveal_strlit("unknown_command");
    reveal_strlit("command_error");
    reveal_strlit("join_already_in_channel");
    reveal_strlit("join_success");
    reveal_strlit("leave_success");
    reveal_strlit("start_already_active");
    reveal_strlit("start_enabled");
    reveal_strlit("stop_success");
    reveal_strlit("stop_already_stopped");
    reveal_strlit("autoleave_set_disabled");
    reveal_strlit("autoleave_set_when_no_humans");
    reveal_strlit("autoleave_status");
    reveal_strlit("autoleave_mode_disabled");
    reveal_strlit("autoleave_mode_when_no_humans");
    reveal_strlit("status_summary");
    reveal_strlit("status_streaming_active");
    reveal_strlit("status_streaming_inactive");
    assert("unknown_command"@[0] == 'u');
    assert("command_error"@[0] == 'c');
    assert("join_already_in_channel"@[0] == 'j');
    assert("join_success"@[0] == 'j');
    assert("leave_success"@[0] == 'l');
    assert("start_already_active"@[0] == 's');
    assert("start_enabled"@[0] == 's');
    assert("stop_success"@[0] == 's');
    assert("stop_already_stopped"@[0] == 's');
    assert("autoleave_set_disabled"@[0] == 'a');
    assert("autoleave_set_when_no_humans"@[0] == 'a');
    assert("autoleave_status"@[0] == 'a');
    assert("autoleave_mode_disabled"@[0] == 'a');
    assert("autoleave_mode_when_no_humans"@[0] == 'a');
    assert("status_summary"@[0] == 's');
    assert("status_streaming_active"@[0] == 's');
    assert("status_streaming_inactive"@[0] == 's');
    assert("unknown_command"@.len() == 15);
    assert("command_error"@.len() == 13);
    assert("join_already_in_channel"@.len() == 23);
    assert("join_success"@.len() == 12);
    assert("leave_success"@.len() == 13);
    assert("start_already_active"@.len() == 20);
    assert("start_enabled"@.len() == 13);
    assert("stop_success"@.len() == 12);
    assert("stop_already_stopped"@.len() == 20);
    assert("autoleave_set_disabled"@.len() == 22);
    assert("autoleave_set_when_no_humans"@.len() == 28);
    assert("autoleave_status"@.len() == 16);
    assert("autoleave_mode_disabled"@.len() == 23);
    assert("autoleave_mode_when_no_humans"@.len() == 29);
    assert("status_summary"@.len() == 14);
    assert("status_streaming_active"@.len() == 23);
    assert("status_streaming_inactive"@.len() == 25);
    assert("start_already_active"@[2] == 'a');
    assert("stop_already_stopped"@[2] == 'o');
}

/// Each built-in US English template, key by key.
proof fn lemma_default_en_us_texts()
    ensures
        default_en_us().contains_key("unknown_command"@) && default_en_us()["unknown_command"@] == "Unknown command."@,
        default_en_us().contains_key("command_error"@) && default_en_us()["command_error"@] == "Command failed: {error}"@,
        default_en_us().contains_key("join_already_in_channel"@) && default_en_us()["join_already_in_channel"@] == "Already in your voice channel."@,
        default_en_us().contains_key("join_success"@) && default_en_us()["join_success"@] == "Joined voice channel."@,
        default_en_us().contains_key("leave_success"@) && default_en_us()["leave_success"@] == "Left voice channel."@,
        default_en_us().contains_key("start_already_active"@) && default_en_us()["start_already_active"@] == "Streaming is already active for this server."@,
        default_en_us().contains_key("start_enabled"@) && default_en_us()["start_enabled"@] == "Streaming started."@,
        default_en_us().contains_key("stop_success"@) && default_en_us()["stop_success"@] == "Streaming stopped."@,
        default_en_us().contains_key("stop_already_stopped"@) && default_en_us()["stop_already_stopped"@] == "No active stream right now."@,
        default_en_us().contains_key("autoleave_set_disabled"@) && default_en_us()["autoleave_set_disabled"@] == "Autoleave disabled."@,
        default_en_us().contains_key("autoleave_set_when_no_humans"@) && default_en_us()["autoleave_set_when_no_humans"@] == "Autoleave enabled (leave when no humans remain)."@,
        default_en_us().contains_key("autoleave_status"@) && default_en_us()["autoleave_status"@] == "Current autoleave mode: {mode}"@,
        default_en_us().contains_key("autoleave_mode_disabled"@) && default_en_us()["autoleave_mode_disabled"@] == "Disabled"@,
        default_en_us().contains_key("autoleave_mode_when_no_humans"@) && default_en_us()["autoleave_mode_when_no_humans"@] == "Leave when no humans remain"@,
        default_en_us().contains_key("status_summary"@) && default_en_us()["status_summary"@] == "Streaming: {streaming}\nAutoleave: {autoleave}"@,
        default_en_us().contains_key("status_streaming_active"@) && default_en_us()["status_streaming_active"@] == "Active"@,
        default_en_us().contains_key("status_streaming_inactive"@) && default_en_us()["status_streaming_inactive"@] == "Inactive"@,
{
    reveal_strlit("unknown_command");
    reveal_strlit("command_error");
    reveal_strlit("join_already_in_channel");
    reveal_strlit("join_success");
    reveal_strlit("leave_success");
    reveal_strlit("start_already_active");
    reveal_strlit("start_enabled");
    reveal_strlit("stop_success");
    reveal_strlit("stop_already_stopped");
    reveal_strlit("autoleave_set_disabled");
    reveal_strlit("autoleave_set_when_no_humans");
    reveal_strlit("autoleave_status");
    reveal_strlit("autoleave_mode_disabled");
    reveal_strlit("autoleave_mode_when_no_humans");
    reveal_strlit("status_summary");
    reveal_strlit("status_streaming_active");
    reveal_strlit("status_streaming_inactive");
    assert("unknown_command"@[0] == 'u');
    assert("command_error"@[0] == 'c');
    assert("join_already_in_channel"@[0] == 'j');
    assert("join_success"@[0] == 'j');
    assert("leave_success"@[0] == 'l');
    assert("start_already_active"@[0] == 's');
    assert("start_enabled"@[0] == 's');
    assert("stop_success"@[0] == 's');
    assert("stop_already_stopped"@[0] == 's');
    assert("autoleave_set_disabled"@[0] == 'a');
    assert("autoleave_set_when_no_humans"@[0] == 'a');
    assert("autoleave_status"@[0] == 'a');
    assert("autoleave_mode_disabled"@[0] == 'a');
    assert("autoleave_mode_when_no_humans"@[0] == 'a');
    assert("status_summary"@[0] == 's');
    assert("status_streaming_active"@[0] == 's');
    assert("status_streaming_inactive"@[0] == 's');
    assert("unknown_command"@.len() == 15);
    assert("command_error"@.len() == 13);
    assert("join_already_in_channel"@.len() == 23);
    assert("join_success"@.len() == 12);
    assert("leave_success"@.len() == 13);
    assert("start_already_active"@.len() == 20);
    assert("start_enabled"@.len() == 13);
    assert("stop_success"@.len() == 12);
    assert("stop_already_stopped"@.len() == 20);
    assert("autoleave_set_disabled"@.len() == 22);
    assert("autoleave_set_when_no_humans"@.len() == 28);
    assert("autoleave_status"@.len() == 16);
    assert("autoleave_mode_disabled"@.len() == 23);
    assert("autoleave_mode_when_no_humans"@.len() == 29);
    assert("status_summary"@.len() == 14);
    assert("status_streaming_active"@.len() == 23);
    assert("status_streaming_inactive"@.len() == 25);
    assert("start_already_active"@[2] == 'a');
    assert("stop_already_stopped"@[2] == 'o');
}

/// With the built-in templates, a catalog answering in `zh-TW` gives the
/// Traditional Chinese text of each reply and a catalog answering in any
/// other locale gives the US English one.
pub proof fn law_default_reply_texts(c: CatalogView)
    requires
        c.locales == default_table(),
    ensures
        lookup_text(c, "unknown_command"@) == (if c.locale == "zh-TW"@ {
            "未知指令。"@
        } else {
            "Unknown command."@
        }),
        lookup_text(c, "command_error"@) == (if c.locale == "zh-TW"@ {
            "執行失敗：{error}"@
        } else {
            "Command failed: {error}"@
        }),
        lookup_text(c, "join_already_in_channel"@) == (if c.locale == "zh-TW"@ {
            "已在你的語音頻道。"@
        } else {
            "Already in your voice channel."@
        }),
        lookup_text(c, "join_success"@) == (if c.locale == "zh-TW"@ {
            "已加入語音頻道。"@
        } else {
            "Joined voice channel."@
        }),
        lookup_text(c, "leave_success"@) == (if c.locale == "zh-TW"@ {
            "已離開語音頻道。"@
        } else {
            "Left voice channel."@
        }),
        lookup_text(c, "start_already_active"@) == (if c.locale == "zh-TW"@ {
            "此伺服器已在串流中。"@
        } else {
            "Streaming is already active for this server."@
        }),
        lookup_text(c, "start_enabled"@) == (if c.locale == "zh-TW"@ {
            "已開始串流。"@
        } else {
            "Streaming started."@
        }),
        lookup_text(c, "stop_success"@) == (if c.locale == "zh-TW"@ {
            "已停止串流。"@
        } else {
            "Streaming stopped."@
        }),
        lookup_text(c, "stop_already_stopped"@) == (if c.locale == "zh-TW"@ {
            "目前沒有進行中的串流。"@
        } else {
            "No active stream right now."@
        }),
        lookup_text(c, "autoleave_set_disabled"@) == (if c.locale == "zh-TW"@ {
            "已關閉自動離開。"@
        } else {
            "Autoleave disabled."@
        }),
        lookup_text(c, "autoleave_set_when_no_humans"@) == (if c.locale == "zh-TW"@ {
            "已啟用自動離開（無真人時離開）。"@
        } else {
            "Autoleave enabled (leave when no humans remain)."@
        }),
        lookup_text(c, "autoleave_status"@) == (if c.locale == "zh-TW"@ {
            "目前自動離開模式：{mode}"@
        } else {
            "Current autoleave mode: {mode}"@
        }),
        lookup_text(c, "autoleave_mode_disabled"@) == (if c.locale == "zh-TW"@ {
            "關閉"@
        } else {
            "Disabled"@
        }),
        lookup_text(c, "autoleave_mode_when_no_humans"@) == (if c.locale == "zh-TW"@ {
            "無真人即離開"@
        } else {
            "Leave when no humans remain"@
        }),
        lookup_text(c, "status_summary"@) == (if c.locale == "zh-TW"@ {
            "串流：{streaming}\n自動離開：{autoleave}"@
        } else {
            "Streaming: {streaming}\nAutoleave: {autoleave}"@
        }),
        lookup_text(c, "status_streaming_active"@) == (if c.locale == "zh-TW"@ {
            "進行中"@
        } else {
            "Active"@
        }),
        lookup_text(c, "status_streaming_inactive"@) == (if c.locale == "zh-TW"@ {
            "未開始"@
        } else {
            "Inactive"@
        }),
{
    lemma_default_zh_tw_texts();
    lemma_default_en_us_texts();
    reveal_strlit("zh-TW");
    reveal_strlit("en-US");
    assert("zh-TW"@[0] == 'z');
    assert("en-US"@[0] == 'e');
    assert(c.locales.contains_key(fallback_locale()));
    assert(c.locales[fallback_locale()] == default_en_us());
    if c.locale == "zh-TW"@ {
        assert(c.locales[c.locale] == default_zh_tw());
    } else if c.locale == "en-US"@ {
        assert(c.locales[c.locale] == default_en_us());
    } else {
        assert(!c.locales.contains_key(c.locale));
    }
}

} // verus!
