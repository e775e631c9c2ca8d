//! Display-language state: the current locale, the locales an application
//! supports, application-registered texts, and the framework's own texts.
//!
//! The process-wide state of the framework is an `Option<LocalizationState>`
//! (`None` until [`init`] runs); the functions of this module take it
//! explicitly.

use vstd::prelude::*;

use crate::logging::LogLevel;
use crate::text::{
    clone_strings, contains_text, lemma_texts_differ, str_eq, string_eq_str, texts_of, vec_contains_str,
};

verus! {

/// The English (United States) locale identifier.
pub const EN_US: &'static str = "en-US";

/// The Japanese locale identifier.
pub const JA_JP: &'static str = "ja-JP";

/// Startup configuration of the display language.
#[derive(Debug, Clone)]
pub struct LocalizationConfig {
    pub default_locale: String,
    pub supported_locales: Vec<String>,
}

impl Default for LocalizationConfig {
    fn default() -> (r: Self)
        ensures
            r.default_locale@ == "en-US"@,
            texts_of(r.supported_locales@) == seq!["en-US"@, "ja-JP"@],
    {
        let mut supported: Vec<String> = Vec::new();
        supported.push(EN_US.to_owned());
        supported.push(JA_JP.to_owned());
        assert(texts_of(supported@) =~= seq!["en-US"@, "ja-JP"@]);
        LocalizationConfig { default_locale: EN_US.to_owned(), supported_locales: supported }
    }
}

/// One text that an application registered for a locale and key.
#[derive(Debug)]
pub struct TextEntry {
    pub locale: String,
    pub key: String,
    pub value: String,
}

/// Whether `e` is registered under `locale` and `key`.
pub open spec fn entry_matches(e: TextEntry, locale: Seq<char>, key: Seq<char>) -> bool {
    e.locale@ == locale && e.key@ == key
}

/// The text registered under `locale` and `key` in `entries`, the latest
/// registration counting.
pub open spec fn find_text(entries: Seq<TextEntry>, locale: Seq<char>, key: Seq<char>) -> Option<
    Seq<char>,
>
    decreases entries.len(),
{
    if entries.len() == 0 {
        None
    } else if entry_matches(entries.last(), locale, key) {
        Some(entries.last().value@)
    } else {
        find_text(entries.drop_last(), locale, key)
    }
}

/// The map from (locale, key) to text that `entries` describes.
pub open spec fn text_map(entries: Seq<TextEntry>) -> Map<(Seq<char>, Seq<char>), Seq<char>> {
    Map::new(
        |p: (Seq<char>, Seq<char>)| find_text(entries, p.0, p.1) is Some,
        |p: (Seq<char>, Seq<char>)| find_text(entries, p.0, p.1)->0,
    )
}

/// The localization state of a running application.
#[derive(Debug)]
pub struct LocalizationState {
    current: String,
    supported: Vec<String>,
    application: Vec<TextEntry>,
}

impl LocalizationState {
    /// The current locale.
    pub closed spec fn current(&self) -> Seq<char> {
        self.current@
    }

    /// The supported locales, in configuration order.
    pub closed spec fn supported(&self) -> Seq<Seq<char>> {
        texts_of(self.supported@)
    }

    /// The application texts, by (locale, key).
    pub closed spec fn texts(&self) -> Map<(Seq<char>, Seq<char>), Seq<char>> {
        text_map(self.application@)
    }

    /// The state's invariant: at least one locale is supported, and the
    /// current locale is one of them.
    #[verifier::type_invariant]
    pub closed spec fn wf(&self) -> bool {
        &&& self.supported@.len() > 0
        &&& contains_text(self.supported@, self.current@)
    }

    /// Looks up the application text registered under `locale` and `key`.
    fn lookup(&self, locale: &str, key: &str) -> (r: Option<String>)
        ensures
            r is Some == self.texts().contains_key((locale@, key@)),
            r is Some ==> r->0@ == self.texts()[(locale@, key@)],
    {
        let ghost entries = self.application@;
        let mut i: usize = self.application.len();
        assert(entries.subrange(0, i as int) =~= entries);
        while i > 0
            invariant
                i <= self.application.len(),
                entries == self.application@,
                find_text(entries, locale@, key@) == find_text(
                    entries.subrange(0, i as int),
                    locale@,
                    key@,
                ),
            decreases i,
        {
            let e = &self.application[i - 1];
            assert(entries.subrange(0, i as int).drop_last() =~= entries.subrange(0, i - 1));
            if string_eq_str(&e.locale, locale) && string_eq_str(&e.key, key) {
                return Some(e.value.clone());
            }
            i = i - 1;
        }
        assert(entries.subrange(0, 0).len() == 0);
        None
    }

    /// Registers `value` under `locale` and `key`, replacing an earlier
    /// registration of the same pair.
    fn insert_text(&mut self, locale: &str, key: &str, value: &str)
        ensures
            final(self).texts() == old(self).texts().insert((locale@, key@), value@),
            final(self).current == old(self).current,
            final(self).supported == old(self).supported,
    {
        proof {
            use_type_invariant(&*self);
        }
        let mut entries: Vec<TextEntry> = Vec::new();
        std::mem::swap(&mut entries, &mut self.application);
        insert_entry(&mut entries, locale, key, value);
        self.application = entries;
    }
}

/// Registers `value` under `locale` and `key` in `entries`, replacing an
/// earlier registration of the same pair.
fn insert_entry(entries: &mut Vec<TextEntry>, locale: &str, key: &str, value: &str)
    ensures
        text_map(final(entries)@) == text_map(old(entries)@).insert((locale@, key@), value@),
{
    let ghost start = entries@;
    let mut i: usize = entries.len();
    while i > 0
        invariant
            i <= entries.len(),
            start == entries@,
            start == old(entries)@,
            forall|j: int| i <= j < start.len() ==> !entry_matches(#[trigger] start[j], locale@, key@),
        decreases i,
    {
        if string_eq_str(&entries[i - 1].locale, locale) && string_eq_str(&entries[i - 1].key, key) {
            let entry = TextEntry { locale: locale.to_owned(), key: key.to_owned(), value: value.to_owned() };
            entries.set(i - 1, entry);
            proof {
                lemma_find_after_update(start, (i - 1) as int, entries@[i - 1], locale@, key@);
                assert(entries@ == start.update((i - 1) as int, entries@[i - 1]));
                assert(text_map(entries@) =~= text_map(start).insert((locale@, key@), value@));
            }
            return;
        }
        i = i - 1;
    }
    let entry = TextEntry { locale: locale.to_owned(), key: key.to_owned(), value: value.to_owned() };
    entries.push(entry);
    proof {
        lemma_find_after_push(start, entries@.last());
        assert(entries@ == start.push(entries@.last()));
        assert(text_map(entries@) =~= text_map(start).insert((locale@, key@), value@));
    }
}

proof fn lemma_find_after_push(entries: Seq<TextEntry>, e: TextEntry)
    ensures
        forall|l: Seq<char>, k: Seq<char>|
            #[trigger] find_text(entries.push(e), l, k) == if entry_matches(e, l, k) {
                Some(e.value@)
            } else {
                find_text(entries, l, k)
            },
{
    assert(entries.push(e).drop_last() =~= entries);
}

proof fn lemma_find_after_update(
    entries: Seq<TextEntry>,
    i: int,
    e: TextEntry,
    locale: Seq<char>,
    key: Seq<char>,
)
    requires
        0 <= i < entries.len(),
        entry_matches(e, locale, key),
        entry_matches(entries[i], locale, key),
        forall|j: int| i < j < entries.len() ==> !entry_matches(#[trigger] entries[j], locale, key),
    ensures
        forall|l: Seq<char>, k: Seq<char>|
            #[trigger] find_text(entries.update(i, e), l, k) == if l == locale && k == key {
                Some(e.value@)
            } else {
                find_text(entries, l, k)
            },
    decreases entries.len(),
{
    let u = entries.update(i, e);
    if i < entries.len() - 1 {
        lemma_find_after_update(entries.drop_last(), i, e, locale, key);
    }
    assert forall|l: Seq<char>, k: Seq<char>|
        #[trigger] find_text(u, l, k) == if l == locale && k == key {
            Some(e.value@)
        } else {
            find_text(entries, l, k)
        } by {
        assert(entries.len() > 0 && u.len() > 0);
        if i == entries.len() - 1 {
            assert(u.last() == e);
            assert(u.drop_last() =~= entries.drop_last());
            assert(entries.last() == entries[i]);
            if l == locale && k == key {
                assert(entry_matches(u.last(), l, k));
            } else {
                assert(!entry_matches(u.last(), l, k));
                assert(!entry_matches(entries.last(), l, k));
                assert(find_text(u, l, k) == find_text(u.drop_last(), l, k));
                assert(find_text(entries, l, k) == find_text(entries.drop_last(), l, k));
            }
        } else {
            assert(u.last() == entries.last());
            assert(!entry_matches(entries.last(), locale, key));
            assert(u.drop_last() =~= entries.drop_last().update(i, e));
        }
    }
}

/// The locales that are supported when `config` initializes the state.
pub open spec fn initial_supported(config: LocalizationConfig) -> Seq<Seq<char>> {
    if config.supported_locales@.len() == 0 {
        seq!["en-US"@]
    } else {
        texts_of(config.supported_locales@)
    }
}

/// The current locale right after `config` initializes the state: the
/// configured default when it is supported, else the first supported locale.
pub open spec fn initial_current(config: LocalizationConfig) -> Seq<char> {
    let supported = initial_supported(config);
    if supported.contains(config.default_locale@) {
        config.default_locale@
    } else {
        supported[0]
    }
}

/// The current locale of `state`; English when it is not initialized.
pub open spec fn spec_current_locale(state: Option<LocalizationState>) -> Seq<char> {
    match state {
        Some(s) => s.current(),
        None => "en-US"@,
    }
}

/// The supported locales of `state`; English and Japanese when it is not
/// initialized.
pub open spec fn spec_supported_locales(state: Option<LocalizationState>) -> Seq<Seq<char>> {
    match state {
        Some(s) => s.supported(),
        None => seq!["en-US"@, "ja-JP"@],
    }
}

/// Whether `state` is uninitialized or satisfies its invariant.
pub open spec fn state_wf(state: Option<LocalizationState>) -> bool {
    match state {
        Some(s) => s.wf(),
        None => true,
    }
}

/// Initializes the localization state from `config`.
///
/// Only the first initialization takes effect: a state that is already
/// initialized is left as it is.
pub fn init(state: &mut Option<LocalizationState>, config: &LocalizationConfig)
    ensures
        *old(state) is Some ==> *final(state) == *old(state),
        *old(state) is None ==> {
            &&& *final(state) is Some
            &&& (*final(state))->0.wf()
            &&& (*final(state))->0.current() == initial_current(*config)
            &&& (*final(state))->0.supported() == initial_supported(*config)
            &&& (*final(state))->0.texts() == Map::<(Seq<char>, Seq<char>), Seq<char>>::empty()
        },
{
    if state.is_some() {
        return;
    }
    let supported = if config.supported_locales.len() == 0 {
        let mut v: Vec<String> = Vec::new();
        v.push(EN_US.to_owned());
        v
    } else {
        clone_strings(&config.supported_locales)
    };
    proof {
        reveal_strlit("en-US");
        assert(texts_of(supported@) =~= initial_supported(*config));
    }
    let current = if vec_contains_str(&supported, config.default_locale.as_str()) {
        config.default_locale.clone()
    } else {
        supported[0].clone()
    };
    proof {
        let sup = initial_supported(*config);
        if sup.contains(config.default_locale@) {
            let j = choose|j: int| 0 <= j < sup.len() && sup[j] == config.default_locale@;
            assert(supported@[j]@ == config.default_locale@);
        } else {
            assert(!contains_text(supported@, config.default_locale@)) by {
                if contains_text(supported@, config.default_locale@) {
                    let j = choose|j: int|
                        0 <= j < supported@.len() && #[trigger] supported@[j]@ == config.default_locale@;
                    assert(sup[j] == config.default_locale@);
                }
            }
            assert(sup[0] == supported@[0]@);
        }
        assert(contains_text(supported@, current@)) by {
            if current@ == supported@[0]@ {
                assert(supported@[0]@ == current@);
            }
        }
    }
    let s = LocalizationState { current, supported, application: Vec::new() };
    proof {
        assert(text_map(s.application@) =~= Map::<(Seq<char>, Seq<char>), Seq<char>>::empty());
    }
    *state = Some(s);
}

/// The current locale; `"en-US"` when the state is not initialized.
pub fn current_locale(state: &Option<LocalizationState>) -> (r: String)
    ensures
        r@ == spec_current_locale(*state),
{
    match state {
        Some(s) => s.current.clone(),
        None => {
            proof {
                reveal_strlit("en-US");
            }
            EN_US.to_owned()
        },
    }
}

/// The supported locales; English and Japanese when the state is not
/// initialized.
pub fn supported_locales(state: &Option<LocalizationState>) -> (r: Vec<String>)
    ensures
        texts_of(r@) == spec_supported_locales(*state),
{
    match state {
        Some(s) => clone_strings(&s.supported),
        None => {
            let mut v: Vec<String> = Vec::new();
            v.push(EN_US.to_owned());
            v.push(JA_JP.to_owned());
            proof {
                reveal_strlit("en-US");
                reveal_strlit("ja-JP");
                assert(texts_of(v@) =~= seq!["en-US"@, "ja-JP"@]);
            }
            v
        },
    }
}

/// Makes `locale` the current locale.
///
/// Fails when the state is not initialized, or when `locale` is not one of
/// the supported locales; the state is then left as it is.
pub fn set_locale(state: &mut Option<LocalizationState>, locale: &str) -> (r: Result<(), &'static str>)
    ensures
        state_wf(*final(state)),
        *old(state) is None ==> {
            &&& r matches Err(m) && m@ == "WFIDE localization is not initialized"@
            &&& *final(state) == *old(state)
        },
        *old(state) is Some && !(*old(state))->0.supported().contains(locale@) ==> {
            &&& r matches Err(m) && m@ == "unsupported locale"@
            &&& *final(state) == *old(state)
        },
        *old(state) is Some && (*old(state))->0.supported().contains(locale@) ==> {
            &&& r is Ok
            &&& *final(state) is Some
            &&& (*final(state))->0.current() == locale@
            &&& (*final(state))->0.supported() == (*old(state))->0.supported()
            &&& (*final(state))->0.texts() == (*old(state))->0.texts()
        },
{
    match state {
        None => {
            proof {
                reveal_strlit("WFIDE localization is not initialized");
            }
            Err("WFIDE localization is not initialized")
        },
        Some(s) => {
            proof {
                use_type_invariant(&*s);
            }
            if !vec_contains_str(&s.supported, locale) {
                proof {
                    if s.supported().contains(locale@) {
                        let j = choose|j: int|
                            0 <= j < s.supported().len() && s.supported()[j] == locale@;
                        assert(s.supported@[j]@ == locale@);
                    }
                }
                return Err("unsupported locale");
            }
            proof {
                let j = choose|j: int| 0 <= j < s.supported@.len() && #[trigger] s.supported@[j]@ == locale@;
                assert(s.supported()[j] == locale@);
            }
            if !string_eq_str(&s.current, locale) {
                s.current = locale.to_owned();
            }
            Ok(())
        },
    }
}

/// Registers an application text for `locale` and `key`.
///
/// Fails when the state is not initialized; the state is then left as it is.
pub fn register(state: &mut Option<LocalizationState>, locale: &str, key: &str, value: &str) -> (r:
    Result<(), &'static str>)
    ensures
        state_wf(*final(state)),
        *old(state) is None ==> {
            &&& r matches Err(m) && m@ == "WFIDE localization is not initialized"@
            &&& *final(state) == *old(state)
        },
        *old(state) is Some ==> {
            &&& r is Ok
            &&& *final(state) is Some
            &&& (*final(state))->0.current() == (*old(state))->0.current()
            &&& (*final(state))->0.supported() == (*old(state))->0.supported()
            &&& (*final(state))->0.texts() == (*old(state))->0.texts().insert((locale@, key@), value@)
        },
{
    match state {
        None => {
            proof {
                reveal_strlit("WFIDE localization is not initialized");
            }
            Err("WFIDE localization is not initialized")
        },
        Some(s) => {
            proof {
                use_type_invariant(&*s);
            }
            s.insert_text(locale, key, value);
            Ok(())
        },
    }
}

/// The framework's own text for `key`, in Japanese when `locale` is
/// `"ja-JP"` and in English otherwise; `None` for a key the framework does
/// not define.
pub open spec fn framework_text_spec(locale: Seq<char>, key: Seq<char>) -> Option<Seq<char>> {
    let ja = locale == "ja-JP"@;
    if key == "logging.title"@ {
        Some(if ja { "ログ設定"@ } else { "Logging Settings"@ })
    } else if key == "logging.framework_panel"@ {
        Some(if ja { "Framework 標準パネル"@ } else { "Framework standard panel"@ })
    } else if key == "logging.runtime_level"@ {
        Some(if ja { "実行時ログレベル"@ } else { "Runtime Log Level"@ })
    } else if key == "logging.description"@ {
        Some(
            if ja {
                "実行中に記録する最小重要度を指定します。変更はコンソール、ファイル、メモリ出力へ即時反映されます。"@
            } else {
                "Controls the minimum severity recorded at runtime. Changes apply immediately to console, file, and in-memory output."@
            },
        )
    } else if key == "logging.error"@ {
        Some(if ja { "ERROR: エラーのみ"@ } else { "ERROR: errors only"@ })
    } else if key == "logging.warn"@ {
        Some(if ja { "WARN: 警告とエラー"@ } else { "WARN: warnings and errors"@ })
    } else if key == "logging.info"@ {
        Some(
            if ja {
                "INFO: 通常の動作情報、警告、エラー（既定値）"@
            } else {
                "INFO: normal operational information, warnings, and errors (default)"@
            },
        )
    } else if key == "logging.debug"@ {
        Some(if ja { "DEBUG: INFOに加えてデバッグ情報"@ } else { "DEBUG: INFO plus debugging information"@ })
    } else if key == "logging.trace"@ {
        Some(
            if ja {
                "TRACE: DEBUGに加えて最も詳細な内部処理"@
            } else {
                "TRACE: DEBUG plus the most detailed internal processing"@
            },
        )
    } else if key == "logging.load_warning"@ {
        Some(
            if ja {
                "DEBUG/TRACEはログ量と処理負荷が大きくなる場合があります。"@
            } else {
                "DEBUG/TRACE can significantly increase log volume and processing load."@
            },
        )
    } else if key == "language.title"@ {
        Some(if ja { "言語設定"@ } else { "Language Settings"@ })
    } else if key == "language.description"@ {
        Some(if ja { "表示言語を実行中に切り替えます。"@ } else { "Change the display language at runtime."@ })
    } else if key == "language.english"@ {
        Some("English"@)
    } else if key == "language.japanese"@ {
        Some("日本語"@)
    } else {
        None
    }
}

/// The framework's own text for `key` in `locale`.
pub fn framework_text(locale: &str, key: &str) -> (r: Option<&'static str>)
    ensures
        r is Some == framework_text_spec(locale@, key@) is Some,
        r is Some ==> framework_text_spec(locale@, key@) == Some(r->0@),
{
    let ja = str_eq(locale, JA_JP);
    proof {
        reveal_strlit("ja-JP");
    }
    if str_eq(key, "logging.title") {
        Some(if ja { "ログ設定" } else { "Logging Settings" })
    } else if str_eq(key, "logging.framework_panel") {
        Some(if ja { "Framework 標準パネル" } else { "Framework standard panel" })
    } else if str_eq(key, "logging.runtime_level") {
        Some(if ja { "実行時ログレベル" } else { "Runtime Log Level" })
    } else if str_eq(key, "logging.description") {
        Some(
            if ja {
                "実行中に記録する最小重要度を指定します。変更はコンソール、ファイル、メモリ出力へ即時反映されます。"
            } else {
                "Controls the minimum severity recorded at runtime. Changes apply immediately to console, file, and in-memory output."
            },
        )
    } else if str_eq(key, "logging.error") {
        Some(if ja { "ERROR: エラーのみ" } else { "ERROR: errors only" })
    } else if str_eq(key, "logging.warn") {
        Some(if ja { "WARN: 警告とエラー" } else { "WARN: warnings and errors" })
    } else if str_eq(key, "logging.info") {
        Some(
            if ja {
                "INFO: 通常の動作情報、警告、エラー（既定値）"
            } else {
                "INFO: normal operational information, warnings, and errors (default)"
            },
        )
    } else if str_eq(key, "logging.debug") {
        Some(if ja { "DEBUG: INFOに加えてデバッグ情報" } else { "DEBUG: INFO plus debugging information" })
    } else if str_eq(key, "logging.trace") {
        Some(
            if ja {
                "TRACE: DEBUGに加えて最も詳細な内部処理"
            } else {
                "TRACE: DEBUG plus the most detailed internal processing"
            },
        )
    } else if str_eq(key, "logging.load_warning") {
        Some(
            if ja {
                "DEBUG/TRACEはログ量と処理負荷が大きくなる場合があります。"
            } else {
                "DEBUG/TRACE can significantly increase log volume and processing load."
            },
        )
    } else if str_eq(key, "language.title") {
        Some(if ja { "言語設定" } else { "Language Settings" })
    } else if str_eq(key, "language.description") {
        Some(if ja { "表示言語を実行中に切り替えます。" } else { "Change the display language at runtime." })
    } else if str_eq(key, "language.english") {
        Some("English")
    } else if str_eq(key, "language.japanese") {
        Some("日本語")
    } else {
        None
    }
}

/// The application text of `state` for `locale` and `key`, if registered.
pub open spec fn app_text(state: Option<LocalizationState>, locale: Seq<char>, key: Seq<char>) -> Option<
    Seq<char>,
> {
    match state {
        Some(s) => if s.texts().contains_key((locale, key)) {
            Some(s.texts()[(locale, key)])
        } else {
            None
        },
        None => None,
    }
}

/// The display text for `key`: the framework's text in the current locale;
/// else the application's text in the current locale; else (when the
/// current locale is not English) the application's English text; else the
/// framework's English text; else the key itself.
pub open spec fn spec_text(state: Option<LocalizationState>, key: Seq<char>) -> Seq<char> {
    let locale = spec_current_locale(state);
    let english = "en-US"@;
    if framework_text_spec(locale, key) is Some {
        framework_text_spec(locale, key)->0
    } else if app_text(state, locale, key) is Some {
        app_text(state, locale, key)->0
    } else if locale != english && app_text(state, english, key) is Some {
        app_text(state, english, key)->0
    } else if framework_text_spec(english, key) is Some {
        framework_text_spec(english, key)->0
    } else {
        key
    }
}

/// The display text for `key` in the current locale.
pub fn text(state: &Option<LocalizationState>, key: &str) -> (r: String)
    ensures
        r@ == spec_text(*state, key@),
{
    let locale = current_locale(state);
    if let Some(v) = framework_text(locale.as_str(), key) {
        return v.to_owned();
    }
    proof {
        reveal_strlit("en-US");
    }
    if let Some(s) = state {
        if let Some(v) = s.lookup(locale.as_str(), key) {
            return v;
        }
        if !string_eq_str(&locale, EN_US) {
            if let Some(v) = s.lookup(EN_US, key) {
                return v;
            }
        }
    }
    match framework_text(EN_US, key) {
        Some(v) => v.to_owned(),
        None => key.to_owned(),
    }
}

/// The display name of `locale`: the text of `language.english` for
/// English, of `language.japanese` for Japanese, else the locale itself.
pub open spec fn spec_locale_name(state: Option<LocalizationState>, locale: Seq<char>) -> Seq<char> {
    if locale == "en-US"@ {
        spec_text(state, "language.english"@)
    } else if locale == "ja-JP"@ {
        spec_text(state, "language.japanese"@)
    } else {
        locale
    }
}

/// The supported locales, in order, each with its display name.
pub fn locales(state: &Option<LocalizationState>) -> (r: Vec<(String, String)>)
    ensures
        r@.len() == spec_supported_locales(*state).len(),
        forall|i: int|
            0 <= i < r@.len() ==> (#[trigger] r@[i]).0@ == spec_supported_locales(*state)[i] && r@[i].1@
                == spec_locale_name(*state, r@[i].0@),
{
    let supported = supported_locales(state);
    let mut r: Vec<(String, String)> = Vec::new();
    let mut i: usize = 0;
    proof {
        reveal_strlit("en-US");
        reveal_strlit("ja-JP");
        reveal_strlit("language.english");
        reveal_strlit("language.japanese");
    }
    while i < supported.len()
        invariant
            0 <= i <= supported.len(),
            texts_of(supported@) == spec_supported_locales(*state),
            r@.len() == i,
            forall|j: int|
                0 <= j < i ==> (#[trigger] r@[j]).0@ == supported@[j]@ && r@[j].1@ == spec_locale_name(
                    *state,
                    r@[j].0@,
                ),
        decreases supported.len() - i,
    {
        let locale = supported[i].clone();
        let name = if string_eq_str(&locale, EN_US) {
            text(state, "language.english")
        } else if string_eq_str(&locale, JA_JP) {
            text(state, "language.japanese")
        } else {
            locale.clone()
        };
        r.push((locale, name));
        i = i + 1;
    }
    assert forall|j: int| 0 <= j < r@.len() implies (#[trigger] r@[j]).0@ == spec_supported_locales(*state)[j] by {
        assert(texts_of(supported@)[j] == supported@[j]@);
    }
    r
}

/// The settings key whose text describes `level`.
pub open spec fn level_key(level: LogLevel) -> Seq<char> {
    match level {
        LogLevel::Error => "logging.error"@,
        LogLevel::Warn => "logging.warn"@,
        LogLevel::Info => "logging.info"@,
        LogLevel::Debug => "logging.debug"@,
        LogLevel::Trace => "logging.trace"@,
    }
}

/// The name of `level` in capitals.
pub open spec fn level_name(level: LogLevel) -> Seq<char> {
    match level {
        LogLevel::Error => "ERROR"@,
        LogLevel::Warn => "WARN"@,
        LogLevel::Info => "INFO"@,
        LogLevel::Debug => "DEBUG"@,
        LogLevel::Trace => "TRACE"@,
    }
}

/// Whether `text` starts with the name of `level` followed by a colon.
pub open spec fn names_level(text: Seq<char>, level: LogLevel) -> bool {
    let name = level_name(level);
    &&& text.len() > name.len()
    &&& text.subrange(0, name.len() as int) == name
    &&& text[name.len() as int] == ':'
}

/// The framework describes every log level, in every locale, by a text
/// that starts with that level's name: the description shown for a level
/// in the logging settings is the description of that level.
pub proof fn law_level_texts_name_their_level(locale: Seq<char>, level: LogLevel)
    ensures
        framework_text_spec(locale, level_key(level)) is Some,
        names_level(framework_text_spec(locale, level_key(level))->0, level),
{
    reveal_strlit("logging.title");
    reveal_strlit("logging.framework_panel");
    reveal_strlit("logging.runtime_level");
    reveal_strlit("logging.description");
    reveal_strlit("logging.error");
    reveal_strlit("logging.warn");
    reveal_strlit("logging.info");
    reveal_strlit("logging.debug");
    reveal_strlit("logging.trace");
    reveal_strlit("logging.load_warning");
    reveal_strlit("language.title");
    reveal_strlit("language.description");
    reveal_strlit("language.english");
    reveal_strlit("language.japanese");
    reveal_strlit("ERROR: エラーのみ");
    reveal_strlit("ERROR: errors only");
    reveal_strlit("WARN: 警告とエラー");
    reveal_strlit("WARN: warnings and errors");
    reveal_strlit("INFO: 通常の動作情報、警告、エラー（既定値）");
    reveal_strlit("INFO: normal operational information, warnings, and errors (default)");
    reveal_strlit("DEBUG: INFOに加えてデバッグ情報");
    reveal_strlit("DEBUG: INFO plus debugging information");
    reveal_strlit("TRACE: DEBUGに加えて最も詳細な内部処理");
    reveal_strlit("TRACE: DEBUG plus the most detailed internal processing");
    reveal_strlit("ERROR");
    reveal_strlit("WARN");
    reveal_strlit("INFO");
    reveal_strlit("DEBUG");
    reveal_strlit("TRACE");
    reveal_strlit("ja-JP");
    assert("logging.title"@.len() == 13);
    assert("logging.framework_panel"@.len() == 23);
    assert("logging.runtime_level"@.len() == 21);
    assert("logging.description"@.len() == 19);
    assert("logging.error"@.len() == 13);
    assert("logging.warn"@.len() == 12);
    assert("logging.info"@.len() == 12);
    assert("logging.debug"@.len() == 13);
    assert("logging.trace"@.len() == 13);
    assert("logging.load_warning"@.len() == 20);
    assert("language.title"@.len() == 14);
    assert("language.description"@.len() == 20);
    assert("language.english"@.len() == 16);
    assert("language.japanese"@.len() == 17);
    lemma_texts_differ("logging.title"@, "logging.error"@, 8);
    lemma_texts_differ("logging.title"@, "logging.debug"@, 8);
    lemma_texts_differ("logging.title"@, "logging.trace"@, 9);
    lemma_texts_differ("logging.error"@, "logging.debug"@, 8);
    lemma_texts_differ("logging.error"@, "logging.trace"@, 8);
    lemma_texts_differ("logging.warn"@, "logging.info"@, 8);
    lemma_texts_differ("logging.debug"@, "logging.trace"@, 8);
    lemma_texts_differ("logging.load_warning"@, "language.description"@, 1);
    let t = framework_text_spec(locale, level_key(level))->0;
    let n = level_name(level).len() as int;
    assert(t.subrange(0, n) =~= level_name(level));
}

/// Whatever the state, the text displayed for a log level's key names that
/// level.
pub proof fn law_displayed_level_texts_name_their_level(state: Option<LocalizationState>, level: LogLevel)
    ensures
        names_level(spec_text(state, level_key(level)), level),
{
    law_level_texts_name_their_level(spec_current_locale(state), level);
}

/// Whether `c` is a character of Japanese script or punctuation (U+3000
/// and above).
pub open spec fn is_japanese_char(c: char) -> bool {
    c as int >= 0x3000
}

/// The framework's texts are in the language of their locale: for each key
/// it defines, other than the names of the two languages, the Japanese text
/// holds a Japanese character, and the English text begins with an ASCII
/// character and differs from the Japanese one.
pub proof fn law_framework_texts_match_locale(key: Seq<char>)
    requires
        framework_text_spec("en-US"@, key) is Some,
        key != "language.english"@,
        key != "language.japanese"@,
    ensures
        framework_text_spec("ja-JP"@, key) is Some,
        exists|k: int|
            0 <= k < framework_text_spec("ja-JP"@, key)->0.len() && is_japanese_char(
                #[trigger] framework_text_spec("ja-JP"@, key)->0[k],
            ),
        framework_text_spec("en-US"@, key)->0.len() > 0,
        framework_text_spec("en-US"@, key)->0[0] as int <= 0x7f,
        framework_text_spec("en-US"@, key)->0 != framework_text_spec("ja-JP"@, key)->0,
{
    reveal_strlit("logging.title");
    reveal_strlit("logging.framework_panel");
    reveal_strlit("logging.runtime_level");
    reveal_strlit("logging.description");
    reveal_strlit("logging.error");
    reveal_strlit("logging.warn");
    reveal_strlit("logging.info");
    reveal_strlit("logging.debug");
    reveal_strlit("logging.trace");
    reveal_strlit("logging.load_warning");
    reveal_strlit("language.title");
    reveal_strlit("language.description");
    reveal_strlit("language.english");
    reveal_strlit("language.japanese");
    reveal_strlit("ログ設定");
    reveal_strlit("Logging Settings");
    reveal_strlit("Framework 標準パネル");
    reveal_strlit("Framework standard panel");
    reveal_strlit("実行時ログレベル");
    reveal_strlit("Runtime Log Level");
    reveal_strlit("実行中に記録する最小重要度を指定します。変更はコンソール、ファイル、メモリ出力へ即時反映されます。");
    reveal_strlit("Controls the minimum severity recorded at runtime. Changes apply immediately to console, file, and in-memory output.");
    reveal_strlit("ERROR: エラーのみ");
    reveal_strlit("ERROR: errors only");
    reveal_strlit("WARN: 警告とエラー");
    reveal_strlit("WARN: warnings and errors");
    reveal_strlit("INFO: 通常の動作情報、警告、エラー（既定値）");
    reveal_strlit("INFO: normal operational information, warnings, and errors (default)");
    reveal_strlit("DEBUG: INFOに加えてデバッグ情報");
    reveal_strlit("DEBUG: INFO plus debugging information");
    reveal_strlit("TRACE: DEBUGに加えて最も詳細な内部処理");
    reveal_strlit("TRACE: DEBUG plus the most detailed internal processing");
    reveal_strlit("DEBUG/TRACEはログ量と処理負荷が大きくなる場合があります。");
    reveal_strlit("DEBUG/TRACE can significantly increase log volume and processing load.");
    reveal_strlit("言語設定");
    reveal_strlit("Language Settings");
    reveal_strlit("表示言語を実行中に切り替えます。");
    reveal_strlit("Change the display language at runtime.");
    reveal_strlit("ja-JP");
    reveal_strlit("en-US");
    assert("logging.title"@.len() == 13);
    assert("logging.framework_panel"@.len() == 23);
    assert("logging.runtime_level"@.len() == 21);
    assert("logging.description"@.len() == 19);
    assert("logging.error"@.len() == 13);
    assert("logging.warn"@.len() == 12);
    assert("logging.info"@.len() == 12);
    assert("logging.debug"@.len() == 13);
    assert("logging.trace"@.len() == 13);
    assert("logging.load_warning"@.len() == 20);
    assert("language.title"@.len() == 14);
    assert("language.description"@.len() == 20);
    assert("language.english"@.len() == 16);
    assert("language.japanese"@.len() == 17);
    lemma_texts_differ("logging.title"@, "logging.error"@, 8);
    lemma_texts_differ("logging.title"@, "logging.debug"@, 8);
    lemma_texts_differ("logging.title"@, "logging.trace"@, 9);
    lemma_texts_differ("logging.error"@, "logging.debug"@, 8);
    lemma_texts_differ("logging.error"@, "logging.trace"@, 8);
    lemma_texts_differ("logging.warn"@, "logging.info"@, 8);
    lemma_texts_differ("logging.debug"@, "logging.trace"@, 8);
    lemma_texts_differ("logging.load_warning"@, "language.description"@, 1);
    lemma_texts_differ("ja-JP"@, "en-US"@, 0);
    if key == "logging.title"@ {
        let ja_text = framework_text_spec("ja-JP"@, key)->0;
        let en_text = framework_text_spec("en-US"@, key)->0;
        assert(ja_text[0] as int >= 0x3000);
        assert(en_text[0] as int <= 0x7f);
        lemma_texts_differ(ja_text, en_text, 0);
    } else if key == "logging.framework_panel"@ {
        let ja_text = framework_text_spec("ja-JP"@, key)->0;
        let en_text = framework_text_spec("en-US"@, key)->0;
        assert(ja_text[10] as int >= 0x3000);
        assert(en_text[0] as int <= 0x7f);
        lemma_texts_differ(ja_text, en_text, 10);
    } else if key == "logging.runtime_level"@ {
        let ja_text = framework_text_spec("ja-JP"@, key)->0;
        let en_text = framework_text_spec("en-US"@, key)->0;
        assert(ja_text[0] as int >= 0x3000);
        assert(en_text[0] as int <= 0x7f);
        lemma_texts_differ(ja_text, en_text, 0);
    } else if key == "logging.description"@ {
        let ja_text = framework_text_spec("ja-JP"@, key)->0;
        let en_text = framework_text_spec("en-US"@, key)->0;
        assert(ja_text[0] as int >= 0x3000);
        assert(en_text[0] as int <= 0x7f);
        lemma_texts_differ(ja_text, en_text, 0);
    } else if key == "logging.error"@ {
        let ja_text = framework_text_spec("ja-JP"@, key)->0;
        let en_text = framework_text_spec("en-US"@, key)->0;
        assert(ja_text[7] as int >= 0x3000);
        assert(en_text[0] as int <= 0x7f);
        lemma_texts_differ(ja_text, en_text, 7);
    } else if key == "logging.warn"@ {
        let ja_text = framework_text_spec("ja-JP"@, key)->0;
        let en_text = framework_text_spec("en-US"@, key)->0;
        assert(ja_text[6] as int >= 0x3000);
        assert(en_text[0] as int <= 0x7f);
        lemma_texts_differ(ja_text, en_text, 6);
    } else if key == "logging.info"@ {
        let ja_text = framework_text_spec("ja-JP"@, key)->0;
        let en_text = framework_text_spec("en-US"@, key)->0;
        assert(ja_text[6] as int >= 0x3000);
        assert(en_text[0] as int <= 0x7f);
        lemma_texts_differ(ja_text, en_text, 6);
    } else if key == "logging.debug"@ {
        let ja_text = framework_text_spec("ja-JP"@, key)->0;
        let en_text = framework_text_spec("en-US"@, key)->0;
        assert(ja_text[11] as int >= 0x3000);
        assert(en_text[0] as int <= 0x7f);
        lemma_texts_differ(ja_text, en_text, 11);
    } else if key == "logging.trace"@ {
        let ja_text = framework_text_spec("ja-JP"@, key)->0;
        let en_text = framework_text_spec("en-US"@, key)->0;
        assert(ja_text[12] as int >= 0x3000);
        assert(en_text[0] as int <= 0x7f);
        lemma_texts_differ(ja_text, en_text, 12);
    } else if key == "logging.load_warning"@ {
        let ja_text = framework_text_spec("ja-JP"@, key)->0;
        let en_text = framework_text_spec("en-US"@, key)->0;
        assert(ja_text[11] as int >= 0x3000);
        assert(en_text[0] as int <= 0x7f);
        lemma_texts_differ(ja_text, en_text, 11);
    } else if key == "language.title"@ {
        let ja_text = framework_text_spec("ja-JP"@, key)->0;
        let en_text = framework_text_spec("en-US"@, key)->0;
        assert(ja_text[0] as int >= 0x3000);
        assert(en_text[0] as int <= 0x7f);
        lemma_texts_differ(ja_text, en_text, 0);
    } else if key == "language.description"@ {
        let ja_text = framework_text_spec("ja-JP"@, key)->0;
        let en_text = framework_text_spec("en-US"@, key)->0;
        assert(ja_text[0] as int >= 0x3000);
        assert(en_text[0] as int <= 0x7f);
        lemma_texts_differ(ja_text, en_text, 0);
    }
}

/// The current locale is always one of the supported locales.
pub proof fn law_current_locale_is_supported(state: Option<LocalizationState>)
    requires
        state_wf(state),
        state is Some,
    ensures
        spec_supported_locales(state).contains(spec_current_locale(state)),
{
    let s = state->0;
    let j = choose|j: int| 0 <= j < s.supported@.len() && #[trigger] s.supported@[j]@ == s.current@;
    assert(s.supported()[j] == s.current());
}

/// A text registered for the current locale is what `text` reads back for
/// its key, unless the framework defines that key itself.
pub proof fn law_registered_text_is_read_back(
    before: LocalizationState,
    after: LocalizationState,
    key: Seq<char>,
    value: Seq<char>,
)
    requires
        after.current() == before.current(),
        after.texts() == before.texts().insert((before.current(), key), value),
        framework_text_spec(before.current(), key) is None,
    ensures
        spec_text(Some(after), key) == value,
{
}

/// The framework's own texts take priority over application texts
/// registered under the same key.
pub proof fn law_framework_text_takes_priority(state: Option<LocalizationState>, key: Seq<char>)
    requires
        framework_text_spec(spec_current_locale(state), key) is Some,
    ensures
        spec_text(state, key) == framework_text_spec(spec_current_locale(state), key)->0,
{
}

/// A key that neither the framework nor the application defines, in the
/// current locale or in English, is displayed as the key itself.
pub proof fn law_unknown_key_displays_itself(state: Option<LocalizationState>, key: Seq<char>)
    requires
        framework_text_spec(spec_current_locale(state), key) is None,
        app_text(state, spec_current_locale(state), key) is None,
        app_text(state, "en-US"@, key) is None,
    ensures
        spec_text(state, key) == key,
{
}

/// Without an application text in the current locale, an application text
/// registered in English is displayed.
pub proof fn law_english_fallback(state: Option<LocalizationState>, key: Seq<char>)
    requires
        framework_text_spec(spec_current_locale(state), key) is None,
        app_text(state, spec_current_locale(state), key) is None,
        app_text(state, "en-US"@, key) is Some,
    ensures
        spec_text(state, key) == app_text(state, "en-US"@, key)->0,
{
}

} // verus!
