//! Local-inference settings: their defaults, how a configuration is
//! normalized and validated, and which model is in effect.
use vstd::prelude::*;

use std::str::FromStr;

use crate::text::{
    chars_of, is_blank, is_blank_str, is_trimmed, is_white_space, lemma_trim_idempotent,
    lemma_trim_is_trimmed, lemma_trimmed_fixed, owned, same_text, trim, trimmed,
};

verus! {

pub const DEFAULT_OLLAMA_BASE_URL: &'static str = "http://localhost:11434";

/// The environment variable whose value overrides the saved model.
pub const MODEL_OVERRIDE_ENV: &'static str = "SNIPPET_OLLAMA_MODEL";

/// The name of the settings file in the application's config directory.
pub const SETTINGS_FILE_NAME: &'static str = "settings.json";

// ---------------------------------------------------------------------------
// Outside computations
// ---------------------------------------------------------------------------

/// The id of the global shortcut that `text` describes, or `None` when it
/// describes none: what `tauri_plugin_global_shortcut::Shortcut::from_str`
/// gives, read through the shortcut's `id`.
pub uninterp spec fn parsed_shortcut_id(text: Seq<char>) -> Option<u32>;

/// Calls `Shortcut::from_str` (`tauri_plugin_global_shortcut::Shortcut` is
/// `global_hotkey::hotkey::HotKey`) and, when it parses, reads its `id`.
/// The claim: the result is a function of `text` alone. In the crate's
/// source, parsing splits on `+`, reads modifier names and one key name, and
/// the id is `(modifier bits << 16) | key code`; none of that is stated here.
#[verifier::external_body]
fn shortcut_id(text: &str) -> (r: Option<u32>)
    ensures
        r == parsed_shortcut_id(text@),
{
    match global_hotkey::hotkey::HotKey::from_str(text) {
        Ok(shortcut) => Some(shortcut.id),
        Err(_) => None,
    }
}

/// The parts of a parsed URL that the settings read.
pub struct UrlParts {
    pub scheme: String,
    pub host: Option<String>,
}

/// The scheme and host of the absolute URL `text`, or the parser's
/// description of why `text` is not one: what `reqwest::Url::parse`
/// followed by `Url::scheme` and `Url::host_str` gives, or the `Display` of
/// its `ParseError`.
pub uninterp spec fn parsed_url(text: Seq<char>) -> Result<
    (Seq<char>, Option<Seq<char>>),
    Seq<char>,
>;

/// Calls `reqwest::Url::parse` (the `url` crate's WHATWG parser) and copies
/// out the scheme and host, or the error's text. The claim: the result is a
/// function of `text` alone; what the parser accepts is not stated.
#[verifier::external_body]
pub(crate) fn parse_url(text: &str) -> (r: Result<UrlParts, String>)
    ensures
        match parsed_url(text@) {
            Ok((scheme, host)) => r matches Ok(parts) && parts.scheme@ == scheme && match host {
                Some(h) => parts.host matches Some(ph) && ph@ == h,
                None => parts.host is None,
            },
            Err(message) => r matches Err(m) && m@ == message,
        },
{
    match reqwest::Url::parse(text) {
        Ok(url) => Ok(
            UrlParts {
                scheme: url.scheme().to_owned(),
                host: match url.host_str() {
                    Some(host) => Some(host.to_owned()),
                    None => None,
                },
            },
        ),
        Err(error) => Err(error.to_string()),
    }
}

// ---------------------------------------------------------------------------
// Addresses
// ---------------------------------------------------------------------------

/// `s` without its trailing `c` characters.
pub open spec fn trim_end_char(s: Seq<char>, c: char) -> Seq<char>
    decreases s.len(),
{
    if s.len() > 0 && s.last() == c {
        trim_end_char(s.drop_last(), c)
    } else {
        s
    }
}

/// The address as it is kept: trimmed, without trailing slashes.
pub open spec fn normalized_address(raw: Seq<char>) -> Seq<char> {
    trim_end_char(trim(raw), '/')
}

/// `scheme` is `http` or `https`.
pub open spec fn is_web_scheme(scheme: Seq<char>) -> bool {
    scheme == "http"@ || scheme == "https"@
}

/// Whether `parts` has an `http` or `https` scheme and a host.
pub fn is_web_url(parts: &UrlParts) -> (r: bool)
    ensures
        r == (is_web_scheme(parts.scheme@) && parts.host is Some),
{
    (same_text(parts.scheme.as_str(), "http") || same_text(parts.scheme.as_str(), "https"))
        && parts.host.is_some()
}

/// `address` is a non-empty absolute `http` or `https` URL with a host.
pub open spec fn is_ollama_address(address: Seq<char>) -> bool {
    &&& address.len() > 0
    &&& parsed_url(address) matches Ok((scheme, host))
    &&& is_web_scheme(scheme)
    &&& host is Some
}

/// `s` without its trailing `c` characters.
pub fn without_trailing(s: &str, c: char) -> (r: String)
    ensures
        r@ == trim_end_char(s@, c),
{
    let v = chars_of(s);
    let mut end = v.len();
    assert(v@.subrange(0, end as int) =~= v@);
    while end > 0 && v[end - 1] == c
        invariant
            end <= v.len(),
            v@ == s@,
            trim_end_char(s@, c) == trim_end_char(v@.subrange(0, end as int), c),
        decreases end,
    {
        proof {
            assert(v@.subrange(0, end as int).drop_last() =~= v@.subrange(0, end - 1));
        }
        end = end - 1;
    }
    s.substring_char(0, end).to_owned()
}

/// Whether `address` is a non-empty `http` or `https` URL with a host.
pub fn check_ollama_address(address: &str) -> (r: bool)
    ensures
        r == is_ollama_address(address@),
{
    if address.is_empty() {
        return false;
    }
    match parse_url(address) {
        Ok(parts) => is_web_url(&parts),
        Err(_) => false,
    }
}

// ---------------------------------------------------------------------------
// Errors
// ---------------------------------------------------------------------------

#[derive(Debug, Clone, PartialEq, Eq)]
pub enum SettingsError {
    InvalidBaseUrl,
    InvalidShortcut(String),
    DuplicateShortcut,
    Read(String),
    Write(String),
}

/// The text shown to the user for a settings error.
pub open spec fn settings_error_text(error: SettingsError) -> Seq<char> {
    match error {
        SettingsError::InvalidBaseUrl => "Enter a valid http:// or https:// Ollama address."@,
        SettingsError::InvalidShortcut(action) => action@
            + " needs a shortcut such as Ctrl+Shift+S, or leave it blank to disable it."@,
        SettingsError::DuplicateShortcut => "Each shortcut needs a different key combination."@,
        SettingsError::Read(error) => "Snippet could not read its saved settings: "@ + error@,
        SettingsError::Write(error) => "Snippet could not save your settings: "@ + error@,
    }
}

impl SettingsError {
    pub fn user_message(&self) -> (r: String)
        ensures
            r@ == settings_error_text(*self),
    {
        match self {
            SettingsError::InvalidBaseUrl => owned(
                "Enter a valid http:// or https:// Ollama address.",
            ),
            SettingsError::InvalidShortcut(action) => {
                let mut message = owned(action.as_str());
                message.append(
                    " needs a shortcut such as Ctrl+Shift+S, or leave it blank to disable it.",
                );
                message
            },
            SettingsError::DuplicateShortcut => owned(
                "Each shortcut needs a different key combination.",
            ),
            SettingsError::Read(error) => {
                let mut message = owned("Snippet could not read its saved settings: ");
                message.append(error.as_str());
                message
            },
            SettingsError::Write(error) => {
                let mut message = owned("Snippet could not save your settings: ");
                message.append(error.as_str());
                message
            },
        }
    }
}

// ---------------------------------------------------------------------------
// Shortcuts
// ---------------------------------------------------------------------------

#[derive(Debug, Clone, PartialEq, Eq)]
pub struct ShortcutConfig {
    pub open_popup: String,
    pub summarize: String,
    pub explain: String,
    pub refine: String,
}

/// The shortcuts a new installation starts with.
pub open spec fn is_default_shortcuts(c: ShortcutConfig) -> bool {
    &&& c.open_popup@ == "Ctrl+Shift+Space"@
    &&& c.summarize@ == "Ctrl+Shift+S"@
    &&& c.explain@ == "Ctrl+Shift+E"@
    &&& c.refine@ == "Ctrl+Shift+R"@
}

/// The name under which the shortcut in position `index` is shown.
pub open spec fn shortcut_label(index: u8) -> Seq<char> {
    if index == 0 {
        "Open popup"@
    } else if index == 1 {
        "Summarize"@
    } else if index == 2 {
        "Explain"@
    } else {
        "Refine"@
    }
}

/// Why a set of shortcuts is refused.
#[derive(Debug, Clone, Copy, PartialEq, Eq, Structural)]
pub enum ShortcutIssue {
    /// The shortcut in this position describes no key combination.
    Invalid(u8),
    /// Two shortcuts describe the same key combination.
    Duplicate,
}

/// Checks one more shortcut after those that gave `checked`: a blank one is
/// left out, one that does not parse is invalid, one that repeats an earlier
/// id is a duplicate.
pub open spec fn check_shortcut_step(
    checked: Result<Seq<u32>, ShortcutIssue>,
    value: Seq<char>,
    index: u8,
) -> Result<Seq<u32>, ShortcutIssue> {
    match checked {
        Err(issue) => Err(issue),
        Ok(ids) => if value.len() == 0 {
            Ok(ids)
        } else {
            match parsed_shortcut_id(value) {
                None => Err(ShortcutIssue::Invalid(index)),
                Some(id) => if ids.contains(id) {
                    Err(ShortcutIssue::Duplicate)
                } else {
                    Ok(ids.push(id))
                },
            }
        },
    }
}

/// The ids of the shortcuts that are set, in order, or the first issue.
pub open spec fn check_shortcuts(
    open_popup: Seq<char>,
    summarize: Seq<char>,
    explain: Seq<char>,
    refine: Seq<char>,
) -> Result<Seq<u32>, ShortcutIssue> {
    check_shortcut_step(
        check_shortcut_step(
            check_shortcut_step(
                check_shortcut_step(Ok(Seq::empty()), open_popup, 0),
                summarize,
                1,
            ),
            explain,
            2,
        ),
        refine,
        3,
    )
}

/// The issue of `config`'s shortcuts, once trimmed, if any.
pub open spec fn shortcut_issue(config: ShortcutConfig) -> Option<ShortcutIssue> {
    match check_shortcuts(
        trim(config.open_popup@),
        trim(config.summarize@),
        trim(config.explain@),
        trim(config.refine@),
    ) {
        Ok(_) => None,
        Err(issue) => Some(issue),
    }
}

/// The trimmed shortcuts of `config`, in the order they are checked.
pub open spec fn shortcut_values(config: ShortcutConfig) -> Seq<Seq<char>> {
    seq![
        trim(config.open_popup@),
        trim(config.summarize@),
        trim(config.explain@),
        trim(config.refine@),
    ]
}

/// A step that succeeds started from a success.
proof fn lemma_step_needs_ok(checked: Result<Seq<u32>, ShortcutIssue>, value: Seq<char>, index: u8)
    requires
        check_shortcut_step(checked, value, index) is Ok,
    ensures
        checked is Ok,
{
}

/// A step keeps the ids checked before it.
proof fn lemma_step_keeps(
    checked: Result<Seq<u32>, ShortcutIssue>,
    value: Seq<char>,
    index: u8,
    id: u32,
)
    requires
        checked is Ok,
        checked->Ok_0.contains(id),
        check_shortcut_step(checked, value, index) is Ok,
    ensures
        check_shortcut_step(checked, value, index)->Ok_0.contains(id),
{
    let ids = checked->Ok_0;
    if value.len() > 0 {
        let new_id = parsed_shortcut_id(value)->Some_0;
        let k = choose|k: int| 0 <= k < ids.len() && ids[k] == id;
        assert(ids.push(new_id)[k] == id);
    }
}

/// A step on a set shortcut that succeeds adds its id, which was not among
/// the ids before.
proof fn lemma_step_adds(checked: Result<Seq<u32>, ShortcutIssue>, value: Seq<char>, index: u8)
    requires
        check_shortcut_step(checked, value, index) is Ok,
        value.len() > 0,
    ensures
        checked is Ok,
        parsed_shortcut_id(value) is Some,
        !checked->Ok_0.contains(parsed_shortcut_id(value)->Some_0),
        check_shortcut_step(checked, value, index)->Ok_0.contains(parsed_shortcut_id(value)->Some_0),
{
    let ids = checked->Ok_0;
    let id = parsed_shortcut_id(value)->Some_0;
    assert(ids.push(id)[ids.len() as int] == id);
}

/// Accepted shortcuts are told apart: every shortcut that is set describes a
/// key combination, and any two set shortcuts, in whatever positions,
/// describe different ones. A repeated combination anywhere is refused.
pub proof fn accepted_shortcuts_are_distinct(config: ShortcutConfig, i: int, j: int)
    requires
        shortcut_issue(config) is None,
        0 <= i < j < 4,
        shortcut_values(config)[i].len() > 0,
        shortcut_values(config)[j].len() > 0,
    ensures
        parsed_shortcut_id(shortcut_values(config)[i]) is Some,
        parsed_shortcut_id(shortcut_values(config)[j]) is Some,
        parsed_shortcut_id(shortcut_values(config)[i]) != parsed_shortcut_id(
            shortcut_values(config)[j],
        ),
{
    let v = shortcut_values(config);
    let r0: Result<Seq<u32>, ShortcutIssue> = Ok(Seq::empty());
    let r1 = check_shortcut_step(r0, v[0], 0);
    let r2 = check_shortcut_step(r1, v[1], 1);
    let r3 = check_shortcut_step(r2, v[2], 2);
    let r4 = check_shortcut_step(r3, v[3], 3);
    assert(r4 is Ok);
    lemma_step_needs_ok(r3, v[3], 3);
    lemma_step_needs_ok(r2, v[2], 2);
    lemma_step_needs_ok(r1, v[1], 1);
    let rs = seq![r0, r1, r2, r3, r4];
    assert forall|k: int| 0 <= k < 4 implies #[trigger] rs[k + 1] == check_shortcut_step(
        rs[k],
        v[k],
        k as u8,
    ) && rs[k + 1] is Ok by {
        if k == 0 {
        } else if k == 1 {
        } else if k == 2 {
        } else {
        }
    }
    let first = parsed_shortcut_id(v[i]);
    assert(rs[i + 1] == check_shortcut_step(rs[i], v[i], i as u8));
    lemma_step_adds(rs[i], v[i], i as u8);
    let id = first->Some_0;
    if i + 1 < j {
        assert(rs[i + 2] == check_shortcut_step(rs[i + 1], v[i + 1], (i + 1) as u8));
        lemma_step_keeps(rs[i + 1], v[i + 1], (i + 1) as u8, id);
    }
    if i + 2 < j {
        assert(rs[i + 3] == check_shortcut_step(rs[i + 2], v[i + 2], (i + 2) as u8));
        lemma_step_keeps(rs[i + 2], v[i + 2], (i + 2) as u8, id);
    }
    assert(rs[j]->Ok_0.contains(id));
    assert(rs[j + 1] == check_shortcut_step(rs[j], v[j], j as u8));
    lemma_step_adds(rs[j], v[j], j as u8);
}

/// `error` reports `issue`.
pub open spec fn reports_issue(error: SettingsError, issue: ShortcutIssue) -> bool {
    match issue {
        ShortcutIssue::Invalid(index) => error matches SettingsError::InvalidShortcut(name)
            && name@ == shortcut_label(index),
        ShortcutIssue::Duplicate => error == SettingsError::DuplicateShortcut,
    }
}

/// `normal` holds the trimmed shortcuts of `config`.
pub open spec fn shortcuts_trimmed(normal: ShortcutConfig, config: ShortcutConfig) -> bool {
    &&& normal.open_popup@ == trim(config.open_popup@)
    &&& normal.summarize@ == trim(config.summarize@)
    &&& normal.explain@ == trim(config.explain@)
    &&& normal.refine@ == trim(config.refine@)
}

/// Whether `ids` holds `id`.
fn contains_id(ids: &Vec<u32>, id: u32) -> (r: bool)
    ensures
        r == ids@.contains(id),
{
    let mut i: usize = 0;
    while i < ids.len()
        invariant
            i <= ids.len(),
            forall|j: int| 0 <= j < i ==> ids@[j] != id,
        decreases ids.len() - i,
    {
        if ids[i] == id {
            return true;
        }
        i = i + 1;
    }
    false
}

fn check_shortcut(value: &str, index: u8, ids: &mut Vec<u32>) -> (r: Result<(), ShortcutIssue>)
    ensures
        match check_shortcut_step(Ok(old(ids)@), value@, index) {
            Ok(new_ids) => r is Ok && final(ids)@ == new_ids,
            Err(issue) => r == Err::<(), ShortcutIssue>(issue),
        },
{
    if value.is_empty() {
        return Ok(());
    }
    match shortcut_id(value) {
        None => Err(ShortcutIssue::Invalid(index)),
        Some(id) => {
            if contains_id(ids, id) {
                Err(ShortcutIssue::Duplicate)
            } else {
                ids.push(id);
                Ok(())
            }
        },
    }
}

impl Default for ShortcutConfig {
    fn default() -> (r: Self)
        ensures
            is_default_shortcuts(r),
    {
        ShortcutConfig {
            open_popup: owned("Ctrl+Shift+Space"),
            summarize: owned("Ctrl+Shift+S"),
            explain: owned("Ctrl+Shift+E"),
            refine: owned("Ctrl+Shift+R"),
        }
    }
}

impl ShortcutConfig {

    /// Each action's name with its shortcut.
    pub fn bindings(&self) -> (r: [(&str, &str); 4])
        ensures
            r@[0].0@ == shortcut_label(0) && r@[0].1@ == self.open_popup@,
            r@[1].0@ == shortcut_label(1) && r@[1].1@ == self.summarize@,
            r@[2].0@ == shortcut_label(2) && r@[2].1@ == self.explain@,
            r@[3].0@ == shortcut_label(3) && r@[3].1@ == self.refine@,
    {
        [
            ("Open popup", self.open_popup.as_str()),
            ("Summarize", self.summarize.as_str()),
            ("Explain", self.explain.as_str()),
            ("Refine", self.refine.as_str()),
        ]
    }

    /// The shortcuts trimmed; blank ones are disabled. Every shortcut that is
    /// set must describe a key combination, and no two the same one.
    pub fn normalized(self) -> (r: Result<Self, SettingsError>)
        ensures
            match shortcut_issue(self) {
                None => r matches Ok(normal) && shortcuts_trimmed(normal, self),
                Some(issue) => r matches Err(error) && reports_issue(error, issue),
            },
    {
        let open_popup = trimmed(self.open_popup.as_str());
        let summarize = trimmed(self.summarize.as_str());
        let explain = trimmed(self.explain.as_str());
        let refine = trimmed(self.refine.as_str());
        let mut ids: Vec<u32> = Vec::new();
        let mut outcome = check_shortcut(open_popup.as_str(), 0, &mut ids);
        if outcome.is_ok() {
            outcome = check_shortcut(summarize.as_str(), 1, &mut ids);
        }
        if outcome.is_ok() {
            outcome = check_shortcut(explain.as_str(), 2, &mut ids);
        }
        if outcome.is_ok() {
            outcome = check_shortcut(refine.as_str(), 3, &mut ids);
        }
        match outcome {
            Ok(()) => Ok(ShortcutConfig { open_popup, summarize, explain, refine }),
            Err(ShortcutIssue::Duplicate) => Err(SettingsError::DuplicateShortcut),
            Err(ShortcutIssue::Invalid(index)) => {
                let name = if index == 0 {
                    "Open popup"
                } else if index == 1 {
                    "Summarize"
                } else if index == 2 {
                    "Explain"
                } else {
                    "Refine"
                };
                Err(SettingsError::InvalidShortcut(owned(name)))
            },
        }
    }
}

// ---------------------------------------------------------------------------
// Configuration
// ---------------------------------------------------------------------------

#[derive(Debug, Clone, PartialEq, Eq)]
pub struct AppConfig {
    pub ollama_base_url: String,
    pub model: Option<String>,
    pub thinking: bool,
    pub shortcuts: ShortcutConfig,
}

/// The configuration a new installation starts with: the local Ollama
/// server, no model, thinking off, the default shortcuts.
pub open spec fn is_default_config(c: AppConfig) -> bool {
    &&& c.ollama_base_url@ == DEFAULT_OLLAMA_BASE_URL@
    &&& c.model is None
    &&& !c.thinking
    &&& is_default_shortcuts(c.shortcuts)
}

/// The trimmed model name, absent when blank.
pub open spec fn normalized_model(model: Option<String>) -> Option<Seq<char>> {
    match model {
        Some(m) => if is_blank(m@) {
            None
        } else {
            Some(trim(m@))
        },
        None => None,
    }
}

/// `normal` is `config` normalized: the address trimmed and without
/// trailing slashes, the model trimmed (and dropped when blank), the
/// shortcuts trimmed, and `thinking` kept.
pub open spec fn is_normalized_config(normal: AppConfig, config: AppConfig) -> bool {
    &&& normal.ollama_base_url@ == normalized_address(config.ollama_base_url@)
    &&& match normalized_model(config.model) {
        Some(m) => normal.model matches Some(nm) && nm@ == m,
        None => normal.model is None,
    }
    &&& normal.thinking == config.thinking
    &&& shortcuts_trimmed(normal.shortcuts, config.shortcuts)
}

/// What normalizing `config` gives, in terms of its outcome: `Ok` when the
/// address and the shortcuts are valid, else the first problem.
pub open spec fn config_outcome(config: AppConfig, r: Result<AppConfig, SettingsError>) -> bool {
    if !is_ollama_address(normalized_address(config.ollama_base_url@)) {
        r == Err::<AppConfig, SettingsError>(SettingsError::InvalidBaseUrl)
    } else {
        match shortcut_issue(config.shortcuts) {
            None => r matches Ok(normal) && is_normalized_config(normal, config),
            Some(issue) => r matches Err(error) && reports_issue(error, issue),
        }
    }
}

/// The trimmed model name, absent when blank.
fn normalize_model(model: Option<String>) -> (r: Option<String>)
    ensures
        match normalized_model(model) {
            Some(m) => r matches Some(nm) && nm@ == m,
            None => r is None,
        },
{
    match model {
        Some(m) => {
            if is_blank_str(m.as_str()) {
                None
            } else {
                Some(trimmed(m.as_str()))
            }
        },
        None => None,
    }
}

impl Default for AppConfig {
    fn default() -> (r: Self)
        ensures
            is_default_config(r),
    {
        AppConfig {
            ollama_base_url: owned(DEFAULT_OLLAMA_BASE_URL),
            model: None,
            thinking: false,
            shortcuts: ShortcutConfig::default(),
        }
    }
}

impl AppConfig {

    /// The configuration normalized, or why it is refused: the address must
    /// be an `http` or `https` URL with a host, and the shortcuts valid.
    pub fn normalized(self) -> (r: Result<Self, SettingsError>)
        ensures
            config_outcome(self, r),
    {
        let base_url = without_trailing(trimmed(self.ollama_base_url.as_str()).as_str(), '/');
        if !check_ollama_address(base_url.as_str()) {
            return Err(SettingsError::InvalidBaseUrl);
        }
        let model = normalize_model(self.model);
        let shortcuts = match self.shortcuts.normalized() {
            Ok(shortcuts) => shortcuts,
            Err(error) => return Err(error),
        };
        Ok(AppConfig { ollama_base_url: base_url, model, thinking: self.thinking, shortcuts })
    }
}

// ---------------------------------------------------------------------------
// Model in effect
// ---------------------------------------------------------------------------

#[derive(Debug, Clone, Copy, PartialEq, Eq, Structural)]
pub enum ModelSource {
    Settings,
    Environment,
    Unset,
}

#[derive(Debug, Clone)]
pub struct SettingsSnapshot {
    pub config: AppConfig,
    pub effective_model: Option<String>,
    pub model_source: ModelSource,
}

/// The model in effect and where it comes from: a non-blank override from
/// the environment (trimmed) wins over the saved model.
pub open spec fn effective_model(
    config: AppConfig,
    environment_model: Option<String>,
) -> (Option<Seq<char>>, ModelSource) {
    match normalized_model(environment_model) {
        Some(m) => (Some(m), ModelSource::Environment),
        None => match config.model {
            Some(m) => (Some(m@), ModelSource::Settings),
            None => (None, ModelSource::Unset),
        },
    }
}

/// `snapshot` shows `config` with the model that is in effect.
pub open spec fn is_snapshot_of(
    snapshot: SettingsSnapshot,
    config: AppConfig,
    environment_model: Option<String>,
) -> bool {
    let (model, source) = effective_model(config, environment_model);
    &&& snapshot.config == config
    &&& snapshot.model_source == source
    &&& match model {
        Some(m) => snapshot.effective_model matches Some(em) && em@ == m,
        None => snapshot.effective_model is None,
    }
}

fn copy_text(value: &Option<String>) -> (r: Option<String>)
    ensures
        r == *value,
{
    match value {
        Some(v) => Some(v.clone()),
        None => None,
    }
}

fn copy_config(config: &AppConfig) -> (r: AppConfig)
    ensures
        r == *config,
{
    AppConfig {
        ollama_base_url: config.ollama_base_url.clone(),
        model: copy_text(&config.model),
        thinking: config.thinking,
        shortcuts: ShortcutConfig {
            open_popup: config.shortcuts.open_popup.clone(),
            summarize: config.shortcuts.summarize.clone(),
            explain: config.shortcuts.explain.clone(),
            refine: config.shortcuts.refine.clone(),
        },
    }
}

/// `config` with the model in effect; `environment_model` is the value of
/// `MODEL_OVERRIDE_ENV`, if it is set.
pub fn snapshot_for(config: AppConfig, environment_model: Option<String>) -> (r: SettingsSnapshot)
    ensures
        is_snapshot_of(r, config, environment_model),
{
    let environment = normalize_model(environment_model);
    match environment {
        Some(model) => SettingsSnapshot {
            config,
            effective_model: Some(model),
            model_source: ModelSource::Environment,
        },
        None => {
            let saved = copy_text(&config.model);
            match saved {
                Some(model) => SettingsSnapshot {
                    config,
                    effective_model: Some(model),
                    model_source: ModelSource::Settings,
                },
                None => SettingsSnapshot {
                    config,
                    effective_model: None,
                    model_source: ModelSource::Unset,
                },
            }
        },
    }
}

/// The settings in use. Reading and writing the settings file is left to
/// the caller, which hands in what it read and writes what `update` accepted.
pub struct SettingsStore {
    config: AppConfig,
}

impl SettingsStore {
    /// The configuration in use.
    pub closed spec fn config(&self) -> AppConfig {
        self.config
    }

    /// The store for a saved configuration (normalized, or refused), or for
    /// the default configuration when nothing was saved.
    pub fn load(saved: Option<AppConfig>) -> (r: Result<Self, SettingsError>)
        ensures
            match saved {
                None => r matches Ok(store) && is_default_config(store.config()),
                Some(config) => match r {
                    Ok(store) => config_outcome(config, Ok(store.config())),
                    Err(error) => config_outcome(config, Err(error)),
                },
            },
    {
        match saved {
            None => Ok(SettingsStore { config: AppConfig::default() }),
            Some(config) => match config.normalized() {
                Ok(config) => Ok(SettingsStore { config }),
                Err(error) => Err(error),
            },
        }
    }

    /// The configuration in use with the model in effect.
    pub fn snapshot(&self, environment_model: Option<String>) -> (r: SettingsSnapshot)
        ensures
            is_snapshot_of(r, self.config(), environment_model),
    {
        snapshot_for(copy_config(&self.config), environment_model)
    }

    /// Replaces the configuration in use by `config` normalized, and shows
    /// it; a configuration that is refused changes nothing.
    pub fn update(&mut self, config: AppConfig, environment_model: Option<String>) -> (r: Result<
        SettingsSnapshot,
        SettingsError,
    >)
        ensures
            match r {
                Ok(snapshot) => config_outcome(config, Ok(final(self).config()))
                    && is_snapshot_of(snapshot, final(self).config(), environment_model),
                Err(error) => config_outcome(config, Err(error)) && final(self).config() == old(
                    self,
                ).config(),
            },
    {
        match config.normalized() {
            Ok(normal) => Ok(self.replace(normal, environment_model)),
            Err(error) => Err(error),
        }
    }

    /// Puts `config`, as it is, in use, and shows it. For a configuration
    /// that `AppConfig::normalized` returned and that has been saved.
    pub fn replace(&mut self, config: AppConfig, environment_model: Option<String>) -> (r:
        SettingsSnapshot)
        ensures
            final(self).config() == config,
            is_snapshot_of(r, config, environment_model),
    {
        self.config = config;
        self.snapshot(environment_model)
    }
}

// ---------------------------------------------------------------------------
// Laws
// ---------------------------------------------------------------------------

proof fn lemma_trim_end_char_shape(s: Seq<char>, c: char)
    ensures
        trim_end_char(s, c).len() <= s.len(),
        trim_end_char(s, c) == s.subrange(0, trim_end_char(s, c).len() as int),
        trim_end_char(s, c).len() == 0 || trim_end_char(s, c).last() != c,
    decreases s.len(),
{
    if s.len() > 0 && s.last() == c {
        lemma_trim_end_char_shape(s.drop_last(), c);
        assert(s.drop_last().subrange(0, trim_end_char(s, c).len() as int) =~= s.subrange(
            0,
            trim_end_char(s, c).len() as int,
        ));
    } else {
        assert(s.subrange(0, s.len() as int) =~= s);
    }
}

/// A normalized address that does not end in whitespace is left as it is by
/// normalizing again.
proof fn lemma_address_idempotent(raw: Seq<char>)
    requires
        normalized_address(raw).len() > 0,
        !is_white_space(normalized_address(raw).last()),
    ensures
        normalized_address(normalized_address(raw)) == normalized_address(raw),
{
    let t = trim(raw);
    let a = normalized_address(raw);
    lemma_trim_is_trimmed(raw);
    lemma_trim_end_char_shape(t, '/');
    assert(a[0] == t[0]);
    assert(is_trimmed(a));
    lemma_trimmed_fixed(a);
    lemma_trim_end_char_shape(a, '/');
}

/// The shortcuts of `normal` are the trimmed ones of some configuration:
/// checking them again finds what checking the originals found.
proof fn lemma_shortcuts_idempotent(normal: ShortcutConfig, config: ShortcutConfig)
    requires
        shortcuts_trimmed(normal, config),
    ensures
        shortcut_issue(normal) == shortcut_issue(config),
        shortcuts_trimmed(normal, normal),
{
    lemma_trim_idempotent(config.open_popup@);
    lemma_trim_idempotent(config.summarize@);
    lemma_trim_idempotent(config.explain@);
    lemma_trim_idempotent(config.refine@);
}

/// Normalizing is idempotent: a configuration that normalization accepted
/// is accepted again and comes out unchanged. This holds whenever the
/// normalized address does not end in whitespace (an address such as
/// `"http://host/ /"` normalizes to `"http://host/ "`, which normalizes
/// further).
pub proof fn normalized_is_idempotent(config: AppConfig, normal: AppConfig)
    requires
        config_outcome(config, Ok(normal)),
        !is_white_space(normal.ollama_base_url@.last()),
    ensures
        config_outcome(normal, Ok(normal)),
{
    lemma_address_idempotent(config.ollama_base_url@);
    lemma_shortcuts_idempotent(normal.shortcuts, config.shortcuts);
    match config.model {
        Some(m) => {
            if !is_blank(m@) {
                lemma_trim_idempotent(m@);
            }
        },
        None => {},
    }
}

} // verus!
