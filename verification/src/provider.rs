//! AI providers, the OS credential store entries that hold their keys, and
//! the order in which a usable key is found.
use vstd::prelude::*;
use crate::text::{opt_view, is_blank, has_ws, trim, starts_with, is_blank_str, contains_whitespace, trim_str, str_equal, has_prefix, owned};

verus! {

/// What `str::to_lowercase` gives for a text (Unicode lowercase mapping).
pub uninterp spec fn lowercase(s: Seq<char>) -> Seq<char>;

/// ASCII letters 'A' to 'Z' mapped to 'a' to 'z', all else unchanged.
pub open spec fn ascii_lower(s: Seq<char>) -> Seq<char> {
    s.map_values(|c: char| if 'A' <= c && c <= 'Z' { ((c as u32) + 32) as char } else { c })
}

pub open spec fn all_ascii(s: Seq<char>) -> bool {
    forall|i: int| 0 <= i < s.len() ==> (#[trigger] s[i] as u32) < 128
}

/// Calls `str::to_lowercase`. The contract claims that the result is the
/// Unicode lowercase mapping of the argument, a function of the argument
/// alone, and, as the documentation of `to_ascii_lowercase` says of the two,
/// that on ASCII text it maps 'A'..'Z' to 'a'..'z' and keeps the rest.
#[verifier::external_body]
fn to_lowercase(s: &str) -> (r: String)
    ensures
        r@ == lowercase(s@),
        all_ascii(s@) ==> r@ == ascii_lower(s@),
{
    s.to_lowercase()
}

#[verifier::external_type_specification]
#[verifier::external_body]
pub struct ExEntry(keyring::Entry);

#[verifier::external_type_specification]
#[verifier::external_body]
pub struct ExKeyringError(keyring::Error);

/// Calls `keyring::Entry::new(service, user)` and keeps the two names beside
/// the entry it gives. The contract claims that an entry that comes back was
/// opened for exactly these names. Whether it comes back depends on the
/// credential builder installed in the process and on the platform's rules
/// for service and user names, so that is not stated (it panics only if the
/// crate's own builder lock was poisoned, which no input decides).
#[verifier::external_body]
fn new_keyring_entry(service: &str, user: &str) -> (r: Result<StoreEntry, keyring::Error>)
    ensures
        r matches Ok(e) ==> e.service_name() == service@ && e.account_name() == user@,
{
    match keyring::Entry::new(service, user) {
        Ok(entry) => Ok(StoreEntry { service: service.to_string(), account: user.to_string(), entry }),
        Err(e) => Err(e),
    }
}

/// The provider a lowercased, trimmed name selects: "local" is the old name
/// of 9Router.
pub open spec fn provider_id(name: Seq<char>) -> Option<Seq<char>> {
    if name == "local"@ || name == "nine_router"@ {
        Some("nine_router"@)
    } else if name == "groq"@ {
        Some("groq"@)
    } else {
        None
    }
}

/// The provider a user-given name selects, whatever its case and surrounding
/// whitespace: the trimmed name lowercased (for ASCII names, 'A'..'Z' to
/// 'a'..'z'; otherwise by Unicode's mapping).
pub open spec fn normalized_provider(provider: Seq<char>) -> Option<Seq<char>> {
    let name = trim(provider);
    provider_id(if all_ascii(name) { ascii_lower(name) } else { lowercase(name) })
}

/// The names the app itself passes select the providers they spell.
pub proof fn lemma_known_provider_names()
    ensures
        normalized_provider("groq"@) == Some("groq"@),
        normalized_provider("nine_router"@) == Some("nine_router"@),
        normalized_provider("local"@) == Some("nine_router"@),
{
    reveal_strlit("groq");
    reveal_strlit("nine_router");
    reveal_strlit("local");
    assert(trim("groq"@) == "groq"@);
    assert(trim("nine_router"@) == "nine_router"@);
    assert(trim("local"@) == "local"@);
    assert(ascii_lower("groq"@) =~= "groq"@);
    assert(ascii_lower("nine_router"@) =~= "nine_router"@);
    assert(ascii_lower("local"@) =~= "local"@);
}

pub open spec fn invalid_provider_message() -> Seq<char> {
    "Nhà cung cấp AI không hợp lệ"@
}

pub open spec fn store_unavailable_message() -> Seq<char> {
    "Không truy cập được kho mật khẩu hệ thống"@
}

/// The provider named by an already lowercased and trimmed name.
pub fn provider_from_lowercase(name: &str) -> (r: Result<&'static str, String>)
    ensures
        match r {
            Ok(p) => provider_id(name@) == Some(p@),
            Err(e) => provider_id(name@) is None && e@ == invalid_provider_message(),
        },
{
    if str_equal(name, "local") || str_equal(name, "nine_router") {
        Ok("nine_router")
    } else if str_equal(name, "groq") {
        Ok("groq")
    } else {
        Err(owned("Nhà cung cấp AI không hợp lệ"))
    }
}

/// "local" or "nine_router" select 9Router, "groq" selects Groq, in any case
/// and with surrounding whitespace; anything else is refused.
pub fn normalize_ai_provider(provider: &str) -> (r: Result<&'static str, String>)
    ensures
        match r {
            Ok(p) => normalized_provider(provider@) == Some(p@),
            Err(e) => normalized_provider(provider@) is None && e@ == invalid_provider_message(),
        },
        all_ascii(trim(provider@)) ==> normalized_provider(provider@) == provider_id(ascii_lower(trim(provider@))),
{
    let trimmed = trim_str(provider);
    let lower = to_lowercase(trimmed);
    provider_from_lowercase(lower.as_str())
}

/// The credential store account that holds a provider's key.
pub open spec fn key_account(provider_id: Seq<char>) -> Seq<char> {
    if provider_id == "groq"@ {
        "groq-asr-api-key"@
    } else {
        "9router-api-key"@
    }
}

pub open spec fn key_service() -> Seq<char> {
    "local.vietnote.desktop"@
}

/// The credential store account for a provider's key.
pub fn provider_key_account(provider: &str) -> (r: Result<&'static str, String>)
    ensures
        match r {
            Ok(a) => normalized_provider(provider@) is Some && a@ == key_account(normalized_provider(provider@)->0),
            Err(e) => normalized_provider(provider@) is None && e@ == invalid_provider_message(),
        },
{
    let id = normalize_ai_provider(provider)?;
    if str_equal(id, "groq") {
        Ok("groq-asr-api-key")
    } else {
        Ok("9router-api-key")
    }
}

/// A credential store entry together with the service and account it was
/// opened for.
pub struct StoreEntry {
    service: String,
    account: String,
    entry: keyring::Entry,
}

impl StoreEntry {
    /// The service the entry was opened for.
    pub closed spec fn service_name(&self) -> Seq<char> {
        self.service@
    }

    /// The account the entry was opened for.
    pub closed spec fn account_name(&self) -> Seq<char> {
        self.account@
    }

    pub fn service(&self) -> (r: &str)
        ensures
            r@ == self.service_name(),
    {
        self.service.as_str()
    }

    pub fn account(&self) -> (r: &str)
        ensures
            r@ == self.account_name(),
    {
        self.account.as_str()
    }

    /// The keyring entry, for reading, writing or deleting its password.
    pub fn keyring_entry(&self) -> &keyring::Entry {
        &self.entry
    }
}

/// An entry, or the message shown when the credential store cannot be used.
pub fn credential_entry(created: Result<StoreEntry, keyring::Error>) -> (r: Result<StoreEntry, String>)
    ensures
        created is Ok <==> r is Ok,
        r matches Ok(e) ==> (created matches Ok(c) && e == c),
        r matches Err(e) ==> e@ == store_unavailable_message(),
{
    match created {
        Ok(entry) => Ok(entry),
        Err(_) => Err(owned("Không truy cập được kho mật khẩu hệ thống")),
    }
}

/// The credential store entry that holds a provider's key: service
/// "local.vietnote.desktop", the provider's account.
pub fn provider_key_entry(provider: &str) -> (r: Result<StoreEntry, String>)
    ensures
        normalized_provider(provider@) is None ==> (r matches Err(e) && e@ == invalid_provider_message()),
        normalized_provider(provider@) is Some ==> (r matches Err(e) ==> e@ == store_unavailable_message()),
        r matches Ok(e) ==> {
            &&& normalized_provider(provider@) is Some
            &&& e.service_name() == key_service()
            &&& e.account_name() == key_account(normalized_provider(provider@)->0)
        },
{
    let account = provider_key_account(provider)?;
    credential_entry(new_keyring_entry("local.vietnote.desktop", account))
}

/// The credential store entry that holds the VietNote access key: service
/// "local.vietnote.desktop", account "vietnote-access-key".
pub fn access_key_entry() -> (r: Result<StoreEntry, String>)
    ensures
        r matches Err(e) ==> e@ == store_unavailable_message(),
        r matches Ok(e) ==> e.service_name() == key_service() && e.account_name() == "vietnote-access-key"@,
{
    credential_entry(new_keyring_entry("local.vietnote.desktop", "vietnote-access-key"))
}

/// What reading a password from the credential store gave.
pub enum CredentialRead {
    Found(String),
    Missing,
    Failed,
}

/// What deleting a password from the credential store gave.
pub enum CredentialRemoval {
    Removed,
    Missing,
    Failed,
}

pub open spec fn key_read_failed_message() -> Seq<char> {
    "Không đọc được API key từ kho mật khẩu hệ thống"@
}

/// A stored provider key: present, absent, or an error when the store failed.
pub fn stored_provider_key(read: CredentialRead) -> (r: Result<Option<String>, String>)
    ensures
        match read {
            CredentialRead::Found(v) => r matches Ok(Some(k)) && k@ == v@,
            CredentialRead::Missing => r matches Ok(None),
            CredentialRead::Failed => r matches Err(e) && e@ == key_read_failed_message(),
        },
{
    match read {
        CredentialRead::Found(v) => Ok(Some(v)),
        CredentialRead::Missing => Ok(None),
        CredentialRead::Failed => Err(owned("Không đọc được API key từ kho mật khẩu hệ thống")),
    }
}

/// A value kept only when it is not blank.
pub open spec fn nonblank(o: Option<Seq<char>>) -> Option<Seq<char>> {
    match o {
        Some(s) => if is_blank(s) { None } else { Some(s) },
        None => None,
    }
}

/// `o.filter(|s| !s.trim().is_empty())`.
pub fn keep_nonblank(o: Option<String>) -> (r: Option<String>)
    ensures
        opt_view(r) == nonblank(opt_view(o)),
{
    match o {
        Some(s) => if is_blank_str(s.as_str()) { None } else { Some(s) },
        None => None,
    }
}

/// The environment key of a provider: `GROQ_API_KEY` for Groq,
/// `NINE_ROUTER_API_KEY` for 9Router, when set and not blank.
pub open spec fn env_key(provider: Seq<char>, groq_env: Option<Seq<char>>, nine_router_env: Option<Seq<char>>) -> Option<Seq<char>> {
    match normalized_provider(provider) {
        None => None,
        Some(id) => env_key_of(id, groq_env, nine_router_env),
    }
}

/// The environment key of an already normalized provider.
pub open spec fn env_key_of(id: Seq<char>, groq_env: Option<Seq<char>>, nine_router_env: Option<Seq<char>>) -> Option<Seq<char>> {
    if id == "groq"@ { nonblank(groq_env) } else { nonblank(nine_router_env) }
}

fn env_key_of_provider_id(id: &str, groq_env: Option<String>, nine_router_env: Option<String>) -> (r: Option<String>)
    ensures
        opt_view(r) == env_key_of(id@, opt_view(groq_env), opt_view(nine_router_env)),
{
    if str_equal(id, "groq") { keep_nonblank(groq_env) } else { keep_nonblank(nine_router_env) }
}

/// The key a provider takes from the environment; `groq_env` and
/// `nine_router_env` are the values of `GROQ_API_KEY` and `NINE_ROUTER_API_KEY`.
pub fn provider_env_key(provider: &str, groq_env: Option<String>, nine_router_env: Option<String>) -> (r: Option<String>)
    ensures
        opt_view(r) == env_key(provider@, opt_view(groq_env), opt_view(nine_router_env)),
{
    match normalize_ai_provider(provider) {
        Err(_) => None,
        Ok(id) => env_key_of_provider_id(id, groq_env, nine_router_env),
    }
}

/// The Groq key compiled into the build, trimmed, when not blank.
pub open spec fn builtin_key(compiled: Option<Seq<char>>) -> Option<Seq<char>> {
    match compiled {
        Some(s) => if trim(s).len() > 0 { Some(trim(s)) } else { None },
        None => None,
    }
}

/// The Groq key compiled into the build (`VIETNOTE_BUILTIN_GROQ_API_KEY`),
/// trimmed, when it is not blank.
pub fn built_in_groq_key(compiled: Option<&str>) -> (r: Option<String>)
    ensures
        opt_view(r) == builtin_key(match compiled { Some(s) => Some(s@), None => None }),
{
    match compiled {
        Some(s) => {
            let t = trim_str(s);
            if t.unicode_len() > 0 { Some(owned(t)) } else { None }
        },
        None => None,
    }
}

/// The key a provider uses: the stored key first, then the environment key,
/// then, for "groq", the built-in key.
pub open spec fn resolved_key(
    provider: Seq<char>,
    stored: Result<Option<Seq<char>>, Seq<char>>,
    groq_env: Option<Seq<char>>,
    nine_router_env: Option<Seq<char>>,
    compiled: Option<Seq<char>>,
) -> Option<Seq<char>> {
    if let Ok(Some(k)) = stored {
        Some(k)
    } else if env_key(provider, groq_env, nine_router_env) is Some {
        env_key(provider, groq_env, nine_router_env)
    } else if provider == "groq"@ {
        builtin_key(compiled)
    } else {
        None
    }
}

pub open spec fn stored_view(s: Result<Option<String>, String>) -> Result<Option<Seq<char>>, Seq<char>> {
    match s {
        Ok(o) => Ok(opt_view(o)),
        Err(e) => Err(e@),
    }
}

pub open spec fn str_opt_view(o: Option<&str>) -> Option<Seq<char>> {
    match o {
        Some(s) => Some(s@),
        None => None,
    }
}

/// The key a provider uses. `stored` is what reading the provider's
/// credential entry gave; the other arguments are the environment keys and
/// the compiled-in Groq key.
pub fn resolved_provider_key(
    provider: &str,
    stored: Result<Option<String>, String>,
    groq_env: Option<String>,
    nine_router_env: Option<String>,
    compiled: Option<&str>,
) -> (r: Option<String>)
    ensures
        opt_view(r) == resolved_key(provider@, stored_view(stored), opt_view(groq_env), opt_view(nine_router_env), str_opt_view(compiled)),
{
    if let Ok(Some(k)) = stored {
        return Some(k);
    }
    let from_env = provider_env_key(provider, groq_env, nine_router_env);
    if from_env.is_some() {
        return from_env;
    }
    if str_equal(provider, "groq") {
        built_in_groq_key(compiled)
    } else {
        None
    }
}

/// The Groq key in use.
pub fn stored_groq_key(
    stored: Result<Option<String>, String>,
    groq_env: Option<String>,
    nine_router_env: Option<String>,
    compiled: Option<&str>,
) -> (r: Option<String>)
    ensures
        opt_view(r) == resolved_key("groq"@, stored_view(stored), opt_view(groq_env), opt_view(nine_router_env), str_opt_view(compiled)),
{
    resolved_provider_key("groq", stored, groq_env, nine_router_env, compiled)
}

/// Where a provider's key comes from: "saved", "environment" or "none".
pub open spec fn key_status(
    provider: Seq<char>,
    stored: Result<Option<Seq<char>>, Seq<char>>,
    groq_env: Option<Seq<char>>,
    nine_router_env: Option<Seq<char>>,
    compiled: Option<Seq<char>>,
) -> Result<Seq<char>, Seq<char>> {
    match normalized_provider(provider) {
        None => Err(invalid_provider_message()),
        Some(id) => match stored {
            Err(e) => Err(e),
            Ok(Some(_)) => Ok("saved"@),
            Ok(None) => if env_key_of(id, groq_env, nine_router_env) is Some {
                Ok("environment"@)
            } else if id == "groq"@ && builtin_key(compiled) is Some {
                Ok("environment"@)
            } else {
                Ok("none"@)
            },
        },
    }
}

pub open spec fn result_view(r: Result<String, String>) -> Result<Seq<char>, Seq<char>> {
    match r {
        Ok(s) => Ok(s@),
        Err(e) => Err(e@),
    }
}

/// Where the key of `provider` comes from. `stored` is what reading the
/// credential entry of the normalized provider gave.
pub fn ai_key_status(
    provider: &str,
    stored: Result<Option<String>, String>,
    groq_env: Option<String>,
    nine_router_env: Option<String>,
    compiled: Option<&str>,
) -> (r: Result<String, String>)
    ensures
        result_view(r) == key_status(provider@, stored_view(stored), opt_view(groq_env), opt_view(nine_router_env), str_opt_view(compiled)),
{
    let id = normalize_ai_provider(provider)?;
    if stored?.is_some() {
        return Ok(owned("saved"));
    }
    if env_key_of_provider_id(id, groq_env, nine_router_env).is_some() {
        return Ok(owned("environment"));
    }
    if str_equal(id, "groq") && built_in_groq_key(compiled).is_some() {
        return Ok(owned("environment"));
    }
    Ok(owned("none"))
}


/// The key status of a known provider reports a key exactly when the key
/// resolution used for AI calls finds one (given a readable store).
pub proof fn lemma_status_agrees_with_resolution(
    id: Seq<char>,
    stored: Option<Seq<char>>,
    groq_env: Option<Seq<char>>,
    nine_router_env: Option<Seq<char>>,
    compiled: Option<Seq<char>>,
)
    requires
        id == "groq"@ || id == "nine_router"@,
        normalized_provider(id) == Some(id),
    ensures
        (key_status(id, Ok(stored), groq_env, nine_router_env, compiled) == Ok::<Seq<char>, Seq<char>>("none"@))
            <==> resolved_key(id, Ok(stored), groq_env, nine_router_env, compiled) is None,
        resolved_key(id, Ok(stored), groq_env, nine_router_env, compiled) is None
            || key_status(id, Ok(stored), groq_env, nine_router_env, compiled) == Ok::<Seq<char>, Seq<char>>("saved"@)
            || key_status(id, Ok(stored), groq_env, nine_router_env, compiled) == Ok::<Seq<char>, Seq<char>>("environment"@),
{
    reveal_strlit("none");
    reveal_strlit("saved");
    reveal_strlit("environment");
    reveal_strlit("groq");
    reveal_strlit("nine_router");
    assert("saved"@.len() != "none"@.len());
    assert("environment"@.len() != "none"@.len());
    assert("groq"@.len() != "nine_router"@.len());
    assert(env_key(id, groq_env, nine_router_env) == env_key_of(id, groq_env, nine_router_env));
}

/// Where a provider's key is reported to come from. An unknown provider is
/// refused. For a known one: "saved" whenever its credential entry holds a
/// key, whatever the environment holds; the store's own error when reading
/// the entry failed; otherwise "environment" when its variable
/// (`GROQ_API_KEY` for Groq, `NINE_ROUTER_API_KEY` for 9Router) holds a
/// non-blank key, or for Groq when a built-in key exists; and "none" only
/// when none of these has a key.
pub proof fn lemma_key_status_sources(
    provider: Seq<char>,
    stored: Result<Option<Seq<char>>, Seq<char>>,
    groq_env: Option<Seq<char>>,
    nine_router_env: Option<Seq<char>>,
    compiled: Option<Seq<char>>,
)
    ensures
        normalized_provider(provider) is None
            ==> key_status(provider, stored, groq_env, nine_router_env, compiled) == Err::<Seq<char>, Seq<char>>(invalid_provider_message()),
        normalized_provider(provider) is Some && (stored matches Ok(Some(_)))
            ==> key_status(provider, stored, groq_env, nine_router_env, compiled) == Ok::<Seq<char>, Seq<char>>("saved"@),
        normalized_provider(provider) is Some && stored is Err
            ==> key_status(provider, stored, groq_env, nine_router_env, compiled) == Err::<Seq<char>, Seq<char>>(stored->Err_0),
        normalized_provider(provider) == Some("groq"@) && stored == Ok::<Option<Seq<char>>, Seq<char>>(None)
            && ((groq_env matches Some(k) && !is_blank(k)) || (compiled matches Some(s) && trim(s).len() > 0))
            ==> key_status(provider, stored, groq_env, nine_router_env, compiled) == Ok::<Seq<char>, Seq<char>>("environment"@),
        normalized_provider(provider) == Some("groq"@) && stored == Ok::<Option<Seq<char>>, Seq<char>>(None)
            && !(groq_env matches Some(k) && !is_blank(k)) && !(compiled matches Some(s) && trim(s).len() > 0)
            ==> key_status(provider, stored, groq_env, nine_router_env, compiled) == Ok::<Seq<char>, Seq<char>>("none"@),
        normalized_provider(provider) == Some("nine_router"@) && stored == Ok::<Option<Seq<char>>, Seq<char>>(None)
            && (nine_router_env matches Some(k) && !is_blank(k))
            ==> key_status(provider, stored, groq_env, nine_router_env, compiled) == Ok::<Seq<char>, Seq<char>>("environment"@),
        normalized_provider(provider) == Some("nine_router"@) && stored == Ok::<Option<Seq<char>>, Seq<char>>(None)
            && !(nine_router_env matches Some(k) && !is_blank(k))
            ==> key_status(provider, stored, groq_env, nine_router_env, compiled) == Ok::<Seq<char>, Seq<char>>("none"@),
{
    reveal_strlit("groq");
    reveal_strlit("nine_router");
    assert("groq"@.len() != "nine_router"@.len());
}

/// How a provider's stored key is to change.
pub enum KeyChange {
    /// Delete the stored key (an empty key was given).
    Remove,
    /// Store this key.
    Store(String),
}

/// An accepted request to change a provider's key.
pub struct ApiKeyUpdate {
    pub provider: &'static str,
    pub change: KeyChange,
    /// The speech worker reads the Groq key at start, so it restarts.
    pub restart_worker: bool,
}

pub open spec fn stop_recording_for_key_message() -> Seq<char> {
    "Hãy dừng ghi âm trước khi đổi API key"@
}

pub open spec fn key_whitespace_message() -> Seq<char> {
    "API key không được chứa khoảng trắng"@
}

pub open spec fn groq_key_format_message() -> Seq<char> {
    "Groq API key không đúng định dạng (bắt đầu bằng gsk_)"@
}

/// The key text a request carries: the given key trimmed, or empty.
pub open spec fn given_key(api_key: Option<Seq<char>>) -> Seq<char> {
    match api_key {
        Some(k) => trim(k),
        None => Seq::empty(),
    }
}

/// What a request to set a provider's API key comes to, or why it is refused:
/// not while recording, only for a known provider, a key without inner
/// whitespace, and a Groq key that starts with "gsk_". An empty key removes
/// the stored one.
pub fn plan_ai_api_key(capturing: bool, provider: &str, api_key: Option<String>) -> (r: Result<ApiKeyUpdate, String>)
    ensures
        capturing ==> (r matches Err(e) && e@ == stop_recording_for_key_message()),
        !capturing && normalized_provider(provider@) is None ==> (r matches Err(e) && e@ == invalid_provider_message()),
        !capturing && normalized_provider(provider@) is Some ==> {
            let id = normalized_provider(provider@)->0;
            let key = given_key(opt_view(api_key));
            if key.len() > 0 && has_ws(key) {
                r matches Err(e) && e@ == key_whitespace_message()
            } else if id == "groq"@ && key.len() > 0 && !starts_with(key, "gsk_"@) {
                r matches Err(e) && e@ == groq_key_format_message()
            } else {
                r matches Ok(u) && u.provider@ == id && u.restart_worker == (id == "groq"@) && (
                    if key.len() == 0 { u.change is Remove } else { u.change matches KeyChange::Store(k) && k@ == key })
            }
        },
{
    if capturing {
        return Err(owned("Hãy dừng ghi âm trước khi đổi API key"));
    }
    let id = normalize_ai_provider(provider)?;
    let key: String = match &api_key {
        Some(k) => owned(trim_str(k.as_str())),
        None => String::new(),
    };
    let empty = key.as_str().unicode_len() == 0;
    if !empty && contains_whitespace(key.as_str()) {
        return Err(owned("API key không được chứa khoảng trắng"));
    }
    let groq = str_equal(id, "groq");
    if groq && !empty && !has_prefix(key.as_str(), "gsk_") {
        return Err(owned("Groq API key không đúng định dạng (bắt đầu bằng gsk_)"));
    }
    let change = if empty { KeyChange::Remove } else { KeyChange::Store(key) };
    Ok(ApiKeyUpdate { provider: id, change, restart_worker: groq })
}

pub open spec fn key_remove_failed_message() -> Seq<char> {
    "Không xóa được API key khỏi kho mật khẩu hệ thống"@
}

pub open spec fn key_save_failed_message() -> Seq<char> {
    "Không lưu được API key vào kho mật khẩu hệ thống"@
}

/// Removing a key that is not there is no error.
pub fn api_key_removal(outcome: CredentialRemoval) -> (r: Result<(), String>)
    ensures
        match outcome {
            CredentialRemoval::Failed => r matches Err(e) && e@ == key_remove_failed_message(),
            _ => r is Ok,
        },
{
    match outcome {
        CredentialRemoval::Failed => Err(owned("Không xóa được API key khỏi kho mật khẩu hệ thống")),
        _ => Ok(()),
    }
}

/// Storing a key either worked or is reported.
pub fn api_key_saving(saved: bool) -> (r: Result<(), String>)
    ensures
        saved <==> r is Ok,
        r matches Err(e) ==> e@ == key_save_failed_message(),
{
    if saved { Ok(()) } else { Err(owned("Không lưu được API key vào kho mật khẩu hệ thống")) }
}

pub open spec fn access_key_read_failed_message() -> Seq<char> {
    "Không đọc được key VietNote từ kho mật khẩu hệ thống"@
}

/// Whether a VietNote access key is stored: a blank one counts as none.
pub fn access_key_status(read: CredentialRead) -> (r: Result<bool, String>)
    ensures
        match read {
            CredentialRead::Found(v) => r == Ok::<bool, String>(!is_blank(v@)),
            CredentialRead::Missing => r == Ok::<bool, String>(false),
            CredentialRead::Failed => r matches Err(e) && e@ == access_key_read_failed_message(),
        },
{
    match read {
        CredentialRead::Found(v) => Ok(!is_blank_str(v.as_str())),
        CredentialRead::Missing => Ok(false),
        CredentialRead::Failed => Err(owned("Không đọc được key VietNote từ kho mật khẩu hệ thống")),
    }
}

pub open spec fn enter_key_message() -> Seq<char> {
    "Vui lòng nhập key"@
}

pub open spec fn access_key_whitespace_message() -> Seq<char> {
    "Key không được chứa khoảng trắng"@
}

pub open spec fn access_key_save_failed_message() -> Seq<char> {
    "Không lưu được key vào kho mật khẩu hệ thống"@
}

/// The access key to store: the given text trimmed, refused when empty or
/// when it holds whitespace.
pub fn access_key_to_store(access_key: &str) -> (r: Result<String, String>)
    ensures
        trim(access_key@).len() == 0 ==> (r matches Err(e) && e@ == enter_key_message()),
        trim(access_key@).len() > 0 && has_ws(trim(access_key@)) ==> (r matches Err(e) && e@ == access_key_whitespace_message()),
        trim(access_key@).len() > 0 && !has_ws(trim(access_key@)) ==> (r matches Ok(k) && k@ == trim(access_key@)),
{
    let key = trim_str(access_key);
    if key.unicode_len() == 0 {
        return Err(owned("Vui lòng nhập key"));
    }
    if contains_whitespace(key) {
        return Err(owned("Key không được chứa khoảng trắng"));
    }
    Ok(owned(key))
}

/// Storing the access key either worked or is reported.
pub fn access_key_saving(saved: bool) -> (r: Result<bool, String>)
    ensures
        saved <==> r is Ok,
        r matches Ok(b) ==> b,
        r matches Err(e) ==> e@ == access_key_save_failed_message(),
{
    if saved { Ok(true) } else { Err(owned("Không lưu được key vào kho mật khẩu hệ thống")) }
}

} // verus!
