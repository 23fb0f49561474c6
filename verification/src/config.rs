//! The AI configuration used for translation and summaries.
use vstd::prelude::*;
use crate::text::{trim, trim_end_char, starts_with, trim_str, trim_end_matching, has_prefix, str_equal, owned};
use crate::provider::{normalized_provider, invalid_provider_message, normalize_ai_provider};

verus! {

pub open spec fn groq_chat_api() -> Seq<char> {
    "https://api.groq.com/openai/v1"@
}

pub open spec fn groq_gpt_oss_120b() -> Seq<char> {
    "openai/gpt-oss-120b"@
}

#[derive(Debug, Clone)]
pub struct SummaryAiConfig {
    pub api_url: String,
    pub model: String,
    pub provider: String,
}

pub struct ConfigView {
    pub api_url: Seq<char>,
    pub model: Seq<char>,
    pub provider: Seq<char>,
}

impl View for SummaryAiConfig {
    type V = ConfigView;

    open spec fn view(&self) -> ConfigView {
        ConfigView { api_url: self.api_url@, model: self.model@, provider: self.provider@ }
    }
}

/// The provider a configuration names when it names none.
pub fn default_summary_provider() -> (r: String)
    ensures
        r@ == "groq"@,
{
    owned("groq")
}

pub open spec fn default_config() -> ConfigView {
    ConfigView { api_url: groq_chat_api(), model: groq_gpt_oss_120b(), provider: "groq"@ }
}

impl Default for SummaryAiConfig {
    /// Groq with GPT-OSS 120B.
    fn default() -> (r: Self)
        ensures
            r@ == default_config(),
    {
        SummaryAiConfig {
            api_url: owned("https://api.groq.com/openai/v1"),
            model: owned("openai/gpt-oss-120b"),
            provider: default_summary_provider(),
        }
    }
}

/// The configuration in effect: the stored one (or the default when none is
/// stored or it cannot be read), with the old provider name "local" read as
/// "nine_router".
pub open spec fn effective_config(stored: Option<ConfigView>) -> ConfigView {
    let c = match stored {
        Some(c) => c,
        None => default_config(),
    };
    if c.provider == "local"@ {
        ConfigView { provider: "nine_router"@, ..c }
    } else {
        c
    }
}

pub open spec fn opt_config_view(o: Option<SummaryAiConfig>) -> Option<ConfigView> {
    match o {
        Some(c) => Some(c@),
        None => None,
    }
}

/// The configuration in effect given what was read from disk.
pub fn summary_ai_config(stored: Option<SummaryAiConfig>) -> (r: SummaryAiConfig)
    ensures
        r@ == effective_config(opt_config_view(stored)),
{
    let mut config = match stored {
        Some(c) => c,
        None => SummaryAiConfig::default(),
    };
    if str_equal(config.provider.as_str(), "local") {
        config.provider = owned("nine_router");
    }
    config
}

/// With no stored configuration (a fresh install, or one that cannot be
/// read) the configuration in effect is Groq's endpoint with GPT-OSS 120B on
/// the "groq" provider, the same as `SummaryAiConfig::default()`. A stored
/// configuration is used as it is, except that the old provider name
/// "local" reads as "nine_router".
pub proof fn lemma_config_in_effect(stored: ConfigView)
    ensures
        effective_config(None).api_url == "https://api.groq.com/openai/v1"@,
        effective_config(None).model == "openai/gpt-oss-120b"@,
        effective_config(None).provider == "groq"@,
        effective_config(None) == default_config(),
        stored.provider != "local"@ ==> effective_config(Some(stored)) == stored,
        stored.provider == "local"@ ==> effective_config(Some(stored)).provider == "nine_router"@,
        effective_config(Some(stored)).api_url == stored.api_url,
        effective_config(Some(stored)).model == stored.model,
{
    reveal_strlit("local");
    reveal_strlit("groq");
    assert("groq"@[0] != "local"@[0]);
}

pub open spec fn empty_model_message() -> Seq<char> {
    "Tên model không được trống"@
}

pub open spec fn bad_api_url_message() -> Seq<char> {
    "API phải bắt đầu bằng http:// hoặc https://"@
}

pub open spec fn groq_model_message() -> Seq<char> {
    "Hiện Groq chỉ được cấu hình sẵn cho openai/gpt-oss-120b"@
}

/// The configuration a user's settings become, or why they are refused.
pub open spec fn checked_config(c: ConfigView) -> Result<ConfigView, Seq<char>> {
    match normalized_provider(c.provider) {
        None => Err(invalid_provider_message()),
        Some(id) => {
            let model = trim(c.model);
            if model.len() == 0 {
                Err(empty_model_message())
            } else if id == "nine_router"@ {
                let url = trim_end_char(trim(c.api_url), '/');
                if !(starts_with(url, "http://"@) || starts_with(url, "https://"@)) {
                    Err(bad_api_url_message())
                } else {
                    Ok(ConfigView { api_url: url, model, provider: id })
                }
            } else if model != groq_gpt_oss_120b() {
                Err(groq_model_message())
            } else {
                Ok(ConfigView { api_url: groq_chat_api(), model, provider: id })
            }
        },
    }
}

pub open spec fn checked_view(r: Result<SummaryAiConfig, String>) -> Result<ConfigView, Seq<char>> {
    match r {
        Ok(c) => Ok(c@),
        Err(e) => Err(e@),
    }
}

/// Checks AI settings before they are saved: a known provider, a model name,
/// for 9Router an http(s) endpoint without trailing slashes, for Groq only
/// GPT-OSS 120B on Groq's own endpoint.
pub fn validated_summary_ai_config(config: SummaryAiConfig) -> (r: Result<SummaryAiConfig, String>)
    ensures
        checked_view(r) == checked_config(config@),
{
    let id = normalize_ai_provider(config.provider.as_str())?;
    let model = owned(trim_str(config.model.as_str()));
    if model.as_str().unicode_len() == 0 {
        return Err(owned("Tên model không được trống"));
    }
    if str_equal(id, "nine_router") {
        let url = trim_end_matching(trim_str(config.api_url.as_str()), '/');
        if !(has_prefix(url, "http://") || has_prefix(url, "https://")) {
            return Err(owned("API phải bắt đầu bằng http:// hoặc https://"));
        }
        Ok(SummaryAiConfig { api_url: owned(url), model, provider: owned(id) })
    } else {
        if !str_equal(model.as_str(), "openai/gpt-oss-120b") {
            return Err(owned("Hiện Groq chỉ được cấu hình sẵn cho openai/gpt-oss-120b"));
        }
        proof {
            reveal_strlit("groq");
            reveal_strlit("nine_router");
            reveal_strlit("local");
        }
        Ok(SummaryAiConfig { api_url: owned("https://api.groq.com/openai/v1"), model, provider: owned(id) })
    }
}

/// A configuration accepted for saving is, read back, the configuration in
/// effect: nothing of it is rewritten on load.
pub proof fn lemma_saved_config_reads_back(settings: ConfigView)
    ensures
        checked_config(settings) matches Ok(saved) ==> effective_config(Some(saved)) == saved,
{
    reveal_strlit("local");
    reveal_strlit("groq");
    reveal_strlit("nine_router");
    if let Ok(saved) = checked_config(settings) {
        assert(saved.provider == "groq"@ || saved.provider == "nine_router"@);
        assert(saved.provider.len() != "local"@.len() || saved.provider[0] != 'l');
    }
}

} // verus!
