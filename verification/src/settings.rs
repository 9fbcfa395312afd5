//! Provider settings and their one-time migration.
//!
//! Temperature is held in thousandths (100 stands for 0.1), so the
//! record stays in integer arithmetic; the persistence layer converts
//! at its edge.

use vstd::prelude::*;

verus! {

/// The provider configuration: which backend and its parameters.
pub struct ProviderSettings {
    pub kind: String,
    pub model_path: Option<String>,
    pub llama_cli_path: Option<String>,
    pub ollama_base_url: Option<String>,
    pub ollama_model: Option<String>,
    pub temperature_milli: i32,
    pub max_tokens: i32,
}

/// All persisted settings.
pub struct AppSettings {
    pub provider: ProviderSettings,
}

impl Default for AppSettings {
    /// The current preferred backend defaults: a local HTTP backend on
    /// its standard port with a small model, temperature 0.1, and a
    /// 512-token budget.
    fn default() -> (r: Self)
        ensures
            r.provider.kind@ == "ollama"@,
            r.provider.model_path is None,
            r.provider.llama_cli_path is None,
            crate::schema::opt_view(r.provider.ollama_base_url) == Some("http://127.0.0.1:11434"@),
            crate::schema::opt_view(r.provider.ollama_model) == Some("llama3.2:1b"@),
            r.provider.temperature_milli == 100,
            r.provider.max_tokens == 512,
    {
        AppSettings {
            provider: ProviderSettings {
                kind: String::from_str("ollama"),
                model_path: None,
                llama_cli_path: None,
                ollama_base_url: Some(String::from_str("http://127.0.0.1:11434")),
                ollama_model: Some(String::from_str("llama3.2:1b")),
                temperature_milli: 100,
                max_tokens: 512,
            },
        }
    }
}

/// The settings look like the untouched old default of the mock
/// backend: `mock` with no paths, no HTTP fields, temperature 0.1 and
/// 512 tokens.
pub open spec fn is_old_default_mock(s: AppSettings) -> bool {
    &&& s.provider.kind@ == "mock"@
    &&& s.provider.model_path is None
    &&& s.provider.llama_cli_path is None
    &&& s.provider.temperature_milli == 100
    &&& s.provider.max_tokens == 512
    &&& s.provider.ollama_base_url is None
    &&& s.provider.ollama_model is None
}

/// Rewrites an untouched old `mock` default to the current preferred
/// backend defaults; anything the user touched is left alone. Returns
/// whether a rewrite happened.
pub fn migrate_default_mock_to_ollama(settings: &mut AppSettings) -> (migrated: bool)
    ensures
        migrated == is_old_default_mock(*old(settings)),
        migrated ==> {
            &&& final(settings).provider.kind@ == "ollama"@
            &&& crate::schema::opt_view(final(settings).provider.ollama_base_url) == Some(
                "http://127.0.0.1:11434"@,
            )
            &&& crate::schema::opt_view(final(settings).provider.ollama_model) == Some(
                "llama3.2:1b"@,
            )
            &&& final(settings).provider.model_path == old(settings).provider.model_path
            &&& final(settings).provider.llama_cli_path == old(settings).provider.llama_cli_path
            &&& final(settings).provider.temperature_milli == old(
                settings,
            ).provider.temperature_milli
            &&& final(settings).provider.max_tokens == old(settings).provider.max_tokens
        },
        !migrated ==> *final(settings) == *old(settings),
{
    let looks_like_old_default = crate::text::str_eq(settings.provider.kind.as_str(), "mock")
        && settings.provider.model_path.is_none() && settings.provider.llama_cli_path.is_none()
        && settings.provider.temperature_milli == 100 && settings.provider.max_tokens == 512
        && settings.provider.ollama_base_url.is_none()
        && settings.provider.ollama_model.is_none();
    if !looks_like_old_default {
        return false;
    }
    settings.provider.kind = String::from_str("ollama");
    settings.provider.ollama_base_url = Some(String::from_str("http://127.0.0.1:11434"));
    settings.provider.ollama_model = Some(String::from_str("llama3.2:1b"));
    true
}

/// The llama-cli path in use: the configured one, or the bundled
/// default location.
pub fn resolve_llama_cli(settings: &AppSettings) -> (r: String)
    ensures
        r@ == (match settings.provider.llama_cli_path {
            Some(p) => p@,
            None => "resources/llama-cli"@,
        }),
{
    match &settings.provider.llama_cli_path {
        Some(p) => p.clone(),
        None => String::from_str("resources/llama-cli"),
    }
}

/// The HTTP backend base URL in use.
pub fn resolve_ollama_base_url(settings: &AppSettings) -> (r: String)
    ensures
        r@ == (match settings.provider.ollama_base_url {
            Some(p) => p@,
            None => "http://127.0.0.1:11434"@,
        }),
{
    match &settings.provider.ollama_base_url {
        Some(p) => p.clone(),
        None => String::from_str("http://127.0.0.1:11434"),
    }
}

/// The HTTP backend model name in use.
pub fn resolve_ollama_model(settings: &AppSettings) -> (r: String)
    ensures
        r@ == (match settings.provider.ollama_model {
            Some(p) => p@,
            None => "llama3.2:1b"@,
        }),
{
    match &settings.provider.ollama_model {
        Some(p) => p.clone(),
        None => String::from_str("llama3.2:1b"),
    }
}

/// A field-for-field copy of the settings.
pub fn copy_settings(s: &AppSettings) -> (r: AppSettings)
    ensures
        r.provider.kind@ == s.provider.kind@,
        r.provider.model_path == s.provider.model_path,
        r.provider.llama_cli_path == s.provider.llama_cli_path,
        r.provider.ollama_base_url == s.provider.ollama_base_url,
        r.provider.ollama_model == s.provider.ollama_model,
        r.provider.temperature_milli == s.provider.temperature_milli,
        r.provider.max_tokens == s.provider.max_tokens,
{
    AppSettings {
        provider: ProviderSettings {
            kind: s.provider.kind.clone(),
            model_path: crate::schema::copy_opt_string(&s.provider.model_path),
            llama_cli_path: crate::schema::copy_opt_string(&s.provider.llama_cli_path),
            ollama_base_url: crate::schema::copy_opt_string(&s.provider.ollama_base_url),
            ollama_model: crate::schema::copy_opt_string(&s.provider.ollama_model),
            temperature_milli: s.provider.temperature_milli,
            max_tokens: s.provider.max_tokens,
        },
    }
}

} // verus!
