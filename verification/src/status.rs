//! Status snapshot records reported to the user interface.

use vstd::prelude::*;

use crate::batch::BatchProgress;
use crate::provider::ProviderHealth;
use crate::settings::AppSettings;

verus! {

/// Whether the database connection answers.
pub struct DbStatus {
    pub ok: bool,
    pub path: Option<String>,
    pub message: String,
}

/// Message-table counters.
pub struct DbMeta {
    pub messages_count: i64,
    pub messages_max_id: i64,
}

/// The state of a self-test run.
pub struct SelftestStatus {
    pub running: bool,
    pub ok: Option<bool>,
    pub message: String,
    pub started_at_ms: Option<i64>,
    pub finished_at_ms: Option<i64>,
    pub out_dir: Option<String>,
}

/// The provider configuration as reported to the interface.
pub struct ProviderInfo {
    pub kind: String,
    pub model_path: Option<String>,
    pub llama_cli_path: Option<String>,
    pub ollama_base_url: Option<String>,
    pub ollama_model: Option<String>,
    pub temperature_milli: i32,
    pub max_tokens: i32,
}

/// Everything one status call reports.
pub struct StatusSnapshot {
    pub db: DbStatus,
    pub provider_health: ProviderHealth,
    pub provider: ProviderInfo,
    pub batch: Option<BatchProgress>,
    pub selftest: SelftestStatus,
}

/// The provider info of a settings record, field for field.
pub fn provider_info_of(s: &AppSettings) -> (r: ProviderInfo)
    ensures
        r.kind@ == s.provider.kind@,
        r.model_path == s.provider.model_path,
        r.llama_cli_path == s.provider.llama_cli_path,
        r.ollama_base_url == s.provider.ollama_base_url,
        r.ollama_model == s.provider.ollama_model,
        r.temperature_milli == s.provider.temperature_milli,
        r.max_tokens == s.provider.max_tokens,
{
    ProviderInfo {
        kind: s.provider.kind.clone(),
        model_path: crate::schema::copy_opt_string(&s.provider.model_path),
        llama_cli_path: crate::schema::copy_opt_string(&s.provider.llama_cli_path),
        ollama_base_url: crate::schema::copy_opt_string(&s.provider.ollama_base_url),
        ollama_model: crate::schema::copy_opt_string(&s.provider.ollama_model),
        temperature_milli: s.provider.temperature_milli,
        max_tokens: s.provider.max_tokens,
    }
}

/// An idle self-test status.
pub fn selftest_idle() -> (r: SelftestStatus)
    ensures
        r.running == false,
        r.ok is None,
        r.message@ == "idle"@,
        r.started_at_ms is None,
        r.finished_at_ms is None,
        r.out_dir is None,
{
    SelftestStatus {
        running: false,
        ok: None,
        message: String::from_str("idle"),
        started_at_ms: None,
        finished_at_ms: None,
        out_dir: None,
    }
}

} // verus!
