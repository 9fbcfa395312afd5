//! The provider abstraction: backend selection, health verdicts, the
//! mock backend, and the finishing of model output.
//!
//! The real backends do I/O (a child process, an HTTP round-trip)
//! and run outside this crate; everything they decide from plain
//! values — which backend a configuration names, whether it is
//! healthy given the probe results, what label a parsed model answer
//! becomes — is specified here.

use vstd::prelude::*;

use crate::schema::{
    copy_entities, copy_signals, entities_model, label_model, label_wf, normalize, rules_version,
    schema_version, signals_model, spec_normalize, spec_rules_version, spec_schema_version,
    CandidateModel, Entities, EntitiesModel, Industry, Label, LabelCandidate, LabelModel, Signals,
    SignalsModel, SmsType,
};
use crate::settings::{resolve_llama_cli, resolve_ollama_base_url, resolve_ollama_model, AppSettings};
use crate::text::str_eq;

verus! {

/// The health report of a configured provider.
pub struct ProviderHealth {
    pub ok: bool,
    pub message: String,
    pub model_version: String,
}

/// Which classification backend a configuration names.
#[derive(Clone, Copy, PartialEq, Eq, Structural, Debug)]
pub enum ProviderKind {
    Mock,
    LlamaCli,
    Ollama,
}

pub open spec fn spec_parse_kind(s: Seq<char>) -> ProviderKind {
    if s == "llama_cli"@ {
        ProviderKind::LlamaCli
    } else if s == "ollama"@ {
        ProviderKind::Ollama
    } else {
        ProviderKind::Mock
    }
}

/// Parses a provider kind; anything unknown selects the mock.
pub fn parse_kind(kind: &str) -> (k: ProviderKind)
    ensures
        k == spec_parse_kind(kind@),
{
    if str_eq(kind, "llama_cli") {
        ProviderKind::LlamaCli
    } else if str_eq(kind, "ollama") {
        ProviderKind::Ollama
    } else {
        ProviderKind::Mock
    }
}

/// What one classification request carries.
pub struct ClassifyPayload {
    pub message_id: i64,
    pub content: String,
    pub entities: Entities,
    pub signals: Signals,
}

/// A finished classification answer.
pub struct ClassifyResult {
    pub label: Label,
}

/// What the mock backend answers: 其他/其他 at confidence 0.55,
/// flagged for review, echoing the payload's entities and signals.
pub open spec fn spec_mock_label(em: EntitiesModel, gm: SignalsModel) -> LabelModel {
    LabelModel {
        industry: Industry::Other,
        sms_type: SmsType::Other,
        entities: em,
        confidence: 5500,
        needs_review: true,
        reasons: seq!["mock_provider"@],
        signals: gm,
        rules_version: spec_rules_version(),
        model_version: "mock"@,
        schema_version: spec_schema_version(),
    }
}

/// The mock backend: answers deterministically without any model.
pub fn mock_classify(payload: &ClassifyPayload) -> (l: Label)
    ensures
        label_model(l) == spec_mock_label(
            entities_model(payload.entities),
            signals_model(payload.signals),
        ),
        label_wf(label_model(l)),
{
    let mut reasons: Vec<String> = Vec::new();
    reasons.push(String::from_str("mock_provider"));
    let l = Label {
        industry: Industry::Other,
        sms_type: SmsType::Other,
        entities: copy_entities(&payload.entities),
        confidence: 5500,
        needs_review: true,
        reasons,
        signals: copy_signals(&payload.signals),
        rules_version: rules_version(),
        model_version: String::from_str("mock"),
        schema_version: schema_version(),
    };
    proof {
        assert(crate::schema::reasons_view(l.reasons@) =~= seq!["mock_provider"@]);
        assert(label_model(l) =~= spec_mock_label(
            entities_model(payload.entities),
            signals_model(payload.signals),
        ));
    }
    l
}

/// Finishes a parsed model answer: the caller-supplied model version
/// overrides whatever the model claimed, and the candidate is
/// normalized (which also pins the schema version).
pub fn finish_model_label(candidate: LabelCandidate, model_version: &str) -> (l: Label)
    ensures
        label_model(l) == spec_normalize(
            CandidateModel {
                model_version: model_version@,
                ..crate::schema::candidate_model(candidate)
            },
        ),
        label_wf(label_model(l)),
{
    let mut c = candidate;
    c.model_version = String::from_str(model_version);
    normalize(c)
}

/// The mock backend as a value, for callers that hold a backend.
pub struct MockProvider;

impl MockProvider {
    /// Answers without any model (see `spec_mock_label`).
    pub fn classify(&self, payload: &ClassifyPayload) -> (l: Label)
        ensures
            label_model(l) == spec_mock_label(
                entities_model(payload.entities),
                signals_model(payload.signals),
            ),
            label_wf(label_model(l)),
    {
        mock_classify(payload)
    }

    /// The mock's model version name.
    pub fn model_version(&self) -> (r: String)
        ensures
            r@ == "mock"@,
    {
        String::from_str("mock")
    }
}

/// A fully resolved backend choice, ready to run.
pub enum ProviderPlan {
    Mock,
    LlamaCli { cli_path: String, model_path: String, temperature_milli: i32, max_tokens: i32 },
    Ollama { base_url: String, model: String, temperature_milli: i32, max_tokens: i32 },
}

/// Resolves the configured backend. The caller reports whether the
/// model file and the binary exist; a local-binary configuration
/// missing either fails with the exact error of the probe.
pub fn build_provider(settings: &AppSettings, model_file_exists: bool, cli_exists: bool) -> (r:
    Result<ProviderPlan, String>)
    ensures
        ({
            let kind = spec_parse_kind(settings.provider.kind@);
            match kind {
                ProviderKind::Mock => r matches Ok(ProviderPlan::Mock),
                ProviderKind::LlamaCli => match settings.provider.model_path {
                    None => r matches Err(e) && e@ == "model_path is required"@,
                    Some(mp) => if !model_file_exists {
                        r matches Err(e) && e@ == "model file not found"@
                    } else if !cli_exists {
                        r matches Err(e) && e@ == "llama-cli not found: "@ + (
                        match settings.provider.llama_cli_path {
                            Some(p) => p@,
                            None => "resources/llama-cli"@,
                        })
                    } else {
                        r matches Ok(ProviderPlan::LlamaCli { cli_path, model_path, temperature_milli, max_tokens })
                            && cli_path@ == (match settings.provider.llama_cli_path {
                            Some(p) => p@,
                            None => "resources/llama-cli"@,
                        }) && model_path@ == mp@ && temperature_milli
                            == settings.provider.temperature_milli && max_tokens
                            == settings.provider.max_tokens
                    },
                },
                ProviderKind::Ollama => r matches Ok(ProviderPlan::Ollama { base_url, model, temperature_milli, max_tokens })
                    && base_url@ == (match settings.provider.ollama_base_url {
                    Some(p) => p@,
                    None => "http://127.0.0.1:11434"@,
                }) && model@ == (match settings.provider.ollama_model {
                    Some(p) => p@,
                    None => "llama3.2:1b"@,
                }) && temperature_milli == settings.provider.temperature_milli && max_tokens
                    == settings.provider.max_tokens,
            }
        }),
{
    match parse_kind(settings.provider.kind.as_str()) {
        ProviderKind::Mock => Ok(ProviderPlan::Mock),
        ProviderKind::LlamaCli => {
            match &settings.provider.model_path {
                None => Err(String::from_str("model_path is required")),
                Some(mp) => {
                    if !model_file_exists {
                        return Err(String::from_str("model file not found"));
                    }
                    let cli_path = resolve_llama_cli(settings);
                    if !cli_exists {
                        let mut e = String::from_str("llama-cli not found: ");
                        e.append(cli_path.as_str());
                        return Err(e);
                    }
                    Ok(
                        ProviderPlan::LlamaCli {
                            cli_path,
                            model_path: mp.clone(),
                            temperature_milli: settings.provider.temperature_milli,
                            max_tokens: settings.provider.max_tokens,
                        },
                    )
                },
            }
        },
        ProviderKind::Ollama => Ok(
            ProviderPlan::Ollama {
                base_url: resolve_ollama_base_url(settings),
                model: resolve_ollama_model(settings),
                temperature_milli: settings.provider.temperature_milli,
                max_tokens: settings.provider.max_tokens,
            },
        ),
    }
}

/// Index just past the last `/` of `s[..i]` (0 when there is none).
pub open spec fn last_slash_end(s: Seq<char>, i: int) -> int
    decreases i,
{
    if i <= 0 {
        0
    } else if s[i - 1] == '/' {
        i
    } else {
        last_slash_end(s, i - 1)
    }
}

/// `hi` with any trailing separators and current-directory (`.`)
/// components of `s[..hi]` removed, as path normalization ignores
/// them when naming the final component.
pub open spec fn strip_path_tail(s: Seq<char>, hi: int) -> int
    decreases hi,
{
    if hi > 0 && hi <= s.len() && s[hi - 1] == '/' {
        strip_path_tail(s, hi - 1)
    } else if hi > 0 && hi <= s.len() && s[hi - 1] == '.' && (hi == 1 || s[hi - 2] == '/') {
        strip_path_tail(s, hi - 1)
    } else {
        hi
    }
}

/// The final path component: trailing separators and `.` components
/// are ignored, and an empty or `..` component yields `gguf` (the
/// cases where the path names no file).
pub open spec fn spec_file_name(s: Seq<char>) -> Seq<char> {
    let h = strip_path_tail(s, s.len() as int);
    let b = s.subrange(last_slash_end(s, h), h);
    if b.len() == 0 || b == ".."@ {
        "gguf"@
    } else {
        b
    }
}

/// The final `/`-separated component of a path, used as a model
/// version name; `gguf` when the path names no file.
#[verifier::loop_isolation(false)]
pub fn path_file_name(p: &str) -> (r: String)
    ensures
        r@ == spec_file_name(p@),
{
    let hay = crate::text::chars_vec(p);
    let n = hay.len();
    let mut h: usize = n;
    while h > 0 && (hay[h - 1] == '/' || (hay[h - 1] == '.' && (h == 1 || hay[h - 2] == '/')))
        invariant
            h <= n,
            strip_path_tail(hay@, n as int) == strip_path_tail(hay@, h as int),
        decreases h,
    {
        h -= 1;
    }
    let mut i: usize = h;
    while i > 0 && hay[i - 1] != '/'
        invariant
            i <= h,
            last_slash_end(hay@, h as int) == last_slash_end(hay@, i as int),
        decreases i,
    {
        i -= 1;
    }
    let sub = p.substring_char(i, h);
    if sub.unicode_len() == 0 || crate::text::str_eq(sub, "..") {
        String::from_str("gguf")
    } else {
        String::from_str(sub)
    }
}

/// The health verdict for a configuration, given the probe results:
/// whether the model file and binary exist (local binary), and the
/// error text of the version and model probes (HTTP backend; `None`
/// is a passed probe).
pub fn health_verdict(
    settings: &AppSettings,
    model_file_exists: bool,
    cli_exists: bool,
    version_err: Option<&str>,
    show_err: Option<&str>,
) -> (r: Result<ProviderHealth, String>)
    ensures
        ({
            let kind = spec_parse_kind(settings.provider.kind@);
            let model = (match settings.provider.ollama_model {
                Some(p) => p@,
                None => "llama3.2:1b"@,
            });
            match kind {
                ProviderKind::Mock => r matches Ok(h) && h.ok && h.message@ == "mock provider (rules-only)"@
                    && h.model_version@ == "mock"@,
                ProviderKind::LlamaCli => match settings.provider.model_path {
                    None => r matches Err(e) && e@ == "model_path is required"@,
                    Some(mp) => if !model_file_exists {
                        r matches Ok(h) && !h.ok && h.message@ == "model file not found"@
                            && h.model_version@ == "unknown"@
                    } else if !cli_exists {
                        r matches Ok(h) && !h.ok && h.message@ == "llama-cli not found: "@ + (
                        match settings.provider.llama_cli_path {
                            Some(p) => p@,
                            None => "resources/llama-cli"@,
                        }) && h.model_version@ == "unknown"@
                    } else {
                        r matches Ok(h) && h.ok && h.message@ == "llama-cli ready"@
                            && h.model_version@ == spec_file_name(mp@)
                    },
                },
                ProviderKind::Ollama => match version_err {
                    Some(e) => r matches Ok(h) && !h.ok && h.message@ == "ollama not reachable: "@
                        + e@ && h.model_version@ == model,
                    None => match show_err {
                        Some(e) => r matches Ok(h) && !h.ok && h.message@
                            == "ollama model not available: "@ + e@ && h.model_version@ == model,
                        None => r matches Ok(h) && h.ok && h.message@ == "ollama ready"@
                            && h.model_version@ == model,
                    },
                },
            }
        }),
{
    match parse_kind(settings.provider.kind.as_str()) {
        ProviderKind::Mock => Ok(
            ProviderHealth {
                ok: true,
                message: String::from_str("mock provider (rules-only)"),
                model_version: String::from_str("mock"),
            },
        ),
        ProviderKind::LlamaCli => {
            match &settings.provider.model_path {
                None => Err(String::from_str("model_path is required")),
                Some(mp) => {
                    if !model_file_exists {
                        return Ok(
                            ProviderHealth {
                                ok: false,
                                message: String::from_str("model file not found"),
                                model_version: String::from_str("unknown"),
                            },
                        );
                    }
                    if !cli_exists {
                        let cli_path = resolve_llama_cli(settings);
                        let mut msg = String::from_str("llama-cli not found: ");
                        msg.append(cli_path.as_str());
                        return Ok(
                            ProviderHealth {
                                ok: false,
                                message: msg,
                                model_version: String::from_str("unknown"),
                            },
                        );
                    }
                    Ok(
                        ProviderHealth {
                            ok: true,
                            message: String::from_str("llama-cli ready"),
                            model_version: path_file_name(mp.as_str()),
                        },
                    )
                },
            }
        },
        ProviderKind::Ollama => {
            let model = resolve_ollama_model(settings);
            match version_err {
                Some(e) => {
                    let mut msg = String::from_str("ollama not reachable: ");
                    msg.append(e);
                    return Ok(ProviderHealth { ok: false, message: msg, model_version: model });
                },
                None => {},
            }
            match show_err {
                Some(e) => {
                    let mut msg = String::from_str("ollama model not available: ");
                    msg.append(e);
                    return Ok(ProviderHealth { ok: false, message: msg, model_version: model });
                },
                None => {},
            }
            Ok(
                ProviderHealth {
                    ok: true,
                    message: String::from_str("ollama ready"),
                    model_version: model,
                },
            )
        },
    }
}

} // verus!
