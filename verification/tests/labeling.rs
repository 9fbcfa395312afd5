//! Tests for normalization, fusion, the provider abstraction and the
//! prompt builder.

use sms_tagging_officer::exporter::{confidence_text, csv_record_for_label, jsonl_line_for_label};
use sms_tagging_officer::fusion::{fuse, FusionInput};
use sms_tagging_officer::prompt::{build_prompt, extract_json, json_escape};
use sms_tagging_officer::provider::{
    build_provider, finish_model_label, health_verdict, mock_classify, parse_kind,
    path_file_name, ClassifyPayload, ProviderKind, ProviderPlan,
};
use sms_tagging_officer::schema::{
    empty_entities, empty_signals, error_fallback, normalize, rules_version, schema_version,
    Industry, Label, LabelCandidate, SmsType,
};
use sms_tagging_officer::settings::{migrate_default_mock_to_ollama, AppSettings};

fn plain_label(industry: Industry, sms_type: SmsType, confidence: u32) -> Label {
    Label {
        industry,
        sms_type,
        entities: empty_entities(),
        confidence,
        needs_review: false,
        reasons: vec![String::from("seed")],
        signals: empty_signals(),
        rules_version: rules_version(),
        model_version: String::from("m"),
        schema_version: schema_version(),
    }
}

fn plain_candidate() -> LabelCandidate {
    LabelCandidate {
        industry: Some(Industry::Finance),
        sms_type: Some(SmsType::TransactionAlert),
        entities: empty_entities(),
        confidence: Some(9000),
        needs_review: false,
        reasons: vec![String::from("model")],
        signals: empty_signals(),
        rules_version: String::from("rules_v1"),
        model_version: String::from("llama"),
        schema_version: String::from("whatever"),
    }
}

#[test]
fn normalize_coerces_invalid_fields() {
    let c = LabelCandidate {
        industry: None,
        sms_type: None,
        entities: empty_entities(),
        confidence: None,
        needs_review: false,
        reasons: vec![],
        signals: empty_signals(),
        rules_version: String::new(),
        model_version: String::from("llama"),
        schema_version: String::from("bogus"),
    };
    let l = normalize(c);
    assert_eq!(l.industry, Industry::Other);
    assert_eq!(l.sms_type, SmsType::Other);
    assert_eq!(l.confidence, 5000);
    assert!(l.needs_review);
    assert_eq!(
        l.reasons,
        vec![
            String::from("normalize:invalid_industry"),
            String::from("normalize:invalid_type"),
            String::from("normalize:invalid_confidence"),
        ]
    );
    assert_eq!(l.rules_version, "rules_v1");
    assert_eq!(l.schema_version, "schema_v1");
}

#[test]
fn normalize_clamps_confidence_silently() {
    let mut c = plain_candidate();
    c.confidence = Some(20000);
    let l = normalize(c);
    assert_eq!(l.confidence, 10000);
    assert!(!l.needs_review);
    let mut c2 = plain_candidate();
    c2.confidence = Some(-5);
    let l2 = normalize(c2);
    assert_eq!(l2.confidence, 0);
}

#[test]
fn normalize_fills_no_reason() {
    let mut c = plain_candidate();
    c.reasons = vec![];
    let l = normalize(c);
    assert_eq!(l.reasons, vec![String::from("no_reason")]);
}

#[test]
fn normalize_is_idempotent_at_runtime() {
    let l = normalize(plain_candidate());
    let back = LabelCandidate {
        industry: Some(l.industry),
        sms_type: Some(l.sms_type),
        entities: l.entities,
        confidence: Some(l.confidence as i64),
        needs_review: l.needs_review,
        reasons: l.reasons.clone(),
        signals: l.signals,
        rules_version: l.rules_version.clone(),
        model_version: l.model_version.clone(),
        schema_version: l.schema_version.clone(),
    };
    let l2 = normalize(back);
    assert_eq!(l2.industry, l.industry);
    assert_eq!(l2.sms_type, l.sms_type);
    assert_eq!(l2.confidence, l.confidence);
    assert_eq!(l2.needs_review, l.needs_review);
    assert_eq!(l2.reasons, l.reasons);
    assert_eq!(l2.rules_version, l.rules_version);
    assert_eq!(l2.schema_version, l.schema_version);
}

#[test]
fn fusion_conflict_prefers_model_and_damps() {
    let rule = plain_label(Industry::Finance, SmsType::TransactionAlert, 7000);
    let model = plain_label(Industry::Government, SmsType::GovNotice, 8000);
    let out = fuse(FusionInput { rule: Some(rule), model: Some(model), rule_strong_hit: false });
    assert_eq!(out.industry, Industry::Government);
    assert_eq!(out.sms_type, SmsType::GovNotice);
    assert!(out.needs_review);
    assert_eq!(out.confidence, 6800);
    assert_eq!(out.reasons.last().map(|s| s.as_str()), Some("fusion_conflict"));
}

#[test]
fn fusion_strong_hit_prefers_rule() {
    let rule = plain_label(Industry::Finance, SmsType::TransactionAlert, 7000);
    let model = plain_label(Industry::Government, SmsType::GovNotice, 9999);
    let out = fuse(FusionInput { rule: Some(rule), model: Some(model), rule_strong_hit: true });
    assert_eq!(out.industry, Industry::Finance);
    assert_eq!(out.sms_type, SmsType::TransactionAlert);
    // Conflicting labels still flag review and damp the confidence.
    assert!(out.needs_review);
    assert_eq!(out.confidence, 7000 * 85 / 100);
}

#[test]
fn fusion_tie_goes_to_model() {
    let rule = plain_label(Industry::Finance, SmsType::TransactionAlert, 8000);
    let model = plain_label(Industry::Finance, SmsType::TransactionAlert, 8000);
    let out = fuse(
        FusionInput {
            rule: Some(rule),
            model: Some(model),
            rule_strong_hit: false,
        },
    );
    assert_eq!(out.model_version, "m");
    assert!(!out.needs_review);
    assert_eq!(out.confidence, 8000);
}

#[test]
fn fusion_neither_side() {
    let out = fuse(FusionInput { rule: None, model: None, rule_strong_hit: false });
    assert_eq!(out.industry, Industry::Other);
    assert_eq!(out.sms_type, SmsType::Other);
    assert_eq!(out.confidence, 4000);
    assert!(out.needs_review);
    assert_eq!(out.reasons, vec![String::from("no_rule_no_model")]);
}

#[test]
fn error_fallback_shape() {
    let l = error_fallback(empty_entities(), empty_signals(), "timeout");
    assert_eq!(l.industry, Industry::Other);
    assert_eq!(l.sms_type, SmsType::Other);
    assert_eq!(l.confidence, 2500);
    assert!(l.needs_review);
    assert_eq!(l.reasons, vec![String::from("model_error:timeout")]);
    assert_eq!(l.model_version, "error");
    assert_eq!(l.schema_version, "schema_v1");
}

#[test]
fn parse_kind_cases() {
    assert_eq!(parse_kind("llama_cli"), ProviderKind::LlamaCli);
    assert_eq!(parse_kind("ollama"), ProviderKind::Ollama);
    assert_eq!(parse_kind("mock"), ProviderKind::Mock);
    assert_eq!(parse_kind("anything"), ProviderKind::Mock);
}

#[test]
fn mock_classify_shape() {
    let payload = ClassifyPayload {
        message_id: 7,
        content: String::from("hello"),
        entities: empty_entities(),
        signals: empty_signals(),
    };
    let l = mock_classify(&payload);
    assert_eq!(l.industry, Industry::Other);
    assert_eq!(l.sms_type, SmsType::Other);
    assert_eq!(l.confidence, 5500);
    assert!(l.needs_review);
    assert_eq!(l.reasons, vec![String::from("mock_provider")]);
    assert_eq!(l.model_version, "mock");
}

#[test]
fn finish_model_label_overrides_version() {
    let mut c = plain_candidate();
    c.model_version = String::from("model-claimed");
    let l = finish_model_label(c, "llama3.2:1b");
    assert_eq!(l.model_version, "llama3.2:1b");
    assert_eq!(l.schema_version, "schema_v1");
    assert_eq!(l.industry, Industry::Finance);
}

#[test]
fn settings_migration_only_for_untouched_mock() {
    let mut s = AppSettings::default();
    s.provider.kind = String::from("mock");
    s.provider.ollama_base_url = None;
    s.provider.ollama_model = None;
    assert!(migrate_default_mock_to_ollama(&mut s));
    assert_eq!(s.provider.kind, "ollama");
    assert_eq!(s.provider.ollama_base_url.as_deref(), Some("http://127.0.0.1:11434"));
    assert_eq!(s.provider.ollama_model.as_deref(), Some("llama3.2:1b"));

    let mut touched = AppSettings::default();
    touched.provider.kind = String::from("mock");
    touched.provider.ollama_base_url = None;
    touched.provider.ollama_model = None;
    touched.provider.max_tokens = 1024;
    assert!(!migrate_default_mock_to_ollama(&mut touched));
    assert_eq!(touched.provider.kind, "mock");
}

#[test]
fn build_provider_branches() {
    let mut s = AppSettings::default();
    s.provider.kind = String::from("mock");
    assert!(matches!(build_provider(&s, false, false), Ok(ProviderPlan::Mock)));

    s.provider.kind = String::from("llama_cli");
    s.provider.model_path = None;
    assert_eq!(build_provider(&s, true, true).err().as_deref(), Some("model_path is required"));
    s.provider.model_path = Some(String::from("models/x.gguf"));
    assert_eq!(build_provider(&s, false, true).err().as_deref(), Some("model file not found"));
    assert_eq!(
        build_provider(&s, true, false).err().as_deref(),
        Some("llama-cli not found: resources/llama-cli")
    );
    match build_provider(&s, true, true) {
        Ok(ProviderPlan::LlamaCli { cli_path, model_path, .. }) => {
            assert_eq!(cli_path, "resources/llama-cli");
            assert_eq!(model_path, "models/x.gguf");
        },
        other => panic!("unexpected plan: {:?}", other.is_ok()),
    }

    s.provider.kind = String::from("ollama");
    match build_provider(&s, false, false) {
        Ok(ProviderPlan::Ollama { base_url, model, .. }) => {
            assert_eq!(base_url, "http://127.0.0.1:11434");
            assert_eq!(model, "llama3.2:1b");
        },
        _ => panic!("expected the HTTP backend plan"),
    }
}

#[test]
fn path_file_name_components() {
    assert_eq!(path_file_name("models/tiny.gguf"), "tiny.gguf");
    assert_eq!(path_file_name("tiny.gguf"), "tiny.gguf");
    // Trailing separators are ignored, as the original's path handling
    // does; dot components name no file.
    assert_eq!(path_file_name("a/b/"), "b");
    assert_eq!(path_file_name("a/."), "a");
    assert_eq!(path_file_name("a/./"), "a");
    assert_eq!(path_file_name("."), "gguf");
    assert_eq!(path_file_name("a/.."), "gguf");
    assert_eq!(path_file_name("ab."), "ab.");
    assert_eq!(path_file_name("/"), "gguf");
    assert_eq!(path_file_name(""), "gguf");
}

#[test]
fn health_verdict_branches() {
    let mut s = AppSettings::default();
    s.provider.kind = String::from("mock");
    let h = health_verdict(&s, false, false, None, None).unwrap();
    assert!(h.ok);
    assert_eq!(h.message, "mock provider (rules-only)");

    s.provider.kind = String::from("llama_cli");
    s.provider.model_path = Some(String::from("models/tiny.gguf"));
    let h2 = health_verdict(&s, true, true, None, None).unwrap();
    assert!(h2.ok);
    assert_eq!(h2.model_version, "tiny.gguf");
    let h3 = health_verdict(&s, false, true, None, None).unwrap();
    assert!(!h3.ok);
    assert_eq!(h3.message, "model file not found");

    s.provider.kind = String::from("ollama");
    let h4 = health_verdict(&s, false, false, Some("connection refused"), None).unwrap();
    assert!(!h4.ok);
    assert_eq!(h4.message, "ollama not reachable: connection refused");
    let h5 = health_verdict(&s, false, false, None, Some("missing")).unwrap();
    assert!(!h5.ok);
    assert_eq!(h5.message, "ollama model not available: missing");
    let h6 = health_verdict(&s, false, false, None, None).unwrap();
    assert!(h6.ok);
    assert_eq!(h6.message, "ollama ready");
}

#[test]
fn json_escape_handles_quotes_and_controls() {
    assert_eq!(json_escape("ab"), "\"ab\"");
    assert_eq!(json_escape("a\"b"), "\"a\\\"b\"");
    assert_eq!(json_escape("a\\b"), "\"a\\\\b\"");
    assert_eq!(json_escape("a\nb"), "\"a\\nb\"");
    assert_eq!(json_escape("a\u{1}b"), "\"a\\u0001b\"");
}

#[test]
fn extract_json_recovers_first_object() {
    assert_eq!(
        extract_json("noise {\"a\": {\"b\": 1}} trailing").as_deref(),
        Some("{\"a\": {\"b\": 1}}")
    );
    assert_eq!(extract_json("no braces here"), None);
    assert_eq!(extract_json("open { but never closed"), None);
    assert_eq!(extract_json("{} rest").as_deref(), Some("{}"));
}

#[test]
fn build_prompt_embeds_payload() {
    let r = sms_tagging_officer::rules::run_rules("本次支付￥12成功", None);
    let payload = ClassifyPayload {
        message_id: 1,
        content: String::from("本次支付￥12成功"),
        entities: r.entities,
        signals: r.signals,
    };
    let p = build_prompt(&payload);
    assert!(p.contains("content: \"本次支付￥12成功\""));
    assert!(p.contains("rule_entities: {\"brand\":null"));
    assert!(p.contains("\"amount\":12"));
    assert!(p.contains("rule_signals: {"));
    assert!(p.contains("\"has_amount\":true"));
    assert!(p.starts_with("你是“短信智标官”"));
    assert!(p.ends_with("}\n"));
}

#[test]
fn confidence_text_four_decimals() {
    assert_eq!(confidence_text(9800), "0.9800");
    assert_eq!(confidence_text(10000), "1.0000");
    assert_eq!(confidence_text(0), "0.0000");
    assert_eq!(confidence_text(55), "0.0055");
}

#[test]
fn csv_record_fixed_order() {
    let mut l = plain_label(Industry::Finance, SmsType::TransactionAlert, 9000);
    l.entities.account_suffix = Some(String::from("1234"));
    l.reasons = vec![String::from("a"), String::from("b")];
    let rec = csv_record_for_label(&l);
    assert_eq!(rec.len(), 16);
    assert_eq!(rec[0], "金融");
    assert_eq!(rec[1], "交易提醒");
    assert_eq!(rec[2], "0.9000");
    assert_eq!(rec[3], "false");
    assert_eq!(rec[8], "1234");
    assert_eq!(rec[12], "rules_v1");
    assert_eq!(rec[14], "schema_v1");
    assert_eq!(rec[15], "a | b");
}

#[test]
fn jsonl_line_shape() {
    let l = plain_label(Industry::General, SmsType::VerificationCode, 9800);
    let line = jsonl_line_for_label(&l);
    assert!(line.starts_with("{\"industry\":\"通用\""));
    assert!(line.contains("\"type\":\"验证码\""));
    assert!(line.contains("\"confidence\":0.9800"));
    assert!(line.contains("\"reasons\":[\"seed\"]"));
    assert!(line.ends_with("\"schema_version\":\"schema_v1\"}"));
}
