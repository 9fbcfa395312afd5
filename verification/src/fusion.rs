//! Deterministic combination of a rule label and a model label.
//!
//! A strong rule hit wins outright; otherwise the label with the
//! higher confidence is chosen, ties going to the model. Whenever the
//! two labels disagree on industry or type, the result is flagged for
//! review, its confidence is damped to at most 0.85 of one, and a
//! `fusion_conflict` reason is appended.

use vstd::prelude::*;

use crate::schema::{
    empty_entities, empty_signals, label_model, label_wf, opt_label_model, rules_version,
    schema_version, spec_empty_entities, spec_empty_signals, spec_rules_version,
    spec_schema_version, Industry, Label, LabelModel, SmsType,
};

verus! {

/// The two candidate labels for one message, and whether the rule
/// engine scored a strong hit.
pub struct FusionInput {
    pub rule: Option<Label>,
    pub model: Option<Label>,
    pub rule_strong_hit: bool,
}

/// The label produced when neither the rules nor the model decided.
pub open spec fn spec_no_rule_no_model() -> LabelModel {
    LabelModel {
        industry: Industry::Other,
        sms_type: SmsType::Other,
        entities: spec_empty_entities(),
        confidence: 4000,
        needs_review: true,
        reasons: seq!["no_rule_no_model"@],
        signals: spec_empty_signals(),
        rules_version: spec_rules_version(),
        model_version: "n/a"@,
        schema_version: spec_schema_version(),
    }
}

/// Confidence after a fusion conflict: 85/100 of the chosen label's
/// confidence, capped at 8500 (0.85 of one), in integer units.
pub open spec fn conflict_confidence(c: int) -> int {
    let damped = (c * 85) / 100;
    if damped > 8500 {
        8500
    } else {
        damped
    }
}

/// What fusion produces for any pair of candidate labels.
pub open spec fn spec_fuse(rule: Option<LabelModel>, model: Option<LabelModel>, strong: bool) -> LabelModel {
    match (rule, model) {
        (Some(r), None) => r,
        (None, Some(m)) => m,
        (Some(r), Some(m)) => {
            let chosen = if strong {
                r
            } else if m.confidence >= r.confidence {
                m
            } else {
                r
            };
            let conflict = r.industry != m.industry || r.sms_type != m.sms_type;
            if conflict {
                LabelModel {
                    needs_review: true,
                    confidence: conflict_confidence(chosen.confidence),
                    reasons: chosen.reasons + seq!["fusion_conflict"@],
                    ..chosen
                }
            } else {
                chosen
            }
        },
        (None, None) => spec_no_rule_no_model(),
    }
}

/// Fuses the rule and model labels into the final label for a message.
pub fn fuse(input: FusionInput) -> (out: Label)
    ensures
        label_model(out) == spec_fuse(
            opt_label_model(input.rule),
            opt_label_model(input.model),
            input.rule_strong_hit,
        ),
        (match input.rule {
            Some(r) => label_wf(label_model(r)),
            None => true,
        }) && (match input.model {
            Some(m) => label_wf(label_model(m)),
            None => true,
        }) ==> label_wf(label_model(out)),
{
    match (input.rule, input.model) {
        (Some(rule), None) => rule,
        (None, Some(model)) => model,
        (Some(rule), Some(model)) => {
            let rule_industry = rule.industry;
            let rule_type = rule.sms_type;
            let model_industry = model.industry;
            let model_type = model.sms_type;
            let mut out = if input.rule_strong_hit {
                rule
            } else if model.confidence >= rule.confidence {
                model
            } else {
                rule
            };
            let ghost chosen_m = label_model(out);
            let conflict = rule_industry != model_industry || rule_type != model_type;
            if conflict {
                out.needs_review = true;
                let damped = if out.confidence <= 50000 {
                    (out.confidence * 85) / 100
                } else {
                    8500
                };
                out.confidence = if damped > 8500 {
                    8500
                } else {
                    damped
                };
                out.reasons.push(String::from_str("fusion_conflict"));
                proof {
                    assert(out.confidence == conflict_confidence(chosen_m.confidence));
                    assert(crate::schema::reasons_view(out.reasons@) =~= chosen_m.reasons
                        + seq!["fusion_conflict"@]);
                    assert(label_model(out) =~= LabelModel {
                        needs_review: true,
                        confidence: conflict_confidence(chosen_m.confidence),
                        reasons: chosen_m.reasons + seq!["fusion_conflict"@],
                        ..chosen_m
                    });
                }
            }
            out
        },
        (None, None) => {
            let mut reasons: Vec<String> = Vec::new();
            reasons.push(String::from_str("no_rule_no_model"));
            let out = Label {
                industry: Industry::Other,
                sms_type: SmsType::Other,
                entities: empty_entities(),
                confidence: 4000,
                needs_review: true,
                reasons,
                signals: empty_signals(),
                rules_version: rules_version(),
                model_version: String::from_str("n/a"),
                schema_version: schema_version(),
            };
            proof {
                assert(crate::schema::reasons_view(out.reasons@) =~= seq!["no_rule_no_model"@]);
                assert(label_model(out) =~= spec_no_rule_no_model());
            }
            out
        },
    }
}

} // verus!
