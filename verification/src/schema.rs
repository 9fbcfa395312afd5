//! Taxonomy, label records and normalization.
//!
//! Labels name an industry and a message type out of two closed
//! enumerations. A candidate label (for example, one assembled from
//! model output) may sit outside the closed sets or carry an invalid
//! confidence; `normalize` coerces it into a conforming `Label` and
//! records why. Confidence is held in ten-thousandths of 1, the same
//! precision the export format uses, so `9800` stands for `0.98`.

use vstd::prelude::*;

verus! {

/// One unit of confidence is 1/10000; a confidence of `CONFIDENCE_ONE`
/// means certainty.
pub const CONFIDENCE_ONE: u32 = 10000;

/// Industry assigned to a conforming label. The closed first-level
/// taxonomy: 金融, 通用, 政务, 渠道, 互联网, 其他.
#[derive(Clone, Copy, PartialEq, Eq, Structural, Debug)]
pub enum Industry {
    Finance,
    General,
    Government,
    Channel,
    Internet,
    Other,
}

/// Message type assigned to a conforming label. The closed
/// second-level taxonomy: 验证码, 交易提醒, 账单催缴, 保险续保,
/// 物流取件, 会员账号变更, 政务通知, 风险提示, 营销推广, 其他.
#[derive(Clone, Copy, PartialEq, Eq, Structural, Debug)]
pub enum SmsType {
    VerificationCode,
    TransactionAlert,
    BillReminder,
    InsuranceRenewal,
    LogisticsPickup,
    AccountChange,
    GovNotice,
    RiskAlert,
    Marketing,
    Other,
}

pub open spec fn spec_schema_version() -> Seq<char> {
    "schema_v1"@
}

pub open spec fn spec_rules_version() -> Seq<char> {
    "rules_v1"@
}

/// The current schema version constant.
pub fn schema_version() -> (r: String)
    ensures
        r@ == spec_schema_version(),
{
    String::from_str("schema_v1")
}

/// The current rule-set version constant.
pub fn rules_version() -> (r: String)
    ensures
        r@ == spec_rules_version(),
{
    String::from_str("rules_v1")
}

pub open spec fn spec_industry_text(i: Industry) -> Seq<char> {
    match i {
        Industry::Finance => "金融"@,
        Industry::General => "通用"@,
        Industry::Government => "政务"@,
        Industry::Channel => "渠道"@,
        Industry::Internet => "互联网"@,
        Industry::Other => "其他"@,
    }
}

/// The display text of an industry.
pub fn industry_text(i: Industry) -> (r: String)
    ensures
        r@ == spec_industry_text(i),
{
    match i {
        Industry::Finance => String::from_str("金融"),
        Industry::General => String::from_str("通用"),
        Industry::Government => String::from_str("政务"),
        Industry::Channel => String::from_str("渠道"),
        Industry::Internet => String::from_str("互联网"),
        Industry::Other => String::from_str("其他"),
    }
}

pub open spec fn spec_industry_from_text(s: Seq<char>) -> Option<Industry> {
    if s == spec_industry_text(Industry::Finance) {
        Some(Industry::Finance)
    } else if s == spec_industry_text(Industry::General) {
        Some(Industry::General)
    } else if s == spec_industry_text(Industry::Government) {
        Some(Industry::Government)
    } else if s == spec_industry_text(Industry::Channel) {
        Some(Industry::Channel)
    } else if s == spec_industry_text(Industry::Internet) {
        Some(Industry::Internet)
    } else if s == spec_industry_text(Industry::Other) {
        Some(Industry::Other)
    } else {
        None
    }
}

/// Parses industry display text; `None` when the text is outside the
/// closed set.
pub fn industry_from_text(s: &str) -> (r: Option<Industry>)
    ensures
        r == spec_industry_from_text(s@),
{
    if crate::text::str_eq(s, "金融") {
        Some(Industry::Finance)
    } else if crate::text::str_eq(s, "通用") {
        Some(Industry::General)
    } else if crate::text::str_eq(s, "政务") {
        Some(Industry::Government)
    } else if crate::text::str_eq(s, "渠道") {
        Some(Industry::Channel)
    } else if crate::text::str_eq(s, "互联网") {
        Some(Industry::Internet)
    } else if crate::text::str_eq(s, "其他") {
        Some(Industry::Other)
    } else {
        None
    }
}

pub open spec fn spec_sms_type_text(t: SmsType) -> Seq<char> {
    match t {
        SmsType::VerificationCode => "验证码"@,
        SmsType::TransactionAlert => "交易提醒"@,
        SmsType::BillReminder => "账单催缴"@,
        SmsType::InsuranceRenewal => "保险续保"@,
        SmsType::LogisticsPickup => "物流取件"@,
        SmsType::AccountChange => "会员账号变更"@,
        SmsType::GovNotice => "政务通知"@,
        SmsType::RiskAlert => "风险提示"@,
        SmsType::Marketing => "营销推广"@,
        SmsType::Other => "其他"@,
    }
}

/// The display text of a message type.
pub fn sms_type_text(t: SmsType) -> (r: String)
    ensures
        r@ == spec_sms_type_text(t),
{
    match t {
        SmsType::VerificationCode => String::from_str("验证码"),
        SmsType::TransactionAlert => String::from_str("交易提醒"),
        SmsType::BillReminder => String::from_str("账单催缴"),
        SmsType::InsuranceRenewal => String::from_str("保险续保"),
        SmsType::LogisticsPickup => String::from_str("物流取件"),
        SmsType::AccountChange => String::from_str("会员账号变更"),
        SmsType::GovNotice => String::from_str("政务通知"),
        SmsType::RiskAlert => String::from_str("风险提示"),
        SmsType::Marketing => String::from_str("营销推广"),
        SmsType::Other => String::from_str("其他"),
    }
}

pub open spec fn spec_sms_type_from_text(s: Seq<char>) -> Option<SmsType> {
    if s == spec_sms_type_text(SmsType::VerificationCode) {
        Some(SmsType::VerificationCode)
    } else if s == spec_sms_type_text(SmsType::TransactionAlert) {
        Some(SmsType::TransactionAlert)
    } else if s == spec_sms_type_text(SmsType::BillReminder) {
        Some(SmsType::BillReminder)
    } else if s == spec_sms_type_text(SmsType::InsuranceRenewal) {
        Some(SmsType::InsuranceRenewal)
    } else if s == spec_sms_type_text(SmsType::LogisticsPickup) {
        Some(SmsType::LogisticsPickup)
    } else if s == spec_sms_type_text(SmsType::AccountChange) {
        Some(SmsType::AccountChange)
    } else if s == spec_sms_type_text(SmsType::GovNotice) {
        Some(SmsType::GovNotice)
    } else if s == spec_sms_type_text(SmsType::RiskAlert) {
        Some(SmsType::RiskAlert)
    } else if s == spec_sms_type_text(SmsType::Marketing) {
        Some(SmsType::Marketing)
    } else if s == spec_sms_type_text(SmsType::Other) {
        Some(SmsType::Other)
    } else {
        None
    }
}

/// Parses message-type display text; `None` when the text is outside
/// the closed set.
pub fn sms_type_from_text(s: &str) -> (r: Option<SmsType>)
    ensures
        r == spec_sms_type_from_text(s@),
{
    if crate::text::str_eq(s, "验证码") {
        Some(SmsType::VerificationCode)
    } else if crate::text::str_eq(s, "交易提醒") {
        Some(SmsType::TransactionAlert)
    } else if crate::text::str_eq(s, "账单催缴") {
        Some(SmsType::BillReminder)
    } else if crate::text::str_eq(s, "保险续保") {
        Some(SmsType::InsuranceRenewal)
    } else if crate::text::str_eq(s, "物流取件") {
        Some(SmsType::LogisticsPickup)
    } else if crate::text::str_eq(s, "会员账号变更") {
        Some(SmsType::AccountChange)
    } else if crate::text::str_eq(s, "政务通知") {
        Some(SmsType::GovNotice)
    } else if crate::text::str_eq(s, "风险提示") {
        Some(SmsType::RiskAlert)
    } else if crate::text::str_eq(s, "营销推广") {
        Some(SmsType::Marketing)
    } else if crate::text::str_eq(s, "其他") {
        Some(SmsType::Other)
    } else {
        None
    }
}

/// The structured entities extracted from a message. Monetary fields
/// hold the numeric portion of the matched text with separator commas
/// removed; every field is `None` when nothing matched.
#[verifier::ext_equal]
pub struct Entities {
    pub brand: Option<String>,
    pub verification_code: Option<String>,
    pub amount: Option<String>,
    pub balance: Option<String>,
    pub account_suffix: Option<String>,
    pub time_text: Option<String>,
    pub url: Option<String>,
    pub phone_in_text: Option<String>,
}

/// Which strong rule fired, for the `rule` signal.
#[derive(Clone, Copy, PartialEq, Eq, Structural, Debug)]
pub enum RuleTag {
    VerificationCode,
    LogisticsPickup,
    GovNotice,
    FinancialTransaction,
}

pub open spec fn spec_rule_tag_text(t: RuleTag) -> Seq<char> {
    match t {
        RuleTag::VerificationCode => "verification_code"@,
        RuleTag::LogisticsPickup => "logistics_pickup"@,
        RuleTag::GovNotice => "gov_notice"@,
        RuleTag::FinancialTransaction => "financial_transaction"@,
    }
}

/// The signal name of a rule tag.
pub fn rule_tag_text(t: RuleTag) -> (r: String)
    ensures
        r@ == spec_rule_tag_text(t),
{
    match t {
        RuleTag::VerificationCode => String::from_str("verification_code"),
        RuleTag::LogisticsPickup => String::from_str("logistics_pickup"),
        RuleTag::GovNotice => String::from_str("gov_notice"),
        RuleTag::FinancialTransaction => String::from_str("financial_transaction"),
    }
}

/// The diagnostic signals the rule engine emits alongside a label.
#[verifier::ext_equal]
pub struct Signals {
    pub brand: Option<String>,
    pub has_url: bool,
    pub has_verification_code: bool,
    pub has_amount: bool,
    pub rule: Option<RuleTag>,
}

/// A conforming label: taxonomy values inside the closed sets by
/// construction, confidence in `[0, CONFIDENCE_ONE]`, non-empty
/// reasons, current schema version (see `label_wf`).
#[verifier::ext_equal]
pub struct Label {
    pub industry: Industry,
    pub sms_type: SmsType,
    pub entities: Entities,
    pub confidence: u32,
    pub needs_review: bool,
    pub reasons: Vec<String>,
    pub signals: Signals,
    pub rules_version: String,
    pub model_version: String,
    pub schema_version: String,
}

/// A label as delivered by an untrusted producer (the model): the
/// taxonomy fields are `None` when the produced text fell outside the
/// closed sets, the confidence is `None` when it was not a finite
/// number, and nothing else is guaranteed.
pub struct LabelCandidate {
    pub industry: Option<Industry>,
    pub sms_type: Option<SmsType>,
    pub entities: Entities,
    pub confidence: Option<i64>,
    pub needs_review: bool,
    pub reasons: Vec<String>,
    pub signals: Signals,
    pub rules_version: String,
    pub model_version: String,
    pub schema_version: String,
}

/// The mathematical view of an `Entities` record: strings as
/// character sequences.
pub struct EntitiesModel {
    pub brand: Option<Seq<char>>,
    pub verification_code: Option<Seq<char>>,
    pub amount: Option<Seq<char>>,
    pub balance: Option<Seq<char>>,
    pub account_suffix: Option<Seq<char>>,
    pub time_text: Option<Seq<char>>,
    pub url: Option<Seq<char>>,
    pub phone_in_text: Option<Seq<char>>,
}

/// The mathematical view of a `Signals` record.
pub struct SignalsModel {
    pub brand: Option<Seq<char>>,
    pub has_url: bool,
    pub has_verification_code: bool,
    pub has_amount: bool,
    pub rule: Option<RuleTag>,
}

pub open spec fn opt_view(o: Option<String>) -> Option<Seq<char>> {
    match o {
        Some(s) => Some(s@),
        None => None,
    }
}

pub open spec fn entities_model(e: Entities) -> EntitiesModel {
    EntitiesModel {
        brand: opt_view(e.brand),
        verification_code: opt_view(e.verification_code),
        amount: opt_view(e.amount),
        balance: opt_view(e.balance),
        account_suffix: opt_view(e.account_suffix),
        time_text: opt_view(e.time_text),
        url: opt_view(e.url),
        phone_in_text: opt_view(e.phone_in_text),
    }
}

pub open spec fn signals_model(g: Signals) -> SignalsModel {
    SignalsModel {
        brand: opt_view(g.brand),
        has_url: g.has_url,
        has_verification_code: g.has_verification_code,
        has_amount: g.has_amount,
        rule: g.rule,
    }
}

/// Entities with nothing extracted, as a model.
pub open spec fn spec_empty_entities() -> EntitiesModel {
    EntitiesModel {
        brand: None,
        verification_code: None,
        amount: None,
        balance: None,
        account_suffix: None,
        time_text: None,
        url: None,
        phone_in_text: None,
    }
}

/// Signals with nothing observed, as a model.
pub open spec fn spec_empty_signals() -> SignalsModel {
    SignalsModel {
        brand: None,
        has_url: false,
        has_verification_code: false,
        has_amount: false,
        rule: None,
    }
}

/// The mathematical view of a `Label`: strings as character sequences.
pub struct LabelModel {
    pub industry: Industry,
    pub sms_type: SmsType,
    pub entities: EntitiesModel,
    pub confidence: int,
    pub needs_review: bool,
    pub reasons: Seq<Seq<char>>,
    pub signals: SignalsModel,
    pub rules_version: Seq<char>,
    pub model_version: Seq<char>,
    pub schema_version: Seq<char>,
}

/// The mathematical view of a `LabelCandidate`.
pub struct CandidateModel {
    pub industry: Option<Industry>,
    pub sms_type: Option<SmsType>,
    pub entities: EntitiesModel,
    pub confidence: Option<int>,
    pub needs_review: bool,
    pub reasons: Seq<Seq<char>>,
    pub signals: SignalsModel,
    pub rules_version: Seq<char>,
    pub model_version: Seq<char>,
    pub schema_version: Seq<char>,
}

pub open spec fn reasons_view(rs: Seq<String>) -> Seq<Seq<char>> {
    rs.map_values(|r: String| r@)
}

pub open spec fn label_model(l: Label) -> LabelModel {
    LabelModel {
        industry: l.industry,
        sms_type: l.sms_type,
        entities: entities_model(l.entities),
        confidence: l.confidence as int,
        needs_review: l.needs_review,
        reasons: reasons_view(l.reasons@),
        signals: signals_model(l.signals),
        rules_version: l.rules_version@,
        model_version: l.model_version@,
        schema_version: l.schema_version@,
    }
}

pub open spec fn opt_label_model(l: Option<Label>) -> Option<LabelModel> {
    match l {
        Some(v) => Some(label_model(v)),
        None => None,
    }
}

pub open spec fn candidate_model(c: LabelCandidate) -> CandidateModel {
    CandidateModel {
        industry: c.industry,
        sms_type: c.sms_type,
        entities: entities_model(c.entities),
        confidence: match c.confidence {
            Some(v) => Some(v as int),
            None => None,
        },
        needs_review: c.needs_review,
        reasons: reasons_view(c.reasons@),
        signals: signals_model(c.signals),
        rules_version: c.rules_version@,
        model_version: c.model_version@,
        schema_version: c.schema_version@,
    }
}

/// A conforming label: taxonomy inside the closed sets (by typing),
/// confidence within `[0, CONFIDENCE_ONE]`, at least one reason, and
/// the current schema version.
pub open spec fn label_wf(m: LabelModel) -> bool {
    &&& 0 <= m.confidence <= CONFIDENCE_ONE
    &&& m.reasons.len() > 0
    &&& m.schema_version == spec_schema_version()
}

/// Confidence after normalization: an invalid (non-finite) confidence
/// becomes 1/2; anything else is clamped into `[0, CONFIDENCE_ONE]`.
pub open spec fn spec_norm_confidence(c: Option<int>) -> int {
    match c {
        None => 5000,
        Some(v) => if v < 0 {
            0
        } else if v > CONFIDENCE_ONE {
            CONFIDENCE_ONE as int
        } else {
            v
        },
    }
}

pub open spec fn spec_norm_reasons(c: CandidateModel) -> Seq<Seq<char>> {
    let appended = c.reasons + (if c.industry is None {
        seq!["normalize:invalid_industry"@]
    } else {
        Seq::<Seq<char>>::empty()
    }) + (if c.sms_type is None {
        seq!["normalize:invalid_type"@]
    } else {
        Seq::<Seq<char>>::empty()
    }) + (if c.confidence is None {
        seq!["normalize:invalid_confidence"@]
    } else {
        Seq::<Seq<char>>::empty()
    });
    if appended.len() == 0 {
        seq!["no_reason"@]
    } else {
        appended
    }
}

/// What normalization produces, field by field, for any candidate.
pub open spec fn spec_normalize(c: CandidateModel) -> LabelModel {
    LabelModel {
        industry: match c.industry {
            Some(i) => i,
            None => Industry::Other,
        },
        sms_type: match c.sms_type {
            Some(t) => t,
            None => SmsType::Other,
        },
        entities: c.entities,
        confidence: spec_norm_confidence(c.confidence),
        needs_review: c.needs_review || c.industry is None || c.sms_type is None
            || c.confidence is None,
        reasons: spec_norm_reasons(c),
        signals: c.signals,
        rules_version: if c.rules_version.len() == 0 {
            spec_rules_version()
        } else {
            c.rules_version
        },
        model_version: c.model_version,
        schema_version: spec_schema_version(),
    }
}

/// Coerces a candidate into a conforming label: out-of-set taxonomy
/// values become 其他 and flag review, an invalid confidence becomes
/// 1/2 and flags review, confidence is clamped, missing versions are
/// filled in, the schema version is overwritten, and an empty reason
/// list gains `no_reason`.
pub fn normalize(c: LabelCandidate) -> (l: Label)
    ensures
        label_model(l) == spec_normalize(candidate_model(c)),
        label_wf(label_model(l)),
{
    let ghost cm = candidate_model(c);
    let industry = match c.industry {
        Some(i) => i,
        None => Industry::Other,
    };
    let sms_type = match c.sms_type {
        Some(t) => t,
        None => SmsType::Other,
    };
    let confidence: u32 = match c.confidence {
        None => 5000,
        Some(v) => if v < 0 {
            0
        } else if v > CONFIDENCE_ONE as i64 {
            CONFIDENCE_ONE
        } else {
            v as u32
        },
    };
    let needs_review = c.needs_review || c.industry.is_none() || c.sms_type.is_none()
        || c.confidence.is_none();
    let mut reasons = c.reasons;
    if c.industry.is_none() {
        reasons.push(String::from_str("normalize:invalid_industry"));
    }
    if c.sms_type.is_none() {
        reasons.push(String::from_str("normalize:invalid_type"));
    }
    if c.confidence.is_none() {
        reasons.push(String::from_str("normalize:invalid_confidence"));
    }
    if reasons.len() == 0 {
        reasons.push(String::from_str("no_reason"));
    }
    proof {
        assert(reasons_view(reasons@) =~= spec_norm_reasons(cm));
    }
    let rules_version = if c.rules_version.as_str().unicode_len() == 0 {
        rules_version()
    } else {
        c.rules_version
    };
    let l = Label {
        industry,
        sms_type,
        entities: c.entities,
        confidence,
        needs_review,
        reasons,
        signals: c.signals,
        rules_version,
        model_version: c.model_version,
        schema_version: schema_version(),
    };
    proof {
        assert(reasons_view(l.reasons@).len() > 0);
    }
    l
}

/// Normalization is idempotent: renormalizing the candidate obtained
/// from a normalized label changes nothing.
pub proof fn lemma_normalize_idempotent(c: CandidateModel)
    ensures
        spec_normalize(candidate_of(spec_normalize(c))) == spec_normalize(c),
{
    let l1 = spec_normalize(c);
    let c2 = candidate_of(l1);
    assert(spec_norm_reasons(c2) =~= l1.reasons);
    assert(l1.rules_version.len() > 0) by {
        if c.rules_version.len() == 0 {
            reveal_strlit("rules_v1");
        }
    }
    assert(spec_normalize(c2) =~= l1);
}

/// Every normalized label is well-formed.
pub proof fn lemma_normalize_wf(c: CandidateModel)
    ensures
        label_wf(spec_normalize(c)),
{
}

/// The candidate a conforming label re-enters normalization as: every
/// field already valid.
pub open spec fn candidate_of(m: LabelModel) -> CandidateModel {
    CandidateModel {
        industry: Some(m.industry),
        sms_type: Some(m.sms_type),
        entities: m.entities,
        confidence: Some(m.confidence),
        needs_review: m.needs_review,
        reasons: m.reasons,
        signals: m.signals,
        rules_version: m.rules_version,
        model_version: m.model_version,
        schema_version: m.schema_version,
    }
}

/// What `error_fallback` produces for entities `e`, signals `g` and
/// error text `err`.
pub open spec fn spec_error_fallback(e: EntitiesModel, g: SignalsModel, err: Seq<char>) -> LabelModel {
    LabelModel {
        industry: Industry::Other,
        sms_type: SmsType::Other,
        entities: e,
        confidence: 2500,
        needs_review: true,
        reasons: seq!["model_error:"@ + err],
        signals: g,
        rules_version: spec_rules_version(),
        model_version: "error"@,
        schema_version: spec_schema_version(),
    }
}

/// The label written in place of a failed classification, so that no
/// message is left undecided: 其他/其他 at confidence 1/4, flagged for
/// review, with the single reason `model_error:{err}`.
pub fn error_fallback(entities: Entities, signals: Signals, err: &str) -> (l: Label)
    ensures
        label_model(l) == spec_error_fallback(entities_model(entities), signals_model(signals), err@),
        label_wf(label_model(l)),
{
    let mut reason = String::from_str("model_error:");
    reason.append(err);
    let mut reasons: Vec<String> = Vec::new();
    reasons.push(reason);
    let l = Label {
        industry: Industry::Other,
        sms_type: SmsType::Other,
        entities,
        confidence: 2500,
        needs_review: true,
        reasons,
        signals,
        rules_version: rules_version(),
        model_version: String::from_str("error"),
        schema_version: schema_version(),
    };
    proof {
        assert(reasons_view(l.reasons@) =~= seq!["model_error:"@ + err@]);
    }
    l
}

/// A field-for-field copy of the entities record.
pub fn copy_entities(e: &Entities) -> (r: Entities)
    ensures
        r == *e,
{
    Entities {
        brand: copy_opt_string(&e.brand),
        verification_code: copy_opt_string(&e.verification_code),
        amount: copy_opt_string(&e.amount),
        balance: copy_opt_string(&e.balance),
        account_suffix: copy_opt_string(&e.account_suffix),
        time_text: copy_opt_string(&e.time_text),
        url: copy_opt_string(&e.url),
        phone_in_text: copy_opt_string(&e.phone_in_text),
    }
}

/// A field-for-field copy of the signals record.
pub fn copy_signals(g: &Signals) -> (r: Signals)
    ensures
        r == *g,
{
    Signals {
        brand: copy_opt_string(&g.brand),
        has_url: g.has_url,
        has_verification_code: g.has_verification_code,
        has_amount: g.has_amount,
        rule: g.rule,
    }
}

/// A copy of a label, equal to the original as a model (two vectors
/// with the same elements are not one value, so object equality is not
/// the right claim here).
pub fn copy_label(l: &Label) -> (r: Label)
    ensures
        label_model(r) == label_model(*l),
{
    let r = Label {
        industry: l.industry,
        sms_type: l.sms_type,
        entities: copy_entities(&l.entities),
        confidence: l.confidence,
        needs_review: l.needs_review,
        reasons: copy_strings(&l.reasons),
        signals: copy_signals(&l.signals),
        rules_version: l.rules_version.clone(),
        model_version: l.model_version.clone(),
        schema_version: l.schema_version.clone(),
    };
    proof {
        assert(label_model(r) =~= label_model(*l));
    }
    r
}

/// A copy of an optional string.
pub fn copy_opt_string(s: &Option<String>) -> (r: Option<String>)
    ensures
        r == *s,
{
    match s {
        Some(v) => Some(v.clone()),
        None => None,
    }
}

/// An element-for-element copy of a string vector.
pub fn copy_strings(v: &Vec<String>) -> (r: Vec<String>)
    ensures
        r@ == v@,
{
    let mut r: Vec<String> = Vec::new();
    let mut i: usize = 0;
    while i < v.len()
        invariant
            i <= v@.len(),
            r@ == v@.subrange(0, i as int),
        decreases v@.len() - i,
    {
        r.push(v[i].clone());
        proof {
            assert(r@ =~= v@.subrange(0, i + 1 as int));
        }
        i += 1;
    }
    proof {
        assert(r@ =~= v@);
    }
    r
}

/// Empty entities: nothing extracted.
pub fn empty_entities() -> (r: Entities)
    ensures
        r == (Entities {
            brand: None,
            verification_code: None,
            amount: None,
            balance: None,
            account_suffix: None,
            time_text: None,
            url: None,
            phone_in_text: None,
        }),
{
    Entities {
        brand: None,
        verification_code: None,
        amount: None,
        balance: None,
        account_suffix: None,
        time_text: None,
        url: None,
        phone_in_text: None,
    }
}

/// Empty signals: nothing observed.
pub fn empty_signals() -> (r: Signals)
    ensures
        r == (Signals { brand: None, has_url: false, has_verification_code: false, has_amount: false, rule: None }),
{
    Signals { brand: None, has_url: false, has_verification_code: false, has_amount: false, rule: None }
}

} // verus!
