//! The deterministic rule engine: entity extraction plus strong-hit
//! classification.
//!
//! Four strong rules are tried in a fixed order (verification code,
//! logistics pickup, government notice, financial transaction). The
//! first that fires yields a finished label and suppresses the model
//! call; otherwise only the extracted entities and signals are
//! returned and the model decides.

use vstd::prelude::*;

use crate::extract::{
    extract_account_suffix, extract_money, extract_phone, extract_time_text, extract_url,
    extract_verification_code, is_money_of, is_phone_of, is_suffix_of, is_time_of, is_url_of,
    is_verification_code_of, otp_keyword_present,
};
use crate::schema::{
    copy_entities, copy_opt_string, copy_signals, entities_model, label_model, label_wf,
    opt_label_model, opt_view, reasons_view, rules_version, schema_version, signals_model,
    spec_rules_version, spec_schema_version, Entities, EntitiesModel, Industry, Label, LabelModel,
    RuleTag, Signals, SignalsModel, SmsType,
};
use crate::text::{
    any_contained, chars_vec, contains_lit, contains_seq, contains_any, kw_views, trim_str,
    trimmed,
};

verus! {

/// The view of an optional sender string.
pub open spec fn sender_view(sender: Option<&str>) -> Option<Seq<char>> {
    match sender {
        Some(s) => Some(s@),
        None => None,
    }
}

// ------------------------------------------------------------------
// Keyword groups
// ------------------------------------------------------------------

pub open spec fn logistics_keywords() -> Seq<Seq<char>> {
    seq![
        "取件码"@,
        "快递"@,
        "驿站"@,
        "柜"@,
        "丰巢"@,
        "菜鸟"@,
        "中通"@,
        "圆通"@,
        "申通"@,
        "韵达"@,
        "顺丰"@,
        "京东物流"@,
    ]
}

pub open spec fn logistics_keyword_present(s: Seq<char>) -> bool {
    any_contained(s, logistics_keywords())
}

/// Whether a logistics keyword occurs in `hay`.
pub fn has_logistics_keyword(hay: &Vec<char>) -> (b: bool)
    ensures
        b == logistics_keyword_present(hay@),
{
    let mut kws: Vec<Vec<char>> = Vec::new();
    kws.push(chars_vec("取件码"));
    kws.push(chars_vec("快递"));
    kws.push(chars_vec("驿站"));
    kws.push(chars_vec("柜"));
    kws.push(chars_vec("丰巢"));
    kws.push(chars_vec("菜鸟"));
    kws.push(chars_vec("中通"));
    kws.push(chars_vec("圆通"));
    kws.push(chars_vec("申通"));
    kws.push(chars_vec("韵达"));
    kws.push(chars_vec("顺丰"));
    kws.push(chars_vec("京东物流"));
    proof {
        assert(kw_views(kws@) =~= logistics_keywords());
    }
    contains_any(hay, &kws)
}

pub open spec fn gov_keywords() -> Seq<Seq<char>> {
    seq![
        "公安"@,
        "税务"@,
        "社保"@,
        "公积金"@,
        "政府"@,
        "政务"@,
        "人民法院"@,
        "检察院"@,
        "交警"@,
        "医保"@,
    ]
}

pub open spec fn gov_keyword_present(s: Seq<char>) -> bool {
    any_contained(s, gov_keywords())
}

/// Whether a government-organisation keyword occurs in `hay`.
pub fn has_gov_keyword(hay: &Vec<char>) -> (b: bool)
    ensures
        b == gov_keyword_present(hay@),
{
    let mut kws: Vec<Vec<char>> = Vec::new();
    kws.push(chars_vec("公安"));
    kws.push(chars_vec("税务"));
    kws.push(chars_vec("社保"));
    kws.push(chars_vec("公积金"));
    kws.push(chars_vec("政府"));
    kws.push(chars_vec("政务"));
    kws.push(chars_vec("人民法院"));
    kws.push(chars_vec("检察院"));
    kws.push(chars_vec("交警"));
    kws.push(chars_vec("医保"));
    proof {
        assert(kw_views(kws@) =~= gov_keywords());
    }
    contains_any(hay, &kws)
}

pub open spec fn financial_keywords() -> Seq<Seq<char>> {
    seq![
        "银行"@,
        "证券"@,
        "保险"@,
        "信用卡"@,
        "贷款"@,
        "还款"@,
        "入账"@,
        "扣款"@,
        "消费"@,
        "交易"@,
        "转账"@,
        "转入"@,
        "转出"@,
    ]
}

pub open spec fn financial_keyword_present(s: Seq<char>) -> bool {
    any_contained(s, financial_keywords())
}

/// Whether a financial-transaction keyword occurs in `hay`.
pub fn has_financial_keyword(hay: &Vec<char>) -> (b: bool)
    ensures
        b == financial_keyword_present(hay@),
{
    let mut kws: Vec<Vec<char>> = Vec::new();
    kws.push(chars_vec("银行"));
    kws.push(chars_vec("证券"));
    kws.push(chars_vec("保险"));
    kws.push(chars_vec("信用卡"));
    kws.push(chars_vec("贷款"));
    kws.push(chars_vec("还款"));
    kws.push(chars_vec("入账"));
    kws.push(chars_vec("扣款"));
    kws.push(chars_vec("消费"));
    kws.push(chars_vec("交易"));
    kws.push(chars_vec("转账"));
    kws.push(chars_vec("转入"));
    kws.push(chars_vec("转出"));
    proof {
        assert(kw_views(kws@) =~= financial_keywords());
    }
    contains_any(hay, &kws)
}

pub open spec fn financial_sender_keywords() -> Seq<Seq<char>> {
    seq!["银行"@, "证券"@, "保险"@]
}

pub open spec fn financial_sender_present(s: Seq<char>) -> bool {
    any_contained(s, financial_sender_keywords())
}

/// Whether a financial-institution keyword occurs in the sender text.
pub fn has_financial_sender_keyword(hay: &Vec<char>) -> (b: bool)
    ensures
        b == financial_sender_present(hay@),
{
    let mut kws: Vec<Vec<char>> = Vec::new();
    kws.push(chars_vec("银行"));
    kws.push(chars_vec("证券"));
    kws.push(chars_vec("保险"));
    proof {
        assert(kw_views(kws@) =~= financial_sender_keywords());
    }
    contains_any(hay, &kws)
}

pub open spec fn amount_ctx_keywords() -> Seq<Seq<char>> {
    seq![
        "金额"@,
        "支付"@,
        "扣款"@,
        "消费"@,
        "入账"@,
        "转入"@,
        "转出"@,
        "还款"@,
        "退款"@,
    ]
}

pub open spec fn amount_ctx_present(s: Seq<char>) -> bool {
    any_contained(s, amount_ctx_keywords())
}

/// Whether an amount context keyword occurs in `hay`.
pub fn has_amount_ctx_keyword(hay: &Vec<char>) -> (b: bool)
    ensures
        b == amount_ctx_present(hay@),
{
    let mut kws: Vec<Vec<char>> = Vec::new();
    kws.push(chars_vec("金额"));
    kws.push(chars_vec("支付"));
    kws.push(chars_vec("扣款"));
    kws.push(chars_vec("消费"));
    kws.push(chars_vec("入账"));
    kws.push(chars_vec("转入"));
    kws.push(chars_vec("转出"));
    kws.push(chars_vec("还款"));
    kws.push(chars_vec("退款"));
    proof {
        assert(kw_views(kws@) =~= amount_ctx_keywords());
    }
    contains_any(hay, &kws)
}

pub open spec fn balance_ctx_keywords() -> Seq<Seq<char>> {
    seq!["余额"@, "可用余额"@, "账户余额"@]
}

pub open spec fn balance_ctx_present(s: Seq<char>) -> bool {
    any_contained(s, balance_ctx_keywords())
}

/// Whether a balance context keyword occurs in `hay`.
pub fn has_balance_ctx_keyword(hay: &Vec<char>) -> (b: bool)
    ensures
        b == balance_ctx_present(hay@),
{
    let mut kws: Vec<Vec<char>> = Vec::new();
    kws.push(chars_vec("余额"));
    kws.push(chars_vec("可用余额"));
    kws.push(chars_vec("账户余额"));
    proof {
        assert(kw_views(kws@) =~= balance_ctx_keywords());
    }
    contains_any(hay, &kws)
}

/// An explicit currency sign occurs in `s`.
pub open spec fn currency_sign_present(s: Seq<char>) -> bool {
    contains_seq(s, "¥"@) || contains_seq(s, "￥"@)
}

/// Whether an explicit currency sign occurs in `hay`.
pub fn has_currency_sign(hay: &Vec<char>) -> (b: bool)
    ensures
        b == currency_sign_present(hay@),
{
    contains_lit(hay, "¥") || contains_lit(hay, "￥")
}

/// Amounts are accepted under a context keyword or a currency sign.
pub open spec fn amount_accept(s: Seq<char>) -> bool {
    amount_ctx_present(s) || currency_sign_present(s)
}

/// Balances are accepted under a balance keyword or a currency sign.
pub open spec fn balance_accept(s: Seq<char>) -> bool {
    balance_ctx_present(s) || currency_sign_present(s)
}

// ------------------------------------------------------------------
// Sender-derived classification helpers
// ------------------------------------------------------------------

/// What `str::to_lowercase` returns: a function of the characters
/// alone (Unicode lowercasing is locale-independent).
pub uninterp spec fn lower_of(s: Seq<char>) -> Seq<char>;

/// Relies on `str::to_lowercase` (std): lowercases the string, a pure
/// function of its characters.
#[verifier::external_body]
fn lowercase(s: &str) -> (r: String)
    ensures
        r@ == lower_of(s@),
{
    s.to_lowercase()
}

pub open spec fn finance_guess_keywords() -> Seq<Seq<char>> {
    seq!["bank"@, "银行"@, "证券"@, "保险"@]
}

pub open spec fn finance_guess_present(s: Seq<char>) -> bool {
    any_contained(s, finance_guess_keywords())
}

fn has_finance_guess_keyword(hay: &Vec<char>) -> (b: bool)
    ensures
        b == finance_guess_present(hay@),
{
    let mut kws: Vec<Vec<char>> = Vec::new();
    kws.push(chars_vec("bank"));
    kws.push(chars_vec("银行"));
    kws.push(chars_vec("证券"));
    kws.push(chars_vec("保险"));
    proof {
        assert(kw_views(kws@) =~= finance_guess_keywords());
    }
    contains_any(hay, &kws)
}

/// The industry suggested by the sender: 金融 when the lowercased
/// sender mentions a bank, broker or insurer.
pub open spec fn spec_guess_industry(sender: Option<Seq<char>>) -> Option<Industry> {
    match sender {
        Some(sn) => if finance_guess_present(lower_of(sn)) {
            Some(Industry::Finance)
        } else {
            None
        },
        None => None,
    }
}

/// Guesses an industry from the sender text alone.
pub fn guess_industry_from_sender(sender: Option<&str>) -> (r: Option<Industry>)
    ensures
        r == spec_guess_industry(sender_view(sender)),
{
    match sender {
        Some(sn) => {
            let lo = lowercase(sn);
            let hay = chars_vec(lo.as_str());
            if has_finance_guess_keyword(&hay) {
                Some(Industry::Finance)
            } else {
                None
            }
        },
        None => None,
    }
}

/// The message looks like a financial transaction: a financial keyword
/// in the content, or an institution keyword in the sender.
pub open spec fn spec_financial_like(s: Seq<char>, sender: Option<Seq<char>>) -> bool {
    financial_keyword_present(s) || match sender {
        Some(sn) => financial_sender_present(sn),
        None => false,
    }
}

fn financial_like_inner(hay: &Vec<char>, sender: Option<&str>) -> (b: bool)
    ensures
        b == spec_financial_like(hay@, sender_view(sender)),
{
    if has_financial_keyword(hay) {
        return true;
    }
    match sender {
        Some(sn) => {
            let sv = chars_vec(sn);
            has_financial_sender_keyword(&sv)
        },
        None => false,
    }
}

/// Whether the message reads like a financial transaction notice.
pub fn is_financial_transaction_like(content: &str, sender: Option<&str>) -> (b: bool)
    ensures
        b == spec_financial_like(content@, sender_view(sender)),
{
    let hay = chars_vec(content);
    financial_like_inner(&hay, sender)
}

// ------------------------------------------------------------------
// Brand
// ------------------------------------------------------------------

/// The first well-known brand keyword, in the fixed list order, that
/// occurs in `s`.
pub open spec fn spec_brand_keyword(s: Seq<char>) -> Option<Seq<char>> {
    if contains_seq(s, "中国银行"@) {
        Some("中国银行"@)
    } else if contains_seq(s, "工商银行"@) {
        Some("工商银行"@)
    } else if contains_seq(s, "建设银行"@) {
        Some("建设银行"@)
    } else if contains_seq(s, "农业银行"@) {
        Some("农业银行"@)
    } else if contains_seq(s, "招商银行"@) {
        Some("招商银行"@)
    } else if contains_seq(s, "交通银行"@) {
        Some("交通银行"@)
    } else if contains_seq(s, "邮储银行"@) {
        Some("邮储银行"@)
    } else if contains_seq(s, "平安银行"@) {
        Some("平安银行"@)
    } else if contains_seq(s, "兴业银行"@) {
        Some("兴业银行"@)
    } else if contains_seq(s, "中信银行"@) {
        Some("中信银行"@)
    } else if contains_seq(s, "浦发银行"@) {
        Some("浦发银行"@)
    } else if contains_seq(s, "光大银行"@) {
        Some("光大银行"@)
    } else if contains_seq(s, "民生银行"@) {
        Some("民生银行"@)
    } else if contains_seq(s, "支付宝"@) {
        Some("支付宝"@)
    } else if contains_seq(s, "微信"@) {
        Some("微信"@)
    } else if contains_seq(s, "京东"@) {
        Some("京东"@)
    } else if contains_seq(s, "美团"@) {
        Some("美团"@)
    } else if contains_seq(s, "饿了么"@) {
        Some("饿了么"@)
    } else if contains_seq(s, "拼多多"@) {
        Some("拼多多"@)
    } else if contains_seq(s, "顺丰"@) {
        Some("顺丰"@)
    } else if contains_seq(s, "京东物流"@) {
        Some("京东物流"@)
    } else {
        None
    }
}

/// The brand of the message: the trimmed sender when non-empty,
/// otherwise the first matching brand keyword in the content.
pub open spec fn spec_brand(s: Seq<char>, sender: Option<Seq<char>>) -> Option<Seq<char>> {
    match sender {
        Some(sn) => if trimmed(sn).len() > 0 {
            Some(trimmed(sn))
        } else {
            spec_brand_keyword(s)
        },
        None => spec_brand_keyword(s),
    }
}

fn brand_keyword(hay: &Vec<char>) -> (r: Option<String>)
    ensures
        opt_view(r) == spec_brand_keyword(hay@),
{
    if contains_lit(hay, "中国银行") {
        Some(String::from_str("中国银行"))
    } else if contains_lit(hay, "工商银行") {
        Some(String::from_str("工商银行"))
    } else if contains_lit(hay, "建设银行") {
        Some(String::from_str("建设银行"))
    } else if contains_lit(hay, "农业银行") {
        Some(String::from_str("农业银行"))
    } else if contains_lit(hay, "招商银行") {
        Some(String::from_str("招商银行"))
    } else if contains_lit(hay, "交通银行") {
        Some(String::from_str("交通银行"))
    } else if contains_lit(hay, "邮储银行") {
        Some(String::from_str("邮储银行"))
    } else if contains_lit(hay, "平安银行") {
        Some(String::from_str("平安银行"))
    } else if contains_lit(hay, "兴业银行") {
        Some(String::from_str("兴业银行"))
    } else if contains_lit(hay, "中信银行") {
        Some(String::from_str("中信银行"))
    } else if contains_lit(hay, "浦发银行") {
        Some(String::from_str("浦发银行"))
    } else if contains_lit(hay, "光大银行") {
        Some(String::from_str("光大银行"))
    } else if contains_lit(hay, "民生银行") {
        Some(String::from_str("民生银行"))
    } else if contains_lit(hay, "支付宝") {
        Some(String::from_str("支付宝"))
    } else if contains_lit(hay, "微信") {
        Some(String::from_str("微信"))
    } else if contains_lit(hay, "京东") {
        Some(String::from_str("京东"))
    } else if contains_lit(hay, "美团") {
        Some(String::from_str("美团"))
    } else if contains_lit(hay, "饿了么") {
        Some(String::from_str("饿了么"))
    } else if contains_lit(hay, "拼多多") {
        Some(String::from_str("拼多多"))
    } else if contains_lit(hay, "顺丰") {
        Some(String::from_str("顺丰"))
    } else if contains_lit(hay, "京东物流") {
        Some(String::from_str("京东物流"))
    } else {
        None
    }
}

/// The brand of the message: the trimmed sender when non-empty, else
/// the first well-known brand keyword found in the content.
pub fn extract_brand(content: &str, hay: &Vec<char>, sender: Option<&str>) -> (r: Option<String>)
    requires
        hay@ == content@,
    ensures
        opt_view(r) == spec_brand(content@, sender_view(sender)),
{
    match sender {
        Some(sn) => {
            let t = trim_str(sn);
            if t.as_str().unicode_len() > 0 {
                Some(t)
            } else {
                brand_keyword(hay)
            }
        },
        None => brand_keyword(hay),
    }
}

// ------------------------------------------------------------------
// Entity and signal assembly
// ------------------------------------------------------------------

/// Every entity field is the specified extraction from the content.
pub open spec fn entities_ok(s: Seq<char>, sender: Option<Seq<char>>, em: EntitiesModel) -> bool {
    &&& em.brand == spec_brand(s, sender)
    &&& is_url_of(s, em.url)
    &&& is_phone_of(s, em.phone_in_text)
    &&& is_verification_code_of(s, em.verification_code)
    &&& is_money_of(s, amount_accept(s), em.amount)
    &&& is_money_of(s, balance_accept(s), em.balance)
    &&& is_suffix_of(s, em.account_suffix)
    &&& is_time_of(s, em.time_text)
}

/// The signals record mirrors the entity findings and carries the rule
/// tag.
pub open spec fn signals_ok(em: EntitiesModel, gm: SignalsModel, tag: Option<RuleTag>) -> bool {
    &&& gm.brand == em.brand
    &&& gm.has_url == (em.url is Some)
    &&& gm.has_verification_code == (em.verification_code is Some)
    &&& gm.has_amount == (em.amount is Some)
    &&& gm.rule == tag
}

/// Extracts all entities of a message.
pub fn extract_entities(content: &str, hay: &Vec<char>, sender: Option<&str>) -> (e: Entities)
    requires
        hay@ == content@,
    ensures
        entities_ok(content@, sender_view(sender), entities_model(e)),
{
    let amount_ok = has_amount_ctx_keyword(hay) || has_currency_sign(hay);
    let balance_ok = has_balance_ctx_keyword(hay) || has_currency_sign(hay);
    Entities {
        brand: extract_brand(content, hay, sender),
        verification_code: extract_verification_code(content, hay),
        amount: extract_money(content, hay, amount_ok),
        balance: extract_money(content, hay, balance_ok),
        account_suffix: extract_account_suffix(content, hay),
        time_text: extract_time_text(content, hay),
        url: extract_url(content, hay),
        phone_in_text: extract_phone(content, hay),
    }
}

// ------------------------------------------------------------------
// Strong rules
// ------------------------------------------------------------------

/// Which strong rule fires, given the content, the sender and the
/// extracted verification code; rules are tried in the fixed order.
pub open spec fn spec_strong_rule(
    s: Seq<char>,
    sender: Option<Seq<char>>,
    code: Option<Seq<char>>,
) -> Option<RuleTag> {
    if code is Some && otp_keyword_present(s) {
        Some(RuleTag::VerificationCode)
    } else if logistics_keyword_present(s) {
        Some(RuleTag::LogisticsPickup)
    } else if gov_keyword_present(s) {
        Some(RuleTag::GovNotice)
    } else if spec_financial_like(s, sender) {
        Some(RuleTag::FinancialTransaction)
    } else {
        None
    }
}

/// The label a strong rule produces.
pub open spec fn spec_rule_label(
    sender: Option<Seq<char>>,
    em: EntitiesModel,
    gm: SignalsModel,
    tag: RuleTag,
) -> LabelModel {
    LabelModel {
        industry: match tag {
            RuleTag::VerificationCode => match spec_guess_industry(sender) {
                Some(i) => i,
                None => Industry::General,
            },
            RuleTag::LogisticsPickup => Industry::General,
            RuleTag::GovNotice => Industry::Government,
            RuleTag::FinancialTransaction => Industry::Finance,
        },
        sms_type: match tag {
            RuleTag::VerificationCode => SmsType::VerificationCode,
            RuleTag::LogisticsPickup => SmsType::LogisticsPickup,
            RuleTag::GovNotice => SmsType::GovNotice,
            RuleTag::FinancialTransaction => SmsType::TransactionAlert,
        },
        entities: em,
        confidence: match tag {
            RuleTag::VerificationCode => 9800,
            RuleTag::LogisticsPickup => 9200,
            RuleTag::GovNotice => 9300,
            RuleTag::FinancialTransaction => 9000,
        },
        needs_review: false,
        reasons: match tag {
            RuleTag::VerificationCode => seq![
                "rule: verification_code="@ + em.verification_code.unwrap(),
            ],
            RuleTag::LogisticsPickup => seq!["rule: logistics_pickup"@],
            RuleTag::GovNotice => seq!["rule: gov_org_keyword"@],
            RuleTag::FinancialTransaction => seq!["rule: financial_transaction"@],
        },
        signals: gm,
        rules_version: spec_rules_version(),
        model_version: "n/a"@,
        schema_version: spec_schema_version(),
    }
}

/// What the rule engine produced for one message.
pub struct RuleResult {
    pub label: Option<Label>,
    pub entities: Entities,
    pub signals: Signals,
    pub strong_hit: bool,
}

/// Runs entity extraction and the strong rules over one message.
///
/// A strong hit returns a finished label (whose model is pinned by
/// `spec_rule_label`) and `strong_hit == true`; otherwise the label is
/// `None` and the model must decide.
pub fn run_rules(content: &str, sender: Option<&str>) -> (r: RuleResult)
    ensures
        ({
            let s = content@;
            let sv = sender_view(sender);
            let em = entities_model(r.entities);
            let gm = signals_model(r.signals);
            let tag = spec_strong_rule(s, sv, em.verification_code);
            &&& entities_ok(s, sv, em)
            &&& signals_ok(em, gm, tag)
            &&& r.strong_hit == (tag is Some)
            &&& match tag {
                Some(t) => opt_label_model(r.label) == Some(spec_rule_label(sv, em, gm, t))
                    && label_wf(spec_rule_label(sv, em, gm, t)),
                None => r.label is None,
            }
        }),
{
    let hay = chars_vec(content);
    let entities = extract_entities(content, &hay, sender);
    let tag: Option<RuleTag> = if entities.verification_code.is_some() && crate::extract::has_otp_keyword(&hay) {
        Some(RuleTag::VerificationCode)
    } else if has_logistics_keyword(&hay) {
        Some(RuleTag::LogisticsPickup)
    } else if has_gov_keyword(&hay) {
        Some(RuleTag::GovNotice)
    } else if financial_like_inner(&hay, sender) {
        Some(RuleTag::FinancialTransaction)
    } else {
        None
    };
    let signals = Signals {
        brand: copy_opt_string(&entities.brand),
        has_url: entities.url.is_some(),
        has_verification_code: entities.verification_code.is_some(),
        has_amount: entities.amount.is_some(),
        rule: tag,
    };
    match tag {
        None => RuleResult { label: None, entities, signals, strong_hit: false },
        Some(t) => {
            let industry = match t {
                RuleTag::VerificationCode => match guess_industry_from_sender(sender) {
                    Some(i) => i,
                    None => Industry::General,
                },
                RuleTag::LogisticsPickup => Industry::General,
                RuleTag::GovNotice => Industry::Government,
                RuleTag::FinancialTransaction => Industry::Finance,
            };
            let sms_type = match t {
                RuleTag::VerificationCode => SmsType::VerificationCode,
                RuleTag::LogisticsPickup => SmsType::LogisticsPickup,
                RuleTag::GovNotice => SmsType::GovNotice,
                RuleTag::FinancialTransaction => SmsType::TransactionAlert,
            };
            let confidence: u32 = match t {
                RuleTag::VerificationCode => 9800,
                RuleTag::LogisticsPickup => 9200,
                RuleTag::GovNotice => 9300,
                RuleTag::FinancialTransaction => 9000,
            };
            let mut reasons: Vec<String> = Vec::new();
            match t {
                RuleTag::VerificationCode => {
                    let mut rs = String::from_str("rule: verification_code=");
                    match &entities.verification_code {
                        Some(c) => rs.append(c.as_str()),
                        None => {
                            proof {
                                assert(false);
                            }
                        },
                    }
                    reasons.push(rs);
                },
                RuleTag::LogisticsPickup => {
                    reasons.push(String::from_str("rule: logistics_pickup"));
                },
                RuleTag::GovNotice => {
                    reasons.push(String::from_str("rule: gov_org_keyword"));
                },
                RuleTag::FinancialTransaction => {
                    reasons.push(String::from_str("rule: financial_transaction"));
                },
            }
            let label = Label {
                industry,
                sms_type,
                entities: copy_entities(&entities),
                confidence,
                needs_review: false,
                reasons,
                signals: copy_signals(&signals),
                rules_version: rules_version(),
                model_version: String::from_str("n/a"),
                schema_version: schema_version(),
            };
            proof {
                assert(reasons_view(label.reasons@) =~= spec_rule_label(
                    sender_view(sender),
                    entities_model(entities),
                    signals_model(signals),
                    t,
                ).reasons);
                assert(label_model(label) =~= spec_rule_label(
                    sender_view(sender),
                    entities_model(entities),
                    signals_model(signals),
                    t,
                ));
            }
            RuleResult { label: Some(label), entities, signals, strong_hit: true }
        },
    }
}

} // verus!
