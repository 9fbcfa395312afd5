//! Scenario tests for the rule engine: the strong rules and the
//! entity extractors on literal messages.

use sms_tagging_officer::rules::{
    guess_industry_from_sender, is_financial_transaction_like, run_rules,
};
use sms_tagging_officer::schema::{Industry, RuleTag, SmsType};

#[test]
fn otp_rule_strong_hit() {
    let r = run_rules("您的验证码是839204，5分钟内有效", None);
    assert!(r.strong_hit);
    assert_eq!(r.entities.verification_code.as_deref(), Some("839204"));
    let label = r.label.expect("strong hit must produce a label");
    assert_eq!(label.industry, Industry::General);
    assert_eq!(label.sms_type, SmsType::VerificationCode);
    assert_eq!(label.confidence, 9800);
    assert!(!label.needs_review);
    assert!(label.reasons.iter().any(|s| s == "rule: verification_code=839204"));
    assert_eq!(label.schema_version, "schema_v1");
    assert_eq!(label.rules_version, "rules_v1");
    assert_eq!(label.model_version, "n/a");
    assert_eq!(r.signals.rule, Some(RuleTag::VerificationCode));
}

#[test]
fn logistics_rule_strong_hit() {
    let r = run_rules("【快递】您的包裹已到驿站，请凭取件码A1234领取。", None);
    assert!(r.strong_hit);
    let label = r.label.unwrap();
    assert_eq!(label.industry, Industry::General);
    assert_eq!(label.sms_type, SmsType::LogisticsPickup);
    assert_eq!(label.confidence, 9200);
    assert!(!label.needs_review);
    assert!(label.reasons.iter().any(|s| s == "rule: logistics_pickup"));
}

#[test]
fn gov_rule_strong_hit() {
    let r = run_rules("【政务】您有一条新的政务通知，请登录查看。", None);
    assert!(r.strong_hit);
    let label = r.label.unwrap();
    assert_eq!(label.industry, Industry::Government);
    assert_eq!(label.sms_type, SmsType::GovNotice);
    assert_eq!(label.confidence, 9300);
    assert!(label.reasons.iter().any(|s| s == "rule: gov_org_keyword"));
}

#[test]
fn financial_rule_strong_hit() {
    let r = run_rules("您尾号1234的信用卡本期账单已出，最低还款200元。", None);
    assert!(r.strong_hit);
    let label = r.label.unwrap();
    assert_eq!(label.industry, Industry::Finance);
    assert_eq!(label.sms_type, SmsType::TransactionAlert);
    assert_eq!(label.confidence, 9000);
    assert_eq!(r.entities.account_suffix.as_deref(), Some("1234"));
    // The amount pattern requires a currency marker before the digits;
    // `200元` carries none, so no amount entity is extracted.
    assert_eq!(r.entities.amount, None);
}

#[test]
fn otp_beats_financial_in_rule_order() {
    let r = run_rules("【银行】您的验证码是443322，请勿泄露", None);
    let label = r.label.unwrap();
    assert_eq!(label.sms_type, SmsType::VerificationCode);
    assert_eq!(label.confidence, 9800);
}

#[test]
fn weak_message_has_no_label() {
    let r = run_rules("【外卖】骑手已到达，请保持电话畅通。", None);
    assert!(!r.strong_hit);
    assert!(r.label.is_none());
    assert_eq!(r.signals.rule, None);
}

#[test]
fn sender_guess_sets_otp_industry() {
    let r = run_rules("验证码：112233，请查收", Some("BANK of Test"));
    let label = r.label.unwrap();
    assert_eq!(label.industry, Industry::Finance);
    assert_eq!(label.sms_type, SmsType::VerificationCode);
}

#[test]
fn guess_industry_from_sender_cases() {
    assert_eq!(guess_industry_from_sender(Some("BANK")), Some(Industry::Finance));
    assert_eq!(guess_industry_from_sender(Some("某某银行")), Some(Industry::Finance));
    assert_eq!(guess_industry_from_sender(Some("快递站")), None);
    assert_eq!(guess_industry_from_sender(None), None);
}

#[test]
fn financial_like_by_sender_only() {
    assert!(is_financial_transaction_like("今日天气不错", Some("平安保险")));
    assert!(!is_financial_transaction_like("今日天气不错", Some("外卖")));
    assert!(is_financial_transaction_like("您有一笔交易待确认", None));
}

#[test]
fn url_extraction_http_and_www() {
    let r = run_rules("点击 https://a.example.com/x?q=1 查看详情", None);
    assert_eq!(r.entities.url.as_deref(), Some("https://a.example.com/x?q=1"));
    assert!(r.signals.has_url);

    let r2 = run_rules("访问 www.example.com 了解更多", None);
    assert_eq!(r2.entities.url.as_deref(), Some("www.example.com"));

    let r3 = run_rules("www. 后面没有域名", None);
    assert_eq!(r3.entities.url, None);
}

#[test]
fn phone_extraction() {
    let r = run_rules("如有疑问请联系 13812345678 咨询", None);
    assert_eq!(r.entities.phone_in_text.as_deref(), Some("13812345678"));
    // Twelve digits in a row are not a phone number.
    let r2 = run_rules("编号 138123456789 不是手机号", None);
    assert_eq!(r2.entities.phone_in_text, None);
}

#[test]
fn verification_code_near_keyword_wins() {
    let r = run_rules("校验码：55667788，编号 999123 无关", None);
    assert_eq!(r.entities.verification_code.as_deref(), Some("55667788"));
}

#[test]
fn verification_code_fallback_needs_keyword() {
    // A free-standing digit group with no OTP keyword is not a code.
    let r = run_rules("订单 123456 已发货", None);
    assert_eq!(r.entities.verification_code, None);
    // With a keyword far away, the free-standing group is taken.
    let r2 = run_rules("请输入OTP。你的号码组 123456 可用", None);
    assert_eq!(r2.entities.verification_code.as_deref(), Some("123456"));
}

#[test]
fn amount_extraction_with_currency_marker() {
    let r = run_rules("本次支付￥3,456.78成功", None);
    assert_eq!(r.entities.amount.as_deref(), Some("3456"));
    let r2 = run_rules("本次支付 ¥ 120.50 成功", None);
    assert_eq!(r2.entities.amount.as_deref(), Some("120.50"));
    // RMB needs a context keyword or a ¥ sign in the content.
    let r3 = run_rules("RMB 300 到账与否未知", None);
    assert_eq!(r3.entities.amount, None);
    let r4 = run_rules("入账 RMB 300", None);
    assert_eq!(r4.entities.amount.as_deref(), Some("300"));
}

#[test]
fn balance_extraction_uses_balance_keywords() {
    let r = run_rules("您的账户余额 ¥88.66，请知晓", None);
    assert_eq!(r.entities.balance.as_deref(), Some("88.66"));
}

#[test]
fn account_suffix_extraction() {
    let r = run_rules("您末四位为5678的储蓄卡已入账", None);
    assert_eq!(r.entities.account_suffix.as_deref(), Some("5678"));
}

#[test]
fn time_text_extraction() {
    let r = run_rules("会议时间 2024-01-02 12:30 请准时", None);
    assert_eq!(r.entities.time_text.as_deref(), Some("2024-01-02 12:30"));
    let r2 = run_rules("将于 09:05 开始", None);
    assert_eq!(r2.entities.time_text.as_deref(), Some("09:05"));
    let r3 = run_rules("2024年1月2日 生效", None);
    assert_eq!(r3.entities.time_text.as_deref(), Some("2024年1月2日"));
    // Word characters (such as CJK text) on either side suppress the
    // boundary, exactly as a word-boundary pattern does.
    let r4 = run_rules("将于09:05开始", None);
    assert_eq!(r4.entities.time_text, None);
}

#[test]
fn brand_prefers_trimmed_sender() {
    let r = run_rules("中国银行提醒您账单已出", Some("  某商家  "));
    assert_eq!(r.entities.brand.as_deref(), Some("某商家"));
    let r2 = run_rules("中国银行提醒您账单已出", Some("   "));
    assert_eq!(r2.entities.brand.as_deref(), Some("中国银行"));
    let r3 = run_rules("招商银行与支付宝联合活动", None);
    assert_eq!(r3.entities.brand.as_deref(), Some("招商银行"));
}
