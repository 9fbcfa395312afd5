//! Tests for the batch state machine, the store, the importer row
//! processing, and the end-to-end self-test.

use sms_tagging_officer::batch::{
    attempt_budget, conclude_message, effective_concurrency, effective_timeout_ms, message_deltas,
    BatchState, JobOutcome,
};
use sms_tagging_officer::importer::{header_index, import_rows, preview, resolve_mapping, ColumnMapping};
use sms_tagging_officer::rules::run_rules;
use sms_tagging_officer::schema::{Industry, SmsType};
use sms_tagging_officer::selftest::selftest_run;
use sms_tagging_officer::store::{
    compute_flags, BatchMode, ListQuery, parse_mode, Store, StoreError,
};

fn store_with(contents: &[&str]) -> Store {
    let mut store = Store::new();
    for c in contents {
        store
            .insert_message(String::from(*c), None, None, None, None)
            .expect("insert");
    }
    store
}

fn label_weak(store: &mut Store, id: i64) {
    sms_tagging_officer::selftest::label_one_with_mock(store, id, 1000).expect("label");
}

#[test]
fn options_clamping() {
    assert_eq!(effective_concurrency(0), 1);
    assert_eq!(effective_concurrency(3), 3);
    assert_eq!(effective_concurrency(99), 8);
    assert_eq!(effective_timeout_ms(10), 1000);
    assert_eq!(effective_timeout_ms(20000), 20000);
    assert_eq!(attempt_budget(false, 1), 2);
    assert_eq!(attempt_budget(false, -3), 1);
    assert_eq!(attempt_budget(true, 5), 0);
}

#[test]
fn strong_hit_makes_no_model_call() {
    let d = message_deltas(true, false);
    assert_eq!(d, (1, 0, 0));
    let weak_ok = message_deltas(false, true);
    assert_eq!(weak_ok, (0, 1, 0));
    let weak_err = message_deltas(false, false);
    assert_eq!(weak_err, (0, 1, 1));
}

#[test]
fn provider_failure_with_retries() {
    // A weak message whose provider fails twice (retries = 1).
    let rule = run_rules("【外卖】骑手已到达，请保持电话畅通。", None);
    assert!(!rule.strong_hit);
    assert_eq!(attempt_budget(rule.strong_hit, 1), 2);
    let (label, outcome) = conclude_message(rule, None, "timeout");
    assert_eq!(outcome, JobOutcome::Failure);
    assert_eq!(label.industry, Industry::Other);
    assert_eq!(label.sms_type, SmsType::Other);
    assert_eq!(label.confidence, 2500);
    assert!(label.needs_review);
    assert_eq!(label.reasons, vec![String::from("model_error:timeout")]);

    let mut st = BatchState::new();
    st.start(vec![5], 0).expect("start");
    let id = st.next_job().expect("job");
    assert_eq!(id, 5);
    st.record_model_call();
    st.record_model_failure();
    st.on_result(id, JobOutcome::Failure);
    let p = st.status();
    assert_eq!(p.done, 1);
    assert_eq!(p.failed, 1);
    assert_eq!(p.model_calls, 1);
    assert_eq!(p.model_failures, 1);
    assert_eq!(st.failed_ids, vec![5]);
    st.finish(120);
    assert!(!st.status().running);
    st.retry_failed().expect("retry");
    assert_eq!(st.pending, vec![5]);
    assert_eq!(st.status().failed, 0);
    assert!(st.failed_ids.is_empty());
}

#[test]
fn batch_accounting_over_outcomes() {
    let mut st = BatchState::new();
    st.start(vec![1, 2, 3, 4], 42).expect("start");
    assert_eq!(st.status().total, 4);
    assert_eq!(st.status().started_at_ms, Some(42));
    let a = st.next_job().unwrap();
    let b = st.next_job().unwrap();
    let c = st.next_job().unwrap();
    st.on_result(a, JobOutcome::Success);
    st.on_result(b, JobOutcome::Failure);
    st.on_result(c, JobOutcome::Stopped);
    let p = st.status();
    // done counts successes and failures; a stopped job counts in neither.
    assert_eq!(p.done, 2);
    assert_eq!(p.failed, 1);
    assert_eq!(st.failed_ids, vec![2]);
    assert_eq!(p.current_message_id, Some(3));
}

#[test]
fn stop_blocks_dispatch() {
    let mut st = BatchState::new();
    st.start(vec![1, 2], 0).expect("start");
    st.request_stop();
    assert_eq!(st.next_job(), None);
    assert_eq!(st.pending, vec![1, 2]);
}

#[test]
fn start_refused_while_running() {
    let mut st = BatchState::new();
    st.start(vec![1], 0).expect("start");
    assert_eq!(st.start(vec![2], 0).err().as_deref(), Some("batch already running"));
    assert_eq!(st.retry_failed().err().as_deref(), Some("batch is running"));
}

#[test]
fn compute_flags_cases() {
    assert_eq!(compute_flags("点击 http://x.cn/a 查看"), (true, false, false));
    assert_eq!(compute_flags("消费 ￥25.50 元"), (false, true, false));
    assert_eq!(compute_flags("共 300 元"), (false, true, false));
    assert_eq!(compute_flags("您的验证码是 839204"), (false, false, true));
    // A digit token without an OTP keyword does not set the code flag.
    assert_eq!(compute_flags("订单 839204 已出"), (false, false, false));
    assert_eq!(compute_flags("平安无事"), (false, false, false));
}

#[test]
fn store_insert_and_lookup() {
    let mut store = Store::new();
    assert_eq!(
        store.insert_message(String::new(), None, None, None, None),
        Err(StoreError::Validation)
    );
    let id = store
        .insert_message(String::from("验证码 1234"), None, Some(String::from("bank")), None, None)
        .expect("insert");
    assert_eq!(id, 1);
    assert_eq!(store.messages_meta(), (1, 1));
    assert_eq!(store.get_message_content(1).as_deref(), Ok("验证码 1234"));
    assert_eq!(store.get_message_content(2), Err(StoreError::NotFound));
    assert!(matches!(store.get_label(1), Ok(None)));
}

#[test]
fn upsert_resets_manual_and_review_writes_audit() {
    let mut store = store_with(&["【外卖】您的餐已送达"]);
    label_weak(&mut store, 1);
    let l = store.get_label(1).unwrap().expect("labeled");
    assert_eq!(l.industry, Industry::Other);
    let row = store.messages[0].label.as_ref().unwrap();
    assert!(!row.is_manual);
    assert_eq!(row.updated_by, "system");

    // Manual review sets is_manual and appends an audit entry.
    let mut manual = sms_tagging_officer::schema::copy_label(&l);
    manual.industry = Industry::Internet;
    store.label_update_manual(1, "op", manual, 99).expect("manual");
    let row2 = store.messages[0].label.as_ref().unwrap();
    assert!(row2.is_manual);
    assert_eq!(row2.updated_by, "op");
    assert_eq!(store.audit.len(), 1);
    let a = &store.audit[0];
    assert_eq!(a.message_id, 1);
    assert_eq!(a.operator, "op");
    assert_eq!(a.diff.industry_before, Some(Industry::Other));
    assert_eq!(a.diff.industry_after, Industry::Internet);

    // A later system upsert resets is_manual.
    label_weak(&mut store, 1);
    let row3 = store.messages[0].label.as_ref().unwrap();
    assert!(!row3.is_manual);
    assert_eq!(store.audit.len(), 1);
}

#[test]
fn candidates_by_mode_and_range() {
    let mut store = store_with(&["甲", "乙", "丙", "丁"]);
    label_weak(&mut store, 2);
    assert_eq!(parse_mode("all"), BatchMode::All);
    assert_eq!(parse_mode("unlabeled"), BatchMode::Unlabeled);
    assert_eq!(parse_mode("needs_review"), BatchMode::NeedsReview);
    assert_eq!(parse_mode("bogus"), BatchMode::Unlabeled);

    assert_eq!(store.fetch_batch_candidates("all", 100, None, None), vec![1, 2, 3, 4]);
    assert_eq!(store.fetch_batch_candidates("unlabeled", 100, None, None), vec![1, 3, 4]);
    // The mock label is flagged for review.
    assert_eq!(store.fetch_batch_candidates("needs_review", 100, None, None), vec![2]);
    assert_eq!(store.fetch_batch_candidates("all", 2, None, None), vec![1, 2]);
    assert_eq!(store.fetch_batch_candidates("all", 100, Some(2), Some(3)), vec![2, 3]);
}

#[test]
fn messages_list_filters_and_pages() {
    let mut store = store_with(&["政务通知甲", "外卖乙", "外卖丙"]);
    label_weak(&mut store, 1);
    let all = store.messages_list(
        &ListQuery {
            industry: None,
            sms_type: None,
            needs_review: None,
            conf_min: None,
            conf_max: None,
            has_url: None,
            has_verification_code: None,
            has_amount: None,
            q: None,
            limit: 10,
            offset: 0,
        },
    );
    assert_eq!(all.total, 3);
    let ids: Vec<i64> = all.rows.iter().map(|r| r.id).collect();
    assert_eq!(ids, vec![3, 2, 1]);

    let page = store.messages_list(
        &ListQuery {
            industry: None,
            sms_type: None,
            needs_review: None,
            conf_min: None,
            conf_max: None,
            has_url: None,
            has_verification_code: None,
            has_amount: None,
            q: None,
            limit: 1,
            offset: 1,
        },
    );
    assert_eq!(page.total, 3);
    assert_eq!(page.rows.len(), 1);
    assert_eq!(page.rows[0].id, 2);

    let filtered = store.messages_list(
        &ListQuery {
            industry: Some(Industry::Government),
            sms_type: None,
            needs_review: None,
            conf_min: None,
            conf_max: None,
            has_url: None,
            has_verification_code: None,
            has_amount: None,
            q: None,
            limit: 10,
            offset: 0,
        },
    );
    assert_eq!(filtered.total, 1);
    assert_eq!(filtered.rows[0].id, 1);

    let text = store.messages_list(
        &ListQuery {
            industry: None,
            sms_type: None,
            needs_review: None,
            conf_min: None,
            conf_max: None,
            has_url: None,
            has_verification_code: None,
            has_amount: None,
            q: Some(String::from("外卖")),
            limit: 10,
            offset: 0,
        },
    );
    assert_eq!(text.total, 2);
}

#[test]
fn importer_header_and_preview() {
    let headers = vec![String::from("内容"), String::from("时间")];
    assert_eq!(header_index(&headers, "时间"), Ok(1));
    assert_eq!(
        header_index(&headers, "缺失"),
        Err(String::from("header not found: 缺失"))
    );

    let records = vec![
        vec![String::from("a")],
        vec![String::from("b"), String::from("c"), String::from("d")],
        vec![String::from("e"), String::from("f")],
    ];
    let p = preview(headers, &records, 2);
    assert_eq!(p.rows.len(), 2);
    assert_eq!(p.rows[0], vec![String::from("a"), String::new()]);
    assert_eq!(p.rows[1], vec![String::from("b"), String::from("c")]);
}

#[test]
fn resolve_mapping_names_first_missing_header() {
    let headers = vec![String::from("content"), String::from("sender")];
    let mapping = ColumnMapping {
        content: String::from("正文"),
        received_at: None,
        sender: Some(String::from("发件人")),
        phone: None,
        source: None,
    };
    assert_eq!(
        resolve_mapping(&headers, &mapping).err().as_deref(),
        Some("header not found: 正文")
    );
    let mapping2 = ColumnMapping { content: String::from("content"), ..mapping };
    assert_eq!(
        resolve_mapping(&headers, &mapping2).err().as_deref(),
        Some("header not found: 发件人")
    );
}

#[test]
fn import_rows_accounting() {
    let headers = vec![String::from("content"), String::from("sender")];
    let mapping = ColumnMapping {
        content: String::from("content"),
        received_at: None,
        sender: Some(String::from("sender")),
        phone: None,
        source: None,
    };
    let resolved = resolve_mapping(&headers, &mapping).expect("mapping");
    let records = vec![
        vec![String::from("  验证码 9911  "), String::from(" 银行 ")],
        vec![String::from("   "), String::from("whoever")],
        vec![String::from("包裹到驿站了")],
    ];
    let mut store = Store::new();
    let res = import_rows(&mut store, &records, &resolved).expect("import");
    assert_eq!(res.total_rows, 3);
    assert_eq!(res.valid_rows, 2);
    assert_eq!(res.inserted, 2);
    assert_eq!(res.skipped_empty_content, 1);
    assert_eq!(res.first_insert_id, Some(1));
    assert_eq!(res.last_insert_id, Some(2));
    assert_eq!(store.get_message_content(1).as_deref(), Ok("验证码 9911"));
    assert_eq!(store.messages[0].sender.as_deref(), Some("银行"));
    assert_eq!(store.messages[1].sender, None);
}

#[test]
fn messages_list_label_and_flag_filters() {
    let mut store = store_with(&["看看 https://x.cn 吧", "平平无奇"]);
    label_weak(&mut store, 1);
    label_weak(&mut store, 2);
    let base = ListQuery {
        industry: None,
        sms_type: None,
        needs_review: None,
        conf_min: None,
        conf_max: None,
        has_url: None,
        has_verification_code: None,
        has_amount: None,
        q: None,
        limit: 10,
        offset: 0,
    };
    let with_url = ListQuery { has_url: Some(true), ..base };
    let r = store.messages_list(&with_url);
    assert_eq!(r.total, 1);
    assert_eq!(r.rows[0].id, 1);

    // Both mock labels carry confidence 0.55; the filter excludes all
    // rows above 0.50.
    let mut caps = store.messages_list(&ListQuery {
        conf_max: Some(5000),
        industry: None,
        sms_type: None,
        needs_review: None,
        conf_min: None,
        has_url: None,
        has_verification_code: None,
        has_amount: None,
        q: None,
        limit: 10,
        offset: 0,
    });
    assert_eq!(caps.total, 0);
    caps = store.messages_list(&ListQuery {
        conf_min: Some(5000),
        industry: None,
        sms_type: None,
        needs_review: None,
        conf_max: None,
        has_url: None,
        has_verification_code: None,
        has_amount: None,
        q: None,
        limit: 10,
        offset: 0,
    });
    assert_eq!(caps.total, 2);
}

#[test]
fn amount_flag_with_unit_suffix() {
    assert_eq!(compute_flags("合计 12.5 元"), (false, true, false));
    assert_eq!(compute_flags("12块 也可以"), (false, true, false));
    assert_eq!(compute_flags("共 12 份"), (false, false, false));
}

#[test]
fn selftest_labels_everything() {
    let mut store = Store::new();
    let res = selftest_run(&mut store, 7).expect("selftest");
    assert_eq!(res.inserted, 6);
    assert_eq!(res.labeled, 6);
    for m in &store.messages {
        assert!(m.label.is_some());
    }
    // Strong rules fire on the financial, OTP, logistics and gov samples.
    let l1 = store.get_label(1).unwrap().unwrap();
    assert_eq!(l1.industry, Industry::Finance);
    assert_eq!(l1.sms_type, SmsType::TransactionAlert);
    let l2 = store.get_label(2).unwrap().unwrap();
    assert_eq!(l2.sms_type, SmsType::VerificationCode);
    let l3 = store.get_label(3).unwrap().unwrap();
    assert_eq!(l3.sms_type, SmsType::LogisticsPickup);
    let l5 = store.get_label(5).unwrap().unwrap();
    assert_eq!(l5.sms_type, SmsType::GovNotice);
    // The weak samples go through the mock and are flagged for review.
    let l4 = store.get_label(4).unwrap().unwrap();
    assert_eq!(l4.industry, Industry::Other);
    assert!(l4.needs_review);
}
