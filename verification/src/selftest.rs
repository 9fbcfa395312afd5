//! The offline self-test: a handful of deterministic sample messages
//! pushed through the whole pipeline against the mock backend.
//!
//! Everything here is pure computation over the store, so the run is
//! verified end to end: afterwards every message in the store carries
//! a system-written label.

use vstd::prelude::*;

use crate::fusion::{fuse, FusionInput};
use crate::provider::{mock_classify, ClassifyPayload};
use crate::rules::run_rules;
use crate::schema::{copy_entities, copy_signals};
use crate::store::{store_wf, Store, StoreError};

verus! {

/// What a self-test run produced.
pub struct SelftestRunResult {
    pub inserted: usize,
    pub labeled: usize,
}

/// The fixed sample messages of the self-test.
pub fn selftest_samples() -> (r: Vec<String>)
    ensures
        r@.len() == 6,
        forall|k: int| 0 <= k < 6 ==> (#[trigger] r@[k])@.len() > 0,
{
    proof {
        reveal_strlit("【银行】您尾号1234的信用卡本期账单已出，最低还款200元，点击查看。");
        reveal_strlit("验证码：839204（5分钟内有效），请勿泄露。");
        reveal_strlit("【快递】您的包裹已到驿站，请凭取件码A1234领取。");
        reveal_strlit("【外卖】骑手已到达，请保持电话畅通。");
        reveal_strlit("【政务】您有一条新的政务通知，请登录查看。");
        reveal_strlit("【电商】订单已发货，预计明天送达，感谢您的购买。");
    }
    let mut r: Vec<String> = Vec::new();
    r.push(String::from_str("【银行】您尾号1234的信用卡本期账单已出，最低还款200元，点击查看。"));
    r.push(String::from_str("验证码：839204（5分钟内有效），请勿泄露。"));
    r.push(String::from_str("【快递】您的包裹已到驿站，请凭取件码A1234领取。"));
    r.push(String::from_str("【外卖】骑手已到达，请保持电话畅通。"));
    r.push(String::from_str("【政务】您有一条新的政务通知，请登录查看。"));
    r.push(String::from_str("【电商】订单已发货，预计明天送达，感谢您的购买。"));
    r
}

/// Classifies one message with the rules and the mock backend and
/// writes the fused label: the per-message pipeline, minus the real
/// provider call.
pub fn label_one_with_mock(store: &mut Store, id: i64, now_ms: i64) -> (r: Result<(), StoreError>)
    ensures
        match r {
            Ok(()) => {
                &&& 1 <= id <= old(store).messages@.len()
                &&& final(store).messages@.len() == old(store).messages@.len()
                &&& final(store).audit@ == old(store).audit@
                &&& forall|j: int|
                    0 <= j < old(store).messages@.len() && j != id - 1 ==> final(store).messages@[j] == old(store).messages@[j]
                &&& ({
                    let m = final(store).messages@[id - 1];
                    &&& m.content == old(store).messages@[id - 1].content
                    &&& match m.label {
                        Some(lr) => !lr.is_manual && lr.updated_by@ == "system"@,
                        None => false,
                    }
                })
            },
            Err(e) => e == StoreError::NotFound && !(1 <= id <= old(store).messages@.len())
                && final(store).messages@ == old(store).messages@ && final(store).audit@ == old(store).audit@,
        },
{
    let content = match store.get_message_content(id) {
        Ok(c) => c,
        Err(e) => {
            return Err(e);
        },
    };
    let rule = run_rules(content.as_str(), None);
    let fused = if rule.strong_hit {
        fuse(FusionInput { rule: rule.label, model: None, rule_strong_hit: true })
    } else {
        let payload = ClassifyPayload {
            message_id: id,
            content,
            entities: copy_entities(&rule.entities),
            signals: copy_signals(&rule.signals),
        };
        let model = mock_classify(&payload);
        fuse(FusionInput { rule: rule.label, model: Some(model), rule_strong_hit: false })
    };
    store.upsert_label_auto(id, &fused, now_ms)
}

/// Runs the self-test: inserts the six samples, then labels every
/// message in the store through the rules-plus-mock pipeline.
/// Afterwards every message carries a system label.
#[verifier::loop_isolation(false)]
pub fn selftest_run(store: &mut Store, now_ms: i64) -> (r: Result<SelftestRunResult, StoreError>)
    requires
        store_wf(*old(store)),
    ensures
        match r {
            Ok(res) => {
                &&& res.inserted == 6
                &&& res.labeled == final(store).messages@.len()
                &&& final(store).messages@.len() == old(store).messages@.len() + 6
                &&& forall|j: int|
                    0 <= j < final(store).messages@.len() ==> match (#[trigger] final(store).messages@[j]).label {
                        Some(lr) => !lr.is_manual && lr.updated_by@ == "system"@,
                        None => false,
                    }
            },
            Err(e) => {
                &&& e == StoreError::Storage
                &&& old(store).messages@.len() + 6 > 0x7fff_ffff_ffff_ffff
                &&& final(store).audit@ == old(store).audit@
                &&& old(store).messages@.len() <= final(store).messages@.len()
                &&& forall|j: int|
                    0 <= j < old(store).messages@.len() ==> final(store).messages@[j] == old(
                        store,
                    ).messages@[j]
            },
        },
{
    let samples = selftest_samples();
    let mut inserted: usize = 0;
    let mut k: usize = 0;
    while k < samples.len()
        invariant
            k <= samples@.len(),
            samples@.len() == 6,
            forall|m: int| 0 <= m < 6 ==> (#[trigger] samples@[m])@.len() > 0,
            inserted == k,
            store_wf(*store),
            store.messages@.len() == old(store).messages@.len() + k,
            store.audit@ == old(store).audit@,
            forall|j: int|
                0 <= j < old(store).messages@.len() ==> store.messages@[j] == old(
                    store,
                ).messages@[j],
        decreases samples@.len() - k,
    {
        let content = samples[k].clone();
        match store.insert_message(content, None, None, None, Some(String::from_str("selftest"))) {
            Ok(_) => {
                inserted += 1;
            },
            Err(_) => {
                proof {
                    assert(store.messages@.len() >= 0x7fff_ffff_ffff_ffff);
                }
                return Err(StoreError::Storage);
            },
        }
        k += 1;
    }
    let n = store.messages_meta().0 as u64;
    let mut labeled: u64 = 0;
    let mut id: u64 = 1;
    while id <= n
        invariant
            1 <= id <= n + 1,
            n <= 0x7fff_ffff_ffff_ffff,
            store_wf(*store),
            n == store.messages@.len(),
            store.messages@.len() == old(store).messages@.len() + 6,
            store.audit@ == old(store).audit@,
            labeled == id - 1,
            forall|j: int|
                0 <= j < id - 1 ==> match (#[trigger] store.messages@[j]).label {
                    Some(lr) => !lr.is_manual && lr.updated_by@ == "system"@,
                    None => false,
                },
        decreases n - id + 1,
    {
        proof {
            vstd::std_specs::vec::axiom_spec_len(&store.messages);
        }
        match label_one_with_mock(store, id as i64, now_ms) {
            Ok(()) => {
                labeled += 1;
            },
            Err(_) => {
                proof {
                    assert(false);
                }
            },
        }
        id += 1;
    }
    Ok(SelftestRunResult { inserted, labeled: labeled as usize })
}

} // verus!
