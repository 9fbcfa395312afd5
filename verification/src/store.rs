//! The message/label store: an in-memory table with the exact
//! semantics the pipeline relies on.
//!
//! Messages get monotonically increasing ids starting at 1 and are
//! read-only after insertion; each message has at most one label row
//! (an upsert replaces it); a system upsert resets `is_manual`, a
//! manual update sets it and appends an audit entry with a structured
//! diff. Candidate selection and listing are specified over the
//! record sequence. Persistence lives outside this crate and mirrors
//! these operations.

use vstd::prelude::*;

use crate::batch::BatchOptions;
use crate::extract::{
    amount_mentioned, code_token_mentioned, has_amount_mention, has_code_token, has_url_mention,
    url_mentioned,
};
use crate::schema::{
    copy_label, copy_opt_string, label_model, opt_label_model, opt_view, Entities, Industry,
    Label, SmsType,
};
use crate::text::{chars_vec, contains_pat, contains_seq, str_eq};

verus! {

/// Why a store operation failed.
#[derive(Clone, Copy, PartialEq, Eq, Structural, Debug)]
pub enum StoreError {
    /// Bad input to a core operation (an empty message content).
    Validation,
    /// No message with the given id.
    NotFound,
    /// The store cannot hold another message.
    Storage,
}

/// A label row: the label plus its audit fields.
pub struct LabelRow {
    pub label: Label,
    pub updated_by: String,
    pub updated_at_ms: i64,
    pub is_manual: bool,
}

/// One stored message. Its id is its position: message `id` lives at
/// index `id - 1`.
pub struct MessageRecord {
    pub content: String,
    pub received_at: Option<String>,
    pub sender: Option<String>,
    pub phone: Option<String>,
    pub source: Option<String>,
    pub has_url: bool,
    pub has_amount: bool,
    pub has_verification_code: bool,
    pub label: Option<LabelRow>,
}

/// The structured before/after diff recorded on a manual review.
pub struct LabelDiff {
    pub industry_before: Option<Industry>,
    pub industry_after: Industry,
    pub sms_type_before: Option<SmsType>,
    pub sms_type_after: SmsType,
    pub needs_review_before: Option<bool>,
    pub needs_review_after: bool,
    pub confidence_before: Option<u32>,
    pub confidence_after: u32,
    pub entities_before: Option<Entities>,
    pub entities_after: Entities,
}

/// An append-only audit record of one manual review.
pub struct AuditEntry {
    pub message_id: i64,
    pub operator: String,
    pub before: Option<Label>,
    pub after: Label,
    pub diff: LabelDiff,
    pub at_ms: i64,
}

/// The store: messages in insertion order and the audit trail.
pub struct Store {
    pub messages: Vec<MessageRecord>,
    pub audit: Vec<AuditEntry>,
}

/// One row of a message listing.
pub struct MessageRow {
    pub id: i64,
    pub content: String,
    pub received_at: Option<String>,
    pub sender: Option<String>,
    pub phone: Option<String>,
    pub source: Option<String>,
    pub has_url: bool,
    pub has_amount: bool,
    pub has_verification_code: bool,
    pub label: Option<Label>,
}

/// A message listing filter. `None` fields do not filter. Label
/// filters (industry, type, review, confidence) exclude unlabeled
/// messages; `q` is a substring test over content, sender and source.
pub struct ListQuery {
    pub industry: Option<Industry>,
    pub sms_type: Option<SmsType>,
    pub needs_review: Option<bool>,
    pub conf_min: Option<u32>,
    pub conf_max: Option<u32>,
    pub has_url: Option<bool>,
    pub has_verification_code: Option<bool>,
    pub has_amount: Option<bool>,
    pub q: Option<String>,
    pub limit: usize,
    pub offset: usize,
}

/// A listing page: the count of all matches and the requested slice,
/// ordered by id descending.
pub struct ListResult {
    pub total: usize,
    pub rows: Vec<MessageRow>,
}

/// The candidate-set modes of a batch run.
#[derive(Clone, Copy, PartialEq, Eq, Structural, Debug)]
pub enum BatchMode {
    All,
    Unlabeled,
    NeedsReview,
}

pub open spec fn spec_parse_mode(s: Seq<char>) -> BatchMode {
    if s == "all"@ {
        BatchMode::All
    } else if s == "needs_review"@ {
        BatchMode::NeedsReview
    } else {
        BatchMode::Unlabeled
    }
}

/// Parses a mode string; anything unknown selects `Unlabeled`.
pub fn parse_mode(mode: &str) -> (m: BatchMode)
    ensures
        m == spec_parse_mode(mode@),
{
    if str_eq(mode, "all") {
        BatchMode::All
    } else if str_eq(mode, "needs_review") {
        BatchMode::NeedsReview
    } else {
        BatchMode::Unlabeled
    }
}

/// The derived flags of a message: a URL mention, a money mention,
/// and a four-to-eight digit token together with an OTP keyword.
pub open spec fn spec_flags(s: Seq<char>) -> (bool, bool, bool) {
    (
        url_mentioned(s),
        amount_mentioned(s),
        code_token_mentioned(s) && crate::extract::otp_keyword_present(s),
    )
}

/// Computes the three derived flags of a message content.
pub fn compute_flags(content: &str) -> (r: (bool, bool, bool))
    ensures
        (r.0, r.1, r.2) == spec_flags(content@),
{
    let hay = chars_vec(content);
    let has_url = has_url_mention(&hay);
    let has_amount = has_amount_mention(&hay);
    let has_code = has_code_token(&hay) && crate::extract::has_otp_keyword(&hay);
    (has_url, has_amount, has_code)
}

/// The store is well formed: every id fits the id type.
pub open spec fn store_wf(s: Store) -> bool {
    s.messages@.len() <= 0x7fff_ffff_ffff_ffff
}

/// Message `id` qualifies for `mode`.
pub open spec fn candidate_ok(m: MessageRecord, mode: BatchMode) -> bool {
    match mode {
        BatchMode::All => true,
        BatchMode::Unlabeled => m.label is None,
        BatchMode::NeedsReview => match m.label {
            Some(lr) => lr.label.needs_review,
            None => false,
        },
    }
}

pub open spec fn id_in_range(id: int, id_min: Option<i64>, id_max: Option<i64>) -> bool {
    &&& match id_min {
        Some(lo) => id >= lo,
        None => true,
    }
    &&& match id_max {
        Some(hi) => id <= hi,
        None => true,
    }
}

/// The qualifying ids from 0-based index `i` on, ascending.
pub open spec fn candidates_from(
    msgs: Seq<MessageRecord>,
    i: int,
    mode: BatchMode,
    id_min: Option<i64>,
    id_max: Option<i64>,
) -> Seq<i64>
    decreases msgs.len() - i,
{
    if i < 0 || i >= msgs.len() {
        Seq::<i64>::empty()
    } else {
        (if candidate_ok(msgs[i], mode) && id_in_range(i + 1, id_min, id_max) {
            seq![(i + 1) as i64]
        } else {
            Seq::<i64>::empty()
        }) + candidates_from(msgs, i + 1, mode, id_min, id_max)
    }
}

/// A message row matches a listing filter.
pub open spec fn spec_row_matches(m: MessageRecord, q: ListQuery) -> bool {
    &&& match q.industry {
        Some(ind) => match m.label {
            Some(lr) => lr.label.industry == ind,
            None => false,
        },
        None => true,
    }
    &&& match q.sms_type {
        Some(t) => match m.label {
            Some(lr) => lr.label.sms_type == t,
            None => false,
        },
        None => true,
    }
    &&& match q.needs_review {
        Some(b) => match m.label {
            Some(lr) => lr.label.needs_review == b,
            None => false,
        },
        None => true,
    }
    &&& match q.conf_min {
        Some(c) => match m.label {
            Some(lr) => lr.label.confidence >= c,
            None => false,
        },
        None => true,
    }
    &&& match q.conf_max {
        Some(c) => match m.label {
            Some(lr) => lr.label.confidence <= c,
            None => false,
        },
        None => true,
    }
    &&& match q.has_url {
        Some(b) => m.has_url == b,
        None => true,
    }
    &&& match q.has_verification_code {
        Some(b) => m.has_verification_code == b,
        None => true,
    }
    &&& match q.has_amount {
        Some(b) => m.has_amount == b,
        None => true,
    }
    &&& match q.q {
        Some(text) => contains_seq(m.content@, text@) || (match m.sender {
            Some(sn) => contains_seq(sn@, text@),
            None => false,
        }) || (match m.source {
            Some(src) => contains_seq(src@, text@),
            None => false,
        }),
        None => true,
    }
}

/// The matching ids from id `i` down to 1, descending.
pub open spec fn matching_desc(msgs: Seq<MessageRecord>, i: int, q: ListQuery) -> Seq<i64>
    decreases i,
{
    if i <= 0 || i > msgs.len() {
        Seq::<i64>::empty()
    } else {
        (if spec_row_matches(msgs[i - 1], q) {
            seq![i as i64]
        } else {
            Seq::<i64>::empty()
        }) + matching_desc(msgs, i - 1, q)
    }
}

/// The listing row faithfully reflects the stored record.
pub open spec fn row_of_ok(rec: MessageRecord, row: MessageRow) -> bool {
    &&& row.content@ == rec.content@
    &&& opt_view(row.received_at) == opt_view(rec.received_at)
    &&& opt_view(row.sender) == opt_view(rec.sender)
    &&& opt_view(row.phone) == opt_view(rec.phone)
    &&& opt_view(row.source) == opt_view(rec.source)
    &&& row.has_url == rec.has_url
    &&& row.has_amount == rec.has_amount
    &&& row.has_verification_code == rec.has_verification_code
    &&& opt_label_model(row.label) == (match rec.label {
        Some(lr) => Some(label_model(lr.label)),
        None => None,
    })
}

impl Store {
    /// An empty store.
    pub fn new() -> (s: Self)
        ensures
            s.messages@ == Seq::<MessageRecord>::empty(),
            s.audit@ == Seq::<AuditEntry>::empty(),
    {
        Store { messages: Vec::new(), audit: Vec::new() }
    }

    /// The number of messages and the highest id (ids are contiguous
    /// from 1).
    pub fn messages_meta(&self) -> (r: (usize, usize))
        ensures
            r.0 == self.messages@.len(),
            r.1 == self.messages@.len(),
    {
        (self.messages.len(), self.messages.len())
    }

    /// Inserts a message, computing its derived flags from the
    /// content. Rejects empty content; returns the new id, one past
    /// the previous highest.
    pub fn insert_message(
        &mut self,
        content: String,
        received_at: Option<String>,
        sender: Option<String>,
        phone: Option<String>,
        source: Option<String>,
    ) -> (r: Result<i64, StoreError>)
        ensures
            match r {
                Ok(id) => {
                    &&& content@.len() > 0
                    &&& id as int == old(self).messages@.len() + 1
                    &&& final(self).messages@.len() == old(self).messages@.len() + 1
                    &&& forall|j: int|
                        0 <= j < old(self).messages@.len() ==> final(self).messages@[j] == old(self).messages@[j]
                    &&& ({
                        let m = final(self).messages@.last();
                        &&& m.content == content
                        &&& m.received_at == received_at
                        &&& m.sender == sender
                        &&& m.phone == phone
                        &&& m.source == source
                        &&& (m.has_url, m.has_amount, m.has_verification_code) == spec_flags(
                            content@,
                        )
                        &&& m.label is None
                    })
                    &&& final(self).audit@ == old(self).audit@
                    &&& store_wf(*final(self))
                },
                Err(StoreError::Validation) => content@.len() == 0 && final(self).messages@ == old(self).messages@ && final(self).audit@ == old(self).audit@,
                Err(StoreError::Storage) => old(self).messages@.len() >= 0x7fff_ffff_ffff_ffff
                    && final(self).messages@ == old(self).messages@ && final(self).audit@ == old(self).audit@,
                Err(StoreError::NotFound) => false,
            },
    {
        if content.as_str().unicode_len() == 0 {
            return Err(StoreError::Validation);
        }
        proof {
            vstd::std_specs::vec::axiom_spec_len(&self.messages);
        }
        if self.messages.len() as u64 >= 0x7fff_ffff_ffff_ffff {
            return Err(StoreError::Storage);
        }
        let (has_url, has_amount, has_verification_code) = compute_flags(content.as_str());
        let rec = MessageRecord {
            content,
            received_at,
            sender,
            phone,
            source,
            has_url,
            has_amount,
            has_verification_code,
            label: None,
        };
        self.messages.push(rec);
        Ok(self.messages.len() as i64)
    }

    /// The content of message `id`; `NotFound` when no such id.
    pub fn get_message_content(&self, id: i64) -> (r: Result<String, StoreError>)
        ensures
            match r {
                Ok(c) => 1 <= id <= self.messages@.len() && c@ == self.messages@[id - 1].content@,
                Err(e) => e == StoreError::NotFound && !(1 <= id <= self.messages@.len()),
            },
    {
        proof {
            vstd::std_specs::vec::axiom_spec_len(&self.messages);
        }
        if id < 1 || id as u64 > self.messages.len() as u64 {
            return Err(StoreError::NotFound);
        }
        let idx = (id as u64 - 1) as usize;
        Ok(self.messages[idx].content.clone())
    }

    /// The label of message `id`, if any; `NotFound` when no such id.
    pub fn get_label(&self, id: i64) -> (r: Result<Option<Label>, StoreError>)
        ensures
            match r {
                Ok(l) => 1 <= id <= self.messages@.len() && opt_label_model(l) == (
                match self.messages@[id - 1].label {
                    Some(lr) => Some(label_model(lr.label)),
                    None => None,
                }),
                Err(e) => e == StoreError::NotFound && !(1 <= id <= self.messages@.len()),
            },
    {
        proof {
            vstd::std_specs::vec::axiom_spec_len(&self.messages);
        }
        if id < 1 || id as u64 > self.messages.len() as u64 {
            return Err(StoreError::NotFound);
        }
        let idx = (id as u64 - 1) as usize;
        match &self.messages[idx].label {
            Some(lr) => Ok(Some(copy_label(&lr.label))),
            None => Ok(None),
        }
    }

    /// Writes the system's label for message `id` (insert or replace):
    /// `updated_by` becomes `system` and `is_manual` is reset.
    pub fn upsert_label_auto(&mut self, id: i64, label: &Label, now_ms: i64) -> (r: Result<
        (),
        StoreError,
    >)
        ensures
            match r {
                Ok(()) => {
                    &&& 1 <= id <= old(self).messages@.len()
                    &&& final(self).messages@.len() == old(self).messages@.len()
                    &&& forall|j: int|
                        0 <= j < old(self).messages@.len() && j != id - 1 ==> final(self).messages@[j] == old(self).messages@[j]
                    &&& ({
                        let m0 = old(self).messages@[id - 1];
                        let m = final(self).messages@[id - 1];
                        &&& m.content == m0.content
                        &&& m.received_at == m0.received_at
                        &&& m.sender == m0.sender
                        &&& m.phone == m0.phone
                        &&& m.source == m0.source
                        &&& m.has_url == m0.has_url
                        &&& m.has_amount == m0.has_amount
                        &&& m.has_verification_code == m0.has_verification_code
                        &&& match m.label {
                            Some(lr) => {
                                &&& label_model(lr.label) == label_model(*label)
                                &&& lr.updated_by@ == "system"@
                                &&& lr.updated_at_ms == now_ms
                                &&& lr.is_manual == false
                            },
                            None => false,
                        }
                    })
                    &&& final(self).audit@ == old(self).audit@
                },
                Err(e) => e == StoreError::NotFound && !(1 <= id <= old(self).messages@.len())
                    && final(self).messages@ == old(self).messages@ && final(self).audit@ == old(self).audit@,
            },
    {
        proof {
            vstd::std_specs::vec::axiom_spec_len(&self.messages);
        }
        if id < 1 || id as u64 > self.messages.len() as u64 {
            return Err(StoreError::NotFound);
        }
        let idx = (id as u64 - 1) as usize;
        let rec = self.rebuild_with_label(
            idx,
            Some(
                LabelRow {
                    label: copy_label(label),
                    updated_by: String::from_str("system"),
                    updated_at_ms: now_ms,
                    is_manual: false,
                },
            ),
        );
        self.messages.set(idx, rec);
        Ok(())
    }

    /// A copy of record `idx` with its label row replaced.
    fn rebuild_with_label(&self, idx: usize, label: Option<LabelRow>) -> (rec: MessageRecord)
        requires
            idx < self.messages@.len(),
        ensures
            ({
                let m0 = self.messages@[idx as int];
                &&& rec.content == m0.content
                &&& rec.received_at == m0.received_at
                &&& rec.sender == m0.sender
                &&& rec.phone == m0.phone
                &&& rec.source == m0.source
                &&& rec.has_url == m0.has_url
                &&& rec.has_amount == m0.has_amount
                &&& rec.has_verification_code == m0.has_verification_code
                &&& rec.label == label
            }),
    {
        let m = &self.messages[idx];
        MessageRecord {
            content: m.content.clone(),
            received_at: copy_opt_string(&m.received_at),
            sender: copy_opt_string(&m.sender),
            phone: copy_opt_string(&m.phone),
            source: copy_opt_string(&m.source),
            has_url: m.has_url,
            has_amount: m.has_amount,
            has_verification_code: m.has_verification_code,
            label,
        }
    }

    /// Records a manual review: writes the operator's label with
    /// `is_manual` set and appends an audit entry whose diff holds the
    /// before/after of industry, type, review flag, confidence and
    /// entities.
    pub fn label_update_manual(
        &mut self,
        id: i64,
        operator: &str,
        new_label: Label,
        now_ms: i64,
    ) -> (r: Result<(), StoreError>)
        ensures
            match r {
                Ok(()) => {
                    &&& 1 <= id <= old(self).messages@.len()
                    &&& final(self).messages@.len() == old(self).messages@.len()
                    &&& forall|j: int|
                        0 <= j < old(self).messages@.len() && j != id - 1 ==> final(self).messages@[j] == old(self).messages@[j]
                    &&& ({
                        let m0 = old(self).messages@[id - 1];
                        let m = final(self).messages@[id - 1];
                        &&& m.content == m0.content
                        &&& match m.label {
                            Some(lr) => {
                                &&& label_model(lr.label) == label_model(new_label)
                                &&& lr.updated_by@ == operator@
                                &&& lr.updated_at_ms == now_ms
                                &&& lr.is_manual == true
                            },
                            None => false,
                        }
                    })
                    &&& final(self).audit@.len() == old(self).audit@.len() + 1
                    &&& forall|j: int|
                        0 <= j < old(self).audit@.len() ==> final(self).audit@[j] == old(self).audit@[j]
                    &&& ({
                        let m0 = old(self).messages@[id - 1];
                        let before = match m0.label {
                            Some(lr) => Some(label_model(lr.label)),
                            None => None,
                        };
                        let a = final(self).audit@.last();
                        &&& a.message_id == id
                        &&& a.operator@ == operator@
                        &&& (match a.before {
                            Some(b) => before == Some(label_model(b)),
                            None => before is None,
                        })
                        &&& label_model(a.after) == label_model(new_label)
                        &&& a.at_ms == now_ms
                        &&& a.diff.industry_before == (match m0.label {
                            Some(lr) => Some(lr.label.industry),
                            None => None,
                        })
                        &&& a.diff.industry_after == new_label.industry
                        &&& a.diff.sms_type_before == (match m0.label {
                            Some(lr) => Some(lr.label.sms_type),
                            None => None,
                        })
                        &&& a.diff.sms_type_after == new_label.sms_type
                        &&& a.diff.needs_review_before == (match m0.label {
                            Some(lr) => Some(lr.label.needs_review),
                            None => None,
                        })
                        &&& a.diff.needs_review_after == new_label.needs_review
                        &&& a.diff.confidence_before == (match m0.label {
                            Some(lr) => Some(lr.label.confidence),
                            None => None,
                        })
                        &&& a.diff.confidence_after == new_label.confidence
                        &&& (match (a.diff.entities_before, m0.label) {
                            (Some(e), Some(lr)) => crate::schema::entities_model(e)
                                == crate::schema::entities_model(lr.label.entities),
                            (None, None) => true,
                            _ => false,
                        })
                        &&& crate::schema::entities_model(a.diff.entities_after)
                            == crate::schema::entities_model(new_label.entities)
                    })
                },
                Err(e) => e == StoreError::NotFound && !(1 <= id <= old(self).messages@.len())
                    && final(self).messages@ == old(self).messages@ && final(self).audit@ == old(self).audit@,
            },
    {
        proof {
            vstd::std_specs::vec::axiom_spec_len(&self.messages);
        }
        if id < 1 || id as u64 > self.messages.len() as u64 {
            return Err(StoreError::NotFound);
        }
        let idx = (id as u64 - 1) as usize;
        let before: Option<Label> = match &self.messages[idx].label {
            Some(lr) => Some(copy_label(&lr.label)),
            None => None,
        };
        let diff = LabelDiff {
            industry_before: match &before {
                Some(b) => Some(b.industry),
                None => None,
            },
            industry_after: new_label.industry,
            sms_type_before: match &before {
                Some(b) => Some(b.sms_type),
                None => None,
            },
            sms_type_after: new_label.sms_type,
            needs_review_before: match &before {
                Some(b) => Some(b.needs_review),
                None => None,
            },
            needs_review_after: new_label.needs_review,
            confidence_before: match &before {
                Some(b) => Some(b.confidence),
                None => None,
            },
            confidence_after: new_label.confidence,
            entities_before: match &before {
                Some(b) => Some(crate::schema::copy_entities(&b.entities)),
                None => None,
            },
            entities_after: crate::schema::copy_entities(&new_label.entities),
        };
        let rec = self.rebuild_with_label(
            idx,
            Some(
                LabelRow {
                    label: copy_label(&new_label),
                    updated_by: String::from_str(operator),
                    updated_at_ms: now_ms,
                    is_manual: true,
                },
            ),
        );
        self.messages.set(idx, rec);
        self.audit.push(
            AuditEntry {
                message_id: id,
                operator: String::from_str(operator),
                before,
                after: new_label,
                diff,
                at_ms: now_ms,
            },
        );
        Ok(())
    }

    /// The candidate ids for a batch run: qualifying ids ascending,
    /// truncated to `limit`.
    #[verifier::loop_isolation(false)]
    pub fn fetch_batch_candidates(
        &self,
        mode: &str,
        limit: usize,
        id_min: Option<i64>,
        id_max: Option<i64>,
    ) -> (r: Vec<i64>)
        requires
            store_wf(*self),
        ensures
            ({
                let c = candidates_from(
                    self.messages@,
                    0,
                    spec_parse_mode(mode@),
                    id_min,
                    id_max,
                );
                r@ == if c.len() <= limit {
                    c
                } else {
                    c.take(limit as int)
                }
            }),
    {
        let m = parse_mode(mode);
        let ghost mspec = spec_parse_mode(mode@);
        let mut r: Vec<i64> = Vec::new();
        let mut i: usize = 0;
        proof {
            vstd::std_specs::vec::axiom_spec_len(&self.messages);
        }
        let n = self.messages.len();
        while i < n
            invariant
                i <= n,
                n == self.messages@.len(),
                m == mspec,
                candidates_from(self.messages@, 0, mspec, id_min, id_max) == r@
                    + candidates_from(self.messages@, i as int, mspec, id_min, id_max),
                r@.len() <= i,
            decreases n - i,
        {
            let rec = &self.messages[i];
            let ok = match m {
                BatchMode::All => true,
                BatchMode::Unlabeled => rec.label.is_none(),
                BatchMode::NeedsReview => match &rec.label {
                    Some(lr) => lr.label.needs_review,
                    None => false,
                },
            };
            let id = (i as u64 + 1) as i64;
            let in_range = (match id_min {
                Some(lo) => id >= lo,
                None => true,
            }) && (match id_max {
                Some(hi) => id <= hi,
                None => true,
            });
            if ok && in_range {
                r.push(id);
            }
            proof {
                assert(candidates_from(self.messages@, 0, mspec, id_min, id_max) =~= r@
                    + candidates_from(self.messages@, i + 1, mspec, id_min, id_max));
            }
            i += 1;
        }
        if r.len() > limit {
            r.truncate(limit);
            proof {
                assert(r@ =~= candidates_from(
                    self.messages@,
                    0,
                    mspec,
                    id_min,
                    id_max,
                ).take(limit as int));
            }
        }
        r
    }

    /// Lists messages matching a filter, newest first, with paging:
    /// `total` counts every match, `rows` is the page
    /// `[offset, offset + limit)` of the descending match list.
    #[verifier::loop_isolation(false)]
    pub fn messages_list(&self, q: &ListQuery) -> (r: ListResult)
        requires
            store_wf(*self),
        ensures
            ({
                let matched = matching_desc(self.messages@, self.messages@.len() as int, *q);
                &&& r.total == matched.len()
                &&& r.rows@.len() == (if matched.len() <= q.offset {
                    0int
                } else if matched.len() - q.offset <= q.limit {
                    matched.len() - q.offset
                } else {
                    q.limit as int
                })
                &&& forall|k: int|
                    0 <= k < r.rows@.len() ==> (#[trigger] r.rows@[k]).id == matched[q.offset + k]
                        && 1 <= matched[q.offset + k] <= self.messages@.len() && row_of_ok(
                        self.messages@[matched[q.offset + k] - 1],
                        r.rows@[k],
                    )
            }),
    {
        proof {
            vstd::std_specs::vec::axiom_spec_len(&self.messages);
        }
        let n = self.messages.len();
        let ghost s = self.messages@;
        let mut rows: Vec<MessageRow> = Vec::new();
        let mut total: usize = 0;
        let ghost mut seen: Seq<i64> = Seq::<i64>::empty();
        let mut i: usize = n;
        while i > 0
            invariant
                i <= n,
                n == s.len(),
                s == self.messages@,
                matching_desc(s, n as int, *q) == seen + matching_desc(s, i as int, *q),
                total == seen.len(),
                seen.len() + i <= n,
                total <= n,
                forall|k: int| 0 <= k < seen.len() ==> 1 <= #[trigger] seen[k] <= n,
                rows@.len() == (if seen.len() <= q.offset {
                    0int
                } else if seen.len() - q.offset <= q.limit {
                    seen.len() - q.offset
                } else {
                    q.limit as int
                }),
                forall|k: int|
                    0 <= k < rows@.len() ==> (#[trigger] rows@[k]).id == seen[q.offset + k] && 1
                        <= seen[q.offset + k] <= n && row_of_ok(
                        s[seen[q.offset + k] - 1],
                        rows@[k],
                    ),
            decreases i,
        {
            let idx = i - 1;
            let rec = &self.messages[idx];
            if row_matches(rec, q) {
                let k = total;
                total = total + 1;
                proof {
                    seen = seen.push(i as i64);
                }
                if k >= q.offset && rows.len() < q.limit {
                    let row = MessageRow {
                        id: i as i64,
                        content: rec.content.clone(),
                        received_at: copy_opt_string(&rec.received_at),
                        sender: copy_opt_string(&rec.sender),
                        phone: copy_opt_string(&rec.phone),
                        source: copy_opt_string(&rec.source),
                        has_url: rec.has_url,
                        has_amount: rec.has_amount,
                        has_verification_code: rec.has_verification_code,
                        label: match &rec.label {
                            Some(lr) => Some(copy_label(&lr.label)),
                            None => None,
                        },
                    };
                    rows.push(row);
                }
            }
            proof {
                assert(matching_desc(s, i as int, *q) =~= (if spec_row_matches(s[i - 1], *q) {
                    seq![i as i64]
                } else {
                    Seq::<i64>::empty()
                }) + matching_desc(s, i - 1, *q));
                assert(matching_desc(s, n as int, *q) =~= seen + matching_desc(
                    s,
                    i - 1,
                    *q,
                ));
            }
            i = idx;
        }
        ListResult { total, rows }
    }
}

/// Whether one record matches a listing filter.
fn row_matches(rec: &MessageRecord, q: &ListQuery) -> (b: bool)
    ensures
        b == spec_row_matches(*rec, *q),
{
    let label_ok = match q.industry {
        Some(ind) => match &rec.label {
            Some(lr) => lr.label.industry == ind,
            None => false,
        },
        None => true,
    };
    if !label_ok {
        return false;
    }
    let type_ok = match q.sms_type {
        Some(t) => match &rec.label {
            Some(lr) => lr.label.sms_type == t,
            None => false,
        },
        None => true,
    };
    if !type_ok {
        return false;
    }
    let review_ok = match q.needs_review {
        Some(b) => match &rec.label {
            Some(lr) => lr.label.needs_review == b,
            None => false,
        },
        None => true,
    };
    if !review_ok {
        return false;
    }
    let conf_min_ok = match q.conf_min {
        Some(c) => match &rec.label {
            Some(lr) => lr.label.confidence >= c,
            None => false,
        },
        None => true,
    };
    if !conf_min_ok {
        return false;
    }
    let conf_max_ok = match q.conf_max {
        Some(c) => match &rec.label {
            Some(lr) => lr.label.confidence <= c,
            None => false,
        },
        None => true,
    };
    if !conf_max_ok {
        return false;
    }
    let url_ok = match q.has_url {
        Some(b) => rec.has_url == b,
        None => true,
    };
    if !url_ok {
        return false;
    }
    let code_ok = match q.has_verification_code {
        Some(b) => rec.has_verification_code == b,
        None => true,
    };
    if !code_ok {
        return false;
    }
    let amount_ok = match q.has_amount {
        Some(b) => rec.has_amount == b,
        None => true,
    };
    if !amount_ok {
        return false;
    }
    match &q.q {
        Some(text) => {
            let pat = chars_vec(text.as_str());
            let ch = chars_vec(rec.content.as_str());
            if contains_pat(&ch, &pat) {
                return true;
            }
            match &rec.sender {
                Some(sn) => {
                    let sv = chars_vec(sn.as_str());
                    if contains_pat(&sv, &pat) {
                        return true;
                    }
                },
                None => {},
            }
            match &rec.source {
                Some(src) => {
                    let sv = chars_vec(src.as_str());
                    if contains_pat(&sv, &pat) {
                        return true;
                    }
                },
                None => {},
            }
            false
        },
        None => true,
    }
}

/// Selects and truncates the batch candidate set with the documented
/// cap, from the batch options.
pub fn candidates_for_options(store: &Store, options: &BatchOptions) -> (r: Vec<i64>)
    requires
        store_wf(*store),
    ensures
        ({
            let c = candidates_from(
                store.messages@,
                0,
                spec_parse_mode(options.mode@),
                options.id_min,
                options.id_max,
            );
            r@ == if c.len() <= 100000 {
                c
            } else {
                c.take(100000)
            }
        }),
{
    store.fetch_batch_candidates(options.mode.as_str(), 100000, options.id_min, options.id_max)
}

} // verus!
