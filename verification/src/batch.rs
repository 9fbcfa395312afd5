//! The batch executor's state machine and per-message decisions.
//!
//! The executor itself runs in ordinary code (threads, channels, the
//! provider call); every decision it takes — what to dispatch next,
//! how each finished job changes the progress counters, which label is
//! written for a message — is a function here with a contract. The
//! accounting laws (failed ids are exactly the failed jobs; done
//! counts successes plus failures and nothing else) are proved over
//! arbitrary result sequences.

use vstd::prelude::*;

use crate::fusion::{fuse, spec_fuse, FusionInput};
use crate::rules::RuleResult;
use crate::schema::{
    entities_model, error_fallback, label_model, opt_label_model, signals_model,
    spec_error_fallback, Label,
};

verus! {

/// Options for one batch run. `mode` selects the candidate set (`all`,
/// `unlabeled`, `needs_review`); unknown text means `unlabeled`.
pub struct BatchOptions {
    pub mode: String,
    pub concurrency: usize,
    pub timeout_ms: u64,
    pub max_retries: i64,
    pub id_min: Option<i64>,
    pub id_max: Option<i64>,
}

impl Default for BatchOptions {
    /// Two workers, a 15 s timeout, one retry, over unlabeled messages.
    fn default() -> (r: Self)
        ensures
            r.mode@ == "unlabeled"@,
            r.concurrency == 2,
            r.timeout_ms == 15000,
            r.max_retries == 1,
            r.id_min is None,
            r.id_max is None,
    {
        BatchOptions {
            mode: String::from_str("unlabeled"),
            concurrency: 2,
            timeout_ms: 15000,
            max_retries: 1,
            id_min: None,
            id_max: None,
        }
    }
}

/// The worker-pool size actually used: `concurrency` clamped to 1..=8.
pub fn effective_concurrency(concurrency: usize) -> (r: usize)
    ensures
        r == (if concurrency < 1 {
            1usize
        } else if concurrency > 8 {
            8usize
        } else {
            concurrency
        }),
{
    if concurrency < 1 {
        1
    } else if concurrency > 8 {
        8
    } else {
        concurrency
    }
}

/// The provider timeout actually used: at least 1000 ms.
pub fn effective_timeout_ms(timeout_ms: u64) -> (r: u64)
    ensures
        r == (if timeout_ms < 1000 {
            1000u64
        } else {
            timeout_ms
        }),
{
    if timeout_ms < 1000 {
        1000
    } else {
        timeout_ms
    }
}

/// How many classify attempts a weak message gets: one plus the retry
/// count (negative retry counts mean none); a strong hit gets zero.
pub open spec fn spec_attempt_budget(strong_hit: bool, max_retries: int) -> int {
    if strong_hit {
        0
    } else if max_retries < 0 {
        1
    } else {
        1 + max_retries
    }
}

/// The number of provider attempts allowed for one message.
pub fn attempt_budget(strong_hit: bool, max_retries: i64) -> (n: u64)
    ensures
        n as int == spec_attempt_budget(strong_hit, max_retries as int),
        strong_hit ==> n == 0,
{
    if strong_hit {
        0
    } else if max_retries < 0 {
        1
    } else {
        1 + (max_retries as u64)
    }
}

/// A progress snapshot. `done` counts successes and failures; jobs cut
/// off by a stop request count in neither. Snapshots taken mid-run are
/// advisory; `done == total` is the completion predicate.
#[derive(Clone, Copy, PartialEq, Eq, Structural, Debug)]
pub struct BatchProgress {
    pub running: bool,
    pub total: u64,
    pub done: u64,
    pub failed: u64,
    pub rule_strong_hits: u64,
    pub model_calls: u64,
    pub model_failures: u64,
    pub current_message_id: Option<i64>,
    pub started_at_ms: Option<i64>,
    pub elapsed_ms: u64,
}

/// How one dispatched job ended. `Stopped` marks a job cut off by a
/// stop request before it ran: neither success nor failure.
#[derive(Clone, Copy, PartialEq, Eq, Structural, Debug)]
pub enum JobOutcome {
    Success,
    Failure,
    Stopped,
}

/// The executor's shared state: the progress record, the stop flag,
/// the ids that failed (for retry), and the pending queue in dispatch
/// order.
pub struct BatchState {
    pub progress: BatchProgress,
    pub stop: bool,
    pub failed_ids: Vec<i64>,
    pub pending: Vec<i64>,
}

/// The mathematical view of a `BatchState`.
pub struct BatchModel {
    pub progress: BatchProgress,
    pub stop: bool,
    pub failed_ids: Seq<i64>,
    pub pending: Seq<i64>,
}

pub open spec fn state_model(s: BatchState) -> BatchModel {
    BatchModel {
        progress: s.progress,
        stop: s.stop,
        failed_ids: s.failed_ids@,
        pending: s.pending@,
    }
}

/// `x + 1`, capped at the counter type's maximum.
pub open spec fn sat_inc(x: u64) -> u64 {
    if x < u64::MAX {
        (x + 1) as u64
    } else {
        x
    }
}

impl BatchState {
    /// A fresh, idle executor state.
    pub fn new() -> (s: Self)
        ensures
            s.progress == (BatchProgress {
                running: false,
                total: 0,
                done: 0,
                failed: 0,
                rule_strong_hits: 0,
                model_calls: 0,
                model_failures: 0,
                current_message_id: None,
                started_at_ms: None,
                elapsed_ms: 0,
            }),
            s.stop == false,
            s.failed_ids@ == Seq::<i64>::empty(),
            s.pending@ == Seq::<i64>::empty(),
    {
        let s = BatchState {
            progress: BatchProgress {
                running: false,
                total: 0,
                done: 0,
                failed: 0,
                rule_strong_hits: 0,
                model_calls: 0,
                model_failures: 0,
                current_message_id: None,
                started_at_ms: None,
                elapsed_ms: 0,
            },
            stop: false,
            failed_ids: Vec::new(),
            pending: Vec::new(),
        };
        s
    }

    /// The current progress snapshot.
    pub fn status(&self) -> (p: BatchProgress)
        ensures
            p == self.progress,
    {
        self.progress
    }

    /// Requests cancellation: observed before each dispatch and by each
    /// worker before each job.
    pub fn request_stop(&mut self)
        ensures
            final(self).stop == true,
            final(self).progress == old(self).progress,
            final(self).failed_ids@ == old(self).failed_ids@,
            final(self).pending@ == old(self).pending@,
    {
        self.stop = true;
    }

    /// Begins a batch over `ids` (already selected and ascending).
    /// Fails, changing nothing, when a batch is running. On success the
    /// stop flag, the failed list and every counter are reset, the
    /// queue is loaded, and the clock starts at `now_ms`.
    pub fn start(&mut self, ids: Vec<i64>, now_ms: i64) -> (r: Result<(), String>)
        ensures
            match r {
                Ok(()) => {
                    &&& !old(self).progress.running
                    &&& final(self).progress == (BatchProgress {
                        running: true,
                        total: ids@.len() as u64,
                        done: 0,
                        failed: 0,
                        rule_strong_hits: 0,
                        model_calls: 0,
                        model_failures: 0,
                        current_message_id: None,
                        started_at_ms: Some(now_ms),
                        elapsed_ms: 0,
                    })
                    &&& final(self).stop == false
                    &&& final(self).failed_ids@ == Seq::<i64>::empty()
                    &&& final(self).pending@ == ids@
                },
                Err(e) => {
                    &&& old(self).progress.running
                    &&& e@ == "batch already running"@
                    &&& state_model(*final(self)) == state_model(*old(self))
                },
            },
    {
        if self.progress.running {
            return Err(String::from_str("batch already running"));
        }
        proof {
            vstd::std_specs::vec::axiom_spec_len(&ids);
        }
        let total = ids.len() as u64;
        self.stop = false;
        self.failed_ids = Vec::new();
        self.pending = ids;
        self.progress = BatchProgress {
            running: true,
            total,
            done: 0,
            failed: 0,
            rule_strong_hits: 0,
            model_calls: 0,
            model_failures: 0,
            current_message_id: None,
            started_at_ms: Some(now_ms),
            elapsed_ms: 0,
        };
        Ok(())
    }

    /// Moves the accumulated failed ids back into the pending queue and
    /// resets the failed counter; refused while a batch is running.
    pub fn retry_failed(&mut self) -> (r: Result<(), String>)
        ensures
            match r {
                Ok(()) => {
                    &&& !old(self).progress.running
                    &&& final(self).pending@ == old(self).failed_ids@
                    &&& final(self).failed_ids@ == Seq::<i64>::empty()
                    &&& final(self).progress == (BatchProgress {
                        failed: 0,
                        ..old(self).progress
                    })
                    &&& final(self).stop == old(self).stop
                },
                Err(e) => {
                    &&& old(self).progress.running
                    &&& e@ == "batch is running"@
                    &&& state_model(*final(self)) == state_model(*old(self))
                },
            },
    {
        if self.progress.running {
            return Err(String::from_str("batch is running"));
        }
        let mut ids: Vec<i64> = Vec::new();
        core::mem::swap(&mut ids, &mut self.failed_ids);
        self.pending = ids;
        self.progress.failed = 0;
        Ok(())
    }

    /// Hands out the next id to dispatch: `None` once the stop flag is
    /// set or the queue is empty; otherwise the queue's head, which
    /// also becomes `current_message_id`.
    pub fn next_job(&mut self) -> (r: Option<i64>)
        ensures
            match r {
                Some(id) => {
                    &&& !old(self).stop
                    &&& old(self).pending@.len() > 0
                    &&& id == old(self).pending@[0]
                    &&& final(self).pending@ == old(self).pending@.drop_first()
                    &&& final(self).progress == (BatchProgress {
                        current_message_id: Some(id),
                        ..old(self).progress
                    })
                    &&& final(self).stop == old(self).stop
                    &&& final(self).failed_ids@ == old(self).failed_ids@
                },
                None => {
                    &&& (old(self).stop || old(self).pending@.len() == 0)
                    &&& state_model(*final(self)) == state_model(*old(self))
                },
            },
    {
        if self.stop {
            return None;
        }
        if self.pending.len() == 0 {
            return None;
        }
        let id = self.pending.remove(0);
        proof {
            assert(self.pending@ =~= old(self).pending@.drop_first());
        }
        self.progress.current_message_id = Some(id);
        Some(id)
    }

    /// Counts a strong rule hit.
    pub fn record_strong_hit(&mut self)
        ensures
            final(self).progress == (BatchProgress {
                rule_strong_hits: sat_inc(old(self).progress.rule_strong_hits),
                ..old(self).progress
            }),
            final(self).stop == old(self).stop,
            final(self).failed_ids@ == old(self).failed_ids@,
            final(self).pending@ == old(self).pending@,
    {
        if self.progress.rule_strong_hits < u64::MAX {
            self.progress.rule_strong_hits = self.progress.rule_strong_hits + 1;
        }
    }

    /// Counts a model consultation (once per weak message).
    pub fn record_model_call(&mut self)
        ensures
            final(self).progress == (BatchProgress {
                model_calls: sat_inc(old(self).progress.model_calls),
                ..old(self).progress
            }),
            final(self).stop == old(self).stop,
            final(self).failed_ids@ == old(self).failed_ids@,
            final(self).pending@ == old(self).pending@,
    {
        if self.progress.model_calls < u64::MAX {
            self.progress.model_calls = self.progress.model_calls + 1;
        }
    }

    /// Counts a message whose model attempts all failed.
    pub fn record_model_failure(&mut self)
        ensures
            final(self).progress == (BatchProgress {
                model_failures: sat_inc(old(self).progress.model_failures),
                ..old(self).progress
            }),
            final(self).stop == old(self).stop,
            final(self).failed_ids@ == old(self).failed_ids@,
            final(self).pending@ == old(self).pending@,
    {
        if self.progress.model_failures < u64::MAX {
            self.progress.model_failures = self.progress.model_failures + 1;
        }
    }

    /// Folds one finished job into the state (see `spec_on_result`):
    /// successes and failures bump `done`, failures also bump `failed`
    /// and record the id; stopped jobs change nothing.
    pub fn on_result(&mut self, id: i64, outcome: JobOutcome)
        ensures
            state_model(*final(self)) == spec_on_result(state_model(*old(self)), id, outcome),
    {
        match outcome {
            JobOutcome::Success => {
                if self.progress.done < u64::MAX {
                    self.progress.done = self.progress.done + 1;
                }
            },
            JobOutcome::Failure => {
                if self.progress.done < u64::MAX {
                    self.progress.done = self.progress.done + 1;
                }
                if self.progress.failed < u64::MAX {
                    self.progress.failed = self.progress.failed + 1;
                }
                self.failed_ids.push(id);
            },
            JobOutcome::Stopped => {},
        }
        proof {
            assert(state_model(*self) =~= spec_on_result(state_model(*old(self)), id, outcome));
        }
    }

    /// Ends the run: `running` drops, the current id clears, and the
    /// elapsed time is finalized.
    pub fn finish(&mut self, elapsed_ms: u64)
        ensures
            final(self).progress == (BatchProgress {
                running: false,
                current_message_id: None,
                elapsed_ms: elapsed_ms,
                ..old(self).progress
            }),
            final(self).stop == old(self).stop,
            final(self).failed_ids@ == old(self).failed_ids@,
            final(self).pending@ == old(self).pending@,
    {
        self.progress.running = false;
        self.progress.current_message_id = None;
        self.progress.elapsed_ms = elapsed_ms;
    }
}

/// How one finished job changes the state.
pub open spec fn spec_on_result(m: BatchModel, id: i64, outcome: JobOutcome) -> BatchModel {
    match outcome {
        JobOutcome::Success => BatchModel {
            progress: BatchProgress { done: sat_inc(m.progress.done), ..m.progress },
            ..m
        },
        JobOutcome::Failure => BatchModel {
            progress: BatchProgress {
                done: sat_inc(m.progress.done),
                failed: sat_inc(m.progress.failed),
                ..m.progress
            },
            failed_ids: m.failed_ids.push(id),
            ..m
        },
        JobOutcome::Stopped => m,
    }
}

/// The state after folding a whole sequence of job results.
pub open spec fn apply_results(m: BatchModel, rs: Seq<(i64, JobOutcome)>) -> BatchModel
    decreases rs.len(),
{
    if rs.len() == 0 {
        m
    } else {
        apply_results(spec_on_result(m, rs[0].0, rs[0].1), rs.drop_first())
    }
}

/// The ids of the jobs that ended in failure, in completion order.
pub open spec fn failure_ids(rs: Seq<(i64, JobOutcome)>) -> Seq<i64>
    decreases rs.len(),
{
    if rs.len() == 0 {
        Seq::<i64>::empty()
    } else {
        (if rs[0].1 is Failure {
            seq![rs[0].0]
        } else {
            Seq::<i64>::empty()
        }) + failure_ids(rs.drop_first())
    }
}

/// How many jobs ended in success.
pub open spec fn success_count(rs: Seq<(i64, JobOutcome)>) -> int
    decreases rs.len(),
{
    if rs.len() == 0 {
        0int
    } else {
        (if rs[0].1 is Success {
            1int
        } else {
            0int
        }) + success_count(rs.drop_first())
    }
}

/// How many jobs ended in failure.
pub open spec fn failure_count(rs: Seq<(i64, JobOutcome)>) -> int
    decreases rs.len(),
{
    if rs.len() == 0 {
        0int
    } else {
        (if rs[0].1 is Failure {
            1int
        } else {
            0int
        }) + failure_count(rs.drop_first())
    }
}

pub proof fn lemma_counts_bounds(rs: Seq<(i64, JobOutcome)>)
    ensures
        0 <= success_count(rs) <= rs.len(),
        0 <= failure_count(rs) <= rs.len(),
        failure_ids(rs).len() == failure_count(rs),
    decreases rs.len(),
{
    if rs.len() > 0 {
        lemma_counts_bounds(rs.drop_first());
    }
}

/// The executor's accounting, over any sequence of job results:
/// the failed-id list gains exactly the ids of the jobs that failed,
/// `done` grows by successes plus failures (stopped jobs count in
/// neither), `failed` grows by the failures, and the stop flag, the
/// queue and the remaining counters are untouched.
pub proof fn lemma_batch_accounting(m: BatchModel, rs: Seq<(i64, JobOutcome)>)
    requires
        m.progress.done + rs.len() <= u64::MAX,
        m.progress.failed + rs.len() <= u64::MAX,
    ensures
        ({
            let f = apply_results(m, rs);
            &&& f.failed_ids == m.failed_ids + failure_ids(rs)
            &&& f.progress.done == m.progress.done + success_count(rs) + failure_count(rs)
            &&& f.progress.failed == m.progress.failed + failure_count(rs)
            &&& f.pending == m.pending
            &&& f.stop == m.stop
            &&& f.progress.running == m.progress.running
            &&& f.progress.total == m.progress.total
            &&& f.progress.rule_strong_hits == m.progress.rule_strong_hits
            &&& f.progress.model_calls == m.progress.model_calls
            &&& f.progress.model_failures == m.progress.model_failures
        }),
    decreases rs.len(),
{
    lemma_counts_bounds(rs);
    if rs.len() == 0 {
        assert(apply_results(m, rs).failed_ids =~= m.failed_ids + failure_ids(rs));
    } else {
        let m1 = spec_on_result(m, rs[0].0, rs[0].1);
        lemma_counts_bounds(rs.drop_first());
        lemma_batch_accounting(m1, rs.drop_first());
        assert(m1.failed_ids + failure_ids(rs.drop_first()) =~= m.failed_ids + failure_ids(rs));
    }
}

/// At termination of a batch that started from a reset state, `done`
/// is exactly the number of successes plus non-stop failures, and the
/// failed-id list is exactly the ids that ended in an error other than
/// a stop.
pub proof fn lemma_batch_termination(m: BatchModel, rs: Seq<(i64, JobOutcome)>)
    requires
        m.progress.done == 0,
        m.progress.failed == 0,
        m.failed_ids == Seq::<i64>::empty(),
        rs.len() <= u64::MAX,
    ensures
        apply_results(m, rs).progress.done == success_count(rs) + failure_count(rs),
        apply_results(m, rs).progress.failed == failure_count(rs),
        apply_results(m, rs).failed_ids == failure_ids(rs),
{
    lemma_batch_accounting(m, rs);
    assert(m.failed_ids + failure_ids(rs) =~= failure_ids(rs));
}

/// The final label and outcome for one message, given the rule result
/// and the model's label if any attempt produced one (`err` is the
/// last error text otherwise): a strong hit or a model label fuses to
/// a success; a weak message with no model label gets the error
/// fallback and counts as the job's failure.
pub fn conclude_message(rule: RuleResult, model: Option<Label>, err: &str) -> (r: (
    Label,
    JobOutcome,
))
    ensures
        rule.strong_hit ==> r.1 == JobOutcome::Success && label_model(r.0) == spec_fuse(
            opt_label_model(rule.label),
            None,
            true,
        ),
        !rule.strong_hit && model is Some ==> r.1 == JobOutcome::Success && label_model(r.0)
            == spec_fuse(
            opt_label_model(rule.label),
            Some(label_model(model.unwrap())),
            false,
        ),
        !rule.strong_hit && model is None ==> r.1 == JobOutcome::Failure && label_model(r.0)
            == spec_error_fallback(
            entities_model(rule.entities),
            signals_model(rule.signals),
            err@,
        ),
{
    if rule.strong_hit {
        let label = fuse(FusionInput { rule: rule.label, model: None, rule_strong_hit: true });
        (label, JobOutcome::Success)
    } else {
        match model {
            Some(m) => {
                let label = fuse(
                    FusionInput { rule: rule.label, model: Some(m), rule_strong_hit: false },
                );
                (label, JobOutcome::Success)
            },
            None => {
                let label = error_fallback(rule.entities, rule.signals, err);
                (label, JobOutcome::Failure)
            },
        }
    }
}

/// Per-message counter contributions: `(strong_hits, model_calls,
/// model_failures)`. A strong hit never consults the model; a weak
/// message consults it exactly once, and adds a model failure when no
/// attempt produced a label.
pub open spec fn spec_message_deltas(strong_hit: bool, model_ok: bool) -> (int, int, int) {
    if strong_hit {
        (1int, 0int, 0int)
    } else if model_ok {
        (0int, 1int, 0int)
    } else {
        (0int, 1int, 1int)
    }
}

/// The counter contributions of one processed message.
pub fn message_deltas(strong_hit: bool, model_ok: bool) -> (d: (u64, u64, u64))
    ensures
        (d.0 as int, d.1 as int, d.2 as int) == spec_message_deltas(strong_hit, model_ok),
        strong_hit ==> d.1 == 0,
{
    if strong_hit {
        (1, 0, 0)
    } else if model_ok {
        (0, 1, 0)
    } else {
        (0, 1, 1)
    }
}

/// A message on which a strong rule fired contributes zero model
/// calls, whatever the model would have answered.
pub proof fn lemma_strong_hit_no_model_call(strong_hit: bool, model_ok: bool)
    ensures
        strong_hit ==> spec_message_deltas(strong_hit, model_ok).1 == 0,
{
}

} // verus!
