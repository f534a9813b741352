//! The request pipeline: pending records awaiting admission, in-flight tasks
//! with their single-slot completion channels, and the two tick functions that
//! drive them.
//!
//! Within one tick, call [`RequestPipeline::handle_request`] first and
//! [`RequestPipeline::handle_response`] second: a request admitted in a tick
//! may then also complete in the same tick.

use vstd::prelude::*;

use crate::client::HttpClientSetting;
use crate::request::HttpRequest;
use crate::request::Response;
use crate::request::ResponseString;
use crossbeam_channel::Receiver;
use crossbeam_channel::Sender;

verus! {

#[verifier::external_type_specification]
#[verifier::external_body]
#[verifier::reject_recursive_types(T)]
pub struct ExSender<T>(Sender<T>);

#[verifier::external_type_specification]
#[verifier::external_body]
#[verifier::reject_recursive_types(T)]
pub struct ExReceiver<T>(Receiver<T>);

/// Relies on `crossbeam_channel::bounded(1)`: a single-slot channel. The one
/// outcome a request ever produces has its slot reserved up front, so sending
/// it never blocks.
#[verifier::external_body]
fn completion_channel() -> (Sender<Result<Response, String>>, Receiver<Result<Response, String>>) {
    crossbeam_channel::bounded(1)
}

/// A submitted request that awaits admission, together with its identifier.
pub struct PendingRequest {
    pub entity: u64,
    pub request: HttpRequest,
}

/// task for a http response result: an admitted request's identifier and the
/// read end of its completion channel
pub struct RequestTask {
    pub entity: u64,
    pub receiver: Receiver<Result<Response, String>>,
}

impl RequestTask {
    /// Relies on `crossbeam_channel::Receiver::try_recv`: a non-blocking
    /// check that returns a message only when one is already waiting. Whether
    /// anything is waiting depends on the sending task, so nothing is promised
    /// of the result.
    #[verifier::external_body]
    fn poll(&self) -> Option<Result<Response, String>> {
        self.receiver.try_recv().ok()
    }
}

/// One admitted request, ready to execute: call the transport once with
/// `request`, and send the outcome — success or failure — through `sender`.
/// If the receiving side is already gone, drop the outcome silently: that is
/// cancellation by abandonment, not an error.
pub struct FetchJob {
    pub entity: u64,
    pub request: HttpRequest,
    pub sender: Sender<Result<Response, String>>,
}

/// The identifiers of a sequence of in-flight tasks, in order.
pub open spec fn task_entities(tasks: Seq<RequestTask>) -> Seq<u64> {
    tasks.map_values(|t: RequestTask| t.entity)
}

/// The identifiers of a sequence of pending records, in order.
pub open spec fn pending_entities(records: Seq<PendingRequest>) -> Seq<u64> {
    records.map_values(|p: PendingRequest| p.entity)
}

/// The identifiers of a sequence of completion events, in order.
pub open spec fn response_entities(responses: Seq<ResponseString>) -> Seq<u64> {
    responses.map_values(|r: ResponseString| r.entity)
}

/// No identifier occurs twice.
pub open spec fn entities_distinct(s: Seq<u64>) -> bool {
    forall|i: int, j: int| 0 <= i < j < s.len() ==> s[i] != s[j]
}

/// The registered type tag of an identifier: the first entry for it, if any.
pub open spec fn tag_lookup(tags: Seq<(u64, u64)>, entity: u64) -> Option<u64>
    decreases tags.len(),
{
    if tags.len() == 0 {
        None
    } else if tags[0].0 == entity {
        Some(tags[0].1)
    } else {
        tag_lookup(tags.drop_first(), entity)
    }
}

/// The whole pipeline: the admission controller, the submitted records that
/// await admission, the in-flight tasks, and the registered type tags.
///
/// The fields are public so that a host can inspect them, but a host that
/// mutates them directly is on its own: every method keeps `wf`, and callers
/// must present a well-formed pipeline.
pub struct RequestPipeline {
    /// the admission controller
    pub setting: HttpClientSetting,
    /// submitted, not yet admitted; in submission order
    pub pending: Vec<PendingRequest>,
    /// admitted and not yet completed
    pub in_flight: Vec<RequestTask>,
    /// identifier-to-type-tag registrations, kept after completion
    pub tags: Vec<(u64, u64)>,
    /// the identifier the next submission gets
    pub next_entity: u64,
}

impl RequestPipeline {
    /// Well-formedness: the admission counter counts exactly the in-flight
    /// tasks; no identifier is pending twice, in flight twice, or both pending
    /// and in flight; every identifier seen so far is below `next_entity`.
    pub open spec fn wf(&self) -> bool {
        &&& self.setting.current() == self.in_flight@.len()
        &&& entities_distinct(task_entities(self.in_flight@))
        &&& entities_distinct(pending_entities(self.pending@))
        &&& (forall|i: int, j: int|
            0 <= i < self.pending@.len() && 0 <= j < self.in_flight@.len()
                ==> self.pending@[i].entity != self.in_flight@[j].entity)
        &&& (forall|i: int| 0 <= i < self.pending@.len() ==> self.pending@[i].entity < self.next_entity)
        &&& (forall|i: int|
            0 <= i < self.in_flight@.len() ==> self.in_flight@[i].entity < self.next_entity)
        &&& (forall|i: int| 0 <= i < self.tags@.len() ==> self.tags@[i].0 < self.next_entity)
    }

    /// How many submissions the next admission sweep will admit: every pending
    /// record, up to the capacity the ceiling leaves free.
    pub open spec fn admission_quota(&self) -> int {
        if self.setting.current() >= self.setting.max_concurrent {
            0
        } else if self.pending@.len() <= self.setting.max_concurrent - self.setting.current() {
            self.pending@.len() as int
        } else {
            self.setting.max_concurrent - self.setting.current()
        }
    }

    /// An empty pipeline with the given concurrency ceiling.
    pub fn new(max_concurrent: usize) -> (r: Self)
        ensures
            r.wf(),
            r.setting.max_concurrent == max_concurrent,
            r.setting.current() == 0,
            r.pending@.len() == 0,
            r.in_flight@.len() == 0,
            r.tags@.len() == 0,
            r.next_entity == 0,
    {
        RequestPipeline {
            setting: HttpClientSetting::new(max_concurrent),
            pending: Vec::new(),
            in_flight: Vec::new(),
            tags: Vec::new(),
            next_entity: 0,
        }
    }

    /// Record a request for later admission and hand back its identifier.
    /// Submission alone never touches the admission counter.
    pub fn submit(&mut self, request: HttpRequest, type_tag: Option<u64>) -> (entity: u64)
        requires
            old(self).wf(),
            old(self).next_entity < u64::MAX,
        ensures
            final(self).wf(),
            entity == old(self).next_entity,
            final(self).next_entity == old(self).next_entity + 1,
            final(self).pending@ == old(self).pending@.push(
                (PendingRequest { entity, request }),
            ),
            final(self).in_flight@ == old(self).in_flight@,
            final(self).setting == old(self).setting,
            final(self).tags@ == (match type_tag {
                Some(t) => old(self).tags@.push((entity, t)),
                None => old(self).tags@,
            }),
    {
        let entity = self.next_entity;
        self.next_entity = entity + 1;
        match type_tag {
            Some(t) => self.tags.push((entity, t)),
            None => {},
        }
        self.pending.push(PendingRequest { entity, request });
        proof {
            assert(pending_entities(self.pending@) =~= pending_entities(old(self).pending@).push(
                entity,
            ));
        }
        entity
    }

    /// The admission sweep, run once per tick, before `handle_response`.
    ///
    /// Takes pending records in submission order while the controller has
    /// capacity, counts each admitted one, moves it into the in-flight set and
    /// hands it out as a fetch job for the executor to run. Records that find
    /// no capacity stay pending for a later tick; a ceiling of zero admits
    /// nothing, ever.
    pub fn handle_request(&mut self) -> (jobs: Vec<FetchJob>)
        requires
            old(self).wf(),
        ensures
            final(self).wf(),
            final(self).setting.max_concurrent == old(self).setting.max_concurrent,
            final(self).next_entity == old(self).next_entity,
            final(self).tags@ == old(self).tags@,
            // exactly the first quota-many pending records are admitted
            jobs@.len() == old(self).admission_quota(),
            final(self).setting.current() == old(self).setting.current() + jobs@.len(),
            final(self).pending@ == old(self).pending@.skip(jobs@.len() as int),
            forall|i: int|
                0 <= i < jobs@.len() ==> jobs@[i].entity == old(self).pending@[i].entity
                    && jobs@[i].request == old(self).pending@[i].request,
            // each admitted record joins the in-flight set, after those already there
            final(self).in_flight@.len() == old(self).in_flight@.len() + jobs@.len(),
            forall|i: int|
                0 <= i < old(self).in_flight@.len()
                    ==> final(self).in_flight@[i] == old(self).in_flight@[i],
            forall|i: int|
                old(self).in_flight@.len() <= i < final(self).in_flight@.len()
                    ==> final(self).in_flight@[i].entity
                    == jobs@[i - old(self).in_flight@.len()].entity,
            // the ceiling is never exceeded by admission
            old(self).setting.current() <= old(self).setting.max_concurrent
                ==> final(self).setting.current() <= old(self).setting.max_concurrent,
            // a ceiling of zero admits nothing
            old(self).setting.max_concurrent == 0 ==> jobs@.len() == 0,
    {
        let mut jobs: Vec<FetchJob> = Vec::new();
        proof {
            assert(self.pending@.skip(0) =~= self.pending@);
        }
        while self.pending.len() > 0 && self.setting.is_available()
            invariant
                self.wf(),
                self.setting.max_concurrent == old(self).setting.max_concurrent,
                self.next_entity == old(self).next_entity,
                self.tags@ == old(self).tags@,
                jobs@.len() <= old(self).admission_quota(),
                self.setting.current() == old(self).setting.current() + jobs@.len(),
                self.pending@ == old(self).pending@.skip(jobs@.len() as int),
                forall|i: int|
                    0 <= i < jobs@.len() ==> jobs@[i].entity == old(self).pending@[i].entity
                        && jobs@[i].request == old(self).pending@[i].request,
                self.in_flight@.len() == old(self).in_flight@.len() + jobs@.len(),
                forall|i: int|
                    0 <= i < old(self).in_flight@.len()
                        ==> self.in_flight@[i] == old(self).in_flight@[i],
                forall|i: int|
                    old(self).in_flight@.len() <= i < self.in_flight@.len()
                        ==> self.in_flight@[i].entity
                        == jobs@[i - old(self).in_flight@.len()].entity,
            decreases self.pending@.len(),
        {
            let ghost pre = *self;
            let ghost n_done: int = jobs@.len() as int;
            let record = self.pending.remove(0);
            let (sender, receiver) = completion_channel();
            self.in_flight.push(RequestTask { entity: record.entity, receiver });
            self.setting.acquire();
            jobs.push(FetchJob { entity: record.entity, request: record.request, sender });
            proof {
                assert(record == old(self).pending@[n_done]);
                assert(self.pending@ =~= old(self).pending@.skip(n_done + 1));
                assert(task_entities(self.in_flight@) =~= task_entities(pre.in_flight@).push(
                    record.entity,
                ));
                assert(pending_entities(self.pending@) =~= pending_entities(
                    pre.pending@,
                ).drop_first());
                assert(pending_entities(pre.pending@)[0] == record.entity);
                assert forall|i: int, j: int|
                    0 <= i < j < self.in_flight@.len() implies task_entities(self.in_flight@)[i]
                    != task_entities(self.in_flight@)[j] by {
                    if j == self.in_flight@.len() - 1 {
                        assert(task_entities(pre.in_flight@)[i] == pre.in_flight@[i].entity);
                    }
                }
                assert forall|i: int, j: int|
                    0 <= i < self.pending@.len() && 0 <= j < self.in_flight@.len() implies self
                    .pending@[i].entity != self.in_flight@[j].entity by {
                    assert(self.pending@[i] == pre.pending@[i + 1]);
                    assert(pending_entities(pre.pending@)[i + 1] == pre.pending@[i + 1].entity);
                    if j < pre.in_flight@.len() {
                        assert(self.in_flight@[j] == pre.in_flight@[j]);
                    } else {
                        assert(self.in_flight@[j].entity == record.entity);
                    }
                }
                assert forall|i: int|
                    0 <= i < self.in_flight@.len() implies self.in_flight@[i].entity
                    < self.next_entity by {
                    if i < pre.in_flight@.len() {
                        assert(self.in_flight@[i] == pre.in_flight@[i]);
                    } else {
                        assert(self.in_flight@[i].entity == record.entity);
                    }
                }
                assert forall|i: int|
                    0 <= i < self.pending@.len() implies self.pending@[i].entity
                    < self.next_entity by {
                    assert(self.pending@[i] == pre.pending@[i + 1]);
                }
            }
        }
        proof {
            if self.pending@.len() == 0 {
                assert(jobs@.len() == old(self).pending@.len());
            }
        }
        jobs
    }

    /// The completion sweep, run once per tick, after `handle_request`.
    ///
    /// Checks every in-flight task's channel without blocking. A task whose
    /// channel is still empty is left exactly as it was — polling it is
    /// side-effect-free and may be repeated on every tick. A task whose
    /// outcome has arrived is removed, its admission slot is released, and the
    /// outcome is returned as a completion event for its identifier. No
    /// identifier is ever published twice, and a published identifier is no
    /// longer in flight.
    pub fn handle_response(&mut self) -> (r: Vec<ResponseString>)
        requires
            old(self).wf(),
        ensures
            final(self).wf(),
            final(self).setting.max_concurrent == old(self).setting.max_concurrent,
            final(self).pending@ == old(self).pending@,
            final(self).tags@ == old(self).tags@,
            final(self).next_entity == old(self).next_entity,
            // one release per drained completion, and nothing else moves the counter
            final(self).setting.current() == old(self).setting.current() - r@.len(),
            final(self).in_flight@.len() + r@.len() == old(self).in_flight@.len(),
            // every task kept was in flight before, unchanged
            forall|i: int|
                0 <= i < final(self).in_flight@.len() ==> old(self).in_flight@.contains(
                    #[trigger] final(self).in_flight@[i],
                ),
            // every completion belongs to a request that was in flight
            forall|i: int|
                0 <= i < r@.len() ==> task_entities(old(self).in_flight@).contains(
                    #[trigger] r@[i].entity,
                ),
            // exactly one completion per drained request, and a drained request
            // leaves the in-flight set
            entities_distinct(response_entities(r@)),
            forall|i: int|
                0 <= i < r@.len() ==> !task_entities(final(self).in_flight@).contains(
                    #[trigger] r@[i].entity,
                ),
            // a sweep that drains nothing changes nothing
            r@.len() == 0 ==> final(self).in_flight@ == old(self).in_flight@
                && final(self).setting == old(self).setting,
    {
        let mut kept: Vec<RequestTask> = Vec::new();
        let mut out: Vec<ResponseString> = Vec::new();
        proof {
            assert(self.in_flight@.skip(0) =~= self.in_flight@);
        }
        while self.in_flight.len() > 0
            invariant
                old(self).wf(),
                self.setting.max_concurrent == old(self).setting.max_concurrent,
                self.pending@ == old(self).pending@,
                self.tags@ == old(self).tags@,
                self.next_entity == old(self).next_entity,
                kept@.len() + out@.len() + self.in_flight@.len() == old(self).in_flight@.len(),
                self.in_flight@ == old(self).in_flight@.skip(kept@.len() + out@.len() as int),
                self.setting.current() == old(self).setting.current() - out@.len(),
                forall|i: int|
                    0 <= i < kept@.len() ==> exists|j: int|
                        0 <= j < kept@.len() + out@.len() && #[trigger] kept@[i] == old(
                            self,
                        ).in_flight@[j],
                forall|i: int|
                    0 <= i < out@.len() ==> exists|j: int|
                        0 <= j < kept@.len() + out@.len() && #[trigger] out@[i].entity == old(
                            self,
                        ).in_flight@[j].entity,
                forall|i: int, j: int|
                    0 <= i < kept@.len() && 0 <= j < out@.len()
                        ==> #[trigger] kept@[i].entity != #[trigger] out@[j].entity,
                entities_distinct(task_entities(kept@)),
                entities_distinct(response_entities(out@)),
                out@.len() == 0 ==> kept@ =~= old(self).in_flight@.take(kept@.len() as int),
            decreases self.in_flight@.len(),
        {
            let ghost n_done: int = kept@.len() + out@.len() as int;
            let ghost kept0 = kept@;
            let ghost out0 = out@;
            let task = self.in_flight.remove(0);
            proof {
                assert(task == old(self).in_flight@[n_done]);
                assert(self.in_flight@ =~= old(self).in_flight@.skip(n_done + 1));
                assert(task_entities(old(self).in_flight@)[n_done] == task.entity);
                assert forall|i: int| 0 <= i < kept0.len() implies kept0[i].entity
                    != task.entity by {
                    let j: int = choose|j: int|
                        0 <= j < n_done && kept0[i] == old(self).in_flight@[j];
                    assert(task_entities(old(self).in_flight@)[j] == old(
                        self,
                    ).in_flight@[j].entity);
                }
                assert forall|i: int| 0 <= i < out0.len() implies out0[i].entity
                    != task.entity by {
                    let j: int = choose|j: int|
                        0 <= j < n_done && out0[i].entity == old(self).in_flight@[j].entity;
                    assert(task_entities(old(self).in_flight@)[j] == old(
                        self,
                    ).in_flight@[j].entity);
                }
            }
            match task.poll() {
                Some(result) => {
                    self.setting.release();
                    out.push(ResponseString { response: result, entity: task.entity });
                    proof {
                        assert forall|i: int, j: int|
                            0 <= i < kept@.len() && 0 <= j < out@.len() implies kept@[i].entity
                            != out@[j].entity by {
                            if j < out0.len() {
                                assert(out@[j] == out0[j]);
                            } else {
                                assert(out@[j].entity == task.entity);
                            }
                        }
                        assert forall|i: int, j: int|
                            0 <= i < j < response_entities(out@).len() implies response_entities(
                            out@,
                        )[i] != response_entities(out@)[j] by {
                            assert(response_entities(out@)[i] == out@[i].entity);
                            assert(response_entities(out@)[j] == out@[j].entity);
                            if j < out0.len() {
                                assert(out@[i] == out0[i]);
                                assert(out@[j] == out0[j]);
                                assert(response_entities(out0)[i] == out0[i].entity);
                                assert(response_entities(out0)[j] == out0[j].entity);
                            } else {
                                assert(out@[i] == out0[i]);
                                assert(out@[j].entity == task.entity);
                            }
                        }
                    }
                },
                None => {
                    kept.push(task);
                    proof {
                        assert forall|i: int, j: int|
                            0 <= i < kept@.len() && 0 <= j < out@.len() implies kept@[i].entity
                            != out@[j].entity by {
                            if i < kept0.len() {
                                assert(kept@[i] == kept0[i]);
                            } else {
                                assert(kept@[i] == task);
                            }
                        }
                        assert forall|i: int, j: int|
                            0 <= i < j < task_entities(kept@).len() implies task_entities(
                            kept@,
                        )[i] != task_entities(kept@)[j] by {
                            assert(task_entities(kept@)[i] == kept@[i].entity);
                            assert(task_entities(kept@)[j] == kept@[j].entity);
                            if j < kept0.len() {
                                assert(kept@[i] == kept0[i]);
                                assert(kept@[j] == kept0[j]);
                                assert(task_entities(kept0)[i] == kept0[i].entity);
                                assert(task_entities(kept0)[j] == kept0[j].entity);
                            } else {
                                assert(kept@[i] == kept0[i]);
                                assert(kept@[j] == task);
                            }
                        }
                        if out@.len() == 0 {
                            assert(kept@ =~= old(self).in_flight@.take(kept@.len() as int));
                        }
                    }
                },
            }
        }
        proof {
            assert(kept@.len() + out@.len() == old(self).in_flight@.len());
        }
        self.in_flight = kept;
        proof {
            assert forall|i: int| 0 <= i < self.in_flight@.len() implies old(
                self,
            ).in_flight@.contains(#[trigger] self.in_flight@[i]) by {
                let j: int = choose|j: int|
                    0 <= j < old(self).in_flight@.len() && self.in_flight@[i] == old(
                        self,
                    ).in_flight@[j];
                assert(old(self).in_flight@[j] == self.in_flight@[i]);
            }
            assert forall|i: int| 0 <= i < out@.len() implies task_entities(
                old(self).in_flight@,
            ).contains(#[trigger] out@[i].entity) by {
                let j: int = choose|j: int|
                    0 <= j < old(self).in_flight@.len() && out@[i].entity == old(
                        self,
                    ).in_flight@[j].entity;
                assert(task_entities(old(self).in_flight@)[j] == old(self).in_flight@[j].entity);
            }
            assert forall|i: int| 0 <= i < out@.len() implies !task_entities(
                self.in_flight@,
            ).contains(#[trigger] out@[i].entity) by {
                assert forall|k: int| 0 <= k < self.in_flight@.len() implies task_entities(
                    self.in_flight@,
                )[k] != out@[i].entity by {
                    assert(task_entities(self.in_flight@)[k] == self.in_flight@[k].entity);
                }
            }
            assert forall|i: int, j: int|
                0 <= i < self.pending@.len() && 0 <= j < self.in_flight@.len() implies self
                .pending@[i].entity != self.in_flight@[j].entity by {
                let k: int = choose|k: int|
                    0 <= k < old(self).in_flight@.len() && self.in_flight@[j] == old(
                        self,
                    ).in_flight@[k];
                assert(self.in_flight@[j].entity == old(self).in_flight@[k].entity);
            }
            assert forall|i: int|
                0 <= i < self.in_flight@.len() implies self.in_flight@[i].entity
                < self.next_entity by {
                let k: int = choose|k: int|
                    0 <= k < old(self).in_flight@.len() && self.in_flight@[i] == old(
                        self,
                    ).in_flight@[k];
                assert(self.in_flight@[i].entity == old(self).in_flight@[k].entity);
            }
            if out@.len() == 0 {
                assert(self.in_flight@ =~= old(self).in_flight@);
            }
        }
        out
    }

    /// The registered type tag of an identifier, if any.
    pub fn type_tag(&self, entity: u64) -> (r: Option<u64>)
        ensures
            r == tag_lookup(self.tags@, entity),
    {
        let mut i: usize = 0;
        proof {
            assert(self.tags@.skip(0) =~= self.tags@);
        }
        while i < self.tags.len()
            invariant
                i <= self.tags@.len(),
                tag_lookup(self.tags@, entity) == tag_lookup(self.tags@.skip(i as int), entity),
            decreases self.tags@.len() - i,
        {
            if self.tags[i].0 == entity {
                proof {
                    assert(self.tags@.skip(i as int)[0] == self.tags@[i as int]);
                }
                return Some(self.tags[i].1);
            }
            proof {
                assert(self.tags@.skip(i as int).drop_first() =~= self.tags@.skip(i + 1));
            }
            i = i + 1;
        }
        proof {
            assert(self.tags@.skip(i as int) =~= Seq::<(u64, u64)>::empty());
        }
        None
    }
}

/// A request record is in one bookkeeping state at a time: no identifier is
/// awaiting admission twice, in flight twice, or both awaiting admission and
/// in flight. An identifier's admission is therefore counted at most once
/// while its record lives, and each drained completion belongs to exactly one
/// in-flight record.
pub proof fn lemma_request_states_exclusive(p: &RequestPipeline, i: int, j: int)
    requires
        p.wf(),
    ensures
        0 <= i < j < p.pending@.len() ==> p.pending@[i].entity != p.pending@[j].entity,
        0 <= i < j < p.in_flight@.len() ==> p.in_flight@[i].entity != p.in_flight@[j].entity,
        0 <= i < p.pending@.len() && 0 <= j < p.in_flight@.len() ==> p.pending@[i].entity
            != p.in_flight@[j].entity,
{
    if 0 <= i < j < p.pending@.len() {
        assert(pending_entities(p.pending@)[i] == p.pending@[i].entity);
        assert(pending_entities(p.pending@)[j] == p.pending@[j].entity);
    }
    if 0 <= i < j < p.in_flight@.len() {
        assert(task_entities(p.in_flight@)[i] == p.in_flight@[i].entity);
        assert(task_entities(p.in_flight@)[j] == p.in_flight@[j].entity);
    }
}

/// The concurrency bound holds at every observable instant: in a well-formed
/// pipeline the admission counter counts exactly the in-flight tasks, so as
/// long as the counter is within the ceiling — which `handle_request` and
/// `handle_response` keep while the ceiling stands — the number of in-flight
/// tasks never exceeds the ceiling.
pub proof fn lemma_in_flight_bounded(p: &RequestPipeline, n: usize)
    requires
        p.wf(),
        p.setting.max_concurrent == n,
        p.setting.current() <= n as int,
    ensures
        p.in_flight@.len() <= n,
{
}

} // verus!
