use vstd::prelude::*;

use crate::activity::{spec_decode, ActivityData, ActivityDataTag, FieldError};
use crate::script::ScriptValue;

verus! {

/// How many levels of zero-argument function indirection the
/// classifier follows before it gives the field up.
pub const CLASSIFY_DEPTH_LIMIT: u32 = 16;

/// A field's update strategy, derived once at startup and immutable
/// thereafter: a value emitted exactly once before startup completes
/// (no worker runs for it), an accessor polled every `rate` seconds by
/// a dedicated worker, or a generator the script drives itself,
/// resumed by a dedicated worker.
#[derive(Debug, Clone, PartialEq)]
pub enum Strategy {
    Static(ActivityData),
    Poll(u64),
    Listen,
}

/// One classification step's outcome: the strategy is settled, or the
/// value is a zero-argument function whose result must be classified
/// next (the caller invokes it and steps again with a deeper count).
#[derive(Debug, Clone, PartialEq)]
pub enum Classified {
    Resolved(Strategy),
    Invoke,
}

/// The poll interval a table declares, if its first slot is a
/// non-negative integer.
pub open spec fn spec_poll_rate(slot: Option<Box<ScriptValue>>) -> Option<u64> {
    match slot {
        Option::None => Option::None,
        Option::Some(b) => match *b {
            ScriptValue::Integer(k) => if k >= 0 {
                Option::Some(k as u64)
            } else {
                Option::None
            },
            _ => Option::None,
        },
    }
}

/// What one classification step decides, in the fixed priority order:
/// a table whose first slot is a non-negative integer polls at that
/// rate; a generator listens; a zero-argument function is invoked and
/// its result classified, up to the depth bound; everything else,
/// tables with no rate included, decodes statically by the field's
/// semantic type.
pub open spec fn spec_classify_step(tag: ActivityDataTag, v: ScriptValue, depth: u32) -> Result<
    Classified,
    FieldError,
> {
    match v {
        ScriptValue::Table(t) => match spec_poll_rate(t.first) {
            Option::Some(rate) => Result::Ok(Classified::Resolved(Strategy::Poll(rate))),
            Option::None => spec_classify_static(tag, v),
        },
        ScriptValue::Coroutine => Result::Ok(Classified::Resolved(Strategy::Listen)),
        ScriptValue::Function => if depth < CLASSIFY_DEPTH_LIMIT {
            Result::Ok(Classified::Invoke)
        } else {
            Result::Err(FieldError::RecursionLimit)
        },
        _ => spec_classify_static(tag, v),
    }
}

/// The static fallback of classification: decode the value itself.
pub open spec fn spec_classify_static(tag: ActivityDataTag, v: ScriptValue) -> Result<
    Classified,
    FieldError,
> {
    match spec_decode(tag, v) {
        Result::Ok(d) => Result::Ok(Classified::Resolved(Strategy::Static(d))),
        Result::Err(e) => Result::Err(e),
    }
}

/// Runs one step of field classification. `depth` counts the
/// zero-argument functions already invoked on the way to `v`; a caller
/// that receives `Invoke` calls the function and steps again with
/// `depth + 1`.
pub fn classify_step(tag: &ActivityDataTag, v: &ScriptValue, depth: u32) -> (r: Result<
    Classified,
    FieldError,
>)
    ensures
        r == spec_classify_step(*tag, *v, depth),
{
    match v {
        ScriptValue::Table(t) => {
            let rate: Option<u64> = match &t.first {
                Option::Some(b) => match &**b {
                    ScriptValue::Integer(k) => if *k >= 0 {
                        Option::Some(*k as u64)
                    } else {
                        Option::None
                    },
                    _ => Option::None,
                },
                Option::None => Option::None,
            };
            match rate {
                Option::Some(rate) => Result::Ok(Classified::Resolved(Strategy::Poll(rate))),
                Option::None => classify_static(tag, v),
            }
        },
        ScriptValue::Coroutine => Result::Ok(Classified::Resolved(Strategy::Listen)),
        ScriptValue::Function => {
            if depth < CLASSIFY_DEPTH_LIMIT {
                Result::Ok(Classified::Invoke)
            } else {
                Result::Err(FieldError::RecursionLimit)
            }
        },
        _ => classify_static(tag, v),
    }
}

/// The static fallback of classification.
fn classify_static(tag: &ActivityDataTag, v: &ScriptValue) -> (r: Result<Classified, FieldError>)
    ensures
        r == spec_classify_static(*tag, *v),
{
    match tag.decode(v) {
        Result::Ok(d) => Result::Ok(Classified::Resolved(Strategy::Static(d))),
        Result::Err(e) => Result::Err(e),
    }
}

/// The fixed identifiers the watcher scheduler resolves, in the order
/// they are taken up. The set is closed and never extended at runtime.
pub open spec fn spec_watch_order() -> Seq<ActivityDataTag> {
    seq![
        ActivityDataTag::State,
        ActivityDataTag::Details,
        ActivityDataTag::Timestamp,
        ActivityDataTag::FirstButton,
        ActivityDataTag::SecondButton,
        ActivityDataTag::LargeImage,
        ActivityDataTag::SmallImage,
        ActivityDataTag::Active,
    ]
}

/// The fields the watcher scheduler drives, in order.
pub fn watch_order() -> (r: Vec<ActivityDataTag>)
    ensures
        r@ == spec_watch_order(),
{
    let mut r: Vec<ActivityDataTag> = Vec::new();
    r.push(ActivityDataTag::State);
    r.push(ActivityDataTag::Details);
    r.push(ActivityDataTag::Timestamp);
    r.push(ActivityDataTag::FirstButton);
    r.push(ActivityDataTag::SecondButton);
    r.push(ActivityDataTag::LargeImage);
    r.push(ActivityDataTag::SmallImage);
    r.push(ActivityDataTag::Active);
    proof {
        assert(r@ =~= spec_watch_order());
    }
    r
}

/// The scheduler takes up each of the eight fields exactly once.
pub proof fn lemma_watch_order_distinct()
    ensures
        forall|i: int, j: int|
            0 <= i < j < spec_watch_order().len() ==> spec_watch_order()[i]
                != spec_watch_order()[j],
{
}

/// The script global each field is read from.
pub open spec fn spec_global_name(tag: ActivityDataTag) -> Seq<char> {
    match tag {
        ActivityDataTag::Active => "Active"@,
        ActivityDataTag::State => "State"@,
        ActivityDataTag::Details => "Details"@,
        ActivityDataTag::Timestamp => "Timestamp"@,
        ActivityDataTag::FirstButton => "Button1"@,
        ActivityDataTag::SecondButton => "Button2"@,
        ActivityDataTag::LargeImage => "LargeImage"@,
        ActivityDataTag::SmallImage => "SmallImage"@,
    }
}

/// The name of the script global a field is read from.
pub fn global_name(tag: &ActivityDataTag) -> (r: &'static str)
    ensures
        r@ == spec_global_name(*tag),
{
    match tag {
        ActivityDataTag::Active => "Active",
        ActivityDataTag::State => "State",
        ActivityDataTag::Details => "Details",
        ActivityDataTag::Timestamp => "Timestamp",
        ActivityDataTag::FirstButton => "Button1",
        ActivityDataTag::SecondButton => "Button2",
        ActivityDataTag::LargeImage => "LargeImage",
        ActivityDataTag::SmallImage => "SmallImage",
    }
}

/// The worker a poll or listen field gets: nothing else ever spawns
/// one.
#[derive(Debug, Clone, Copy, PartialEq, Eq, Structural)]
pub enum WorkerKind {
    Poll(u64),
    Listen,
}

/// The updates emitted immediately, before startup completes: the
/// payload of every Static field, one each, in field order.
pub open spec fn spec_immediate_updates(rs: Seq<(ActivityDataTag, Strategy)>) -> Seq<ActivityData>
    decreases rs.len(),
{
    if rs.len() == 0 {
        Seq::empty()
    } else {
        spec_immediate_updates(rs.drop_last()) + (match rs.last().1 {
            Strategy::Static(d) => seq![d],
            _ => Seq::empty(),
        })
    }
}

/// The workers spawned at startup: one per Poll or Listen field, in
/// field order, carrying the field and its kind.
pub open spec fn spec_worker_fields(rs: Seq<(ActivityDataTag, Strategy)>) -> Seq<
    (ActivityDataTag, WorkerKind),
>
    decreases rs.len(),
{
    if rs.len() == 0 {
        Seq::empty()
    } else {
        spec_worker_fields(rs.drop_last()) + (match rs.last() {
            (t, Strategy::Poll(rate)) => seq![(t, WorkerKind::Poll(rate))],
            (t, Strategy::Listen) => seq![(t, WorkerKind::Listen)],
            _ => Seq::empty(),
        })
    }
}

/// How many of the resolved fields are Static.
pub open spec fn spec_count_static(rs: Seq<(ActivityDataTag, Strategy)>) -> nat
    decreases rs.len(),
{
    if rs.len() == 0 {
        0
    } else {
        spec_count_static(rs.drop_last()) + (if rs.last().1 is Static {
            1nat
        } else {
            0nat
        })
    }
}

/// The watcher scheduler's dispatch over the resolved fields: every
/// Static field's payload becomes one immediate update, in field
/// order, and every Poll or Listen field becomes one worker to spawn;
/// no field contributes to both lists.
pub fn schedule(resolved: Vec<(ActivityDataTag, Strategy)>) -> (r: (
    Vec<ActivityData>,
    Vec<(ActivityDataTag, WorkerKind)>,
))
    ensures
        r.0@ == spec_immediate_updates(resolved@),
        r.1@ == spec_worker_fields(resolved@),
{
    let ghost orig = resolved@;
    let mut rest = resolved;
    let mut updates: Vec<ActivityData> = Vec::new();
    let mut workers: Vec<(ActivityDataTag, WorkerKind)> = Vec::new();
    proof {
        assert(orig.skip(0) =~= orig);
        assert(orig.take(0) =~= Seq::<(ActivityDataTag, Strategy)>::empty());
    }
    while rest.len() > 0
        invariant
            rest@.len() <= orig.len(),
            rest@ == orig.skip(orig.len() - rest@.len()),
            updates@ == spec_immediate_updates(orig.take(orig.len() - rest@.len())),
            workers@ == spec_worker_fields(orig.take(orig.len() - rest@.len())),
        decreases rest.len(),
    {
        let ghost k = orig.len() - rest@.len();
        let head = rest.remove(0);
        proof {
            assert(head == orig[k]);
            assert(rest@ =~= orig.skip(k + 1));
            assert(orig.take(k + 1).drop_last() =~= orig.take(k));
            assert(orig.take(k + 1).last() == orig[k]);
        }
        match head {
            (_, Strategy::Static(d)) => updates.push(d),
            (tag, Strategy::Poll(rate)) => workers.push((tag, WorkerKind::Poll(rate))),
            (tag, Strategy::Listen) => workers.push((tag, WorkerKind::Listen)),
        }
        proof {
            assert(updates@ =~= spec_immediate_updates(orig.take(k + 1)));
            assert(workers@ =~= spec_worker_fields(orig.take(k + 1)));
        }
    }
    proof {
        assert(orig.take(orig.len() as int) =~= orig);
    }
    (updates, workers)
}

/// A Static field yields exactly one immediate update and no worker;
/// every other resolved field yields exactly one worker and no
/// immediate update: the counts of the two lists split the resolved
/// fields exactly.
pub proof fn lemma_static_emits_once(rs: Seq<(ActivityDataTag, Strategy)>)
    ensures
        spec_immediate_updates(rs).len() == spec_count_static(rs),
        spec_worker_fields(rs).len() == rs.len() - spec_count_static(rs),
        spec_count_static(rs) <= rs.len(),
    decreases rs.len(),
{
    if rs.len() > 0 {
        lemma_static_emits_once(rs.drop_last());
    }
}

/// Every worker's field occurs among the resolved fields.
proof fn lemma_worker_tags_resolved(rs: Seq<(ActivityDataTag, Strategy)>)
    ensures
        forall|i: int|
            0 <= i < spec_worker_fields(rs).len() ==> exists|j: int|
                0 <= j < rs.len() && rs[j].0 == #[trigger] spec_worker_fields(rs)[i].0,
    decreases rs.len(),
{
    if rs.len() > 0 {
        let front = rs.drop_last();
        lemma_worker_tags_resolved(front);
        let wf = spec_worker_fields(rs);
        assert forall|i: int| 0 <= i < wf.len() implies exists|j: int|
            0 <= j < rs.len() && rs[j].0 == #[trigger] wf[i].0 by {
            if i < spec_worker_fields(front).len() {
                assert(wf[i] == spec_worker_fields(front)[i]);
                let j = choose|j: int|
                    0 <= j < front.len() && front[j].0 == spec_worker_fields(front)[i].0;
                assert(rs[j].0 == wf[i].0);
            } else {
                assert(wf[i].0 == rs.last().0);
                assert(rs[rs.len() - 1].0 == wf[i].0);
            }
        }
    }
}

/// At most one background worker exists per field: when each field is
/// resolved once, no two scheduled workers share a field, so one
/// field's update stream comes from a single producer.
pub proof fn lemma_one_worker_per_field(rs: Seq<(ActivityDataTag, Strategy)>)
    requires
        forall|i: int, j: int| 0 <= i < j < rs.len() ==> rs[i].0 != rs[j].0,
    ensures
        forall|i: int, j: int|
            0 <= i < j < spec_worker_fields(rs).len() ==> spec_worker_fields(rs)[i].0
                != spec_worker_fields(rs)[j].0,
    decreases rs.len(),
{
    if rs.len() > 0 {
        let front = rs.drop_last();
        assert forall|i: int, j: int| 0 <= i < j < front.len() implies front[i].0 != front[j].0 by {
            assert(front[i] == rs[i] && front[j] == rs[j]);
        }
        lemma_one_worker_per_field(front);
        lemma_worker_tags_resolved(front);
        let wf = spec_worker_fields(rs);
        let wfront = spec_worker_fields(front);
        assert forall|i: int, j: int| 0 <= i < j < wf.len() implies wf[i].0 != wf[j].0 by {
            if j < wfront.len() {
                assert(wf[i] == wfront[i] && wf[j] == wfront[j]);
            } else {
                // `j` names the worker added for the last resolved
                // field; `i` names one for an earlier field.
                assert(wf[i] == wfront[i]);
                let k = choose|k: int| 0 <= k < front.len() && front[k].0 == wfront[i].0;
                assert(rs[k].0 == wf[i].0);
                assert(wf[j].0 == rs.last().0);
                assert(rs[k].0 != rs[rs.len() - 1].0);
            }
        }
    }
}

/// What a poll or listen worker emits for one value its source handed
/// back: the decoded update, or nothing when decoding fails — which
/// ends that worker's loop for good.
pub open spec fn spec_worker_emit(tag: ActivityDataTag, v: ScriptValue) -> Option<ActivityData> {
    match spec_decode(tag, v) {
        Result::Ok(d) => Option::Some(d),
        Result::Err(_) => Option::None,
    }
}

/// One iteration of a worker loop, decided from what the field's
/// source produced: `yielded` is the freshly polled or resumed value,
/// or `None` when the source failed or the generator completed. The
/// result is the update to emit; `None` means the worker stops,
/// silently and permanently.
pub fn worker_step(tag: &ActivityDataTag, yielded: Option<&ScriptValue>) -> (r: Option<
    ActivityData,
>)
    ensures
        yielded is None ==> r is None,
        yielded matches Option::Some(v) ==> r == spec_worker_emit(*tag, *v),
{
    match yielded {
        Option::None => Option::None,
        Option::Some(v) => match tag.decode(v) {
            Result::Ok(d) => Option::Some(d),
            Result::Err(_) => Option::None,
        },
    }
}

/// The whole update stream a listen worker emits for one field, given
/// everything its generator's resumptions produced in order (`None`
/// standing for completion or a failed resume): each yielded value is
/// decoded and emitted in turn, and the first terminal or undecodable
/// outcome ends the stream for good.
pub open spec fn spec_listen_updates(tag: ActivityDataTag, outcomes: Seq<Option<ScriptValue>>) -> Seq<
    ActivityData,
>
    decreases outcomes.len(),
{
    if outcomes.len() == 0 {
        Seq::empty()
    } else {
        match outcomes.first() {
            Option::None => Seq::empty(),
            Option::Some(v) => match spec_decode(tag, v) {
                Result::Err(_) => Seq::empty(),
                Result::Ok(d) => seq![d] + spec_listen_updates(tag, outcomes.drop_first()),
            },
        }
    }
}

/// The updates a listen field produces exactly match, in order, the
/// decoded values its generator yielded before the first terminal or
/// undecodable outcome; after that point no update for the field ever
/// occurs. The returned index is the length of that good prefix.
pub proof fn lemma_listen_stream(tag: ActivityDataTag, outcomes: Seq<Option<ScriptValue>>) -> (k:
    int)
    ensures
        0 <= k <= outcomes.len(),
        forall|i: int|
            0 <= i < k ==> outcomes[i] is Some && spec_decode(tag, outcomes[i]->Some_0) is Ok,
        spec_listen_updates(tag, outcomes) == Seq::new(
            k as nat,
            |i: int| spec_decode(tag, outcomes[i]->Some_0)->Ok_0,
        ),
        k < outcomes.len() ==> (outcomes[k] is None || spec_decode(tag, outcomes[k]->Some_0)
            is Err),
    decreases outcomes.len(),
{
    if outcomes.len() == 0 {
        assert(spec_listen_updates(tag, outcomes) =~= Seq::new(
            0,
            |i: int| spec_decode(tag, outcomes[i]->Some_0)->Ok_0,
        ));
        0
    } else {
        match outcomes.first() {
            Option::None => {
                assert(outcomes[0] is None);
                assert(spec_listen_updates(tag, outcomes) =~= Seq::new(
                    0,
                    |i: int| spec_decode(tag, outcomes[i]->Some_0)->Ok_0,
                ));
                0
            },
            Option::Some(v) => match spec_decode(tag, v) {
                Result::Err(_) => {
                    assert(outcomes[0] is Some && spec_decode(tag, outcomes[0]->Some_0) is Err);
                    assert(spec_listen_updates(tag, outcomes) =~= Seq::new(
                        0,
                        |i: int| spec_decode(tag, outcomes[i]->Some_0)->Ok_0,
                    ));
                    0
                },
                Result::Ok(d) => {
                    let rest = outcomes.drop_first();
                    let k2 = lemma_listen_stream(tag, rest);
                    assert forall|i: int| 0 <= i < k2 + 1 implies outcomes[i] is Some
                        && spec_decode(tag, outcomes[i]->Some_0) is Ok by {
                        if i == 0 {
                            assert(outcomes[0] == outcomes.first());
                        } else {
                            assert(rest[i - 1] == outcomes[i]);
                        }
                    }
                    assert(spec_listen_updates(tag, outcomes) =~= Seq::new(
                        (k2 + 1) as nat,
                        |i: int| spec_decode(tag, outcomes[i]->Some_0)->Ok_0,
                    )) by {
                        let lhs = spec_listen_updates(tag, outcomes);
                        assert(lhs == seq![d] + spec_listen_updates(tag, rest));
                        assert forall|i: int| 0 <= i < k2 + 1 implies lhs[i] == spec_decode(
                            tag,
                            outcomes[i]->Some_0,
                        )->Ok_0 by {
                            if i == 0 {
                                assert(lhs[0] == d);
                                assert(outcomes[0] == outcomes.first());
                            } else {
                                assert(lhs[i] == spec_listen_updates(tag, rest)[i - 1]);
                                assert(rest[i - 1] == outcomes[i]);
                            }
                        }
                    }
                    if k2 + 1 < outcomes.len() {
                        assert(rest[k2] == outcomes[k2 + 1]);
                    }
                    k2 + 1
                },
            },
        }
    }
}

} // verus!
