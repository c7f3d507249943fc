//! Laws of the store: what follows for its callers from the contracts of
//! `insert` and `select`, over any number of calls.
//!
//! Each law speaks of stores by what they hold, and of calls by the
//! predicates `insert_spec` and `select_spec`, which the executable store
//! ensures of every call on a reliable engine. The times of the reads are
//! explicit: a read in time is one at which the record has not expired.

use crate::api::AddRequestView;
use crate::db::{ALREADY_EXISTS_ERROR, NOT_FOUND_ERROR};
use crate::model::{insert_spec, new_record, select_spec, RecordView, Records};
use vstd::prelude::*;

verus! {

/// Whether `results[i]` and `states[i + 1]` are what a consuming read of `id`
/// at the time `times[i]` makes of `states[i]`, for every `i`: a run of reads,
/// one after the other.
pub open spec fn reads_in_turn(
    states: Seq<Records>,
    id: Seq<char>,
    times: Seq<int>,
    results: Seq<Result<String, &'static str>>,
) -> bool {
    &&& states.len() == times.len() + 1
    &&& results.len() == times.len()
    &&& forall|i: int|
        0 <= i < times.len() ==> #[trigger] select_spec(
            states[i],
            id,
            times[i],
            results[i],
            states[i + 1],
        )
}

/// Whether `result` hands out the payload `data`.
pub open spec fn gives(result: Result<String, &'static str>, data: Seq<char>) -> bool {
    result matches Ok(d) && d@ == data
}

/// Whether `result` says "not found", without a payload.
pub open spec fn not_found(result: Result<String, &'static str>) -> bool {
    result == Err::<String, &'static str>(NOT_FOUND_ERROR)
}

/// In a run of reads of a record that are all in time as long as the record
/// has reads left, the store holds the record with `i` reads less before the
/// read `i`, and no record under `id` once the reads are used up.
proof fn lemma_budget_counts_down(
    states: Seq<Records>,
    id: Seq<char>,
    times: Seq<int>,
    results: Seq<Result<String, &'static str>>,
    rec: RecordView,
    i: int,
)
    requires
        reads_in_turn(states, id, times, results),
        states[0].contains_key(id),
        states[0][id] == rec,
        rec.max_clicks >= 1,
        forall|j: int| 0 <= j < times.len() && j < rec.max_clicks ==> !rec.expired_at(times[j]),
        0 <= i <= times.len(),
    ensures
        i < rec.max_clicks ==> states[i].contains_key(id) && states[i][id] == rec.with_reads(
            (rec.max_clicks - i) as nat,
        ),
        i >= rec.max_clicks ==> !states[i].contains_key(id),
    decreases i,
{
    if i > 0 {
        lemma_budget_counts_down(states, id, times, results, rec, i - 1);
        let k = i - 1;
        assert(select_spec(states[k], id, times[k], results[k], states[k + 1]));
    }
}

/// Single-use round trip: a link that was inserted for one read gives its
/// payload to the first read in time, and "not found" to the read after it,
/// whenever that comes.
pub proof fn law_single_use_round_trip(
    s0: Records,
    id: Seq<char>,
    msg: AddRequestView,
    created: int,
    r0: Result<(), &'static str>,
    s1: Records,
    t1: int,
    r1: Result<String, &'static str>,
    s2: Records,
    t2: int,
    r2: Result<String, &'static str>,
    s3: Records,
)
    requires
        msg.reads() == 1,
        insert_spec(s0, id, new_record(id, msg, created), r0, s1),
        r0 is Ok,
        !new_record(id, msg, created).expired_at(t1),
        select_spec(s1, id, t1, r1, s2),
        select_spec(s2, id, t2, r2, s3),
    ensures
        gives(r1, msg.data),
        not_found(r2),
        !s3.contains_key(id),
{
}

/// The budget of reads: of the reads of a record with `n` reads left that come
/// one after the other, the first `n` give the payload, as long as they are in
/// time, and every later one says "not found".
pub proof fn law_read_budget(
    states: Seq<Records>,
    id: Seq<char>,
    times: Seq<int>,
    results: Seq<Result<String, &'static str>>,
)
    requires
        reads_in_turn(states, id, times, results),
        states[0].contains_key(id),
        states[0][id].max_clicks >= 1,
        forall|j: int|
            0 <= j < times.len() && j < states[0][id].max_clicks ==> !states[0][id].expired_at(
                times[j],
            ),
    ensures
        forall|i: int|
            0 <= i < times.len() && i < states[0][id].max_clicks ==> gives(
                #[trigger] results[i],
                states[0][id].data,
            ),
        forall|i: int|
            0 <= i < times.len() && i >= states[0][id].max_clicks ==> not_found(
                #[trigger] results[i],
            ),
        times.len() >= states[0][id].max_clicks ==> !states.last().contains_key(id),
{
    let rec = states[0][id];
    assert forall|i: int| 0 <= i < times.len() implies (if i < rec.max_clicks {
        gives(#[trigger] results[i], rec.data)
    } else {
        not_found(results[i])
    }) by {
        lemma_budget_counts_down(states, id, times, results, rec, i);
        assert(select_spec(states[i], id, times[i], results[i], states[i + 1]));
    }
    lemma_budget_counts_down(states, id, times, results, rec, times.len() as int);
}

/// The budget of a new link: a link that was inserted for `n` reads gives its
/// payload to the first `n` reads, as long as they are in time, and "not
/// found" to every later one.
pub proof fn law_n_use_budget(
    s0: Records,
    id: Seq<char>,
    msg: AddRequestView,
    created: int,
    r0: Result<(), &'static str>,
    states: Seq<Records>,
    times: Seq<int>,
    results: Seq<Result<String, &'static str>>,
)
    requires
        reads_in_turn(states, id, times, results),
        insert_spec(s0, id, new_record(id, msg, created), r0, states[0]),
        r0 is Ok,
        forall|j: int|
            0 <= j < times.len() && j < msg.reads() ==> !new_record(id, msg, created).expired_at(
                times[j],
            ),
    ensures
        forall|i: int|
            0 <= i < times.len() && i < msg.reads() ==> gives(#[trigger] results[i], msg.data),
        forall|i: int| 0 <= i < times.len() && i >= msg.reads() ==> not_found(#[trigger] results[i]),
{
    law_read_budget(states, id, times, results);
}

/// Expiry overrides the budget: a read after the record's time says "not
/// found" and deletes the record, however many reads it had left.
pub proof fn law_expiry_overrides_budget(
    s: Records,
    id: Seq<char>,
    now: int,
    r: Result<String, &'static str>,
    after: Records,
)
    requires
        s.contains_key(id),
        s[id].expired_at(now),
        select_spec(s, id, now, r, after),
    ensures
        not_found(r),
        after == s.remove(id),
{
}

/// No payload on a miss: a read of an identifier that the store does not hold
/// says "not found" and leaves the store as it was.
pub proof fn law_miss_gives_nothing(
    s: Records,
    id: Seq<char>,
    now: int,
    r: Result<String, &'static str>,
    after: Records,
)
    requires
        !s.contains_key(id),
        select_spec(s, id, now, r, after),
    ensures
        not_found(r),
        after == s,
{
}

/// An expired record, a used-up one and one that never was look the same: a
/// read that says "not found" leaves no record under the identifier, and the
/// next read says "not found" again.
pub proof fn law_not_found_is_final(
    s: Records,
    id: Seq<char>,
    t1: int,
    r1: Result<String, &'static str>,
    s1: Records,
    t2: int,
    r2: Result<String, &'static str>,
    s2: Records,
)
    requires
        select_spec(s, id, t1, r1, s1),
        r1 is Err,
        select_spec(s1, id, t2, r2, s2),
    ensures
        not_found(r1),
        !s1.contains_key(id),
        not_found(r2),
        s2 == s1,
{
}

/// Deletion is final and frees the identifier: once a read has used a record
/// up (it was the last read, or the record had expired), every later read
/// says "not found", and an insertion under the same identifier succeeds.
pub proof fn law_idempotent_deletion(
    s: Records,
    id: Seq<char>,
    t1: int,
    r1: Result<String, &'static str>,
    s1: Records,
    t2: int,
    r2: Result<String, &'static str>,
    s2: Records,
    rec: RecordView,
    r3: Result<(), &'static str>,
    s3: Records,
)
    requires
        s.contains_key(id),
        s[id].remains_at(t1) is None,
        select_spec(s, id, t1, r1, s1),
        select_spec(s1, id, t2, r2, s2),
        insert_spec(s2, id, rec, r3, s3),
    ensures
        not_found(r2),
        s2 == s1,
        r3 is Ok,
        s3 == s2.insert(id, rec),
{
}

/// Exactly once: of any number of reads of a single-use record that come one
/// after the other, the first gives the payload, if it is in time, and no
/// other does.
pub proof fn law_exactly_once(
    states: Seq<Records>,
    id: Seq<char>,
    times: Seq<int>,
    results: Seq<Result<String, &'static str>>,
)
    requires
        reads_in_turn(states, id, times, results),
        states[0].contains_key(id),
        states[0][id].max_clicks == 1,
        times.len() >= 1,
        !states[0][id].expired_at(times[0]),
    ensures
        gives(results[0], states[0][id].data),
        forall|i: int| 1 <= i < times.len() ==> not_found(#[trigger] results[i]),
{
    law_read_budget(states, id, times, results);
}

/// How many of the results hand out a payload.
pub open spec fn payloads(results: Seq<Result<String, &'static str>>) -> nat
    decreases results.len(),
{
    if results.len() == 0 {
        0
    } else {
        payloads(results.drop_last()) + if results.last() is Ok {
            1nat
        } else {
            0nat
        }
    }
}

/// Of results of which the first hands out a payload and no other does, the
/// first `k` hand out one payload in all.
proof fn lemma_first_alone(results: Seq<Result<String, &'static str>>, k: int)
    requires
        1 <= k <= results.len(),
        results[0] is Ok,
        forall|i: int| 1 <= i < results.len() ==> (#[trigger] results[i]) is Err,
    ensures
        payloads(results.take(k)) == 1,
    decreases k,
{
    let head = results.take(k);
    assert(head.last() == results[k - 1]);
    if k == 1 {
        assert(head.drop_last().len() == 0);
        assert(payloads(head.drop_last()) == 0);
    } else {
        assert(head.drop_last() =~= results.take(k - 1));
        lemma_first_alone(results, k - 1);
    }
}

/// Exactly one payload: however many reads of a single-use record come, and
/// in whatever order their callers get their turn, one of them hands out the
/// payload, if the first to come is in time, and every other says "not
/// found".
pub proof fn law_exactly_one_payload(
    states: Seq<Records>,
    id: Seq<char>,
    times: Seq<int>,
    results: Seq<Result<String, &'static str>>,
)
    requires
        reads_in_turn(states, id, times, results),
        states[0].contains_key(id),
        states[0][id].max_clicks == 1,
        times.len() >= 1,
        !states[0][id].expired_at(times[0]),
    ensures
        payloads(results) == 1,
        forall|i: int|
            0 <= i < results.len() ==> gives(#[trigger] results[i], states[0][id].data)
                || not_found(results[i]),
{
    law_exactly_once(states, id, times, results);
    lemma_first_alone(results, results.len() as int);
    assert(results.take(results.len() as int) =~= results);
}

/// At most once: of any number of reads of a single-use record that come one
/// after the other, whenever they come, no two give a payload.
pub proof fn law_at_most_once(
    states: Seq<Records>,
    id: Seq<char>,
    times: Seq<int>,
    results: Seq<Result<String, &'static str>>,
    i: int,
    j: int,
)
    requires
        reads_in_turn(states, id, times, results),
        states[0].contains_key(id),
        states[0][id].max_clicks == 1,
        0 <= i < j < times.len(),
    ensures
        !(results[i] is Ok && results[j] is Ok),
{
    lemma_gone_after_first(states, id, times, results, j);
    assert(select_spec(states[j], id, times[j], results[j], states[j + 1]));
}

/// After the first read of a single-use record the store holds no record
/// under its identifier, whenever the reads come.
proof fn lemma_gone_after_first(
    states: Seq<Records>,
    id: Seq<char>,
    times: Seq<int>,
    results: Seq<Result<String, &'static str>>,
    i: int,
)
    requires
        reads_in_turn(states, id, times, results),
        states[0].contains_key(id),
        states[0][id].max_clicks == 1,
        1 <= i <= times.len(),
    ensures
        !states[i].contains_key(id),
    decreases i,
{
    if i > 1 {
        lemma_gone_after_first(states, id, times, results, i - 1);
    }
    let k = i - 1;
    assert(select_spec(states[k], id, times[k], results[k], states[k + 1]));
}

/// A read changes nothing of a record but the number of its reads, which it
/// lowers by one; the payload, the time of making and the lifetime stay. And
/// it changes no other record.
pub proof fn law_read_changes_reads_only(
    s: Records,
    id: Seq<char>,
    now: int,
    r: Result<String, &'static str>,
    after: Records,
    other: Seq<char>,
)
    requires
        select_spec(s, id, now, r, after),
    ensures
        after.contains_key(id) ==> s.contains_key(id) && s[id].max_clicks >= 2 && after[id]
            == s[id].with_reads((s[id].max_clicks - 1) as nat),
        other != id ==> after.contains_key(other) == s.contains_key(other),
        other != id && s.contains_key(other) ==> after[other] == s[other],
{
}

/// Whether every record has at least one read left.
pub open spec fn all_have_reads(s: Records) -> bool {
    forall|id: Seq<char>| #[trigger] s.contains_key(id) ==> s[id].max_clicks >= 1
}

/// No record is kept without a read left: neither an insertion of the record
/// of a request nor a read leaves one in the store.
pub proof fn law_no_record_without_reads(
    s: Records,
    id: Seq<char>,
    msg: AddRequestView,
    created: int,
    r1: Result<(), &'static str>,
    inserted: Records,
    now: int,
    r2: Result<String, &'static str>,
    read: Records,
)
    requires
        all_have_reads(s),
        insert_spec(s, id, new_record(id, msg, created), r1, inserted),
        select_spec(s, id, now, r2, read),
    ensures
        all_have_reads(inserted),
        all_have_reads(read),
{
    assert forall|k: Seq<char>| #[trigger] inserted.contains_key(k) implies inserted[k].max_clicks
        >= 1 by {
        if k != id {
            assert(s.contains_key(k));
        }
    }
    assert forall|k: Seq<char>| #[trigger] read.contains_key(k) implies read[k].max_clicks >= 1 by {
        assert(s.contains_key(k));
    }
}

/// Insert collision: a second insertion under an identifier, with no read in
/// between, is refused with `ALREADY_EXISTS_ERROR` and leaves the first record
/// as it is.
pub proof fn law_insert_collision(
    s0: Records,
    id: Seq<char>,
    first: RecordView,
    r1: Result<(), &'static str>,
    s1: Records,
    second: RecordView,
    r2: Result<(), &'static str>,
    s2: Records,
)
    requires
        insert_spec(s0, id, first, r1, s1),
        insert_spec(s1, id, second, r2, s2),
    ensures
        r2 == Err::<(), &'static str>(ALREADY_EXISTS_ERROR),
        s2 == s1,
        r1 is Ok ==> s2[id] == first,
{
}

} // verus!
