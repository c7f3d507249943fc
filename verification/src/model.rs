//! The mathematical model of the store: what a record is, what a store holds
//! and what inserting and reading do to it. The contracts of the executable
//! store are stated over these functions, and so are the laws at the end of
//! the module `laws`.

use crate::api::AddRequestView;
use crate::db::{Record, ALREADY_EXISTS_ERROR, NOT_FOUND_ERROR};
use vstd::prelude::*;

verus! {

/// Whether `t` is a time that the clock can tell: seconds since the Unix
/// epoch, from 0 to the largest that an `i64` holds.
pub open spec fn clock_time(t: int) -> bool {
    0 <= t <= i64::MAX
}

/// What a record holds.
pub struct RecordView {
    /// The identifier that the record is stored under.
    pub id: Seq<char>,
    /// The payload.
    pub data: Seq<char>,
    /// The number of reads that are left, the coming one included.
    pub max_clicks: nat,
    /// When the record was made, in seconds since the Unix epoch.
    pub created: int,
    /// For how many seconds after `created` the record can be read.
    pub lifetime: nat,
}

impl RecordView {
    /// Whether the record's time is over at the time `now`.
    pub open spec fn expired_at(self, now: int) -> bool {
        now - self.created > self.lifetime
    }

    /// Whether the coming read is the last one that the record allows.
    pub open spec fn last_read(self) -> bool {
        self.max_clicks <= 1
    }

    /// The record with one read less.
    pub open spec fn after_read(self) -> RecordView {
        RecordView { max_clicks: (self.max_clicks - 1) as nat, ..self }
    }

    /// The record with `max_clicks` reads left.
    pub open spec fn with_reads(self, max_clicks: nat) -> RecordView {
        RecordView { max_clicks, ..self }
    }

    /// What a read at the time `now` returns: the payload, unless the record
    /// has expired.
    pub open spec fn payload_at(self, now: int) -> Option<Seq<char>> {
        if self.expired_at(now) {
            None
        } else {
            Some(self.data)
        }
    }

    /// What a read at the time `now` leaves of the record: nothing where it
    /// has expired or this read was its last, else the record with one read
    /// less.
    pub open spec fn remains_at(self, now: int) -> Option<RecordView> {
        if self.expired_at(now) || self.last_read() {
            None
        } else {
            Some(self.after_read())
        }
    }
}

/// The record that the request `msg` makes under the identifier `id` at the
/// time `created`.
pub open spec fn new_record(id: Seq<char>, msg: AddRequestView, created: int) -> RecordView {
    RecordView {
        id,
        data: msg.data,
        max_clicks: msg.reads(),
        created,
        lifetime: msg.lifetime_seconds(),
    }
}

/// What a store holds: its records by identifier.
pub type Records = Map<Seq<char>, RecordView>;

/// Whether every record is stored under its own identifier.
pub open spec fn keyed_by_id(recs: Records) -> bool {
    forall|id: Seq<char>| #[trigger] recs.contains_key(id) ==> recs[id].id == id
}

/// The store after an attempt to insert `rec` under `id`: an identifier that
/// is taken keeps its record.
pub open spec fn after_insert(recs: Records, id: Seq<char>, rec: RecordView) -> Records {
    if recs.contains_key(id) {
        recs
    } else {
        recs.insert(id, rec)
    }
}

/// What a consuming read of `id` at the time `now` returns: the payload where
/// the store holds a record under `id` that has not expired, else nothing.
pub open spec fn select_payload(recs: Records, id: Seq<char>, now: int) -> Option<Seq<char>> {
    if recs.contains_key(id) {
        recs[id].payload_at(now)
    } else {
        None
    }
}

/// The store after a consuming read of `id` at the time `now`.
pub open spec fn after_select(recs: Records, id: Seq<char>, now: int) -> Records {
    if recs.contains_key(id) {
        match recs[id].remains_at(now) {
            Some(rec) => recs.insert(id, rec),
            None => recs.remove(id),
        }
    } else {
        recs
    }
}

/// What a look for the record under `id` owes its caller, on an engine that
/// holds `recs`: the record where there is one, else "not found".
pub open spec fn get_spec(recs: Records, id: Seq<char>, r: Result<Record, &'static str>) -> bool {
    match r {
        Ok(rec) => recs.contains_key(id) && rec@ == recs[id],
        Err(e) => e == NOT_FOUND_ERROR && !recs.contains_key(id),
    }
}

/// What the deletion of the record under `id` owes its caller, on an engine
/// that held `before`: success where there was such a record, which is gone
/// from `after`; else a failure, and `after` is as `before`.
pub open spec fn delete_spec(
    before: Records,
    id: Seq<char>,
    r: Result<(), &'static str>,
    after: Records,
) -> bool {
    match r {
        Ok(()) => before.contains_key(id) && after == before.remove(id),
        Err(_) => !before.contains_key(id) && after == before,
    }
}

/// What an update with the record `rec` owes its caller, on an engine that
/// held `before`: where there was a record under the identifier of `rec`, it
/// has as many reads in `after` as `rec` has, and is else as it was; where
/// there was none, "not found", and `after` is as `before`.
pub open spec fn update_spec(
    before: Records,
    rec: RecordView,
    r: Result<(), &'static str>,
    after: Records,
) -> bool {
    match r {
        Ok(()) => before.contains_key(rec.id) && after == before.insert(
            rec.id,
            before[rec.id].with_reads(rec.max_clicks),
        ),
        Err(e) => e == NOT_FOUND_ERROR && !before.contains_key(rec.id) && after == before,
    }
}

/// Whether `r` is what a read answers that was to hand out `payload` (nothing,
/// where the record had expired) and whose change to the store ended as
/// `written`: a failure to write is the answer itself; after a change that
/// went well the answer is the payload, or "not found" where there is none.
pub open spec fn settled(
    payload: Option<Seq<char>>,
    written: Result<(), &'static str>,
    r: Result<String, &'static str>,
) -> bool {
    match written {
        Err(e) => r == Err::<String, &'static str>(e),
        Ok(()) => match payload {
            Some(data) => r matches Ok(d) && d@ == data,
            None => r == Err::<String, &'static str>(NOT_FOUND_ERROR),
        },
    }
}

/// What an insertion of `rec` under `id` owes its caller, on a store that
/// held `before`: success where `id` was free, and the collision told where it
/// was not; `after` is what the store holds then.
pub open spec fn insert_spec(
    before: Records,
    id: Seq<char>,
    rec: RecordView,
    r: Result<(), &'static str>,
    after: Records,
) -> bool {
    &&& after == after_insert(before, id, rec)
    &&& match r {
        Ok(()) => !before.contains_key(id),
        Err(e) => e == ALREADY_EXISTS_ERROR && before.contains_key(id),
    }
}

/// What a consuming read of `id` at the time `now` owes its caller, on a store
/// that held `before`: the payload or "not found", as `select_payload` says;
/// `after` is what the store holds then.
pub open spec fn select_spec(
    before: Records,
    id: Seq<char>,
    now: int,
    r: Result<String, &'static str>,
    after: Records,
) -> bool {
    &&& after == after_select(before, id, now)
    &&& match r {
        Ok(data) => select_payload(before, id, now) == Some(data@),
        Err(e) => e == NOT_FOUND_ERROR && select_payload(before, id, now) is None,
    }
}

} // verus!
