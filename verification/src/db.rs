//! The store: records, the engines that keep them and the rule by which a
//! read uses a record up.

use crate::api::ApiAddRequest;
use crate::logger::get_reporter;
use crate::model::{
    clock_time, delete_spec, get_spec, insert_spec, keyed_by_id, new_record, select_spec, settled,
    update_spec, RecordView, Records,
};
use crate::utils::{now, str_eq};
use vstd::hash_map::StringHashMap;
use vstd::prelude::*;

verus! {

/// The name of this part in reports of failures.
const MODULE: &'static str = "DB";

/// A failure of the SQLite engine or its database.
pub const SQLITE_ERROR: &'static str = "sqlite error";

/// A failure of the MySQL engine or its server.
pub const MYSQL_ERROR: &'static str = "mysql error";

/// A failure of the engine that keeps its records in memory.
pub const MEMORY_ERROR: &'static str = "memory error";

/// A failure of the file engine or its files.
pub const IO_ERROR: &'static str = "io error";

/// A failure of the PostgreSQL engine or its server.
pub const PGSQL_ERROR: &'static str = "pgsql error";

/// There is no such record: it never was, it was used up or it has expired.
pub const NOT_FOUND_ERROR: &'static str = "not found";

/// The configuration names a kind of engine that there is not.
pub const UNKNOWN_DB_TYPE_ERROR: &'static str = "unknown db kind";

/// The identifier is taken.
pub const ALREADY_EXISTS_ERROR: &'static str = "already exists";

/// The file to delete is not there.
pub const DO_NOT_EXISTS_ERROR: &'static str = "do not exists";

/// There is no record to delete.
pub const DELETE_ERROR: &'static str = "delete error";

/// A payload with its budget of reads and of time. A record always has at
/// least one read left: the read that uses up the last one deletes it.
#[derive(Debug)]
pub struct Record {
    id: String,
    data: String,
    max_clicks: u32,
    created: i64,
    lifetime: u64,
}

impl View for Record {
    type V = RecordView;

    closed spec fn view(&self) -> RecordView {
        RecordView {
            id: self.id@,
            data: self.data@,
            max_clicks: self.max_clicks as nat,
            created: self.created as int,
            lifetime: self.lifetime as nat,
        }
    }
}

impl Clone for Record {
    fn clone(&self) -> (r: Self)
        ensures
            r@ == self@,
    {
        proof {
            use_type_invariant(self);
        }
        Record {
            id: self.id.clone(),
            data: self.data.clone(),
            max_clicks: self.max_clicks,
            created: self.created,
            lifetime: self.lifetime,
        }
    }
}

/// What one read makes of a record.
pub struct Reading {
    /// What the reader gets: the payload, or nothing where the record had
    /// expired.
    pub payload: Option<String>,
    /// What the store keeps: the record with one read less, or nothing where
    /// the record is to be deleted.
    pub remains: Option<Record>,
}

impl Record {
    #[verifier::type_invariant]
    spec fn has_reads(self) -> bool {
        self.max_clicks >= 1
    }

    /// The record that the request `msg` makes under `id` at the time
    /// `created`.
    pub fn created_at(id: &String, msg: &ApiAddRequest, created: i64) -> (r: Self)
        ensures
            r@ == new_record(id@, msg@, created as int),
    {
        Record {
            id: id.clone(),
            data: msg.get_data().clone(),
            max_clicks: msg.get_max_clicks(),
            created,
            lifetime: msg.get_lifetime(),
        }
    }

    /// The record that the request `msg` makes under `id` now.
    pub fn new(id: &String, msg: &ApiAddRequest) -> (r: Self)
        ensures
            clock_time(r@.created),
            r@ == new_record(id@, msg@, r@.created),
    {
        Self::created_at(id, msg, now())
    }

    /// A record of the given parts, or `None` where `max_clicks` is 0: no
    /// record is without a read.
    pub fn from_parts(id: String, data: String, max_clicks: u32, created: i64, lifetime: u64) -> (r:
        Option<Self>)
        ensures
            max_clicks == 0 ==> r is None,
            max_clicks != 0 ==> r is Some && r->0@ == (RecordView {
                id: id@,
                data: data@,
                max_clicks: max_clicks as nat,
                created: created as int,
                lifetime: lifetime as nat,
            }),
    {
        if max_clicks == 0 {
            None
        } else {
            Some(Record { id, data, max_clicks, created, lifetime })
        }
    }

    pub fn id(&self) -> (r: &String)
        ensures
            r@ == self@.id,
    {
        &self.id
    }

    pub fn data(&self) -> (r: &String)
        ensures
            r@ == self@.data,
    {
        &self.data
    }

    /// The number of reads that are left, at least 1.
    pub fn max_clicks(&self) -> (r: u32)
        ensures
            r == self@.max_clicks,
            r >= 1,
    {
        proof {
            use_type_invariant(self);
        }
        self.max_clicks
    }

    pub fn created(&self) -> (r: i64)
        ensures
            r == self@.created,
    {
        self.created
    }

    pub fn lifetime(&self) -> (r: u64)
        ensures
            r == self@.lifetime,
    {
        self.lifetime
    }

    /// The record with as many reads left as `other` has. Nothing else of it
    /// changes.
    pub fn with_reads_of(self, other: &Record) -> (r: Self)
        ensures
            r@ == self@.with_reads(other@.max_clicks),
    {
        let mut rec = self;
        rec.max_clicks = other.max_clicks();
        rec
    }

    /// Whether the record's time is over at the time `now`: more than
    /// `lifetime` seconds have passed since it was made.
    pub fn expired_at(&self, now: i64) -> (r: bool)
        ensures
            r == self@.expired_at(now as int),
    {
        (now as i128) - (self.created as i128) > (self.lifetime as i128)
    }

    /// Whether the record's time is over now.
    pub fn expired(&self) -> (r: bool)
        ensures
            exists|t: int| #[trigger] clock_time(t) && r == self@.expired_at(t),
    {
        let t = now();
        let r = self.expired_at(t);
        assert(clock_time(t as int) && r == self@.expired_at(t as int));
        r
    }

    /// Reads the record at the time `now`: says what the reader gets and what
    /// the store is to keep.
    pub fn read_at(self, now: i64) -> (r: Reading)
        ensures
            match r.payload {
                Some(data) => self@.payload_at(now as int) == Some(data@),
                None => self@.payload_at(now as int) is None,
            },
            match r.remains {
                Some(rec) => self@.remains_at(now as int) == Some(rec@),
                None => self@.remains_at(now as int) is None,
            },
    {
        proof {
            use_type_invariant(&self);
        }
        let expired = self.expired_at(now);
        let payload = if expired {
            None
        } else {
            Some(self.data.clone())
        };
        let remains = if self.max_clicks == 1 || expired {
            None
        } else {
            let mut rec = self;
            rec.max_clicks = rec.max_clicks - 1;
            Some(rec)
        };
        Reading { payload, remains }
    }
}

/// The names of the kinds of engine, as the configuration writes them.
pub const DB_SQLITE: &'static str = "sqlite";

pub const DB_MEMORY: &'static str = "memory";

pub const DB_FILE: &'static str = "file";

pub const DB_MYSQL: &'static str = "mysql";

pub const DB_PGSQL: &'static str = "postgresql";

/// The kinds of engine that a store can be opened on.
#[derive(Clone, Copy, Debug, PartialEq, Eq, Structural)]
pub enum EngineKind {
    Sqlite,
    Memory,
    File,
    Mysql,
    Postgresql,
}

impl EngineKind {
    /// The kind that the configuration calls `name`, if there is one.
    pub open spec fn named(name: Seq<char>) -> Option<EngineKind> {
        if name == DB_SQLITE@ {
            Some(EngineKind::Sqlite)
        } else if name == DB_MEMORY@ {
            Some(EngineKind::Memory)
        } else if name == DB_FILE@ {
            Some(EngineKind::File)
        } else if name == DB_MYSQL@ {
            Some(EngineKind::Mysql)
        } else if name == DB_PGSQL@ {
            Some(EngineKind::Postgresql)
        } else {
            None
        }
    }

    /// The kind that the configuration calls `name`; a name of no kind is
    /// refused with `UNKNOWN_DB_TYPE_ERROR`.
    pub fn parse(name: &str) -> (r: Result<EngineKind, &'static str>)
        ensures
            match Self::named(name@) {
                Some(kind) => r == Ok::<EngineKind, &'static str>(kind),
                None => r == Err::<EngineKind, &'static str>(UNKNOWN_DB_TYPE_ERROR),
            },
    {
        if str_eq(name, DB_SQLITE) {
            Ok(EngineKind::Sqlite)
        } else if str_eq(name, DB_MEMORY) {
            Ok(EngineKind::Memory)
        } else if str_eq(name, DB_FILE) {
            Ok(EngineKind::File)
        } else if str_eq(name, DB_MYSQL) {
            Ok(EngineKind::Mysql)
        } else if str_eq(name, DB_PGSQL) {
            Ok(EngineKind::Postgresql)
        } else {
            Err(UNKNOWN_DB_TYPE_ERROR)
        }
    }

    /// The name that the configuration has for the kind.
    pub fn name(&self) -> (r: &'static str)
        ensures
            Self::named(r@) == Some(*self),
    {
        proof {
            reveal_strlit("sqlite");
            reveal_strlit("memory");
            reveal_strlit("file");
            reveal_strlit("mysql");
            reveal_strlit("postgresql");
            assert(DB_SQLITE@[0] == 's' && DB_SQLITE@.len() == 6);
            assert(DB_MEMORY@[0] == 'm' && DB_MEMORY@.len() == 6);
            assert(DB_FILE@.len() == 4);
            assert(DB_MYSQL@.len() == 5);
            assert(DB_PGSQL@.len() == 10);
        }
        match self {
            EngineKind::Sqlite => DB_SQLITE,
            EngineKind::Memory => DB_MEMORY,
            EngineKind::File => DB_FILE,
            EngineKind::Mysql => DB_MYSQL,
            EngineKind::Postgresql => DB_PGSQL,
        }
    }
}

/// What the store asks of the medium that keeps its records.
///
/// The contracts speak of an engine through the spec functions `records` and
/// `reliable`. An engine whose records lie outside the program (in files, with
/// a database server) cannot answer for them: it leaves the spec functions as
/// they are here, so that `reliable` is `false` and nothing is claimed of
/// what it does.
pub trait DbEngine: Sync + Send {
    /// The records that the engine holds, by identifier.
    open spec fn records(&self) -> Records {
        Map::empty()
    }

    /// Whether the engine keeps its records as `records` says, each under its
    /// own identifier, and fails only where the contracts below say so.
    open spec fn reliable(&self) -> bool {
        false
    }

    /// Whether `new` is sure to open an engine of the kind `kind`: an empty
    /// and reliable one.
    open spec fn opens(kind: EngineKind) -> bool {
        false
    }

    /// Stores `record` under `id`, its own identifier, unless `id` is taken.
    fn insert(&mut self, id: &String, record: Record) -> (r: Result<(), &'static str>)
        requires
            record@.id == id@,
        ensures
            old(self).reliable() ==> final(self).reliable(),
            old(self).reliable() ==> insert_spec(
                old(self).records(),
                id@,
                record@,
                r,
                final(self).records(),
            ),
    ;

    /// The record that is stored under `id`.
    fn get(&mut self, id: &String) -> (r: Result<Record, &'static str>)
        ensures
            old(self).reliable() ==> final(self).reliable(),
            old(self).reliable() ==> final(self).records() == old(self).records(),
            old(self).reliable() ==> get_spec(old(self).records(), id@, r),
            old(self).reliable() ==> (r matches Ok(rec) ==> rec@.id == id@),
    ;

    /// Deletes the record that is stored under `id`.
    fn delete(&mut self, id: &String) -> (r: Result<(), &'static str>)
        ensures
            old(self).reliable() ==> final(self).reliable(),
            old(self).reliable() ==> delete_spec(
                old(self).records(),
                id@,
                r,
                final(self).records(),
            ),
    ;

    /// Gives the record that is stored under the identifier of `r` as many
    /// reads as `r` has. Nothing else of the stored record changes.
    fn update(&mut self, r: Record) -> (res: Result<(), &'static str>)
        ensures
            old(self).reliable() ==> final(self).reliable(),
            old(self).reliable() ==> update_spec(
                old(self).records(),
                r@,
                res,
                final(self).records(),
            ),
    ;

    /// Opens an engine of the kind `kind` on the medium that `path` names. An
    /// engine that does not serve the kind, or cannot open the medium, fails
    /// with an error of its own: `UNKNOWN_DB_TYPE_ERROR` is for names of no
    /// kind.
    fn new(kind: EngineKind, path: &String) -> (r: Result<Self, &'static str>) where Self: Sized
        ensures
            Self::opens(kind) ==> r is Ok,
            Self::opens(kind) ==> r->Ok_0.reliable(),
            Self::opens(kind) ==> r->Ok_0.records() == Map::<Seq<char>, RecordView>::empty(),
            r matches Err(e) ==> e@ != UNKNOWN_DB_TYPE_ERROR@,
    ;

    /// As `new`, with the engine on the heap.
    fn new_boxed(kind: EngineKind, path: &String) -> (r: Result<Box<Self>, &'static str>) where
        Self: Sized,

        ensures
            Self::opens(kind) ==> r is Ok,
            Self::opens(kind) ==> r->Ok_0.reliable(),
            Self::opens(kind) ==> r->Ok_0.records() == Map::<Seq<char>, RecordView>::empty(),
            r matches Err(e) ==> e@ != UNKNOWN_DB_TYPE_ERROR@,
            match r {
                Ok(engine) => call_ensures(Self::new, (kind, path), Ok::<Self, &'static str>(*engine)),
                Err(e) => call_ensures(Self::new, (kind, path), Err::<Self, &'static str>(e)),
            },
    {
        match Self::new(kind, path) {
            Ok(e) => Ok(Box::new(e)),
            Err(e) => Err(e),
        }
    }

    /// Makes the medium ready: creates what the engine needs and is not there
    /// yet. The records stay as they are.
    fn prepare(&mut self) -> (r: Result<(), &'static str>)
        ensures
            old(self).reliable() ==> final(self).reliable(),
            old(self).reliable() ==> r is Ok,
            old(self).reliable() ==> final(self).records() == old(self).records(),
    ;
}

/// The engine that keeps its records in the memory of the program. They are
/// lost when the program ends.
pub struct MemoryEngine {
    map: StringHashMap<Record>,
}

impl DbEngine for MemoryEngine {
    closed spec fn records(&self) -> Records {
        Map::new(|id: Seq<char>| self.map@.contains_key(id), |id: Seq<char>| self.map@[id]@)
    }

    /// The engine answers for its records as long as each is stored under
    /// its own identifier, which every method keeps so.
    open spec fn reliable(&self) -> bool {
        keyed_by_id(self.records())
    }

    open spec fn opens(kind: EngineKind) -> bool {
        kind == EngineKind::Memory
    }

    /// An empty engine. The path is of no use to it: any will do. Asked for
    /// another kind than memory, it fails with `MEMORY_ERROR`.
    fn new(kind: EngineKind, path: &String) -> (r: Result<Self, &'static str>)
        ensures
            kind != EngineKind::Memory ==> r == Err::<Self, &'static str>(MEMORY_ERROR),
    {
        proof {
            reveal_strlit("memory error");
            reveal_strlit("unknown db kind");
            assert(MEMORY_ERROR@.len() == 12);
            assert(UNKNOWN_DB_TYPE_ERROR@.len() == 15);
        }
        match kind {
            EngineKind::Memory => {
                let engine = MemoryEngine { map: StringHashMap::new() };
                assert(engine.records() =~= Map::<Seq<char>, RecordView>::empty());
                Ok(engine)
            },
            _ => Err(MEMORY_ERROR),
        }
    }

    fn insert(&mut self, id: &String, record: Record) -> (r: Result<(), &'static str>) {
        if self.map.contains_key(id.as_str()) {
            Err(ALREADY_EXISTS_ERROR)
        } else {
            self.map.insert(id.clone(), record);
            assert(self.records() =~= old(self).records().insert(id@, record@));
            Ok(())
        }
    }

    fn delete(&mut self, id: &String) -> (r: Result<(), &'static str>)
        ensures
            r is Err ==> r == Err::<(), &'static str>(MEMORY_ERROR),
    {
        if self.map.contains_key(id.as_str()) {
            self.map.remove(id.as_str());
            assert(self.records() =~= old(self).records().remove(id@));
            Ok(())
        } else {
            let report = get_reporter(MODULE, "Memory", MEMORY_ERROR);
            Err(report(DELETE_ERROR))
        }
    }

    fn get(&mut self, id: &String) -> (r: Result<Record, &'static str>) {
        match self.map.get(id.as_str()) {
            Some(v) => Ok(v.clone()),
            None => Err(NOT_FOUND_ERROR),
        }
    }

    fn update(&mut self, r: Record) -> (res: Result<(), &'static str>) {
        let stored = match self.map.get(r.id.as_str()) {
            Some(v) => v.clone(),
            None => {
                return Err(NOT_FOUND_ERROR);
            },
        };
        self.map.insert(r.id.clone(), stored.with_reads_of(&r));
        assert(self.records() =~= old(self).records().insert(
            r@.id,
            old(self).records()[r@.id].with_reads(r@.max_clicks),
        ));
        proof {
            if old(self).reliable() {
                assert forall|id: Seq<char>| #[trigger]
                    self.records().contains_key(id) implies self.records()[id].id == id by {
                    if id != r@.id {
                        assert(old(self).records().contains_key(id));
                    }
                }
            }
        }
        Ok(())
    }

    fn prepare(&mut self) -> (r: Result<(), &'static str>) {
        Ok(())
    }
}

/// A store of records on an engine of the type `E`. It takes one call at a
/// time; behind a lock, every call is one step for all who share the store.
pub struct DB<E: DbEngine> {
    kind: String,
    engine: Box<E>,
}

impl<E: DbEngine> View for DB<E> {
    type V = Records;

    /// The records that the store holds, by identifier.
    closed spec fn view(&self) -> Records {
        self.engine.records()
    }
}

/// What a read answers, from what it was to hand out and from how its change
/// to the store ended: a failure to write is handed on as it is; after a
/// change that went well the answer is the payload, or `NOT_FOUND_ERROR` where
/// there is none to hand out.
pub fn settle(payload: Option<String>, written: Result<(), &'static str>) -> (r: Result<
    String,
    &'static str,
>)
    ensures
        written matches Err(e) ==> r == Err::<String, &'static str>(e),
        written is Ok ==> match payload {
            Some(d) => r == Ok::<String, &'static str>(d),
            None => r == Err::<String, &'static str>(NOT_FOUND_ERROR),
        },
        settled(
            match payload {
                Some(d) => Some(d@),
                None => None,
            },
            written,
            r,
        ),
{
    match written {
        Err(e) => Err(e),
        Ok(()) => match payload {
            Some(d) => Ok(d),
            None => Err(NOT_FOUND_ERROR),
        },
    }
}

impl<E: DbEngine> DB<E> {
    /// Whether the store's engine is reliable: see `DbEngine::reliable`.
    pub closed spec fn reliable(&self) -> bool {
        self.engine.reliable()
    }

    /// The name of the kind that the store was opened as.
    pub closed spec fn kind(&self) -> Seq<char> {
        self.kind@
    }

    /// The engine of the store.
    pub closed spec fn engine(&self) -> E {
        *self.engine
    }

    /// The store holds what its engine holds, and is reliable as far as its
    /// engine is.
    pub proof fn lemma_store_is_its_engine(&self)
        ensures
            self@ == self.engine().records(),
            self.reliable() == self.engine().reliable(),
    {
    }

    fn new_engine(kind: &String, path: &String) -> (r: Result<Box<E>, &'static str>)
        ensures
            r == Err::<Box<E>, &'static str>(UNKNOWN_DB_TYPE_ERROR) <==> EngineKind::named(kind@)
                is None,
            (r matches Err(e) && e@ == UNKNOWN_DB_TYPE_ERROR@) <==> EngineKind::named(kind@) is None,
            EngineKind::named(kind@) matches Some(k) ==> call_ensures(E::new_boxed, (k, path), r),
            EngineKind::named(kind@) matches Some(k) && E::opens(k) ==> r is Ok
                && r->Ok_0.reliable() && r->Ok_0.records() == Map::<Seq<char>, RecordView>::empty(),
    {
        match EngineKind::parse(kind.as_str()) {
            Ok(k) => E::new_boxed(k, path),
            Err(e) => Err(e),
        }
    }

    /// Opens the store of the kind that `typ` names on the medium that `path`
    /// names. A name of no kind, and no other, is refused with
    /// `UNKNOWN_DB_TYPE_ERROR`; for the name of a kind the store is on the
    /// engine that `E::new_boxed` opens, and where that fails, its error is
    /// the answer.
    pub fn new(typ: &String, path: &String) -> (r: Result<DB<E>, &'static str>)
        ensures
            r == Err::<DB<E>, &'static str>(UNKNOWN_DB_TYPE_ERROR) <==> EngineKind::named(typ@)
                is None,
            (r matches Err(e) && e@ == UNKNOWN_DB_TYPE_ERROR@) <==> EngineKind::named(typ@) is None,
            EngineKind::named(typ@) matches Some(k) ==> exists|opened: Result<Box<E>, &'static str>|
                #[trigger] call_ensures(E::new_boxed, (k, path), opened) && match opened {
                    Ok(engine) => r matches Ok(db) && db.engine() == *engine,
                    Err(e) => r == Err::<DB<E>, &'static str>(e),
                },
            EngineKind::named(typ@) matches Some(k) && E::opens(k) ==> r is Ok,
            r matches Ok(db) ==> db.kind() == typ@ && EngineKind::named(typ@) is Some,
            r matches Ok(db) ==> (E::opens(EngineKind::named(typ@)->0) ==> db.reliable() && db@
                == Map::<Seq<char>, RecordView>::empty()),
    {
        match Self::new_engine(typ, path) {
            Ok(engine) => Ok(DB { kind: typ.clone(), engine }),
            Err(e) => Err(e),
        }
    }

    /// The store on an engine that is open already, named as of the kind
    /// `kind`.
    pub fn with_engine(kind: String, engine: E) -> (db: DB<E>)
        ensures
            db.kind() == kind@,
            db.engine() == engine,
            db@ == engine.records(),
            db.reliable() == engine.reliable(),
    {
        DB { kind, engine: Box::new(engine) }
    }

    /// Stores the payload of `msg` under `id`, with the budget that `msg` asks
    /// for, as made at the time `created`. The engine is asked once, to insert
    /// the record that the request makes, and its answer is the result.
    pub fn insert_at(&mut self, id: &String, msg: &ApiAddRequest, created: i64) -> (r: Result<
        (),
        &'static str,
    >)
        ensures
            final(self).kind() == old(self).kind(),
            exists|e: &mut E, rec: Record|
                {
                    &&& #[trigger] call_ensures(E::insert, (e, id, rec), r)
                    &&& rec@ == new_record(id@, msg@, created as int)
                    &&& mut_ref_current(e) == old(self).engine()
                    &&& mut_ref_future(e) == final(self).engine()
                },
            old(self).reliable() ==> final(self).reliable(),
            old(self).reliable() ==> insert_spec(
                old(self)@,
                id@,
                new_record(id@, msg@, created as int),
                r,
                final(self)@,
            ),
    {
        let rec = Record::created_at(id, msg, created);
        let engine: &mut E = &mut *self.engine;
        engine.insert(id, rec)
    }

    /// Stores the payload of `msg` under `id`, with the budget that `msg` asks
    /// for, as made now: see `insert_at`.
    pub fn insert(&mut self, id: &String, msg: &ApiAddRequest) -> (r: Result<(), &'static str>)
        ensures
            final(self).kind() == old(self).kind(),
            old(self).reliable() ==> final(self).reliable(),
            exists|created: int|
                {
                    &&& #[trigger] clock_time(created)
                    &&& old(self).reliable() ==> insert_spec(
                        old(self)@,
                        id@,
                        new_record(id@, msg@, created),
                        r,
                        final(self)@,
                    )
                    &&& exists|e: &mut E, rec: Record|
                        {
                            &&& #[trigger] call_ensures(E::insert, (e, id, rec), r)
                            &&& rec@ == new_record(id@, msg@, created)
                            &&& mut_ref_current(e) == old(self).engine()
                            &&& mut_ref_future(e) == final(self).engine()
                        }
                },
    {
        let created = now();
        let r = self.insert_at(id, msg, created);
        assert(clock_time(created as int));
        r
    }

    /// Reads the payload that is stored under `id`, at the time `now`, and
    /// uses up one read of the record: where it was the last one, or the
    /// record has expired, the record is deleted. An expired record is "not
    /// found", as one that never was.
    ///
    /// The engine is asked for the record first; where that fails, its error
    /// is the answer and nothing more is asked. Else the engine is asked once
    /// more: to update the record to what the read leaves of it, or to delete
    /// it where nothing is left; the answer is then settled as `settled` says.
    pub fn select_at(&mut self, id: &String, now: i64) -> (r: Result<String, &'static str>)
        ensures
            final(self).kind() == old(self).kind(),
            old(self).reliable() ==> final(self).reliable(),
            old(self).reliable() ==> select_spec(old(self)@, id@, now as int, r, final(self)@),
            exists|e1: &mut E, got: Result<Record, &'static str>|
                {
                    &&& #[trigger] call_ensures(E::get, (e1, id), got)
                    &&& mut_ref_current(e1) == old(self).engine()
                    &&& match got {
                        Err(e) => {
                            &&& r == Err::<String, &'static str>(e)
                            &&& mut_ref_future(e1) == final(self).engine()
                        },
                        Ok(rec) => exists|written: Result<(), &'static str>|
                            {
                                &&& #[trigger] settled(rec@.payload_at(now as int), written, r)
                                &&& match rec@.remains_at(now as int) {
                                    Some(rest) => exists|e2: &mut E, to: Record|
                                        {
                                            &&& #[trigger] call_ensures(E::update, (e2, to), written)
                                            &&& to@ == rest
                                            &&& mut_ref_current(e2) == mut_ref_future(e1)
                                            &&& mut_ref_future(e2) == final(self).engine()
                                        },
                                    None => exists|e2: &mut E|
                                        {
                                            &&& #[trigger] call_ensures(E::delete, (e2, id), written)
                                            &&& mut_ref_current(e2) == mut_ref_future(e1)
                                            &&& mut_ref_future(e2) == final(self).engine()
                                        },
                                }
                            },
                    }
                },
    {
        let engine: &mut E = &mut *self.engine;
        let rec = match engine.get(id) {
            Ok(rec) => rec,
            Err(e) => {
                return Err(e);
            },
        };
        let reading = rec.read_at(now);
        let written = match reading.remains {
            Some(rest) => engine.update(rest),
            None => engine.delete(id),
        };
        settle(reading.payload, written)
    }

    /// Reads the payload that is stored under `id`, now: see `select_at`.
    pub fn select(&mut self, id: &String) -> (r: Result<String, &'static str>)
        ensures
            final(self).kind() == old(self).kind(),
            old(self).reliable() ==> final(self).reliable(),
            exists|now: int|
                {
                    &&& #[trigger] clock_time(now)
                    &&& old(self).reliable() ==> select_spec(old(self)@, id@, now, r, final(self)@)
                    &&& exists|e1: &mut E, got: Result<Record, &'static str>|
                        {
                            &&& #[trigger] call_ensures(E::get, (e1, id), got)
                            &&& mut_ref_current(e1) == old(self).engine()
                            &&& match got {
                                Err(e) => {
                                    &&& r == Err::<String, &'static str>(e)
                                    &&& mut_ref_future(e1) == final(self).engine()
                                },
                                Ok(rec) => exists|written: Result<(), &'static str>|
                                    {
                                        &&& #[trigger] settled(rec@.payload_at(now), written, r)
                                        &&& match rec@.remains_at(now) {
                                            Some(rest) => exists|e2: &mut E, to: Record|
                                                {
                                                    &&& #[trigger] call_ensures(E::update, (e2, to), written)
                                                    &&& to@ == rest
                                                    &&& mut_ref_current(e2) == mut_ref_future(e1)
                                                    &&& mut_ref_future(e2) == final(self).engine()
                                                },
                                            None => exists|e2: &mut E|
                                                {
                                                    &&& #[trigger] call_ensures(E::delete, (e2, id), written)
                                                    &&& mut_ref_current(e2) == mut_ref_future(e1)
                                                    &&& mut_ref_future(e2) == final(self).engine()
                                                },
                                        }
                                    },
                            }
                        }
                },
    {
        let t = now();
        let r = self.select_at(id, t);
        assert(clock_time(t as int));
        r
    }

    /// Makes the engine ready: the engine is asked once, and its answer is the
    /// result. On a reliable engine that goes well and the records stay as
    /// they are.
    pub fn prepare(&mut self) -> (r: Result<(), &'static str>)
        ensures
            final(self).kind() == old(self).kind(),
            exists|e: &mut E|
                {
                    &&& #[trigger] call_ensures(E::prepare, (e,), r)
                    &&& mut_ref_current(e) == old(self).engine()
                    &&& mut_ref_future(e) == final(self).engine()
                },
            old(self).reliable() ==> final(self).reliable() && r is Ok && final(self)@ == old(self)@,
    {
        let engine: &mut E = &mut *self.engine;
        engine.prepare()
    }

    /// The name of the kind that the store was opened as.
    pub fn get_kind(&self) -> (r: &String)
        ensures
            r@ == self.kind(),
    {
        &self.kind
    }
}

} // verus!
