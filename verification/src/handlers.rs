//! What the server answers: which call a request is, and the response and
//! status code that each outcome of a call gets.

use crate::api::{AddRequestView, ApiAddRequest, ApiResponse, ApiResponseView};
use crate::db::{DbEngine, DB};
use crate::model::{after_insert, clock_time, insert_spec, new_record, select_spec, RecordView, Records};
use crate::utils::{generate_hex_id, is_hex_id, str_eq};
use vstd::prelude::*;
use vstd::string::{StrSliceExecFns, StringExecFns};

verus! {

/// The number of characters of a link's identifier.
pub const URL_ID_LENGTH: u32 = 64;

pub const HTTP_200: u16 = 200;

pub const HTTP_400: u16 = 400;

pub const HTTP_404: u16 = 404;

pub const HTTP_500: u16 = 500;

pub const HTTP_501: u16 = 501;

/// The path of the call that creates a link.
pub const ADD_PATH: &'static str = "/add";

/// What the path of every call that reads a link begins with.
pub const GET_PREFIX: &'static str = "/get/";

/// The method of a request, as far as the server tells methods apart.
#[derive(Clone, Copy, Debug, PartialEq, Eq, Structural)]
pub enum Method {
    Get,
    Post,
    Other,
}

/// The call that a request is.
#[derive(Clone, Copy, Debug, PartialEq, Eq, Structural)]
pub enum Route {
    /// Create a link.
    Add,
    /// Read a link.
    Get,
    /// None that the server has.
    NotImplemented,
}

/// The call that a request with the method `method` for the path `url` is.
pub open spec fn route_of(method: Method, url: Seq<char>) -> Route {
    if method == Method::Post && url == ADD_PATH@ {
        Route::Add
    } else if method == Method::Get && GET_PREFIX@.is_prefix_of(url) {
        Route::Get
    } else {
        Route::NotImplemented
    }
}

/// Whether `s` begins with `prefix`.
pub fn starts_with(s: &str, prefix: &str) -> (r: bool)
    ensures
        r == prefix@.is_prefix_of(s@),
{
    let n = prefix.unicode_len();
    if s.unicode_len() < n {
        return false;
    }
    let mut i: usize = 0;
    while i < n
        invariant
            i <= n,
            n == prefix@.len(),
            n <= s@.len(),
            forall|j: int| 0 <= j < i ==> s@[j] == prefix@[j],
        decreases n - i,
    {
        if s.get_char(i) != prefix.get_char(i) {
            return false;
        }
        i = i + 1;
    }
    assert(s@.subrange(0, n as int) =~= prefix@);
    true
}

/// The call that a request with the method `method` for the path `url` is.
pub fn route(method: Method, url: &str) -> (r: Route)
    ensures
        r == route_of(method, url@),
{
    match method {
        Method::Post => {
            if str_eq(url, ADD_PATH) {
                Route::Add
            } else {
                Route::NotImplemented
            }
        },
        Method::Get => {
            if starts_with(url, GET_PREFIX) {
                Route::Get
            } else {
                Route::NotImplemented
            }
        },
        Method::Other => Route::NotImplemented,
    }
}

/// The place of the first slash of `s` at or after `from`, or the length of
/// `s` where there is none.
pub open spec fn slash_from(s: Seq<char>, from: int) -> int
    decreases s.len() - from,
{
    if from < 0 || from >= s.len() {
        s.len() as int
    } else if s[from] == '/' {
        from
    } else {
        slash_from(s, from + 1)
    }
}

/// The third of the parts that the slashes of `url` cut it into, if it has as
/// many: in `/get/abc` that is `abc`.
pub open spec fn third_part(url: Seq<char>) -> Option<Seq<char>> {
    let first = slash_from(url, 0);
    let second = slash_from(url, first + 1);
    if first < url.len() && second < url.len() {
        Some(url.subrange(second + 1, slash_from(url, second + 1)))
    } else {
        None
    }
}

/// Every path of a call that reads a link has a third part: what follows
/// `/get/`, up to the next slash.
pub proof fn law_get_path_names_a_link(url: Seq<char>)
    requires
        GET_PREFIX@.is_prefix_of(url),
    ensures
        third_part(url) is Some,
        third_part(url) == Some(url.subrange(5, slash_from(url, 5))),
{
    reveal_strlit("/get/");
    reveal_with_fuel(slash_from, 5);
    let prefix = url.subrange(0, 5);
    assert(prefix == GET_PREFIX@);
    assert(url[0] == prefix[0] && url[1] == prefix[1] && url[2] == prefix[2] && url[3] == prefix[3]
        && url[4] == prefix[4]);
    assert(slash_from(url, 0) == 0);
    assert(slash_from(url, 1) == 4);
}

proof fn lemma_slash_from_bounds(s: Seq<char>, from: int)
    requires
        0 <= from <= s.len(),
    ensures
        from <= slash_from(s, from) <= s.len(),
    decreases s.len() - from,
{
    if from < s.len() && s[from] != '/' {
        lemma_slash_from_bounds(s, from + 1);
    }
}

/// The place of the first slash of `s` at or after `from`, or the length of
/// `s` in characters where there is none.
fn find_slash(s: &str, from: usize) -> (r: usize)
    requires
        from <= s@.len(),
    ensures
        r == slash_from(s@, from as int),
        from <= r <= s@.len(),
{
    let n = s.unicode_len();
    let mut i: usize = from;
    proof {
        lemma_slash_from_bounds(s@, from as int);
    }
    while i < n
        invariant
            from <= i <= n,
            n == s@.len(),
            slash_from(s@, from as int) == slash_from(s@, i as int),
        decreases n - i,
    {
        if s.get_char(i) == '/' {
            return i;
        }
        i = i + 1;
    }
    i
}

/// The identifier of the link that the path `url` asks for: the third of the
/// parts that its slashes cut it into, or `None` where it has fewer.
pub fn link_id(url: &str) -> (r: Option<String>)
    ensures
        match r {
            Some(id) => third_part(url@) == Some(id@),
            None => third_part(url@) is None,
        },
{
    let n = url.unicode_len();
    let first = find_slash(url, 0);
    if first >= n {
        return None;
    }
    let second = find_slash(url, first + 1);
    if second >= n {
        return None;
    }
    let end = find_slash(url, second + 1);
    Some(String::from_str(url.substring_char(second + 1, end)))
}

pub const PARSE_FAILED_STATUS: &'static str = "Failed to parse input request";

pub const NOT_FOUND_STATUS: &'static str = "Link was not found or has been deleted";

pub const NOT_IMPLEMENTED_STATUS: &'static str = "Method is not implemented";

pub const SERVER_ERROR: &'static str = "Server error";

/// When a link that was made at `created` and lives for `lifetime` seconds
/// ends: their sum, or the last time that can be told where the sum lies
/// beyond it.
pub open spec fn expiry_of(created: int, lifetime: int) -> int {
    if created + lifetime > i64::MAX {
        i64::MAX as int
    } else {
        created + lifetime
    }
}

/// When a link that was made at `created` and lives for `lifetime` seconds
/// ends.
pub fn expiry_time(created: i64, lifetime: u64) -> (r: i64)
    ensures
        r == expiry_of(created as int, lifetime as int),
{
    let sum: i128 = created as i128 + lifetime as i128;
    if sum > i64::MAX as i128 {
        i64::MAX
    } else {
        sum as i64
    }
}

/// The address of the link `id` on the server that is reached under
/// `address`.
pub open spec fn url_of(address: Seq<char>, id: Seq<char>) -> Seq<char> {
    address + "/get/"@ + id
}

/// The address of the link `id` on the server that is reached under
/// `address`.
pub fn link_url(address: &str, id: &str) -> (url: String)
    ensures
        url@ == url_of(address@, id@),
{
    let mut url = String::from_str(address);
    url.append("/get/");
    url.append(id);
    url
}

/// Whether a store that held `before` has tried to make a link of the record
/// `rec` under the identifier `id`: `id` is one that links get; and on a
/// reliable engine, the store holds `after` as an insertion of `rec` leaves
/// it, which went well, as `made` says, where `id` was free.
pub open spec fn made_link(
    before: Records,
    reliable: bool,
    id: Seq<char>,
    rec: RecordView,
    made: bool,
    after: Records,
) -> bool {
    &&& id.len() == URL_ID_LENGTH
    &&& is_hex_id(id)
    &&& reliable ==> after == after_insert(before, id, rec)
    &&& reliable ==> (made <==> !before.contains_key(id))
}

/// Stores the payload of `msg` under a new random identifier and gives the
/// address of the link. Where the store refuses, whatever its reason, the
/// error is `SERVER_ERROR`.
pub fn create_url_for_msg<E: DbEngine>(
    msg: &ApiAddRequest,
    db: &mut DB<E>,
    address: &String,
) -> (r: Result<String, &'static str>)
    ensures
        final(db).kind() == old(db).kind(),
        r matches Err(e) ==> e == SERVER_ERROR,
        old(db).reliable() ==> final(db).reliable(),
        exists|id: Seq<char>, created: int|
            {
                &&& clock_time(created)
                &&& made_link(
                    old(db)@,
                    old(db).reliable(),
                    id,
                    #[trigger] new_record(id, msg@, created),
                    r is Ok,
                    final(db)@,
                )
                &&& r matches Ok(url) ==> url@ == url_of(address@, id)
            },
{
    let id = generate_hex_id(URL_ID_LENGTH);
    let inserted = db.insert(&id, msg);
    let r = match inserted {
        Ok(_) => Ok(link_url(address.as_str(), id.as_str())),
        Err(_) => Err(SERVER_ERROR),
    };
    proof {
        let created = if old(db).reliable() {
            choose|created: int|
                clock_time(created) && #[trigger] insert_spec(
                    old(db)@,
                    id@,
                    new_record(id@, msg@, created),
                    inserted,
                    db@,
                )
        } else {
            0
        };
        assert(made_link(
            old(db)@,
            old(db).reliable(),
            id@,
            new_record(id@, msg@, created),
            r is Ok,
            db@,
        ));
    }
    r
}

/// Answers a request to create a link that could not be read: puts the
/// failure into the response and gives the status code.
pub fn refuse_add(resp: &mut ApiResponse) -> (code: u16)
    ensures
        code == HTTP_400,
        final(resp)@ == (ApiResponseView { status: PARSE_FAILED_STATUS@, ..old(resp)@ }),
{
    resp.set_status(String::from_str(PARSE_FAILED_STATUS));
    HTTP_400
}

/// Answers a request to create a link, once the store was asked: puts the
/// time of expiry and the link's address, or the failure, into the response
/// and gives the status code.
pub fn answer_add(
    resp: &mut ApiResponse,
    msg: &ApiAddRequest,
    created: Result<String, &'static str>,
) -> (code: u16)
    ensures
        match created {
            Ok(url) => code == HTTP_200 && final(resp)@ == (ApiResponseView {
                msg: url@,
                expired: expiry_of(old(resp)@.created, msg@.lifetime_seconds() as int),
                ..old(resp)@
            }),
            Err(e) => code == HTTP_500 && final(resp)@ == (ApiResponseView {
                status: e@,
                expired: expiry_of(old(resp)@.created, msg@.lifetime_seconds() as int),
                ..old(resp)@
            }),
        },
{
    resp.set_expired(expiry_time(resp.created(), msg.get_lifetime()));
    match created {
        Ok(url) => {
            resp.set_message(url);
            HTTP_200
        },
        Err(e) => {
            resp.set_status(String::from_str(e));
            HTTP_500
        },
    }
}

/// The response to a request `msg` to create a link, made of the response
/// `resp` so far: it tells when the link ends and, where the link `id` was
/// made (the status code is 200), its address; else the failure.
pub open spec fn added(
    resp: ApiResponseView,
    msg: AddRequestView,
    address: Seq<char>,
    id: Seq<char>,
    code: u16,
) -> ApiResponseView {
    let expired = expiry_of(resp.created, msg.lifetime_seconds() as int);
    if code == HTTP_200 {
        ApiResponseView { msg: url_of(address, id), expired, ..resp }
    } else {
        ApiResponseView { status: SERVER_ERROR@, expired, ..resp }
    }
}

/// Serves a request to create a link. `parsed` is the request as it was read,
/// or the failure to read it.
pub fn handle_method_add<E: DbEngine>(
    parsed: Result<ApiAddRequest, &'static str>,
    db: &mut DB<E>,
    address: &String,
    resp: &mut ApiResponse,
) -> (code: u16)
    ensures
        final(db).kind() == old(db).kind(),
        parsed is Err ==> code == HTTP_400 && final(resp)@ == (ApiResponseView {
            status: PARSE_FAILED_STATUS@,
            ..old(resp)@
        }) && final(db)@ == old(db)@ && final(db).reliable() == old(db).reliable(),
        parsed is Ok ==> (old(db).reliable() ==> final(db).reliable()),
        parsed matches Ok(msg) ==> exists|id: Seq<char>, created: int|
            {
                &&& clock_time(created)
                &&& made_link(
                    old(db)@,
                    old(db).reliable(),
                    id,
                    #[trigger] new_record(id, msg@, created),
                    code == HTTP_200,
                    final(db)@,
                )
                &&& final(resp)@ == added(old(resp)@, msg@, address@, id, code)
            },
        parsed is Ok ==> code == HTTP_200 || code == HTTP_500,
{
    match parsed {
        Ok(msg) => {
            let created = create_url_for_msg(&msg, db, address);
            answer_add(resp, &msg, created)
        },
        Err(_) => refuse_add(resp),
    }
}

/// Answers a request to read a link, once the store was asked: puts the
/// payload, or the failure, into the response, takes the times out of it and
/// gives the status code. Whatever the failure was, the reader is told the
/// same.
pub fn answer_get(resp: &mut ApiResponse, selected: Result<String, &'static str>) -> (code: u16)
    ensures
        match selected {
            Ok(message) => code == HTTP_200 && final(resp)@ == (ApiResponseView {
                msg: message@,
                created: 0,
                expired: 0,
                ..old(resp)@
            }),
            Err(_) => code == HTTP_404 && final(resp)@ == (ApiResponseView {
                status: NOT_FOUND_STATUS@,
                created: 0,
                expired: 0,
                ..old(resp)@
            }),
        },
{
    let code = match selected {
        Ok(message) => {
            resp.set_message(message);
            HTTP_200
        },
        Err(_) => {
            resp.set_status(String::from_str(NOT_FOUND_STATUS));
            HTTP_404
        },
    };
    resp.hide_sensitive();
    code
}

/// Serves a request to read the link that the path `url` asks for. The path
/// must have the three parts of such a request.
pub fn handle_method_get<E: DbEngine>(
    url: &str,
    db: &mut DB<E>,
    resp: &mut ApiResponse,
) -> (code: u16)
    requires
        third_part(url@) is Some,
    ensures
        final(db).kind() == old(db).kind(),
        code == HTTP_200 || code == HTTP_404,
        final(resp)@.created == 0 && final(resp)@.expired == 0,
        code == HTTP_200 ==> final(resp)@.status == old(resp)@.status,
        code == HTTP_404 ==> final(resp)@.status == NOT_FOUND_STATUS@,
        code == HTTP_404 ==> final(resp)@.msg == old(resp)@.msg,
        old(db).reliable() ==> final(db).reliable() && exists|
            now: int,
            r: Result<String, &'static str>,
        |
            {
                &&& clock_time(now)
                &&& #[trigger] select_spec(old(db)@, third_part(url@)->0, now, r, final(db)@)
                &&& r is Ok <==> code == HTTP_200
                &&& r matches Ok(data) ==> final(resp)@.msg == data@
            },
{
    let id = link_id(url).unwrap();
    let selected = db.select(&id);
    proof {
        if old(db).reliable() {
            let now = choose|now: int|
                clock_time(now) && #[trigger] select_spec(old(db)@, id@, now, selected, db@);
            assert(select_spec(old(db)@, third_part(url@)->0, now, selected, db@));
        }
    }
    answer_get(resp, selected)
}

/// Answers a request that is no call of the server's: puts the failure into
/// the response and gives the status code.
pub fn not_implemented(resp: &mut ApiResponse) -> (code: u16)
    ensures
        code == HTTP_501,
        final(resp)@ == (ApiResponseView { status: NOT_IMPLEMENTED_STATUS@, ..old(resp)@ }),
{
    resp.set_status(String::from_str(NOT_IMPLEMENTED_STATUS));
    HTTP_501
}

} // verus!
