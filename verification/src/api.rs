//! The request that creates a link and the response that every call answers
//! with.

use crate::utils::{now, one, week_seconds};
use vstd::prelude::*;

verus! {

/// What a request to create a link holds: the payload and the two budgets
/// that it asks for. A budget of 0 stands for "no wish".
pub struct AddRequestView {
    pub data: Seq<char>,
    pub max_clicks: nat,
    pub lifetime: nat,
}

impl AddRequestView {
    /// The number of reads that the link gets: the hint, or 1 where the hint
    /// is 0.
    pub open spec fn reads(self) -> nat {
        if self.max_clicks == 0 {
            1
        } else {
            self.max_clicks
        }
    }

    /// The lifetime that the link gets, in seconds: the hint, or a week where
    /// the hint is 0.
    pub open spec fn lifetime_seconds(self) -> nat {
        if self.lifetime == 0 {
            604_800
        } else {
            self.lifetime
        }
    }
}

/// The number of reads that the hint `hint` asks for: the hint itself, but 1
/// where it is absent, 0 or negative, and the most that a record can count
/// where it is beyond that.
pub open spec fn hinted_reads(hint: Option<i64>) -> nat {
    match hint {
        Some(n) => if n <= 0 {
            1
        } else if n > u32::MAX {
            u32::MAX as nat
        } else {
            n as nat
        },
        None => 1,
    }
}

/// The lifetime in seconds that the hint `hint` asks for: the hint itself,
/// but a week where it is absent, 0 or negative.
pub open spec fn hinted_lifetime(hint: Option<i64>) -> nat {
    match hint {
        Some(n) => if n <= 0 {
            604_800
        } else {
            n as nat
        },
        None => 604_800,
    }
}

/// A request to create a link.
pub struct ApiAddRequest {
    data: String,
    max_clicks: u32,
    lifetime: u64,
}

impl View for ApiAddRequest {
    type V = AddRequestView;

    closed spec fn view(&self) -> AddRequestView {
        AddRequestView {
            data: self.data@,
            max_clicks: self.max_clicks as nat,
            lifetime: self.lifetime as nat,
        }
    }
}

impl ApiAddRequest {
    /// A request for `data` with the given hints. A hint that is absent, 0 or
    /// negative is taken as the default: one read, a lifetime of a week. More
    /// reads than a record can count are taken as the most that it can.
    pub fn new(data: String, max_clicks: Option<i64>, lifetime: Option<i64>) -> (r: Self)
        ensures
            r@.data == data@,
            r@.max_clicks == hinted_reads(max_clicks),
            r@.lifetime == hinted_lifetime(lifetime),
            r@.reads() == hinted_reads(max_clicks),
            r@.lifetime_seconds() == hinted_lifetime(lifetime),
    {
        let max_clicks: u32 = match max_clicks {
            Some(n) => {
                if n <= 0 {
                    one() as u32
                } else if n > u32::MAX as i64 {
                    u32::MAX
                } else {
                    n as u32
                }
            },
            None => one() as u32,
        };
        let lifetime: u64 = match lifetime {
            Some(n) => {
                if n <= 0 {
                    week_seconds() as u64
                } else {
                    n as u64
                }
            },
            None => week_seconds() as u64,
        };
        ApiAddRequest { data, max_clicks, lifetime }
    }

    /// The payload.
    pub fn get_data(&self) -> (r: &String)
        ensures
            r@ == self@.data,
    {
        &self.data
    }

    /// The number of reads that the link gets, at least 1.
    pub fn get_max_clicks(&self) -> (r: u32)
        ensures
            r == self@.reads(),
            r >= 1,
    {
        if self.max_clicks == 0 {
            one() as u32
        } else {
            self.max_clicks
        }
    }

    /// The lifetime that the link gets in seconds, at least 1.
    pub fn get_lifetime(&self) -> (r: u64)
        ensures
            r == self@.lifetime_seconds(),
            r >= 1,
    {
        if self.lifetime == 0 {
            week_seconds() as u64
        } else {
            self.lifetime
        }
    }
}

/// What a response holds.
pub struct ApiResponseView {
    pub msg: Seq<char>,
    pub status: Seq<char>,
    pub created: int,
    pub expired: int,
}

/// The response to a call. The times `created` and `expired` are seconds since
/// the Unix epoch; 0 stands for "not told".
pub struct ApiResponse {
    msg: String,
    status: String,
    created: i64,
    expired: i64,
}

impl View for ApiResponse {
    type V = ApiResponseView;

    closed spec fn view(&self) -> ApiResponseView {
        ApiResponseView {
            msg: self.msg@,
            status: self.status@,
            created: self.created as int,
            expired: self.expired as int,
        }
    }
}

impl ApiResponse {
    /// A response with the status `OK`, no message, created at `created` and
    /// without a time of expiry.
    pub fn created_at(created: i64) -> (r: Self)
        ensures
            r@ == (ApiResponseView {
                msg: Seq::empty(),
                status: "OK"@,
                created: created as int,
                expired: 0,
            }),
    {
        ApiResponse { msg: String::new(), status: "OK".to_owned(), created, expired: 0 }
    }

    /// A response with the status `OK`, no message, created now and without a
    /// time of expiry.
    pub fn new() -> (r: Self)
        ensures
            r@.msg == Seq::<char>::empty(),
            r@.status == "OK"@,
            0 <= r@.created <= i64::MAX,
            r@.expired == 0,
    {
        Self::created_at(now())
    }

    pub fn set_message(&mut self, msg: String)
        ensures
            final(self)@ == (ApiResponseView { msg: msg@, ..old(self)@ }),
    {
        self.msg = msg;
    }

    pub fn set_status(&mut self, status: String)
        ensures
            final(self)@ == (ApiResponseView { status: status@, ..old(self)@ }),
    {
        self.status = status;
    }

    pub fn set_created(&mut self, created: i64)
        ensures
            final(self)@ == (ApiResponseView { created: created as int, ..old(self)@ }),
    {
        self.created = created;
    }

    pub fn set_expired(&mut self, expired: i64)
        ensures
            final(self)@ == (ApiResponseView { expired: expired as int, ..old(self)@ }),
    {
        self.expired = expired;
    }

    pub fn message(&self) -> (r: &String)
        ensures
            r@ == self@.msg,
    {
        &self.msg
    }

    pub fn status(&self) -> (r: &String)
        ensures
            r@ == self@.status,
    {
        &self.status
    }

    pub fn created(&self) -> (r: i64)
        ensures
            r == self@.created,
    {
        self.created
    }

    pub fn expired(&self) -> (r: i64)
        ensures
            r == self@.expired,
    {
        self.expired
    }

    /// Takes both times out of the response, so that a reader of a link does
    /// not learn when it was made or when it ends.
    pub fn hide_sensitive(&mut self)
        ensures
            final(self)@ == (ApiResponseView { created: 0, expired: 0, ..old(self)@ }),
    {
        self.set_created(0);
        self.set_expired(0);
    }
}

} // verus!
