use vstd::prelude::*;
use vstd::string::*;
use crate::client::{ApiCall, Client};
use crate::envelope::Rsp;
use crate::error::Error;
use crate::models::{OperationHistoryResponse, ReqOperationType, join_words, operation_type_list, operation_type_words};
use crate::params::Params;
use crate::text::{bool_text, bool_word, decimal, decimal_text};
use crate::transport;

verus! {

/// The RFC 3339 text of the UTC instant `secs` seconds and `nanos` nanoseconds
/// after the Unix epoch, when that instant can be represented.
pub uninterp spec fn rfc3339_of(secs: i64, nanos: u32) -> Option<Seq<char>>;

/// Relies on chrono's `DateTime::<Utc>::from_timestamp`, which returns `None` for an
/// instant out of range, and on `DateTime::to_rfc3339` for the text.
#[verifier::external_body]
fn rfc3339_text(secs: i64, nanos: u32) -> (r: Option<String>)
    ensures
        r.is_some() == rfc3339_of(secs, nanos).is_some(),
        r.is_some() ==> rfc3339_of(secs, nanos) == Some(r.unwrap()@),
{
    chrono::DateTime::<chrono::Utc>::from_timestamp(secs, nanos).map(|t| t.to_rfc3339())
}

/// An instant in UTC, with its RFC 3339 text.
#[derive(Debug, Clone)]
pub struct UtcTime {
    secs: i64,
    nanos: u32,
    text: String,
}

impl UtcTime {
    pub closed spec fn secs(&self) -> i64 {
        self.secs
    }

    pub closed spec fn nanos(&self) -> u32 {
        self.nanos
    }

    /// The RFC 3339 text of the instant.
    pub closed spec fn view(&self) -> Seq<char> {
        self.text@
    }

    pub closed spec fn wf(&self) -> bool {
        rfc3339_of(self.secs, self.nanos) == Some(self.text@)
    }

    /// The instant `secs` seconds and `nanos` nanoseconds after the Unix epoch,
    /// when it can be represented.
    pub fn from_timestamp(secs: i64, nanos: u32) -> (r: Option<UtcTime>)
        ensures
            r.is_some() == rfc3339_of(secs, nanos).is_some(),
            r.is_some() ==> ({
                let t = r.unwrap();
                t.wf() && t.secs() == secs && t.nanos() == nanos && rfc3339_of(secs, nanos) == Some(t@)
            }),
    {
        match rfc3339_text(secs, nanos) {
            Some(text) => Some(UtcTime { secs, nanos, text }),
            None => None,
        }
    }

    /// The RFC 3339 text of the instant.
    pub fn to_rfc3339(&self) -> (r: String)
        ensures
            r@ == self@,
    {
        self.text.clone()
    }
}

/// The filter parameters of a history query; the page start is added per page.
pub open spec fn history_filter(
    types: Seq<ReqOperationType>,
    label: Option<String>,
    from: Option<UtcTime>,
    till: Option<UtcTime>,
    details: bool,
) -> Map<Seq<char>, Seq<char>> {
    let m0 = Map::<Seq<char>, Seq<char>>::empty().insert("types"@, join_words(operation_type_words(types)));
    let m1 = match label { Some(l) => m0.insert("label"@, l@), None => m0 };
    let m2 = match from { Some(t) => m1.insert("from"@, t@), None => m1 };
    let m3 = match till { Some(t) => m2.insert("till"@, t@), None => m2 };
    m3.insert("details"@, bool_word(details))
}

/// A walk through the operation history, one page per request: it stops at an
/// empty page, at a page with no next start, or at the first failure.
pub struct OperationHistory {
    filter: Params,
    start_record: u64,
    finished: bool,
}

impl OperationHistory {
    /// The filter parameters sent with every page request.
    pub closed spec fn filter(&self) -> Map<Seq<char>, Seq<char>> {
        self.filter@
    }

    /// Where the next page starts.
    pub closed spec fn start_record(&self) -> u64 {
        self.start_record
    }

    /// No further page is to be requested.
    pub closed spec fn finished(&self) -> bool {
        self.finished
    }

    pub closed spec fn wf(&self) -> bool {
        self.filter.wf()
    }

    /// Whether the walk is over.
    pub fn is_finished(&self) -> (r: bool)
        ensures
            r == self.finished(),
    {
        self.finished
    }

    /// The request for the next page, or `None` once the walk is over.
    pub fn next_call(&self) -> (r: Option<ApiCall>)
        requires
            self.wf(),
        ensures
            self.finished() ==> r.is_none(),
            !self.finished() ==> r.is_some() && r.unwrap().is(
                "api/operation-history"@,
                self.filter().insert("start-record"@, decimal(self.start_record() as nat)),
            ),
    {
        if self.finished {
            return None;
        }
        let mut params = self.filter.clone_params();
        params.insert(String::from_str("start-record"), decimal_text(self.start_record));
        Some(ApiCall { endpoint: String::from_str("api/operation-history"), params })
    }

    /// Takes in the outcome of the request for the current page and gives the
    /// operations to hand out. A failure ends the walk and is handed on; an empty
    /// page ends it; otherwise the walk goes on at the page's next start, if it
    /// names one.
    pub fn on_page<T>(
        &mut self,
        page: Result<Rsp<OperationHistoryResponse<T>>, transport::Error>,
    ) -> (r: Result<Vec<T>, Error>)
        requires
            old(self).wf(),
            !old(self).finished(),
        ensures
            final(self).wf(),
            final(self).filter() == old(self).filter(),
            match page {
                Err(e) => final(self).finished() && r == Err::<Vec<T>, Error>(Error::TransportError { source: e }),
                Ok(Rsp::Error { error }) => final(self).finished() && (r matches Err(Error::YandexError {
                    description,
                }) && description@ == error@),
                Ok(Rsp::OK(p)) => r == Ok::<Vec<T>, Error>(p.operations) && if p.operations@.len() == 0 {
                    final(self).finished()
                } else {
                    match p.next_record {
                        Some(n) => !final(self).finished() && final(self).start_record() == n,
                        None => final(self).finished(),
                    }
                },
            },
    {
        match page {
            Err(e) => {
                self.finished = true;
                Err(Error::TransportError { source: e })
            },
            Ok(Rsp::Error { error }) => {
                self.finished = true;
                Err(Error::YandexError { description: error })
            },
            Ok(Rsp::OK(p)) => {
                if p.operations.len() == 0 {
                    self.finished = true;
                } else {
                    match p.next_record {
                        Some(n) => {
                            self.start_record = n;
                        },
                        None => {
                            self.finished = true;
                        },
                    }
                }
                Ok(p.operations)
            },
        }
    }
}

impl Client {
    /// A walk through the operation history from `start_record`, listing the
    /// operations of the given kinds, with the given label, between the given
    /// instants.
    pub fn operation_history(
        &self,
        operation_types: Vec<ReqOperationType>,
        label: Option<String>,
        from: Option<UtcTime>,
        till: Option<UtcTime>,
        start_record: u64,
        details: bool,
    ) -> (r: OperationHistory)
        ensures
            r.wf(),
            !r.finished(),
            r.start_record() == start_record,
            r.filter() == history_filter(operation_types@, label, from, till, details),
    {
        let mut params = Params::new();
        params.insert(String::from_str("types"), operation_type_list(&operation_types));
        match label {
            Some(l) => params.insert(String::from_str("label"), l),
            None => {},
        }
        match &from {
            Some(t) => params.insert(String::from_str("from"), t.to_rfc3339()),
            None => {},
        }
        match &till {
            Some(t) => params.insert(String::from_str("till"), t.to_rfc3339()),
            None => {},
        }
        params.insert(String::from_str("details"), bool_text(details));
        OperationHistory { filter: params, start_record, finished: false }
    }
}

} // verus!
