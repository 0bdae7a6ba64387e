//! The envelopes that feeds travel in, and what the marketplace answers.

use vstd::prelude::*;
use crate::text::str_eq;
use crate::types::MaybeList;

verus! {

/// The XML schema instance namespace that every request envelope names.
pub const XMLNS_XSI: &'static str = "http://www.w3.org/2001/XMLSchema-instance";

/// The mapping that a list of header entries stands for: each key with the
/// value of its last entry.
pub open spec fn entries_map(entries: Seq<(Seq<char>, Seq<char>)>) -> Map<Seq<char>, Seq<char>>
    decreases entries.len(),
{
    if entries.len() == 0 {
        Map::empty()
    } else {
        entries_map(entries.drop_last()).insert(entries.last().0, entries.last().1)
    }
}

/// Whether no key occurs in two entries.
pub open spec fn distinct_keys(entries: Seq<(Seq<char>, Seq<char>)>) -> bool {
    forall|i: int, j: int| 0 <= i < j < entries.len() ==> entries[i].0 != entries[j].0
}

proof fn lemma_entries_map_push(entries: Seq<(Seq<char>, Seq<char>)>, entry: (Seq<char>, Seq<char>))
    ensures
        entries_map(entries.push(entry)) == entries_map(entries).insert(entry.0, entry.1),
{
    assert(entries.push(entry).drop_last() =~= entries);
}

proof fn lemma_entries_map_update(
    entries: Seq<(Seq<char>, Seq<char>)>,
    at: int,
    value: Seq<char>,
)
    requires
        0 <= at < entries.len(),
        distinct_keys(entries),
    ensures
        entries_map(entries.update(at, (entries[at].0, value))) == entries_map(entries).insert(
            entries[at].0,
            value,
        ),
    decreases entries.len(),
{
    let key = entries[at].0;
    let updated = entries.update(at, (key, value));
    if at == entries.len() - 1 {
        assert(updated.drop_last() =~= entries.drop_last());
        assert(entries_map(updated) =~= entries_map(entries).insert(key, value));
    } else {
        let front = entries.drop_last();
        assert(distinct_keys(front));
        lemma_entries_map_update(front, at, value);
        assert(updated.drop_last() =~= front.update(at, (key, value)));
        assert(entries.last().0 != key);
        assert(entries_map(updated) =~= entries_map(entries).insert(key, value));
    }
}

fn position(entries: &Vec<(String, String)>, key: &str) -> (found: Option<usize>)
    ensures
        match found {
            Some(at) => at < entries.len() && entries.deep_view()[at as int].0 == key@,
            None => forall|i: int| 0 <= i < entries.len() ==> entries.deep_view()[i].0 != key@,
        },
{
    let mut i: usize = 0;
    while i < entries.len()
        invariant
            i <= entries.len(),
            forall|k: int| 0 <= k < i ==> entries.deep_view()[k].0 != key@,
        decreases entries.len() - i,
    {
        if str_eq(entries[i].0.as_str(), key) {
            return Some(i);
        }
        i = i + 1;
    }
    None
}

/// Collects header entries into a list without repeated keys: an entry whose
/// key is already there replaces the value of that key.
fn collect_entries(entries: &[(&str, &str)]) -> (collected: Vec<(String, String)>)
    ensures
        distinct_keys(collected.deep_view()),
        entries_map(collected.deep_view()) == entries_map(entries.deep_view()),
{
    let mut collected: Vec<(String, String)> = Vec::new();
    let mut i: usize = 0;
    assert(entries.deep_view().take(0) =~= Seq::empty());
    assert(collected.deep_view() =~= Seq::empty());
    while i < entries.len()
        invariant
            i <= entries.len(),
            distinct_keys(collected.deep_view()),
            entries_map(collected.deep_view()) == entries_map(entries.deep_view().take(i as int)),
        decreases entries.len() - i,
    {
        let key: &str = entries[i].0;
        let value: &str = entries[i].1;
        let ghost before = collected.deep_view();
        let ghost given = entries.deep_view();
        proof {
            assert(given.take(i + 1) =~= given.take(i as int).push(given[i as int]));
            lemma_entries_map_push(given.take(i as int), given[i as int]);
            assert(given[i as int] == (key@, value@));
        }
        match position(&collected, key) {
            Some(at) => {
                collected.set(at, (key.to_owned(), value.to_owned()));
                proof {
                    assert(collected.deep_view() =~= before.update(at as int, (key@, value@)));
                    lemma_entries_map_update(before, at as int, value@);
                }
            },
            None => {
                collected.push((key.to_owned(), value.to_owned()));
                proof {
                    assert(collected.deep_view() =~= before.push((key@, value@)));
                    lemma_entries_map_push(before, (key@, value@));
                }
            },
        }
        i = i + 1;
    }
    assert(entries.deep_view().take(entries.len() as int) =~= entries.deep_view());
    collected
}

/// The envelope that a feed is submitted in.
#[derive(Debug)]
pub struct RequestEnvelope<T> {
    /// Always the XML schema instance namespace.
    pub xmlns_xsi: &'static str,
    /// The schema that the message follows.
    pub xsd_name: &'static str,
    /// The header entries of the envelope. No key occurs twice; the order of
    /// the entries means nothing.
    pub header: Vec<(String, String)>,
    pub message_type: String,
    pub message: T,
    /// `True` or `False`, as text, where the feed says whether it overwrites
    /// inventory and price data; `None` where it does not say.
    pub inventory_and_price_data_overwrite: Option<String>,
}

impl<T> RequestEnvelope<T> {
    /// The header of the envelope as a mapping from keys to values.
    pub open spec fn header_map(&self) -> Map<Seq<char>, Seq<char>> {
        entries_map(self.header.deep_view())
    }

    /// What holds of every envelope that this module makes: it names the XML
    /// schema instance namespace, and no header key occurs twice.
    pub open spec fn well_formed(&self) -> bool {
        &&& self.xmlns_xsi@ == XMLNS_XSI@
        &&& distinct_keys(self.header.deep_view())
    }

    /// The overwrite flag as it is written: the words `True` and `False`
    /// with a capital letter, not a JSON boolean.
    pub open spec fn overwrite_text(v: bool) -> Seq<char> {
        if v {
            "True"@
        } else {
            "False"@
        }
    }

    /// An envelope around `message`.
    ///
    /// Of two header entries with the same key the later one counts. The
    /// envelope says nothing about overwriting.
    pub fn new(
        xsd_name: &'static str,
        headers: &[(&str, &str)],
        message_type: &str,
        message: T,
    ) -> (envelope: RequestEnvelope<T>)
        ensures
            envelope.well_formed(),
            envelope.xsd_name@ == xsd_name@,
            envelope.header_map() == entries_map(headers.deep_view()),
            envelope.message_type@ == message_type@,
            envelope.message == message,
            envelope.inventory_and_price_data_overwrite is None,
    {
        RequestEnvelope {
            xmlns_xsi: XMLNS_XSI,
            xsd_name,
            header: collect_entries(headers),
            message_type: message_type.to_owned(),
            message,
            inventory_and_price_data_overwrite: None,
        }
    }

    /// The same envelope with the overwrite flag set to `v`.
    pub fn inventory_and_price_data_overwrite(self, v: bool) -> (envelope: RequestEnvelope<T>)
        ensures
            envelope.xmlns_xsi == self.xmlns_xsi,
            envelope.xsd_name == self.xsd_name,
            envelope.header == self.header,
            envelope.message_type == self.message_type,
            envelope.message == self.message,
            envelope.inventory_and_price_data_overwrite.deep_view() == Some(
                Self::overwrite_text(v),
            ),
            self.well_formed() ==> envelope.well_formed(),
    {
        let RequestEnvelope { xmlns_xsi, xsd_name, header, message_type, message, inventory_and_price_data_overwrite: _ } = self;
        let flag = if v {
            "True".to_owned()
        } else {
            "False".to_owned()
        };
        RequestEnvelope {
            xmlns_xsi,
            xsd_name,
            header,
            message_type,
            message,
            inventory_and_price_data_overwrite: Some(flag),
        }
    }
}

/// The envelope that the result of a feed comes in.
#[derive(Debug)]
pub struct ResponseEnvelope<T> {
    pub inner: ResponseEnvelopeInner<T>,
}

#[derive(Debug)]
pub struct ResponseEnvelopeInner<T> {
    /// The header entries of the envelope. No key occurs twice; the order of
    /// the entries means nothing.
    pub header: Vec<(String, String)>,
    pub message_type: String,
    pub message: T,
}

impl<T> ResponseEnvelope<T> {
    /// What holds of every envelope that this module makes: no header key
    /// occurs twice.
    pub open spec fn well_formed(&self) -> bool {
        self.inner.well_formed()
    }
}

impl<T> ResponseEnvelopeInner<T> {
    /// The header of the envelope as a mapping from keys to values.
    pub open spec fn header_map(&self) -> Map<Seq<char>, Seq<char>> {
        entries_map(self.header.deep_view())
    }

    /// What holds of every envelope that this module makes: no header key
    /// occurs twice.
    pub open spec fn well_formed(&self) -> bool {
        distinct_keys(self.header.deep_view())
    }

    /// The inside of an envelope around `message`. Of two header entries
    /// with the same key the later one counts.
    pub fn new(headers: &[(&str, &str)], message_type: &str, message: T) -> (inner:
        ResponseEnvelopeInner<T>)
        ensures
            inner.well_formed(),
            inner.header_map() == entries_map(headers.deep_view()),
            inner.message_type@ == message_type@,
            inner.message == message,
    {
        ResponseEnvelopeInner {
            header: collect_entries(headers),
            message_type: message_type.to_owned(),
            message,
        }
    }
}

/// What the marketplace answers when a feed is submitted or its status is
/// asked for.
#[derive(Debug)]
pub struct FeedResponse {
    pub is_success: bool,
    pub operation_type: String,
    pub response_body: FeedResponseBody,
    pub seller_id: String,
}

#[derive(Debug)]
pub struct FeedResponseBody {
    pub response_list: Vec<FeedResponseList>,
}

/// One submitted feed: the id under which it is followed, and how far it has
/// come.
#[derive(Debug)]
pub struct FeedResponseList {
    /// When the feed was submitted, in Pacific time.
    pub request_date: String,
    pub request_id: String,
    /// The status as the marketplace writes it.
    pub request_status: String,
    pub request_type: String,
}

impl FeedResponseList {
    /// The status of the feed, if the marketplace wrote one of the four
    /// statuses that there are.
    pub fn status(&self) -> (status: Option<RequestStatus>)
        ensures
            status == RequestStatus::named(self.request_status@),
    {
        RequestStatus::from_str(self.request_status.as_str())
    }
}

/// How far a submitted feed or report has come. The marketplace moves a
/// request from `Submitted` over `InProgress` to `Finished` or `Cancelled`;
/// the client only ever reads the status.
#[derive(Debug, Clone, Copy, PartialEq, Eq, Structural)]
pub enum RequestStatus {
    Submitted,
    InProgress,
    Finished,
    Cancelled,
}

impl RequestStatus {
    /// The status as the marketplace writes it.
    pub open spec fn spec_as_str(&self) -> Seq<char> {
        match self {
            RequestStatus::Submitted => "SUBMITTED"@,
            RequestStatus::InProgress => "IN_PROGRESS"@,
            RequestStatus::Finished => "FINISHED"@,
            RequestStatus::Cancelled => "CANCELLED"@,
        }
    }

    /// The status that a text names: one of the four, or none.
    pub open spec fn named(text: Seq<char>) -> Option<RequestStatus> {
        if text == "SUBMITTED"@ {
            Some(RequestStatus::Submitted)
        } else if text == "IN_PROGRESS"@ {
            Some(RequestStatus::InProgress)
        } else if text == "FINISHED"@ {
            Some(RequestStatus::Finished)
        } else if text == "CANCELLED"@ {
            Some(RequestStatus::Cancelled)
        } else {
            None
        }
    }

    /// Whether the marketplace is done with the request: nothing follows
    /// `Finished` or `Cancelled`.
    pub open spec fn spec_is_terminal(&self) -> bool {
        *self == RequestStatus::Finished || *self == RequestStatus::Cancelled
    }

    /// How far along the status is: 0 for `Submitted`, 1 for `InProgress`, 2
    /// for the two final statuses.
    pub open spec fn stage(&self) -> nat {
        match self {
            RequestStatus::Submitted => 0,
            RequestStatus::InProgress => 1,
            RequestStatus::Finished => 2,
            RequestStatus::Cancelled => 2,
        }
    }

    /// Whether a request seen with this status can be seen with `later` at a
    /// later poll: it never goes back, and a final status stays what it is.
    pub open spec fn spec_may_become(&self, later: RequestStatus) -> bool {
        if self.spec_is_terminal() {
            later == *self
        } else {
            self.stage() <= later.stage()
        }
    }

    /// The status as the marketplace writes it.
    pub fn as_str(&self) -> (text: &'static str)
        ensures
            text@ == self.spec_as_str(),
    {
        match self {
            RequestStatus::Submitted => "SUBMITTED",
            RequestStatus::InProgress => "IN_PROGRESS",
            RequestStatus::Finished => "FINISHED",
            RequestStatus::Cancelled => "CANCELLED",
        }
    }

    /// The status that `text` names, if it names one.
    pub fn from_str(text: &str) -> (status: Option<RequestStatus>)
        ensures
            status == RequestStatus::named(text@),
    {
        if str_eq(text, "SUBMITTED") {
            Some(RequestStatus::Submitted)
        } else if str_eq(text, "IN_PROGRESS") {
            Some(RequestStatus::InProgress)
        } else if str_eq(text, "FINISHED") {
            Some(RequestStatus::Finished)
        } else if str_eq(text, "CANCELLED") {
            Some(RequestStatus::Cancelled)
        } else {
            None
        }
    }

    /// Whether the marketplace is done with the request.
    pub fn is_terminal(&self) -> (done: bool)
        ensures
            done == self.spec_is_terminal(),
    {
        match self {
            RequestStatus::Finished => true,
            RequestStatus::Cancelled => true,
            _ => false,
        }
    }

    /// Whether a request seen with this status can be seen with `later` at a
    /// later poll.
    pub fn may_become(&self, later: RequestStatus) -> (possible: bool)
        ensures
            possible == self.spec_may_become(later),
    {
        match self {
            RequestStatus::Submitted => true,
            RequestStatus::InProgress => match later {
                RequestStatus::Submitted => false,
                _ => true,
            },
            RequestStatus::Finished => match later {
                RequestStatus::Finished => true,
                _ => false,
            },
            RequestStatus::Cancelled => match later {
                RequestStatus::Cancelled => true,
                _ => false,
            },
        }
    }
}

/// Every status is written in its own way, and reading what was written
/// gives the status back.
pub proof fn lemma_status_names_round_trip(status: RequestStatus)
    ensures
        RequestStatus::named(status.spec_as_str()) == Some(status),
{
    reveal_strlit("SUBMITTED");
    reveal_strlit("IN_PROGRESS");
    reveal_strlit("FINISHED");
    reveal_strlit("CANCELLED");
    assert("SUBMITTED"@.len() == 9);
    assert("IN_PROGRESS"@.len() == 11);
    assert("FINISHED"@.len() == 8);
    assert("CANCELLED"@[0] == 'C');
    assert("SUBMITTED"@[0] == 'S');
}

/// What can be seen of one request over successive polls is an order: a
/// status may stay, what may follow what may follow in turn, and once the
/// request is finished or cancelled nothing else is ever seen.
pub proof fn lemma_status_order(first: RequestStatus, second: RequestStatus, third: RequestStatus)
    ensures
        first.spec_may_become(first),
        first.spec_may_become(second) && second.spec_may_become(third) ==> first.spec_may_become(
            third,
        ),
        first.spec_is_terminal() && first.spec_may_become(second) ==> second == first,
        RequestStatus::Submitted.spec_may_become(second),
{
}

/// Selects the feeds whose status is asked for.
#[derive(Debug, Clone)]
pub struct GetRequestStatus {
    pub request_id_list: RequestIdList,
    /// The largest number of feeds to report, written in decimal.
    pub max_count: Option<String>,
    pub request_status: Option<RequestStatus>,
}

impl Default for GetRequestStatus {
    fn default() -> (query: GetRequestStatus)
        ensures
            query.request_id_list.request_id@.len() == 0,
            query.max_count is None,
            query.request_status is None,
    {
        GetRequestStatus {
            request_id_list: RequestIdList::default(),
            max_count: None,
            request_status: None,
        }
    }
}

#[derive(Debug, Clone)]
pub struct RequestIdList {
    pub request_id: Vec<String>,
}

impl Default for RequestIdList {
    fn default() -> (list: RequestIdList)
        ensures
            list.request_id@.len() == 0,
    {
        RequestIdList { request_id: Vec::new() }
    }
}

/// The result of a processed feed.
#[derive(Debug)]
pub struct ProcessingReportMessage {
    pub processing_report: ProcessingReport,
}

#[derive(Debug)]
pub struct ProcessingReport {
    pub original_message_name: String,
    pub status_code: String,
    pub processing_summary: ProcessingSummary,
    pub result: MaybeList<ProcessingResult>,
}

/// How many lines of a feed were processed, and with what success. Each
/// count is written in decimal.
#[derive(Debug)]
pub struct ProcessingSummary {
    pub processed_count: String,
    pub success_count: String,
    pub with_error_count: String,
}

#[derive(Debug)]
pub struct ProcessingResult {
    pub additional_info: AdditionalInfo,
    pub error_list: ErrorList,
}

#[derive(Debug)]
pub struct AdditionalInfo {
    pub sub_category_id: Option<String>,
    pub seller_part_number: String,
    pub manufacturer_part_number_or_isbn: Option<String>,
    pub upc: Option<String>,
}

#[derive(Debug)]
pub struct ErrorList {
    pub error_description: MaybeList<String>,
}

} // verus!
