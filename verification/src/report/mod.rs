//! Reports: asking for one, following its progress, reading its result, and
//! finding the file that a finished report points to.

use vstd::prelude::*;
use crate::client::Method;
use crate::client::NeweggClient;
use crate::client::NeweggMarketplace;
use crate::client::PreparedRequest;
use crate::result::NeweggError;
use crate::result::NeweggResult;
use crate::text::concat_strs;
use crate::text::decimal;
use crate::text::join_strings;
use crate::text::join_with;
use crate::text::str_eq;
use crate::text::u64_to_string;

pub mod rows;
pub mod types;

pub use self::types::GetReportResultRequest;
pub use self::types::GetReportStatusRequest;
pub use self::types::GetRequestStatus;
pub use self::types::PageInfo;
pub use self::types::ReportRequest;
pub use self::types::ReportResponse;
pub use self::types::ReportResultReponse;
pub use self::types::RequestIDList;
pub use self::types::RequestStatus;
pub use self::types::ResponseBody;
pub use self::types::ResponseInfo;

verus! {

/// How many reports a status query reports, and how many rows a page of a
/// result holds, where the caller names no number.
pub const DEFAULT_COUNT: u64 = 100;

impl NeweggClient {
    /// The request that asks the marketplace to make a report. The
    /// marketplace answers with the id under which the report is followed
    /// from then on.
    pub fn submit_report_request<R>(&self, request: ReportRequest<R>) -> (prepared:
        PreparedRequest<ReportRequest<R>>)
        ensures
            self.sends(
                Method::Post,
                "/reportmgmt/report/submitrequest"@,
                Seq::empty(),
                request,
                prepared,
            ),
    {
        let prepared = self.request(Method::Post, "/reportmgmt/report/submitrequest").json(request);
        assert(self.spec_query() + Seq::empty() =~= self.spec_query());
        prepared
    }

    /// The request that asks how far the reports `request_ids` have come. At
    /// most `max_count` reports are reported, 100 where no number is given.
    /// It asks once; when to ask again is the caller's decision.
    pub fn get_report_status(&self, request_ids: &[&str], max_count: Option<u64>) -> (prepared:
        PreparedRequest<ReportRequest<GetReportStatusRequest>>)
        ensures
            prepared.body is Some,
            prepared.body->0.operation_type@ == "GetReportStatusRequest"@,
            prepared.body->0.request_body.ids() == request_ids.deep_view(),
            prepared.body->0.request_body.max_count() == decimal(
                match max_count {
                    Some(count) => count as nat,
                    None => 100,
                },
            ),
            self.sends(
                Method::Put,
                "/reportmgmt/report/status"@,
                Seq::empty(),
                prepared.body->0,
                prepared,
            ),
    {
        let count = match max_count {
            Some(count) => count,
            None => DEFAULT_COUNT,
        };
        let body = ReportRequest::new(
            "GetReportStatusRequest",
            GetReportStatusRequest::new(request_ids, count),
        );
        let prepared = self.request(Method::Put, "/reportmgmt/report/status").json(body);
        assert(self.spec_query() + Seq::empty() =~= self.spec_query());
        prepared
    }

    /// The request that reads page `page_index` of the result of the report
    /// `request_id`, in pages of `page_size` rows, 100 where no size is
    /// given. `operation_type` names the kind of report. To read a whole
    /// result, ask for page 1, 2, 3 and so on until a page comes back empty.
    pub fn get_report_result(
        &self,
        operation_type: &str,
        request_id: &str,
        page_index: u64,
        page_size: Option<u64>,
    ) -> (prepared: PreparedRequest<ReportRequest<GetReportResultRequest>>)
        ensures
            prepared.body is Some,
            prepared.body->0.operation_type@ == operation_type@,
            prepared.body->0.request_body.request_id@ == request_id@,
            prepared.body->0.request_body.page_info.page_index@ == decimal(page_index as nat),
            prepared.body->0.request_body.page_info.page_size@ == decimal(
                match page_size {
                    Some(size) => size as nat,
                    None => 100,
                },
            ),
            self.sends(
                Method::Put,
                "/reportmgmt/report/result"@,
                Seq::empty(),
                prepared.body->0,
                prepared,
            ),
    {
        let size = match page_size {
            Some(size) => size,
            None => DEFAULT_COUNT,
        };
        let body = ReportRequest::new(
            operation_type,
            GetReportResultRequest::new(request_id, page_index, size),
        );
        let prepared = self.request(Method::Put, "/reportmgmt/report/result").json(body);
        assert(self.spec_query() + Seq::empty() =~= self.spec_query());
        prepared
    }
}

/// What a daily report is asked to hold.
#[derive(Debug)]
pub enum ReportCriteria {
    DailyInventoryReportCriteria { fulfill_type: String, request_type: String, file_type: String },
    DailyPriceReportCriteria { request_type: String, file_type: String },
}

/// The operation and the request type of the report that goes by the name
/// `kind` on `marketplace`; `None` where there is no report of that name.
/// Inventory is reported across countries on the USA marketplace and per
/// day on the others; prices are always reported across countries.
pub open spec fn report_names(kind: Seq<char>, marketplace: NeweggMarketplace) -> Option<
    (Seq<char>, Seq<char>),
> {
    if kind == "inventory"@ {
        if marketplace == NeweggMarketplace::Usa {
            Some(("InternationalInventoryReportRequest"@, "INTERNATIONAL_INVENTORY_REPORT"@))
        } else {
            Some(("DailyInventoryReportRequest"@, "DAILY_INVENTORY_REPORT"@))
        }
    } else if kind == "price"@ {
        Some(("InternationalPriceReportRequest"@, "INTERNATIONAL_PRICE_REPORT"@))
    } else {
        None
    }
}

/// Whether `request` is the request for the report `kind`: it carries the
/// names of the report, asks for a CSV file, and, for inventory, for the
/// stock that the seller ships.
pub open spec fn requests_report(
    kind: Seq<char>,
    marketplace: NeweggMarketplace,
    request: Option<ReportRequest<ReportCriteria>>,
) -> bool {
    match report_names(kind, marketplace) {
        None => request is None,
        Some((operation, request_type)) => {
            &&& request matches Some(made)
            &&& made.operation_type@ == operation
            &&& if kind == "inventory"@ {
                &&& made.request_body matches ReportCriteria::DailyInventoryReportCriteria {
                    fulfill_type: fulfilled,
                    request_type: named,
                    file_type: file,
                }
                &&& fulfilled@ == "0"@
                &&& named@ == request_type
                &&& file@ == "CSV"@
            } else {
                &&& made.request_body matches ReportCriteria::DailyPriceReportCriteria {
                    request_type: named,
                    file_type: file,
                }
                &&& named@ == request_type
                &&& file@ == "CSV"@
            }
        },
    }
}

/// The request for the daily report that goes by the name `kind`, which is
/// `inventory` or `price`; `None` for any other name.
pub fn daily_report_request(kind: &str, marketplace: NeweggMarketplace) -> (request: Option<
    ReportRequest<ReportCriteria>,
>)
    ensures
        requests_report(kind@, marketplace, request),
{
    if str_eq(kind, "inventory") {
        let (operation, request_type) = match marketplace {
            NeweggMarketplace::Usa => (
                "InternationalInventoryReportRequest",
                "INTERNATIONAL_INVENTORY_REPORT",
            ),
            _ => ("DailyInventoryReportRequest", "DAILY_INVENTORY_REPORT"),
        };
        Some(
            ReportRequest::new(
                operation,
                ReportCriteria::DailyInventoryReportCriteria {
                    fulfill_type: "0".to_owned(),
                    request_type: request_type.to_owned(),
                    file_type: "CSV".to_owned(),
                },
            ),
        )
    } else if str_eq(kind, "price") {
        Some(
            ReportRequest::new(
                "InternationalPriceReportRequest",
                ReportCriteria::DailyPriceReportCriteria {
                    request_type: "INTERNATIONAL_PRICE_REPORT".to_owned(),
                    file_type: "CSV".to_owned(),
                },
            ),
        )
    } else {
        None
    }
}

/// The parts of a parsed URL that a file transfer reads.
#[derive(Debug)]
pub struct UrlParts {
    pub host: Option<String>,
    /// The port that the URL names, or the usual port of its scheme.
    pub port: Option<u16>,
    pub username: String,
    pub password: Option<String>,
    /// The whole path, with its leading slash where it has one.
    pub path: String,
    /// The path cut at its slashes; `None` for a URL that cannot be a base.
    pub path_segments: Option<Vec<String>>,
}

pub struct UrlPartsView {
    pub host: Option<Seq<char>>,
    pub port: Option<u16>,
    pub username: Seq<char>,
    pub password: Option<Seq<char>>,
    pub path: Seq<char>,
    pub path_segments: Option<Seq<Seq<char>>>,
}

impl View for UrlParts {
    type V = UrlPartsView;

    open spec fn view(&self) -> UrlPartsView {
        UrlPartsView {
            host: self.host.deep_view(),
            port: self.port,
            username: self.username@,
            password: self.password.deep_view(),
            path: self.path@,
            path_segments: self.path_segments.deep_view(),
        }
    }
}

/// What the URL parser makes of a text: `None` where it is no URL, and the
/// parts of the URL where it is one.
pub uninterp spec fn url_parts_of(text: Seq<char>) -> Option<UrlPartsView>;

/// Parses `text` with `url::Url::parse` and copies out of the parsed URL what
/// `host_str`, `port_or_known_default`, `username`, `password`, `path` and
/// `path_segments` return. The contract only names the outcome: the same text
/// always parses to the same parts, or always fails.
#[verifier::external_body]
fn parse_url(text: &str) -> (r: Result<UrlParts, url::ParseError>)
    ensures
        match r {
            Ok(parts) => url_parts_of(text@) == Some(parts@),
            Err(_) => url_parts_of(text@) is None,
        },
{
    let parsed = url::Url::parse(text)?;
    Ok(UrlParts {
        host: parsed.host_str().map(|h| h.to_string()),
        port: parsed.port_or_known_default(),
        username: parsed.username().to_string(),
        password: parsed.password().map(|p| p.to_string()),
        path: parsed.path().to_string(),
        path_segments: parsed.path_segments().map(|s| s.map(|p| p.to_string()).collect()),
    })
}

/// Where a report file lies and how to log in for it: all that a file
/// transfer session needs before it opens a connection.
#[derive(Debug)]
pub struct ReportFileLocation {
    /// Host and port, joined by a colon.
    pub address: String,
    pub username: String,
    pub password: String,
    /// The directory to change into before the download, if any.
    pub directory: Option<String>,
    /// The name under which the file is retrieved.
    pub file: String,
}

/// The first part that a report file URL lacks, in the order host, port,
/// password, path; `None` where the URL is complete.
pub open spec fn missing_url_component(parts: UrlPartsView) -> Option<Seq<char>> {
    if parts.host is None {
        Some("no host"@)
    } else if parts.port is None {
        Some("no port"@)
    } else if parts.password is None {
        Some("no password"@)
    } else if parts.path_segments is None {
        Some("no path"@)
    } else {
        None
    }
}

/// The directory of the file: all path segments but the last, with a slash
/// between each two, where the path has more than one segment.
pub open spec fn report_directory(parts: UrlPartsView) -> Option<Seq<char>>
    recommends
        parts.path_segments is Some,
{
    let segments = parts.path_segments->0;
    if segments.len() > 1 {
        Some(join_with(segments.drop_last(), seq!['/']))
    } else {
        None
    }
}

/// The name of the file: the last path segment where the path has more than
/// one, and the whole path otherwise.
pub open spec fn report_file_name(parts: UrlPartsView) -> Seq<char>
    recommends
        parts.path_segments is Some,
{
    let segments = parts.path_segments->0;
    if segments.len() > 1 {
        segments.last()
    } else {
        parts.path
    }
}

/// How the outcome of locating a report file follows from the parts of its
/// URL: an error that names the first missing part, or the location read off
/// a complete URL.
pub open spec fn locates(parts: UrlPartsView, outcome: NeweggResult<ReportFileLocation>) -> bool {
    match outcome {
        Ok(location) => {
            &&& missing_url_component(parts) is None
            &&& location.address@ == parts.host->0 + ":"@ + decimal(parts.port->0 as nat)
            &&& location.username@ == parts.username
            &&& location.password@ == parts.password->0
            &&& location.directory.deep_view() == report_directory(parts)
            &&& location.file@ == report_file_name(parts)
        },
        Err(error) => {
            &&& missing_url_component(parts) matches Some(message)
            &&& error.is_ftp_url(message)
        },
    }
}

/// A URL without a password never leads to a location: whatever else it
/// holds, locating its file ends in `NeweggError::FtpUrl`, so no connection
/// is ever opened for it.
pub proof fn lemma_url_without_password_is_refused(
    parts: UrlPartsView,
    outcome: NeweggResult<ReportFileLocation>,
)
    requires
        parts.password is None,
        locates(parts, outcome),
    ensures
        outcome matches Err(NeweggError::FtpUrl(_)),
        parts.host is Some && parts.port is Some ==> (outcome matches Err(error)
            && error.is_ftp_url("no password"@)),
{
}

impl ReportFileLocation {
    /// Reads the location of a report file off the parts of its URL.
    ///
    /// Host, port, password and path are each required; the first one missing
    /// is reported and nothing else is looked at. The file is retrieved under
    /// its last path segment after a change into the directory before it,
    /// which for the path `/a/b/f.csv` is `a/b`; or, with a single segment,
    /// under the whole path without a change of directory.
    pub fn from_parts(parts: UrlParts) -> (outcome: NeweggResult<ReportFileLocation>)
        ensures
            locates(parts@, outcome),
    {
        let UrlParts { host, port, username, password, path, path_segments } = parts;
        let host = match host {
            Some(host) => host,
            None => {
                return Err(NeweggError::FtpUrl("no host".to_owned()));
            },
        };
        let port = match port {
            Some(port) => port,
            None => {
                return Err(NeweggError::FtpUrl("no port".to_owned()));
            },
        };
        let password = match password {
            Some(password) => password,
            None => {
                return Err(NeweggError::FtpUrl("no password".to_owned()));
            },
        };
        let segments = match path_segments {
            Some(segments) => segments,
            None => {
                return Err(NeweggError::FtpUrl("no path".to_owned()));
            },
        };
        let mut address = concat_strs(host.as_str(), ":");
        address.append(u64_to_string(port as u64).as_str());
        let count = segments.len();
        if count > 1 {
            let directory = join_strings(&segments, count - 1, "/");
            let file = segments[count - 1].clone();
            proof {
                reveal_strlit("/");
                assert("/"@ =~= seq!['/']);
                let all = segments.deep_view();
                assert(all.take(count - 1) =~= all.drop_last());
                assert(all.last() == segments[count - 1]@);
            }
            Ok(ReportFileLocation { address, username, password, directory: Some(directory), file })
        } else {
            Ok(ReportFileLocation { address, username, password, directory: None, file: path })
        }
    }
}

/// Finds out where the report file behind `url` lies.
///
/// A text that is no URL gives `NeweggError::Url`. A URL gives what
/// [`ReportFileLocation::from_parts`] makes of its parts, so a URL without a
/// password, say, is turned down here, before any connection is opened.
pub fn report_file_location(url: &str) -> (outcome: NeweggResult<ReportFileLocation>)
    ensures
        match url_parts_of(url@) {
            Some(parts) => locates(parts, outcome),
            None => outcome matches Err(NeweggError::Url(_)),
        },
{
    match parse_url(url) {
        Ok(parts) => ReportFileLocation::from_parts(parts),
        Err(error) => Err(NeweggError::Url(error)),
    }
}

} // verus!
