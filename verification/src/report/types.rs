//! The data that report requests and responses carry.

use vstd::prelude::*;
use crate::helpers::NeweggDateTime;
use crate::text::decimal;
use crate::text::to_strings;
use crate::text::u64_to_string;
use crate::types::NeweggApiResponse;
use crate::types::NeweggApiResponseWrapped;

pub use crate::feed::types::RequestStatus;

verus! {

/// A request of the report interface: the name of the operation and its
/// body.
#[derive(Debug)]
pub struct ReportRequest<B> {
    pub operation_type: String,
    pub request_body: B,
}

impl<B> ReportRequest<B> {
    pub fn new(operation_type: &str, body: B) -> (request: ReportRequest<B>)
        ensures
            request.operation_type@ == operation_type@,
            request.request_body == body,
    {
        ReportRequest { operation_type: operation_type.to_owned(), request_body: body }
    }
}

/// The body of a query for the status of reports.
#[derive(Debug)]
pub struct GetReportStatusRequest {
    pub get_request_status: GetRequestStatus,
}

/// The reports whose status is asked for, and how many of them to report at
/// most.
#[derive(Debug)]
pub struct GetRequestStatus {
    pub request_id_list: RequestIDList,
    /// The largest number of reports, written in decimal.
    pub max_count: String,
}

#[derive(Debug)]
pub struct RequestIDList {
    pub request_id: Vec<String>,
}

impl GetReportStatusRequest {
    /// The ids that the query names, in the order in which they were given.
    pub open spec fn ids(&self) -> Seq<Seq<char>> {
        self.get_request_status.request_id_list.request_id.deep_view()
    }

    /// The limit of the query, as it is written.
    pub open spec fn max_count(&self) -> Seq<char> {
        self.get_request_status.max_count@
    }

    /// A query for the status of the reports `ids`, of which at most
    /// `max_count` are reported.
    pub fn new(ids: &[&str], max_count: u64) -> (request: GetReportStatusRequest)
        ensures
            request.ids() == ids.deep_view(),
            request.max_count() == decimal(max_count as nat),
    {
        GetReportStatusRequest {
            get_request_status: GetRequestStatus {
                request_id_list: RequestIDList { request_id: to_strings(ids) },
                max_count: u64_to_string(max_count),
            },
        }
    }
}

/// The body of a query for one page of the result of a report.
#[derive(Debug)]
pub struct GetReportResultRequest {
    pub request_id: String,
    pub page_info: PageInfo,
}

/// Which page of a result is asked for. Both numbers are written in decimal;
/// pages are counted from 1.
#[derive(Debug)]
pub struct PageInfo {
    pub page_size: String,
    pub page_index: String,
}

impl GetReportResultRequest {
    /// A query for page `page_index` of the result of the report
    /// `request_id`, in pages of `page_size` rows.
    pub fn new(request_id: &str, page_index: u64, page_size: u64) -> (request:
        GetReportResultRequest)
        ensures
            request.request_id@ == request_id@,
            request.page_info.page_index@ == decimal(page_index as nat),
            request.page_info.page_size@ == decimal(page_size as nat),
    {
        GetReportResultRequest {
            request_id: request_id.to_owned(),
            page_info: PageInfo {
                page_size: u64_to_string(page_size),
                page_index: u64_to_string(page_index),
            },
        }
    }
}

/// What the marketplace says of one report: under which id it runs, how far
/// it has come, and, once it is finished, how many rows it holds or where
/// its file lies.
#[derive(Debug)]
pub struct ResponseInfo {
    pub request_id: String,
    pub request_type: String,
    pub request_date: NeweggDateTime,
    pub request_status: Option<RequestStatus>,
    pub total_count: Option<i64>,
    pub report_file_url: Option<String>,
}

#[derive(Debug)]
pub struct ResponseBody {
    pub response_list: Vec<ResponseInfo>,
}

pub type ReportResponse = NeweggApiResponse<ResponseBody>;

pub type ReportResultReponse = NeweggApiResponseWrapped<ResponseInfo>;

} // verus!
