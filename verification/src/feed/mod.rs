//! Data feeds: submitting one, following its progress and reading its result.
//!
//! A feed is submitted once and answered with a request id. Its status is
//! then asked for under that id, as often as the caller likes, until the
//! marketplace is done with it; after that its result can be read.

use vstd::prelude::*;
use crate::client::Method;
use crate::client::NeweggClient;
use crate::client::PreparedRequest;
use crate::text::concat_strs;

pub mod message;
pub mod types;

pub use self::types::AdditionalInfo;
pub use self::types::ErrorList;
pub use self::types::FeedResponse;
pub use self::types::FeedResponseBody;
pub use self::types::FeedResponseList;
pub use self::types::GetRequestStatus;
pub use self::types::ProcessingReport;
pub use self::types::ProcessingReportMessage;
pub use self::types::ProcessingResult;
pub use self::types::ProcessingSummary;
pub use self::types::RequestEnvelope;
pub use self::types::RequestIdList;
pub use self::types::RequestStatus;
pub use self::types::ResponseEnvelope;
pub use self::types::ResponseEnvelopeInner;

verus! {

/// The body of a feed submission: the envelope under its name.
#[derive(Debug)]
pub struct SubmitFeedBody<T> {
    pub newegg_envelope: RequestEnvelope<T>,
}

/// The body of a query for the status of feeds.
#[derive(Debug)]
pub struct GetFeedStatusRequest<'a> {
    /// Always `GetFeedStatusRequest`.
    pub operation_type: &'static str,
    pub request_body: GetFeedStatusRequestBody<'a>,
}

#[derive(Debug)]
pub struct GetFeedStatusRequestBody<'a> {
    pub get_request_status: &'a GetRequestStatus,
}

/// The path under which the result of a feed is read.
pub open spec fn feed_result_path(request_id: Seq<char>) -> Seq<char> {
    "/datafeedmgmt/feeds/result/"@ + request_id
}

impl NeweggClient {
    /// The request that submits the feed in `request` as a feed of the kind
    /// `request_type`. The marketplace answers with the id under which the
    /// feed is followed from then on.
    pub fn submit_feed<T>(&self, request_type: &str, request: RequestEnvelope<T>) -> (prepared:
        PreparedRequest<SubmitFeedBody<T>>)
        ensures
            self.sends(
                Method::Post,
                "/datafeedmgmt/feeds/submitfeed"@,
                seq![("requesttype"@, request_type@)],
                SubmitFeedBody { newegg_envelope: request },
                prepared,
            ),
    {
        let prepared = self.request(Method::Post, "/datafeedmgmt/feeds/submitfeed").query(
            "requesttype",
            request_type,
        ).json(SubmitFeedBody { newegg_envelope: request });
        assert(self.spec_query().push(("requesttype"@, request_type@)) =~= self.spec_query()
            + seq![("requesttype"@, request_type@)]);
        prepared
    }

    /// The request that asks how far the feeds selected by `request` have
    /// come. It asks once; when to ask again is the caller's decision.
    pub fn get_feed_status<'a>(&self, request: &'a GetRequestStatus) -> (prepared: PreparedRequest<
        GetFeedStatusRequest<'a>,
    >)
        ensures
            prepared.body is Some,
            prepared.body->0.operation_type@ == "GetFeedStatusRequest"@,
            prepared.body->0.request_body.get_request_status == request,
            self.sends(
                Method::Put,
                "/datafeedmgmt/feeds/status"@,
                Seq::empty(),
                prepared.body->0,
                prepared,
            ),
    {
        let body = GetFeedStatusRequest {
            operation_type: "GetFeedStatusRequest",
            request_body: GetFeedStatusRequestBody { get_request_status: request },
        };
        let prepared = self.request(Method::Put, "/datafeedmgmt/feeds/status").json(body);
        assert(self.spec_query() + Seq::empty() =~= self.spec_query());
        prepared
    }

    /// The request that reads the result of the feed that was submitted
    /// under `request_id`.
    pub fn get_feed_result(&self, request_id: &str) -> (prepared: PreparedRequest<()>)
        ensures
            self.asks(feed_result_path(request_id@), prepared),
    {
        let path = concat_strs("/datafeedmgmt/feeds/result/", request_id);
        self.request(Method::Get, path.as_str())
    }
}

} // verus!
