//! The data that order requests and responses carry.

use vstd::prelude::*;
use crate::helpers::NeweggDateTime;
use crate::text::concat_strs;
use crate::text::decimal;
use crate::text::i64_to_string;
use crate::text::join_with_spaces;
use crate::text::join_words;
use crate::text::lowercase_of;
use crate::text::signed_decimal;
use crate::text::split_whitespace;
use crate::text::str_eq;
use crate::text::to_lowercase;
use crate::text::trim;
use crate::text::trimmed;
use crate::text::u64_to_string;
use crate::text::words_of;

verus! {

/// How far an order has come.
#[derive(Debug, Clone, Copy, PartialEq, Eq, Structural)]
pub enum OrderStatus {
    Unshipped,
    PartiallyShipped,
    Shipped,
    Invoiced,
    Voided,
}

impl OrderStatus {
    /// The number that stands for the variant on the wire.
    pub open spec fn spec_to_u64(&self) -> u64 {
        match self {
            OrderStatus::Unshipped => 0,
            OrderStatus::PartiallyShipped => 1,
            OrderStatus::Shipped => 2,
            OrderStatus::Invoiced => 3,
            OrderStatus::Voided => 4,
        }
    }

    /// The number that stands for the variant on the wire.
    pub fn to_u64(&self) -> (number: u64)
        ensures
            number == self.spec_to_u64(),
    {
        match self {
            OrderStatus::Unshipped => 0,
            OrderStatus::PartiallyShipped => 1,
            OrderStatus::Shipped => 2,
            OrderStatus::Invoiced => 3,
            OrderStatus::Voided => 4,
        }
    }

    /// The variant that `value` stands for. A number that stands for none is
    /// refused with a message that names it.
    pub fn from_u64(value: u64) -> (outcome: Result<OrderStatus, String>)
        ensures
            match outcome {
                Ok(variant) => variant.spec_to_u64() == value,
                Err(message) => value >= 5 && message@ == "unknown OrderStatus value: "@ + decimal(
                    value as nat,
                ),
            },
    {
        if value == 0 {
            Ok(OrderStatus::Unshipped)
        } else if value == 1 {
            Ok(OrderStatus::PartiallyShipped)
        } else if value == 2 {
            Ok(OrderStatus::Shipped)
        } else if value == 3 {
            Ok(OrderStatus::Invoiced)
        } else if value == 4 {
            Ok(OrderStatus::Voided)
        } else {
            Err(concat_strs("unknown OrderStatus value: ", u64_to_string(value).as_str()))
        }
    }

    /// The number of the variant, written in decimal.
    pub fn as_str(&self) -> (digits: &'static str)
        ensures
            digits@ == decimal(self.spec_to_u64() as nat),
    {
        proof {
            reveal_strlit("0");
            reveal_strlit("1");
            reveal_strlit("2");
            reveal_strlit("3");
            reveal_strlit("4");
        }
        let digits = match self {
            OrderStatus::Unshipped => "0",
            OrderStatus::PartiallyShipped => "1",
            OrderStatus::Shipped => "2",
            OrderStatus::Invoiced => "3",
            OrderStatus::Voided => "4",
        };
        assert(digits@ =~= decimal(self.spec_to_u64() as nat));
        digits
    }
}

/// Selects orders by who ships them.
#[derive(Debug, Clone, Copy, PartialEq, Eq, Structural)]
pub enum OrderTypeFilter {
    All,
    ShippedByNewEgg,
    ShippedBySeller,
    MultiChannel,
}

impl OrderTypeFilter {
    /// The number that stands for the variant on the wire.
    pub open spec fn spec_to_u64(&self) -> u64 {
        match self {
            OrderTypeFilter::All => 0,
            OrderTypeFilter::ShippedByNewEgg => 1,
            OrderTypeFilter::ShippedBySeller => 2,
            OrderTypeFilter::MultiChannel => 3,
        }
    }

    /// The number that stands for the variant on the wire.
    pub fn to_u64(&self) -> (number: u64)
        ensures
            number == self.spec_to_u64(),
    {
        match self {
            OrderTypeFilter::All => 0,
            OrderTypeFilter::ShippedByNewEgg => 1,
            OrderTypeFilter::ShippedBySeller => 2,
            OrderTypeFilter::MultiChannel => 3,
        }
    }

    /// The variant that `value` stands for. A number that stands for none is
    /// refused with a message that names it.
    pub fn from_u64(value: u64) -> (outcome: Result<OrderTypeFilter, String>)
        ensures
            match outcome {
                Ok(variant) => variant.spec_to_u64() == value,
                Err(message) => value >= 4 && message@ == "unknown OrderTypeFilter value: "@ + decimal(
                    value as nat,
                ),
            },
    {
        if value == 0 {
            Ok(OrderTypeFilter::All)
        } else if value == 1 {
            Ok(OrderTypeFilter::ShippedByNewEgg)
        } else if value == 2 {
            Ok(OrderTypeFilter::ShippedBySeller)
        } else if value == 3 {
            Ok(OrderTypeFilter::MultiChannel)
        } else {
            Err(concat_strs("unknown OrderTypeFilter value: ", u64_to_string(value).as_str()))
        }
    }

    /// The number of the variant, written in decimal.
    pub fn as_str(&self) -> (digits: &'static str)
        ensures
            digits@ == decimal(self.spec_to_u64() as nat),
    {
        proof {
            reveal_strlit("0");
            reveal_strlit("1");
            reveal_strlit("2");
            reveal_strlit("3");
        }
        let digits = match self {
            OrderTypeFilter::All => "0",
            OrderTypeFilter::ShippedByNewEgg => "1",
            OrderTypeFilter::ShippedBySeller => "2",
            OrderTypeFilter::MultiChannel => "3",
        };
        assert(digits@ =~= decimal(self.spec_to_u64() as nat));
        digits
    }
}

/// Selects orders by whether they are premier orders.
#[derive(Debug, Clone, Copy, PartialEq, Eq, Structural)]
pub enum PremierOrderFilter {
    All,
    PremierOrderOnly,
    NoPremierOrder,
}

impl PremierOrderFilter {
    /// The number that stands for the variant on the wire.
    pub open spec fn spec_to_u64(&self) -> u64 {
        match self {
            PremierOrderFilter::All => 0,
            PremierOrderFilter::PremierOrderOnly => 1,
            PremierOrderFilter::NoPremierOrder => 2,
        }
    }

    /// The number that stands for the variant on the wire.
    pub fn to_u64(&self) -> (number: u64)
        ensures
            number == self.spec_to_u64(),
    {
        match self {
            PremierOrderFilter::All => 0,
            PremierOrderFilter::PremierOrderOnly => 1,
            PremierOrderFilter::NoPremierOrder => 2,
        }
    }

    /// The variant that `value` stands for. A number that stands for none is
    /// refused with a message that names it.
    pub fn from_u64(value: u64) -> (outcome: Result<PremierOrderFilter, String>)
        ensures
            match outcome {
                Ok(variant) => variant.spec_to_u64() == value,
                Err(message) => value >= 3 && message@ == "unknown PremierOrderFilter value: "@ + decimal(
                    value as nat,
                ),
            },
    {
        if value == 0 {
            Ok(PremierOrderFilter::All)
        } else if value == 1 {
            Ok(PremierOrderFilter::PremierOrderOnly)
        } else if value == 2 {
            Ok(PremierOrderFilter::NoPremierOrder)
        } else {
            Err(concat_strs("unknown PremierOrderFilter value: ", u64_to_string(value).as_str()))
        }
    }

    /// The number of the variant, written in decimal.
    pub fn as_str(&self) -> (digits: &'static str)
        ensures
            digits@ == decimal(self.spec_to_u64() as nat),
    {
        proof {
            reveal_strlit("0");
            reveal_strlit("1");
            reveal_strlit("2");
        }
        let digits = match self {
            PremierOrderFilter::All => "0",
            PremierOrderFilter::PremierOrderOnly => "1",
            PremierOrderFilter::NoPremierOrder => "2",
        };
        assert(digits@ =~= decimal(self.spec_to_u64() as nat));
        digits
    }
}

/// A line of a package that has left, as an order reports it.
#[derive(Debug, Clone)]
pub struct PackageInfoListItemInfoList {
    pub mfr_part_number: String,
    pub seller_part_number: String,
    pub shipped_qty: i64,
}

/// A package that has left, as an order reports it.
#[derive(Debug, Clone)]
pub struct PackageInfoList {
    pub item_info_list: Vec<PackageInfoListItemInfoList>,
    pub package_type: String,
    pub ship_carrier: String,
    pub ship_date: NeweggDateTime,
    pub ship_service: String,
    pub tracking_number: String,
}

/// Where a page of orders stands in the whole result.
#[derive(Debug)]
pub struct PageInfo {
    pub total_count: i64,
    pub total_page_count: i64,
    pub page_index: i64,
    pub page_size: i64,
}

/// One page of orders. `I` is the type that holds a single order.
#[derive(Debug)]
pub struct ResponseBody<I> {
    pub page_info: PageInfo,
    pub order_info_list: Option<Vec<I>>,
}

/// The answer to a query for orders. `I` is the type that holds a single
/// order.
#[derive(Debug)]
pub struct GetOrderInfoResponse<I> {
    pub response_date: String,
    pub memo: String,
    pub is_success: bool,
    pub operation_type: String,
    pub seller_id: String,
    pub response_body: ResponseBody<I>,
}

impl<I> GetOrderInfoResponse<I> {
    /// How many orders this page holds; a page without a list holds none.
    pub open spec fn spec_len(&self) -> nat {
        match self.response_body.order_info_list {
            Some(list) => list@.len(),
            None => 0,
        }
    }

    /// How many orders the whole result holds, over all its pages.
    pub fn total(&self) -> (total: i64)
        ensures
            total == self.response_body.page_info.total_count,
    {
        self.response_body.page_info.total_count
    }

    /// How many orders this page holds.
    pub fn len(&self) -> (len: usize)
        ensures
            len == self.spec_len(),
    {
        match &self.response_body.order_info_list {
            Some(list) => list.len(),
            None => 0,
        }
    }

    /// Whether this page holds no order.
    pub fn is_empty(&self) -> (empty: bool)
        ensures
            empty == (self.spec_len() == 0),
    {
        match &self.response_body.order_info_list {
            Some(list) => list.len() == 0,
            None => true,
        }
    }

    /// The orders of this page, if the page came with a list.
    pub fn info_list(&self) -> (list: Option<&Vec<I>>)
        ensures
            match list {
                Some(orders) => self.response_body.order_info_list == Some(*orders),
                None => self.response_body.order_info_list is None,
            },
    {
        match &self.response_body.order_info_list {
            Some(list) => Some(list),
            None => None,
        }
    }
}

#[derive(Debug, Clone)]
pub struct OrderNumberList {
    pub order_number: Vec<String>,
}

#[derive(Debug, Clone)]
pub struct SellerOrderNumberList {
    pub seller_order_number: Vec<String>,
}

/// What a query for orders selects by. A criterion that is `None` selects
/// nothing and is left out of the request.
#[derive(Debug, Clone)]
pub struct RequestCriteria {
    pub order_number_list: Option<OrderNumberList>,
    pub seller_order_number_list: Option<SellerOrderNumberList>,
    pub status: Option<String>,
    pub type_: Option<String>,
    pub order_date_from: Option<NeweggDateTime>,
    pub order_date_to: Option<NeweggDateTime>,
    pub order_downloaded: Option<i32>,
    pub country_code: Option<String>,
    pub premier_order: Option<String>,
}

pub struct RequestCriteriaView {
    pub order_number_list: Option<Seq<Seq<char>>>,
    pub seller_order_number_list: Option<Seq<Seq<char>>>,
    pub status: Option<Seq<char>>,
    pub type_: Option<Seq<char>>,
    pub order_date_from: Option<NeweggDateTime>,
    pub order_date_to: Option<NeweggDateTime>,
    pub order_downloaded: Option<i32>,
    pub country_code: Option<Seq<char>>,
    pub premier_order: Option<Seq<char>>,
}

impl RequestCriteriaView {
    /// Criteria that select by nothing.
    pub open spec fn empty() -> RequestCriteriaView {
        RequestCriteriaView {
            order_number_list: None,
            seller_order_number_list: None,
            status: None,
            type_: None,
            order_date_from: None,
            order_date_to: None,
            order_downloaded: None,
            country_code: None,
            premier_order: None,
        }
    }
}

impl DeepView for RequestCriteria {
    type V = RequestCriteriaView;

    open spec fn deep_view(&self) -> RequestCriteriaView {
        RequestCriteriaView {
            order_number_list: match self.order_number_list {
                Some(list) => Some(list.order_number.deep_view()),
                None => None,
            },
            seller_order_number_list: match self.seller_order_number_list {
                Some(list) => Some(list.seller_order_number.deep_view()),
                None => None,
            },
            status: self.status.deep_view(),
            type_: self.type_.deep_view(),
            order_date_from: self.order_date_from,
            order_date_to: self.order_date_to,
            order_downloaded: self.order_downloaded,
            country_code: self.country_code.deep_view(),
            premier_order: self.premier_order.deep_view(),
        }
    }
}

impl Default for RequestCriteria {
    fn default() -> (criteria: RequestCriteria)
        ensures
            criteria.deep_view() == RequestCriteriaView::empty(),
    {
        RequestCriteria {
            order_number_list: None,
            seller_order_number_list: None,
            status: None,
            type_: None,
            order_date_from: None,
            order_date_to: None,
            order_downloaded: None,
            country_code: None,
            premier_order: None,
        }
    }
}

/// The page asked for and the criteria that select the orders.
#[derive(Debug, Clone)]
pub struct RequestBody {
    pub page_index: Option<i32>,
    pub page_size: Option<i32>,
    pub request_criteria: RequestCriteria,
}

impl Default for RequestBody {
    fn default() -> (body: RequestBody)
        ensures
            body.page_index is None,
            body.page_size is None,
            body.request_criteria.deep_view() == RequestCriteriaView::empty(),
    {
        RequestBody { page_index: None, page_size: None, request_criteria: RequestCriteria::default() }
    }
}

/// A query for orders.
#[derive(Debug, Clone)]
pub struct GetOrderInfoRequest {
    pub request_body: RequestBody,
}

pub struct GetOrderInfoRequestView {
    pub page_index: Option<i32>,
    pub page_size: Option<i32>,
    pub criteria: RequestCriteriaView,
}

impl GetOrderInfoRequestView {
    /// A query that names no page and selects by nothing.
    pub open spec fn empty() -> GetOrderInfoRequestView {
        GetOrderInfoRequestView {
            page_index: None,
            page_size: None,
            criteria: RequestCriteriaView::empty(),
        }
    }

    /// The query with other criteria.
    pub open spec fn with_criteria(self, criteria: RequestCriteriaView) -> GetOrderInfoRequestView {
        GetOrderInfoRequestView { criteria, ..self }
    }

    /// The query as it is sent: a query that names no page size asks for
    /// pages of 100 orders.
    pub open spec fn finalized(self) -> GetOrderInfoRequestView {
        GetOrderInfoRequestView {
            page_size: match self.page_size {
                Some(size) => Some(size),
                None => Some(100i32),
            },
            ..self
        }
    }
}

impl DeepView for GetOrderInfoRequest {
    type V = GetOrderInfoRequestView;

    open spec fn deep_view(&self) -> GetOrderInfoRequestView {
        GetOrderInfoRequestView {
            page_index: self.request_body.page_index,
            page_size: self.request_body.page_size,
            criteria: self.request_body.request_criteria.deep_view(),
        }
    }
}

impl Default for GetOrderInfoRequest {
    fn default() -> (request: GetOrderInfoRequest)
        ensures
            request.deep_view() == GetOrderInfoRequestView::empty(),
    {
        GetOrderInfoRequest { request_body: RequestBody::default() }
    }
}

impl GetOrderInfoRequest {
    /// Starts a query that names no page and selects by nothing.
    pub fn new() -> (builder: GetOrderInfoRequestBuilder)
        ensures
            builder@ == GetOrderInfoRequestView::empty(),
    {
        GetOrderInfoRequestBuilder { inner: GetOrderInfoRequest::default() }
    }
}

/// Puts a query for orders together, one criterion at a time. Setting a
/// criterion a second time replaces what was set before.
pub struct GetOrderInfoRequestBuilder {
    inner: GetOrderInfoRequest,
}

impl View for GetOrderInfoRequestBuilder {
    type V = GetOrderInfoRequestView;

    closed spec fn view(&self) -> GetOrderInfoRequestView {
        self.inner.deep_view()
    }
}

impl GetOrderInfoRequestBuilder {
    /// Hands out the query as it is sent, and starts over with an empty one.
    /// A query that names no page size asks for pages of 100 orders.
    pub fn finalize(&mut self) -> (request: GetOrderInfoRequest)
        ensures
            request.deep_view() == old(self)@.finalized(),
            final(self)@ == GetOrderInfoRequestView::empty(),
    {
        let mut request = GetOrderInfoRequest::default();
        std::mem::swap(&mut self.inner, &mut request);
        if request.request_body.page_size.is_none() {
            request.request_body.page_size = Some(100);
        }
        request
    }

    pub fn page_index(&mut self, v: i32) -> (builder: &mut Self)
        ensures
            builder@ == (GetOrderInfoRequestView { page_index: Some(v), ..old(self)@ }),
            final(self)@ == final(builder)@,
    {
        self.inner.request_body.page_index = Some(v);
        self
    }

    pub fn page_size(&mut self, v: i32) -> (builder: &mut Self)
        ensures
            builder@ == (GetOrderInfoRequestView { page_size: Some(v), ..old(self)@ }),
            final(self)@ == final(builder)@,
    {
        self.inner.request_body.page_size = Some(v);
        self
    }

    pub fn order_number_list(&mut self, v: Vec<String>) -> (builder: &mut Self)
        ensures
            builder@ == old(self)@.with_criteria(
                RequestCriteriaView {
                    order_number_list: Some(v.deep_view()),
                    ..old(self)@.criteria
                },
            ),
            final(self)@ == final(builder)@,
    {
        self.inner.request_body.request_criteria.order_number_list = Some(
            OrderNumberList { order_number: v },
        );
        self
    }

    pub fn seller_order_number_list(&mut self, v: Vec<String>) -> (builder: &mut Self)
        ensures
            builder@ == old(self)@.with_criteria(
                RequestCriteriaView {
                    seller_order_number_list: Some(v.deep_view()),
                    ..old(self)@.criteria
                },
            ),
            final(self)@ == final(builder)@,
    {
        self.inner.request_body.request_criteria.seller_order_number_list = Some(
            SellerOrderNumberList { seller_order_number: v },
        );
        self
    }

    /// Selects by status. The criterion holds the status by its number.
    pub fn order_status(&mut self, v: OrderStatus) -> (builder: &mut Self)
        ensures
            builder@ == old(self)@.with_criteria(
                RequestCriteriaView {
                    status: Some(decimal(v.spec_to_u64() as nat)),
                    ..old(self)@.criteria
                },
            ),
            final(self)@ == final(builder)@,
    {
        self.inner.request_body.request_criteria.status = Some(v.as_str().to_owned());
        self
    }

    /// Selects by who ships. The criterion holds the filter by its number.
    pub fn order_type(&mut self, v: OrderTypeFilter) -> (builder: &mut Self)
        ensures
            builder@ == old(self)@.with_criteria(
                RequestCriteriaView {
                    type_: Some(decimal(v.spec_to_u64() as nat)),
                    ..old(self)@.criteria
                },
            ),
            final(self)@ == final(builder)@,
    {
        self.inner.request_body.request_criteria.type_ = Some(v.as_str().to_owned());
        self
    }

    pub fn order_date_from(&mut self, v: NeweggDateTime) -> (builder: &mut Self)
        ensures
            builder@ == old(self)@.with_criteria(
                RequestCriteriaView { order_date_from: Some(v), ..old(self)@.criteria },
            ),
            final(self)@ == final(builder)@,
    {
        self.inner.request_body.request_criteria.order_date_from = Some(v);
        self
    }

    pub fn order_date_to(&mut self, v: NeweggDateTime) -> (builder: &mut Self)
        ensures
            builder@ == old(self)@.with_criteria(
                RequestCriteriaView { order_date_to: Some(v), ..old(self)@.criteria },
            ),
            final(self)@ == final(builder)@,
    {
        self.inner.request_body.request_criteria.order_date_to = Some(v);
        self
    }

    /// Selects by whether the order was downloaded before: 1 for orders that
    /// were, 0 for orders that were not.
    pub fn order_downloaded(&mut self, v: bool) -> (builder: &mut Self)
        ensures
            builder@ == old(self)@.with_criteria(
                RequestCriteriaView {
                    order_downloaded: Some(if v { 1i32 } else { 0i32 }),
                    ..old(self)@.criteria
                },
            ),
            final(self)@ == final(builder)@,
    {
        self.inner.request_body.request_criteria.order_downloaded = Some(if v { 1 } else { 0 });
        self
    }

    pub fn country_code(&mut self, v: &str) -> (builder: &mut Self)
        ensures
            builder@ == old(self)@.with_criteria(
                RequestCriteriaView { country_code: Some(v@), ..old(self)@.criteria },
            ),
            final(self)@ == final(builder)@,
    {
        self.inner.request_body.request_criteria.country_code = Some(v.to_owned());
        self
    }

    /// Selects by premier orders. The criterion holds the filter by its
    /// number.
    pub fn premier_order(&mut self, v: PremierOrderFilter) -> (builder: &mut Self)
        ensures
            builder@ == old(self)@.with_criteria(
                RequestCriteriaView {
                    premier_order: Some(decimal(v.spec_to_u64() as nat)),
                    ..old(self)@.criteria
                },
            ),
            final(self)@ == final(builder)@,
    {
        self.inner.request_body.request_criteria.premier_order = Some(v.as_str().to_owned());
        self
    }
}

/// Which of the two order updates an action asks for.
#[derive(Debug, Clone, Copy, PartialEq, Eq, Structural)]
pub enum UpdateStatusActionType {
    CancelOrder,
    ShipOrder,
}

/// Why a seller cancels an order.
#[derive(Debug, Clone, Copy, PartialEq, Eq, Structural)]
pub enum CancelOrderReasonCode {
    OutOfStock,
    CustomerRequestedToCancel,
    UnableToFulfillOrder,
}

/// The body of a request to cancel an order.
#[derive(Debug, Clone)]
pub struct CancelOrderAction {
    pub action: UpdateStatusActionType,
    pub value: CancelOrderReasonCode,
}

impl CancelOrderAction {
    /// A cancellation for the given reason.
    pub fn new(reason: CancelOrderReasonCode) -> (action: CancelOrderAction)
        ensures
            action.action == UpdateStatusActionType::CancelOrder,
            action.value == reason,
    {
        CancelOrderAction { action: UpdateStatusActionType::CancelOrder, value: reason }
    }
}

/// The carrier that moves a package. The five carriers that the marketplace
/// knows by name have a variant each; any other goes by its own name.
#[derive(Debug)]
pub enum ShipCarrier {
    Ups,
    UpsMi,
    FedEx,
    Dhl,
    Usps,
    Other(String),
}

pub enum ShipCarrierView {
    Ups,
    UpsMi,
    FedEx,
    Dhl,
    Usps,
    Other(Seq<char>),
}

impl DeepView for ShipCarrier {
    type V = ShipCarrierView;

    open spec fn deep_view(&self) -> ShipCarrierView {
        match self {
            ShipCarrier::Ups => ShipCarrierView::Ups,
            ShipCarrier::UpsMi => ShipCarrierView::UpsMi,
            ShipCarrier::FedEx => ShipCarrierView::FedEx,
            ShipCarrier::Dhl => ShipCarrierView::Dhl,
            ShipCarrier::Usps => ShipCarrierView::Usps,
            ShipCarrier::Other(name) => ShipCarrierView::Other(name@),
        }
    }
}

impl ShipCarrierView {
    /// The name under which the marketplace knows the carrier.
    pub open spec fn name(self) -> Seq<char> {
        match self {
            ShipCarrierView::Ups => "UPS"@,
            ShipCarrierView::UpsMi => "UPS MI"@,
            ShipCarrierView::FedEx => "FedEx"@,
            ShipCarrierView::Dhl => "DHL"@,
            ShipCarrierView::Usps => "USPS"@,
            ShipCarrierView::Other(name) => name,
        }
    }
}

/// A carrier's name as it is compared: in lowercase, its words separated by
/// single spaces, nothing before the first word or after the last.
pub open spec fn normalized_carrier_name(name: Seq<char>) -> Seq<char> {
    join_words(words_of(lowercase_of(name)))
}

/// The carrier that a normalized name stands for. A name that is none of the
/// five known ones stands for the carrier called `fallback`.
pub open spec fn carrier_named(normalized: Seq<char>, fallback: Seq<char>) -> ShipCarrierView {
    if normalized == "ups"@ {
        ShipCarrierView::Ups
    } else if normalized == "ups mi"@ {
        ShipCarrierView::UpsMi
    } else if normalized == "fedex"@ {
        ShipCarrierView::FedEx
    } else if normalized == "dhl"@ {
        ShipCarrierView::Dhl
    } else if normalized == "usps"@ {
        ShipCarrierView::Usps
    } else {
        ShipCarrierView::Other(fallback)
    }
}

impl Clone for ShipCarrier {
    fn clone(&self) -> (copy: Self)
        ensures
            copy == *self,
    {
        match self {
            ShipCarrier::Ups => ShipCarrier::Ups,
            ShipCarrier::UpsMi => ShipCarrier::UpsMi,
            ShipCarrier::FedEx => ShipCarrier::FedEx,
            ShipCarrier::Dhl => ShipCarrier::Dhl,
            ShipCarrier::Usps => ShipCarrier::Usps,
            ShipCarrier::Other(name) => ShipCarrier::Other(name.clone()),
        }
    }
}

impl ShipCarrier {
    /// The name under which the marketplace knows the carrier.
    pub fn to_string(&self) -> (name: String)
        ensures
            name@ == self.deep_view().name(),
    {
        match self {
            ShipCarrier::Ups => "UPS".to_owned(),
            ShipCarrier::UpsMi => "UPS MI".to_owned(),
            ShipCarrier::FedEx => "FedEx".to_owned(),
            ShipCarrier::Dhl => "DHL".to_owned(),
            ShipCarrier::Usps => "USPS".to_owned(),
            ShipCarrier::Other(name) => name.clone(),
        }
    }

    /// The carrier that the normalized name stands for, or the carrier called
    /// `fallback` where the name is none of the known ones.
    pub fn from_normalized(normalized: &str, fallback: &str) -> (carrier: ShipCarrier)
        ensures
            carrier.deep_view() == carrier_named(normalized@, fallback@),
    {
        if str_eq(normalized, "ups") {
            ShipCarrier::Ups
        } else if str_eq(normalized, "ups mi") {
            ShipCarrier::UpsMi
        } else if str_eq(normalized, "fedex") {
            ShipCarrier::FedEx
        } else if str_eq(normalized, "dhl") {
            ShipCarrier::Dhl
        } else if str_eq(normalized, "usps") {
            ShipCarrier::Usps
        } else {
            ShipCarrier::Other(fallback.to_owned())
        }
    }
}

impl From<&str> for ShipCarrier {
    /// Recognises a carrier by its name, whatever its letter case and the
    /// spacing around and between its words. An unknown name gives
    /// `ShipCarrier::Other` with the name as written, trimmed at both ends.
    fn from(name: &str) -> (carrier: ShipCarrier)
        ensures
            carrier.deep_view() == carrier_named(normalized_carrier_name(name@), trimmed(name@)),
    {
        let lower = to_lowercase(name);
        let words = split_whitespace(lower.as_str());
        let normalized = join_with_spaces(&words);
        ShipCarrier::from_normalized(normalized.as_str(), trim(name))
    }
}

/// `from` is stated over views, in its own clause: which carrier comes out
/// is fixed, but not which `String` an unknown carrier's name is held in.
impl vstd::std_specs::convert::FromSpecImpl<&str> for ShipCarrier {
    open spec fn obeys_from_spec() -> bool {
        false
    }

    open spec fn from_spec(name: &str) -> ShipCarrier {
        choose|carrier: ShipCarrier|
            carrier.deep_view() == carrier_named(normalized_carrier_name(name@), trimmed(name@))
    }
}

/// One line of a package: a part and how many of it were shipped.
#[derive(Debug, Clone)]
pub struct ItemElement {
    pub seller_part_number: String,
    /// The quantity, written in decimal.
    pub shipped_qty: String,
}

pub struct ItemElementView {
    pub seller_part_number: Seq<char>,
    pub shipped_qty: Seq<char>,
}

impl DeepView for ItemElement {
    type V = ItemElementView;

    open spec fn deep_view(&self) -> ItemElementView {
        ItemElementView {
            seller_part_number: self.seller_part_number@,
            shipped_qty: self.shipped_qty@,
        }
    }
}

/// The lines of a package. The marketplace wants a single line written as an
/// object and several lines as an array.
#[derive(Debug, Clone)]
pub enum ItemUnion {
    ItemElement(ItemElement),
    ItemElementArray(Vec<ItemElement>),
}

pub enum ItemUnionView {
    ItemElement(ItemElementView),
    ItemElementArray(Seq<ItemElementView>),
}

impl DeepView for ItemUnion {
    type V = ItemUnionView;

    open spec fn deep_view(&self) -> ItemUnionView {
        match self {
            ItemUnion::ItemElement(item) => ItemUnionView::ItemElement(item.deep_view()),
            ItemUnion::ItemElementArray(items) => ItemUnionView::ItemElementArray(
                items.deep_view(),
            ),
        }
    }
}

#[derive(Debug, Clone)]
pub struct ItemList {
    pub item: ItemUnion,
}

/// A package of a shipment, as the marketplace is told of it.
#[derive(Debug, Clone)]
pub struct Package {
    pub tracking_number: String,
    pub ship_carrier: String,
    pub ship_service: String,
    pub item_list: ItemList,
}

pub struct PackageView {
    pub tracking_number: Seq<char>,
    pub ship_carrier: Seq<char>,
    pub ship_service: Seq<char>,
    pub item_list: ItemUnionView,
}

impl DeepView for Package {
    type V = PackageView;

    open spec fn deep_view(&self) -> PackageView {
        PackageView {
            tracking_number: self.tracking_number@,
            ship_carrier: self.ship_carrier@,
            ship_service: self.ship_service@,
            item_list: self.item_list.item.deep_view(),
        }
    }
}

impl Package {
    /// Starts a package that goes out with `carrier` by `service` under the
    /// tracking number `tracking`.
    pub fn new(carrier: ShipCarrier, service: &str, tracking: &str) -> (builder: PackageBuilder)
        ensures
            builder@ == PackageBuilderView::empty(carrier.deep_view(), service@, tracking@),
    {
        PackageBuilder::new(carrier, service, tracking)
    }
}

/// Collects the lines of a package.
pub struct PackageBuilder {
    tracking_number: String,
    ship_carrier: ShipCarrier,
    ship_service: String,
    items: Vec<ItemElement>,
}

pub struct PackageBuilderView {
    pub tracking_number: Seq<char>,
    pub ship_carrier: ShipCarrierView,
    pub ship_service: Seq<char>,
    pub items: Seq<ItemElementView>,
}

impl View for PackageBuilder {
    type V = PackageBuilderView;

    closed spec fn view(&self) -> PackageBuilderView {
        PackageBuilderView {
            tracking_number: self.tracking_number@,
            ship_carrier: self.ship_carrier.deep_view(),
            ship_service: self.ship_service@,
            items: self.items.deep_view(),
        }
    }
}

impl PackageBuilderView {
    /// A builder that holds no line yet.
    pub open spec fn empty(
        carrier: ShipCarrierView,
        service: Seq<char>,
        tracking: Seq<char>,
    ) -> PackageBuilderView {
        PackageBuilderView {
            tracking_number: tracking,
            ship_carrier: carrier,
            ship_service: service,
            items: Seq::empty(),
        }
    }

    /// The builder with one more line at the end.
    pub open spec fn with_item(self, seller_part_number: Seq<char>, qty: int) -> PackageBuilderView {
        PackageBuilderView {
            items: self.items.push(
                ItemElementView { seller_part_number, shipped_qty: signed_decimal(qty) },
            ),
            ..self
        }
    }

    /// The package that the collected lines make: none without a line, a
    /// package with the one line by itself, or a package with all the lines
    /// in the order in which they were added.
    pub open spec fn package(self) -> Option<PackageView> {
        if self.items.len() == 0 {
            None
        } else {
            Some(
                PackageView {
                    tracking_number: self.tracking_number,
                    ship_carrier: self.ship_carrier.name(),
                    ship_service: self.ship_service,
                    item_list: if self.items.len() == 1 {
                        ItemUnionView::ItemElement(self.items[0])
                    } else {
                        ItemUnionView::ItemElementArray(self.items)
                    },
                },
            )
        }
    }
}

impl PackageBuilder {
    /// A builder for a package that holds no line yet.
    pub fn new(carrier: ShipCarrier, service: &str, tracking: &str) -> (builder: PackageBuilder)
        ensures
            builder@ == PackageBuilderView::empty(carrier.deep_view(), service@, tracking@),
    {
        let builder = PackageBuilder {
            tracking_number: tracking.to_owned(),
            ship_carrier: carrier,
            ship_service: service.to_owned(),
            items: Vec::new(),
        };
        assert(builder.items.deep_view() =~= Seq::empty());
        builder
    }

    /// Adds a line: `qty` pieces of the part `seller_part_number`.
    pub fn add_item(&mut self, seller_part_number: &str, qty: i32) -> (builder: &mut Self)
        ensures
            builder@ == old(self)@.with_item(seller_part_number@, qty as int),
            final(self)@ == final(builder)@,
    {
        let ghost before = self.items.deep_view();
        let item = ItemElement {
            seller_part_number: seller_part_number.to_owned(),
            shipped_qty: i64_to_string(qty as i64),
        };
        self.items.push(item);
        assert(self.items.deep_view() =~= before.push(item.deep_view()));
        self
    }

    /// Hands out the package that the lines added so far make, and starts
    /// over: the builder keeps carrier, service and tracking number and holds
    /// no line afterwards. Without a line there is no package.
    pub fn finalize(&mut self) -> (package: Option<Package>)
        ensures
            package.deep_view() == old(self)@.package(),
            final(self)@ == PackageBuilderView::empty(
                old(self)@.ship_carrier,
                old(self)@.ship_service,
                old(self)@.tracking_number,
            ),
    {
        let mut taken = PackageBuilder {
            tracking_number: self.tracking_number.clone(),
            ship_carrier: self.ship_carrier.clone(),
            ship_service: self.ship_service.clone(),
            items: Vec::new(),
        };
        assert(taken.items.deep_view() =~= Seq::empty());
        std::mem::swap(self, &mut taken);
        let PackageBuilder { tracking_number, ship_carrier, ship_service, items } = taken;
        let mut items = items;
        if items.len() == 0 {
            return None;
        }
        let item_list = if items.len() == 1 {
            match items.pop() {
                Some(item) => ItemList { item: ItemUnion::ItemElement(item) },
                None => {
                    return None;
                },
            }
        } else {
            ItemList { item: ItemUnion::ItemElementArray(items) }
        };
        Some(
            Package {
                tracking_number,
                ship_carrier: ship_carrier.to_string(),
                ship_service,
                item_list,
            },
        )
    }
}

/// The packages of a shipment.
#[derive(Debug, Clone)]
pub struct PackageList {
    pub package: Vec<Package>,
}

/// The seller and the order that a shipment belongs to.
#[derive(Debug, Clone)]
pub struct ShipmentHeader {
    pub seller_id: String,
    pub so_number: i64,
}

#[derive(Debug, Clone)]
pub struct Shipment {
    pub header: ShipmentHeader,
    pub package_list: PackageList,
}

/// What a shipment notice says: who ships which order in which packages.
#[derive(Debug, Clone)]
pub struct ShipOrderActionValue {
    pub shipment: Shipment,
}

pub struct ShipOrderActionValueView {
    pub seller_id: Seq<char>,
    pub so_number: i64,
    pub packages: Seq<PackageView>,
}

impl DeepView for ShipOrderActionValue {
    type V = ShipOrderActionValueView;

    open spec fn deep_view(&self) -> ShipOrderActionValueView {
        ShipOrderActionValueView {
            seller_id: self.shipment.header.seller_id@,
            so_number: self.shipment.header.so_number,
            packages: self.shipment.package_list.package.deep_view(),
        }
    }
}

impl ShipOrderActionValueView {
    /// A notice for the order that lists no package yet.
    pub open spec fn empty(seller_id: Seq<char>, order_number: i64) -> ShipOrderActionValueView {
        ShipOrderActionValueView { seller_id, so_number: order_number, packages: Seq::empty() }
    }
}

impl ShipOrderActionValue {
    /// A notice for the order `order_number` of the seller `seller_id` that
    /// lists no package yet.
    pub fn new(seller_id: &str, order_number: i64) -> (value: ShipOrderActionValue)
        ensures
            value.deep_view() == ShipOrderActionValueView::empty(seller_id@, order_number),
    {
        let value = ShipOrderActionValue {
            shipment: Shipment {
                header: ShipmentHeader { seller_id: seller_id.to_owned(), so_number: order_number },
                package_list: PackageList { package: Vec::new() },
            },
        };
        assert(value.shipment.package_list.package.deep_view() =~= Seq::empty());
        value
    }
}

/// The body of a shipment notice.
#[derive(Debug, Clone)]
pub struct ShipOrderAction {
    pub action: UpdateStatusActionType,
    pub value: ShipOrderActionValue,
}

impl ShipOrderAction {
    /// Starts a shipment notice for the order `order_number` of the seller
    /// `seller_id`.
    pub fn new(seller_id: &str, order_number: i64) -> (builder: ShipOrderActionBuilder)
        ensures
            builder@ == ShipOrderActionValueView::empty(seller_id@, order_number),
    {
        ShipOrderActionBuilder::new(seller_id, order_number)
    }
}

/// Collects the packages of a shipment notice.
pub struct ShipOrderActionBuilder {
    inner: ShipOrderActionValue,
}

impl View for ShipOrderActionBuilder {
    type V = ShipOrderActionValueView;

    closed spec fn view(&self) -> ShipOrderActionValueView {
        self.inner.deep_view()
    }
}

impl ShipOrderActionBuilder {
    /// A builder for a notice that lists no package yet.
    pub fn new(seller_id: &str, order_number: i64) -> (builder: ShipOrderActionBuilder)
        ensures
            builder@ == ShipOrderActionValueView::empty(seller_id@, order_number),
    {
        ShipOrderActionBuilder { inner: ShipOrderActionValue::new(seller_id, order_number) }
    }

    /// Adds a package behind those already listed.
    pub fn add_package(&mut self, package: Package) -> (builder: &mut Self)
        ensures
            builder@ == (ShipOrderActionValueView {
                packages: old(self)@.packages.push(package.deep_view()),
                ..old(self)@
            }),
            final(self)@ == final(builder)@,
    {
        let ghost before = self.inner.shipment.package_list.package.deep_view();
        self.inner.shipment.package_list.package.push(package);
        assert(self.inner.shipment.package_list.package.deep_view() =~= before.push(
            package.deep_view(),
        ));
        self
    }

    /// Hands out the notice with the packages added so far, and starts over:
    /// the builder keeps seller and order and lists no package afterwards.
    pub fn finalize(&mut self) -> (action: ShipOrderAction)
        ensures
            action.action == UpdateStatusActionType::ShipOrder,
            action.value.deep_view() == old(self)@,
            final(self)@ == ShipOrderActionValueView::empty(
                old(self)@.seller_id,
                old(self)@.so_number,
            ),
    {
        let mut value = ShipOrderActionValue::new(
            self.inner.shipment.header.seller_id.as_str(),
            self.inner.shipment.header.so_number,
        );
        std::mem::swap(&mut self.inner, &mut value);
        ShipOrderAction { action: UpdateStatusActionType::ShipOrder, value }
    }
}

/// What the marketplace answers to a request to cancel an order.
#[derive(Debug)]
pub struct CancelOrderResponse {
    pub is_success_: String,
    pub result: Option<CancelOrderResponseResult>,
}

impl CancelOrderResponse {
    /// Whether the marketplace accepted the cancellation: its success flag is
    /// the text `true`.
    pub fn is_success(&self) -> (ok: bool)
        ensures
            ok == (self.is_success_@ == "true"@),
    {
        str_eq(self.is_success_.as_str(), "true")
    }
}

#[derive(Debug)]
pub struct CancelOrderResponseResult {
    pub order_number: String,
    pub seller_id: String,
    pub order_status: String,
}

/// What the marketplace answers to a shipment notice.
#[derive(Debug)]
pub struct ShipOrderResponse {
    /// The marketplace's own success flag. It reports that the update was
    /// received, not that every package was accepted.
    pub is_success_: bool,
    pub package_processing_summary: PackageProcessingSummary,
    pub result: ShipOrderResponseResult,
}

impl ShipOrderResponse {
    /// Whether every package of the notice was accepted: the summary counts
    /// no failure.
    pub fn is_success(&self) -> (ok: bool)
        ensures
            ok == (self.package_processing_summary.fail_count == 0),
    {
        self.package_processing_summary.fail_count == 0
    }

    /// The marketplace's own success flag, whatever the summary counts.
    pub fn is_success_flag(&self) -> (flag: bool)
        ensures
            flag == self.is_success_,
    {
        self.is_success_
    }
}

#[derive(Debug)]
pub struct PackageProcessingSummary {
    pub fail_count: i64,
    pub success_count: i64,
    pub total_package_count: i64,
}

#[derive(Debug)]
pub struct ShipOrderResponseResult {
    pub order_number: String,
    pub order_status: String,
    pub seller_id: String,
    pub shipment: ShipOrderResponseShipment,
}

#[derive(Debug)]
pub struct ShipOrderResponseShipment {
    pub package_list: Vec<ShipOrderResponsePackageList>,
}

#[derive(Debug)]
pub struct ShipOrderResponsePackageList {
    pub item_list: Vec<ShipOrderResponseItemList>,
    pub process_result: String,
    pub process_status: bool,
    pub ship_date: String,
    pub tracking_number: String,
}

#[derive(Debug)]
pub struct ShipOrderResponseItemList {
    pub newegg_item_number: Option<String>,
    pub seller_part_number: String,
    pub shipped_qty: i32,
}

} // verus!
