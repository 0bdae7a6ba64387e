//! Order management: order queries, cancellation and shipment.

use vstd::prelude::*;
use crate::client::Method;
use crate::client::NeweggClient;
use crate::client::PreparedRequest;
use crate::result::NeweggError;
use crate::result::NeweggResult;
use crate::text::concat_strs;
use crate::text::i64_to_string;
use crate::text::signed_decimal;

pub mod types;

pub use self::types::CancelOrderAction;
pub use self::types::CancelOrderReasonCode;
pub use self::types::CancelOrderResponse;
pub use self::types::CancelOrderResponseResult;
pub use self::types::GetOrderInfoRequest;
pub use self::types::GetOrderInfoRequestBuilder;
pub use self::types::GetOrderInfoRequestView;
pub use self::types::GetOrderInfoResponse;
pub use self::types::ItemElement;
pub use self::types::ItemElementView;
pub use self::types::ItemList;
pub use self::types::ItemUnion;
pub use self::types::ItemUnionView;
pub use self::types::OrderNumberList;
pub use self::types::OrderStatus;
pub use self::types::OrderTypeFilter;
pub use self::types::Package;
pub use self::types::PackageBuilder;
pub use self::types::PackageBuilderView;
pub use self::types::PackageInfoList;
pub use self::types::PackageInfoListItemInfoList;
pub use self::types::PackageList;
pub use self::types::PackageProcessingSummary;
pub use self::types::PackageView;
pub use self::types::PageInfo;
pub use self::types::PremierOrderFilter;
pub use self::types::RequestBody;
pub use self::types::RequestCriteria;
pub use self::types::RequestCriteriaView;
pub use self::types::ResponseBody;
pub use self::types::SellerOrderNumberList;
pub use self::types::ShipCarrier;
pub use self::types::ShipCarrierView;
pub use self::types::ShipOrderAction;
pub use self::types::ShipOrderActionBuilder;
pub use self::types::ShipOrderActionValue;
pub use self::types::ShipOrderActionValueView;
pub use self::types::ShipOrderResponse;
pub use self::types::ShipOrderResponseItemList;
pub use self::types::ShipOrderResponsePackageList;
pub use self::types::ShipOrderResponseResult;
pub use self::types::ShipOrderResponseShipment;
pub use self::types::Shipment;
pub use self::types::ShipmentHeader;
pub use self::types::UpdateStatusActionType;

verus! {

/// The path under which the status of one order is updated.
pub open spec fn order_status_path(order_number: i64) -> Seq<char> {
    "/ordermgmt/orderstatus/orders/"@ + signed_decimal(order_number as int)
}

impl NeweggClient {
    /// The request that asks for the orders which `request` selects.
    ///
    /// On the USA marketplace a query without a status selects the unshipped
    /// orders.
    pub fn get_order_info<'a>(&self, request: &'a GetOrderInfoRequest) -> (prepared: PreparedRequest<
        &'a GetOrderInfoRequest,
    >)
        ensures
            self.sends(Method::Put, "/ordermgmt/order/orderinfo"@, Seq::empty(), request, prepared),
    {
        let prepared = self.request(Method::Put, "/ordermgmt/order/orderinfo").json(request);
        assert(self.spec_query() + Seq::empty() =~= self.spec_query());
        prepared
    }

    /// The request that cancels the order `order_number` for `reason`.
    pub fn cancel_order(&self, order_number: i64, reason: CancelOrderReasonCode) -> (prepared:
        PreparedRequest<CancelOrderAction>)
        ensures
            prepared.body is Some,
            prepared.body->0.action == UpdateStatusActionType::CancelOrder,
            prepared.body->0.value == reason,
            self.sends(
                Method::Put,
                order_status_path(order_number),
                Seq::empty(),
                prepared.body->0,
                prepared,
            ),
    {
        let path = concat_strs("/ordermgmt/orderstatus/orders/", i64_to_string(order_number).as_str());
        let prepared = self.request(Method::Put, path.as_str()).json(CancelOrderAction::new(reason));
        assert(self.spec_query() + Seq::empty() =~= self.spec_query());
        prepared
    }

    /// The request that reports the shipment `action` of the order
    /// `order_number`.
    pub fn ship_order<'a>(&self, order_number: i64, action: &'a ShipOrderAction) -> (prepared:
        PreparedRequest<&'a ShipOrderAction>)
        ensures
            self.sends(Method::Put, order_status_path(order_number), Seq::empty(), action, prepared),
    {
        let path = concat_strs("/ordermgmt/orderstatus/orders/", i64_to_string(order_number).as_str());
        let prepared = self.request(Method::Put, path.as_str()).json(action);
        assert(self.spec_query() + Seq::empty() =~= self.spec_query());
        prepared
    }
}

/// What becomes of an answered cancellation: the answer itself where the
/// marketplace accepted the cancellation, and otherwise an error that holds
/// the answer.
pub fn cancel_order_outcome(response: CancelOrderResponse) -> (outcome: NeweggResult<
    CancelOrderResponse,
>)
    ensures
        match outcome {
            Ok(accepted) => accepted == response && response.is_success_@ == "true"@,
            Err(error) => error == NeweggError::CancelOrderNotSuccess(response)
                && response.is_success_@ != "true"@,
        },
{
    if response.is_success() {
        Ok(response)
    } else {
        Err(NeweggError::CancelOrderNotSuccess(response))
    }
}

/// What becomes of an answered shipment notice: the answer itself where no
/// package failed, and otherwise an error that holds the answer. The
/// marketplace's own success flag does not decide; it is true either way.
pub fn ship_order_outcome(response: ShipOrderResponse) -> (outcome: NeweggResult<ShipOrderResponse>)
    ensures
        match outcome {
            Ok(accepted) => accepted == response
                && response.package_processing_summary.fail_count == 0,
            Err(error) => error == NeweggError::ShipOrderNotSuccess(response)
                && response.package_processing_summary.fail_count != 0,
        },
{
    if response.is_success() {
        Ok(response)
    } else {
        Err(NeweggError::ShipOrderNotSuccess(response))
    }
}

/// The page to ask for after page `page` came back with `page_len` orders:
/// the next one, or none once a page comes back empty. Pages are numbered
/// from 1, and no page follows the last number there is.
pub fn next_order_page(page: i32, page_len: usize) -> (next: Option<i32>)
    ensures
        next == if page_len == 0 || page == i32::MAX {
            None
        } else {
            Some((page + 1) as i32)
        },
{
    if page_len == 0 || page == i32::MAX {
        None
    } else {
        Some(page + 1)
    }
}

} // verus!
