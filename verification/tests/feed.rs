use newegg::client::Method;
use newegg::client::NeweggClient;
use newegg::client::NeweggMarketplace;
use newegg::client::NeweggResponse;
use newegg::feed::message::InventoryAndPriceFeedFeedItem;
use newegg::feed::message::InventoryAndPriceFeedInventory;
use newegg::feed::message::InventoryAndPriceFeedMessage;
use newegg::feed::message::InventoryUpdateFeedInventory;
use newegg::feed::message::InventoryUpdateFeedItem;
use newegg::feed::message::InventoryUpdateFeedMessage;
use newegg::feed::types::XMLNS_XSI;
use newegg::feed::FeedResponse;
use newegg::feed::FeedResponseBody;
use newegg::feed::FeedResponseList;
use newegg::feed::GetRequestStatus;
use newegg::feed::RequestEnvelope;
use newegg::feed::RequestIdList;
use newegg::feed::RequestStatus;
use newegg::feed::ResponseEnvelopeInner;
use newegg::result::NeweggError;
use serde_json::Value;

fn pair(key: &str, value: &str) -> (String, String) {
    (key.to_string(), value.to_string())
}

fn client() -> NeweggClient {
    NeweggClient::new(NeweggMarketplace::Usa, "A006", "token-123", "secret-456").unwrap()
}

fn sorted(mut entries: Vec<(String, String)>) -> Vec<(String, String)> {
    entries.sort();
    entries
}

fn two_items() -> InventoryUpdateFeedMessage {
    InventoryUpdateFeedMessage {
        inventory: InventoryUpdateFeedInventory {
            item: vec![
                InventoryUpdateFeedItem {
                    seller_part_number: "edifier-r1280t-fba".to_string(),
                    inventory: "1".to_string(),
                    warehouse_location: "USA".to_string(),
                    ..Default::default()
                },
                InventoryUpdateFeedItem {
                    seller_part_number: "edifier-r1280db-wood".to_string(),
                    inventory: "2".to_string(),
                    warehouse_location: "USA".to_string(),
                    ..Default::default()
                },
            ],
        },
    }
}

fn text_of(value: &Value, key: &str) -> Result<String, String> {
    match value.get(key).and_then(|v| v.as_str()) {
        Some(text) => Ok(text.to_string()),
        None => Err(format!("missing field `{}`", key)),
    }
}

fn feed_response(text: &str) -> Result<FeedResponse, String> {
    let value: Value = serde_json::from_str(text).map_err(|e| e.to_string())?;
    let list = value["ResponseBody"]["ResponseList"].as_array().ok_or("missing field `ResponseList`")?;
    let mut response_list = Vec::new();
    for entry in list {
        response_list.push(FeedResponseList {
            request_date: text_of(entry, "RequestDate")?,
            request_id: text_of(entry, "RequestId")?,
            request_status: text_of(entry, "RequestStatus")?,
            request_type: text_of(entry, "RequestType")?,
        });
    }
    Ok(FeedResponse {
        is_success: value["IsSuccess"].as_bool().ok_or("missing field `IsSuccess`")?,
        operation_type: text_of(&value, "OperationType")?,
        response_body: FeedResponseBody { response_list },
        seller_id: text_of(&value, "SellerID")?,
    })
}

fn upstream(operation: &str, status: &str) -> NeweggResponse {
    let body = format!(
        "\u{feff}{{\"IsSuccess\":true,\"OperationType\":\"{}\",\"SellerID\":\"A006\",\
         \"ResponseBody\":{{\"ResponseList\":[{{\"RequestId\":\"23BB3VQ1GEPKL\",\
         \"RequestType\":\"INVENTORY_DATA\",\"RequestDate\":\"05/02/2020 01:20:00\",\
         \"RequestStatus\":\"{}\"}}]}}}}",
        operation, status
    );
    NeweggResponse {
        status: 200,
        url: "https://api.newegg.com/marketplace/datafeedmgmt/feeds/status?sellerid=A006".to_string(),
        body,
    }
}

#[test]
fn envelope_names_the_schema_instance_namespace() {
    let envelope =
        RequestEnvelope::new("BatchInventoryUpdate.xsd", &[("DocumentVersion", "2.0")], "Inventory", 1u8);
    assert_eq!(envelope.xmlns_xsi, "http://www.w3.org/2001/XMLSchema-instance");
    assert_eq!(XMLNS_XSI, "http://www.w3.org/2001/XMLSchema-instance");
    assert_eq!(envelope.xsd_name, "BatchInventoryUpdate.xsd");
    assert_eq!(envelope.header, vec![pair("DocumentVersion", "2.0")]);
    assert_eq!(envelope.message_type, "Inventory");
    assert_eq!(envelope.message, 1u8);
    assert_eq!(envelope.inventory_and_price_data_overwrite, None);
}

#[test]
fn envelope_without_headers_has_an_empty_header() {
    let envelope = RequestEnvelope::new("a.xsd", &[], "Inventory", ());
    assert!(envelope.header.is_empty());
}

#[test]
fn later_header_entry_replaces_earlier_one() {
    let envelope = RequestEnvelope::new(
        "a.xsd",
        &[("DocumentVersion", "1.0"), ("Other", "x"), ("DocumentVersion", "2.0"), ("Other", "y"), ("Third", "z")],
        "Inventory",
        (),
    );
    assert_eq!(
        sorted(envelope.header),
        vec![pair("DocumentVersion", "2.0"), pair("Other", "y"), pair("Third", "z")]
    );
}

#[test]
fn header_keys_differ_by_case() {
    let envelope = RequestEnvelope::new("a.xsd", &[("Key", "1"), ("key", "2")], "Inventory", ());
    assert_eq!(sorted(envelope.header), vec![pair("Key", "1"), pair("key", "2")]);
}

#[test]
fn overwrite_flag_is_written_as_a_capitalised_word() {
    let envelope = RequestEnvelope::new("Inventory.xsd", &[("DocumentVersion", "1.0")], "Inventory", 9u8);
    let on = envelope.inventory_and_price_data_overwrite(true);
    assert_eq!(on.inventory_and_price_data_overwrite, Some("True".to_string()));
    assert_eq!(on.xsd_name, "Inventory.xsd");
    assert_eq!(on.header, vec![pair("DocumentVersion", "1.0")]);
    assert_eq!(on.message_type, "Inventory");
    assert_eq!(on.message, 9u8);
    assert_eq!(on.xmlns_xsi, XMLNS_XSI);
    let off = on.inventory_and_price_data_overwrite(false);
    assert_eq!(off.inventory_and_price_data_overwrite, Some("False".to_string()));
}

#[test]
fn response_envelope_keeps_the_later_of_two_entries() {
    let inner = ResponseEnvelopeInner::new(
        &[("DocumentVersion", "1.0"), ("Other", "x"), ("DocumentVersion", "2.0")],
        "ProcessingReport",
        3u8,
    );
    assert_eq!(sorted(inner.header), vec![pair("DocumentVersion", "2.0"), pair("Other", "x")]);
    assert_eq!(inner.message_type, "ProcessingReport");
    assert_eq!(inner.message, 3u8);
    let inner = ResponseEnvelopeInner::new(&[], "", ());
    assert!(inner.header.is_empty());
    assert_eq!(inner.message_type, "");
}

#[test]
fn request_status_names() {
    let all = [
        (RequestStatus::Submitted, "SUBMITTED"),
        (RequestStatus::InProgress, "IN_PROGRESS"),
        (RequestStatus::Finished, "FINISHED"),
        (RequestStatus::Cancelled, "CANCELLED"),
    ];
    for (status, name) in all {
        assert_eq!(status.as_str(), name);
        assert_eq!(RequestStatus::from_str(name), Some(status));
    }
    assert_eq!(RequestStatus::from_str("Finished"), None);
    assert_eq!(RequestStatus::from_str("INPROGRESS"), None);
    assert_eq!(RequestStatus::from_str("CANCELED"), None);
    assert_eq!(RequestStatus::from_str(""), None);
}

#[test]
fn only_finished_and_cancelled_are_terminal() {
    assert!(!RequestStatus::Submitted.is_terminal());
    assert!(!RequestStatus::InProgress.is_terminal());
    assert!(RequestStatus::Finished.is_terminal());
    assert!(RequestStatus::Cancelled.is_terminal());
}

#[test]
fn status_never_goes_back() {
    let expected = [
        (RequestStatus::Submitted, RequestStatus::Submitted, true),
        (RequestStatus::Submitted, RequestStatus::InProgress, true),
        (RequestStatus::Submitted, RequestStatus::Finished, true),
        (RequestStatus::Submitted, RequestStatus::Cancelled, true),
        (RequestStatus::InProgress, RequestStatus::Submitted, false),
        (RequestStatus::InProgress, RequestStatus::InProgress, true),
        (RequestStatus::InProgress, RequestStatus::Finished, true),
        (RequestStatus::InProgress, RequestStatus::Cancelled, true),
        (RequestStatus::Finished, RequestStatus::Submitted, false),
        (RequestStatus::Finished, RequestStatus::InProgress, false),
        (RequestStatus::Finished, RequestStatus::Finished, true),
        (RequestStatus::Finished, RequestStatus::Cancelled, false),
        (RequestStatus::Cancelled, RequestStatus::Submitted, false),
        (RequestStatus::Cancelled, RequestStatus::InProgress, false),
        (RequestStatus::Cancelled, RequestStatus::Finished, false),
        (RequestStatus::Cancelled, RequestStatus::Cancelled, true),
    ];
    for (from, to, possible) in expected {
        assert_eq!(from.may_become(to), possible, "{:?} -> {:?}", from, to);
    }
}

#[test]
fn submit_feed_posts_the_envelope_with_its_request_type() {
    let envelope = RequestEnvelope::new(
        "BatchInventoryUpdate.xsd",
        &[("DocumentVersion", "2.0")],
        "Inventory",
        two_items(),
    );
    let request = client().submit_feed("INVENTORY_DATA", envelope);
    assert_eq!(request.method, Method::Post);
    assert_eq!(request.url, "https://api.newegg.com/marketplace/datafeedmgmt/feeds/submitfeed");
    assert_eq!(request.query, vec![pair("sellerid", "A006"), pair("requesttype", "INVENTORY_DATA")]);
    assert_eq!(
        request.headers,
        vec![
            pair("Authorization", "token-123"),
            pair("Accept", "application/json"),
            pair("SecretKey", "secret-456"),
            pair("Content-Type", "application/json"),
        ]
    );
    let body = request.body.unwrap().newegg_envelope;
    assert_eq!(body.message_type, "Inventory");
    assert_eq!(body.message.inventory.item.len(), 2);
    assert_eq!(body.message.inventory.item[1].seller_part_number, "edifier-r1280db-wood");
    assert_eq!(body.message.inventory.item[1].inventory, "2");
    assert_eq!(body.message.inventory.item[1].newegg_item_number, None);
}

#[test]
fn inventory_and_price_feed_says_that_it_overwrites() {
    let message = InventoryAndPriceFeedMessage {
        inventory: InventoryAndPriceFeedInventory {
            item: vec![InventoryAndPriceFeedFeedItem {
                seller_part_number: "edifier-r1280t-fba".to_string(),
                inventory: "1".to_string(),
                shipping: "default".to_string(),
                activation_mark: Some("True".to_string()),
                ..Default::default()
            }],
        },
    };
    let envelope = RequestEnvelope::new("Inventory.xsd", &[("DocumentVersion", "1.0")], "Inventory", message)
        .inventory_and_price_data_overwrite(true);
    let request = client().submit_feed("INVENTORY_AND_PRICE_DATA", envelope);
    assert_eq!(request.query[1], pair("requesttype", "INVENTORY_AND_PRICE_DATA"));
    let body = request.body.unwrap().newegg_envelope;
    assert_eq!(body.inventory_and_price_data_overwrite, Some("True".to_string()));
    assert_eq!(body.message.inventory.item[0].selling_price, None);
    assert_eq!(body.message.inventory.item[0].currency, None);
    assert_eq!(body.message.inventory.item[0].fulfillment_option, None);
}

#[test]
fn feed_status_query_is_put_with_its_operation() {
    let query = GetRequestStatus {
        request_id_list: RequestIdList { request_id: vec!["23BB3VQ1GEPKL".to_string()] },
        ..Default::default()
    };
    let request = client().get_feed_status(&query);
    assert_eq!(request.method, Method::Put);
    assert_eq!(request.url, "https://api.newegg.com/marketplace/datafeedmgmt/feeds/status");
    assert_eq!(request.query, vec![pair("sellerid", "A006")]);
    assert_eq!(request.headers.len(), 4);
    let body = request.body.unwrap();
    assert_eq!(body.operation_type, "GetFeedStatusRequest");
    assert_eq!(body.request_body.get_request_status.request_id_list.request_id, vec!["23BB3VQ1GEPKL"]);
    assert_eq!(body.request_body.get_request_status.max_count, None);
    assert_eq!(body.request_body.get_request_status.request_status, None);
}

#[test]
fn feed_result_is_read_under_its_id() {
    let request = client().get_feed_result("23BB3VQ1GEPKL");
    assert_eq!(request.method, Method::Get);
    assert_eq!(
        request.url,
        "https://api.newegg.com/marketplace/datafeedmgmt/feeds/result/23BB3VQ1GEPKL"
    );
    assert_eq!(request.query, vec![pair("sellerid", "A006")]);
    assert_eq!(request.headers.len(), 3);
    assert_eq!(request.body, None);
}

#[test]
fn submitted_feed_is_followed_to_its_end() {
    let envelope = RequestEnvelope::new(
        "BatchInventoryUpdate.xsd",
        &[("DocumentVersion", "2.0")],
        "Inventory",
        two_items(),
    );
    let submit = client().submit_feed("INVENTORY_DATA", envelope);
    assert_eq!(submit.body.unwrap().newegg_envelope.message.inventory.item.len(), 2);

    let submitted = upstream("SubmitFeedResponse", "SUBMITTED").get_response(feed_response).unwrap();
    assert!(submitted.is_success);
    assert_eq!(submitted.response_body.response_list.len(), 1);
    let id = submitted.response_body.response_list[0].request_id.clone();
    assert_eq!(id, "23BB3VQ1GEPKL");

    let query = GetRequestStatus {
        request_id_list: RequestIdList { request_id: vec![id.clone()] },
        ..Default::default()
    };
    let mut seen = submitted.response_body.response_list[0].status().unwrap();
    assert_eq!(seen, RequestStatus::Submitted);
    let mut polls = 0;
    for written in ["SUBMITTED", "IN_PROGRESS", "IN_PROGRESS", "FINISHED"] {
        assert!(!seen.is_terminal());
        let poll = client().get_feed_status(&query);
        assert_eq!(poll.body.unwrap().request_body.get_request_status.request_id_list.request_id[0], id);
        let answer = upstream("GetFeedStatusResponse", written).get_response(feed_response).unwrap();
        let entry = &answer.response_body.response_list[0];
        assert_eq!(entry.request_id, id);
        let next = entry.status().unwrap();
        assert!(seen.may_become(next));
        seen = next;
        polls += 1;
    }
    assert_eq!(polls, 4);
    assert_eq!(seen, RequestStatus::Finished);
    assert!(seen.is_terminal());
}

#[test]
fn unknown_status_is_no_status() {
    let answer = upstream("GetFeedStatusResponse", "VANISHED").get_response(feed_response).unwrap();
    assert_eq!(answer.response_body.response_list[0].request_status, "VANISHED");
    assert_eq!(answer.response_body.response_list[0].status(), None);
}

#[test]
fn rate_limited_poll_may_be_repeated() {
    let busy = NeweggResponse { status: 429, url: "u".to_string(), body: "slow down".to_string() };
    let error: NeweggError = busy.get_response(feed_response).unwrap_err();
    assert!(error.should_try_again());
    let gone = NeweggResponse { status: 404, url: "u".to_string(), body: String::new() };
    assert!(!gone.get_response(feed_response).unwrap_err().should_try_again());
}
