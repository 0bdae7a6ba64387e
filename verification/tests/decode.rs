use newegg::client::strip_bom;
use newegg::client::NeweggResponse;
use newegg::client::BOM;
use newegg::feed::AdditionalInfo;
use newegg::feed::ErrorList;
use newegg::feed::ProcessingReport;
use newegg::feed::ProcessingReportMessage;
use newegg::feed::ProcessingResult;
use newegg::feed::ProcessingSummary;
use newegg::helpers::block_outcome;
use newegg::result::NeweggError;
use newegg::result::NeweggResult;
use newegg::types::IsSuccess;
use newegg::types::MaybeList;
use newegg::types::NeweggApiResponse;
use newegg::types::NeweggApiResponseWrapped;
use serde_json::Value;

fn response(status: u16, body: &str) -> NeweggResponse {
    NeweggResponse {
        status,
        url: "https://api.newegg.com/marketplace/ordermgmt/order/orderinfo?sellerid=A006".to_string(),
        body: body.to_string(),
    }
}

fn json(text: &str) -> Result<Value, String> {
    serde_json::from_str::<Value>(text).map_err(|e| e.to_string())
}

fn text_of(value: &Value, key: &str) -> Result<String, String> {
    match value.get(key).and_then(|v| v.as_str()) {
        Some(text) => Ok(text.to_string()),
        None => Err(format!("missing field `{}`", key)),
    }
}

fn optional_text_of(value: &Value, key: &str) -> Option<String> {
    value.get(key).and_then(|v| v.as_str()).map(|v| v.to_string())
}

fn maybe_list<T>(value: &Value, one: fn(&Value) -> Result<T, String>) -> Result<MaybeList<T>, String> {
    match value.as_array() {
        Some(items) => {
            let mut list = Vec::new();
            for item in items {
                list.push(one(item)?);
            }
            Ok(MaybeList::List(list))
        }
        None => Ok(MaybeList::Single(one(value)?)),
    }
}

fn description(value: &Value) -> Result<String, String> {
    match value.as_str() {
        Some(text) => Ok(text.to_string()),
        None => Err("expected a string".to_string()),
    }
}

fn processing_result(value: &Value) -> Result<ProcessingResult, String> {
    let info = value.get("AdditionalInfo").ok_or("missing field `AdditionalInfo`")?;
    let errors = value.get("ErrorList").ok_or("missing field `ErrorList`")?;
    let descriptions = errors.get("ErrorDescription").ok_or("missing field `ErrorDescription`")?;
    Ok(ProcessingResult {
        additional_info: AdditionalInfo {
            sub_category_id: optional_text_of(info, "SubCategoryID"),
            seller_part_number: text_of(info, "SellerPartNumber")?,
            manufacturer_part_number_or_isbn: optional_text_of(info, "ManufacturerPartNumberOrISBN"),
            upc: optional_text_of(info, "UPC"),
        },
        error_list: ErrorList { error_description: maybe_list(descriptions, description)? },
    })
}

fn processing_report_message(text: &str) -> Result<ProcessingReportMessage, String> {
    let value = json(text)?;
    let report = value.get("ProcessingReport").ok_or("missing field `ProcessingReport`")?;
    let summary = report.get("ProcessingSummary").ok_or("missing field `ProcessingSummary`")?;
    let result = report.get("Result").ok_or("missing field `Result`")?;
    Ok(ProcessingReportMessage {
        processing_report: ProcessingReport {
            original_message_name: text_of(report, "OriginalMessageName")?,
            status_code: text_of(report, "StatusCode")?,
            processing_summary: ProcessingSummary {
                processed_count: text_of(summary, "ProcessedCount")?,
                success_count: text_of(summary, "SuccessCount")?,
                with_error_count: text_of(summary, "WithErrorCount")?,
            },
            result: maybe_list(result, processing_result)?,
        },
    })
}

#[test]
fn test_deserialize_processing_report_message() {
    let json = r#"{
    "ProcessingReport": {
      "OriginalMessageName": "Ventmere_APIAutoFile.xml",
      "OriginalMessageType": "Inventory",
      "ProcessedStamp": "2020/05/02 01:20:00",
      "ProcessingSummary": {
        "ProcessedCount": "2",
        "SuccessCount": "1",
        "WithErrorCount": "1"
      },
      "Result": {
        "AdditionalInfo": {
          "CountryCode": "CAN",
          "SellerPartNumber": "edifier-r1280t-fba"
        },
        "ErrorList": {
          "ErrorDescription": "CEI0001:Can't find this item in the system, please create it first"
        }
      },
      "StatusCode": "ProcessReport"
    }
  }"#;
    let message: ProcessingReportMessage =
        response(200, json).get_response(processing_report_message).unwrap();
    let report = message.processing_report;
    assert_eq!(report.original_message_name, "Ventmere_APIAutoFile.xml");
    assert_eq!(report.status_code, "ProcessReport");
    assert_eq!(report.processing_summary.processed_count, "2");
    assert_eq!(report.processing_summary.success_count, "1");
    assert_eq!(report.processing_summary.with_error_count, "1");
    match report.result {
        MaybeList::Single(result) => {
            assert_eq!(result.additional_info.seller_part_number, "edifier-r1280t-fba");
            assert_eq!(result.additional_info.sub_category_id, None);
            match result.error_list.error_description {
                MaybeList::Single(text) => assert_eq!(
                    text,
                    "CEI0001:Can't find this item in the system, please create it first"
                ),
                MaybeList::List(_) => panic!("a single description was written"),
            }
        }
        MaybeList::List(_) => panic!("a single result was written"),
    }
}

#[test]
fn strip_bom_drops_exactly_one_mark() {
    assert_eq!(strip_bom("\u{feff}{}"), "{}");
    assert_eq!(strip_bom("{}"), "{}");
    assert_eq!(strip_bom(""), "");
    assert_eq!(strip_bom("\u{feff}"), "");
    assert_eq!(strip_bom("\u{feff}\u{feff}x"), "\u{feff}x");
    assert_eq!(strip_bom("x\u{feff}"), "x\u{feff}");
    assert_eq!(BOM, '\u{feff}');
}

#[test]
fn strip_bom_keeps_text_beyond_ascii() {
    assert_eq!(strip_bom("\u{feff}{\"Memo\":\"việt nam\"}"), "{\"Memo\":\"việt nam\"}");
    assert_eq!(strip_bom("việt"), "việt");
}

#[test]
fn body_with_mark_decodes_like_body_without() {
    let plain = r#"{"IsSuccess":true,"Count":3}"#;
    let marked = format!("\u{feff}{}", plain);
    let a: Value = response(200, plain).get_response(json).unwrap();
    let b: Value = response(200, &marked).get_response(json).unwrap();
    assert_eq!(a, b);
    assert_eq!(a["Count"], 3);
}

#[test]
fn failed_request_with_mark_reports_text_without_mark() {
    let outcome: NeweggResult<Value> = response(500, "\u{feff}oops").get_response(json);
    match outcome {
        Err(NeweggError::Request { path, status, body }) => {
            assert_eq!(
                path,
                "https://api.newegg.com/marketplace/ordermgmt/order/orderinfo?sellerid=A006"
            );
            assert_eq!(status, 500);
            assert_eq!(body, "oops");
        }
        other => panic!("unexpected outcome: {:?}", other),
    }
}

#[test]
fn empty_body_with_failure_status_is_request_error() {
    let outcome: NeweggResult<Value> = response(404, "").get_response(json);
    match outcome {
        Err(NeweggError::Request { status, body, .. }) => {
            assert_eq!(status, 404);
            assert_eq!(body, "");
        }
        other => panic!("unexpected outcome: {:?}", other),
    }
}

#[test]
fn failure_status_never_reaches_the_decoder() {
    let outcome: NeweggResult<Value> = response(503, r#"{"valid":"json"}"#)
        .get_response(|_text: &str| -> Result<Value, String> { panic!("decoder was called") });
    assert!(matches!(outcome, Err(NeweggError::Request { status: 503, .. })));
}

#[test]
fn other_success_statuses_are_failures_too() {
    let outcome: NeweggResult<Value> = response(201, "{}").get_response(json);
    assert!(matches!(outcome, Err(NeweggError::Request { status: 201, .. })));
    let outcome: NeweggResult<Value> = response(204, "").get_response(json);
    assert!(matches!(outcome, Err(NeweggError::Request { status: 204, .. })));
}

#[test]
fn invalid_json_is_deserialize_error_with_text_and_message() {
    let outcome: NeweggResult<Value> = response(200, "\u{feff}<html>busy</html>").get_response(json);
    match outcome {
        Err(NeweggError::Deserialize { msg, body }) => {
            assert_eq!(body, "<html>busy</html>");
            assert!(!msg.is_empty());
            assert_eq!(msg, "expected value at line 1 column 1");
        }
        other => panic!("unexpected outcome: {:?}", other),
    }
}

#[test]
fn empty_body_with_success_status_is_deserialize_error() {
    let outcome: NeweggResult<Value> = response(200, "").get_response(json);
    match outcome {
        Err(NeweggError::Deserialize { msg, body }) => {
            assert_eq!(body, "");
            assert!(!msg.is_empty());
        }
        other => panic!("unexpected outcome: {:?}", other),
    }
}

#[test]
fn valid_json_of_the_wrong_shape_is_deserialize_error() {
    let outcome: NeweggResult<ProcessingReportMessage> =
        response(200, r#"{"Other":1}"#).get_response(processing_report_message);
    match outcome {
        Err(NeweggError::Deserialize { msg, body }) => {
            assert_eq!(msg, "missing field `ProcessingReport`");
            assert_eq!(body, r#"{"Other":1}"#);
        }
        other => panic!("unexpected outcome: {:?}", other),
    }
}

#[test]
fn decoder_sees_the_text_without_mark() {
    let seen: String = response(200, "\u{feff}abc")
        .get_response(|text: &str| -> Result<String, String> { Ok(text.to_string()) })
        .unwrap();
    assert_eq!(seen, "abc");
}

fn indicator(text: &str) -> IsSuccess {
    let value = json(text).unwrap();
    let field = &value["IsSuccess"];
    match field.as_bool() {
        Some(flag) => IsSuccess::BoolValue(flag),
        None => IsSuccess::StringValue(field.as_str().unwrap().to_string()),
    }
}

fn envelope(is_success: IsSuccess) -> NeweggApiResponse<u8> {
    NeweggApiResponse {
        is_success,
        operation_type: "GetReportStatusResponse".to_string(),
        seller_id: Some("A006".to_string()),
        response_body: 7,
        memo: None,
    }
}

#[test]
fn success_indicator_reads_the_same_in_both_forms() {
    assert!(envelope(indicator(r#"{"IsSuccess":"true"}"#)).get_is_success());
    assert!(envelope(indicator(r#"{"IsSuccess":true}"#)).get_is_success());
    assert!(!envelope(indicator(r#"{"IsSuccess":"false"}"#)).get_is_success());
    assert!(!envelope(indicator(r#"{"IsSuccess":false}"#)).get_is_success());
}

#[test]
fn success_indicator_text_must_be_exactly_true() {
    assert!(IsSuccess::StringValue("true".to_string()).is_true());
    assert!(!IsSuccess::StringValue("True".to_string()).is_true());
    assert!(!IsSuccess::StringValue("TRUE".to_string()).is_true());
    assert!(!IsSuccess::StringValue(" true".to_string()).is_true());
    assert!(!IsSuccess::StringValue("".to_string()).is_true());
    assert!(!IsSuccess::StringValue("1".to_string()).is_true());
    assert!(IsSuccess::BoolValue(true).is_true());
    assert!(!IsSuccess::BoolValue(false).is_true());
}

#[test]
fn success_indicator_as_text() {
    assert_eq!(IsSuccess::StringValue("true".to_string()).into_text(), "true");
    assert_eq!(IsSuccess::StringValue("False".to_string()).into_text(), "False");
    assert_eq!(IsSuccess::StringValue(String::new()).into_text(), "");
    assert_eq!(IsSuccess::BoolValue(true).into_text(), "true");
    assert_eq!(IsSuccess::BoolValue(false).into_text(), "false");
    for form in [r#"{"IsSuccess":"true"}"#, r#"{"IsSuccess":true}"#] {
        assert_eq!(indicator(form).into_text(), "true");
    }
    for form in [r#"{"IsSuccess":"false"}"#, r#"{"IsSuccess":false}"#] {
        assert_eq!(indicator(form).into_text(), "false");
    }
}

#[test]
fn wrapped_response_hands_out_the_inner_one() {
    let wrapped = NeweggApiResponseWrapped { newegg_api_response: envelope(IsSuccess::BoolValue(true)) };
    assert!(wrapped.response().get_is_success());
    assert_eq!(wrapped.response().response_body, 7);
    assert_eq!(wrapped.response().operation_type, "GetReportStatusResponse");
}

#[test]
fn retry_only_failed_requests_with_three_statuses() {
    for status in 0..=u16::MAX {
        let error = NeweggError::Request { path: String::new(), status, body: String::new() };
        assert_eq!(error.should_try_again(), status == 429 || status == 500 || status == 503);
    }
}

#[test]
fn other_errors_are_never_retried() {
    assert!(!NeweggError::Deserialize { msg: "m".to_string(), body: "500".to_string() }.should_try_again());
    assert!(!NeweggError::Http("connection reset".to_string()).should_try_again());
    assert!(!NeweggError::Json("j".to_string()).should_try_again());
    assert!(!NeweggError::InvalidHeader("Authorization").should_try_again());
    assert!(!NeweggError::Url(url::Url::parse("nothing").unwrap_err()).should_try_again());
    assert!(!NeweggError::Ftp("f".to_string()).should_try_again());
    assert!(!NeweggError::FtpUrl("no host".to_string()).should_try_again());
    assert!(!NeweggError::Io("i".to_string()).should_try_again());
    assert!(!NeweggError::Runtime("r".to_string()).should_try_again());
}

#[test]
fn worker_outcome_passes_through() {
    let done: NeweggResult<Vec<u8>> = block_outcome(Ok(Ok(vec![1, 2, 3])));
    assert_eq!(done.unwrap(), vec![1, 2, 3]);
    let failed: NeweggResult<Vec<u8>> = block_outcome(Ok(Err(NeweggError::Ftp("550".to_string()))));
    assert!(matches!(failed, Err(NeweggError::Ftp(message)) if message == "550"));
}

#[test]
fn worker_that_did_not_finish_is_runtime_error() {
    let lost: NeweggResult<Vec<u8>> = block_outcome(Err("task 7 panicked".to_string()));
    match lost {
        Err(NeweggError::Runtime(reason)) => assert_eq!(reason, "task 7 panicked"),
        other => panic!("unexpected outcome: {:?}", other),
    }
}
