use cenyslovensko_api::product_price::{ProductPriceError, ProductPricesCurrentDayQuery, SortOrder};
use cenyslovensko_api::rpc_application::{
    plan_request, product_prices_response, rejection_response, vendor_response,
    version_gateway_outcome, version_response, MissingProductPricesGateway, MissingVendorGateway,
    ParamsInput, ProductPricesParams, RequestPlan, RpcApplication, RpcApplicationBuilder,
};
use cenyslovensko_api::rpc_protocol::{
    RpcResponse, PRODUCT_PRICES_CURRENT_DAY_GET_METHOD, VENDOR_GET_METHOD, VERSION_GET_METHOD,
};
use cenyslovensko_api::vendor::VendorError;
use cenyslovensko_api::version::{Version, VersionError};
use serde_json::Value;

fn json(text: &str) -> Value {
    serde_json::from_str(text).expect("test JSON should parse")
}

#[test]
fn creates_parse_error_response() {
    let response = RpcResponse::parse_error();
    assert_eq!(response.jsonrpc, "2.0");
    assert_eq!(response.id, Value::Null);
    assert!(response.result.is_none());
    assert_eq!(response.error.expect("error should be set").code, -32700);
}

#[test]
fn returns_version_for_version_get_method() {
    let plan = plan_request(VERSION_GET_METHOD, ParamsInput::Missing);
    assert_eq!(plan, RequestPlan::FetchVersion);

    let response = version_response(Value::from(1), Ok("0.1.370".into()));

    assert_eq!(response.error, None);
    assert_eq!(response.result, Some(json(r#"{ "version": "0.1.370" }"#)));
}

#[test]
fn returns_vendors_for_vendor_get_method() {
    let plan = plan_request(VENDOR_GET_METHOD, ParamsInput::Missing);
    assert_eq!(plan, RequestPlan::FetchVendors);
    let vendors = json(
        r#"[{"branch_id":"branch_1","branch_name":"Main Branch","address":{"city":"Bratislava","street_number":"123"},"company_id":"company_1","location":{"lat":48.8566,"lng":2.3522}}]"#,
    );

    let response = vendor_response(Value::from(1), Ok(vendors));

    assert_eq!(response.error, None);
    assert_eq!(
        response.result,
        Some(json(
            r#"{"vendors":[{"branch_id":"branch_1","branch_name":"Main Branch","address":{"city":"Bratislava","street_number":"123"},"company_id":"company_1","location":{"lat":48.8566,"lng":2.3522}}]}"#
        ))
    );
}

#[test]
fn returns_product_prices_for_current_day_method() {
    let params = ProductPricesParams {
        branch_ids: vec!["1061_50020188".into(), "1015_50020188".into()],
        order_by: Some("unit_price".into()),
        sort_order: Some(SortOrder::Asc),
        only_in_my_branches: Some(true),
        category_id: Some(2),
        group_by_vendor: Some(false),
        page: Some(0),
        size: Some(124),
    };

    let plan = plan_request(PRODUCT_PRICES_CURRENT_DAY_GET_METHOD, ParamsInput::Given(params));

    let expected = ProductPricesCurrentDayQuery::builder()
        .branch_ids(&["1061_50020188", "1015_50020188"])
        .order_by("unit_price")
        .sort_order(SortOrder::Asc)
        .only_in_my_branches(true)
        .category_id(2)
        .group_by_vendor(false)
        .page(0)
        .size(124)
        .build();
    assert_eq!(plan, RequestPlan::FetchProductPrices(expected));

    let page = json(r#"{"page":0,"size":124,"count":1,"content":[]}"#);
    let response = product_prices_response(Value::from(1), Ok(page));
    assert_eq!(response.error, None);
    assert_eq!(
        response.result,
        Some(json(r#"{"product_prices":{"page":0,"size":124,"count":1,"content":[]}}"#))
    );
}

#[test]
fn returns_invalid_params_for_missing_product_prices_params() {
    let plan = plan_request(PRODUCT_PRICES_CURRENT_DAY_GET_METHOD, ParamsInput::Missing);
    let error = match plan {
        RequestPlan::Reject(error) => error,
        other => panic!("expected a rejection, got {other:?}"),
    };
    let response = rejection_response(Value::from(1), error);

    assert!(response.result.is_none());
    let error = response.error.expect("error should be present");
    assert_eq!(error.code, -32602);
    assert!(error.message.contains("Missing params"));
}

#[test]
fn rejects_invalid_and_empty_product_prices_params() {
    let plan = plan_request(
        PRODUCT_PRICES_CURRENT_DAY_GET_METHOD,
        ParamsInput::Invalid("missing field `branchIds`".into()),
    );
    match plan {
        RequestPlan::Reject(error) => {
            assert_eq!(error.code, -32602);
            assert_eq!(
                error.message,
                "Invalid params for product-prices.current-day.get: missing field `branchIds`"
            );
        }
        other => panic!("expected a rejection, got {other:?}"),
    }

    let empty = ProductPricesParams {
        branch_ids: vec![],
        order_by: None,
        sort_order: None,
        only_in_my_branches: None,
        category_id: None,
        group_by_vendor: None,
        page: None,
        size: None,
    };
    match plan_request(PRODUCT_PRICES_CURRENT_DAY_GET_METHOD, ParamsInput::Given(empty)) {
        RequestPlan::Reject(error) => {
            assert_eq!(error.code, -32602);
            assert_eq!(error.message, "branchIds must contain at least one branch id");
        }
        other => panic!("expected a rejection, got {other:?}"),
    }
}

#[test]
fn returns_internal_error_for_vendor_failure() {
    let response = vendor_response(
        Value::from(1),
        Err(VendorError::Unavailable("vendor unavailable".into())),
    );

    assert!(response.result.is_none());
    assert_eq!(
        response.error.expect("error should be present").message,
        "Vendor source is unavailable: vendor unavailable"
    );
}

#[test]
fn returns_internal_errors_for_version_and_price_failures() {
    let outcome = version_gateway_outcome(Err(VersionError::NotFound));
    assert_eq!(outcome, Err("Version not found".to_string()));
    let response = version_response(Value::from("a"), outcome);
    let error = response.error.expect("error should be present");
    assert_eq!(error.code, -32000);
    assert_eq!(error.message, "Version not found");
    assert_eq!(response.id, Value::from("a"));

    let response = product_prices_response(Value::Null, Err(ProductPriceError::NotFound));
    assert!(response.result.is_none());
    assert_eq!(
        response.error.expect("error should be present").message,
        "Product prices not found"
    );

    assert_eq!(
        version_gateway_outcome(Ok(Version::new("0.1.370".into()))),
        Ok("0.1.370".to_string())
    );
}

#[test]
fn returns_method_not_found_for_unknown_method() {
    let plan = plan_request("unknown.method", ParamsInput::Missing);
    let error = match plan {
        RequestPlan::Reject(error) => error,
        other => panic!("expected a rejection, got {other:?}"),
    };
    let response = rejection_response(Value::from(1), error);

    assert!(response.result.is_none());
    assert_eq!(response.error.expect("error should be present").code, -32601);
}

#[test]
fn builder_constructs_application() {
    let app = RpcApplicationBuilder::new()
        .vendor_gateway("vendor gateway")
        .product_prices_gateway("price gateway")
        .version_gateway("version gateway")
        .build();

    assert_eq!(*app.version_gateway(), "version gateway");
    assert_eq!(*app.vendor_gateway(), "vendor gateway");
    assert_eq!(*app.product_prices_gateway(), "price gateway");

    let direct = RpcApplication::new(1, 2, 3);
    assert_eq!(
        (*direct.version_gateway(), *direct.vendor_gateway(), *direct.product_prices_gateway()),
        (1, 2, 3)
    );

    let partial: RpcApplicationBuilder<u8, MissingVendorGateway, MissingProductPricesGateway> =
        RpcApplicationBuilder::default().version_gateway(7u8);
    let app = partial.vendor_gateway(8u8).product_prices_gateway(9u8).build();
    assert_eq!(*app.product_prices_gateway(), 9u8);
}

#[test]
fn responses_carry_the_request_id() {
    let response = RpcResponse::success(Value::from(5), Value::from(true));
    assert_eq!(response.jsonrpc, "2.0");
    assert_eq!(response.id, Value::from(5));
    assert_eq!(response.result, Some(Value::from(true)));
    assert!(response.error.is_none());

    let response = RpcResponse::method_not_found(Value::from("x"));
    assert_eq!(response.id, Value::from("x"));
    let error = response.error.expect("error should be present");
    assert_eq!((error.code, error.message.as_str()), (-32601, "Method not found"));

    let response = RpcResponse::invalid_params(Value::from(2), "bad");
    assert_eq!(response.error.expect("error should be present").code, -32602);

    let response = RpcResponse::internal_error(Value::from(3), "boom");
    let error = response.error.expect("error should be present");
    assert_eq!((error.code, error.message.as_str()), (-32000, "boom"));
}

#[test]
fn gateway_order_and_new_give_the_same_application() {
    let first = RpcApplicationBuilder::new()
        .version_gateway(1u8)
        .vendor_gateway(2u16)
        .product_prices_gateway(3u32)
        .build();
    let second = RpcApplicationBuilder::new()
        .vendor_gateway(2u16)
        .product_prices_gateway(3u32)
        .version_gateway(1u8)
        .build();
    let direct = RpcApplication::new(1u8, 2u16, 3u32);
    for app in [&first, &second, &direct] {
        assert_eq!(
            (*app.version_gateway(), *app.vendor_gateway(), *app.product_prices_gateway()),
            (1u8, 2u16, 3u32)
        );
    }
}
