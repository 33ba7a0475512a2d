use cenyslovensko_api::http_source::{
    classify_status, current_day_prices_url, product_category_fetch_error,
    product_price_fetch_error, status_failure, vendor_fetch_error, version_fetch_error,
    FetchFailure, StatusClass,
};
use cenyslovensko_api::product_category::ProductCategoryError;
use cenyslovensko_api::vendor::VendorError;
use cenyslovensko_api::version::VersionError;
use cenyslovensko_api::product_price::{ProductPriceError, ProductPricesCurrentDayQuery, SortOrder};
use cenyslovensko_api::web_client::WebClientConfig;

#[test]
fn classifies_statuses_like_the_sources() {
    assert_eq!(classify_status(404), StatusClass::NotFound);
    assert_eq!(classify_status(500), StatusClass::Failure);
    assert_eq!(classify_status(400), StatusClass::Failure);
    assert_eq!(classify_status(599), StatusClass::Failure);
    assert_eq!(classify_status(200), StatusClass::Success);
    assert_eq!(classify_status(302), StatusClass::Success);
    assert_eq!(classify_status(600), StatusClass::Success);
}

#[test]
fn returns_invalid_query_for_missing_branch_ids() {
    let web_client = WebClientConfig::new("http://127.0.0.1:1/")
        .build()
        .expect("web client should build");

    let result = current_day_prices_url(
        &web_client,
        "product-prices/current-day",
        &ProductPricesCurrentDayQuery::builder().build(),
    );

    assert!(matches!(result, Err(ProductPriceError::InvalidQuery(_))));
}

#[test]
fn price_url_carries_the_query_params() {
    let web_client = WebClientConfig::new("http://127.0.0.1:8080")
        .build()
        .expect("web client should build");
    let query = ProductPricesCurrentDayQuery::builder()
        .branch_ids(&["1061_50020188", "1015_50020188"])
        .order_by("unit_price")
        .sort_order(SortOrder::Asc)
        .only_in_my_branches(true)
        .category_id(2)
        .group_by_vendor(false)
        .page(0)
        .size(124)
        .build();

    let url = current_day_prices_url(&web_client, "product-prices/current-day", &query)
        .expect("url should resolve");

    assert_eq!(
        url.as_str(),
        "http://127.0.0.1:8080/product-prices/current-day?branchIds=1061_50020188%2C1015_50020188&orderBy=unit_price&sortOrder=asc&onlyInMyBranches=true&categoryId=2&groupByVendor=false&page=0&size=124"
    );
}

#[test]
fn price_url_reports_an_unjoinable_path_as_unavailable() {
    let web_client = WebClientConfig::new("http://127.0.0.1:8080/")
        .build()
        .expect("web client should build");
    let query = ProductPricesCurrentDayQuery::builder().add_branch_id("1").build();

    let result = current_day_prices_url(&web_client, "http://[::1", &query);

    assert_eq!(
        result,
        Err(ProductPriceError::Unavailable(
            "Invalid path for base URI: http://[::1".to_string()
        ))
    );
}

#[test]
fn status_failure_follows_the_status_class() {
    assert_eq!(status_failure(404, "gone".to_string()), Some(FetchFailure::NotFound));
    assert_eq!(
        status_failure(503, "busy".to_string()),
        Some(FetchFailure::Unavailable("busy".to_string()))
    );
    assert_eq!(status_failure(200, "fine".to_string()), None);
}

#[test]
fn fetch_failures_map_to_each_source_error() {
    assert_eq!(version_fetch_error(FetchFailure::NotFound), VersionError::NotFound);
    assert_eq!(
        vendor_fetch_error(FetchFailure::Unavailable("down".to_string())),
        VendorError::Unavailable("down".to_string())
    );
    assert_eq!(
        product_category_fetch_error(FetchFailure::InvalidResponse("bad".to_string())),
        ProductCategoryError::InvalidResponse("bad".to_string())
    );
    assert_eq!(
        product_price_fetch_error(FetchFailure::Unavailable("x".to_string())),
        ProductPriceError::Unavailable("x".to_string())
    );
    assert_eq!(product_price_fetch_error(FetchFailure::NotFound), ProductPriceError::NotFound);
}
