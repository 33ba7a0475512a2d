//! The JSON-RPC application: the type-state builder that gathers the three
//! gateways, the routing of a request to a gateway (or its rejection), and
//! the response made of a gateway's outcome.
use vstd::prelude::*;

use serde_json::Value;

use crate::product_price::{
    optional_text, product_price_error_text, ProductPriceError, ProductPricesCurrentDayQuery,
    QueryModel, SortOrder,
};
use crate::rpc_protocol::{
    is_failure, is_success, json_object_with, json_single_member, json_string, json_string_value,
    RpcError, RpcResponse, INTERNAL_ERROR_CODE, INVALID_PARAMS_CODE, METHOD_NOT_FOUND_CODE,
    PRODUCT_PRICES_CURRENT_DAY_GET_METHOD, VENDOR_GET_METHOD, VERSION_GET_METHOD,
};
use crate::text::{str_equals, string_views};
use crate::vendor::{vendor_error_text, VendorError};
use crate::version::{version_error_text, Version, VersionError};

verus! {

/// Placeholder for a version gateway not given yet.
pub struct MissingVersionGateway;

/// Placeholder for a vendor gateway not given yet.
pub struct MissingVendorGateway;

/// Placeholder for a product prices gateway not given yet.
pub struct MissingProductPricesGateway;

/// The JSON-RPC application over its three gateways.
pub struct RpcApplication<TVersionGateway, TVendorGateway, TProductPricesGateway> {
    version_gateway: TVersionGateway,
    vendor_gateway: TVendorGateway,
    product_prices_gateway: TProductPricesGateway,
}

/// Builder that collects the gateways of an [`RpcApplication`] in any order.
pub struct RpcApplicationBuilder<
    TVersionGateway = MissingVersionGateway,
    TVendorGateway = MissingVendorGateway,
    TProductPricesGateway = MissingProductPricesGateway,
> {
    version_gateway: TVersionGateway,
    vendor_gateway: TVendorGateway,
    product_prices_gateway: TProductPricesGateway,
}

impl RpcApplicationBuilder {
    pub fn new() -> (r: Self)
        ensures
            r.gateways() == (MissingVersionGateway, MissingVendorGateway, MissingProductPricesGateway),
    {
        RpcApplicationBuilder {
            version_gateway: MissingVersionGateway,
            vendor_gateway: MissingVendorGateway,
            product_prices_gateway: MissingProductPricesGateway,
        }
    }
}

impl Default for RpcApplicationBuilder {
    fn default() -> (r: Self)
        ensures
            r.gateways() == (MissingVersionGateway, MissingVendorGateway, MissingProductPricesGateway),
    {
        Self::new()
    }
}

impl<TVersionGateway, TVendorGateway, TProductPricesGateway> RpcApplicationBuilder<
    TVersionGateway,
    TVendorGateway,
    TProductPricesGateway,
> {
    /// The gateways gathered so far: version, vendor, product prices.
    pub closed spec fn gateways(&self) -> (TVersionGateway, TVendorGateway, TProductPricesGateway) {
        (self.version_gateway, self.vendor_gateway, self.product_prices_gateway)
    }

    pub fn version_gateway<TNewVersionGateway>(self, version_gateway: TNewVersionGateway) -> (r:
        RpcApplicationBuilder<TNewVersionGateway, TVendorGateway, TProductPricesGateway>)
        ensures
            r.gateways() == (version_gateway, self.gateways().1, self.gateways().2),
    {
        RpcApplicationBuilder {
            version_gateway,
            vendor_gateway: self.vendor_gateway,
            product_prices_gateway: self.product_prices_gateway,
        }
    }

    pub fn vendor_gateway<TNewVendorGateway>(self, vendor_gateway: TNewVendorGateway) -> (r:
        RpcApplicationBuilder<TVersionGateway, TNewVendorGateway, TProductPricesGateway>)
        ensures
            r.gateways() == (self.gateways().0, vendor_gateway, self.gateways().2),
    {
        RpcApplicationBuilder {
            version_gateway: self.version_gateway,
            vendor_gateway,
            product_prices_gateway: self.product_prices_gateway,
        }
    }

    pub fn product_prices_gateway<TNewProductPricesGateway>(
        self,
        product_prices_gateway: TNewProductPricesGateway,
    ) -> (r: RpcApplicationBuilder<TVersionGateway, TVendorGateway, TNewProductPricesGateway>)
        ensures
            r.gateways() == (self.gateways().0, self.gateways().1, product_prices_gateway),
    {
        RpcApplicationBuilder {
            version_gateway: self.version_gateway,
            vendor_gateway: self.vendor_gateway,
            product_prices_gateway,
        }
    }

    /// The application over the gathered gateways.
    pub fn build(self) -> (r: RpcApplication<TVersionGateway, TVendorGateway, TProductPricesGateway>)
        ensures
            r.gateways() == self.gateways(),
    {
        RpcApplication {
            version_gateway: self.version_gateway,
            vendor_gateway: self.vendor_gateway,
            product_prices_gateway: self.product_prices_gateway,
        }
    }
}

impl<TVersionGateway, TVendorGateway, TProductPricesGateway> RpcApplication<
    TVersionGateway,
    TVendorGateway,
    TProductPricesGateway,
> {
    /// The gateways of the application: version, vendor, product prices.
    pub closed spec fn gateways(&self) -> (TVersionGateway, TVendorGateway, TProductPricesGateway) {
        (self.version_gateway, self.vendor_gateway, self.product_prices_gateway)
    }

    pub fn new(
        version_gateway: TVersionGateway,
        vendor_gateway: TVendorGateway,
        product_prices_gateway: TProductPricesGateway,
    ) -> (r: Self)
        ensures
            r.gateways() == (version_gateway, vendor_gateway, product_prices_gateway),
    {
        RpcApplicationBuilder::new().version_gateway(version_gateway).vendor_gateway(
            vendor_gateway,
        ).product_prices_gateway(product_prices_gateway).build()
    }

    pub fn version_gateway(&self) -> (r: &TVersionGateway)
        ensures
            *r == self.gateways().0,
    {
        &self.version_gateway
    }

    pub fn vendor_gateway(&self) -> (r: &TVendorGateway)
        ensures
            *r == self.gateways().1,
    {
        &self.vendor_gateway
    }

    pub fn product_prices_gateway(&self) -> (r: &TProductPricesGateway)
        ensures
            *r == self.gateways().2,
    {
        &self.product_prices_gateway
    }
}

/// Law: the gateways can be given to the builder in any order; giving the
/// version gateway first or last builds the same application.
pub proof fn lemma_gateway_order_does_not_matter<TVersionGateway, TVendorGateway, TProductPricesGateway>(
    version_gateway: TVersionGateway,
    vendor_gateway: TVendorGateway,
    product_prices_gateway: TProductPricesGateway,
    empty_first: RpcApplicationBuilder,
    empty_second: RpcApplicationBuilder,
    with_version: RpcApplicationBuilder<TVersionGateway, MissingVendorGateway, MissingProductPricesGateway>,
    with_version_vendor: RpcApplicationBuilder<TVersionGateway, TVendorGateway, MissingProductPricesGateway>,
    full_first: RpcApplicationBuilder<TVersionGateway, TVendorGateway, TProductPricesGateway>,
    with_vendor: RpcApplicationBuilder<MissingVersionGateway, TVendorGateway, MissingProductPricesGateway>,
    with_vendor_prices: RpcApplicationBuilder<MissingVersionGateway, TVendorGateway, TProductPricesGateway>,
    full_second: RpcApplicationBuilder<TVersionGateway, TVendorGateway, TProductPricesGateway>,
    first: RpcApplication<TVersionGateway, TVendorGateway, TProductPricesGateway>,
    second: RpcApplication<TVersionGateway, TVendorGateway, TProductPricesGateway>,
)
    requires
        call_ensures(RpcApplicationBuilder::new, (), empty_first),
        call_ensures(
            RpcApplicationBuilder::<MissingVersionGateway, MissingVendorGateway, MissingProductPricesGateway>::version_gateway::<TVersionGateway>,
            (empty_first, version_gateway),
            with_version,
        ),
        call_ensures(
            RpcApplicationBuilder::<TVersionGateway, MissingVendorGateway, MissingProductPricesGateway>::vendor_gateway::<TVendorGateway>,
            (with_version, vendor_gateway),
            with_version_vendor,
        ),
        call_ensures(
            RpcApplicationBuilder::<TVersionGateway, TVendorGateway, MissingProductPricesGateway>::product_prices_gateway::<TProductPricesGateway>,
            (with_version_vendor, product_prices_gateway),
            full_first,
        ),
        call_ensures(
            RpcApplicationBuilder::<TVersionGateway, TVendorGateway, TProductPricesGateway>::build,
            (full_first,),
            first,
        ),
        call_ensures(RpcApplicationBuilder::new, (), empty_second),
        call_ensures(
            RpcApplicationBuilder::<MissingVersionGateway, MissingVendorGateway, MissingProductPricesGateway>::vendor_gateway::<TVendorGateway>,
            (empty_second, vendor_gateway),
            with_vendor,
        ),
        call_ensures(
            RpcApplicationBuilder::<MissingVersionGateway, TVendorGateway, MissingProductPricesGateway>::product_prices_gateway::<TProductPricesGateway>,
            (with_vendor, product_prices_gateway),
            with_vendor_prices,
        ),
        call_ensures(
            RpcApplicationBuilder::<MissingVersionGateway, TVendorGateway, TProductPricesGateway>::version_gateway::<TVersionGateway>,
            (with_vendor_prices, version_gateway),
            full_second,
        ),
        call_ensures(
            RpcApplicationBuilder::<TVersionGateway, TVendorGateway, TProductPricesGateway>::build,
            (full_second,),
            second,
        ),
    ensures
        first == second,
{
}

/// Law: `RpcApplication::new` gives the same application as the builder
/// given the same three gateways.
pub proof fn lemma_new_is_the_builder_chain<TVersionGateway, TVendorGateway, TProductPricesGateway>(
    version_gateway: TVersionGateway,
    vendor_gateway: TVendorGateway,
    product_prices_gateway: TProductPricesGateway,
    direct: RpcApplication<TVersionGateway, TVendorGateway, TProductPricesGateway>,
    empty: RpcApplicationBuilder,
    with_version: RpcApplicationBuilder<TVersionGateway, MissingVendorGateway, MissingProductPricesGateway>,
    with_version_vendor: RpcApplicationBuilder<TVersionGateway, TVendorGateway, MissingProductPricesGateway>,
    full: RpcApplicationBuilder<TVersionGateway, TVendorGateway, TProductPricesGateway>,
    built: RpcApplication<TVersionGateway, TVendorGateway, TProductPricesGateway>,
)
    requires
        call_ensures(
            RpcApplication::<TVersionGateway, TVendorGateway, TProductPricesGateway>::new,
            (version_gateway, vendor_gateway, product_prices_gateway),
            direct,
        ),
        call_ensures(RpcApplicationBuilder::new, (), empty),
        call_ensures(
            RpcApplicationBuilder::<MissingVersionGateway, MissingVendorGateway, MissingProductPricesGateway>::version_gateway::<TVersionGateway>,
            (empty, version_gateway),
            with_version,
        ),
        call_ensures(
            RpcApplicationBuilder::<TVersionGateway, MissingVendorGateway, MissingProductPricesGateway>::vendor_gateway::<TVendorGateway>,
            (with_version, vendor_gateway),
            with_version_vendor,
        ),
        call_ensures(
            RpcApplicationBuilder::<TVersionGateway, TVendorGateway, MissingProductPricesGateway>::product_prices_gateway::<TProductPricesGateway>,
            (with_version_vendor, product_prices_gateway),
            full,
        ),
        call_ensures(
            RpcApplicationBuilder::<TVersionGateway, TVendorGateway, TProductPricesGateway>::build,
            (full,),
            built,
        ),
    ensures
        direct == built,
{
}

/// The parameters of `product-prices.current-day.get`, once read from JSON.
#[derive(Debug, Clone, PartialEq, Eq)]
pub struct ProductPricesParams {
    pub branch_ids: Vec<String>,
    pub order_by: Option<String>,
    pub sort_order: Option<SortOrder>,
    pub only_in_my_branches: Option<bool>,
    pub category_id: Option<u64>,
    pub group_by_vendor: Option<bool>,
    pub page: Option<u64>,
    pub size: Option<u64>,
}

/// The query the parameters ask for.
pub open spec fn params_query(p: ProductPricesParams) -> QueryModel {
    QueryModel {
        branch_ids: string_views(p.branch_ids@),
        order_by: optional_text(p.order_by),
        sort_order: p.sort_order,
        only_in_my_branches: p.only_in_my_branches,
        category_id: p.category_id,
        group_by_vendor: p.group_by_vendor,
        page: p.page,
        size: p.size,
    }
}

/// What a request carried as parameters.
#[derive(Debug, Clone, PartialEq, Eq)]
pub enum ParamsInput {
    /// The request has no `params` member.
    Missing,
    /// The `params` member is not a parameter object; the text says why.
    Invalid(String),
    /// The `params` member read as a parameter object.
    Given(ProductPricesParams),
}

/// What the application does with a request.
#[derive(Debug, Clone, PartialEq, Eq)]
pub enum RequestPlan {
    FetchVersion,
    FetchVendors,
    FetchProductPrices(ProductPricesCurrentDayQuery),
    Reject(RpcError),
}

/// Whether `plan` rejects with `code` and `message`.
pub open spec fn rejects(plan: RequestPlan, code: i32, message: Seq<char>) -> bool {
    plan matches RequestPlan::Reject(e) && e.code == code && e.message@ == message
}

/// The plan for `product-prices.current-day.get` with `params`.
pub open spec fn product_prices_plan_ok(plan: RequestPlan, params: ParamsInput) -> bool {
    match params {
        ParamsInput::Missing => rejects(
            plan,
            INVALID_PARAMS_CODE,
            "Missing params for product-prices.current-day.get"@,
        ),
        ParamsInput::Invalid(reason) => rejects(
            plan,
            INVALID_PARAMS_CODE,
            "Invalid params for product-prices.current-day.get: "@ + reason@,
        ),
        ParamsInput::Given(p) => if p.branch_ids@.len() == 0 {
            rejects(plan, INVALID_PARAMS_CODE, "branchIds must contain at least one branch id"@)
        } else {
            plan matches RequestPlan::FetchProductPrices(q) && q@ == params_query(p)
        },
    }
}

/// The plan for a request calling `method` with `params`: the version and
/// vendor methods go to their gateways, the price method to the price gateway
/// when its parameters hold at least one branch id, anything else is rejected.
pub open spec fn plan_ok(plan: RequestPlan, method: Seq<char>, params: ParamsInput) -> bool {
    if method == VERSION_GET_METHOD@ {
        plan is FetchVersion
    } else if method == VENDOR_GET_METHOD@ {
        plan is FetchVendors
    } else if method == PRODUCT_PRICES_CURRENT_DAY_GET_METHOD@ {
        product_prices_plan_ok(plan, params)
    } else {
        rejects(plan, METHOD_NOT_FOUND_CODE, "Method not found"@)
    }
}

/// Law: the price gateway is only ever asked for a query that names at least
/// one branch, and only for `product-prices.current-day.get`; so a planned
/// price request is never refused by the source as an invalid query.
pub proof fn lemma_planned_price_query_has_branch_ids(
    plan: RequestPlan,
    method: Seq<char>,
    params: ParamsInput,
)
    requires
        plan_ok(plan, method, params),
        plan is FetchProductPrices,
    ensures
        method == PRODUCT_PRICES_CURRENT_DAY_GET_METHOD@,
        params matches ParamsInput::Given(p) && plan->FetchProductPrices_0@ == params_query(p),
        plan->FetchProductPrices_0@.branch_ids.len() > 0,
{
}

/// Law: a request for a method other than the three known ones is answered
/// with the method-not-found error and reaches no gateway.
pub proof fn lemma_unknown_method_is_rejected(plan: RequestPlan, method: Seq<char>, params: ParamsInput)
    requires
        plan_ok(plan, method, params),
        method != VERSION_GET_METHOD@,
        method != VENDOR_GET_METHOD@,
        method != PRODUCT_PRICES_CURRENT_DAY_GET_METHOD@,
    ensures
        rejects(plan, METHOD_NOT_FOUND_CODE, "Method not found"@),
{
}

/// Law: a price request with at least one branch id is planned as a fetch
/// whose query carries every given parameter unchanged, field by field.
pub proof fn lemma_price_query_carries_every_parameter(
    method: &str,
    params: ParamsInput,
    plan: RequestPlan,
)
    requires
        call_ensures(plan_request, (method, params), plan),
        method@ == PRODUCT_PRICES_CURRENT_DAY_GET_METHOD@,
        params is Given,
        params->Given_0.branch_ids@.len() > 0,
    ensures
        plan matches RequestPlan::FetchProductPrices(q) && {
            let p = params->Given_0;
            &&& q@.branch_ids == p.branch_ids@.map_values(|s: String| s@)
            &&& q@.order_by == (match p.order_by {
                Some(s) => Some(s@),
                None => None,
            })
            &&& q.sort_order == p.sort_order
            &&& q.only_in_my_branches == p.only_in_my_branches
            &&& q.category_id == p.category_id
            &&& q.group_by_vendor == p.group_by_vendor
            &&& q.page == p.page
            &&& q.size == p.size
        },
{
    reveal_strlit("version.get");
    reveal_strlit("vendor.get");
    reveal_strlit("product-prices.current-day.get");
    assert(VERSION_GET_METHOD@.len() != PRODUCT_PRICES_CURRENT_DAY_GET_METHOD@.len());
    assert(VENDOR_GET_METHOD@.len() != PRODUCT_PRICES_CURRENT_DAY_GET_METHOD@.len());
}

fn rejection(code: i32, message: String) -> (r: RequestPlan)
    ensures
        rejects(r, code, message@),
{
    RequestPlan::Reject(RpcError { code, message })
}

fn plan_product_prices(params: ParamsInput) -> (r: RequestPlan)
    ensures
        product_prices_plan_ok(r, params),
{
    match params {
        ParamsInput::Missing => rejection(
            INVALID_PARAMS_CODE,
            String::from_str("Missing params for product-prices.current-day.get"),
        ),
        ParamsInput::Invalid(reason) => {
            let mut message = String::from_str(
                "Invalid params for product-prices.current-day.get: ",
            );
            message.append(reason.as_str());
            rejection(INVALID_PARAMS_CODE, message)
        },
        ParamsInput::Given(p) => {
            if p.branch_ids.len() == 0 {
                rejection(
                    INVALID_PARAMS_CODE,
                    String::from_str("branchIds must contain at least one branch id"),
                )
            } else {
                let query = ProductPricesCurrentDayQuery {
                    branch_ids: p.branch_ids,
                    order_by: p.order_by,
                    sort_order: p.sort_order,
                    only_in_my_branches: p.only_in_my_branches,
                    category_id: p.category_id,
                    group_by_vendor: p.group_by_vendor,
                    page: p.page,
                    size: p.size,
                };
                RequestPlan::FetchProductPrices(query)
            }
        },
    }
}

/// Decides what to do with a request calling `method` with `params`.
pub fn plan_request(method: &str, params: ParamsInput) -> (r: RequestPlan)
    ensures
        plan_ok(r, method@, params),
{
    if str_equals(method, VERSION_GET_METHOD) {
        RequestPlan::FetchVersion
    } else if str_equals(method, VENDOR_GET_METHOD) {
        RequestPlan::FetchVendors
    } else if str_equals(method, PRODUCT_PRICES_CURRENT_DAY_GET_METHOD) {
        plan_product_prices(params)
    } else {
        rejection(METHOD_NOT_FOUND_CODE, String::from_str("Method not found"))
    }
}

/// The response to a rejected request.
pub fn rejection_response(id: Value, error: RpcError) -> (r: RpcResponse)
    ensures
        is_failure(r, id, error.code, error.message@),
{
    RpcResponse::error(id, error.code, error.message.as_str())
}

/// What the version gateway reports of the version source: the version text,
/// or the error's message.
pub fn version_gateway_outcome(outcome: Result<Version, VersionError>) -> (r: Result<String, String>)
    ensures
        outcome matches Ok(v) ==> r matches Ok(s) && s@ == v@,
        outcome matches Err(e) ==> r matches Err(s) && s@ == version_error_text(e),
{
    match outcome {
        Ok(v) => Ok(v.to_string()),
        Err(e) => Err(e.to_string()),
    }
}

/// The response to `version.get`: `{"version": <version>}`, or an internal
/// error with the gateway's message.
pub fn version_response(id: Value, outcome: Result<String, String>) -> (r: RpcResponse)
    ensures
        outcome matches Ok(v) ==> is_success(
            r,
            id,
            json_single_member("version"@, json_string_value(v@)),
        ),
        outcome matches Err(e) ==> is_failure(r, id, INTERNAL_ERROR_CODE, e@),
{
    match outcome {
        Ok(version) => RpcResponse::success(id, json_object_with("version", json_string(version))),
        Err(error) => RpcResponse::internal_error(id, error.as_str()),
    }
}

/// The response to `vendor.get`: `{"vendors": <vendors>}` with the vendors
/// as JSON, or an internal error with the error's message.
pub fn vendor_response(id: Value, outcome: Result<Value, VendorError>) -> (r: RpcResponse)
    ensures
        outcome matches Ok(v) ==> is_success(r, id, json_single_member("vendors"@, v)),
        outcome matches Err(e) ==> is_failure(r, id, INTERNAL_ERROR_CODE, vendor_error_text(e)),
{
    match outcome {
        Ok(vendors) => RpcResponse::success(id, json_object_with("vendors", vendors)),
        Err(error) => RpcResponse::internal_error(id, error.to_string().as_str()),
    }
}

/// The response to `product-prices.current-day.get`: `{"product_prices":
/// <page>}` with the page as JSON, or an internal error with the error's message.
pub fn product_prices_response(id: Value, outcome: Result<Value, ProductPriceError>) -> (r:
    RpcResponse)
    ensures
        outcome matches Ok(v) ==> is_success(r, id, json_single_member("product_prices"@, v)),
        outcome matches Err(e) ==> is_failure(
            r,
            id,
            INTERNAL_ERROR_CODE,
            product_price_error_text(e),
        ),
{
    match outcome {
        Ok(page) => RpcResponse::success(id, json_object_with("product_prices", page)),
        Err(error) => RpcResponse::internal_error(id, error.to_string().as_str()),
    }
}

} // verus!
