//! The rules the HTTP sources share: how a response status is taken, and the
//! endpoint URL of a current-day price query.
use vstd::prelude::*;

use reqwest::Url;

use crate::product_category::ProductCategoryError;
use crate::product_price::{
    pair_views, query_params, ProductPriceError, ProductPricesCurrentDayQuery,
};
use crate::vendor::VendorError;
use crate::version::VersionError;
use crate::web_client::{joined_url, WebClient};

verus! {

/// How a source takes the status of a response.
#[derive(Debug, Clone, Copy, PartialEq, Eq, Structural)]
pub enum StatusClass {
    /// 404: the resource does not exist.
    NotFound,
    /// Any other client or server error (400 to 599): the source is unavailable.
    Failure,
    /// Anything else: the body is read.
    Success,
}

/// The class of status `code`.
pub open spec fn status_class(code: u16) -> StatusClass {
    if code == 404 {
        StatusClass::NotFound
    } else if 400 <= code <= 599 {
        StatusClass::Failure
    } else {
        StatusClass::Success
    }
}

/// Classifies an HTTP status code.
pub fn classify_status(code: u16) -> (r: StatusClass)
    ensures
        r == status_class(code),
{
    if code == 404 {
        StatusClass::NotFound
    } else if 400 <= code && code <= 599 {
        StatusClass::Failure
    } else {
        StatusClass::Success
    }
}

/// How fetching a source's resource failed.
#[derive(Debug, Clone, PartialEq, Eq)]
pub enum FetchFailure {
    /// The endpoint answered 404.
    NotFound,
    /// The endpoint could not be resolved or reached, or answered another
    /// error status; the text says why.
    Unavailable(String),
    /// The body is not what the source reads; the text says why.
    InvalidResponse(String),
}

/// The version error a failed fetch is reported as: the variant of the same
/// name, with the same text.
pub fn version_fetch_error(failure: FetchFailure) -> (r: VersionError)
    ensures
        match failure {
            FetchFailure::NotFound => r == VersionError::NotFound,
            FetchFailure::Unavailable(s) => r == VersionError::Unavailable(s),
            FetchFailure::InvalidResponse(s) => r == VersionError::InvalidResponse(s),
        },
{
    match failure {
        FetchFailure::NotFound => VersionError::NotFound,
        FetchFailure::Unavailable(s) => VersionError::Unavailable(s),
        FetchFailure::InvalidResponse(s) => VersionError::InvalidResponse(s),
    }
}

/// The vendor error a failed fetch is reported as: the variant of the same
/// name, with the same text.
pub fn vendor_fetch_error(failure: FetchFailure) -> (r: VendorError)
    ensures
        match failure {
            FetchFailure::NotFound => r == VendorError::NotFound,
            FetchFailure::Unavailable(s) => r == VendorError::Unavailable(s),
            FetchFailure::InvalidResponse(s) => r == VendorError::InvalidResponse(s),
        },
{
    match failure {
        FetchFailure::NotFound => VendorError::NotFound,
        FetchFailure::Unavailable(s) => VendorError::Unavailable(s),
        FetchFailure::InvalidResponse(s) => VendorError::InvalidResponse(s),
    }
}

/// The category error a failed fetch is reported as: the variant of the
/// same name, with the same text.
pub fn product_category_fetch_error(failure: FetchFailure) -> (r: ProductCategoryError)
    ensures
        match failure {
            FetchFailure::NotFound => r == ProductCategoryError::NotFound,
            FetchFailure::Unavailable(s) => r == ProductCategoryError::Unavailable(s),
            FetchFailure::InvalidResponse(s) => r == ProductCategoryError::InvalidResponse(s),
        },
{
    match failure {
        FetchFailure::NotFound => ProductCategoryError::NotFound,
        FetchFailure::Unavailable(s) => ProductCategoryError::Unavailable(s),
        FetchFailure::InvalidResponse(s) => ProductCategoryError::InvalidResponse(s),
    }
}

/// The price error a failed fetch is reported as: the variant of the same
/// name, with the same text.
pub fn product_price_fetch_error(failure: FetchFailure) -> (r: ProductPriceError)
    ensures
        match failure {
            FetchFailure::NotFound => r == ProductPriceError::NotFound,
            FetchFailure::Unavailable(s) => r == ProductPriceError::Unavailable(s),
            FetchFailure::InvalidResponse(s) => r == ProductPriceError::InvalidResponse(s),
        },
{
    match failure {
        FetchFailure::NotFound => ProductPriceError::NotFound,
        FetchFailure::Unavailable(s) => ProductPriceError::Unavailable(s),
        FetchFailure::InvalidResponse(s) => ProductPriceError::InvalidResponse(s),
    }
}

/// The failure a response status means, if any: 404 is `NotFound`, another
/// error status is `Unavailable` with `error_text`, anything else none.
pub fn status_failure(code: u16, error_text: String) -> (r: Option<FetchFailure>)
    ensures
        status_class(code) == StatusClass::NotFound ==> r == Some(FetchFailure::NotFound),
        status_class(code) == StatusClass::Failure ==> r == Some(
            FetchFailure::Unavailable(error_text),
        ),
        status_class(code) == StatusClass::Success ==> r is None,
{
    match classify_status(code) {
        StatusClass::NotFound => Some(FetchFailure::NotFound),
        StatusClass::Failure => Some(FetchFailure::Unavailable(error_text)),
        StatusClass::Success => None,
    }
}

/// Law: only status 404 means the resource is not found; every other status
/// from 400 to 599 is a failure of the source; every status below 400 or
/// above 599 lets the body be read.
pub proof fn lemma_status_classes(code: u16, class: StatusClass)
    requires
        call_ensures(classify_status, (code,), class),
    ensures
        class == StatusClass::NotFound <==> code == 404,
        class == StatusClass::Failure <==> (400 <= code <= 599 && code != 404),
        class == StatusClass::Success <==> (code < 400 || code > 599),
{
}

/// Law: a fetch fails as not found exactly on status 404, as unavailable
/// with the status error's text on every other status from 400 to 599, and
/// does not fail on any other status.
pub proof fn lemma_status_failures(code: u16, error_text: String, failure: Option<FetchFailure>)
    requires
        call_ensures(status_failure, (code, error_text), failure),
    ensures
        failure == Some(FetchFailure::NotFound) <==> code == 404,
        (400 <= code <= 599 && code != 404) ==> failure == Some(
            FetchFailure::Unavailable(error_text),
        ),
        failure is None <==> (code < 400 || code > 599),
{
}

/// The URL that appending one form-encoded `key=value` pair to the query of `url` gives.
pub uninterp spec fn url_with_query_pair(url: Url, key: Seq<char>, value: Seq<char>) -> Url;

/// Wraps `Url::query_pairs_mut` followed by `append_pair`; claims the result
/// is the named URL with the pair appended.
#[verifier::external_body]
fn append_query_pair(url: &mut Url, key: &str, value: &str)
    ensures
        *final(url) == url_with_query_pair(*old(url), key@, value@),
{
    url.query_pairs_mut().append_pair(key, value);
}

/// `url` with the pairs appended to its query, in order.
pub open spec fn with_query_pairs(url: Url, pairs: Seq<(Seq<char>, Seq<char>)>) -> Url
    decreases pairs.len(),
{
    if pairs.len() == 0 {
        url
    } else {
        url_with_query_pair(
            with_query_pairs(url, pairs.drop_last()),
            pairs.last().0,
            pairs.last().1,
        )
    }
}

/// The URL a current-day price query is fetched from: `path` resolved against
/// the base URI with the query's parameters appended. A query without branch
/// ids is refused before anything else; a path the base URI cannot join makes
/// the source unavailable.
pub fn current_day_prices_url(
    web_client: &WebClient,
    path: &str,
    query: &ProductPricesCurrentDayQuery,
) -> (r: Result<Url, ProductPriceError>)
    ensures
        query@.branch_ids.len() == 0 ==> (r matches Err(ProductPriceError::InvalidQuery(s))
            && s@ == "branch_ids cannot be empty"@),
        query@.branch_ids.len() > 0 && joined_url(web_client.base_uri_model(), path@) is None ==> (
        r matches Err(ProductPriceError::Unavailable(s)) && s@ == "Invalid path for base URI: "@
            + path@),
        query@.branch_ids.len() > 0 ==> (joined_url(web_client.base_uri_model(), path@) matches Some(
            u,
        ) ==> r == Ok::<Url, ProductPriceError>(with_query_pairs(u, query_params(query@)))),
{
    if query.branch_ids.len() == 0 {
        return Err(ProductPriceError::InvalidQuery(String::from_str("branch_ids cannot be empty")));
    }
    let mut endpoint = match web_client.resolve_url(path) {
        Ok(u) => u,
        Err(error) => {
            return Err(ProductPriceError::Unavailable(error.to_string()));
        },
    };
    let ghost base = endpoint;
    let params = query.to_query_params();
    let ghost pairs = pair_views(params@);
    let mut i: usize = 0;
    while i < params.len()
        invariant
            i <= params@.len(),
            pairs == pair_views(params@),
            pairs.len() == params@.len(),
            endpoint == with_query_pairs(base, pairs.take(i as int)),
        decreases params@.len() - i,
    {
        append_query_pair(&mut endpoint, params[i].0.as_str(), params[i].1.as_str());
        proof {
            let next = pairs.take(i + 1);
            assert(next.drop_last() =~= pairs.take(i as int));
            assert(next.last() == pairs[i as int]);
        }
        i = i + 1;
    }
    assert(pairs.take(params@.len() as int) =~= pairs);
    Ok(endpoint)
}

} // verus!
