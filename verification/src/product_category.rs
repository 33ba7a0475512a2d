//! Product categories: the domain tree, the shape the API answers with, the
//! conversion between them, and the errors of the category source.
use vstd::prelude::*;

use crate::text::{join_strings, joined, string_views};

verus! {

broadcast use vstd::std_specs::vec::axiom_spec_into_iter;

/// The content of a product type.
pub struct ProductTypeModel {
    pub id: Seq<char>,
    pub product_type_name: Seq<char>,
}

/// The content of a product subcategory.
pub struct ProductSubcategoryModel {
    pub id: Seq<char>,
    pub subcategory_name: Seq<char>,
    pub types: Seq<ProductTypeModel>,
}

/// The content of a product category.
pub struct ProductCategoryModel {
    pub id: Seq<char>,
    pub category_name: Seq<char>,
    pub subcategories: Seq<ProductSubcategoryModel>,
}

pub struct ProductCategory {
    pub id: String,
    pub category_name: String,
    pub subcategories: Vec<ProductSubcategory>,
}

pub struct ProductSubcategory {
    pub id: String,
    pub subcategory_name: String,
    pub types: Vec<ProductType>,
}

pub struct ProductType {
    pub id: String,
    pub product_type_name: String,
}

impl View for ProductType {
    type V = ProductTypeModel;

    open spec fn view(&self) -> ProductTypeModel {
        ProductTypeModel { id: self.id@, product_type_name: self.product_type_name@ }
    }
}

impl View for ProductSubcategory {
    type V = ProductSubcategoryModel;

    open spec fn view(&self) -> ProductSubcategoryModel {
        ProductSubcategoryModel {
            id: self.id@,
            subcategory_name: self.subcategory_name@,
            types: self.types@.map_values(|t: ProductType| t@),
        }
    }
}

impl View for ProductCategory {
    type V = ProductCategoryModel;

    open spec fn view(&self) -> ProductCategoryModel {
        ProductCategoryModel {
            id: self.id@,
            category_name: self.category_name@,
            subcategories: self.subcategories@.map_values(|s: ProductSubcategory| s@),
        }
    }
}

/// A product category as the category endpoint answers it.
#[derive(Debug, Clone, PartialEq, Eq)]
pub struct ProductCategoryResponse {
    pub id: String,
    pub category_name: String,
    pub subcategories: Vec<ProductSubcategoryResponse>,
}

/// A product subcategory as the category endpoint answers it.
#[derive(Debug, Clone, PartialEq, Eq)]
pub struct ProductSubcategoryResponse {
    pub id: String,
    pub subcategory_name: String,
    pub types: Vec<ProductTypeResponse>,
}

/// A product type as the category endpoint answers it.
#[derive(Debug, Clone, PartialEq, Eq)]
pub struct ProductTypeResponse {
    pub id: String,
    pub product_type_name: String,
}

impl View for ProductTypeResponse {
    type V = ProductTypeModel;

    open spec fn view(&self) -> ProductTypeModel {
        ProductTypeModel { id: self.id@, product_type_name: self.product_type_name@ }
    }
}

impl View for ProductSubcategoryResponse {
    type V = ProductSubcategoryModel;

    open spec fn view(&self) -> ProductSubcategoryModel {
        ProductSubcategoryModel {
            id: self.id@,
            subcategory_name: self.subcategory_name@,
            types: self.types@.map_values(|t: ProductTypeResponse| t@),
        }
    }
}

impl View for ProductCategoryResponse {
    type V = ProductCategoryModel;

    open spec fn view(&self) -> ProductCategoryModel {
        ProductCategoryModel {
            id: self.id@,
            category_name: self.category_name@,
            subcategories: self.subcategories@.map_values(|s: ProductSubcategoryResponse| s@),
        }
    }
}

/// What `{:?}` writes for a text: the text in double quotes, with the
/// characters that `str`'s `Debug` escapes written as escapes.
pub uninterp spec fn debug_text(text: Seq<char>) -> Seq<char>;

/// Wraps `<str as Debug>::fmt`; claims the result is the named debug text of `text`.
#[verifier::external_body]
fn debug_quoted(text: &str) -> (r: String)
    ensures
        r@ == debug_text(text@),
{
    format!("{:?}", text)
}

/// What `{:?}` writes for a list whose items are written `items`.
pub open spec fn list_debug(items: Seq<Seq<char>>) -> Seq<char> {
    "["@ + joined(items, ", "@) + "]"@
}

/// What `{:?}` writes for a product type answer.
pub open spec fn type_response_debug(t: ProductTypeModel) -> Seq<char> {
    "ProductTypeResponse { id: "@ + debug_text(t.id) + ", type_name: "@ + debug_text(
        t.product_type_name,
    ) + " }"@
}

/// What `{:?}` writes for a list of product type answers.
pub open spec fn types_debug(types: Seq<ProductTypeModel>) -> Seq<char> {
    list_debug(types.map_values(|t: ProductTypeModel| type_response_debug(t)))
}

/// What `{:?}` writes for a product subcategory answer.
pub open spec fn subcategory_response_debug(s: ProductSubcategoryModel) -> Seq<char> {
    "ProductSubcategoryResponse { id: "@ + debug_text(s.id) + ", subcategory_name: "@
        + debug_text(s.subcategory_name) + ", types: "@ + types_debug(s.types) + " }"@
}

/// What `{:?}` writes for a list of product subcategory answers.
pub open spec fn subcategories_debug(subcategories: Seq<ProductSubcategoryModel>) -> Seq<char> {
    list_debug(
        subcategories.map_values(|s: ProductSubcategoryModel| subcategory_response_debug(s)),
    )
}

/// The text a product type answer is displayed with.
pub open spec fn type_response_text(t: ProductTypeModel) -> Seq<char> {
    "ProductTypeResponse { id: "@ + t.id + ", type_name: "@ + t.product_type_name + " }"@
}

/// The text a product subcategory answer is displayed with: its types as
/// `{:?}` writes them.
pub open spec fn subcategory_response_text(s: ProductSubcategoryModel) -> Seq<char> {
    "ProductSubcategoryResponse { id: "@ + s.id + ", subcategory_name: "@ + s.subcategory_name
        + ", types: "@ + types_debug(s.types) + " }"@
}

/// The text a product category answer is displayed with: its subcategories
/// as `{:?}` writes them.
pub open spec fn category_response_text(c: ProductCategoryModel) -> Seq<char> {
    "ProductCategoryResponse { id: "@ + c.id + ", category_name: "@ + c.category_name
        + ", subcategories: "@ + subcategories_debug(c.subcategories) + " }"@
}

fn bracketed(parts: &Vec<String>) -> (r: String)
    ensures
        r@ == list_debug(string_views(parts@)),
{
    let mut r = String::from_str("[");
    let inner = join_strings(parts, ", ");
    r.append(inner.as_str());
    r.append("]");
    r
}

impl ProductTypeResponse {
    fn debug_string(&self) -> (r: String)
        ensures
            r@ == type_response_debug(self@),
    {
        let mut r = String::from_str("ProductTypeResponse { id: ");
        r.append(debug_quoted(self.id.as_str()).as_str());
        r.append(", type_name: ");
        r.append(debug_quoted(self.product_type_name.as_str()).as_str());
        r.append(" }");
        r
    }

    /// The text this answer is displayed with.
    pub fn to_string(&self) -> (r: String)
        ensures
            r@ == type_response_text(self@),
    {
        let mut r = String::from_str("ProductTypeResponse { id: ");
        r.append(self.id.as_str());
        r.append(", type_name: ");
        r.append(self.product_type_name.as_str());
        r.append(" }");
        r
    }
}

fn types_debug_string(types: &Vec<ProductTypeResponse>) -> (r: String)
    ensures
        r@ == types_debug(types@.map_values(|t: ProductTypeResponse| t@)),
{
    let ghost models = types@.map_values(|t: ProductTypeResponse| t@);
    let mut parts: Vec<String> = Vec::new();
    let mut i: usize = 0;
    while i < types.len()
        invariant
            i <= types@.len(),
            models == types@.map_values(|t: ProductTypeResponse| t@),
            parts@.len() == i,
            forall|j: int| 0 <= j < i ==> #[trigger] parts@[j]@ == type_response_debug(models[j]),
        decreases types@.len() - i,
    {
        parts.push(types[i].debug_string());
        i = i + 1;
    }
    let r = bracketed(&parts);
    assert(string_views(parts@) =~= models.map_values(
        |t: ProductTypeModel| type_response_debug(t),
    ));
    r
}

impl ProductSubcategoryResponse {
    fn debug_string(&self) -> (r: String)
        ensures
            r@ == subcategory_response_debug(self@),
    {
        let mut r = String::from_str("ProductSubcategoryResponse { id: ");
        r.append(debug_quoted(self.id.as_str()).as_str());
        r.append(", subcategory_name: ");
        r.append(debug_quoted(self.subcategory_name.as_str()).as_str());
        r.append(", types: ");
        r.append(types_debug_string(&self.types).as_str());
        r.append(" }");
        r
    }

    /// The text this answer is displayed with.
    pub fn to_string(&self) -> (r: String)
        ensures
            r@ == subcategory_response_text(self@),
    {
        let mut r = String::from_str("ProductSubcategoryResponse { id: ");
        r.append(self.id.as_str());
        r.append(", subcategory_name: ");
        r.append(self.subcategory_name.as_str());
        r.append(", types: ");
        r.append(types_debug_string(&self.types).as_str());
        r.append(" }");
        r
    }
}

impl ProductCategoryResponse {
    /// The text this answer is displayed with.
    pub fn to_string(&self) -> (r: String)
        ensures
            r@ == category_response_text(self@),
    {
        let ghost models = self.subcategories@.map_values(|s: ProductSubcategoryResponse| s@);
        let mut parts: Vec<String> = Vec::new();
        let mut i: usize = 0;
        while i < self.subcategories.len()
            invariant
                i <= self.subcategories@.len(),
                models == self.subcategories@.map_values(|s: ProductSubcategoryResponse| s@),
                parts@.len() == i,
                forall|j: int|
                    0 <= j < i ==> #[trigger] parts@[j]@ == subcategory_response_debug(models[j]),
            decreases self.subcategories@.len() - i,
        {
            parts.push(self.subcategories[i].debug_string());
            i = i + 1;
        }
        let listed = bracketed(&parts);
        assert(string_views(parts@) =~= models.map_values(
            |s: ProductSubcategoryModel| subcategory_response_debug(s),
        ));
        let mut r = String::from_str("ProductCategoryResponse { id: ");
        r.append(self.id.as_str());
        r.append(", category_name: ");
        r.append(self.category_name.as_str());
        r.append(", subcategories: ");
        r.append(listed.as_str());
        r.append(" }");
        r
    }
}

impl ProductType {
    /// The product type an API answer describes, field for field.
    pub fn from_response(response: ProductTypeResponse) -> (r: ProductType)
        ensures
            r@ == response@,
    {
        ProductType { id: response.id, product_type_name: response.product_type_name }
    }
}

impl ProductSubcategory {
    /// The subcategory an API answer describes, its types in the same order.
    pub fn from_response(response: ProductSubcategoryResponse) -> (r: ProductSubcategory)
        ensures
            r@ == response@,
    {
        let ghost source = response.types@;
        let mut types: Vec<ProductType> = Vec::new();
        for t in it: response.types.into_iter()
            invariant
                it.seq() == source,
                types@.len() == it.index(),
                forall|i: int| 0 <= i < it.index() ==> #[trigger] types@[i]@ == source[i]@,
        {
            types.push(ProductType::from_response(t));
        }
        let r = ProductSubcategory {
            id: response.id,
            subcategory_name: response.subcategory_name,
            types,
        };
        assert(r@.types =~= source.map_values(|t: ProductTypeResponse| t@));
        r
    }
}

impl ProductCategory {
    /// The category an API answer describes, its subcategories in the same order.
    pub fn from_response(response: ProductCategoryResponse) -> (r: ProductCategory)
        ensures
            r@ == response@,
    {
        let ghost source = response.subcategories@;
        let mut subcategories: Vec<ProductSubcategory> = Vec::new();
        for s in it: response.subcategories.into_iter()
            invariant
                it.seq() == source,
                subcategories@.len() == it.index(),
                forall|i: int|
                    0 <= i < it.index() ==> #[trigger] subcategories@[i]@ == source[i]@,
        {
            subcategories.push(ProductSubcategory::from_response(s));
        }
        let r = ProductCategory {
            id: response.id,
            category_name: response.category_name,
            subcategories,
        };
        assert(r@.subcategories =~= source.map_values(|s: ProductSubcategoryResponse| s@));
        r
    }

    /// The categories of a whole API answer, in order.
    pub fn all_from_responses(responses: Vec<ProductCategoryResponse>) -> (r: Vec<ProductCategory>)
        ensures
            r@.len() == responses@.len(),
            forall|i: int| 0 <= i < r@.len() ==> #[trigger] r@[i]@ == responses@[i]@,
    {
        let ghost source = responses@;
        let mut out: Vec<ProductCategory> = Vec::new();
        for c in it: responses.into_iter()
            invariant
                it.seq() == source,
                out@.len() == it.index(),
                forall|i: int| 0 <= i < it.index() ==> #[trigger] out@[i]@ == source[i]@,
        {
            out.push(ProductCategory::from_response(c));
        }
        out
    }
}

/// Failures of the product category source.
#[derive(Debug, Clone, PartialEq, Eq)]
pub enum ProductCategoryError {
    NotFound,
    InvalidResponse(String),
    Unavailable(String),
}

/// The message a category error is displayed with.
pub open spec fn product_category_error_text(e: ProductCategoryError) -> Seq<char> {
    match e {
        ProductCategoryError::NotFound => "ProductCategory not found"@,
        ProductCategoryError::InvalidResponse(s) => "ProductCategory response is invalid: "@ + s@,
        ProductCategoryError::Unavailable(s) => "ProductCategory source is unavailable: "@ + s@,
    }
}

impl ProductCategoryError {
    /// The message this error is displayed with.
    pub fn to_string(&self) -> (r: String)
        ensures
            r@ == product_category_error_text(*self),
    {
        match self {
            ProductCategoryError::NotFound => String::from_str("ProductCategory not found"),
            ProductCategoryError::InvalidResponse(s) => {
                let mut r = String::from_str("ProductCategory response is invalid: ");
                r.append(s.as_str());
                r
            },
            ProductCategoryError::Unavailable(s) => {
                let mut r = String::from_str("ProductCategory source is unavailable: ");
                r.append(s.as_str());
                r
            },
        }
    }
}

/// The use case of reading all product categories from a category source.
pub struct GetProductCategoriesUseCase<TProductCategorySource> {
    product_category_source: TProductCategorySource,
}

impl<TProductCategorySource> GetProductCategoriesUseCase<TProductCategorySource> {
    pub fn new(product_category_source: TProductCategorySource) -> (r: Self)
        ensures
            r.source() == product_category_source,
    {
        Self { product_category_source }
    }

    pub closed spec fn source(&self) -> TProductCategorySource {
        self.product_category_source
    }

    /// The category source the use case reads from.
    pub fn product_category_source(&self) -> (r: &TProductCategorySource)
        ensures
            *r == self.source(),
    {
        &self.product_category_source
    }
}

} // verus!
