use cenyslovensko_api::product_category::{
    ProductCategory, ProductCategoryError, ProductCategoryResponse, ProductSubcategoryResponse,
    ProductTypeResponse,
};
use cenyslovensko_api::vendor::{VendorAddress, VendorError};
use cenyslovensko_api::version::{Version, VersionError};

#[test]
fn converts_product_categories_from_responses() {
    let responses = vec![ProductCategoryResponse {
        id: "cat_1".into(),
        category_name: "Food".into(),
        subcategories: vec![ProductSubcategoryResponse {
            id: "sub_1".into(),
            subcategory_name: "Bakery".into(),
            types: vec![
                ProductTypeResponse { id: "type_1".into(), product_type_name: "Bread".into() },
                ProductTypeResponse { id: "type_2".into(), product_type_name: "Rolls".into() },
            ],
        }],
    }];

    let categories = ProductCategory::all_from_responses(responses);

    assert_eq!(categories.len(), 1);
    assert_eq!(categories[0].id, "cat_1");
    assert_eq!(categories[0].category_name, "Food");
    assert_eq!(categories[0].subcategories.len(), 1);
    assert_eq!(categories[0].subcategories[0].id, "sub_1");
    assert_eq!(categories[0].subcategories[0].subcategory_name, "Bakery");
    assert_eq!(categories[0].subcategories[0].types.len(), 2);
    assert_eq!(categories[0].subcategories[0].types[0].id, "type_1");
    assert_eq!(categories[0].subcategories[0].types[0].product_type_name, "Bread");
    assert_eq!(categories[0].subcategories[0].types[1].product_type_name, "Rolls");
}

#[test]
fn error_and_value_texts() {
    assert_eq!(Version::new("0.1.370".into()).to_string(), "0.1.370");
    assert_eq!(VersionError::NotFound.to_string(), "Version not found");
    assert_eq!(
        VersionError::InvalidResponse("x".into()).to_string(),
        "Version response is invalid: x"
    );
    assert_eq!(
        VersionError::Unavailable("y".into()).to_string(),
        "Version source is unavailable: y"
    );
    assert_eq!(VendorError::NotFound.to_string(), "Vendor not found");
    assert_eq!(
        VendorError::InvalidResponse("x".into()).to_string(),
        "Vendor response is invalid: x"
    );
    assert_eq!(ProductCategoryError::NotFound.to_string(), "ProductCategory not found");
    assert_eq!(
        ProductCategoryError::InvalidResponse("x".into()).to_string(),
        "ProductCategory response is invalid: x"
    );
    assert_eq!(
        ProductCategoryError::Unavailable("y".into()).to_string(),
        "ProductCategory source is unavailable: y"
    );
    let address = VendorAddress::new("Bratislava".to_string(), "123".to_string());
    assert_eq!(address.city, "Bratislava");
    assert_eq!(address.street_number, "123");
    assert_eq!(address.to_string(), "VendorAddress(city: Bratislava, street_number: 123)");
}

#[test]
fn category_answers_display_like_the_api_types() {
    let product_type = ProductTypeResponse { id: "t1".into(), product_type_name: "Milk".into() };
    assert_eq!(product_type.to_string(), "ProductTypeResponse { id: t1, type_name: Milk }");

    let subcategory = ProductSubcategoryResponse {
        id: "s1".into(),
        subcategory_name: "Dairy".into(),
        types: vec![
            product_type.clone(),
            ProductTypeResponse { id: "t2".into(), product_type_name: "say \"hi\"".into() },
        ],
    };
    assert_eq!(
        subcategory.to_string(),
        "ProductSubcategoryResponse { id: s1, subcategory_name: Dairy, types: \
         [ProductTypeResponse { id: \"t1\", type_name: \"Milk\" }, \
         ProductTypeResponse { id: \"t2\", type_name: \"say \\\"hi\\\"\" }] }"
    );

    let category = ProductCategoryResponse {
        id: "c1".into(),
        category_name: "Food".into(),
        subcategories: vec![ProductSubcategoryResponse {
            id: "s2".into(),
            subcategory_name: "Empty".into(),
            types: vec![],
        }],
    };
    assert_eq!(
        category.to_string(),
        "ProductCategoryResponse { id: c1, category_name: Food, subcategories: \
         [ProductSubcategoryResponse { id: \"s2\", subcategory_name: \"Empty\", types: [] }] }"
    );
    let empty = ProductCategoryResponse {
        id: "c2".into(),
        category_name: "None".into(),
        subcategories: vec![],
    };
    assert_eq!(
        empty.to_string(),
        "ProductCategoryResponse { id: c2, category_name: None, subcategories: [] }"
    );
}
