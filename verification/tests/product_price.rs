use cenyslovensko_api::product_price::{
    ProductPriceError, ProductPricesCurrentDayQuery, ProductPricesCurrentDayQueryBuilder,
    SortOrder,
};

#[test]
fn builds_query_params_with_fluent_builder() {
    let query = ProductPricesCurrentDayQuery::builder()
        .branch_ids(&["1061_50020188", "1015_50020188"])
        .order_by("unit_price")
        .sort_order(SortOrder::Asc)
        .only_in_my_branches(true)
        .category_id(2)
        .group_by_vendor(false)
        .page(0)
        .size(124)
        .build();

    let params = query.to_query_params();

    assert_eq!(
        params,
        vec![
            ("branchIds".into(), "1061_50020188,1015_50020188".into()),
            ("orderBy".into(), "unit_price".into()),
            ("sortOrder".into(), "asc".into()),
            ("onlyInMyBranches".into(), "true".into()),
            ("categoryId".into(), "2".into()),
            ("groupByVendor".into(), "false".into()),
            ("page".into(), "0".into()),
            ("size".into(), "124".into())
        ]
    );
}

#[test]
fn empty_query_has_no_params() {
    let query = ProductPricesCurrentDayQueryBuilder::new().build();

    assert_eq!(query, ProductPricesCurrentDayQuery::default());
    assert!(query.to_query_params().is_empty());
}

#[test]
fn add_branch_id_appends_and_later_setters_win() {
    let query = ProductPricesCurrentDayQuery::builder()
        .add_branch_id("a")
        .add_branch_id("b")
        .page(1)
        .page(18446744073709551615)
        .sort_order(SortOrder::Asc)
        .sort_order(SortOrder::Desc)
        .build();

    assert_eq!(query.branch_ids, vec!["a".to_string(), "b".to_string()]);
    assert_eq!(
        query.to_query_params(),
        vec![
            ("branchIds".to_string(), "a,b".to_string()),
            ("sortOrder".to_string(), "desc".to_string()),
            ("page".to_string(), "18446744073709551615".to_string()),
        ]
    );
}

#[test]
fn branch_ids_replaces_earlier_ids() {
    let query = ProductPricesCurrentDayQuery::builder()
        .add_branch_id("old")
        .branch_ids(&["new"])
        .build();

    assert_eq!(query.branch_ids, vec!["new".to_string()]);
}

#[test]
fn only_set_fields_are_sent() {
    let query = ProductPricesCurrentDayQuery::builder()
        .category_id(10)
        .size(5)
        .build();

    assert_eq!(
        query.to_query_params(),
        vec![
            ("categoryId".to_string(), "10".to_string()),
            ("size".to_string(), "5".to_string()),
        ]
    );
}

#[test]
fn sort_order_texts() {
    assert_eq!(SortOrder::Asc.as_str(), "asc");
    assert_eq!(SortOrder::Desc.as_str(), "desc");
}

#[test]
fn product_price_error_messages() {
    assert_eq!(ProductPriceError::NotFound.to_string(), "Product prices not found");
    assert_eq!(
        ProductPriceError::InvalidQuery("q".to_string()).to_string(),
        "Product prices query is invalid: q"
    );
    assert_eq!(
        ProductPriceError::InvalidResponse("r".to_string()).to_string(),
        "Product prices response is invalid: r"
    );
    assert_eq!(
        ProductPriceError::Unavailable("u".to_string()).to_string(),
        "Product prices source is unavailable: u"
    );
}

#[test]
fn last_setter_of_a_field_wins() {
    let query = ProductPricesCurrentDayQuery::builder()
        .order_by("name")
        .page(3)
        .add_branch_id("a")
        .branch_ids(&["b"])
        .add_branch_id("c")
        .order_by("unit_price")
        .build();
    assert_eq!(query.order_by, Some("unit_price".to_string()));
    assert_eq!(query.page, Some(3));
    assert_eq!(query.branch_ids, vec!["b".to_string(), "c".to_string()]);
    assert_eq!(query.size, None);

    let replaced = ProductPricesCurrentDayQuery::builder()
        .branch_ids(&["x"])
        .add_branch_id("y")
        .branch_ids(&["z"])
        .build();
    assert_eq!(replaced.branch_ids, vec!["z".to_string()]);
}

#[test]
fn setters_on_different_fields_commute() {
    let one = ProductPricesCurrentDayQuery::builder().page(1).size(20).category_id(7).build();
    let other = ProductPricesCurrentDayQuery::builder().category_id(7).size(20).page(1).build();
    assert_eq!(one, other);
}
