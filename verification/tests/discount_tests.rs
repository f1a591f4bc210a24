use checkout_functions::discount::{
    BuyerIdentity, Customer, DiscountApplicationStrategy, DiscountInput,
};
use checkout_functions::ConfigError;

fn full_chain(rate: &str) -> Option<BuyerIdentity> {
    Some(BuyerIdentity { customer: Some(Customer { metafield: Some(rate.to_string()) }) })
}

#[test]
fn no_metafield_is_no_discount() {
    let input = DiscountInput { discount_node_metafield: None, buyer_identity: full_chain("15.0") };
    let res = checkout_functions::discount::function(&input).unwrap();
    assert_eq!(res.discounts.len(), 0);
    assert_eq!(res.discount_application_strategy, DiscountApplicationStrategy::First);
}

#[test]
fn full_chain_rate_is_passed_through_verbatim() {
    let input = DiscountInput {
        discount_node_metafield: Some("{}".to_string()),
        buyer_identity: full_chain("15.0"),
    };
    let res = checkout_functions::discount::function(&input).unwrap();
    assert_eq!(res.discounts.len(), 1);
    let d = &res.discounts[0];
    assert_eq!(d.message.as_deref(), Some("Function order discount worked!"));
    assert_eq!(d.targets.len(), 1);
    let t = &d.targets[0];
    assert!(t.product_variant.is_none());
    let subtotal = t.order_subtotal.as_ref().unwrap();
    assert_eq!(subtotal.excluded_variant_ids.len(), 0);
    assert_eq!(d.value.percentage.as_ref().unwrap().value, "15.0");
    assert!(d.value.fixed_amount.is_none());
    assert_eq!(res.discount_application_strategy, DiscountApplicationStrategy::First);
}

#[test]
fn non_numeric_rate_is_not_validated() {
    let input = DiscountInput {
        discount_node_metafield: Some("{}".to_string()),
        buyer_identity: full_chain("not-a-number"),
    };
    let res = checkout_functions::discount::function(&input).unwrap();
    assert_eq!(res.discounts[0].value.percentage.as_ref().unwrap().value, "not-a-number");
}

#[test]
fn missing_buyer_identity_defaults_rate() {
    let input =
        DiscountInput { discount_node_metafield: Some("{}".to_string()), buyer_identity: None };
    let res = checkout_functions::discount::function(&input).unwrap();
    assert_eq!(res.discounts.len(), 1);
    assert_eq!(res.discounts[0].value.percentage.as_ref().unwrap().value, "0.0");
}

#[test]
fn missing_customer_defaults_rate() {
    let input = DiscountInput {
        discount_node_metafield: Some("{}".to_string()),
        buyer_identity: Some(BuyerIdentity { customer: None }),
    };
    let res = checkout_functions::discount::function(&input).unwrap();
    assert_eq!(res.discounts[0].value.percentage.as_ref().unwrap().value, "0.0");
}

#[test]
fn missing_customer_metafield_defaults_rate() {
    let input = DiscountInput {
        discount_node_metafield: Some("{}".to_string()),
        buyer_identity: Some(BuyerIdentity { customer: Some(Customer { metafield: None }) }),
    };
    let res = checkout_functions::discount::function(&input).unwrap();
    assert_eq!(res.discounts[0].value.percentage.as_ref().unwrap().value, "0.0");
}

#[test]
fn malformed_configuration_is_fatal() {
    let input = DiscountInput {
        discount_node_metafield: Some("not json".to_string()),
        buyer_identity: full_chain("15.0"),
    };
    assert_eq!(checkout_functions::discount::function(&input), Err(ConfigError));
}

#[test]
fn non_object_configuration_is_fatal() {
    let input = DiscountInput {
        discount_node_metafield: Some("5".to_string()),
        buyer_identity: full_chain("15.0"),
    };
    assert_eq!(checkout_functions::discount::function(&input), Err(ConfigError));
}

#[test]
fn configuration_with_extra_members_is_accepted() {
    let input = DiscountInput {
        discount_node_metafield: Some("{\"unused\": 3}".to_string()),
        buyer_identity: full_chain("7.5"),
    };
    let res = checkout_functions::discount::function(&input).unwrap();
    assert_eq!(res.discounts[0].value.percentage.as_ref().unwrap().value, "7.5");
}

#[test]
fn resolve_rate_reads_the_chain() {
    assert_eq!(checkout_functions::discount::resolve_rate(&full_chain("12.3")), "12.3");
    assert_eq!(checkout_functions::discount::resolve_rate(&None), "0.0");
}
