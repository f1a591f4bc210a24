use checkout_functions::payment::{
    PaymentDeliveryGroup, PaymentInput, PaymentMethod, SelectedDeliveryOption,
};
use checkout_functions::ConfigError;

fn group_with_title(title: Option<&str>) -> PaymentDeliveryGroup {
    PaymentDeliveryGroup {
        selected_delivery_option: Some(SelectedDeliveryOption {
            title: title.map(|t| t.to_string()),
        }),
    }
}

fn method(id: &str, name: &str) -> PaymentMethod {
    PaymentMethod { id: id.to_string(), name: name.to_string() }
}

#[test]
fn payment_no_metafield_is_no_operation() {
    let input = PaymentInput {
        payment_customization_metafield: None,
        delivery_groups: vec![group_with_title(Some("Express"))],
        payment_methods: vec![method("A", "COD")],
    };
    let res = checkout_functions::payment::function(&input).unwrap();
    assert_eq!(res.operations.len(), 0);
}

#[test]
fn matching_selected_option_hides_first_other_method() {
    let input = PaymentInput {
        payment_customization_metafield: Some(
            "{\"method\":\"COD\",\"rate\":\"Express\"}".to_string(),
        ),
        delivery_groups: vec![group_with_title(Some("Express"))],
        payment_methods: vec![method("A", "COD"), method("B", "PayPal")],
    };
    let res = checkout_functions::payment::function(&input).unwrap();
    assert_eq!(res.operations.len(), 1);
    let op = &res.operations[0];
    assert!(op.move_op.is_none());
    assert!(op.rename.is_none());
    assert_eq!(op.hide.as_ref().unwrap().payment_method_id, "B");
}

#[test]
fn first_match_wins_among_eligible_methods() {
    let input = PaymentInput {
        payment_customization_metafield: Some(
            "{\"method\":\"COD\",\"rate\":\"Express\"}".to_string(),
        ),
        delivery_groups: vec![group_with_title(Some("Express"))],
        payment_methods: vec![method("A", "PayPal"), method("B", "Visa"), method("C", "COD")],
    };
    let res = checkout_functions::payment::function(&input).unwrap();
    assert_eq!(res.operations[0].hide.as_ref().unwrap().payment_method_id, "A");
}

#[test]
fn no_matching_title_hides_nothing() {
    let input = PaymentInput {
        payment_customization_metafield: Some(
            "{\"method\":\"COD\",\"rate\":\"Express\"}".to_string(),
        ),
        delivery_groups: vec![group_with_title(Some("Standard")), group_with_title(None)],
        payment_methods: vec![method("A", "COD"), method("B", "PayPal")],
    };
    let res = checkout_functions::payment::function(&input).unwrap();
    assert_eq!(res.operations.len(), 1);
    let op = &res.operations[0];
    assert!(op.hide.is_none());
    assert!(op.move_op.is_none());
    assert!(op.rename.is_none());
}

#[test]
fn no_groups_means_no_hide() {
    let input = PaymentInput {
        payment_customization_metafield: Some(
            "{\"method\":\"COD\",\"rate\":\"Express\"}".to_string(),
        ),
        delivery_groups: vec![],
        payment_methods: vec![method("A", "PayPal")],
    };
    let res = checkout_functions::payment::function(&input).unwrap();
    assert!(res.operations[0].hide.is_none());
}

#[test]
fn group_without_selection_never_matches() {
    let groups =
        vec![PaymentDeliveryGroup { selected_delivery_option: None }, group_with_title(None)];
    assert!(!checkout_functions::payment::compute_is_hide(&groups, &"Express".to_string()));
}

#[test]
fn any_matching_group_sets_the_hide_condition() {
    let groups = vec![group_with_title(Some("Standard")), group_with_title(Some("Express"))];
    assert!(checkout_functions::payment::compute_is_hide(&groups, &"Express".to_string()));
}

#[test]
fn all_methods_matching_configured_name_hides_nothing() {
    let input = PaymentInput {
        payment_customization_metafield: Some(
            "{\"method\":\"COD\",\"rate\":\"Express\"}".to_string(),
        ),
        delivery_groups: vec![group_with_title(Some("Express"))],
        payment_methods: vec![method("A", "COD"), method("B", "COD")],
    };
    let res = checkout_functions::payment::function(&input).unwrap();
    assert!(res.operations[0].hide.is_none());
}

#[test]
fn payment_malformed_configuration_is_fatal() {
    let input = PaymentInput {
        payment_customization_metafield: Some("{\"method\":\"COD\"}".to_string()),
        delivery_groups: vec![],
        payment_methods: vec![],
    };
    assert_eq!(checkout_functions::payment::function(&input), Err(ConfigError));
}

#[test]
fn non_string_member_is_fatal() {
    let input = PaymentInput {
        payment_customization_metafield: Some("{\"method\":\"COD\",\"rate\":5}".to_string()),
        delivery_groups: vec![],
        payment_methods: vec![],
    };
    assert_eq!(checkout_functions::payment::function(&input), Err(ConfigError));
}

#[test]
fn configuration_fields_are_read_not_echoed() {
    // The configured method and rate come from distinct members of the
    // configuration text; swapping the members must change the decision.
    let input = PaymentInput {
        payment_customization_metafield: Some(
            "{\"rate\":\"COD\",\"method\":\"Express\"}".to_string(),
        ),
        delivery_groups: vec![group_with_title(Some("Express"))],
        payment_methods: vec![method("A", "COD"), method("B", "PayPal")],
    };
    let res = checkout_functions::payment::function(&input).unwrap();
    // rate is now "COD": no selected option carries it, so nothing is hidden.
    assert!(res.operations[0].hide.is_none());
}
