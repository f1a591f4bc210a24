//! Order-discount decision function.
//!
//! Given the cart's buyer identity and an optional merchant configuration
//! attached to the discount customization node, decides whether to apply a
//! percentage discount and at what rate. The configuration's presence is
//! the on/off switch: without it the function is a no-op. The rate is read
//! verbatim from the customer's metafield; any missing link in the
//! identity chain defaults the rate to the literal string "0.0".

use vstd::prelude::*;
use crate::ConfigError;

verus! {

/// Buyer identity attached to the cart; every link of the chain down to
/// the customer's metafield value is optional.
#[derive(Debug, PartialEq, Eq)]
pub struct BuyerIdentity {
    pub customer: Option<Customer>,
}

#[derive(Debug, PartialEq, Eq)]
pub struct Customer {
    pub metafield: Option<String>,
}

/// Snapshot handed to the discount function: the raw configuration text on
/// the discount customization node, if any, and the cart's buyer identity.
#[derive(Debug, PartialEq, Eq)]
pub struct DiscountInput {
    pub discount_node_metafield: Option<String>,
    pub buyer_identity: Option<BuyerIdentity>,
}

/// Host-defined strategy governing how multiple discounts combine; this
/// function always emits `First`.
#[derive(Debug, Clone, Copy, PartialEq, Eq, Structural)]
pub enum DiscountApplicationStrategy {
    First,
    Maximum,
}

#[derive(Debug, PartialEq, Eq)]
pub struct OrderSubtotalTarget {
    pub excluded_variant_ids: Vec<String>,
}

#[derive(Debug, PartialEq, Eq)]
pub struct ProductVariantTarget {
    pub id: String,
}

/// A discount target: exactly one of the branches is populated.
#[derive(Debug, PartialEq, Eq)]
pub struct Target {
    pub order_subtotal: Option<OrderSubtotalTarget>,
    pub product_variant: Option<ProductVariantTarget>,
}

#[derive(Debug, PartialEq, Eq)]
pub struct Percentage {
    pub value: String,
}

#[derive(Debug, PartialEq, Eq)]
pub struct FixedAmount {
    pub amount: String,
}

/// A discount value: exactly one of the branches is populated.
#[derive(Debug, PartialEq, Eq)]
pub struct DiscountValue {
    pub percentage: Option<Percentage>,
    pub fixed_amount: Option<FixedAmount>,
}

#[derive(Debug, PartialEq, Eq)]
pub struct Discount {
    pub message: Option<String>,
    pub targets: Vec<Target>,
    pub value: DiscountValue,
}

#[derive(Debug, PartialEq, Eq)]
pub struct FunctionResult {
    pub discounts: Vec<Discount>,
    pub discount_application_strategy: DiscountApplicationStrategy,
}

/// Whether the text is a structurally valid discount configuration. The
/// discount configuration is an empty record, so validity only asks that
/// the text decode as a JSON object.
pub uninterp spec fn discount_config_ok(s: Seq<char>) -> bool;

/// Relies on serde_json::from_str and serde_json::Value::is_object: the
/// text is valid exactly when it parses as JSON and the parsed value is an
/// object. The outcome depends on the text alone.
#[verifier::external_body]
fn parse_discount_config(s: &str) -> (ok: bool)
    ensures
        ok == discount_config_ok(s@),
{
    serde_json::from_str::<serde_json::Value>(s).map_or(false, |v| v.is_object())
}

/// The discount rate derived from the buyer-identity chain: the customer
/// metafield's raw text when every link is present, the literal "0.0"
/// otherwise.
pub open spec fn spec_rate(buyer_identity: Option<BuyerIdentity>) -> Seq<char> {
    match buyer_identity {
        Some(b) => match b.customer {
            Some(c) => match c.metafield {
                Some(m) => m@,
                None => "0.0"@,
            },
            None => "0.0"@,
        },
        None => "0.0"@,
    }
}

/// The no-op result: no discounts, strategy `First`.
pub open spec fn is_no_discount(res: FunctionResult) -> bool {
    &&& res.discounts@.len() == 0
    &&& res.discount_application_strategy == DiscountApplicationStrategy::First
}

/// The configured result: exactly one discount with the fixed message,
/// targeting the order subtotal with no excluded variants, whose value is
/// a percentage equal to `rate`, under strategy `First`.
pub open spec fn is_rate_discount(res: FunctionResult, rate: Seq<char>) -> bool {
    &&& res.discounts@.len() == 1
    &&& res.discounts@[0].message matches Some(msg) && msg@ == "Function order discount worked!"@
    &&& res.discounts@[0].targets@.len() == 1
    &&& (res.discounts@[0].targets@[0].order_subtotal matches Some(t)
        && t.excluded_variant_ids@.len() == 0)
    &&& res.discounts@[0].targets@[0].product_variant is None
    &&& res.discounts@[0].value.percentage matches Some(p) && p.value@ == rate
    &&& res.discounts@[0].value.fixed_amount is None
    &&& res.discount_application_strategy == DiscountApplicationStrategy::First
}

/// Walk the buyer-identity chain for the rate text, defaulting each
/// missing link to "0.0".
pub fn resolve_rate(buyer_identity: &Option<BuyerIdentity>) -> (r: String)
    ensures
        r@ == spec_rate(*buyer_identity),
{
    match buyer_identity {
        Some(b) => match &b.customer {
            Some(c) => match &c.metafield {
                Some(m) => m.clone(),
                None => "0.0".to_owned(),
            },
            None => "0.0".to_owned(),
        },
        None => "0.0".to_owned(),
    }
}

/// Build the result for a successfully parsed configuration: one discount
/// at the rate derived from the buyer-identity chain.
pub fn decide(buyer_identity: &Option<BuyerIdentity>) -> (res: FunctionResult)
    ensures
        is_rate_discount(res, spec_rate(*buyer_identity)),
{
    let rate = resolve_rate(buyer_identity);
    let mut targets: Vec<Target> = Vec::new();
    targets.push(Target {
        order_subtotal: Some(OrderSubtotalTarget { excluded_variant_ids: Vec::new() }),
        product_variant: None,
    });
    let mut discounts: Vec<Discount> = Vec::new();
    discounts.push(Discount {
        message: Some("Function order discount worked!".to_owned()),
        targets,
        value: DiscountValue {
            percentage: Some(Percentage { value: rate }),
            fixed_amount: None,
        },
    });
    FunctionResult {
        discounts,
        discount_application_strategy: DiscountApplicationStrategy::First,
    }
}

/// The discount decision function. Absent configuration is the designed
/// "feature disabled" signal and yields the no-discount result; present
/// but structurally invalid configuration is a deployment error and fails
/// the invocation; otherwise exactly one discount is emitted at the rate
/// read from the buyer-identity chain.
pub fn function(input: &DiscountInput) -> (r: Result<FunctionResult, ConfigError>)
    ensures
        match input.discount_node_metafield {
            None => r matches Ok(res) && is_no_discount(res),
            Some(cfg) => {
                if discount_config_ok(cfg@) {
                    r matches Ok(res) && is_rate_discount(res, spec_rate(input.buyer_identity))
                } else {
                    r matches Err(ConfigError)
                }
            },
        },
{
    match &input.discount_node_metafield {
        None => Ok(FunctionResult {
            discounts: Vec::new(),
            discount_application_strategy: DiscountApplicationStrategy::First,
        }),
        Some(cfg) => {
            if parse_discount_config(cfg.as_str()) {
                Ok(decide(&input.buyer_identity))
            } else {
                Err(ConfigError)
            }
        },
    }
}

/// Every missing link in the buyer-identity chain — no identity, no
/// customer, or no customer metafield — resolves the rate to the literal
/// "0.0"; with the full chain present the metafield's raw text is the rate
/// verbatim.
pub proof fn lemma_rate_defaults(buyer_identity: Option<BuyerIdentity>)
    ensures
        match buyer_identity {
            None => spec_rate(buyer_identity) == "0.0"@,
            Some(b) => match b.customer {
                None => spec_rate(buyer_identity) == "0.0"@,
                Some(c) => match c.metafield {
                    None => spec_rate(buyer_identity) == "0.0"@,
                    Some(m) => spec_rate(buyer_identity) == m@,
                },
            },
        },
{
}

} // verus!
