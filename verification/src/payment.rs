//! Payment-method visibility decision function.
//!
//! Given the cart's delivery groups, the available payment methods, and an
//! optional merchant configuration `{method, rate}` attached to the
//! payment customization node, decides whether to hide one payment method.
//! A method is hidden when some delivery group's selected option carries a
//! title equal to the configured rate; the hidden method is the first one,
//! in list order, whose name differs from the configured method name.

use vstd::prelude::*;
use crate::ConfigError;

verus! {

/// Merchant configuration for the payment function.
#[derive(Debug, PartialEq, Eq)]
pub struct PaymentConfig {
    pub method: String,
    pub rate: String,
}

/// The delivery option a buyer selected for a group, with its optional
/// display title.
#[derive(Debug, PartialEq, Eq)]
pub struct SelectedDeliveryOption {
    pub title: Option<String>,
}

/// A cart delivery group as the payment function sees it: only the
/// selected option matters here.
#[derive(Debug, PartialEq, Eq)]
pub struct PaymentDeliveryGroup {
    pub selected_delivery_option: Option<SelectedDeliveryOption>,
}

#[derive(Debug, PartialEq, Eq)]
pub struct PaymentMethod {
    pub id: String,
    pub name: String,
}

/// Snapshot handed to the payment function.
#[derive(Debug, PartialEq, Eq)]
pub struct PaymentInput {
    pub payment_customization_metafield: Option<String>,
    pub delivery_groups: Vec<PaymentDeliveryGroup>,
    pub payment_methods: Vec<PaymentMethod>,
}

/// Request to hide one payment method.
#[derive(Debug, PartialEq, Eq)]
pub struct HideOperation {
    pub payment_method_id: String,
}

#[derive(Debug, PartialEq, Eq)]
pub struct MoveOperation {
    pub payment_method_id: String,
    pub index: u64,
}

#[derive(Debug, PartialEq, Eq)]
pub struct RenameOperation {
    pub payment_method_id: String,
    pub name: String,
}

/// One requested customization: a tagged choice among hide, move and
/// rename. This function only ever populates the hide branch, or leaves
/// every branch unset.
#[derive(Debug, PartialEq, Eq)]
pub struct Operation {
    pub hide: Option<HideOperation>,
    pub move_op: Option<MoveOperation>,
    pub rename: Option<RenameOperation>,
}

#[derive(Debug, PartialEq, Eq)]
pub struct FunctionResult {
    pub operations: Vec<Operation>,
}

/// What a structurally valid payment configuration text decodes to: the
/// `method` and `rate` field texts, or nothing when the text is invalid.
pub uninterp spec fn payment_config_of(s: Seq<char>) -> Option<(Seq<char>, Seq<char>)>;

/// Relies on serde_json::from_str, serde_json::Value::get and
/// serde_json::Value::as_str: a payment configuration is a JSON object
/// whose "method" and "rate" members are strings, and decoding yields
/// those two texts. The outcome depends on the text alone.
#[verifier::external_body]
fn parse_payment_config(s: &str) -> (r: Option<PaymentConfig>)
    ensures
        match r {
            Some(c) => payment_config_of(s@) == Some((c.method@, c.rate@)),
            None => payment_config_of(s@) is None,
        },
{
    let v: serde_json::Value = serde_json::from_str(s).ok()?;
    let method = v.get("method")?.as_str()?.to_owned();
    let rate = v.get("rate")?.as_str()?.to_owned();
    Some(PaymentConfig { method, rate })
}

/// Whether this group's selected delivery option carries a title equal to
/// the configured rate; groups with no selection or no title never match.
pub open spec fn selected_title_matches(g: PaymentDeliveryGroup, rate: Seq<char>) -> bool {
    match g.selected_delivery_option {
        Some(o) => match o.title {
            Some(t) => t@ == rate,
            None => false,
        },
        None => false,
    }
}

/// The hide condition: true iff at least one delivery group's selected
/// option matches the configured rate.
pub open spec fn spec_is_hide(groups: Seq<PaymentDeliveryGroup>, rate: Seq<char>) -> bool {
    exists|i: int| 0 <= i < groups.len() && selected_title_matches(groups[i], rate)
}

/// The first payment method, in list order, whose name differs from the
/// configured method name.
pub open spec fn first_hidden_method(methods: Seq<PaymentMethod>, method: Seq<char>) -> Option<
    PaymentMethod,
>
    decreases methods.len(),
{
    if methods.len() == 0 {
        None
    } else if methods.first().name@ != method {
        Some(methods.first())
    } else {
        first_hidden_method(methods.drop_first(), method)
    }
}

/// The single operation the function emits for a parsed configuration:
/// move and rename are never set, and hide carries the id of the first
/// method whose name differs from the configured one exactly when the
/// hide condition holds and such a method exists.
pub open spec fn operation_expected(
    op: Operation,
    groups: Seq<PaymentDeliveryGroup>,
    methods: Seq<PaymentMethod>,
    method: Seq<char>,
    rate: Seq<char>,
) -> bool {
    &&& op.move_op is None
    &&& op.rename is None
    &&& if spec_is_hide(groups, rate) {
        match first_hidden_method(methods, method) {
            Some(m) => op.hide matches Some(h) && h.payment_method_id@ == m.id@,
            None => op.hide is None,
        }
    } else {
        op.hide is None
    }
}

/// Evaluate the hide condition over the delivery groups.
pub fn compute_is_hide(groups: &Vec<PaymentDeliveryGroup>, rate: &String) -> (b: bool)
    ensures
        b == spec_is_hide(groups@, rate@),
{
    let mut i: usize = 0;
    while i < groups.len()
        invariant
            0 <= i <= groups@.len(),
            forall|j: int| 0 <= j < i ==> !selected_title_matches(groups@[j], rate@),
        decreases groups@.len() - i,
    {
        match &groups[i].selected_delivery_option {
            Some(o) => match &o.title {
                Some(t) => {
                    if t.eq(rate) {
                        assert(selected_title_matches(groups@[i as int], rate@));
                        return true;
                    }
                },
                None => {},
            },
            None => {},
        }
        i += 1;
    }
    false
}

/// Find the first payment method whose name differs from the configured
/// method name, as a hide request carrying its id.
fn find_hidden_method(methods: &Vec<PaymentMethod>, method: &String) -> (r: Option<HideOperation>)
    ensures
        match first_hidden_method(methods@, method@) {
            Some(m) => r matches Some(h) && h.payment_method_id@ == m.id@,
            None => r is None,
        },
{
    let mut i: usize = 0;
    proof {
        assert(methods@.skip(0) =~= methods@);
    }
    while i < methods.len()
        invariant
            0 <= i <= methods@.len(),
            first_hidden_method(methods@, method@) == first_hidden_method(
                methods@.skip(i as int),
                method@,
            ),
        decreases methods@.len() - i,
    {
        proof {
            assert(methods@.skip(i as int).first() == methods@[i as int]);
            assert(methods@.skip(i as int).drop_first() =~= methods@.skip(i as int + 1));
        }
        if !methods[i].name.eq(method) {
            return Some(HideOperation { payment_method_id: methods[i].id.clone() });
        }
        i += 1;
    }
    proof {
        assert(methods@.skip(i as int) =~= Seq::<PaymentMethod>::empty());
    }
    None
}

/// Decide the payment customization for an already-decoded configuration:
/// always exactly one operation, populated on its hide branch exactly when
/// the hide condition holds and an eligible method exists.
pub fn decide(
    delivery_groups: &Vec<PaymentDeliveryGroup>,
    payment_methods: &Vec<PaymentMethod>,
    config: &PaymentConfig,
) -> (res: FunctionResult)
    ensures
        res.operations@.len() == 1,
        operation_expected(
            res.operations@[0],
            delivery_groups@,
            payment_methods@,
            config.method@,
            config.rate@,
        ),
{
    let is_hide = compute_is_hide(delivery_groups, &config.rate);
    let hide = if is_hide {
        find_hidden_method(payment_methods, &config.method)
    } else {
        None
    };
    let mut operations: Vec<Operation> = Vec::new();
    operations.push(Operation { hide, move_op: None, rename: None });
    FunctionResult { operations }
}

/// The payment decision function. Absent configuration yields an empty
/// operation list; present but structurally invalid configuration fails
/// the invocation; otherwise exactly one operation is emitted as
/// `operation_expected` describes.
pub fn function(input: &PaymentInput) -> (r: Result<FunctionResult, ConfigError>)
    ensures
        match input.payment_customization_metafield {
            None => r matches Ok(res) && res.operations@.len() == 0,
            Some(cfg) => match payment_config_of(cfg@) {
                Some(mr) => r matches Ok(res) && res.operations@.len() == 1
                    && operation_expected(
                    res.operations@[0],
                    input.delivery_groups@,
                    input.payment_methods@,
                    mr.0,
                    mr.1,
                ),
                None => r matches Err(ConfigError),
            },
        },
{
    match &input.payment_customization_metafield {
        None => Ok(FunctionResult { operations: Vec::new() }),
        Some(cfg) => match parse_payment_config(cfg.as_str()) {
            Some(config) => Ok(decide(&input.delivery_groups, &input.payment_methods, &config)),
            None => Err(ConfigError),
        },
    }
}

/// First-match-wins: when `first_hidden_method` selects a method, that
/// method stands at an index whose every predecessor has exactly the
/// configured name, and it differs from the configured name itself; when
/// it selects none, every method carries the configured name.
pub proof fn lemma_first_hidden_method_is_earliest(methods: Seq<PaymentMethod>, method: Seq<char>)
    ensures
        match first_hidden_method(methods, method) {
            Some(m) => exists|i: int|
                0 <= i < methods.len() && methods[i] == m && m.name@ != method && (forall|j: int|
                    0 <= j < i ==> methods[j].name@ == method),
            None => forall|i: int| 0 <= i < methods.len() ==> methods[i].name@ == method,
        },
    decreases methods.len(),
{
    if methods.len() == 0 {
    } else if methods.first().name@ != method {
        let m = methods.first();
        assert(methods[0] == m && m.name@ != method && (forall|j: int|
            0 <= j < 0 ==> methods[j].name@ == method));
    } else {
        lemma_first_hidden_method_is_earliest(methods.drop_first(), method);
        let rest = methods.drop_first();
        match first_hidden_method(rest, method) {
            Some(m) => {
                let i = choose|i: int|
                    0 <= i < rest.len() && rest[i] == m && m.name@ != method && (forall|j: int|
                        0 <= j < i ==> rest[j].name@ == method);
                assert(methods[i + 1] == m);
                assert(forall|j: int| 0 <= j < i + 1 ==> methods[j].name@ == method) by {
                    assert(forall|j: int| 1 <= j < i + 1 ==> methods[j] == rest[j - 1]);
                }
            },
            None => {
                assert(forall|i: int| 1 <= i < methods.len() ==> methods[i] == rest[i - 1]);
            },
        }
    }
}

} // verus!
