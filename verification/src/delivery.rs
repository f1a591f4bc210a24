//! Delivery-option visibility decision function.
//!
//! Given the cart's delivery groups and an optional merchant configuration
//! `{rate, zip}` attached to the delivery customization node, decides
//! whether to hide one delivery option. An option is hidden when some
//! group's delivery address carries a zip equal to the configured zip; the
//! hidden option is the first one, scanning all groups' options in
//! group-then-option order, whose title is present and differs from the
//! configured rate.

use vstd::prelude::*;
use crate::ConfigError;

verus! {

/// Merchant configuration for the delivery function.
#[derive(Debug, PartialEq, Eq)]
pub struct DeliveryConfig {
    pub rate: String,
    pub zip: String,
}

/// A delivery address; only the optional zip matters here.
#[derive(Debug, PartialEq, Eq)]
pub struct DeliveryAddress {
    pub zip: Option<String>,
}

/// One delivery option of a group, with its handle and optional title.
#[derive(Debug, PartialEq, Eq)]
pub struct DeliveryOption {
    pub handle: String,
    pub title: Option<String>,
}

/// A cart delivery group: an optional destination address and the options
/// offered for it.
#[derive(Debug, PartialEq, Eq)]
pub struct DeliveryGroup {
    pub delivery_address: Option<DeliveryAddress>,
    pub delivery_options: Vec<DeliveryOption>,
}

/// Snapshot handed to the delivery function.
#[derive(Debug, PartialEq, Eq)]
pub struct DeliveryInput {
    pub delivery_customization_metafield: Option<String>,
    pub delivery_groups: Vec<DeliveryGroup>,
}

/// Request to hide one delivery option.
#[derive(Debug, PartialEq, Eq)]
pub struct HideOperation {
    pub delivery_option_handle: String,
}

#[derive(Debug, PartialEq, Eq)]
pub struct MoveOperation {
    pub delivery_option_handle: String,
    pub index: u64,
}

#[derive(Debug, PartialEq, Eq)]
pub struct RenameOperation {
    pub delivery_option_handle: String,
    pub title: String,
}

/// One requested customization: a tagged choice among hide, move and
/// rename. This function only ever populates the hide branch, or leaves
/// every branch unset.
#[derive(Debug, PartialEq, Eq)]
pub struct Operation {
    pub hide: Option<HideOperation>,
    pub move_op: Option<MoveOperation>,
    pub rename: Option<RenameOperation>,
}

#[derive(Debug, PartialEq, Eq)]
pub struct FunctionResult {
    pub operations: Vec<Operation>,
}

/// What a structurally valid delivery configuration text decodes to: the
/// `rate` and `zip` field texts, or nothing when the text is invalid.
pub uninterp spec fn delivery_config_of(s: Seq<char>) -> Option<(Seq<char>, Seq<char>)>;

/// Relies on serde_json::from_str, serde_json::Value::get and
/// serde_json::Value::as_str: a delivery configuration is a JSON object
/// whose "rate" and "zip" members are strings, and decoding yields those
/// two texts. The outcome depends on the text alone.
#[verifier::external_body]
fn parse_delivery_config(s: &str) -> (r: Option<DeliveryConfig>)
    ensures
        match r {
            Some(c) => delivery_config_of(s@) == Some((c.rate@, c.zip@)),
            None => delivery_config_of(s@) is None,
        },
{
    let v: serde_json::Value = serde_json::from_str(s).ok()?;
    let rate = v.get("rate")?.as_str()?.to_owned();
    let zip = v.get("zip")?.as_str()?.to_owned();
    Some(DeliveryConfig { rate, zip })
}

/// Whether this group's delivery address carries a zip equal to the
/// configured zip; groups with no address or no zip never match.
pub open spec fn address_zip_matches(g: DeliveryGroup, zip: Seq<char>) -> bool {
    match g.delivery_address {
        Some(a) => match a.zip {
            Some(z) => z@ == zip,
            None => false,
        },
        None => false,
    }
}

/// The hide condition: true iff at least one delivery group's address
/// matches the configured zip.
pub open spec fn spec_is_hide(groups: Seq<DeliveryGroup>, zip: Seq<char>) -> bool {
    exists|i: int| 0 <= i < groups.len() && address_zip_matches(groups[i], zip)
}

/// All delivery options of all groups, flattened in group-then-option
/// order.
pub open spec fn flat_options(groups: Seq<DeliveryGroup>) -> Seq<DeliveryOption>
    decreases groups.len(),
{
    if groups.len() == 0 {
        Seq::empty()
    } else {
        groups.first().delivery_options@ + flat_options(groups.drop_first())
    }
}

/// An option is eligible for hiding when it has a title and that title
/// differs from the configured rate; an absent title never matches.
pub open spec fn option_hideable(o: DeliveryOption, rate: Seq<char>) -> bool {
    match o.title {
        Some(t) => t@ != rate,
        None => false,
    }
}

/// The first hideable option of a flattened option list.
pub open spec fn first_hidden_option(options: Seq<DeliveryOption>, rate: Seq<char>) -> Option<
    DeliveryOption,
>
    decreases options.len(),
{
    if options.len() == 0 {
        None
    } else if option_hideable(options.first(), rate) {
        Some(options.first())
    } else {
        first_hidden_option(options.drop_first(), rate)
    }
}

/// The single operation the function emits for a parsed configuration:
/// move and rename are never set, and hide carries the handle of the
/// first hideable option of the flattened group-order list exactly when
/// the hide condition holds and such an option exists.
pub open spec fn operation_expected(
    op: Operation,
    groups: Seq<DeliveryGroup>,
    rate: Seq<char>,
    zip: Seq<char>,
) -> bool {
    &&& op.move_op is None
    &&& op.rename is None
    &&& if spec_is_hide(groups, zip) {
        match first_hidden_option(flat_options(groups), rate) {
            Some(o) => op.hide matches Some(h) && h.delivery_option_handle@ == o.handle@,
            None => op.hide is None,
        }
    } else {
        op.hide is None
    }
}

/// Scanning a concatenation finds the first hideable option of the left
/// part if there is one, and otherwise whatever the right part yields.
proof fn lemma_first_hidden_option_concat(
    a: Seq<DeliveryOption>,
    b: Seq<DeliveryOption>,
    rate: Seq<char>,
)
    ensures
        first_hidden_option(a + b, rate) == (match first_hidden_option(a, rate) {
            Some(o) => Some(o),
            None => first_hidden_option(b, rate),
        }),
    decreases a.len(),
{
    if a.len() == 0 {
        assert(a + b =~= b);
    } else {
        assert((a + b).first() == a.first());
        assert((a + b).drop_first() =~= a.drop_first() + b);
        lemma_first_hidden_option_concat(a.drop_first(), b, rate);
    }
}

/// Evaluate the hide condition over the delivery groups.
pub fn compute_is_hide(groups: &Vec<DeliveryGroup>, zip: &String) -> (b: bool)
    ensures
        b == spec_is_hide(groups@, zip@),
{
    let mut i: usize = 0;
    while i < groups.len()
        invariant
            0 <= i <= groups@.len(),
            forall|j: int| 0 <= j < i ==> !address_zip_matches(groups@[j], zip@),
        decreases groups@.len() - i,
    {
        match &groups[i].delivery_address {
            Some(a) => match &a.zip {
                Some(z) => {
                    if z.eq(zip) {
                        assert(address_zip_matches(groups@[i as int], zip@));
                        return true;
                    }
                },
                None => {},
            },
            None => {},
        }
        i += 1;
    }
    false
}

/// Find the first hideable option within a single group's option list.
fn find_hidden_in_group(options: &Vec<DeliveryOption>, rate: &String) -> (r: Option<HideOperation>)
    ensures
        match first_hidden_option(options@, rate@) {
            Some(o) => r matches Some(h) && h.delivery_option_handle@ == o.handle@,
            None => r is None,
        },
{
    let mut i: usize = 0;
    proof {
        assert(options@.skip(0) =~= options@);
    }
    while i < options.len()
        invariant
            0 <= i <= options@.len(),
            first_hidden_option(options@, rate@) == first_hidden_option(
                options@.skip(i as int),
                rate@,
            ),
        decreases options@.len() - i,
    {
        proof {
            assert(options@.skip(i as int).first() == options@[i as int]);
            assert(options@.skip(i as int).drop_first() =~= options@.skip(i as int + 1));
        }
        match &options[i].title {
            Some(t) => {
                if !t.eq(rate) {
                    return Some(
                        HideOperation { delivery_option_handle: options[i].handle.clone() },
                    );
                }
            },
            None => {},
        }
        i += 1;
    }
    proof {
        assert(options@.skip(i as int) =~= Seq::<DeliveryOption>::empty());
    }
    None
}

/// Find the first hideable option across all groups, in group-then-option
/// order, as a hide request carrying its handle.
fn find_hidden_option(groups: &Vec<DeliveryGroup>, rate: &String) -> (r: Option<HideOperation>)
    ensures
        match first_hidden_option(flat_options(groups@), rate@) {
            Some(o) => r matches Some(h) && h.delivery_option_handle@ == o.handle@,
            None => r is None,
        },
{
    let mut g: usize = 0;
    proof {
        assert(groups@.skip(0) =~= groups@);
    }
    while g < groups.len()
        invariant
            0 <= g <= groups@.len(),
            first_hidden_option(flat_options(groups@), rate@) == first_hidden_option(
                flat_options(groups@.skip(g as int)),
                rate@,
            ),
        decreases groups@.len() - g,
    {
        proof {
            assert(groups@.skip(g as int).first() == groups@[g as int]);
            assert(groups@.skip(g as int).drop_first() =~= groups@.skip(g as int + 1));
            lemma_first_hidden_option_concat(
                groups@[g as int].delivery_options@,
                flat_options(groups@.skip(g as int + 1)),
                rate@,
            );
        }
        let found = find_hidden_in_group(&groups[g].delivery_options, rate);
        if found.is_some() {
            return found;
        }
        g += 1;
    }
    None
}

/// Decide the delivery customization for an already-decoded
/// configuration: always exactly one operation, populated on its hide
/// branch exactly when the hide condition holds and a hideable option
/// exists.
pub fn decide(delivery_groups: &Vec<DeliveryGroup>, config: &DeliveryConfig) -> (res:
    FunctionResult)
    ensures
        res.operations@.len() == 1,
        operation_expected(res.operations@[0], delivery_groups@, config.rate@, config.zip@),
{
    let is_hide = compute_is_hide(delivery_groups, &config.zip);
    let hide = if is_hide {
        find_hidden_option(delivery_groups, &config.rate)
    } else {
        None
    };
    let mut operations: Vec<Operation> = Vec::new();
    operations.push(Operation { hide, move_op: None, rename: None });
    FunctionResult { operations }
}

/// The delivery decision function. Absent configuration yields an empty
/// operation list; present but structurally invalid configuration fails
/// the invocation; otherwise exactly one operation is emitted as
/// `operation_expected` describes.
pub fn function(input: &DeliveryInput) -> (r: Result<FunctionResult, ConfigError>)
    ensures
        match input.delivery_customization_metafield {
            None => r matches Ok(res) && res.operations@.len() == 0,
            Some(cfg) => match delivery_config_of(cfg@) {
                Some(rz) => r matches Ok(res) && res.operations@.len() == 1
                    && operation_expected(res.operations@[0], input.delivery_groups@, rz.0, rz.1),
                None => r matches Err(ConfigError),
            },
        },
{
    match &input.delivery_customization_metafield {
        None => Ok(FunctionResult { operations: Vec::new() }),
        Some(cfg) => match parse_delivery_config(cfg.as_str()) {
            Some(config) => Ok(decide(&input.delivery_groups, &config)),
            None => Err(ConfigError),
        },
    }
}

/// First-match-wins: when `first_hidden_option` selects an option, that
/// option stands at an index of the flattened list none of whose
/// predecessors is hideable; when it selects none, no option of the list
/// is hideable.
pub proof fn lemma_first_hidden_option_is_earliest(options: Seq<DeliveryOption>, rate: Seq<char>)
    ensures
        match first_hidden_option(options, rate) {
            Some(o) => exists|i: int|
                0 <= i < options.len() && options[i] == o && option_hideable(o, rate) && (
                forall|j: int| 0 <= j < i ==> !option_hideable(options[j], rate)),
            None => forall|i: int| 0 <= i < options.len() ==> !option_hideable(options[i], rate),
        },
    decreases options.len(),
{
    if options.len() == 0 {
    } else if option_hideable(options.first(), rate) {
        let o = options.first();
        assert(options[0] == o && option_hideable(o, rate) && (forall|j: int|
            0 <= j < 0 ==> !option_hideable(options[j], rate)));
    } else {
        lemma_first_hidden_option_is_earliest(options.drop_first(), rate);
        let rest = options.drop_first();
        match first_hidden_option(rest, rate) {
            Some(o) => {
                let i = choose|i: int|
                    0 <= i < rest.len() && rest[i] == o && option_hideable(o, rate) && (
                    forall|j: int| 0 <= j < i ==> !option_hideable(rest[j], rate));
                assert(options[i + 1] == o);
                assert(forall|j: int| 0 <= j < i + 1 ==> !option_hideable(options[j], rate)) by {
                    assert(forall|j: int| 1 <= j < i + 1 ==> options[j] == rest[j - 1]);
                }
            },
            None => {
                assert(forall|i: int| 1 <= i < options.len() ==> options[i] == rest[i - 1]);
            },
        }
    }
}

} // verus!
