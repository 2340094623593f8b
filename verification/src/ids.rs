//! Entity identifiers.  On the wire each renders as a dashed text id; here
//! an id is the plain values that make it unique, compared field by field.

use crate::types::{ChainId, Owner};
use vstd::prelude::*;

verus! {

/// A product id: unique per chain and creation time.  It renders as the
/// creation timestamp and the chain id joined by a dash.
#[derive(Clone, Copy, Debug, Eq, Hash)]
pub struct ProductId {
    pub created_at: u64,
    pub chain_id: ChainId,
}

impl PartialEq for ProductId {
    fn eq(&self, other: &ProductId) -> (r: bool) {
        self.created_at == other.created_at && self.chain_id == other.chain_id
    }
}

impl vstd::std_specs::cmp::PartialEqSpecImpl for ProductId {
    open spec fn obeys_eq_spec() -> bool {
        true
    }

    open spec fn eq_spec(&self, other: &ProductId) -> bool {
        self.created_at == other.created_at && self.chain_id == other.chain_id
    }
}

/// A purchase id: unique per chain and purchase time.  It renders as the
/// word `purchase`, the timestamp and the chain id joined by dashes.
#[derive(Clone, Copy, Debug, Eq, Hash)]
pub struct PurchaseId {
    pub created_at: u64,
    pub chain_id: ChainId,
}

impl PartialEq for PurchaseId {
    fn eq(&self, other: &PurchaseId) -> (r: bool) {
        self.created_at == other.created_at && self.chain_id == other.chain_id
    }
}

impl vstd::std_specs::cmp::PartialEqSpecImpl for PurchaseId {
    open spec fn obeys_eq_spec() -> bool {
        true
    }

    open spec fn eq_spec(&self, other: &PurchaseId) -> bool {
        self.created_at == other.created_at && self.chain_id == other.chain_id
    }
}

/// A content-subscription id: the subscriber, the author, and the payment
/// time.  It renders as the word `sub` and those parts joined by dashes.
#[derive(Clone, Copy, Debug, Eq, Hash)]
pub struct SubscriptionId {
    pub subscriber: Owner,
    pub author: Owner,
    pub created_at: u64,
}

impl PartialEq for SubscriptionId {
    fn eq(&self, other: &SubscriptionId) -> (r: bool) {
        self.subscriber == other.subscriber && self.author == other.author && self.created_at
            == other.created_at
    }
}

impl vstd::std_specs::cmp::PartialEqSpecImpl for SubscriptionId {
    open spec fn obeys_eq_spec() -> bool {
        true
    }

    open spec fn eq_spec(&self, other: &SubscriptionId) -> bool {
        self.subscriber == other.subscriber && self.author == other.author && self.created_at
            == other.created_at
    }
}

pub broadcast proof fn lemma_product_id_concrete_eq()
    ensures
        #[trigger] vstd::laws_eq::obeys_concrete_eq::<ProductId>(),
{
    reveal(vstd::laws_eq::obeys_concrete_eq);
}

pub broadcast proof fn lemma_purchase_id_concrete_eq()
    ensures
        #[trigger] vstd::laws_eq::obeys_concrete_eq::<PurchaseId>(),
{
    reveal(vstd::laws_eq::obeys_concrete_eq);
}

pub broadcast proof fn lemma_subscription_id_concrete_eq()
    ensures
        #[trigger] vstd::laws_eq::obeys_concrete_eq::<SubscriptionId>(),
{
    reveal(vstd::laws_eq::obeys_concrete_eq);
}


} // verus!
