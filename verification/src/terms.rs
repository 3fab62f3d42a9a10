//! The terms an identity is described in: the Party it may resolve to, the
//! layer it arrived on, the mechanism that proved it or would have, what kind
//! of identity that mechanism yields, and how the first authenticator came by
//! the claim.
use vstd::prelude::*;

verus! {

/// A Party: the registry's handle for a counterparty, compared by its number
/// alone.
#[derive(Clone, Copy, Debug, PartialEq, Eq, Structural, Hash)]
pub struct PartyId(pub u64);

impl PartyId {
    /// The Party with number `id`.
    pub fn new(id: u64) -> (r: PartyId)
        ensures
            r.0 == id,
    {
        PartyId(id)
    }

    /// The Party's number.
    pub fn get(&self) -> (r: u64)
        ensures
            r == self.0,
    {
        self.0
    }
}

/// The layer an identity arrived on.
#[derive(Clone, Copy, Debug, PartialEq, Eq, Structural, Hash)]
pub enum Layer {
    /// The connection that carried the Message: a certificate, a key, an
    /// address.
    Transport,
    /// The Message itself: an envelope's or a header's sender.
    Message,
}

/// What kind of identity a mechanism yields.
#[derive(Clone, Copy, Debug, PartialEq, Eq, Structural, Hash)]
pub enum IdentityClass {
    /// The claim is "nobody", and it is verified as such.
    Anonymous,
    /// The claim names someone.
    Named,
}

/// How the first authenticator came by a claim.
#[derive(Clone, Copy, Debug, PartialEq, Eq, Structural, Hash)]
pub enum Established {
    /// The claim was handed over as such.
    Passed,
    /// The claim was inferred from the circumstances of the arrival.
    Inferred,
    /// The claim was found in the content.
    Detected,
}

/// A way of proving a claim: its name, the layer it works on and the kind of
/// identity it yields.
#[derive(Clone, Debug, PartialEq, Eq, Hash)]
pub struct Mechanism {
    pub name: String,
    pub layer: Layer,
    pub class: IdentityClass,
}

impl Mechanism {
    /// A mechanism named `name`, on `layer`, yielding identities of `class`.
    pub fn new(name: &str, layer: Layer, class: IdentityClass) -> (r: Mechanism)
        ensures
            r.name@ == name@,
            r.layer == layer,
            r.class == class,
    {
        Mechanism { name: name.to_owned(), layer, class }
    }

    /// The mechanism's name, as a record shows it.
    pub fn name(&self) -> (r: &str)
        ensures
            r@ == self.name@,
    {
        self.name.as_str()
    }

    /// The layer the mechanism works on.
    pub fn layer(&self) -> (r: Layer)
        ensures
            r == self.layer,
    {
        self.layer
    }

    /// The kind of identity the mechanism yields.
    pub fn class(&self) -> (r: IdentityClass)
        ensures
            r == self.class,
    {
        self.class
    }
}

} // verus!
