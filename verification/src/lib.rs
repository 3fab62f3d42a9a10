//! Message Context: what accumulates as a Message is handled.
//!
//! Content is immutable and context accumulates. Promoted properties land here
//! as values under their names, and so does the identity a Message arrived
//! with: both layers of it.
//!
//! [`property`] holds every name a property travels under when one layer writes
//! it and another reads it: a transport and the identity authenticators, the
//! runtime and a route.

pub mod context;
pub mod identity;
pub mod property;
pub mod terms;
pub mod text;

pub use context::{ContextValue, MessageContext};
pub use identity::{
    Alignment, AlignmentResult, AuthenticatedIdentity, IdentityFacts, OnMisalignment, Verified,
};
pub use terms::{Established, IdentityClass, Layer, Mechanism, PartyId};
