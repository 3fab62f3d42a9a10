//! Both identities a Message arrived with, and how they relate.
//!
//! Where both exist, both are recorded and neither is discarded. Five facts per
//! identity: the value, the evidence that authenticated it, the layer it came
//! from, the Party it resolved to, and the alignment result across the pair.
//!
//! Collapsing them into one `identity` field loses the distinction exactly when
//! it is needed, because a dispute about who sent what is a question about
//! both.
use vstd::prelude::*;

use crate::terms::{Established, IdentityClass, Layer, Mechanism, PartyId};

verus! {

/// What an authenticator concluded about one presented identity.
///
/// Every arrival gets one of these, on the transport layer at minimum.
/// Anonymous is an authenticated outcome and not an authentication that was
/// skipped: the claim is "nobody", it is verified as such, and authorization decides
/// afterwards whether nobody may post here.
#[derive(Clone, Copy, Debug, PartialEq, Eq, Structural)]
pub enum Verified {
    /// The mechanism proved the claim.
    Proven,
    /// A name was claimed and the mechanism carries nothing to prove it. X12's
    /// ISA06, EDIFACT's UNB, HL7's MSH-3. What the protocol provides.
    Claimed,
    /// The mechanism could have proved the claim and did not.
    Refused,
}

/// One identity, on one layer, and everything known about it.
#[derive(Clone, Debug, PartialEq, Eq)]
pub struct AuthenticatedIdentity {
    /// How it was proven, or would have been.
    pub mechanism: Mechanism,
    /// The value presented: `CN=partner-x.example`, `ISA06=PARTNERX`.
    pub value: String,
    /// How the first authenticator came by it: passed, inferred or detected.
    ///
    /// It is what an operator asks for when a Journey is disputed. "Proven"
    /// answers whether the claim held; this answers why there was a claim at
    /// all.
    pub established: Established,
    /// What the authenticator concluded.
    pub verified: Verified,
    /// The Party it resolved to, where the registry knew one.
    ///
    /// `None` is ordinary: an unrecognised caller is still authenticated or
    /// refused on its own terms. A Party is a shortcut to an identity, not a
    /// permission, so failing to resolve one decides nothing by itself.
    pub party_id: Option<PartyId>,
    /// Free-form detail the authenticator wants on the record: issuer,
    /// thumbprint, token id, source address. Audit reads this; nothing branches
    /// on it.
    pub evidence: Vec<(String, String)>,
    /// When the authenticator concluded, in unix nanoseconds. Zero means
    /// unrecorded.
    ///
    /// A Journey may take days. What is recorded here is what was true then,
    /// and it is never a licence to act now. Zero is treated as never proven by
    /// anything that judges freshness.
    pub authenticated_at: i128,
}

impl AuthenticatedIdentity {
    /// An identity as an authenticator first records it: no Party, no evidence,
    /// no time.
    pub fn new(mechanism: Mechanism, value: &str, established: Established, verified: Verified) -> (r:
        AuthenticatedIdentity)
        ensures
            r.mechanism == mechanism,
            r.value@ == value@,
            r.established == established,
            r.verified == verified,
            r.party_id is None,
            r.evidence@.len() == 0,
            r.authenticated_at == 0,
    {
        AuthenticatedIdentity {
            mechanism,
            value: value.to_owned(),
            established,
            verified,
            party_id: None,
            evidence: Vec::new(),
            authenticated_at: 0,
        }
    }

    /// Record when the authenticator concluded, in unix nanoseconds.
    pub fn at(self, unix_nanos: i128) -> (r: AuthenticatedIdentity)
        ensures
            r == (AuthenticatedIdentity { authenticated_at: unix_nanos, ..self }),
    {
        let mut identity = self;
        identity.authenticated_at = unix_nanos;
        identity
    }

    /// How long ago this was proven, or `None` if it never said.
    ///
    /// `None` and "a long time ago" are different answers: one is a gap in the
    /// record, the other is a stale credential.
    pub fn age_at(&self, now: i128) -> (r: Option<i128>)
        requires
            self.authenticated_at != 0 ==> i128::MIN <= now - self.authenticated_at <= i128::MAX,
        ensures
            r is None <==> self.authenticated_at == 0,
            r matches Some(age) ==> age == now - self.authenticated_at,
    {
        if self.authenticated_at == 0 {
            return None;
        }
        Some(now - self.authenticated_at)
    }

    /// The same identity, resolved to `party_id`.
    pub fn resolving_to(self, party_id: PartyId) -> (r: AuthenticatedIdentity)
        ensures
            r == (AuthenticatedIdentity { party_id: Some(party_id), ..self }),
    {
        let mut identity = self;
        identity.party_id = Some(party_id);
        identity
    }

    /// The same identity, with one more piece of evidence at the end of its
    /// record.
    pub fn with_evidence(self, name: &str, value: &str) -> (r: AuthenticatedIdentity)
        ensures
            r == (AuthenticatedIdentity { evidence: r.evidence, ..self }),
            r.evidence@.len() == self.evidence@.len() + 1,
            r.evidence@.drop_last() == self.evidence@,
            r.evidence@.last().0@ == name@,
            r.evidence@.last().1@ == value@,
    {
        let mut identity = self;
        identity.evidence.push((name.to_owned(), value.to_owned()));
        identity
    }

    /// The layer the identity came from: its mechanism's.
    pub fn layer(&self) -> (r: Layer)
        ensures
            r == self.mechanism.layer,
    {
        self.mechanism.layer()
    }

    /// The kind of identity: its mechanism's.
    pub fn class(&self) -> (r: IdentityClass)
        ensures
            r == self.mechanism.class,
    {
        self.mechanism.class()
    }
}

/// How much agreement configuration requires between the two layers.
///
/// This is DMARC's structure: SPF proves the envelope sender, DKIM proves the
/// author domain, and DMARC is neither; it is the alignment policy between them
/// plus what to do when alignment fails.
#[derive(Clone, Copy, Debug, PartialEq, Eq, Structural)]
pub enum Alignment {
    /// Record both, never compare. The relaying case, and the default.
    ///
    /// A default of `Strict` would refuse every relayed integration on the
    /// first day, and the failure would present as a routing bug rather than a
    /// policy decision.
    Off,
    /// The same Party through a different endpoint, matched at the Party rather
    /// than at the credential.
    Relaxed,
    /// Transport credential and message identity must resolve to the same
    /// Party.
    Strict,
}

impl Default for Alignment {
    /// Record both, never compare.
    fn default() -> (r: Alignment)
        ensures
            r == Alignment::Off,
    {
        Alignment::Off
    }
}

/// What to do when alignment fails.
#[derive(Clone, Copy, Debug, PartialEq, Eq, Structural)]
pub enum OnMisalignment {
    /// Proceed. The misalignment is recorded here and audited.
    Accept,
    /// To the dead-message queue with both identities and the alignment result.
    Quarantine,
    /// Refused at message authorization.
    Reject,
}

impl Default for OnMisalignment {
    /// Proceed.
    fn default() -> (r: OnMisalignment)
        ensures
            r == OnMisalignment::Accept,
    {
        OnMisalignment::Accept
    }
}

/// The outcome of comparing the two layers.
#[derive(Clone, Copy, Debug, PartialEq, Eq, Structural)]
pub enum AlignmentResult {
    /// Policy is `Off`. Both are on the record and neither was compared.
    NotCompared,
    /// Nothing to compare against: the transport identity is authoritative for
    /// both questions and alignment is vacuously satisfied. This is most of the
    /// estate.
    NoMessageIdentity,
    /// Both layers resolved to one Party.
    Aligned,
    /// Not an error. It is the normal case for a relaying VAN, a service bus,
    /// an API gateway and a managed file transfer broker: every arrangement
    /// where one authenticated connection carries traffic for many Parties.
    Misaligned,
}

impl AlignmentResult {
    /// Whether the two layers were compared and did not agree.
    pub fn is_misaligned(self) -> (r: bool)
        ensures
            r == (self is Misaligned),
    {
        match self {
            AlignmentResult::Misaligned => true,
            _ => false,
        }
    }

    /// The variant's name, as a record shows it.
    pub fn name(self) -> (r: &'static str)
        ensures
            r@ == alignment_result_name(self),
    {
        match self {
            AlignmentResult::NotCompared => "NotCompared",
            AlignmentResult::NoMessageIdentity => "NoMessageIdentity",
            AlignmentResult::Aligned => "Aligned",
            AlignmentResult::Misaligned => "Misaligned",
        }
    }
}

/// The name of each outcome, as a record shows it.
pub open spec fn alignment_result_name(result: AlignmentResult) -> Seq<char> {
    match result {
        AlignmentResult::NotCompared => "NotCompared"@,
        AlignmentResult::NoMessageIdentity => "NoMessageIdentity"@,
        AlignmentResult::Aligned => "Aligned"@,
        AlignmentResult::Misaligned => "Misaligned"@,
    }
}

/// What `policy` concludes about `transport` and `message`.
///
/// `Off` never compares. Otherwise, with no message identity there is nothing
/// to compare; with one, the layers align exactly when both resolved to a Party
/// and it is the same Party. Relaxed and Strict both compare at the Party:
/// alignment is expressed at the Party rather than at the credential, so a
/// partner reaching the platform through two endpoints with two certificates is
/// still one Party.
pub open spec fn alignment_of(
    policy: Alignment,
    transport: AuthenticatedIdentity,
    message: Option<AuthenticatedIdentity>,
) -> AlignmentResult {
    match policy {
        Alignment::Off => AlignmentResult::NotCompared,
        _ => match message {
            None => AlignmentResult::NoMessageIdentity,
            Some(m) => if transport.party_id is Some && transport.party_id == m.party_id {
                AlignmentResult::Aligned
            } else {
                AlignmentResult::Misaligned
            },
        },
    }
}

/// Both identities a Message arrived with, and the alignment across them.
#[derive(Clone, Debug, PartialEq, Eq)]
pub struct IdentityFacts {
    /// Always present. Transport security always has something to verify, even
    /// when that something is a circumstance.
    pub transport: AuthenticatedIdentity,
    /// Present where the representation carries one. A raw CSV carries no
    /// message identity at all.
    pub message: Option<AuthenticatedIdentity>,
    pub alignment: AlignmentResult,
}

/// Who a Journey is for: the message identity where one exists, the transport
/// identity otherwise.
pub open spec fn subject_of(facts: IdentityFacts) -> AuthenticatedIdentity {
    match facts.message {
        Some(m) => m,
        None => facts.transport,
    }
}

/// How a record shows the facts: each identity's mechanism and value, then the
/// alignment.
pub open spec fn described(facts: IdentityFacts) -> Seq<char> {
    "transport "@ + facts.transport.mechanism.name@ + "="@ + facts.transport.value@ + (
    match facts.message {
        Some(m) => " message "@ + m.mechanism.name@ + "="@ + m.value@,
        None => Seq::empty(),
    }) + " alignment "@ + alignment_result_name(facts.alignment)
}

impl IdentityFacts {
    /// Record both and evaluate the policy across them.
    pub fn evaluate(
        policy: Alignment,
        transport: AuthenticatedIdentity,
        message: Option<AuthenticatedIdentity>,
    ) -> (r: IdentityFacts)
        ensures
            r.transport == transport,
            r.message == message,
            r.alignment == alignment_of(policy, transport, message),
    {
        let alignment = match policy {
            Alignment::Off => AlignmentResult::NotCompared,
            Alignment::Relaxed | Alignment::Strict => match &message {
                None => AlignmentResult::NoMessageIdentity,
                Some(m) => match (transport.party_id, m.party_id) {
                    (Some(from_transport), Some(from_message)) => {
                        if from_transport == from_message {
                            AlignmentResult::Aligned
                        } else {
                            AlignmentResult::Misaligned
                        }
                    },
                    // One side resolved to nothing. There is no Party to
                    // agree on, so the policy is not satisfied.
                    _ => AlignmentResult::Misaligned,
                },
            },
        };
        IdentityFacts { transport, message, alignment }
    }

    /// Who the Journey is for: Subscription matching, Party resolution,
    /// contract selection, billing.
    ///
    /// The message identity where one exists, because that is what names the
    /// counterparty the work belongs to. Falls back to transport, which is then
    /// authoritative for both questions.
    pub fn subject(&self) -> (r: &AuthenticatedIdentity)
        ensures
            *r == subject_of(*self),
    {
        match &self.message {
            Some(message) => message,
            None => &self.transport,
        }
    }

    /// Who is accountable for the transmission: audit, rate limiting,
    /// credential revocation, non-repudiation of delivery.
    ///
    /// Always the transport identity. "Which identity wins" is the wrong
    /// question; they answer different ones.
    pub fn accountable(&self) -> (r: &AuthenticatedIdentity)
        ensures
            *r == self.transport,
    {
        &self.transport
    }

    /// The facts as a record shows them:
    /// `transport <mechanism>=<value>[ message <mechanism>=<value>] alignment <result>`.
    pub fn to_string(&self) -> (r: String)
        ensures
            r@ == described(*self),
    {
        let mut r = "transport ".to_owned();
        r.append(self.transport.mechanism.name());
        r.append("=");
        r.append(self.transport.value.as_str());
        match &self.message {
            Some(message) => {
                r.append(" message ");
                r.append(message.mechanism.name());
                r.append("=");
                r.append(message.value.as_str());
            },
            None => {},
        }
        r.append(" alignment ");
        r.append(self.alignment.name());
        r
    }
}

/// With alignment off the layers are never compared, whatever they hold.
pub proof fn law_off_never_compares(
    transport: AuthenticatedIdentity,
    message: Option<AuthenticatedIdentity>,
)
    ensures
        alignment_of(Alignment::Off, transport, message) == AlignmentResult::NotCompared,
{
}

/// Relaxed and Strict both compare at the Party, and today they behave alike.
pub proof fn law_relaxed_and_strict_agree(
    transport: AuthenticatedIdentity,
    message: Option<AuthenticatedIdentity>,
)
    ensures
        alignment_of(Alignment::Relaxed, transport, message) == alignment_of(
            Alignment::Strict,
            transport,
            message,
        ),
{
}

/// Without a message identity, a policy that compares finds nothing to compare
/// against, and the transport identity answers both questions.
pub proof fn law_no_message_identity_is_vacuous(policy: Alignment, transport: AuthenticatedIdentity)
    requires
        policy != Alignment::Off,
    ensures
        alignment_of(policy, transport, None) == AlignmentResult::NoMessageIdentity,
        subject_of(
            IdentityFacts {
                transport,
                message: None,
                alignment: alignment_of(policy, transport, None),
            },
        ) == transport,
{
}

/// The layers align only where both resolved to a Party and it is one Party: a
/// layer that named nobody cannot align.
pub proof fn law_aligned_means_one_party(
    policy: Alignment,
    transport: AuthenticatedIdentity,
    message: Option<AuthenticatedIdentity>,
)
    ensures
        alignment_of(policy, transport, message) == AlignmentResult::Aligned <==> {
            &&& policy != Alignment::Off
            &&& message is Some
            &&& transport.party_id is Some
            &&& transport.party_id == message->0.party_id
        },
{
}

/// Nothing but the policy, the presence of a message identity and the two
/// Parties decides the alignment: evidence, values, mechanisms and times are on
/// the record and nothing branches on them.
pub proof fn law_only_parties_decide(
    policy: Alignment,
    t1: AuthenticatedIdentity,
    m1: Option<AuthenticatedIdentity>,
    t2: AuthenticatedIdentity,
    m2: Option<AuthenticatedIdentity>,
)
    requires
        t1.party_id == t2.party_id,
        m1 is Some <==> m2 is Some,
        m1 is Some ==> m1->0.party_id == m2->0.party_id,
    ensures
        alignment_of(policy, t1, m1) == alignment_of(policy, t2, m2),
{
}

/// Each policy gives its own kind of outcome: `Off` never compares; a
/// comparing policy with no message identity has nothing to compare; and a
/// comparing policy with a message identity always compares, so the layers
/// are then either aligned or misaligned, never reported as uncompared or as
/// lacking a message identity.
pub proof fn law_outcome_kind_follows_policy_and_presence(
    policy: Alignment,
    transport: AuthenticatedIdentity,
    message: Option<AuthenticatedIdentity>,
)
    ensures
        alignment_of(policy, transport, message) is NotCompared <==> policy == Alignment::Off,
        alignment_of(policy, transport, message) is NoMessageIdentity <==> policy
            != Alignment::Off && message is None,
        policy != Alignment::Off && message is Some ==> {
            ||| alignment_of(policy, transport, message) is Aligned
            ||| alignment_of(policy, transport, message) is Misaligned
        },
        policy != Alignment::Off && message is Some && (transport.party_id is None
            || message->0.party_id is None) ==> alignment_of(policy, transport, message)
            is Misaligned,
{
}

/// Who a Journey is for is the message identity whenever there is one, and
/// the transport identity only when there is none; the alignment has no say
/// in it.
pub proof fn law_subject_is_the_message_identity_where_present(facts: IdentityFacts)
    ensures
        facts.message is Some ==> subject_of(facts) == facts.message->0,
        facts.message is None ==> subject_of(facts) == facts.transport,
        forall|other: AlignmentResult|
            #[trigger] subject_of(IdentityFacts { alignment: other, ..facts }) == subject_of(facts),
{
}

/// The record names the transport identity first, then the message identity
/// whenever there is one, then the alignment: it ends with the alignment's
/// name, and everything before that depends on the identities alone, so no
/// alignment drops either identity from the record.
pub proof fn law_record_keeps_both_identities(facts: IdentityFacts, other: AlignmentResult)
    ensures
        ({
            let transport_part = "transport "@ + facts.transport.mechanism.name@ + "="@
                + facts.transport.value@;
            &&& facts.message matches Some(m) ==> (transport_part + " message "@
                + m.mechanism.name@ + "="@ + m.value@).is_prefix_of(described(facts))
            &&& facts.message is None ==> (transport_part + " alignment "@).is_prefix_of(
                described(facts),
            )
        }),
        alignment_result_name(facts.alignment).is_suffix_of(described(facts)),
        ({
            let changed = IdentityFacts { alignment: other, ..facts };
            let n1 = alignment_result_name(facts.alignment).len();
            let n2 = alignment_result_name(other).len();
            described(facts).take(described(facts).len() - n1) == described(changed).take(
                described(changed).len() - n2,
            )
        }),
{
    let transport_part = "transport "@ + facts.transport.mechanism.name@ + "="@
        + facts.transport.value@;
    let message_part = match facts.message {
        Some(m) => " message "@ + m.mechanism.name@ + "="@ + m.value@,
        None => Seq::<char>::empty(),
    };
    let changed = IdentityFacts { alignment: other, ..facts };
    let head = transport_part + message_part + " alignment "@;
    assert(described(facts) =~= head + alignment_result_name(facts.alignment));
    assert(described(changed) =~= head + alignment_result_name(other));
    assert(described(facts).take(head.len() as int) =~= head);
    assert(described(changed).take(head.len() as int) =~= head);
    match facts.message {
        Some(m) => {
            let tm = transport_part + " message "@ + m.mechanism.name@ + "="@ + m.value@;
            assert(head =~= tm + " alignment "@);
            assert(described(facts).subrange(0, tm.len() as int) =~= tm);
        },
        None => {
            assert(head =~= transport_part + " alignment "@);
            assert(described(facts).subrange(0, head.len() as int) =~= head);
        },
    }
    assert(described(facts).subrange(
        described(facts).len() - alignment_result_name(facts.alignment).len(),
        described(facts).len() as int,
    ) =~= alignment_result_name(facts.alignment));
}

} // verus!
