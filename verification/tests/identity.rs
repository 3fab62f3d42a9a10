use xmip_core_context::{
    Alignment, AlignmentResult, AuthenticatedIdentity, Established, IdentityClass, IdentityFacts,
    Layer, Mechanism, OnMisalignment, PartyId, Verified,
};

fn mutual_tls() -> Mechanism {
    Mechanism::new("mutual-tls", Layer::Transport, IdentityClass::Named)
}

fn edi_x12_interchange() -> Mechanism {
    Mechanism::new("edi-x12-interchange", Layer::Message, IdentityClass::Named)
}

fn anonymous() -> Mechanism {
    Mechanism::new("anonymous", Layer::Transport, IdentityClass::Anonymous)
}

fn tls(party: Option<PartyId>) -> AuthenticatedIdentity {
    let identity = AuthenticatedIdentity::new(
        mutual_tls(),
        "CN=van.example",
        Established::Passed,
        Verified::Proven,
    );

    match party {
        Some(party_id) => identity.resolving_to(party_id),
        None => identity,
    }
}

fn isa06(party: Option<PartyId>) -> AuthenticatedIdentity {
    let identity = AuthenticatedIdentity::new(
        edi_x12_interchange(),
        "ISA06=PARTNERX",
        Established::Detected,
        Verified::Claimed,
    );

    match party {
        Some(party_id) => identity.resolving_to(party_id),
        None => identity,
    }
}

#[test]
fn the_default_never_compares() {
    let facts = IdentityFacts::evaluate(
        Alignment::default(),
        tls(Some(PartyId::new(1))),
        Some(isa06(Some(PartyId::new(2)))),
    );

    assert_eq!(facts.alignment, AlignmentResult::NotCompared);
    assert!(!facts.alignment.is_misaligned());
}

#[test]
fn strict_requires_one_party_across_both_layers() {
    let same = IdentityFacts::evaluate(
        Alignment::Strict,
        tls(Some(PartyId::new(1))),
        Some(isa06(Some(PartyId::new(1)))),
    );
    let different = IdentityFacts::evaluate(
        Alignment::Strict,
        tls(Some(PartyId::new(1))),
        Some(isa06(Some(PartyId::new(2)))),
    );

    assert_eq!(same.alignment, AlignmentResult::Aligned);
    assert_eq!(different.alignment, AlignmentResult::Misaligned);
}

#[test]
fn no_message_identity_satisfies_alignment_vacuously() {
    let facts = IdentityFacts::evaluate(Alignment::Strict, tls(Some(PartyId::new(1))), None);

    assert_eq!(facts.alignment, AlignmentResult::NoMessageIdentity);
    assert_eq!(facts.subject(), facts.accountable());
}

#[test]
fn the_two_layers_answer_different_questions() {
    let facts = IdentityFacts::evaluate(
        Alignment::Off,
        tls(Some(PartyId::new(1))),
        Some(isa06(Some(PartyId::new(2)))),
    );

    assert_eq!(facts.subject().party_id, Some(PartyId::new(2)));
    assert_eq!(facts.accountable().party_id, Some(PartyId::new(1)));
}

#[test]
fn a_claimed_identity_is_recorded_as_claimed_not_as_proven() {
    let facts = IdentityFacts::evaluate(Alignment::Off, tls(None), Some(isa06(None)));

    assert_eq!(facts.transport.verified, Verified::Proven);
    assert_eq!(facts.message.as_ref().unwrap().verified, Verified::Claimed);
}

#[test]
fn an_unresolved_party_cannot_align() {
    let facts =
        IdentityFacts::evaluate(Alignment::Strict, tls(Some(PartyId::new(1))), Some(isa06(None)));

    assert_eq!(facts.alignment, AlignmentResult::Misaligned);
}

#[test]
fn anonymous_still_produces_a_transport_identity() {
    let facts = IdentityFacts::evaluate(
        Alignment::Off,
        AuthenticatedIdentity::new(anonymous(), "", Established::Inferred, Verified::Proven),
        None,
    );

    assert_eq!(facts.transport.class(), IdentityClass::Anonymous);
    assert_eq!(facts.transport.verified, Verified::Proven);
}

#[test]
fn evidence_is_kept_for_audit_and_nothing_branches_on_it() {
    let facts = IdentityFacts::evaluate(
        Alignment::Off,
        tls(Some(PartyId::new(1)))
            .with_evidence("issuer", "CN=Example CA")
            .with_evidence("thumbprint", "AB:CD"),
        None,
    );

    assert_eq!(facts.transport.evidence.len(), 2);
}

#[test]
fn evidence_is_kept_in_the_order_it_came() {
    let identity = tls(None)
        .with_evidence("issuer", "CN=Example CA")
        .with_evidence("thumbprint", "AB:CD");
    assert_eq!(
        identity.evidence,
        vec![
            ("issuer".to_string(), "CN=Example CA".to_string()),
            ("thumbprint".to_string(), "AB:CD".to_string()),
        ]
    );
    assert_eq!(identity.value, "CN=van.example");
    assert_eq!(identity.party_id, None);
}

#[test]
fn relaxed_compares_at_the_party_as_strict_does() {
    let same = IdentityFacts::evaluate(
        Alignment::Relaxed,
        tls(Some(PartyId::new(7))),
        Some(isa06(Some(PartyId::new(7)))),
    );
    let unresolved = IdentityFacts::evaluate(Alignment::Relaxed, tls(None), Some(isa06(None)));
    let none = IdentityFacts::evaluate(Alignment::Relaxed, tls(None), None);

    assert_eq!(same.alignment, AlignmentResult::Aligned);
    assert_eq!(unresolved.alignment, AlignmentResult::Misaligned);
    assert_eq!(none.alignment, AlignmentResult::NoMessageIdentity);
}

#[test]
fn evaluate_keeps_both_identities() {
    let transport = tls(Some(PartyId::new(1))).with_evidence("issuer", "CN=Example CA");
    let message = isa06(Some(PartyId::new(2)));
    let facts = IdentityFacts::evaluate(Alignment::Strict, transport.clone(), Some(message.clone()));

    assert_eq!(facts.transport, transport);
    assert_eq!(facts.message, Some(message.clone()));
    assert_eq!(facts.subject(), &message);
    assert_eq!(facts.accountable(), &transport);
}

#[test]
fn only_misaligned_is_misaligned() {
    assert!(AlignmentResult::Misaligned.is_misaligned());
    assert!(!AlignmentResult::Aligned.is_misaligned());
    assert!(!AlignmentResult::NotCompared.is_misaligned());
    assert!(!AlignmentResult::NoMessageIdentity.is_misaligned());
}

#[test]
fn the_defaults_record_and_proceed() {
    assert_eq!(Alignment::default(), Alignment::Off);
    assert_eq!(OnMisalignment::default(), OnMisalignment::Accept);
}

#[test]
fn an_identity_that_never_said_when_has_no_age() {
    let unrecorded = tls(None);
    assert_eq!(unrecorded.authenticated_at, 0);
    assert_eq!(unrecorded.age_at(1_000), None);

    let recorded = tls(None).at(400);
    assert_eq!(recorded.authenticated_at, 400);
    assert_eq!(recorded.age_at(1_000), Some(600));
    assert_eq!(recorded.age_at(100), Some(-300));
}

#[test]
fn the_layer_and_class_are_the_mechanisms() {
    let identity = isa06(None);
    assert_eq!(identity.layer(), Layer::Message);
    assert_eq!(identity.class(), IdentityClass::Named);
    assert_eq!(tls(None).layer(), Layer::Transport);
    assert_eq!(mutual_tls().name(), "mutual-tls");
    assert_eq!(PartyId::new(9).get(), 9);
}

#[test]
fn the_record_shows_both_layers_and_the_alignment() {
    let both = IdentityFacts::evaluate(
        Alignment::Strict,
        tls(Some(PartyId::new(1))),
        Some(isa06(Some(PartyId::new(2)))),
    );
    assert_eq!(
        both.to_string(),
        "transport mutual-tls=CN=van.example message edi-x12-interchange=ISA06=PARTNERX alignment Misaligned"
    );

    let one = IdentityFacts::evaluate(Alignment::Off, tls(None), None);
    assert_eq!(one.to_string(), "transport mutual-tls=CN=van.example alignment NotCompared");
}

#[test]
fn each_outcome_has_its_name() {
    assert_eq!(AlignmentResult::NotCompared.name(), "NotCompared");
    assert_eq!(AlignmentResult::NoMessageIdentity.name(), "NoMessageIdentity");
    assert_eq!(AlignmentResult::Aligned.name(), "Aligned");
    assert_eq!(AlignmentResult::Misaligned.name(), "Misaligned");
}
