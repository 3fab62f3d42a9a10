//! The names a property travels under when one layer writes it and another
//! reads it: what a transport says about an arrival, which the identity
//! authenticators read, and what the runtime puts in the Message Context, which
//! a route reads.
//!
//! A name read on one side of a boundary and written on the other is one name,
//! declared once, here, below both sides. What each carries, and in what form,
//! is said with it. A transport that has nothing to say under a name writes
//! nothing under it.
use vstd::prelude::*;

use crate::text::{
    ascii_lower, lemma_ascii_lower_concat, lemma_ascii_lower_idempotent, to_ascii_lowercase,
};

verus! {

// The peer, as the transport saw the connection.

/// The socket peer's address: `192.0.2.10:4711`, `[2001:db8::1]:443` or a bare
/// address. Written by the transport, recorded as evidence by identification,
/// checked by authorization.
pub const PEER_ADDRESS: &'static str = "peer.address";

/// The peer's hardware address, as the transport reported it.
pub const PEER_MAC: &'static str = "peer.mac";

// A header, whichever protocol carried it.

/// What stands between a protocol and a header's name.
const HEADER_INFIX: &'static str = ".header.";

/// The protocols whose specification compares a header's name without regard to
/// case, each with the clause that says so. A header of one of these travels
/// under its name in lower case, so two spellings are one header; a header of
/// any other protocol keeps its name exactly as it was written, because there
/// `Trace-Id` and `trace-id` are two headers: Kafka record headers, AMQP
/// application properties, NATS headers and MQTT user properties are compared
/// byte for byte.
pub const HEADER_CASE_FOLDING: [(&'static str, &'static str); 12] = [
    ("http", "RFC 9110 section 5.1: field names are case-insensitive"),
    ("https", "RFC 9110 section 5.1, as http"),
    ("as2", "RFC 4130 section 5: HTTP, whose field names fold (RFC 9110 5.1)"),
    ("as4", "OASIS AS4 profile: ebMS 3.0 over HTTP (RFC 9110 5.1)"),
    ("webdav", "RFC 4918 section 10: HTTP headers (RFC 9110 5.1)"),
    ("websocket", "RFC 6455 section 4.1: the handshake is HTTP (RFC 9110 5.1)"),
    ("ssdp", "UPnP Device Architecture 2.0 section 1: HTTPU, names fold"),
    ("smtp", "RFC 5322 section 1.2.2: header field names are case-insensitive"),
    ("imap", "RFC 5322 section 1.2.2, the messages IMAP carries"),
    ("pop3", "RFC 5322 section 1.2.2, the messages POP3 carries"),
    ("mime", "RFC 2045 section 1 and RFC 5322 section 1.2.2"),
    ("sip", "RFC 3261 section 7.3.1: field names are case-insensitive"),
];

// HTTP, as the transport read the request.

/// What every query parameter travels under, its name after it.
pub const HTTP_QUERY_PREFIX: &'static str = "http.query.";

/// The `Authorization` header, whole: scheme and credentials.
pub const HTTP_AUTHORIZATION: &'static str = "http.header.authorization";

/// The `Cookie` header, whole.
pub const HTTP_COOKIE: &'static str = "http.header.cookie";

/// The `Forwarded` header (RFC 7239), whole.
pub const HTTP_FORWARDED: &'static str = "http.header.forwarded";

/// The `X-Forwarded-For` header, whole.
pub const HTTP_X_FORWARDED_FOR: &'static str = "http.header.x-forwarded-for";

/// A posted form's `SAMLResponse` field, as posted: base64.
pub const HTTP_FORM_SAML_RESPONSE: &'static str = "http.form.samlresponse";

/// The request's method, `POST`.
pub const HTTP_METHOD: &'static str = "http.method";

/// The request's target, as the request line gave it: `/in/orders`.
pub const HTTP_URI: &'static str = "http.uri";

// TLS, as the transport's handshake left it.

/// The peer certificate's subject distinguished name.
pub const TLS_PEER_SUBJECT: &'static str = "tls.peer.subject";

/// The user principal name a smart-card certificate holds as a subjectAltName
/// otherName, OID 1.3.6.1.4.1.311.20.2.3.
pub const TLS_PEER_UPN: &'static str = "tls.peer.upn";

/// The chain the peer sent, as PEM, leaf first.
pub const TLS_PEER_CHAIN: &'static str = "tls.peer.chain";

/// The transport's word that its handshake verified the chain: `true`.
pub const TLS_PEER_VERIFIED: &'static str = "tls.peer.verified";

/// The peer certificate's issuer distinguished name.
pub const TLS_PEER_ISSUER: &'static str = "tls.peer.issuer";

/// The peer certificate's fingerprint, `SHA256:` and its hex.
pub const TLS_PEER_FINGERPRINT: &'static str = "tls.peer.fingerprint";

// SSH, as the transport ran the public-key exchange (RFC 4252).

/// The public key the peer presented, as OpenSSH prints its fingerprint:
/// `SHA256:<base64>`.
pub const SSH_KEY: &'static str = "ssh.key";

/// The user the peer authenticated as.
pub const SSH_USER: &'static str = "ssh.user";

/// The signature the peer made with its key, base64.
pub const SSH_SIGNATURE: &'static str = "ssh.signature";

/// The session identifier that signature covers, base64.
pub const SSH_SESSION: &'static str = "ssh.session";

// NTLM, the handshake legs only the transport saw.

/// The NEGOTIATE (type 1) message of the handshake, base64, where the transport
/// kept it. It rides on to the second authenticator under this name too.
pub const NTLM_NEGOTIATE: &'static str = "ntlm.negotiate";

/// The CHALLENGE (type 2) message the node answered with, base64, where the
/// transport kept it. It rides on to the second authenticator under this name
/// too.
pub const NTLM_CHALLENGE: &'static str = "ntlm.challenge";

// The Message Context, as the runtime wrote it.

/// The Party the message identity resolved to: the sender.
pub const PARTY: &'static str = "xmip.party";

/// The Party a Message is for, where one is named.
pub const PARTY_RECEIVER: &'static str = "xmip.party.receiver";

/// Every name here, for a test that holds them apart.
pub const ALL: [&'static str; 24] = [
    PEER_ADDRESS,
    PEER_MAC,
    HTTP_QUERY_PREFIX,
    HTTP_AUTHORIZATION,
    HTTP_COOKIE,
    HTTP_FORWARDED,
    HTTP_X_FORWARDED_FOR,
    HTTP_FORM_SAML_RESPONSE,
    HTTP_METHOD,
    HTTP_URI,
    TLS_PEER_SUBJECT,
    TLS_PEER_UPN,
    TLS_PEER_CHAIN,
    TLS_PEER_VERIFIED,
    TLS_PEER_ISSUER,
    TLS_PEER_FINGERPRINT,
    SSH_KEY,
    SSH_USER,
    SSH_SIGNATURE,
    SSH_SESSION,
    NTLM_NEGOTIATE,
    NTLM_CHALLENGE,
    PARTY,
    PARTY_RECEIVER,
];

/// Whether `protocol` is, up to ASCII case, one of the protocols of
/// [`HEADER_CASE_FOLDING`].
pub open spec fn folds_case(protocol: Seq<char>) -> bool {
    exists|i: int|
        0 <= i < HEADER_CASE_FOLDING@.len() && #[trigger] ascii_lower(HEADER_CASE_FOLDING@[i].0@)
            == ascii_lower(protocol)
}

/// What every header of `protocol` begins with: the protocol in lower case and
/// `.header.`.
pub open spec fn header_prefix_name(protocol: Seq<char>) -> Seq<char> {
    ascii_lower(protocol) + ".header."@
}

/// The name a header travels under: `<protocol>.header.<name>`, the protocol in
/// lower case, the name in lower case where the protocol folds it and as
/// written everywhere else.
pub open spec fn header_name(protocol: Seq<char>, name: Seq<char>) -> Seq<char> {
    header_prefix_name(protocol) + (if folds_case(protocol) {
        ascii_lower(name)
    } else {
        name
    })
}

/// Whether `protocol`'s specification folds a header name's case, by
/// [`HEADER_CASE_FOLDING`].
pub fn header_folds_case(protocol: &str) -> (r: bool)
    ensures
        r == folds_case(protocol@),
{
    let wanted = to_ascii_lowercase(protocol);
    let n = HEADER_CASE_FOLDING.len();
    let mut i: usize = 0;
    while i < n
        invariant
            n == HEADER_CASE_FOLDING@.len(),
            i <= n,
            wanted@ == ascii_lower(protocol@),
            forall|j: int|
                0 <= j < i ==> #[trigger] ascii_lower(HEADER_CASE_FOLDING@[j].0@) != ascii_lower(
                    protocol@,
                ),
        decreases n - i,
    {
        let (folding, _) = HEADER_CASE_FOLDING[i];
        if to_ascii_lowercase(folding) == wanted {
            return true;
        }
        i = i + 1;
    }
    false
}

/// The name a header travels under, on the arrival and in the Message Context
/// alike: `<protocol>.header.<name>`, such as `http.header.content-type`,
/// `amqp.header.x-priority` or `kafka.header.Trace-Id`.
pub fn header(protocol: &str, name: &str) -> (r: String)
    ensures
        r@ == header_name(protocol@, name@),
{
    let name = if header_folds_case(protocol) {
        to_ascii_lowercase(name)
    } else {
        name.to_owned()
    };
    let mut r = header_prefix(protocol);
    r.append(name.as_str());
    r
}

/// What every header of `protocol` begins with: `http.header.`.
pub fn header_prefix(protocol: &str) -> (r: String)
    ensures
        r@ == header_prefix_name(protocol@),
{
    let mut r = to_ascii_lowercase(protocol);
    r.append(HEADER_INFIX);
    r
}

/// Every header of a protocol begins with that protocol's prefix.
pub proof fn law_header_begins_with_its_prefix(protocol: Seq<char>, name: Seq<char>)
    ensures
        header_prefix_name(protocol).is_prefix_of(header_name(protocol, name)),
{
}

/// A protocol is one word whatever its case: `HTTP` and `http` give the same
/// headers and fold alike.
pub proof fn law_protocol_case_does_not_matter(p1: Seq<char>, p2: Seq<char>, name: Seq<char>)
    requires
        ascii_lower(p1) == ascii_lower(p2),
    ensures
        folds_case(p1) == folds_case(p2),
        header_prefix_name(p1) == header_prefix_name(p2),
        header_name(p1, name) == header_name(p2, name),
{
}

/// Where a protocol folds header names, two spellings that differ only in ASCII
/// case are one header.
pub proof fn law_folding_protocol_makes_spellings_one(
    protocol: Seq<char>,
    n1: Seq<char>,
    n2: Seq<char>,
)
    requires
        folds_case(protocol),
        ascii_lower(n1) == ascii_lower(n2),
    ensures
        header_name(protocol, n1) == header_name(protocol, n2),
{
}

/// Where a protocol does not fold header names, two names are one header only
/// when they are written alike.
pub proof fn law_other_protocols_keep_names_apart(protocol: Seq<char>, n1: Seq<char>, n2: Seq<char>)
    requires
        !folds_case(protocol),
    ensures
        (header_name(protocol, n1) == header_name(protocol, n2)) == (n1 == n2),
{
    let pre = header_prefix_name(protocol);
    if header_name(protocol, n1) == header_name(protocol, n2) {
        assert(n1 =~= header_name(protocol, n1).skip(pre.len() as int));
        assert(n2 =~= header_name(protocol, n2).skip(pre.len() as int));
    }
}

/// The protocol part of a header is always in lower case, and where the
/// protocol folds names the whole header is.
pub proof fn law_folded_headers_are_lower_case(protocol: Seq<char>, name: Seq<char>)
    ensures
        ascii_lower(header_prefix_name(protocol)) == header_prefix_name(protocol),
        folds_case(protocol) ==> ascii_lower(header_name(protocol, name)) == header_name(
            protocol,
            name,
        ),
{
    reveal_strlit(".header.");
    lemma_ascii_lower_idempotent(protocol);
    lemma_ascii_lower_concat(ascii_lower(protocol), ".header."@);
    assert(ascii_lower(".header."@) =~= ".header."@);
    lemma_ascii_lower_concat(header_prefix_name(protocol), ascii_lower(name));
    lemma_ascii_lower_concat(header_prefix_name(protocol), name);
    lemma_ascii_lower_idempotent(name);
}

/// Every protocol of [`HEADER_CASE_FOLDING`] folds header names.
pub proof fn law_listed_protocols_fold(i: int)
    requires
        0 <= i < HEADER_CASE_FOLDING@.len(),
    ensures
        folds_case(HEADER_CASE_FOLDING@[i].0@),
{
    assert(ascii_lower(HEADER_CASE_FOLDING@[i].0@) == ascii_lower(HEADER_CASE_FOLDING@[i].0@));
}

/// The well-known HTTP header names are the names [`header`] builds for them:
/// one spelling, on both sides of the boundary.
pub proof fn law_well_known_http_headers_are_built_names()
    ensures
        HTTP_AUTHORIZATION@ == header_name("http"@, "Authorization"@),
        HTTP_COOKIE@ == header_name("http"@, "Cookie"@),
        HTTP_FORWARDED@ == header_name("http"@, "Forwarded"@),
        HTTP_X_FORWARDED_FOR@ == header_name("http"@, "X-Forwarded-For"@),
{
    reveal_strlit("http");
    reveal_strlit(".header.");
    reveal_strlit("Authorization");
    reveal_strlit("Cookie");
    reveal_strlit("Forwarded");
    reveal_strlit("X-Forwarded-For");
    reveal_strlit("http.header.authorization");
    reveal_strlit("http.header.cookie");
    reveal_strlit("http.header.forwarded");
    reveal_strlit("http.header.x-forwarded-for");
    assert(HEADER_CASE_FOLDING@[0].0@ == "http"@);
    assert(ascii_lower(HEADER_CASE_FOLDING@[0].0@) == ascii_lower("http"@));
    assert(folds_case("http"@));
    assert(ascii_lower("http"@) =~= "http"@);
    assert(header_name("http"@, "Authorization"@) =~= HTTP_AUTHORIZATION@);
    assert(header_name("http"@, "Cookie"@) =~= HTTP_COOKIE@);
    assert(header_name("http"@, "Forwarded"@) =~= HTTP_FORWARDED@);
    assert(header_name("http"@, "X-Forwarded-For"@) =~= HTTP_X_FORWARDED_FOR@);
}

/// A header is its protocol's prefix followed by the name, character for
/// character: each character of the name, folded to ASCII lower case where
/// the protocol folds names and as written where it does not. Nothing of the
/// name is dropped or added.
pub proof fn law_header_is_prefix_then_whole_name(protocol: Seq<char>, name: Seq<char>)
    ensures
        header_name(protocol, name).len() == header_prefix_name(protocol).len() + name.len(),
        header_prefix_name(protocol).is_prefix_of(header_name(protocol, name)),
        forall|i: int|
            0 <= i < name.len() ==> #[trigger] header_name(protocol, name)[header_prefix_name(
                protocol,
            ).len() + i] == if folds_case(protocol) {
                crate::text::ascii_lower_char(name[i])
            } else {
                name[i]
            },
        ascii_lower(header_name(protocol, name).skip(header_prefix_name(protocol).len() as int))
            == ascii_lower(name),
{
    let pre = header_prefix_name(protocol);
    let h = header_name(protocol, name);
    assert(h.skip(pre.len() as int) =~= (if folds_case(protocol) {
        ascii_lower(name)
    } else {
        name
    }));
    lemma_ascii_lower_idempotent(name);
}

/// A protocol folds header names only when it is, up to ASCII case, one of
/// the protocols of [`HEADER_CASE_FOLDING`]; any other protocol keeps every
/// name exactly as written.
pub proof fn law_only_listed_protocols_fold(protocol: Seq<char>, name: Seq<char>)
    ensures
        folds_case(protocol) ==> exists|i: int|
            0 <= i < HEADER_CASE_FOLDING@.len() && #[trigger] ascii_lower(
                HEADER_CASE_FOLDING@[i].0@,
            ) == ascii_lower(protocol),
        (forall|i: int|
            0 <= i < HEADER_CASE_FOLDING@.len() ==> #[trigger] ascii_lower(
                HEADER_CASE_FOLDING@[i].0@,
            ) != ascii_lower(protocol)) ==> !folds_case(protocol) && header_name(protocol, name)
            == header_prefix_name(protocol) + name,
{
}

} // verus!
