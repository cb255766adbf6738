//! What holds between issuing a token, taking it apart and validating it.

use crate::algorithm::{judges, misreads, reads, signs, Algorithm};
use crate::base64url::ascii_bytes;
use crate::claims::Claims;
use crate::codec::{
    carries, compact_issued_as, header_written, is_issued, issued_as, signing_text,
    validated_as,
};
use crate::error::{ParseError, ValidationError};
use crate::header::{
    cbor_tag, content_type_of, folded, is_stamped, json_tag, same_fields, same_header,
    same_ignoring_case, tag_bytes, text_of, CompleteHeader, ContentType, Header,
};
use crate::token::{
    header_bytes, is_parsed, is_well_formed, parsed_as, read_as, Token, UntrustedToken,
    UntrustedTokenView,
};
use crate::wire::{
    claims_segment, header_segment, is_segment, joined, lemma_frames, signed_span,
};
use vstd::prelude::*;
use vstd::utf8::{encode_utf8, is_ascii_chars_encode_utf8};

verus! {

/// The reader of headers takes back what the writer gave: whenever the writer gives a text
/// for a header, reading the bytes of that text succeeds, with a header that reads the same.
pub open spec fn header_reads_back<
    W: FnOnce(&CompleteHeader) -> Result<String, serde_json::Error>,
    R: FnOnce(&[u8]) -> Result<CompleteHeader, serde_json::Error>,
>(write_header: W, read_header: R) -> bool {
    forall|
        complete: CompleteHeader,
        text: String,
        outcome: Result<CompleteHeader, serde_json::Error>,
    |
        #![trigger
            call_ensures(write_header, (&complete,), Ok::<String, serde_json::Error>(text)),
            read_as(read_header, encode_utf8(text@), outcome),
        ]
        call_ensures(write_header, (&complete,), Ok::<String, serde_json::Error>(text)) && read_as(
            read_header,
            encode_utf8(text@),
            outcome,
        ) ==> (outcome matches Ok(back) && same_header(back, complete))
}

/// The reader of structured-object claims takes `claims` back from what the writer gave
/// for them.
pub open spec fn json_claims_read_back<
    T,
    W: FnOnce(&Claims<T>) -> Result<String, serde_json::Error>,
    R: FnOnce(&[u8]) -> Result<Claims<T>, serde_json::Error>,
>(write_claims: W, read_claims: R, claims: &Claims<T>) -> bool {
    forall|text: String, outcome: Result<Claims<T>, serde_json::Error>|
        #![trigger read_as(read_claims, encode_utf8(text@), outcome)]
        call_ensures(write_claims, (claims,), Ok::<String, serde_json::Error>(text)) && read_as(
            read_claims,
            encode_utf8(text@),
            outcome,
        ) ==> outcome == Ok::<Claims<T>, serde_json::Error>(*claims)
}

/// The reader of binary-map claims takes `claims` back from what the writer gave for them.
pub open spec fn cbor_claims_read_back<
    T,
    W: FnOnce(&Claims<T>) -> Result<Vec<u8>, serde_cbor::Error>,
    R: FnOnce(&[u8]) -> Result<Claims<T>, serde_cbor::Error>,
>(write_claims: W, read_claims: R, claims: &Claims<T>) -> bool {
    forall|bytes: Vec<u8>, outcome: Result<Claims<T>, serde_cbor::Error>|
        #![trigger read_as(read_claims, bytes@, outcome)]
        call_ensures(write_claims, (claims,), Ok::<Vec<u8>, serde_cbor::Error>(bytes)) && read_as(
            read_claims,
            bytes@,
            outcome,
        ) ==> outcome == Ok::<Claims<T>, serde_cbor::Error>(*claims)
}

/// The algorithm accepts under `verifying_key` what it signs with `signing_key`: the bytes
/// of whatever signature it gives for a message always read as a signature, and verifying
/// that signature against the message never fails.
pub open spec fn accepts_its_signatures<A: Algorithm>(
    algorithm: &A,
    signing_key: &A::SigningKey,
    verifying_key: &A::VerifyingKey,
) -> bool {
    forall|message: Seq<u8>, signature: Seq<u8>| #[trigger]
        signs(algorithm, signing_key, message, signature) ==> {
            &&& forall|reason: String| !#[trigger] misreads::<A>(signature, reason)
            &&& forall|read: A::Signature| #[trigger]
                reads::<A>(signature, read) ==> !judges(
                    algorithm,
                    read,
                    verifying_key,
                    message,
                    false,
                )
        }
}

/// Under `verifying_key`, the algorithm accepts for `message` no signature bytes but
/// `signature`: whatever other bytes read as a signature, verifying it against `message`
/// never succeeds.
pub open spec fn accepts_only<A: Algorithm>(
    algorithm: &A,
    verifying_key: &A::VerifyingKey,
    message: Seq<u8>,
    signature: Seq<u8>,
) -> bool {
    forall|other: Seq<u8>, read: A::Signature| #[trigger]
        reads::<A>(other, read) && judges(algorithm, read, verifying_key, message, true)
            ==> other == signature
}

/// The claims bytes of `token` never fail to read in the encoding that it names.
pub open spec fn claims_always_read<
    T,
    RJ: FnOnce(&[u8]) -> Result<Claims<T>, serde_json::Error>,
    RC: FnOnce(&[u8]) -> Result<Claims<T>, serde_cbor::Error>,
>(token: UntrustedTokenView, read_json: RJ, read_cbor: RC) -> bool {
    &&& forall|e: serde_json::Error| !#[trigger]
        read_as(read_json, token.serialized_claims, Err::<Claims<T>, serde_json::Error>(e))
    &&& forall|e: serde_cbor::Error| !#[trigger]
        read_as(read_cbor, token.serialized_claims, Err::<Claims<T>, serde_cbor::Error>(e))
}

/// A token that was issued comes apart into what it was made of.
///
/// Where `text` was issued for the encoded `header` and `claims`, it has three segments
/// that decode, and the bytes that go to the reader of headers are `header`. Where `token`
/// is what `text` came apart into, its claims bytes are `claims`, its signed span is the
/// text that was signed, and its signature bytes are a signature that the algorithm gave
/// for that span under the signing key.
pub proof fn law_issued_token_comes_apart<A: Algorithm>(
    algorithm: &A,
    key: &A::SigningKey,
    header: Seq<u8>,
    claims: Seq<u8>,
    text: Seq<char>,
    complete: CompleteHeader,
    token: UntrustedTokenView,
)
    requires
        is_issued(algorithm, key, header, claims, text),
        is_parsed(encode_utf8(text), complete, token),
    ensures
        is_well_formed(encode_utf8(text)),
        header_bytes(encode_utf8(text)) == header,
        token.serialized_claims == claims,
        token.signed_data == ascii_bytes(signing_text(header, claims)),
        signs(algorithm, key, token.signed_data, token.signature),
{
}

/// A change to the signature segment changes nothing else.
///
/// Two tokens with the same header and claims segments, whatever their signature segments,
/// have the same signed span: validating the second can only differ from validating the
/// first in what is made of the signature.
pub proof fn law_signature_segment_stands_alone(
    header: Seq<u8>,
    claims: Seq<u8>,
    signature: Seq<u8>,
    other: Seq<u8>,
)
    requires
        is_segment(header),
        is_segment(claims),
        is_segment(signature),
        is_segment(other),
    ensures
        header_segment(joined(header, claims, other)) == header_segment(
            joined(header, claims, signature),
        ),
        claims_segment(joined(header, claims, other)) == claims_segment(
            joined(header, claims, signature),
        ),
        signed_span(joined(header, claims, other)) == signed_span(
            joined(header, claims, signature),
        ),
{
    lemma_frames(joined(header, claims, signature), header, claims, signature);
    lemma_frames(joined(header, claims, other), header, claims, other);
}

/// A token with other signature bytes than the accepted ones never validates.
///
/// Let the algorithm accept for the signed span of `token`, under `verifying_key`, no
/// signature bytes but `signature`, and let `token` hold other bytes. Then validating
/// `token` fails; and where `token` names the algorithm and its claims never fail to read,
/// it fails because the signature is malformed or invalid.
pub proof fn law_tampered_signature_is_refused<
    A: Algorithm,
    T,
    RJ: FnOnce(&[u8]) -> Result<Claims<T>, serde_json::Error>,
    RC: FnOnce(&[u8]) -> Result<Claims<T>, serde_cbor::Error>,
>(
    algorithm: &A,
    verifying_key: &A::VerifyingKey,
    token: UntrustedTokenView,
    signature: Seq<u8>,
    read_json: RJ,
    read_cbor: RC,
    validated: Result<Token<T>, ValidationError>,
)
    requires
        validated_as(algorithm, token, verifying_key, read_json, read_cbor, validated),
        accepts_only(algorithm, verifying_key, token.signed_data, signature),
        token.signature != signature,
    ensures
        validated is Err,
        token.algorithm == A::NAME@ && claims_always_read(token, read_json, read_cbor) ==> (
        validated matches Err(ValidationError::InvalidSignature) || validated matches Err(
            ValidationError::MalformedSignature(_),
        )),
{
    if validated is Ok {
        let read = choose|read: A::Signature|
            #[trigger] reads::<A>(token.signature, read) && judges(
                algorithm,
                read,
                verifying_key,
                token.signed_data,
                true,
            );
        assert(reads::<A>(token.signature, read));
    }
}

/// The tag `CBOR`, in whatever text it stands, names the binary map.
pub proof fn lemma_cbor_tag(tag: Option<String>)
    requires
        text_of(tag) == Some("CBOR"@),
    ensures
        content_type_of(tag_bytes(tag)) == Some(ContentType::Cbor),
{
    reveal_strlit("CBOR");
    let text = tag.unwrap()@;
    assert(text =~= seq!['C', 'B', 'O', 'R']);
    is_ascii_chars_encode_utf8(text);
    let bytes = encode_utf8(text);
    assert(bytes.len() == 4);
    assert(bytes[0] == 67 && bytes[1] == 66 && bytes[2] == 79 && bytes[3] == 82);
    assert(folded(bytes[0]) != folded(json_tag()[0]));
    assert(same_ignoring_case(bytes, cbor_tag()));
}

/// Taking an issued token apart gives back what went into it, where the reader of headers
/// takes back what their writer gave.
proof fn lemma_comes_apart<
    'a,
    WH: FnOnce(&CompleteHeader) -> Result<String, serde_json::Error>,
    RH: FnOnce(&[u8]) -> Result<CompleteHeader, serde_json::Error>,
>(
    name: Seq<char>,
    content_type: Option<Seq<char>>,
    expected: ContentType,
    header: Header,
    write_header: WH,
    read_header: RH,
    header_text: String,
    claims: Seq<u8>,
    signature: Seq<u8>,
    text: Seq<u8>,
    parsed: Result<UntrustedToken<'a>, ParseError>,
)
    requires
        header_written(write_header, name, content_type, header, Ok(header_text)),
        carries(text, encode_utf8(header_text@), claims, signature),
        parsed_as(text, read_header, parsed),
        header_reads_back(write_header, read_header),
        forall|tag: Option<String>|
            text_of(tag) == content_type ==> #[trigger] content_type_of(tag_bytes(tag)) == Some(
                expected,
            ),
    ensures
        parsed matches Ok(token) && {
            &&& token@.algorithm == name
            &&& same_fields(token@.header, header)
            &&& token@.content_type == expected
            &&& token@.serialized_claims == claims
            &&& token@.signature == signature
            &&& token@.signed_data == signed_span(text)
        },
{
    let complete = choose|complete: CompleteHeader|
        is_stamped(complete, name, content_type, header) && #[trigger] call_ensures(
            write_header,
            (&complete,),
            Ok::<String, serde_json::Error>(header_text),
        );
    assert(header_bytes(text) == encode_utf8(header_text@));
    match parsed {
        Ok(token) => {
            let back = choose|back: CompleteHeader|
                #[trigger] read_as(read_header, header_bytes(text), Ok(back)) && is_parsed(
                    text,
                    back,
                    token@,
                );
            assert(same_header(back, complete));
            assert(content_type_of(tag_bytes(back.content_type)) == Some(expected));
        },
        Err(ParseError::InvalidTokenStructure) => {},
        Err(ParseError::Base64(_)) => {},
        Err(ParseError::MalformedHeader(e)) => {
            assert(read_as(
                read_header,
                encode_utf8(header_text@),
                Err::<CompleteHeader, serde_json::Error>(e),
            ));
        },
        Err(ParseError::UnsupportedContentType(_)) => {
            let back = choose|back: CompleteHeader|
                #[trigger] read_as(read_header, header_bytes(text), Ok(back))
                    && content_type_of(tag_bytes(back.content_type)) is None;
            assert(same_header(back, complete));
            assert(content_type_of(tag_bytes(back.content_type)) == Some(expected));
        },
    }
}

/// Validating a token that came apart as it was issued succeeds, where the algorithm
/// accepts its signatures and the claims read in the encoding that the token names.
proof fn lemma_validates<
    A: Algorithm,
    T,
    RJ: FnOnce(&[u8]) -> Result<Claims<T>, serde_json::Error>,
    RC: FnOnce(&[u8]) -> Result<Claims<T>, serde_cbor::Error>,
>(
    algorithm: &A,
    signing_key: &A::SigningKey,
    verifying_key: &A::VerifyingKey,
    token: UntrustedTokenView,
    claims: &Claims<T>,
    read_json: RJ,
    read_cbor: RC,
    validated: Result<Token<T>, ValidationError>,
)
    requires
        token.algorithm == A::NAME@,
        signs(algorithm, signing_key, token.signed_data, token.signature),
        accepts_its_signatures(algorithm, signing_key, verifying_key),
        validated_as(algorithm, token, verifying_key, read_json, read_cbor, validated),
        forall|outcome: Result<Claims<T>, serde_json::Error>|
            token.content_type == ContentType::Json && #[trigger] read_as(
                read_json,
                token.serialized_claims,
                outcome,
            ) ==> outcome == Ok::<Claims<T>, serde_json::Error>(*claims),
        forall|outcome: Result<Claims<T>, serde_cbor::Error>|
            token.content_type == ContentType::Cbor && #[trigger] read_as(
                read_cbor,
                token.serialized_claims,
                outcome,
            ) ==> outcome == Ok::<Claims<T>, serde_cbor::Error>(*claims),
    ensures
        validated matches Ok(valid) && valid.spec_claims() == *claims && valid.spec_header()
            == token.header,
{
    match validated {
        Ok(valid) => {
            if token.content_type == ContentType::Json {
                assert(read_as(
                    read_json,
                    token.serialized_claims,
                    Ok::<Claims<T>, serde_json::Error>(valid.spec_claims()),
                ));
            } else {
                assert(read_as(
                    read_cbor,
                    token.serialized_claims,
                    Ok::<Claims<T>, serde_cbor::Error>(valid.spec_claims()),
                ));
            }
        },
        Err(ValidationError::AlgorithmMismatch) => {},
        Err(ValidationError::MalformedSignature(reason)) => {
            assert(misreads::<A>(token.signature, reason));
        },
        Err(ValidationError::MalformedClaims(e)) => {
            assert(read_as(
                read_json,
                token.serialized_claims,
                Err::<Claims<T>, serde_json::Error>(e),
            ));
        },
        Err(ValidationError::MalformedCborClaims(e)) => {
            assert(read_as(
                read_cbor,
                token.serialized_claims,
                Err::<Claims<T>, serde_cbor::Error>(e),
            ));
        },
        Err(ValidationError::InvalidSignature) => {
            let read = choose|read: A::Signature|
                #[trigger] reads::<A>(token.signature, read) && judges(
                    algorithm,
                    read,
                    verifying_key,
                    token.signed_data,
                    false,
                );
            assert(reads::<A>(token.signature, read));
        },
        Err(ValidationError::Expired) => {},
        Err(ValidationError::NotMature) => {},
    }
}

/// The round trip of a token with structured-object claims.
///
/// Let the readers take back what the writers gave, and let the algorithm accept under
/// the verifying key what it signs with the signing key. Then a token that was issued for
/// a header and claims comes apart, validates, and gives back these claims and a header
/// that reads the same.
pub proof fn law_round_trip<
    'a,
    A: Algorithm,
    T,
    WH: FnOnce(&CompleteHeader) -> Result<String, serde_json::Error>,
    WC: FnOnce(&Claims<T>) -> Result<String, serde_json::Error>,
    RH: FnOnce(&[u8]) -> Result<CompleteHeader, serde_json::Error>,
    RJ: FnOnce(&[u8]) -> Result<Claims<T>, serde_json::Error>,
    RC: FnOnce(&[u8]) -> Result<Claims<T>, serde_cbor::Error>,
>(
    algorithm: &A,
    signing_key: &A::SigningKey,
    verifying_key: &A::VerifyingKey,
    header: Header,
    claims: &Claims<T>,
    write_header: WH,
    write_claims: WC,
    read_header: RH,
    read_json: RJ,
    read_cbor: RC,
    text: String,
    parsed: Result<UntrustedToken<'a>, ParseError>,
    validated: Result<Token<T>, ValidationError>,
)
    requires
        issued_as(algorithm, signing_key, header, claims, write_header, write_claims, Ok(text)),
        parsed_as(encode_utf8(text@), read_header, parsed),
        parsed matches Ok(token) ==> validated_as(
            algorithm,
            token@,
            verifying_key,
            read_json,
            read_cbor,
            validated,
        ),
        header_reads_back(write_header, read_header),
        json_claims_read_back(write_claims, read_json, claims),
        accepts_its_signatures(algorithm, signing_key, verifying_key),
    ensures
        parsed is Ok,
        validated matches Ok(valid) && valid.spec_claims() == *claims && same_fields(
            valid.spec_header(),
            header,
        ),
{
    let (header_text, claims_text) = choose|header_text: String, claims_text: String|
        #![trigger encode_utf8(header_text@), encode_utf8(claims_text@)]
        {
            &&& header_written(write_header, A::NAME@, None, header, Ok(header_text))
            &&& call_ensures(write_claims, (claims,), Ok::<String, serde_json::Error>(claims_text))
            &&& is_issued(
                algorithm,
                signing_key,
                encode_utf8(header_text@),
                encode_utf8(claims_text@),
                text@,
            )
        };
    let bytes = encode_utf8(text@);
    let claims_bytes = encode_utf8(claims_text@);
    let signature = choose|signature: Seq<u8>|
        {
            &&& #[trigger] signs(
                algorithm,
                signing_key,
                ascii_bytes(signing_text(encode_utf8(header_text@), claims_bytes)),
                signature,
            )
            &&& signed_span(bytes) == ascii_bytes(
                signing_text(encode_utf8(header_text@), claims_bytes),
            )
            &&& carries(bytes, encode_utf8(header_text@), claims_bytes, signature)
        };
    lemma_comes_apart(
        A::NAME@,
        None,
        ContentType::Json,
        header,
        write_header,
        read_header,
        header_text,
        claims_bytes,
        signature,
        bytes,
        parsed,
    );
    let token = parsed.unwrap()@;
    lemma_validates(
        algorithm,
        signing_key,
        verifying_key,
        token,
        claims,
        read_json,
        read_cbor,
        validated,
    );
}

/// The round trip of a token with binary-map claims.
///
/// As [`law_round_trip`], for a token that was issued with its claims as a binary map.
pub proof fn law_compact_round_trip<
    'a,
    A: Algorithm,
    T,
    WH: FnOnce(&CompleteHeader) -> Result<String, serde_json::Error>,
    WC: FnOnce(&Claims<T>) -> Result<Vec<u8>, serde_cbor::Error>,
    RH: FnOnce(&[u8]) -> Result<CompleteHeader, serde_json::Error>,
    RJ: FnOnce(&[u8]) -> Result<Claims<T>, serde_json::Error>,
    RC: FnOnce(&[u8]) -> Result<Claims<T>, serde_cbor::Error>,
>(
    algorithm: &A,
    signing_key: &A::SigningKey,
    verifying_key: &A::VerifyingKey,
    header: Header,
    claims: &Claims<T>,
    write_header: WH,
    write_claims: WC,
    read_header: RH,
    read_json: RJ,
    read_cbor: RC,
    text: String,
    parsed: Result<UntrustedToken<'a>, ParseError>,
    validated: Result<Token<T>, ValidationError>,
)
    requires
        compact_issued_as(
            algorithm,
            signing_key,
            header,
            claims,
            write_header,
            write_claims,
            Ok(text),
        ),
        parsed_as(encode_utf8(text@), read_header, parsed),
        parsed matches Ok(token) ==> validated_as(
            algorithm,
            token@,
            verifying_key,
            read_json,
            read_cbor,
            validated,
        ),
        header_reads_back(write_header, read_header),
        cbor_claims_read_back(write_claims, read_cbor, claims),
        accepts_its_signatures(algorithm, signing_key, verifying_key),
    ensures
        parsed is Ok,
        validated matches Ok(valid) && valid.spec_claims() == *claims && same_fields(
            valid.spec_header(),
            header,
        ),
{
    let (header_text, claims_bytes) = choose|header_text: String, claims_bytes: Vec<u8>|
        #![trigger encode_utf8(header_text@), claims_bytes@]
        {
            &&& header_written(write_header, A::NAME@, Some("CBOR"@), header, Ok(header_text))
            &&& call_ensures(
                write_claims,
                (claims,),
                Ok::<Vec<u8>, serde_cbor::Error>(claims_bytes),
            )
            &&& is_issued(
                algorithm,
                signing_key,
                encode_utf8(header_text@),
                claims_bytes@,
                text@,
            )
        };
    let bytes = encode_utf8(text@);
    let signature = choose|signature: Seq<u8>|
        {
            &&& #[trigger] signs(
                algorithm,
                signing_key,
                ascii_bytes(signing_text(encode_utf8(header_text@), claims_bytes@)),
                signature,
            )
            &&& signed_span(bytes) == ascii_bytes(
                signing_text(encode_utf8(header_text@), claims_bytes@),
            )
            &&& carries(bytes, encode_utf8(header_text@), claims_bytes@, signature)
        };
    assert forall|tag: Option<String>| text_of(tag) == Some("CBOR"@) implies #[trigger]
        content_type_of(tag_bytes(tag)) == Some(ContentType::Cbor) by {
        lemma_cbor_tag(tag);
    }
    lemma_comes_apart(
        A::NAME@,
        Some("CBOR"@),
        ContentType::Cbor,
        header,
        write_header,
        read_header,
        header_text,
        claims_bytes@,
        signature,
        bytes,
        parsed,
    );
    let token = parsed.unwrap()@;
    lemma_validates(
        algorithm,
        signing_key,
        verifying_key,
        token,
        claims,
        read_json,
        read_cbor,
        validated,
    );
}

/// A token is refused by every algorithm but the one that issued it.
///
/// Let the reader of headers take back what their writer gave. Then a token that one
/// algorithm issued comes apart, and validating it with an algorithm of another name
/// fails with an algorithm mismatch, whatever the keys, the claims and the signature.
pub proof fn law_other_algorithm_is_refused<
    'a,
    A: Algorithm,
    B: Algorithm,
    T,
    WH: FnOnce(&CompleteHeader) -> Result<String, serde_json::Error>,
    WC: FnOnce(&Claims<T>) -> Result<String, serde_json::Error>,
    RH: FnOnce(&[u8]) -> Result<CompleteHeader, serde_json::Error>,
    RJ: FnOnce(&[u8]) -> Result<Claims<T>, serde_json::Error>,
    RC: FnOnce(&[u8]) -> Result<Claims<T>, serde_cbor::Error>,
>(
    issuer: &A,
    signing_key: &A::SigningKey,
    other: &B,
    verifying_key: &B::VerifyingKey,
    header: Header,
    claims: &Claims<T>,
    write_header: WH,
    write_claims: WC,
    read_header: RH,
    read_json: RJ,
    read_cbor: RC,
    text: String,
    parsed: Result<UntrustedToken<'a>, ParseError>,
    validated: Result<Token<T>, ValidationError>,
)
    requires
        A::NAME@ != B::NAME@,
        issued_as(issuer, signing_key, header, claims, write_header, write_claims, Ok(text)),
        parsed_as(encode_utf8(text@), read_header, parsed),
        parsed matches Ok(token) ==> validated_as(
            other,
            token@,
            verifying_key,
            read_json,
            read_cbor,
            validated,
        ),
        header_reads_back(write_header, read_header),
    ensures
        parsed is Ok,
        validated matches Err(ValidationError::AlgorithmMismatch),
{
    let (header_text, claims_text) = choose|header_text: String, claims_text: String|
        #![trigger encode_utf8(header_text@), encode_utf8(claims_text@)]
        {
            &&& header_written(write_header, A::NAME@, None, header, Ok(header_text))
            &&& call_ensures(write_claims, (claims,), Ok::<String, serde_json::Error>(claims_text))
            &&& is_issued(
                issuer,
                signing_key,
                encode_utf8(header_text@),
                encode_utf8(claims_text@),
                text@,
            )
        };
    let bytes = encode_utf8(text@);
    let signature = choose|signature: Seq<u8>|
        {
            &&& #[trigger] signs(
                issuer,
                signing_key,
                ascii_bytes(signing_text(encode_utf8(header_text@), encode_utf8(claims_text@))),
                signature,
            )
            &&& carries(bytes, encode_utf8(header_text@), encode_utf8(claims_text@), signature)
        };
    lemma_comes_apart(
        A::NAME@,
        None,
        ContentType::Json,
        header,
        write_header,
        read_header,
        header_text,
        encode_utf8(claims_text@),
        signature,
        bytes,
        parsed,
    );
}

/// A compact token is refused by every algorithm but the one that issued it.
///
/// As [`law_other_algorithm_is_refused`], for a token that was issued with its claims as a
/// binary map.
pub proof fn law_other_algorithm_is_refused_compact<
    'a,
    A: Algorithm,
    B: Algorithm,
    T,
    WH: FnOnce(&CompleteHeader) -> Result<String, serde_json::Error>,
    WC: FnOnce(&Claims<T>) -> Result<Vec<u8>, serde_cbor::Error>,
    RH: FnOnce(&[u8]) -> Result<CompleteHeader, serde_json::Error>,
    RJ: FnOnce(&[u8]) -> Result<Claims<T>, serde_json::Error>,
    RC: FnOnce(&[u8]) -> Result<Claims<T>, serde_cbor::Error>,
>(
    issuer: &A,
    signing_key: &A::SigningKey,
    other: &B,
    verifying_key: &B::VerifyingKey,
    header: Header,
    claims: &Claims<T>,
    write_header: WH,
    write_claims: WC,
    read_header: RH,
    read_json: RJ,
    read_cbor: RC,
    text: String,
    parsed: Result<UntrustedToken<'a>, ParseError>,
    validated: Result<Token<T>, ValidationError>,
)
    requires
        A::NAME@ != B::NAME@,
        compact_issued_as(
            issuer,
            signing_key,
            header,
            claims,
            write_header,
            write_claims,
            Ok(text),
        ),
        parsed_as(encode_utf8(text@), read_header, parsed),
        parsed matches Ok(token) ==> validated_as(
            other,
            token@,
            verifying_key,
            read_json,
            read_cbor,
            validated,
        ),
        header_reads_back(write_header, read_header),
    ensures
        parsed is Ok,
        validated matches Err(ValidationError::AlgorithmMismatch),
{
    let (header_text, claims_bytes) = choose|header_text: String, claims_bytes: Vec<u8>|
        #![trigger encode_utf8(header_text@), claims_bytes@]
        {
            &&& header_written(write_header, A::NAME@, Some("CBOR"@), header, Ok(header_text))
            &&& call_ensures(
                write_claims,
                (claims,),
                Ok::<Vec<u8>, serde_cbor::Error>(claims_bytes),
            )
            &&& is_issued(
                issuer,
                signing_key,
                encode_utf8(header_text@),
                claims_bytes@,
                text@,
            )
        };
    let bytes = encode_utf8(text@);
    let signature = choose|signature: Seq<u8>|
        {
            &&& #[trigger] signs(
                issuer,
                signing_key,
                ascii_bytes(signing_text(encode_utf8(header_text@), claims_bytes@)),
                signature,
            )
            &&& carries(bytes, encode_utf8(header_text@), claims_bytes@, signature)
        };
    assert forall|tag: Option<String>| text_of(tag) == Some("CBOR"@) implies #[trigger]
        content_type_of(tag_bytes(tag)) == Some(ContentType::Cbor) by {
        lemma_cbor_tag(tag);
    }
    lemma_comes_apart(
        A::NAME@,
        Some("CBOR"@),
        ContentType::Cbor,
        header,
        write_header,
        read_header,
        header_text,
        claims_bytes@,
        signature,
        bytes,
        parsed,
    );
}

} // verus!
