//! The header of a token: what the issuer may set, and what goes on the wire around it.

use vstd::prelude::*;
use vstd::utf8::encode_utf8;

verus! {

/// The part of a token's header that its issuer sets.
///
/// Every field helps the reader find the verifying key; none of them names the algorithm.
/// A reader gets these values from whoever sent the token, so each needs checking before
/// it is relied on.
#[derive(Debug)]
pub struct Header {
    /// Where the key set with the signing key is found (`jku`).
    pub key_set_url: Option<String>,
    /// Which key signed the token (`kid`).
    pub key_id: Option<String>,
    /// Where the certificate of the signing key is found (`x5u`).
    pub certificate_url: Option<String>,
    /// The thumbprint of that certificate (`x5t`).
    pub certificate_thumbprint: Option<String>,
    /// What kind of object the application takes this to be (`typ`).
    pub signature_type: Option<String>,
}

/// The header as it stands on the wire: the issuer's fields, the name of the algorithm and
/// the tag that says how the claims are encoded.
#[derive(Debug)]
pub struct CompleteHeader {
    /// The name of the algorithm (`alg`).
    pub algorithm: String,
    /// How the claims are encoded (`cty`); left out for the structured-object encoding.
    pub content_type: Option<String>,
    /// The issuer's fields, on the same level as the two above.
    pub inner: Header,
}

/// How the claims of a token are encoded.
#[derive(Debug, Clone, Copy, PartialEq, Eq, Structural)]
pub enum ContentType {
    /// As a structured-object text.
    Json,
    /// As a binary map.
    Cbor,
}

/// The tag `json`.
pub open spec fn json_tag() -> Seq<u8> {
    seq![106u8, 115u8, 111u8, 110u8]
}

/// The tag `cbor`.
pub open spec fn cbor_tag() -> Seq<u8> {
    seq![99u8, 98u8, 111u8, 114u8]
}

/// A capital letter as its small one, any other byte as it is.
pub open spec fn folded(byte: u8) -> u8 {
    if 65 <= byte <= 90 {
        (byte + 32) as u8
    } else {
        byte
    }
}

/// The two texts are the same but for the case of their letters.
pub open spec fn same_ignoring_case(left: Seq<u8>, right: Seq<u8>) -> bool {
    &&& left.len() == right.len()
    &&& forall|i: int| 0 <= i < left.len() ==> folded(#[trigger] left[i]) == folded(right[i])
}

/// The encoding that a content-type tag stands for: the structured-object one where the
/// tag is absent or reads `json`, the binary map where it reads `cbor`, in any case of the
/// letters; none for any other tag.
pub open spec fn content_type_of(tag: Option<Seq<u8>>) -> Option<ContentType> {
    match tag {
        None => Some(ContentType::Json),
        Some(text) => if same_ignoring_case(text, json_tag()) {
            Some(ContentType::Json)
        } else if same_ignoring_case(text, cbor_tag()) {
            Some(ContentType::Cbor)
        } else {
            None
        },
    }
}

/// The bytes of an optional text.
pub open spec fn tag_bytes(tag: Option<String>) -> Option<Seq<u8>> {
    match tag {
        Some(text) => Some(encode_utf8(text@)),
        None => None,
    }
}

/// The characters of an optional text.
pub open spec fn text_of(text: Option<String>) -> Option<Seq<char>> {
    match text {
        Some(text) => Some(text@),
        None => None,
    }
}

/// `complete` is `inner` with the name `algorithm` and the tag `content_type` put around it.
pub open spec fn is_stamped(
    complete: CompleteHeader,
    algorithm: Seq<char>,
    content_type: Option<Seq<char>>,
    inner: Header,
) -> bool {
    &&& complete.algorithm@ == algorithm
    &&& text_of(complete.content_type) == content_type
    &&& complete.inner == inner
}

/// The two headers read the same, field by field.
pub open spec fn same_fields(left: Header, right: Header) -> bool {
    &&& text_of(left.key_set_url) == text_of(right.key_set_url)
    &&& text_of(left.key_id) == text_of(right.key_id)
    &&& text_of(left.certificate_url) == text_of(right.certificate_url)
    &&& text_of(left.certificate_thumbprint) == text_of(right.certificate_thumbprint)
    &&& text_of(left.signature_type) == text_of(right.signature_type)
}

/// The two headers read the same on the wire: in the name of the algorithm, in the tag of
/// the content type, and field by field.
pub open spec fn same_header(left: CompleteHeader, right: CompleteHeader) -> bool {
    &&& left.algorithm@ == right.algorithm@
    &&& text_of(left.content_type) == text_of(right.content_type)
    &&& same_fields(left.inner, right.inner)
}

fn fold(byte: u8) -> (r: u8)
    ensures
        r == folded(byte),
{
    if 65 <= byte && byte <= 90 {
        byte + 32
    } else {
        byte
    }
}

/// Compares two texts without regard to the case of their letters.
pub fn eq_ignoring_case(left: &[u8], right: &[u8]) -> (r: bool)
    ensures
        r == same_ignoring_case(left@, right@),
{
    if left.len() != right.len() {
        return false;
    }
    let mut at: usize = 0;
    while at < left.len()
        invariant
            left@.len() == right@.len(),
            at <= left@.len(),
            forall|i: int| 0 <= i < at ==> folded(#[trigger] left@[i]) == folded(right@[i]),
        decreases left@.len() - at,
    {
        if fold(left[at]) != fold(right[at]) {
            return false;
        }
        at = at + 1;
    }
    true
}

fn clone_text(text: &Option<String>) -> (r: Option<String>)
    ensures
        r == *text,
{
    match text {
        Some(s) => Some(s.clone()),
        None => None,
    }
}

impl Clone for Header {
    fn clone(&self) -> (r: Self)
        ensures
            r == *self,
    {
        Header {
            key_set_url: clone_text(&self.key_set_url),
            key_id: clone_text(&self.key_id),
            certificate_url: clone_text(&self.certificate_url),
            certificate_thumbprint: clone_text(&self.certificate_thumbprint),
            signature_type: clone_text(&self.signature_type),
        }
    }
}

impl Default for Header {
    /// The header with no field set.
    fn default() -> (r: Self)
        ensures
            r.key_set_url is None,
            r.key_id is None,
            r.certificate_url is None,
            r.certificate_thumbprint is None,
            r.signature_type is None,
    {
        Header {
            key_set_url: None,
            key_id: None,
            certificate_url: None,
            certificate_thumbprint: None,
            signature_type: None,
        }
    }
}

impl Clone for CompleteHeader {
    fn clone(&self) -> (r: Self)
        ensures
            r == *self,
    {
        CompleteHeader {
            algorithm: self.algorithm.clone(),
            content_type: clone_text(&self.content_type),
            inner: self.inner.clone(),
        }
    }
}

impl CompleteHeader {
    /// Puts the name of the algorithm and the content-type tag around the issuer's fields.
    pub fn stamp(algorithm: &str, content_type: Option<&str>, inner: Header) -> (r: Self)
        ensures
            is_stamped(
                r,
                algorithm@,
                match content_type {
                    Some(tag) => Some(tag@),
                    None => None,
                },
                inner,
            ),
    {
        let tag = match content_type {
            Some(tag) => Some(tag.to_owned()),
            None => None,
        };
        CompleteHeader { algorithm: algorithm.to_owned(), content_type: tag, inner }
    }
}

impl ContentType {
    /// Reads a content-type tag; a tag that names no known encoding comes back as the
    /// error.
    pub fn from_tag(tag: Option<String>) -> (r: Result<ContentType, String>)
        ensures
            match r {
                Ok(content_type) => content_type_of(tag_bytes(tag)) == Some(content_type),
                Err(unknown) => tag == Some(unknown) && content_type_of(tag_bytes(tag)) is None,
            },
    {
        match tag {
            None => Ok(ContentType::Json),
            Some(text) => {
                let bytes = text.as_str().as_bytes();
                let json: [u8; 4] = [106, 115, 111, 110];
                let cbor: [u8; 4] = [99, 98, 111, 114];
                assert(json@ == json_tag());
                assert(cbor@ == cbor_tag());
                if eq_ignoring_case(bytes, json.as_slice()) {
                    Ok(ContentType::Json)
                } else if eq_ignoring_case(bytes, cbor.as_slice()) {
                    Ok(ContentType::Cbor)
                } else {
                    Err(text)
                }
            },
        }
    }
}

} // verus!
