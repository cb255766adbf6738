//! The shape of a token on the wire: three segments joined by two separators.

use vstd::prelude::*;

verus! {

/// The byte that separates the segments of a token: a dot.
pub const SEPARATOR: u8 = 46;

/// How many separators `text` holds.
pub open spec fn separators(text: Seq<u8>) -> nat
    decreases text.len(),
{
    if text.len() == 0 {
        0
    } else if text.last() == SEPARATOR {
        separators(text.drop_last()) + 1
    } else {
        separators(text.drop_last())
    }
}

/// Where the first separator of `text` stands; the length of `text` where it has none.
pub open spec fn first_separator(text: Seq<u8>) -> int
    decreases text.len(),
{
    if text.len() == 0 || text[0] == SEPARATOR {
        0
    } else {
        1 + first_separator(text.drop_first())
    }
}

/// What stands before the first separator.
pub open spec fn head(text: Seq<u8>) -> Seq<u8> {
    text.take(first_separator(text))
}

/// What stands behind the first separator.
pub open spec fn tail(text: Seq<u8>) -> Seq<u8> {
    text.skip(first_separator(text) + 1)
}

/// The first segment of a token.
pub open spec fn header_segment(text: Seq<u8>) -> Seq<u8> {
    head(text)
}

/// The second segment of a token.
pub open spec fn claims_segment(text: Seq<u8>) -> Seq<u8> {
    head(tail(text))
}

/// The third segment of a token.
pub open spec fn signature_segment(text: Seq<u8>) -> Seq<u8> {
    tail(tail(text))
}

/// The part of a token that its signature covers: everything before the last separator.
pub open spec fn signed_span(text: Seq<u8>) -> Seq<u8> {
    text.take(text.len() - signature_segment(text).len() - 1)
}

/// No separator stands in `segment`.
pub open spec fn is_segment(segment: Seq<u8>) -> bool {
    forall|i: int| 0 <= i < segment.len() ==> #[trigger] segment[i] != SEPARATOR
}

/// Two parts with a separator between them.
pub open spec fn dotted(left: Seq<u8>, right: Seq<u8>) -> Seq<u8> {
    left + seq![SEPARATOR] + right
}

/// The three segments joined into a token.
pub open spec fn joined(header: Seq<u8>, claims: Seq<u8>, signature: Seq<u8>) -> Seq<u8> {
    dotted(dotted(header, claims), signature)
}

/// `text` is `header`, `claims` and `signature` joined, and each of them is a segment.
pub open spec fn frames(
    text: Seq<u8>,
    header: Seq<u8>,
    claims: Seq<u8>,
    signature: Seq<u8>,
) -> bool {
    &&& text == joined(header, claims, signature)
    &&& is_segment(header)
    &&& is_segment(claims)
    &&& is_segment(signature)
}

/// The segments of a token, each a part of the text it was taken from.
pub struct Segments<'a> {
    pub header: &'a [u8],
    pub claims: &'a [u8],
    pub signature: &'a [u8],
    pub signed_data: &'a [u8],
}

/// A prefix holds no more separators than the whole.
pub proof fn lemma_separators_prefix(text: Seq<u8>, n: int)
    requires
        0 <= n <= text.len(),
    ensures
        separators(text.take(n)) <= separators(text),
    decreases text.len() - n,
{
    if n < text.len() {
        lemma_separators_prefix(text, n + 1);
        assert(text.take(n + 1).drop_last() == text.take(n));
    } else {
        assert(text.take(n) == text);
    }
}

/// The separators of two parts add up.
pub proof fn lemma_separators_concat(left: Seq<u8>, right: Seq<u8>)
    ensures
        separators(left + right) == separators(left) + separators(right),
    decreases right.len(),
{
    if right.len() == 0 {
        assert(left + right == left);
    } else {
        lemma_separators_concat(left, right.drop_last());
        assert((left + right).drop_last() == left + right.drop_last());
    }
}

/// A segment is a text without separators.
pub proof fn lemma_segment_separators(segment: Seq<u8>)
    ensures
        is_segment(segment) <==> separators(segment) == 0,
    decreases segment.len(),
{
    if segment.len() > 0 {
        let front = segment.drop_last();
        lemma_segment_separators(front);
        if is_segment(segment) {
            assert forall|i: int| 0 <= i < front.len() implies #[trigger] front[i]
                != SEPARATOR by {
                assert(front[i] == segment[i]);
            }
        }
        if separators(segment) == 0 {
            assert forall|i: int| 0 <= i < segment.len() implies #[trigger] segment[i]
                != SEPARATOR by {
                if i < front.len() {
                    assert(front[i] == segment[i]);
                }
            }
        }
    }
}

/// The first separator is at `at` where nothing before `at` is a separator and `at` is one,
/// or the end.
pub proof fn lemma_first_separator(text: Seq<u8>, at: int)
    requires
        0 <= at <= text.len(),
        forall|i: int| 0 <= i < at ==> #[trigger] text[i] != SEPARATOR,
        at < text.len() ==> text[at] == SEPARATOR,
    ensures
        first_separator(text) == at,
    decreases at,
{
    if at > 0 {
        let rest = text.drop_first();
        assert forall|i: int| 0 <= i < at - 1 implies #[trigger] rest[i] != SEPARATOR by {
            assert(rest[i] == text[i + 1]);
        }
        lemma_first_separator(rest, at - 1);
    }
}

/// Two parts with a separator between them come apart at that separator, if the left part
/// holds none.
pub proof fn lemma_dotted(left: Seq<u8>, right: Seq<u8>)
    requires
        is_segment(left),
    ensures
        head(dotted(left, right)) == left,
        tail(dotted(left, right)) == right,
        separators(dotted(left, right)) == 1 + separators(right),
{
    let text = dotted(left, right);
    let dot = seq![SEPARATOR];
    lemma_first_separator(text, left.len() as int);
    assert(text.take(left.len() as int) == left);
    assert(text.skip(left.len() as int + 1) == right);
    lemma_separators_concat(left + dot, right);
    lemma_separators_concat(left, dot);
    lemma_segment_separators(left);
    assert(dot.last() == SEPARATOR);
    assert(separators(dot.drop_last()) == 0);
    assert(separators(dot) == 1);
}

/// Joining is associative: the header stands before the rest.
pub proof fn lemma_joined(header: Seq<u8>, claims: Seq<u8>, signature: Seq<u8>)
    ensures
        joined(header, claims, signature) == dotted(header, dotted(claims, signature)),
{
    assert(joined(header, claims, signature) == dotted(header, dotted(claims, signature)));
}

/// A token has one framing: the segments that frame a text are the ones that the text is
/// taken apart into, the signed span is the first two with their separator, and the text
/// holds two separators.
pub proof fn lemma_frames(text: Seq<u8>, header: Seq<u8>, claims: Seq<u8>, signature: Seq<u8>)
    requires
        frames(text, header, claims, signature),
    ensures
        header_segment(text) == header,
        claims_segment(text) == claims,
        signature_segment(text) == signature,
        signed_span(text) == dotted(header, claims),
        separators(text) == 2,
{
    lemma_joined(header, claims, signature);
    lemma_dotted(header, dotted(claims, signature));
    lemma_dotted(claims, signature);
    lemma_segment_separators(signature);
    assert(text.take(text.len() - signature.len() - 1) == dotted(header, claims));
}

/// Takes `text` apart at its separators, if it holds exactly two.
pub fn split<'a>(text: &'a [u8]) -> (r: Option<Segments<'a>>)
    ensures
        r is Some <==> separators(text@) == 2,
        r matches Some(s) ==> {
            &&& frames(text@, s.header@, s.claims@, s.signature@)
            &&& s.header@ == header_segment(text@)
            &&& s.claims@ == claims_segment(text@)
            &&& s.signature@ == signature_segment(text@)
            &&& s.signed_data@ == signed_span(text@)
        },
{
    let len = text.len();
    let mut first: usize = 0;
    let mut second: usize = 0;
    let mut found: usize = 0;
    let mut at: usize = 0;
    while at < len
        invariant
            len == text@.len(),
            at <= len,
            found <= 2,
            found == separators(text@.take(at as int)),
            found == 0 ==> forall|i: int| 0 <= i < at ==> #[trigger] text@[i] != SEPARATOR,
            found >= 1 ==> first < at && text@[first as int] == SEPARATOR && forall|i: int|
                0 <= i < first ==> #[trigger] text@[i] != SEPARATOR,
            found == 1 ==> forall|i: int| first < i < at ==> #[trigger] text@[i] != SEPARATOR,
            found == 2 ==> first < second < at && text@[second as int] == SEPARATOR && forall|
                i: int,
            | first < i < second ==> #[trigger] text@[i] != SEPARATOR,
            found == 2 ==> forall|i: int| second < i < at ==> #[trigger] text@[i] != SEPARATOR,
        decreases len - at,
    {
        proof {
            assert(text@.take(at + 1).drop_last() == text@.take(at as int));
        }
        if text[at] == SEPARATOR {
            if found == 0 {
                first = at;
            } else if found == 1 {
                second = at;
            } else {
                proof {
                    lemma_separators_prefix(text@, at + 1);
                }
                return None;
            }
            found = found + 1;
        }
        at = at + 1;
    }
    proof {
        assert(text@.take(len as int) == text@);
    }
    if found != 2 {
        return None;
    }
    let header = vstd::slice::slice_subrange(text, 0, first);
    let claims = vstd::slice::slice_subrange(text, first + 1, second);
    let signature = vstd::slice::slice_subrange(text, second + 1, len);
    let signed_data = vstd::slice::slice_subrange(text, 0, second);
    proof {
        assert(text@ == joined(header@, claims@, signature@));
        lemma_frames(text@, header@, claims@, signature@);
        assert(signed_data@ == dotted(header@, claims@));
    }
    Some(Segments { header, claims, signature, signed_data })
}

} // verus!
