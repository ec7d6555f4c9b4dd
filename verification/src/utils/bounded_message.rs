use vstd::prelude::*;
use vstd::utf8::*;
use vstd::string::*;

verus! {

broadcast use vstd::utf8::group_utf8_lib;

/// Maximum message size allowed by the Meshtastic protocol (in bytes).
pub const MAX_MESSAGE_BYTES: usize = 200;

/// Suffix added to truncated messages.
pub const TRUNCATION_SUFFIX: &'static str = "... (truncated)";

/// The characters of [`TRUNCATION_SUFFIX`].
pub open spec fn truncation_suffix() -> Seq<char> {
    seq!['.', '.', '.', ' ', '(', 't', 'r', 'u', 'n', 'c', 'a', 't', 'e', 'd', ')']
}

/// The number of bytes of content kept in front of the suffix at most.
pub open spec fn max_content_bytes() -> int {
    MAX_MESSAGE_BYTES - truncation_suffix().len()
}

/// The largest character boundary of `bytes` at or below `limit`
/// (0 when there is none above 0).
pub open spec fn boundary_at_or_below(bytes: Seq<u8>, limit: int) -> int
    decreases limit,
{
    if limit <= 0 {
        0
    } else if is_char_boundary(bytes, limit) {
        limit
    } else {
        boundary_at_or_below(bytes, limit - 1)
    }
}

/// The UTF-8 bytes that a message with the UTF-8 bytes `bytes` is sent as:
/// unchanged when it fits in `MAX_MESSAGE_BYTES`, otherwise its longest
/// prefix that ends on a character boundary and leaves room for the suffix,
/// followed by the suffix.
pub open spec fn truncated_bytes(bytes: Seq<u8>) -> Seq<u8> {
    if bytes.len() <= MAX_MESSAGE_BYTES {
        bytes
    } else {
        bytes.subrange(0, boundary_at_or_below(bytes, max_content_bytes()))
            + encode_utf8(truncation_suffix())
    }
}

/// The UTF-8 encoding of a concatenation is the concatenation of the encodings.
pub proof fn lemma_encode_utf8_concat(a: Seq<char>, b: Seq<char>)
    ensures
        encode_utf8(a + b) == encode_utf8(a) + encode_utf8(b),
    decreases a.len(),
{
    if a.len() == 0 {
        assert(a + b =~= b);
    } else {
        lemma_encode_utf8_concat(a.drop_first(), b);
        assert((a + b).drop_first() =~= a.drop_first() + b);
        assert((a + b)[0] == a[0]);
    }
}

/// The suffix is 15 ASCII bytes long, and is the literal's text.
pub proof fn lemma_suffix_facts()
    ensures
        TRUNCATION_SUFFIX@ == truncation_suffix(),
        encode_utf8(truncation_suffix()).len() == 15,
        truncation_suffix().len() == 15,
{
    reveal_strlit("... (truncated)");
    assert(TRUNCATION_SUFFIX@ =~= truncation_suffix());
    assert(is_ascii_chars(truncation_suffix()));
}

/// The boundary found lies in `[0, limit]` and is a character boundary.
pub proof fn lemma_boundary_at_or_below(bytes: Seq<u8>, limit: int)
    requires
        valid_utf8(bytes),
    ensures
        0 <= boundary_at_or_below(bytes, limit),
        limit >= 0 ==> boundary_at_or_below(bytes, limit) <= limit,
        is_char_boundary(bytes, boundary_at_or_below(bytes, limit)),
        forall|j: int|
            boundary_at_or_below(bytes, limit) < j <= limit ==> !is_char_boundary(bytes, j),
    decreases limit,
{
    if limit <= 0 {
        assert(is_char_boundary(bytes, 0));
    } else if is_char_boundary(bytes, limit) {
    } else {
        lemma_boundary_at_or_below(bytes, limit - 1);
    }
}

/// A truncated message never exceeds `MAX_MESSAGE_BYTES` bytes.
pub proof fn lemma_truncated_fits(bytes: Seq<u8>)
    requires
        valid_utf8(bytes),
    ensures
        truncated_bytes(bytes).len() <= MAX_MESSAGE_BYTES,
{
    if bytes.len() > MAX_MESSAGE_BYTES {
        lemma_suffix_facts();
        lemma_boundary_at_or_below(bytes, max_content_bytes());
    }
}

/// A message that fits is sent unchanged.
pub proof fn lemma_fitting_message_unchanged(bytes: Seq<u8>)
    requires
        bytes.len() <= MAX_MESSAGE_BYTES,
    ensures
        truncated_bytes(bytes) == bytes,
{
}

/// A message that does not fit is cut at the last character boundary that
/// leaves room for the suffix, and the suffix follows: the kept part is a
/// prefix of the message ending on a character boundary, no longer boundary
/// fits, and the result ends with the suffix.
pub proof fn lemma_long_message_cut(bytes: Seq<u8>)
    requires
        valid_utf8(bytes),
        bytes.len() > MAX_MESSAGE_BYTES,
    ensures
        ({
            let k = boundary_at_or_below(bytes, max_content_bytes());
            &&& 0 <= k <= max_content_bytes()
            &&& is_char_boundary(bytes, k)
            &&& forall|j: int| k < j <= max_content_bytes() ==> !is_char_boundary(bytes, j)
            &&& truncated_bytes(bytes) == bytes.subrange(0, k) + encode_utf8(truncation_suffix())
        }),
        encode_utf8(truncation_suffix()) == truncated_bytes(bytes).subrange(
            truncated_bytes(bytes).len() - 15,
            truncated_bytes(bytes).len() as int,
        ),
{
    lemma_suffix_facts();
    lemma_boundary_at_or_below(bytes, max_content_bytes());
    let k = boundary_at_or_below(bytes, max_content_bytes());
    let t = truncated_bytes(bytes);
    assert(t.subrange(t.len() - 15, t.len() as int) =~= encode_utf8(truncation_suffix()));
}

/// When the byte at offset `max_content_bytes()` starts a character (as in
/// any ASCII message), a message that does not fit comes out exactly
/// `MAX_MESSAGE_BYTES` long.
pub proof fn lemma_cut_on_boundary_is_full_length(bytes: Seq<u8>)
    requires
        valid_utf8(bytes),
        bytes.len() > MAX_MESSAGE_BYTES,
        is_char_boundary(bytes, max_content_bytes()),
    ensures
        truncated_bytes(bytes).len() == MAX_MESSAGE_BYTES,
{
    lemma_suffix_facts();
}

/// The result of truncation is valid UTF-8.
pub proof fn lemma_truncated_valid_utf8(bytes: Seq<u8>)
    requires
        valid_utf8(bytes),
    ensures
        valid_utf8(truncated_bytes(bytes)),
{
    if bytes.len() > MAX_MESSAGE_BYTES {
        lemma_boundary_at_or_below(bytes, max_content_bytes());
        let k = boundary_at_or_below(bytes, max_content_bytes());
        valid_utf8_split(bytes, k);
        valid_utf8_concat(bytes.subrange(0, k), encode_utf8(truncation_suffix()));
    }
}

/// Truncating twice gives the same as truncating once.
pub proof fn lemma_truncation_idempotent(bytes: Seq<u8>)
    requires
        valid_utf8(bytes),
    ensures
        truncated_bytes(truncated_bytes(bytes)) == truncated_bytes(bytes),
{
    lemma_truncated_fits(bytes);
}

/// Truncates a message to fit within Meshtastic's 200-byte limit.
///
/// If the message is already under the limit, it's returned unchanged.
/// If over the limit, it's truncated at a UTF-8 character boundary and
/// a "... (truncated)" suffix is appended.
pub fn truncate_message(message: &str) -> (r: String)
    ensures
        encode_utf8(r@) == truncated_bytes(encode_utf8(message@)),
{
    let ghost bytes = encode_utf8(message@);
    let raw = message.as_bytes();
    proof {
        // a slice's length fits in usize, so the byte count does too
        assert(vstd::slice::spec_slice_len(raw) == raw@.len()) by {
            broadcast use vstd::slice::group_slice_axioms;
        }
    }
    let message_bytes = message.len();

    if message_bytes <= MAX_MESSAGE_BYTES {
        return message.to_owned();
    }
    proof {
        lemma_suffix_facts();
        is_ascii_chars_encode_utf8(TRUNCATION_SUFFIX@);
    }
    let suffix_bytes = TRUNCATION_SUFFIX.len();
    let max_content = MAX_MESSAGE_BYTES - suffix_bytes;

    let mut truncate_at = max_content;
    while truncate_at > 0 && !message.is_char_boundary(truncate_at)
        invariant
            bytes == encode_utf8(message@),
            bytes.len() > MAX_MESSAGE_BYTES,
            truncate_at <= max_content_bytes(),
            max_content_bytes() == 185,
            boundary_at_or_below(bytes, max_content_bytes()) == boundary_at_or_below(
                bytes,
                truncate_at as int,
            ),
        decreases truncate_at,
    {
        truncate_at -= 1;
    }
    proof {
        assert(boundary_at_or_below(bytes, truncate_at as int) == truncate_at);
        lemma_boundary_at_or_below(bytes, max_content_bytes());
    }
    let (head, _tail) = message.split_at(truncate_at);
    let mut result = head.to_owned();
    result.append(TRUNCATION_SUFFIX);
    proof {
        lemma_encode_utf8_concat(head@, TRUNCATION_SUFFIX@);
        assert(encode_utf8(head@) == head.spec_bytes());
    }
    result
}

} // verus!
