//! Product-identifier frames.
//!
//! A product identifier travels as ASCII text behind a four-byte response
//! prefix.  The stick variant of the frame carries one trailing byte after
//! the text that is not part of it and is dropped; the holder variant does
//! not.  Every payload byte outside the printable ASCII range is replaced
//! with a dot, so decoding never fails on content.

use vstd::prelude::*;

use crate::error::IqosError;

verus! {

/// Expected prefix of a stick product-number response.
pub const PRODUCT_NUM_PREFIX: [u8; 4] = [0x00, 0xC0, 0x88, 0x03];

/// Expected prefix of a holder product-number response.
pub const HOLDER_PRODUCT_NUM_PREFIX: [u8; 4] = [0x00, 0x08, 0x88, 0x03];

/// An identifier response must carry at least its four-byte prefix.
pub const IDENTIFIER_MIN_LEN: usize = 4;

/// A byte is printable ASCII: neither a control byte nor beyond the ASCII
/// range.
pub open spec fn spec_printable(b: u8) -> bool {
    0x20 <= b <= 0x7E
}

/// A printable byte stands for itself; every other byte becomes a dot.
pub open spec fn spec_filter_byte(b: u8) -> u8 {
    if spec_printable(b) {
        b
    } else {
        0x2E
    }
}

/// The printable-ASCII filtering of a byte sequence.
pub open spec fn spec_filter_printable(s: Seq<u8>) -> Seq<u8> {
    s.map_values(|b: u8| spec_filter_byte(b))
}

/// The characters spelled by a sequence of ASCII bytes.
pub open spec fn spec_ascii_chars(s: Seq<u8>) -> Seq<char> {
    s.map_values(|b: u8| b as char)
}

/// The identifier payload of a response buffer: everything behind the
/// four-byte prefix, less the trailing byte when the frame shape carries one.
pub open spec fn spec_identifier_payload(bytes: Seq<u8>, trim_last_byte: bool) -> Seq<u8> {
    if trim_last_byte && bytes.len() > 4 {
        bytes.subrange(4, bytes.len() - 1)
    } else {
        bytes.subrange(4, bytes.len() as int)
    }
}

/// What decoding an identifier response yields: a failure only on a buffer
/// shorter than the prefix; no text when the prefix does not match; and the
/// filtered payload text when it does.
pub open spec fn spec_decode_ascii_identifier(
    bytes: Seq<u8>,
    prefix: Seq<u8>,
    trim_last_byte: bool,
) -> Result<Option<Seq<char>>, IqosError> {
    if bytes.len() < IDENTIFIER_MIN_LEN {
        Err(IqosError::FrameTooShort { expected_min: IDENTIFIER_MIN_LEN })
    } else if bytes.subrange(0, 4) != prefix {
        Ok(None)
    } else {
        Ok(Some(spec_ascii_chars(spec_filter_printable(spec_identifier_payload(bytes, trim_last_byte)))))
    }
}

/// Turns ASCII bytes into the string that spells them.
///
/// Relies on `String::from_utf8`: bytes below 0x80 are valid UTF-8 and
/// decode one byte to one character of the same code point.
#[verifier::external_body]
fn string_from_ascii(v: Vec<u8>) -> (r: String)
    requires
        forall|i: int| 0 <= i < v@.len() ==> v@[i] < 0x80,
    ensures
        r@ == spec_ascii_chars(v@),
{
    match String::from_utf8(v) {
        Ok(s) => s,
        Err(_) => String::new(),
    }
}

/// Decodes an ASCII identifier response.
///
/// Fails exactly when the buffer is shorter than the four-byte prefix;
/// yields no text when the prefix does not match the expected one; and
/// otherwise yields the payload behind the prefix (dropping the trailing
/// byte when `trim_last_byte` is set), with every non-printable or
/// non-ASCII byte replaced by a dot.
pub fn decode_ascii_identifier(bytes: &[u8], prefix: &[u8], trim_last_byte: bool) -> (r: Result<
    Option<String>,
    IqosError,
>)
    requires
        prefix@.len() == 4,
    ensures
        r matches Err(e) ==> spec_decode_ascii_identifier(bytes@, prefix@, trim_last_byte)
            == Err::<Option<Seq<char>>, IqosError>(e),
        r matches Ok(o) ==> {
            let s = spec_decode_ascii_identifier(bytes@, prefix@, trim_last_byte);
            &&& s is Ok
            &&& (o matches Some(text) ==> s->Ok_0 matches Some(spec_text) && text@ == spec_text)
            &&& (o is None ==> s->Ok_0 is None)
        },
{
    if bytes.len() < IDENTIFIER_MIN_LEN {
        return Err(IqosError::FrameTooShort { expected_min: IDENTIFIER_MIN_LEN });
    }
    let mut matches_prefix = true;
    for i in 0..4usize
        invariant
            bytes@.len() >= 4,
            prefix@.len() == 4,
            matches_prefix == (forall|j: int| 0 <= j < i ==> bytes@[j] == prefix@[j]),
    {
        if bytes[i] != prefix[i] {
            matches_prefix = false;
        }
    }
    if !matches_prefix {
        proof {
            assert(bytes@.subrange(0, 4) != prefix@) by {
                let k = choose|j: int| 0 <= j < 4 && bytes@[j] != prefix@[j];
                assert(bytes@.subrange(0, 4)[k] != prefix@[k]);
            }
        }
        return Ok(None);
    }
    proof {
        assert(bytes@.subrange(0, 4) =~= prefix@);
    }
    let end: usize = if trim_last_byte && bytes.len() > 4 {
        bytes.len() - 1
    } else {
        bytes.len()
    };
    let mut filtered: Vec<u8> = Vec::new();
    let mut i: usize = 4;
    while i < end
        invariant
            4 <= i <= end <= bytes@.len(),
            filtered@ == spec_filter_printable(bytes@.subrange(4, i as int)),
        decreases end - i,
    {
        let b = bytes[i];
        let f: u8 = if 0x20 <= b && b <= 0x7E {
            b
        } else {
            0x2E
        };
        filtered.push(f);
        proof {
            assert(bytes@.subrange(4, i + 1) =~= bytes@.subrange(4, i as int).push(bytes@[i as int]));
            assert(filtered@ =~= spec_filter_printable(bytes@.subrange(4, i + 1)));
        }
        i = i + 1;
    }
    proof {
        assert(bytes@.subrange(4, end as int) =~= spec_identifier_payload(bytes@, trim_last_byte));
        assert(forall|j: int|
            0 <= j < filtered@.len() ==> #[trigger] filtered@[j] == spec_filter_byte(
                spec_identifier_payload(bytes@, trim_last_byte)[j],
            ) && filtered@[j] < 0x80);
    }
    let text = string_from_ascii(filtered);
    Ok(Some(text))
}

/// Identifier decoding is total over its domain: on any buffer long enough
/// to carry the four-byte prefix it never fails, whatever the prefix and
/// payload bytes hold.
pub proof fn lemma_decode_identifier_total(bytes: Seq<u8>, prefix: Seq<u8>, trim_last_byte: bool)
    requires
        bytes.len() >= IDENTIFIER_MIN_LEN,
    ensures
        spec_decode_ascii_identifier(bytes, prefix, trim_last_byte) is Ok,
{
}

/// The printable-ASCII filter is idempotent: re-filtering an
/// already-filtered sequence changes nothing.
pub proof fn lemma_filter_printable_idempotent(s: Seq<u8>)
    ensures
        spec_filter_printable(spec_filter_printable(s)) == spec_filter_printable(s),
{
    assert(spec_filter_printable(spec_filter_printable(s)) =~= spec_filter_printable(s));
}

} // verus!
