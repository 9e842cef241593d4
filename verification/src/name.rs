//! Interface-name decoding: from the raw bytes of the OS's null-terminated
//! name buffer to the text stored in a record.

use vstd::prelude::*;

verus! {

/// A usable interface name: at least one byte, and every byte a non-zero
/// ASCII code. A record whose name buffer fails this is dropped.
pub open spec fn spec_valid_name(bytes: Seq<u8>) -> bool {
    &&& bytes.len() > 0
    &&& forall|i: int| 0 <= i < bytes.len() ==> 0 < #[trigger] bytes[i] < 128
}

/// The characters a usable name buffer decodes to, one per byte.
pub open spec fn spec_name_chars(bytes: Seq<u8>) -> Seq<char> {
    bytes.map_values(|b: u8| b as char)
}

/// Relies on `String::from_utf8`: bytes below 0x80 are ASCII, hence valid
/// UTF-8, and decode to exactly the characters with the same code points.
#[verifier::external_body]
fn string_from_ascii(bytes: Vec<u8>) -> (r: String)
    requires
        forall|i: int| 0 <= i < bytes@.len() ==> #[trigger] bytes@[i] < 128,
    ensures
        r@ == spec_name_chars(bytes@),
{
    String::from_utf8(bytes).unwrap()
}

/// Decodes an interface-name buffer into text. Yields a value exactly for
/// usable names (non-empty, all bytes non-zero ASCII); anything else gives
/// no value, and the caller drops the record it came from.
pub fn name_from_bytes(bytes: &Vec<u8>) -> (r: Option<String>)
    ensures
        r is Some <==> spec_valid_name(bytes@),
        (r matches Some(s) ==> s@ == spec_name_chars(bytes@)),
{
    if bytes.len() == 0 {
        return Option::None;
    }
    let mut buf: Vec<u8> = Vec::new();
    let mut i: usize = 0;
    while i < bytes.len()
        invariant
            0 <= i <= bytes@.len(),
            buf@ == bytes@.take(i as int),
            forall|j: int| 0 <= j < i ==> 0 < #[trigger] bytes@[j] < 128,
        decreases bytes@.len() - i,
    {
        let b = bytes[i];
        if b == 0 || b >= 128 {
            return Option::None;
        }
        buf.push(b);
        i += 1;
        proof {
            assert(buf@ =~= bytes@.take(i as int));
        }
    }
    proof {
        assert(buf@ =~= bytes@);
    }
    Option::Some(string_from_ascii(buf))
}

/// The characters of a usable name are well formed: there is at least one,
/// and none is the NUL character.
pub proof fn lemma_name_chars_wellformed(bytes: Seq<u8>)
    requires
        spec_valid_name(bytes),
    ensures
        spec_name_chars(bytes).len() > 0,
        forall|j: int| 0 <= j < spec_name_chars(bytes).len() ==> spec_name_chars(bytes)[j] != '\0',
{
    assert forall|j: int| 0 <= j < spec_name_chars(bytes).len() implies spec_name_chars(
        bytes,
    )[j] != '\0' by {
        assert(0 < bytes[j] < 128);
        assert(spec_name_chars(bytes)[j] == bytes[j] as char);
    }
}

} // verus!
