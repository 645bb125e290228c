//! Identifiers of accounts, organisations and deployments, and their text form.
use vstd::prelude::*;
use crate::text::comma_join;

verus! {

/// The lowercase hexadecimal digit for `d < 16`.
pub open spec fn hex_digit(d: int) -> char {
    seq!['0', '1', '2', '3', '4', '5', '6', '7', '8', '9', 'a', 'b', 'c', 'd', 'e', 'f'][d]
}

/// Two lowercase hexadecimal digits per byte, high digit first, in order.
pub open spec fn hex_bytes(b: Seq<u8>) -> Seq<char>
    decreases b.len(),
{
    if b.len() == 0 {
        Seq::empty()
    } else {
        hex_bytes(b.drop_last()) + seq![
            hex_digit(b.last() as int / 16),
            hex_digit(b.last() as int % 16),
        ]
    }
}

/// The canonical text of a UUID: lowercase hex in groups of 4, 2, 2, 2 and 6
/// bytes, separated by hyphens.
pub open spec fn hyphenated(b: Seq<u8>) -> Seq<char> {
    hex_bytes(b.subrange(0, 4)) + seq!['-'] + hex_bytes(b.subrange(4, 6)) + seq!['-']
        + hex_bytes(b.subrange(6, 8)) + seq!['-'] + hex_bytes(b.subrange(8, 10)) + seq!['-']
        + hex_bytes(b.subrange(10, 16))
}

/// Relies on uuid's `Display` for `Uuid` (`Uuid::from_bytes`, then `to_string`),
/// which writes the hyphenated lowercase form of the 16 bytes.
#[verifier::external_body]
fn hyphenated_text(bytes: [u8; 16]) -> (r: String)
    ensures
        r@ == hyphenated(bytes@),
{
    uuid::Uuid::from_bytes(bytes).to_string()
}

/// A UUID, held as its 16 bytes in order.
#[derive(Clone, Copy, Debug)]
pub struct Uuid {
    pub bytes: [u8; 16],
}

impl Uuid {
    /// The canonical text of this identifier.
    pub open spec fn text(&self) -> Seq<char> {
        hyphenated(self.bytes@)
    }

    pub fn from_bytes(bytes: [u8; 16]) -> (r: Uuid)
        ensures
            r.bytes == bytes,
    {
        Uuid { bytes }
    }

    /// The canonical hyphenated lowercase text of this identifier.
    pub fn to_text(&self) -> (r: String)
        ensures
            r@ == self.text(),
    {
        hyphenated_text(self.bytes)
    }
}

/// The texts of a sequence of identifiers.
pub open spec fn uuid_texts(ids: Seq<Uuid>) -> Seq<Seq<char>> {
    ids.map_values(|u: Uuid| u.text())
}

/// Identifiers encoded as one list value: their canonical texts joined by commas.
pub fn join_uuids(ids: &Vec<Uuid>) -> (r: String)
    ensures
        r@ == comma_join(uuid_texts(ids@)),
{
    let mut parts: Vec<String> = Vec::new();
    let mut i: usize = 0;
    while i < ids.len()
        invariant
            i <= ids.len(),
            parts@.map_values(|s: String| s@) =~= uuid_texts(ids@.subrange(0, i as int)),
        decreases ids.len() - i,
    {
        let ghost before = parts@;
        parts.push(ids[i].to_text());
        proof {
            assert(parts@ =~= before.push(parts@.last()));
            assert(parts@.map_values(|s: String| s@) =~= before.map_values(|s: String| s@).push(
                ids@[i as int].text(),
            ));
            assert(ids@.subrange(0, i + 1) =~= ids@.subrange(0, i as int).push(ids@[i as int]));
        }
        i += 1;
    }
    proof {
        assert(ids@.subrange(0, ids.len() as int) =~= ids@);
    }
    crate::text::join_values(&parts)
}

/// Two hexadecimal digits stand for each byte.
pub proof fn lemma_hex_len(b: Seq<u8>)
    ensures
        hex_bytes(b).len() == 2 * b.len(),
    decreases b.len(),
{
    if b.len() > 0 {
        lemma_hex_len(b.drop_last());
    }
}

/// The canonical text of an identifier has 36 characters, with hyphens after
/// the 8th, 12th, 16th and 20th hexadecimal digit.
pub proof fn lemma_uuid_text_shape(u: Uuid)
    ensures
        u.text().len() == 36,
        u.text()[8] == '-',
        u.text()[13] == '-',
        u.text()[18] == '-',
        u.text()[23] == '-',
{
    let b = u.bytes@;
    lemma_hex_len(b.subrange(0, 4));
    lemma_hex_len(b.subrange(4, 6));
    lemma_hex_len(b.subrange(6, 8));
    lemma_hex_len(b.subrange(8, 10));
    lemma_hex_len(b.subrange(10, 16));
}

/// A list of identifiers encodes to their canonical texts joined by commas, in
/// the order given: appending an identifier appends a comma and its text.
pub proof fn lemma_uuid_list_order(ids: Seq<Uuid>, u: Uuid)
    ensures
        ids.len() == 0 ==> comma_join(uuid_texts(ids.push(u))) == u.text(),
        ids.len() > 0 ==> comma_join(uuid_texts(ids.push(u))) == comma_join(uuid_texts(ids))
            + seq![','] + u.text(),
{
    assert(uuid_texts(ids.push(u)).drop_last() =~= uuid_texts(ids));
}

} // verus!
