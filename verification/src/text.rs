//! The order of strings.
use vstd::prelude::*;
use vstd::utf8::{
    encode_utf8, encode_utf8_decode_utf8, is_ascii_chars, is_ascii_chars_encode_utf8,
};

verus! {

/// The lexicographic order of byte sequences: a proper prefix comes first, and otherwise the first
/// byte in which the two sequences differ decides.
pub open spec fn bytes_le(a: Seq<u8>, b: Seq<u8>) -> bool
    decreases a.len(),
{
    if a.len() == 0 {
        true
    } else if b.len() == 0 {
        false
    } else if a[0] == b[0] {
        bytes_le(a.drop_first(), b.drop_first())
    } else {
        a[0] < b[0]
    }
}

/// The order of strings: lexicographic by the bytes of their UTF-8 encoding.
pub open spec fn text_le(a: Seq<char>, b: Seq<char>) -> bool {
    bytes_le(encode_utf8(a), encode_utf8(b))
}

/// Every two byte sequences are comparable.
pub proof fn lemma_bytes_le_total(a: Seq<u8>, b: Seq<u8>)
    ensures
        bytes_le(a, b) || bytes_le(b, a),
    decreases a.len(),
{
    if a.len() > 0 && b.len() > 0 && a[0] == b[0] {
        lemma_bytes_le_total(a.drop_first(), b.drop_first());
    }
}

/// The order of byte sequences is transitive.
pub proof fn lemma_bytes_le_transitive(a: Seq<u8>, b: Seq<u8>, c: Seq<u8>)
    requires
        bytes_le(a, b),
        bytes_le(b, c),
    ensures
        bytes_le(a, c),
    decreases a.len(),
{
    if a.len() > 0 && b.len() > 0 && c.len() > 0 && a[0] == b[0] && b[0] == c[0] {
        lemma_bytes_le_transitive(a.drop_first(), b.drop_first(), c.drop_first());
    }
}

proof fn lemma_bytes_le_antisymmetric(a: Seq<u8>, b: Seq<u8>)
    requires
        bytes_le(a, b),
        bytes_le(b, a),
    ensures
        a == b,
    decreases a.len(),
{
    if a.len() > 0 && b.len() > 0 {
        lemma_bytes_le_antisymmetric(a.drop_first(), b.drop_first());
        assert(a =~= seq![a[0]] + a.drop_first());
        assert(b =~= seq![b[0]] + b.drop_first());
    } else {
        assert(a =~= b);
    }
}

/// Strings that are ordered both ways are equal.
pub proof fn lemma_text_le_antisymmetric(a: Seq<char>, b: Seq<char>)
    requires
        text_le(a, b),
        text_le(b, a),
    ensures
        a == b,
{
    lemma_bytes_le_antisymmetric(encode_utf8(a), encode_utf8(b));
    encode_utf8_decode_utf8(a);
    encode_utf8_decode_utf8(b);
}

/// Decides the order of strings.
pub fn string_le(a: &String, b: &String) -> (le: bool)
    ensures
        le == text_le(a@, b@),
{
    let left: &[u8] = a.as_str().as_bytes();
    let right: &[u8] = b.as_str().as_bytes();
    let mut i: usize = 0;
    assert(left@.skip(0) =~= left@);
    assert(right@.skip(0) =~= right@);
    while i < left.len() && i < right.len() && left[i] == right[i]
        invariant
            i <= left@.len(),
            i <= right@.len(),
            bytes_le(left@, right@) == bytes_le(left@.skip(i as int), right@.skip(i as int)),
        decreases left@.len() - i,
    {
        assert(left@.skip(i as int).drop_first() =~= left@.skip(i + 1));
        assert(right@.skip(i as int).drop_first() =~= right@.skip(i + 1));
        i += 1;
    }
    if i >= left.len() {
        true
    } else if i >= right.len() {
        false
    } else {
        left[i] < right[i]
    }
}

/// Of two byte sequences that agree up to a byte, the one with the smaller byte there comes before
/// the other, and not the other way round, whatever comes behind.
pub proof fn first_different_byte_decides(
    common: Seq<u8>,
    x: u8,
    y: u8,
    behind_x: Seq<u8>,
    behind_y: Seq<u8>,
)
    requires
        x < y,
    ensures
        bytes_le(common + seq![x] + behind_x, common + seq![y] + behind_y),
        !bytes_le(common + seq![y] + behind_y, common + seq![x] + behind_x),
    decreases common.len(),
{
    let a = common + seq![x] + behind_x;
    let b = common + seq![y] + behind_y;
    if common.len() > 0 {
        let rest = common.drop_first();
        first_different_byte_decides(rest, x, y, behind_x, behind_y);
        assert(a.drop_first() =~= rest + seq![x] + behind_x);
        assert(b.drop_first() =~= rest + seq![y] + behind_y);
        assert(a[0] == common[0] && b[0] == common[0]);
    } else {
        assert(a[0] == x && b[0] == y);
    }
}

/// A byte sequence comes before every longer one that it begins, and not the other way round. It is
/// ordered with itself both ways.
pub proof fn shorter_beginning_comes_first(a: Seq<u8>, behind: Seq<u8>)
    ensures
        bytes_le(a, a + behind),
        bytes_le(a + behind, a) <==> behind.len() == 0,
    decreases a.len(),
{
    if a.len() > 0 {
        shorter_beginning_comes_first(a.drop_first(), behind);
        assert((a + behind).drop_first() =~= a.drop_first() + behind);
        assert((a + behind)[0] == a[0]);
    } else {
        assert(a + behind =~= behind);
    }
}

/// The order of strings is that of the bytes of their encoding: the first byte that differs
/// decides, and a string comes before every longer one that it begins.
pub proof fn strings_are_ordered_by_their_encoding(a: Seq<char>, b: Seq<char>, i: int)
    requires
        0 <= i <= encode_utf8(a).len(),
        i <= encode_utf8(b).len(),
        forall|k: int| 0 <= k < i ==> #[trigger] encode_utf8(a)[k] == encode_utf8(b)[k],
    ensures
        i < encode_utf8(a).len() && i < encode_utf8(b).len() && encode_utf8(a)[i] < encode_utf8(
            b,
        )[i] ==> text_le(a, b) && !text_le(b, a),
        i == encode_utf8(a).len() ==> text_le(a, b),
        i == encode_utf8(a).len() && i < encode_utf8(b).len() ==> !text_le(b, a),
{
    let x = encode_utf8(a);
    let y = encode_utf8(b);
    let common = x.take(i);
    assert(common =~= y.take(i));
    if i < x.len() && i < y.len() && x[i] < y[i] {
        first_different_byte_decides(common, x[i], y[i], x.skip(i + 1), y.skip(i + 1));
        assert(x =~= common + seq![x[i]] + x.skip(i + 1));
        assert(y =~= common + seq![y[i]] + y.skip(i + 1));
    }
    if i == x.len() {
        shorter_beginning_comes_first(x, y.skip(i));
        assert(y =~= x + y.skip(i));
    }
}

/// Of two strings of ASCII characters, such as dates, that agree up to a character, the one with
/// the smaller character there comes before the other, and not the other way round.
pub proof fn first_different_character_decides(
    common: Seq<char>,
    x: char,
    y: char,
    behind_x: Seq<char>,
    behind_y: Seq<char>,
)
    requires
        is_ascii_chars(common + seq![x] + behind_x),
        is_ascii_chars(common + seq![y] + behind_y),
        x < y,
    ensures
        text_le(common + seq![x] + behind_x, common + seq![y] + behind_y),
        !text_le(common + seq![y] + behind_y, common + seq![x] + behind_x),
{
    let a = common + seq![x] + behind_x;
    let b = common + seq![y] + behind_y;
    let i = common.len() as int;
    is_ascii_chars_encode_utf8(a);
    is_ascii_chars_encode_utf8(b);
    assert(a[i] == x && b[i] == y);
    assert(x as u8 == encode_utf8(a)[i] && y as u8 == encode_utf8(b)[i]);
    assert forall|k: int| 0 <= k < i implies #[trigger] encode_utf8(a)[k] == encode_utf8(b)[k] by {
        assert(a[k] == common[k] && b[k] == common[k]);
    }
    strings_are_ordered_by_their_encoding(a, b, i);
}

} // verus!
