//! Job identifiers: 128-bit numbers, written as hyphenated lower-case
//! hexadecimal where a text is needed.

use vstd::prelude::*;
use crate::text::digits;

verus! {

/// `n` in base sixteen with lower-case digits, as exactly `width` digits:
/// padded with zeros in front, or cut to its lowest digits.
pub open spec fn hex_padded(n: nat, width: nat) -> Seq<char>
    decreases width,
{
    if width == 0 {
        Seq::<char>::empty()
    } else {
        hex_padded(n / 16, (width - 1) as nat).push(digits()[(n % 16) as int])
    }
}

/// The text of an identifier: its 32 hexadecimal digits in groups of 8, 4, 4,
/// 4 and 12, with a hyphen between the groups.
pub open spec fn id_text(id: u128) -> Seq<char> {
    let h = hex_padded(id as nat, 32);
    h.subrange(0, 8) + seq!['-'] + h.subrange(8, 12) + seq!['-'] + h.subrange(12, 16) + seq!['-']
        + h.subrange(16, 20) + seq!['-'] + h.subrange(20, 32)
}

/// Whether `id` is marked as a random identifier: its version digit is 4 and
/// its variant bits are `10`.
pub open spec fn is_random_id(id: u128) -> bool {
    id & 0xf000_c000_0000_0000_0000u128 == 0x4000_8000_0000_0000_0000u128
}

/// Calls `uuid::Uuid::new_v4` and hands the identifier out as a number. The
/// identifier is random; all that is claimed of it is the version and variant
/// that `new_v4` sets in every identifier it makes.
#[verifier::external_body]
fn new_v4() -> (id: u128)
    ensures
        is_random_id(id),
{
    uuid::Uuid::new_v4().as_u128()
}

/// Calls `uuid::Uuid::from_u128` and formats the result with its `Display`,
/// which writes the hyphenated lower-case form: the 16 bytes of the number,
/// most significant first, two digits each.
#[verifier::external_body]
fn hyphenated(id: u128) -> (text: String)
    ensures
        text@ == id_text(id),
{
    uuid::Uuid::from_u128(id).to_string()
}

/// A new random identifier for a job.
pub fn fresh_id() -> (id: u128)
    ensures
        is_random_id(id),
{
    new_v4()
}

/// The identifier as it is shown to clients and used in file names.
pub fn id_string(id: u128) -> (text: String)
    ensures
        text@ == id_text(id),
{
    hyphenated(id)
}

/// Sixteen to the power of `width`.
pub open spec fn pow16(width: nat) -> nat
    decreases width,
{
    if width == 0 {
        1
    } else {
        16 * pow16((width - 1) as nat)
    }
}

proof fn lemma_hex_padded_len(n: nat, width: nat)
    ensures
        hex_padded(n, width).len() == width,
    decreases width,
{
    if width > 0 {
        lemma_hex_padded_len(n / 16, (width - 1) as nat);
    }
}

proof fn lemma_hex_padded_digits(n: nat, width: nat, i: int)
    requires
        0 <= i < width,
    ensures
        hex_padded(n, width).len() == width,
        hex_padded(n, width)[i] != '-',
        hex_padded(n, width)[i] != '.',
        hex_padded(n, width)[i] != '/',
    decreases width,
{
    lemma_hex_padded_len(n, width);
    lemma_hex_padded_len(n / 16, (width - 1) as nat);
    if i < width - 1 {
        lemma_hex_padded_digits(n / 16, (width - 1) as nat, i);
    }
}

proof fn lemma_hex_padded_is_one_to_one(a: nat, b: nat, width: nat)
    requires
        a < pow16(width),
        b < pow16(width),
        hex_padded(a, width) == hex_padded(b, width),
    ensures
        a == b,
    decreases width,
{
    if width > 0 {
        let rest = (width - 1) as nat;
        let front_a = hex_padded(a / 16, rest);
        let front_b = hex_padded(b / 16, rest);
        let last_a = digits()[(a % 16) as int];
        let last_b = digits()[(b % 16) as int];
        assert(front_a.push(last_a).drop_last() =~= front_a);
        assert(front_b.push(last_b).drop_last() =~= front_b);
        assert(front_a.push(last_a).last() == last_a);
        assert(front_b.push(last_b).last() == last_b);
        assert(front_a == front_b);
        assert(last_a == last_b);
        lemma_hex_padded_is_one_to_one(a / 16, b / 16, rest);
        assert(a % 16 == b % 16);
    }
}

/// The text of an identifier has 36 characters, four of them hyphens, and
/// holds neither a dot nor a slash.
pub proof fn id_text_is_a_plain_name(id: u128)
    ensures
        id_text(id).len() == 36,
        forall|i: int| 0 <= i < 36 ==> (#[trigger] id_text(id)[i]) != '.' && id_text(id)[i] != '/',
{
    lemma_hex_padded_len(id as nat, 32);
    assert forall|i: int| 0 <= i < 36 implies (#[trigger] id_text(id)[i]) != '.' && id_text(
        id,
    )[i] != '/' by {
        if i < 8 {
            lemma_hex_padded_digits(id as nat, 32, i);
        } else if i == 8 {
        } else if i < 13 {
            lemma_hex_padded_digits(id as nat, 32, i - 1);
        } else if i == 13 {
        } else if i < 18 {
            lemma_hex_padded_digits(id as nat, 32, i - 2);
        } else if i == 18 {
        } else if i < 23 {
            lemma_hex_padded_digits(id as nat, 32, i - 3);
        } else if i == 23 {
        } else {
            lemma_hex_padded_digits(id as nat, 32, i - 4);
        }
    }
}

/// Two identifiers with the same text are the same identifier.
pub proof fn id_text_is_one_to_one(a: u128, b: u128)
    requires
        id_text(a) == id_text(b),
    ensures
        a == b,
{
    let ha = hex_padded(a as nat, 32);
    let hb = hex_padded(b as nat, 32);
    lemma_hex_padded_len(a as nat, 32);
    lemma_hex_padded_len(b as nat, 32);
    assert forall|i: int| 0 <= i < 32 implies ha[i] == hb[i] by {
        let k = if i < 8 {
            i
        } else if i < 12 {
            i + 1
        } else if i < 16 {
            i + 2
        } else if i < 20 {
            i + 3
        } else {
            i + 4
        };
        assert(id_text(a)[k] == ha[i]);
    }
    assert(ha =~= hb);
    assert(pow16(32) == 0x1_0000_0000_0000_0000_0000_0000_0000_0000) by {
        reveal_with_fuel(pow16, 33);
    }
    lemma_hex_padded_is_one_to_one(a as nat, b as nat, 32);
}

} // verus!
