//! Identifiers of clients, projects, time blocks, time entries and invoices.
//!
//! An identifier is a 128-bit number: its upper 48 bits are the creation
//! time in milliseconds, its lower 80 bits are random. It is written as 26
//! digits of Crockford's base 32, most significant digit first, so that the
//! order of the numbers, the order of their texts and (up to the
//! millisecond) the order of creation agree.
use vstd::prelude::*;

verus! {

/// The key of every entity in the tree.
pub type Id = u128;

/// The key of a client.
pub type ClientId = Id;

/// The key of a project under its client.
pub type ProjectId = Id;

/// The key of a time entry under its project.
pub type TimeEntryId = Id;

/// The key of a time block under its client.
pub type TimeBlockId = Id;

/// Number of digits in the text of an identifier.
pub const ID_TEXT_LEN: usize = 26;

/// Two to the power 80: the weight of the time component inside an identifier.
pub open spec fn random_span() -> int {
    0x1_0000_0000_0000_0000_0000int
}

/// Two to the power 128: one more than the largest identifier.
pub open spec fn id_span() -> int {
    0x1_0000_0000_0000_0000_0000_0000_0000_0000int
}

/// Creation time of an identifier, in milliseconds since the Unix epoch.
pub open spec fn id_millis(id: Id) -> int {
    id as int / random_span()
}

/// The digits of Crockford's base 32, by value.
pub open spec fn crockford_alphabet() -> Seq<char> {
    seq![
        '0', '1', '2', '3', '4', '5', '6', '7', '8', '9', 'A', 'B', 'C', 'D', 'E', 'F', 'G', 'H',
        'J', 'K', 'M', 'N', 'P', 'Q', 'R', 'S', 'T', 'V', 'W', 'X', 'Y', 'Z',
    ]
}

/// The digit that stands for `value`, for `0 <= value < 32`.
pub open spec fn crockford_digit(value: int) -> char {
    crockford_alphabet()[value]
}

/// The value of a digit, in either case; `None` for any other character.
pub open spec fn crockford_value(c: char) -> Option<int> {
    if exists|v: int| 0 <= v < 32 && is_digit_of(c, v) {
        Some(choose|v: int| 0 <= v < 32 && is_digit_of(c, v))
    } else {
        None
    }
}

/// Whether `c` is the digit of `value`, written in upper or in lower case.
pub open spec fn is_digit_of(c: char, value: int) -> bool {
    let d = crockford_digit(value);
    c == d || ('A' <= d <= 'Z' && c as int == d as int + 32)
}

/// The `len` least significant base-32 digits of `value`, most significant first.
pub open spec fn base32_text(value: int, len: nat) -> Seq<char>
    decreases len,
{
    if len == 0 {
        Seq::empty()
    } else {
        base32_text(value / 32, (len - 1) as nat).push(crockford_digit(value % 32))
    }
}

/// The number that a sequence of base-32 digits denotes.
pub open spec fn base32_value(text: Seq<char>) -> int
    decreases text.len(),
{
    if text.len() == 0 {
        0
    } else {
        32 * base32_value(text.drop_last()) + match crockford_value(text.last()) {
            Some(v) => v,
            None => 0,
        }
    }
}

/// The text of an identifier: 26 digits, most significant first.
pub open spec fn id_text(id: Id) -> Seq<char> {
    base32_text(id as int, ID_TEXT_LEN as nat)
}

/// Whether `text` is made of 26 base-32 digits.
pub open spec fn is_id_text(text: Seq<char>) -> bool {
    &&& text.len() == ID_TEXT_LEN
    &&& forall|i: int| 0 <= i < text.len() ==> crockford_value(#[trigger] text[i]) is Some
}

/// The identifier that `text` denotes. Bits beyond the 128th are dropped.
pub open spec fn id_of_text(text: Seq<char>) -> Option<Id> {
    if is_id_text(text) {
        Some((base32_value(text) % id_span()) as u128)
    } else {
        None
    }
}

/// Makes a new identifier from the clock and the random number generator.
///
/// Calls `ulid::Ulid::generate`. The value depends on the time and on chance,
/// so nothing is claimed of it.
#[verifier::external_body]
pub(crate) fn generate_id() -> (id: Id) {
    ulid::Ulid::generate().0
}

/// Writes an identifier as text.
///
/// Calls `ulid::Ulid::to_string`, which fills 26 places from the last to the
/// first, each with the digit of the five lowest bits left.
#[verifier::external_body]
pub(crate) fn encode_id(id: Id) -> (text: String)
    ensures
        text@ == id_text(id),
{
    ulid::Ulid(id).to_string()
}

/// Reads an identifier from text.
///
/// Calls `ulid::Ulid::from_string`, which accepts exactly 26 digits of
/// Crockford's base 32 in either case and shifts them into a 128-bit number,
/// five bits each.
#[verifier::external_body]
pub(crate) fn decode_id(text: &str) -> (id: Option<Id>)
    ensures
        id == id_of_text(text@),
{
    ulid::Ulid::from_string(text).ok().map(|u| u.0)
}

/// A fresh identifier.
pub fn new_id() -> Id {
    generate_id()
}

/// The text that names `id` towards the remote store.
pub fn id_to_string(id: Id) -> (text: String)
    ensures
        text@ == id_text(id),
        id_of_text(text@) == Some(id),
{
    proof {
        lemma_id_text_round_trip(id);
    }
    encode_id(id)
}

/// The identifier that `text` names, if it names one.
pub fn parse_id(text: &str) -> (id: Option<Id>)
    ensures
        id == id_of_text(text@),
{
    decode_id(text)
}

/// Each digit has the value it stands for, and no other.
pub proof fn lemma_digit_value(value: int)
    requires
        0 <= value < 32,
    ensures
        crockford_value(crockford_digit(value)) == Some(value),
{
    let c = crockford_digit(value);
    assert(is_digit_of(c, value));
    let v = choose|v: int| 0 <= v < 32 && is_digit_of(c, v);
    assert(0 <= v < 32 && is_digit_of(c, v));
    lemma_digits_differ(v, value);
}

/// Two values whose digits agree, up to case, are the same value.
proof fn lemma_digits_differ(a: int, b: int)
    requires
        0 <= a < 32,
        0 <= b < 32,
        is_digit_of(crockford_digit(b), a),
    ensures
        a == b,
{
    let s = crockford_alphabet();
    assert(s.len() == 32);
    assert(forall|i: int| 0 <= i < 32 ==> '0' <= #[trigger] s[i] <= 'Z') by {
        assert forall|i: int| 0 <= i < 32 implies '0' <= #[trigger] s[i] <= 'Z' by {
            lemma_alphabet_values(i);
        }
    }
    lemma_alphabet_values(a);
    lemma_alphabet_values(b);
}

/// The alphabet rises strictly: the code of each digit, by value.
proof fn lemma_alphabet_values(i: int)
    requires
        0 <= i < 32,
    ensures
        '0' <= crockford_alphabet()[i] <= 'Z',
        crockford_alphabet()[i] as int == if i < 10 {
            48 + i
        } else if i < 18 {
            55 + i
        } else if i < 20 {
            56 + i
        } else if i < 22 {
            57 + i
        } else if i < 27 {
            58 + i
        } else {
            59 + i
        },
{
    let s = crockford_alphabet();
    assert(s[0] == '0' && s[1] == '1' && s[2] == '2' && s[3] == '3' && s[4] == '4' && s[5] == '5'
        && s[6] == '6' && s[7] == '7');
    assert(s[8] == '8' && s[9] == '9' && s[10] == 'A' && s[11] == 'B' && s[12] == 'C' && s[13]
        == 'D' && s[14] == 'E' && s[15] == 'F');
    assert(s[16] == 'G' && s[17] == 'H' && s[18] == 'J' && s[19] == 'K' && s[20] == 'M' && s[21]
        == 'N' && s[22] == 'P' && s[23] == 'Q');
    assert(s[24] == 'R' && s[25] == 'S' && s[26] == 'T' && s[27] == 'V' && s[28] == 'W' && s[29]
        == 'X' && s[30] == 'Y' && s[31] == 'Z');
}

/// Thirty-two to the power `n`.
pub open spec fn pow32(n: nat) -> int
    decreases n,
{
    if n == 0 {
        1
    } else {
        32 * pow32((n - 1) as nat)
    }
}

/// Writing the lowest `len` digits of a number and reading them back gives
/// the number modulo `32^len`; every place holds a digit.
pub proof fn lemma_base32_round_trip(value: int, len: nat)
    requires
        0 <= value,
    ensures
        base32_text(value, len).len() == len,
        forall|i: int|
            0 <= i < len ==> crockford_value(#[trigger] base32_text(value, len)[i]) is Some,
        pow32(len) > 0,
        base32_value(base32_text(value, len)) == value % pow32(len),
    decreases len,
{
    if len == 0 {
    } else {
        let rest = base32_text(value / 32, (len - 1) as nat);
        let text = base32_text(value, len);
        lemma_base32_round_trip(value / 32, (len - 1) as nat);
        lemma_digit_value(value % 32);
        assert(text.drop_last() =~= rest);
        assert(text.last() == crockford_digit(value % 32));
        assert forall|i: int| 0 <= i < len implies crockford_value(#[trigger] text[i]) is Some by {
            if i < len - 1 {
                assert(text[i] == rest[i]);
            }
        }
        let p = pow32((len - 1) as nat);
        assert(base32_value(text) == 32 * ((value / 32) % p) + value % 32);
        vstd::arithmetic::div_mod::lemma_mod_breakdown(value, 32, p);
    }
}

/// Reading the text of an identifier gives the identifier back.
pub proof fn lemma_id_text_round_trip(id: Id)
    ensures
        is_id_text(id_text(id)),
        id_of_text(id_text(id)) == Some(id),
{
    lemma_base32_round_trip(id as int, ID_TEXT_LEN as nat);
    assert(pow32(26) == 0x4_0000_0000_0000_0000_0000_0000_0000_0000int) by {
        reveal_with_fuel(pow32, 27);
    }
    let v = id as int;
    assert(v % pow32(26) == v);
    assert(v % id_span() == v);
}

/// Identifiers sort by creation time: of two identifiers made in different
/// milliseconds, the earlier one is the smaller number.
pub proof fn lemma_ids_sort_by_creation_time(earlier: Id, later: Id)
    requires
        id_millis(earlier) < id_millis(later),
    ensures
        earlier < later,
{
    let a = earlier as int;
    let b = later as int;
    let r = random_span();
    assert(a / r < b / r ==> a < b) by (nonlinear_arith)
        requires
            r > 0,
    ;
}

/// A run of identifiers created in order, each in a later millisecond than
/// the one before, is strictly increasing: it compares as it was created.
pub proof fn lemma_creation_order_is_id_order(ids: Seq<Id>)
    requires
        forall|i: int, j: int|
            0 <= i < j < ids.len() ==> id_millis(#[trigger] ids[i]) < id_millis(#[trigger] ids[j]),
    ensures
        forall|i: int, j: int| 0 <= i < j < ids.len() ==> #[trigger] ids[i] < #[trigger] ids[j],
{
    assert forall|i: int, j: int| 0 <= i < j < ids.len() implies #[trigger] ids[i]
        < #[trigger] ids[j] by {
        lemma_ids_sort_by_creation_time(ids[i], ids[j]);
    }
}

} // verus!
