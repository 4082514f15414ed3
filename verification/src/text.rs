//! What the converter does to text: unescaping `&amp;`, reading an
//! identifier, and checking UTF-8.
use vstd::prelude::*;
use vstd::string::*;
use vstd::utf8::*;

verus! {

/// The bytes of the entity `&amp;`.
pub open spec fn ampersand_entity() -> Seq<u8> {
    seq![38u8, 97u8, 109u8, 112u8, 59u8]
}

/// Whether `&amp;` stands at position `at` of `text`.
pub open spec fn entity_at(text: Seq<u8>, at: int) -> bool {
    0 <= at && at + 5 <= text.len() && text.subrange(at, at + 5) == ampersand_entity()
}

/// Whether `&amp;` occurs anywhere in `text`.
pub open spec fn has_entity(text: Seq<u8>) -> bool {
    exists|at: int| entity_at(text, at)
}

/// `text` with every `&amp;` replaced by `&`, reading from the left and
/// never looking again at what a replacement produced.
pub open spec fn unescaped(text: Seq<u8>) -> Seq<u8>
    decreases text.len(),
{
    if text.len() == 0 {
        Seq::empty()
    } else if entity_at(text, 0) {
        seq![38u8] + unescaped(text.subrange(5, text.len() as int))
    } else {
        seq![text[0]] + unescaped(text.subrange(1, text.len() as int))
    }
}

/// The decimal digit that the byte `b` spells, if it spells one.
pub open spec fn is_digit(b: u8) -> bool {
    48 <= b <= 57
}

/// The number that a sequence of decimal digits spells; zero for none.
pub open spec fn digits_value(digits: Seq<u8>) -> nat
    decreases digits.len(),
{
    if digits.len() == 0 {
        0
    } else {
        digits_value(digits.drop_last()) * 10 + (digits.last() - 48) as nat
    }
}

/// Whether every byte of `digits` is a decimal digit.
pub open spec fn all_digits(digits: Seq<u8>) -> bool {
    forall|i: int| 0 <= i < digits.len() ==> is_digit(#[trigger] digits[i])
}

/// `text` without its leading plus sign, if it has one.
pub open spec fn unsigned_part(text: Seq<u8>) -> Seq<u8> {
    if text.len() > 0 && text[0] == 43u8 {
        text.subrange(1, text.len() as int)
    } else {
        text
    }
}

/// The identifier that `text` spells: an optional plus sign followed by at
/// least one decimal digit and nothing else, with a value that fits 32 bits.
pub open spec fn id_value(text: Seq<u8>) -> Option<u32> {
    let digits = unsigned_part(text);
    if digits.len() > 0 && all_digits(digits) && digits_value(digits) <= u32::MAX {
        Some(digits_value(digits) as u32)
    } else {
        None
    }
}

/// `std::str::from_utf8`: the bytes as a string slice, if and only if they
/// are valid UTF-8; the slice then holds the very same bytes.
#[verifier::external_body]
pub(crate) fn as_text(bytes: &[u8]) -> (text: Option<&str>)
    ensures
        text is Some <==> valid_utf8(bytes@),
        text matches Some(s) ==> s.spec_bytes() == bytes@,
{
    std::str::from_utf8(bytes).ok()
}

/// Replaces every `&amp;` in `text` by `&`.
pub fn unescape(text: &[u8]) -> (plain: Vec<u8>)
    ensures
        plain@ == unescaped(text@),
{
    let mut plain: Vec<u8> = Vec::new();
    let mut at: usize = 0;
    proof {
        assert(text@.subrange(0, text.len() as int) =~= text@);
        assert(plain@ + unescaped(text@) =~= unescaped(text@));
    }
    while at < text.len()
        invariant
            at <= text.len(),
            unescaped(text@) == plain@ + unescaped(text@.subrange(at as int, text.len() as int)),
        decreases text.len() - at,
    {
        let ghost rest = text@.subrange(at as int, text.len() as int);
        if text.len() - at >= 5 && text[at] == 38u8 && text[at + 1] == 97u8 && text[at + 2] == 109u8
            && text[at + 3] == 112u8 && text[at + 4] == 59u8 {
            proof {
                assert(rest.subrange(0, 5) =~= ampersand_entity());
                assert(rest.subrange(5, rest.len() as int) =~= text@.subrange(
                    at + 5,
                    text.len() as int,
                ));
                assert(plain@.push(38u8) + unescaped(rest.subrange(5, rest.len() as int))
                    =~= plain@ + (seq![38u8] + unescaped(rest.subrange(5, rest.len() as int))));
            }
            plain.push(38u8);
            at += 5;
        } else {
            proof {
                if entity_at(rest, 0) {
                    let found = rest.subrange(0, 5);
                    assert(found[0] == 38u8 && found[1] == 97u8 && found[2] == 109u8 && found[3]
                        == 112u8 && found[4] == 59u8);
                    assert(false);
                }
                assert(rest.subrange(1, rest.len() as int) =~= text@.subrange(
                    at + 1,
                    text.len() as int,
                ));
                assert(plain@.push(text@[at as int]) + unescaped(
                    rest.subrange(1, rest.len() as int),
                ) =~= plain@ + (seq![rest[0]] + unescaped(rest.subrange(1, rest.len() as int))));
            }
            plain.push(text[at]);
            at += 1;
        }
    }
    proof {
        assert(text@.subrange(at as int, text.len() as int) =~= Seq::<u8>::empty());
        assert(plain@ + Seq::<u8>::empty() =~= plain@);
    }
    plain
}

/// A longer run of digits never spells a smaller number than its beginning.
proof fn lemma_digits_value_grows(digits: Seq<u8>, upto: int)
    requires
        0 <= upto <= digits.len(),
        all_digits(digits),
    ensures
        digits_value(digits.subrange(0, upto)) <= digits_value(digits),
    decreases digits.len() - upto,
{
    if upto == digits.len() {
        assert(digits.subrange(0, upto) =~= digits);
    } else {
        let longer = digits.subrange(0, upto + 1);
        assert(longer.drop_last() =~= digits.subrange(0, upto));
        assert(is_digit(digits[upto]));
        assert(longer.last() == digits[upto]);
        lemma_digits_value_grows(digits, upto + 1);
    }
}

/// Reads an identifier: an optional plus sign, then decimal digits.
pub fn parse_id(text: &[u8]) -> (id: Option<u32>)
    ensures
        id == id_value(text@),
{
    let start: usize = if text.len() > 0 && text[0] == 43u8 {
        1
    } else {
        0
    };
    let ghost digits = unsigned_part(text@);
    assert(digits =~= text@.subrange(start as int, text.len() as int));
    if start == text.len() {
        return None;
    }
    let mut value: u64 = 0;
    let mut at: usize = start;
    while at < text.len()
        invariant
            start <= at <= text.len(),
            digits == text@.subrange(start as int, text.len() as int),
            digits == unsigned_part(text@),
            all_digits(digits.subrange(0, at - start)),
            value == digits_value(digits.subrange(0, at - start)),
            value <= u32::MAX,
        decreases text.len() - at,
    {
        let b = text[at];
        let ghost before = digits.subrange(0, at - start);
        let ghost after = digits.subrange(0, at - start + 1);
        proof {
            assert(digits[at - start] == b);
            assert(after.drop_last() =~= before);
            assert(after.last() == b);
            assert(digits_value(after) == value * 10 + (b - 48) as nat);
        }
        if b < 48u8 || b > 57u8 {
            assert(!is_digit(digits[at - start]));
            return None;
        }
        assert(all_digits(after)) by {
            assert forall|i: int| 0 <= i < after.len() implies is_digit(#[trigger] after[i]) by {
                if i < before.len() {
                    assert(after[i] == before[i]);
                }
            }
        }
        let next: u64 = value * 10 + (b - 48u8) as u64;
        if next > 0xffff_ffffu64 {
            proof {
                if all_digits(digits) {
                    lemma_digits_value_grows(digits, at - start + 1);
                }
            }
            return None;
        }
        value = next;
        at += 1;
    }
    assert(digits.subrange(0, at - start) =~= digits);
    Some(value as u32)
}

/// Text without `&amp;` is left as it is.
pub proof fn lemma_unescaped_plain(text: Seq<u8>)
    requires
        !has_entity(text),
    ensures
        unescaped(text) == text,
    decreases text.len(),
{
    if text.len() == 0 {
        assert(unescaped(text) =~= text);
    } else {
        assert(!entity_at(text, 0));
        let rest = text.subrange(1, text.len() as int);
        assert(!has_entity(rest)) by {
            if has_entity(rest) {
                let at = choose|at: int| entity_at(rest, at);
                assert(text.subrange(at + 1, at + 6) =~= rest.subrange(at, at + 5));
                assert(entity_at(text, at + 1));
            }
        }
        lemma_unescaped_plain(rest);
        assert(seq![text[0]] + rest =~= text);
    }
}

/// Unescaping is idempotent wherever its result holds no `&amp;`: what has
/// been unescaped once, and shows no entity, is not changed by a second pass.
pub proof fn lemma_unescaped_idempotent(text: Seq<u8>)
    requires
        !has_entity(unescaped(text)),
    ensures
        unescaped(unescaped(text)) == unescaped(text),
{
    lemma_unescaped_plain(unescaped(text));
}

/// Where the first `upto` bytes hold no `&`, unescaping copies them.
pub proof fn lemma_unescaped_copies(text: Seq<u8>, upto: int)
    requires
        0 <= upto <= text.len(),
        forall|j: int| 0 <= j < upto ==> text[j] != 38u8,
    ensures
        unescaped(text) == text.subrange(0, upto) + unescaped(
            text.subrange(upto, text.len() as int),
        ),
    decreases upto,
{
    if upto == 0 {
        assert(text.subrange(0, text.len() as int) =~= text);
        assert(text.subrange(0, 0) + unescaped(text) =~= unescaped(text));
    } else {
        if entity_at(text, 0) {
            assert(text.subrange(0, 5)[0] == 38u8);
        }
        let rest = text.subrange(1, text.len() as int);
        lemma_unescaped_copies(rest, upto - 1);
        assert(rest.subrange(upto - 1, rest.len() as int) =~= text.subrange(
            upto,
            text.len() as int,
        ));
        assert(seq![text[0]] + (rest.subrange(0, upto - 1) + unescaped(
            text.subrange(upto, text.len() as int),
        )) =~= text.subrange(0, upto) + unescaped(text.subrange(upto, text.len() as int)));
    }
}

/// Where `&amp;` stands at `at` and no `&` before it, unescaping copies what
/// stands before the entity, writes `&` for it, and goes on behind it.
pub proof fn lemma_unescaped_entity(text: Seq<u8>, at: int)
    requires
        entity_at(text, at),
        forall|j: int| 0 <= j < at ==> text[j] != 38u8,
    ensures
        unescaped(text) == text.subrange(0, at) + seq![38u8] + unescaped(
            text.subrange(at + 5, text.len() as int),
        ),
{
    lemma_unescaped_copies(text, at);
    let rest = text.subrange(at, text.len() as int);
    assert(rest.subrange(0, 5) =~= text.subrange(at, at + 5));
    assert(entity_at(rest, 0));
    assert(rest.subrange(5, rest.len() as int) =~= text.subrange(at + 5, text.len() as int));
}

/// What follows a run of ASCII bytes at the start of valid UTF-8 is valid
/// UTF-8.
proof fn lemma_valid_after_ascii(text: Seq<u8>, upto: int)
    requires
        valid_utf8(text),
        0 <= upto <= text.len(),
        forall|j: int| 0 <= j < upto ==> text[j] < 0x80u8,
    ensures
        valid_utf8(text.subrange(upto, text.len() as int)),
    decreases upto,
{
    if upto == 0 {
        assert(text.subrange(0, text.len() as int) =~= text);
    } else {
        let rest = text.subrange(1, text.len() as int);
        assert(text[0] < 0x80u8);
        assert(pop_first_scalar(text) =~= rest);
        lemma_valid_after_ascii(rest, upto - 1);
        assert(rest.subrange(upto - 1, rest.len() as int) =~= text.subrange(
            upto,
            text.len() as int,
        ));
    }
}

/// The first scalar of valid UTF-8 is valid UTF-8 by itself, and so is what
/// follows it; after its first byte the scalar holds continuation bytes only.
proof fn lemma_first_scalar(text: Seq<u8>)
    requires
        valid_utf8(text),
        text.len() > 0,
    ensures
        1 <= length_of_first_scalar(text) <= text.len(),
        valid_utf8(take_first_scalar(text)),
        valid_utf8(pop_first_scalar(text)),
        forall|j: int|
            1 <= j < length_of_first_scalar(text) ==> is_continuation_byte(#[trigger] text[j]),
{
    let first = take_first_scalar(text);
    assert(valid_first_scalar(text));
    assert(valid_leading_and_continuation_bytes_first_codepoint(first));
    assert(decode_first_codepoint(first) == decode_first_codepoint(text));
    assert(length_of_first_codepoint(first) == length_of_first_codepoint(text));
    assert(pop_first_scalar(first) =~= Seq::<u8>::empty());
    assert(valid_utf8(pop_first_scalar(first)));
    assert(valid_utf8(first));
}

/// Unescaping keeps valid UTF-8 valid.
pub proof fn lemma_unescaped_valid(text: Seq<u8>)
    requires
        valid_utf8(text),
    ensures
        valid_utf8(unescaped(text)),
    decreases text.len(),
{
    if text.len() == 0 {
    } else if entity_at(text, 0) {
        let rest = text.subrange(5, text.len() as int);
        let entity = text.subrange(0, 5);
        assert forall|j: int| 0 <= j < 5 implies text[j] < 0x80u8 by {
            assert(text[j] == entity[j]);
        }
        lemma_valid_after_ascii(text, 5);
        lemma_unescaped_valid(rest);
        let ampersand = seq![38u8];
        assert(valid_utf8(ampersand)) by {
            assert(valid_first_scalar(ampersand));
            assert(pop_first_scalar(ampersand) =~= Seq::<u8>::empty());
            assert(valid_utf8(pop_first_scalar(ampersand)));
        }
        valid_utf8_concat(ampersand, unescaped(rest));
    } else {
        lemma_first_scalar(text);
        let width = length_of_first_scalar(text);
        let rest = text.subrange(1, text.len() as int);
        assert forall|j: int| 0 <= j < width - 1 implies rest[j] != 38u8 by {
            assert(is_continuation_byte(text[j + 1]));
        }
        lemma_unescaped_copies(rest, width - 1);
        assert(rest.subrange(width - 1, rest.len() as int) =~= pop_first_scalar(text));
        assert(seq![text[0]] + rest.subrange(0, width - 1) =~= take_first_scalar(text));
        lemma_unescaped_valid(pop_first_scalar(text));
        valid_utf8_concat(take_first_scalar(text), unescaped(pop_first_scalar(text)));
        assert(unescaped(text) =~= take_first_scalar(text) + unescaped(pop_first_scalar(text)));
    }
}

} // verus!
