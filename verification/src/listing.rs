//! Reading the migrations directory: which identifier a file name carries,
//! and which identifiers a listing holds.

use vstd::prelude::*;
use vstd::string::*;
use crate::artifact::file_name_text;
use crate::text::{decimal_text, digit_text};

verus! {

/// Whether `c` is a decimal digit.
pub open spec fn is_digit(c: char) -> bool {
    48 <= c as u32 <= 57
}

/// The number that `digits` writes in decimal.
pub open spec fn number(digits: Seq<char>) -> nat
    decreases digits.len(),
{
    if digits.len() == 0 {
        0
    } else {
        number(digits.drop_last()) * 10 + (digits.last() as u32 - 48) as nat
    }
}

/// The end of the digits of `name` that begin at `from`.
pub open spec fn digits_end(name: Seq<char>, from: int) -> int
    decreases name.len() - from,
{
    if 0 <= from < name.len() && is_digit(name[from]) {
        digits_end(name, from + 1)
    } else {
        from
    }
}

/// The identifier that the file name `name` carries: the number between
/// the letter U at its start and the two underscores that follow, where
/// the name is of that form and the number is one that an identifier can
/// be.
pub open spec fn identifier_in(name: Seq<char>) -> Option<u64> {
    let end = digits_end(name, 1);
    if name.len() >= 1 && name[0] == 'U' && end > 1 && end + 2 <= name.len() && name[end] == '_'
        && name[end + 1] == '_' && number(name.subrange(1, end)) <= u64::MAX {
        Some(number(name.subrange(1, end)) as u64)
    } else {
        None
    }
}

/// The identifiers that the file names `names` carry, in their order.
pub open spec fn identifiers_in(names: Seq<String>) -> Seq<u64>
    decreases names.len(),
{
    if names.len() == 0 {
        Seq::empty()
    } else {
        match identifier_in(names.last()@) {
            Some(id) => identifiers_in(names.drop_last()).push(id),
            None => identifiers_in(names.drop_last()),
        }
    }
}

proof fn lemma_digits_end_bounds(name: Seq<char>, from: int)
    requires
        0 <= from <= name.len(),
    ensures
        from <= digits_end(name, from) <= name.len(),
        forall|k: int| from <= k < digits_end(name, from) ==> is_digit(#[trigger] name[k]),
        digits_end(name, from) < name.len() ==> !is_digit(name[digits_end(name, from)]),
    decreases name.len() - from,
{
    if from < name.len() && is_digit(name[from]) {
        lemma_digits_end_bounds(name, from + 1);
    }
}

proof fn lemma_digits_end_is(name: Seq<char>, from: int, end: int)
    requires
        0 <= from <= end <= name.len(),
        forall|k: int| from <= k < end ==> is_digit(#[trigger] name[k]),
        end < name.len() ==> !is_digit(name[end]),
    ensures
        digits_end(name, from) == end,
    decreases end - from,
{
    if from < end {
        lemma_digits_end_is(name, from + 1, end);
    }
}

proof fn lemma_number_grows(digits: Seq<char>, k: int)
    requires
        0 <= k <= digits.len(),
        forall|i: int| 0 <= i < digits.len() ==> is_digit(#[trigger] digits[i]),
    ensures
        number(digits.subrange(0, k)) <= number(digits),
    decreases digits.len() - k,
{
    if k == digits.len() {
        assert(digits.subrange(0, k) =~= digits);
    } else {
        lemma_number_grows(digits, k + 1);
        assert(digits.subrange(0, k + 1).drop_last() =~= digits.subrange(0, k));
        assert(is_digit(digits[k]));
    }
}

/// The identifier that the file name `name` carries.
pub fn parse_identifier(name: &str) -> (r: Option<u64>)
    ensures
        r == identifier_in(name@),
{
    let len = name.unicode_len();
    if len < 1 {
        return None;
    }
    if name.get_char(0) != 'U' {
        return None;
    }
    let mut i: usize = 1;
    let mut value: u64 = 0;
    proof {
        lemma_digits_end_bounds(name@, 1);
        assert(name@.subrange(1, 1) =~= Seq::<char>::empty());
    }
    let mut in_digits = true;
    while in_digits && i < len
        invariant
            len == name@.len(),
            1 <= i <= len,
            forall|k: int| 1 <= k < i ==> is_digit(#[trigger] name@[k]),
            value == number(name@.subrange(1, i as int)),
            !in_digits ==> i < len && !is_digit(name@[i as int]),
        decreases len - i + (if in_digits { 1int } else { 0int }),
    {
        let code: u32 = name.get_char(i) as u32;
        if code < 48 || code > 57 {
            in_digits = false;
        } else {
            let digit: u64 = (code - 48) as u64;
            proof {
                assert(name@.subrange(1, i + 1).drop_last() =~= name@.subrange(1, i as int));
            }
            if value > (u64::MAX - digit) / 10 {
                proof {
                    lemma_digits_end_bounds(name@, 1);
                    let end = digits_end(name@, 1);
                    if end <= i {
                        assert(is_digit(name@[end]));
                    }
                    let all = name@.subrange(1, end);
                    assert(all.subrange(0, i as int) =~= name@.subrange(1, i + 1));
                    lemma_number_grows(all, i as int);
                    assert(number(name@.subrange(1, i + 1)) == value * 10 + digit);
                }
                return None;
            }
            value = value * 10 + digit;
            i += 1;
        }
    }
    proof {
        lemma_digits_end_is(name@, 1, i as int);
    }
    if i == 1 {
        return None;
    }
    if len - i < 2 {
        return None;
    }
    if name.get_char(i) != '_' || name.get_char(i + 1) != '_' {
        return None;
    }
    Some(value)
}

/// The identifiers that the file names `names` carry, in their order;
/// names that carry none are passed over.
pub fn existing_identifiers(names: &Vec<String>) -> (r: Vec<u64>)
    ensures
        r@ == identifiers_in(names@),
{
    let mut found: Vec<u64> = Vec::new();
    let mut i: usize = 0;
    while i < names.len()
        invariant
            0 <= i <= names@.len(),
            found@ == identifiers_in(names@.subrange(0, i as int)),
        decreases names@.len() - i,
    {
        proof {
            assert(names@.subrange(0, i + 1).drop_last() =~= names@.subrange(0, i as int));
        }
        match parse_identifier(names[i].as_str()) {
            Some(id) => found.push(id),
            None => {},
        }
        i += 1;
    }
    assert(names@.subrange(0, i as int) =~= names@);
    found
}

proof fn lemma_digit_text(d: nat)
    requires
        d < 10,
    ensures
        digit_text(d).len() == 1,
        is_digit(digit_text(d)[0]),
        digit_text(d)[0] as u32 - 48 == d,
{
    reveal_strlit("0");
    reveal_strlit("1");
    reveal_strlit("2");
    reveal_strlit("3");
    reveal_strlit("4");
    reveal_strlit("5");
    reveal_strlit("6");
    reveal_strlit("7");
    reveal_strlit("8");
    reveal_strlit("9");
}

/// A decimal notation is made of digits, and it writes its number.
pub proof fn lemma_decimal_text(n: nat)
    ensures
        decimal_text(n).len() >= 1,
        forall|i: int| 0 <= i < decimal_text(n).len() ==> is_digit(#[trigger] decimal_text(n)[i]),
        number(decimal_text(n)) == n,
    decreases n,
{
    lemma_digit_text(n % 10);
    if n < 10 {
        let d = digit_text(n);
        assert(d.drop_last() =~= Seq::<char>::empty());
        assert(number(d.drop_last()) == 0);
    } else {
        lemma_decimal_text(n / 10);
        let text = decimal_text(n);
        assert(text.drop_last() =~= decimal_text(n / 10));
        assert(text.last() == digit_text(n % 10)[0]);
    }
}

/// The name of a migration file carries the identifier of the migration,
/// whatever its slug.
pub proof fn lemma_file_name_carries_identifier(identifier: u64, slug: Seq<char>)
    ensures
        identifier_in(file_name_text(identifier, slug)) == Some(identifier),
{
    reveal_strlit("U");
    reveal_strlit("__");
    let digits = decimal_text(identifier as nat);
    let name = file_name_text(identifier, slug);
    lemma_decimal_text(identifier as nat);
    let end: int = digits.len() as int + 1;
    assert(name[0] == 'U');
    assert forall|k: int| 1 <= k < end implies is_digit(#[trigger] name[k]) by {
        assert(name[k] == digits[k - 1]);
    }
    assert(name[end] == '_');
    assert(name[end + 1] == '_');
    lemma_digits_end_is(name, 1, end);
    assert(name.subrange(1, end) =~= digits);
}

} // verus!
