//! Laws of text: numbers, comparison, searching, joining and trimming.

use crate::text;
use vstd::prelude::*;

verus! {

/// Whether a text is the decimal notation of a number: its digits, behind a minus sign exactly
/// where it is negative.
pub open spec fn denotes(s: Seq<char>, n: int) -> bool {
    &&& n >= 0 ==> s.len() > 0 && text::worth(s) == n && forall|i: int|
        0 <= i < s.len() ==> '0' <= #[trigger] s[i] <= '9'
    &&& n < 0 ==> s.len() > 1 && s[0] == '-' && text::worth(s.drop_first()) == -n && forall|i: int|
        0 < i < s.len() ==> '0' <= #[trigger] s[i] <= '9'
}

/// Numbers of every width are written in decimal notation.
pub proof fn law_numbers_are_written_in_decimal(
    a: i32,
    b: i64,
    c: u64,
    d: usize,
    e: i128,
    of_a: String,
    of_b: String,
    of_c: String,
    of_d: String,
    of_e: String,
)
    requires
        e > i128::MIN,
        call_ensures(text::i32_text, (a,), of_a),
        call_ensures(text::i64_text, (b,), of_b),
        call_ensures(text::u64_text, (c,), of_c),
        call_ensures(text::usize_text, (d,), of_d),
        call_ensures(text::integer_text, (e,), of_e),
    ensures
        denotes(of_a@, a as int),
        denotes(of_b@, b as int),
        denotes(of_c@, c as int),
        denotes(of_d@, d as int),
        denotes(of_e@, e as int),
{
    lemma_denotes(a as int);
    lemma_denotes(b as int);
    lemma_denotes(c as int);
    lemma_denotes(d as int);
    lemma_denotes(e as int);
}

proof fn lemma_denotes(n: int)
    ensures
        denotes(text::decimal(n), n),
{
    text::law_decimal_is_the_number(n);
    if n >= 0 {
        text::law_digits_are_worth_their_number(n as nat);
    }
}

/// What a lower-case hexadecimal digit is worth.
pub open spec fn nibble(c: char) -> int {
    if '0' <= c <= '9' {
        c as int - '0' as int
    } else {
        c as int - 'a' as int + 10
    }
}

/// Whether a character is a lower-case hexadecimal digit.
pub open spec fn is_nibble(c: char) -> bool {
    '0' <= c <= '9' || 'a' <= c <= 'f'
}

/// A number is written in eight lower-case hexadecimal digits, and is what they are worth.
pub proof fn law_a_number_has_eight_hexadecimal_digits(n: u32, hex: String, i: int)
    requires
        call_ensures(text::hex8_text, (n,), hex),
        0 <= i < 8,
    ensures
        hex@.len() == 8,
        is_nibble(hex@[i]),
        n == nibble(hex@[7]) + 0x10 * nibble(hex@[6]) + 0x100 * nibble(hex@[5]) + 0x1000 * nibble(
            hex@[4],
        ) + 0x1_0000 * nibble(hex@[3]) + 0x10_0000 * nibble(hex@[2]) + 0x100_0000 * nibble(hex@[1])
            + 0x1000_0000 * nibble(hex@[0]),
{
    let m = n as nat;
    lemma_hex_digit(m, 0, 0x1000_0000);
    lemma_hex_digit(m, 1, 0x100_0000);
    lemma_hex_digit(m, 2, 0x10_0000);
    lemma_hex_digit(m, 3, 0x1_0000);
    lemma_hex_digit(m, 4, 0x1000);
    lemma_hex_digit(m, 5, 0x100);
    lemma_hex_digit(m, 6, 0x10);
    lemma_hex_digit(m, 7, 1);
    lemma_nibbles_make_up_the_number(n as int);
}

proof fn lemma_hex_digit(m: nat, i: int, weight: nat)
    requires
        0 <= i < 8,
        weight == if i == 0 {
            0x1000_0000
        } else if i == 1 {
            0x100_0000
        } else if i == 2 {
            0x10_0000
        } else if i == 3 {
            0x1_0000
        } else if i == 4 {
            0x1000
        } else if i == 5 {
            0x100
        } else if i == 6 {
            0x10
        } else {
            1int
        },
    ensures
        is_nibble(text::hex8(m)[i]),
        nibble(text::hex8(m)[i]) == m / weight % 16,
{
    reveal_with_fuel(text::nibble_weight, 9);
    assert(text::nibble_weight(7 - i) == weight);
    assert(text::hex8(m)[i] == text::hex_char((m / weight) % 16));
    lemma_nibble(m / weight % 16);
}

proof fn lemma_nibbles_make_up_the_number(m: int)
    requires
        0 <= m < 0x1_0000_0000,
    ensures
        m == m / 1 % 16 + 0x10 * (m / 0x10 % 16) + 0x100 * (m / 0x100 % 16) + 0x1000 * (m / 0x1000
            % 16) + 0x1_0000 * (m / 0x1_0000 % 16) + 0x10_0000 * (m / 0x10_0000 % 16) + 0x100_0000
            * (m / 0x100_0000 % 16) + 0x1000_0000 * (m / 0x1000_0000 % 16),
{
    lemma_nibble_step(m, 1);
    lemma_nibble_step(m, 0x10);
    lemma_nibble_step(m, 0x100);
    lemma_nibble_step(m, 0x1000);
    lemma_nibble_step(m, 0x1_0000);
    lemma_nibble_step(m, 0x10_0000);
    lemma_nibble_step(m, 0x100_0000);
    assert(m / 0x1000_0000 < 16);
}

proof fn lemma_nibble_step(m: int, weight: int)
    requires
        m >= 0,
        weight >= 1,
    ensures
        m / weight == 16 * (m / (weight * 16)) + m / weight % 16,
{
    vstd::arithmetic::div_mod::lemma_div_denominator(m, weight, 16);
}

proof fn lemma_nibble(d: nat)
    requires
        d < 16,
    ensures
        is_nibble(text::hex_char(d)),
        nibble(text::hex_char(d)) == d,
{
    assert(text::hex_char(d) as int == if d < 10 {
        '0' as int + d
    } else {
        'a' as int + d - 10
    });
}

/// Two texts are the same exactly when their characters are, and two that may be missing also when
/// both are.
pub proof fn law_texts_are_told_apart_by_their_characters(
    left: &str,
    right: &str,
    same: bool,
    one: Option<String>,
    other: Option<String>,
    both: bool,
    some: Vec<String>,
    others: Vec<String>,
    all: bool,
)
    requires
        call_ensures(text::text_eq, (left, right), same),
        call_ensures(text::optional_text_eq, (&one, &other), both),
        call_ensures(text::texts_eq, (&some, &others), all),
    ensures
        same <==> left@ == right@,
        both <==> (one is None && other is None) || (one is Some && other is Some && one->0@
            == other->0@),
        all <==> some@.len() == others@.len() && forall|i: int|
            0 <= i < some@.len() ==> (#[trigger] some@[i])@ == others@[i]@,
{
    let l = some.deep_view();
    let r = others.deep_view();
    assert(l.len() == some@.len() && r.len() == others@.len());
    if all {
        assert forall|i: int| 0 <= i < some@.len() implies (#[trigger] some@[i])@
            == others@[i]@ by {
            assert(l[i] == some@[i]@ && r[i] == others@[i]@);
        }
    }
    if some@.len() == others@.len() && forall|i: int|
        0 <= i < some@.len() ==> (#[trigger] some@[i])@ == others@[i]@ {
        assert forall|i: int| 0 <= i < l.len() implies l[i] == r[i] by {
            assert(some@[i]@ == others@[i]@);
        }
        assert(l =~= r);
    }
}

/// A text is found in another exactly when its characters stand there in a row.
pub proof fn law_a_text_is_found_where_it_stands(hay: &str, needle: &str, found: bool, at: int)
    requires
        call_ensures(text::text_contains, (hay, needle), found),
    ensures
        0 <= at && at + needle@.len() <= hay@.len() && (forall|i: int|
            0 <= i < needle@.len() ==> #[trigger] needle@[i] == hay@[at + i]) ==> found,
        found ==> exists|from: int|
            0 <= from && from + needle@.len() <= hay@.len() && #[trigger] hay@.subrange(
                from,
                from + needle@.len(),
            ) == needle@,
        needle@.len() == 0 ==> found,
        needle@.len() > hay@.len() ==> !found,
{
    if 0 <= at && at + needle@.len() <= hay@.len() && (forall|i: int|
        0 <= i < needle@.len() ==> #[trigger] needle@[i] == hay@[at + i]) {
        assert(hay@.subrange(at, at + needle@.len()) =~= needle@);
        assert(text::occurs_at(hay@, needle@, at));
    }
    if needle@.len() == 0 {
        assert(hay@.subrange(0, 0) =~= needle@);
        assert(text::occurs_at(hay@, needle@, 0));
    }
    if found {
        let from = choose|from: int| text::occurs_at(hay@, needle@, from);
        assert(hay@.subrange(from, from + needle@.len()) == needle@);
    }
}

/// Joining puts the separator between neighbours and nowhere else: nothing joined is empty, one
/// text joined is itself, and one more text is put behind the separator.
pub proof fn law_a_separator_stands_between_neighbours(
    parts: Vec<String>,
    more: Vec<String>,
    separator: &str,
    joined: String,
    longer: String,
)
    requires
        call_ensures(text::join_texts, (&parts, separator), joined),
        call_ensures(text::join_texts, (&more, separator), longer),
        more@.len() == parts@.len() + 1,
        forall|i: int| 0 <= i < parts@.len() ==> (#[trigger] more@[i])@ == parts@[i]@,
    ensures
        parts@.len() == 0 ==> joined@.len() == 0,
        longer@ == if parts@.len() == 0 {
            more@.last()@
        } else {
            joined@ + separator@ + more@.last()@
        },
{
    let short = parts.deep_view();
    let long = more.deep_view();
    assert(short.len() == parts@.len() && long.len() == more@.len());
    assert forall|i: int| 0 <= i < short.len() implies short[i] == #[trigger] long.drop_last()[i] by {
        assert(more@[i]@ == parts@[i]@);
    }
    assert(long.drop_last() =~= short);
    assert(long.last() == more@.last()@);
}

/// Trimming leaves what stands between the white space at both ends.
pub proof fn law_trimming_takes_white_space_off_both_ends(s: &str, rest: &str)
    requires
        call_ensures(text::trim_text, (s,), rest),
    ensures
        rest@.len() > 0 ==> !text::is_white_space(rest@.first()) && !text::is_white_space(
            rest@.last(),
        ),
        exists|at: int|
            0 <= at && at + rest@.len() <= s@.len() && #[trigger] s@.subrange(at, at + rest@.len())
                == rest@ && text::is_blank(s@.subrange(0, at)) && text::is_blank(
                s@.subrange(at + rest@.len(), s@.len() as int),
            ),
{
    text::law_trimming_leaves_the_core(s@);
    let at = choose|at: int| #[trigger]
        text::occurs_at(s@, text::trimmed(s@), at) && text::is_blank(s@.subrange(0, at))
            && text::is_blank(s@.subrange(at + text::trimmed(s@).len(), s@.len() as int));
    assert(s@.subrange(at, at + rest@.len()) == rest@);
}

} // verus!
