//! Text helpers: decimal rendering, trimming, joining, searching and comparison.
//!
//! Every helper is stated over the characters of its arguments, so the messages
//! and names that the operator builds have exact contracts.

use vstd::prelude::*;
use vstd::string::*;

verus! {

/// The character of the decimal digit `d`.
pub open spec fn digit_char(d: nat) -> char {
    ('0' as nat + d) as char
}

/// The decimal digits of `n`, most significant first, without leading zeros.
pub open spec fn digits(n: nat) -> Seq<char>
    decreases n,
{
    if n < 10 {
        seq![digit_char(n)]
    } else {
        digits(n / 10).push(digit_char(n % 10))
    }
}

/// The decimal notation of `n`, with a leading minus sign for a negative number.
pub open spec fn decimal(n: int) -> Seq<char> {
    if n < 0 {
        seq!['-'] + digits((-n) as nat)
    } else {
        digits(n as nat)
    }
}

/// Whether `c` has the Unicode `White_Space` property.
pub open spec fn is_white_space(c: char) -> bool {
    let code = c as int;
    ||| 0x9 <= code <= 0xd
    ||| code == 0x20
    ||| code == 0x85
    ||| code == 0xa0
    ||| code == 0x1680
    ||| 0x2000 <= code <= 0x200a
    ||| code == 0x2028
    ||| code == 0x2029
    ||| code == 0x202f
    ||| code == 0x205f
    ||| code == 0x3000
}

/// Whether `s` holds nothing but white space.
pub open spec fn is_blank(s: Seq<char>) -> bool {
    forall|i: int| 0 <= i < s.len() ==> is_white_space(#[trigger] s[i])
}

/// `s` without its leading white space.
pub open spec fn trim_start(s: Seq<char>) -> Seq<char>
    decreases s.len(),
{
    if s.len() > 0 && is_white_space(s[0]) {
        trim_start(s.drop_first())
    } else {
        s
    }
}

/// `s` without its trailing white space.
pub open spec fn trim_end(s: Seq<char>) -> Seq<char>
    decreases s.len(),
{
    if s.len() > 0 && is_white_space(s.last()) {
        trim_end(s.drop_last())
    } else {
        s
    }
}

/// `s` without the white space around it.
pub open spec fn trimmed(s: Seq<char>) -> Seq<char> {
    trim_end(trim_start(s))
}

/// Whether `needle` stands in `hay` at position `at`.
pub open spec fn occurs_at(hay: Seq<char>, needle: Seq<char>, at: int) -> bool {
    0 <= at && at + needle.len() <= hay.len() && hay.subrange(at, at + needle.len()) == needle
}

/// Whether `needle` stands somewhere in `hay`.
pub open spec fn occurs(hay: Seq<char>, needle: Seq<char>) -> bool {
    exists|at: int| occurs_at(hay, needle, at)
}

/// Whether `left` comes before `right`: the first characters in which they differ are in that
/// order, or `left` is a proper beginning of `right`.
pub open spec fn precedes(left: Seq<char>, right: Seq<char>) -> bool {
    exists|at: int| differs_in_order_at(left, right, at)
}

/// Whether `left` and `right` agree up to `at`, and `left` ends there or has the lesser
/// character.
pub open spec fn differs_in_order_at(left: Seq<char>, right: Seq<char>, at: int) -> bool {
    &&& 0 <= at <= left.len()
    &&& at < right.len()
    &&& left.subrange(0, at) == right.subrange(0, at)
    &&& at == left.len() || (left[at] as int) < (right[at] as int)
}

/// The parts in order, with `separator` between neighbours.
pub open spec fn joined(parts: Seq<Seq<char>>, separator: Seq<char>) -> Seq<char>
    decreases parts.len(),
{
    if parts.len() == 0 {
        Seq::empty()
    } else if parts.len() == 1 {
        parts[0]
    } else {
        joined(parts.drop_last(), separator) + separator + parts.last()
    }
}

/// The eight lower-case hexadecimal digits of `n`, zero padded.
pub open spec fn hex8(n: nat) -> Seq<char> {
    Seq::new(8, |i: int| hex_char((n / nibble_weight(7 - i)) % 16))
}

/// What a hexadecimal digit is worth that has `place` digits to its right.
pub open spec fn nibble_weight(place: int) -> nat
    decreases place,
{
    if place <= 0 {
        1
    } else {
        16 * nibble_weight(place - 1)
    }
}

/// The lower-case character of the hexadecimal digit `d`.
pub open spec fn hex_char(d: nat) -> char {
    if d < 10 {
        digit_char(d)
    } else {
        ('a' as nat + (d - 10) as nat) as char
    }
}

fn digit_text(d: u8) -> (text: &'static str)
    requires
        d < 10,
    ensures
        text@ == seq![digit_char(d as nat)],
{
    proof {
        reveal_strlit("0");
        reveal_strlit("1");
        reveal_strlit("2");
        reveal_strlit("3");
        reveal_strlit("4");
        reveal_strlit("5");
        reveal_strlit("6");
        reveal_strlit("7");
        reveal_strlit("8");
        reveal_strlit("9");
    }
    let text = match d {
        0 => "0",
        1 => "1",
        2 => "2",
        3 => "3",
        4 => "4",
        5 => "5",
        6 => "6",
        7 => "7",
        8 => "8",
        _ => "9",
    };
    assert(text@ =~= seq![digit_char(d as nat)]);
    text
}

fn hex_digit_text(d: u8) -> (text: &'static str)
    requires
        d < 16,
    ensures
        text@ == seq![hex_char(d as nat)],
{
    if d < 10 {
        return digit_text(d);
    }
    proof {
        reveal_strlit("a");
        reveal_strlit("b");
        reveal_strlit("c");
        reveal_strlit("d");
        reveal_strlit("e");
        reveal_strlit("f");
    }
    let text = match d {
        10 => "a",
        11 => "b",
        12 => "c",
        13 => "d",
        14 => "e",
        _ => "f",
    };
    assert(text@ =~= seq![hex_char(d as nat)]);
    text
}

fn natural_text(n: u128) -> (text: String)
    ensures
        text@ == digits(n as nat),
    decreases n,
{
    if n < 10 {
        digit_text(n as u8).to_owned()
    } else {
        let last = digit_text((n % 10) as u8);
        let text = natural_text(n / 10).concat(last);
        assert(text@ =~= digits(n as nat));
        text
    }
}

/// The decimal notation of `n`.
pub fn integer_text(n: i128) -> (text: String)
    requires
        n > i128::MIN,
    ensures
        text@ == decimal(n as int),
{
    if n < 0 {
        proof {
            reveal_strlit("-");
        }
        let text = "-".to_owned().concat(natural_text((-n) as u128).as_str());
        assert(text@ =~= decimal(n as int));
        text
    } else {
        natural_text(n as u128)
    }
}

/// The decimal notation of an `i32`.
pub fn i32_text(n: i32) -> (text: String)
    ensures
        text@ == decimal(n as int),
{
    integer_text(n as i128)
}

/// The decimal notation of an `i64`.
pub fn i64_text(n: i64) -> (text: String)
    ensures
        text@ == decimal(n as int),
{
    integer_text(n as i128)
}

/// The decimal notation of a `u64`.
pub fn u64_text(n: u64) -> (text: String)
    ensures
        text@ == decimal(n as int),
{
    integer_text(n as i128)
}

/// The decimal notation of a `usize`.
pub fn usize_text(n: usize) -> (text: String)
    ensures
        text@ == decimal(n as int),
{
    u64_text(n as u64)
}

/// The eight lower-case hexadecimal digits of `n`.
pub fn hex8_text(n: u32) -> (text: String)
    ensures
        text@ == hex8(n as nat),
{
    let mut text = String::new();
    let mut place: usize = 8;
    let mut weight: u64 = 0x1_0000_0000;
    assert(nibble_weight(8) == 0x1_0000_0000) by {
        reveal_with_fuel(nibble_weight, 9);
    }
    while place > 0
        invariant
            place <= 8,
            weight == nibble_weight(place as int),
            weight <= 0x1_0000_0000,
            text@ =~= hex8(n as nat).subrange(0, 8 - place),
        decreases place,
    {
        assert(nibble_weight(place as int) == 16 * nibble_weight(place - 1));
        weight = weight / 16;
        place = place - 1;
        assert(weight == nibble_weight(place as int));
        assert(weight > 0) by {
            reveal_with_fuel(nibble_weight, 9);
        }
        let digit = ((n as u64 / weight) % 16) as u8;
        text.append(hex_digit_text(digit));
    }
    text
}

/// Whether two texts hold the same characters.
pub fn text_eq(left: &str, right: &str) -> (same: bool)
    ensures
        same == (left@ == right@),
{
    left.to_owned() == right.to_owned()
}

/// Whether two optional texts agree.
pub fn optional_text_eq(left: &Option<String>, right: &Option<String>) -> (same: bool)
    ensures
        same == (left.deep_view() == right.deep_view()),
{
    match (left, right) {
        (Some(a), Some(b)) => text_eq(a.as_str(), b.as_str()),
        (None, None) => true,
        _ => false,
    }
}

/// Whether two lists of texts agree, item by item.
pub fn texts_eq(left: &Vec<String>, right: &Vec<String>) -> (same: bool)
    ensures
        same == (left.deep_view() == right.deep_view()),
{
    if left.len() != right.len() {
        assert(left.deep_view().len() != right.deep_view().len());
        return false;
    }
    let mut i: usize = 0;
    while i < left.len()
        invariant
            i <= left.len(),
            left.len() == right.len(),
            forall|j: int| 0 <= j < i ==> left.deep_view()[j] == right.deep_view()[j],
        decreases left.len() - i,
    {
        if !text_eq(left[i].as_str(), right[i].as_str()) {
            assert(left.deep_view()[i as int] != right.deep_view()[i as int]);
            return false;
        }
        i = i + 1;
    }
    assert(left.deep_view() =~= right.deep_view());
    true
}

/// Whether `c` is white space.
pub fn char_is_white_space(c: char) -> (white: bool)
    ensures
        white == is_white_space(c),
{
    let code: u32 = c as u32;
    (0x9 <= code && code <= 0xd) || code == 0x20 || code == 0x85 || code == 0xa0 || code == 0x1680
        || (0x2000 <= code && code <= 0x200a) || code == 0x2028 || code == 0x2029 || code == 0x202f
        || code == 0x205f || code == 0x3000
}

/// Whether `s` is empty once the white space around it is taken away.
pub fn text_is_blank(s: &str) -> (blank: bool)
    ensures
        blank == is_blank(s@),
{
    let len: usize = s.unicode_len();
    let mut i: usize = 0;
    while i < len
        invariant
            i <= len,
            len == s@.len(),
            forall|j: int| 0 <= j < i ==> is_white_space(#[trigger] s@[j]),
        decreases len - i,
    {
        if !char_is_white_space(s.get_char(i)) {
            return false;
        }
        i = i + 1;
    }
    true
}

/// `s` without the white space around it.
pub fn trim_text(s: &str) -> (rest: &str)
    ensures
        rest@ == trimmed(s@),
{
    let len: usize = s.unicode_len();
    let mut from: usize = 0;
    assert(s@.subrange(0, s@.len() as int) =~= s@);
    while from < len && char_is_white_space(s.get_char(from))
        invariant
            from <= len,
            len == s@.len(),
            trim_start(s@) == trim_start(s@.subrange(from as int, len as int)),
        decreases len - from,
    {
        assert(s@.subrange(from as int, len as int).drop_first() =~= s@.subrange(
            from + 1,
            len as int,
        ));
        from = from + 1;
    }
    let ghost rest = s@.subrange(from as int, len as int);
    assert(trim_start(s@) == rest);
    let mut to: usize = len;
    while to > from && char_is_white_space(s.get_char(to - 1))
        invariant
            from <= to <= len,
            len == s@.len(),
            rest == s@.subrange(from as int, len as int),
            trim_end(rest) == trim_end(s@.subrange(from as int, to as int)),
        decreases to,
    {
        assert(s@.subrange(from as int, to as int).drop_last() =~= s@.subrange(
            from as int,
            to - 1,
        ));
        to = to - 1;
    }
    s.substring_char(from, to)
}

/// Whether `needle` stands somewhere in `hay`.
pub fn text_contains(hay: &str, needle: &str) -> (found: bool)
    ensures
        found == occurs(hay@, needle@),
{
    let hay_len: usize = hay.unicode_len();
    let needle_len: usize = needle.unicode_len();
    if needle_len > hay_len {
        return false;
    }
    let last: usize = hay_len - needle_len;
    let mut at: usize = 0;
    while at < last
        invariant
            last == hay_len - needle_len,
            hay_len == hay@.len(),
            needle_len == needle@.len(),
            at <= last,
            forall|j: int| 0 <= j < at ==> !occurs_at(hay@, needle@, j),
        decreases last - at,
    {
        if text_eq(hay.substring_char(at, at + needle_len), needle) {
            assert(occurs_at(hay@, needle@, at as int));
            return true;
        }
        at = at + 1;
    }
    let found = text_eq(hay.substring_char(last, hay_len), needle);
    assert(found ==> occurs_at(hay@, needle@, last as int));
    found
}

/// The parts in order, with `separator` between neighbours.
pub fn join_texts(parts: &Vec<String>, separator: &str) -> (text: String)
    ensures
        text@ == joined(parts.deep_view(), separator@),
{
    let ghost all = parts.deep_view();
    if parts.len() == 0 {
        return String::new();
    }
    let mut text = parts[0].clone();
    let mut i: usize = 1;
    assert(all.subrange(0, 1).len() == 1);
    while i < parts.len()
        invariant
            1 <= i <= parts.len(),
            all == parts.deep_view(),
            text@ == joined(all.subrange(0, i as int), separator@),
        decreases parts.len() - i,
    {
        let ghost before = all.subrange(0, i as int);
        text = text.concat(separator).concat(parts[i].as_str());
        assert(all.subrange(0, i + 1).drop_last() =~= before);
        i = i + 1;
    }
    assert(all.subrange(0, all.len() as int) =~= all);
    text
}

/// Different numbers have different decimal notations.
pub proof fn law_decimal_is_injective(a: int, b: int)
    requires
        decimal(a) == decimal(b),
    ensures
        a == b,
{
    lemma_digits_start(if a < 0 {
        (-a) as nat
    } else {
        a as nat
    });
    lemma_digits_start(if b < 0 {
        (-b) as nat
    } else {
        b as nat
    });
    if a < 0 {
        assert(decimal(a)[0] == '-');
        assert(decimal(b)[0] == '-');
        assert(decimal(a).subrange(1, decimal(a).len() as int) =~= digits((-a) as nat));
        assert(decimal(b).subrange(1, decimal(b).len() as int) =~= digits((-b) as nat));
        lemma_digits_injective((-a) as nat, (-b) as nat);
    } else {
        assert(decimal(a)[0] != '-');
        assert(b >= 0) by {
            if b < 0 {
                assert(decimal(b)[0] == '-');
            }
        }
        lemma_digits_injective(a as nat, b as nat);
    }
}

proof fn lemma_digits_start(n: nat)
    ensures
        digits(n).len() > 0,
        digits(n)[0] != '-',
    decreases n,
{
    if n >= 10 {
        lemma_digits_start(n / 10);
    }
}

proof fn lemma_digits_injective(a: nat, b: nat)
    requires
        digits(a) == digits(b),
    ensures
        a == b,
    decreases a,
{
    lemma_digits_start(a / 10);
    lemma_digits_start(b / 10);
    assert(digits(a).last() == digit_char(a % 10));
    assert(digits(b).last() == digit_char(b % 10));
    if a >= 10 && b >= 10 {
        assert(digits(a).drop_last() =~= digits(a / 10));
        assert(digits(b).drop_last() =~= digits(b / 10));
        lemma_digits_injective(a / 10, b / 10);
    }
}

/// A text is blank exactly when trimming leaves nothing of it.
pub proof fn law_blank_is_trimmed_away(s: Seq<char>)
    ensures
        is_blank(s) <==> trimmed(s).len() == 0,
{
    lemma_trim_start(s);
    lemma_trim_end(trim_start(s));
    if is_blank(s) {
        if trim_start(s).len() > 0 {
            let from = s.len() - trim_start(s).len();
            assert(is_white_space(s[from]));
        }
    } else {
        let i = choose|i: int| 0 <= i < s.len() && !is_white_space(#[trigger] s[i]);
        assert(s[i] == trim_start(s)[i - (s.len() - trim_start(s).len())]);
    }
}

/// What trimming takes away is the white space around the text, all of it and nothing else.
pub proof fn law_trimming_leaves_the_core(s: Seq<char>)
    ensures
        trimmed(s).len() > 0 ==> !is_white_space(trimmed(s).first()) && !is_white_space(
            trimmed(s).last(),
        ),
        exists|at: int| #[trigger]
            occurs_at(s, trimmed(s), at) && is_blank(s.subrange(0, at)) && is_blank(
                s.subrange(at + trimmed(s).len(), s.len() as int),
            ),
        s.len() > 0 && !is_white_space(s.first()) && !is_white_space(s.last()) ==> trimmed(s) == s,
{
    let rest = trim_start(s);
    lemma_trim_start(s);
    lemma_trim_end_leaves(rest);
    let at = s.len() - rest.len();
    let core = trimmed(s);
    assert(s.subrange(at, at + core.len()) =~= rest.subrange(0, core.len() as int));
    assert(s.subrange(at + core.len(), s.len() as int) =~= rest.subrange(
        core.len() as int,
        rest.len() as int,
    ));
    assert forall|i: int| 0 <= i < at implies is_white_space(#[trigger] s.subrange(0, at)[i]) by {
        assert(is_white_space(s[i]));
    }
    assert(occurs_at(s, core, at));
}

proof fn lemma_trim_end_leaves(s: Seq<char>)
    ensures
        trim_end(s).len() <= s.len(),
        trim_end(s) == s.subrange(0, trim_end(s).len() as int),
        is_blank(s.subrange(trim_end(s).len() as int, s.len() as int)),
        trim_end(s).len() > 0 ==> !is_white_space(trim_end(s).last()),
    decreases s.len(),
{
    if s.len() > 0 && is_white_space(s.last()) {
        let front = s.drop_last();
        lemma_trim_end_leaves(front);
        let from = trim_end(s).len() as int;
        assert(s.subrange(0, from) =~= front.subrange(0, from));
        let tail = s.subrange(from, s.len() as int);
        let shorter = front.subrange(from, front.len() as int);
        assert forall|i: int| 0 <= i < tail.len() implies is_white_space(#[trigger] tail[i]) by {
            if i < shorter.len() {
                assert(shorter[i] == tail[i]);
            }
        }
    } else {
        assert(s =~= s.subrange(0, s.len() as int));
    }
}

/// What a text ends with occurs in it, and stays in it whatever follows.
pub proof fn lemma_end_occurs(front: Seq<char>, end: Seq<char>)
    ensures
        occurs(front + end, end),
{
    let whole = front + end;
    assert(whole.subrange(front.len() as int, whole.len() as int) =~= end);
    assert(occurs_at(whole, end, front.len() as int));
}

/// The digits of a number are decimal digits, as many as it takes, and the number is what they
/// are worth.
pub proof fn law_digits_are_worth_their_number(n: nat)
    ensures
        digits(n).len() > 0,
        forall|i: int| 0 <= i < digits(n).len() ==> '0' <= #[trigger] digits(n)[i] <= '9',
        worth(digits(n)) == n,
        n > 0 ==> digits(n)[0] != '0',
        n == 0 ==> digits(n) == seq!['0'],
    decreases n,
{
    let all = digits(n);
    if n >= 10 {
        law_digits_are_worth_their_number(n / 10);
        let front = digits(n / 10);
        assert(all.drop_last() =~= front);
        assert forall|i: int| 0 <= i < all.len() implies '0' <= #[trigger] all[i] <= '9' by {
            if i < front.len() {
                assert(all[i] == front[i]);
            }
        }
        assert(all[0] == front[0]);
        assert(all.last() == digit_char(n % 10));
        assert(all.last() as int == '0' as int + n % 10);
        assert(worth(all) == 10 * worth(front) + n % 10);
    } else {
        assert(all.drop_last() =~= Seq::empty());
        assert(all.last() as int == '0' as int + n);
        assert(worth(all.drop_last()) == 0);
        assert(worth(all) == n);
    }
}

/// What a row of decimal digits is worth.
pub open spec fn worth(row: Seq<char>) -> nat
    decreases row.len(),
{
    if row.len() == 0 {
        0
    } else {
        10 * worth(row.drop_last()) + ((row.last() as int) - ('0' as int)) as nat
    }
}

/// The notation of a number is its digits, behind a minus sign exactly where it is negative.
pub proof fn law_decimal_is_the_number(n: int)
    ensures
        n >= 0 ==> worth(decimal(n)) == n && forall|i: int|
            0 <= i < decimal(n).len() ==> '0' <= #[trigger] decimal(n)[i] <= '9',
        n < 0 ==> decimal(n).len() > 1 && decimal(n)[0] == '-' && worth(decimal(n).drop_first())
            == -n && forall|i: int|
            0 < i < decimal(n).len() ==> '0' <= #[trigger] decimal(n)[i] <= '9',
{
    if n < 0 {
        law_digits_are_worth_their_number((-n) as nat);
        assert(decimal(n).drop_first() =~= digits((-n) as nat));
        assert forall|i: int| 0 < i < decimal(n).len() implies '0' <= #[trigger] decimal(n)[i]
            <= '9' by {
            assert(decimal(n)[i] == digits((-n) as nat)[i - 1]);
        }
    } else {
        law_digits_are_worth_their_number(n as nat);
    }
}

/// A text that stands between two others occurs in the three together.
pub proof fn lemma_occurs_between(front: Seq<char>, needle: Seq<char>, back: Seq<char>)
    ensures
        occurs(front + needle + back, needle),
{
    lemma_end_occurs(front, needle);
    lemma_occurs_in_longer(front + needle, needle, back);
}

/// Three texts in a row occur as one, behind whatever stands before them.
pub proof fn lemma_row_occurs(front: Seq<char>, a: Seq<char>, b: Seq<char>, c: Seq<char>)
    ensures
        occurs(front + a + b + c, a + b + c),
{
    lemma_end_occurs(front, a + b + c);
    lemma_row_is_one(front, a, b, c);
}

proof fn lemma_row_is_one(front: Seq<char>, a: Seq<char>, b: Seq<char>, c: Seq<char>)
    ensures
        front + (a + b + c) == front + a + b + c,
{
    assert(front + (a + b + c) =~= front + a + b + c);
}

/// Every part occurs in what the parts are joined to.
pub proof fn law_every_part_is_joined(parts: Seq<Seq<char>>, separator: Seq<char>, i: int)
    requires
        0 <= i < parts.len(),
    ensures
        occurs(joined(parts, separator), parts[i]),
    decreases parts.len(),
{
    if parts.len() == 1 {
        lemma_end_occurs(Seq::empty(), parts[0]);
        assert(Seq::<char>::empty() + parts[0] =~= parts[0]);
    } else {
        let front = parts.drop_last();
        if i < front.len() {
            law_every_part_is_joined(front, separator, i);
            assert(front[i] == parts[i]);
            lemma_occurs_in_longer(joined(front, separator), parts[i], separator);
            lemma_occurs_in_longer(joined(front, separator) + separator, parts[i], parts.last());
        } else {
            lemma_end_occurs(joined(front, separator) + separator, parts.last());
        }
    }
}

/// Texts that agree up to `at` and differ there are in the order of the characters there.
pub proof fn lemma_precedes_at(left: Seq<char>, right: Seq<char>, at: int)
    requires
        0 <= at < left.len(),
        at < right.len(),
        left.subrange(0, at) =~= right.subrange(0, at),
        (left[at] as int) < (right[at] as int),
    ensures
        precedes(left, right),
{
    assert(differs_in_order_at(left, right, at));
}

/// What occurs in a text occurs in every longer text that starts with it.
pub proof fn lemma_occurs_in_longer(hay: Seq<char>, needle: Seq<char>, more: Seq<char>)
    requires
        occurs(hay, needle),
    ensures
        occurs(hay + more, needle),
{
    let at = choose|at: int| occurs_at(hay, needle, at);
    assert((hay + more).subrange(at, at + needle.len()) =~= hay.subrange(at, at + needle.len()));
    assert(occurs_at(hay + more, needle, at));
}

/// What occurs in the end of a text occurs in the text.
pub proof fn lemma_occurs_in_end(front: Seq<char>, end: Seq<char>, needle: Seq<char>)
    requires
        occurs(end, needle),
    ensures
        occurs(front + end, needle),
{
    let at = choose|at: int| occurs_at(end, needle, at);
    let from = front.len() + at;
    assert((front + end).subrange(from, from + needle.len()) =~= end.subrange(
        at,
        at + needle.len(),
    ));
    assert(occurs_at(front + end, needle, from));
}

proof fn lemma_trim_start(s: Seq<char>)
    ensures
        trim_start(s).len() <= s.len(),
        trim_start(s) == s.subrange(s.len() - trim_start(s).len(), s.len() as int),
        forall|i: int| 0 <= i < s.len() - trim_start(s).len() ==> is_white_space(#[trigger] s[i]),
        trim_start(s).len() > 0 ==> !is_white_space(trim_start(s)[0]),
    decreases s.len(),
{
    if s.len() > 0 && is_white_space(s[0]) {
        let rest = s.drop_first();
        lemma_trim_start(rest);
        assert forall|i: int| 0 <= i < s.len() - trim_start(s).len() implies is_white_space(
            #[trigger] s[i],
        ) by {
            if i > 0 {
                assert(rest[i - 1] == s[i]);
            }
        }
        assert(trim_start(s) =~= s.subrange(s.len() - trim_start(s).len(), s.len() as int));
    } else {
        assert(s =~= s.subrange(0, s.len() as int));
    }
}

proof fn lemma_trim_end(s: Seq<char>)
    ensures
        trim_end(s).len() == 0 <==> is_blank(s),
    decreases s.len(),
{
    if s.len() > 0 && is_white_space(s.last()) {
        lemma_trim_end(s.drop_last());
        let front = s.drop_last();
        if is_blank(front) {
            assert forall|i: int| 0 <= i < s.len() implies is_white_space(#[trigger] s[i]) by {
                if i < front.len() {
                    assert(front[i] == s[i]);
                }
            }
        } else {
            let i = choose|i: int| 0 <= i < front.len() && !is_white_space(#[trigger] front[i]);
            assert(s[i] == front[i]);
        }
    } else if s.len() > 0 {
        assert(!is_white_space(s[s.len() - 1]));
    }
}

} // verus!
