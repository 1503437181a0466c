//! Verified utilities on strings viewed as sequences of characters.

use vstd::prelude::*;

verus! {

/// True when `s` ends with `suffix`.
pub open spec fn ends_with(s: Seq<char>, suffix: Seq<char>) -> bool {
    s.len() >= suffix.len() && s.subrange(s.len() - suffix.len(), s.len() as int) == suffix
}

/// `s` with one trailing occurrence of `suffix` removed, when present.
pub open spec fn without_suffix(s: Seq<char>, suffix: Seq<char>) -> Seq<char> {
    if ends_with(s, suffix) {
        s.take(s.len() - suffix.len())
    } else {
        s
    }
}

/// Removes one trailing occurrence of `suffix` from `s`, if there is one.
pub fn strip_suffix(s: &str, suffix: &str) -> (r: String)
    ensures
        r@ == without_suffix(s@, suffix@),
{
    let n = s.unicode_len();
    let m = suffix.unicode_len();
    if m > n {
        return s.to_owned();
    }
    let mut i: usize = 0;
    while i < m
        invariant
            i <= m <= n,
            n == s@.len(),
            m == suffix@.len(),
            forall|j: int| 0 <= j < i ==> s@[n - m + j] == suffix@[j],
        decreases m - i,
    {
        if s.get_char(n - m + i) != suffix.get_char(i) {
            assert(!ends_with(s@, suffix@));
            return s.to_owned();
        }
        i += 1;
    }
    assert(s@.subrange(n - m, n as int) =~= suffix@);
    s.substring_char(0, n - m).to_owned()
}

/// `s` split at every occurrence of `sep`: the fields between separators,
/// in order. Adjacent separators yield empty fields, and the result always
/// has one more field than there are separators.
pub open spec fn split_chars(s: Seq<char>, sep: char) -> Seq<Seq<char>>
    decreases s.len(),
{
    if s.len() == 0 {
        seq![Seq::<char>::empty()]
    } else if s[0] == sep {
        seq![Seq::<char>::empty()] + split_chars(s.drop_first(), sep)
    } else {
        let rest = split_chars(s.drop_first(), sep);
        seq![seq![s[0]] + rest[0]] + rest.drop_first()
    }
}

/// A split has at least one field.
pub proof fn lemma_split_len(s: Seq<char>, sep: char)
    ensures
        split_chars(s, sep).len() >= 1,
    decreases s.len(),
{
    if s.len() != 0 {
        lemma_split_len(s.drop_first(), sep);
    }
}

/// Appending one character extends a split: a separator opens a new empty
/// field, any other character extends the last field.
pub proof fn lemma_split_snoc(s: Seq<char>, c: char, sep: char)
    ensures
        split_chars(s.push(c), sep) == if c == sep {
            split_chars(s, sep).push(Seq::<char>::empty())
        } else {
            split_chars(s, sep).update(
                split_chars(s, sep).len() - 1,
                split_chars(s, sep).last().push(c),
            )
        },
    decreases s.len(),
{
    lemma_split_len(s, sep);
    if s.len() == 0 {
        assert(s.push(c)[0] == c);
        assert(s.push(c).drop_first() =~= s);
        if c == sep {
            assert(split_chars(s.push(c), sep) =~~= split_chars(s, sep).push(
                Seq::<char>::empty(),
            ));
        } else {
            assert(split_chars(s.push(c), sep) =~~= split_chars(s, sep).update(
                split_chars(s, sep).len() - 1,
                split_chars(s, sep).last().push(c),
            ));
        }
    } else {
        let rest = split_chars(s.drop_first(), sep);
        let restc = split_chars(s.drop_first().push(c), sep);
        assert(s.push(c)[0] == s[0]);
        assert(s.push(c).drop_first() =~= s.drop_first().push(c));
        lemma_split_snoc(s.drop_first(), c, sep);
        lemma_split_len(s.drop_first(), sep);
        if s[0] == sep {
            assert(split_chars(s, sep) == seq![Seq::<char>::empty()] + rest);
            assert(split_chars(s.push(c), sep) == seq![Seq::<char>::empty()] + restc);
            let full = seq![Seq::<char>::empty()] + rest;
            if c == sep {
                assert(seq![Seq::<char>::empty()] + rest.push(Seq::<char>::empty()) =~= full.push(
                    Seq::<char>::empty(),
                ));
            } else {
                assert(full.last() == rest.last());
                assert(seq![Seq::<char>::empty()] + restc =~= full.update(
                    full.len() - 1,
                    full.last().push(c),
                ));
            }
        } else {
            assert(split_chars(s, sep) == seq![seq![s[0]] + rest[0]] + rest.drop_first());
            assert(split_chars(s.push(c), sep) == seq![seq![s[0]] + restc[0]] + restc.drop_first());
            let full = seq![seq![s[0]] + rest[0]] + rest.drop_first();
            if c == sep {
                assert(restc[0] == rest[0]);
                assert(restc.drop_first() =~= rest.drop_first().push(Seq::<char>::empty()));
                assert(seq![seq![s[0]] + restc[0]] + restc.drop_first() =~= full.push(
                    Seq::<char>::empty(),
                ));
            } else {
                if rest.len() == 1 {
                    assert(restc[0] == rest[0].push(c));
                    assert(restc.drop_first() =~= Seq::<Seq<char>>::empty());
                    assert(rest.drop_first() =~= Seq::<Seq<char>>::empty());
                    assert(full.len() == 1);
                    assert(full.last() == seq![s[0]] + rest[0]);
                    assert(seq![s[0]] + rest[0].push(c) =~= (seq![s[0]] + rest[0]).push(c));
                    assert(seq![seq![s[0]] + restc[0]] + restc.drop_first() =~= full.update(
                        full.len() - 1,
                        full.last().push(c),
                    ));
                } else {
                    assert(restc[0] == rest[0]);
                    assert(restc.drop_first() =~= rest.drop_first().update(
                        rest.drop_first().len() - 1,
                        rest.drop_first().last().push(c),
                    ));
                    assert(full.last() == rest.last());
                    assert(seq![seq![s[0]] + restc[0]] + restc.drop_first() =~= full.update(
                        full.len() - 1,
                        full.last().push(c),
                    ));
                }
            }
        }
    }
}

/// Splits `s` at every occurrence of `sep`.
pub fn split(s: &str, sep: char) -> (r: Vec<String>)
    ensures
        r.deep_view() == split_chars(s@, sep),
        r@.len() >= 1,
{
    let n = s.unicode_len();
    let mut parts: Vec<String> = Vec::new();
    let mut start: usize = 0;
    let mut i: usize = 0;
    proof {
        assert(s@.take(0) =~= Seq::<char>::empty());
        assert(s@.subrange(0, 0) =~= Seq::<char>::empty());
        assert(parts.deep_view().push(Seq::<char>::empty()) =~= seq![Seq::<char>::empty()]);
    }
    while i < n
        invariant
            start <= i <= n,
            n == s@.len(),
            split_chars(s@.take(i as int), sep) == parts.deep_view().push(
                s@.subrange(start as int, i as int),
            ),
        decreases n - i,
    {
        let ghost prev_parts = parts.deep_view();
        let ghost partial = s@.subrange(start as int, i as int);
        proof {
            assert(s@.take(i + 1) =~= s@.take(i as int).push(s@[i as int]));
            lemma_split_snoc(s@.take(i as int), s@[i as int], sep);
        }
        if s.get_char(i) == sep {
            parts.push(s.substring_char(start, i).to_owned());
            proof {
                assert(parts.deep_view() =~= prev_parts.push(partial));
                assert(s@.subrange(i + 1, i + 1) =~= Seq::<char>::empty());
                assert(split_chars(s@.take(i + 1), sep) =~= parts.deep_view().push(
                    s@.subrange(i + 1, i + 1),
                ));
            }
            start = i + 1;
        } else {
            proof {
                assert(prev_parts.push(partial).update(
                    prev_parts.len() as int,
                    partial.push(s@[i as int]),
                ) =~= prev_parts.push(partial.push(s@[i as int])));
                assert(s@.subrange(start as int, i + 1) =~= partial.push(s@[i as int]));
            }
        }
        i += 1;
    }
    proof {
        assert(s@.take(n as int) =~= s@);
    }
    parts.push(s.substring_char(start, n).to_owned());
    proof {
        assert(parts.deep_view() =~= split_chars(s@, sep));
    }
    parts
}

/// The parts joined with `sep` between adjacent parts.
pub open spec fn joined_with(parts: Seq<Seq<char>>, sep: Seq<char>) -> Seq<char>
    decreases parts.len(),
{
    if parts.len() == 0 {
        Seq::empty()
    } else if parts.len() == 1 {
        parts[0]
    } else {
        parts[0] + sep + joined_with(parts.drop_first(), sep)
    }
}

/// Joining one more part appends a separator and the part.
pub proof fn lemma_joined_with_snoc(parts: Seq<Seq<char>>, part: Seq<char>, sep: Seq<char>)
    requires
        parts.len() >= 1,
    ensures
        joined_with(parts.push(part), sep) == joined_with(parts, sep) + sep + part,
    decreases parts.len(),
{
    if parts.len() == 1 {
        assert(parts.push(part)[0] == parts[0]);
        assert(parts.push(part).drop_first() =~= seq![part]);
        assert(joined_with(seq![part], sep) == part);
    } else {
        assert(parts.push(part)[0] == parts[0]);
        assert(parts.push(part).drop_first() =~= parts.drop_first().push(part));
        lemma_joined_with_snoc(parts.drop_first(), part, sep);
        assert(parts[0] + sep + (joined_with(parts.drop_first(), sep) + sep + part) =~= (parts[0]
            + sep + joined_with(parts.drop_first(), sep)) + sep + part);
    }
}

/// Joins the parts with `sep` between adjacent parts.
pub fn join_with(parts: &Vec<String>, sep: &str) -> (r: String)
    ensures
        r@ == joined_with(parts.deep_view(), sep@),
{
    let ghost parts_v = parts.deep_view();
    if parts.len() == 0 {
        let empty = String::new();
        proof {
            assert(empty@ =~= joined_with(parts_v, sep@));
        }
        return empty;
    }
    let mut r = parts[0].clone();
    proof {
        assert(parts_v.take(1) =~= seq![parts_v[0]]);
        assert(r@ == joined_with(parts_v.take(1), sep@));
    }
    let mut i: usize = 1;
    while i < parts.len()
        invariant
            1 <= i <= parts@.len(),
            parts_v == parts.deep_view(),
            r@ == joined_with(parts_v.take(i as int), sep@),
        decreases parts@.len() - i,
    {
        r.append(sep);
        r.append(parts[i].as_str());
        proof {
            assert(parts_v.take(i + 1) =~= parts_v.take(i as int).push(parts_v[i as int]));
            lemma_joined_with_snoc(parts_v.take(i as int), parts_v[i as int], sep@);
        }
        i += 1;
    }
    proof {
        assert(parts_v.take(parts_v.len() as int) =~= parts_v);
    }
    r
}

/// The character for one decimal digit.
pub open spec fn digit_char(d: nat) -> char {
    if d == 0 {
        '0'
    } else if d == 1 {
        '1'
    } else if d == 2 {
        '2'
    } else if d == 3 {
        '3'
    } else if d == 4 {
        '4'
    } else if d == 5 {
        '5'
    } else if d == 6 {
        '6'
    } else if d == 7 {
        '7'
    } else if d == 8 {
        '8'
    } else {
        '9'
    }
}

/// The decimal digits of `n`, most significant first.
pub open spec fn dec_digits(n: nat) -> Seq<char>
    decreases n,
{
    if n < 10 {
        seq![digit_char(n)]
    } else {
        dec_digits(n / 10) + seq![digit_char(n % 10)]
    }
}

/// The decimal rendering of an integer: its digits, with a leading minus
/// sign when it is negative.
pub open spec fn dec_int(n: int) -> Seq<char> {
    if n < 0 {
        seq!['-'] + dec_digits((-n) as nat)
    } else {
        dec_digits(n as nat)
    }
}

/// Renders an unsigned number in decimal.
pub fn u64_to_string(n: u64) -> (r: String)
    ensures
        r@ == dec_digits(n as nat),
    decreases n,
{
    let d: &str = match n % 10 {
        0 => "0",
        1 => "1",
        2 => "2",
        3 => "3",
        4 => "4",
        5 => "5",
        6 => "6",
        7 => "7",
        8 => "8",
        _ => "9",
    };
    proof {
        reveal_strlit("0");
        reveal_strlit("1");
        reveal_strlit("2");
        reveal_strlit("3");
        reveal_strlit("4");
        reveal_strlit("5");
        reveal_strlit("6");
        reveal_strlit("7");
        reveal_strlit("8");
        reveal_strlit("9");
        assert(d@ =~= seq![digit_char((n % 10) as nat)]);
    }
    if n < 10 {
        d.to_owned()
    } else {
        let mut prefix = u64_to_string(n / 10);
        prefix.append(d);
        prefix
    }
}

/// Renders a signed number in decimal, with a minus sign when negative.
pub fn i64_to_string(n: i64) -> (r: String)
    ensures
        r@ == dec_int(n as int),
{
    if n < 0 {
        let magnitude: u64 = ((-(n as i128)) as u64);
        let mut r = "-".to_owned();
        proof {
            reveal_strlit("-");
            assert("-"@ =~= seq!['-']);
        }
        let digits = u64_to_string(magnitude);
        r.append(digits.as_str());
        r
    } else {
        u64_to_string(n as u64)
    }
}

/// `dir` and `name` joined with a path separator: one is inserted unless
/// `dir` is empty or already ends with one.
pub open spec fn joined_path(dir: Seq<char>, name: Seq<char>) -> Seq<char> {
    if dir.len() == 0 || dir.last() == '/' {
        dir + name
    } else {
        dir + seq!['/'] + name
    }
}

/// Joins a directory path and an entry name.
pub fn join_path(dir: &str, name: &str) -> (r: String)
    ensures
        r@ == joined_path(dir@, name@),
{
    let n = dir.unicode_len();
    let mut r = dir.to_owned();
    if n > 0 && dir.get_char(n - 1) != '/' {
        r.append("/");
        proof {
            reveal_strlit("/");
            assert("/"@ =~= seq!['/']);
        }
    }
    r.append(name);
    r
}

/// A decimal digit.
pub open spec fn is_digit(c: char) -> bool {
    48 <= c as u32 <= 57
}

/// The numeric value of a digit string, most significant first.
pub open spec fn digits_value(s: Seq<char>) -> int
    decreases s.len(),
{
    if s.len() == 0 {
        0
    } else {
        digits_value(s.drop_last()) * 10 + ((s.last() as u32) as int - 48)
    }
}

/// Whether `s` is one or more decimal digits.
pub open spec fn all_digits(s: Seq<char>) -> bool {
    s.len() > 0 && forall|i: int| 0 <= i < s.len() ==> is_digit(#[trigger] s[i])
}

/// The integer a string denotes: digits, optionally behind a minus sign.
pub open spec fn parsed_int(s: Seq<char>) -> Option<int> {
    if all_digits(s) {
        Some(digits_value(s))
    } else if s.len() >= 2 && s[0] == '-' && all_digits(s.skip(1)) {
        Some(-digits_value(s.skip(1)))
    } else {
        None
    }
}

/// A digit string's value is not negative, and no prefix of it exceeds it.
proof fn lemma_digits_value_bounds(s: Seq<char>, j: int)
    requires
        forall|i: int| 0 <= i < s.len() ==> is_digit(#[trigger] s[i]),
        0 <= j <= s.len(),
    ensures
        0 <= digits_value(s.take(j)) <= digits_value(s),
    decreases s.len() - j,
{
    if j == s.len() {
        assert(s.take(j) =~= s);
        lemma_digits_value_nonneg(s);
    } else {
        lemma_digits_value_bounds(s, j + 1);
        assert(s.take(j + 1).drop_last() =~= s.take(j));
        assert(s.take(j + 1).last() == s[j]);
        lemma_digits_value_nonneg(s.take(j));
    }
}

/// A digit string's value is not negative.
proof fn lemma_digits_value_nonneg(s: Seq<char>)
    requires
        forall|i: int| 0 <= i < s.len() ==> is_digit(#[trigger] s[i]),
    ensures
        digits_value(s) >= 0,
    decreases s.len(),
{
    if s.len() > 0 {
        assert(forall|i: int|
            0 <= i < s.drop_last().len() ==> is_digit(#[trigger] s.drop_last()[i]));
        lemma_digits_value_nonneg(s.drop_last());
    }
}

/// A whitespace character, as trimming understands it.
pub open spec fn is_trim_space(c: char) -> bool {
    c == ' ' || c == '\t' || c == '\n' || c == '\r'
}

/// The first position of `s` holding a non-whitespace character; the length
/// when there is none.
pub open spec fn trim_start(s: Seq<char>) -> int
    decreases s.len(),
{
    if s.len() > 0 && is_trim_space(s[0]) {
        1 + trim_start(s.drop_first())
    } else {
        0
    }
}

/// One past the last position of `s` holding a non-whitespace character;
/// zero when there is none.
pub open spec fn trim_end(s: Seq<char>) -> int
    decreases s.len(),
{
    if s.len() > 0 && is_trim_space(s.last()) {
        trim_end(s.drop_last())
    } else {
        s.len() as int
    }
}

/// `s` without leading and trailing whitespace.
pub open spec fn trimmed(s: Seq<char>) -> Seq<char> {
    if trim_start(s) <= trim_end(s) {
        s.subrange(trim_start(s), trim_end(s))
    } else {
        Seq::empty()
    }
}

/// `trim_start` marks the first non-whitespace character.
proof fn lemma_trim_start(s: Seq<char>)
    ensures
        0 <= trim_start(s) <= s.len(),
        forall|j: int| 0 <= j < trim_start(s) ==> is_trim_space(#[trigger] s[j]),
        trim_start(s) < s.len() ==> !is_trim_space(s[trim_start(s)]),
    decreases s.len(),
{
    if s.len() > 0 && is_trim_space(s[0]) {
        lemma_trim_start(s.drop_first());
        assert forall|j: int| 0 <= j < trim_start(s) implies is_trim_space(s[j]) by {
            if j > 0 {
                assert(s[j] == s.drop_first()[j - 1]);
                assert(is_trim_space(s.drop_first()[j - 1]));
            }
        }
        if trim_start(s) < s.len() {
            assert(s[trim_start(s)] == s.drop_first()[trim_start(s.drop_first())]);
        }
    }
}

/// `trim_end` marks one past the last non-whitespace character.
proof fn lemma_trim_end(s: Seq<char>)
    ensures
        0 <= trim_end(s) <= s.len(),
        forall|j: int| trim_end(s) <= j < s.len() ==> is_trim_space(#[trigger] s[j]),
        trim_end(s) > 0 ==> !is_trim_space(s[trim_end(s) - 1]),
    decreases s.len(),
{
    if s.len() > 0 && is_trim_space(s.last()) {
        lemma_trim_end(s.drop_last());
        assert forall|j: int| trim_end(s) <= j < s.len() implies is_trim_space(s[j]) by {
            if j < s.len() - 1 {
                assert(s[j] == s.drop_last()[j]);
                assert(is_trim_space(s.drop_last()[j]));
            }
        }
        if trim_end(s) > 0 {
            assert(s[trim_end(s) - 1] == s.drop_last()[trim_end(s) - 1]);
        }
    }
}

/// The integer `s` denotes once trimmed — an optional minus sign, then
/// decimal digits — when it denotes one and it fits in the result type.
pub fn parse_i32(s: &str) -> (r: Option<i32>)
    ensures
        match r {
            Some(v) => parsed_int(trimmed(s@)) == Some(v as int),
            None => match parsed_int(trimmed(s@)) {
                Some(v) => v < i32::MIN || v > i32::MAX,
                None => true,
            },
        },
{
    let n = s.unicode_len();
    proof {
        lemma_trim_start(s@);
        lemma_trim_end(s@);
    }

    let mut a: usize = 0;
    while a < n
        invariant
            a <= n,
            n == s@.len(),
            forall|j: int| 0 <= j < a ==> is_trim_space(#[trigger] s@[j]),
        ensures
            a <= n,
            forall|j: int| 0 <= j < a ==> is_trim_space(#[trigger] s@[j]),
            a == n || !is_trim_space(s@[a as int]),
        decreases n - a,
    {
        let c = s.get_char(a);
        if !(c == ' ' || c == '\t' || c == '\n' || c == '\r') {
            break ;
        }
        a += 1;
    }
    assert(a == trim_start(s@));

    let mut b: usize = n;
    while b > 0
        invariant
            b <= n,
            n == s@.len(),
            forall|j: int| b <= j < n ==> is_trim_space(#[trigger] s@[j]),
        ensures
            b <= n,
            forall|j: int| b <= j < n ==> is_trim_space(#[trigger] s@[j]),
            b == 0 || !is_trim_space(s@[b - 1]),
        decreases b,
    {
        let c = s.get_char(b - 1);
        if !(c == ' ' || c == '\t' || c == '\n' || c == '\r') {
            break ;
        }
        b -= 1;
    }
    assert(b == trim_end(s@));

    if a >= b {
        proof {
            assert(trimmed(s@).len() == 0);
        }
        return None;
    }
    let ghost t = s@.subrange(a as int, b as int);
    proof {
        assert(trimmed(s@) == t);
    }

    let neg = s.get_char(a) == '-';
    let start = if neg {
        a + 1
    } else {
        a
    };
    let ghost digits = s@.subrange(start as int, b as int);
    proof {
        if neg {
            assert(t[0] == '-');
            assert(t.skip(1) =~= digits);
            assert(!is_digit('-'));
            assert(!all_digits(t));
        } else {
            assert(t =~= digits);
            assert(t[0] == s@[a as int]);
        }
    }
    if start == b {
        // A bare minus sign: too short for the sign-and-digits shape.
        return None;
    }

    let mut value: i64 = 0;
    let mut i: usize = start;
    proof {
        assert(s@.subrange(start as int, start as int) =~= Seq::<char>::empty());
    }
    while i < b
        invariant
            start <= i <= b,
            b <= n,
            n == s@.len(),
            start < b,
            a < b <= n,
            start == a + (if neg { 1int } else { 0int }),
            t == s@.subrange(a as int, b as int),
            digits == s@.subrange(start as int, b as int),
            neg ==> t[0] == '-' && !all_digits(t) && t.skip(1) == digits,
            !neg ==> t == digits && t[0] != '-',
            trimmed(s@) == t,
            forall|j: int| start <= j < i ==> is_digit(#[trigger] s@[j]),
            0 <= value <= 0x8000_0000,
            value == digits_value(s@.subrange(start as int, i as int)),
        decreases b - i,
    {
        let c = s.get_char(i);
        let cv = c as u32;
        if cv < 48 || cv > 57 {
            proof {
                assert(digits[i - start] == s@[i as int]);
                assert(!is_digit(digits[i - start]));
                assert(!all_digits(digits));
                assert(parsed_int(t) is None);
            }
            return None;
        }
        proof {
            assert(s@.subrange(start as int, i + 1).drop_last() =~= s@.subrange(
                start as int,
                i as int,
            ));
            assert(s@.subrange(start as int, i + 1).last() == s@[i as int]);
        }
        value = value * 10 + ((cv - 48) as i64);
        i += 1;
        if value > 0x8000_0000i64 {
            proof {
                if all_digits(digits) {
                    lemma_digits_value_bounds(digits, i - start);
                    assert(digits.take(i - start) =~= s@.subrange(start as int, i as int));
                }
            }
            return None;
        }
    }
    proof {
        assert(s@.subrange(start as int, b as int) =~= digits);
        assert(all_digits(digits));
        assert(value == digits_value(digits));
    }
    if neg {
        assert(parsed_int(t) == Some(-(value as int)));
        Some((-value) as i32)
    } else {
        assert(parsed_int(t) == Some(value as int));
        if value > 0x7fff_ffffi64 {
            return None;
        }
        Some(value as i32)
    }
}

/// A whitespace character inside a variable reference.
pub open spec fn is_template_space(c: char) -> bool {
    c == ' ' || c == '\t'
}

/// How many characters of leading whitespace `s` has.
pub open spec fn leading_spaces(s: Seq<char>) -> int
    decreases s.len(),
{
    if s.len() > 0 && is_template_space(s[0]) {
        1 + leading_spaces(s.drop_first())
    } else {
        0
    }
}

/// Leading whitespace is an initial segment: within bounds, all spaces, and
/// followed by a non-space when anything follows.
pub proof fn lemma_leading_spaces(s: Seq<char>)
    ensures
        0 <= leading_spaces(s) <= s.len(),
        forall|j: int| 0 <= j < leading_spaces(s) ==> is_template_space(#[trigger] s[j]),
        leading_spaces(s) < s.len() ==> !is_template_space(s[leading_spaces(s)]),
    decreases s.len(),
{
    if s.len() > 0 && is_template_space(s[0]) {
        lemma_leading_spaces(s.drop_first());
        assert forall|j: int| 0 <= j < leading_spaces(s) implies is_template_space(s[j]) by {
            if j > 0 {
                assert(s[j] == s.drop_first()[j - 1]);
                assert(is_template_space(s.drop_first()[j - 1]));
            }
        }
    }
}

/// The length of the variable reference at the head of `s`, when one is
/// there: `{{`, optional whitespace, `key`, optional whitespace, `}}`,
/// with the whitespace taken greedily.
pub open spec fn var_match_len(s: Seq<char>, key: Seq<char>) -> Option<int> {
    if s.len() < 2 || s[0] != '{' || s[1] != '{' {
        None
    } else {
        let p = 2 + leading_spaces(s.skip(2));
        if p + key.len() > s.len() || s.subrange(p, p + key.len() as int) != key {
            None
        } else {
            let q = p + key.len() as int;
            let r = q + leading_spaces(s.skip(q));
            if r + 2 <= s.len() && s[r] == '}' && s[r + 1] == '}' {
                Some(r + 2)
            } else {
                None
            }
        }
    }
}

/// A matched variable reference covers at least its four braces and at most
/// the whole string.
pub proof fn lemma_var_match_len(s: Seq<char>, key: Seq<char>)
    requires
        var_match_len(s, key) is Some,
    ensures
        4 <= var_match_len(s, key)->0 <= s.len(),
{
    lemma_leading_spaces(s.skip(2));
    let p = 2 + leading_spaces(s.skip(2));
    let q = p + key.len() as int;
    lemma_leading_spaces(s.skip(q));
}

/// `s` with every variable reference to `key` replaced by `value`, found
/// scanning left to right.
pub open spec fn replace_var(s: Seq<char>, key: Seq<char>, value: Seq<char>) -> Seq<char>
    decreases s.len(),
    via replace_var_decreases
{
    if s.len() == 0 {
        s
    } else {
        match var_match_len(s, key) {
            Some(m) => value + replace_var(s.skip(m), key, value),
            None => seq![s[0]] + replace_var(s.drop_first(), key, value),
        }
    }
}

#[via_fn]
proof fn replace_var_decreases(s: Seq<char>, key: Seq<char>, value: Seq<char>) {
    if s.len() != 0 && var_match_len(s, key) is Some {
        lemma_var_match_len(s, key);
    }
}

/// The string with the variables applied one at a time, in list order: a
/// later variable also scans what earlier values inserted.
pub open spec fn apply_vars(s: Seq<char>, vars: Seq<(Seq<char>, Seq<char>)>) -> Seq<char>
    decreases vars.len(),
{
    if vars.len() == 0 {
        s
    } else {
        apply_vars(replace_var(s, vars[0].0, vars[0].1), vars.drop_first())
    }
}

/// The first position at or after `from` holding a non-whitespace
/// character, or the end of `s`.
fn skip_spaces(s: &str, from: usize) -> (r: usize)
    requires
        from <= s@.len(),
    ensures
        from <= r <= s@.len(),
        r - from == leading_spaces(s@.skip(from as int)),
{
    let n = s.unicode_len();
    let mut i = from;
    while i < n
        invariant
            from <= i <= n,
            n == s@.len(),
            leading_spaces(s@.skip(from as int)) == (i - from) + leading_spaces(
                s@.skip(i as int),
            ),
        ensures
            from <= i <= n,
            leading_spaces(s@.skip(from as int)) == (i - from) + leading_spaces(
                s@.skip(i as int),
            ),
            i == n || !is_template_space(s@[i as int]),
        decreases n - i,
    {
        let c = s.get_char(i);
        if !(c == ' ' || c == '\t') {
            break ;
        }
        proof {
            assert(s@.skip(i as int)[0] == s@[i as int]);
            assert(s@.skip(i as int).drop_first() =~= s@.skip(i + 1));
        }
        i += 1;
    }
    proof {
        if i == n {
            assert(s@.skip(n as int) =~= Seq::<char>::empty());
        }
        lemma_leading_spaces(s@.skip(i as int));
    }
    i
}

/// The length of the variable reference for `key` at position `at` of `s`,
/// when one starts there.
fn match_var_at(s: &str, at: usize, key: &str) -> (r: Option<usize>)
    requires
        at < s@.len(),
    ensures
        match r {
            Some(m) => var_match_len(s@.skip(at as int), key@) == Some(m as int) && at + m <= s@.len(),
            None => var_match_len(s@.skip(at as int), key@) is None,
        },
{
    let n = s.unicode_len();
    let k = key.unicode_len();
    let ghost tail = s@.skip(at as int);
    if n - at < 2 || s.get_char(at) != '{' || s.get_char(at + 1) != '{' {
        proof {
            assert(tail.len() >= 2 ==> (tail[0] == s@[at as int] && tail[1] == s@[at + 1]));
        }
        return None;
    }
    assert(tail[0] == '{' && tail[1] == '{');
    let p = skip_spaces(s, at + 2);
    proof {
        assert(tail.skip(2) =~= s@.skip(at + 2));
    }
    let ghost p_rel = 2 + leading_spaces(tail.skip(2));
    assert(p - at == p_rel);
    if k > n - p {
        proof {
            lemma_leading_spaces(tail.skip(2));
            assert(p_rel + key@.len() > tail.len());
        }
        return None;
    }
    let mut j: usize = 0;
    while j < k
        invariant
            j <= k,
            n == s@.len(),
            k == key@.len(),
            at < s@.len(),
            at + 2 <= p,
            p + k <= n,
            tail == s@.skip(at as int),
            tail.len() >= 2 && tail[0] == '{' && tail[1] == '{',
            p_rel == 2 + leading_spaces(tail.skip(2)),
            p - at == p_rel,
            forall|t: int| 0 <= t < j ==> s@[p + t] == key@[t],
        decreases k - j,
    {
        if s.get_char(p + j) != key.get_char(j) {
            proof {
                assert(tail.subrange(p_rel, p_rel + key@.len() as int)[j as int] == s@[p + j]);
                assert(tail.subrange(p_rel, p_rel + key@.len() as int) != key@);
            }
            return None;
        }
        j += 1;
    }
    proof {
        assert(tail.subrange(p_rel, p_rel + key@.len() as int) =~= key@);
    }
    let q = p + k;
    let rr = skip_spaces(s, q);
    let ghost q_rel = p_rel + key@.len() as int;
    let ghost r_rel = q_rel + leading_spaces(tail.skip(q_rel));
    proof {
        assert(tail.skip(q_rel) =~= s@.skip(q as int));
        assert(rr - at == r_rel);
    }
    if n - rr >= 2 {
        let close_a = s.get_char(rr);
        let close_b = s.get_char(rr + 1);
        proof {
            assert(tail[r_rel] == s@[rr as int]);
            assert(tail[r_rel + 1] == s@[rr + 1]);
        }
        if close_a == '}' && close_b == '}' {
            return Some(rr + 2 - at);
        }
        return None;
    }
    proof {
        assert(r_rel + 2 > tail.len());
    }
    None
}

/// Replaces every `{{ key }}` variable reference in `s` — whitespace around
/// the key allowed — with `value`.
pub fn replace_var_exec(s: &str, key: &str, value: &str) -> (r: String)
    ensures
        r@ == replace_var(s@, key@, value@),
{
    let n = s.unicode_len();
    let mut r = String::new();
    let mut i: usize = 0;
    proof {
        assert(s@.skip(0) =~= s@);
        assert(r@ + replace_var(s@, key@, value@) =~= replace_var(s@, key@, value@));
    }
    while i < n
        invariant
            i <= n,
            n == s@.len(),
            replace_var(s@, key@, value@) == r@ + replace_var(s@.skip(i as int), key@, value@),
        decreases n - i,
    {
        let ghost before = r@;
        let ghost rest = s@.skip(i as int);
        match match_var_at(s, i, key) {
            Some(m) => {
                r.append(value);
                proof {
                    lemma_var_match_len(rest, key@);
                    assert(rest.skip(var_match_len(rest, key@)->0) =~= s@.skip(i + m));
                    assert(before + (value@ + replace_var(s@.skip(i + m), key@, value@)) =~= (
                    before + value@) + replace_var(s@.skip(i + m), key@, value@));
                }
                i += m;
            },
            None => {
                r.append(s.substring_char(i, i + 1));
                proof {
                    assert(s@.subrange(i as int, i + 1) =~= seq![rest[0]]);
                    assert(rest.drop_first() =~= s@.skip(i + 1));
                    assert(before + (seq![rest[0]] + replace_var(s@.skip(i + 1), key@, value@))
                        =~= (before + seq![rest[0]]) + replace_var(s@.skip(i + 1), key@, value@));
                }
                i += 1;
            },
        }
    }
    proof {
        assert(s@.skip(n as int) =~= Seq::<char>::empty());
        assert(r@ + Seq::<char>::empty() =~= r@);
    }
    r
}

/// Duplicates a list of strings, element for element.
pub fn clone_strings(v: &Vec<String>) -> (r: Vec<String>)
    ensures
        r@ == v@,
{
    let mut r: Vec<String> = Vec::new();
    let mut i: usize = 0;
    while i < v.len()
        invariant
            i <= v.len(),
            r@ =~= v@.take(i as int),
        decreases v.len() - i,
    {
        r.push(v[i].clone());
        proof {
            assert(v@.take(i + 1) =~= v@.take(i as int).push(v@[i as int]));
        }
        i += 1;
    }
    proof {
        assert(v@.take(v@.len() as int) =~= v@);
    }
    r
}

} // verus!
