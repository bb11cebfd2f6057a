//! Numbers and whitespace in text.
use vstd::prelude::*;
use vstd::string::*;

verus! {

/// `String::push`: appends one character.
pub assume_specification[ String::push ](s: &mut String, c: char)
    ensures
        final(s)@ == old(s)@.push(c),
;

/// `String::push_str`: appends a string slice.
pub assume_specification[ String::push_str ](s: &mut String, other: &str)
    ensures
        final(s)@ == old(s)@ + other@,
;

/// ASCII text takes one byte for each character.
pub proof fn lemma_ascii_len(text: &str)
    requires
        is_ascii(text),
    ensures
        text.spec_bytes().len() == text@.len(),
{
    broadcast use is_ascii_spec_bytes;

}

/// The value of a character as a digit: 0 to 9, and 10 to 35 for the letters in either case. What
/// is no digit to any base counts as 36.
pub open spec fn digit_value(c: char) -> int {
    if '0' <= c && c <= '9' {
        c as int - '0' as int
    } else if 'a' <= c && c <= 'z' {
        c as int - 'a' as int + 10
    } else if 'A' <= c && c <= 'Z' {
        c as int - 'A' as int + 10
    } else {
        36
    }
}

/// The value of digits to a base, the most significant first.
pub open spec fn digits_value(digits: Seq<char>, radix: int) -> int
    decreases digits.len(),
{
    if digits.len() == 0 {
        0
    } else {
        digits_value(digits.drop_last(), radix) * radix + digit_value(digits.last())
    }
}

pub open spec fn all_digits(s: Seq<char>, radix: int) -> bool {
    forall|i: int| 0 <= i < s.len() ==> digit_value(#[trigger] s[i]) < radix
}

/// `s` without one leading plus sign.
pub open spec fn unsigned_part(s: Seq<char>) -> Seq<char> {
    if s.len() > 0 && s[0] == '+' { s.skip(1) } else { s }
}

/// The number that a string stands for to a base: at least one digit, and nothing but digits
/// behind an optional plus sign.
pub open spec fn number_value(s: Seq<char>, radix: int) -> Option<int> {
    let digits = unsigned_part(s);
    if digits.len() > 0 && all_digits(digits, radix) {
        Some(digits_value(digits, radix))
    } else {
        None
    }
}

/// The number in `s`, if there is one and it is at most `max`.
pub open spec fn parsed_number(s: Seq<char>, radix: int, max: int) -> Option<int> {
    match number_value(s, radix) {
        Some(v) => if v <= max { Some(v) } else { None },
        None => None,
    }
}

/// The decimal number in `s`, if there is one and it is at most `max`.
pub open spec fn parsed_decimal(s: Seq<char>, max: int) -> Option<int> {
    parsed_number(s, 10, max)
}

/// The hexadecimal number in `s`, if there is one and it is at most `max`.
pub open spec fn parsed_hexadecimal(s: Seq<char>, max: int) -> Option<int> {
    parsed_number(s, 16, max)
}

/// The characters of a string.
pub fn to_chars(s: &str) -> (chars: Vec<char>)
    ensures
        chars@ == s@,
{
    let mut chars: Vec<char> = Vec::new();
    let n: usize = s.unicode_len();
    let mut i: usize = 0;
    while i < n
        invariant
            n == s@.len(),
            i <= n,
            chars@ == s@.take(i as int),
        decreases n - i,
    {
        chars.push(s.get_char(i));
        i += 1;
        proof {
            assert(s@.take(i as int) =~= s@.take(i - 1).push(s@[i - 1]));
        }
    }
    proof {
        assert(s@.take(n as int) =~= s@);
    }
    chars
}

proof fn lemma_digits_value_grows(digits: Seq<char>, radix: int, n: int)
    requires
        all_digits(digits, radix),
        1 <= radix,
        0 <= n <= digits.len(),
    ensures
        0 <= digits_value(digits.take(n), radix) <= digits_value(digits, radix),
    decreases digits.len(),
{
    if digits.len() == 0 {
        assert(digits.take(n) =~= digits);
    } else {
        let rest = digits.drop_last();
        let value = digits_value(rest, radix);
        if n == digits.len() {
            assert(digits.take(n) =~= digits);
            lemma_digits_value_grows(rest, radix, 0);
        } else {
            assert(digits.take(n) =~= rest.take(n));
            lemma_digits_value_grows(rest, radix, n);
        }
        assert(rest.take(0) =~= Seq::<char>::empty());
        assert(value <= value * radix) by (nonlinear_arith)
            requires
                0 <= value,
                1 <= radix,
        ;
    }
}

/// A decimal number is not negative.
pub proof fn lemma_decimal_nonneg(s: Seq<char>, max: int)
    ensures
        parsed_decimal(s, max) matches Some(v) ==> v >= 0,
{
    if number_value(s, 10) is Some {
        lemma_digits_value_grows(unsigned_part(s), 10, 0);
    }
}

fn char_digit(c: char) -> (d: u64)
    ensures
        d == digit_value(c),
{
    if '0' <= c && c <= '9' {
        (c as u32 - '0' as u32) as u64
    } else if 'a' <= c && c <= 'z' {
        (c as u32 - 'a' as u32) as u64 + 10
    } else if 'A' <= c && c <= 'Z' {
        (c as u32 - 'A' as u32) as u64 + 10
    } else {
        36
    }
}

fn parse_number(s: &str, radix: u64, max: u64) -> (r: Option<u64>)
    requires
        1 <= radix <= 36,
    ensures
        r is Some <==> parsed_number(s@, radix as int, max as int) is Some,
        r matches Some(v) ==> parsed_number(s@, radix as int, max as int) == Some(v as int),
{
    let chars = to_chars(s);
    let n: usize = chars.len();
    let start: usize = if n > 0 && chars[0] == '+' {
        1
    } else {
        0
    };
    let ghost digits = unsigned_part(s@);
    proof {
        assert(digits =~= chars@.skip(start as int));
    }
    if start == n {
        return None;
    }
    let mut value: u64 = 0;
    let mut i: usize = start;
    proof {
        assert(digits.take(0) =~= Seq::<char>::empty());
    }
    while i < n
        invariant
            n == chars@.len(),
            start <= i <= n,
            1 <= radix <= 36,
            digits == unsigned_part(s@),
            digits == chars@.skip(start as int),
            chars@ == s@,
            forall|j: int| 0 <= j < i - start ==> digit_value(#[trigger] digits[j]) < radix,
            value == digits_value(digits.take(i - start), radix as int),
            value <= max,
        decreases n - i,
    {
        let c = chars[i];
        let d: u64 = char_digit(c);
        proof {
            assert(c == digits[i - start]);
        }
        if d >= radix {
            return None;
        }
        let ghost k = i - start;
        proof {
            assert(digits.take(k + 1).drop_last() =~= digits.take(k));
            assert(digits.take(k + 1).last() == c);
            if all_digits(digits, radix as int) {
                lemma_digits_value_grows(digits, radix as int, k + 1);
            }
        }
        let next: u64 = match value.checked_mul(radix) {
            Some(v) => match v.checked_add(d) {
                Some(v) => v,
                None => return None,
            },
            None => return None,
        };
        if next > max {
            return None;
        }
        value = next;
        i += 1;
    }
    proof {
        assert(digits.take(n - start) =~= digits);
    }
    Some(value)
}

/// Parses an unsigned decimal number of at most `max`.
pub fn parse_decimal(s: &str, max: u64) -> (r: Option<u64>)
    ensures
        r is Some <==> parsed_decimal(s@, max as int) is Some,
        r matches Some(v) ==> parsed_decimal(s@, max as int) == Some(v as int),
{
    parse_number(s, 10, max)
}

/// Parses an unsigned hexadecimal number of at most `max`.
pub fn parse_hexadecimal(s: &str, max: u64) -> (r: Option<u64>)
    ensures
        r is Some <==> parsed_hexadecimal(s@, max as int) is Some,
        r matches Some(v) ==> parsed_hexadecimal(s@, max as int) == Some(v as int),
{
    parse_number(s, 16, max)
}

/// The decimal form of a number.
pub open spec fn decimal_text(n: int) -> Seq<char>
    decreases n,
{
    if n < 10 {
        seq![(('0' as int + n) as u8) as char]
    } else {
        decimal_text(n / 10).push((('0' as int + n % 10) as u8) as char)
    }
}

fn digit_char(d: u64) -> (c: char)
    requires
        d < 10,
    ensures
        c == (('0' as int + d) as u8) as char,
{
    (48u8 + (d as u8)) as char
}

/// Writes a number in decimal.
pub fn render_decimal(n: u64) -> (s: String)
    ensures
        s@ == decimal_text(n as int),
    decreases n,
{
    if n < 10 {
        let mut s = String::new();
        s.push(digit_char(n));
        proof {
            assert(s@ =~= decimal_text(n as int));
        }
        s
    } else {
        let mut s = render_decimal(n / 10);
        s.push(digit_char(n % 10));
        s
    }
}

/// A number that was written in decimal is read back.
pub proof fn law_decimal_text_is_read_back(n: int, max: int)
    requires
        0 <= n <= max,
    ensures
        parsed_decimal(decimal_text(n), max) == Some(n),
    decreases n,
{
    lemma_decimal_text(n);
}

proof fn lemma_decimal_text(n: int)
    requires
        0 <= n,
    ensures
        decimal_text(n).len() > 0,
        all_digits(decimal_text(n), 10),
        digits_value(decimal_text(n), 10) == n,
    decreases n,
{
    let text = decimal_text(n);
    if n < 10 {
        assert(text.drop_last() =~= Seq::<char>::empty());
        assert(digits_value(text.drop_last(), 10) == 0);
        assert(digit_value(text.last()) == n);
    } else {
        lemma_decimal_text(n / 10);
        assert(text.drop_last() =~= decimal_text(n / 10));
        assert(digit_value(text.last()) == n % 10);
    }
}

/// The characters with the Unicode property `White_Space`.
pub open spec fn is_white_space(c: char) -> bool {
    let u = c as int;
    ||| 0x09 <= u <= 0x0d
    ||| u == 0x20
    ||| u == 0x85
    ||| u == 0xa0
    ||| u == 0x1680
    ||| 0x2000 <= u <= 0x200a
    ||| u == 0x2028
    ||| u == 0x2029
    ||| u == 0x202f
    ||| u == 0x205f
    ||| u == 0x3000
}

/// Whether a character is whitespace.
pub fn is_whitespace(c: char) -> (b: bool)
    ensures
        b == is_white_space(c),
{
    let u: u32 = c as u32;
    (0x09 <= u && u <= 0x0d) || u == 0x20 || u == 0x85 || u == 0xa0 || u == 0x1680 || (0x2000 <= u
        && u <= 0x200a) || u == 0x2028 || u == 0x2029 || u == 0x202f || u == 0x205f || u == 0x3000
}

/// The first position at or after `from` whose character is whitespace or not, as asked for; the
/// length if there is none.
pub open spec fn next_position(s: Seq<char>, from: int, white: bool) -> int
    decreases s.len() - from,
{
    if from >= s.len() {
        s.len() as int
    } else if is_white_space(s[from]) == white {
        from
    } else {
        next_position(s, from + 1, white)
    }
}

proof fn lemma_next_position(s: Seq<char>, from: int, white: bool)
    requires
        0 <= from <= s.len(),
    ensures
        from <= next_position(s, from, white) <= s.len(),
    decreases s.len() - from,
{
    if from < s.len() && is_white_space(s[from]) != white {
        lemma_next_position(s, from + 1, white);
    }
}

/// The words of `s` from position `from` on: maximal runs of non-whitespace characters.
pub open spec fn words_from(s: Seq<char>, from: int) -> Seq<Seq<char>>
    decreases s.len() - from,
    when 0 <= from
    via words_from_decreases
{
    let start = next_position(s, from, false);
    if from > s.len() || start >= s.len() {
        Seq::empty()
    } else {
        let end = next_position(s, start, true);
        seq![s.subrange(start, end)] + words_from(s, end)
    }
}

#[via_fn]
proof fn words_from_decreases(s: Seq<char>, from: int) {
    if from <= s.len() {
        lemma_next_position(s, from, false);
        let start = next_position(s, from, false);
        if start < s.len() {
            lemma_found(s, from, false);
            lemma_next_position(s, start, true);
            lemma_next_position(s, start + 1, true);
        }
    }
}

proof fn lemma_found(s: Seq<char>, from: int, white: bool)
    requires
        0 <= from <= s.len(),
        next_position(s, from, white) < s.len(),
    ensures
        is_white_space(s[next_position(s, from, white)]) == white,
    decreases s.len() - from,
{
    if from < s.len() && is_white_space(s[from]) != white {
        lemma_found(s, from + 1, white);
    }
}

/// The words of `s`.
pub open spec fn words(s: Seq<char>) -> Seq<Seq<char>> {
    words_from(s, 0)
}

fn find_from(chars: &Vec<char>, from: usize, white: bool) -> (at: usize)
    requires
        from <= chars@.len(),
    ensures
        at == next_position(chars@, from as int, white),
        from <= at <= chars@.len(),
{
    let mut i: usize = from;
    while i < chars.len() && is_whitespace(chars[i]) != white
        invariant
            from <= i <= chars@.len(),
            next_position(chars@, from as int, white) == next_position(chars@, i as int, white),
        decreases chars@.len() - i,
    {
        i += 1;
    }
    i
}

fn collect_string(chars: &Vec<char>, from: usize, to: usize) -> (s: String)
    requires
        from <= to <= chars@.len(),
    ensures
        s@ == chars@.subrange(from as int, to as int),
{
    let mut s = String::new();
    let mut i: usize = from;
    while i < to
        invariant
            from <= i <= to <= chars@.len(),
            s@ == chars@.subrange(from as int, i as int),
        decreases to - i,
    {
        s.push(chars[i]);
        i += 1;
        proof {
            assert(chars@.subrange(from as int, i as int) =~= chars@.subrange(
                from as int,
                i - 1,
            ).push(chars@[i - 1]));
        }
    }
    s
}

/// The views of some strings.
pub open spec fn views(strings: Seq<String>) -> Seq<Seq<char>> {
    strings.map_values(|s: String| s@)
}

/// Splits a line into its words.
pub fn split_words(line: &str) -> (r: Vec<String>)
    ensures
        views(r@) == words(line@),
{
    let chars = to_chars(line);
    let mut r: Vec<String> = Vec::new();
    let mut i: usize = 0;
    proof {
        assert(views(r@) + words_from(chars@, 0) =~= words(line@));
    }
    loop
        invariant
            chars@ == line@,
            i <= chars@.len(),
            views(r@) + words_from(chars@, i as int) == words(line@),
        ensures
            views(r@) == words(line@),
        decreases chars@.len() - i,
    {
        let start: usize = find_from(&chars, i, false);
        if start == chars.len() {
            proof {
                assert(views(r@) + words_from(chars@, i as int) =~= views(r@));
            }
            break;
        }
        let end: usize = find_from(&chars, start, true);
        proof {
            lemma_found(chars@, i as int, false);
            lemma_next_position(chars@, start + 1, true);
        }
        let ghost before = r@;
        r.push(collect_string(&chars, start, end));
        proof {
            assert(views(r@) =~= views(before).push(chars@.subrange(start as int, end as int)));
            assert(views(r@) + words_from(chars@, end as int) =~= views(before) + words_from(
                chars@,
                i as int,
            ));
        }
        i = end;
    }
    r
}

/// Bytes of a character in UTF-8.
pub open spec fn char_len(c: char) -> int {
    if (c as int) < 0x80 {
        1
    } else if (c as int) < 0x800 {
        2
    } else if (c as int) < 0x1_0000 {
        3
    } else {
        4
    }
}

/// Bytes of a text in UTF-8.
pub open spec fn utf8_len(s: Seq<char>) -> int
    decreases s.len(),
{
    if s.len() == 0 {
        0
    } else {
        utf8_len(s.drop_last()) + char_len(s.last())
    }
}

/// Words with one space between them.
pub open spec fn joined(parts: Seq<Seq<char>>) -> Seq<char>
    decreases parts.len(),
{
    if parts.len() == 0 {
        Seq::empty()
    } else if parts.len() == 1 {
        parts[0]
    } else {
        joined(parts.drop_last()) + " "@ + parts.last()
    }
}

pub proof fn lemma_utf8_len_concat(a: Seq<char>, b: Seq<char>)
    ensures
        utf8_len(a + b) == utf8_len(a) + utf8_len(b),
        utf8_len(b) >= 0,
    decreases b.len(),
{
    if b.len() == 0 {
        assert(a + b =~= a);
    } else {
        lemma_utf8_len_concat(a, b.drop_last());
        assert((a + b).drop_last() =~= a + b.drop_last());
    }
}

pub proof fn lemma_joined_prefix(parts: Seq<Seq<char>>, n: int)
    requires
        0 <= n <= parts.len(),
    ensures
        utf8_len(joined(parts.take(n))) <= utf8_len(joined(parts)),
    decreases parts.len() - n,
{
    if n == parts.len() {
        assert(parts.take(n) =~= parts);
    } else {
        lemma_joined_prefix(parts, n + 1);
        let longer = parts.take(n + 1);
        assert(longer.drop_last() =~= parts.take(n));
        if n > 0 {
            lemma_utf8_len_concat(joined(parts.take(n)) + " "@, longer.last());
            lemma_utf8_len_concat(joined(parts.take(n)), " "@);
        } else {
            lemma_utf8_len_concat(Seq::empty(), longer.last());
        }
    }
}

/// The first of some words, and the length of them joined.
pub proof fn lemma_joined_cons(first: Seq<char>, rest: Seq<Seq<char>>)
    ensures
        utf8_len(joined(seq![first] + rest)) == utf8_len(first) + if rest.len() > 0 {
            1 + utf8_len(joined(rest))
        } else {
            0
        },
    decreases rest.len(),
{
    let all = seq![first] + rest;
    if rest.len() == 0 {
        assert(all =~= seq![first]);
    } else {
        let shorter = rest.drop_last();
        lemma_joined_cons(first, shorter);
        assert(all.drop_last() =~= seq![first] + shorter);
        assert(all.last() == rest.last());
        lemma_space_len();
        lemma_utf8_len_concat(joined(all.drop_last()) + " "@, all.last());
        lemma_utf8_len_concat(joined(all.drop_last()), " "@);
        if shorter.len() > 0 {
            lemma_utf8_len_concat(joined(shorter) + " "@, rest.last());
            lemma_utf8_len_concat(joined(shorter), " "@);
        } else {
            assert(rest[0] == rest.last());
        }
    }
}

proof fn lemma_space_len()
    ensures
        utf8_len(" "@) == 1,
{
    reveal_strlit(" ");
    assert(" "@.drop_last() =~= Seq::<char>::empty());
    assert(utf8_len(" "@.drop_last()) == 0);
}

proof fn lemma_char_len_positive(s: Seq<char>, from: int, to: int)
    requires
        0 <= from < to <= s.len(),
    ensures
        utf8_len(s.skip(from)) >= 1 + utf8_len(s.skip(to)),
{
    let part = s.subrange(from, to);
    assert(s.skip(from) =~= part + s.skip(to));
    lemma_utf8_len_concat(part, s.skip(to));
    lemma_utf8_len_concat(Seq::empty(), part.drop_last());
}

/// Joined with single spaces, the words of a text are no longer than the text.
pub proof fn lemma_joined_words(s: Seq<char>, from: int)
    requires
        0 <= from <= s.len(),
    ensures
        utf8_len(joined(words_from(s, from))) <= utf8_len(s.skip(from)),
        from < s.len() && is_white_space(s[from]) ==> utf8_len(joined(words_from(s, from))) < utf8_len(
            s.skip(from),
        ),
    decreases s.len() - from,
{
    lemma_next_position(s, from, false);
    let start = next_position(s, from, false);
    lemma_utf8_len_concat(Seq::empty(), s.skip(from));
    if start == s.len() {
        assert(joined(words_from(s, from)) =~= Seq::<char>::empty());
        if from < s.len() {
            lemma_char_len_positive(s, from, s.len() as int);
            lemma_utf8_len_concat(Seq::empty(), s.skip(s.len() as int));
        }
    } else {
        lemma_found(s, from, false);
        lemma_next_position(s, start + 1, true);
        lemma_next_position(s, start, true);
        let end = next_position(s, start, true);
        let word = s.subrange(start, end);
        let rest = words_from(s, end);
        lemma_joined_words(s, end);
        if end < s.len() {
            lemma_found(s, start, true);
        } else {
            assert(rest.len() == 0);
        }
        lemma_joined_cons(word, rest);
        assert(s.skip(start) =~= word + s.skip(end));
        lemma_utf8_len_concat(word, s.skip(end));
        lemma_utf8_len_concat(Seq::empty(), s.skip(end));
        if from < start {
            lemma_char_len_positive(s, from, start);
        }
    }
}

/// `s` without the whitespace at its end.
pub open spec fn trimmed_end(s: Seq<char>) -> Seq<char>
    decreases s.len(),
{
    if s.len() > 0 && is_white_space(s.last()) {
        trimmed_end(s.drop_last())
    } else {
        s
    }
}

/// `s` without the whitespace at both ends.
pub open spec fn trimmed(s: Seq<char>) -> Seq<char> {
    trimmed_end(s.skip(next_position(s, 0, false)))
}

/// Removes the whitespace at both ends.
pub fn trim(s: &str) -> (r: String)
    ensures
        r@ == trimmed(s@),
{
    let chars = to_chars(s);
    let start: usize = find_from(&chars, 0, false);
    let mut end: usize = chars.len();
    proof {
        assert(chars@.subrange(start as int, end as int) =~= chars@.skip(start as int));
    }
    while end > start && is_whitespace(chars[end - 1])
        invariant
            start <= end <= chars@.len(),
            trimmed_end(chars@.subrange(start as int, end as int)) == trimmed_end(
                chars@.skip(start as int),
            ),
        decreases end,
    {
        proof {
            assert(chars@.subrange(start as int, end as int).drop_last() =~= chars@.subrange(
                start as int,
                end - 1,
            ));
        }
        end -= 1;
    }
    collect_string(&chars, start, end)
}

/// The lowercase form of some text, as `str::to_lowercase` gives it.
pub uninterp spec fn lowercase(s: Seq<char>) -> Seq<char>;

/// The lowercase form of an ASCII character.
pub open spec fn ascii_lowercase(c: char) -> char {
    if 'A' <= c && c <= 'Z' { ((c as u8) + 32) as u8 as char } else { c }
}

/// `str::to_lowercase`. On ASCII text it changes the letters A to Z and nothing else; how other
/// characters change is left to its name.
#[verifier::external_body]
pub(crate) fn str_to_lowercase(s: &str) -> (r: String)
    ensures
        r@ == lowercase(s@),
        vstd::utf8::is_ascii_chars(s@) ==> r@ == s@.map_values(|c: char| ascii_lowercase(c)),
{
    s.to_lowercase()
}

/// Whether two strings are the same.
pub fn str_eq(a: &str, b: &str) -> (eq: bool)
    ensures
        eq == (a@ == b@),
{
    let x = to_chars(a);
    let y = to_chars(b);
    if x.len() != y.len() {
        return false;
    }
    let mut i: usize = 0;
    while i < x.len()
        invariant
            x@ == a@,
            y@ == b@,
            x@.len() == y@.len(),
            i <= x@.len(),
            forall|j: int| 0 <= j < i ==> x@[j] == y@[j],
        decreases x@.len() - i,
    {
        if x[i] != y[i] {
            return false;
        }
        i += 1;
    }
    proof {
        assert(a@ =~= b@);
    }
    true
}

/// `text` with spaces behind it up to `width` characters.
pub open spec fn padded_right(text: Seq<char>, width: int) -> Seq<char> {
    text + Seq::new(
        if text.len() < width { (width - text.len()) as nat } else { 0 },
        |i: int| ' ',
    )
}

/// Appends `text`, filled up with spaces to `width` characters.
pub fn push_padded(out: &mut String, text: &str, width: usize)
    ensures
        final(out)@ == old(out)@ + padded_right(text@, width as int),
{
    out.push_str(text);
    let mut n: usize = text.unicode_len();
    let ghost base = out@;
    while n < width
        invariant
            text@.len() <= n,
            n <= width || n == text@.len(),
            out@ == base + Seq::new((n - text@.len()) as nat, |i: int| ' '),
        decreases width - n,
    {
        out.push(' ');
        n += 1;
        proof {
            assert(out@ =~= base + Seq::new((n - text@.len()) as nat, |i: int| ' '));
        }
    }
    proof {
        assert(out@ =~= old(out)@ + padded_right(text@, width as int));
    }
}

/// The digits: ten digits, then the letters of the alphabet in either case.
pub proof fn law_digits(c: char)
    ensures
        48 <= c as int <= 57 ==> digit_value(c) == c as int - 48,
        97 <= c as int <= 122 ==> digit_value(c) == c as int - 87,
        65 <= c as int <= 90 ==> digit_value(c) == c as int - 55,
        !(48 <= c as int <= 57) && !(97 <= c as int <= 122) && !(65 <= c as int <= 90)
            ==> digit_value(c) == 36,
{
}

/// One more digit multiplies a number by the base and adds the digit's value.
pub proof fn law_number_grows_by_a_digit(digits: Seq<char>, c: char, radix: int)
    ensures
        digits_value(Seq::empty(), radix) == 0,
        digits_value(digits.push(c), radix) == digits_value(digits, radix) * radix + digit_value(c),
{
    assert(digits.push(c).drop_last() =~= digits);
}

/// A text is a number exactly if it consists of digits, of one at least, behind one plus sign at
/// most; and it counts exactly if it is no larger than allowed.
pub proof fn law_texts_that_are_numbers(
    s: Seq<char>,
    digits: Seq<char>,
    radix: int,
    max: int,
)
    requires
        1 <= radix <= 36,
        s.len() > 0 && s[0] == '+' ==> digits == s.skip(1),
        s.len() == 0 || s[0] != '+' ==> digits == s,
    ensures
        parsed_number(s, radix, max) is Some <==> digits.len() > 0 && (forall|i: int|
            0 <= i < digits.len() ==> digit_value(#[trigger] digits[i]) < radix) && digits_value(
            digits,
            radix,
        ) <= max,
        parsed_number(s, radix, max) matches Some(n) ==> n == digits_value(digits, radix),
        all_digits(s, radix) <==> forall|i: int|
            0 <= i < s.len() ==> digit_value(#[trigger] s[i]) < radix,
        parsed_decimal(s, max) == parsed_number(s, 10, max),
        parsed_hexadecimal(s, max) == parsed_number(s, 16, max),
{
}

/// A number in decimal: one digit for each power of ten, the highest first, and no zero before
/// them.
pub proof fn law_decimal_text(n: int)
    requires
        0 <= n,
    ensures
        n < 10 ==> decimal_text(n).len() == 1 && decimal_text(n)[0] as int == 48 + n,
        n >= 10 ==> decimal_text(n).len() == decimal_text(n / 10).len() + 1,
        n >= 10 ==> decimal_text(n).drop_last() == decimal_text(n / 10),
        n >= 10 ==> decimal_text(n).last() as int == 48 + n % 10,
        n > 0 ==> decimal_text(n)[0] != '0',
    decreases n,
{
    if n >= 10 {
        law_decimal_text(n / 10);
        lemma_decimal_text(n / 10);
        assert(decimal_text(n).drop_last() =~= decimal_text(n / 10));
        assert(decimal_text(n)[0] == decimal_text(n / 10)[0]);
    }
}

/// The whitespace characters.
pub proof fn law_white_space(c: char)
    ensures
        is_white_space(c) <==> (9 <= c as int <= 13 || c as int == 32 || c as int == 133 || c as int
            == 160 || c as int == 5760 || 8192 <= c as int <= 8202 || c as int == 8232 || c as int
            == 8233 || c as int == 8239 || c as int == 8287 || c as int == 12288),
{
}

proof fn lemma_next_unique(s: Seq<char>, from: int, white: bool, p: int)
    requires
        0 <= from <= p <= s.len(),
        forall|i: int| from <= i < p ==> is_white_space(#[trigger] s[i]) != white,
        p == s.len() || is_white_space(s[p]) == white,
    ensures
        next_position(s, from, white) == p,
    decreases p - from,
{
    if from < p {
        assert(is_white_space(s[from]) != white);
        lemma_next_unique(s, from + 1, white, p);
    }
}

/// What is found is the first position of its kind.
pub proof fn law_first_position_is_found(s: Seq<char>, from: int, white: bool)
    requires
        0 <= from <= s.len(),
    ensures
        ({
            let p = next_position(s, from, white);
            &&& from <= p <= s.len()
            &&& forall|i: int| from <= i < p ==> is_white_space(#[trigger] s[i]) != white
            &&& p < s.len() ==> is_white_space(s[p]) == white
        }),
    decreases s.len() - from,
{
    if from < s.len() && is_white_space(s[from]) != white {
        law_first_position_is_found(s, from + 1, white);
    }
}

#[verifier::rlimit(40)]
proof fn lemma_words_behind(s: Seq<char>, k: int, from: int)
    requires
        0 <= k,
        0 <= from,
        k + from <= s.len(),
    ensures
        words_from(s, k + from) == words_from(s.skip(k), from),
    decreases s.len() - k - from,
{
    let b = s.skip(k);
    law_first_position_is_found(b, from, false);
    let start = next_position(b, from, false);
    assert forall|i: int| k + from <= i < k + start implies !(is_white_space(#[trigger] s[i])
        == false) by {
        assert(s[i] == b[i - k]);
    }
    assert(start < b.len() ==> s[k + start] == b[start]);
    lemma_next_unique(s, k + from, false, k + start);
    if start < b.len() {
        law_first_position_is_found(b, start, true);
        let end = next_position(b, start, true);
        assert forall|i: int| k + start <= i < k + end implies is_white_space(#[trigger] s[i])
            != true by {
            assert(s[i] == b[i - k]);
        }
        assert(end < b.len() ==> s[k + end] == b[end]);
        lemma_next_unique(s, k + start, true, k + end);
        assert(end > start);
        lemma_words_behind(s, k, end);
        assert(s.subrange(k + start, k + end) =~= b.subrange(start, end));
    }
}

#[verifier::rlimit(40)]
proof fn lemma_words_before(a: Seq<char>, c: char, b: Seq<char>, from: int)
    requires
        is_white_space(c),
        0 <= from <= a.len(),
    ensures
        words_from(a + seq![c] + b, from) == words_from(a, from) + words(b),
    decreases a.len() - from,
{
    let s = a + seq![c] + b;
    let n = a.len() as int;
    assert(s[n] == c);
    assert(forall|i: int| 0 <= i < n ==> s[i] == a[i]);
    law_first_position_is_found(a, from, false);
    let start = next_position(a, from, false);
    if start < n {
        lemma_next_unique(s, from, false, start);
        law_first_position_is_found(a, start, true);
        let end = next_position(a, start, true);
        lemma_next_unique(s, start, true, end);
        assert(end > start);
        lemma_words_before(a, c, b, end);
        assert(s.subrange(start, end) =~= a.subrange(start, end));
        let word = seq![a.subrange(start, end)];
        assert(word + (words_from(a, end) + words(b)) =~= (word + words_from(a, end)) + words(b));
    } else {
        law_first_position_is_found(s, n + 1, false);
        let next = next_position(s, n + 1, false);
        assert forall|i: int| from <= i < next implies is_white_space(#[trigger] s[i]) != false by {
            if i < n {
                assert(s[i] == a[i]);
            }
        }
        lemma_next_unique(s, from, false, next);
        assert(words_from(s, from) == words_from(s, n + 1));
        lemma_words_behind(s, n + 1, 0);
        assert(s.skip(n + 1) =~= b);
        assert(words_from(a, from) =~= Seq::<Seq<char>>::empty());
        assert(Seq::<Seq<char>>::empty() + words(b) =~= words(b));
    }
}

/// The words of a text: nothing has none; characters without whitespace are one; and whitespace
/// separates the words before it from the words behind it.
pub proof fn law_whitespace_separates_words(a: Seq<char>, c: char, b: Seq<char>)
    ensures
        words(Seq::empty()).len() == 0,
        a.len() > 0 && (forall|i: int| 0 <= i < a.len() ==> !is_white_space(#[trigger] a[i]))
            ==> words(a) == seq![a],
        is_white_space(c) ==> words(a + seq![c] + b) == words(a) + words(b),
{
    if a.len() > 0 && (forall|i: int| 0 <= i < a.len() ==> !is_white_space(#[trigger] a[i])) {
        lemma_next_unique(a, 0, false, 0);
        lemma_next_unique(a, 0, true, a.len() as int);
        assert(a.subrange(0, a.len() as int) =~= a);
        assert(words_from(a, a.len() as int) =~= Seq::<Seq<char>>::empty());
        assert(words(a) =~= seq![a]);
    }
    if is_white_space(c) {
        lemma_words_before(a, c, b, 0);
    }
}

proof fn lemma_trimmed_end(core: Seq<char>, post: Seq<char>)
    requires
        core.len() > 0,
        !is_white_space(core.last()),
        forall|i: int| 0 <= i < post.len() ==> is_white_space(#[trigger] post[i]),
    ensures
        trimmed_end(core + post) == core,
    decreases post.len(),
{
    if post.len() == 0 {
        assert(core + post =~= core);
    } else {
        assert((core + post).last() == post[post.len() - 1]);
        assert((core + post).drop_last() =~= core + post.drop_last());
        lemma_trimmed_end(core, post.drop_last());
    }
}

/// Trimming takes away all whitespace at both ends, and nothing else.
pub proof fn law_trimming_leaves_the_core(pre: Seq<char>, core: Seq<char>, post: Seq<char>)
    requires
        forall|i: int| 0 <= i < pre.len() ==> is_white_space(#[trigger] pre[i]),
        forall|i: int| 0 <= i < post.len() ==> is_white_space(#[trigger] post[i]),
        core.len() > 0 ==> !is_white_space(core[0]) && !is_white_space(core.last()),
    ensures
        trimmed(pre + core + post) == core,
{
    let s = pre + core + post;
    if core.len() > 0 {
        assert(s[pre.len() as int] == core[0]);
        lemma_next_unique(s, 0, false, pre.len() as int);
        assert(s.skip(pre.len() as int) =~= core + post);
        lemma_trimmed_end(core, post);
    } else {
        assert forall|i: int| 0 <= i < s.len() implies is_white_space(#[trigger] s[i]) != false by {
            if i < pre.len() {
                assert(s[i] == pre[i]);
            } else {
                assert(s[i] == post[i - pre.len()]);
            }
        }
        lemma_next_unique(s, 0, false, s.len() as int);
        assert(s.skip(s.len() as int) =~= core);
    }
}

/// Joining puts one space between two words, and none elsewhere.
pub proof fn law_joining_puts_spaces_between(parts: Seq<Seq<char>>, word: Seq<char>)
    ensures
        joined(Seq::empty()).len() == 0,
        joined(seq![word]) == word,
        parts.len() > 0 ==> joined(parts.push(word)) == joined(parts) + seq![' '] + word,
{
    reveal_strlit(" ");
    assert(" "@ =~= seq![' ']);
    assert(parts.push(word).drop_last() =~= parts);
}

/// The bytes of a text in UTF-8 are those of its characters.
pub proof fn law_bytes_of_a_text(s: Seq<char>, c: char)
    ensures
        utf8_len(Seq::empty()) == 0,
        utf8_len(s.push(c)) == utf8_len(s) + if c as int <= 127 {
            1int
        } else if c as int <= 2047 {
            2
        } else if c as int <= 65535 {
            3
        } else {
            4
        },
{
    assert(s.push(c).drop_last() =~= s);
}

/// Padding puts spaces behind a text until it is as long as asked for, and never cuts it.
pub proof fn law_padding_fills_up_with_spaces(text: Seq<char>, width: int)
    ensures
        ({
            let padded = padded_right(text, width);
            &&& padded.len() >= text.len() && padded.len() >= width
            &&& padded.len() == text.len() || padded.len() == width
            &&& padded.take(text.len() as int) == text
            &&& forall|i: int| text.len() <= i < padded.len() ==> padded[i] == ' '
        }),
{
    assert(padded_right(text, width).take(text.len() as int) =~= text);
}

/// Strings are seen one by one.
pub proof fn law_views_are_those_of_each(strings: Seq<String>, i: int)
    requires
        0 <= i < strings.len(),
    ensures
        views(strings).len() == strings.len(),
        views(strings)[i] == strings[i]@,
{
}

/// The letters A to Z become a to z, and everything else stays.
pub proof fn law_ascii_letters_in_lowercase(c: char)
    ensures
        65 <= c as int <= 90 ==> ascii_lowercase(c) as int == c as int + 32,
        c as int <= 64 || c as int >= 91 ==> ascii_lowercase(c) == c,
{
}

} // verus!
