//! Small verified operations on strings that the rest of the library shares.

use vstd::prelude::*;
use vstd::string::{StrSliceExecFns, StringExecFns};

verus! {

/// Whether two strings hold the same characters.
pub fn same_text(a: &str, b: &str) -> (same: bool)
    ensures
        same == (a@ == b@),
{
    let x = a.as_bytes();
    let y = b.as_bytes();
    proof {
        // Equal encodings decode to equal strings.
        vstd::utf8::encode_utf8_decode_utf8(a@);
        vstd::utf8::encode_utf8_decode_utf8(b@);
    }
    if x.len() != y.len() {
        assert(x@.len() != y@.len());
        return false;
    }
    let mut i: usize = 0;
    while i < x.len()
        invariant
            i <= x.len(),
            x.len() == y.len(),
            x@ == vstd::utf8::encode_utf8(a@),
            y@ == vstd::utf8::encode_utf8(b@),
            forall|j: int| 0 <= j < i ==> x@[j] == y@[j],
        decreases x.len() - i,
    {
        if x[i] != y[i] {
            assert(x@[i as int] != y@[i as int]);
            return false;
        }
        i += 1;
    }
    assert(x@ =~= y@);
    true
}

/// Whether `c` is one of the ten decimal digits.
pub open spec fn is_digit(c: char) -> bool {
    '0' <= c <= '9'
}

/// The number that a run of decimal digits writes; `None` where a character
/// is no digit. The empty run writes zero.
pub open spec fn digits_value(text: Seq<char>) -> Option<nat>
    decreases text.len(),
{
    if text.len() == 0 {
        Some(0)
    } else {
        match digits_value(text.drop_last()) {
            Some(front) if is_digit(text.last()) => Some(
                front * 10 + (text.last() as nat - '0' as nat) as nat,
            ),
            _ => None,
        }
    }
}

/// The number that `text` writes in decimal: an optional `+`, then at least
/// one digit, and nothing else.
pub open spec fn decimal(text: Seq<char>) -> Option<nat> {
    let digits = if text.len() > 0 && text[0] == '+' {
        text.drop_first()
    } else {
        text
    };
    if digits.len() == 0 {
        None
    } else {
        digits_value(digits)
    }
}

/// `decimal`, for numbers up to `max`.
pub open spec fn decimal_up_to(text: Seq<char>, max: nat) -> Option<nat> {
    match decimal(text) {
        Some(n) if n <= max => Some(n),
        _ => None,
    }
}

/// A run of digits holds ASCII characters only.
proof fn lemma_digits_are_ascii(text: Seq<char>)
    requires
        digits_value(text) is Some,
    ensures
        vstd::utf8::is_ascii_chars(text),
    decreases text.len(),
{
    if text.len() > 0 {
        lemma_digits_are_ascii(text.drop_last());
        assert forall|i: int| 0 <= i < text.len() implies '\0' <= #[trigger] text[i]
            <= '\u{7f}' by {
            if i < text.len() - 1 {
                assert(text.drop_last()[i] == text[i]);
            }
        }
    }
}

/// A longer run of digits writes a number that is no smaller.
proof fn lemma_digits_grow(text: Seq<char>, n: int)
    requires
        0 <= n <= text.len(),
        digits_value(text) is Some,
    ensures
        digits_value(text.take(n)) is Some,
        digits_value(text.take(n))->0 <= digits_value(text)->0,
    decreases text.len() - n,
{
    if n == text.len() {
        assert(text.take(n) =~= text);
    } else {
        assert(text.drop_last().take(n) =~= text.take(n));
        lemma_digits_grow(text.drop_last(), n);
    }
}

/// Reads a decimal number no larger than `max`.
pub fn parse_decimal(text: &str, max: u64) -> (value: Option<u64>)
    ensures
        value == match decimal_up_to(text@, max as nat) {
            Some(n) => Some(n as u64),
            None => None,
        },
{
    let ghost whole = text@;
    let ghost digits = if whole.len() > 0 && whole[0] == '+' {
        whole.drop_first()
    } else {
        whole
    };
    if !text.is_ascii() {
        proof {
            if digits_value(digits) is Some {
                lemma_digits_are_ascii(digits);
                assert forall|i: int| 0 <= i < whole.len() implies '\0' <= #[trigger] whole[i]
                    <= '\u{7f}' by {
                    if whole.len() > 0 && whole[0] == '+' {
                        if i > 0 {
                            assert(digits[i - 1] == whole[i]);
                        }
                    }
                }
            }
        }
        return None;
    }
    let bytes = text.as_bytes();
    proof {
        vstd::utf8::is_ascii_chars_encode_utf8(whole);
    }
    let n = bytes.len();
    let start: usize = if n > 0 && bytes[0] == 43u8 {
        1
    } else {
        0
    };
    assert(digits =~= whole.skip(start as int));
    if start == n {
        return None;
    }
    let mut value: u64 = 0;
    let mut i: usize = start;
    while i < n
        invariant
            start <= i <= n,
            n == bytes@.len(),
            n == whole.len(),
            whole == text@,
            digits == whole.skip(start as int),
            digits == if whole.len() > 0 && whole[0] == '+' {
                whole.drop_first()
            } else {
                whole
            },
            forall|j: int| 0 <= j < n ==> whole[j] as u8 == bytes@[j],
            vstd::utf8::is_ascii_chars(whole),
            digits_value(digits.take(i - start)) == Some(value as nat),
            value <= max,
        decreases n - i,
    {
        let b = bytes[i];
        let ghost c = whole[i as int];
        proof {
            let next = digits.take(i - start + 1);
            assert(next.drop_last() =~= digits.take(i - start));
            assert(next.last() == c);
            assert(c as u8 == b);
            assert(is_digit(c) <==> 48 <= b <= 57);
        }
        let ghost next = digits.take(i - start + 1);
        if b < 48 || b > 57 {
            proof {
                assert(digits_value(next) is None);
                if digits_value(digits) is Some {
                    lemma_digits_grow(digits, i - start + 1);
                }
            }
            return None;
        }
        let d: u64 = (b - 48) as u64;
        if d > max || value > (max - d) / 10 {
            proof {
                assert(value * 10 + d > max) by (nonlinear_arith)
                    requires
                        d > max || value > (max - d) / 10,
                        0 <= d,
                        0 <= value,
                {
                }
                assert(digits_value(next) == Some((value * 10 + d) as nat));
                if digits_value(digits) is Some {
                    lemma_digits_grow(digits, i - start + 1);
                }
            }
            return None;
        }
        assert(value * 10 + d <= max) by (nonlinear_arith)
            requires
                value <= (max - d) / 10,
                0 <= d <= max,
        {
        }
        value = value * 10 + d;
        i += 1;
    }
    assert(digits.take(n - start) =~= digits);
    Some(value)
}

/// `std::string::String::push` puts one character at the end of a string.
pub assume_specification[ String::push ](text: &mut String, c: char)
    ensures
        final(text)@ == old(text)@.push(c),
;

/// The characters of `text`.
pub fn chars_of(text: &str) -> (chars: Vec<char>)
    ensures
        chars@ == text@,
{
    let mut chars: Vec<char> = Vec::new();
    for c in it: text.chars()
        invariant
            it.seq() == text@,
            chars@ == it.seq().take(it.index() as int),
    {
        chars.push(c);
        assert(it.seq().take(it.index() + 1) =~= it.seq().take(it.index() as int).push(c));
    }
    assert(text@.take(text@.len() as int) =~= text@);
    chars
}

/// Puts the characters `chars[from..to]` at the end of `text`.
pub(crate) fn push_chars(text: &mut String, chars: &Vec<char>, from: usize, to: usize)
    requires
        from <= to <= chars.len(),
    ensures
        final(text)@ == old(text)@ + chars@.subrange(from as int, to as int),
{
    let mut i: usize = from;
    assert(text@ =~= old(text)@ + chars@.subrange(from as int, from as int));
    while i < to
        invariant
            from <= i <= to <= chars.len(),
            text@ == old(text)@ + chars@.subrange(from as int, i as int),
        decreases to - i,
    {
        text.push(chars[i]);
        assert(chars@.subrange(from as int, i + 1) =~= chars@.subrange(from as int, i as int).push(
            chars@[i as int],
        ));
        assert(text@ =~= old(text)@ + chars@.subrange(from as int, i + 1));
        i += 1;
    }
}

/// `text` with every `from` turned into `to`.
pub open spec fn swapped(text: Seq<char>, from: char, to: char) -> Seq<char> {
    Seq::new(
        text.len(),
        |i: int|
            if text[i] == from {
                to
            } else {
                text[i]
            },
    )
}

/// Turns every `from` in `text` into `to`.
pub fn replace_char(text: &str, from: char, to: char) -> (swapped_text: String)
    ensures
        swapped_text@ == swapped(text@, from, to),
{
    let chars = chars_of(text);
    let mut out = String::new();
    let mut i: usize = 0;
    while i < chars.len()
        invariant
            i <= chars.len(),
            chars@ == text@,
            out@ == swapped(text@, from, to).take(i as int),
        decreases chars.len() - i,
    {
        let c = chars[i];
        out.push(
            if c == from {
                to
            } else {
                c
            },
        );
        assert(out@ =~= swapped(text@, from, to).take(i + 1));
        i += 1;
    }
    assert(out@ =~= swapped(text@, from, to));
    out
}

/// Whether `text` holds the character `c`.
pub fn contains_char(text: &str, c: char) -> (found: bool)
    ensures
        found == text@.contains(c),
{
    let chars = chars_of(text);
    let mut i: usize = 0;
    while i < chars.len()
        invariant
            i <= chars.len(),
            chars@ == text@,
            forall|k: int| 0 <= k < i ==> text@[k] != c,
        decreases chars.len() - i,
    {
        if chars[i] == c {
            return true;
        }
        i += 1;
    }
    false
}

/// Whether `text` ends with `suffix`.
pub open spec fn ends_with(text: Seq<char>, suffix: Seq<char>) -> bool {
    suffix.len() <= text.len() && text.skip(text.len() - suffix.len()) == suffix
}

/// Whether `part` stands in `chars` at the position `at`.
fn stands_at(chars: &Vec<char>, part: &Vec<char>, at: usize) -> (stands: bool)
    requires
        at + part.len() <= chars.len(),
    ensures
        stands == (chars@.subrange(at as int, at + part.len()) == part@),
{
    let mut k: usize = 0;
    while k < part.len()
        invariant
            k <= part.len(),
            at + part.len() <= chars.len(),
            forall|j: int| 0 <= j < k ==> chars@[at + j] == part@[j],
        decreases part.len() - k,
    {
        if chars[at + k] != part[k] {
            assert(chars@.subrange(at as int, at + part.len())[k as int] != part@[k as int]);
            return false;
        }
        k += 1;
    }
    assert(chars@.subrange(at as int, at + part.len()) =~= part@);
    true
}

/// Whether `text` ends with `suffix`.
pub fn has_suffix(text: &str, suffix: &str) -> (ends: bool)
    ensures
        ends == ends_with(text@, suffix@),
{
    let chars = chars_of(text);
    let part = chars_of(suffix);
    if part.len() > chars.len() {
        return false;
    }
    let at = chars.len() - part.len();
    assert(chars@.skip(at as int) =~= chars@.subrange(at as int, at + part.len()));
    stands_at(&chars, &part, at)
}

/// `text` with every `from` replaced by `to`, read from the left: where
/// `from` stands, `to` is written and the reading goes on after it. An
/// empty `from` stands nowhere.
pub open spec fn replaced(text: Seq<char>, from: Seq<char>, to: Seq<char>) -> Seq<char>
    decreases text.len(),
{
    if from.len() == 0 || text.len() < from.len() {
        text
    } else if text.take(from.len() as int) == from {
        to + replaced(text.skip(from.len() as int), from, to)
    } else {
        seq![text[0]] + replaced(text.skip(1), from, to)
    }
}

/// Replaces every `from` in `text` by `to`.
pub fn replace(text: &str, from: &str, to: &str) -> (out: String)
    ensures
        out@ == replaced(text@, from@, to@),
{
    let chars = chars_of(text);
    let part = chars_of(from);
    if part.len() == 0 {
        return text.to_owned();
    }
    let mut out = String::new();
    let mut i: usize = 0;
    assert(chars@.skip(0) =~= chars@);
    while i < chars.len() && chars.len() - i >= part.len()
        invariant
            i <= chars.len(),
            part.len() > 0,
            chars@ == text@,
            part@ == from@,
            out@ + replaced(chars@.skip(i as int), from@, to@) == replaced(text@, from@, to@),
        decreases chars.len() - i,
    {
        let ghost rest = chars@.skip(i as int);
        let ghost before = out@;
        assert(rest.take(part.len() as int) =~= chars@.subrange(i as int, i + part.len()));
        if stands_at(&chars, &part, i) {
            out.append(to);
            assert(rest.skip(part.len() as int) =~= chars@.skip(i + part.len()));
            assert(before + (to@ + replaced(chars@.skip(i + part.len()), from@, to@)) =~= (before
                + to@) + replaced(chars@.skip(i + part.len()), from@, to@));
            i += part.len();
        } else {
            out.push(chars[i]);
            assert(rest.skip(1) =~= chars@.skip(i + 1));
            assert(before + (seq![rest[0]] + replaced(
                chars@.skip(i + 1),
                from@,
                to@,
            )) =~= before.push(
                chars@[i as int],
            ) + replaced(chars@.skip(i + 1), from@, to@));
            i += 1;
        }
    }
    let ghost kept = chars@.skip(i as int);
    let ghost before = out@;
    push_chars(&mut out, &chars, i, chars.len());
    assert(chars@.subrange(i as int, chars.len() as int) =~= kept);
    out
}

/// `items` written one after the other with `sep` between them.
pub open spec fn joined(items: Seq<Seq<char>>, sep: Seq<char>) -> Seq<char>
    decreases items.len(),
{
    if items.len() == 0 {
        Seq::empty()
    } else if items.len() == 1 {
        items[0]
    } else {
        joined(items.drop_last(), sep) + sep + items.last()
    }
}

/// Writes `items` one after the other with `sep` between them.
pub fn join(items: &Vec<String>, sep: &str) -> (text: String)
    ensures
        text@ == joined(items.deep_view(), sep@),
{
    let ghost all = items.deep_view();
    let mut text = String::new();
    let mut i: usize = 0;
    while i < items.len()
        invariant
            i <= items.len(),
            all == items.deep_view(),
            text@ == joined(all.take(i as int), sep@),
        decreases items.len() - i,
    {
        proof {
            assert(all.take(i + 1).drop_last() =~= all.take(i as int));
            assert(all.take(i + 1).last() == items[i as int]@);
        }
        if i > 0 {
            text.append(sep);
        }
        text.append(items[i].as_str());
        assert(text@ =~= joined(all.take(i + 1), sep@));
        i += 1;
    }
    assert(all.take(i as int) =~= all);
    text
}

/// `unit` written `n` times.
pub open spec fn repeated(unit: Seq<char>, n: nat) -> Seq<char>
    decreases n,
{
    if n == 0 {
        Seq::empty()
    } else {
        repeated(unit, (n - 1) as nat) + unit
    }
}

/// Writes `unit` `n` times.
pub fn repeat(unit: &str, n: usize) -> (text: String)
    ensures
        text@ == repeated(unit@, n as nat),
{
    let mut text = String::new();
    let mut i: usize = 0;
    while i < n
        invariant
            i <= n,
            text@ == repeated(unit@, i as nat),
        decreases n - i,
    {
        text.append(unit);
        i += 1;
    }
    text
}

/// `text` with blanks before it, as many as it takes to fill `width`
/// characters; `text` itself where it is as wide as that or wider.
pub open spec fn padded(text: Seq<char>, width: nat) -> Seq<char> {
    if text.len() >= width {
        text
    } else {
        repeated(" "@, (width - text.len()) as nat) + text
    }
}

/// Puts blanks before `text` until it is `width` characters wide.
pub fn pad_left(text: &str, width: usize) -> (out: String)
    ensures
        out@ == padded(text@, width as nat),
{
    let n = text.unicode_len();
    if n >= width {
        return text.to_owned();
    }
    let mut out = repeat(" ", width - n);
    out.append(text);
    out
}

/// The position of the first `c` in `text`, or the length of `text` where
/// it holds none.
pub open spec fn position_of(text: Seq<char>, c: char) -> int
    decreases text.len(),
{
    if text.len() == 0 || text[0] == c {
        0
    } else {
        1 + position_of(text.drop_first(), c)
    }
}

/// Where no `c` stands before `at`, and `at` is the end or holds a `c`, it
/// is the position of the first `c`.
pub proof fn lemma_position_of(text: Seq<char>, c: char, at: int)
    requires
        0 <= at <= text.len(),
        forall|k: int| 0 <= k < at ==> text[k] != c,
        at == text.len() || text[at] == c,
    ensures
        position_of(text, c) == at,
    decreases text.len(),
{
    if at > 0 {
        let rest = text.drop_first();
        assert forall|k: int| 0 <= k < at - 1 implies rest[k] != c by {
            assert(rest[k] == text[k + 1]);
        }
        lemma_position_of(rest, c, at - 1);
    }
}

/// Finds the first `c` in `chars` at or after `from`; the length of `chars`
/// where there is none.
pub(crate) fn find_char(chars: &Vec<char>, from: usize, c: char) -> (at: usize)
    requires
        from <= chars.len(),
    ensures
        from <= at <= chars.len(),
        at - from == position_of(chars@.skip(from as int), c),
{
    let mut at: usize = from;
    while at < chars.len() && chars[at] != c
        invariant
            from <= at <= chars.len(),
            forall|k: int| from <= k < at ==> chars@[k] != c,
        decreases chars.len() - at,
    {
        at += 1;
    }
    proof {
        let rest = chars@.skip(from as int);
        assert forall|k: int| 0 <= k < at - from implies rest[k] != c by {
            assert(rest[k] == chars@[from + k]);
        }
        if at < chars.len() {
            assert(rest[at - from] == chars@[at as int]);
        }
        lemma_position_of(rest, c, at - from);
    }
    at
}

/// The characters `chars[from..to]` as a string.
pub(crate) fn text_of(chars: &Vec<char>, from: usize, to: usize) -> (text: String)
    requires
        from <= to <= chars.len(),
    ensures
        text@ == chars@.subrange(from as int, to as int),
{
    let mut text = String::new();
    push_chars(&mut text, chars, from, to);
    assert(text@ =~= chars@.subrange(from as int, to as int));
    text
}

/// `line` without the carriage return at its end, where it has one.
pub open spec fn without_return(line: Seq<char>) -> Seq<char> {
    if line.len() > 0 && line.last() == '\r' {
        line.drop_last()
    } else {
        line
    }
}

/// The lines of `text`. A line ends with a newline, or with a carriage
/// return and a newline, and neither belongs to it; the last line need not
/// end at all. After the last newline no empty line follows.
pub open spec fn lines(text: Seq<char>) -> Seq<Seq<char>>
    decreases text.len(),
{
    if text.len() == 0 {
        Seq::empty()
    } else {
        let end = position_of(text, '\n');
        if 0 <= end < text.len() {
            seq![without_return(text.take(end))] + lines(text.skip(end + 1))
        } else {
            seq![text]
        }
    }
}

/// Splits `text` into its lines.
pub fn lines_of(text: &str) -> (found: Vec<String>)
    ensures
        found.deep_view() == lines(text@),
{
    let chars = chars_of(text);
    let mut found: Vec<String> = Vec::new();
    let mut from: usize = 0;
    assert(chars@.skip(0) =~= chars@);
    assert(found.deep_view() =~= Seq::<Seq<char>>::empty());
    while from < chars.len()
        invariant
            from <= chars.len(),
            chars@ == text@,
            found.deep_view() + lines(chars@.skip(from as int)) == lines(text@),
        decreases chars.len() - from,
    {
        let ghost rest = chars@.skip(from as int);
        let ghost before = found.deep_view();
        let end = find_char(&chars, from, '\n');
        if end < chars.len() {
            let stop = if end > from && chars[end - 1] == '\r' {
                end - 1
            } else {
                end
            };
            let line = text_of(&chars, from, stop);
            proof {
                assert(rest.take(end - from) =~= chars@.subrange(from as int, end as int));
                assert(line@ =~= without_return(rest.take(end - from)));
                assert(rest.skip(end - from + 1) =~= chars@.skip(end + 1));
            }
            found.push(line);
            proof {
                assert(found.deep_view() =~= before.push(line@));
                assert(before.push(line@) + lines(chars@.skip(end + 1)) =~= before + (seq![line@]
                    + lines(chars@.skip(end + 1))));
            }
            from = end + 1;
        } else {
            let line = text_of(&chars, from, end);
            proof {
                assert(line@ =~= rest);
                assert(chars@.skip(end as int) =~= Seq::<char>::empty());
            }
            found.push(line);
            proof {
                assert(found.deep_view() =~= before.push(line@));
                assert(before.push(line@) + lines(chars@.skip(end as int)) =~= before + seq![
                    line@,
                ]);
            }
            from = end;
        }
    }
    assert(found.deep_view() + lines(chars@.skip(from as int)) =~= found.deep_view());
    found
}

/// The number of bytes that `text` takes.
pub open spec fn byte_len(text: Seq<char>) -> nat {
    vstd::utf8::encode_utf8(text).len()
}

/// `text` in upper case, as `str::to_uppercase` gives it.
pub uninterp spec fn uppercase(text: Seq<char>) -> Seq<char>;

/// `text` in upper case, by `str::to_uppercase`: the result is a function of
/// the characters of `text`, and nothing more is claimed of it.
#[verifier::external_body]
pub(crate) fn to_uppercase(text: &str) -> (upper: String)
    ensures
        upper@ == uppercase(text@),
{
    text.to_uppercase()
}

/// `text` in lower case, as `str::to_lowercase` gives it.
pub uninterp spec fn lowercase(text: Seq<char>) -> Seq<char>;

/// `text` in lower case, by `str::to_lowercase`: the result is a function of
/// the characters of `text`, and nothing more is claimed of it.
#[verifier::external_body]
pub(crate) fn to_lowercase(text: &str) -> (lower: String)
    ensures
        lower@ == lowercase(text@),
{
    text.to_lowercase()
}

} // verus!
