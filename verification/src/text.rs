//! Character-level text helpers shared by the URL, wire and overlay modules.

use vstd::prelude::*;

verus! {

/// The characters of an optional text.
pub open spec fn opt_text(s: Option<String>) -> Option<Seq<char>> {
    match s {
        Some(s) => Some(s@),
        None => None,
    }
}

/// The characters of an optional text that is lent.
pub open spec fn opt_str_text(s: Option<&str>) -> Option<Seq<char>> {
    match s {
        Some(s) => Some(s@),
        None => None,
    }
}

/// Whether `s` begins with `prefix`.
pub fn has_prefix(s: &str, prefix: &str) -> (res: bool)
    ensures
        res == prefix@.is_prefix_of(s@),
{
    let n: usize = prefix.unicode_len();
    if s.unicode_len() < n {
        return false;
    }
    let mut i: usize = 0;
    while i < n
        invariant
            i <= n,
            n == prefix@.len(),
            n <= s@.len(),
            forall|j: int| 0 <= j < i ==> s@[j] == prefix@[j],
        decreases n - i,
    {
        if s.get_char(i) != prefix.get_char(i) {
            assert(s@.take(n as int)[i as int] != prefix@[i as int]);
            return false;
        }
        i += 1;
    }
    assert(prefix@ =~= s@.subrange(0, n as int));
    true
}

/// Whether `s` ends with `suffix`.
pub fn has_suffix(s: &str, suffix: &str) -> (res: bool)
    ensures
        res == suffix@.is_suffix_of(s@),
{
    let n: usize = suffix.unicode_len();
    let total: usize = s.unicode_len();
    if total < n {
        return false;
    }
    let tail: &str = s.substring_char(total - n, total);
    let res: bool = has_prefix(tail, suffix);
    proof {
        assert(tail@ =~= s@.subrange(s@.len() - suffix@.len(), s@.len() as int));
        if res {
            assert(tail@ =~= tail@.subrange(0, n as int));
        }
    }
    res
}

/// The character that stands for a decimal digit.
pub open spec fn digit_char(d: nat) -> char {
    (48 + d) as char
}

/// The decimal notation of `n`, most significant digit first, without leading zeros.
pub open spec fn decimal(n: nat) -> Seq<char>
    decreases n,
{
    if n < 10 {
        seq![digit_char(n)]
    } else {
        decimal(n / 10).push(digit_char(n % 10))
    }
}

fn digit_str(d: u64) -> (res: &'static str)
    requires
        d < 10,
    ensures
        res@ == seq![digit_char(d as nat)],
{
    proof {
        reveal_strlit("0");
        reveal_strlit("1");
        reveal_strlit("2");
        reveal_strlit("3");
        reveal_strlit("4");
        reveal_strlit("5");
        reveal_strlit("6");
        reveal_strlit("7");
        reveal_strlit("8");
        reveal_strlit("9");
    }
    match d {
        0 => "0",
        1 => "1",
        2 => "2",
        3 => "3",
        4 => "4",
        5 => "5",
        6 => "6",
        7 => "7",
        8 => "8",
        _ => "9",
    }
}

/// Writes `n` in decimal notation.
pub fn decimal_string(n: u64) -> (res: String)
    ensures
        res@ == decimal(n as nat),
    decreases n,
{
    if n < 10 {
        String::from_str(digit_str(n))
    } else {
        let mut res: String = decimal_string(n / 10);
        res.append(digit_str(n % 10));
        res
    }
}

/// The UTF-16 code units of one character: one unit in the basic plane, else a
/// surrogate pair.
pub open spec fn utf16_units(c: char) -> Seq<u16> {
    let v = c as int;
    if v < 0x10000 {
        seq![v as u16]
    } else {
        seq![(0xD800 + (v - 0x10000) / 0x400) as u16, (0xDC00 + (v - 0x10000) % 0x400) as u16]
    }
}

/// The UTF-16 encoding of a text.
pub open spec fn utf16(s: Seq<char>) -> Seq<u16>
    decreases s.len(),
{
    if s.len() == 0 {
        Seq::empty()
    } else {
        utf16(s.drop_last()) + utf16_units(s.last())
    }
}

fn push_units(out: &mut Vec<u16>, c: char)
    ensures
        final(out)@ == old(out)@ + utf16_units(c),
{
    let v: u32 = c as u32;
    if v < 0x10000 {
        out.push(v as u16);
    } else {
        let w: u32 = v - 0x10000;
        out.push((0xD800 + w / 0x400) as u16);
        out.push((0xDC00 + w % 0x400) as u16);
    }
    assert(out@ =~= old(out)@ + utf16_units(c));
}

/// Encodes `text` as zero-terminated UTF-16, the form in which the window system takes
/// strings.
pub fn wide_text(text: &str) -> (res: Vec<u16>)
    ensures
        res@ == utf16(text@).push(0),
{
    let mut res: Vec<u16> = Vec::new();
    for c in it: text.chars()
        invariant
            it.seq() == text@,
            res@ == utf16(text@.take(it.index() as int)),
    {
        proof {
            let i = it.index() as int;
            assert(text@.take(i + 1).drop_last() =~= text@.take(i));
            assert(text@.take(i + 1).last() == c);
        }
        push_units(&mut res, c);
    }
    assert(text@.take(text@.len() as int) =~= text@);
    res.push(0);
    res
}

/// The characters with the Unicode `White_Space` property.
pub open spec fn is_white_space(c: char) -> bool {
    let v = c as int;
    ||| 0x09 <= v <= 0x0D
    ||| v == 0x20
    ||| v == 0x85
    ||| v == 0xA0
    ||| v == 0x1680
    ||| 0x2000 <= v <= 0x200A
    ||| v == 0x2028
    ||| v == 0x2029
    ||| v == 0x202F
    ||| v == 0x205F
    ||| v == 0x3000
}

/// Whether every character of `s` is white space. The empty text is blank.
pub open spec fn is_blank(s: Seq<char>) -> bool {
    forall|i: int| 0 <= i < s.len() ==> is_white_space(#[trigger] s[i])
}

/// Whether `c` has the Unicode `White_Space` property.
pub fn white_space(c: char) -> (res: bool)
    ensures
        res == is_white_space(c),
{
    let v: u32 = c as u32;
    (0x09 <= v && v <= 0x0D) || v == 0x20 || v == 0x85 || v == 0xA0 || v == 0x1680 || (0x2000 <= v
        && v <= 0x200A) || v == 0x2028 || v == 0x2029 || v == 0x202F || v == 0x205F || v == 0x3000
}

/// A text without the white space at its start.
pub open spec fn trimmed_start(s: Seq<char>) -> Seq<char>
    decreases s.len(),
{
    if s.len() > 0 && is_white_space(s[0]) {
        trimmed_start(s.drop_first())
    } else {
        s
    }
}

/// A text without the white space at its end.
pub open spec fn trimmed_end(s: Seq<char>) -> Seq<char>
    decreases s.len(),
{
    if s.len() > 0 && is_white_space(s.last()) {
        trimmed_end(s.drop_last())
    } else {
        s
    }
}

/// A text without the white space around it.
pub open spec fn trimmed(s: Seq<char>) -> Seq<char> {
    trimmed_end(trimmed_start(s))
}

/// Whether `s` holds nothing but white space.
pub fn blank(s: &str) -> (res: bool)
    ensures
        res == is_blank(s@),
{
    for c in it: s.chars()
        invariant
            it.seq() == s@,
            forall|j: int| 0 <= j < it.index() ==> is_white_space(#[trigger] s@[j]),
    {
        if !white_space(c) {
            assert(!is_white_space(s@[it.index() as int]));
            return false;
        }
    }
    true
}

/// Takes the white space around `s` away.
pub fn trim(s: &str) -> (res: &str)
    ensures
        res@ == trimmed(s@),
{
    let total: usize = s.unicode_len();
    let mut from: usize = 0;
    assert(s@.skip(0) =~= s@);
    while from < total && white_space(s.get_char(from))
        invariant
            from <= total,
            total == s@.len(),
            trimmed_start(s@.skip(from as int)) == trimmed_start(s@),
        ensures
            from <= total,
            trimmed_start(s@.skip(from as int)) == trimmed_start(s@),
            from == total || !is_white_space(s@[from as int]),
        decreases total - from,
    {
        assert(s@.skip(from as int).drop_first() =~= s@.skip(from + 1));
        from += 1;
    }
    let ghost rest = s@.skip(from as int);
    assert(rest == trimmed_start(s@));
    let mut to: usize = total;
    assert(s@.subrange(from as int, to as int) =~= rest);
    while to > from && white_space(s.get_char(to - 1))
        invariant
            from <= to <= total,
            total == s@.len(),
            trimmed_end(s@.subrange(from as int, to as int)) == trimmed_end(rest),
        ensures
            from <= to <= total,
            trimmed_end(s@.subrange(from as int, to as int)) == trimmed_end(rest),
            to == from || !is_white_space(s@[to - 1]),
        decreases to,
    {
        assert(s@.subrange(from as int, to as int).drop_last() =~= s@.subrange(
            from as int,
            to - 1,
        ));
        to -= 1;
    }
    s.substring_char(from, to)
}

/// Nothing is left of a text without its white space exactly if it is blank.
pub proof fn law_trimmed_empty_iff_blank(s: Seq<char>)
    ensures
        trimmed(s).len() == 0 <==> is_blank(s),
    decreases s.len(),
{
    if s.len() > 0 {
        if is_white_space(s[0]) {
            let rest = s.drop_first();
            law_trimmed_empty_iff_blank(rest);
            assert(forall|i: int| 0 <= i < rest.len() ==> rest[i] == s[i + 1]);
            assert(is_blank(rest) ==> is_blank(s)) by {
                assert forall|i: int| is_blank(rest) && 0 <= i < s.len() implies is_white_space(
                    #[trigger] s[i],
                ) by {
                    if i > 0 {
                        assert(is_white_space(rest[i - 1]));
                    }
                }
            }
        } else {
            assert(trimmed_start(s) == s);
            lemma_trimmed_end_keeps_start(s);
        }
    }
}

proof fn lemma_trimmed_end_keeps_start(s: Seq<char>)
    requires
        s.len() > 0,
        !is_white_space(s[0]),
    ensures
        trimmed_end(s).len() > 0,
    decreases s.len(),
{
    if is_white_space(s.last()) {
        lemma_trimmed_end_keeps_start(s.drop_last());
    }
}

/// The white space around a text does not count, and nothing else is taken away: a text that
/// neither starts nor ends with white space is left of it, whatever blanks it is put between.
pub proof fn law_only_white_space_around_is_trimmed(a: Seq<char>, text: Seq<char>, b: Seq<char>)
    requires
        is_blank(a),
        is_blank(b),
        text.len() > 0,
        !is_white_space(text[0]),
        !is_white_space(text.last()),
    ensures
        trimmed(a + text + b) == text,
{
    lemma_blank_start_goes(a, text + b);
    assert(a + text + b =~= a + (text + b));
    lemma_blank_end_goes(text, b);
}

proof fn lemma_blank_start_goes(a: Seq<char>, rest: Seq<char>)
    requires
        is_blank(a),
        rest.len() > 0,
        !is_white_space(rest[0]),
    ensures
        trimmed_start(a + rest) == rest,
    decreases a.len(),
{
    if a.len() == 0 {
        assert(a + rest =~= rest);
    } else {
        let fewer = a.drop_first();
        assert forall|i: int| 0 <= i < fewer.len() implies is_white_space(#[trigger] fewer[i]) by {
            assert(fewer[i] == a[i + 1]);
        }
        lemma_blank_start_goes(fewer, rest);
        assert(is_white_space(a[0]));
        assert((a + rest).drop_first() =~= fewer + rest);
    }
}

proof fn lemma_blank_end_goes(rest: Seq<char>, b: Seq<char>)
    requires
        is_blank(b),
        rest.len() > 0,
        !is_white_space(rest.last()),
    ensures
        trimmed_end(rest + b) == rest,
    decreases b.len(),
{
    if b.len() == 0 {
        assert(rest + b =~= rest);
    } else {
        let fewer = b.drop_last();
        assert forall|i: int| 0 <= i < fewer.len() implies is_white_space(#[trigger] fewer[i]) by {
            assert(fewer[i] == b[i]);
        }
        lemma_blank_end_goes(rest, fewer);
        assert(is_white_space(b[b.len() - 1]));
        assert((rest + b).drop_last() =~= rest + fewer);
    }
}

/// The space, the tab, the line ends and the wide spaces are white space. Visible ASCII
/// characters are not, nor are other control characters, letters with accents, or anything
/// behind the ideographic space.
pub proof fn law_words_are_no_white_space(c: char)
    ensures
        c == ' ' || c == '\t' || c == '\n' || c == '\r' || c == '\u{a0}' || c == '\u{3000}'
            ==> is_white_space(c),
        0x21 <= c as int <= 0x84 ==> !is_white_space(c),
        (c as int) < 0x09 || 0x0E <= c as int <= 0x1F ==> !is_white_space(c),
        0xA1 <= c as int <= 0x167F ==> !is_white_space(c),
        0x200B <= c as int <= 0x2027 ==> !is_white_space(c),
        c as int > 0x3000 ==> !is_white_space(c),
{
}

/// The number that a row of decimal digits stands for.
pub open spec fn decimal_value(s: Seq<char>) -> int
    decreases s.len(),
{
    if s.len() == 0 {
        0
    } else {
        10 * decimal_value(s.drop_last()) + (s.last() as int - '0' as int)
    }
}

/// The decimal notation of a number stands for it; it is made of digits, and there is a zero in
/// front only for zero itself.
pub proof fn law_decimal_stands_for_the_number(n: nat)
    ensures
        decimal_value(decimal(n)) == n,
        decimal(n).len() > 0,
        forall|i: int|
            0 <= i < decimal(n).len() ==> '0' as int <= #[trigger] decimal(n)[i] as int <= '9' as int,
        n > 0 ==> decimal(n)[0] != '0',
        n < 10 ==> decimal(n).len() == 1,
    decreases n,
{
    let s = decimal(n);
    if n < 10 {
        assert(s.drop_last() =~= Seq::empty());
        assert(decimal_value(s.drop_last()) == 0);
    } else {
        law_decimal_stands_for_the_number(n / 10);
        assert(s.drop_last() =~= decimal(n / 10));
        assert forall|i: int| 0 <= i < s.len() implies '0' as int <= #[trigger] s[i] as int
            <= '9' as int by {
            if i < s.len() - 1 {
                assert(s[i] == decimal(n / 10)[i]);
            }
        }
        assert(s[0] == decimal(n / 10)[0]);
    }
}

/// The code units of a character give it back: one unit in the basic plane is its number, and
/// two are a high and a low surrogate that hold ten bits each of what is above that plane.
pub proof fn law_code_units_stand_for_the_character(c: char)
    ensures
        (c as int) < 0x10000 ==> utf16(seq![c]).len() == 1 && utf16(seq![c])[0] == c as int,
        c as int >= 0x10000 ==> {
            let units = utf16(seq![c]);
            &&& units.len() == 2
            &&& 0xD800 <= units[0] <= 0xDBFF
            &&& 0xDC00 <= units[1] <= 0xDFFF
            &&& 0x10000 + 0x400 * (units[0] - 0xD800) + (units[1] - 0xDC00) == c as int
        },
{
    let one = seq![c];
    assert(one.drop_last() =~= Seq::empty());
    assert(utf16(one.drop_last()) =~= Seq::empty());
    assert(utf16(one) =~= utf16_units(c));
}

/// The code units of a text are those of its parts, one after the other.
pub proof fn law_code_units_of_a_concatenation(a: Seq<char>, b: Seq<char>)
    ensures
        utf16(a + b) == utf16(a) + utf16(b),
    decreases b.len(),
{
    if b.len() == 0 {
        assert(a + b =~= a);
    } else {
        assert((a + b).drop_last() =~= a + b.drop_last());
        law_code_units_of_a_concatenation(a, b.drop_last());
    }
    assert(utf16(a + b) =~= utf16(a) + utf16(b));
}

/// An optional text is there exactly if its characters are.
pub proof fn law_optional_texts(text: Option<String>, lent: Option<&str>)
    ensures
        opt_text(text) is Some <==> text is Some,
        text matches Some(s) ==> opt_text(text) == Some(s@),
        opt_str_text(lent) is Some <==> lent is Some,
        lent matches Some(s) ==> opt_str_text(lent) == Some(s@),
{
}

} // verus!
