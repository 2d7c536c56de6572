//! Text handling shared by the other modules.
//!
//! Texts are modelled as sequences of characters. The executable functions work
//! on `Vec<char>`, with `chars_of` and `string_of` at the border to `str` and
//! `String`.

use vstd::prelude::*;
use vstd::std_specs::iter::IteratorSpec;

verus! {

/// What each vector of characters in `v` holds.
pub open spec fn rows(v: Seq<Vec<char>>) -> Seq<Seq<char>> {
    v.map_values(|r: Vec<char>| r@)
}

/// What each string in `v` holds.
pub open spec fn texts(v: Seq<String>) -> Seq<Seq<char>> {
    v.map_values(|t: String| t@)
}

/// The fields of `s` when it is cut at every `sep`: a text with `n` separators
/// has `n + 1` fields, some of them possibly empty.
pub open spec fn split(s: Seq<char>, sep: char) -> Seq<Seq<char>>
    decreases s.len(),
{
    if s.len() == 0 {
        seq![Seq::<char>::empty()]
    } else {
        let before = split(s.drop_last(), sep);
        if s.last() == sep {
            before.push(Seq::<char>::empty())
        } else {
            before.drop_last().push(before.last().push(s.last()))
        }
    }
}

/// `line` without one carriage return at its end, if it has one.
pub open spec fn strip_cr(line: Seq<char>) -> Seq<char> {
    if line.len() > 0 && line.last() == '\r' {
        line.drop_last()
    } else {
        line
    }
}

/// The lines of `text`. A line ends at a line feed, which is not part of it,
/// nor is a carriage return directly before that line feed. What follows the
/// last line feed is a line of its own unless it is empty.
pub open spec fn split_lines(text: Seq<char>) -> Seq<Seq<char>> {
    let parts = split(text, '\n');
    let closed = parts.drop_last().map_values(|l: Seq<char>| strip_cr(l));
    if parts.last().len() == 0 {
        closed
    } else {
        closed.push(parts.last())
    }
}

/// The parts in order, with `sep` between each two neighbours.
pub open spec fn join(parts: Seq<Seq<char>>, sep: Seq<char>) -> Seq<char>
    decreases parts.len(),
{
    if parts.len() == 0 {
        Seq::<char>::empty()
    } else if parts.len() == 1 {
        parts[0]
    } else {
        join(parts.drop_last(), sep) + sep + parts.last()
    }
}

/// Every part followed by a line feed.
pub open spec fn unlines(parts: Seq<Seq<char>>) -> Seq<char>
    decreases parts.len(),
{
    if parts.len() == 0 {
        Seq::<char>::empty()
    } else {
        unlines(parts.drop_last()) + parts.last().push('\n')
    }
}

/// `s` with every `from` turned into `to`.
pub open spec fn replace_char(s: Seq<char>, from: char, to: char) -> Seq<char> {
    s.map_values(|c: char| if c == from { to } else { c })
}

/// The lower-case hexadecimal digit for `d`, which is below 16.
pub open spec fn hex_digit(d: int) -> char {
    if d == 0 {
        '0'
    } else if d == 1 {
        '1'
    } else if d == 2 {
        '2'
    } else if d == 3 {
        '3'
    } else if d == 4 {
        '4'
    } else if d == 5 {
        '5'
    } else if d == 6 {
        '6'
    } else if d == 7 {
        '7'
    } else if d == 8 {
        '8'
    } else if d == 9 {
        '9'
    } else if d == 10 {
        'a'
    } else if d == 11 {
        'b'
    } else if d == 12 {
        'c'
    } else if d == 13 {
        'd'
    } else if d == 14 {
        'e'
    } else {
        'f'
    }
}

/// `n` in decimal notation, without leading zeros.
pub open spec fn decimal(n: nat) -> Seq<char>
    decreases n,
{
    if n < 10 {
        seq![hex_digit(n as int)]
    } else {
        decimal(n / 10).push(hex_digit((n % 10) as int))
    }
}

/// Whether `c` is one of `0` to `9`.
pub open spec fn is_decimal_digit(c: char) -> bool {
    '0' <= c && c <= '9'
}

/// The value of the decimal digit `c`.
pub open spec fn digit_value(c: char) -> nat {
    (c as int - '0' as int) as nat
}

/// The number that the decimal digits of `s` denote; `None` where `s` is
/// empty or holds anything but digits.
pub open spec fn digits_value(s: Seq<char>) -> Option<nat>
    decreases s.len(),
{
    if s.len() == 0 || !is_decimal_digit(s.last()) {
        None
    } else if s.len() == 1 {
        Some(digit_value(s.last()))
    } else {
        match digits_value(s.drop_last()) {
            Some(high) => Some(high * 10 + digit_value(s.last())),
            None => None,
        }
    }
}

/// `s` without the plus sign that it may begin with.
pub open spec fn unsigned(s: Seq<char>) -> Seq<char> {
    if s.len() > 0 && s[0] == '+' {
        s.skip(1)
    } else {
        s
    }
}

/// The number up to `max` that `s` denotes, as the standard library reads an
/// unsigned number: decimal digits, with a plus sign before them at most.
pub open spec fn number_of(s: Seq<char>, max: nat) -> Option<nat> {
    match digits_value(unsigned(s)) {
        Some(n) => if n <= max {
            Some(n)
        } else {
            None
        },
        None => None,
    }
}

/// `s` without the blanks at its two ends.
pub open spec fn trim_blanks(s: Seq<char>) -> Seq<char>
    decreases s.len(),
{
    if s.len() == 0 {
        s
    } else if s[0] == ' ' {
        trim_blanks(s.skip(1))
    } else if s.last() == ' ' {
        trim_blanks(s.drop_last())
    } else {
        s
    }
}

/// The parts that are not empty, in their order.
pub open spec fn non_empty(parts: Seq<Seq<char>>) -> Seq<Seq<char>>
    decreases parts.len(),
{
    if parts.len() == 0 {
        parts
    } else if parts.last().len() == 0 {
        non_empty(parts.drop_last())
    } else {
        non_empty(parts.drop_last()).push(parts.last())
    }
}

/// The characters of `s`, in order.
pub fn chars_of(s: &str) -> (out: Vec<char>)
    ensures
        out@ == s@,
{
    let mut out: Vec<char> = Vec::new();
    for c in it: s.chars()
        invariant
            out@ == it.seq().take(it.index() as int),
            it.seq() == s@,
    {
        out.push(c);
    }
    out
}

/// The string made of the characters of `v`, in order.
pub fn string_of(v: &Vec<char>) -> (out: String)
    ensures
        out@ == v@,
{
    let mut out = String::new();
    let mut i: usize = 0;
    while i < v.len()
        invariant
            i <= v.len(),
            out@ == v@.take(i as int),
        decreases v.len() - i,
    {
        out.push(v[i]);
        i += 1;
    }
    out
}

/// Appends the characters of `s` to `out`.
pub fn push_str(out: &mut Vec<char>, s: &str)
    ensures
        final(out)@ == old(out)@ + s@,
{
    let ghost before = out@;
    for c in it: s.chars()
        invariant
            out@ == before + it.seq().take(it.index() as int),
            it.seq() == s@,
    {
        out.push(c);
    }
}

/// Appends the characters of `s` to `out`.
pub fn push_chars(out: &mut Vec<char>, s: &Vec<char>)
    ensures
        final(out)@ == old(out)@ + s@,
{
    let ghost before = out@;
    let mut i: usize = 0;
    while i < s.len()
        invariant
            i <= s.len(),
            out@ == before + s@.take(i as int),
        decreases s.len() - i,
    {
        out.push(s[i]);
        i += 1;
    }
}

/// Whether `a` and `b` hold the same characters.
pub fn same_chars(a: &Vec<char>, b: &Vec<char>) -> (same: bool)
    ensures
        same == (a@ == b@),
{
    if a.len() != b.len() {
        return false;
    }
    let mut i: usize = 0;
    while i < a.len()
        invariant
            i <= a.len(),
            a.len() == b.len(),
            a@.take(i as int) == b@.take(i as int),
        decreases a.len() - i,
    {
        if a[i] != b[i] {
            return false;
        }
        assert(a@.take(i + 1) == a@.take(i as int).push(a@[i as int]));
        assert(b@.take(i + 1) == b@.take(i as int).push(b@[i as int]));
        i += 1;
    }
    assert(a@.take(a.len() as int) == a@);
    assert(b@.take(b.len() as int) == b@);
    true
}

/// Whether `s` begins with `prefix`.
pub fn starts_with(s: &Vec<char>, prefix: &Vec<char>) -> (yes: bool)
    ensures
        yes == prefix@.is_prefix_of(s@),
{
    if s.len() < prefix.len() {
        return false;
    }
    let mut i: usize = 0;
    while i < prefix.len()
        invariant
            i <= prefix.len(),
            prefix.len() <= s.len(),
            forall|j: int| 0 <= j < i ==> s@[j] == prefix@[j],
        decreases prefix.len() - i,
    {
        if s[i] != prefix[i] {
            return false;
        }
        i += 1;
    }
    assert(s@.subrange(0, prefix@.len() as int) =~= prefix@);
    true
}

/// The part of `s` from position `from` up to, not including, position `to`.
pub fn slice_of(s: &Vec<char>, from: usize, to: usize) -> (out: Vec<char>)
    requires
        from <= to <= s.len(),
    ensures
        out@ == s@.subrange(from as int, to as int),
{
    let mut out: Vec<char> = Vec::new();
    let mut i: usize = from;
    while i < to
        invariant
            from <= i <= to <= s.len(),
            out@ == s@.subrange(from as int, i as int),
        decreases to - i,
    {
        out.push(s[i]);
        i += 1;
    }
    out
}

/// The fields of `s` between the separators `sep`.
pub fn split_on(s: &Vec<char>, sep: char) -> (out: Vec<Vec<char>>)
    ensures
        rows(out@) == split(s@, sep),
        out.len() >= 1,
{
    let mut out: Vec<Vec<char>> = Vec::new();
    let mut cur: Vec<char> = Vec::new();
    let mut i: usize = 0;
    assert(s@.take(0) =~= Seq::<char>::empty());
    assert(rows(out@).push(cur@) =~= seq![Seq::<char>::empty()]);
    while i < s.len()
        invariant
            i <= s.len(),
            rows(out@).push(cur@) == split(s@.take(i as int), sep),
        decreases s.len() - i,
    {
        let ghost done = rows(out@);
        let ghost open = cur@;
        let c = s[i];
        assert(s@.take(i + 1).drop_last() =~= s@.take(i as int));
        assert(s@.take(i + 1).last() == c);
        if c == sep {
            out.push(cur);
            cur = Vec::new();
            assert(rows(out@) =~= done.push(open));
        } else {
            cur.push(c);
            assert(done.push(open).drop_last() =~= done);
            assert(rows(out@) =~= done);
        }
        i += 1;
    }
    assert(s@.take(s.len() as int) =~= s@);
    let ghost done = rows(out@);
    let ghost open = cur@;
    out.push(cur);
    assert(rows(out@) =~= done.push(open));
    out
}

/// The lines of `text`.
pub fn lines_of(text: &Vec<char>) -> (out: Vec<Vec<char>>)
    ensures
        rows(out@) == split_lines(text@),
{
    let mut parts = split_on(text, '\n');
    let ghost all = rows(parts@);
    let last = parts.pop().unwrap();
    assert(rows(parts@) =~= all.drop_last());
    assert(last@ == all.last());
    let mut out: Vec<Vec<char>> = Vec::new();
    let mut i: usize = 0;
    while i < parts.len()
        invariant
            i <= parts.len(),
            rows(parts@) == all.drop_last(),
            rows(out@) == all.drop_last().map_values(|l: Seq<char>| strip_cr(l)).take(
                i as int,
            ),
        decreases parts.len() - i,
    {
        let ghost before = rows(out@);
        let part = &parts[i];
        assert(part@ == rows(parts@)[i as int]);
        let n = part.len();
        let line = if n > 0 && part[n - 1] == '\r' {
            let l = slice_of(part, 0, n - 1);
            assert(l@ =~= part@.drop_last());
            l
        } else {
            slice_of(part, 0, n)
        };
        assert(line@ =~= strip_cr(part@));
        out.push(line);
        assert(rows(out@) =~= before.push(strip_cr(part@)));
        i += 1;
    }
    let ghost closed = rows(out@);
    assert(closed =~= all.drop_last().map_values(|l: Seq<char>| strip_cr(l)));
    if last.len() > 0 {
        out.push(last);
        assert(rows(out@) =~= closed.push(all.last()));
    }
    out
}

/// The parts in order, with `sep` between each two neighbours.
pub fn join_with(parts: &Vec<Vec<char>>, sep: &Vec<char>) -> (out: Vec<char>)
    ensures
        out@ == join(rows(parts@), sep@),
{
    let mut out: Vec<char> = Vec::new();
    let mut i: usize = 0;
    while i < parts.len()
        invariant
            i <= parts.len(),
            out@ == join(rows(parts@).take(i as int), sep@),
        decreases parts.len() - i,
    {
        let ghost head = rows(parts@).take(i + 1);
        assert(head.drop_last() =~= rows(parts@).take(i as int));
        assert(head.last() == parts[i as int]@);
        if i > 0 {
            push_chars(&mut out, sep);
        } else {
            assert(head[0] == parts[0]@);
        }
        push_chars(&mut out, &parts[i]);
        assert(out@ =~= join(head, sep@));
        i += 1;
    }
    assert(rows(parts@).take(parts.len() as int) =~= rows(parts@));
    out
}

/// `s` with every `from` turned into `to`.
pub fn replace(s: &Vec<char>, from: char, to: char) -> (out: Vec<char>)
    ensures
        out@ == replace_char(s@, from, to),
{
    let mut out: Vec<char> = Vec::new();
    let mut i: usize = 0;
    while i < s.len()
        invariant
            i <= s.len(),
            out@ == replace_char(s@, from, to).take(i as int),
        decreases s.len() - i,
    {
        let c = s[i];
        out.push(if c == from { to } else { c });
        assert(out@ =~= replace_char(s@, from, to).take(i + 1));
        i += 1;
    }
    assert(out@ =~= replace_char(s@, from, to));
    out
}

/// The lower-case hexadecimal digit for `d`.
pub fn hex_digit_of(d: u8) -> (c: char)
    requires
        d < 16,
    ensures
        c == hex_digit(d as int),
{
    if d == 0 {
        '0'
    } else if d == 1 {
        '1'
    } else if d == 2 {
        '2'
    } else if d == 3 {
        '3'
    } else if d == 4 {
        '4'
    } else if d == 5 {
        '5'
    } else if d == 6 {
        '6'
    } else if d == 7 {
        '7'
    } else if d == 8 {
        '8'
    } else if d == 9 {
        '9'
    } else if d == 10 {
        'a'
    } else if d == 11 {
        'b'
    } else if d == 12 {
        'c'
    } else if d == 13 {
        'd'
    } else if d == 14 {
        'e'
    } else {
        'f'
    }
}

/// `n` in decimal notation, without leading zeros.
pub fn decimal_of(n: u64) -> (out: Vec<char>)
    ensures
        out@ == decimal(n as nat),
    decreases n,
{
    if n < 10 {
        let mut out: Vec<char> = Vec::new();
        out.push(hex_digit_of(n as u8));
        assert(out@ =~= seq![hex_digit(n as int)]);
        out
    } else {
        let mut out = decimal_of(n / 10);
        out.push(hex_digit_of((n % 10) as u8));
        out
    }
}

/// Once the digits read so far denote more than `max`, so do all the digits,
/// if digits they are.
proof fn lemma_digits_grow(s: Seq<char>, at: int, max: nat)
    requires
        0 < at <= s.len(),
        digits_value(s.take(at)) matches Some(n) && n > max,
    ensures
        digits_value(s) matches Some(n) ==> n > max,
    decreases s.len() - at,
{
    if at == s.len() {
        assert(s.take(at) =~= s);
    } else {
        assert(s.take(at + 1).drop_last() =~= s.take(at));
        if is_decimal_digit(s[at]) {
            lemma_digits_grow(s, at + 1, max);
        } else {
            lemma_digits_end(s, at);
        }
    }
}

/// Digits with something else among them denote no number.
proof fn lemma_digits_end(s: Seq<char>, at: int)
    requires
        0 <= at < s.len(),
        !is_decimal_digit(s[at]),
    ensures
        digits_value(s) is None,
    decreases s.len(),
{
    if at < s.len() - 1 {
        lemma_digits_end(s.drop_last(), at);
    }
}

/// The number up to `max` that `s` denotes.
pub fn parse_number(s: &Vec<char>, max: u64) -> (n: Option<u64>)
    ensures
        n is Some == number_of(s@, max as nat) is Some,
        n matches Some(v) ==> number_of(s@, max as nat) == Some(v as nat),
{
    let from: usize = if s.len() > 0 && s[0] == '+' {
        1
    } else {
        0
    };
    let ghost digits = s@.skip(from as int);
    assert(digits =~= unsigned(s@));
    if from == s.len() {
        assert(digits.len() == 0);
        return None;
    }
    let mut value: u64 = 0;
    let mut i: usize = from;
    while i < s.len()
        invariant
            from <= i <= s.len(),
            from < s.len(),
            digits == s@.skip(from as int),
            digits == unsigned(s@),
            value <= max,
            i > from ==> digits_value(digits.take(i - from)) == Some(value as nat),
            i == from ==> value == 0,
        decreases s.len() - i,
    {
        let c = s[i];
        assert(digits[i - from] == c);
        let ghost head = digits.take(i + 1 - from);
        assert(head.drop_last() =~= digits.take(i - from));
        assert(head.last() == c);
        if !('0' <= c && c <= '9') {
            proof {
                lemma_digits_end(digits, i - from);
            }
            return None;
        }
        let d = (c as u64) - 48;
        assert(d == digit_value(c));
        if value > (u64::MAX - d) / 10 || value * 10 + d > max {
            proof {
                assert(digits_value(head) matches Some(n) && n > max) by {
                    assert(value as nat * 10 + d > max) by (nonlinear_arith)
                        requires
                            value > (u64::MAX - d) / 10 || value * 10 + d > max,
                            max <= u64::MAX,
                            d < 10,
                    ;
                }
                lemma_digits_grow(digits, i + 1 - from, max as nat);
            }
            return None;
        }
        value = value * 10 + d;
        i += 1;
    }
    assert(digits.take(s.len() - from) =~= digits);
    Some(value)
}

/// `s` without the blanks at its two ends.
pub fn trim(s: &Vec<char>) -> (out: Vec<char>)
    ensures
        out@ == trim_blanks(s@),
{
    let mut from: usize = 0;
    assert(s@.skip(0) =~= s@);
    while from < s.len() && s[from] == ' '
        invariant
            from <= s.len(),
            trim_blanks(s@) == trim_blanks(s@.skip(from as int)),
        decreases s.len() - from,
    {
        assert(s@.skip(from as int).skip(1) =~= s@.skip(from + 1));
        from += 1;
    }
    let mut to: usize = s.len();
    assert(s@.skip(from as int) =~= s@.subrange(from as int, to as int));
    while to > from && s[to - 1] == ' '
        invariant
            from <= to <= s.len(),
            from < s.len() ==> s@[from as int] != ' ',
            trim_blanks(s@) == trim_blanks(s@.subrange(from as int, to as int)),
        decreases to,
    {
        assert(s@.subrange(from as int, to as int).drop_last() =~= s@.subrange(
            from as int,
            to - 1,
        ));
        to -= 1;
    }
    slice_of(s, from, to)
}

/// The fields of `s` between the separators `sep` that are not empty.
pub fn split_non_empty(s: &Vec<char>, sep: char) -> (out: Vec<Vec<char>>)
    ensures
        rows(out@) == non_empty(split(s@, sep)),
{
    let parts = split_on(s, sep);
    let mut out: Vec<Vec<char>> = Vec::new();
    let mut i: usize = 0;
    assert(rows(parts@).take(0) =~= Seq::<Seq<char>>::empty());
    while i < parts.len()
        invariant
            i <= parts.len(),
            rows(out@) == non_empty(rows(parts@).take(i as int)),
        decreases parts.len() - i,
    {
        let ghost head = rows(parts@).take(i + 1);
        assert(head.drop_last() =~= rows(parts@).take(i as int));
        assert(head.last() == parts[i as int]@);
        if parts[i].len() > 0 {
            let ghost before = rows(out@);
            let part = slice_of(&parts[i], 0, parts[i].len());
            assert(part@ =~= parts[i as int]@);
            out.push(part);
            assert(rows(out@) =~= before.push(part@));
        }
        i += 1;
    }
    assert(rows(parts@).take(parts.len() as int) =~= rows(parts@));
    out
}

/// Cutting a text at a separator always gives at least one field.
pub proof fn law_split_gives_a_field(s: Seq<char>, sep: char)
    ensures
        split(s, sep).len() >= 1,
    decreases s.len(),
{
    if s.len() > 0 {
        law_split_gives_a_field(s.drop_last(), sep);
    }
}

/// Putting the separator back between the fields of a text gives the text.
pub proof fn law_join_undoes_split(s: Seq<char>, sep: char)
    ensures
        join(split(s, sep), seq![sep]) == s,
    decreases s.len(),
{
    if s.len() == 0 {
        assert(split(s, sep)[0] =~= s);
    } else {
        let before = split(s.drop_last(), sep);
        law_split_gives_a_field(s.drop_last(), sep);
        law_join_undoes_split(s.drop_last(), sep);
        let joined = join(before, seq![sep]);
        assert(joined == s.drop_last());
        if s.last() == sep {
            let fields = before.push(Seq::<char>::empty());
            assert(fields.drop_last() =~= before);
            assert(join(fields, seq![sep]) =~= joined + seq![sep]);
            assert(joined + seq![sep] =~= s);
        } else {
            let last = before.last().push(s.last());
            let fields = before.drop_last().push(last);
            assert(fields.drop_last() =~= before.drop_last());
            if before.len() == 1 {
                assert(joined == before[0]);
                assert(join(fields, seq![sep]) == last);
            } else {
                assert(join(fields, seq![sep]) =~= (join(before.drop_last(), seq![sep]) + seq![sep]
                    + before.last()).push(s.last()));
            }
            assert(joined.push(s.last()) =~= s);
        }
    }
}

/// No field of a text holds the separator that the text was cut at.
pub proof fn law_fields_hold_no_separator(s: Seq<char>, sep: char, i: int, j: int)
    requires
        0 <= i < split(s, sep).len(),
        0 <= j < split(s, sep)[i].len(),
    ensures
        split(s, sep)[i][j] != sep,
    decreases s.len(),
{
    if s.len() > 0 {
        let before = split(s.drop_last(), sep);
        law_split_gives_a_field(s.drop_last(), sep);
        if s.last() == sep {
            if i < before.len() {
                law_fields_hold_no_separator(s.drop_last(), sep, i, j);
            }
        } else {
            if i < before.len() - 1 {
                law_fields_hold_no_separator(s.drop_last(), sep, i, j);
            } else if j < before.last().len() {
                law_fields_hold_no_separator(s.drop_last(), sep, i, j);
            }
        }
    }
}

} // verus!
