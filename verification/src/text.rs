//! Character sequences: decimal rendering, joining, line splitting and
//! substring search, each with its mathematical counterpart.

use vstd::prelude::*;
use vstd::string::StringExecFns;

verus! {

/// The character for a single decimal digit.
pub open spec fn digit_char(d: nat) -> char {
    if d == 0 {
        '0'
    } else if d == 1 {
        '1'
    } else if d == 2 {
        '2'
    } else if d == 3 {
        '3'
    } else if d == 4 {
        '4'
    } else if d == 5 {
        '5'
    } else if d == 6 {
        '6'
    } else if d == 7 {
        '7'
    } else if d == 8 {
        '8'
    } else {
        '9'
    }
}

/// The decimal numeral of `n`, without sign or leading zeros.
pub open spec fn decimal(n: nat) -> Seq<char>
    decreases n,
{
    if n < 10 {
        seq![digit_char(n)]
    } else {
        decimal(n / 10).push(digit_char(n % 10))
    }
}

/// The decimal numeral of `n`, padded with a zero to at least two digits.
pub open spec fn decimal2(n: nat) -> Seq<char> {
    if n < 10 {
        seq!['0'] + decimal(n)
    } else {
        decimal(n)
    }
}

/// `parts` written one after another with `sep` between neighbours.
pub open spec fn join(parts: Seq<Seq<char>>, sep: Seq<char>) -> Seq<char>
    decreases parts.len(),
{
    if parts.len() == 0 {
        Seq::empty()
    } else if parts.len() == 1 {
        parts[0]
    } else {
        join(parts.drop_last(), sep) + sep + parts.last()
    }
}

fn digit_str(d: u64) -> (r: &'static str)
    requires
        d < 10,
    ensures
        r@ == seq![digit_char(d as nat)],
{
    proof {
        reveal_strlit("0");
        reveal_strlit("1");
        reveal_strlit("2");
        reveal_strlit("3");
        reveal_strlit("4");
        reveal_strlit("5");
        reveal_strlit("6");
        reveal_strlit("7");
        reveal_strlit("8");
        reveal_strlit("9");
    }
    let r = if d == 0 {
        "0"
    } else if d == 1 {
        "1"
    } else if d == 2 {
        "2"
    } else if d == 3 {
        "3"
    } else if d == 4 {
        "4"
    } else if d == 5 {
        "5"
    } else if d == 6 {
        "6"
    } else if d == 7 {
        "7"
    } else if d == 8 {
        "8"
    } else {
        "9"
    };
    assert(r@ =~= seq![digit_char(d as nat)]);
    r
}

/// Appends the decimal numeral of `n` to `out`.
pub fn push_decimal(out: &mut String, n: u64)
    ensures
        final(out)@ == old(out)@ + decimal(n as nat),
    decreases n,
{
    if n >= 10 {
        push_decimal(out, n / 10);
    }
    out.append(digit_str(n % 10));
    assert(final(out)@ =~= old(out)@ + decimal(n as nat));
}

/// Appends the numeral of `n`, zero-padded to two digits, to `out`.
pub fn push_decimal2(out: &mut String, n: u64)
    ensures
        final(out)@ == old(out)@ + decimal2(n as nat),
{
    if n < 10 {
        proof {
            reveal_strlit("0");
        }
        out.append("0");
    }
    push_decimal(out, n);
    assert(final(out)@ =~= old(out)@ + decimal2(n as nat));
}

/// The decimal numeral of `n` as a string.
pub fn decimal_string(n: u64) -> (r: String)
    ensures
        r@ == decimal(n as nat),
{
    let mut out = String::new();
    push_decimal(&mut out, n);
    assert(out@ =~= decimal(n as nat));
    out
}

/// The concatenation of `a` and `b` as a new string.
pub fn concat2(a: &str, b: &str) -> (r: String)
    ensures
        r@ == a@ + b@,
{
    let mut out = String::from_str(a);
    out.append(b);
    out
}

/// The concatenation of `a`, `b` and `c` as a new string.
pub fn concat3(a: &str, b: &str, c: &str) -> (r: String)
    ensures
        r@ == a@ + b@ + c@,
{
    let mut out = String::from_str(a);
    out.append(b);
    out.append(c);
    out
}

/// The characters of `s`, in order.
pub fn chars_of(s: &str) -> (v: Vec<char>)
    ensures
        v@ == s@,
{
    let mut v: Vec<char> = Vec::new();
    for c in it: s.chars()
        invariant
            it.seq() == s@,
            v@ == s@.take(it.index() as int),
    {
        v.push(c);
    }
    v
}

// ---------------------------------------------------------------------
// Substring search
// ---------------------------------------------------------------------

/// `needle` stands in `hay` at position `at`.
pub open spec fn occurs_at(hay: Seq<char>, needle: Seq<char>, at: int) -> bool {
    0 <= at && at + needle.len() <= hay.len() && hay.subrange(at, at + needle.len()) == needle
}

/// `needle` stands somewhere in `hay`. The empty sequence stands in every
/// sequence.
pub open spec fn contains(hay: Seq<char>, needle: Seq<char>) -> bool {
    exists|at: int| occurs_at(hay, needle, at)
}

fn matches_at(hay: &Vec<char>, needle: &Vec<char>, at: usize) -> (b: bool)
    requires
        at + needle.len() <= hay.len(),
    ensures
        b == occurs_at(hay@, needle@, at as int),
{
    let mut k: usize = 0;
    while k < needle.len()
        invariant
            k <= needle.len(),
            at + needle.len() <= hay.len(),
            forall|j: int| 0 <= j < k ==> hay@[at + j] == needle@[j],
        decreases needle.len() - k,
    {
        if hay[at + k] != needle[k] {
            assert(hay@.subrange(at as int, at + needle.len())[k as int] != needle@[k as int]);
            return false;
        }
        k += 1;
    }
    assert(hay@.subrange(at as int, at + needle.len()) =~= needle@);
    true
}

/// Whether `needle` stands somewhere in `hay`.
pub fn contains_chars(hay: &Vec<char>, needle: &Vec<char>) -> (b: bool)
    ensures
        b == contains(hay@, needle@),
{
    if needle.len() > hay.len() {
        return false;
    }
    let last: usize = hay.len() - needle.len();
    let mut at: usize = 0;
    loop
        invariant
            last == hay.len() - needle.len(),
            at <= last,
            forall|i: int| 0 <= i < at ==> !occurs_at(hay@, needle@, i),
        decreases last - at,
    {
        if matches_at(hay, needle, at) {
            return true;
        }
        if at == last {
            return false;
        }
        at += 1;
    }
}

/// Whether `needle` stands somewhere in `hay`.
pub fn str_contains(hay: &str, needle: &str) -> (b: bool)
    ensures
        b == contains(hay@, needle@),
{
    let h = chars_of(hay);
    let n = chars_of(needle);
    contains_chars(&h, &n)
}

// ---------------------------------------------------------------------
// Lines
// ---------------------------------------------------------------------

/// The position of the first line feed in `s`, or the length of `s` where
/// it holds none.
pub open spec fn first_newline(s: Seq<char>) -> int
    decreases s.len(),
{
    if s.len() == 0 || s[0] == '\n' {
        0
    } else {
        1 + first_newline(s.drop_first())
    }
}

/// `s` without one carriage return at its end, if it ends in one.
pub open spec fn strip_cr(s: Seq<char>) -> Seq<char> {
    if s.len() > 0 && s.last() == '\r' {
        s.drop_last()
    } else {
        s
    }
}

/// The lines of `s`. A line ends at a line feed, or at a carriage return
/// directly followed by one; neither belongs to the line. A last line need
/// not be ended: what follows the last line feed is a line if it is not
/// empty, carriage return at its end included.
pub open spec fn lines(s: Seq<char>) -> Seq<Seq<char>>
    decreases s.len(),
{
    if s.len() == 0 {
        Seq::empty()
    } else {
        let i = first_newline(s);
        if 0 <= i < s.len() {
            seq![strip_cr(s.take(i))] + lines(s.skip(i + 1))
        } else {
            seq![s]
        }
    }
}

/// The last line of `s`, if it has any.
pub open spec fn last_line(s: Seq<char>) -> Option<Seq<char>> {
    if lines(s).len() > 0 {
        Some(lines(s).last())
    } else {
        None
    }
}

/// The last `limit` lines of `s`, or all of them where there are fewer.
pub open spec fn last_lines(s: Seq<char>, limit: nat) -> Seq<Seq<char>> {
    let all = lines(s);
    if all.len() > limit {
        all.skip(all.len() - limit)
    } else {
        all
    }
}

proof fn lemma_first_newline(s: Seq<char>, n: int)
    requires
        0 <= n <= s.len(),
        forall|k: int| 0 <= k < n ==> s[k] != '\n',
        n == s.len() || s[n] == '\n',
    ensures
        first_newline(s) == n,
    decreases n,
{
    if n > 0 {
        let rest = s.drop_first();
        assert forall|k: int| 0 <= k < n - 1 implies rest[k] != '\n' by {
            assert(rest[k] == s[k + 1]);
        }
        lemma_first_newline(rest, n - 1);
    }
}

/// The sequences that the pairs of `bounds` cut out of `chars`.
pub open spec fn cut(chars: Seq<char>, bounds: Seq<(usize, usize)>) -> Seq<Seq<char>> {
    Seq::new(bounds.len(), |k: int| chars.subrange(bounds[k].0 as int, bounds[k].1 as int))
}

/// Where the lines of `chars` start and end: one pair of positions for each
/// line, from its first character to behind its last.
pub fn line_bounds(chars: &Vec<char>) -> (bounds: Vec<(usize, usize)>)
    ensures
        cut(chars@, bounds@) == lines(chars@),
        forall|k: int|
            0 <= k < bounds@.len() ==> (#[trigger] bounds@[k]).0 <= bounds@[k].1 <= chars@.len(),
{
    let mut bounds: Vec<(usize, usize)> = Vec::new();
    let mut start: usize = 0;
    let n = chars.len();
    assert(chars@.skip(0) =~= chars@);
    assert(cut(chars@, bounds@) =~= Seq::<Seq<char>>::empty());
    while start < n
        invariant
            n == chars@.len(),
            start <= n,
            lines(chars@) == cut(chars@, bounds@) + lines(chars@.skip(start as int)),
            forall|k: int|
                0 <= k < bounds@.len() ==> (#[trigger] bounds@[k]).0 <= bounds@[k].1 <= n,
        decreases n - start,
    {
        let mut pos: usize = start;
        while pos < n && chars[pos] != '\n'
            invariant
                n == chars@.len(),
                start <= pos <= n,
                forall|k: int| start <= k < pos ==> chars@[k] != '\n',
            decreases n - pos,
        {
            pos += 1;
        }
        let ghost rest = chars@.skip(start as int);
        let ghost before = cut(chars@, bounds@);
        proof {
            lemma_first_newline(rest, pos - start);
        }
        if pos == n {
            bounds.push((start, n));
            proof {
                assert(chars@.subrange(start as int, n as int) =~= rest);
                assert(lines(rest) =~= seq![rest]);
                assert(lines(chars@.skip(n as int)) =~= Seq::<Seq<char>>::empty());
                assert(cut(chars@, bounds@) =~= before + seq![rest]);
                assert(lines(chars@) =~= cut(chars@, bounds@) + lines(chars@.skip(n as int)));
            }
            start = n;
        } else {
            let end: usize = if pos > start && chars[pos - 1] == '\r' {
                pos - 1
            } else {
                pos
            };
            bounds.push((start, end));
            proof {
                let line = rest.take(pos - start);
                assert(line =~= chars@.subrange(start as int, pos as int));
                assert(strip_cr(line) =~= chars@.subrange(start as int, end as int));
                assert(rest.skip(pos - start + 1) =~= chars@.skip(pos + 1));
                assert(lines(rest) =~= seq![strip_cr(line)] + lines(chars@.skip(pos + 1)));
                assert(cut(chars@, bounds@) =~= before + seq![strip_cr(line)]);
                assert(lines(chars@) =~= cut(chars@, bounds@) + lines(chars@.skip(pos + 1)));
            }
            start = pos + 1;
        }
    }
    proof {
        assert(lines(chars@.skip(n as int)) =~= Seq::<Seq<char>>::empty());
        assert(cut(chars@, bounds@) =~= lines(chars@));
    }
    bounds
}

proof fn lemma_join_step(parts: Seq<Seq<char>>, sep: Seq<char>, k: int)
    requires
        0 <= k < parts.len(),
    ensures
        join(parts.take(k + 1), sep) == if k == 0 {
            parts[0]
        } else {
            join(parts.take(k), sep) + sep + parts[k]
        },
{
    let head = parts.take(k + 1);
    assert(head.last() == parts[k]);
    assert(head.drop_last() =~= parts.take(k));
    if k == 0 {
        assert(head.len() == 1);
        assert(head[0] == parts[0]);
    }
}

/// The last `limit` lines of `text`, separated by line feeds.
pub fn tail_lines(text: &str, limit: usize) -> (r: String)
    ensures
        r@ == join(last_lines(text@, limit as nat), seq!['\n']),
{
    let chars = chars_of(text);
    let bounds = line_bounds(&chars);
    let total = bounds.len();
    let first: usize = if total > limit {
        total - limit
    } else {
        0
    };
    let ghost wanted = last_lines(text@, limit as nat);
    proof {
        reveal_strlit("\n");
        assert(wanted =~= lines(text@).skip(first as int));
    }
    let mut out = String::new();
    let mut i: usize = first;
    assert(wanted.take(0) =~= Seq::<Seq<char>>::empty());
    while i < total
        invariant
            chars@ == text@,
            total == bounds@.len(),
            first <= i <= total,
            cut(chars@, bounds@) == lines(text@),
            wanted == lines(text@).skip(first as int),
            forall|k: int|
                0 <= k < bounds@.len() ==> (#[trigger] bounds@[k]).0 <= bounds@[k].1
                    <= chars@.len(),
            out@ == join(wanted.take(i - first), seq!['\n']),
            "\n"@ == seq!['\n'],
        decreases total - i,
    {
        let (from, to) = bounds[i];
        assert(cut(chars@, bounds@)[i as int] == chars@.subrange(from as int, to as int));
        proof {
            lemma_join_step(wanted, seq!['\n'], i - first);
        }
        if i > first {
            out.append("\n");
        }
        out.append(text.substring_char(from, to));
        i += 1;
    }
    assert(wanted.take(total - first) =~= wanted);
    out
}

/// The last line of `text`, if it has any.
pub fn last_line_of(text: &str) -> (r: Option<String>)
    ensures
        match r {
            Some(line) => last_line(text@) == Some(line@),
            None => last_line(text@) is None,
        },
{
    let chars = chars_of(text);
    let bounds = line_bounds(&chars);
    if bounds.len() == 0 {
        None
    } else {
        let (from, to) = bounds[bounds.len() - 1];
        assert(cut(chars@, bounds@)[bounds@.len() - 1] == chars@.subrange(from as int, to as int));
        Some(String::from_str(text.substring_char(from, to)))
    }
}


// ---------------------------------------------------------------------
// Comparing and trimming
// ---------------------------------------------------------------------

/// Whether `a` and `b` are the same text.
pub fn same_text(a: &str, b: &str) -> (same: bool)
    ensures
        same == (a@ == b@),
{
    let x = chars_of(a);
    let y = chars_of(b);
    if x.len() != y.len() {
        return false;
    }
    let mut k: usize = 0;
    while k < x.len()
        invariant
            x@ == a@,
            y@ == b@,
            x@.len() == y@.len(),
            k <= x@.len(),
            forall|j: int| 0 <= j < k ==> x@[j] == y@[j],
        decreases x.len() - k,
    {
        if x[k] != y[k] {
            assert(x@[k as int] != y@[k as int]);
            return false;
        }
        k += 1;
    }
    assert(x@ =~= y@);
    true
}

/// Whether `c` is white space: a blank, a tab, a line or paragraph break,
/// or one of the other spacing characters of Unicode.
pub open spec fn is_space(c: char) -> bool {
    let n = c as u32;
    ||| 0x09 <= n <= 0x0D
    ||| n == 0x20
    ||| n == 0x85
    ||| n == 0xA0
    ||| n == 0x1680
    ||| 0x2000 <= n <= 0x200A
    ||| n == 0x2028
    ||| n == 0x2029
    ||| n == 0x202F
    ||| n == 0x205F
    ||| n == 0x3000
}

/// The number of white-space characters that `s` begins with.
pub open spec fn leading_spaces(s: Seq<char>) -> nat
    decreases s.len(),
{
    if s.len() > 0 && is_space(s[0]) {
        1 + leading_spaces(s.drop_first())
    } else {
        0
    }
}

/// `s` without the white space at its end.
pub open spec fn trim_end(s: Seq<char>) -> Seq<char>
    decreases s.len(),
{
    if s.len() > 0 && is_space(s.last()) {
        trim_end(s.drop_last())
    } else {
        s
    }
}

/// `s` without the white space at its beginning and at its end.
pub open spec fn trimmed(s: Seq<char>) -> Seq<char> {
    trim_end(s.skip(leading_spaces(s) as int))
}

fn space(c: char) -> (b: bool)
    ensures
        b == is_space(c),
{
    let n = c as u32;
    (0x09 <= n && n <= 0x0D) || n == 0x20 || n == 0x85 || n == 0xA0 || n == 0x1680 || (0x2000 <= n
        && n <= 0x200A) || n == 0x2028 || n == 0x2029 || n == 0x202F || n == 0x205F || n
        == 0x3000
}

proof fn lemma_leading_spaces(s: Seq<char>, n: int)
    requires
        0 <= n <= s.len(),
        forall|k: int| 0 <= k < n ==> is_space(s[k]),
        n == s.len() || !is_space(s[n]),
    ensures
        leading_spaces(s) == n,
    decreases n,
{
    if n > 0 {
        let rest = s.drop_first();
        assert forall|k: int| 0 <= k < n - 1 implies is_space(rest[k]) by {
            assert(rest[k] == s[k + 1]);
        }
        lemma_leading_spaces(rest, n - 1);
    }
}

proof fn lemma_trim_end(s: Seq<char>, n: int)
    requires
        0 <= n <= s.len(),
        forall|k: int| n <= k < s.len() ==> is_space(s[k]),
        n == 0 || !is_space(s[n - 1]),
    ensures
        trim_end(s) == s.take(n),
    decreases s.len() - n,
{
    if n < s.len() {
        let shorter = s.drop_last();
        lemma_trim_end(shorter, n);
        assert(shorter.take(n) =~= s.take(n));
    } else {
        assert(s.take(n) =~= s);
    }
}

/// `text` without the white space at its beginning and at its end.
pub fn trim_text(text: &str) -> (r: String)
    ensures
        r@ == trimmed(text@),
{
    let chars = chars_of(text);
    let n = chars.len();
    let mut from: usize = 0;
    while from < n && space(chars[from])
        invariant
            n == chars@.len(),
            from <= n,
            forall|k: int| 0 <= k < from ==> is_space(chars@[k]),
        decreases n - from,
    {
        from += 1;
    }
    let mut to: usize = n;
    while to > from && space(chars[to - 1])
        invariant
            n == chars@.len(),
            from <= to <= n,
            forall|k: int| to <= k < n ==> is_space(chars@[k]),
        decreases to,
    {
        to -= 1;
    }
    proof {
        lemma_leading_spaces(chars@, from as int);
        let rest = chars@.skip(from as int);
        lemma_trim_end(rest, to - from);
        assert(rest.take(to - from) =~= chars@.subrange(from as int, to as int));
    }
    String::from_str(text.substring_char(from, to))
}


/// The texts of `strings`, each as a character sequence.
pub open spec fn texts(strings: Seq<String>) -> Seq<Seq<char>> {
    Seq::new(strings.len(), |i: int| strings[i]@)
}

/// The texts of `parts` written one after another with `sep` between
/// neighbours.
pub fn join_strings(parts: &Vec<String>, sep: &str) -> (r: String)
    ensures
        r@ == join(texts(parts@), sep@),
{
    let mut out = String::new();
    let mut i: usize = 0;
    let ghost all = texts(parts@);
    assert(all.take(0) =~= Seq::<Seq<char>>::empty());
    while i < parts.len()
        invariant
            i <= parts@.len(),
            all == texts(parts@),
            out@ == join(all.take(i as int), sep@),
        decreases parts.len() - i,
    {
        proof {
            lemma_join_step(all, sep@, i as int);
        }
        if i > 0 {
            out.append(sep);
        }
        out.append(parts[i].as_str());
        i += 1;
    }
    assert(all.take(parts@.len() as int) =~= all);
    out
}


} // verus!
