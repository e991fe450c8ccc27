//! Character-level groundwork: white space, trimming and line boundaries.

use vstd::prelude::*;

verus! {

/// Whether Unicode counts `c` as white space (`White_Space`).
pub open spec fn is_space(c: char) -> bool {
    let u = c as u32;
    ||| 0x09 <= u <= 0x0D
    ||| u == 0x20
    ||| u == 0x85
    ||| u == 0xA0
    ||| u == 0x1680
    ||| 0x2000 <= u <= 0x200A
    ||| u == 0x2028
    ||| u == 0x2029
    ||| u == 0x202F
    ||| u == 0x205F
    ||| u == 0x3000
}

/// `s` without its leading white space.
pub open spec fn trim_start(s: Seq<char>) -> Seq<char>
    decreases s.len(),
{
    if s.len() > 0 && is_space(s[0]) {
        trim_start(s.skip(1))
    } else {
        s
    }
}

/// `s` without its trailing white space.
pub open spec fn trim_end(s: Seq<char>) -> Seq<char>
    decreases s.len(),
{
    if s.len() > 0 && is_space(s.last()) {
        trim_end(s.drop_last())
    } else {
        s
    }
}

/// `s` without the white space at either end.
pub open spec fn trim(s: Seq<char>) -> Seq<char> {
    trim_end(trim_start(s))
}

/// Length of the first line of `s`: the index of its first line feed, or
/// the length of `s` if it holds none.
pub open spec fn line_end(s: Seq<char>) -> int
    decreases s.len(),
{
    if s.len() == 0 || s[0] == '\n' {
        0
    } else {
        1 + line_end(s.skip(1))
    }
}

/// `line` without the carriage return at its end, if it has one.
pub open spec fn strip_cr(line: Seq<char>) -> Seq<char> {
    if line.len() > 0 && line.last() == '\r' {
        line.drop_last()
    } else {
        line
    }
}

/// The lines of `s`. A line ends at a line feed, or at the end of `s`. The
/// line feed is not part of the line, nor is a carriage return just before
/// it. A text that ends in a line feed has no further, empty line after it.
pub open spec fn lines_of(s: Seq<char>) -> Seq<Seq<char>>
    decreases s.len(),
{
    if s.len() == 0 {
        Seq::empty()
    } else {
        let k = line_end(s);
        if 0 <= k < s.len() {
            seq![strip_cr(s.take(k))] + lines_of(s.skip(k + 1))
        } else {
            seq![s]
        }
    }
}

/// Number of lines in `s`.
pub open spec fn line_count(s: Seq<char>) -> nat {
    lines_of(s).len()
}

/// `lines` put together again, with a line feed between each two.
pub open spec fn join_lines(lines: Seq<Seq<char>>) -> Seq<char>
    decreases lines.len(),
{
    if lines.len() == 0 {
        Seq::empty()
    } else if lines.len() == 1 {
        lines[0]
    } else {
        join_lines(lines.drop_last()) + seq!['\n'] + lines.last()
    }
}

/// The character for the digit `d`.
pub open spec fn digit_char(d: int) -> char
    recommends
        0 <= d <= 9,
{
    ('0' as int + d) as char
}

/// Decimal digits of `n`, most significant first, without leading zeros.
pub open spec fn decimal_digits(n: nat) -> Seq<char>
    decreases n,
{
    if n < 10 {
        seq![digit_char(n as int)]
    } else {
        decimal_digits(n / 10).push(digit_char((n % 10) as int))
    }
}

/// Decimal notation of `n`, with a minus sign if it is negative.
pub open spec fn decimal(n: int) -> Seq<char> {
    if n < 0 {
        seq!['-'] + decimal_digits((-n) as nat)
    } else {
        decimal_digits(n as nat)
    }
}

/// The first line ends inside the text, holds no line feed, and is followed
/// by one unless it runs to the end of the text.
pub proof fn lemma_line_end(s: Seq<char>)
    ensures
        0 <= line_end(s) <= s.len(),
        forall|i: int| 0 <= i < line_end(s) ==> s[i] != '\n',
        line_end(s) < s.len() ==> s[line_end(s)] == '\n',
    decreases s.len(),
{
    if s.len() == 0 || s[0] == '\n' {
    } else {
        let rest = s.skip(1);
        lemma_line_end(rest);
        assert forall|i: int| 0 <= i < line_end(s) implies s[i] != '\n' by {
            if i > 0 {
                assert(s[i] == rest[i - 1]);
            }
        }
    }
}

/// Trimming at the start leaves the end of the text, and what is left does
/// not start with white space.
pub proof fn lemma_trim_start(s: Seq<char>)
    ensures
        trim_start(s).len() <= s.len(),
        trim_start(s) == s.skip(s.len() - trim_start(s).len()),
        trim_start(s).len() > 0 ==> !is_space(trim_start(s)[0]),
    decreases s.len(),
{
    if s.len() > 0 && is_space(s[0]) {
        lemma_trim_start(s.skip(1));
    }
}

/// Trimming at the end leaves the start of the text, and what is left does
/// not end in white space.
pub proof fn lemma_trim_end(s: Seq<char>)
    ensures
        trim_end(s).len() <= s.len(),
        trim_end(s) == s.take(trim_end(s).len() as int),
        trim_end(s).len() > 0 ==> !is_space(trim_end(s).last()),
    decreases s.len(),
{
    if s.len() > 0 && is_space(s.last()) {
        lemma_trim_end(s.drop_last());
    }
}

/// A trimmed text is a stretch of the text it was made from, has no white
/// space at either end, and trimming it again changes nothing.
pub proof fn lemma_trim(s: Seq<char>)
    ensures
        trim(s).len() <= s.len(),
        forall|i: int| 0 <= i < trim(s).len() ==> s.contains(#[trigger] trim(s)[i]),
        trim(s).len() > 0 ==> !is_space(trim(s)[0]) && !is_space(trim(s).last()),
        trim(trim(s)) == trim(s),
{
    lemma_trim_start(s);
    lemma_trim_end(trim_start(s));
}

/// White space added at the end of a text is trimmed away with the rest.
pub proof fn lemma_trim_ignores_trailing_space(s: Seq<char>, c: char)
    requires
        is_space(c),
    ensures
        trim(s.push(c)) == trim(s),
{
    lemma_trim_start_push(s, c);
    if trim_start(s).len() > 0 {
        assert(trim_start(s).push(c).drop_last() =~= trim_start(s));
    }
}

/// Trimming a text that ends in white space at the start: the white space
/// at the end stays unless nothing else is left.
proof fn lemma_trim_start_push(s: Seq<char>, c: char)
    requires
        is_space(c),
    ensures
        trim_start(s.push(c)) == if trim_start(s).len() == 0 {
            Seq::<char>::empty()
        } else {
            trim_start(s).push(c)
        },
    decreases s.len(),
{
    let longer = s.push(c);
    if s.len() == 0 {
        assert(trim_start(longer.skip(1)) =~= Seq::<char>::empty());
    } else if is_space(s[0]) {
        assert(longer.skip(1) =~= s.skip(1).push(c));
        lemma_trim_start_push(s.skip(1), c);
    }
}

/// Tells whether Unicode counts `c` as white space.
pub fn is_whitespace(c: char) -> (b: bool)
    ensures
        b == is_space(c),
{
    let u: u32 = c as u32;
    (0x09 <= u && u <= 0x0D) || u == 0x20 || u == 0x85 || u == 0xA0 || u == 0x1680 || (0x2000 <= u
        && u <= 0x200A) || u == 0x2028 || u == 0x2029 || u == 0x202F || u == 0x205F || u == 0x3000
}

/// The characters of `s`, in order.
pub fn chars_of(s: &str) -> (v: Vec<char>)
    ensures
        v@ == s@,
{
    let mut v: Vec<char> = Vec::new();
    let chars = s.chars();
    for c in it: chars
        invariant
            it.seq() == s@,
            v@ == s@.take(it.index()),
    {
        v.push(c);
    }
    v
}

/// Narrows the range `lo..hi` of `chars` to what is left of it once the white
/// space at both ends is gone.
pub fn trim_bounds(chars: &Vec<char>, lo: usize, hi: usize) -> (r: (usize, usize))
    requires
        lo <= hi <= chars.len(),
    ensures
        lo <= r.0 <= r.1 <= hi,
        chars@.subrange(r.0 as int, r.1 as int) == trim(chars@.subrange(lo as int, hi as int)),
{
    let mut a: usize = lo;
    while a < hi && is_whitespace(chars[a])
        invariant
            lo <= a <= hi <= chars.len(),
            trim_start(chars@.subrange(lo as int, hi as int)) == trim_start(
                chars@.subrange(a as int, hi as int),
            ),
        decreases hi - a,
    {
        assert(chars@.subrange(a as int, hi as int).skip(1) =~= chars@.subrange(
            a + 1,
            hi as int,
        ));
        a += 1;
    }
    let mut b: usize = hi;
    while b > a && is_whitespace(chars[b - 1])
        invariant
            a <= b <= hi <= chars.len(),
            trim_end(chars@.subrange(a as int, hi as int)) == trim_end(
                chars@.subrange(a as int, b as int),
            ),
        decreases b - a,
    {
        assert(chars@.subrange(a as int, b as int).drop_last() =~= chars@.subrange(
            a as int,
            b - 1,
        ));
        b -= 1;
    }
    (a, b)
}

/// Finds where the line that starts at `from` ends: at the next line feed,
/// or at the end of `chars`.
pub fn find_line_end(chars: &Vec<char>, from: usize) -> (k: usize)
    requires
        from <= chars.len(),
    ensures
        from <= k <= chars.len(),
        k - from == line_end(chars@.skip(from as int)),
{
    let mut k: usize = from;
    while k < chars.len() && chars[k] != '\n'
        invariant
            from <= k <= chars.len(),
            line_end(chars@.skip(from as int)) == (k - from) + line_end(chars@.skip(k as int)),
        decreases chars.len() - k,
    {
        assert(chars@.skip(k as int).skip(1) =~= chars@.skip(k + 1));
        k += 1;
    }
    k
}

/// `String::push` appends the character to the end of the string.
pub assume_specification[ String::push ](s: &mut String, ch: char)
    ensures
        final(s)@ == old(s)@.push(ch),
;

/// Makes a string of the characters of `chars` from `lo` up to `hi`.
pub fn string_from_range(chars: &Vec<char>, lo: usize, hi: usize) -> (s: String)
    requires
        lo <= hi <= chars.len(),
    ensures
        s@ == chars@.subrange(lo as int, hi as int),
{
    let mut s = String::new();
    let mut i: usize = lo;
    while i < hi
        invariant
            lo <= i <= hi <= chars.len(),
            s@ == chars@.subrange(lo as int, i as int),
        decreases hi - i,
    {
        s.push(chars[i]);
        i += 1;
    }
    s
}

/// Splits `text` into its lines.
pub fn split_lines(text: &str) -> (lines: Vec<String>)
    ensures
        lines.deep_view() == lines_of(text@),
{
    let chars = chars_of(text);
    let mut lines: Vec<String> = Vec::new();
    let mut pos: usize = 0;
    assert(text@.skip(0) =~= text@);
    while pos < chars.len()
        invariant
            pos <= chars.len(),
            chars@ == text@,
            lines_of(text@) == lines.deep_view() + lines_of(text@.skip(pos as int)),
        decreases chars.len() - pos,
    {
        let k = find_line_end(&chars, pos);
        let ghost rest = text@.skip(pos as int);
        if k >= chars.len() {
            lines.push(string_from_range(&chars, pos, k));
            pos = k;
        } else {
            let end: usize = if k > pos && chars[k - 1] == '\r' {
                k - 1
            } else {
                k
            };
            assert(strip_cr(rest.take(k - pos)) =~= chars@.subrange(pos as int, end as int));
            assert(rest.skip(k - pos + 1) =~= text@.skip(k + 1));
            lines.push(string_from_range(&chars, pos, end));
            pos = k + 1;
        }
    }
    lines
}

/// The character for the digit `d`.
fn digit(d: u8) -> (c: char)
    requires
        d <= 9,
    ensures
        c == digit_char(d as int),
{
    match d {
        0 => '0',
        1 => '1',
        2 => '2',
        3 => '3',
        4 => '4',
        5 => '5',
        6 => '6',
        7 => '7',
        8 => '8',
        _ => '9',
    }
}

/// Appends the decimal digits of `n` to `out`.
pub fn push_digits(out: &mut String, n: u128)
    ensures
        final(out)@ == old(out)@ + decimal_digits(n as nat),
    decreases n,
{
    if n >= 10 {
        push_digits(out, n / 10);
    }
    out.push(digit((n % 10) as u8));
}

/// Writes the count `n` in decimal notation.
pub fn count_string(n: usize) -> (s: String)
    ensures
        s@ == decimal_digits(n as nat),
{
    let mut s = String::new();
    push_digits(&mut s, n as u128);
    s
}

/// Writes `n` in decimal notation.
pub fn decimal_string(n: i32) -> (s: String)
    ensures
        s@ == decimal(n as int),
{
    let wide: i64 = n as i64;
    let mut s = String::new();
    if wide < 0 {
        s.push('-');
        push_digits(&mut s, (-wide) as u128);
    } else {
        push_digits(&mut s, wide as u128);
    }
    s
}

/// Counts the lines of `text`.
pub fn count_lines(text: &str) -> (n: usize)
    ensures
        n == line_count(text@),
{
    let chars = chars_of(text);
    let mut pos: usize = 0;
    let mut n: usize = 0;
    assert(text@.skip(0) =~= text@);
    while pos < chars.len()
        invariant
            n <= pos <= chars.len(),
            chars@ == text@,
            line_count(text@) == n + line_count(text@.skip(pos as int)),
        decreases chars.len() - pos,
    {
        let k = find_line_end(&chars, pos);
        n += 1;
        if k >= chars.len() {
            pos = chars.len();
        } else {
            assert(text@.skip(pos as int).skip(k - pos + 1) =~= text@.skip(k + 1));
            pos = k + 1;
        }
    }
    n
}

} // verus!
