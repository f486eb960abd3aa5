//! Text primitives: white space, fields, lines, prefixes, decimal numbers.
//!
//! Every function here is specified over the sequence of characters that a
//! string holds, so that the parsers built on them can be stated exactly.
use vstd::prelude::*;
use vstd::string::*;

verus! {

/// Whether `c` is a white-space character (the Unicode `White_Space` property).
pub open spec fn is_whitespace(c: char) -> bool {
    let n = c as u32;
    ||| 0x09 <= n <= 0x0d
    ||| n == 0x20
    ||| n == 0x85
    ||| n == 0xa0
    ||| n == 0x1680
    ||| 0x2000 <= n <= 0x200a
    ||| n == 0x2028
    ||| n == 0x2029
    ||| n == 0x202f
    ||| n == 0x205f
    ||| n == 0x3000
}

/// The code of `c` with the ASCII upper-case letters folded onto the lower-case ones.
pub open spec fn fold_ascii_case(c: char) -> u32 {
    let n = c as u32;
    if 0x41 <= n <= 0x5a {
        (n + 0x20) as u32
    } else {
        n
    }
}

/// Equality of two texts up to the case of ASCII letters.
pub open spec fn eq_ignore_ascii_case(a: Seq<char>, b: Seq<char>) -> bool {
    &&& a.len() == b.len()
    &&& forall|i: int| 0 <= i < a.len() ==> fold_ascii_case(#[trigger] a[i]) == fold_ascii_case(b[i])
}

/// The first index at or after `i` whose character is white space (`ws` true)
/// or is not (`ws` false); the length of `s` when there is none.
pub open spec fn next_match(s: Seq<char>, i: int, ws: bool) -> int
    decreases s.len() - i,
{
    if 0 <= i < s.len() && is_whitespace(s[i]) != ws {
        next_match(s, i + 1, ws)
    } else {
        i
    }
}

/// The white-space separated fields of `s` that start at or after index `i`.
pub open spec fn fields_from(s: Seq<char>, i: int) -> Seq<Seq<char>>
    decreases s.len() - i,
{
    let start = next_match(s, i, false);
    let end = next_match(s, start, true);
    if 0 <= i <= start < end <= s.len() {
        seq![s.subrange(start, end)] + fields_from(s, end)
    } else {
        seq![]
    }
}

/// The maximal runs of characters of `s` that hold no white space, in order.
pub open spec fn fields(s: Seq<char>) -> Seq<Seq<char>> {
    fields_from(s, 0)
}

/// The first index at or after `i` that holds `sep`; the length of `s` when there is none.
pub open spec fn find_char(s: Seq<char>, sep: char, i: int) -> int
    decreases s.len() - i,
{
    if 0 <= i < s.len() && s[i] != sep {
        find_char(s, sep, i + 1)
    } else {
        i
    }
}

/// The pieces of `s` from index `i` on, cut at every `sep`.
pub open spec fn split_from(s: Seq<char>, sep: char, i: int) -> Seq<Seq<char>>
    decreases s.len() - i,
{
    let j = find_char(s, sep, i);
    if 0 <= i <= j < s.len() {
        seq![s.subrange(i, j)] + split_from(s, sep, j + 1)
    } else {
        seq![s.skip(i)]
    }
}

/// The pieces of `s` between the occurrences of `sep`: one more piece than
/// there are separators, empty pieces included.
pub open spec fn split(s: Seq<char>, sep: char) -> Seq<Seq<char>> {
    split_from(s, sep, 0)
}

/// `l` without one trailing carriage return.
pub open spec fn strip_cr(l: Seq<char>) -> Seq<char> {
    if l.len() > 0 && l.last() == '\r' {
        l.drop_last()
    } else {
        l
    }
}

/// The lines of `s`. A line ends at a line feed; a carriage return just
/// before that line feed belongs to the line ending. The text after the last
/// line feed is a line of its own unless it is empty.
pub open spec fn lines(s: Seq<char>) -> Seq<Seq<char>> {
    let pieces = split(s, '\n');
    let ended = pieces.drop_last().map_values(|l: Seq<char>| strip_cr(l));
    if pieces.last().len() == 0 {
        ended
    } else {
        ended.push(pieces.last())
    }
}

/// `s` without its leading and trailing white space.
pub open spec fn trim(s: Seq<char>) -> Seq<char> {
    let start = next_match(s, 0, false);
    s.subrange(start, trim_end(s, start))
}

/// The end of the last character at or after `start` that is no white space;
/// `start` when there is none.
pub open spec fn trim_end(s: Seq<char>, start: int) -> int
    decreases s.len(),
{
    if 0 <= start < s.len() && is_whitespace(s.last()) {
        trim_end(s.drop_last(), start)
    } else if 0 <= start < s.len() {
        s.len() as int
    } else {
        start
    }
}

/// The number of leading characters of `s` that equal `c`.
pub open spec fn leading(s: Seq<char>, c: char) -> int {
    find_other(s, c, 0)
}

/// The first index at or after `i` that does not hold `c`; the length of `s` when there is none.
pub open spec fn find_other(s: Seq<char>, c: char, i: int) -> int
    decreases s.len() - i,
{
    if 0 <= i < s.len() && s[i] == c {
        find_other(s, c, i + 1)
    } else {
        i
    }
}

/// The character that writes the decimal digit `d`.
pub open spec fn digit_char(d: nat) -> char {
    if d == 0 {
        '0'
    } else if d == 1 {
        '1'
    } else if d == 2 {
        '2'
    } else if d == 3 {
        '3'
    } else if d == 4 {
        '4'
    } else if d == 5 {
        '5'
    } else if d == 6 {
        '6'
    } else if d == 7 {
        '7'
    } else if d == 8 {
        '8'
    } else {
        '9'
    }
}

/// Whether `c` is one of the ten decimal digits.
pub open spec fn is_digit(c: char) -> bool {
    0x30 <= c as u32 <= 0x39
}

/// The value of the decimal digit `c`.
pub open spec fn digit_value(c: char) -> nat {
    (c as u32 - 0x30) as nat
}

/// `n` written in decimal, without sign or leading zeros.
pub open spec fn decimal(n: nat) -> Seq<char>
    decreases n,
{
    if n < 10 {
        seq![digit_char(n)]
    } else {
        decimal(n / 10).push(digit_char(n % 10))
    }
}

/// Whether every character of `s` is a decimal digit.
pub open spec fn all_digits(s: Seq<char>) -> bool {
    forall|i: int| 0 <= i < s.len() ==> is_digit(#[trigger] s[i])
}

/// The number that the digits of `s` write in decimal; 0 for the empty text.
pub open spec fn digits_value(s: Seq<char>) -> nat
    decreases s.len(),
{
    if s.len() == 0 {
        0
    } else {
        digits_value(s.drop_last()) * 10 + digit_value(s.last())
    }
}

/// The digits of a number literal: `s` without one leading plus sign.
pub open spec fn unsigned_digits(s: Seq<char>) -> Seq<char> {
    if s.len() > 0 && s[0] == '+' {
        s.skip(1)
    } else {
        s
    }
}

/// The number that `s` writes: an optional plus sign and then at least one
/// decimal digit, nothing else, with a value that a `usize` holds.
pub open spec fn parse_number(s: Seq<char>) -> Option<usize> {
    let digits = unsigned_digits(s);
    if digits.len() > 0 && all_digits(digits) && digits_value(digits) <= usize::MAX {
        Some(digits_value(digits) as usize)
    } else {
        None
    }
}

/// `root` followed by the relative path `rel`, with one separator between
/// them unless `root` is empty or already ends with one.
pub open spec fn join_path(root: Seq<char>, rel: Seq<char>) -> Seq<char> {
    if root.len() == 0 || root.last() == '/' {
        root + rel
    } else {
        root + seq!['/'] + rel
    }
}

/// Whether `c` is a white-space character.
pub fn char_is_whitespace(c: char) -> (b: bool)
    ensures
        b == is_whitespace(c),
{
    let n: u32 = c as u32;
    (0x09 <= n && n <= 0x0d) || n == 0x20 || n == 0x85 || n == 0xa0 || n == 0x1680 || (0x2000 <= n
        && n <= 0x200a) || n == 0x2028 || n == 0x2029 || n == 0x202f || n == 0x205f || n == 0x3000
}

fn fold_case(c: char) -> (n: u32)
    ensures
        n == fold_ascii_case(c),
{
    let n: u32 = c as u32;
    if 0x41 <= n && n <= 0x5a {
        n + 0x20
    } else {
        n
    }
}

/// The characters of `s`, in order.
pub fn chars_of(s: &str) -> (out: Vec<char>)
    ensures
        out@ == s@,
{
    let mut out: Vec<char> = Vec::new();
    for c in it: s.chars()
        invariant
            out@ == it.seq().take(it.index() as int),
            it.seq() == s@,
    {
        out.push(c);
    }
    out
}

/// The characters of `s` from index `from` up to `to`, as a string of their own.
pub(crate) fn slice_string(s: &str, from: usize, to: usize) -> (out: String)
    requires
        from <= to <= s@.len(),
    ensures
        out@ == s@.subrange(from as int, to as int),
{
    s.substring_char(from, to).to_owned()
}

/// Whether the two strings hold the same characters.
pub fn str_eq(a: &str, b: &str) -> (r: bool)
    ensures
        r == (a@ == b@),
{
    let x = chars_of(a);
    let y = chars_of(b);
    assert(x@.skip(0) =~= x@);
    chars_eq_from(&x, 0, &y)
}

/// Whether `s` from index `from` on holds exactly the characters of `t`.
pub(crate) fn chars_eq_from(s: &Vec<char>, from: usize, t: &Vec<char>) -> (r: bool)
    requires
        from <= s.len(),
    ensures
        r == (s@.skip(from as int) == t@),
{
    if s.len() - from != t.len() {
        return false;
    }
    let mut i: usize = 0;
    while i < t.len()
        invariant
            from <= s.len(),
            s.len() - from == t.len(),
            i <= t.len(),
            forall|k: int| 0 <= k < i ==> s@[from + k] == t@[k],
        decreases t.len() - i,
    {
        if s[from + i] != t[i] {
            return false;
        }
        i += 1;
    }
    assert(s@.skip(from as int) =~= t@);
    true
}

/// Whether `s` begins with the characters of `prefix`.
pub fn chars_start_with(s: &Vec<char>, prefix: &Vec<char>) -> (r: bool)
    ensures
        r == prefix@.is_prefix_of(s@),
{
    if prefix.len() > s.len() {
        return false;
    }
    let mut i: usize = 0;
    while i < prefix.len()
        invariant
            prefix.len() <= s.len(),
            i <= prefix.len(),
            forall|k: int| 0 <= k < i ==> s@[k] == prefix@[k],
        decreases prefix.len() - i,
    {
        if s[i] != prefix[i] {
            return false;
        }
        i += 1;
    }
    true
}

/// Whether `s` begins with `prefix`.
pub fn starts_with(s: &str, prefix: &str) -> (r: bool)
    ensures
        r == prefix@.is_prefix_of(s@),
{
    let x = chars_of(s);
    let p = chars_of(prefix);
    chars_start_with(&x, &p)
}

/// Whether the two strings are equal up to the case of ASCII letters.
pub fn str_eq_ignore_ascii_case(a: &str, b: &str) -> (r: bool)
    ensures
        r == eq_ignore_ascii_case(a@, b@),
{
    let x = chars_of(a);
    let y = chars_of(b);
    if x.len() != y.len() {
        return false;
    }
    let mut i: usize = 0;
    while i < x.len()
        invariant
            x.len() == y.len(),
            x@ == a@,
            y@ == b@,
            i <= x.len(),
            forall|k: int| 0 <= k < i ==> fold_ascii_case(#[trigger] a@[k]) == fold_ascii_case(b@[k]),
        decreases x.len() - i,
    {
        if fold_case(x[i]) != fold_case(y[i]) {
            return false;
        }
        i += 1;
    }
    true
}

/// The index that `next_match` names, found by scanning.
pub(crate) fn scan_whitespace(s: &Vec<char>, from: usize, ws: bool) -> (k: usize)
    requires
        from <= s.len(),
    ensures
        k == next_match(s@, from as int, ws),
        from <= k <= s.len(),
        k < s.len() ==> is_whitespace(s@[k as int]) == ws,
        forall|j: int| from <= j < k ==> is_whitespace(#[trigger] s@[j]) != ws,
{
    let mut k: usize = from;
    while k < s.len() && char_is_whitespace(s[k]) != ws
        invariant
            from <= k <= s.len(),
            next_match(s@, from as int, ws) == next_match(s@, k as int, ws),
            forall|j: int| from <= j < k ==> is_whitespace(#[trigger] s@[j]) != ws,
        decreases s.len() - k,
    {
        k += 1;
    }
    k
}

/// The index that `find_char` names, found by scanning.
pub(crate) fn scan_char(s: &Vec<char>, sep: char, from: usize) -> (k: usize)
    requires
        from <= s.len(),
    ensures
        k == find_char(s@, sep, from as int),
        from <= k <= s.len(),
        k < s.len() ==> s@[k as int] == sep,
{
    let mut k: usize = from;
    while k < s.len() && s[k] != sep
        invariant
            from <= k <= s.len(),
            find_char(s@, sep, from as int) == find_char(s@, sep, k as int),
        decreases s.len() - k,
    {
        k += 1;
    }
    k
}

/// The white-space separated fields of `s`.
pub fn split_whitespace(s: &str) -> (out: Vec<String>)
    ensures
        out.deep_view() == fields(s@),
{
    let cs = chars_of(s);
    let mut out: Vec<String> = Vec::new();
    let mut i: usize = 0;
    let mut start: usize = scan_whitespace(&cs, 0, false);
    while start < cs.len()
        invariant
            cs@ == s@,
            i <= start <= cs.len(),
            start == next_match(s@, i as int, false),
            start < cs.len() ==> !is_whitespace(s@[start as int]),
            out.deep_view() + fields_from(s@, i as int) == fields(s@),
        decreases cs.len() - i,
    {
        let end = scan_whitespace(&cs, start, true);
        let word = slice_string(s, start, end);
        out.push(word);
        i = end;
        start = scan_whitespace(&cs, end, false);
    }
    out
}

/// The pieces of `s` between the occurrences of `sep`.
pub fn split_at_char(s: &str, sep: char) -> (out: Vec<String>)
    ensures
        out.deep_view() == split(s@, sep),
        out.len() >= 1,
{
    let cs = chars_of(s);
    let mut out: Vec<String> = Vec::new();
    let mut i: usize = 0;
    let mut j: usize = scan_char(&cs, sep, 0);
    while j < cs.len()
        invariant
            cs@ == s@,
            i <= j <= cs.len(),
            j == find_char(s@, sep, i as int),
            out.deep_view() + split_from(s@, sep, i as int) == split(s@, sep),
        decreases cs.len() - i,
    {
        let piece = slice_string(s, i, j);
        out.push(piece);
        i = j + 1;
        j = scan_char(&cs, sep, i);
    }
    let rest = slice_string(s, i, cs.len());
    out.push(rest);
    out
}

/// `s` without one trailing carriage return.
pub fn without_cr(s: &str) -> (out: String)
    ensures
        out@ == strip_cr(s@),
{
    let n = s.unicode_len();
    if n > 0 && s.get_char(n - 1) == '\r' {
        slice_string(s, 0, n - 1)
    } else {
        s.to_owned()
    }
}

/// The lines of `s`.
pub fn split_lines(s: &str) -> (out: Vec<String>)
    ensures
        out.deep_view() == lines(s@),
{
    let pieces = split_at_char(s, '\n');
    let n = pieces.len();
    let ghost ended = pieces.deep_view().drop_last().map_values(|l: Seq<char>| strip_cr(l));
    let mut out: Vec<String> = Vec::new();
    let mut i: usize = 0;
    while i + 1 < n
        invariant
            n == pieces.len(),
            n >= 1,
            i + 1 <= n,
            ended == pieces.deep_view().drop_last().map_values(|l: Seq<char>| strip_cr(l)),
            out.deep_view() =~= ended.take(i as int),
        decreases n - i,
    {
        let line = without_cr(pieces[i].as_str());
        out.push(line);
        assert(ended.take(i + 1) =~= ended.take(i as int).push(ended[i as int]));
        i += 1;
    }
    let last = &pieces[n - 1];
    if last.as_str().unicode_len() > 0 {
        let ghost before = out.deep_view();
        out.push(last.clone());
        assert(out.deep_view() =~= before.push(last@));
    }
    out
}

/// `s` without its leading and trailing white space.
pub fn trimmed(s: &str) -> (out: String)
    ensures
        out@ == trim(s@),
{
    let cs = chars_of(s);
    let start = scan_whitespace(&cs, 0, false);
    let mut end: usize = cs.len();
    assert(s@.take(end as int) =~= s@);
    while end > start && char_is_whitespace(cs[end - 1])
        invariant
            cs@ == s@,
            start <= end <= cs.len(),
            trim_end(s@, start as int) == trim_end(s@.take(end as int), start as int),
        decreases end,
    {
        assert(s@.take(end as int).drop_last() =~= s@.take(end - 1));
        end -= 1;
    }
    slice_string(s, start, end)
}

/// `s` without its leading characters `c`.
pub fn strip_leading(s: &str, c: char) -> (out: String)
    ensures
        out@ == s@.skip(leading(s@, c)),
{
    let cs = chars_of(s);
    let mut k: usize = 0;
    while k < cs.len() && cs[k] == c
        invariant
            k <= cs.len(),
            cs@ == s@,
            find_other(s@, c, 0) == find_other(s@, c, k as int),
        decreases cs.len() - k,
    {
        k += 1;
    }
    slice_string(s, k, cs.len())
}

/// A longer run of digits writes a number at least as large as each of its
/// beginnings does.
pub proof fn lemma_digits_value_grows(s: Seq<char>, k: int)
    requires
        0 <= k <= s.len(),
    ensures
        digits_value(s.take(k)) <= digits_value(s),
    decreases s.len() - k,
{
    if k == s.len() {
        assert(s.take(k) =~= s);
    } else {
        lemma_digits_value_grows(s, k + 1);
        assert(s.take(k + 1).drop_last() =~= s.take(k));
    }
}

/// The number that `s` writes in decimal, if it writes one that fits.
pub fn parse_usize(s: &str) -> (r: Option<usize>)
    ensures
        r == parse_number(s@),
{
    let cs = chars_of(s);
    let first: usize = if cs.len() > 0 && cs[0] == '+' {
        1
    } else {
        0
    };
    let ghost digits = unsigned_digits(s@);
    if first == cs.len() {
        return None;
    }
    let mut acc: usize = 0;
    let mut i: usize = first;
    while i < cs.len()
        invariant
            cs@ == s@,
            first <= i <= cs.len(),
            digits == s@.skip(first as int),
            digits == unsigned_digits(s@),
            all_digits(digits.take(i - first)),
            acc == digits_value(digits.take(i - first)),
        decreases cs.len() - i,
    {
        let n: u32 = cs[i] as u32;
        let ghost k = i - first;
        if n < 0x30 || n > 0x39 {
            assert(!is_digit(digits[k]));
            return None;
        }
        let d: usize = (n - 0x30) as usize;
        assert(digits.take(k + 1).drop_last() =~= digits.take(k));
        if acc > (usize::MAX - d) / 10 {
            proof {
                lemma_digits_value_grows(digits, k + 1);
            }
            return None;
        }
        acc = acc * 10 + d;
        i += 1;
    }
    assert(digits.take(i - first) =~= digits);
    Some(acc)
}

fn digit_str(d: usize) -> (s: &'static str)
    requires
        d < 10,
    ensures
        s@ == seq![digit_char(d as nat)],
{
    proof {
        reveal_strlit("0");
        reveal_strlit("1");
        reveal_strlit("2");
        reveal_strlit("3");
        reveal_strlit("4");
        reveal_strlit("5");
        reveal_strlit("6");
        reveal_strlit("7");
        reveal_strlit("8");
        reveal_strlit("9");
    }
    if d == 0 {
        "0"
    } else if d == 1 {
        "1"
    } else if d == 2 {
        "2"
    } else if d == 3 {
        "3"
    } else if d == 4 {
        "4"
    } else if d == 5 {
        "5"
    } else if d == 6 {
        "6"
    } else if d == 7 {
        "7"
    } else if d == 8 {
        "8"
    } else {
        "9"
    }
}

/// Appends `n`, written in decimal, to `out`.
pub fn push_decimal(out: &mut String, n: usize)
    ensures
        final(out)@ == old(out)@ + decimal(n as nat),
    decreases n,
{
    if n >= 10 {
        push_decimal(out, n / 10);
    }
    out.append(digit_str(n % 10));
}

/// `n` written in decimal.
pub fn decimal_string(n: usize) -> (out: String)
    ensures
        out@ == decimal(n as nat),
{
    let mut out = String::new();
    push_decimal(&mut out, n);
    out
}

/// `root` followed by the relative path `rel`.
pub fn path_join(root: &str, rel: &str) -> (out: String)
    ensures
        out@ == join_path(root@, rel@),
{
    let n = root.unicode_len();
    let mut out = root.to_owned();
    if n > 0 && root.get_char(n - 1) != '/' {
        proof {
            reveal_strlit("/");
        }
        out.append("/");
    }
    out.append(rel);
    out
}

/// What is written is read back: the decimal writing of a number consists
/// of digits only, and they write that number.
pub proof fn lemma_decimal_is_read_back(n: nat)
    ensures
        decimal(n).len() > 0,
        all_digits(decimal(n)),
        digits_value(decimal(n)) == n,
        n <= usize::MAX ==> parse_number(decimal(n)) == Some(n as usize),
    decreases n,
{
    let d = decimal(n);
    if n < 10 {
        assert(digits_value(d.drop_last()) == 0);
    } else {
        lemma_decimal_is_read_back(n / 10);
        let front = decimal(n / 10);
        assert(d.drop_last() =~= front);
    }
}

/// Two numbers that are written alike are the same number.
pub proof fn lemma_decimal_distinguishes(a: nat, b: nat)
    requires
        decimal(a) == decimal(b),
    ensures
        a == b,
{
    lemma_decimal_is_read_back(a);
    lemma_decimal_is_read_back(b);
}

} // verus!
