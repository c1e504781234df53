//! Character-level string helpers the rest of the library is written with.
use vstd::prelude::*;
use vstd::string::*;

verus! {

/// Whether `c` carries the Unicode `White_Space` property, which `char::is_whitespace`
/// tests: the tab, line feed, vertical tab, form feed, carriage return, space, next line,
/// no-break space, ogham space mark, the spaces from en quad to hair space, the line and
/// paragraph separators, the narrow no-break space, the medium mathematical space and the
/// ideographic space.
pub open spec fn is_white_space(c: char) -> bool {
    let n = c as u32;
    ||| 0x9 <= n <= 0xD
    ||| n == 0x20
    ||| n == 0x85
    ||| n == 0xA0
    ||| n == 0x1680
    ||| 0x2000 <= n <= 0x200A
    ||| n == 0x2028
    ||| n == 0x2029
    ||| n == 0x202F
    ||| n == 0x205F
    ||| n == 0x3000
}

/// Whether `c` is white space, as [`is_white_space`] lists it.
pub(crate) fn char_is_whitespace(c: char) -> (b: bool)
    ensures
        b == is_white_space(c),
{
    let n = c as u32;
    (0x9 <= n && n <= 0xD) || n == 0x20 || n == 0x85 || n == 0xA0 || n == 0x1680 || (0x2000 <= n
        && n <= 0x200A) || n == 0x2028 || n == 0x2029 || n == 0x202F || n == 0x205F || n == 0x3000
}

/// Whether every character of `s` is ASCII.
pub open spec fn is_ascii_text(s: Seq<char>) -> bool {
    forall|i: int| 0 <= i < s.len() ==> (s[i] as u32) < 128
}

/// `c` with an ASCII uppercase letter turned into its lowercase one.
pub open spec fn ascii_lower(c: char) -> char {
    if 'A' <= c && c <= 'Z' {
        ((c as u32) + 32) as char
    } else {
        c
    }
}

/// `c` with an ASCII lowercase letter turned into its uppercase one.
pub open spec fn ascii_upper(c: char) -> char {
    if 'a' <= c && c <= 'z' {
        ((c as u32) - 32) as char
    } else {
        c
    }
}

/// `s` with every ASCII uppercase letter turned into its lowercase one.
pub open spec fn ascii_lowercase(s: Seq<char>) -> Seq<char> {
    s.map_values(|c: char| ascii_lower(c))
}

/// `s` with every ASCII lowercase letter turned into its uppercase one.
pub open spec fn ascii_uppercase(s: Seq<char>) -> Seq<char> {
    s.map_values(|c: char| ascii_upper(c))
}

/// Names `str::to_lowercase`: the string with every character replaced by its lowercase
/// mapping as the Unicode `Lowercase` property defines it.
pub uninterp spec fn lowercase(s: Seq<char>) -> Seq<char>;

/// `str::to_lowercase`.
///
/// Claims that the result is [`lowercase`] of `s`, and, for a text made of ASCII characters
/// only, that it maps `A` to `Z` onto `a` to `z` and keeps every other character, as the
/// documented Unicode mapping does for ASCII.
#[verifier::external_body]
pub(crate) fn to_lowercase(s: &str) -> (r: String)
    ensures
        r@ == lowercase(s@),
        is_ascii_text(s@) ==> r@ == ascii_lowercase(s@),
{
    s.to_lowercase()
}

/// Names `str::to_uppercase`: the string with every character replaced by its uppercase
/// mapping as the Unicode `Uppercase` property defines it.
pub uninterp spec fn uppercase(s: Seq<char>) -> Seq<char>;

/// `str::to_uppercase`.
///
/// Claims that the result is [`uppercase`] of `s`, and, for a text made of ASCII characters
/// only, that it maps `a` to `z` onto `A` to `Z` and keeps every other character, as the
/// documented Unicode mapping does for ASCII.
#[verifier::external_body]
pub(crate) fn to_uppercase(s: &str) -> (r: String)
    ensures
        r@ == uppercase(s@),
        is_ascii_text(s@) ==> r@ == ascii_uppercase(s@),
{
    s.to_uppercase()
}

/// `String::push`: appends one character.
#[verifier::external_body]
pub(crate) fn push_char(s: &mut String, c: char)
    ensures
        final(s)@ == old(s)@.push(c),
{
    s.push(c);
}

/// The characters of `s`, in order.
pub fn chars_of(s: &str) -> (v: Vec<char>)
    ensures
        v@ == s@,
{
    let n = s.unicode_len();
    let mut v: Vec<char> = Vec::new();
    let mut i: usize = 0;
    while i < n
        invariant
            n == s@.len(),
            i <= n,
            v@ == s@.subrange(0, i as int),
        decreases n - i,
    {
        v.push(s.get_char(i));
        i += 1;
        assert(v@ =~= s@.subrange(0, i as int));
    }
    assert(v@ =~= s@);
    v
}

/// The string made of the characters of `v[from..to]`.
pub fn string_of_range(v: &Vec<char>, from: usize, to: usize) -> (s: String)
    requires
        from <= to <= v@.len(),
    ensures
        s@ == v@.subrange(from as int, to as int),
{
    let mut s = String::new();
    let mut i: usize = from;
    while i < to
        invariant
            from <= i <= to <= v@.len(),
            s@ == v@.subrange(from as int, i as int),
        decreases to - i,
    {
        push_char(&mut s, v[i]);
        i += 1;
        assert(s@ =~= v@.subrange(from as int, i as int));
    }
    s
}

/// The characters `v[from..to]`.
pub fn chars_range(v: &Vec<char>, from: usize, to: usize) -> (r: Vec<char>)
    requires
        from <= to <= v@.len(),
    ensures
        r@ == v@.subrange(from as int, to as int),
{
    let mut r: Vec<char> = Vec::new();
    let mut i: usize = from;
    while i < to
        invariant
            from <= i <= to <= v@.len(),
            r@ == v@.subrange(from as int, i as int),
        decreases to - i,
    {
        r.push(v[i]);
        i += 1;
        assert(r@ =~= v@.subrange(from as int, i as int));
    }
    r
}

/// The string made of the characters of `v`.
pub fn string_of(v: &Vec<char>) -> (s: String)
    ensures
        s@ == v@,
{
    let s = string_of_range(v, 0, v.len());
    assert(v@.subrange(0, v@.len() as int) =~= v@);
    s
}

/// `a` followed by `b`.
pub fn concat(a: &str, b: &str) -> (r: String)
    ensures
        r@ == a@ + b@,
{
    let mut r = a.to_owned();
    r.append(b);
    r
}

/// `a`, then the character `c`, then `b`.
pub fn concat_with(a: &str, c: char, b: &str) -> (r: String)
    ensures
        r@ == a@.push(c) + b@,
{
    let mut r = a.to_owned();
    push_char(&mut r, c);
    r.append(b);
    r
}

/// Whether `a` and `b` hold the same characters.
pub fn str_eq(a: &str, b: &str) -> (r: bool)
    ensures
        r == (a@ == b@),
{
    let x = a.to_owned();
    let y = b.to_owned();
    x == y
}

/// Whether `a` and `b` hold the same characters.
pub fn chars_eq(a: &Vec<char>, b: &Vec<char>) -> (r: bool)
    ensures
        r == (a@ == b@),
{
    if a.len() != b.len() {
        return false;
    }
    let mut i: usize = 0;
    while i < a.len()
        invariant
            a@.len() == b@.len(),
            i <= a@.len(),
            forall|j: int| 0 <= j < i ==> a@[j] == b@[j],
        decreases a@.len() - i,
    {
        if a[i] != b[i] {
            return false;
        }
        i += 1;
    }
    assert(a@ =~= b@);
    true
}

/// Whether `s` begins with `prefix`.
pub open spec fn spec_starts_with(s: Seq<char>, prefix: Seq<char>) -> bool {
    prefix.len() <= s.len() && s.subrange(0, prefix.len() as int) == prefix
}

/// Whether `s` ends with `suffix`.
pub open spec fn spec_ends_with(s: Seq<char>, suffix: Seq<char>) -> bool {
    suffix.len() <= s.len() && s.subrange(s.len() - suffix.len(), s.len() as int) == suffix
}

/// Whether `s` holds `part` at position `at`.
pub open spec fn occurs_at(s: Seq<char>, part: Seq<char>, at: int) -> bool {
    0 <= at && at + part.len() <= s.len() && s.subrange(at, at + part.len()) == part
}

/// Whether `s` holds `part` at position `at`.
pub fn chars_occur_at(s: &Vec<char>, part: &Vec<char>, at: usize) -> (r: bool)
    ensures
        r == occurs_at(s@, part@, at as int),
{
    if at > s.len() || part.len() > s.len() - at {
        return false;
    }
    let n = s.len();
    let mut i: usize = 0;
    while i < part.len()
        invariant
            n == s@.len(),
            at + part@.len() <= s@.len(),
            i <= part@.len(),
            forall|j: int| 0 <= j < i ==> s@[at + j] == part@[j],
        decreases part@.len() - i,
    {
        if s[at + i] != part[i] {
            return false;
        }
        i += 1;
    }
    assert(s@.subrange(at as int, at + part@.len()) =~= part@);
    true
}

/// Whether `s` begins with `prefix`.
pub fn starts_with(s: &str, prefix: &str) -> (r: bool)
    ensures
        r == spec_starts_with(s@, prefix@),
{
    let sv = chars_of(s);
    let pv = chars_of(prefix);
    chars_occur_at(&sv, &pv, 0)
}

/// Whether `s` ends with `suffix`.
pub fn ends_with(s: &str, suffix: &str) -> (r: bool)
    ensures
        r == spec_ends_with(s@, suffix@),
{
    let sv = chars_of(s);
    let pv = chars_of(suffix);
    if pv.len() > sv.len() {
        return false;
    }
    chars_occur_at(&sv, &pv, sv.len() - pv.len())
}

/// Position of the first occurrence of `c` in `s` at or after `from`, if any.
pub open spec fn spec_find_from(s: Seq<char>, c: char, from: int) -> Option<int>
    decreases s.len() - from,
{
    if from < 0 || from >= s.len() {
        None
    } else if s[from] == c {
        Some(from)
    } else {
        spec_find_from(s, c, from + 1)
    }
}

/// What [`spec_find_from`] finds is the first occurrence.
pub proof fn lemma_find_from(s: Seq<char>, c: char, from: int)
    requires
        0 <= from,
    ensures
        match spec_find_from(s, c, from) {
            Some(i) => from <= i < s.len() && s[i] == c && forall|j: int|
                from <= j < i ==> s[j] != c,
            None => forall|j: int| from <= j < s.len() ==> s[j] != c,
        },
    decreases s.len() - from,
{
    if from < s.len() && s[from] != c {
        lemma_find_from(s, c, from + 1);
    }
}

/// Position of the first occurrence of `c` in `s[from..]`, if any.
pub fn find_char_from(s: &Vec<char>, c: char, from: usize) -> (r: Option<usize>)
    requires
        from <= s@.len(),
    ensures
        match r {
            Some(i) => spec_find_from(s@, c, from as int) == Some(i as int),
            None => spec_find_from(s@, c, from as int) is None,
        },
{
    let mut i: usize = from;
    while i < s.len()
        invariant
            from <= i <= s@.len(),
            spec_find_from(s@, c, from as int) == spec_find_from(s@, c, i as int),
        decreases s@.len() - i,
    {
        if s[i] == c {
            return Some(i);
        }
        i += 1;
    }
    None
}

/// Leading whitespace removed.
pub open spec fn spec_trim_start(s: Seq<char>) -> Seq<char>
    decreases s.len(),
{
    if s.len() > 0 && is_white_space(s[0]) {
        spec_trim_start(s.drop_first())
    } else {
        s
    }
}

/// Trailing whitespace removed.
pub open spec fn spec_trim_end(s: Seq<char>) -> Seq<char>
    decreases s.len(),
{
    if s.len() > 0 && is_white_space(s.last()) {
        spec_trim_end(s.drop_last())
    } else {
        s
    }
}

/// Leading and trailing whitespace removed, as `str::trim` does.
pub open spec fn spec_trim(s: Seq<char>) -> Seq<char> {
    spec_trim_end(spec_trim_start(s))
}

proof fn lemma_trim_start_skip(s: Seq<char>, i: int)
    requires
        0 <= i <= s.len(),
        forall|j: int| 0 <= j < i ==> is_white_space(s[j]),
    ensures
        spec_trim_start(s) == spec_trim_start(s.subrange(i, s.len() as int)),
    decreases i,
{
    if i > 0 {
        lemma_trim_start_skip(s.drop_first(), i - 1);
        assert(s.drop_first().subrange(i - 1, s.drop_first().len() as int) =~= s.subrange(
            i,
            s.len() as int,
        ));
    } else {
        assert(s.subrange(0, s.len() as int) =~= s);
    }
}

proof fn lemma_trim_end_skip(s: Seq<char>, k: int)
    requires
        0 <= k <= s.len(),
        forall|j: int| k <= j < s.len() ==> is_white_space(s[j]),
    ensures
        spec_trim_end(s) == spec_trim_end(s.subrange(0, k)),
    decreases s.len() - k,
{
    if k < s.len() {
        lemma_trim_end_skip(s.drop_last(), k);
        assert(s.drop_last().subrange(0, k) =~= s.subrange(0, k));
    } else {
        assert(s.subrange(0, k) =~= s);
    }
}

/// Bounds `(start, end)` such that `s[start..end]` is `s` trimmed of leading and trailing
/// whitespace.
pub fn trim_bounds(s: &Vec<char>) -> (r: (usize, usize))
    ensures
        r.0 <= r.1 <= s@.len(),
        s@.subrange(r.0 as int, r.1 as int) == spec_trim(s@),
{
    let mut start: usize = 0;
    while start < s.len() && char_is_whitespace(s[start])
        invariant
            start <= s@.len(),
            forall|j: int| 0 <= j < start ==> is_white_space(s@[j]),
        decreases s@.len() - start,
    {
        start += 1;
    }
    proof {
        lemma_trim_start_skip(s@, start as int);
    }
    let ghost rest = s@.subrange(start as int, s@.len() as int);
    assert(rest.len() == 0 || !is_white_space(rest[0]));
    assert(spec_trim_start(rest) == rest);
    let mut end: usize = s.len();
    while end > start && char_is_whitespace(s[end - 1])
        invariant
            start <= end <= s@.len(),
            forall|j: int| end <= j < s@.len() ==> is_white_space(s@[j]),
        decreases end,
    {
        end -= 1;
    }
    proof {
        let t = s@.subrange(start as int, s@.len() as int);
        lemma_trim_end_skip(t, end - start);
        assert(t.subrange(0, end - start) =~= s@.subrange(start as int, end as int));
        let u = s@.subrange(start as int, end as int);
        assert(u.len() == 0 || !is_white_space(u.last()));
    }
    (start, end)
}


/// The decimal digit `d` as a character.
pub open spec fn digit_char(d: int) -> char {
    if d == 0 { '0' } else if d == 1 { '1' } else if d == 2 { '2' } else if d == 3 { '3' }
    else if d == 4 { '4' } else if d == 5 { '5' } else if d == 6 { '6' } else if d == 7 { '7' }
    else if d == 8 { '8' } else { '9' }
}

/// Decimal notation of `n`, without leading zeros.
pub open spec fn spec_decimal(n: nat) -> Seq<char>
    decreases n,
{
    if n < 10 {
        seq![digit_char(n as int)]
    } else {
        spec_decimal(n / 10).push(digit_char((n % 10) as int))
    }
}

/// Decimal notation of `i`, with a leading `-` when it is negative.
pub open spec fn spec_signed_decimal(i: int) -> Seq<char> {
    if i < 0 {
        seq!['-'] + spec_decimal((-i) as nat)
    } else {
        spec_decimal(i as nat)
    }
}

/// `'0'` repeated `n` times.
pub open spec fn zeros(n: nat) -> Seq<char> {
    Seq::new(n, |i: int| '0')
}

/// Decimal notation of `n`, padded with leading zeros to at least `width` characters.
pub open spec fn spec_zero_padded(n: nat, width: nat) -> Seq<char> {
    let d = spec_decimal(n);
    if d.len() < width {
        zeros((width - d.len()) as nat) + d
    } else {
        d
    }
}

fn digit(d: u64) -> (c: char)
    requires
        d < 10,
    ensures
        c == digit_char(d as int),
{
    match d {
        0 => '0',
        1 => '1',
        2 => '2',
        3 => '3',
        4 => '4',
        5 => '5',
        6 => '6',
        7 => '7',
        8 => '8',
        _ => '9',
    }
}

/// Appends the decimal notation of `n`.
pub fn push_decimal(s: &mut String, n: u64)
    ensures
        final(s)@ == old(s)@ + spec_decimal(n as nat),
    decreases n,
{
    if n >= 10 {
        push_decimal(s, n / 10);
    }
    push_char(s, digit(n % 10));
    assert(final(s)@ =~= old(s)@ + spec_decimal(n as nat));
}

/// Appends the decimal notation of `i`, with a leading `-` when it is negative.
pub fn push_signed_decimal(s: &mut String, i: i64)
    ensures
        final(s)@ == old(s)@ + spec_signed_decimal(i as int),
{
    if i < 0 {
        push_char(s, '-');
        let magnitude: u64 = if i == i64::MIN {
            0x8000_0000_0000_0000u64
        } else {
            (-i) as u64
        };
        push_decimal(s, magnitude);
        assert(final(s)@ =~= old(s)@ + spec_signed_decimal(i as int));
    } else {
        push_decimal(s, i as u64);
    }
}

/// Decimal notation of `n`.
pub fn decimal(n: u64) -> (r: String)
    ensures
        r@ == spec_decimal(n as nat),
{
    let mut r = String::new();
    push_decimal(&mut r, n);
    assert(r@ =~= spec_decimal(n as nat));
    r
}

/// Decimal notation of `i`, with a leading `-` when it is negative.
pub fn signed_decimal(i: i64) -> (r: String)
    ensures
        r@ == spec_signed_decimal(i as int),
{
    let mut r = String::new();
    push_signed_decimal(&mut r, i);
    assert(r@ =~= spec_signed_decimal(i as int));
    r
}

/// Appends the decimal notation of `n`, padded with leading zeros to at least `width`
/// characters.
pub fn push_zero_padded(s: &mut String, n: u64, width: usize)
    ensures
        final(s)@ == old(s)@ + spec_zero_padded(n as nat, width as nat),
{
    let d = decimal(n);
    let len = d.unicode_len();
    let mut k: usize = len;
    while k < width
        invariant
            len <= k <= width || (k == len && len >= width),
            len == spec_decimal(n as nat).len(),
            s@ == old(s)@ + zeros((k - len) as nat),
        decreases width - k,
    {
        push_char(s, '0');
        k += 1;
        assert(s@ =~= old(s)@ + zeros((k - len) as nat));
    }
    s.append(d.as_str());
    assert(final(s)@ =~= old(s)@ + spec_zero_padded(n as nat, width as nat));
}


/// `to` before every character of `s` and once more at its end: what replacing the empty
/// text gives, since it occurs at every character boundary.
pub open spec fn spec_surround_chars(s: Seq<char>, to: Seq<char>) -> Seq<char>
    decreases s.len(),
{
    if s.len() == 0 {
        to
    } else {
        to + seq![s[0]] + spec_surround_chars(s.subrange(1, s.len() as int), to)
    }
}

/// `s` with every occurrence of `from` replaced by `to`, scanning from the left and never
/// overlapping, as `str::replace` does; the empty `from` occurs at every character
/// boundary.
pub open spec fn spec_replace(s: Seq<char>, from: Seq<char>, to: Seq<char>) -> Seq<char>
    decreases s.len(),
{
    if from.len() == 0 {
        spec_surround_chars(s, to)
    } else if s.len() < from.len() {
        s
    } else if s.subrange(0, from.len() as int) == from {
        to + spec_replace(s.subrange(from.len() as int, s.len() as int), from, to)
    } else {
        seq![s[0]] + spec_replace(s.subrange(1, s.len() as int), from, to)
    }
}

/// `s` with every occurrence of `from` replaced by `to`, scanning from the left and never
/// overlapping.
pub fn replace_all(s: &str, from: &str, to: &str) -> (r: String)
    ensures
        r@ == spec_replace(s@, from@, to@),
{
    let sv = chars_of(s);
    let fv = chars_of(from);
    let mut r = String::new();
    if fv.len() == 0 {
        let mut i: usize = 0;
        assert(sv@.subrange(0, sv@.len() as int) =~= sv@);
        while i < sv.len()
            invariant
                i <= sv@.len(),
                sv@ == s@,
                r@ + spec_surround_chars(sv@.subrange(i as int, sv@.len() as int), to@) == spec_surround_chars(s@, to@),
            decreases sv@.len() - i,
        {
            let ghost rest = sv@.subrange(i as int, sv@.len() as int);
            assert(rest.subrange(1, rest.len() as int) =~= sv@.subrange(i + 1, sv@.len() as int));
            r.append(to);
            push_char(&mut r, sv[i]);
            i += 1;
            assert(r@ + spec_surround_chars(sv@.subrange(i as int, sv@.len() as int), to@) =~= spec_surround_chars(s@, to@));
        }
        r.append(to);
        assert(sv@.subrange(sv@.len() as int, sv@.len() as int) =~= Seq::<char>::empty());
        assert(r@ =~= spec_surround_chars(s@, to@));
        return r;
    }
    let mut i: usize = 0;
    assert(sv@.subrange(0, sv@.len() as int) =~= sv@);
    while i < sv.len()
        invariant
            i <= sv@.len(),
            sv@ == s@,
            fv@ == from@,
            fv@.len() > 0,
            r@ + spec_replace(sv@.subrange(i as int, sv@.len() as int), fv@, to@) == spec_replace(s@, from@, to@),
        decreases sv@.len() - i,
    {
        let ghost rest = sv@.subrange(i as int, sv@.len() as int);
        if chars_occur_at(&sv, &fv, i) {
            assert(rest.subrange(0, fv@.len() as int) =~= sv@.subrange(i as int, i + fv@.len()));
            assert(rest.subrange(fv@.len() as int, rest.len() as int) =~= sv@.subrange(i + fv@.len(), sv@.len() as int));
            r.append(to);
            i += fv.len();
            assert(r@ + spec_replace(sv@.subrange(i as int, sv@.len() as int), fv@, to@) =~= spec_replace(s@, from@, to@));
        } else {
            proof {
                if rest.len() >= fv@.len() {
                    assert(rest.subrange(0, fv@.len() as int) =~= sv@.subrange(i as int, i + fv@.len()));
                }
                assert(rest.subrange(1, rest.len() as int) =~= sv@.subrange(i + 1, sv@.len() as int));
            }
            push_char(&mut r, sv[i]);
            i += 1;
            assert(r@ + spec_replace(sv@.subrange(i as int, sv@.len() as int), fv@, to@) =~= spec_replace(s@, from@, to@));
        }
    }
    assert(sv@.subrange(sv@.len() as int, sv@.len() as int) =~= Seq::<char>::empty());
    r
}

/// The trimmed text of `s`, as `str::trim` gives it.
pub fn trim(s: &str) -> (r: String)
    ensures
        r@ == spec_trim(s@),
{
    let v = chars_of(s);
    let (start, end) = trim_bounds(&v);
    string_of_range(&v, start, end)
}

/// The text of each string, in order.
pub open spec fn texts_of(items: Seq<String>) -> Seq<Seq<char>> {
    items.map_values(|item: String| item@)
}

/// The strings of `items`, in order, with `sep` between each two, as `[String]::join` gives
/// them.
pub open spec fn spec_joined(items: Seq<Seq<char>>, sep: Seq<char>) -> Seq<char>
    decreases items.len(),
{
    if items.len() == 0 {
        Seq::empty()
    } else if items.len() == 1 {
        items[0]
    } else {
        spec_joined(items.drop_last(), sep) + sep + items.last()
    }
}

/// The strings of `items`, in order, with `sep` between each two.
pub fn join_strings(items: &Vec<String>, sep: &str) -> (r: String)
    ensures
        r@ == spec_joined(texts_of(items@), sep@),
{
    let mut r = String::new();
    let mut i: usize = 0;
    while i < items.len()
        invariant
            i <= items.len(),
            r@ == spec_joined(texts_of(items@.subrange(0, i as int)), sep@),
        decreases items.len() - i,
    {
        if i > 0 {
            r.append(sep);
        }
        r.append(items[i].as_str());
        proof {
            let prefix = texts_of(items@.subrange(0, i + 1));
            assert(prefix.drop_last() =~= texts_of(items@.subrange(0, i as int)));
            assert(prefix.last() == items@[i as int]@);
        }
        i += 1;
    }
    assert(items@.subrange(0, items.len() as int) =~= items@);
    r
}

} // verus!
