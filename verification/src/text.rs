//! Text as sequences of characters: conversions between `str`, `String` and
//! `Vec<char>`, substring search, and the removal of single characters.

use vstd::prelude::*;

verus! {

/// `String::push` appends one character to the end of the string.
pub assume_specification[ String::push ](s: &mut String, c: char)
    ensures
        final(s)@ == old(s)@.push(c),
;

/// What `String::from_utf8_lossy` makes of a byte sequence: the text it
/// decodes to, with U+FFFD standing in for each malformed part.
pub uninterp spec fn utf8_lossy(bytes: Seq<u8>) -> Seq<char>;

/// Calls `String::from_utf8_lossy` and takes ownership of what it returns.
/// The call never fails; on well-formed UTF-8 it is plain decoding.
#[verifier::external_body]
pub(crate) fn decode_lossy(bytes: &[u8]) -> (s: String)
    ensures
        s@ == utf8_lossy(bytes@),
        vstd::utf8::valid_utf8(bytes@) ==> s@ == vstd::utf8::decode_utf8(bytes@),
{
    String::from_utf8_lossy(bytes).into_owned()
}

/// `needle` stands in `hay` at offset `at`.
pub open spec fn occurs_at(hay: Seq<char>, needle: Seq<char>, at: int) -> bool {
    &&& 0 <= at
    &&& at + needle.len() <= hay.len()
    &&& hay.subrange(at, at + needle.len()) == needle
}

/// `needle` is a contiguous part of `hay`. The empty text is part of every text.
pub open spec fn occurs_in(hay: Seq<char>, needle: Seq<char>) -> bool {
    exists|at: int| occurs_at(hay, needle, at)
}

/// Some member of `patterns` is a contiguous part of `hay`.
pub open spec fn any_occurs_in(hay: Seq<char>, patterns: Seq<Seq<char>>) -> bool {
    exists|k: int| 0 <= k < patterns.len() && occurs_in(hay, #[trigger] patterns[k])
}

/// The views of a list of texts.
pub open spec fn views(texts: Seq<Vec<char>>) -> Seq<Seq<char>> {
    Seq::new(texts.len(), |k: int| texts[k]@)
}

/// The test "is not `c`".
pub open spec fn is_not(c: char) -> spec_fn(char) -> bool {
    |x: char| x != c
}

/// The views of a list of string slices.
pub open spec fn str_views(texts: Seq<&str>) -> Seq<Seq<char>> {
    Seq::new(texts.len(), |k: int| texts[k]@)
}

/// `s` without its occurrences of `c`.
pub open spec fn without(s: Seq<char>, c: char) -> Seq<char> {
    s.filter(is_not(c))
}

/// The first index at or after `from` at which `s` holds `c`; the length of
/// `s` if there is none.
pub open spec fn next_index_of(s: Seq<char>, c: char, from: int) -> int
    decreases s.len() - from,
{
    if from < 0 || from >= s.len() {
        s.len() as int
    } else if s[from] == c {
        from
    } else {
        next_index_of(s, c, from + 1)
    }
}

/// Where `next_index_of` points, the character stands, and nowhere before.
pub proof fn lemma_next_index_of(s: Seq<char>, c: char, from: int)
    requires
        0 <= from <= s.len(),
    ensures
        from <= next_index_of(s, c, from) <= s.len(),
        next_index_of(s, c, from) < s.len() ==> s[next_index_of(s, c, from)] == c,
        forall|j: int| from <= j < next_index_of(s, c, from) ==> s[j] != c,
    decreases s.len() - from,
{
    if from < s.len() && s[from] != c {
        lemma_next_index_of(s, c, from + 1);
    }
}

/// The characters of a string slice.
pub fn chars_of(s: &str) -> (v: Vec<char>)
    ensures
        v@ == s@,
{
    let mut v: Vec<char> = Vec::new();
    for c in it: s.chars()
        invariant
            v@ == it.seq().take(it.index@),
    {
        v.push(c);
    }
    v
}

/// The string that holds the given characters.
pub fn text_of(v: &Vec<char>) -> (s: String)
    ensures
        s@ == v@,
{
    let mut s = String::new();
    let mut i: usize = 0;
    while i < v.len()
        invariant
            i <= v.len(),
            s@ == v@.subrange(0, i as int),
        decreases v.len() - i,
    {
        s.push(v[i]);
        i += 1;
        assert(s@ =~= v@.subrange(0, i as int));
    }
    assert(s@ =~= v@);
    s
}

/// The characters of each of the given string slices.
pub fn chars_of_all(texts: &Vec<&str>) -> (v: Vec<Vec<char>>)
    ensures
        views(v@) == str_views(texts@),
{
    let mut v: Vec<Vec<char>> = Vec::new();
    let mut i: usize = 0;
    while i < texts.len()
        invariant
            i <= texts.len(),
            v@.len() == i,
            forall|k: int| 0 <= k < i ==> (#[trigger] v@[k])@ == texts@[k]@,
        decreases texts.len() - i,
    {
        v.push(chars_of(texts[i]));
        i += 1;
    }
    assert(views(v@) =~= str_views(texts@));
    v
}

/// Appends the characters of `more` to `v`.
pub fn extend(v: &mut Vec<char>, more: &Vec<char>)
    ensures
        final(v)@ == old(v)@ + more@,
{
    let mut i: usize = 0;
    while i < more.len()
        invariant
            i <= more.len(),
            v@ == old(v)@ + more@.subrange(0, i as int),
        decreases more.len() - i,
    {
        v.push(more[i]);
        i += 1;
        assert(v@ =~= old(v)@ + more@.subrange(0, i as int));
    }
    assert(v@ =~= old(v)@ + more@);
}

/// The part of `v` from `from` up to, not including, `to`.
pub fn slice_of(v: &Vec<char>, from: usize, to: usize) -> (r: Vec<char>)
    requires
        from <= to <= v@.len(),
    ensures
        r@ == v@.subrange(from as int, to as int),
{
    let mut r: Vec<char> = Vec::new();
    let mut i: usize = from;
    while i < to
        invariant
            from <= i <= to <= v@.len(),
            r@ == v@.subrange(from as int, i as int),
        decreases to - i,
    {
        r.push(v[i]);
        i += 1;
        assert(r@ =~= v@.subrange(from as int, i as int));
    }
    r
}

/// Whether `needle` stands in `hay` at offset `at`.
pub fn matches_at(hay: &Vec<char>, needle: &Vec<char>, at: usize) -> (r: bool)
    ensures
        r == occurs_at(hay@, needle@, at as int),
{
    if needle.len() > hay.len() || at > hay.len() - needle.len() {
        return false;
    }
    let mut j: usize = 0;
    while j < needle.len()
        invariant
            j <= needle.len(),
            at + needle.len() <= hay.len(),
            forall|k: int| 0 <= k < j ==> hay@[at + k] == needle@[k],
        decreases needle.len() - j,
    {
        if hay[at + j] != needle[j] {
            assert(hay@.subrange(at as int, at + needle@.len())[j as int] != needle@[j as int]);
            return false;
        }
        j += 1;
    }
    assert(hay@.subrange(at as int, at + needle@.len()) =~= needle@);
    true
}

/// Whether `needle` is a contiguous part of `hay`.
pub fn contains(hay: &Vec<char>, needle: &Vec<char>) -> (r: bool)
    ensures
        r == occurs_in(hay@, needle@),
{
    if needle.len() > hay.len() {
        return false;
    }
    let last: usize = hay.len() - needle.len();
    let mut at: usize = 0;
    loop
        invariant
            at <= last,
            last == hay.len() - needle.len(),
            forall|k: int| 0 <= k < at ==> !occurs_at(hay@, needle@, k),
        decreases last - at,
    {
        if matches_at(hay, needle, at) {
            return true;
        }
        if at == last {
            return false;
        }
        at += 1;
    }
}

/// Whether some member of `patterns` is a contiguous part of `hay`.
pub fn contains_any(hay: &Vec<char>, patterns: &Vec<Vec<char>>) -> (r: bool)
    ensures
        r == any_occurs_in(hay@, views(patterns@)),
{
    let mut k: usize = 0;
    while k < patterns.len()
        invariant
            k <= patterns.len(),
            forall|i: int| 0 <= i < k ==> !occurs_in(hay@, #[trigger] views(patterns@)[i]),
        decreases patterns.len() - k,
    {
        if contains(hay, &patterns[k]) {
            assert(occurs_in(hay@, views(patterns@)[k as int]));
            return true;
        }
        k += 1;
    }
    false
}

/// The first index at or after `from` at which `v` holds `c`; the length of
/// `v` if there is none.
pub fn find_from(v: &Vec<char>, c: char, from: usize) -> (r: usize)
    requires
        from <= v@.len(),
    ensures
        r == next_index_of(v@, c, from as int),
        from <= r <= v@.len(),
{
    let mut i: usize = from;
    while i < v.len() && v[i] != c
        invariant
            from <= i <= v@.len(),
            next_index_of(v@, c, i as int) == next_index_of(v@, c, from as int),
        decreases v@.len() - i,
    {
        i += 1;
    }
    i
}

/// A copy of `v` without its occurrences of `c`.
pub fn remove_all(v: &Vec<char>, c: char) -> (r: Vec<char>)
    ensures
        r@ == without(v@, c),
{
    let mut r: Vec<char> = Vec::new();
    let ghost keep = is_not(c);
    let mut i: usize = 0;
    while i < v.len()
        invariant
            i <= v.len(),
            keep == is_not(c),
            r@ == v@.take(i as int).filter(keep),
        decreases v.len() - i,
    {
        proof {
            assert(v@.take(i + 1) =~= v@.take(i as int).push(v@[i as int]));
            v@.take(i as int).lemma_filter_push(v@[i as int], keep);
        }
        if v[i] != c {
            r.push(v[i]);
        }
        i += 1;
    }
    assert(v@.take(v@.len() as int) =~= v@);
    r
}

/// The character that stands for a decimal digit.
pub open spec fn digit_of(d: int) -> char {
    if d == 0 {
        '0'
    } else if d == 1 {
        '1'
    } else if d == 2 {
        '2'
    } else if d == 3 {
        '3'
    } else if d == 4 {
        '4'
    } else if d == 5 {
        '5'
    } else if d == 6 {
        '6'
    } else if d == 7 {
        '7'
    } else if d == 8 {
        '8'
    } else {
        '9'
    }
}

/// A natural number in decimal, without leading zeros.
pub open spec fn decimal(n: nat) -> Seq<char>
    decreases n,
{
    if n < 10 {
        seq![digit_of(n as int)]
    } else {
        decimal(n / 10).push(digit_of((n % 10) as int))
    }
}

/// The last `width` decimal digits of a natural number, with leading zeros.
pub open spec fn fixed(n: nat, width: nat) -> Seq<char>
    decreases width,
{
    if width == 0 {
        Seq::empty()
    } else {
        fixed(n / 10, (width - 1) as nat).push(digit_of((n % 10) as int))
    }
}

/// `s` without its zeros at the end, but for the first character.
pub open spec fn trimmed(s: Seq<char>) -> Seq<char>
    decreases s.len(),
{
    if s.len() > 1 && s.last() == '0' {
        trimmed(s.drop_last())
    } else {
        s
    }
}

/// The character that stands for a decimal digit.
pub fn digit(d: u64) -> (c: char)
    requires
        d < 10,
    ensures
        c == digit_of(d as int),
{
    if d == 0 {
        '0'
    } else if d == 1 {
        '1'
    } else if d == 2 {
        '2'
    } else if d == 3 {
        '3'
    } else if d == 4 {
        '4'
    } else if d == 5 {
        '5'
    } else if d == 6 {
        '6'
    } else if d == 7 {
        '7'
    } else if d == 8 {
        '8'
    } else {
        '9'
    }
}

/// Appends `n` in decimal.
pub fn push_decimal(out: &mut String, n: u64)
    ensures
        final(out)@ == old(out)@ + decimal(n as nat),
    decreases n,
{
    if n >= 10 {
        push_decimal(out, n / 10);
    }
    out.push(digit(n % 10));
    assert(out@ =~= old(out)@ + decimal(n as nat));
}

/// Appends the last `width` decimal digits of `n`.
pub fn push_fixed(out: &mut Vec<char>, n: u64, width: u8)
    ensures
        final(out)@ == old(out)@ + fixed(n as nat, width as nat),
    decreases width,
{
    if width > 0 {
        push_fixed(out, n / 10, width - 1);
        out.push(digit(n % 10));
    }
    assert(out@ =~= old(out)@ + fixed(n as nat, width as nat));
}

/// Removes the zeros at the end of `digits`, but for the first character.
pub fn trim(digits: &mut Vec<char>)
    ensures
        final(digits)@ == trimmed(old(digits)@),
{
    while digits.len() > 1 && digits[digits.len() - 1] == '0'
        invariant
            trimmed(digits@) == trimmed(old(digits)@),
        decreases digits.len(),
    {
        let ghost before = digits@;
        digits.pop();
        assert(digits@ =~= before.drop_last());
    }
}

/// `n` in decimal.
pub fn decimal_text(n: u64) -> (s: String)
    ensures
        s@ == decimal(n as nat),
{
    let mut s = String::new();
    push_decimal(&mut s, n);
    s
}

/// The first offset at or after `from` at which `needle` stands in `hay`.
pub open spec fn next_occurrence(hay: Seq<char>, needle: Seq<char>, from: int) -> Option<int>
    decreases hay.len() - from,
{
    if from < 0 || from + needle.len() > hay.len() {
        None
    } else if occurs_at(hay, needle, from) {
        Some(from)
    } else if from >= hay.len() {
        None
    } else {
        next_occurrence(hay, needle, from + 1)
    }
}

/// `next_occurrence` finds the first place at which `needle` stands, and
/// finds none only where there is none.
pub proof fn lemma_next_occurrence(hay: Seq<char>, needle: Seq<char>, from: int)
    requires
        0 <= from,
    ensures
        match next_occurrence(hay, needle, from) {
            Some(at) => from <= at && occurs_at(hay, needle, at) && forall|k: int|
                from <= k < at ==> !occurs_at(hay, needle, k),
            None => forall|k: int| from <= k ==> !occurs_at(hay, needle, k),
        },
    decreases hay.len() - from,
{
    if from + needle.len() <= hay.len() && !occurs_at(hay, needle, from) && from < hay.len() {
        lemma_next_occurrence(hay, needle, from + 1);
    }
}

/// The first offset at which `needle` stands in `hay`.
pub fn find(hay: &Vec<char>, needle: &Vec<char>) -> (r: Option<usize>)
    ensures
        match r {
            Some(at) => next_occurrence(hay@, needle@, 0) == Some(at as int),
            None => next_occurrence(hay@, needle@, 0) is None,
        },
        r is Some <==> occurs_in(hay@, needle@),
{
    proof {
        lemma_next_occurrence(hay@, needle@, 0);
    }
    if needle.len() > hay.len() {
        return None;
    }
    let last: usize = hay.len() - needle.len();
    let mut at: usize = 0;
    loop
        invariant
            at <= last,
            last == hay.len() - needle.len(),
            next_occurrence(hay@, needle@, at as int) == next_occurrence(hay@, needle@, 0),
        decreases last - at,
    {
        proof {
            lemma_next_occurrence(hay@, needle@, 0);
        }
        if matches_at(hay, needle, at) {
            return Some(at);
        }
        if at == last {
            assert(next_occurrence(hay@, needle@, at + 1) is None);
            return None;
        }
        at += 1;
    }
}

/// The value of a decimal digit, if `c` is one.
pub open spec fn digit_value(c: char) -> Option<int> {
    if c == '0' {
        Some(0)
    } else if c == '1' {
        Some(1)
    } else if c == '2' {
        Some(2)
    } else if c == '3' {
        Some(3)
    } else if c == '4' {
        Some(4)
    } else if c == '5' {
        Some(5)
    } else if c == '6' {
        Some(6)
    } else if c == '7' {
        Some(7)
    } else if c == '8' {
        Some(8)
    } else if c == '9' {
        Some(9)
    } else {
        None
    }
}

/// Every character of `s` is a decimal digit.
pub open spec fn all_digits(s: Seq<char>) -> bool {
    forall|i: int| 0 <= i < s.len() ==> digit_value(#[trigger] s[i]) is Some
}

/// The number that a string of decimal digits stands for.
pub open spec fn number_of(s: Seq<char>) -> nat
    decreases s.len(),
{
    if s.len() == 0 {
        0
    } else {
        match digit_value(s.last()) {
            Some(d) => number_of(s.drop_last()) * 10 + d as nat,
            None => number_of(s.drop_last()) * 10,
        }
    }
}

/// The number that `s` stands for, read as `u32`: decimal digits, at least
/// one, after at most one plus sign, and a value that fits.
pub open spec fn read_u32(s: Seq<char>) -> Option<u32> {
    let digits = if s.len() > 0 && s[0] == '+' {
        s.skip(1)
    } else {
        s
    };
    if digits.len() > 0 && all_digits(digits) && number_of(digits) <= u32::MAX {
        Some(number_of(digits) as u32)
    } else {
        None
    }
}

/// The value of a decimal digit, if `c` is one.
pub fn value_of_digit(c: char) -> (r: Option<u64>)
    ensures
        match r {
            Some(d) => digit_value(c) == Some(d as int) && d < 10,
            None => digit_value(c) is None,
        },
{
    if c == '0' {
        Some(0)
    } else if c == '1' {
        Some(1)
    } else if c == '2' {
        Some(2)
    } else if c == '3' {
        Some(3)
    } else if c == '4' {
        Some(4)
    } else if c == '5' {
        Some(5)
    } else if c == '6' {
        Some(6)
    } else if c == '7' {
        Some(7)
    } else if c == '8' {
        Some(8)
    } else if c == '9' {
        Some(9)
    } else {
        None
    }
}

/// A longer string of digits stands for no smaller a number than its start.
pub proof fn lemma_number_of_grows(s: Seq<char>, n: int)
    requires
        0 <= n <= s.len(),
    ensures
        number_of(s.take(n)) <= number_of(s),
    decreases s.len() - n,
{
    if n < s.len() {
        lemma_number_of_grows(s, n + 1);
        assert(s.take(n + 1).drop_last() =~= s.take(n));
    } else {
        assert(s.take(n) =~= s);
    }
}

/// Reads `s` as a `u32`.
pub fn parse_u32(s: &str) -> (r: Option<u32>)
    ensures
        r == read_u32(s@),
{
    let chars = chars_of(s);
    let start: usize = if chars.len() > 0 && chars[0] == '+' {
        1
    } else {
        0
    };
    let ghost digits = chars@.skip(start as int);
    assert(chars@.skip(0) =~= chars@);
    if chars.len() == start {
        return None;
    }
    let mut value: u64 = 0;
    let mut i: usize = start;
    while i < chars.len()
        invariant
            start <= i <= chars.len(),
            digits == chars@.skip(start as int),
            digits.len() > 0,
            read_u32(s@) == if all_digits(digits) && number_of(digits) <= u32::MAX {
                Some(number_of(digits) as u32)
            } else {
                None
            },
            all_digits(digits.take(i - start)),
            value == number_of(digits.take(i - start)),
            value <= u32::MAX,
        decreases chars.len() - i,
    {
        let ghost seen = digits.take(i - start);
        let ghost more = digits.take(i + 1 - start);
        proof {
            assert(more.drop_last() =~= seen);
            assert(more.last() == chars@[i as int]);
        }
        match value_of_digit(chars[i]) {
            None => {
                assert(digit_value(digits[i - start]) is None);
                return None;
            },
            Some(d) => {
                let bigger: u64 = value * 10 + d;
                assert(bigger == number_of(more));
                if bigger > 0xffff_ffff {
                    proof {
                        lemma_number_of_grows(digits, i + 1 - start);
                    }
                    return None;
                }
                value = bigger;
                assert forall|k: int| 0 <= k < more.len() implies digit_value(
                    #[trigger] more[k],
                ) is Some by {
                    if k < seen.len() {
                        assert(more[k] == seen[k]);
                    }
                }
            },
        }
        i += 1;
    }
    assert(digits.take(i - start) =~= digits);
    Some(value as u32)
}

/// Whether two string slices hold the same text.
pub fn same(a: &str, b: &str) -> (r: bool)
    ensures
        r == (a@ == b@),
{
    let x = chars_of(a);
    let y = chars_of(b);
    if x.len() != y.len() {
        return false;
    }
    let mut i: usize = 0;
    while i < x.len()
        invariant
            i <= x.len(),
            x.len() == y.len(),
            x@ == a@,
            y@ == b@,
            forall|k: int| 0 <= k < i ==> x@[k] == y@[k],
        decreases x.len() - i,
    {
        if x[i] != y[i] {
            return false;
        }
        i += 1;
    }
    assert(x@ =~= y@);
    true
}

} // verus!
