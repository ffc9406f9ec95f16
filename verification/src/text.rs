//! Character-level text helpers shared by the transcript, prompt and command logic.
//!
//! Text is handled as sequences of `char`s; the specifications below say what
//! each operation computes over those sequences.
use vstd::prelude::*;

verus! {

// ─── Specifications ────────────────────────────────────────────────────────

/// Unicode `White_Space`: the characters that `str::trim` and
/// `str::split_whitespace` treat as whitespace.
pub open spec fn is_ws(c: char) -> bool {
    let u = c as u32;
    ||| 0x09 <= u <= 0x0D
    ||| u == 0x20
    ||| u == 0x85
    ||| u == 0xA0
    ||| u == 0x1680
    ||| 0x2000 <= u <= 0x200A
    ||| u == 0x2028
    ||| u == 0x2029
    ||| u == 0x202F
    ||| u == 0x205F
    ||| u == 0x3000
}

/// `s` with its leading whitespace removed.
pub open spec fn trim_start(s: Seq<char>) -> Seq<char>
    decreases s.len(),
{
    if s.len() > 0 && is_ws(s[0]) {
        trim_start(s.drop_first())
    } else {
        s
    }
}

/// `s` with its trailing whitespace removed.
pub open spec fn trim_end(s: Seq<char>) -> Seq<char>
    decreases s.len(),
{
    if s.len() > 0 && is_ws(s.last()) {
        trim_end(s.drop_last())
    } else {
        s
    }
}

/// `s` with leading and trailing whitespace removed (`str::trim`).
pub open spec fn trim(s: Seq<char>) -> Seq<char> {
    trim_end(trim_start(s))
}

/// `needle` occurs in `hay` starting at index `i`.
pub open spec fn is_match_at(hay: Seq<char>, needle: Seq<char>, i: int) -> bool {
    0 <= i && i + needle.len() <= hay.len() && hay.subrange(i, i + needle.len()) == needle
}

/// `needle` occurs somewhere in `hay` (`str::contains`).
pub open spec fn contains(hay: Seq<char>, needle: Seq<char>) -> bool {
    exists|i: int| is_match_at(hay, needle, i)
}

/// `hay` begins with `prefix`.
pub open spec fn starts_with(hay: Seq<char>, prefix: Seq<char>) -> bool {
    is_match_at(hay, prefix, 0)
}

/// `hay` ends with `suffix`.
pub open spec fn ends_with(hay: Seq<char>, suffix: Seq<char>) -> bool {
    is_match_at(hay, suffix, hay.len() - suffix.len())
}

/// Every occurrence of `pat`, taken left to right without overlap, removed from `s`
/// (`str::replace(pat, "")`).
pub open spec fn remove_all(s: Seq<char>, pat: Seq<char>) -> Seq<char>
    decreases s.len(),
{
    if pat.len() == 0 || s.len() < pat.len() {
        s
    } else if is_match_at(s, pat, 0) {
        remove_all(s.skip(pat.len() as int), pat)
    } else {
        seq![s[0]] + remove_all(s.skip(1), pat)
    }
}

/// The pieces of `ws` joined with `sep` between consecutive pieces.
pub open spec fn join(ws: Seq<Seq<char>>, sep: Seq<char>) -> Seq<char>
    decreases ws.len(),
{
    if ws.len() == 0 {
        seq![]
    } else if ws.len() == 1 {
        ws[0]
    } else {
        join(ws.drop_last(), sep) + sep + ws.last()
    }
}

/// `s` with every leading repetition of `p` removed (`str::trim_start_matches`).
pub open spec fn strip_prefixes(s: Seq<char>, p: Seq<char>) -> Seq<char>
    decreases s.len(),
{
    if p.len() > 0 && starts_with(s, p) {
        strip_prefixes(s.skip(p.len() as int), p)
    } else {
        s
    }
}

/// `s` with every trailing repetition of `p` removed (`str::trim_end_matches`).
pub open spec fn strip_suffixes(s: Seq<char>, p: Seq<char>) -> Seq<char>
    decreases s.len(),
{
    if p.len() > 0 && ends_with(s, p) {
        strip_suffixes(s.take(s.len() - p.len()), p)
    } else {
        s
    }
}

/// The whitespace-separated words of `s`, as `str::split_whitespace` yields them.
pub open spec fn words(s: Seq<char>) -> Seq<Seq<char>>
    decreases s.len(),
{
    if s.len() == 0 {
        seq![]
    } else {
        let w = words(s.drop_last());
        let c = s.last();
        if is_ws(c) {
            w
        } else if s.len() >= 2 && !is_ws(s[s.len() - 2]) {
            w.update(w.len() - 1, w.last().push(c))
        } else {
            w.push(seq![c])
        }
    }
}

/// The first `n` elements of `ws` (all of them when there are fewer).
pub open spec fn first_n<A>(ws: Seq<A>, n: int) -> Seq<A> {
    if ws.len() <= n {
        ws
    } else {
        ws.take(n)
    }
}

/// The text of `s` before its `k`-th sentence break `". "` (all of `s` when it has
/// fewer breaks): what `s.split(". ").take(k)` joined again with `". "` gives.
pub open spec fn before_break(s: Seq<char>, k: nat) -> Seq<char>
    decreases s.len(),
{
    if s.len() < 2 {
        s
    } else if s[0] == '.' && s[1] == ' ' {
        if k <= 1 {
            seq![]
        } else {
            seq!['.', ' '] + before_break(s.skip(2), (k - 1) as nat)
        }
    } else {
        seq![s[0]] + before_break(s.skip(1), k)
    }
}

/// The character for a decimal digit.
pub open spec fn digit_char(d: int) -> char {
    if d == 0 { '0' }
    else if d == 1 { '1' }
    else if d == 2 { '2' }
    else if d == 3 { '3' }
    else if d == 4 { '4' }
    else if d == 5 { '5' }
    else if d == 6 { '6' }
    else if d == 7 { '7' }
    else if d == 8 { '8' }
    else { '9' }
}

/// The decimal representation of `n`, without sign or leading zeros.
pub open spec fn decimal(n: nat) -> Seq<char>
    decreases n,
{
    if n < 10 {
        seq![digit_char(n as int)]
    } else {
        decimal(n / 10).push(digit_char((n % 10) as int))
    }
}

/// `c` is one of the ASCII digits `0`–`9`.
pub open spec fn is_digit(c: char) -> bool {
    '0' <= c <= '9'
}

/// The value of an ASCII digit.
pub open spec fn digit_value(c: char) -> int {
    (c as u32) - ('0' as u32)
}

/// The number that a string of ASCII digits spells in base ten.
pub open spec fn digits_value(s: Seq<char>) -> int
    decreases s.len(),
{
    if s.len() == 0 {
        0
    } else {
        digits_value(s.drop_last()) * 10 + digit_value(s.last())
    }
}

/// Every character of `s` is an ASCII digit.
pub open spec fn all_digits(s: Seq<char>) -> bool {
    forall|i: int| 0 <= i < s.len() ==> is_digit(#[trigger] s[i])
}

/// The value of a non-empty run of ASCII digits that fits in a `u64`.
pub open spec fn parse_digits_spec(d: Seq<char>) -> Option<u64> {
    if d.len() > 0 && all_digits(d) && digits_value(d) <= u64::MAX {
        Some(digits_value(d) as u64)
    } else {
        None
    }
}

/// What `str::parse::<u64>` gives: an optional `+`, then at least one ASCII digit
/// and nothing else, with a value that fits in a `u64`.
pub open spec fn parse_u64_spec(s: Seq<char>) -> Option<u64> {
    if s.len() > 0 && s[0] == '+' {
        parse_digits_spec(s.drop_first())
    } else {
        parse_digits_spec(s)
    }
}

/// The lowercase form of a text under Unicode's case rules, as `str::to_lowercase` gives it.
pub uninterp spec fn lowercase(s: Seq<char>) -> Seq<char>;

// ─── Trusted std calls ─────────────────────────────────────────────────────

/// `String::push`: appends one character.
#[verifier::external_body]
pub(crate) fn push_char(s: &mut String, c: char)
    ensures
        final(s)@ == old(s)@.push(c),
{
    s.push(c);
}

/// `str::to_lowercase`: the text lowercased under Unicode's case rules; Verus knows
/// the result only through the name `lowercase`.
#[verifier::external_body]
pub(crate) fn to_lowercase(s: &str) -> (r: String)
    ensures
        r@ == lowercase(s@),
{
    s.to_lowercase()
}

// ─── Executable helpers ────────────────────────────────────────────────────

/// The characters of `s`, in order.
pub fn chars_of(s: &str) -> (v: Vec<char>)
    ensures
        v@ == s@,
{
    let mut v: Vec<char> = Vec::new();
    for c in it: s.chars()
        invariant
            v@ == it.seq().take(it.index() as int),
            it.seq() == s@,
    {
        v.push(c);
    }
    v
}

/// A string holding the characters `v`.
pub fn string_of(v: &[char]) -> (s: String)
    ensures
        s@ == v@,
{
    let mut s = String::new();
    let mut i: usize = 0;
    while i < v.len()
        invariant
            i <= v.len(),
            s@ == v@.take(i as int),
        decreases v.len() - i,
    {
        push_char(&mut s, v[i]);
        i = i + 1;
    }
    assert(v@.take(v.len() as int) == v@);
    s
}

/// A fresh string equal to `s`.
pub fn owned(s: &str) -> (r: String)
    ensures
        r@ == s@,
{
    s.to_owned()
}

/// Appends the characters `v` to `s`.
pub fn push_chars(s: &mut String, v: &[char])
    ensures
        final(s)@ == old(s)@ + v@,
{
    let mut i: usize = 0;
    while i < v.len()
        invariant
            i <= v.len(),
            s@ == old(s)@ + v@.take(i as int),
        decreases v.len() - i,
    {
        push_char(s, v[i]);
        i = i + 1;
    }
    assert(v@.take(v.len() as int) == v@);
}

/// Whether `c` is Unicode whitespace.
pub fn is_whitespace(c: char) -> (b: bool)
    ensures
        b == is_ws(c),
{
    let u = c as u32;
    (0x09 <= u && u <= 0x0D) || u == 0x20 || u == 0x85 || u == 0xA0 || u == 0x1680
        || (0x2000 <= u && u <= 0x200A) || u == 0x2028 || u == 0x2029 || u == 0x202F
        || u == 0x205F || u == 0x3000
}

/// Whether two character sequences are equal.
pub fn chars_eq(a: &[char], b: &[char]) -> (r: bool)
    ensures
        r == (a@ == b@),
{
    if a.len() != b.len() {
        return false;
    }
    let mut i: usize = 0;
    while i < a.len()
        invariant
            a.len() == b.len(),
            i <= a.len(),
            forall|j: int| 0 <= j < i ==> a@[j] == b@[j],
        decreases a.len() - i,
    {
        if a[i] != b[i] {
            return false;
        }
        i = i + 1;
    }
    assert(a@ =~= b@);
    true
}

/// Whether two strings are equal.
pub fn str_eq(a: &str, b: &str) -> (r: bool)
    ensures
        r == (a@ == b@),
{
    let va = chars_of(a);
    let vb = chars_of(b);
    chars_eq(va.as_slice(), vb.as_slice())
}

/// Whether `needle` occurs in `hay` at index `i`.
pub fn match_at(hay: &[char], needle: &[char], i: usize) -> (r: bool)
    ensures
        r == is_match_at(hay@, needle@, i as int),
{
    if i > hay.len() || needle.len() > hay.len() - i {
        return false;
    }
    let mut j: usize = 0;
    while j < needle.len()
        invariant
            i + needle.len() <= hay.len(),
            j <= needle.len(),
            forall|k: int| 0 <= k < j ==> hay@[i + k] == needle@[k],
        decreases needle.len() - j,
    {
        if hay[i + j] != needle[j] {
            assert(hay@.subrange(i as int, i + needle.len())[j as int] != needle@[j as int]);
            return false;
        }
        j = j + 1;
    }
    assert(hay@.subrange(i as int, i + needle.len()) =~= needle@);
    true
}

/// The first index at or after `from` where `needle` occurs in `hay`.
pub fn find_from(hay: &[char], needle: &[char], from: usize) -> (r: Option<usize>)
    ensures
        match r {
            Some(i) => from <= i && is_match_at(hay@, needle@, i as int) && (forall|k: int|
                from <= k < i ==> !is_match_at(hay@, needle@, k)),
            None => forall|k: int| from <= k ==> !is_match_at(hay@, needle@, k),
        },
{
    if from > hay.len() {
        return None;
    }
    let mut i = from;
    while i < hay.len()
        invariant
            from <= i <= hay.len(),
            forall|k: int| from <= k < i ==> !is_match_at(hay@, needle@, k),
        decreases hay.len() - i,
    {
        if match_at(hay, needle, i) {
            return Some(i);
        }
        i = i + 1;
    }
    if match_at(hay, needle, i) {
        return Some(i);
    }
    None
}

/// Whether `needle` occurs in `hay`.
pub fn contains_chars(hay: &[char], needle: &[char]) -> (r: bool)
    ensures
        r == contains(hay@, needle@),
{
    match find_from(hay, needle, 0) {
        Some(_) => true,
        None => false,
    }
}

proof fn lemma_trim_start_skip(s: Seq<char>, i: int)
    requires
        0 <= i <= s.len(),
        forall|k: int| 0 <= k < i ==> is_ws(s[k]),
    ensures
        trim_start(s) == trim_start(s.subrange(i, s.len() as int)),
    decreases i,
{
    if i > 0 {
        assert(s.drop_first() == s.subrange(1, s.len() as int));
        lemma_trim_start_skip(s.drop_first(), i - 1);
        assert(s.drop_first().subrange(i - 1, s.drop_first().len() as int) == s.subrange(
            i,
            s.len() as int,
        ));
    } else {
        assert(s.subrange(0, s.len() as int) == s);
    }
}

proof fn lemma_trim_end_take(s: Seq<char>, j: int)
    requires
        0 <= j <= s.len(),
        forall|k: int| j <= k < s.len() ==> is_ws(s[k]),
    ensures
        trim_end(s) == trim_end(s.take(j)),
    decreases s.len() - j,
{
    if j < s.len() {
        assert(s.drop_last() == s.take(s.len() - 1));
        lemma_trim_end_take(s.drop_last(), j);
        assert(s.drop_last().take(j) == s.take(j));
    } else {
        assert(s.take(j) == s);
    }
}

/// The characters of `s` with leading and trailing whitespace removed.
pub fn trim_chars(s: &[char]) -> (r: Vec<char>)
    ensures
        r@ == trim(s@),
{
    let mut i: usize = 0;
    while i < s.len() && is_whitespace(s[i])
        invariant
            i <= s.len(),
            forall|k: int| 0 <= k < i ==> is_ws(s@[k]),
        decreases s.len() - i,
    {
        i = i + 1;
    }
    proof {
        lemma_trim_start_skip(s@, i as int);
    }
    let ghost t = s@.subrange(i as int, s@.len() as int);
    assert(trim_start(t) == t);
    let mut j: usize = s.len();
    while j > i && is_whitespace(s[j - 1])
        invariant
            i <= j <= s.len(),
            forall|k: int| j <= k < s.len() ==> is_ws(s@[k]),
        decreases j,
    {
        j = j - 1;
    }
    proof {
        lemma_trim_end_take(t, j - i);
        assert(t.take(j - i) == s@.subrange(i as int, j as int));
        let u = s@.subrange(i as int, j as int);
        if u.len() > 0 {
            assert(u.last() == s@[j - 1]);
        }
    }
    let mut r: Vec<char> = Vec::new();
    let mut k = i;
    while k < j
        invariant
            i <= k <= j <= s.len(),
            r@ == s@.subrange(i as int, k as int),
        decreases j - k,
    {
        r.push(s[k]);
        k = k + 1;
    }
    r
}

/// The decimal digits of `n`.
pub fn decimal_chars(n: u64) -> (v: Vec<char>)
    ensures
        v@ == decimal(n as nat),
    decreases n,
{
    if n < 10 {
        let mut v = Vec::new();
        v.push(digit_of(n));
        v
    } else {
        let mut v = decimal_chars(n / 10);
        v.push(digit_of(n % 10));
        v
    }
}

/// The character for the digit `d`.
pub fn digit_of(d: u64) -> (c: char)
    requires
        d < 10,
    ensures
        c == digit_char(d as int),
{
    match d {
        0 => '0',
        1 => '1',
        2 => '2',
        3 => '3',
        4 => '4',
        5 => '5',
        6 => '6',
        7 => '7',
        8 => '8',
        _ => '9',
    }
}

/// `n` written in decimal.
pub fn u64_to_string(n: u64) -> (s: String)
    ensures
        s@ == decimal(n as nat),
{
    let v = decimal_chars(n);
    string_of(v.as_slice())
}

proof fn lemma_digits_value_nonneg(s: Seq<char>)
    requires
        forall|i: int| 0 <= i < s.len() ==> is_digit(#[trigger] s[i]),
    ensures
        digits_value(s) >= 0,
    decreases s.len(),
{
    if s.len() > 0 {
        lemma_digits_value_nonneg(s.drop_last());
    }
}

proof fn lemma_digits_value_grows(s: Seq<char>, k: int)
    requires
        0 <= k <= s.len(),
        forall|i: int| 0 <= i < s.len() ==> is_digit(#[trigger] s[i]),
    ensures
        digits_value(s.take(k)) <= digits_value(s),
    decreases s.len() - k,
{
    if k < s.len() {
        lemma_digits_value_grows(s, k + 1);
        assert(s.take(k + 1).drop_last() == s.take(k));
        lemma_digits_value_nonneg(s.take(k));
    } else {
        assert(s.take(k) == s);
    }
}

proof fn lemma_digit_char(d: int)
    requires
        0 <= d < 10,
    ensures
        is_digit(digit_char(d)),
        digit_value(digit_char(d)) == d,
{
}

/// The decimal text of a number is made of digits and reads back as the number.
pub proof fn lemma_decimal_reads_back(n: nat)
    ensures
        decimal(n).len() >= 1,
        all_digits(decimal(n)),
        digits_value(decimal(n)) == n,
    decreases n,
{
    if n < 10 {
        lemma_digit_char(n as int);
        assert(decimal(n).drop_last().len() == 0);
        assert(digits_value(decimal(n).drop_last()) == 0);
        assert(decimal(n).last() == digit_char(n as int));
    } else {
        lemma_decimal_reads_back(n / 10);
        lemma_digit_char((n % 10) as int);
        let d = decimal(n);
        assert(d.drop_last() == decimal(n / 10));
        assert(d.last() == digit_char((n % 10) as int));
        assert(digits_value(d) == digits_value(decimal(n / 10)) * 10 + digit_value(digit_char((n % 10) as int)));
        assert((n / 10) * 10 + n % 10 == n);
        assert forall|i: int| 0 <= i < d.len() implies is_digit(#[trigger] d[i]) by {
            if i < d.len() - 1 {
                assert(d[i] == decimal(n / 10)[i]);
            }
        }
    }
}

/// Parses a decimal `u64` as `str::parse::<u64>` does.
pub fn parse_u64(s: &str) -> (r: Option<u64>)
    ensures
        r == parse_u64_spec(s@),
{
    let cs = chars_of(s);
    let start: usize = if cs.len() > 0 && cs[0] == '+' { 1 } else { 0 };
    let ghost d = if s@.len() > 0 && s@[0] == '+' { s@.drop_first() } else { s@ };
    assert(d == cs@.subrange(start as int, cs@.len() as int));
    assert(parse_u64_spec(s@) == parse_digits_spec(d));
    if start >= cs.len() {
        return None;
    }
    let mut value: u64 = 0;
    let mut i = start;
    while i < cs.len()
        invariant
            start <= i <= cs.len(),
            d == cs@.subrange(start as int, cs@.len() as int),
            parse_u64_spec(s@) == parse_digits_spec(d),
            forall|k: int| 0 <= k < i - start ==> is_digit(#[trigger] d[k]),
            value == digits_value(d.take(i - start)),
        decreases cs.len() - i,
    {
        let c = cs[i];
        if !('0' <= c && c <= '9') {
            assert(d[i - start] == c);
            assert(!is_digit(d[i - start]));
            assert(!all_digits(d));
            assert(parse_digits_spec(d) is None);
            return None;
        }
        let dv = (c as u32 - '0' as u32) as u64;
        assert(d[i - start] == c);
        assert(d.take(i - start + 1).drop_last() == d.take(i - start));
        assert(d.take(i - start + 1).last() == c);
        assert(digits_value(d.take(i - start + 1)) == value * 10 + dv);
        if value > (u64::MAX - dv) / 10 {
            proof {
                assert(digits_value(d.take(i - start + 1)) > u64::MAX) by (nonlinear_arith)
                    requires
                        value > (u64::MAX - dv) / 10,
                        digits_value(d.take(i - start + 1)) == value * 10 + dv,
                        dv < 10,
                ;
                if all_digits(d) {
                    lemma_digits_value_grows(d, i - start + 1);
                    assert(digits_value(d) > u64::MAX);
                }
            }
            return None;
        }
        value = value * 10 + dv;
        i = i + 1;
    }
    assert(d.take(i - start) == d);
    Some(value)
}

/// A text whose last character is not whitespace has at least one word.
pub proof fn lemma_words_nonempty(s: Seq<char>)
    requires
        s.len() > 0,
        !is_ws(s.last()),
    ensures
        words(s).len() > 0,
    decreases s.len(),
{
    if s.len() >= 2 && !is_ws(s[s.len() - 2]) {
        assert(s.drop_last().last() == s[s.len() - 2]);
        lemma_words_nonempty(s.drop_last());
    }
}

/// Joining one more piece adds the separator and the piece.
pub proof fn lemma_join_push(ws: Seq<Seq<char>>, w: Seq<char>, sep: Seq<char>)
    requires
        ws.len() > 0,
    ensures
        join(ws.push(w), sep) == join(ws, sep) + sep + w,
{
    assert(ws.push(w).drop_last() == ws);
}

/// Growing the last piece grows the joined text at its end.
pub proof fn lemma_join_update_last(ws: Seq<Seq<char>>, c: char, sep: Seq<char>)
    requires
        ws.len() > 0,
    ensures
        join(ws.update(ws.len() - 1, ws.last().push(c)), sep) == join(ws, sep).push(c),
{
    let w2 = ws.update(ws.len() - 1, ws.last().push(c));
    if ws.len() > 1 {
        assert(w2.drop_last() == ws.drop_last());
        assert(join(w2, sep) == join(ws.drop_last(), sep) + sep + ws.last().push(c));
        assert(join(ws.drop_last(), sep) + sep + ws.last().push(c) == (join(ws.drop_last(), sep) + sep + ws.last()).push(c));
    }
}

/// The first `n` whitespace-separated words of `s`, joined with single spaces.
pub fn first_words(s: &[char], n: usize) -> (r: Vec<char>)
    ensures
        r@ == join(first_n(words(s@), n as int), seq![' ']),
{
    let ghost sep = seq![' '];
    let mut out: Vec<char> = Vec::new();
    let mut count: usize = 0;
    let mut i: usize = 0;
    assert(s@.take(0) == Seq::<char>::empty());
    while i < s.len()
        invariant
            i <= s.len(),
            count == words(s@.take(i as int)).len(),
            count <= i,
            out@ == join(first_n(words(s@.take(i as int)), n as int), sep),
            sep == seq![' '],
        decreases s.len() - i,
    {
        let c = s[i];
        let ghost w = words(s@.take(i as int));
        let ghost t = s@.take(i + 1);
        assert(t.drop_last() == s@.take(i as int));
        assert(t.last() == c);
        if is_whitespace(c) {
            assert(words(t) == w);
        } else if i >= 1 && !is_whitespace(s[i - 1]) {
            assert(t[t.len() - 2] == s@[i - 1]);
            assert(words(t) == w.update(w.len() - 1, w.last().push(c)));
            proof {
                assert(s@.take(i as int).last() == s@[i - 1]);
                lemma_words_nonempty(s@.take(i as int));
            }
            if count <= n {
                proof {
                    lemma_join_update_last(w, c, sep);
                }
                out.push(c);
            } else {
                assert(words(t).take(n as int) =~= w.take(n as int));
            }
        } else {
            if i >= 1 {
                assert(t[t.len() - 2] == s@[i - 1]);
            }
            assert(words(t) == w.push(seq![c]));
            if count < n {
                if count > 0 {
                    proof {
                        lemma_join_push(w, seq![c], sep);
                    }
                    out.push(' ');
                    out.push(c);
                } else {
                    assert(w.push(seq![c]) == seq![seq![c]]);
                    out.push(c);
                }
            } else {
                assert(words(t).take(n as int) =~= first_n(w, n as int));
            }
            count = count + 1;
        }
        i = i + 1;
    }
    assert(s@.take(s.len() as int) == s@);
    out
}

/// The text of `s` before its third sentence break `". "`.
pub fn before_third_break(s: &[char]) -> (r: Vec<char>)
    ensures
        r@ == before_break(s@, 3),
{
    let mut out: Vec<char> = Vec::new();
    let mut i: usize = 0;
    let mut k: usize = 3;
    assert(s@.skip(0) == s@);
    while i < s.len()
        invariant
            i <= s.len(),
            1 <= k <= 3,
            out@ + before_break(s@.skip(i as int), k as nat) == before_break(s@, 3),
        decreases s.len() - i,
    {
        let ghost rest = s@.skip(i as int);
        if i + 1 < s.len() && s[i] == '.' && s[i + 1] == ' ' {
            assert(rest[0] == '.' && rest[1] == ' ');
            if k <= 1 {
                assert(before_break(rest, k as nat) == Seq::<char>::empty());
                assert(out@ + Seq::<char>::empty() == out@);
                return out;
            }
            assert(rest.skip(2) == s@.skip(i + 2));
            let ghost before = out@;
            out.push('.');
            out.push(' ');
            assert(out@ == before + seq!['.', ' ']);
            assert(before + (seq!['.', ' '] + before_break(rest.skip(2), (k - 1) as nat)) == out@ + before_break(rest.skip(2), (k - 1) as nat));
            k = k - 1;
            i = i + 2;
        } else {
            if i + 1 < s.len() {
                assert(!(rest[0] == '.' && rest[1] == ' '));
                assert(rest.skip(1) == s@.skip(i + 1));
                let ghost before = out@;
                out.push(s[i]);
                assert(before + (seq![rest[0]] + before_break(rest.skip(1), k as nat)) == out@ + before_break(rest.skip(1), k as nat));
                i = i + 1;
            } else {
                assert(rest.len() < 2);
                let ghost before = out@;
                out.push(s[i]);
                assert(before + rest == out@);
                assert(rest == seq![s@[i as int]]);
                i = i + 1;
                assert(s@.skip(i as int).len() == 0);
            }
        }
    }
    assert(s@.skip(i as int).len() == 0);
    out
}

/// `s` with every leading repetition of `p` removed.
pub fn strip_prefixes_chars(s: &[char], p: &[char]) -> (r: Vec<char>)
    ensures
        r@ == strip_prefixes(s@, p@),
{
    let mut i: usize = 0;
    assert(s@.skip(0) == s@);
    if p.len() > 0 {
        while match_at(s, p, i)
            invariant
                p.len() > 0,
                i <= s.len(),
                strip_prefixes(s@, p@) == strip_prefixes(s@.skip(i as int), p@),
            decreases s.len() - i,
        {
            assert(s@.skip(i as int).subrange(0, p.len() as int) == s@.subrange(i as int, i + p.len()));
            assert(s@.skip(i as int).skip(p.len() as int) == s@.skip(i + p.len()));
            i = i + p.len();
        }
        assert(s@.skip(i as int).subrange(0, p.len() as int) == s@.subrange(i as int, i + p.len()) || s@.skip(i as int).len() < p.len());
    }
    let mut r: Vec<char> = Vec::new();
    let mut k = i;
    while k < s.len()
        invariant
            i <= k <= s.len(),
            r@ == s@.subrange(i as int, k as int),
        decreases s.len() - k,
    {
        r.push(s[k]);
        k = k + 1;
    }
    assert(r@ == s@.skip(i as int));
    r
}

/// `s` with every trailing repetition of `p` removed.
pub fn strip_suffixes_chars(s: &[char], p: &[char]) -> (r: Vec<char>)
    ensures
        r@ == strip_suffixes(s@, p@),
{
    let mut j: usize = s.len();
    assert(s@.take(s.len() as int) == s@);
    if p.len() > 0 {
        while j >= p.len() && match_at(s, p, j - p.len())
            invariant
                p.len() > 0,
                j <= s.len(),
                strip_suffixes(s@, p@) == strip_suffixes(s@.take(j as int), p@),
            decreases j,
        {
            assert(s@.take(j as int).subrange(j - p.len(), j as int) == s@.subrange(j - p.len(), j as int));
            assert(s@.take(j as int).take(j - p.len()) == s@.take(j - p.len()));
            j = j - p.len();
        }
        if j >= p.len() {
            assert(s@.take(j as int).subrange(j - p.len(), j as int) == s@.subrange(j - p.len(), j as int));
        }
    }
    let mut r: Vec<char> = Vec::new();
    let mut k: usize = 0;
    while k < j
        invariant
            k <= j <= s.len(),
            r@ == s@.take(k as int),
        decreases j - k,
    {
        r.push(s[k]);
        k = k + 1;
    }
    r
}

/// The views of a list of strings.
pub open spec fn views(parts: Seq<String>) -> Seq<Seq<char>> {
    parts.map_values(|p: String| p@)
}

/// The strings `parts` joined with `sep` between consecutive ones (`[String]::join`).
pub fn join_strings(parts: &Vec<String>, sep: &str) -> (r: String)
    ensures
        r@ == join(views(parts@), sep@),
{
    let mut r = String::new();
    let mut i: usize = 0;
    while i < parts.len()
        invariant
            i <= parts.len(),
            r@ == join(views(parts@.take(i as int)), sep@),
        decreases parts.len() - i,
    {
        let ghost pre = views(parts@.take(i as int));
        let ghost cur = views(parts@.take(i + 1));
        assert(cur == pre.push(parts@[i as int]@));
        if i > 0 {
            proof {
                lemma_join_push(pre, parts@[i as int]@, sep@);
            }
            r.append(sep);
        } else {
            assert(cur.len() == 1);
        }
        r.append(parts[i].as_str());
        i = i + 1;
    }
    assert(parts@.take(parts.len() as int) == parts@);
    r
}

/// The last three elements of `s` (all of them when there are fewer).
pub open spec fn last_three<A>(s: Seq<A>) -> Seq<A> {
    if s.len() <= 3 {
        s
    } else {
        s.skip(s.len() - 3)
    }
}

/// `s` with every occurrence of `pat` (left to right, without overlap) removed.
pub fn remove_all_chars(s: &[char], pat: &[char]) -> (r: Vec<char>)
    ensures
        r@ == remove_all(s@, pat@),
{
    let mut out: Vec<char> = Vec::new();
    if pat.len() == 0 {
        let mut k: usize = 0;
        while k < s.len()
            invariant
                k <= s.len(),
                out@ == s@.take(k as int),
            decreases s.len() - k,
        {
            out.push(s[k]);
            k = k + 1;
        }
        assert(s@.take(s.len() as int) == s@);
        return out;
    }
    let mut i: usize = 0;
    assert(s@.skip(0) == s@);
    while i < s.len()
        invariant
            pat.len() > 0,
            i <= s.len(),
            out@ + remove_all(s@.skip(i as int), pat@) == remove_all(s@, pat@),
        decreases s.len() - i,
    {
        let ghost rest = s@.skip(i as int);
        if s.len() - i < pat.len() {
            assert(remove_all(rest, pat@) == rest);
            let ghost before = out@;
            let mut k = i;
            while k < s.len()
                invariant
                    i <= k <= s.len(),
                    out@ == before + s@.subrange(i as int, k as int),
                decreases s.len() - k,
            {
                out.push(s[k]);
                k = k + 1;
            }
            assert(s@.subrange(i as int, s.len() as int) == rest);
            return out;
        }
        if match_at(s, pat, i) {
            assert(rest.subrange(0, pat.len() as int) == s@.subrange(i as int, i + pat.len()));
            assert(rest.skip(pat.len() as int) == s@.skip(i + pat.len()));
            i = i + pat.len();
        } else {
            assert(rest.subrange(0, pat.len() as int) == s@.subrange(i as int, i + pat.len()));
            assert(rest.skip(1) == s@.skip(i + 1));
            let ghost before = out@;
            out.push(s[i]);
            assert(before + (seq![rest[0]] + remove_all(rest.skip(1), pat@)) == out@ + remove_all(rest.skip(1), pat@));
            i = i + 1;
        }
    }
    assert(s@.skip(i as int).len() == 0);
    assert(out@ + Seq::<char>::empty() == out@);
    out
}

} // verus!
