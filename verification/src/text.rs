//! Character-sequence helpers shared by the library: prefix tests, substring
//! search, decimal rendering and parsing of unsigned integers.
use vstd::prelude::*;
use vstd::string::*;

verus! {

/// `String::push` appends one character at the end of the string.
pub assume_specification[ String::push ](s: &mut String, ch: char)
    ensures
        final(s)@ == old(s)@.push(ch),
;

/// `p` is a prefix of `s`.
pub open spec fn starts_with(s: Seq<char>, p: Seq<char>) -> bool {
    p.len() <= s.len() && s.subrange(0, p.len() as int) == p
}

/// `p` occurs in `s` at position `i`.
pub open spec fn occurs_at(s: Seq<char>, p: Seq<char>, i: int) -> bool {
    0 <= i && i + p.len() <= s.len() && s.subrange(i, i + p.len()) == p
}

/// The first position at or after `i` where `p` occurs in `s`.
pub open spec fn find_from(s: Seq<char>, p: Seq<char>, i: int) -> Option<int>
    decreases s.len() + 1 - i,
{
    if i < 0 || i + p.len() > s.len() {
        None
    } else if occurs_at(s, p, i) {
        Some(i)
    } else {
        find_from(s, p, i + 1)
    }
}

/// The first position where `p` occurs in `s`, as `str::find` reports it.
pub open spec fn find_first(s: Seq<char>, p: Seq<char>) -> Option<int> {
    find_from(s, p, 0)
}

/// The part of `s` before the first `c`, or all of `s`: the first piece
/// that `str::split(c)` yields.
pub open spec fn before_char(s: Seq<char>, c: char) -> Seq<char> {
    match find_first(s, seq![c]) {
        Some(i) => s.take(i),
        None => s,
    }
}

/// `s` without the prefix `p` where it has it, as `strip_prefix(p).unwrap_or(s)`.
pub open spec fn strip_prefix(s: Seq<char>, p: Seq<char>) -> Seq<char> {
    if starts_with(s, p) {
        s.skip(p.len() as int)
    } else {
        s
    }
}

pub open spec fn is_digit(c: char) -> bool {
    '0' <= c && c <= '9'
}

pub open spec fn digit_value(c: char) -> int {
    c as int - '0' as int
}

pub open spec fn digit_char(d: int) -> char {
    (d + '0' as int) as char
}

/// Decimal representation of `n`, without leading zeros.
pub open spec fn decimal(n: nat) -> Seq<char>
    decreases n,
{
    if n < 10 {
        seq![digit_char(n as int)]
    } else {
        decimal(n / 10).push(digit_char((n % 10) as int))
    }
}

/// Why a text is not an unsigned integer, as `core::num::IntErrorKind` says.
#[derive(Clone, Copy, Debug, PartialEq, Eq, Structural)]
pub enum ParseIntErrorKind {
    Empty,
    InvalidDigit,
    PosOverflow,
}

/// The text that describes why a text is not an integer, as
/// `core::num::ParseIntError` prints it.
pub open spec fn parse_error_text(k: ParseIntErrorKind) -> Seq<char> {
    match k {
        ParseIntErrorKind::Empty => "cannot parse integer from empty string"@,
        ParseIntErrorKind::InvalidDigit => "invalid digit found in string"@,
        ParseIntErrorKind::PosOverflow => "number too large to fit in target type"@,
    }
}

impl ParseIntErrorKind {
    /// The text that describes this reason.
    pub fn description(&self) -> (r: &'static str)
        ensures
            r@ == parse_error_text(*self),
    {
        match self {
            ParseIntErrorKind::Empty => "cannot parse integer from empty string",
            ParseIntErrorKind::InvalidDigit => "invalid digit found in string",
            ParseIntErrorKind::PosOverflow => "number too large to fit in target type",
        }
    }
}

/// Reads the digits `d` from left to right onto the value `acc`.
pub open spec fn parse_digits(d: Seq<char>, acc: u64) -> Result<u64, ParseIntErrorKind>
    decreases d.len(),
{
    if d.len() == 0 {
        Ok(acc)
    } else if !is_digit(d[0]) {
        Err(ParseIntErrorKind::InvalidDigit)
    } else if acc * 10 + digit_value(d[0]) > u64::MAX {
        Err(ParseIntErrorKind::PosOverflow)
    } else {
        parse_digits(d.drop_first(), (acc * 10 + digit_value(d[0])) as u64)
    }
}

/// What `str::parse::<u64>` gives for `s`: an optional `+`, then decimal
/// digits, with no overflow.
pub open spec fn spec_parse_u64(s: Seq<char>) -> Result<u64, ParseIntErrorKind> {
    if s.len() == 0 {
        Err(ParseIntErrorKind::Empty)
    } else if s.len() == 1 && (s[0] == '+' || s[0] == '-') {
        Err(ParseIntErrorKind::InvalidDigit)
    } else if s[0] == '+' {
        parse_digits(s.drop_first(), 0)
    } else {
        parse_digits(s, 0)
    }
}

/// The characters of `s`, in order.
pub fn chars_of(s: &str) -> (v: Vec<char>)
    ensures
        v@ == s@,
{
    let mut v: Vec<char> = Vec::new();
    for c in it: s.chars()
        invariant
            v@ == it.seq().take(it.index() as int),
            it.seq() == s@,
    {
        v.push(c);
    }
    v
}

/// Appends `v[from..to]` to `s`.
pub fn push_range(s: &mut String, v: &Vec<char>, from: usize, to: usize)
    requires
        from <= to <= v@.len(),
    ensures
        final(s)@ == old(s)@ + v@.subrange(from as int, to as int),
{
    let mut i = from;
    while i < to
        invariant
            from <= i <= to <= v@.len(),
            s@ == old(s)@ + v@.subrange(from as int, i as int),
        decreases to - i,
    {
        s.push(v[i]);
        i = i + 1;
        assert(v@.subrange(from as int, i as int) =~= v@.subrange(from as int, i - 1).push(v@[i - 1]));
    }
}

/// A copy of `v[from..to]`.
pub fn sub_vec(v: &Vec<char>, from: usize, to: usize) -> (r: Vec<char>)
    requires
        from <= to <= v@.len(),
    ensures
        r@ == v@.subrange(from as int, to as int),
{
    let mut r: Vec<char> = Vec::new();
    let mut i = from;
    while i < to
        invariant
            from <= i <= to <= v@.len(),
            r@ == v@.subrange(from as int, i as int),
        decreases to - i,
    {
        r.push(v[i]);
        i = i + 1;
        assert(r@ =~= v@.subrange(from as int, i as int));
    }
    r
}

/// A new string holding `v[from..to]`.
pub fn string_of_range(v: &Vec<char>, from: usize, to: usize) -> (s: String)
    requires
        from <= to <= v@.len(),
    ensures
        s@ == v@.subrange(from as int, to as int),
{
    let mut s = String::new();
    push_range(&mut s, v, from, to);
    assert(Seq::<char>::empty() + v@.subrange(from as int, to as int) =~= v@.subrange(from as int, to as int));
    s
}

/// Appends `t` to `s`.
pub fn push_str(s: &mut String, t: &str)
    ensures
        final(s)@ == old(s)@ + t@,
{
    s.append(t);
}

/// Whether `v[at..]` begins with `p`.
pub fn has_at(v: &Vec<char>, at: usize, p: &Vec<char>) -> (b: bool)
    requires
        at <= v@.len(),
    ensures
        b == occurs_at(v@, p@, at as int),
{
    if p.len() > v.len() - at {
        return false;
    }
    let mut j: usize = 0;
    while j < p.len()
        invariant
            at + p@.len() <= v@.len(),
            v@.len() <= usize::MAX,
            j <= p@.len(),
            forall|k: int| 0 <= k < j ==> v@[at + k] == p@[k],
        decreases p@.len() - j,
    {
        if v[at + j] != p[j] {
            assert(v@.subrange(at as int, at + p@.len())[j as int] != p@[j as int]);
            return false;
        }
        j = j + 1;
    }
    assert(v@.subrange(at as int, at + p@.len()) =~= p@);
    true
}

/// Whether `p` is a prefix of `s`.
pub fn str_starts_with(s: &str, p: &str) -> (b: bool)
    ensures
        b == starts_with(s@, p@),
{
    let sv = chars_of(s);
    let pv = chars_of(p);
    has_at(&sv, 0, &pv)
}

/// Whether `a` and `b` hold the same characters.
pub fn str_eq(a: &str, b: &str) -> (r: bool)
    ensures
        r == (a@ == b@),
{
    let av = chars_of(a);
    let bv = chars_of(b);
    if av.len() != bv.len() {
        return false;
    }
    let r = has_at(&av, 0, &bv);
    proof {
        assert(a@.subrange(0, a@.len() as int) =~= a@);
        if r {
            assert(a@ =~= a@.subrange(0, b@.len() as int));
        }
    }
    r
}

/// The first position at or after `from` where `p` occurs in `v`.
pub fn find_at_or_after(v: &Vec<char>, p: &Vec<char>, from: usize) -> (r: Option<usize>)
    requires
        from <= v@.len(),
    ensures
        match find_from(v@, p@, from as int) {
            Some(i) => r == Some(i as usize) && from <= i && i + p@.len() <= v@.len(),
            None => r is None,
        },
{
    if p.len() == 0 {
        assert(v@.subrange(from as int, from as int) =~= p@);
        return Some(from);
    }
    let mut i = from;
    while p.len() <= v.len() - i
        invariant
            from <= i <= v@.len(),
            p@.len() > 0,
            find_from(v@, p@, from as int) == find_from(v@, p@, i as int),
            forall|k: int| from <= k < i ==> !occurs_at(v@, p@, k),
        decreases v@.len() - i,
    {
        if has_at(v, i, p) {
            return Some(i);
        }
        i = i + 1;
    }
    proof {
        lemma_find_from_bounds(v@, p@, from as int);
    }
    None
}

/// What `find_from` reports is the first occurrence at or after `i`.
pub proof fn lemma_find_from_bounds(s: Seq<char>, p: Seq<char>, i: int)
    ensures
        find_from(s, p, i) matches Some(k) ==> i <= k && occurs_at(s, p, k) && (forall|j: int|
            i <= j < k ==> !#[trigger] occurs_at(s, p, j)),
        0 <= i && find_from(s, p, i) is None ==> (forall|j: int| i <= j ==> !#[trigger] occurs_at(s, p, j)),
    decreases s.len() + 1 - i,
{
    if !(i < 0 || i + p.len() > s.len()) && !occurs_at(s, p, i) {
        lemma_find_from_bounds(s, p, i + 1);
    }
}

/// Appends the decimal representation of `n` to `s`.
pub fn push_decimal(s: &mut String, n: u64)
    ensures
        final(s)@ == old(s)@ + decimal(n as nat),
    decreases n,
{
    if n >= 10 {
        push_decimal(s, n / 10);
    }
    let d: u8 = (n % 10) as u8;
    let c = (48u8 + d) as char;
    assert(c == digit_char((n % 10) as int));
    s.push(c);
    proof {
        if n >= 10 {
            assert(s@ =~= old(s)@ + decimal(n as nat));
        } else {
            assert(s@ =~= old(s)@ + decimal(n as nat));
        }
    }
}

/// Reads `v[from..to]` as `str::parse::<u64>` does.
pub fn parse_u64_range(v: &Vec<char>, from: usize, to: usize) -> (r: Result<u64, ParseIntErrorKind>)
    requires
        from <= to <= v@.len(),
    ensures
        r == spec_parse_u64(v@.subrange(from as int, to as int)),
{
    let ghost s = v@.subrange(from as int, to as int);
    if from == to {
        return Err(ParseIntErrorKind::Empty);
    }
    if to - from == 1 && (v[from] == '+' || v[from] == '-') {
        return Err(ParseIntErrorKind::InvalidDigit);
    }
    let mut i = from;
    if v[from] == '+' {
        i = from + 1;
        assert(s.drop_first() =~= v@.subrange(i as int, to as int));
    } else {
        assert(s =~= v@.subrange(i as int, to as int));
    }
    let mut acc: u64 = 0;
    while i < to
        invariant
            from <= i <= to <= v@.len(),
            s == v@.subrange(from as int, to as int),
            spec_parse_u64(s) == parse_digits(v@.subrange(i as int, to as int), acc),
        decreases to - i,
    {
        let c = v[i];
        let ghost d = v@.subrange(i as int, to as int);
        assert(d[0] == c);
        if !('0' <= c && c <= '9') {
            return Err(ParseIntErrorKind::InvalidDigit);
        }
        let x: u64 = (c as u32 - 48) as u64;
        assert(x == digit_value(c));
        match acc.checked_mul(10) {
            None => {
                return Err(ParseIntErrorKind::PosOverflow);
            },
            Some(m) => match m.checked_add(x) {
                None => {
                    return Err(ParseIntErrorKind::PosOverflow);
                },
                Some(a) => {
                    acc = a;
                },
            },
        }
        i = i + 1;
        assert(d.drop_first() =~= v@.subrange(i as int, to as int));
    }
    Ok(acc)
}

proof fn lemma_parse_digits_push(d: Seq<char>, c: char, acc: u64)
    ensures
        parse_digits(d.push(c), acc) == match parse_digits(d, acc) {
            Ok(v) => parse_digits(seq![c], v),
            Err(e) => Err(e),
        },
    decreases d.len(),
{
    if d.len() == 0 {
        assert(d.push(c) =~= seq![c]);
    } else {
        assert(d.push(c)[0] == d[0]);
        assert(d.push(c).drop_first() =~= d.drop_first().push(c));
        if is_digit(d[0]) && acc * 10 + digit_value(d[0]) <= u64::MAX {
            lemma_parse_digits_push(d.drop_first(), c, (acc * 10 + digit_value(d[0])) as u64);
        }
    }
}

/// Every character of `decimal(n)` is a digit, and the digits read back as `n`.
pub proof fn lemma_decimal_digits(n: nat)
    requires
        n <= u64::MAX,
    ensures
        decimal(n).len() > 0,
        forall|i: int| 0 <= i < decimal(n).len() ==> is_digit(#[trigger] decimal(n)[i]),
        parse_digits(decimal(n), 0) == Ok::<u64, ParseIntErrorKind>(n as u64),
    decreases n,
{
    reveal_with_fuel(parse_digits, 2);
    if n < 10 {
        let c = digit_char(n as int);
        assert(is_digit(c));
        assert(digit_value(c) == n);
        assert(decimal(n).drop_first() =~= Seq::<char>::empty());
    } else {
        lemma_decimal_digits(n / 10);
        let c = digit_char((n % 10) as int);
        assert(is_digit(c));
        assert(digit_value(c) == n % 10);
        lemma_parse_digits_push(decimal(n / 10), c, 0);
        assert(seq![c].drop_first() =~= Seq::<char>::empty());
        assert((n / 10) * 10 + n % 10 == n);
    }
}

/// Reading the decimal representation of a number gives the number back.
pub proof fn lemma_parse_decimal(n: u64)
    ensures
        spec_parse_u64(decimal(n as nat)) == Ok::<u64, ParseIntErrorKind>(n),
{
    lemma_decimal_digits(n as nat);
    assert(is_digit(decimal(n as nat)[0]));
}

/// With no occurrence in `[i, k)`, the search from `i` and from `k` agree.
pub proof fn lemma_find_skip(s: Seq<char>, p: Seq<char>, i: int, k: int)
    requires
        0 <= i <= k,
        forall|j: int| i <= j < k ==> !#[trigger] occurs_at(s, p, j),
    ensures
        find_from(s, p, i) == find_from(s, p, k),
    decreases k - i,
{
    if i < k {
        lemma_find_skip(s, p, i + 1, k);
        if i + p.len() > s.len() {
            lemma_find_from_bounds(s, p, k);
            assert(find_from(s, p, k) is None);
        }
    }
}

/// Occurrences that end within `t` are the same in `t + w`.
pub proof fn lemma_occurs_prefix(t: Seq<char>, w: Seq<char>, p: Seq<char>, j: int)
    requires
        0 <= j,
        j + p.len() <= t.len(),
    ensures
        occurs_at(t + w, p, j) == occurs_at(t, p, j),
{
    assert((t + w).subrange(j, j + p.len()) =~= t.subrange(j, j + p.len()));
}

} // verus!
