//! Character-level text handling shared by the wire format and the action paths.
use vstd::prelude::*;

verus! {

// ---------------------------------------------------------------------------
// Specifications
// ---------------------------------------------------------------------------

/// The Unicode `White_Space` property, which `char::is_whitespace` tests.
pub open spec fn is_ws(c: char) -> bool {
    let u = c as u32;
    ||| u == 0x09 || u == 0x0A || u == 0x0B || u == 0x0C || u == 0x0D || u == 0x20
    ||| u == 0x85 || u == 0xA0 || u == 0x1680
    ||| (0x2000 <= u && u <= 0x200A)
    ||| u == 0x2028 || u == 0x2029 || u == 0x202F || u == 0x205F || u == 0x3000
}

/// The fields of `s` as `str::split_whitespace` yields them: the maximal runs of
/// characters that are not whitespace, from left to right.
pub open spec fn split_ws(s: Seq<char>) -> Seq<Seq<char>>
    decreases s.len(),
{
    if s.len() == 0 {
        seq![]
    } else {
        let prev = split_ws(s.drop_last());
        let c = s.last();
        if is_ws(c) {
            prev
        } else if s.len() >= 2 && !is_ws(s[s.len() - 2]) {
            prev.update(prev.len() - 1, prev.last().push(c))
        } else {
            prev.push(seq![c])
        }
    }
}

/// `char::to_ascii_lowercase`: `A`..`Z` become `a`..`z`, everything else stays.
pub open spec fn ascii_lower(c: char) -> char {
    if 'A' <= c && c <= 'Z' {
        ((c as u32) + 32) as char
    } else {
        c
    }
}

/// `str::to_ascii_lowercase`.
pub open spec fn ascii_lower_seq(s: Seq<char>) -> Seq<char> {
    s.map_values(|c: char| ascii_lower(c))
}

/// `pat` occurs in `s` starting at index `i`.
pub open spec fn occurs_at(s: Seq<char>, pat: Seq<char>, i: int) -> bool {
    0 <= i && i + pat.len() <= s.len() && s.subrange(i, i + pat.len()) == pat
}

/// `str::contains` for a string pattern.
pub open spec fn contains_seq(s: Seq<char>, pat: Seq<char>) -> bool {
    exists|i: int| occurs_at(s, pat, i)
}

/// `str::ends_with` for a string pattern.
pub open spec fn ends_with_seq(s: Seq<char>, pat: Seq<char>) -> bool {
    pat.len() <= s.len() && s.subrange(s.len() - pat.len(), s.len() as int) == pat
}

/// `s` with every trailing `c` removed (`str::trim_end_matches` with a character).
pub open spec fn trim_end_char(s: Seq<char>, c: char) -> Seq<char>
    decreases s.len(),
{
    if s.len() > 0 && s.last() == c {
        trim_end_char(s.drop_last(), c)
    } else {
        s
    }
}

/// A decimal digit character.
pub open spec fn is_digit(c: char) -> bool {
    '0' <= c && c <= '9'
}

/// The value of a decimal digit character.
pub open spec fn digit_value(c: char) -> nat {
    ((c as u32) - ('0' as u32)) as nat
}

/// The character of the decimal digit `d`.
pub open spec fn digit_char(d: nat) -> char {
    ((d + ('0' as u32)) as u32) as char
}

/// The decimal text of `n`, without sign or leading zeros.
pub open spec fn decimal(n: nat) -> Seq<char>
    decreases n,
{
    if n < 10 {
        seq![digit_char(n)]
    } else {
        decimal(n / 10).push(digit_char(n % 10))
    }
}

/// Why an integer did not parse, as `core::num::IntErrorKind` reports it.
#[derive(Debug, Clone, Copy, PartialEq, Eq, Structural)]
pub enum IntErrorKind {
    Empty,
    InvalidDigit,
    PosOverflow,
}

/// Left-to-right scan of the digits of an unsigned integer, as `from_str_radix`
/// does it: a non-digit stops with `InvalidDigit`, a value above `max` with
/// `PosOverflow`, whichever comes first.
pub open spec fn scan_digits(ds: Seq<char>, max: nat) -> Result<nat, IntErrorKind>
    decreases ds.len(),
{
    if ds.len() == 0 {
        Ok(0)
    } else {
        match scan_digits(ds.drop_last(), max) {
            Err(k) => Err(k),
            Ok(v) => if !is_digit(ds.last()) {
                Err(IntErrorKind::InvalidDigit)
            } else if v * 10 + digit_value(ds.last()) > max {
                Err(IntErrorKind::PosOverflow)
            } else {
                Ok(v * 10 + digit_value(ds.last()))
            },
        }
    }
}

/// `str::parse` of an unsigned integer type whose largest value is `max`: an
/// optional leading `+`, then decimal digits.
pub open spec fn parse_unsigned(s: Seq<char>, max: nat) -> Result<nat, IntErrorKind> {
    if s.len() == 0 {
        Err(IntErrorKind::Empty)
    } else if s.len() == 1 && (s[0] == '+' || s[0] == '-') {
        Err(IntErrorKind::InvalidDigit)
    } else if s[0] == '+' {
        scan_digits(s.drop_first(), max)
    } else {
        scan_digits(s, max)
    }
}

/// The message that `ParseIntError` displays for each kind.
pub open spec fn int_error_text(k: IntErrorKind) -> Seq<char> {
    match k {
        IntErrorKind::Empty => "cannot parse integer from empty string"@,
        IntErrorKind::InvalidDigit => "invalid digit found in string"@,
        IntErrorKind::PosOverflow => "number too large to fit in target type"@,
    }
}

// ---------------------------------------------------------------------------
// Lemmas
// ---------------------------------------------------------------------------

/// Every field that `split_ws` yields is non-empty and holds no whitespace.
pub proof fn lemma_split_ws_fields(s: Seq<char>)
    ensures
        forall|k: int| 0 <= k < split_ws(s).len() ==> #[trigger] split_ws(s)[k].len() > 0,
        forall|k: int, j: int|
            0 <= k < split_ws(s).len() && 0 <= j < split_ws(s)[k].len() ==> !is_ws(
                #[trigger] split_ws(s)[k][j],
            ),
    decreases s.len(),
{
    if s.len() > 0 {
        lemma_split_ws_fields(s.drop_last());
        lemma_split_ws_nonempty_when_trailing(s.drop_last());
        let prev = split_ws(s.drop_last());
        let c = s.last();
        if !is_ws(c) && s.len() >= 2 && !is_ws(s[s.len() - 2]) {
            assert forall|k: int, j: int|
                0 <= k < split_ws(s).len() && 0 <= j < split_ws(s)[k].len() implies !is_ws(
                #[trigger] split_ws(s)[k][j],
            ) by {
                if k != prev.len() - 1 || j != prev.last().len() {
                    assert(split_ws(s)[k][j] == prev[k][j]);
                }
            }
        } else if !is_ws(c) {
            assert forall|k: int, j: int|
                0 <= k < split_ws(s).len() && 0 <= j < split_ws(s)[k].len() implies !is_ws(
                #[trigger] split_ws(s)[k][j],
            ) by {
                if k < prev.len() {
                    assert(split_ws(s)[k] == prev[k]);
                }
            }
        }
    }
}

/// A text that ends in a non-whitespace character has at least one field.
pub proof fn lemma_split_ws_nonempty_when_trailing(s: Seq<char>)
    ensures
        s.len() > 0 && !is_ws(s.last()) ==> split_ws(s).len() > 0,
    decreases s.len(),
{
    if s.len() > 0 && !is_ws(s.last()) {
        if s.len() >= 2 && !is_ws(s[s.len() - 2]) {
            lemma_split_ws_nonempty_when_trailing(s.drop_last());
        }
    }
}

/// Reading back the decimal text of `n` gives `n`.
pub proof fn lemma_scan_decimal(n: nat, max: nat)
    requires
        n <= max,
    ensures
        scan_digits(decimal(n), max) == Ok::<nat, IntErrorKind>(n),
    decreases n,
{
    let ds = decimal(n);
    if n < 10 {
        assert(ds.drop_last() =~= Seq::<char>::empty());
        assert(scan_digits(ds.drop_last(), max) == Ok::<nat, IntErrorKind>(0));
        assert(digit_value(digit_char(n)) == n);
        assert(is_digit(ds.last()));
    } else {
        lemma_scan_decimal(n / 10, max);
        assert(ds.drop_last() =~= decimal(n / 10));
        assert(digit_value(digit_char(n % 10)) == n % 10);
        assert(is_digit(ds.last()));
        assert((n / 10) * 10 + n % 10 == n);
    }
}

/// Once the scan of a prefix has failed, every longer prefix fails the same way.
pub proof fn lemma_scan_err_extends(ds: Seq<char>, n: int, m: int, max: nat)
    requires
        0 <= n <= m <= ds.len(),
        scan_digits(ds.take(n), max) is Err,
    ensures
        scan_digits(ds.take(m), max) == scan_digits(ds.take(n), max),
    decreases m - n,
{
    if m > n {
        lemma_scan_err_extends(ds, n, m - 1, max);
        assert(ds.take(m).drop_last() =~= ds.take(m - 1));
    }
}

/// The decimal text of a number that fits in 64 bits has at most 20 digits.
pub proof fn lemma_decimal_len_bound(n: nat)
    requires
        n <= u64::MAX,
    ensures
        decimal(n).len() <= 20,
{
    assert(pow10(20) == 100000000000000000000nat) by {
        reveal_with_fuel(pow10, 21);
    }
    lemma_decimal_len_below(n, 20);
}

/// `10^k`.
pub open spec fn pow10(k: nat) -> nat
    decreases k,
{
    if k == 0 {
        1
    } else {
        10 * pow10((k - 1) as nat)
    }
}

/// A number below `10^k` (with `k >= 1`) has at most `k` digits.
pub proof fn lemma_decimal_len_below(n: nat, k: nat)
    requires
        k >= 1,
        n < pow10(k),
    ensures
        decimal(n).len() <= k,
    decreases k,
{
    if n >= 10 {
        if k == 1 {
            assert(pow10(1) == 10) by {
                assert(pow10(0) == 1);
            }
        } else {
            let p = pow10((k - 1) as nat);
            assert(n / 10 < p) by (nonlinear_arith)
                requires
                    n < 10 * p,
            ;
            lemma_decimal_len_below(n / 10, (k - 1) as nat);
        }
    }
}

/// Every character of an ASCII text is one byte of its UTF-8 encoding.
pub proof fn lemma_ascii_byte_len(s: Seq<char>)
    requires
        vstd::utf8::is_ascii_chars(s),
    ensures
        vstd::utf8::encode_utf8(s).len() == s.len(),
{
    vstd::utf8::is_ascii_chars_encode_utf8(s);
}

/// The decimal text of a number starts with a digit.
pub proof fn lemma_decimal_first_is_digit(n: nat)
    ensures
        decimal(n).len() > 0,
        is_digit(decimal(n)[0]),
        forall|i: int| 0 <= i < decimal(n).len() ==> is_digit(#[trigger] decimal(n)[i]),
    decreases n,
{
    if n >= 10 {
        lemma_decimal_first_is_digit(n / 10);
    }
}

// ---------------------------------------------------------------------------
// Executable helpers
// ---------------------------------------------------------------------------

/// Calls `String::push`, which appends one character to the string.
#[verifier::external_body]
pub(crate) fn push_char(s: &mut String, c: char)
    ensures
        final(s)@ == old(s)@.push(c),
{
    s.push(c);
}

/// `char::is_whitespace`.
pub fn is_whitespace_char(c: char) -> (r: bool)
    ensures
        r == is_ws(c),
{
    let u = c as u32;
    u == 0x09 || u == 0x0A || u == 0x0B || u == 0x0C || u == 0x0D || u == 0x20 || u == 0x85
        || u == 0xA0 || u == 0x1680 || (0x2000 <= u && u <= 0x200A) || u == 0x2028 || u == 0x2029
        || u == 0x202F || u == 0x205F || u == 0x3000
}

/// The characters of `s`, in order.
pub fn chars_of(s: &str) -> (r: Vec<char>)
    ensures
        r@ == s@,
{
    let mut r: Vec<char> = Vec::new();
    for c in it: s.chars()
        invariant
            it.seq() == s@,
            r@ == it.seq().take(it.index() as int),
    {
        r.push(c);
    }
    proof {
        assert(s@.take(s@.len() as int) =~= s@);
    }
    r
}

/// A `String` holding the characters of `cs`.
pub fn string_of(cs: &[char]) -> (r: String)
    ensures
        r@ == cs@,
{
    let mut r = String::new();
    let mut i: usize = 0;
    while i < cs.len()
        invariant
            i <= cs@.len(),
            r@ == cs@.take(i as int),
        decreases cs@.len() - i,
    {
        push_char(&mut r, cs[i]);
        proof {
            assert(cs@.take(i + 1) =~= cs@.take(i as int).push(cs@[i as int]));
        }
        i += 1;
    }
    proof {
        assert(cs@.take(cs@.len() as int) =~= cs@);
    }
    r
}

/// The character sequences held by a sequence of character vectors.
pub open spec fn views(v: Seq<Vec<char>>) -> Seq<Seq<char>> {
    v.map_values(|x: Vec<char>| x@)
}

/// Splits `s` at whitespace like `str::split_whitespace`.
pub fn split_fields(s: &str) -> (r: Vec<Vec<char>>)
    ensures
        views(r@) == split_ws(s@),
{
    let cs = chars_of(s);
    let mut done: Vec<Vec<char>> = Vec::new();
    let mut cur: Vec<char> = Vec::new();
    let mut i: usize = 0;
    proof {
        assert(views(done@) =~= Seq::<Seq<char>>::empty());
        assert(cs@.take(0) =~= Seq::<char>::empty());
    }
    while i < cs.len()
        invariant
            i <= cs@.len(),
            cs@ == s@,
            (cur@.len() > 0) == (i > 0 && !is_ws(cs@[i - 1])),
            cur@.len() > 0 ==> split_ws(cs@.take(i as int)) == views(done@).push(cur@),
            cur@.len() == 0 ==> split_ws(cs@.take(i as int)) == views(done@),
        decreases cs@.len() - i,
    {
        let c = cs[i];
        let ghost pre = cs@.take(i as int);
        let ghost nxt = cs@.take(i + 1);
        proof {
            assert(nxt.drop_last() =~= pre);
            assert(nxt.last() == c);
        }
        if is_whitespace_char(c) {
            if cur.len() > 0 {
                let ghost old_done = done@;
                let fresh = cur.clone();
                proof {
                    assert(fresh@ == cur@);
                }
                done.push(fresh);
                cur = Vec::new();
                proof {
                    assert(views(done@) =~= views(old_done).push(fresh@));
                }
            }
        } else {
            proof {
                if i > 0 && !is_ws(cs@[i - 1]) {
                    assert(nxt[nxt.len() - 2] == cs@[i - 1]);
                    assert(split_ws(nxt) =~= views(done@).push(cur@.push(c)));
                } else {
                    assert(split_ws(nxt) =~= views(done@).push(seq![c]));
                    assert(cur@.push(c) =~= seq![c]);
                }
            }
            cur.push(c);
        }
        i += 1;
    }
    proof {
        assert(cs@.take(cs@.len() as int) =~= cs@);
    }
    if cur.len() > 0 {
        let ghost old_done = done@;
        let ghost last = cur@;
        done.push(cur);
        proof {
            assert(views(done@) =~= views(old_done).push(last));
        }
    }
    done
}

/// `to_ascii_lowercase` over the characters of `s`.
pub fn ascii_lowercase(s: &[char]) -> (r: Vec<char>)
    ensures
        r@ == ascii_lower_seq(s@),
{
    let mut r: Vec<char> = Vec::new();
    let mut i: usize = 0;
    while i < s.len()
        invariant
            i <= s@.len(),
            r@ == ascii_lower_seq(s@.take(i as int)),
        decreases s@.len() - i,
    {
        let c = s[i];
        let l = if 'A' <= c && c <= 'Z' {
            ((c as u8) + 32) as char
        } else {
            c
        };
        r.push(l);
        proof {
            assert(ascii_lower_seq(s@.take(i + 1)) =~= ascii_lower_seq(s@.take(i as int)).push(
                ascii_lower(c),
            ));
        }
        i += 1;
    }
    proof {
        assert(s@.take(s@.len() as int) =~= s@);
    }
    r
}

/// Whether `pat` occurs in `s` at index `i`.
pub fn matches_at(s: &[char], pat: &[char], i: usize) -> (r: bool)
    ensures
        r == occurs_at(s@, pat@, i as int),
{
    if i > s.len() || pat.len() > s.len() - i {
        return false;
    }
    let n = s.len();
    let mut j: usize = 0;
    while j < pat.len()
        invariant
            n == s@.len(),
            i <= s@.len(),
            i + pat@.len() <= s@.len(),
            j <= pat@.len(),
            forall|k: int| 0 <= k < j ==> s@[i + k] == pat@[k],
        decreases pat@.len() - j,
    {
        if s[i + j] != pat[j] {
            proof {
                assert(s@.subrange(i as int, i + pat@.len())[j as int] != pat@[j as int]);
            }
            return false;
        }
        j += 1;
    }
    proof {
        assert(s@.subrange(i as int, i + pat@.len()) =~= pat@);
    }
    true
}

/// `str::contains` on character sequences.
pub fn contains_chars(s: &[char], pat: &[char]) -> (r: bool)
    ensures
        r == contains_seq(s@, pat@),
{
    let mut i: usize = 0;
    while i < s.len()
        invariant
            i <= s@.len(),
            forall|k: int| 0 <= k < i ==> !occurs_at(s@, pat@, k),
        decreases s@.len() - i,
    {
        if matches_at(s, pat, i) {
            return true;
        }
        i += 1;
    }
    if matches_at(s, pat, s.len()) {
        return true;
    }
    proof {
        assert forall|k: int| !occurs_at(s@, pat@, k) by {}
    }
    false
}

/// `str::ends_with` on character sequences.
pub fn ends_with_chars(s: &[char], pat: &[char]) -> (r: bool)
    ensures
        r == ends_with_seq(s@, pat@),
{
    if pat.len() > s.len() {
        return false;
    }
    matches_at(s, pat, s.len() - pat.len())
}

/// The decimal text of `n`.
pub fn decimal_chars(n: u64) -> (r: Vec<char>)
    ensures
        r@ == decimal(n as nat),
    decreases n,
{
    if n < 10 {
        let c = ((n as u8) + 48) as char;
        proof {
            assert(c == digit_char(n as nat));
        }
        let mut v: Vec<char> = Vec::new();
        v.push(c);
        proof {
            assert(v@ =~= seq![c]);
        }
        v
    } else {
        let mut v = decimal_chars(n / 10);
        let c = (((n % 10) as u8) + 48) as char;
        proof {
            assert(c == digit_char((n % 10) as nat));
        }
        v.push(c);
        v
    }
}

/// Parses an unsigned decimal integer no larger than `max`, as `str::parse` does
/// for an unsigned integer type whose largest value is `max`.
pub fn parse_unsigned_chars(s: &[char], max: u64) -> (r: Result<u64, IntErrorKind>)
    requires
        max <= u32::MAX,
    ensures
        match parse_unsigned(s@, max as nat) {
            Ok(v) => r == Ok::<u64, IntErrorKind>(v as u64),
            Err(k) => r == Err::<u64, IntErrorKind>(k),
        },
{
    if s.len() == 0 {
        return Err(IntErrorKind::Empty);
    }
    if s.len() == 1 && (s[0] == '+' || s[0] == '-') {
        return Err(IntErrorKind::InvalidDigit);
    }
    let start: usize = if s[0] == '+' { 1 } else { 0 };
    let ghost ds = s@.skip(start as int);
    proof {
        if start == 1 {
            assert(ds =~= s@.drop_first());
        } else {
            assert(ds =~= s@);
        }
        assert(parse_unsigned(s@, max as nat) == scan_digits(ds, max as nat));
        assert(ds.take(0) =~= Seq::<char>::empty());
    }
    let mut acc: u64 = 0;
    let mut i: usize = start;
    while i < s.len()
        invariant
            start <= i <= s@.len(),
            ds == s@.skip(start as int),
            parse_unsigned(s@, max as nat) == scan_digits(ds, max as nat),
            max <= u32::MAX,
            acc <= max,
            scan_digits(ds.take(i - start), max as nat) == Ok::<nat, IntErrorKind>(acc as nat),
        decreases s@.len() - i,
    {
        let c = s[i];
        let ghost pre = ds.take(i - start);
        proof {
            assert(ds.take(i - start + 1).drop_last() =~= pre);
            assert(ds.take(i - start + 1).last() == c);
        }
        if !('0' <= c && c <= '9') {
            proof {
                assert(!is_digit(c));
                assert(scan_digits(ds.take(i - start + 1), max as nat) == Err::<nat, IntErrorKind>(
                    IntErrorKind::InvalidDigit,
                ));
                lemma_scan_err_extends(ds, i - start + 1, ds.len() as int, max as nat);
                assert(ds.take(ds.len() as int) =~= ds);
            }
            return Err(IntErrorKind::InvalidDigit);
        }
        let d = (c as u64) - 48;
        if acc * 10 + d > max {
            proof {
                assert(digit_value(c) == d);
                assert(scan_digits(ds.take(i - start + 1), max as nat) == Err::<nat, IntErrorKind>(
                    IntErrorKind::PosOverflow,
                ));
                lemma_scan_err_extends(ds, i - start + 1, ds.len() as int, max as nat);
                assert(ds.take(ds.len() as int) =~= ds);
            }
            return Err(IntErrorKind::PosOverflow);
        }
        acc = acc * 10 + d;
        i += 1;
    }
    proof {
        assert(ds.take(s@.len() - start) =~= ds);
    }
    Ok(acc)
}

/// The message of a `ParseIntError` of the given kind.
pub fn int_error_message(k: IntErrorKind) -> (r: String)
    ensures
        r@ == int_error_text(k),
{
    match k {
        IntErrorKind::Empty => "cannot parse integer from empty string".to_string(),
        IntErrorKind::InvalidDigit => "invalid digit found in string".to_string(),
        IntErrorKind::PosOverflow => "number too large to fit in target type".to_string(),
    }
}

/// `prefix` followed by the characters of `tail`.
pub fn concat_chars(prefix: &str, tail: &[char]) -> (r: String)
    ensures
        r@ == prefix@ + tail@,
{
    let mut r = prefix.to_string();
    let mut i: usize = 0;
    while i < tail.len()
        invariant
            i <= tail@.len(),
            r@ == prefix@ + tail@.take(i as int),
        decreases tail@.len() - i,
    {
        push_char(&mut r, tail[i]);
        proof {
            assert(tail@.take(i + 1) =~= tail@.take(i as int).push(tail@[i as int]));
        }
        i += 1;
    }
    proof {
        assert(tail@.take(tail@.len() as int) =~= tail@);
    }
    r
}

/// Whether `s` starts with `pat`.
pub fn starts_with_chars(s: &[char], pat: &[char]) -> (r: bool)
    ensures
        r == (pat@.len() <= s@.len() && s@.take(pat@.len() as int) == pat@),
{
    let r = matches_at(s, pat, 0);
    proof {
        if pat@.len() <= s@.len() {
            assert(s@.take(pat@.len() as int) =~= s@.subrange(0, pat@.len() as int));
        }
    }
    r
}

/// The characters of `s` after the first `n`.
pub fn skip_chars(s: &[char], n: usize) -> (r: Vec<char>)
    requires
        n <= s@.len(),
    ensures
        r@ == s@.skip(n as int),
{
    let mut r: Vec<char> = Vec::new();
    let mut k: usize = n;
    while k < s.len()
        invariant
            n <= k <= s@.len(),
            r@ == s@.subrange(n as int, k as int),
        decreases s@.len() - k,
    {
        r.push(s[k]);
        proof {
            assert(s@.subrange(n as int, k + 1) =~= s@.subrange(n as int, k as int).push(s@[k as int]));
        }
        k += 1;
    }
    proof {
        assert(s@.subrange(n as int, s@.len() as int) =~= s@.skip(n as int));
    }
    r
}

/// Whether two character sequences are equal.
pub fn equal_chars(a: &[char], b: &[char]) -> (r: bool)
    ensures
        r == (a@ == b@),
{
    if a.len() != b.len() {
        return false;
    }
    let mut i: usize = 0;
    while i < a.len()
        invariant
            a@.len() == b@.len(),
            i <= a@.len(),
            forall|j: int| 0 <= j < i ==> a@[j] == b@[j],
        decreases a@.len() - i,
    {
        if a[i] != b[i] {
            proof {
                assert(a@[i as int] != b@[i as int]);
            }
            return false;
        }
        i += 1;
    }
    proof {
        assert(a@ =~= b@);
    }
    true
}

/// The first `n` characters of `s`.
pub fn take_chars(s: &[char], n: usize) -> (r: Vec<char>)
    requires
        n <= s@.len(),
    ensures
        r@ == s@.take(n as int),
{
    let mut r: Vec<char> = Vec::new();
    let mut k: usize = 0;
    while k < n
        invariant
            k <= n <= s@.len(),
            r@ == s@.take(k as int),
        decreases n - k,
    {
        r.push(s[k]);
        proof {
            assert(s@.take(k + 1) =~= s@.take(k as int).push(s@[k as int]));
        }
        k += 1;
    }
    r
}

/// Lower-casing leaves no upper-case ASCII letter: every letter `A`..`Z` becomes
/// its lower-case letter 32 code points on, and every other character stays.
pub proof fn lemma_ascii_lower_letters(c: char)
    ensures
        !('A' <= ascii_lower(c) && ascii_lower(c) <= 'Z'),
        ascii_lower(c) != c ==> 'A' <= c && c <= 'Z' && (ascii_lower(c) as u32) == (c as u32) + 32,
        'a' <= ascii_lower(c) && ascii_lower(c) <= 'z' ==> ascii_lower(c) == c || (ascii_lower(
            c,
        ) as u32) == (c as u32) + 32,
{
}

} // verus!
