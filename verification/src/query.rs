//! Target-string parsing: `host`, `host:port`, bracketed IPv6 with optional
//! port, and bare IPv6 literals (which never take a port, since a port after
//! a bare IPv6 literal would be ambiguous).

use vstd::prelude::*;

use crate::digits::{digit_char, spec_udec, u64_to_string};
use crate::error::RkikError;

verus! {

/// Parsed view of a target string.
#[derive(Debug)]
pub struct ParsedTarget {
    /// Host name, IPv4 literal, or IPv6 literal (without brackets).
    pub host: String,
    /// Explicit port, when one was given.
    pub port: Option<u16>,
    /// Whether the host is an IPv6 literal.
    pub is_ipv6_literal: bool,
}

impl Clone for ParsedTarget {
    fn clone(&self) -> (r: Self)
        ensures
            r.host@ == self.host@,
            r.port == self.port,
            r.is_ipv6_literal == self.is_ipv6_literal,
    {
        ParsedTarget {
            host: self.host.clone(),
            port: self.port,
            is_ipv6_literal: self.is_ipv6_literal,
        }
    }
}

/// A character with the Unicode `White_Space` property, the set that string
/// trimming removes from both ends.
pub open spec fn is_space_char(c: char) -> bool {
    ||| c == ' '
    ||| c == '\u{9}'
    ||| c == '\u{A}'
    ||| c == '\u{B}'
    ||| c == '\u{C}'
    ||| c == '\u{D}'
    ||| c == '\u{85}'
    ||| c == '\u{A0}'
    ||| c == '\u{1680}'
    ||| c == '\u{2000}'
    ||| c == '\u{2001}'
    ||| c == '\u{2002}'
    ||| c == '\u{2003}'
    ||| c == '\u{2004}'
    ||| c == '\u{2005}'
    ||| c == '\u{2006}'
    ||| c == '\u{2007}'
    ||| c == '\u{2008}'
    ||| c == '\u{2009}'
    ||| c == '\u{200A}'
    ||| c == '\u{2028}'
    ||| c == '\u{2029}'
    ||| c == '\u{202F}'
    ||| c == '\u{205F}'
    ||| c == '\u{3000}'
}

fn is_space(c: char) -> (r: bool)
    ensures
        r == is_space_char(c),
{
    c == ' ' || c == '\u{9}' || c == '\u{A}' || c == '\u{B}' || c == '\u{C}' || c == '\u{D}'
        || c == '\u{85}' || c == '\u{A0}' || c == '\u{1680}' || c == '\u{2000}' || c == '\u{2001}'
        || c == '\u{2002}' || c == '\u{2003}' || c == '\u{2004}' || c == '\u{2005}'
        || c == '\u{2006}' || c == '\u{2007}' || c == '\u{2008}' || c == '\u{2009}'
        || c == '\u{200A}' || c == '\u{2028}' || c == '\u{2029}' || c == '\u{202F}'
        || c == '\u{205F}' || c == '\u{3000}'
}

/// The sequence with leading whitespace removed.
pub open spec fn spec_trim_front(s: Seq<char>) -> Seq<char>
    decreases s.len(),
{
    if s.len() > 0 && is_space_char(s[0]) {
        spec_trim_front(s.skip(1))
    } else {
        s
    }
}

/// The sequence with trailing whitespace removed.
pub open spec fn spec_trim_back(s: Seq<char>) -> Seq<char>
    decreases s.len(),
{
    if s.len() > 0 && is_space_char(s.last()) {
        spec_trim_back(s.drop_last())
    } else {
        s
    }
}

/// The sequence with whitespace removed from both ends.
pub open spec fn spec_trim(s: Seq<char>) -> Seq<char> {
    spec_trim_back(spec_trim_front(s))
}

proof fn lemma_trim_front_is_skip(s: Seq<char>, a: int)
    requires
        0 <= a <= s.len(),
        forall|i: int| 0 <= i < a ==> is_space_char(#[trigger] s[i]),
        a == s.len() || !is_space_char(s[a]),
    ensures
        spec_trim_front(s) == s.skip(a),
    decreases a,
{
    if a == 0 {
        assert(s.skip(0) =~= s);
    } else {
        assert(is_space_char(s[0]));
        lemma_trim_front_is_skip(s.skip(1), a - 1);
        assert(s.skip(1).skip(a - 1) =~= s.skip(a));
    }
}

proof fn lemma_trim_back_is_take(s: Seq<char>, b: int)
    requires
        0 <= b <= s.len(),
        forall|i: int| b <= i < s.len() ==> is_space_char(#[trigger] s[i]),
        b == 0 || !is_space_char(s[b - 1]),
    ensures
        spec_trim_back(s) == s.take(b),
    decreases s.len() - b,
{
    if b == s.len() {
        if s.len() > 0 && is_space_char(s.last()) {
            lemma_trim_back_is_take(s.drop_last(), b - 1);
        } else {
            assert(s.take(b) =~= s);
        }
    } else {
        assert(is_space_char(s.last()));
        lemma_trim_back_is_take(s.drop_last(), b);
        assert(s.drop_last().take(b) =~= s.take(b));
    }
}

/// Remove whitespace from both ends of a string.
pub fn trim_str(s: &str) -> (t: &str)
    ensures
        t@ == spec_trim(s@),
{
    let n = s.unicode_len();
    let mut a: usize = 0;
    while a < n && is_space(s.get_char(a))
        invariant
            0 <= a <= n,
            n == s@.len(),
            forall|i: int| 0 <= i < a ==> is_space_char(#[trigger] s@[i]),
        decreases n - a,
    {
        a = a + 1;
    }
    proof {
        lemma_trim_front_is_skip(s@, a as int);
    }
    let mut b: usize = n;
    while b > a && is_space(s.get_char(b - 1))
        invariant
            a <= b <= n,
            n == s@.len(),
            forall|i: int| 0 <= i < a ==> is_space_char(#[trigger] s@[i]),
            a == n || !is_space_char(s@[a as int]),
            forall|i: int| b <= i < n ==> is_space_char(#[trigger] s@[i]),
        decreases b,
    {
        b = b - 1;
    }
    let t = s.substring_char(a, b);
    proof {
        let front = s@.skip(a as int);
        assert(b == a ==> !(b > a));
        if b > a {
            assert(!is_space_char(s@[b - 1]));
        }
        assert(forall|i: int| b - a <= i < front.len() ==> is_space_char(#[trigger] front[i]));
        lemma_trim_back_is_take(front, b - a);
        assert(front.take(b - a) =~= s@.subrange(a as int, b as int));
    }
    t
}

/// Number of `:` characters in the sequence.
pub open spec fn num_colons(s: Seq<char>) -> int
    decreases s.len(),
{
    if s.len() == 0 {
        0
    } else {
        num_colons(s.drop_last()) + if s.last() == ':' { 1int } else { 0int }
    }
}

proof fn lemma_no_colon_means_zero(s: Seq<char>)
    requires
        forall|i: int| 0 <= i < s.len() ==> s[i] != ':',
    ensures
        num_colons(s) == 0,
    decreases s.len(),
{
    if s.len() > 0 {
        lemma_no_colon_means_zero(s.drop_last());
    }
}

/// `k` is the index of the last `:` in `t`.
pub open spec fn last_colon_at(t: Seq<char>, k: int) -> bool {
    &&& 0 <= k < t.len()
    &&& t[k] == ':'
    &&& forall|i: int| k < i < t.len() ==> t[i] != ':'
}

/// `j` is the index of the first `]` in `t` after its opening `[`.
pub open spec fn bracket_close_at(t: Seq<char>, j: int) -> bool {
    &&& 1 <= j < t.len()
    &&& t[j] == ']'
    &&& forall|i: int| 1 <= i < j ==> t[i] != ']'
}

pub proof fn lemma_last_colon_unique(t: Seq<char>, k1: int, k2: int)
    requires
        last_colon_at(t, k1),
        last_colon_at(t, k2),
    ensures
        k1 == k2,
{
}

pub proof fn lemma_bracket_close_unique(t: Seq<char>, j1: int, j2: int)
    requires
        bracket_close_at(t, j1),
        bracket_close_at(t, j2),
    ensures
        j1 == j2,
{
}

/// Count the colons of `t` and find the last one, in a single scan.
fn scan_colons(t: &str) -> (r: (usize, Option<usize>))
    ensures
        r.0 == num_colons(t@),
        r.1 matches Some(k) ==> last_colon_at(t@, k as int),
        r.1 is None ==> num_colons(t@) == 0,
        r.0 > 0 ==> r.1 is Some,
{
    let n = t.unicode_len();
    let mut count: usize = 0;
    let mut last: Option<usize> = None;
    let mut i: usize = 0;
    while i < n
        invariant
            0 <= i <= n,
            n == t@.len(),
            count == num_colons(t@.take(i as int)),
            count <= i,
            last matches Some(k) ==> k < i && t@[k as int] == ':' && forall|m: int|
                k < m < i ==> t@[m] != ':',
            last is None ==> forall|m: int| 0 <= m < i ==> t@[m] != ':',
            count > 0 ==> last is Some,
        decreases n - i,
    {
        let c = t.get_char(i);
        proof {
            assert(t@.take(i + 1).drop_last() =~= t@.take(i as int));
            assert(t@.take(i + 1).last() == t@[i as int]);
        }
        if c == ':' {
            count = count + 1;
            last = Some(i);
        }
        i = i + 1;
    }
    proof {
        assert(t@.take(n as int) =~= t@);
        if last is None {
            lemma_no_colon_means_zero(t@);
        }
    }
    (count, last)
}

/// A decimal digit character.
pub open spec fn is_digit_char(c: char) -> bool {
    48 <= c as int <= 57
}

/// The value of a decimal digit character.
pub open spec fn digit_val(c: char) -> int {
    c as int - 48
}

/// Every character of the sequence is a decimal digit.
pub open spec fn all_digits(s: Seq<char>) -> bool {
    forall|i: int| 0 <= i < s.len() ==> is_digit_char(#[trigger] s[i])
}

/// Numeric value of a digit sequence, most significant digit first.
pub open spec fn dec_val(s: Seq<char>) -> int
    decreases s.len(),
{
    if s.len() == 0 {
        0
    } else {
        dec_val(s.drop_last()) * 10 + digit_val(s.last())
    }
}

/// The digits of an unsigned number string, with an optional leading `+`
/// stripped, following the grammar `u32` parsing accepts.
pub open spec fn unsigned_digits(s: Seq<char>) -> Seq<char> {
    if s.len() > 0 && s[0] == '+' {
        s.skip(1)
    } else {
        s
    }
}

/// The strings that parse as a `u32`: an optional `+`, one or more digits,
/// and a value that fits.
pub open spec fn u32_str_accepted(s: Seq<char>) -> bool {
    &&& unsigned_digits(s).len() > 0
    &&& all_digits(unsigned_digits(s))
    &&& dec_val(unsigned_digits(s)) <= u32::MAX
}

/// The strings accepted as a port: they parse as a `u32` whose value lies in
/// `[1, 65535]`.
pub open spec fn port_str_ok(s: Seq<char>) -> bool {
    &&& u32_str_accepted(s)
    &&& 1 <= dec_val(unsigned_digits(s)) <= 65535
}

/// The port number encoded by an accepted port string.
pub open spec fn port_str_val(s: Seq<char>) -> int {
    dec_val(unsigned_digits(s))
}

pub proof fn lemma_dec_val_nonneg(s: Seq<char>)
    requires
        all_digits(s),
    ensures
        dec_val(s) >= 0,
    decreases s.len(),
{
    if s.len() > 0 {
        assert(all_digits(s.drop_last())) by {
            assert(forall|i: int| 0 <= i < s.len() - 1 ==> is_digit_char(#[trigger] s[i]));
        }
        lemma_dec_val_nonneg(s.drop_last());
    }
}

/// The value of a digit string is at least the value of any of its prefixes.
pub proof fn lemma_dec_val_prefix(s: Seq<char>, i: int)
    requires
        all_digits(s),
        0 <= i <= s.len(),
    ensures
        dec_val(s.take(i)) <= dec_val(s),
    decreases s.len(),
{
    if i == s.len() {
        assert(s.take(i) =~= s);
    } else {
        assert(all_digits(s.drop_last()));
        lemma_dec_val_prefix(s.drop_last(), i);
        assert(s.drop_last().take(i) =~= s.take(i));
        lemma_dec_val_nonneg(s.drop_last());
    }
}

/// The message carried by a rejected port string: the echo of a string that
/// is not a number, or the out-of-range value.
pub open spec fn port_reject_msg(s: Seq<char>, m: Seq<char>) -> bool {
    if !u32_str_accepted(s) {
        m == "invalid port: '"@ + s + "'"@
    } else if !(1 <= dec_val(unsigned_digits(s)) <= 65535) {
        m == "port out of range [1..65535]: "@ + spec_udec(dec_val(unsigned_digits(s)) as nat)
    } else {
        false
    }
}

fn port_invalid_error(s: &str) -> (e: RkikError)
    requires
        !u32_str_accepted(s@),
    ensures
        e matches RkikError::Other(m) && port_reject_msg(s@, m@),
{
    let mut m = "invalid port: '".to_owned();
    m.append(s);
    m.append("'");
    proof {
        assert(m@ =~= "invalid port: '"@ + s@ + "'"@);
    }
    RkikError::Other(m)
}

/// Parse a port number strictly: decimal, in `[1, 65535]`.
pub fn parse_port_strict(s: &str) -> (r: Result<u16, RkikError>)
    ensures
        r is Ok <==> port_str_ok(s@),
        r matches Ok(p) ==> p as int == port_str_val(s@),
        r matches Err(e) ==> e matches RkikError::Other(m) && port_reject_msg(s@, m@),
{
    let n = s.unicode_len();
    let start: usize = if n > 0 && s.get_char(0) == '+' {
        1
    } else {
        0
    };
    let ghost d = unsigned_digits(s@);
    proof {
        assert(d =~= s@.subrange(start as int, n as int));
    }
    if start == n {
        return Err(port_invalid_error(s));
    }
    // First pass: every character must be a digit.
    let mut i: usize = start;
    while i < n
        invariant
            start <= i <= n,
            n == s@.len(),
            d == unsigned_digits(s@),
            d == s@.subrange(start as int, n as int),
            forall|m: int| start <= m < i ==> is_digit_char(#[trigger] s@[m]),
        decreases n - i,
    {
        let c = s.get_char(i);
        if !(c >= '0' && c <= '9') {
            proof {
                assert(!is_digit_char(d[i - start]));
                assert(!all_digits(d));
            }
            return Err(port_invalid_error(s));
        }
        i = i + 1;
    }
    proof {
        assert(all_digits(d)) by {
            assert(forall|m: int| 0 <= m < d.len() ==> d[m] == s@[m + start]
                && is_digit_char(#[trigger] d[m]));
        }
    }
    // Second pass: accumulate the value, stopping once it cannot fit.
    let mut acc: u64 = 0;
    i = start;
    while i < n
        invariant
            start <= i <= n,
            n == s@.len(),
            d == unsigned_digits(s@),
            d == s@.subrange(start as int, n as int),
            all_digits(d),
            acc == dec_val(d.take(i - start)),
            acc <= u32::MAX,
        decreases n - i,
    {
        let c = s.get_char(i);
        proof {
            assert(is_digit_char(d[i - start]));
            assert(d.take(i - start + 1).drop_last() =~= d.take(i - start));
            assert(d.take(i - start + 1).last() == d[i - start]);
        }
        let digit: u64 = (c as u32 - 48) as u64;
        acc = acc * 10 + digit;
        if acc > 0xFFFF_FFFF {
            proof {
                lemma_dec_val_prefix(d, i - start + 1);
                assert(dec_val(d) > u32::MAX);
                assert(!u32_str_accepted(s@));
            }
            return Err(port_invalid_error(s));
        }
        i = i + 1;
    }
    proof {
        assert(d.take(n - start) =~= d);
    }
    if acc == 0 || acc > 65535 {
        let mut m = "port out of range [1..65535]: ".to_owned();
        let rendered = u64_to_string(acc);
        m.append(rendered.as_str());
        proof {
            lemma_dec_val_nonneg(d);
            assert(m@ =~= "port out of range [1..65535]: "@ + spec_udec(dec_val(d) as nat));
        }
        Err(RkikError::Other(m))
    } else {
        Ok(acc as u16)
    }
}

/// Count the `:` characters of a string; what tells `host:port` apart
/// from a bare IPv6 literal.
pub fn colon_count(s: &str) -> (r: usize)
    ensures
        r == num_colons(s@),
{
    let (count, _) = scan_colons(s);
    count
}

/// Find the first `]` at index 1 or later.
fn find_bracket_close(t: &str) -> (r: Option<usize>)
    requires
        t@.len() >= 1,
    ensures
        r matches Some(j) ==> bracket_close_at(t@, j as int),
        r is None ==> forall|i: int| 1 <= i < t@.len() ==> t@[i] != ']',
{
    let n = t.unicode_len();
    let mut i: usize = 1;
    while i < n
        invariant
            1 <= i <= n,
            n == t@.len(),
            forall|m: int| 1 <= m < i ==> t@[m] != ']',
        decreases n - i,
    {
        if t.get_char(i) == ']' {
            return Some(i);
        }
        i = i + 1;
    }
    None
}

pub proof fn lemma_udec_all_digits(v: nat)
    ensures
        all_digits(spec_udec(v)),
        spec_udec(v).len() >= 1,
    decreases v,
{
    if v < 10 {
        assert(is_digit_char(digit_char(v as int)));
        assert(forall|i: int| 0 <= i < 1 ==> is_digit_char(#[trigger] spec_udec(v)[i]));
    } else {
        lemma_udec_all_digits(v / 10);
        assert(is_digit_char(digit_char((v % 10) as int)));
        assert(forall|i: int|
            0 <= i < spec_udec(v).len() ==> is_digit_char(#[trigger] spec_udec(v)[i]));
    }
}

/// The decimal rendering of a value parses back to that value.
pub proof fn lemma_udec_round_trip(v: nat)
    ensures
        dec_val(spec_udec(v)) == v,
    decreases v,
{
    if v < 10 {
        let single = seq![digit_char(v as int)];
        assert(single.drop_last() =~= Seq::<char>::empty());
        assert(dec_val(Seq::<char>::empty()) == 0);
        assert(dec_val(single) == digit_val(digit_char(v as int)));
        assert(digit_val(digit_char(v as int)) == v);
    } else {
        lemma_udec_round_trip(v / 10);
        let prefix = spec_udec(v / 10);
        let whole = spec_udec(v);
        assert(whole.drop_last() =~= prefix);
        assert(whole.last() == digit_char((v % 10) as int));
        assert(digit_val(digit_char((v % 10) as int)) == v % 10);
        assert(v == (v / 10) * 10 + (v % 10)) by {
            vstd::arithmetic::div_mod::lemma_fundamental_div_mod(v as int, 10);
        }
        assert(whole.len() > 0);
        assert(dec_val(whole) == dec_val(whole.drop_last()) * 10 + digit_val(whole.last()));
        assert(dec_val(whole.drop_last()) == v / 10);
        assert(dec_val(whole) == v);
    }
}

proof fn lemma_num_colons_concat(a: Seq<char>, b: Seq<char>)
    ensures
        num_colons(a + b) == num_colons(a) + num_colons(b),
    decreases b.len(),
{
    if b.len() == 0 {
        assert(a + b =~= a);
    } else {
        lemma_num_colons_concat(a, b.drop_last());
        assert((a + b).drop_last() =~= a + b.drop_last());
        assert((a + b).last() == b.last());
    }
}

proof fn lemma_digit_char_inverse(c: char)
    requires
        is_digit_char(c),
    ensures
        digit_char(digit_val(c)) == c,
{
    if c as int == 48 {
        assert(c == '0');
    } else if c as int == 49 {
        assert(c == '1');
    } else if c as int == 50 {
        assert(c == '2');
    } else if c as int == 51 {
        assert(c == '3');
    } else if c as int == 52 {
        assert(c == '4');
    } else if c as int == 53 {
        assert(c == '5');
    } else if c as int == 54 {
        assert(c == '6');
    } else if c as int == 55 {
        assert(c == '7');
    } else if c as int == 56 {
        assert(c == '8');
    } else {
        assert(c == '9');
    }
}

proof fn lemma_dec_val_positive(d: Seq<char>)
    requires
        all_digits(d),
        d.len() >= 1,
        d[0] != '0',
    ensures
        dec_val(d) >= 1,
    decreases d.len(),
{
    if d.len() == 1 {
        assert(digit_val(d[0]) >= 1);
        assert(d.drop_last() =~= Seq::<char>::empty());
        assert(dec_val(Seq::<char>::empty()) == 0);
    } else {
        let e = d.drop_last();
        assert(all_digits(e));
        assert(e[0] == d[0]);
        lemma_dec_val_positive(e);
        assert(digit_val(d.last()) >= 0);
    }
}

/// A canonical digit string — non-empty, digits only, no leading zero —
/// is reproduced exactly by rendering its value.
proof fn lemma_udec_canonical(d: Seq<char>)
    requires
        all_digits(d),
        d.len() >= 1,
        d.len() > 1 ==> d[0] != '0',
    ensures
        spec_udec(dec_val(d) as nat) == d,
    decreases d.len(),
{
    if d.len() == 1 {
        assert(d.drop_last() =~= Seq::<char>::empty());
        assert(dec_val(Seq::<char>::empty()) == 0);
        assert(dec_val(d) == digit_val(d[0]));
        lemma_digit_char_inverse(d[0]);
        assert(spec_udec(dec_val(d) as nat) =~= d);
    } else {
        let e = d.drop_last();
        let b = digit_val(d.last());
        assert(all_digits(e));
        assert(e[0] == d[0]);
        lemma_udec_canonical(e);
        lemma_dec_val_positive(e);
        let v = dec_val(d);
        assert(v == dec_val(e) * 10 + b);
        assert(10 * dec_val(e) + b == v);
        vstd::arithmetic::div_mod::lemma_div_multiples_vanish_fancy(dec_val(e), b, 10);
        assert(v / 10 == dec_val(e));
        assert(v >= 10);
        assert(v % 10 == b) by {
            vstd::arithmetic::div_mod::lemma_fundamental_div_mod(v, 10);
        }
        lemma_digit_char_inverse(d.last());
        assert(spec_udec(v as nat) == spec_udec(dec_val(e) as nat).push(digit_char(b)));
        assert(spec_udec(v as nat) =~= d);
    }
}

/// Parser round trip stated on the input side: whenever an accepted
/// `host:port` target wrote its port canonically (no sign, no leading
/// zeros), joining the parsed host, a colon, and the decimal rendering of
/// the parsed port reproduces the trimmed input exactly.
pub proof fn lemma_parse_reproduces_input(input: Seq<char>, pt: ParsedTarget)
    requires
        parsed_target_ok(input, pt),
        spec_trim(input).len() > 0,
        spec_trim(input)[0] != '[',
        num_colons(spec_trim(input)) == 1,
        forall|k: int|
            #[trigger] last_colon_at(spec_trim(input), k) ==> {
                let tail = spec_trim(input).skip(k + 1);
                &&& tail.len() > 0
                &&& tail[0] != '+'
                &&& (tail.len() > 1 ==> tail[0] != '0')
            },
    ensures
        pt.port is Some,
        pt.host@ + seq![':'] + spec_udec((pt.port->0) as nat) == spec_trim(input),
{
    let t = spec_trim(input);
    let k = choose|k: int|
        {
            &&& #[trigger] last_colon_at(t, k)
            &&& k > 0
            &&& pt.host@ == t.take(k)
            &&& port_str_ok(t.skip(k + 1))
            &&& pt.port matches Some(p) && p as int == port_str_val(t.skip(k + 1))
            &&& !pt.is_ipv6_literal
        };
    let tail = t.skip(k + 1);
    assert(unsigned_digits(tail) == tail);
    lemma_udec_canonical(tail);
    assert(spec_udec((pt.port->0) as nat) == tail);
    assert(pt.host@ + seq![':'] + tail =~= t);
}

/// The string `host:port`, with the port written canonically in decimal.
pub open spec fn host_port_target(host: Seq<char>, port: u16) -> Seq<char> {
    host + seq![':'] + spec_udec(port as nat)
}

/// The string `[lit]`.
pub open spec fn bracketed_target(lit: Seq<char>) -> Seq<char> {
    seq!['['] + lit + seq![']']
}

/// The string `[lit]:port`, with the port written canonically in decimal.
pub open spec fn bracketed_target_with_port(lit: Seq<char>, port: u16) -> Seq<char> {
    seq!['['] + lit + seq![']', ':'] + spec_udec(port as nat)
}

/// Round trip for plain `host:port` targets: composing a non-empty,
/// colon-free host that does not begin with `[` or whitespace with a port
/// written canonically in decimal, the parser accepts the string and gives
/// back exactly that host and that port.  Concatenating the parsed host, a
/// colon, and the parsed port therefore reproduces the trimmed input.
pub proof fn lemma_parse_round_trip(host: Seq<char>, port: u16)
    requires
        host.len() > 0,
        forall|i: int| 0 <= i < host.len() ==> host[i] != ':',
        host[0] != '[',
        !is_space_char(host[0]),
        port >= 1,
    ensures
        target_accepted(host_port_target(host, port)),
        forall|pt: ParsedTarget|
            #[trigger] parsed_target_ok(host_port_target(host, port), pt) ==> {
                &&& pt.host@ == host
                &&& pt.port == Some(port)
                &&& !pt.is_ipv6_literal
                &&& host_port_target(pt.host@, port) == host_port_target(host, port)
            },
{
    let digits = spec_udec(port as nat);
    let s = host_port_target(host, port);
    lemma_udec_all_digits(port as nat);
    lemma_udec_round_trip(port as nat);

    // Digits are neither whitespace, colons, pluses nor brackets.
    assert(forall|i: int| 0 <= i < digits.len() ==> (#[trigger] digits[i]) as int != 58) by {
        assert(forall|i: int| 0 <= i < digits.len() ==> is_digit_char(#[trigger] digits[i]));
    }
    assert((':') as int == 58);
    assert(('+') as int == 43);
    assert(!is_space_char(digits.last())) by {
        assert(is_digit_char(digits.last()));
    }

    // The composed string is already trimmed.
    assert(s[0] == host[0]);
    assert(s.last() == digits.last());
    lemma_trim_front_is_skip(s, 0);
    assert(s.skip(0) =~= s);
    lemma_trim_back_is_take(s, s.len() as int);
    assert(s.take(s.len() as int) =~= s);
    assert(spec_trim(s) == s);

    // Exactly one colon, at index host.len().
    lemma_no_colon_means_zero(host);
    lemma_num_colons_concat(host, seq![':']);
    lemma_num_colons_concat(host + seq![':'], digits);
    lemma_no_colon_means_zero(digits);
    assert(num_colons(seq![':']) == 1) by {
        let one = seq![':'];
        assert(one.len() == 1 && one.last() == ':');
        assert(one.drop_last() =~= Seq::<char>::empty());
        assert(num_colons(one.drop_last()) == 0);
    }
    assert(num_colons(s) == 1);

    let k = host.len() as int;
    assert(s[k] == ':');
    assert(forall|i: int| k < i < s.len() ==> #[trigger] s[i] == digits[i - k - 1]);
    assert(last_colon_at(s, k));

    // The port substring is the canonical digit string.
    let tail = s.skip(k + 1);
    assert(tail =~= digits);
    assert(unsigned_digits(tail) == tail) by {
        assert(is_digit_char(tail[0]));
    }
    assert(port_str_ok(tail));
    assert(target_accepted(s));

    assert forall|pt: ParsedTarget| #[trigger] parsed_target_ok(s, pt) implies {
        &&& pt.host@ == host
        &&& pt.port == Some(port)
        &&& !pt.is_ipv6_literal
        &&& pt.host@ + seq![':'] + digits == s
    } by {
        let k2 = choose|k2: int|
            {
                &&& #[trigger] last_colon_at(s, k2)
                &&& k2 > 0
                &&& pt.host@ == s.take(k2)
                &&& port_str_ok(s.skip(k2 + 1))
                &&& pt.port matches Some(p) && p as int == port_str_val(s.skip(k2 + 1))
                &&& !pt.is_ipv6_literal
            };
        lemma_last_colon_unique(s, k, k2);
        assert(pt.host@ =~= host);
    }
}

/// Round trip for bracketed IPv6 targets: `[literal]:port` parses to the
/// bare literal, the given port, and the IPv6 flag; `[literal]` alone parses
/// to the literal with no port.
pub proof fn lemma_bracket_round_trip(lit: Seq<char>, port: u16)
    requires
        forall|i: int| 0 <= i < lit.len() ==> lit[i] != ']',
        port >= 1,
    ensures
        target_accepted(bracketed_target_with_port(lit, port)),
        forall|pt: ParsedTarget|
            #[trigger] parsed_target_ok(bracketed_target_with_port(lit, port), pt) ==> pt.host@
                == lit && pt.port == Some(port) && pt.is_ipv6_literal,
        target_accepted(bracketed_target(lit)),
        forall|pt: ParsedTarget|
            #[trigger] parsed_target_ok(bracketed_target(lit), pt) ==> pt.host@ == lit
                && pt.port is None && pt.is_ipv6_literal,
{
    let digits = spec_udec(port as nat);
    lemma_udec_all_digits(port as nat);
    lemma_udec_round_trip(port as nat);
    assert((':') as int == 58);
    assert(('+') as int == 43);

    // With a port.
    let s = bracketed_target_with_port(lit, port);
    let j = 1 + lit.len() as int;
    assert(!is_space_char(s[0]));
    assert(s.last() == digits.last());
    assert(!is_space_char(digits.last())) by {
        assert(is_digit_char(digits.last()));
    }
    lemma_trim_front_is_skip(s, 0);
    assert(s.skip(0) =~= s);
    lemma_trim_back_is_take(s, s.len() as int);
    assert(s.take(s.len() as int) =~= s);
    assert(spec_trim(s) == s);
    assert(s[0] == '[');
    assert(s[j] == ']');
    assert(forall|i: int| 1 <= i < j ==> #[trigger] s[i] == lit[i - 1]);
    assert(bracket_close_at(s, j));
    assert(s[j + 1] == ':');
    let tail = s.skip(j + 2);
    assert(tail =~= digits);
    assert(unsigned_digits(tail) == tail) by {
        assert(is_digit_char(tail[0]));
    }
    assert(port_str_ok(tail));
    assert(target_accepted(s));
    assert forall|pt: ParsedTarget| #[trigger] parsed_target_ok(s, pt) implies pt.host@ == lit
        && pt.port == Some(port) && pt.is_ipv6_literal by {
        let j2 = choose|j2: int|
            {
                &&& #[trigger] bracket_close_at(s, j2)
                &&& pt.host@ == s.subrange(1, j2)
                &&& pt.is_ipv6_literal
                &&& if j2 + 1 == s.len() {
                    pt.port is None
                } else {
                    &&& j2 + 2 <= s.len()
                    &&& s[j2 + 1] == ':'
                    &&& port_str_ok(s.skip(j2 + 2))
                    &&& pt.port matches Some(p) && p as int == port_str_val(s.skip(j2 + 2))
                }
            };
        lemma_bracket_close_unique(s, j, j2);
        assert(pt.host@ =~= lit);
        assert(s.skip(j + 2) =~= digits);
    }

    // Without a port.
    let s0 = bracketed_target(lit);
    let j0 = 1 + lit.len() as int;
    assert(!is_space_char(s0[0]));
    assert(s0.last() == ']');
    assert(!is_space_char(']'));
    lemma_trim_front_is_skip(s0, 0);
    assert(s0.skip(0) =~= s0);
    lemma_trim_back_is_take(s0, s0.len() as int);
    assert(s0.take(s0.len() as int) =~= s0);
    assert(spec_trim(s0) == s0);
    assert(s0[0] == '[');
    assert(s0[j0] == ']');
    assert(forall|i: int| 1 <= i < j0 ==> #[trigger] s0[i] == lit[i - 1]);
    assert(bracket_close_at(s0, j0));
    assert(j0 + 1 == s0.len());
    assert(target_accepted(s0));
    assert forall|pt: ParsedTarget| #[trigger] parsed_target_ok(s0, pt) implies pt.host@ == lit
        && pt.port is None && pt.is_ipv6_literal by {
        let j2 = choose|j2: int|
            {
                &&& #[trigger] bracket_close_at(s0, j2)
                &&& pt.host@ == s0.subrange(1, j2)
                &&& pt.is_ipv6_literal
                &&& if j2 + 1 == s0.len() {
                    pt.port is None
                } else {
                    &&& j2 + 2 <= s0.len()
                    &&& s0[j2 + 1] == ':'
                    &&& port_str_ok(s0.skip(j2 + 2))
                    &&& pt.port matches Some(p) && p as int == port_str_val(s0.skip(j2 + 2))
                }
            };
        lemma_bracket_close_unique(s0, j0, j2);
        assert(pt.host@ =~= lit);
    }
}

/// The target strings the parser accepts, after trimming:
/// - `[v6]` and `[v6]:port` (bracketed IPv6);
/// - `host` and `host:port` (at most one colon, non-empty host);
/// - anything with two or more colons, as a bare IPv6 literal without port.
pub open spec fn target_accepted(input: Seq<char>) -> bool {
    let t = spec_trim(input);
    if t.len() == 0 {
        false
    } else if t[0] == '[' {
        exists|j: int|
            #[trigger] bracket_close_at(t, j) && (j + 1 == t.len() || (j + 2 <= t.len() && t[j
                + 1] == ':' && port_str_ok(t.skip(j + 2))))
    } else if num_colons(t) == 1 {
        exists|k: int| #[trigger] last_colon_at(t, k) && k > 0 && port_str_ok(t.skip(k + 1))
    } else {
        true
    }
}

/// What a successful parse returns, for each accepted shape of input.
pub open spec fn parsed_target_ok(input: Seq<char>, pt: ParsedTarget) -> bool {
    let t = spec_trim(input);
    &&& t.len() > 0
    &&& if t[0] == '[' {
        exists|j: int|
            {
                &&& #[trigger] bracket_close_at(t, j)
                &&& pt.host@ == t.subrange(1, j)
                &&& pt.is_ipv6_literal
                &&& if j + 1 == t.len() {
                    pt.port is None
                } else {
                    &&& j + 2 <= t.len()
                    &&& t[j + 1] == ':'
                    &&& port_str_ok(t.skip(j + 2))
                    &&& pt.port matches Some(p) && p as int == port_str_val(t.skip(j + 2))
                }
            }
    } else if num_colons(t) == 0 {
        pt.host@ == t && pt.port is None && !pt.is_ipv6_literal
    } else if num_colons(t) == 1 {
        exists|k: int|
            {
                &&& #[trigger] last_colon_at(t, k)
                &&& k > 0
                &&& pt.host@ == t.take(k)
                &&& port_str_ok(t.skip(k + 1))
                &&& pt.port matches Some(p) && p as int == port_str_val(t.skip(k + 1))
                &&& !pt.is_ipv6_literal
            }
    } else {
        pt.host@ == t && pt.port is None && pt.is_ipv6_literal
    }
}

/// The message carried by a rejected target string, for each way the
/// trimmed input `t` can be refused.
pub open spec fn target_reject_msg(t: Seq<char>, m: Seq<char>) -> bool {
    if t.len() == 0 {
        m == "empty target"@
    } else if t[0] == '[' {
        if !(exists|j: int| #[trigger] bracket_close_at(t, j)) {
            m == "missing closing ']' in '"@ + t + "'"@
        } else {
            exists|j: int|
                #[trigger] bracket_close_at(t, j) && if j + 1 == t.len() {
                    false
                } else if t[j + 1] == ':' {
                    port_reject_msg(t.skip(j + 2), m)
                } else {
                    m == "unexpected trailing characters in '"@ + t + "'"@
                }
        }
    } else if num_colons(t) == 1 {
        exists|k: int|
            #[trigger] last_colon_at(t, k) && if k == 0 {
                m == "missing host before port in '"@ + t + "'"@
            } else {
                port_reject_msg(t.skip(k + 1), m)
            }
    } else {
        false
    }
}

/// Parse a user-supplied target string.
///
/// Accepted shapes, after trimming whitespace from both ends:
/// - `hostname` or `1.2.3.4` (no colon, no port);
/// - `hostname:port` or `1.2.3.4:port` (exactly one colon);
/// - `[v6]` or `[v6]:port` (bracketed IPv6 literal);
/// - `v6` with two or more colons: a bare IPv6 literal, never with a port,
///   since `v6:port` would be ambiguous with the literal itself.
///
/// Ports are decimal and must lie in `[1, 65535]`; the error names the
/// offending value.  Empty trimmed input is an error.
pub fn parse_target(input: &str) -> (r: Result<ParsedTarget, RkikError>)
    ensures
        r is Ok <==> target_accepted(input@),
        r matches Ok(pt) ==> parsed_target_ok(input@, pt),
        r matches Err(e) ==> e matches RkikError::Other(m) && target_reject_msg(
            spec_trim(input@),
            m@,
        ),
{
    let t = trim_str(input);
    let n = t.unicode_len();
    if n == 0 {
        return Err(RkikError::Other("empty target".to_owned()));
    }
    if t.get_char(0) == '[' {
        // Bracketed IPv6: "[v6]" or "[v6]:port".
        match find_bracket_close(t) {
            None => {
                proof {
                    assert(forall|j: int| !bracket_close_at(t@, j));
                }
                let mut m = "missing closing ']' in '".to_owned();
                m.append(t);
                m.append("'");
                proof {
                    assert(m@ =~= "missing closing ']' in '"@ + t@ + "'"@);
                }
                Err(RkikError::Other(m))
            },
            Some(j) => {
                let host = t.substring_char(1, j).to_owned();
                if j + 1 == n {
                    Ok(ParsedTarget { host, port: None, is_ipv6_literal: true })
                } else if t.get_char(j + 1) == ':' {
                    let port_str = t.substring_char(j + 2, n);
                    proof {
                        assert(port_str@ =~= t@.skip(j + 2));
                    }
                    match parse_port_strict(port_str) {
                        Ok(p) => Ok(
                            ParsedTarget { host, port: Some(p), is_ipv6_literal: true },
                        ),
                        Err(e) => {
                            proof {
                                assert(forall|j2: int|
                                    bracket_close_at(t@, j2) ==> j2 == j as int);
                            }
                            Err(e)
                        },
                    }
                } else {
                    proof {
                        assert(forall|j2: int| bracket_close_at(t@, j2) ==> j2 == j as int);
                    }
                    let mut m = "unexpected trailing characters in '".to_owned();
                    m.append(t);
                    m.append("'");
                    proof {
                        assert(m@ =~= "unexpected trailing characters in '"@ + t@ + "'"@);
                    }
                    Err(RkikError::Other(m))
                }
            },
        }
    } else {
        let (count, last) = scan_colons(t);
        if count == 0 {
            // No colon: a hostname or IPv4 literal, no port.
            Ok(ParsedTarget { host: t.to_owned(), port: None, is_ipv6_literal: false })
        } else if count == 1 {
            // Exactly one colon: "host:port".
            let k = match last {
                Some(k) => k,
                None => {
                    proof {
                        assert(false);
                    }
                    0
                },
            };
            proof {
                assert(forall|k2: int| last_colon_at(t@, k2) ==> k2 == k as int);
            }
            if k == 0 {
                let mut m = "missing host before port in '".to_owned();
                m.append(t);
                m.append("'");
                proof {
                    assert(m@ =~= "missing host before port in '"@ + t@ + "'"@);
                }
                return Err(RkikError::Other(m));
            }
            let port_str = t.substring_char(k + 1, n);
            proof {
                assert(port_str@ =~= t@.skip(k + 1));
            }
            match parse_port_strict(port_str) {
                Ok(p) => {
                    let host = t.substring_char(0, k).to_owned();
                    proof {
                        assert(host@ =~= t@.take(k as int));
                    }
                    Ok(ParsedTarget { host, port: Some(p), is_ipv6_literal: false })
                },
                Err(e) => Err(e),
            }
        } else {
            // Two or more colons: a bare IPv6 literal, no port allowed.
            Ok(ParsedTarget { host: t.to_owned(), port: None, is_ipv6_literal: true })
        }
    }
}

/// The ambiguity policy for bare IPv6 literals: an unbracketed input with
/// two or more colons never yields a port — the whole trimmed input is the
/// host and the IPv6 flag is set, so a trailing `:number` is always read as
/// part of the literal, never as a port.
pub proof fn lemma_bare_ipv6_no_port(input: Seq<char>, pt: ParsedTarget)
    requires
        parsed_target_ok(input, pt),
        spec_trim(input).len() > 0,
        spec_trim(input)[0] != '[',
        num_colons(spec_trim(input)) >= 2,
    ensures
        pt.port is None,
        pt.is_ipv6_literal,
        pt.host@ == spec_trim(input),
{
}

/// What the single-target query service decides before any network work:
/// the host to resolve, the port to probe (the parsed one, or the caller's
/// default), and the address-family mode (an IPv6 literal forces IPv6
/// resolution regardless of the caller's preference).
#[derive(Debug)]
pub struct ProbePlan {
    /// Host to resolve.
    pub host: String,
    /// Port to probe.
    pub port: u16,
    /// Resolve IPv6 only.
    pub ipv6: bool,
}

/// Parse a target string and fix the probe parameters.  Everything that can
/// be decided before touching the network is decided here; any parse error
/// short-circuits the probe with no partial result.
pub fn plan_probe(target: &str, ipv6_only: bool, default_port: u16) -> (r: Result<
    ProbePlan,
    RkikError,
>)
    ensures
        r is Ok <==> target_accepted(target@),
        r matches Ok(plan) ==> exists|pt: ParsedTarget|
            {
                &&& #[trigger] parsed_target_ok(target@, pt)
                &&& plan.host@ == pt.host@
                &&& plan.port == (match pt.port {
                    Some(p) => p,
                    None => default_port,
                })
                &&& plan.ipv6 == (ipv6_only || pt.is_ipv6_literal)
            },
        r matches Err(e) ==> e matches RkikError::Other(m) && target_reject_msg(
            spec_trim(target@),
            m@,
        ),
{
    match parse_target(target) {
        Ok(pt) => {
            let ghost gpt = pt;
            let port = match pt.port {
                Some(p) => p,
                None => default_port,
            };
            let ipv6 = ipv6_only || pt.is_ipv6_literal;
            let plan = ProbePlan { host: pt.host, port, ipv6 };
            proof {
                assert(parsed_target_ok(target@, gpt));
            }
            Ok(plan)
        },
        Err(e) => Err(e),
    }
}

} // verus!
