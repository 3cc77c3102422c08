//! The transport endpoint type (an IPv4 address and a port) and a verified
//! parser for the textual `ip:port` form, e.g. `"127.0.0.1:34243"`.

use vstd::prelude::*;

verus! {

/// A transport endpoint: four IPv4 octets and a port.
///
/// Port `0` asks the operating system for an ephemeral port; it is a valid
/// value here, used by pure-sender roles that need no fixed listen address.
#[derive(Clone, Copy, PartialEq, Eq, Structural, Debug)]
pub struct SocketAddr {
    pub a: u8,
    pub b: u8,
    pub c: u8,
    pub d: u8,
    pub port: u16,
}

/// Whether `c` is a decimal digit.
pub open spec fn is_dec_digit(c: char) -> bool {
    '0' <= c && c <= '9'
}

/// The numeric value of a decimal digit.
pub open spec fn digit_value(c: char) -> nat {
    (c as nat - '0' as nat) as nat
}

/// The numeric value of a string of decimal digits, most significant first.
pub open spec fn dec_value(s: Seq<char>) -> nat
    decreases s.len(),
{
    if s.len() == 0 {
        0
    } else {
        dec_value(s.drop_last()) * 10 + digit_value(s.last())
    }
}

/// Whether every character of `s` is a decimal digit.
pub open spec fn all_dec_digits(s: Seq<char>) -> bool {
    forall|i: int| 0 <= i < s.len() ==> is_dec_digit(#[trigger] s[i])
}

/// A decimal numeral no greater than `max`: non-empty, digits only,
/// no leading zero (except the numeral `0` itself).
pub open spec fn is_dec_number(s: Seq<char>, max: nat) -> bool {
    &&& 1 <= s.len()
    &&& all_dec_digits(s)
    &&& (s.len() == 1 || s[0] != '0')
    &&& dec_value(s) <= max
}

/// The position of the first occurrence of `c` in `s` at or after `from`.
pub open spec fn find_from(s: Seq<char>, c: char, from: int) -> Option<int>
    decreases s.len() - from,
{
    if from < 0 || from >= s.len() {
        None
    } else if s[from] == c {
        Some(from)
    } else {
        find_from(s, c, from + 1)
    }
}

/// What the address parser returns on `s`: the string is split at the first
/// three dots and the first following colon; the four octets must be decimal
/// numerals up to `255` and the port a decimal numeral up to `65535`, each
/// without leading zeros. Any other string parses to `None`.
pub open spec fn spec_parse_socket_addr(s: Seq<char>) -> Option<SocketAddr> {
    match find_from(s, '.', 0) {
        None => None,
        Some(i1) => match find_from(s, '.', i1 + 1) {
            None => None,
            Some(i2) => match find_from(s, '.', i2 + 1) {
                None => None,
                Some(i3) => match find_from(s, ':', i3 + 1) {
                    None => None,
                    Some(i4) => {
                        let o1 = s.subrange(0, i1);
                        let o2 = s.subrange(i1 + 1, i2);
                        let o3 = s.subrange(i2 + 1, i3);
                        let o4 = s.subrange(i3 + 1, i4);
                        let p = s.subrange(i4 + 1, s.len() as int);
                        if is_dec_number(o1, 255) && is_dec_number(o2, 255)
                            && is_dec_number(o3, 255) && is_dec_number(o4, 255)
                            && is_dec_number(p, 65535) {
                            Some(SocketAddr {
                                a: dec_value(o1) as u8,
                                b: dec_value(o2) as u8,
                                c: dec_value(o3) as u8,
                                d: dec_value(o4) as u8,
                                port: dec_value(p) as u16,
                            })
                        } else {
                            None
                        }
                    },
                },
            },
        },
    }
}

/// Whether `s` is a well-formed `ip:port` string.
pub open spec fn valid_socket_addr_string(s: Seq<char>) -> bool {
    spec_parse_socket_addr(s) is Some
}

/// The position of the first occurrence of `c` in `s` at or after `from`,
/// or `None` if there is none.
fn find_char(s: &str, c: char, from: usize, n: usize) -> (r: Option<usize>)
    requires
        n == s@.len(),
    ensures
        match r {
            Some(k) => find_from(s@, c, from as int) == Some(k as int)
                && from <= k < n && s@[k as int] == c,
            None => find_from(s@, c, from as int) is None,
        },
{
    let mut i = from;
    while i < n
        invariant
            n == s@.len(),
            from <= i,
            find_from(s@, c, from as int) == find_from(s@, c, i as int),
        decreases n - i,
    {
        if s.get_char(i) == c {
            return Some(i);
        }
        i += 1;
    }
    None
}

/// The value of the decimal numeral `s[lo..hi]`, or `None` if that range is
/// not a decimal numeral no greater than `max`.
fn parse_number(s: &str, lo: usize, hi: usize, max: u32, n: usize) -> (r: Option<u32>)
    requires
        n == s@.len(),
        lo <= hi <= n,
        max <= 65535,
    ensures
        match r {
            Some(v) => is_dec_number(s@.subrange(lo as int, hi as int), max as nat)
                && v == dec_value(s@.subrange(lo as int, hi as int)) && v <= max,
            None => !is_dec_number(s@.subrange(lo as int, hi as int), max as nat),
        },
{
    let ghost whole = s@.subrange(lo as int, hi as int);
    if lo == hi {
        return None;
    }
    if hi - lo > 1 && s.get_char(lo) == '0' {
        assert(whole[0] == '0');
        return None;
    }
    let mut acc: u32 = 0;
    let mut i = lo;
    while i < hi
        invariant
            n == s@.len(),
            lo <= i <= hi <= n,
            max <= 65535,
            whole == s@.subrange(lo as int, hi as int),
            acc == dec_value(s@.subrange(lo as int, i as int)),
            acc <= max,
            all_dec_digits(s@.subrange(lo as int, i as int)),
        decreases hi - i,
    {
        let c = s.get_char(i);
        if !('0' <= c && c <= '9') {
            assert(whole[i - lo] == c);
            return None;
        }
        let d: u32 = (c as u32) - ('0' as u32);
        let next: u32 = acc * 10 + d;
        proof {
            let prefix = s@.subrange(lo as int, i as int);
            let ext = s@.subrange(lo as int, i + 1 as int);
            assert(ext.drop_last() =~= prefix);
            assert(ext.last() == s@[i as int]);
            assert(d == digit_value(s@[i as int]));
            assert(next == dec_value(ext));
            assert(forall|j: int| 0 <= j < ext.len() ==> is_dec_digit(#[trigger] ext[j]));
        }
        if next > max {
            proof {
                lemma_dec_value_prefix(whole, i + 1 - lo as int);
                assert(whole.take(i + 1 - lo as int) =~= s@.subrange(lo as int, i + 1 as int));
            }
            return None;
        }
        acc = next;
        i += 1;
    }
    proof {
        assert(s@.subrange(lo as int, i as int) =~= whole);
        if whole.len() > 1 {
            assert(whole[0] == s@[lo as int]);
        }
    }
    Some(acc)
}

/// The value of a prefix of a string is no greater than the value of
/// the whole string.
proof fn lemma_dec_value_prefix(s: Seq<char>, j: int)
    requires
        0 <= j <= s.len(),
    ensures
        dec_value(s.take(j)) <= dec_value(s),
    decreases s.len() - j,
{
    if j == s.len() {
        assert(s.take(j) =~= s);
    } else {
        let shorter = s.take(j);
        let longer = s.take(j + 1);
        assert(longer.drop_last() =~= shorter);
        assert(dec_value(longer) == dec_value(shorter) * 10 + digit_value(longer.last()));
        lemma_dec_value_prefix(s, j + 1);
    }
}

/// Parses an `ip:port` string into a [`SocketAddr`], returning `None` on any
/// malformed input; [`spec_parse_socket_addr`] states the exact grammar.
pub fn try_parse_socket_addr(s: &str) -> (r: Option<SocketAddr>)
    ensures
        r == spec_parse_socket_addr(s@),
{
    let n = s.unicode_len();
    let i1 = match find_char(s, '.', 0, n) {
        Some(i) => i,
        None => return None,
    };
    let i2 = match find_char(s, '.', i1 + 1, n) {
        Some(i) => i,
        None => return None,
    };
    let i3 = match find_char(s, '.', i2 + 1, n) {
        Some(i) => i,
        None => return None,
    };
    let i4 = match find_char(s, ':', i3 + 1, n) {
        Some(i) => i,
        None => return None,
    };
    let o1 = match parse_number(s, 0, i1, 255, n) {
        Some(v) => v,
        None => return None,
    };
    let o2 = match parse_number(s, i1 + 1, i2, 255, n) {
        Some(v) => v,
        None => return None,
    };
    let o3 = match parse_number(s, i2 + 1, i3, 255, n) {
        Some(v) => v,
        None => return None,
    };
    let o4 = match parse_number(s, i3 + 1, i4, 255, n) {
        Some(v) => v,
        None => return None,
    };
    let p = match parse_number(s, i4 + 1, n, 65535, n) {
        Some(v) => v,
        None => return None,
    };
    Some(SocketAddr {
        a: o1 as u8,
        b: o2 as u8,
        c: o3 as u8,
        d: o4 as u8,
        port: p as u16,
    })
}

/// The digit character for a value below ten.
pub open spec fn digit_char(v: nat) -> char {
    if v == 0 {
        '0'
    } else if v == 1 {
        '1'
    } else if v == 2 {
        '2'
    } else if v == 3 {
        '3'
    } else if v == 4 {
        '4'
    } else if v == 5 {
        '5'
    } else if v == 6 {
        '6'
    } else if v == 7 {
        '7'
    } else if v == 8 {
        '8'
    } else {
        '9'
    }
}

/// The shortest decimal numeral for `v`, most significant digit first.
pub open spec fn render_num(v: nat) -> Seq<char>
    decreases v,
{
    if v < 10 {
        seq![digit_char(v)]
    } else {
        render_num(v / 10).push(digit_char(v % 10))
    }
}

/// The textual `ip:port` form of an address.
pub open spec fn spec_addr_string(a: SocketAddr) -> Seq<char> {
    render_num(a.a as nat) + seq!['.'] + render_num(a.b as nat) + seq!['.'] + render_num(
        a.c as nat,
    ) + seq!['.'] + render_num(a.d as nat) + seq![':'] + render_num(a.port as nat)
}

/// A numeral rendered from `v` reads back as `v`: digits only, no leading
/// zero (except for the numeral `0`), and its decimal value is `v`.
proof fn lemma_render_num(v: nat)
    ensures
        render_num(v).len() >= 1,
        all_dec_digits(render_num(v)),
        dec_value(render_num(v)) == v,
        render_num(v).len() > 1 ==> render_num(v)[0] != '0',
        v >= 1 ==> render_num(v)[0] != '0',
    decreases v,
{
    let r = render_num(v);
    if v < 10 {
        assert(r =~= seq![digit_char(v)]);
        assert(r.drop_last() =~= Seq::<char>::empty());
        assert(digit_value(r.last()) == v);
        assert(dec_value(Seq::<char>::empty()) == 0);
    } else {
        lemma_render_num(v / 10);
        let prefix = render_num(v / 10);
        assert(r.drop_last() =~= prefix);
        assert(digit_value(r.last()) == v % 10);
        assert(r[0] == prefix[0]);
        assert(forall|i: int| 0 <= i < r.len() ==> is_dec_digit(#[trigger] r[i])) by {
            assert(forall|i: int| 0 <= i < prefix.len() ==> r[i] == #[trigger] prefix[i]);
        }
        assert(dec_value(r) == dec_value(prefix) * 10 + v % 10);
        assert((v / 10) * 10 + v % 10 == v) by (nonlinear_arith);
    }
}

/// If `c` first occurs at position `k` at or after `from`, the search finds
/// exactly `k`.
proof fn lemma_find_from_hit(s: Seq<char>, c: char, from: int, k: int)
    requires
        0 <= from <= k < s.len(),
        s[k] == c,
        forall|j: int| from <= j < k ==> s[j] != c,
    ensures
        find_from(s, c, from) == Some(k),
    decreases k - from,
{
    if from < k {
        lemma_find_from_hit(s, c, from + 1, k);
    }
}

/// Round trip: rendering an address and parsing the text gives the address
/// back — the grammar of [`spec_parse_socket_addr`] accepts exactly the
/// strings that [`spec_addr_string`] produces, with nothing lost.
#[verifier::rlimit(100)]
pub proof fn lemma_parse_render_round_trip(a: SocketAddr)
    ensures
        spec_parse_socket_addr(spec_addr_string(a)) == Some(a),
{
    let r1 = render_num(a.a as nat);
    let r2 = render_num(a.b as nat);
    let r3 = render_num(a.c as nat);
    let r4 = render_num(a.d as nat);
    let p = render_num(a.port as nat);
    lemma_render_num(a.a as nat);
    lemma_render_num(a.b as nat);
    lemma_render_num(a.c as nat);
    lemma_render_num(a.d as nat);
    lemma_render_num(a.port as nat);
    let s = spec_addr_string(a);
    let i1 = r1.len() as int;
    let i2 = i1 + 1 + r2.len();
    let i3 = i2 + 1 + r3.len();
    let i4 = i3 + 1 + r4.len();
    assert(s.len() == i4 + 1 + p.len());
    assert(forall|j: int| 0 <= j < i1 ==> s[j] == r1[j]);
    assert(s[i1] == '.');
    assert(forall|j: int| i1 + 1 <= j < i2 ==> s[j] == r2[j - (i1 + 1)]);
    assert(s[i2] == '.');
    assert(forall|j: int| i2 + 1 <= j < i3 ==> s[j] == r3[j - (i2 + 1)]);
    assert(s[i3] == '.');
    assert(forall|j: int| i3 + 1 <= j < i4 ==> s[j] == r4[j - (i3 + 1)]);
    assert(s[i4] == ':');
    assert(forall|j: int| i4 + 1 <= j < s.len() ==> s[j] == p[j - (i4 + 1)]);
    lemma_find_from_hit(s, '.', 0, i1);
    lemma_find_from_hit(s, '.', i1 + 1, i2);
    lemma_find_from_hit(s, '.', i2 + 1, i3);
    lemma_find_from_hit(s, ':', i3 + 1, i4);
    assert(s.subrange(0, i1) =~= r1);
    assert(s.subrange(i1 + 1, i2) =~= r2);
    assert(s.subrange(i2 + 1, i3) =~= r3);
    assert(s.subrange(i3 + 1, i4) =~= r4);
    assert(s.subrange(i4 + 1, s.len() as int) =~= p);
}

/// A digit character reads back as its value.
proof fn lemma_digit_char_of_value(c: char)
    requires
        is_dec_digit(c),
    ensures
        digit_char(digit_value(c)) == c,
{
}

/// A digit string without a leading zero is the rendering of its own value.
proof fn lemma_render_of_value(s: Seq<char>)
    requires
        s.len() >= 1,
        all_dec_digits(s),
        s.len() == 1 || s[0] != '0',
    ensures
        render_num(dec_value(s)) == s,
    decreases s.len(),
{
    let v = dec_value(s);
    lemma_digit_char_of_value(s.last());
    if s.len() == 1 {
        assert(s.drop_last() =~= Seq::<char>::empty());
        assert(dec_value(Seq::<char>::empty()) == 0);
        assert(render_num(v) =~= s);
    } else {
        let prefix = s.drop_last();
        assert(forall|i: int| 0 <= i < prefix.len() ==> prefix[i] == #[trigger] s[i]);
        lemma_render_of_value(prefix);
        let v1 = dec_value(prefix);
        let d = digit_value(s.last());
        // The leading digit is not zero, so the prefix has value at least one.
        lemma_dec_value_prefix(prefix, 1);
        assert(prefix.take(1).drop_last() =~= Seq::<char>::empty());
        assert(dec_value(Seq::<char>::empty()) == 0);
        assert(prefix.take(1).last() == prefix[0]);
        assert(dec_value(prefix.take(1)) == digit_value(prefix[0]));
        assert(v1 >= 1);
        assert(v1 == v / 10 && d == v % 10) by {
            vstd::arithmetic::div_mod::lemma_fundamental_div_mod_converse(
                v as int,
                10,
                v1 as int,
                d as int,
            );
        }
        assert(v >= 10) by (nonlinear_arith)
            requires
                v == v1 * 10 + d,
                v1 >= 1,
        ;
        assert(render_num(v) =~= s);
    }
}

/// A successful search found the character, and nothing earlier.
proof fn lemma_find_from_found(s: Seq<char>, c: char, from: int, k: int)
    requires
        0 <= from,
        find_from(s, c, from) == Some(k),
    ensures
        from <= k < s.len(),
        s[k] == c,
        forall|j: int| from <= j < k ==> s[j] != c,
    decreases s.len() - from,
{
    if from < s.len() && s[from] != c {
        lemma_find_from_found(s, c, from + 1, k);
    }
}

/// Canonical form: a string the parser accepts is the rendering of the
/// address it parses to — together with [`lemma_parse_render_round_trip`],
/// the well-formed strings and the addresses correspond one to one.
#[verifier::rlimit(100)]
pub proof fn lemma_render_parse_round_trip(s: Seq<char>)
    ensures
        spec_parse_socket_addr(s) matches Some(a) ==> spec_addr_string(a) == s,
{
    if spec_parse_socket_addr(s) is Some {
        let a = spec_parse_socket_addr(s)->Some_0;
        let i1 = find_from(s, '.', 0)->Some_0;
        let i2 = find_from(s, '.', i1 + 1)->Some_0;
        let i3 = find_from(s, '.', i2 + 1)->Some_0;
        let i4 = find_from(s, ':', i3 + 1)->Some_0;
        lemma_find_from_found(s, '.', 0, i1);
        lemma_find_from_found(s, '.', i1 + 1, i2);
        lemma_find_from_found(s, '.', i2 + 1, i3);
        lemma_find_from_found(s, ':', i3 + 1, i4);
        let o1 = s.subrange(0, i1);
        let o2 = s.subrange(i1 + 1, i2);
        let o3 = s.subrange(i2 + 1, i3);
        let o4 = s.subrange(i3 + 1, i4);
        let p = s.subrange(i4 + 1, s.len() as int);
        lemma_render_of_value(o1);
        lemma_render_of_value(o2);
        lemma_render_of_value(o3);
        lemma_render_of_value(o4);
        lemma_render_of_value(p);
        assert(a.a as nat == dec_value(o1));
        assert(a.b as nat == dec_value(o2));
        assert(a.c as nat == dec_value(o3));
        assert(a.d as nat == dec_value(o4));
        assert(a.port as nat == dec_value(p));
        assert(spec_addr_string(a) =~= s);
    }
}

/// Appends one digit character.
fn push_digit(out: &mut String, d: u8)
    requires
        d < 10,
    ensures
        final(out)@ == old(out)@ + seq![digit_char(d as nat)],
{
    proof {
        reveal_strlit("0");
        reveal_strlit("1");
        reveal_strlit("2");
        reveal_strlit("3");
        reveal_strlit("4");
        reveal_strlit("5");
        reveal_strlit("6");
        reveal_strlit("7");
        reveal_strlit("8");
        reveal_strlit("9");
    }
    match d {
        0 => out.append("0"),
        1 => out.append("1"),
        2 => out.append("2"),
        3 => out.append("3"),
        4 => out.append("4"),
        5 => out.append("5"),
        6 => out.append("6"),
        7 => out.append("7"),
        8 => out.append("8"),
        _ => out.append("9"),
    }
    proof {
        assert(out@ =~= old(out)@ + seq![digit_char(d as nat)]);
    }
}

/// Appends the shortest decimal numeral for `v`.
fn push_num(out: &mut String, v: u32)
    ensures
        final(out)@ == old(out)@ + render_num(v as nat),
    decreases v,
{
    if v >= 10 {
        push_num(out, v / 10);
    }
    push_digit(out, (v % 10) as u8);
    proof {
        assert(out@ =~= old(out)@ + render_num(v as nat));
    }
}

impl SocketAddr {
    /// The textual `ip:port` form of this address; parsing it gives the
    /// address back ([`lemma_parse_render_round_trip`]).
    pub fn as_string(&self) -> (r: String)
        ensures
            r@ == spec_addr_string(*self),
    {
        let mut out = String::new();
        push_num(&mut out, self.a as u32);
        out.append(".");
        push_num(&mut out, self.b as u32);
        out.append(".");
        push_num(&mut out, self.c as u32);
        out.append(".");
        push_num(&mut out, self.d as u32);
        out.append(":");
        push_num(&mut out, self.port as u32);
        proof {
            reveal_strlit(".");
            reveal_strlit(":");
            assert(out@ =~= spec_addr_string(*self));
        }
        out
    }
}

} // verus!
