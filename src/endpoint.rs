//! The port written in an endpoint's text.
//!
//! The URL parser reports no port where the written one is the scheme's
//! default; the configuration keeps every written port, so it is read from
//! the text itself: the authority runs from after `://` up to the first `/`,
//! `?` or `#`; the user part ends at its last `@`; the port is the decimal
//! number after the last `:` that follows every `]`.
use vstd::prelude::*;
use vstd::string::StrSliceExecFns;

verus! {

/// Largest port number.
pub const MAX_PORT: u32 = 65535;

/// First position at or after `i` where `://` starts; `s.len()` when none.
pub open spec fn scheme_mark(s: Seq<char>, i: int) -> int
    decreases s.len() - i,
{
    if i < 0 || i + 3 > s.len() {
        s.len() as int
    } else if s[i] == ':' && s[i + 1] == '/' && s[i + 2] == '/' {
        i
    } else {
        scheme_mark(s, i + 1)
    }
}

pub open spec fn ends_authority(c: char) -> bool {
    c == '/' || c == '?' || c == '#'
}

/// First position at or after `i` that ends the authority; `s.len()` when
/// none.
pub open spec fn authority_end(s: Seq<char>, i: int) -> int
    decreases s.len() - i,
{
    if i < 0 || i >= s.len() {
        s.len() as int
    } else if ends_authority(s[i]) {
        i
    } else {
        authority_end(s, i + 1)
    }
}

/// Start of the host: one past the last `@` in `[i, e)`, else `acc`.
pub open spec fn host_start(s: Seq<char>, i: int, e: int, acc: int) -> int
    decreases e - i,
{
    if i < 0 || i >= e || e > s.len() {
        acc
    } else {
        host_start(s, i + 1, e, if s[i] == '@' { i + 1 } else { acc })
    }
}

/// The last `:` in `[i, e)` that no later `]` follows, else `acc`; -1
/// stands for none.
pub open spec fn port_colon(s: Seq<char>, i: int, e: int, acc: int) -> int
    decreases e - i,
{
    if i < 0 || i >= e || e > s.len() {
        acc
    } else {
        port_colon(
            s,
            i + 1,
            e,
            if s[i] == ':' {
                i
            } else if s[i] == ']' {
                -1
            } else {
                acc
            },
        )
    }
}

/// The decimal number in `[i, e)`, read on from `acc`, when every character
/// there is a digit and the number stays a port number.
pub open spec fn port_digits(s: Seq<char>, i: int, e: int, acc: int) -> Option<int>
    decreases e - i,
{
    if i < 0 || i >= e || e > s.len() {
        Some(acc)
    } else if '0' <= s[i] && s[i] <= '9' && acc * 10 + (s[i] as int - '0' as int) <= MAX_PORT {
        port_digits(s, i + 1, e, acc * 10 + (s[i] as int - '0' as int))
    } else {
        None
    }
}

/// The port written in the authority of the endpoint `s`, if one is.
pub open spec fn written_port(s: Seq<char>) -> Option<u16> {
    let m = scheme_mark(s, 0);
    if m + 3 > s.len() {
        None
    } else {
        let e = authority_end(s, m + 3);
        let h = host_start(s, m + 3, e, m + 3);
        let c = port_colon(s, h, e, -1);
        if c < 0 || c + 1 >= e {
            None
        } else {
            match port_digits(s, c + 1, e, 0) {
                Some(n) => Some(n as u16),
                None => None,
            }
        }
    }
}

/// Reads the port written in the authority of the endpoint `s`.
pub fn find_written_port(s: &str) -> (r: Option<u16>)
    ensures
        r == written_port(s@),
{
    let ghost t = s@;
    let n = s.unicode_len();
    // Where `://` starts.
    let mut m: usize = 0;
    while n >= 3 && m <= n - 3 && !(s.get_char(m) == ':' && s.get_char(m + 1) == '/' && s.get_char(m + 2)
        == '/')
        invariant
            n == t.len(),
            t == s@,
            m <= n,
            scheme_mark(t, m as int) == scheme_mark(t, 0),
        decreases n - m,
    {
        m += 1;
    }
    if n < 3 || m > n - 3 {
        assert(scheme_mark(t, 0) == t.len());
        return None;
    }
    assert(scheme_mark(t, 0) == m);
    let a = m + 3;
    // Where the authority ends.
    let mut e: usize = a;
    while e < n && !(s.get_char(e) == '/' || s.get_char(e) == '?' || s.get_char(e) == '#')
        invariant
            n == t.len(),
            t == s@,
            a <= e <= n,
            authority_end(t, e as int) == authority_end(t, a as int),
        decreases n - e,
    {
        e += 1;
    }
    assert(authority_end(t, a as int) == e);
    // Where the host starts.
    let mut h: usize = a;
    let mut i: usize = a;
    while i < e
        invariant
            n == t.len(),
            t == s@,
            e <= n,
            a <= h <= i <= e,
            host_start(t, i as int, e as int, h as int) == host_start(t, a as int, e as int, a as int),
        decreases e - i,
    {
        if s.get_char(i) == '@' {
            h = i + 1;
        }
        i += 1;
    }
    assert(host_start(t, a as int, e as int, a as int) == h);
    // Where the port's colon is.
    let mut found: bool = false;
    let mut c: usize = 0;
    let mut j: usize = h;
    while j < e
        invariant
            n == t.len(),
            t == s@,
            e <= n,
            h <= j <= e,
            found ==> c < j,
            port_colon(t, j as int, e as int, if found { c as int } else { -1 }) == port_colon(
                t,
                h as int,
                e as int,
                -1,
            ),
        decreases e - j,
    {
        let ch = s.get_char(j);
        if ch == ':' {
            found = true;
            c = j;
        } else if ch == ']' {
            found = false;
        }
        j += 1;
    }
    assert(port_colon(t, h as int, e as int, -1) == if found { c as int } else { -1 });
    if !found || c + 1 >= e {
        return None;
    }
    let ghost digits = port_digits(t, c + 1, e as int, 0);
    assert(written_port(t) == match digits {
        Some(x) => Some(x as u16),
        None => None::<u16>,
    });
    // The digits after it.
    let mut v: u32 = 0;
    let mut k: usize = c + 1;
    while k < e
        invariant
            n == t.len(),
            t == s@,
            e <= n,
            c + 1 <= k <= e,
            v <= MAX_PORT,
            port_digits(t, k as int, e as int, v as int) == digits,
            written_port(t) == match digits {
                Some(x) => Some(x as u16),
                None => None::<u16>,
            },
        decreases e - k,
    {
        let ch = s.get_char(k);
        assert(ch == t[k as int]);
        if !('0' <= ch && ch <= '9') {
            assert(port_digits(t, k as int, e as int, v as int) == None::<int>);
            return None;
        }
        let d = (ch as u32) - ('0' as u32);
        assert(d as int == t[k as int] as int - '0' as int);
        if v > (MAX_PORT - d) / 10 {
            assert(v * 10 + d > MAX_PORT) by (nonlinear_arith)
                requires
                    v > (MAX_PORT - d) / 10,
                    d <= 9,
            ;
            assert(port_digits(t, k as int, e as int, v as int) == None::<int>);
            return None;
        }
        assert(v * 10 + d <= MAX_PORT) by (nonlinear_arith)
            requires
                v <= (MAX_PORT - d) / 10,
                d <= 9,
        ;
        assert(port_digits(t, k as int, e as int, v as int) == port_digits(
            t,
            k + 1,
            e as int,
            v * 10 + d,
        ));
        v = v * 10 + d;
        k += 1;
    }
    assert(port_digits(t, c + 1, e as int, 0) == Some(v as int));
    Some(v as u16)
}

} // verus!
