//! Start-up settings: which variables name the address to listen on, their
//! defaults, and how the port is read.

use crate::validation::same_text;
use vstd::prelude::*;

verus! {

pub const DEFAULT_ENVIRONMENT: &'static str = "local";

pub const DEFAULT_HOST: &'static str = "127.0.0.1";

pub const DEFAULT_PORT: u16 = 8080;

pub const HOST_PREFIX: &'static str = "HOST_";

pub const PORT_PREFIX: &'static str = "PORT_";

/// The flag value that turns text generation on.
pub const GENERATION_ON: &'static str = "true";

/// What `str::to_uppercase` gives for `s`.
pub uninterp spec fn upper_of(s: Seq<char>) -> Seq<char>;

/// Relies on `str::to_uppercase`, whose result depends on the characters alone;
/// an empty string stays empty.
#[verifier::external_body]
fn uppercase(s: &str) -> (r: String)
    ensures
        r@ == upper_of(s@),
        s@.len() == 0 ==> r@.len() == 0,
{
    s.to_uppercase()
}

/// The environment name, `local` when none is set.
pub fn environment_name(value: Option<String>) -> (r: String)
    ensures
        value is Some ==> r@ == value->0@,
        value is None ==> r@ == DEFAULT_ENVIRONMENT@,
{
    match value {
        Some(v) => v,
        None => String::from_str(DEFAULT_ENVIRONMENT),
    }
}

/// The variable that holds the host for `environment`: `HOST_` and the
/// environment name in upper case.
pub fn host_variable(environment: &str) -> (r: String)
    ensures
        r@ == HOST_PREFIX@ + upper_of(environment@),
{
    let upper = uppercase(environment);
    let mut name = String::from_str(HOST_PREFIX);
    name.append(upper.as_str());
    name
}

/// The variable that holds the port for `environment`: `PORT_` and the
/// environment name in upper case.
pub fn port_variable(environment: &str) -> (r: String)
    ensures
        r@ == PORT_PREFIX@ + upper_of(environment@),
{
    let upper = uppercase(environment);
    let mut name = String::from_str(PORT_PREFIX);
    name.append(upper.as_str());
    name
}

/// The host to listen on, `127.0.0.1` when none is set.
pub fn bind_host(value: Option<String>) -> (r: String)
    ensures
        value is Some ==> r@ == value->0@,
        value is None ==> r@ == DEFAULT_HOST@,
{
    match value {
        Some(v) => v,
        None => String::from_str(DEFAULT_HOST),
    }
}

/// Generation is on exactly when the flag is set to `true`.
pub fn generation_enabled(flag: Option<String>) -> (r: bool)
    ensures
        r == (flag is Some && flag->0@ == GENERATION_ON@),
{
    match flag {
        Some(v) => same_text(v.as_str(), GENERATION_ON),
        None => false,
    }
}

pub open spec fn is_ascii_digit(c: char) -> bool {
    '0' <= c && c <= '9'
}

pub open spec fn all_ascii_digits(s: Seq<char>) -> bool {
    forall|i: int| 0 <= i < s.len() ==> is_ascii_digit(#[trigger] s[i])
}

/// The number that a string of decimal digits writes.
pub open spec fn digits_value(s: Seq<char>) -> int
    decreases s.len(),
{
    if s.len() == 0 {
        0
    } else {
        digits_value(s.drop_last()) * 10 + (s.last() as int - '0' as int)
    }
}

/// The port that `s` writes: an optional `+`, then one or more decimal digits
/// whose value is at most 65535.
pub open spec fn port_value(s: Seq<char>) -> Option<int> {
    let d = if s.len() > 0 && s[0] == '+' {
        s.drop_first()
    } else {
        s
    };
    if d.len() > 0 && all_ascii_digits(d) && digits_value(d) <= 65535 {
        Some(digits_value(d))
    } else {
        None
    }
}

proof fn lemma_digits_value_grows(s: Seq<char>, i: int)
    requires
        all_ascii_digits(s),
        0 <= i <= s.len(),
    ensures
        0 <= digits_value(s.subrange(0, i)) <= digits_value(s),
    decreases s.len() - i,
{
    if i < s.len() {
        lemma_digits_value_grows(s, i + 1);
        assert(s.subrange(0, i + 1).drop_last() == s.subrange(0, i));
        assert(is_ascii_digit(s[i]));
    } else {
        assert(s.subrange(0, i) == s);
        lemma_digits_value_nonneg(s);
    }
}

proof fn lemma_digits_value_nonneg(s: Seq<char>)
    requires
        all_ascii_digits(s),
    ensures
        digits_value(s) >= 0,
    decreases s.len(),
{
    if s.len() > 0 {
        assert(is_ascii_digit(s[s.len() - 1]));
        lemma_digits_value_nonneg(s.drop_last());
    }
}

/// Reads a port number written in decimal, with an optional leading `+`.
pub fn parse_port(text: &str) -> (r: Option<u16>)
    ensures
        match port_value(text@) {
            Some(v) => r matches Some(p) && p as int == v,
            None => r is None,
        },
{
    let n = text.unicode_len();
    let mut start: usize = 0;
    if n > 0 && text.get_char(0) == '+' {
        start = 1;
    }
    if start >= n {
        return None;
    }
    let ghost d = text@.subrange(start as int, n as int);
    assert(d == (if text@.len() > 0 && text@[0] == '+' {
        text@.drop_first()
    } else {
        text@
    }));
    let mut value: u32 = 0;
    let mut i: usize = start;
    while i < n
        invariant
            start <= i <= n,
            n == text@.len(),
            d == text@.subrange(start as int, n as int),
            d == (if text@.len() > 0 && text@[0] == '+' {
                text@.drop_first()
            } else {
                text@
            }),
            value as int == digits_value(d.subrange(0, i - start)),
            value <= 65535,
            all_ascii_digits(d.subrange(0, i - start)),
        decreases n - i,
    {
        let c = text.get_char(i);
        let ghost k: int = i - start;
        if !('0' <= c && c <= '9') {
            assert(d[k] == c);
            assert(!all_ascii_digits(d));
            return None;
        }
        let digit = (c as u32) - ('0' as u32);
        value = value * 10 + digit;
        assert(d.subrange(0, k + 1).drop_last() == d.subrange(0, k));
        assert(all_ascii_digits(d.subrange(0, k + 1))) by {
            assert forall|j: int| 0 <= j < k + 1 implies is_ascii_digit(
                #[trigger] d.subrange(0, k + 1)[j],
            ) by {
                if j < k {
                    assert(d.subrange(0, k + 1)[j] == d.subrange(0, k)[j]);
                }
            }
        }
        if value > 65535 {
            proof {
                if all_ascii_digits(d) {
                    lemma_digits_value_grows(d, k + 1);
                }
            }
            return None;
        }
        i = i + 1;
    }
    assert(d.subrange(0, d.len() as int) == d);
    Some(value as u16)
}

/// The port to listen on: 8080 when none is set, `None` when the value set
/// is not a port number.
pub fn bind_port(value: Option<String>) -> (r: Option<u16>)
    ensures
        value is None ==> r == Some(DEFAULT_PORT),
        value is Some ==> match port_value(value->0@) {
            Some(v) => r matches Some(p) && p as int == v,
            None => r is None,
        },
{
    match value {
        Some(v) => parse_port(v.as_str()),
        None => Some(DEFAULT_PORT),
    }
}

} // verus!
