use vstd::prelude::*;
use crate::config::{ConfigError, ConfigErrorModel, PartialConfig, PartialConfigModel};
use crate::text::{split_chars, split_on, views};

verus! {

/// Whether `c` is an ASCII decimal digit.
pub open spec fn is_digit(c: char) -> bool {
    '0' <= c <= '9'
}

/// The number that a run of decimal digits writes.
pub open spec fn digits_value(s: Seq<char>) -> nat
    decreases s.len(),
{
    if s.len() == 0 {
        0
    } else {
        digits_value(s.drop_last()) * 10 + ((s.last() as int) - ('0' as int)) as nat
    }
}

/// The digits of an unsigned decimal number: all after an optional `+`.
pub open spec fn unsigned_digits(s: Seq<char>) -> Seq<char> {
    if s.len() > 0 && s[0] == '+' {
        s.drop_first()
    } else {
        s
    }
}

/// The `usize` that `s` writes in decimal: an optional `+`, then at least
/// one digit, and a value that fits.
pub open spec fn decimal_usize(s: Seq<char>) -> Option<usize> {
    let d = unsigned_digits(s);
    if d.len() > 0 && (forall|i: int| 0 <= i < d.len() ==> is_digit(#[trigger] d[i]))
        && digits_value(d) <= usize::MAX {
        Some(digits_value(d) as usize)
    } else {
        None
    }
}

proof fn lemma_digits_value_grows(s: Seq<char>, k: int)
    requires
        0 <= k <= s.len(),
        forall|i: int| 0 <= i < s.len() ==> is_digit(#[trigger] s[i]),
    ensures
        digits_value(s.subrange(0, k)) <= digits_value(s),
    decreases s.len() - k,
{
    if k < s.len() {
        lemma_digits_value_grows(s, k + 1);
        assert(s.subrange(0, k + 1).drop_last() == s.subrange(0, k));
    } else {
        assert(s.subrange(0, k) == s);
    }
}

/// Reads a decimal `usize`: an optional `+`, then digits only.
pub fn parse_usize(s: &str) -> (r: Option<usize>)
    ensures
        r == decimal_usize(s@),
{
    let n = s.unicode_len();
    let mut start: usize = 0;
    if n > 0 && s.get_char(0) == '+' {
        start = 1;
    }
    let ghost d = unsigned_digits(s@);
    assert(d == s@.subrange(start as int, n as int));
    if start == n {
        return None;
    }
    let mut value: usize = 0;
    let mut i = start;
    while i < n
        invariant
            n == s@.len(),
            start <= i <= n,
            start < n,
            d == s@.subrange(start as int, n as int),
            d == unsigned_digits(s@),
            forall|j: int| 0 <= j < i - start ==> is_digit(#[trigger] d[j]),
            value == digits_value(d.subrange(0, i - start)),
        decreases n - i,
    {
        let c = s.get_char(i);
        assert(d[i - start] == c);
        if c < '0' || c > '9' {
            assert(!is_digit(d[i - start]));
            return None;
        }
        let digit = (c as u32 - '0' as u32) as usize;
        assert(d.subrange(0, i - start + 1).drop_last() == d.subrange(0, i - start));
        assert(digits_value(d.subrange(0, i - start + 1)) == value * 10 + digit);
        let grown = match value.checked_mul(10) {
            Some(t) => t.checked_add(digit),
            None => None,
        };
        match grown {
            Some(v) => {
                value = v;
            },
            None => {
                assert(value * 10 + digit > usize::MAX);
                proof {
                    if forall|j: int| 0 <= j < d.len() ==> is_digit(#[trigger] d[j]) {
                        lemma_digits_value_grows(d, i - start + 1);
                    }
                }
                return None;
            },
        }
        i = i + 1;
    }
    assert(d.subrange(0, n - start) == d);
    Some(value)
}

/// Whether `c` has the Unicode property White_Space.
pub open spec fn is_white_space(c: char) -> bool {
    let x = c as u32;
    ||| 0x9 <= x <= 0xD
    ||| x == 0x20
    ||| x == 0x85
    ||| x == 0xA0
    ||| x == 0x1680
    ||| 0x2000 <= x <= 0x200A
    ||| x == 0x2028
    ||| x == 0x2029
    ||| x == 0x202F
    ||| x == 0x205F
    ||| x == 0x3000
}

/// `s` without its leading whitespace.
pub open spec fn trim_start(s: Seq<char>) -> Seq<char>
    decreases s.len(),
{
    if s.len() > 0 && is_white_space(s[0]) {
        trim_start(s.drop_first())
    } else {
        s
    }
}

/// `s` without its trailing whitespace.
pub open spec fn trim_end(s: Seq<char>) -> Seq<char>
    decreases s.len(),
{
    if s.len() > 0 && is_white_space(s.last()) {
        trim_end(s.drop_last())
    } else {
        s
    }
}

/// `s` without its leading and trailing whitespace.
pub open spec fn trimmed(s: Seq<char>) -> Seq<char> {
    trim_end(trim_start(s))
}

/// Relies on `str::trim`: `s` without its leading and trailing characters
/// of the Unicode property White_Space.
#[verifier::external_body]
fn trim(s: &str) -> (r: String)
    ensures
        r@ == trimmed(s@),
{
    s.trim().to_string()
}

/// The pieces that are not empty, in order.
pub open spec fn non_empty(pieces: Seq<Seq<char>>) -> Seq<Seq<char>>
    decreases pieces.len(),
{
    if pieces.len() == 0 {
        Seq::empty()
    } else if pieces.last().len() == 0 {
        non_empty(pieces.drop_last())
    } else {
        non_empty(pieces.drop_last()).push(pieces.last())
    }
}

/// The strategy names in a comma-separated list, each trimmed, empty ones
/// left out.
pub open spec fn listed_names(v: Seq<char>) -> Seq<Seq<char>> {
    non_empty(split_on(v, ',').map_values(|p: Seq<char>| trimmed(p)))
}

/// Keeps the pieces that are not empty.
pub fn keep_non_empty(pieces: Vec<String>) -> (r: Vec<String>)
    ensures
        views(r@) == non_empty(views(pieces@)),
{
    let mut out: Vec<String> = Vec::new();
    let mut i: usize = 0;
    while i < pieces.len()
        invariant
            i <= pieces@.len(),
            views(out@) == non_empty(views(pieces@).subrange(0, i as int)),
        decreases pieces@.len() - i,
    {
        assert(views(pieces@).subrange(0, i + 1).drop_last() == views(pieces@).subrange(0, i as int));
        if pieces[i].unicode_len() > 0 {
            let ghost before = out@;
            out.push(pieces[i].clone());
            assert(views(out@) == views(before).push(pieces@[i as int]@));
        }
        i = i + 1;
    }
    assert(views(pieces@).subrange(0, pieces@.len() as int) == views(pieces@));
    out
}

/// Reads the strategy names of a comma-separated list.
pub fn parse_fuzzer_list(v: &str) -> (r: Vec<String>)
    ensures
        views(r@) == listed_names(v@),
{
    let pieces = split_chars(v, ',');
    let ghost whole = split_on(v@, ',').map_values(|p: Seq<char>| trimmed(p));
    let mut trimmed_pieces: Vec<String> = Vec::new();
    let mut i: usize = 0;
    while i < pieces.len()
        invariant
            i <= pieces@.len(),
            views(pieces@) == split_on(v@, ','),
            whole == split_on(v@, ',').map_values(|p: Seq<char>| trimmed(p)),
            views(trimmed_pieces@) == whole.subrange(0, i as int),
        decreases pieces@.len() - i,
    {
        let t = trim(pieces[i].as_str());
        let ghost before = trimmed_pieces@;
        trimmed_pieces.push(t);
        assert(views(trimmed_pieces@) == views(before).push(t@));
        i = i + 1;
        assert(views(trimmed_pieces@) == whole.subrange(0, i as int));
    }
    assert(whole.subrange(0, pieces@.len() as int) == whole);
    keep_non_empty(trimmed_pieces)
}

/// Reads settings from the values of the environment variables
/// `GRIFFIN_WORKERS` and `GRIFFIN_FUZZERS`, each possibly unset.
pub struct PartialConfigEnvLoader;

impl PartialConfigEnvLoader {
    /// The settings that the two values give: the ceiling written in decimal,
    /// and the comma-separated strategy names.
    pub fn from_values(workers: Option<&str>, fuzzers: Option<&str>) -> (r: Result<PartialConfig, ConfigError>)
        ensures
            match workers {
                Some(w) if decimal_usize(w@) is None => r matches Err(e) && e@ == ConfigErrorModel::ParseError(
                    "Environment variable 'GRIFFIN_WORKERS'"@,
                    "usize"@,
                    "Value is not a number"@,
                ),
                _ => r matches Ok(p) && p@ == (PartialConfigModel {
                    domain: None,
                    workers: match workers {
                        Some(w) => decimal_usize(w@),
                        None => None,
                    },
                    fuzzers: match fuzzers {
                        Some(v) => Some(listed_names(v@)),
                        None => None,
                    },
                }),
            },
    {
        let workers = match workers {
            Some(w) => match parse_usize(w) {
                Some(n) => Some(n),
                None => {
                    return Err(
                        ConfigError::ParseError(
                            String::from_str("Environment variable 'GRIFFIN_WORKERS'"),
                            String::from_str("usize"),
                            String::from_str("Value is not a number"),
                        ),
                    );
                },
            },
            None => None,
        };
        let fuzzers = match fuzzers {
            Some(v) => Some(parse_fuzzer_list(v)),
            None => None,
        };
        Ok(PartialConfig { domain: None, workers, fuzzers })
    }
}

} // verus!
