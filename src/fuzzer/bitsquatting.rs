use vstd::prelude::*;
use crate::domain::{prefix_of, Domain, DomainModel};
use crate::fuzzer::addition::{alnum_alphabet, alnum_chars};
use crate::fuzzer::{keep_some, lemma_keep_some_step, with_tld, DomainFuzzer};
use crate::text::{push_char, push_range, views};
use itertools::Itertools;

verus! {

/// Flips one bit of one ASCII character of the domain label at a time,
/// keeping the results whose new character is a digit, a lowercase letter or
/// a hyphen.
#[derive(Debug, Clone, Copy, Default, PartialEq, Eq, Structural, Hash)]
pub struct BitsquattingFuzzerStrategy;

/// The characters that a flipped character must be one of.
pub open spec fn squat_alphabet() -> Seq<char> {
    alnum_alphabet().push('-')
}

/// The code of `c` with bit `bit` flipped.
pub open spec fn flipped(c: char, bit: int) -> u32 {
    (c as u32) ^ (1u32 << (bit as u32))
}

/// Flipping bit `bit` of position `i`, when that character is ASCII and the
/// new character is allowed.
pub open spec fn bitsquatting_at(p: Seq<char>, b: Seq<char>, t: Seq<char>, i: int, bit: int) -> Option<Seq<char>> {
    let f = flipped(b[i], bit);
    if (b[i] as u32) < 128 && f < 128 && squat_alphabet().contains(f as char) {
        Some(with_tld(p + b.update(i, f as char), t))
    } else {
        None
    }
}

/// Entry `8 * i + bit` stands for flipping bit `bit` of position `i`.
pub open spec fn bitsquatting_options(p: Seq<char>, b: Seq<char>, t: Seq<char>) -> Seq<Option<Seq<char>>> {
    Seq::new(b.len() * 8, |k: int| bitsquatting_at(p, b, t, k / 8, k % 8))
}

/// The candidates for `d`, by position, then by bit.
pub open spec fn bitsquatting_candidates(d: DomainModel) -> Seq<Seq<char>> {
    keep_some(bitsquatting_options(prefix_of(d.subdomain), d.domain, d.top_level_domain))
}

/// Relies on `Itertools::contains`: whether an item equal to `c` is among
/// those of the iterator.
#[verifier::external_body]
fn contains_char(set: &Vec<char>, c: char) -> (r: bool)
    ensures
        r == set@.contains(c),
{
    set.iter().contains(&c)
}

impl DomainFuzzer for BitsquattingFuzzerStrategy {
    open spec fn candidates(&self, d: DomainModel) -> Seq<Seq<char>> {
        bitsquatting_candidates(d)
    }

    fn fuzz(&self, domain: &Domain) -> (r: Vec<String>) {
        let prefix = domain.subdomain_prefix();
        let b = crate::text::chars_of(domain.domain.as_str());
        let ghost p = prefix@;
        let mut allowed = alnum_chars();
        allowed.push('-');
        let ghost t = domain@.top_level_domain;
        let ghost opts = bitsquatting_options(p, b@, t);
        let n = b.len();
        let mut out: Vec<String> = Vec::new();
        let mut i: usize = 0;
        while i < n
            invariant
                n == b@.len(),
                i <= n,
                allowed@ == squat_alphabet(),
                p == prefix@,
                opts == bitsquatting_options(p, b@, t),
                t == domain@.top_level_domain,
                views(out@) == keep_some(opts.subrange(0, 8 * i)),
            decreases n - i,
        {
            let c = b[i];
            let mut bit: u32 = 0;
            while bit < 8
                invariant
                    n == b@.len(),
                    i < n,
                    bit <= 8,
                    c == b@[i as int],
                    allowed@ == squat_alphabet(),
                    p == prefix@,
                    opts == bitsquatting_options(p, b@, t),
                    t == domain@.top_level_domain,
                    views(out@) == keep_some(opts.subrange(0, 8 * i + bit)),
                decreases 8 - bit,
            {
                let ghost k = 8 * i + bit;
                assert(k / 8 == i && k % 8 == bit) by (nonlinear_arith)
                    requires
                        k == 8 * i + bit,
                        bit < 8,
                {
                }
                assert(k < n * 8) by (nonlinear_arith)
                    requires
                        k == 8 * i + bit,
                        bit < 8,
                        i < n,
                {
                }
                proof {
                    lemma_keep_some_step(opts, k);
                }
                let f: u32 = (c as u32) ^ (1u32 << bit);
                assert(f == flipped(c, bit as int));
                if (c as u32) < 128 && f < 128 {
                    let nc = (f as u8) as char;
                    if contains_char(&allowed, nc) {
                        let mut s = prefix.clone();
                        push_range(&mut s, &b, 0, i);
                        push_char(&mut s, nc);
                        push_range(&mut s, &b, i + 1, n);
                        push_char(&mut s, '.');
                        s.append(domain.top_level_domain.as_str());
                        assert(b@.subrange(0, i as int).push(nc) + b@.subrange(i + 1, n as int) == b@.update(i as int, nc));
                        assert(s@ == with_tld(p + b@.update(i as int, nc), t));
                        let ghost before = out@;
                        out.push(s);
                        assert(views(out@) == views(before).push(s@));
                    }
                }
                bit = bit + 1;
            }
            i = i + 1;
        }
        assert(opts.subrange(0, 8 * n) == opts);
        out
    }
}

} // verus!
