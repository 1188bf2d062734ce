use vstd::prelude::*;
use crate::domain::{prefix_of, Domain, DomainModel};
use crate::fuzzer::{keep_some, lemma_keep_some_step, with_tld, DomainFuzzer};
use crate::text::{chars_of, push_char, push_range, views};

verus! {

/// Puts a hyphen in front of one character of the domain label at a time.
#[derive(Debug, Clone, Copy, Default, PartialEq, Eq, Structural, Hash)]
pub struct HyphenTypoFuzzerStrategy;

/// A hyphen in front of position `i`; skipped at the start and next to a
/// hyphen that is already there.
pub open spec fn hyphen_typo_at(p: Seq<char>, b: Seq<char>, t: Seq<char>, i: int) -> Option<Seq<char>> {
    if i == 0 || b[i] == '-' || b[i - 1] == '-' {
        None
    } else {
        Some(with_tld(p + b.insert(i, '-'), t))
    }
}

/// For each position of the domain label, its candidate if it has one.
pub open spec fn hyphen_typo_options(p: Seq<char>, b: Seq<char>, t: Seq<char>) -> Seq<Option<Seq<char>>> {
    Seq::new(b.len(), |i: int| hyphen_typo_at(p, b, t, i))
}

/// The candidates for `d`, in order of position.
pub open spec fn hyphen_typo_candidates(d: DomainModel) -> Seq<Seq<char>> {
    keep_some(hyphen_typo_options(prefix_of(d.subdomain), d.domain, d.top_level_domain))
}

impl DomainFuzzer for HyphenTypoFuzzerStrategy {
    open spec fn candidates(&self, d: DomainModel) -> Seq<Seq<char>> {
        hyphen_typo_candidates(d)
    }

    fn fuzz(&self, domain: &Domain) -> (r: Vec<String>) {
        let prefix = domain.subdomain_prefix();
        let b = chars_of(domain.domain.as_str());
        let ghost p = prefix@;
        let ghost t = domain@.top_level_domain;
        let ghost opts = hyphen_typo_options(p, b@, t);
        let n = b.len();
        let mut out: Vec<String> = Vec::new();
        let mut i: usize = 0;
        while i < n
            invariant
                n == b@.len(),
                i <= n,
                p == prefix@,
                opts == hyphen_typo_options(p, b@, t),
                t == domain@.top_level_domain,
                views(out@) == keep_some(opts.subrange(0, i as int)),
            decreases n - i,
        {
            proof {
                lemma_keep_some_step(opts, i as int);
            }
            if i == 0 || b[i] == '-' || b[i - 1] == '-' {
            } else {
                let mut s = prefix.clone();
                push_range(&mut s, &b, 0, i);
                push_char(&mut s, '-');
                push_range(&mut s, &b, i, n);
                push_char(&mut s, '.');
                s.append(domain.top_level_domain.as_str());
                assert(b@.subrange(0, i as int).push('-') + b@.subrange(i as int, n as int) == b@.insert(i as int, '-'));
                assert(s@ == with_tld(p + b@.insert(i as int, '-'), t));
                let ghost before = out@;
                out.push(s);
                assert(views(out@) == views(before).push(s@));
            }
            i = i + 1;
        }
        assert(opts.subrange(0, n as int) == opts);
        out
    }
}

} // verus!
