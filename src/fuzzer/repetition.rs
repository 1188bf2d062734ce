use vstd::prelude::*;
use crate::domain::{prefix_of, Domain, DomainModel};
use crate::fuzzer::{keep_some, lemma_keep_some_step, with_tld, DomainFuzzer};
use crate::text::{chars_of, push_char, push_range, views};

verus! {

/// Doubles one character of the domain label at a time.
#[derive(Debug, Clone, Copy, Default, PartialEq, Eq, Structural, Hash)]
pub struct RepetitionFuzzerStrategy;

/// Doubling position `i`; skipped on a dot, and where a neighbour is the
/// same character, since that would make three in a row.
pub open spec fn repetition_at(p: Seq<char>, b: Seq<char>, t: Seq<char>, i: int) -> Option<Seq<char>> {
    if b[i] == '.' || (i + 1 < b.len() && b[i + 1] == b[i]) || (i > 0 && b[i - 1] == b[i]) {
        None
    } else {
        Some(with_tld(p + b.insert(i, b[i]), t))
    }
}

/// For each position of the domain label, its candidate if it has one.
pub open spec fn repetition_options(p: Seq<char>, b: Seq<char>, t: Seq<char>) -> Seq<Option<Seq<char>>> {
    Seq::new(b.len(), |i: int| repetition_at(p, b, t, i))
}

/// The candidates for `d`, in order of position.
pub open spec fn repetition_candidates(d: DomainModel) -> Seq<Seq<char>> {
    keep_some(repetition_options(prefix_of(d.subdomain), d.domain, d.top_level_domain))
}

impl DomainFuzzer for RepetitionFuzzerStrategy {
    open spec fn candidates(&self, d: DomainModel) -> Seq<Seq<char>> {
        repetition_candidates(d)
    }

    fn fuzz(&self, domain: &Domain) -> (r: Vec<String>) {
        let prefix = domain.subdomain_prefix();
        let b = chars_of(domain.domain.as_str());
        let ghost p = prefix@;
        let ghost t = domain@.top_level_domain;
        let ghost opts = repetition_options(p, b@, t);
        let n = b.len();
        let mut out: Vec<String> = Vec::new();
        let mut i: usize = 0;
        while i < n
            invariant
                n == b@.len(),
                i <= n,
                p == prefix@,
                opts == repetition_options(p, b@, t),
                t == domain@.top_level_domain,
                views(out@) == keep_some(opts.subrange(0, i as int)),
            decreases n - i,
        {
            proof {
                lemma_keep_some_step(opts, i as int);
            }
            if b[i] == '.' || (i + 1 < n && b[i + 1] == b[i]) || (i > 0 && b[i - 1] == b[i]) {
            } else {
                let mut s = prefix.clone();
                push_range(&mut s, &b, 0, i + 1);
                push_range(&mut s, &b, i, n);
                push_char(&mut s, '.');
                s.append(domain.top_level_domain.as_str());
                assert(b@.subrange(0, i + 1) + b@.subrange(i as int, n as int) == b@.insert(i as int, b@[i as int]));
                assert(s@ == with_tld(p + b@.insert(i as int, b@[i as int]), t));
                let ghost before = out@;
                out.push(s);
                assert(views(out@) == views(before).push(s@));
            }
            i = i + 1;
        }
        assert(opts.subrange(0, n as int) == opts);
        out
    }
}

} // verus!
