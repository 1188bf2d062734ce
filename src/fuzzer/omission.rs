use vstd::prelude::*;
use crate::domain::{prefix_of, Domain, DomainModel};
use crate::fuzzer::{keep_some, lemma_keep_some_distinct, lemma_keep_some_step, with_tld, DomainFuzzer};
use crate::text::{chars_of, push_char, push_range, views};

verus! {

/// Deletes one character of the domain label at a time.
#[derive(Debug, Clone, Copy, Default, PartialEq, Eq, Structural, Hash)]
pub struct OmissionFuzzerStrategy;

/// Deleting position `i`; skipped where the next character is the same,
/// since deleting that one gives the same text.
pub open spec fn omission_at(p: Seq<char>, b: Seq<char>, t: Seq<char>, i: int) -> Option<Seq<char>> {
    if i + 1 < b.len() && b[i + 1] == b[i] {
        None
    } else {
        Some(with_tld(p + b.remove(i), t))
    }
}

/// For each position of the domain label, its candidate if it has one.
pub open spec fn omission_options(p: Seq<char>, b: Seq<char>, t: Seq<char>) -> Seq<Option<Seq<char>>> {
    Seq::new(b.len(), |i: int| omission_at(p, b, t, i))
}

/// The candidates for `d`, in order of position.
pub open spec fn omission_candidates(d: DomainModel) -> Seq<Seq<char>> {
    keep_some(omission_options(prefix_of(d.subdomain), d.domain, d.top_level_domain))
}

impl OmissionFuzzerStrategy {
    /// Skipping the first of two equal neighbours is enough: no candidate
    /// of the omission strategy comes twice.
    pub proof fn lemma_candidates_distinct(d: DomainModel)
        ensures
            omission_candidates(d).no_duplicates(),
    {
        let p = prefix_of(d.subdomain);
        let b = d.domain;
        let t = d.top_level_domain;
        let opts = omission_options(p, b, t);
        assert forall|i: int, j: int|
            0 <= i < j < opts.len() && opts[i] is Some && opts[j] is Some implies opts[i]->Some_0
                != opts[j]->Some_0 by {
            let x = with_tld(p + b.remove(i), t);
            let y = with_tld(p + b.remove(j), t);
            assert(b[i + 1] != b[i]);
            assert(x[p.len() + i] == b[i + 1]);
            assert(y[p.len() + i] == b[i]);
        }
        lemma_keep_some_distinct(opts);
    }
}

impl DomainFuzzer for OmissionFuzzerStrategy {
    open spec fn candidates(&self, d: DomainModel) -> Seq<Seq<char>> {
        omission_candidates(d)
    }

    fn fuzz(&self, domain: &Domain) -> (r: Vec<String>) {
        let prefix = domain.subdomain_prefix();
        let b = chars_of(domain.domain.as_str());
        let ghost p = prefix@;
        let ghost t = domain@.top_level_domain;
        let ghost opts = omission_options(p, b@, t);
        let n = b.len();
        let mut out: Vec<String> = Vec::new();
        let mut i: usize = 0;
        while i < n
            invariant
                n == b@.len(),
                i <= n,
                p == prefix@,
                opts == omission_options(p, b@, t),
                t == domain@.top_level_domain,
                views(out@) == keep_some(opts.subrange(0, i as int)),
            decreases n - i,
        {
            proof {
                lemma_keep_some_step(opts, i as int);
            }
            if i + 1 < n && b[i + 1] == b[i] {
            } else {
                let mut s = prefix.clone();
                push_range(&mut s, &b, 0, i);
                push_range(&mut s, &b, i + 1, n);
                push_char(&mut s, '.');
                s.append(domain.top_level_domain.as_str());
                assert(s@ == with_tld(p + b@.remove(i as int), t));
                let ghost before = out@;
                out.push(s);
                assert(views(out@) == views(before).push(s@));
            }
            i = i + 1;
        }
        assert(opts.subrange(0, n as int) == opts);
        out
    }
}

} // verus!
