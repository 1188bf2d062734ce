use vstd::prelude::*;
use crate::domain::{Domain, DomainModel};
use crate::fuzzer::{base_view, with_tld, DomainFuzzer};
use crate::text::{join_with, push_char, split_chars, split_on, views};
use itertools::Itertools;

verus! {

/// Appends a plural ending to one label (a subdomain label or the domain
/// label) at a time.
#[derive(Debug, Clone, Copy, Default, PartialEq, Eq, Structural, Hash)]
pub struct PluralFuzzerStrategy;

/// The endings, in the order they are tried.
pub open spec fn plural_suffixes() -> Seq<Seq<char>> {
    seq![
        seq!['s'],
        seq!['x'],
        seq!['z'],
        seq!['c', 'h'],
        seq!['s', 'h'],
        seq!['e', 's'],
        seq!['i', 'e', 's'],
    ]
}

fn suffix_strings() -> (r: Vec<String>)
    ensures
        views(r@) == plural_suffixes(),
        r@.len() == 7,
{
    let mut r: Vec<String> = Vec::new();
    r.push(String::from_str("s"));
    r.push(String::from_str("x"));
    r.push(String::from_str("z"));
    r.push(String::from_str("ch"));
    r.push(String::from_str("sh"));
    r.push(String::from_str("es"));
    r.push(String::from_str("ies"));
    proof {
        reveal_strlit("s");
        reveal_strlit("x");
        reveal_strlit("z");
        reveal_strlit("ch");
        reveal_strlit("sh");
        reveal_strlit("es");
        reveal_strlit("ies");
    }
    assert(views(r@) =~~= plural_suffixes());
    r
}

/// The labels with ending `j` appended to label `i`, joined again.
pub open spec fn plural_at(labels: Seq<Seq<char>>, t: Seq<char>, i: int, j: int) -> Seq<char> {
    with_tld(join_with(labels.update(i, labels[i] + plural_suffixes()[j]), '.'), t)
}

/// Entry `7 * i + j` stands for ending `j` on label `i`.
pub open spec fn plural_candidates(d: DomainModel) -> Seq<Seq<char>> {
    let labels = split_on(base_view(d), '.');
    Seq::new(labels.len() * 7, |k: int| plural_at(labels, d.top_level_domain, k / 7, k % 7))
}

/// Relies on `Itertools::join`: the items written one after the other with
/// `"."` between each two neighbours.
#[verifier::external_body]
fn join_dotted(parts: &Vec<String>) -> (r: String)
    ensures
        r@ == join_with(views(parts@), '.'),
{
    parts.iter().join(".")
}

impl DomainFuzzer for PluralFuzzerStrategy {
    open spec fn candidates(&self, d: DomainModel) -> Seq<Seq<char>> {
        plural_candidates(d)
    }

    fn fuzz(&self, domain: &Domain) -> (r: Vec<String>) {
        let base = domain.base_domain();
        let labels = split_chars(base.as_str(), '.');
        let suffixes = suffix_strings();
        let ghost t = domain@.top_level_domain;
        let ghost all = plural_candidates(domain@);
        let n = labels.len();
        let mut out: Vec<String> = Vec::new();
        let mut i: usize = 0;
        while i < n
            invariant
                n == labels@.len(),
                i <= n,
                views(suffixes@) == plural_suffixes(),
                suffixes@.len() == 7,
                views(labels@) == split_on(base_view(domain@), '.'),
                all == plural_candidates(domain@),
                t == domain@.top_level_domain,
                views(out@) == all.subrange(0, 7 * i),
            decreases n - i,
        {
            let mut j: usize = 0;
            while j < 7
                invariant
                    n == labels@.len(),
                    i < n,
                    j <= 7,
                    views(suffixes@) == plural_suffixes(),
                suffixes@.len() == 7,
                    views(labels@) == split_on(base_view(domain@), '.'),
                    all == plural_candidates(domain@),
                    t == domain@.top_level_domain,
                    views(out@) == all.subrange(0, 7 * i + j),
                decreases 7 - j,
            {
                let ghost k = 7 * i + j;
                assert(k / 7 == i && k % 7 == j) by (nonlinear_arith)
                    requires
                        k == 7 * i + j,
                        j < 7,
                {
                }
                assert(k < n * 7) by (nonlinear_arith)
                    requires
                        k == 7 * i + j,
                        j < 7,
                        i < n,
                {
                }
                let ghost changed = views(labels@).update(
                    i as int,
                    views(labels@)[i as int] + plural_suffixes()[j as int],
                );
                let mut parts: Vec<String> = Vec::new();
                let mut p: usize = 0;
                while p < n
                    invariant
                        n == labels@.len(),
                        i < n,
                        j < 7,
                        p <= n,
                        views(suffixes@) == plural_suffixes(),
                suffixes@.len() == 7,
                        changed == views(labels@).update(
                            i as int,
                            views(labels@)[i as int] + plural_suffixes()[j as int],
                        ),
                        views(parts@) == changed.subrange(0, p as int),
                    decreases n - p,
                {
                    let mut label = labels[p].clone();
                    if p == i {
                        label.append(suffixes[j].as_str());
                    }
                    let ghost before = parts@;
                    parts.push(label);
                    assert(views(parts@) == views(before).push(label@));
                    p = p + 1;
                    assert(views(parts@) == changed.subrange(0, p as int));
                }
                assert(changed.subrange(0, n as int) == changed);
                let mut s = join_dotted(&parts);
                push_char(&mut s, '.');
                s.append(domain.top_level_domain.as_str());
                let ghost before = out@;
                out.push(s);
                assert(views(out@) == views(before).push(s@));
                j = j + 1;
                assert(views(out@) == all.subrange(0, 7 * i + j));
            }
            i = i + 1;
        }
        assert(all.subrange(0, 7 * n) == all);
        out
    }
}

} // verus!
