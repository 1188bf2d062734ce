use vstd::prelude::*;
use crate::domain::{Domain, DomainModel};
use crate::fuzzer::{base_view, with_tld, DomainFuzzer};
use crate::text::{push_char, views};

verus! {

/// Appends one digit or lowercase letter to the domain label.
#[derive(Debug, Clone, Copy, Default, PartialEq, Eq, Structural, Hash)]
pub struct AdditionFuzzerStrategy;

/// The digits, then the lowercase letters.
pub open spec fn alnum_alphabet() -> Seq<char> {
    seq![
        '0', '1', '2', '3', '4', '5', '6', '7', '8', '9',
        'a', 'b', 'c', 'd', 'e', 'f', 'g', 'h', 'i', 'j', 'k', 'l', 'm',
        'n', 'o', 'p', 'q', 'r', 's', 't', 'u', 'v', 'w', 'x', 'y', 'z',
    ]
}

/// The digits, then the lowercase letters.
pub fn alnum_chars() -> (r: Vec<char>)
    ensures
        r@ == alnum_alphabet(),
{
    vec![
        '0', '1', '2', '3', '4', '5', '6', '7', '8', '9',
        'a', 'b', 'c', 'd', 'e', 'f', 'g', 'h', 'i', 'j', 'k', 'l', 'm',
        'n', 'o', 'p', 'q', 'r', 's', 't', 'u', 'v', 'w', 'x', 'y', 'z',
    ]
}

/// The candidates for `d`, one per character of the alphabet.
pub open spec fn addition_candidates(d: DomainModel) -> Seq<Seq<char>> {
    alnum_alphabet().map_values(|c: char| with_tld(base_view(d).push(c), d.top_level_domain))
}

impl DomainFuzzer for AdditionFuzzerStrategy {
    open spec fn candidates(&self, d: DomainModel) -> Seq<Seq<char>> {
        addition_candidates(d)
    }

    fn fuzz(&self, domain: &Domain) -> (r: Vec<String>) {
        let base = domain.base_domain();
        let alphabet = alnum_chars();
        let ghost t = domain@.top_level_domain;
        let mut out: Vec<String> = Vec::new();
        let mut i: usize = 0;
        while i < alphabet.len()
            invariant
                alphabet@ == alnum_alphabet(),
                t == domain@.top_level_domain,
                base@ == base_view(domain@),
                i <= alphabet@.len(),
                views(out@) == addition_candidates(domain@).subrange(0, i as int),
            decreases alphabet@.len() - i,
        {
            let mut s = base.clone();
            push_char(&mut s, alphabet[i]);
            push_char(&mut s, '.');
            s.append(domain.top_level_domain.as_str());
            let ghost before = out@;
            out.push(s);
            assert(views(out@) == views(before).push(s@));
            i = i + 1;
            assert(views(out@) == addition_candidates(domain@).subrange(0, i as int));
        }
        assert(addition_candidates(domain@).subrange(0, 36) == addition_candidates(domain@));
        out
    }
}

impl AdditionFuzzerStrategy {
    /// No candidate of the addition strategy comes twice.
    pub proof fn lemma_candidates_distinct(d: DomainModel)
        ensures
            addition_candidates(d).len() == 36,
            addition_candidates(d).no_duplicates(),
    {
        let a = alnum_alphabet();
        let b = base_view(d);
        let c = addition_candidates(d);
        assert(a.no_duplicates());
        assert forall|i: int, j: int| 0 <= i < c.len() && 0 <= j < c.len() && i != j implies c[i] != c[j] by {
            assert(c[i][b.len() as int] == a[i]);
            assert(c[j][b.len() as int] == a[j]);
        }
    }
}

} // verus!
