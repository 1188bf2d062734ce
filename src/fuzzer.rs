use vstd::prelude::*;
use crate::domain::{base_of, Domain, DomainModel};
use crate::text::{same_text, views};
use crate::fuzzer::addition::AdditionFuzzerStrategy;
use crate::fuzzer::bitsquatting::BitsquattingFuzzerStrategy;
use crate::fuzzer::dot_typo::DotTypoFuzzerStrategy;
use crate::fuzzer::hyphen_typo::HyphenTypoFuzzerStrategy;
use crate::fuzzer::omission::OmissionFuzzerStrategy;
use crate::fuzzer::plural::PluralFuzzerStrategy;
use crate::fuzzer::repetition::RepetitionFuzzerStrategy;

pub mod addition;
pub mod azerty_typo;
pub mod bitsquatting;
pub mod cyrillic;
pub mod dot_typo;
pub mod homoglyph;
pub mod hyphen;
pub mod insertion;
pub mod map;
pub mod hyphen_typo;
pub mod omission;
pub mod plural;
pub mod qwerty_typo;
pub mod qwertz_typo;
pub mod repetition;

verus! {

/// A way of deriving look-alike hostnames from a domain.
pub trait DomainFuzzer {
    /// The candidates derived from `d`, in the order they are produced.
    spec fn candidates(&self, d: DomainModel) -> Seq<Seq<char>>;

    /// Produces the candidates derived from `domain`.
    fn fuzz(&self, domain: &Domain) -> (r: Vec<String>)
        ensures
            views(r@) == self.candidates(domain@),
    ;
}

/// A way of deriving look-alike variants of a text.
pub trait Fuzzer {
    /// The variants of `s`, in the order they are produced.
    spec fn variants(&self, s: Seq<char>) -> Seq<Seq<char>>;

    /// Produces the variants of `domain`.
    fn fuzz(&self, domain: &str) -> (r: Vec<String>)
        ensures
            views(r@) == self.variants(domain@),
    ;
}

/// The hostname without its top-level domain: the subdomain part, then the
/// domain label.
pub open spec fn base_view(d: DomainModel) -> Seq<char> {
    base_of(d.subdomain, d.domain)
}

/// A changed base with the top-level domain put back on.
pub open spec fn with_tld(base: Seq<char>, tld: Seq<char>) -> Seq<char> {
    base.push('.') + tld
}

/// The values of the present entries, in order.
pub open spec fn keep_some(s: Seq<Option<Seq<char>>>) -> Seq<Seq<char>>
    decreases s.len(),
{
    if s.len() == 0 {
        Seq::empty()
    } else {
        match s.last() {
            Some(x) => keep_some(s.drop_last()).push(x),
            None => keep_some(s.drop_last()),
        }
    }
}

/// The sequences of `ss` one after another.
pub open spec fn concat_seqs(ss: Seq<Seq<Seq<char>>>) -> Seq<Seq<char>>
    decreases ss.len(),
{
    if ss.len() == 0 {
        Seq::empty()
    } else {
        concat_seqs(ss.drop_last()) + ss.last()
    }
}

pub proof fn lemma_concat_seqs_step(ss: Seq<Seq<Seq<char>>>, i: int)
    requires
        0 <= i < ss.len(),
    ensures
        concat_seqs(ss.subrange(0, i + 1)) == concat_seqs(ss.subrange(0, i)) + ss[i],
{
    assert(ss.subrange(0, i + 1).drop_last() == ss.subrange(0, i));
}

/// Each value kept comes from a present entry.
pub proof fn lemma_keep_some_source(s: Seq<Option<Seq<char>>>, m: int)
    requires
        0 <= m < keep_some(s).len(),
    ensures
        exists|k: int| 0 <= k < s.len() && s[k] == Some(keep_some(s)[m]),
    decreases s.len(),
{
    let front = s.drop_last();
    match s.last() {
        Some(x) => {
            if m == keep_some(front).len() {
                assert(s[s.len() - 1] == Some(keep_some(s)[m]));
            } else {
                lemma_keep_some_source(front, m);
                let k = choose|k: int| 0 <= k < front.len() && front[k] == Some(keep_some(front)[m]);
                assert(s[k] == Some(keep_some(s)[m]));
            }
        },
        None => {
            lemma_keep_some_source(front, m);
            let k = choose|k: int| 0 <= k < front.len() && front[k] == Some(keep_some(front)[m]);
            assert(s[k] == Some(keep_some(s)[m]));
        },
    }
}

/// When no two present entries hold the same value, no value is kept twice.
pub proof fn lemma_keep_some_distinct(s: Seq<Option<Seq<char>>>)
    requires
        forall|i: int, j: int|
            0 <= i < j < s.len() && s[i] is Some && s[j] is Some ==> s[i]->Some_0 != s[j]->Some_0,
    ensures
        keep_some(s).no_duplicates(),
    decreases s.len(),
{
    if s.len() > 0 {
        let front = s.drop_last();
        assert forall|i: int, j: int|
            0 <= i < j < front.len() && front[i] is Some && front[j] is Some implies front[i]->Some_0
                != front[j]->Some_0 by {
            assert(front[i] == s[i] && front[j] == s[j]);
        }
        lemma_keep_some_distinct(front);
        match s.last() {
            Some(x) => {
                let kept = keep_some(front);
                assert forall|m: int| 0 <= m < kept.len() implies kept[m] != x by {
                    lemma_keep_some_source(front, m);
                    let k = choose|k: int| 0 <= k < front.len() && front[k] == Some(kept[m]);
                    assert(s[k] == front[k]);
                }
                let all = kept.push(x);
                assert forall|i: int, j: int| 0 <= i < all.len() && 0 <= j < all.len() && i != j implies all[i]
                    != all[j] by {
                    if i < kept.len() && j < kept.len() {
                        assert(kept[i] != kept[j]);
                    }
                }
            },
            None => {},
        }
    }
}

/// One more entry of `s` adds its value, if present, at the end.
pub proof fn lemma_keep_some_step(s: Seq<Option<Seq<char>>>, i: int)
    requires
        0 <= i < s.len(),
    ensures
        keep_some(s.subrange(0, i + 1)) == match s[i] {
            Some(x) => keep_some(s.subrange(0, i)).push(x),
            None => keep_some(s.subrange(0, i)),
        },
{
    assert(s.subrange(0, i + 1).drop_last() == s.subrange(0, i));
}

/// Why a strategy could not be looked up.
#[derive(Debug, Clone, PartialEq, Eq)]
pub enum DomainFuzzerError {
    DomainFuzzerDoesNotExist(String),
}

impl DomainFuzzerError {
    /// A human-readable description of the error.
    pub fn message(&self) -> (r: String)
        ensures
            r@ == "Domain fuzzer \""@ + self->DomainFuzzerDoesNotExist_0@ + "\" does not exist"@,
    {
        match self {
            DomainFuzzerError::DomainFuzzerDoesNotExist(name) => {
                let mut r = String::from_str("Domain fuzzer \"");
                r.append(name.as_str());
                r.append("\" does not exist");
                r
            },
        }
    }
}

/// The closed set of strategies.
#[derive(Debug, Clone, Copy, PartialEq, Eq, Structural, Hash)]
pub enum FuzzerStrategy {
    Addition(AdditionFuzzerStrategy),
    Bitsquatting(BitsquattingFuzzerStrategy),
    DotTypo(DotTypoFuzzerStrategy),
    HyphenTypo(HyphenTypoFuzzerStrategy),
    Omission(OmissionFuzzerStrategy),
    Plural(PluralFuzzerStrategy),
    Repetition(RepetitionFuzzerStrategy),
}

/// The strategy that a canonical name stands for, if any.
pub open spec fn strategy_named(name: Seq<char>) -> Option<FuzzerStrategy> {
    if name == "addition"@ {
        Some(FuzzerStrategy::Addition(AdditionFuzzerStrategy))
    } else if name == "bitsquatting"@ {
        Some(FuzzerStrategy::Bitsquatting(BitsquattingFuzzerStrategy))
    } else if name == "dot-typo"@ {
        Some(FuzzerStrategy::DotTypo(DotTypoFuzzerStrategy))
    } else if name == "hyphen-typo"@ {
        Some(FuzzerStrategy::HyphenTypo(HyphenTypoFuzzerStrategy))
    } else if name == "omission"@ {
        Some(FuzzerStrategy::Omission(OmissionFuzzerStrategy))
    } else if name == "plural"@ {
        Some(FuzzerStrategy::Plural(PluralFuzzerStrategy))
    } else if name == "repetition"@ {
        Some(FuzzerStrategy::Repetition(RepetitionFuzzerStrategy))
    } else {
        None
    }
}

impl FuzzerStrategy {
    pub fn new_addition() -> (r: Self)
        ensures
            r == FuzzerStrategy::Addition(AdditionFuzzerStrategy),
    {
        FuzzerStrategy::Addition(AdditionFuzzerStrategy)
    }

    pub fn new_bitsquatting() -> (r: Self)
        ensures
            r == FuzzerStrategy::Bitsquatting(BitsquattingFuzzerStrategy),
    {
        FuzzerStrategy::Bitsquatting(BitsquattingFuzzerStrategy)
    }

    pub fn new_dot_typo() -> (r: Self)
        ensures
            r == FuzzerStrategy::DotTypo(DotTypoFuzzerStrategy),
    {
        FuzzerStrategy::DotTypo(DotTypoFuzzerStrategy)
    }

    pub fn new_hyphen_typo() -> (r: Self)
        ensures
            r == FuzzerStrategy::HyphenTypo(HyphenTypoFuzzerStrategy),
    {
        FuzzerStrategy::HyphenTypo(HyphenTypoFuzzerStrategy)
    }

    pub fn new_omission() -> (r: Self)
        ensures
            r == FuzzerStrategy::Omission(OmissionFuzzerStrategy),
    {
        FuzzerStrategy::Omission(OmissionFuzzerStrategy)
    }

    pub fn new_plural() -> (r: Self)
        ensures
            r == FuzzerStrategy::Plural(PluralFuzzerStrategy),
    {
        FuzzerStrategy::Plural(PluralFuzzerStrategy)
    }

    pub fn new_repetition() -> (r: Self)
        ensures
            r == FuzzerStrategy::Repetition(RepetitionFuzzerStrategy),
    {
        FuzzerStrategy::Repetition(RepetitionFuzzerStrategy)
    }

    /// Looks a strategy up by its canonical name.
    pub fn try_from(s: &str) -> (r: Result<FuzzerStrategy, DomainFuzzerError>)
        ensures
            match r {
                Ok(f) => strategy_named(s@) == Some(f),
                Err(DomainFuzzerError::DomainFuzzerDoesNotExist(name)) => strategy_named(s@) is None
                    && name@ == s@,
            },
    {
        if same_text(s, "addition") {
            Ok(FuzzerStrategy::new_addition())
        } else if same_text(s, "bitsquatting") {
            Ok(FuzzerStrategy::new_bitsquatting())
        } else if same_text(s, "dot-typo") {
            Ok(FuzzerStrategy::new_dot_typo())
        } else if same_text(s, "hyphen-typo") {
            Ok(FuzzerStrategy::new_hyphen_typo())
        } else if same_text(s, "omission") {
            Ok(FuzzerStrategy::new_omission())
        } else if same_text(s, "plural") {
            Ok(FuzzerStrategy::new_plural())
        } else if same_text(s, "repetition") {
            Ok(FuzzerStrategy::new_repetition())
        } else {
            Err(DomainFuzzerError::DomainFuzzerDoesNotExist(String::from_str(s)))
        }
    }
}

impl DomainFuzzer for FuzzerStrategy {
    open spec fn candidates(&self, d: DomainModel) -> Seq<Seq<char>> {
        match self {
            FuzzerStrategy::Addition(f) => f.candidates(d),
            FuzzerStrategy::Bitsquatting(f) => f.candidates(d),
            FuzzerStrategy::DotTypo(f) => f.candidates(d),
            FuzzerStrategy::HyphenTypo(f) => f.candidates(d),
            FuzzerStrategy::Omission(f) => f.candidates(d),
            FuzzerStrategy::Plural(f) => f.candidates(d),
            FuzzerStrategy::Repetition(f) => f.candidates(d),
        }
    }

    fn fuzz(&self, domain: &Domain) -> (r: Vec<String>) {
        match self {
            FuzzerStrategy::Addition(f) => f.fuzz(domain),
            FuzzerStrategy::Bitsquatting(f) => f.fuzz(domain),
            FuzzerStrategy::DotTypo(f) => f.fuzz(domain),
            FuzzerStrategy::HyphenTypo(f) => f.fuzz(domain),
            FuzzerStrategy::Omission(f) => f.fuzz(domain),
            FuzzerStrategy::Plural(f) => f.fuzz(domain),
            FuzzerStrategy::Repetition(f) => f.fuzz(domain),
        }
    }
}

/// Generation is repeatable: any two runs of one strategy on one domain give
/// the same strings, so in particular the same multiset of strings.
pub proof fn lemma_fuzz_repeatable(f: FuzzerStrategy, d: DomainModel, first: Seq<Seq<char>>, second: Seq<Seq<char>>)
    requires
        first == f.candidates(d),
        second == f.candidates(d),
    ensures
        first == second,
        first.to_multiset() == second.to_multiset(),
{
}

} // verus!
