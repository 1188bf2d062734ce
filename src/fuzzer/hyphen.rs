use vstd::prelude::*;
use crate::fuzzer::Fuzzer;
use crate::text::{chars_of, push_char, push_range, views};

verus! {

/// Puts a hyphen in front of each character of a text but the first.
#[derive(Debug, Clone, Copy, Default, PartialEq, Eq, Structural)]
pub struct HyphenFuzzer;

/// `s` with a hyphen in front of each character but the first, in order.
pub open spec fn hyphen_variants(s: Seq<char>) -> Seq<Seq<char>> {
    if s.len() == 0 {
        Seq::empty()
    } else {
        Seq::new((s.len() - 1) as nat, |k: int| s.insert(k + 1, '-'))
    }
}

impl HyphenFuzzer {
    pub fn new() -> (r: HyphenFuzzer)
        ensures
            r == HyphenFuzzer,
    {
        HyphenFuzzer
    }
}

impl Fuzzer for HyphenFuzzer {
    open spec fn variants(&self, s: Seq<char>) -> Seq<Seq<char>> {
        hyphen_variants(s)
    }

    fn fuzz(&self, domain: &str) -> (r: Vec<String>) {
        let b = chars_of(domain);
        let n = b.len();
        let mut out: Vec<String> = Vec::new();
        if n == 0 {
            return out;
        }
        let ghost all = hyphen_variants(b@);
        let mut i: usize = 1;
        while i < n
            invariant
                n == b@.len(),
                1 <= i <= n,
                all == hyphen_variants(b@),
                views(out@) == all.subrange(0, i - 1),
            decreases n - i,
        {
            let mut s = String::new();
            push_range(&mut s, &b, 0, i);
            push_char(&mut s, '-');
            push_range(&mut s, &b, i, n);
            assert(s@ == b@.insert(i as int, '-'));
            let ghost before = out@;
            out.push(s);
            assert(views(out@) == views(before).push(s@));
            i = i + 1;
            assert(views(out@) == all.subrange(0, i - 1));
        }
        assert(all.subrange(0, n - 1) == all);
        out
    }
}

} // verus!
