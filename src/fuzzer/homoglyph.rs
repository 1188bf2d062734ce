use vstd::prelude::*;
use crate::fuzzer::map::{alternatives_view, map_variants, MapFuzzer};
use crate::fuzzer::Fuzzer;

verus! {

/// Characters swapped for characters or pairs that look like them.
#[derive(Debug, Clone)]
pub struct HomoglyphFuzzer {
    mapper_fuzzer: MapFuzzer,
}

/// For each character, what may be read as it.
pub open spec fn homoglyph_look_alikes() -> Seq<(char, Seq<Seq<char>>)> {
    seq![
        ('0', seq!["o"@]),
        ('1', seq!["l"@, "i"@]),
        ('3', seq!["8"@]),
        ('6', seq!["9"@]),
        ('8', seq!["3"@]),
        ('9', seq!["6"@]),
        ('b', seq!["d"@, "lb"@]),
        ('c', seq!["e"@]),
        ('d', seq!["b"@, "cl"@, "dl"@]),
        ('e', seq!["c"@]),
        ('g', seq!["q"@]),
        ('h', seq!["lh"@]),
        ('i', seq!["1"@, "l"@]),
        ('k', seq!["lc"@]),
        ('l', seq!["1"@, "i"@]),
        ('m', seq!["n"@, "nn"@, "rn"@, "rr"@]),
        ('n', seq!["m"@, "r"@]),
        ('o', seq!["0"@]),
        ('q', seq!["g"@]),
        ('w', seq!["vv"@]),
    ]
}

/// For each character, what may be read as it.
pub fn homoglyph_table() -> (r: Vec<(char, Vec<&'static str>)>)
    ensures
        alternatives_view(r@) == homoglyph_look_alikes(),
{
    let r = vec![
        ('0', vec!["o"]),
        ('1', vec!["l", "i"]),
        ('3', vec!["8"]),
        ('6', vec!["9"]),
        ('8', vec!["3"]),
        ('9', vec!["6"]),
        ('b', vec!["d", "lb"]),
        ('c', vec!["e"]),
        ('d', vec!["b", "cl", "dl"]),
        ('e', vec!["c"]),
        ('g', vec!["q"]),
        ('h', vec!["lh"]),
        ('i', vec!["1", "l"]),
        ('k', vec!["lc"]),
        ('l', vec!["1", "i"]),
        ('m', vec!["n", "nn", "rn", "rr"]),
        ('n', vec!["m", "r"]),
        ('o', vec!["0"]),
        ('q', vec!["g"]),
        ('w', vec!["vv"]),
    ];
    assert(alternatives_view(r@) =~~= homoglyph_look_alikes());
    r
}

impl HomoglyphFuzzer {
    /// The look-alikes of each character, as the fuzzer uses them.
    pub closed spec fn table(&self) -> Seq<(char, Seq<Seq<char>>)> {
        self.mapper_fuzzer.table()
    }

    pub fn new() -> (r: HomoglyphFuzzer)
        ensures
            r.table() == homoglyph_look_alikes(),
    {
        let mapper_fuzzer = MapFuzzer::new(homoglyph_table());
        HomoglyphFuzzer { mapper_fuzzer }
    }
}

impl Fuzzer for HomoglyphFuzzer {
    open spec fn variants(&self, s: Seq<char>) -> Seq<Seq<char>> {
        map_variants(s, self.table())
    }

    fn fuzz(&self, domain: &str) -> (r: Vec<String>) {
        self.mapper_fuzzer.fuzz(domain)
    }
}

} // verus!
