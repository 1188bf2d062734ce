use vstd::prelude::*;
use crate::fuzzer::map::{alternatives_view, map_variants, MapFuzzer};
use crate::fuzzer::Fuzzer;

verus! {

/// Latin letters swapped for the Cyrillic letters that look like them.
#[derive(Debug, Clone)]
pub struct CyrillicFuzzer {
    mapper_fuzzer: MapFuzzer,
}

/// For each Latin letter, the Cyrillic letters that look like it.
pub open spec fn cyrillic_look_alikes() -> Seq<(char, Seq<Seq<char>>)> {
    seq![
        ('a', seq!["а"@, "ӓ"@, "ӑ"@]),
        ('b', seq!["ь"@, "ъ"@]),
        ('c', seq!["с"@, "ҫ"@]),
        ('d', seq!["ԁ"@, "д"@]),
        ('e', seq!["е"@, "ё"@, "э"@]),
        ('g', seq!["ԍ"@, "г"@]),
        ('h', seq!["һ"@, "н"@]),
        ('i', seq!["і"@]),
        ('j', seq!["ј"@]),
        ('k', seq!["кқ"@]),
        ('l', seq!["ӏ"@]),
        ('m', seq!["м"@]),
        ('n', seq!["и"@]),
        ('o', seq!["о"@, "ӧ"@, "ө"@]),
        ('p', seq!["р"@, "ҏ"@]),
        ('q', seq!["ԛ"@]),
        ('r', seq!["л"@]),
        ('s', seq!["ѕ"@]),
        ('t', seq!["т"@]),
        ('v', seq!["ѵ"@]),
        ('w', seq!["ԝ"@, "ш"@]),
        ('x', seq!["х"@, "ҳ"@]),
        ('y', seq!["у"@, "ү"@, "ұ"@]),
    ]
}

/// For each Latin letter, the Cyrillic letters that look like it.
pub fn cyrillic_table() -> (r: Vec<(char, Vec<&'static str>)>)
    ensures
        alternatives_view(r@) == cyrillic_look_alikes(),
{
    let r = vec![
        ('a', vec!["а", "ӓ", "ӑ"]),
        ('b', vec!["ь", "ъ"]),
        ('c', vec!["с", "ҫ"]),
        ('d', vec!["ԁ", "д"]),
        ('e', vec!["е", "ё", "э"]),
        ('g', vec!["ԍ", "г"]),
        ('h', vec!["һ", "н"]),
        ('i', vec!["і"]),
        ('j', vec!["ј"]),
        ('k', vec!["кқ"]),
        ('l', vec!["ӏ"]),
        ('m', vec!["м"]),
        ('n', vec!["и"]),
        ('o', vec!["о", "ӧ", "ө"]),
        ('p', vec!["р", "ҏ"]),
        ('q', vec!["ԛ"]),
        ('r', vec!["л"]),
        ('s', vec!["ѕ"]),
        ('t', vec!["т"]),
        ('v', vec!["ѵ"]),
        ('w', vec!["ԝ", "ш"]),
        ('x', vec!["х", "ҳ"]),
        ('y', vec!["у", "ү", "ұ"]),
    ];
    assert(alternatives_view(r@) =~~= cyrillic_look_alikes());
    r
}

impl CyrillicFuzzer {
    /// The look-alikes of each character, as the fuzzer uses them.
    pub closed spec fn table(&self) -> Seq<(char, Seq<Seq<char>>)> {
        self.mapper_fuzzer.table()
    }

    pub fn new() -> (r: CyrillicFuzzer)
        ensures
            r.table() == cyrillic_look_alikes(),
    {
        let mapper_fuzzer = MapFuzzer::new(cyrillic_table());
        CyrillicFuzzer { mapper_fuzzer }
    }
}

impl Fuzzer for CyrillicFuzzer {
    open spec fn variants(&self, s: Seq<char>) -> Seq<Seq<char>> {
        map_variants(s, self.table())
    }

    fn fuzz(&self, domain: &str) -> (r: Vec<String>) {
        self.mapper_fuzzer.fuzz(domain)
    }
}

} // verus!
