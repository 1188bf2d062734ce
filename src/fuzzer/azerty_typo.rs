use vstd::prelude::*;
use crate::fuzzer::insertion::{insertion_variants, table_view, InsertionFuzzer};
use crate::fuzzer::Fuzzer;

verus! {

/// Slips of the finger on an AZERTY keyboard: a neighbouring key pressed
/// next to the intended one.
#[derive(Debug, Clone)]
pub struct AzertyTypoFuzzer {
    insertion_fuzzer: InsertionFuzzer,
}

/// For each key of an AZERTY keyboard, the keys around it.
pub open spec fn azerty_neighbours() -> Seq<(char, Seq<char>)> {
    seq![
        ('1', seq!['2', 'a']),
        ('2', seq!['3', 'z', 'a', '1']),
        ('3', seq!['4', 'e', 'z', '2']),
        ('4', seq!['5', 'r', 'e', '3']),
        ('5', seq!['6', 't', 'r', '4']),
        ('6', seq!['7', 'y', 't', '5']),
        ('7', seq!['8', 'u', 'y', '6']),
        ('8', seq!['9', 'i', 'u', '7']),
        ('9', seq!['0', 'o', 'i', '8']),
        ('0', seq!['p', 'o', '9']),
        ('a', seq!['2', 'z', 'q', '1']),
        ('z', seq!['3', 'e', 's', 'q', 'a', '2']),
        ('e', seq!['4', 'r', 'd', 's', 'z', '3']),
        ('r', seq!['5', 't', 'f', 'd', 'e', '4']),
        ('t', seq!['6', 'y', 'g', 'f', 'r', '5']),
        ('y', seq!['7', 'u', 'h', 'g', 't', '6']),
        ('u', seq!['8', 'i', 'j', 'h', 'y', '7']),
        ('i', seq!['9', 'o', 'k', 'j', 'u', '8']),
        ('o', seq!['0', 'p', 'l', 'k', 'i', '9']),
        ('p', seq!['l', 'o', '0', 'm']),
        ('q', seq!['z', 's', 'w', 'a']),
        ('s', seq!['e', 'd', 'x', 'w', 'q', 'z']),
        ('d', seq!['r', 'f', 'c', 'x', 's', 'e']),
        ('f', seq!['t', 'g', 'v', 'c', 'd', 'r']),
        ('g', seq!['y', 'h', 'b', 'v', 'f', 't']),
        ('h', seq!['u', 'j', 'n', 'b', 'g', 'y']),
        ('j', seq!['i', 'k', 'n', 'h', 'u']),
        ('k', seq!['o', 'l', 'j', 'i']),
        ('l', seq!['k', 'o', 'p', 'm']),
        ('m', seq!['l', 'p']),
        ('w', seq!['s', 'x', 'q']),
        ('x', seq!['w', 's', 'd', 'c']),
        ('c', seq!['x', 'd', 'f', 'v']),
        ('v', seq!['c', 'f', 'g', 'b']),
        ('b', seq!['v', 'g', 'h', 'n']),
        ('n', seq!['b', 'h', 'j']),
    ]
}

/// For each key of an AZERTY keyboard, the keys around it.
pub fn azerty_neighbour_table() -> (r: Vec<(char, Vec<char>)>)
    ensures
        table_view(r@) == azerty_neighbours(),
{
    let r = vec![
        ('1', vec!['2', 'a']),
        ('2', vec!['3', 'z', 'a', '1']),
        ('3', vec!['4', 'e', 'z', '2']),
        ('4', vec!['5', 'r', 'e', '3']),
        ('5', vec!['6', 't', 'r', '4']),
        ('6', vec!['7', 'y', 't', '5']),
        ('7', vec!['8', 'u', 'y', '6']),
        ('8', vec!['9', 'i', 'u', '7']),
        ('9', vec!['0', 'o', 'i', '8']),
        ('0', vec!['p', 'o', '9']),
        ('a', vec!['2', 'z', 'q', '1']),
        ('z', vec!['3', 'e', 's', 'q', 'a', '2']),
        ('e', vec!['4', 'r', 'd', 's', 'z', '3']),
        ('r', vec!['5', 't', 'f', 'd', 'e', '4']),
        ('t', vec!['6', 'y', 'g', 'f', 'r', '5']),
        ('y', vec!['7', 'u', 'h', 'g', 't', '6']),
        ('u', vec!['8', 'i', 'j', 'h', 'y', '7']),
        ('i', vec!['9', 'o', 'k', 'j', 'u', '8']),
        ('o', vec!['0', 'p', 'l', 'k', 'i', '9']),
        ('p', vec!['l', 'o', '0', 'm']),
        ('q', vec!['z', 's', 'w', 'a']),
        ('s', vec!['e', 'd', 'x', 'w', 'q', 'z']),
        ('d', vec!['r', 'f', 'c', 'x', 's', 'e']),
        ('f', vec!['t', 'g', 'v', 'c', 'd', 'r']),
        ('g', vec!['y', 'h', 'b', 'v', 'f', 't']),
        ('h', vec!['u', 'j', 'n', 'b', 'g', 'y']),
        ('j', vec!['i', 'k', 'n', 'h', 'u']),
        ('k', vec!['o', 'l', 'j', 'i']),
        ('l', vec!['k', 'o', 'p', 'm']),
        ('m', vec!['l', 'p']),
        ('w', vec!['s', 'x', 'q']),
        ('x', vec!['w', 's', 'd', 'c']),
        ('c', vec!['x', 'd', 'f', 'v']),
        ('v', vec!['c', 'f', 'g', 'b']),
        ('b', vec!['v', 'g', 'h', 'n']),
        ('n', vec!['b', 'h', 'j']),
    ];
    assert(table_view(r@) =~~= azerty_neighbours());
    r
}

impl AzertyTypoFuzzer {
    /// The keys next to each key, as the fuzzer uses them.
    pub closed spec fn table(&self) -> Seq<(char, Seq<char>)> {
        self.insertion_fuzzer.table()
    }

    pub fn new() -> (r: AzertyTypoFuzzer)
        ensures
            r.table() == azerty_neighbours(),
    {
        let insertion_fuzzer = InsertionFuzzer::new(azerty_neighbour_table());
        AzertyTypoFuzzer { insertion_fuzzer }
    }
}

impl Fuzzer for AzertyTypoFuzzer {
    open spec fn variants(&self, s: Seq<char>) -> Seq<Seq<char>> {
        insertion_variants(s, self.table())
    }

    fn fuzz(&self, domain: &str) -> (r: Vec<String>) {
        self.insertion_fuzzer.fuzz(domain)
    }
}

} // verus!
