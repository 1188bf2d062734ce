use vstd::prelude::*;
use crate::fuzzer::insertion::{insertion_variants, table_view, InsertionFuzzer};
use crate::fuzzer::Fuzzer;

verus! {

/// Slips of the finger on a QWERTY keyboard: a neighbouring key pressed
/// next to the intended one.
#[derive(Debug, Clone)]
pub struct QwertyTypoFuzzer {
    insertion_fuzzer: InsertionFuzzer,
}

/// For each key of a QWERTY keyboard, the keys around it.
pub open spec fn qwerty_neighbours() -> Seq<(char, Seq<char>)> {
    seq![
        ('1', seq!['2', 'q']),
        ('2', seq!['3', 'w', 'q', '1']),
        ('3', seq!['4', 'e', 'w', '2']),
        ('4', seq!['5', 'r', 'e', '3']),
        ('5', seq!['6', 't', 'r', '4']),
        ('6', seq!['7', 'y', 't', '5']),
        ('7', seq!['8', 'u', 'y', '6']),
        ('8', seq!['9', 'i', 'u', '7']),
        ('9', seq!['0', 'o', 'i', '8']),
        ('0', seq!['p', 'o', '9']),
        ('q', seq!['1', '2', 'w', 'a']),
        ('w', seq!['3', 'e', 's', 'a', 'q', '2']),
        ('e', seq!['4', 'r', 'd', 's', 'w', '3']),
        ('r', seq!['5', 't', 'f', 'd', 'e', '4']),
        ('t', seq!['6', 'y', 'g', 'f', 'r', '5']),
        ('y', seq!['7', 'u', 'h', 'g', 't', '6']),
        ('u', seq!['8', 'i', 'j', 'h', 'y', '7']),
        ('i', seq!['9', 'o', 'k', 'j', 'u', '8']),
        ('o', seq!['0', 'p', 'l', 'k', 'i', '9']),
        ('p', seq!['l', 'o', '0']),
        ('a', seq!['q', 'w', 's', 'z']),
        ('s', seq!['e', 'd', 'x', 'z', 'a', 'w']),
        ('d', seq!['r', 'f', 'c', 'x', 's', 'e']),
        ('f', seq!['t', 'g', 'v', 'c', 'd', 'r']),
        ('g', seq!['y', 'h', 'b', 'v', 'f', 't']),
        ('h', seq!['u', 'j', 'n', 'b', 'g', 'y']),
        ('j', seq!['i', 'k', 'm', 'n', 'h', 'u']),
        ('k', seq!['o', 'l', 'm', 'j', 'i']),
        ('l', seq!['k', 'o', 'p']),
        ('z', seq!['a', 's', 'x']),
        ('x', seq!['z', 's', 'd', 'c']),
        ('c', seq!['x', 'd', 'f', 'v']),
        ('v', seq!['c', 'f', 'g', 'b']),
        ('b', seq!['v', 'g', 'h', 'n']),
        ('n', seq!['b', 'h', 'j', 'm']),
        ('m', seq!['n', 'j', 'k']),
    ]
}

/// For each key of a QWERTY keyboard, the keys around it.
pub fn qwerty_neighbour_table() -> (r: Vec<(char, Vec<char>)>)
    ensures
        table_view(r@) == qwerty_neighbours(),
{
    let r = vec![
        ('1', vec!['2', 'q']),
        ('2', vec!['3', 'w', 'q', '1']),
        ('3', vec!['4', 'e', 'w', '2']),
        ('4', vec!['5', 'r', 'e', '3']),
        ('5', vec!['6', 't', 'r', '4']),
        ('6', vec!['7', 'y', 't', '5']),
        ('7', vec!['8', 'u', 'y', '6']),
        ('8', vec!['9', 'i', 'u', '7']),
        ('9', vec!['0', 'o', 'i', '8']),
        ('0', vec!['p', 'o', '9']),
        ('q', vec!['1', '2', 'w', 'a']),
        ('w', vec!['3', 'e', 's', 'a', 'q', '2']),
        ('e', vec!['4', 'r', 'd', 's', 'w', '3']),
        ('r', vec!['5', 't', 'f', 'd', 'e', '4']),
        ('t', vec!['6', 'y', 'g', 'f', 'r', '5']),
        ('y', vec!['7', 'u', 'h', 'g', 't', '6']),
        ('u', vec!['8', 'i', 'j', 'h', 'y', '7']),
        ('i', vec!['9', 'o', 'k', 'j', 'u', '8']),
        ('o', vec!['0', 'p', 'l', 'k', 'i', '9']),
        ('p', vec!['l', 'o', '0']),
        ('a', vec!['q', 'w', 's', 'z']),
        ('s', vec!['e', 'd', 'x', 'z', 'a', 'w']),
        ('d', vec!['r', 'f', 'c', 'x', 's', 'e']),
        ('f', vec!['t', 'g', 'v', 'c', 'd', 'r']),
        ('g', vec!['y', 'h', 'b', 'v', 'f', 't']),
        ('h', vec!['u', 'j', 'n', 'b', 'g', 'y']),
        ('j', vec!['i', 'k', 'm', 'n', 'h', 'u']),
        ('k', vec!['o', 'l', 'm', 'j', 'i']),
        ('l', vec!['k', 'o', 'p']),
        ('z', vec!['a', 's', 'x']),
        ('x', vec!['z', 's', 'd', 'c']),
        ('c', vec!['x', 'd', 'f', 'v']),
        ('v', vec!['c', 'f', 'g', 'b']),
        ('b', vec!['v', 'g', 'h', 'n']),
        ('n', vec!['b', 'h', 'j', 'm']),
        ('m', vec!['n', 'j', 'k']),
    ];
    assert(table_view(r@) =~~= qwerty_neighbours());
    r
}

impl QwertyTypoFuzzer {
    /// The keys next to each key, as the fuzzer uses them.
    pub closed spec fn table(&self) -> Seq<(char, Seq<char>)> {
        self.insertion_fuzzer.table()
    }

    pub fn new() -> (r: QwertyTypoFuzzer)
        ensures
            r.table() == qwerty_neighbours(),
    {
        let insertion_fuzzer = InsertionFuzzer::new(qwerty_neighbour_table());
        QwertyTypoFuzzer { insertion_fuzzer }
    }
}

impl Fuzzer for QwertyTypoFuzzer {
    open spec fn variants(&self, s: Seq<char>) -> Seq<Seq<char>> {
        insertion_variants(s, self.table())
    }

    fn fuzz(&self, domain: &str) -> (r: Vec<String>) {
        self.insertion_fuzzer.fuzz(domain)
    }
}

} // verus!
