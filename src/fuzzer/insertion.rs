use vstd::prelude::*;
use crate::fuzzer::{concat_seqs, lemma_concat_seqs_step, Fuzzer};
use crate::text::{chars_of, push_char, push_range, views};

verus! {

/// Inserts, next to each character of a text, each character that a table
/// lists for it: once in front of it and once after it.
#[derive(Debug, Clone)]
pub struct InsertionFuzzer {
    map: Vec<(char, Vec<char>)>,
}

/// The characters listed for `c`: those of the last entry for `c`, or none.
pub open spec fn insertions_for(table: Seq<(char, Seq<char>)>, c: char) -> Seq<char>
    decreases table.len(),
{
    if table.len() == 0 {
        Seq::empty()
    } else if table.last().0 == c {
        table.last().1
    } else {
        insertions_for(table.drop_last(), c)
    }
}

/// The table of a fuzzer, as pairs of a character and what it lists.
pub open spec fn table_view(map: Seq<(char, Vec<char>)>) -> Seq<(char, Seq<char>)> {
    map.map_values(|e: (char, Vec<char>)| (e.0, e.1@))
}

/// `x` in front of position `i`, then after it.
pub open spec fn insertion_pair(s: Seq<char>, i: int, x: char) -> Seq<Seq<char>> {
    seq![s.insert(i, x), s.insert(i + 1, x)]
}

/// The variants for position `i`, in the order of the listed characters.
pub open spec fn insertion_at(s: Seq<char>, table: Seq<(char, Seq<char>)>, i: int) -> Seq<Seq<char>> {
    concat_seqs(insertions_for(table, s[i]).map_values(|x: char| insertion_pair(s, i, x)))
}

/// The variants of `s`, in order of position.
pub open spec fn insertion_variants(s: Seq<char>, table: Seq<(char, Seq<char>)>) -> Seq<Seq<char>> {
    concat_seqs(Seq::new(s.len(), |i: int| insertion_at(s, table, i)))
}

/// The index of the last entry for `c`, if any.
fn last_entry(map: &Vec<(char, Vec<char>)>, c: char) -> (r: Option<usize>)
    ensures
        match r {
            Some(k) => k < map@.len() && map@[k as int].0 == c
                && insertions_for(table_view(map@), c) == map@[k as int].1@,
            None => insertions_for(table_view(map@), c) == Seq::<char>::empty(),
        },
{
    let mut i = map.len();
    assert(map@.subrange(0, i as int) == map@);
    while i > 0
        invariant
            i <= map@.len(),
            insertions_for(table_view(map@), c) == insertions_for(table_view(map@.subrange(0, i as int)), c),
        decreases i,
    {
        let ghost t = table_view(map@.subrange(0, i as int));
        assert(t.drop_last() == table_view(map@.subrange(0, i - 1)));
        if map[i - 1].0 == c {
            return Some(i - 1);
        }
        i = i - 1;
    }
    None
}

impl InsertionFuzzer {
    /// The table, as pairs of a character and what it lists.
    pub closed spec fn table(&self) -> Seq<(char, Seq<char>)> {
        table_view(self.map@)
    }

    /// A fuzzer over `map`; where a character has several entries, the last
    /// one counts.
    pub fn new(map: Vec<(char, Vec<char>)>) -> (r: InsertionFuzzer)
        ensures
            r.table() == table_view(map@),
    {
        InsertionFuzzer { map }
    }
}

impl Fuzzer for InsertionFuzzer {
    open spec fn variants(&self, s: Seq<char>) -> Seq<Seq<char>> {
        insertion_variants(s, self.table())
    }

    fn fuzz(&self, domain: &str) -> (r: Vec<String>) {
        let b = chars_of(domain);
        let n = b.len();
        let ghost table = self.table();
        let ghost outer = Seq::new(b@.len(), |i: int| insertion_at(b@, table, i));
        let mut out: Vec<String> = Vec::new();
        let mut i: usize = 0;
        while i < n
            invariant
                n == b@.len(),
                i <= n,
                table == self.table(),
                table == table_view(self.map@),
                outer == Seq::new(b@.len(), |i: int| insertion_at(b@, table, i)),
                views(out@) == concat_seqs(outer.subrange(0, i as int)),
            decreases n - i,
        {
            proof {
                lemma_concat_seqs_step(outer, i as int);
            }
            match last_entry(&self.map, b[i]) {
                None => {
                    assert(insertion_at(b@, table, i as int) == Seq::<Seq<char>>::empty());
                },
                Some(k) => {
                    let list = &self.map[k].1;
                    let ghost inner = list@.map_values(|x: char| insertion_pair(b@, i as int, x));
                    let ghost start = views(out@);
                    let mut j: usize = 0;
                    while j < list.len()
                        invariant
                            n == b@.len(),
                            i < n,
                            j <= list@.len(),
                            inner == list@.map_values(|x: char| insertion_pair(b@, i as int, x)),
                            views(out@) == start + concat_seqs(inner.subrange(0, j as int)),
                        decreases list@.len() - j,
                    {
                        proof {
                            lemma_concat_seqs_step(inner, j as int);
                        }
                        let x = list[j];
                        let mut front = String::new();
                        push_range(&mut front, &b, 0, i);
                        push_char(&mut front, x);
                        push_range(&mut front, &b, i, n);
                        assert(front@ == b@.insert(i as int, x));
                        let mut back = String::new();
                        push_range(&mut back, &b, 0, i + 1);
                        push_char(&mut back, x);
                        push_range(&mut back, &b, i + 1, n);
                        assert(back@ == b@.insert(i + 1, x));
                        let ghost before = out@;
                        out.push(front);
                        out.push(back);
                        assert(views(out@) == views(before).push(front@).push(back@));
                        j = j + 1;
                        assert(views(out@) == start + concat_seqs(inner.subrange(0, j as int)));
                    }
                    assert(inner.subrange(0, list@.len() as int) == inner);
                },
            }
            i = i + 1;
        }
        assert(outer.subrange(0, n as int) == outer);
        out
    }
}

} // verus!
