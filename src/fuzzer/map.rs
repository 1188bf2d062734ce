use vstd::prelude::*;
use crate::fuzzer::Fuzzer;
use crate::text::{chars_of, push_char, views};
use itertools::Itertools;

verus! {

/// Replaces characters of a text by the alternatives that a table lists for
/// them, in every combination, the text itself first.
#[derive(Debug, Clone)]
pub struct MapFuzzer {
    map: Vec<(char, Vec<&'static str>)>,
}

/// The alternatives listed for `c`: those of the last entry for `c`, or none.
pub open spec fn alternatives_for(table: Seq<(char, Seq<Seq<char>>)>, c: char) -> Seq<Seq<char>>
    decreases table.len(),
{
    if table.len() == 0 {
        Seq::empty()
    } else if table.last().0 == c {
        table.last().1
    } else {
        alternatives_for(table.drop_last(), c)
    }
}

/// The table of a fuzzer, as pairs of a character and its alternatives.
pub open spec fn alternatives_view(map: Seq<(char, Vec<&'static str>)>) -> Seq<(char, Seq<Seq<char>>)> {
    map.map_values(|e: (char, Vec<&'static str>)| (e.0, e.1@.map_values(|a: &'static str| a@)))
}

/// For each position, the character itself and then its alternatives.
pub open spec fn map_options(s: Seq<char>, table: Seq<(char, Seq<Seq<char>>)>) -> Seq<Seq<Seq<char>>> {
    Seq::new(s.len(), |i: int| seq![seq![s[i]]] + alternatives_for(table, s[i]))
}

/// Every way of picking one item from each of `options`, in order, the last
/// choice changing fastest.
pub open spec fn product(options: Seq<Seq<Seq<char>>>) -> Seq<Seq<Seq<char>>>
    decreases options.len(),
{
    if options.len() == 0 {
        seq![Seq::empty()]
    } else {
        let rest = product(options.drop_first());
        prefix_each(options[0], rest)
    }
}

/// Each of `heads` in front of each of `tails`, heads changing slowest.
pub open spec fn prefix_each(heads: Seq<Seq<char>>, tails: Seq<Seq<Seq<char>>>) -> Seq<Seq<Seq<char>>>
    decreases heads.len(),
{
    if heads.len() == 0 {
        Seq::empty()
    } else {
        prefix_each(heads.drop_last(), tails) + tails.map_values(
            |t: Seq<Seq<char>>| seq![heads.last()] + t,
        )
    }
}

/// The product of `options`, and nothing when there are no options at all.
pub open spec fn cartesian(options: Seq<Seq<Seq<char>>>) -> Seq<Seq<Seq<char>>> {
    if options.len() == 0 {
        Seq::empty()
    } else {
        product(options)
    }
}

/// The parts written one after the other.
pub open spec fn concat_all(parts: Seq<Seq<char>>) -> Seq<char>
    decreases parts.len(),
{
    if parts.len() == 0 {
        Seq::empty()
    } else {
        concat_all(parts.drop_last()) + parts.last()
    }
}

/// Every combination of choices for the positions of `s`, written out.
pub open spec fn map_variants(s: Seq<char>, table: Seq<(char, Seq<Seq<char>>)>) -> Seq<Seq<char>> {
    cartesian(map_options(s, table)).map_values(|p: Seq<Seq<char>>| concat_all(p))
}

/// Relies on `Itertools::multi_cartesian_product`: every combination of one
/// item from each inner vector, the last one changing fastest; nothing when
/// there are no inner vectors.
#[verifier::external_body]
fn cartesian_product(options: &Vec<Vec<String>>) -> (r: Vec<Vec<String>>)
    ensures
        r.deep_view() == cartesian(options.deep_view()),
{
    options.iter().map(|o| o.iter().cloned()).multi_cartesian_product().collect()
}

/// The index of the last entry for `c`, if any.
fn last_entry(map: &Vec<(char, Vec<&'static str>)>, c: char) -> (r: Option<usize>)
    ensures
        match r {
            Some(k) => k < map@.len() && alternatives_for(alternatives_view(map@), c)
                == map@[k as int].1@.map_values(|a: &'static str| a@),
            None => alternatives_for(alternatives_view(map@), c) == Seq::<Seq<char>>::empty(),
        },
{
    let mut i = map.len();
    assert(map@.subrange(0, i as int) == map@);
    while i > 0
        invariant
            i <= map@.len(),
            alternatives_for(alternatives_view(map@), c) == alternatives_for(
                alternatives_view(map@.subrange(0, i as int)),
                c,
            ),
        decreases i,
    {
        let ghost t = alternatives_view(map@.subrange(0, i as int));
        assert(t.drop_last() == alternatives_view(map@.subrange(0, i - 1)));
        if map[i - 1].0 == c {
            return Some(i - 1);
        }
        i = i - 1;
    }
    None
}

/// All the parts written one after the other.
fn concat_strings(parts: &Vec<String>) -> (r: String)
    ensures
        r@ == concat_all(parts.deep_view()),
{
    let mut out = String::new();
    let mut i: usize = 0;
    while i < parts.len()
        invariant
            i <= parts@.len(),
            out@ == concat_all(parts.deep_view().subrange(0, i as int)),
        decreases parts@.len() - i,
    {
        assert(parts.deep_view().subrange(0, i + 1).drop_last() == parts.deep_view().subrange(0, i as int));
        out.append(parts[i].as_str());
        i = i + 1;
    }
    assert(parts.deep_view().subrange(0, parts@.len() as int) == parts.deep_view());
    out
}

impl MapFuzzer {
    /// The table, as pairs of a character and its alternatives.
    pub closed spec fn table(&self) -> Seq<(char, Seq<Seq<char>>)> {
        alternatives_view(self.map@)
    }

    /// A fuzzer over `map`; where a character has several entries, the last
    /// one counts.
    pub fn new(map: Vec<(char, Vec<&'static str>)>) -> (r: MapFuzzer)
        ensures
            r.table() == alternatives_view(map@),
    {
        MapFuzzer { map }
    }

    /// The character itself, then its alternatives.
    fn options_for(&self, c: char) -> (r: Vec<String>)
        ensures
            r.deep_view() == seq![seq![c]] + alternatives_for(self.table(), c),
    {
        let mut own = String::new();
        push_char(&mut own, c);
        let mut r: Vec<String> = Vec::new();
        r.push(own);
        match last_entry(&self.map, c) {
            None => {
                assert(r.deep_view() == seq![seq![c]]);
            },
            Some(k) => {
                let list = &self.map[k].1;
                let ghost alts = list@.map_values(|a: &'static str| a@);
                let mut j: usize = 0;
                while j < list.len()
                    invariant
                        j <= list@.len(),
                        alts == list@.map_values(|a: &'static str| a@),
                        r.deep_view() == seq![seq![c]] + alts.subrange(0, j as int),
                    decreases list@.len() - j,
                {
                    let ghost before = r.deep_view();
                    let item = String::from_str(list[j]);
                    r.push(item);
                    assert(r.deep_view() =~= before.push(item@));
                    j = j + 1;
                    assert(r.deep_view() =~= seq![seq![c]] + alts.subrange(0, j as int));
                }
                assert(alts.subrange(0, list@.len() as int) == alts);
            },
        }
        r
    }
}

impl Fuzzer for MapFuzzer {
    open spec fn variants(&self, s: Seq<char>) -> Seq<Seq<char>> {
        map_variants(s, self.table())
    }

    fn fuzz(&self, domain: &str) -> (r: Vec<String>) {
        let b = chars_of(domain);
        let ghost all_options = map_options(b@, self.table());
        let mut options: Vec<Vec<String>> = Vec::new();
        let mut i: usize = 0;
        while i < b.len()
            invariant
                i <= b@.len(),
                all_options == map_options(b@, self.table()),
                options.deep_view() == all_options.subrange(0, i as int),
            decreases b@.len() - i,
        {
            let o = self.options_for(b[i]);
            let ghost before = options.deep_view();
            let ghost item = o.deep_view();
            options.push(o);
            assert(options.deep_view() =~= before.push(item));
            i = i + 1;
            assert(options.deep_view() =~= all_options.subrange(0, i as int));
        }
        assert(all_options.subrange(0, b@.len() as int) == all_options);
        let combinations = cartesian_product(&options);
        let ghost combos = combinations.deep_view();
        let mut out: Vec<String> = Vec::new();
        let mut k: usize = 0;
        while k < combinations.len()
            invariant
                k <= combinations@.len(),
                combos == combinations.deep_view(),
                views(out@) == combos.subrange(0, k as int).map_values(|p: Seq<Seq<char>>| concat_all(p)),
            decreases combinations@.len() - k,
        {
            let s = concat_strings(&combinations[k]);
            let ghost before = out@;
            out.push(s);
            assert(views(out@) == views(before).push(s@));
            k = k + 1;
            assert(views(out@) == combos.subrange(0, k as int).map_values(|p: Seq<Seq<char>>| concat_all(p)));
        }
        assert(combos.subrange(0, combinations@.len() as int) == combos);
        out
    }
}

} // verus!
