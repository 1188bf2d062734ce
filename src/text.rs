use vstd::prelude::*;

verus! {

/// The pieces of `s` between occurrences of `sep`, left to right; there is
/// always at least one piece.
pub open spec fn split_on(s: Seq<char>, sep: char) -> Seq<Seq<char>>
    decreases s.len(),
{
    if s.len() == 0 {
        seq![Seq::<char>::empty()]
    } else {
        let pieces = split_on(s.drop_last(), sep);
        if s.last() == sep {
            pieces.push(Seq::<char>::empty())
        } else {
            pieces.update(pieces.len() - 1, pieces.last().push(s.last()))
        }
    }
}

/// The pieces of `parts` with `sep` between each two neighbours.
pub open spec fn join_with(parts: Seq<Seq<char>>, sep: char) -> Seq<char>
    decreases parts.len(),
{
    if parts.len() == 0 {
        Seq::<char>::empty()
    } else if parts.len() == 1 {
        parts[0]
    } else {
        join_with(parts.drop_last(), sep).push(sep) + parts.last()
    }
}

/// The views of a sequence of strings.
pub open spec fn views(v: Seq<String>) -> Seq<Seq<char>> {
    v.map_values(|s: String| s@)
}

/// Relies on `String::push`: appends one character.
#[verifier::external_body]
pub(crate) fn push_char(s: &mut String, c: char)
    ensures
        final(s)@ == old(s)@.push(c),
{
    s.push(c);
}

pub proof fn lemma_split_nonempty(s: Seq<char>, sep: char)
    ensures
        split_on(s, sep).len() >= 1,
    decreases s.len(),
{
    if s.len() > 0 {
        lemma_split_nonempty(s.drop_last(), sep);
    }
}

/// Joining the pieces of a split with the same separator gives back the
/// sequence that was split.
pub proof fn lemma_join_split(s: Seq<char>, sep: char)
    ensures
        join_with(split_on(s, sep), sep) == s,
    decreases s.len(),
{
    if s.len() > 0 {
        let prev = s.drop_last();
        let pieces = split_on(prev, sep);
        lemma_join_split(prev, sep);
        lemma_split_nonempty(prev, sep);
        if s.last() == sep {
            assert(pieces.push(Seq::<char>::empty()).drop_last() == pieces);
            assert(prev.push(sep) + Seq::<char>::empty() == s);
        } else {
            let grown = pieces.update(pieces.len() - 1, pieces.last().push(s.last()));
            assert(grown.drop_last() == pieces.drop_last());
            if pieces.len() == 1 {
                assert(prev == pieces[0]);
                assert(grown[0] == s);
            } else {
                let head = join_with(pieces.drop_last(), sep).push(sep);
                assert(head + pieces.last().push(s.last()) == (head + pieces.last()).push(s.last()));
            }
        }
    }
}

/// Text without `sep` added at the end of a sequence lengthens its last
/// piece.
pub proof fn lemma_split_extend(x: Seq<char>, y: Seq<char>, sep: char)
    requires
        !y.contains(sep),
    ensures
        split_on(x + y, sep) == split_on(x, sep).update(
            split_on(x, sep).len() - 1,
            split_on(x, sep).last() + y,
        ),
    decreases y.len(),
{
    lemma_split_nonempty(x, sep);
    if y.len() == 0 {
        assert(x + y == x);
        assert(split_on(x, sep).last() + y == split_on(x, sep).last());
    } else {
        let front = y.drop_last();
        assert(!front.contains(sep)) by {
            assert forall|i: int| 0 <= i < front.len() implies front[i] != sep by {
                assert(front[i] == y[i]);
            }
        }
        lemma_split_extend(x, front, sep);
        assert((x + y).drop_last() == x + front);
        assert(y.last() != sep) by {
            assert(y[y.len() - 1] == y.last());
        }
        let q = split_on(x, sep);
        let p = split_on(x + front, sep);
        assert(p.len() == q.len());
        assert(p.last() == q.last() + front);
        assert((q.last() + front).push(y.last()) == q.last() + y);
        assert(split_on(x + y, sep) == p.update(p.len() - 1, p.last().push(y.last())));
        assert(p.update(p.len() - 1, p.last().push(y.last())) == q.update(q.len() - 1, q.last() + y));
    }
}

/// Splitting the joined pieces gives the pieces back, when none of them
/// holds the separator.
pub proof fn lemma_split_join(parts: Seq<Seq<char>>, sep: char)
    requires
        parts.len() >= 1,
        forall|i: int| 0 <= i < parts.len() ==> !(#[trigger] parts[i]).contains(sep),
    ensures
        split_on(join_with(parts, sep), sep) == parts,
    decreases parts.len(),
{
    if parts.len() == 1 {
        let empty = Seq::<char>::empty();
        lemma_split_extend(empty, parts[0], sep);
        assert(empty + parts[0] == parts[0]);
        assert(empty + parts[0] == join_with(parts, sep));
    } else {
        let front = parts.drop_last();
        assert forall|i: int| 0 <= i < front.len() implies !(#[trigger] front[i]).contains(sep) by {
            assert(front[i] == parts[i]);
        }
        lemma_split_join(front, sep);
        let head = join_with(front, sep);
        assert(!parts.last().contains(sep)) by {
            assert(parts[parts.len() - 1] == parts.last());
        }
        lemma_split_extend(head.push(sep), parts.last(), sep);
        lemma_split_nonempty(head, sep);
        assert(head.push(sep).drop_last() == head);
        assert(split_on(head.push(sep), sep) == front.push(Seq::<char>::empty()));
        assert(Seq::<char>::empty() + parts.last() == parts.last());
        assert(front.push(Seq::<char>::empty()).update(front.len() as int, parts.last()) == parts);
    }
}

/// Splits `s` at every `sep`.
pub fn split_chars(s: &str, sep: char) -> (r: Vec<String>)
    ensures
        views(r@) == split_on(s@, sep),
{
    let n = s.unicode_len();
    let mut pieces: Vec<String> = Vec::new();
    pieces.push(String::new());
    let mut i: usize = 0;
    while i < n
        invariant
            n == s@.len(),
            i <= n,
            pieces@.len() >= 1,
            views(pieces@) == split_on(s@.subrange(0, i as int), sep),
        decreases n - i,
    {
        let c = s.get_char(i);
        let ghost prev = s@.subrange(0, i as int);
        assert(s@.subrange(0, i + 1).drop_last() == prev);
        if c == sep {
            pieces.push(String::new());
        } else {
            let last = pieces.len() - 1;
            let mut piece = pieces[last].clone();
            push_char(&mut piece, c);
            pieces.set(last, piece);
        }
        i = i + 1;
        assert(views(pieces@) == split_on(s@.subrange(0, i as int), sep));
    }
    assert(s@.subrange(0, n as int) == s@);
    pieces
}

/// Joins `parts` with `sep` between each two neighbours.
pub fn join_chars(parts: &Vec<String>, sep: char) -> (r: String)
    ensures
        r@ == join_with(views(parts@), sep),
{
    let mut out = String::new();
    let mut i: usize = 0;
    while i < parts.len()
        invariant
            i <= parts@.len(),
            out@ == join_with(views(parts@.subrange(0, i as int)), sep),
        decreases parts@.len() - i,
    {
        let ghost done = parts@.subrange(0, i as int);
        let ghost next = parts@.subrange(0, i + 1);
        assert(next.drop_last() == done);
        assert(views(next).drop_last() == views(done));
        if i > 0 {
            push_char(&mut out, sep);
        }
        out.append(parts[i].as_str());
        i = i + 1;
        proof {
            if i == 1 {
                assert(views(next) == seq![parts@[0]@]);
            }
        }
    }
    assert(parts@.subrange(0, parts@.len() as int) == parts@);
    out
}

/// Whether two strings hold the same characters.
pub fn same_text(a: &str, b: &str) -> (r: bool)
    ensures
        r == (a@ == b@),
{
    let n = a.unicode_len();
    if n != b.unicode_len() {
        return false;
    }
    let mut i: usize = 0;
    while i < n
        invariant
            n == a@.len(),
            n == b@.len(),
            i <= n,
            a@.subrange(0, i as int) == b@.subrange(0, i as int),
        decreases n - i,
    {
        if a.get_char(i) != b.get_char(i) {
            assert(a@[i as int] != b@[i as int]);
            return false;
        }
        i = i + 1;
        assert(a@.subrange(0, i as int) == a@.subrange(0, i - 1).push(a@[i - 1]));
        assert(b@.subrange(0, i as int) == b@.subrange(0, i - 1).push(b@[i - 1]));
    }
    assert(a@.subrange(0, n as int) == a@);
    assert(b@.subrange(0, n as int) == b@);
    true
}

/// The characters of `s`, in order.
pub fn chars_of(s: &str) -> (r: Vec<char>)
    ensures
        r@ == s@,
{
    let n = s.unicode_len();
    let mut out: Vec<char> = Vec::new();
    let mut i: usize = 0;
    while i < n
        invariant
            n == s@.len(),
            i <= n,
            out@ == s@.subrange(0, i as int),
        decreases n - i,
    {
        out.push(s.get_char(i));
        i = i + 1;
    }
    out
}

/// Appends `chars[from..to]` to `out`.
pub fn push_range(out: &mut String, chars: &Vec<char>, from: usize, to: usize)
    requires
        from <= to <= chars@.len(),
    ensures
        final(out)@ == old(out)@ + chars@.subrange(from as int, to as int),
{
    let mut i = from;
    while i < to
        invariant
            from <= i <= to,
            to <= chars@.len(),
            out@ == old(out)@ + chars@.subrange(from as int, i as int),
        decreases to - i,
    {
        push_char(out, chars[i]);
        i = i + 1;
        assert(out@ == old(out)@ + chars@.subrange(from as int, i as int));
    }
}

} // verus!
