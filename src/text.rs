//! Text transforms over a content seen as a sequence of characters.
use vstd::prelude::*;
use vstd::std_specs::iter::IteratorSpec;

verus! {

broadcast use vstd::string::group_string_axioms;

/// `s` holds no line separator.
pub open spec fn is_line(s: Seq<char>) -> bool {
    forall|i: int| 0 <= i < s.len() ==> s[i] != '\n'
}

/// The lines of `s`: the maximal runs between separators, in order. Always
/// at least one line; a separator at the end yields an empty last line.
pub open spec fn split_lines(s: Seq<char>) -> Seq<Seq<char>>
    decreases s.len(),
{
    if s.len() == 0 {
        seq![Seq::empty()]
    } else {
        let pre = split_lines(s.drop_last());
        if s.last() == '\n' {
            pre.push(Seq::empty())
        } else {
            pre.update(pre.len() - 1, pre.last().push(s.last()))
        }
    }
}

/// The lines of `ls` joined with one separator between each two.
pub open spec fn join_lines(ls: Seq<Seq<char>>) -> Seq<char>
    decreases ls.len(),
{
    if ls.len() == 0 {
        Seq::empty()
    } else if ls.len() == 1 {
        ls[0]
    } else {
        join_lines(ls.drop_last()) + seq!['\n'] + ls.last()
    }
}

/// The character sequences of a list of character vectors.
pub open spec fn views(ls: Seq<Vec<char>>) -> Seq<Seq<char>> {
    ls.map_values(|l: Vec<char>| l@)
}

/// The whole content with its characters in reverse order.
pub open spec fn reversed_text(s: Seq<char>) -> Seq<char> {
    s.reverse()
}

/// The content with its lines in reverse order, each line kept as it is.
pub open spec fn reversed_lines(s: Seq<char>) -> Seq<char> {
    join_lines(split_lines(s).reverse())
}

/// The content with the characters of each line reversed, lines kept in order.
pub open spec fn reversed_within_lines(s: Seq<char>) -> Seq<char> {
    join_lines(split_lines(s).map_values(|l: Seq<char>| l.reverse()))
}

/// Every content has at least one line, and no line holds a separator.
pub proof fn lemma_split_lines_wf(s: Seq<char>)
    ensures
        split_lines(s).len() >= 1,
        forall|k: int| 0 <= k < split_lines(s).len() ==> is_line(#[trigger] split_lines(s)[k]),
    decreases s.len(),
{
    if s.len() > 0 {
        lemma_split_lines_wf(s.drop_last());
    }
}

/// Joining `ls` with one more character on its last line.
proof fn lemma_join_extend_last(ls: Seq<Seq<char>>, c: char)
    requires
        ls.len() >= 1,
    ensures
        join_lines(ls.update(ls.len() - 1, ls.last().push(c))) == join_lines(ls).push(c),
{
    let ls2 = ls.update(ls.len() - 1, ls.last().push(c));
    if ls.len() >= 2 {
        assert(ls2.drop_last() =~= ls.drop_last());
        assert(join_lines(ls2) =~= join_lines(ls).push(c));
    }
}

/// Joining the lines of a content gives the content back.
pub proof fn lemma_join_split(s: Seq<char>)
    ensures
        join_lines(split_lines(s)) == s,
    decreases s.len(),
{
    if s.len() > 0 {
        let t = s.drop_last();
        lemma_join_split(t);
        lemma_split_lines_wf(t);
        let pre = split_lines(t);
        if s.last() == '\n' {
            assert(pre.push(Seq::empty()).drop_last() =~= pre);
            assert(join_lines(split_lines(s)) =~= s);
        } else {
            lemma_join_extend_last(pre, s.last());
            assert(t.push(s.last()) =~= s);
        }
    }
}

/// A line that holds no separator splits into itself alone.
proof fn lemma_split_single(s: Seq<char>)
    requires
        is_line(s),
    ensures
        split_lines(s) == seq![s],
    decreases s.len(),
{
    if s.len() > 0 {
        let t = s.drop_last();
        assert(is_line(t)) by {
            assert forall|i: int| 0 <= i < t.len() implies t[i] != '\n' by {
                assert(t[i] == s[i]);
            }
        }
        assert(s[s.len() - 1] != '\n');
        lemma_split_single(t);
        assert(t.push(s.last()) =~= s);
        assert(split_lines(s) =~= seq![s]);
    } else {
        assert(s =~= Seq::<char>::empty());
    }
}

/// Splitting `a`, a separator and a line `b` gives the lines of `a` and then `b`.
proof fn lemma_split_append_line(a: Seq<char>, b: Seq<char>)
    requires
        is_line(b),
    ensures
        split_lines(a + seq!['\n'] + b) == split_lines(a).push(b),
    decreases b.len(),
{
    let s = a + seq!['\n'] + b;
    if b.len() == 0 {
        assert(b =~= Seq::<char>::empty());
        assert(s.drop_last() =~= a);
        assert(s =~= a.push('\n'));
    } else {
        let b2 = b.drop_last();
        assert(is_line(b2)) by {
            assert forall|i: int| 0 <= i < b2.len() implies b2[i] != '\n' by {
                assert(b2[i] == b[i]);
            }
        }
        assert(b[b.len() - 1] != '\n');
        assert(s.last() == b.last());
        assert(b2.push(b.last()) =~= b);
        lemma_split_append_line(a, b2);
        assert(s.drop_last() =~= a + seq!['\n'] + b2);
        lemma_split_lines_wf(a);
        assert(split_lines(s) =~= split_lines(a).push(b));
    }
}

/// Splitting the join of one or more separator-free lines gives those lines back.
pub proof fn lemma_split_join(ls: Seq<Seq<char>>)
    requires
        ls.len() >= 1,
        forall|k: int| 0 <= k < ls.len() ==> is_line(#[trigger] ls[k]),
    ensures
        split_lines(join_lines(ls)) == ls,
    decreases ls.len(),
{
    if ls.len() == 1 {
        lemma_split_single(ls[0]);
        assert(seq![ls[0]] =~= ls);
    } else {
        let pre = ls.drop_last();
        lemma_split_join(pre);
        lemma_split_append_line(join_lines(pre), ls.last());
        assert(pre.push(ls.last()) =~= ls);
    }
}

/// The characters of `s`, one by one.
fn chars_of(s: &str) -> (r: Vec<char>)
    ensures
        r@ == s@,
{
    let mut r: Vec<char> = Vec::new();
    for c in it: s.chars()
        invariant
            r@ == it.seq().take(it.index() as int),
            it.seq() == s@,
    {
        r.push(c);
    }
    r
}

/// Which transform is applied to the content.
#[derive(Clone, Copy, Debug, PartialEq, Eq, Structural)]
pub enum Mode {
    /// The content as it is.
    Plain,
    /// All characters in reverse order.
    FullReverse,
    /// Lines in reverse order.
    LineReverse,
    /// Characters reversed within each line.
    CharsWithinLineReverse,
}

/// The content `s` under `mode`.
pub open spec fn transformed(s: Seq<char>, mode: Mode) -> Seq<char> {
    match mode {
        Mode::Plain => s,
        Mode::FullReverse => reversed_text(s),
        Mode::LineReverse => reversed_lines(s),
        Mode::CharsWithinLineReverse => reversed_within_lines(s),
    }
}

/// Reversing the whole content twice gives it back.
pub proof fn lemma_reverse_text_involutive(s: Seq<char>)
    ensures
        reversed_text(reversed_text(s)) == s,
{
    assert(s.reverse().reverse() =~= s);
}

/// Reversing the order of the lines twice gives the content back.
pub proof fn lemma_reverse_lines_involutive(s: Seq<char>)
    ensures
        reversed_lines(reversed_lines(s)) == s,
{
    let ls = split_lines(s);
    lemma_split_lines_wf(s);
    let r = ls.reverse();
    assert forall|k: int| 0 <= k < r.len() implies is_line(#[trigger] r[k]) by {
        assert(r[k] == ls[ls.len() - 1 - k]);
    }
    lemma_split_join(r);
    assert(r.reverse() =~= ls);
    lemma_join_split(s);
}

/// Reversing the characters within each line twice gives the content back.
pub proof fn lemma_reverse_within_lines_involutive(s: Seq<char>)
    ensures
        reversed_within_lines(reversed_within_lines(s)) == s,
{
    let ls = split_lines(s);
    lemma_split_lines_wf(s);
    let r = ls.map_values(|l: Seq<char>| l.reverse());
    assert forall|k: int| 0 <= k < r.len() implies is_line(#[trigger] r[k]) by {
        assert forall|i: int| 0 <= i < r[k].len() implies r[k][i] != '\n' by {
            assert(r[k][i] == ls[k][ls[k].len() - 1 - i]);
        }
    }
    lemma_split_join(r);
    let back = r.map_values(|l: Seq<char>| l.reverse());
    assert forall|k: int| 0 <= k < ls.len() implies #[trigger] back[k] == ls[k] by {
        assert(ls[k].reverse().reverse() =~= ls[k]);
    }
    assert(back =~= ls);
    lemma_join_split(s);
}

/// The plain mode leaves every content as it is.
pub proof fn lemma_plain_identity(s: Seq<char>)
    ensures
        transformed(s, Mode::Plain) == s,
{
}

/// Every mode turns the empty content into the empty content.
pub proof fn lemma_empty_stays_empty(mode: Mode)
    ensures
        transformed(Seq::empty(), mode) == Seq::<char>::empty(),
{
    let e = Seq::<char>::empty();
    assert(e.reverse() =~= e);
    assert(split_lines(e) == seq![e]);
    assert(split_lines(e).reverse() =~= seq![e]);
    assert(split_lines(e).map_values(|l: Seq<char>| l.reverse()) =~= seq![e]);
}

/// Relies on String::push: the character is appended at the end.
#[verifier::external_body]
fn push_char(s: &mut String, c: char)
    ensures
        final(s)@ == old(s)@.push(c),
{
    s.push(c);
}

/// A string holding the characters of `v`, in order.
fn string_of(v: &Vec<char>) -> (r: String)
    ensures
        r@ == v@,
{
    let mut r = String::new();
    let mut i: usize = 0;
    while i < v.len()
        invariant
            i <= v.len(),
            r@ == v@.take(i as int),
        decreases v.len() - i,
    {
        push_char(&mut r, v[i]);
        i = i + 1;
        assert(r@ =~= v@.take(i as int));
    }
    assert(v@.take(i as int) =~= v@);
    r
}

/// The characters of `v` in reverse order.
fn reverse_vec(v: &Vec<char>) -> (r: Vec<char>)
    ensures
        r@ == v@.reverse(),
{
    let mut r: Vec<char> = Vec::new();
    let mut i: usize = v.len();
    while i > 0
        invariant
            i <= v.len(),
            r.len() == v.len() - i,
            forall|j: int| 0 <= j < r.len() ==> r@[j] == v@[v.len() - 1 - j],
        decreases i,
    {
        i = i - 1;
        r.push(v[i]);
    }
    assert(r@ =~= v@.reverse());
    r
}

/// The lines of `v`, split on the separator.
fn split_vec(v: &Vec<char>) -> (r: Vec<Vec<char>>)
    ensures
        views(r@) == split_lines(v@),
{
    let mut lines: Vec<Vec<char>> = Vec::new();
    let mut cur: Vec<char> = Vec::new();
    let mut i: usize = 0;
    assert(v@.take(0) =~= Seq::<char>::empty());
    assert(views(lines@).push(cur@) =~= split_lines(v@.take(0)));
    while i < v.len()
        invariant
            i <= v.len(),
            views(lines@).push(cur@) == split_lines(v@.take(i as int)),
        decreases v.len() - i,
    {
        let c = v[i];
        let ghost pre = split_lines(v@.take(i as int));
        assert(v@.take(i as int + 1).drop_last() =~= v@.take(i as int));
        if c == '\n' {
            lines.push(cur);
            cur = Vec::new();
            assert(views(lines@).push(cur@) =~= pre.push(Seq::empty()));
        } else {
            cur.push(c);
            assert(views(lines@).push(cur@) =~= pre.update(pre.len() - 1, pre.last().push(c)));
        }
        i = i + 1;
    }
    assert(v@.take(i as int) =~= v@);
    lines.push(cur);
    assert(views(lines@) =~= split_lines(v@));
    lines
}

/// The lines of `ls` joined with one separator between each two.
fn join_vec(ls: &Vec<Vec<char>>) -> (r: String)
    ensures
        r@ == join_lines(views(ls@)),
{
    let mut r = String::new();
    let mut i: usize = 0;
    while i < ls.len()
        invariant
            i <= ls.len(),
            r@ == join_lines(views(ls@).take(i as int)),
        decreases ls.len() - i,
    {
        let ghost base = r@;
        if i > 0 {
            push_char(&mut r, '\n');
        }
        let line = &ls[i];
        let mut j: usize = 0;
        while j < line.len()
            invariant
                j <= line.len(),
                line == ls@[i as int],
                i < ls.len(),
                r@ == (if i > 0 { base + seq!['\n'] } else { base }) + line@.take(j as int),
            decreases line.len() - j,
        {
            push_char(&mut r, line[j]);
            j = j + 1;
            assert(r@ =~= (if i > 0 { base + seq!['\n'] } else { base }) + line@.take(j as int));
        }
        let ghost next = views(ls@).take(i as int + 1);
        assert(line@.take(j as int) =~= line@);
        assert(next.drop_last() =~= views(ls@).take(i as int));
        if i == 0 {
            assert(base =~= Seq::<char>::empty());
            assert(r@ =~= join_lines(next));
        } else {
            assert(r@ =~= join_lines(next));
        }
        i = i + 1;
    }
    assert(views(ls@).take(i as int) =~= views(ls@));
    r
}

/// The same lines in reverse order.
fn reverse_order(ls: Vec<Vec<char>>) -> (r: Vec<Vec<char>>)
    ensures
        views(r@) == views(ls@).reverse(),
{
    let ghost orig = ls@;
    let mut ls = ls;
    let mut r: Vec<Vec<char>> = Vec::new();
    while ls.len() > 0
        invariant
            ls.len() <= orig.len(),
            ls@ == orig.take(ls.len() as int),
            r.len() == orig.len() - ls.len(),
            forall|j: int| 0 <= j < r.len() ==> r@[j] == orig[orig.len() - 1 - j],
        decreases ls.len(),
    {
        let l = ls.pop().unwrap();
        assert(ls@ =~= orig.take(ls.len() as int));
        r.push(l);
    }
    assert(views(r@) =~= views(orig).reverse());
    r
}

/// Each line with its characters reversed, lines kept in order.
fn reverse_each(ls: &Vec<Vec<char>>) -> (r: Vec<Vec<char>>)
    ensures
        views(r@) == views(ls@).map_values(|l: Seq<char>| l.reverse()),
{
    let mut r: Vec<Vec<char>> = Vec::new();
    let mut i: usize = 0;
    while i < ls.len()
        invariant
            i <= ls.len(),
            r.len() == i,
            forall|j: int| 0 <= j < i ==> r@[j]@ == ls@[j]@.reverse(),
        decreases ls.len() - i,
    {
        r.push(reverse_vec(&ls[i]));
        i = i + 1;
    }
    assert(views(r@) =~= views(ls@).map_values(|l: Seq<char>| l.reverse()));
    r
}

/// The whole content with its characters in reverse order, line separators
/// included.
pub fn reverse_text(s: &str) -> (r: String)
    ensures
        r@ == reversed_text(s@),
{
    string_of(&reverse_vec(&chars_of(s)))
}

/// The content with its lines in reverse order.
pub fn reverse_lines(s: &str) -> (r: String)
    ensures
        r@ == reversed_lines(s@),
{
    let lines = split_vec(&chars_of(s));
    join_vec(&reverse_order(lines))
}

/// The content with the characters of each line reversed.
pub fn reverse_chars_within_lines(s: &str) -> (r: String)
    ensures
        r@ == reversed_within_lines(s@),
{
    let lines = split_vec(&chars_of(s));
    join_vec(&reverse_each(&lines))
}

/// The content under `mode`.
pub fn apply(content: &str, mode: Mode) -> (r: String)
    ensures
        r@ == transformed(content@, mode),
{
    match mode {
        Mode::Plain => content.to_owned(),
        Mode::FullReverse => reverse_text(content),
        Mode::LineReverse => reverse_lines(content),
        Mode::CharsWithinLineReverse => reverse_chars_within_lines(content),
    }
}

} // verus!
