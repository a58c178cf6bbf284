//! Output comparison: the runner's standard output is compared with the
//! expected answer as text, trimming trailing whitespace from each line
//! and dropping trailing blank lines, so that formatting noise at line
//! ends does not change a verdict.

use vstd::prelude::*;
use crate::models::InternalError;
use crate::sys;

verus! {

/// ASCII whitespace: tab, line feed, vertical tab, form feed, carriage
/// return, space.
pub open spec fn is_ws(b: u8) -> bool {
    b == 9 || b == 10 || b == 11 || b == 12 || b == 13 || b == 32
}

/// `s` without its trailing whitespace.
pub open spec fn rtrim(s: Seq<u8>) -> Seq<u8>
    decreases s.len(),
{
    if s.len() > 0 && is_ws(s.last()) {
        rtrim(s.drop_last())
    } else {
        s
    }
}

/// Position of the first line feed in `s`, or `s.len()` if there is none.
pub open spec fn first_nl(s: Seq<u8>) -> nat
    decreases s.len(),
{
    if s.len() == 0 {
        0
    } else if s[0] == 10 {
        0
    } else {
        1 + first_nl(s.drop_first())
    }
}

/// The lines of `s`, split at each line feed. Always at least one line;
/// a trailing line feed yields a final empty line.
pub open spec fn split_lines(s: Seq<u8>) -> Seq<Seq<u8>>
    decreases s.len(),
{
    let i = first_nl(s) as int;
    if i >= s.len() {
        seq![s]
    } else {
        seq![s.take(i)] + split_lines(s.skip(i + 1))
    }
}

/// `ls` without its trailing empty lines.
pub open spec fn drop_trailing_blanks(ls: Seq<Seq<u8>>) -> Seq<Seq<u8>>
    decreases ls.len(),
{
    if ls.len() > 0 && ls.last().len() == 0 {
        drop_trailing_blanks(ls.drop_last())
    } else {
        ls
    }
}

/// The lines of `ls` joined with single line feeds.
pub open spec fn join_lines(ls: Seq<Seq<u8>>) -> Seq<u8>
    decreases ls.len(),
{
    if ls.len() == 0 {
        Seq::empty()
    } else if ls.len() == 1 {
        ls[0]
    } else {
        ls[0] + seq![10u8] + join_lines(ls.drop_first())
    }
}

/// The canonical form of a text: each line stripped of trailing
/// whitespace, trailing blank lines removed, lines joined with single
/// line feeds.
pub open spec fn spec_clean(s: Seq<u8>) -> Seq<u8> {
    join_lines(drop_trailing_blanks(split_lines(s).map_values(|l: Seq<u8>| rtrim(l))))
}

/// Whether two texts are the same after cleaning: the comparison the
/// verdict `Accepted` rests on.
pub open spec fn spec_is_accepted(output: Seq<u8>, answer: Seq<u8>) -> bool {
    spec_clean(output) == spec_clean(answer)
}

/// Comparing any text with itself accepts.
pub proof fn lemma_is_accepted_reflexive(a: Seq<u8>)
    ensures
        spec_is_accepted(a, a),
{
}

/// `first_nl` answers `k` when the first `k` bytes are not line feeds and
/// byte `k`, if present, is one.
proof fn lemma_first_nl_at(s: Seq<u8>, k: int)
    requires
        0 <= k <= s.len(),
        forall|m: int| 0 <= m < k ==> s[m] != 10,
        k < s.len() ==> s[k] == 10,
    ensures
        first_nl(s) == k,
    decreases s.len(),
{
    if s.len() > 0 && s[0] != 10 {
        lemma_first_nl_at(s.drop_first(), k - 1);
    }
}

/// Appending a byte to a text without line feeds past position
/// `first_nl` leaves `first_nl` unchanged when a line feed exists, and
/// otherwise moves it past the new byte unless that byte is a line feed.
proof fn lemma_first_nl_push(s: Seq<u8>, c: u8)
    ensures
        first_nl(s) < s.len() ==> first_nl(s.push(c)) == first_nl(s),
        first_nl(s) >= s.len() && c == 10 ==> first_nl(s.push(c)) == s.len(),
        first_nl(s) >= s.len() && c != 10 ==> first_nl(s.push(c)) == s.len() + 1,
    decreases s.len(),
{
    lemma_first_nl_bounds(s);
    if s.len() == 0 {
        assert(s.push(c)[0] == c);
        if c != 10 {
            assert(s.push(c).drop_first() =~= Seq::<u8>::empty());
            assert(first_nl(Seq::<u8>::empty()) == 0);
            assert(first_nl(s.push(c)) == 1 + first_nl(s.push(c).drop_first()));
        }
    } else {
        assert(s.push(c)[0] == s[0]);
        if s[0] != 10 {
            assert(s.push(c).drop_first() =~= s.drop_first().push(c));
            lemma_first_nl_push(s.drop_first(), c);
            assert(first_nl(s) == 1 + first_nl(s.drop_first()));
            assert(first_nl(s.push(c)) == 1 + first_nl(s.drop_first().push(c)));
        }
    }
}

/// `first_nl` lies between 0 and the length, and no earlier byte is a
/// line feed; if within bounds it points at a line feed.
proof fn lemma_first_nl_bounds(s: Seq<u8>)
    ensures
        0 <= first_nl(s) <= s.len(),
        forall|m: int| 0 <= m < first_nl(s) ==> s[m] != 10,
        first_nl(s) < s.len() ==> s[first_nl(s) as int] == 10,
    decreases s.len(),
{
    if s.len() > 0 && s[0] != 10 {
        lemma_first_nl_bounds(s.drop_first());
        assert forall|m: int| 0 <= m < first_nl(s) implies s[m] != 10 by {
            if m > 0 {
                assert(s.drop_first()[m - 1] == s[m]);
            }
        }
        if first_nl(s) < s.len() {
            assert(s.drop_first()[first_nl(s.drop_first()) as int] == s[first_nl(s) as int]);
        }
    }
}

/// There is always at least one line.
proof fn lemma_split_lines_len(s: Seq<u8>)
    ensures
        split_lines(s).len() >= 1,
    decreases s.len(),
{
    lemma_first_nl_bounds(s);
}

/// Appending a line feed appends one empty line.
proof fn lemma_split_push_nl(s: Seq<u8>)
    ensures
        split_lines(s.push(10u8)) == split_lines(s) + seq![Seq::<u8>::empty()],
    decreases s.len(),
{
    lemma_first_nl_bounds(s);
    lemma_first_nl_push(s, 10u8);
    let t = s.push(10u8);
    let i = first_nl(s) as int;
    if i >= s.len() {
        // `s` holds no line feed: the new byte is the first one.
        assert(first_nl(t) == s.len());
        assert(t.take(s.len() as int) =~= s);
        assert(t.skip(s.len() as int + 1) =~= Seq::<u8>::empty());
        assert(split_lines(Seq::<u8>::empty()) =~= seq![Seq::<u8>::empty()]);
        assert(split_lines(t) =~= seq![s] + seq![Seq::<u8>::empty()]);
    } else {
        assert(first_nl(t) == i);
        assert(t.take(i) =~= s.take(i));
        assert(t.skip(i + 1) =~= s.skip(i + 1).push(10u8));
        lemma_split_push_nl(s.skip(i + 1));
        assert(split_lines(t) =~= seq![s.take(i)] + split_lines(s.skip(i + 1)) + seq![
            Seq::<u8>::empty(),
        ]);
        assert(split_lines(s) + seq![Seq::<u8>::empty()] =~= seq![s.take(i)] + split_lines(
            s.skip(i + 1),
        ) + seq![Seq::<u8>::empty()]);
    }
}

/// Appending any byte other than a line feed extends the last line.
proof fn lemma_split_push_other(s: Seq<u8>, c: u8)
    requires
        c != 10,
    ensures
        split_lines(s.push(c)).len() == split_lines(s).len(),
        split_lines(s.push(c)) == split_lines(s).update(
            split_lines(s).len() - 1,
            split_lines(s).last().push(c),
        ),
    decreases s.len(),
{
    lemma_split_lines_len(s);
    lemma_first_nl_bounds(s);
    lemma_first_nl_push(s, c);
    let t = s.push(c);
    let i = first_nl(s) as int;
    if i >= s.len() {
        assert(first_nl(t) == s.len() + 1);
        assert(split_lines(t) =~= seq![t]);
        assert(split_lines(s).update(0, s.push(c)) =~= seq![t]);
    } else {
        assert(first_nl(t) == i);
        assert(t.take(i) =~= s.take(i));
        assert(t.skip(i + 1) =~= s.skip(i + 1).push(c));
        lemma_split_push_other(s.skip(i + 1), c);
        lemma_split_lines_len(s.skip(i + 1));
        assert(split_lines(t) =~= split_lines(s).update(
            split_lines(s).len() - 1,
            split_lines(s).last().push(c),
        ));
    }
}

/// Trailing whitespace appended to a line vanishes under `rtrim`.
proof fn lemma_rtrim_push_ws(l: Seq<u8>, c: u8)
    requires
        is_ws(c),
    ensures
        rtrim(l.push(c)) == rtrim(l),
{
    assert(l.push(c).drop_last() =~= l);
}

/// Appending one whitespace byte to a text does not change its canonical
/// form.
proof fn lemma_clean_push_ws(s: Seq<u8>, c: u8)
    requires
        is_ws(c),
    ensures
        spec_clean(s.push(c)) == spec_clean(s),
{
    let ls = split_lines(s);
    let trimmed = ls.map_values(|l: Seq<u8>| rtrim(l));
    lemma_split_lines_len(s);
    if c == 10 {
        lemma_split_push_nl(s);
        let ls2 = split_lines(s.push(c));
        assert(ls2 =~= ls + seq![Seq::<u8>::empty()]);
        let trimmed2 = ls2.map_values(|l: Seq<u8>| rtrim(l));
        assert(trimmed2 =~= trimmed.push(Seq::<u8>::empty()));
        assert(trimmed2.drop_last() =~= trimmed);
        assert(drop_trailing_blanks(trimmed2) == drop_trailing_blanks(trimmed));
    } else {
        lemma_split_push_other(s, c);
        let ls2 = split_lines(s.push(c));
        let trimmed2 = ls2.map_values(|l: Seq<u8>| rtrim(l));
        lemma_rtrim_push_ws(ls.last(), c);
        assert(trimmed2 =~= trimmed);
    }
}

/// Whitespace appended to a text never changes its canonical form, so it
/// never changes whether an output is accepted.
pub proof fn lemma_trailing_ws_ignored(s: Seq<u8>, w: Seq<u8>)
    requires
        forall|i: int| 0 <= i < w.len() ==> is_ws(#[trigger] w[i]),
    ensures
        spec_clean(s + w) == spec_clean(s),
    decreases w.len(),
{
    if w.len() == 0 {
        assert(s + w =~= s);
    } else {
        lemma_trailing_ws_ignored(s, w.drop_last());
        assert(s + w =~= (s + w.drop_last()).push(w.last()));
        lemma_clean_push_ws(s + w.drop_last(), w.last());
    }
}

/// Trimmed lines end in no whitespace.
proof fn lemma_rtrim_no_trailing_ws(l: Seq<u8>)
    ensures
        rtrim(l).len() > 0 ==> !is_ws(rtrim(l).last()),
        rtrim(l).len() <= l.len(),
        forall|i: int| 0 <= i < rtrim(l).len() ==> rtrim(l)[i] == l[i],
    decreases l.len(),
{
    if l.len() > 0 && is_ws(l.last()) {
        lemma_rtrim_no_trailing_ws(l.drop_last());
        assert forall|i: int| 0 <= i < rtrim(l).len() implies rtrim(l)[i] == l[i] by {
            assert(rtrim(l)[i] == l.drop_last()[i]);
        }
    }
}

/// Trimming is idempotent.
proof fn lemma_rtrim_idempotent(l: Seq<u8>)
    ensures
        rtrim(rtrim(l)) == rtrim(l),
{
    lemma_rtrim_no_trailing_ws(l);
}

/// Every line of a split holds no line feed.
proof fn lemma_split_lines_no_nl(s: Seq<u8>)
    ensures
        forall|i: int, j: int|
            0 <= i < split_lines(s).len() && 0 <= j < split_lines(s)[i].len() ==> split_lines(
                s,
            )[i][j] != 10,
    decreases s.len(),
{
    lemma_first_nl_bounds(s);
    let k = first_nl(s) as int;
    if k < s.len() {
        lemma_split_lines_no_nl(s.skip(k + 1));
        assert forall|i: int, j: int|
            0 <= i < split_lines(s).len() && 0 <= j < split_lines(s)[i].len() implies split_lines(
            s,
        )[i][j] != 10 by {
            if i == 0 {
                assert(split_lines(s)[0] == s.take(k));
                assert(s.take(k)[j] == s[j]);
            } else {
                assert(split_lines(s)[i] == split_lines(s.skip(k + 1))[i - 1]);
            }
        }
    }
}

/// What is left after dropping trailing blanks is a prefix, and its
/// last line, if any, is not blank.
proof fn lemma_drop_blanks_shape(ls: Seq<Seq<u8>>)
    ensures
        drop_trailing_blanks(ls).len() <= ls.len(),
        forall|i: int|
            0 <= i < drop_trailing_blanks(ls).len() ==> drop_trailing_blanks(ls)[i] == ls[i],
        drop_trailing_blanks(ls).len() > 0 ==> drop_trailing_blanks(ls).last().len() > 0,
    decreases ls.len(),
{
    if ls.len() > 0 && ls.last().len() == 0 {
        lemma_drop_blanks_shape(ls.drop_last());
        assert forall|i: int|
            0 <= i < drop_trailing_blanks(ls).len() implies drop_trailing_blanks(ls)[i]
            == ls[i] by {
            assert(drop_trailing_blanks(ls)[i] == ls.drop_last()[i]);
        }
    }
}

/// Splitting a join of line-feed-free lines gives the lines back.
proof fn lemma_split_of_join(ls: Seq<Seq<u8>>)
    requires
        ls.len() >= 1,
        forall|i: int, j: int| 0 <= i < ls.len() && 0 <= j < ls[i].len() ==> ls[i][j] != 10,
    ensures
        split_lines(join_lines(ls)) == ls,
    decreases ls.len(),
{
    let c = join_lines(ls);
    if ls.len() == 1 {
        lemma_first_nl_at(c, c.len() as int);
        assert(split_lines(c) =~= ls);
    } else {
        let head = ls[0];
        let rest = join_lines(ls.drop_first());
        assert(c == head + seq![10u8] + rest);
        assert(forall|m: int| 0 <= m < head.len() ==> c[m] == head[m]);
        assert(c[head.len() as int] == 10);
        lemma_first_nl_at(c, head.len() as int);
        assert(c.take(head.len() as int) =~= head);
        assert(c.skip(head.len() as int + 1) =~= rest);
        assert forall|i: int, j: int|
            0 <= i < ls.drop_first().len() && 0 <= j < ls.drop_first()[i].len() implies ls.drop_first()[i][j]
            != 10 by {
            assert(ls.drop_first()[i] == ls[i + 1]);
        }
        lemma_split_of_join(ls.drop_first());
        assert(split_lines(c) =~= seq![head] + ls.drop_first());
        assert(seq![head] + ls.drop_first() =~= ls);
    }
}

/// Cleaning is idempotent: a cleaned text is its own canonical form,
/// so comparing cleaned texts again changes nothing.
pub proof fn lemma_clean_idempotent(s: Seq<u8>)
    ensures
        spec_clean(spec_clean(s)) == spec_clean(s),
{
    let trimmed = split_lines(s).map_values(|l: Seq<u8>| rtrim(l));
    let kept = drop_trailing_blanks(trimmed);
    let c = join_lines(kept);
    lemma_split_lines_no_nl(s);
    lemma_drop_blanks_shape(trimmed);
    if kept.len() == 0 {
        // An all-blank text cleans to the empty text, whose canonical
        // form is again empty.
        assert(c =~= Seq::<u8>::empty());
        assert(first_nl(c) == 0);
        assert(split_lines(c) =~= seq![Seq::<u8>::empty()]);
        assert(split_lines(c).map_values(|l: Seq<u8>| rtrim(l)) =~= seq![Seq::<u8>::empty()]);
        let one = seq![Seq::<u8>::empty()];
        assert(one.last().len() == 0);
        assert(one.drop_last() =~= Seq::<Seq<u8>>::empty());
        assert(drop_trailing_blanks(one.drop_last()).len() == 0);
        assert(drop_trailing_blanks(one).len() == 0);
        assert(spec_clean(c) =~= c);
    } else {
        // No kept line holds a line feed, so the join splits back into
        // exactly the kept lines.
        assert forall|i: int, j: int|
            0 <= i < kept.len() && 0 <= j < kept[i].len() implies kept[i][j] != 10 by {
            assert(kept[i] == trimmed[i]);
            assert(trimmed[i] == rtrim(split_lines(s)[i]));
            lemma_rtrim_no_trailing_ws(split_lines(s)[i]);
            assert(rtrim(split_lines(s)[i])[j] == split_lines(s)[i][j]);
            assert(split_lines(s)[i][j] != 10);
        }
        lemma_split_of_join(kept);
        // The kept lines are already trimmed, so trimming them again
        // changes nothing.
        assert forall|i: int| 0 <= i < kept.len() implies rtrim(#[trigger] kept[i]) == kept[i] by {
            assert(kept[i] == trimmed[i]);
            assert(trimmed[i] == rtrim(split_lines(s)[i]));
            lemma_rtrim_idempotent(split_lines(s)[i]);
        }
        assert(kept.map_values(|l: Seq<u8>| rtrim(l)) =~= kept);
        // The last kept line is not blank, so nothing more is dropped.
        assert(drop_trailing_blanks(kept) == kept);
    }
}

/// Joining after one more line appends a line feed and that line.
proof fn lemma_join_push(ls: Seq<Seq<u8>>, l: Seq<u8>)
    ensures
        join_lines(ls.push(l)) == if ls.len() == 0 {
            l
        } else {
            join_lines(ls) + seq![10u8] + l
        },
    decreases ls.len(),
{
    if ls.len() == 0 {
        assert(ls.push(l)[0] == l);
    } else {
        assert(ls.push(l).drop_first() =~= ls.drop_first().push(l));
        lemma_join_push(ls.drop_first(), l);
        if ls.len() == 1 {
            assert(join_lines(ls.push(l)) =~= ls[0] + seq![10u8] + l);
        } else {
            assert(join_lines(ls) + seq![10u8] + l =~= ls[0] + seq![10u8] + (join_lines(
                ls.drop_first(),
            ) + seq![10u8] + l));
        }
    }
}

/// Whether two byte slices hold the same bytes.
pub(crate) fn bytes_equal(a: &[u8], b: &[u8]) -> (r: bool)
    ensures
        r == (a@ == b@),
{
    if a.len() != b.len() {
        return false;
    }
    let mut i: usize = 0;
    while i < a.len()
        invariant
            a@.len() == b@.len(),
            i <= a@.len(),
            forall|j: int| 0 <= j < i ==> a@[j] == b@[j],
        decreases a@.len() - i,
    {
        if a[i] != b[i] {
            return false;
        }
        i = i + 1;
    }
    proof {
        assert(a@ =~= b@);
    }
    true
}

/// Whether `b` is ASCII whitespace.
pub(crate) fn is_ws_byte(b: u8) -> (r: bool)
    ensures
        r == is_ws(b),
{
    b == 9 || b == 10 || b == 11 || b == 12 || b == 13 || b == 32
}

/// A copy of `s[from..to]`.
pub(crate) fn sub_bytes(s: &Vec<u8>, from: usize, to: usize) -> (r: Vec<u8>)
    requires
        from <= to <= s@.len(),
    ensures
        r@ == s@.subrange(from as int, to as int),
{
    let mut r: Vec<u8> = Vec::new();
    let mut i: usize = from;
    while i < to
        invariant
            from <= i <= to <= s@.len(),
            r@ =~= s@.subrange(from as int, i as int),
        decreases to - i,
    {
        r.push(s[i]);
        proof {
            assert(r@ =~= s@.subrange(from as int, i + 1));
        }
        i = i + 1;
    }
    r
}

/// A line without its trailing whitespace.
fn rtrim_line(l: &Vec<u8>) -> (r: Vec<u8>)
    ensures
        r@ == rtrim(l@),
{
    let mut end: usize = l.len();
    proof {
        assert(l@.take(end as int) =~= l@);
    }
    while end > 0 && is_ws_byte(l[end - 1])
        invariant
            end <= l@.len(),
            rtrim(l@) == rtrim(l@.take(end as int)),
        decreases end,
    {
        proof {
            assert(l@.take(end as int).drop_last() =~= l@.take(end - 1));
        }
        end = end - 1;
    }
    proof {
        assert(rtrim(l@.take(end as int)) == l@.take(end as int));
    }
    sub_bytes(l, 0, end)
}

/// The lines of a text, split at each line feed.
pub(crate) fn split_lines_exec(s: &Vec<u8>) -> (r: Vec<Vec<u8>>)
    ensures
        r.deep_view() == split_lines(s@),
{
    let mut acc: Vec<Vec<u8>> = Vec::new();
    let mut p: usize = 0;
    let mut j: usize = 0;
    proof {
        assert(s@.skip(0) =~= s@);
    }
    while j < s.len()
        invariant
            p <= j <= s@.len(),
            forall|m: int| p <= m < j ==> s@[m] != 10,
            split_lines(s@) == acc.deep_view() + split_lines(s@.skip(p as int)),
        decreases s@.len() - j,
    {
        if s[j] == 10 {
            let line = sub_bytes(s, p, j);
            proof {
                let rest = s@.skip(p as int);
                assert(forall|m: int| 0 <= m < rest.len() ==> rest[m] == s@[p + m]);
                lemma_first_nl_at(rest, j - p);
                assert(rest.take(j - p) =~= s@.subrange(p as int, j as int));
                assert(rest.skip(j - p + 1) =~= s@.skip(j + 1));
            }
            let ghost pre = acc.deep_view();
            let ghost rest = s@.skip(p as int);
            acc.push(line);
            proof {
                assert(acc.deep_view() =~~= pre.push(line@));
                assert(pre.push(line@) + split_lines(s@.skip(j + 1)) =~= pre + split_lines(rest));
            }
            p = j + 1;
        }
        j = j + 1;
    }
    let last = sub_bytes(s, p, s.len());
    proof {
        let rest = s@.skip(p as int);
        assert(forall|m: int| 0 <= m < rest.len() ==> rest[m] == s@[p + m]);
        lemma_first_nl_at(rest, s@.len() - p);
        assert(rest =~= s@.subrange(p as int, s@.len() as int));
        assert(split_lines(rest) =~= seq![rest]);
    }
    let ghost pre = acc.deep_view();
    let ghost rest = s@.skip(p as int);
    acc.push(last);
    proof {
        assert(acc.deep_view() =~~= pre.push(last@));
        assert(pre.push(last@) =~= pre + split_lines(rest));
    }
    acc
}

/// The canonical form of a text, as [`spec_clean`] describes it.
pub fn clean_content(content: &Vec<u8>) -> (r: Vec<u8>)
    ensures
        r@ == spec_clean(content@),
{
    let lines = split_lines_exec(content);
    let ghost lines_dv = lines.deep_view();

    // Trim each line's trailing whitespace.
    let mut trimmed: Vec<Vec<u8>> = Vec::new();
    let mut i: usize = 0;
    while i < lines.len()
        invariant
            i <= lines@.len(),
            lines.deep_view() == lines_dv,
            lines@.len() == lines_dv.len(),
            trimmed.deep_view() =~= lines_dv.map_values(|l: Seq<u8>| rtrim(l)).take(i as int),
        decreases lines@.len() - i,
    {
        let t = rtrim_line(&lines[i]);
        proof {
            assert(lines@[i as int]@ == lines_dv[i as int]);
        }
        let ghost pre = trimmed.deep_view();
        trimmed.push(t);
        proof {
            assert(trimmed.deep_view() =~~= pre.push(t@));
            assert(pre.push(t@) =~= lines_dv.map_values(|l: Seq<u8>| rtrim(l)).take(i + 1));
        }
        i = i + 1;
    }
    proof {
        assert(trimmed.deep_view() =~= lines_dv.map_values(|l: Seq<u8>| rtrim(l)));
    }

    // Drop the trailing blank lines.
    let ghost trimmed_dv = trimmed.deep_view();
    let mut kept = trimmed;
    while kept.len() > 0 && kept[kept.len() - 1].len() == 0
        invariant
            drop_trailing_blanks(trimmed_dv) == drop_trailing_blanks(kept.deep_view()),
        decreases kept@.len(),
    {
        proof {
            assert(kept.deep_view().last().len() == 0);
            let ghost popped_dv = kept.deep_view().drop_last();
            assert(drop_trailing_blanks(kept.deep_view()) == drop_trailing_blanks(popped_dv));
        }
        let ghost before = kept.deep_view();
        kept.pop();
        proof {
            assert(kept.deep_view() =~~= before.drop_last());
        }
    }
    proof {
        assert(drop_trailing_blanks(kept.deep_view()) == kept.deep_view());
    }

    // Join what is left with single line feeds.
    let ghost kept_dv = kept.deep_view();
    let mut out: Vec<u8> = Vec::new();
    let mut k: usize = 0;
    while k < kept.len()
        invariant
            k <= kept@.len(),
            kept.deep_view() == kept_dv,
            kept@.len() == kept_dv.len(),
            out@ == join_lines(kept_dv.take(k as int)),
        decreases kept@.len() - k,
    {
        proof {
            assert(kept@[k as int]@ == kept_dv[k as int]);
            lemma_join_push(kept_dv.take(k as int), kept_dv[k as int]);
            assert(kept_dv.take(k as int).push(kept_dv[k as int]) =~= kept_dv.take(k + 1));
        }
        if k > 0 {
            out.push(10u8);
        }
        let line = &kept[k];
        let mut b: usize = 0;
        let ghost out_before = out@;
        while b < line.len()
            invariant
                b <= line@.len(),
                line@ == kept@[k as int]@,
                out@ =~= out_before + line@.take(b as int),
            decreases line@.len() - b,
        {
            out.push(line[b]);
            proof {
                assert(out@ =~= out_before + line@.take(b + 1));
            }
            b = b + 1;
        }
        proof {
            assert(out@ =~= out_before + line@);
        }
        k = k + 1;
    }
    proof {
        assert(kept_dv.take(kept_dv.len() as int) =~= kept_dv);
    }
    out
}

/// Whether `output` and `answer` are the same text after cleaning.
pub fn is_accepted_content(output: &Vec<u8>, answer: &Vec<u8>) -> (r: bool)
    ensures
        r == spec_is_accepted(output@, answer@),
{
    let co = clean_content(output);
    let ca = clean_content(answer);
    bytes_equal(co.as_slice(), ca.as_slice())
}

/// Read a whole file through the trusted `open`/`read`/`close` wrappers.
/// What comes back depends on the state of the disk, so the contract
/// promises nothing of the content. Returns the errno value on failure.
fn read_file(path: &str) -> (r: Result<Vec<u8>, i32>)
{
    let fd = match sys::sys_open(path, 0, 0) {
        Ok(fd) => fd,
        Err(e) => {
            return Err(e);
        },
    };
    let size = match sys::sys_fstat_size(fd) {
        Ok(s) => s,
        Err(e) => {
            let _ = sys::sys_close(fd);
            return Err(e);
        },
    };
    let mut out: Vec<u8> = Vec::new();
    while (out.len() as u64) < size
        invariant
            out@.len() <= size,
        decreases size - out@.len(),
    {
        let remaining: u64 = size - out.len() as u64;
        let chunk: usize = if remaining > 4096 {
            4096
        } else {
            remaining as usize
        };
        let mut buf: Vec<u8> = vec![0u8; chunk];
        let n = match sys::sys_read(fd, &mut buf) {
            Ok(n) => n,
            Err(e) => {
                let _ = sys::sys_close(fd);
                return Err(e);
            },
        };
        if n == 0 {
            // The file ended early; keep what was read.
            let _ = sys::sys_close(fd);
            return Ok(out);
        }
        let take_n = if n > chunk {
            chunk
        } else {
            n
        };
        proof {
            assert(1 <= take_n <= chunk);
            assert(out@.len() + chunk <= size);
        }
        let ghost out_start = out@.len();
        let mut b: usize = 0;
        while b < take_n
            invariant
                b <= take_n,
                take_n <= buf@.len(),
                out@.len() == out_start + b,
                out_start + take_n <= size,
            decreases take_n - b,
        {
            out.push(buf[b]);
            b = b + 1;
        }
    }
    let _ = sys::sys_close(fd);
    Ok(out)
}

/// Whether the runner's output file matches the expected answer under the
/// comparison of [`spec_is_accepted`]: both files are read, and their
/// contents compared after cleaning. Any read failure is reported as
/// [`InternalError::ReadOutput`].
pub fn is_accepted(output_path: &str, answer_path: &str) -> (r: Result<bool, InternalError>)
    ensures
        r matches Err(e) ==> e is ReadOutput,
{
    let output_content = match read_file(output_path) {
        Ok(c) => c,
        Err(e) => {
            return Err(InternalError::ReadOutput(e));
        },
    };
    let answer_content = match read_file(answer_path) {
        Ok(c) => c,
        Err(e) => {
            return Err(InternalError::ReadOutput(e));
        },
    };
    Ok(is_accepted_content(&output_content, &answer_content))
}

} // verus!
