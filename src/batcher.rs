//! Turns the pending notification lines of a server into one message:
//! repeated lines are merged with their count, lines are ordered by their
//! first characters, only the last ones are kept when there are too many,
//! and the survivors are joined with newlines.
use vstd::prelude::*;

use crate::text::{first_chars, lex_le, decimal, chars_of, prefix_le, to_decimal};

verus! {

/// Number of leading characters that order the lines of a batch.
pub const SORT_PREFIX: usize = 14;

/// A batch longer than this is cut down.
pub const MAX_LINES: usize = 20;

/// Number of lines that a batch that was cut down keeps.
pub const KEPT_LINES: usize = 15;

/// The character sequences of a list of strings.
pub open spec fn texts(v: Seq<String>) -> Seq<Seq<char>> {
    v.map_values(|s: String| s@)
}

/// How many times `x` occurs in `s`.
pub open spec fn count_in(s: Seq<Seq<char>>, x: Seq<char>) -> nat
    decreases s.len(),
{
    if s.len() == 0 {
        0
    } else {
        count_in(s.drop_last(), x) + if s.last() == x {
            1nat
        } else {
            0nat
        }
    }
}

/// The distinct elements of `s`, each where it first occurs.
pub open spec fn distinct_in_order(s: Seq<Seq<char>>) -> Seq<Seq<char>>
    decreases s.len(),
{
    if s.len() == 0 {
        s
    } else {
        let d = distinct_in_order(s.drop_last());
        if d.contains(s.last()) {
            d
        } else {
            d.push(s.last())
        }
    }
}

/// A line as it stands in a batch when it was sent `n` times.
pub open spec fn labelled(x: Seq<char>, n: nat) -> Seq<char> {
    if n > 1 {
        x + seq![' ', 'x'] + decimal(n)
    } else {
        x
    }
}

/// Each distinct line once, in order of first occurrence, marked with its
/// count when it occurs more than once.
pub open spec fn collapse(s: Seq<Seq<char>>) -> Seq<Seq<char>> {
    distinct_in_order(s).map_values(|x: Seq<char>| labelled(x, count_in(s, x)))
}

/// The part of a line that orders it in a batch.
pub open spec fn sort_key(x: Seq<char>) -> Seq<char> {
    first_chars(x, SORT_PREFIX as nat)
}

/// `x` inserted into `r` after every element whose key is not above its own,
/// looking from the end.
pub open spec fn insert_stable(r: Seq<Seq<char>>, x: Seq<char>) -> Seq<Seq<char>>
    decreases r.len(),
{
    if r.len() == 0 {
        seq![x]
    } else if lex_le(sort_key(r.last()), sort_key(x)) {
        r.push(x)
    } else {
        insert_stable(r.drop_last(), x).push(r.last())
    }
}

/// `s` sorted by key, lines with equal keys keeping their order.
pub open spec fn sort_by_key(s: Seq<Seq<char>>) -> Seq<Seq<char>>
    decreases s.len(),
{
    if s.len() == 0 {
        s
    } else {
        insert_stable(sort_by_key(s.drop_last()), s.last())
    }
}

/// The last `KEPT_LINES` lines when there are more than `MAX_LINES`.
pub open spec fn truncate_lines(s: Seq<Seq<char>>) -> Seq<Seq<char>> {
    if s.len() > MAX_LINES {
        s.skip(s.len() - KEPT_LINES)
    } else {
        s
    }
}

/// The lines of `s` joined with a newline between each two.
pub open spec fn join_lines(s: Seq<Seq<char>>) -> Seq<char>
    decreases s.len(),
{
    if s.len() == 0 {
        Seq::empty()
    } else if s.len() == 1 {
        s[0]
    } else {
        join_lines(s.drop_last()) + seq!['\n'] + s.last()
    }
}

/// The message that a buffer of lines becomes.
pub open spec fn batch_text(buffer: Seq<Seq<char>>) -> Seq<char> {
    join_lines(truncate_lines(sort_by_key(collapse(buffer))))
}

proof fn lemma_texts_push(v: Seq<String>, x: String)
    ensures
        texts(v.push(x)) == texts(v).push(x@),
{
    assert(texts(v.push(x)) =~= texts(v).push(x@));
}

proof fn lemma_distinct_no_dups(s: Seq<Seq<char>>)
    ensures
        distinct_in_order(s).no_duplicates(),
    decreases s.len(),
{
    if s.len() > 0 {
        lemma_distinct_no_dups(s.drop_last());
    }
}

/// Each distinct line of `msgs` with its count, as `collapse` states.
pub fn collapse_lines(msgs: &Vec<String>) -> (r: Vec<String>)
    ensures
        texts(r@) == collapse(texts(msgs@)),
{
    let ghost all = texts(msgs@);
    let mut uniq: Vec<String> = Vec::new();
    let mut counts: Vec<usize> = Vec::new();
    let mut i: usize = 0;
    assert(all.take(0) =~= Seq::<Seq<char>>::empty());
    assert(texts(uniq@) =~= Seq::<Seq<char>>::empty());
    while i < msgs.len()
        invariant
            all == texts(msgs@),
            i <= msgs@.len(),
            texts(uniq@) == distinct_in_order(all.take(i as int)),
            counts@.len() == uniq@.len(),
            forall|k: int|
                0 <= k < counts@.len() ==> counts@[k] == count_in(all.take(i as int), uniq@[k]@)
                    && counts@[k] <= i,
        decreases msgs.len() - i,
    {
        let x = &msgs[i];
        let ghost prefix = all.take(i as int);
        let ghost next = all.take(i + 1);
        assert(next.drop_last() =~= prefix);
        assert(next.last() == x@);
        proof {
            lemma_distinct_no_dups(prefix);
        }
        let mut k: usize = 0;
        let mut found = false;
        while k < uniq.len() && !found
            invariant
                k <= uniq@.len(),
                found ==> k < uniq@.len() && uniq@[k as int]@ == x@,
                forall|j: int| 0 <= j < k ==> uniq@[j]@ != x@,
            decreases uniq.len() - k + if found {
                0int
            } else {
                1int
            },
        {
            if uniq[k] == *x {
                found = true;
            } else {
                k = k + 1;
            }
        }
        if found {
            assert(texts(uniq@)[k as int] == x@);
            assert(distinct_in_order(prefix).contains(x@));
            let c = counts[k];
            counts[k] = c + 1;
            assert forall|j: int| 0 <= j < counts@.len() implies counts@[j] == count_in(
                next,
                uniq@[j]@,
            ) && counts@[j] <= i + 1 by {
                if j != k {
                    assert(texts(uniq@)[j] != texts(uniq@)[k as int]);
                }
            }
        } else {
            assert(!distinct_in_order(prefix).contains(x@)) by {
                if distinct_in_order(prefix).contains(x@) {
                    let j = choose|j: int|
                        0 <= j < distinct_in_order(prefix).len() && distinct_in_order(
                            prefix,
                        )[j] == x@;
                    assert(texts(uniq@)[j] == uniq@[j]@);
                }
            }
            let y = x.clone();
            proof {
                lemma_texts_push(uniq@, y);
            }
            uniq.push(y);
            counts.push(1);
            assert forall|j: int| 0 <= j < counts@.len() implies counts@[j] == count_in(
                next,
                uniq@[j]@,
            ) && counts@[j] <= i + 1 by {
                if j < counts@.len() - 1 {
                    assert(texts(uniq@)[j] == uniq@[j]@);
                    assert(uniq@[j]@ != x@);
                } else {
                    assert(!prefix.contains(x@)) by {
                        lemma_count_absent(prefix, x@);
                    }
                    lemma_count_absent(prefix, x@);
                }
            }
        }
        i = i + 1;
    }
    assert(all.take(msgs@.len() as int) =~= all);
    let mut r: Vec<String> = Vec::new();
    let mut k: usize = 0;
    while k < uniq.len()
        invariant
            k <= uniq@.len(),
            counts@.len() == uniq@.len(),
            texts(uniq@) == distinct_in_order(all),
            forall|j: int| 0 <= j < counts@.len() ==> counts@[j] == count_in(all, uniq@[j]@),
            texts(r@) == collapse(all).take(k as int),
        decreases uniq.len() - k,
    {
        let c = counts[k];
        let mut line = uniq[k].clone();
        if c > 1 {
            line.append(" x");
            let n = to_decimal(c as u64);
            line.append(n.as_str());
            proof {
                reveal_strlit(" x");
            }
        }
        assert(texts(uniq@)[k as int] == uniq@[k as int]@);
        assert(line@ == labelled(uniq@[k as int]@, count_in(all, uniq@[k as int]@)));
        proof {
            lemma_texts_push(r@, line);
        }
        r.push(line);
        assert(texts(r@) =~= collapse(all).take(k + 1));
        k = k + 1;
    }
    assert(collapse(all).take(k as int) =~= collapse(all));
    r
}

/// A line that is absent from `s`, and only such a line, occurs zero times.
proof fn lemma_count_absent(s: Seq<Seq<char>>, x: Seq<char>)
    ensures
        !s.contains(x) <==> count_in(s, x) == 0,
        !distinct_in_order(s).contains(x) ==> !s.contains(x),
    decreases s.len(),
{
    if s.len() > 0 {
        lemma_count_absent(s.drop_last(), x);
        if s.contains(x) && !(s.drop_last().contains(x)) {
            let j = choose|j: int| 0 <= j < s.len() && s[j] == x;
            if j < s.len() - 1 {
                assert(s.drop_last()[j] == x);
            }
            assert(s.last() == x);
        }
        if s.drop_last().contains(x) {
            let j = choose|j: int| 0 <= j < s.drop_last().len() && s.drop_last()[j] == x;
            assert(s[j] == x);
        }
        let d = distinct_in_order(s.drop_last());
        if !d.contains(s.last()) {
            assert(d.push(s.last())[d.len() as int] == s.last());
        }
        if !distinct_in_order(s).contains(x) && d.contains(x) {
            let j = choose|j: int| 0 <= j < d.len() && d[j] == x;
            if d.contains(s.last()) {
            } else {
                assert(d.push(s.last())[j] == x);
            }
        }
    }
}

/// Inserting at `j`, where every element from `j` on has a greater key than
/// `x` and the one before it does not, is what `insert_stable` does.
proof fn lemma_insert_at(r: Seq<Seq<char>>, x: Seq<char>, j: int)
    requires
        0 <= j <= r.len(),
        forall|k: int| j <= k < r.len() ==> !lex_le(sort_key(#[trigger] r[k]), sort_key(x)),
        j > 0 ==> lex_le(sort_key(r[j - 1]), sort_key(x)),
    ensures
        insert_stable(r, x) == r.insert(j, x),
    decreases r.len(),
{
    if r.len() == 0 {
        assert(r.insert(j, x) =~= seq![x]);
    } else if j == r.len() {
        assert(r.insert(j, x) =~= r.push(x));
    } else {
        assert(!lex_le(sort_key(r[r.len() - 1]), sort_key(x)));
        let d = r.drop_last();
        assert forall|k: int| j <= k < d.len() implies !lex_le(sort_key(#[trigger] d[k]), sort_key(x)) by {
            assert(d[k] == r[k]);
        }
        if j > 0 {
            assert(d[j - 1] == r[j - 1]);
        }
        lemma_insert_at(d, x, j);
        assert(d.insert(j, x).push(r.last()) =~= r.insert(j, x));
    }
}

/// Each line's key comes before the next line's key, or equals it.
pub open spec fn ordered_by_key(s: Seq<Seq<char>>) -> bool {
    forall|i: int| 0 <= i < s.len() - 1 ==> lex_le(sort_key(#[trigger] s[i]), sort_key(s[i + 1]))
}

/// Any two sequences of characters are ordered one way or the other.
proof fn lemma_lex_total(a: Seq<char>, b: Seq<char>)
    ensures
        lex_le(a, b) || lex_le(b, a),
    decreases a.len(),
{
    if a.len() > 0 && b.len() > 0 && (a[0] as u32) == (b[0] as u32) {
        lemma_lex_total(a.skip(1), b.skip(1));
    }
}

/// The last line after an insertion is the inserted line or the old last one.
proof fn lemma_insert_last(r: Seq<Seq<char>>, x: Seq<char>)
    ensures
        insert_stable(r, x).len() == r.len() + 1,
        insert_stable(r, x).last() == x || (r.len() > 0 && insert_stable(r, x).last() == r.last()),
        r.len() > 0 && !lex_le(sort_key(r.last()), sort_key(x)) ==> insert_stable(r, x).last()
            == r.last(),
        r.len() == 0 || lex_le(sort_key(r.last()), sort_key(x)) ==> insert_stable(r, x).last()
            == x,
    decreases r.len(),
{
    if r.len() > 0 && !lex_le(sort_key(r.last()), sort_key(x)) {
        lemma_insert_last(r.drop_last(), x);
    }
}

proof fn lemma_insert_ordered(r: Seq<Seq<char>>, x: Seq<char>)
    requires
        ordered_by_key(r),
    ensures
        ordered_by_key(insert_stable(r, x)),
    decreases r.len(),
{
    if r.len() == 0 {
    } else if lex_le(sort_key(r.last()), sort_key(x)) {
        let t = r.push(x);
        assert forall|i: int| 0 <= i < t.len() - 1 implies lex_le(
            sort_key(#[trigger] t[i]),
            sort_key(t[i + 1]),
        ) by {
            if i < r.len() - 1 {
                assert(t[i] == r[i] && t[i + 1] == r[i + 1]);
            }
        }
    } else {
        let d = r.drop_last();
        assert forall|i: int| 0 <= i < d.len() - 1 implies lex_le(
            sort_key(#[trigger] d[i]),
            sort_key(d[i + 1]),
        ) by {
            assert(d[i] == r[i] && d[i + 1] == r[i + 1]);
        }
        lemma_insert_ordered(d, x);
        lemma_insert_last(d, x);
        let u = insert_stable(d, x);
        let t = u.push(r.last());
        lemma_lex_total(sort_key(r.last()), sort_key(x));
        if d.len() > 0 {
            assert(lex_le(sort_key(r[d.len() - 1]), sort_key(r[d.len() as int])));
        }
        assert forall|i: int| 0 <= i < t.len() - 1 implies lex_le(
            sort_key(#[trigger] t[i]),
            sort_key(t[i + 1]),
        ) by {
            if i < u.len() - 1 {
                assert(t[i] == u[i] && t[i + 1] == u[i + 1]);
            } else {
                assert(t[i] == u.last());
                assert(t[i + 1] == r.last());
            }
        }
    }
}

proof fn lemma_insert_same_lines(r: Seq<Seq<char>>, x: Seq<char>)
    ensures
        insert_stable(r, x).to_multiset() == r.to_multiset().insert(x),
    decreases r.len(),
{
    broadcast use vstd::seq_lib::group_to_multiset_ensures;

    if r.len() == 0 {
        assert(seq![x] =~= Seq::<Seq<char>>::empty().push(x));
    } else if !lex_le(sort_key(r.last()), sort_key(x)) {
        let d = r.drop_last();
        lemma_insert_same_lines(d, x);
        assert(d.push(r.last()) =~= r);
        assert(insert_stable(d, x).push(r.last()).to_multiset() =~= r.to_multiset().insert(x));
    }
}

/// The lines of a batch, before any are cut, come in order of their first
/// characters, and are the same lines as before sorting.
pub proof fn sorted_lines_are_ordered(s: Seq<Seq<char>>)
    ensures
        ordered_by_key(sort_by_key(s)),
        sort_by_key(s).to_multiset() == s.to_multiset(),
        sort_by_key(s).len() == s.len(),
    decreases s.len(),
{
    broadcast use vstd::seq_lib::group_to_multiset_ensures;

    if s.len() > 0 {
        sorted_lines_are_ordered(s.drop_last());
        lemma_insert_ordered(sort_by_key(s.drop_last()), s.last());
        lemma_insert_last(sort_by_key(s.drop_last()), s.last());
        lemma_insert_same_lines(sort_by_key(s.drop_last()), s.last());
        assert(s.drop_last().push(s.last()) =~= s);
    }
}

proof fn lemma_sort_keeps_ordered(s: Seq<Seq<char>>)
    requires
        ordered_by_key(s),
    ensures
        sort_by_key(s) == s,
    decreases s.len(),
{
    if s.len() > 0 {
        let d = s.drop_last();
        assert forall|i: int| 0 <= i < d.len() - 1 implies lex_le(
            sort_key(#[trigger] d[i]),
            sort_key(d[i + 1]),
        ) by {
            assert(d[i] == s[i] && d[i + 1] == s[i + 1]);
        }
        lemma_sort_keeps_ordered(d);
        if d.len() > 0 {
            assert(lex_le(sort_key(s[d.len() - 1]), sort_key(s[d.len() as int])));
            assert(d.last() == s[d.len() - 1]);
        }
        assert(d.push(s.last()) =~= s);
    }
}

proof fn lemma_distinct_keeps_unique(s: Seq<Seq<char>>)
    requires
        s.no_duplicates(),
    ensures
        distinct_in_order(s) == s,
        forall|i: int| 0 <= i < s.len() ==> count_in(s, #[trigger] s[i]) == 1,
    decreases s.len(),
{
    if s.len() > 0 {
        let d = s.drop_last();
        assert(d.no_duplicates()) by {
            assert forall|i: int, j: int| 0 <= i < d.len() && 0 <= j < d.len() && i != j implies d[i]
                != d[j] by {
                assert(d[i] == s[i] && d[j] == s[j]);
            }
        }
        lemma_distinct_keeps_unique(d);
        assert(!d.contains(s.last())) by {
            if d.contains(s.last()) {
                let j = choose|j: int| 0 <= j < d.len() && d[j] == s.last();
                assert(s[j] == s[s.len() - 1]);
            }
        }
        lemma_count_absent(d, s.last());
        assert(d.push(s.last()) =~= s);
        assert forall|i: int| 0 <= i < s.len() implies count_in(s, #[trigger] s[i]) == 1 by {
            if i < s.len() - 1 {
                assert(s[i] == d[i]);
                assert(s[i] != s.last());
                assert(count_in(d, d[i]) == 1);
            }
        }
    }
}

/// A buffer of distinct lines that already come in order of their first
/// characters goes out as it stands, cut down to its last `KEPT_LINES` lines
/// when it holds more than `MAX_LINES`.
pub proof fn ordered_lines_keep_latest(buffer: Seq<Seq<char>>)
    requires
        buffer.no_duplicates(),
        ordered_by_key(buffer),
    ensures
        batch_text(buffer) == join_lines(truncate_lines(buffer)),
        buffer.len() > MAX_LINES ==> batch_text(buffer) == join_lines(
            buffer.skip(buffer.len() - KEPT_LINES),
        ),
{
    lemma_distinct_keeps_unique(buffer);
    assert(collapse(buffer) =~= buffer);
    lemma_sort_keeps_ordered(buffer);
}

/// The lines of `v` sorted by their first `SORT_PREFIX` characters, lines
/// with equal prefixes keeping their order.
pub fn sort_lines(v: Vec<String>) -> (r: Vec<String>)
    ensures
        texts(r@) == sort_by_key(texts(v@)),
{
    let ghost all = texts(v@);
    let mut r: Vec<String> = Vec::new();
    let mut keys: Vec<Vec<char>> = Vec::new();
    let mut i: usize = 0;
    assert(all.take(0) =~= Seq::<Seq<char>>::empty());
    assert(texts(r@) =~= Seq::<Seq<char>>::empty());
    while i < v.len()
        invariant
            all == texts(v@),
            i <= v@.len(),
            texts(r@) == sort_by_key(all.take(i as int)),
            keys@.len() == r@.len(),
            forall|k: int| 0 <= k < keys@.len() ==> (#[trigger] keys@[k])@ == r@[k]@,
        decreases v.len() - i,
    {
        let x = v[i].clone();
        let xk = chars_of(x.as_str());
        let ghost before = texts(r@);
        let mut j: usize = r.len();
        while j > 0 && !prefix_le(&keys[j - 1], &xk, SORT_PREFIX)
            invariant
                j <= r@.len(),
                keys@.len() == r@.len(),
                xk@ == x@,
                before == texts(r@),
                forall|k: int| 0 <= k < keys@.len() ==> (#[trigger] keys@[k])@ == r@[k]@,
                forall|k: int|
                    j <= k < before.len() ==> !lex_le(sort_key(#[trigger] before[k]), sort_key(x@)),
            decreases j,
        {
            assert(before[j - 1] == r@[j - 1]@);
            j = j - 1;
        }
        proof {
            if j > 0 {
                assert(before[j - 1] == r@[j - 1]@);
            }
            lemma_insert_at(before, x@, j as int);
            let next = all.take(i + 1);
            assert(next.drop_last() =~= all.take(i as int));
            assert(next.last() == x@);
        }
        let ghost old_r = r@;
        let ghost old_keys = keys@;
        r.insert(j, x);
        keys.insert(j, xk);
        assert(texts(r@) =~= before.insert(j as int, x@));
        assert forall|k: int| 0 <= k < keys@.len() implies (#[trigger] keys@[k])@ == r@[k]@ by {
            if k < j {
                assert(keys@[k] == old_keys[k]);
                assert(r@[k] == old_r[k]);
            } else if k > j {
                assert(keys@[k] == old_keys[k - 1]);
                assert(r@[k] == old_r[k - 1]);
            }
        }
        i = i + 1;
    }
    assert(all.take(v@.len() as int) =~= all);
    r
}

/// The last `KEPT_LINES` lines of `v` when it holds more than `MAX_LINES`,
/// else all of them.
pub fn truncate_batch(v: Vec<String>) -> (r: Vec<String>)
    ensures
        texts(r@) == truncate_lines(texts(v@)),
{
    if v.len() <= MAX_LINES {
        return v;
    }
    let start = v.len() - KEPT_LINES;
    let mut r: Vec<String> = Vec::new();
    let mut k: usize = start;
    while k < v.len()
        invariant
            start == v@.len() - KEPT_LINES,
            start <= k <= v@.len(),
            texts(r@) == texts(v@).subrange(start as int, k as int),
        decreases v.len() - k,
    {
        let line = v[k].clone();
        proof {
            lemma_texts_push(r@, line);
        }
        r.push(line);
        assert(texts(r@) =~= texts(v@).subrange(start as int, k + 1));
        k = k + 1;
    }
    assert(texts(v@).subrange(start as int, v@.len() as int) =~= texts(v@).skip(start as int));
    r
}

/// The lines of `v` joined with a newline between each two.
pub fn join_batch(v: &Vec<String>) -> (r: String)
    ensures
        r@ == join_lines(texts(v@)),
{
    let ghost all = texts(v@);
    let mut out = String::new();
    let mut k: usize = 0;
    assert(out@ =~= join_lines(all.take(0)));
    while k < v.len()
        invariant
            all == texts(v@),
            k <= v@.len(),
            out@ == join_lines(all.take(k as int)),
        decreases v.len() - k,
    {
        let ghost next = all.take(k + 1);
        assert(next.drop_last() =~= all.take(k as int));
        if k > 0 {
            out.append("\n");
            proof {
                reveal_strlit("\n");
            }
        } else {
            assert(next.len() == 1);
        }
        out.append(v[k].as_str());
        assert(out@ =~= join_lines(next));
        k = k + 1;
    }
    assert(all.take(v@.len() as int) =~= all);
    out
}

/// The message that the pending lines `buffer` become: repeated lines merged
/// with their count, ordered by their first characters, cut down to the last
/// few when there are too many, joined with newlines.
pub fn compose_batch(buffer: &Vec<String>) -> (r: String)
    ensures
        r@ == batch_text(texts(buffer@)),
{
    let collapsed = collapse_lines(buffer);
    let sorted = sort_lines(collapsed);
    let kept = truncate_batch(sorted);
    join_batch(&kept)
}

} // verus!
