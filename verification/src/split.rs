//! Statement splitting: the resolved source text is partitioned on the
//! statement separator `;`, blank segments are discarded, and every retained
//! segment is terminated with exactly one separator.

use vstd::prelude::*;

use crate::text::{all_space, is_blank};

verus! {

/// Index of the first occurrence of `sep` in `s`, or `s.len()` if none.
pub open spec fn find_sep(s: Seq<char>, sep: char) -> nat
    decreases s.len(),
{
    if s.len() == 0 {
        0
    } else if s[0] == sep {
        0
    } else {
        1 + find_sep(s.skip(1), sep)
    }
}

proof fn lemma_find_sep(s: Seq<char>, sep: char)
    ensures
        find_sep(s, sep) <= s.len(),
        forall|j: int| 0 <= j < find_sep(s, sep) ==> s[j] != sep,
        find_sep(s, sep) < s.len() ==> s[find_sep(s, sep) as int] == sep,
    decreases s.len(),
{
    if s.len() == 0 {
    } else if s[0] == sep {
    } else {
        lemma_find_sep(s.skip(1), sep);
        assert forall|j: int| 0 <= j < find_sep(s, sep) implies s[j] != sep by {
            if j > 0 {
                assert(s.skip(1)[j - 1] == s[j]);
            }
        }
        if find_sep(s, sep) < s.len() {
            assert(s.skip(1)[find_sep(s, sep) - 1] == s[find_sep(s, sep) as int]);
        }
    }
}

/// If `s` holds no `sep` before `k`, and `sep` stands at `k` (or `k` is the
/// end), then `k` is where the first separator is found.
proof fn lemma_find_sep_at(s: Seq<char>, sep: char, k: nat)
    requires
        k <= s.len(),
        forall|j: int| 0 <= j < k ==> s[j] != sep,
        k < s.len() ==> s[k as int] == sep,
    ensures
        find_sep(s, sep) == k,
    decreases s.len(),
{
    if s.len() == 0 {
    } else if s[0] == sep {
        if k > 0 {
            assert(s[0] != sep);
        }
    } else {
        assert(k >= 1) by {
            if k == 0 {
                assert(s[0] == sep);
            }
        }
        assert forall|j: int| 0 <= j < k - 1 implies s.skip(1)[j] != sep by {
            assert(s.skip(1)[j] == s[j + 1]);
        }
        if k - 1 < s.skip(1).len() {
            assert(s.skip(1)[k - 1] == s[k as int]);
        }
        lemma_find_sep_at(s.skip(1), sep, (k - 1) as nat);
    }
}

/// The segments of `s` delimited by `sep`, in order, separators removed.
/// A text with no separator is one segment; every separator ends a segment,
/// so a trailing separator leaves a trailing empty segment.
pub open spec fn split_on_spec(s: Seq<char>, sep: char) -> Seq<Seq<char>>
    decreases s.len(),
{
    let k = find_sep(s, sep);
    if k >= s.len() {
        seq![s]
    } else {
        seq![s.take(k as int)] + split_on_spec(s.skip(k as int + 1), sep)
    }
}

/// The statements made from a list of raw segments: blank segments are
/// dropped, and each remaining segment gets one trailing `;`.
pub open spec fn statements_of(parts: Seq<Seq<char>>) -> Seq<Seq<char>>
    decreases parts.len(),
{
    if parts.len() == 0 {
        Seq::empty()
    } else {
        let head = if all_space(parts[0]) {
            Seq::<Seq<char>>::empty()
        } else {
            seq![parts[0].push(';')]
        };
        head + statements_of(parts.skip(1))
    }
}

/// The statements of a source text: its `;`-delimited segments, blank ones
/// discarded, each kept segment re-terminated with exactly one `;`.
pub open spec fn spec_statements(s: Seq<char>) -> Seq<Seq<char>> {
    statements_of(split_on_spec(s, ';'))
}

/// No segment produced by splitting holds the separator it was split on.
proof fn lemma_segments_have_no_sep(s: Seq<char>, sep: char)
    ensures
        forall|i: int, j: int|
            0 <= i < split_on_spec(s, sep).len() && 0 <= j < split_on_spec(s, sep)[i].len()
                ==> #[trigger] split_on_spec(s, sep)[i][j] != sep,
    decreases s.len(),
{
    lemma_find_sep(s, sep);
    let k = find_sep(s, sep);
    if k >= s.len() {
        assert(split_on_spec(s, sep) == seq![s]);
    } else {
        lemma_segments_have_no_sep(s.skip(k as int + 1), sep);
        assert forall|i: int, j: int|
            0 <= i < split_on_spec(s, sep).len() && 0 <= j < split_on_spec(s, sep)[i].len()
            implies #[trigger] split_on_spec(s, sep)[i][j] != sep by {
            if i == 0 {
                assert(split_on_spec(s, sep)[0] == s.take(k as int));
                assert(s.take(k as int)[j] == s[j]);
            } else {
                assert(split_on_spec(s, sep)[i] == split_on_spec(s.skip(k as int + 1), sep)[i - 1]);
            }
        }
    }
}

/// `statements_of` is exactly: keep the non-blank segments, in order, and
/// append one separator to each.
proof fn lemma_statements_of_filter(parts: Seq<Seq<char>>)
    ensures
        statements_of(parts) == parts.filter(|p: Seq<char>| !all_space(p)).map_values(
            |p: Seq<char>| p.push(';'),
        ),
    decreases parts.len(),
{
    let pred = |p: Seq<char>| !all_space(p);
    let f = |p: Seq<char>| p.push(';');
    if parts.len() == 0 {
        reveal(Seq::filter);
        assert(statements_of(parts) =~~= parts.filter(pred).map_values(f));
    } else {
        lemma_statements_of_filter(parts.skip(1));
        assert(parts =~~= seq![parts[0]] + parts.skip(1));
        parts.skip(1).lemma_filter_prepend(parts[0], pred);
        let head_f = if pred(parts[0]) {
            seq![parts[0]]
        } else {
            Seq::<Seq<char>>::empty()
        };
        assert(parts.filter(pred) == head_f + parts.skip(1).filter(pred));
        assert(parts.filter(pred).map_values(f) =~~= head_f.map_values(f) + parts.skip(
            1,
        ).filter(pred).map_values(f));
        let head = if all_space(parts[0]) {
            Seq::<Seq<char>>::empty()
        } else {
            seq![parts[0].push(';')]
        };
        assert(head =~~= head_f.map_values(f));
        assert(statements_of(parts) == head + statements_of(parts.skip(1)));
    }
}

/// A well-formed statement: non-empty, terminated by its only `;`, and
/// not blank once the terminator is taken off.
pub open spec fn wellformed_statement(st: Seq<char>) -> bool {
    &&& st.len() > 0
    &&& st.last() == ';'
    &&& forall|j: int| 0 <= j < st.len() - 1 ==> st[j] != ';'
    &&& !all_space(st.drop_last())
}

/// Law: for any source text, the statements produced by splitting are
/// exactly its non-blank `;`-delimited segments, in source order, each
/// extended by one separator; every statement is non-empty, ends in `;`,
/// and holds no `;` anywhere but at its end.
pub proof fn lemma_splitter_exact(s: Seq<char>)
    ensures
        spec_statements(s) == split_on_spec(s, ';').filter(|p: Seq<char>| !all_space(p)).map_values(
            |p: Seq<char>| p.push(';'),
        ),
        forall|i: int|
            0 <= i < spec_statements(s).len() ==> (#[trigger] spec_statements(s)[i]).len() > 0,
        forall|i: int|
            0 <= i < spec_statements(s).len() ==> (#[trigger] spec_statements(s)[i]).last() == ';',
        forall|i: int, j: int|
            0 <= i < spec_statements(s).len() && 0 <= j < spec_statements(s)[i].len() - 1
                ==> #[trigger] spec_statements(s)[i][j] != ';',
        forall|i: int|
            0 <= i < spec_statements(s).len() ==> wellformed_statement(
                #[trigger] spec_statements(s)[i],
            ),
{
    let pred = |p: Seq<char>| !all_space(p);
    let f = |p: Seq<char>| p.push(';');
    let parts = split_on_spec(s, ';');
    let filtered = parts.filter(pred);
    lemma_statements_of_filter(parts);
    lemma_segments_have_no_sep(s, ';');
    assert forall|i: int|
        0 <= i < spec_statements(s).len() implies {
        &&& (#[trigger] spec_statements(s)[i]).len() > 0
        &&& spec_statements(s)[i].last() == ';'
        &&& forall|j: int| 0 <= j < spec_statements(s)[i].len() - 1 ==> spec_statements(s)[i][j] != ';'
        &&& wellformed_statement(spec_statements(s)[i])
    } by {
        assert(spec_statements(s)[i] == f(filtered[i]));
        assert(filtered.contains(filtered[i]));
        parts.lemma_filter_contains_rev(pred, filtered[i]);
        let w = choose|w: int| 0 <= w < parts.len() && parts[w] == filtered[i];
        assert forall|j: int| 0 <= j < spec_statements(s)[i].len() - 1 implies spec_statements(
            s,
        )[i][j] != ';' by {
            assert(parts[w][j] != ';');
            assert(spec_statements(s)[i][j] == filtered[i][j]);
        }
        parts.lemma_filter_pred(pred, i);
        assert(spec_statements(s)[i].drop_last() =~= filtered[i]);
    }
}

/// The statements joined back into one text, in order.
pub open spec fn join_seq(stmts: Seq<Seq<char>>) -> Seq<char>
    decreases stmts.len(),
{
    if stmts.len() == 0 {
        Seq::empty()
    } else {
        stmts[0] + join_seq(stmts.skip(1))
    }
}

/// Splitting a text joined from well-formed statements gives those
/// statements back.
proof fn lemma_resplit(stmts: Seq<Seq<char>>)
    requires
        forall|i: int| 0 <= i < stmts.len() ==> wellformed_statement(#[trigger] stmts[i]),
    ensures
        spec_statements(join_seq(stmts)) == stmts,
    decreases stmts.len(),
{
    if stmts.len() == 0 {
        let e = Seq::<char>::empty();
        assert(find_sep(e, ';') == 0);
        assert(split_on_spec(e, ';') == seq![e]);
        assert(statements_of(seq![e]) =~~= Seq::<Seq<char>>::empty()) by {
            assert(all_space(e));
            assert(seq![e].skip(1) =~~= Seq::<Seq<char>>::empty());
            assert(statements_of(Seq::<Seq<char>>::empty()) == Seq::<Seq<char>>::empty());
        }
        assert(spec_statements(join_seq(stmts)) =~~= stmts);
    } else {
        let h = stmts[0];
        let p = h.drop_last();
        let t = join_seq(stmts.skip(1));
        let joined = join_seq(stmts);
        assert(joined == h + t);
        assert(h =~= p.push(';'));
        assert forall|j: int| 0 <= j < p.len() implies joined[j] != ';' by {
            assert(joined[j] == h[j]);
        }
        assert(joined[p.len() as int] == h[h.len() - 1]);
        lemma_find_sep_at(joined, ';', p.len());
        let k = find_sep(joined, ';');
        assert(k == p.len() < joined.len());
        assert(joined.take(k as int) =~= p);
        assert(joined.skip(k as int + 1) =~= t);
        assert(split_on_spec(joined, ';') == seq![p] + split_on_spec(t, ';'));
        assert forall|i: int| 0 <= i < stmts.skip(1).len() implies wellformed_statement(
            #[trigger] stmts.skip(1)[i],
        ) by {
            assert(stmts.skip(1)[i] == stmts[i + 1]);
        }
        lemma_resplit(stmts.skip(1));
        let parts = seq![p] + split_on_spec(t, ';');
        assert(parts[0] == p);
        assert(parts.skip(1) =~~= split_on_spec(t, ';'));
        assert(statements_of(parts) == seq![p.push(';')] + statements_of(split_on_spec(t, ';')));
        assert(spec_statements(joined) =~~= stmts) by {
            assert(seq![h] + stmts.skip(1) =~~= stmts);
        }
    }
}

/// Law: splitting is idempotent on its own output. Joining the statements
/// of a text back together and splitting again yields the same statements.
pub proof fn lemma_split_idempotent(s: Seq<char>)
    ensures
        spec_statements(join_seq(spec_statements(s))) == spec_statements(s),
{
    lemma_splitter_exact(s);
    lemma_resplit(spec_statements(s));
}

/// Splits `s` at every occurrence of `sep`, returning the raw segments.
pub fn split_on(s: &str, sep: char) -> (parts: Vec<String>)
    ensures
        parts.deep_view() == split_on_spec(s@, sep),
{
    let n = s.unicode_len();
    let mut parts: Vec<String> = Vec::new();
    let mut start: usize = 0;
    let mut i: usize = 0;
    proof {
        assert(s@.skip(0) =~= s@);
        assert(parts.deep_view() + split_on_spec(s@, sep) =~~= split_on_spec(s@, sep));
    }
    while i < n
        invariant
            n == s@.len(),
            0 <= start <= i <= n,
            forall|j: int| start <= j < i ==> s@[j] != sep,
            parts.deep_view() + split_on_spec(s@.skip(start as int), sep) == split_on_spec(
                s@,
                sep,
            ),
        decreases n - i,
    {
        if s.get_char(i) == sep {
            let part = s.substring_char(start, i);
            let part_owned = String::from_str(part);
            let ghost before: Seq<Seq<char>> = parts.deep_view();
            proof {
                let t = s@.skip(start as int);
                assert forall|j: int| 0 <= j < i - start implies t[j] != sep by {
                    assert(t[j] == s@[start + j]);
                }
                assert(t[i - start] == s@[i as int]);
                lemma_find_sep_at(t, sep, (i - start) as nat);
                assert(t.take(i - start) =~= s@.subrange(start as int, i as int));
                assert(t.skip(i - start + 1) =~= s@.skip(i as int + 1));
                assert(before.push(part_owned@) + split_on_spec(s@.skip(i as int + 1), sep)
                    =~~= before + split_on_spec(s@.skip(start as int), sep));
            }
            parts.push(part_owned);
            proof {
                assert(parts.deep_view() =~~= before.push(part@));
            }
            start = i + 1;
        }
        i += 1;
    }
    let last = s.substring_char(start, n);
    let last_owned = String::from_str(last);
    let ghost before: Seq<Seq<char>> = parts.deep_view();
    proof {
        let t = s@.skip(start as int);
        assert forall|j: int| 0 <= j < t.len() implies t[j] != sep by {
            assert(t[j] == s@[start + j]);
        }
        lemma_find_sep_at(t, sep, (n - start) as nat);
        assert(split_on_spec(t, sep) == seq![t]);
        assert(t =~= s@.subrange(start as int, n as int));
        assert(before.push(last_owned@) + Seq::<Seq<char>>::empty() =~~= before + split_on_spec(
            s@.skip(start as int),
            sep,
        ));
    }
    parts.push(last_owned);
    proof {
        assert(parts.deep_view() =~~= before.push(last_owned@));
        assert(parts.deep_view() =~~= split_on_spec(s@, sep));
    }
    parts
}

/// Splits a source text into executable statements: segments between `;`
/// separators, blank segments discarded, each statement terminated with
/// exactly one `;`, in source order.
pub fn split_statements(text: &str) -> (stmts: Vec<String>)
    ensures
        stmts.deep_view() == spec_statements(text@),
{
    let parts = split_on(text, ';');
    let ghost all: Seq<Seq<char>> = parts.deep_view();
    let mut stmts: Vec<String> = Vec::new();
    let mut i: usize = 0;
    proof {
        assert(all.skip(0) =~~= all);
        assert(stmts.deep_view() + statements_of(all) =~~= statements_of(all));
    }
    while i < parts.len()
        invariant
            all == parts.deep_view(),
            all.len() == parts.len(),
            0 <= i <= parts.len(),
            stmts.deep_view() + statements_of(all.skip(i as int)) == statements_of(all),
        decreases parts.len() - i,
    {
        let ghost before: Seq<Seq<char>> = stmts.deep_view();
        proof {
            assert(all.skip(i as int)[0] == all[i as int]);
            assert(all.skip(i as int).skip(1) =~~= all.skip(i as int + 1));
        }
        if !is_blank(parts[i].as_str()) {
            let mut stmt = parts[i].clone();
            stmt.append(";");
            proof {
                reveal_strlit(";");
                assert(";"@ =~= seq![';']);
                assert(stmt@ =~= all[i as int].push(';'));
            }
            stmts.push(stmt);
            proof {
                assert(stmts.deep_view() =~~= before.push(all[i as int].push(';')));
                assert(stmts.deep_view() + statements_of(all.skip(i as int + 1)) =~~= before
                    + statements_of(all.skip(i as int)));
            }
        } else {
            proof {
                assert(stmts.deep_view() + statements_of(all.skip(i as int + 1)) =~~= before
                    + statements_of(all.skip(i as int)));
            }
        }
        i += 1;
    }
    proof {
        assert(all.skip(all.len() as int) =~~= Seq::<Seq<char>>::empty());
        assert(stmts.deep_view() =~~= statements_of(all));
    }
    stmts
}

} // verus!
