//! The `FD_NAMES` binding: slot names joined with `':'`, and the proof that
//! splitting the joined string on `':'` recovers the names in order.

use vstd::prelude::*;

verus! {

/// The views of a sequence of strings.
pub open spec fn views_of(s: Seq<String>) -> Seq<Seq<char>> {
    s.map_values(|x: String| x@)
}

/// Names joined with `':'`: empty for no names, otherwise the names in
/// order with a single `':'` between neighbours.
pub open spec fn spec_join_names(names: Seq<Seq<char>>) -> Seq<char>
    decreases names.len(),
{
    if names.len() == 0 {
        Seq::empty()
    } else if names.len() == 1 {
        names[0]
    } else {
        spec_join_names(names.drop_last()) + seq![':'] + names.last()
    }
}

/// Splitting on `':'`: the empty string yields one empty field; every `':'`
/// ends the current field and opens a new one; every other character extends
/// the current field. This is the splitting a guest applies to `FD_NAMES`.
pub open spec fn spec_split_colon(s: Seq<char>) -> Seq<Seq<char>>
    decreases s.len(),
{
    if s.len() == 0 {
        seq![Seq::<char>::empty()]
    } else {
        let rest = spec_split_colon(s.drop_last());
        if s.last() == ':' {
            rest + seq![Seq::<char>::empty()]
        } else {
            rest.update(rest.len() - 1, rest.last() + seq![s.last()])
        }
    }
}

/// No character of `s` is a `':'`.
pub open spec fn has_no_colon(s: Seq<char>) -> bool {
    forall|i: int| 0 <= i < s.len() ==> s[i] != ':'
}

/// A split always has at least one field.
pub proof fn lemma_split_len_pos(s: Seq<char>)
    ensures
        spec_split_colon(s).len() >= 1,
    decreases s.len(),
{
    if s.len() > 0 {
        lemma_split_len_pos(s.drop_last());
    }
}

/// Appending a `':'` closes the current field and opens an empty one.
pub proof fn lemma_split_append_colon(s: Seq<char>)
    ensures
        spec_split_colon(s + seq![':']) == spec_split_colon(s) + seq![Seq::<char>::empty()],
{
    let w = s + seq![':'];
    assert(w.len() == s.len() + 1);
    assert(w.drop_last() =~= s);
    assert(w.last() == ':');
}

/// Appending colon-free text extends the last field and nothing else.
pub proof fn lemma_split_append_free(s: Seq<char>, t: Seq<char>)
    requires
        has_no_colon(t),
    ensures
        spec_split_colon(s + t) == spec_split_colon(s).update(
            spec_split_colon(s).len() - 1,
            spec_split_colon(s).last() + t,
        ),
    decreases t.len(),
{
    let b = spec_split_colon(s);
    let k = b.len() - 1;
    lemma_split_len_pos(s);
    if t.len() == 0 {
        assert(s + t =~= s);
        assert(b.last() + t =~= b.last());
        assert(b.update(k, b.last() + t) =~= b);
    } else {
        let t0 = t.drop_last();
        let c = t.last();
        assert(has_no_colon(t0));
        lemma_split_append_free(s, t0);
        let u = s + t0;
        let bu = spec_split_colon(u);
        lemma_split_len_pos(u);
        assert((s + t).len() > 0);
        assert((s + t).drop_last() =~= u);
        assert((s + t).last() == c);
        assert(c != ':');
        assert(spec_split_colon(s + t) == bu.update(bu.len() - 1, bu.last() + seq![c]));
        assert(bu == b.update(k, b.last() + t0));
        assert(bu.len() == b.len());
        assert(bu.last() == b.last() + t0);
        assert((b.last() + t0) + seq![c] =~= b.last() + t);
        assert(bu.update(bu.len() - 1, bu.last() + seq![c]) =~= b.update(k, b.last() + t));
    }
}

/// Splitting recovers joining: for one or more colon-free names, splitting
/// the joined string on `':'` yields exactly the names, in order.
pub proof fn lemma_split_join(names: Seq<Seq<char>>)
    requires
        names.len() >= 1,
        forall|i: int| 0 <= i < names.len() ==> has_no_colon(#[trigger] names[i]),
    ensures
        spec_split_colon(spec_join_names(names)) == names,
    decreases names.len(),
{
    if names.len() == 1 {
        let nm = names[0];
        assert(Seq::<char>::empty() + nm =~= nm);
        lemma_split_append_free(Seq::<char>::empty(), nm);
        let b = spec_split_colon(Seq::<char>::empty());
        assert(b =~= seq![Seq::<char>::empty()]);
        assert(b.last() + nm =~= nm);
        assert(b.update(0, nm) =~= seq![nm]);
        assert(spec_split_colon(nm) =~= seq![nm]);
        assert(spec_join_names(names) == nm);
        assert(names =~= seq![nm]);
    } else {
        let front = names.drop_last();
        let nm = names.last();
        assert(forall|i: int| 0 <= i < front.len() ==> has_no_colon(#[trigger] front[i]));
        lemma_split_join(front);
        let j = spec_join_names(front);
        assert(spec_join_names(names) == j + seq![':'] + nm);
        lemma_split_append_colon(j);
        let withc = spec_split_colon(j + seq![':']);
        assert(withc == front + seq![Seq::<char>::empty()]);
        assert((j + seq![':']) + nm =~= spec_join_names(names));
        lemma_split_append_free(j + seq![':'], nm);
        assert(withc.len() == front.len() + 1);
        assert(withc.last() =~= Seq::<char>::empty());
        assert(withc.last() + nm =~= nm);
        assert(withc.update(withc.len() - 1, withc.last() + nm) =~= names);
    }
}

/// Join the slot names with `':'`, as bound into `FD_NAMES`.
pub fn join_names(names: &Vec<String>) -> (r: String)
    ensures
        r@ == spec_join_names(views_of(names@)),
{
    let ghost vs = views_of(names@);
    let mut r = String::new();
    let mut i: usize = 0;
    proof {
        assert(vs.take(0) =~= Seq::<Seq<char>>::empty());
    }
    while i < names.len()
        invariant
            i <= names@.len(),
            vs == views_of(names@),
            r@ == spec_join_names(vs.take(i as int)),
        decreases names@.len() - i,
    {
        proof {
            reveal_strlit(":");
        }
        if i > 0 {
            r.append(":");
        }
        r.append(names[i].as_str());
        proof {
            let pre = vs.take(i as int);
            let post = vs.take(i + 1 as int);
            assert(post.drop_last() =~= pre);
            assert(post.last() == vs[i as int]);
            if i == 0 {
                assert(post.len() == 1);
                assert(spec_join_names(post) == vs[0]);
                assert(Seq::<char>::empty() + vs[0] =~= vs[0]);
            } else {
                assert(post.len() >= 2);
                assert(spec_join_names(post) == spec_join_names(pre) + seq![':'] + vs[i as int]);
            }
        }
        i = i + 1;
    }
    proof {
        assert(vs.take(names@.len() as int) =~= vs);
    }
    r
}

} // verus!
