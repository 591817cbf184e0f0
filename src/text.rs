//! Character-level helpers on target triples: splitting on `-` and comparing.
use vstd::prelude::*;

verus! {

/// The `-`-separated fields of `s`, in order; an empty string has one empty field.
pub open spec fn split_dash(s: Seq<char>) -> Seq<Seq<char>>
    decreases s.len(),
{
    if s.len() == 0 {
        seq![Seq::<char>::empty()]
    } else {
        let fields = split_dash(s.drop_last());
        if s.last() == '-' {
            fields.push(Seq::<char>::empty())
        } else {
            fields.update(fields.len() - 1, fields.last().push(s.last()))
        }
    }
}

/// `s` holds no `-`.
pub open spec fn dash_free(s: Seq<char>) -> bool {
    forall|i: int| 0 <= i < s.len() ==> s[i] != '-'
}

proof fn lemma_split_len(s: Seq<char>)
    ensures
        split_dash(s).len() >= 1,
    decreases s.len(),
{
    if s.len() > 0 {
        lemma_split_len(s.drop_last());
    }
}

/// Appending a field without `-` extends the last field of the split.
pub proof fn lemma_split_extend(p: Seq<char>, q: Seq<char>)
    requires
        dash_free(q),
    ensures
        split_dash(p + q) == split_dash(p).update(
            split_dash(p).len() - 1,
            split_dash(p).last() + q,
        ),
    decreases q.len(),
{
    lemma_split_len(p);
    if q.len() == 0 {
        assert(p + q =~= p);
        assert(split_dash(p).last() + q =~= split_dash(p).last());
        assert(split_dash(p).update(split_dash(p).len() - 1, split_dash(p).last() + q)
            =~= split_dash(p));
    } else {
        let q0 = q.drop_last();
        assert(dash_free(q0));
        lemma_split_extend(p, q0);
        assert((p + q).drop_last() =~= p + q0);
        assert((p + q).last() == q.last());
        assert(split_dash(p).last() + q =~= (split_dash(p).last() + q0).push(q.last()));
        assert(split_dash(p + q) =~= split_dash(p).update(
            split_dash(p).len() - 1,
            split_dash(p).last() + q,
        ));
    }
}

/// Splitting `p`, then `-`, then a field `q` without `-` adds `q` as the last field.
pub proof fn lemma_split_field(p: Seq<char>, q: Seq<char>)
    requires
        dash_free(q),
    ensures
        split_dash(p + seq!['-'] + q) == split_dash(p).push(q),
{
    let pd = p + seq!['-'];
    assert(pd.drop_last() =~= p);
    assert(pd.last() == '-');
    lemma_split_extend(pd, q);
    let e = Seq::<char>::empty();
    assert(split_dash(pd) == split_dash(p).push(e));
    assert(e + q =~= q);
    assert(split_dash(pd).update(split_dash(pd).len() - 1, e + q) =~= split_dash(p).push(q));
}

/// A field without `-` splits into itself alone.
pub proof fn lemma_split_single(q: Seq<char>)
    requires
        dash_free(q),
    ensures
        split_dash(q) == seq![q],
{
    let e = Seq::<char>::empty();
    lemma_split_extend(e, q);
    assert(e + q =~= q);
    assert(seq![e].update(0, e + q) =~= seq![q]);
}

/// Fields joined with `-` between them.
pub open spec fn join_dash(fields: Seq<Seq<char>>) -> Seq<char>
    decreases fields.len(),
{
    if fields.len() <= 1 {
        if fields.len() == 0 {
            Seq::<char>::empty()
        } else {
            fields[0]
        }
    } else {
        join_dash(fields.drop_last()) + seq!['-'] + fields.last()
    }
}

/// Splitting fields joined with `-` gives the fields back, when none holds a `-`.
pub proof fn lemma_split_join(fields: Seq<Seq<char>>)
    requires
        fields.len() >= 1,
        forall|i: int| 0 <= i < fields.len() ==> dash_free(#[trigger] fields[i]),
    ensures
        split_dash(join_dash(fields)) == fields,
    decreases fields.len(),
{
    if fields.len() == 1 {
        lemma_split_single(fields[0]);
        assert(seq![fields[0]] =~= fields);
    } else {
        let init = fields.drop_last();
        assert(forall|i: int| 0 <= i < init.len() ==> init[i] == fields[i]);
        lemma_split_join(init);
        assert(dash_free(fields.last()));
        lemma_split_field(join_dash(init), fields.last());
        assert(init.push(fields.last()) =~= fields);
    }
}

/// Joining the fields of a split with `-` gives the string back.
pub proof fn lemma_join_split(s: Seq<char>)
    ensures
        join_dash(split_dash(s)) == s,
    decreases s.len(),
{
    if s.len() == 0 {
        assert(split_dash(s) =~= seq![Seq::<char>::empty()]);
        assert(s =~= Seq::<char>::empty());
    } else {
        let p = s.drop_last();
        let c = s.last();
        let fs = split_dash(p);
        lemma_join_split(p);
        lemma_split_len(p);
        assert(p.push(c) =~= s);
        if c == '-' {
            let e = Seq::<char>::empty();
            let n = fs.push(e);
            assert(n.drop_last() =~= fs);
            assert(join_dash(n) == join_dash(fs) + seq!['-'] + e);
            assert(p + seq!['-'] + e =~= s);
        } else {
            let u = fs.update(fs.len() - 1, fs.last().push(c));
            if fs.len() == 1 {
                assert(join_dash(u) == u[0]);
                assert(fs[0] == p);
            } else {
                assert(u.drop_last() =~= fs.drop_last());
                assert(join_dash(u) == join_dash(fs.drop_last()) + seq!['-'] + fs.last().push(c));
                assert(join_dash(fs) == join_dash(fs.drop_last()) + seq!['-'] + fs.last());
                assert(join_dash(fs.drop_last()) + seq!['-'] + fs.last().push(c) =~= (join_dash(
                    fs.drop_last(),
                ) + seq!['-'] + fs.last()).push(c));
            }
        }
    }
}

/// Compares two strings character by character.
pub fn str_eq(a: &str, b: &str) -> (r: bool)
    ensures
        r == (a@ == b@),
{
    let n = a.unicode_len();
    if n != b.unicode_len() {
        return false;
    }
    let mut i: usize = 0;
    while i < n
        invariant
            n == a@.len(),
            n == b@.len(),
            i <= n,
            forall|j: int| 0 <= j < i ==> a@[j] == b@[j],
        decreases n - i,
    {
        if a.get_char(i) != b.get_char(i) {
            return false;
        }
        i = i + 1;
    }
    assert(a@ =~= b@);
    true
}

/// Splits `s` at every `-`, keeping empty fields.
pub fn split_fields(s: &str) -> (r: Vec<String>)
    ensures
        r.deep_view() == split_dash(s@),
{
    let n = s.unicode_len();
    let mut fields: Vec<String> = Vec::new();
    let mut start: usize = 0;
    let mut i: usize = 0;
    assert(s@.subrange(0, 0) =~= Seq::<char>::empty());
    assert(fields.deep_view().push(s@.subrange(0, 0)) =~= seq![Seq::<char>::empty()]);
    while i < n
        invariant
            n == s@.len(),
            start <= i <= n,
            split_dash(s@.subrange(0, i as int)) == fields.deep_view().push(
                s@.subrange(start as int, i as int),
            ),
        decreases n - i,
    {
        let c = s.get_char(i);
        let ghost before = fields.deep_view();
        assert(s@.subrange(0, i + 1).drop_last() =~= s@.subrange(0, i as int));
        assert(s@.subrange(0, i + 1).last() == c);
        if c == '-' {
            let field = String::from_str(s.substring_char(start, i));
            let ghost field_start = start;
            fields.push(field);
            start = i + 1;
            assert(fields.deep_view() =~= before.push(s@.subrange(field_start as int, i as int)));
            assert(s@.subrange(start as int, i + 1) =~= Seq::<char>::empty());
            assert(fields.deep_view().push(s@.subrange(start as int, i + 1)) =~= split_dash(
                s@.subrange(0, i + 1),
            ));
        } else {
            assert(s@.subrange(start as int, i + 1) =~= s@.subrange(start as int, i as int).push(c));
            assert(fields.deep_view().push(s@.subrange(start as int, i + 1)) =~= split_dash(
                s@.subrange(0, i + 1),
            ));
        }
        i = i + 1;
    }
    let last = String::from_str(s.substring_char(start, n));
    let ghost before = fields.deep_view();
    fields.push(last);
    assert(s@.subrange(0, n as int) =~= s@);
    assert(fields.deep_view() =~= before.push(s@.subrange(start as int, n as int)));
    fields
}

} // verus!
