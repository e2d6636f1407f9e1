//! A fixture file is a run of header records separated by blank lines,
//! that is by two consecutive newlines.
use vstd::prelude::*;

verus! {

pub open spec fn is_separator_at(s: Seq<u8>, i: int) -> bool {
    0 <= i && i + 1 < s.len() && s[i] == 10u8 && s[i + 1] == 10u8
}

/// The records of `s[start..]`, scanning from `i`: each separator, taken
/// leftmost first and without overlap, ends one record.
pub open spec fn split_from(s: Seq<u8>, start: int, i: int) -> Seq<Seq<u8>>
    decreases s.len() - i,
{
    if i + 1 >= s.len() || i < start || start < 0 {
        seq![s.subrange(start, s.len() as int)]
    } else if is_separator_at(s, i) {
        seq![s.subrange(start, i)] + split_from(s, i + 2, i + 2)
    } else {
        split_from(s, start, i + 1)
    }
}

/// The records of a fixture; there is always at least one.
pub open spec fn records(s: Seq<u8>) -> Seq<Seq<u8>> {
    split_from(s, 0, 0)
}

/// Records put back together, a blank line between each two.
pub open spec fn join(rs: Seq<Seq<u8>>) -> Seq<u8>
    decreases rs.len(),
{
    if rs.len() == 0 {
        Seq::empty()
    } else if rs.len() == 1 {
        rs[0]
    } else {
        rs[0] + seq![10u8, 10u8] + join(rs.drop_first())
    }
}

proof fn lemma_split_from_join(s: Seq<u8>, start: int, i: int)
    requires
        0 <= start <= i <= s.len(),
    ensures
        split_from(s, start, i).len() >= 1,
        join(split_from(s, start, i)) == s.subrange(start, s.len() as int),
    decreases s.len() - i,
{
    if i + 1 >= s.len() {
    } else if is_separator_at(s, i) {
        let rest = split_from(s, i + 2, i + 2);
        lemma_split_from_join(s, i + 2, i + 2);
        let all = seq![s.subrange(start, i)] + rest;
        assert(all.drop_first() =~= rest);
        assert(all[0] == s.subrange(start, i));
        assert(s.subrange(start, s.len() as int) =~= s.subrange(start, i) + seq![10u8, 10u8]
            + s.subrange(i + 2, s.len() as int));
    } else {
        lemma_split_from_join(s, start, i + 1);
    }
}

/// Splitting loses, repeats and reorders nothing: the records, joined back
/// with a blank line between each two, are the fixture itself.
pub proof fn lemma_records_join(s: Seq<u8>)
    ensures
        records(s).len() >= 1,
        join(records(s)) == s,
{
    lemma_split_from_join(s, 0, 0);
    assert(s.subrange(0, s.len() as int) =~= s);
}

pub open spec fn views(v: Seq<Vec<u8>>) -> Seq<Seq<u8>> {
    v.map_values(|r: Vec<u8>| r@)
}

fn copy_range(s: &Vec<u8>, from: usize, to: usize) -> (r: Vec<u8>)
    requires
        from <= to <= s@.len(),
    ensures
        r@ == s@.subrange(from as int, to as int),
{
    let mut r: Vec<u8> = Vec::new();
    let mut k: usize = from;
    while k < to
        invariant
            from <= k <= to,
            to <= s@.len(),
            r@ == s@.subrange(from as int, k as int),
        decreases to - k,
    {
        r.push(s[k]);
        k = k + 1;
        assert(r@ =~= s@.subrange(from as int, k as int));
    }
    r
}

/// Splits fixture contents into its records.
pub fn split_records(s: &Vec<u8>) -> (r: Vec<Vec<u8>>)
    ensures
        views(r@) == records(s@),
        r@.len() >= 1,
{
    let mut out: Vec<Vec<u8>> = Vec::new();
    let mut start: usize = 0;
    let mut i: usize = 0;
    while i < s.len() && i + 1 < s.len()
        invariant
            start <= i <= s@.len(),
            views(out@) + split_from(s@, start as int, i as int) == records(s@),
        decreases s@.len() - i,
    {
        if s[i] == 10u8 && s[i + 1] == 10u8 {
            let rec = copy_range(s, start, i);
            proof {
                assert(split_from(s@, start as int, i as int) == seq![rec@] + split_from(
                    s@,
                    i + 2,
                    i + 2,
                ));
                assert(views(out@.push(rec)) =~= views(out@).push(rec@));
                assert(views(out@).push(rec@) + split_from(s@, i + 2, i + 2) =~= views(out@) + (
                seq![rec@] + split_from(s@, i + 2, i + 2)));
            }
            out.push(rec);
            i = i + 2;
            start = i;
        } else {
            i = i + 1;
        }
    }
    let last = copy_range(s, start, s.len());
    proof {
        assert(split_from(s@, start as int, i as int) == seq![last@]);
        assert(views(out@.push(last)) =~= views(out@).push(last@));
        assert(views(out@).push(last@) =~= views(out@) + seq![last@]);
    }
    out.push(last);
    out
}

} // verus!
