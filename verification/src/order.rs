//! The order of a directory listing: directories before files, each group by
//! lower-cased name, and entries that compare equal in the order in which the
//! directory was read.

use crate::files::SiuFileInfoView;
use crate::text::{
    lemma_text_le_antisym, lemma_text_le_refl, lemma_text_le_total, lemma_text_le_trans, lowercase,
    text_le,
};
use vstd::prelude::*;

verus! {

/// Whether entry `a` may stand before entry `b` in a listing: a directory
/// before a file, and within a kind the lower-cased names in text order.
pub open spec fn entry_le(a: SiuFileInfoView, b: SiuFileInfoView) -> bool {
    if a.is_file == b.is_file {
        text_le(lowercase(a.name), lowercase(b.name))
    } else {
        !a.is_file
    }
}

/// The order of a listing: every directory stands before every file, and
/// within the directories and within the files the lower-cased names do not
/// decrease.
pub open spec fn listing_ordered(s: Seq<SiuFileInfoView>) -> bool {
    &&& forall|i: int, j: int|
        0 <= i < j < s.len() && !(#[trigger] s[j]).is_file ==> !(#[trigger] s[i]).is_file
    &&& forall|i: int, j: int|
        0 <= i < j < s.len() && (#[trigger] s[i]).is_file == (#[trigger] s[j]).is_file ==> text_le(
            lowercase(s[i].name),
            lowercase(s[j].name),
        )
}

/// Each entry may stand before every later one.
pub open spec fn pairwise_le(s: Seq<SiuFileInfoView>) -> bool {
    forall|i: int, j: int| 0 <= i < j < s.len() ==> entry_le(#[trigger] s[i], #[trigger] s[j])
}

/// The entries of one kind with one lower-cased name: those that the order
/// of a listing does not tell apart.
pub open spec fn in_class(is_file: bool, key: Seq<char>) -> spec_fn(SiuFileInfoView) -> bool {
    |e: SiuFileInfoView| e.is_file == is_file && lowercase(e.name) == key
}

/// `listing_ordered` says the same as `pairwise_le`.
pub proof fn lemma_ordered_iff_pairwise(s: Seq<SiuFileInfoView>)
    ensures
        listing_ordered(s) == pairwise_le(s),
{
    if pairwise_le(s) {
        assert forall|i: int, j: int|
            0 <= i < j < s.len() && !(#[trigger] s[j]).is_file implies !(#[trigger] s[i]).is_file by {
            assert(entry_le(s[i], s[j]));
        }
        assert forall|i: int, j: int|
            0 <= i < j < s.len() && (#[trigger] s[i]).is_file == (#[trigger] s[j]).is_file implies text_le(
            lowercase(s[i].name),
            lowercase(s[j].name),
        ) by {
            assert(entry_le(s[i], s[j]));
        }
    }
    if listing_ordered(s) {
        assert forall|i: int, j: int| 0 <= i < j < s.len() implies entry_le(
            #[trigger] s[i],
            #[trigger] s[j],
        ) by {
            if s[i].is_file != s[j].is_file && s[i].is_file {
                assert(!s[j].is_file ==> !s[i].is_file);
            }
        }
    }
}

/// Of two entries one may stand before the other.
pub proof fn lemma_entry_le_total(a: SiuFileInfoView, b: SiuFileInfoView)
    ensures
        entry_le(a, b) || entry_le(b, a),
{
    lemma_text_le_total(lowercase(a.name), lowercase(b.name));
}

/// `entry_le` is transitive.
pub proof fn lemma_entry_le_trans(a: SiuFileInfoView, b: SiuFileInfoView, c: SiuFileInfoView)
    requires
        entry_le(a, b),
        entry_le(b, c),
    ensures
        entry_le(a, c),
{
    if a.is_file == b.is_file && b.is_file == c.is_file {
        lemma_text_le_trans(lowercase(a.name), lowercase(b.name), lowercase(c.name));
    }
}

/// An entry that may not stand before `e` is not in the class of `e`.
proof fn lemma_above_not_in_class(x: SiuFileInfoView, e: SiuFileInfoView)
    requires
        !entry_le(x, e),
    ensures
        !in_class(e.is_file, lowercase(e.name))(x),
{
    lemma_text_le_refl(lowercase(e.name));
}

/// What one class holds after `e` went in at `p`, where everything from `p`
/// on is strictly above `e`: the class of `e` has `e` at its end, every
/// other class is as it was.
proof fn lemma_insert_class(
    s: Seq<SiuFileInfoView>,
    p: int,
    e: SiuFileInfoView,
    is_file: bool,
    key: Seq<char>,
)
    requires
        0 <= p <= s.len(),
        forall|j: int| p <= j < s.len() ==> !entry_le(#[trigger] s[j], e),
    ensures
        s.insert(p, e).filter(in_class(is_file, key)) == if in_class(is_file, key)(e) {
            s.filter(in_class(is_file, key)).push(e)
        } else {
            s.filter(in_class(is_file, key))
        },
{
    let c = in_class(is_file, key);
    let head = s.subrange(0, p);
    let tail = s.subrange(p, s.len() as int);
    assert(s =~= head + tail);
    Seq::filter_distributes_over_add(head, tail, c);
    Seq::filter_distributes_over_add(head.push(e), tail, c);
    Seq::lemma_filter_push(head, e, c);
    if c(e) {
        assert(tail.all(|x: SiuFileInfoView| !c(x))) by {
            assert forall|j: int| 0 <= j < tail.len() implies !c(#[trigger] tail[j]) by {
                assert(tail[j] == s[p + j]);
                lemma_above_not_in_class(s[p + j], e);
            }
        }
        tail.lemma_all_neg_filter_empty(c);
        assert(tail.filter(c) =~= Seq::<SiuFileInfoView>::empty());
        assert(s.insert(p, e).filter(c) =~= s.filter(c).push(e));
    } else {
        assert(s.insert(p, e).filter(c) =~= s.filter(c));
    }
}

/// Putting `e` where everything before it may stand before `e` and
/// everything after it is strictly above `e` keeps a listing in order, and
/// puts `e` at the end of its class.
pub proof fn lemma_insert_keeps_order(s: Seq<SiuFileInfoView>, p: int, e: SiuFileInfoView)
    requires
        pairwise_le(s),
        0 <= p <= s.len(),
        p > 0 ==> entry_le(s[p - 1], e),
        forall|j: int| p <= j < s.len() ==> !entry_le(#[trigger] s[j], e),
    ensures
        pairwise_le(s.insert(p, e)),
        s.insert(p, e).len() == s.len() + 1,
        forall|is_file: bool, key: Seq<char>|
            s.insert(p, e).filter(#[trigger] in_class(is_file, key)) == if in_class(is_file, key)(
                e,
            ) {
                s.filter(in_class(is_file, key)).push(e)
            } else {
                s.filter(in_class(is_file, key))
            },
{
    let t = s.insert(p, e);
    s.insert_ensures(p, e);
    assert forall|i: int, j: int| 0 <= i < j < t.len() implies entry_le(
        #[trigger] t[i],
        #[trigger] t[j],
    ) by {
        if j < p {
            assert(t[i] == s[i] && t[j] == s[j]);
        } else if j == p {
            assert(t[i] == s[i]);
            if i < p - 1 {
                assert(entry_le(s[i], s[p - 1]));
                lemma_entry_le_trans(s[i], s[p - 1], e);
            }
        } else if i < p {
            assert(t[i] == s[i] && t[j] == s[j - 1]);
            if i < j - 1 {
                assert(entry_le(s[i], s[j - 1]));
            }
        } else if i == p {
            assert(t[j] == s[j - 1]);
            lemma_entry_le_total(s[j - 1], e);
        } else {
            assert(t[i] == s[i - 1] && t[j] == s[j - 1]);
        }
    }
    assert forall|is_file: bool, key: Seq<char>|
        t.filter(#[trigger] in_class(is_file, key)) == if in_class(is_file, key)(e) {
            s.filter(in_class(is_file, key)).push(e)
        } else {
            s.filter(in_class(is_file, key))
        } by {
        lemma_insert_class(s, p, e, is_file, key);
    }
}

/// Two entries of which each may stand before the other are of one class.
pub proof fn lemma_entry_le_both_ways(x: SiuFileInfoView, y: SiuFileInfoView)
    requires
        entry_le(x, y),
        entry_le(y, x),
    ensures
        in_class(x.is_file, lowercase(x.name))(y),
{
    lemma_text_le_antisym(lowercase(x.name), lowercase(y.name));
}

/// What a class holds of a sequence: what it holds of all but the last
/// entry, and the last entry where that is of the class.
proof fn lemma_class_of_last(s: Seq<SiuFileInfoView>, is_file: bool, key: Seq<char>)
    requires
        s.len() > 0,
    ensures
        s.filter(in_class(is_file, key)) == if in_class(is_file, key)(s.last()) {
            s.drop_last().filter(in_class(is_file, key)).push(s.last())
        } else {
            s.drop_last().filter(in_class(is_file, key))
        },
{
    assert(s =~= s.drop_last().push(s.last()));
    Seq::lemma_filter_push(s.drop_last(), s.last(), in_class(is_file, key));
}

/// The last entry of a class of `s` is an entry of `s`, and it is the last
/// entry of `s` or stands before it.
proof fn lemma_last_of_class_found(s: Seq<SiuFileInfoView>, is_file: bool, key: Seq<char>) -> (i:
    int)
    requires
        s.filter(in_class(is_file, key)).len() > 0,
    ensures
        0 <= i < s.len(),
        s[i] == s.filter(in_class(is_file, key)).last(),
    decreases s.len(),
{
    let c = in_class(is_file, key);
    if s.len() == 0 {
        reveal(Seq::filter);
        0
    } else {
        lemma_class_of_last(s, is_file, key);
        if c(s.last()) {
            s.len() - 1
        } else {
            lemma_last_of_class_found(s.drop_last(), is_file, key)
        }
    }
}

/// A listing is determined by the entries it holds: two sequences in
/// listing order, of one length, that hold in every class the same entries
/// in the same order, are one and the same sequence.
pub proof fn lemma_order_determines(a: Seq<SiuFileInfoView>, b: Seq<SiuFileInfoView>)
    requires
        pairwise_le(a),
        pairwise_le(b),
        a.len() == b.len(),
        forall|is_file: bool, key: Seq<char>|
            a.filter(#[trigger] in_class(is_file, key)) == b.filter(in_class(is_file, key)),
    ensures
        a == b,
    decreases a.len(),
{
    if a.len() == 0 {
        assert(a =~= b);
    } else {
        let x = a.last();
        let y = b.last();
        let n = a.len() - 1;
        lemma_text_le_refl(lowercase(x.name));
        lemma_text_le_refl(lowercase(y.name));
        lemma_class_of_last(a, x.is_file, lowercase(x.name));
        lemma_class_of_last(b, x.is_file, lowercase(x.name));
        lemma_class_of_last(a, y.is_file, lowercase(y.name));
        lemma_class_of_last(b, y.is_file, lowercase(y.name));
        let cx = in_class(x.is_file, lowercase(x.name));
        let cy = in_class(y.is_file, lowercase(y.name));
        assert(a.filter(cx) == b.filter(cx));
        assert(a.filter(cy) == b.filter(cy));
        assert(cx(x));
        assert(cy(y));
        if !cx(y) {
            // The last entries are of two classes: each then stands before
            // the other one somewhere, so they are of one class after all.
            let i = lemma_last_of_class_found(a, y.is_file, lowercase(y.name));
            assert(a[i] == y);
            assert(i != n);
            assert(entry_le(a[i], a[n]));
            let j = lemma_last_of_class_found(b, x.is_file, lowercase(x.name));
            assert(b[j] == x);
            assert(j != n);
            assert(entry_le(b[j], b[n]));
            lemma_entry_le_both_ways(x, y);
        }
        assert(x == y) by {
            assert(a.filter(cx).last() == x);
            assert(b.filter(cx).last() == y);
        }
        let a0 = a.drop_last();
        let b0 = b.drop_last();
        assert forall|is_file: bool, key: Seq<char>|
            a0.filter(#[trigger] in_class(is_file, key)) == b0.filter(in_class(is_file, key)) by {
            let c = in_class(is_file, key);
            lemma_class_of_last(a, is_file, key);
            lemma_class_of_last(b, is_file, key);
            assert(a.filter(c) == b.filter(c));
            if c(x) {
                assert(a0.filter(c).push(x).drop_last() =~= a0.filter(c));
                assert(b0.filter(c).push(x).drop_last() =~= b0.filter(c));
            }
        }
        assert forall|i: int, j: int| 0 <= i < j < a0.len() implies entry_le(
            #[trigger] a0[i],
            #[trigger] a0[j],
        ) by {
            assert(a0[i] == a[i] && a0[j] == a[j]);
        }
        assert forall|i: int, j: int| 0 <= i < j < b0.len() implies entry_le(
            #[trigger] b0[i],
            #[trigger] b0[j],
        ) by {
            assert(b0[i] == b[i] && b0[j] == b[j]);
        }
        lemma_order_determines(a0, b0);
        assert(a =~= a0.push(x));
        assert(b =~= b0.push(y));
    }
}

} // verus!
