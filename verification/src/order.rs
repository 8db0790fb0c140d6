//! The order in which the daemon walks its sets of resource names and tracks: std's string
//! order, which compares character by character by code point.
use vstd::prelude::*;
use vstd::string::*;

use crate::text::{str_equal, string_views};

verus! {

/// `a` sorts before `b`: at the first position where they differ `a` has the smaller code
/// point, or `a` is a proper prefix of `b`.
pub open spec fn text_lt(a: Seq<char>, b: Seq<char>) -> bool
    decreases a.len(),
{
    if a.len() == 0 {
        b.len() > 0
    } else if b.len() == 0 {
        false
    } else if a[0] != b[0] {
        (a[0] as int) < (b[0] as int)
    } else {
        text_lt(a.drop_first(), b.drop_first())
    }
}

/// No text sorts before itself.
pub proof fn lemma_text_lt_irreflexive(a: Seq<char>)
    ensures
        !text_lt(a, a),
    decreases a.len(),
{
    if a.len() > 0 {
        lemma_text_lt_irreflexive(a.drop_first());
    }
}

/// Two texts never sort before each other.
pub proof fn lemma_text_lt_asymmetric(a: Seq<char>, b: Seq<char>)
    ensures
        text_lt(a, b) ==> !text_lt(b, a),
    decreases a.len(),
{
    if a.len() > 0 && b.len() > 0 && a[0] == b[0] {
        lemma_text_lt_asymmetric(a.drop_first(), b.drop_first());
    }
}

/// The order is transitive.
pub proof fn lemma_text_lt_transitive(a: Seq<char>, b: Seq<char>, c: Seq<char>)
    ensures
        text_lt(a, b) && text_lt(b, c) ==> text_lt(a, c),
    decreases a.len(),
{
    if a.len() > 0 && b.len() > 0 && c.len() > 0 {
        lemma_text_lt_transitive(a.drop_first(), b.drop_first(), c.drop_first());
    }
}

/// Of two different texts, one sorts before the other.
pub proof fn lemma_text_lt_total(a: Seq<char>, b: Seq<char>)
    ensures
        a != b ==> text_lt(a, b) || text_lt(b, a),
    decreases a.len(),
{
    if a.len() == 0 && b.len() == 0 {
        assert(a =~= b);
    } else if a.len() > 0 && b.len() > 0 {
        if a[0] == b[0] {
            lemma_text_lt_total(a.drop_first(), b.drop_first());
            if a.drop_first() == b.drop_first() {
                assert(a =~= seq![a[0]] + a.drop_first());
                assert(b =~= seq![b[0]] + b.drop_first());
            }
        } else {
            assert((a[0] as int) != (b[0] as int));
        }
    }
}

/// Whether `a` sorts before `b` in std's string order.
pub fn str_lt(a: &str, b: &str) -> (lt: bool)
    ensures
        lt == text_lt(a@, b@),
{
    let na = a.unicode_len();
    let nb = b.unicode_len();
    let mut i: usize = 0;
    proof {
        assert(a@.skip(0) =~= a@);
        assert(b@.skip(0) =~= b@);
    }
    while i < na && i < nb
        invariant
            na == a@.len(),
            nb == b@.len(),
            i <= na,
            i <= nb,
            text_lt(a@, b@) == text_lt(a@.skip(i as int), b@.skip(i as int)),
        decreases na - i,
    {
        let ca = a.get_char(i);
        let cb = b.get_char(i);
        proof {
            assert(a@.skip(i as int)[0] == ca);
            assert(b@.skip(i as int)[0] == cb);
        }
        if ca != cb {
            return ca < cb;
        }
        proof {
            assert(a@.skip(i as int).drop_first() =~= a@.skip(i + 1));
            assert(b@.skip(i as int).drop_first() =~= b@.skip(i + 1));
        }
        i = i + 1;
    }
    proof {
        assert(a@.skip(i as int).len() == na - i);
        assert(b@.skip(i as int).len() == nb - i);
    }
    i < nb
}

/// A list of texts in strictly ascending order: sorted, with nothing twice.
pub open spec fn texts_ascending(s: Seq<Seq<char>>) -> bool {
    forall|i: int, j: int| 0 <= i < j < s.len() ==> text_lt(#[trigger] s[i], #[trigger] s[j])
}

/// Inserts `text` into the ascending `set` unless it is there already; the list stays
/// ascending and holds exactly what it held and `text`.
pub fn insert_text(set: &mut Vec<String>, text: String)
    requires
        texts_ascending(string_views(old(set)@)),
    ensures
        texts_ascending(string_views(final(set)@)),
        forall|t: Seq<char>|
            string_views(final(set)@).contains(t) <==> (string_views(old(set)@).contains(t) || t
                == text@),
{
    let ghost before = string_views(set@);
    let mut i: usize = 0;
    while i < set.len()
        invariant
            i <= set.len(),
            before == string_views(set@),
            texts_ascending(before),
            forall|j: int| 0 <= j < i ==> text_lt(#[trigger] before[j], text@),
        ensures
            i <= set.len(),
            before == string_views(set@),
            forall|j: int| 0 <= j < i ==> text_lt(#[trigger] before[j], text@),
            i < set.len() ==> !text_lt(before[i as int], text@),
        decreases set.len() - i,
    {
        if !str_lt(set[i].as_str(), text.as_str()) {
            proof {
                assert(before[i as int] == set@[i as int]@);
            }
            break;
        }
        i = i + 1;
    }
    if i < set.len() && str_equal(set[i].as_str(), text.as_str()) {
        proof {
            assert(before[i as int] == text@);
            assert(before.contains(text@));
        }
        return;
    }
    proof {
        if i < set.len() {
            lemma_text_lt_total(before[i as int], text@);
            assert forall|k: int| i <= k < before.len() implies text_lt(text@, #[trigger] before[k]) by {
                if k > i {
                    lemma_text_lt_transitive(text@, before[i as int], before[k]);
                }
            }
        }
    }
    set.insert(i, text);
    proof {
        let after = string_views(set@);
        assert(after =~= before.insert(i as int, text@));
        assert forall|a: int, b: int| 0 <= a < b < after.len() implies text_lt(
            #[trigger] after[a],
            #[trigger] after[b],
        ) by {
            if b < i {
            } else if b == i {
            } else if a < i {
                lemma_text_lt_transitive(before[a], text@, before[b - 1]);
            } else if a == i {
            } else {
            }
        }
        assert forall|t: Seq<char>| after.contains(t) <==> (before.contains(t) || t == text@) by {
            if after.contains(t) {
                let k = choose|k: int| 0 <= k < after.len() && after[k] == t;
                if k < i {
                    assert(before[k] == t);
                } else if k > i {
                    assert(before[k - 1] == t);
                }
            }
            if before.contains(t) {
                let k = choose|k: int| 0 <= k < before.len() && before[k] == t;
                if k < i {
                    assert(after[k] == t);
                } else {
                    assert(after[k + 1] == t);
                }
            }
            if t == text@ {
                assert(after[i as int] == t);
            }
        }
    }
}

} // verus!
