//! How the failures of default installs and of a Project's resource tracks are reported.
use vstd::prelude::*;
use vstd::string::*;

use crate::error::{error_message, DaemonError, ManagedResourceProjectFailure};
use crate::text::{concat2, string_views};

verus! {

/// A default install that failed, with the position its install had in the plan.
pub struct DesiredResourceInstallFailure {
    pub order: usize,
    pub label: String,
    pub error: DaemonError,
}

impl DesiredResourceInstallFailure {
    /// Records that the install at position `order`, labelled `label`, failed with `error`.
    pub fn new(order: usize, label: String, error: DaemonError) -> (failure: Self)
        ensures
            failure.order == order,
            failure.label == label,
            failure.error == error,
    {
        DesiredResourceInstallFailure { order, label, error }
    }

    /// The text of this failure: its label, a colon, and the error's text.
    pub fn message(&self) -> (m: String)
        ensures
            m@ == install_failure_text(*self),
    {
        let mut s = concat2(self.label.as_str(), ": ");
        let text = self.error.message();
        s.append(text.as_str());
        s
    }
}

/// The text of one failed default install.
pub open spec fn install_failure_text(failure: DesiredResourceInstallFailure) -> Seq<char> {
    failure.label@ + ": "@ + error_message(failure.error)
}

/// The predicate "the install had position `order`".
pub open spec fn has_order(order: usize) -> spec_fn(DesiredResourceInstallFailure) -> bool {
    |f: DesiredResourceInstallFailure| f.order == order
}

/// The failures of `failures` whose install had position `order`, in their order in `failures`.
pub open spec fn order_filter(failures: Seq<DesiredResourceInstallFailure>, order: usize) -> Seq<
    DesiredResourceInstallFailure,
> {
    failures.filter(has_order(order))
}

/// The failures are listed by ascending install position.
pub open spec fn sorted_by_order(failures: Seq<DesiredResourceInstallFailure>) -> bool {
    forall|i: int, j: int|
        0 <= i < j < failures.len() ==> failures[i].order <= failures[j].order
}

/// `sorted` lists the failures of `original` by ascending install position, and failures that
/// share a position keep their order.
pub open spec fn stable_sort_by_order(
    sorted: Seq<DesiredResourceInstallFailure>,
    original: Seq<DesiredResourceInstallFailure>,
) -> bool {
    &&& sorted_by_order(sorted)
    &&& forall|order: usize| #[trigger]
        order_filter(sorted, order) == order_filter(original, order)
}

/// The texts of the failures in `sorted` order.
pub open spec fn install_failure_texts(sorted: Seq<DesiredResourceInstallFailure>) -> Seq<Seq<char>> {
    sorted.map_values(|f: DesiredResourceInstallFailure| install_failure_text(f))
}

proof fn lemma_filter_none(s: Seq<DesiredResourceInstallFailure>, order: usize)
    requires
        forall|i: int| 0 <= i < s.len() ==> s[i].order != order,
    ensures
        order_filter(s, order) == Seq::<DesiredResourceInstallFailure>::empty(),
    decreases s.len(),
{
    reveal(Seq::filter);
    if s.len() > 0 {
        lemma_filter_none(s.drop_last(), order);
    }
}

proof fn lemma_filter_single(x: DesiredResourceInstallFailure, order: usize)
    ensures
        order_filter(seq![x], order) == if x.order == order {
            seq![x]
        } else {
            Seq::<DesiredResourceInstallFailure>::empty()
        },
{
    reveal(Seq::filter);
    assert(seq![x].drop_last() =~= Seq::<DesiredResourceInstallFailure>::empty());
    assert(Seq::<DesiredResourceInstallFailure>::empty().filter(has_order(order)) =~= Seq::<
        DesiredResourceInstallFailure,
    >::empty());
    if x.order == order {
        assert(Seq::<DesiredResourceInstallFailure>::empty().push(x) =~= seq![x]);
    }
}

proof fn lemma_push_filter(
    s: Seq<DesiredResourceInstallFailure>,
    x: DesiredResourceInstallFailure,
    order: usize,
)
    ensures
        order_filter(s.push(x), order) == if x.order == order {
            order_filter(s, order).push(x)
        } else {
            order_filter(s, order)
        },
{
    assert(s.push(x) =~= s + seq![x]);
    Seq::filter_distributes_over_add(s, seq![x], has_order(order));
    lemma_filter_single(x, order);
    if x.order == order {
        assert(order_filter(s, order) + seq![x] =~= order_filter(s, order).push(x));
    } else {
        assert(order_filter(s, order) + Seq::<DesiredResourceInstallFailure>::empty()
            =~= order_filter(s, order));
    }
}

proof fn lemma_insert_filter(
    s: Seq<DesiredResourceInstallFailure>,
    p: int,
    x: DesiredResourceInstallFailure,
    order: usize,
)
    requires
        0 <= p <= s.len(),
        forall|i: int| p <= i < s.len() ==> s[i].order > x.order,
    ensures
        order_filter(s.insert(p, x), order) == if x.order == order {
            order_filter(s, order).push(x)
        } else {
            order_filter(s, order)
        },
{
    let front = s.subrange(0, p);
    let back = s.subrange(p, s.len() as int);
    assert(s =~= front + back);
    assert(s.insert(p, x) =~= (front + seq![x]) + back);
    Seq::filter_distributes_over_add(front + seq![x], back, has_order(order));
    Seq::filter_distributes_over_add(front, back, has_order(order));
    lemma_push_filter(front, x, order);
    assert(front.push(x) =~= front + seq![x]);
    if x.order == order {
        lemma_filter_none(back, order);
        assert(order_filter(front, order).push(x) + Seq::<DesiredResourceInstallFailure>::empty()
            =~= order_filter(front, order).push(x));
        assert(order_filter(front, order) + Seq::<DesiredResourceInstallFailure>::empty()
            =~= order_filter(front, order));
    }
}

/// Sorts failures by install position, keeping the order of failures that share one.
pub fn sort_install_failures_by_order(failures: Vec<DesiredResourceInstallFailure>) -> (sorted: Vec<
    DesiredResourceInstallFailure,
>)
    ensures
        stable_sort_by_order(sorted@, failures@),
        sorted@.len() == failures@.len(),
{
    let ghost original = failures@;
    let mut remaining = failures;
    let mut sorted: Vec<DesiredResourceInstallFailure> = Vec::new();
    let mut taken: usize = 0;
    let total = remaining.len();
    proof {
        assert(original.len() == total);
        assert forall|order: usize| #[trigger]
            order_filter(sorted@, order) == order_filter(original.take(0), order) by {
            reveal(Seq::filter);
            assert(original.take(0) =~= Seq::<DesiredResourceInstallFailure>::empty());
            assert(sorted@ =~= Seq::<DesiredResourceInstallFailure>::empty());
        }
    }
    while remaining.len() > 0
        invariant
            taken <= original.len(),
            original.len() <= usize::MAX,
            remaining@ == original.subrange(taken as int, original.len() as int),
            sorted@.len() == taken,
            sorted_by_order(sorted@),
            forall|order: usize| #[trigger]
                order_filter(sorted@, order) == order_filter(original.take(taken as int), order),
        decreases remaining.len(),
    {
        let x = remaining.remove(0);
        let ghost before = sorted@;
        proof {
            assert(x == original[taken as int]);
            assert(original.take(taken + 1) =~= original.take(taken as int).push(x));
        }
        let mut p: usize = 0;
        while p < sorted.len() && sorted[p].order <= x.order
            invariant
                p <= sorted@.len(),
                sorted@ == before,
                forall|i: int| 0 <= i < p ==> sorted@[i].order <= x.order,
            decreases sorted.len() - p,
        {
            p = p + 1;
        }
        proof {
            assert forall|i: int| p <= i < before.len() implies before[i].order > x.order by {
                assert(before[p as int].order > x.order);
            }
        }
        sorted.insert(p, x);
        proof {
            assert(sorted@ == before.insert(p as int, x));
            assert forall|order: usize| #[trigger]
                order_filter(sorted@, order) == order_filter(
                    original.take(taken + 1),
                    order,
                ) by {
                lemma_insert_filter(before, p as int, x, order);
                lemma_push_filter(original.take(taken as int), x, order);
            }
            assert forall|i: int, j: int|
                0 <= i < j < sorted@.len() implies sorted@[i].order <= sorted@[j].order by {
                if j < p {
                } else if j == p {
                } else if i < p {
                    assert(sorted@[j] == before[j - 1]);
                } else if i == p {
                    assert(sorted@[j] == before[j - 1]);
                } else {
                    assert(sorted@[j] == before[j - 1]);
                    assert(sorted@[i] == before[i - 1]);
                }
            }
        }
        taken = taken + 1;
    }
    proof {
        assert(original.take(taken as int) =~= original);
    }
    sorted
}

/// How failed default installs are reported: nothing when none failed, the error itself
/// when one failed, and otherwise every failure's text in install order, failures of one
/// install keeping the order they were recorded in.
pub open spec fn install_failures_reported(
    r: Result<(), DaemonError>,
    failures: Seq<DesiredResourceInstallFailure>,
) -> bool {
    &&& failures.len() == 0 ==> r is Ok
    &&& failures.len() == 1 ==> r == Err::<(), DaemonError>(failures[0].error)
    &&& failures.len() > 1 ==> exists|sorted: Seq<DesiredResourceInstallFailure>|
        stable_sort_by_order(sorted, failures) && #[trigger] sorted.len() == failures.len() && (r matches Err(
            DaemonError::ManagedResourceDefaultInstallFailures { failures: texts },
        ) && string_views(texts@) == install_failure_texts(sorted))
}

/// Reports the failed default installs: nothing when none failed, the error itself when one
/// failed, and otherwise every failure's text in install order, failures of one install
/// keeping the order they were recorded in.
pub fn finish_desired_resource_install_failures(failures: Vec<DesiredResourceInstallFailure>) -> (r:
    Result<(), DaemonError>)
    ensures
        install_failures_reported(r, failures@),
{
    let ghost original = failures@;
    let mut sorted = sort_install_failures_by_order(failures);
    if sorted.len() == 0 {
        return Ok(());
    }
    if sorted.len() == 1 {
        proof {
            let k = sorted@[0].order;
            assert(order_filter(sorted@, k) == order_filter(original, k));
            assert(sorted@ =~= seq![sorted@[0]]);
            assert(original =~= seq![original[0]]);
            lemma_filter_single(sorted@[0], k);
            lemma_filter_single(original[0], k);
            assert(order_filter(sorted@, k) =~= seq![sorted@[0]]);
            assert(order_filter(sorted@, k)[0] == sorted@[0]);
        }
        return Err(sorted.remove(0).error);
    }
    let mut texts: Vec<String> = Vec::new();
    let mut i: usize = 0;
    while i < sorted.len()
        invariant
            i <= sorted@.len(),
            texts@.len() == i,
            forall|j: int| 0 <= j < i ==> #[trigger] texts@[j]@ == install_failure_text(sorted@[j]),
        decreases sorted.len() - i,
    {
        let text = sorted[i].message();
        texts.push(text);
        i = i + 1;
    }
    proof {
        assert(string_views(texts@) =~= install_failure_texts(sorted@));
    }
    Err(DaemonError::ManagedResourceDefaultInstallFailures { failures: texts })
}

/// A single failed track is reported as itself; several are reported together, in order.
pub fn combined_project_resource_error(failures: Vec<ManagedResourceProjectFailure>) -> (e:
    DaemonError)
    ensures
        failures@.len() == 1 ==> e == (DaemonError::ManagedResourceProjectFailed {
            failure: failures@[0],
        }),
        failures@.len() != 1 ==> e == (DaemonError::ManagedResourceProjectFailures { failures }),
{
    let mut failures = failures;
    if failures.len() == 1 {
        return failures.remove(0).into_error();
    }
    DaemonError::ManagedResourceProjectFailures { failures }
}

} // verus!
