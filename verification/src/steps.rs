//! Work that goes through a sequence item by item and stops at the first
//! item that fails.

use vstd::prelude::*;

verus! {

/// Applies `f` to each item in order. The outcome is the sequence of the
/// results, or the error of the first item on which `f` fails.
pub open spec fn try_each<A, B, E>(items: Seq<A>, f: spec_fn(A) -> Result<B, E>) -> Result<
    Seq<B>,
    E,
>
    decreases items.len(),
{
    if items.len() == 0 {
        Ok(Seq::empty())
    } else {
        match try_each(items.drop_last(), f) {
            Err(e) => Err(e),
            Ok(done) => match f(items.last()) {
                Err(e) => Err(e),
                Ok(b) => Ok(done.push(b)),
            },
        }
    }
}

/// Applies `f` to each item in order. The outcome is the results one after
/// the other, or the error of the first item on which `f` fails.
pub open spec fn try_concat<A, B, E>(items: Seq<A>, f: spec_fn(A) -> Result<Seq<B>, E>) -> Result<
    Seq<B>,
    E,
>
    decreases items.len(),
{
    if items.len() == 0 {
        Ok(Seq::empty())
    } else {
        match try_concat(items.drop_last(), f) {
            Err(e) => Err(e),
            Ok(done) => match f(items.last()) {
                Err(e) => Err(e),
                Ok(more) => Ok(done + more),
            },
        }
    }
}

/// One more item: the step from a prefix to the next prefix.
pub proof fn lemma_try_each_step<A, B, E>(items: Seq<A>, f: spec_fn(A) -> Result<B, E>, n: int)
    requires
        0 <= n < items.len(),
    ensures
        try_each(items.take(n + 1), f) == match try_each(items.take(n), f) {
            Err(e) => Err(e),
            Ok(done) => match f(items[n]) {
                Err(e) => Err(e),
                Ok(b) => Ok(done.push(b)),
            },
        },
{
    assert(items.take(n + 1).drop_last() =~= items.take(n));
    assert(items.take(n + 1).last() == items[n]);
}

/// One more item: the step from a prefix to the next prefix.
pub proof fn lemma_try_concat_step<A, B, E>(
    items: Seq<A>,
    f: spec_fn(A) -> Result<Seq<B>, E>,
    n: int,
)
    requires
        0 <= n < items.len(),
    ensures
        try_concat(items.take(n + 1), f) == match try_concat(items.take(n), f) {
            Err(e) => Err(e),
            Ok(done) => match f(items[n]) {
                Err(e) => Err(e),
                Ok(more) => Ok(done + more),
            },
        },
{
    assert(items.take(n + 1).drop_last() =~= items.take(n));
    assert(items.take(n + 1).last() == items[n]);
}

/// A failure on a prefix is the failure of the whole.
pub proof fn lemma_try_each_fails<A, B, E>(items: Seq<A>, f: spec_fn(A) -> Result<B, E>, n: int)
    requires
        0 <= n <= items.len(),
        try_each(items.take(n), f) is Err,
    ensures
        try_each(items, f) == try_each(items.take(n), f),
    decreases items.len() - n,
{
    if n == items.len() {
        assert(items.take(n) =~= items);
    } else {
        lemma_try_each_step(items, f, n);
        lemma_try_each_fails(items, f, n + 1);
    }
}

/// A failure on a prefix is the failure of the whole.
pub proof fn lemma_try_concat_fails<A, B, E>(
    items: Seq<A>,
    f: spec_fn(A) -> Result<Seq<B>, E>,
    n: int,
)
    requires
        0 <= n <= items.len(),
        try_concat(items.take(n), f) is Err,
    ensures
        try_concat(items, f) == try_concat(items.take(n), f),
    decreases items.len() - n,
{
    if n == items.len() {
        assert(items.take(n) =~= items);
    } else {
        lemma_try_concat_step(items, f, n);
        lemma_try_concat_fails(items, f, n + 1);
    }
}

/// Where every item succeeds, there is one result for each item, in the
/// order of the items.
pub proof fn lemma_try_each_ok<A, B, E>(items: Seq<A>, f: spec_fn(A) -> Result<B, E>)
    requires
        try_each(items, f) is Ok,
    ensures
        try_each(items, f)->Ok_0.len() == items.len(),
        forall|i: int|
            0 <= i < items.len() ==> f(#[trigger] items[i]) == Ok::<B, E>(
                try_each(items, f)->Ok_0[i],
            ),
    decreases items.len(),
{
    if items.len() > 0 {
        lemma_try_each_ok(items.drop_last(), f);
        let done = try_each(items.drop_last(), f)->Ok_0;
        assert forall|i: int| 0 <= i < items.len() implies f(#[trigger] items[i]) == Ok::<B, E>(
            try_each(items, f)->Ok_0[i],
        ) by {
            if i < items.len() - 1 {
                assert(items.drop_last()[i] == items[i]);
            }
        }
    }
}

/// Where an item fails, the outcome is the error of the first such item.
pub proof fn lemma_try_each_err<A, B, E>(items: Seq<A>, f: spec_fn(A) -> Result<B, E>) -> (at: int)
    requires
        try_each(items, f) is Err,
    ensures
        0 <= at < items.len(),
        f(items[at]) is Err,
        try_each(items, f)->Err_0 == f(items[at])->Err_0,
        forall|i: int| 0 <= i < at ==> f(#[trigger] items[i]) is Ok,
    decreases items.len(),
{
    if try_each(items.drop_last(), f) is Err {
        let at = lemma_try_each_err(items.drop_last(), f);
        assert(items.drop_last()[at] == items[at]);
        assert forall|i: int| 0 <= i < at implies f(#[trigger] items[i]) is Ok by {
            assert(items.drop_last()[i] == items[i]);
        }
        at
    } else {
        lemma_try_each_ok(items.drop_last(), f);
        assert forall|i: int| 0 <= i < items.len() - 1 implies f(#[trigger] items[i]) is Ok by {
            assert(items.drop_last()[i] == items[i]);
        }
        items.len() - 1
    }
}

/// The outcome is a success exactly where every item succeeds.
pub proof fn lemma_try_each_all<A, B, E>(items: Seq<A>, f: spec_fn(A) -> Result<B, E>)
    ensures
        try_each(items, f) is Ok <==> forall|i: int|
            0 <= i < items.len() ==> f(#[trigger] items[i]) is Ok,
{
    if try_each(items, f) is Ok {
        lemma_try_each_ok(items, f);
    } else {
        let at = lemma_try_each_err(items, f);
    }
}

/// Where an item fails and every item before it succeeds, the outcome is
/// the error of that item.
pub proof fn lemma_try_each_first_failure<A, B, E>(
    items: Seq<A>,
    f: spec_fn(A) -> Result<B, E>,
    at: int,
)
    requires
        0 <= at < items.len(),
        f(items[at]) is Err,
        forall|i: int| 0 <= i < at ==> f(#[trigger] items[i]) is Ok,
    ensures
        try_each(items, f) == Err::<Seq<B>, E>(f(items[at])->Err_0),
{
    assert forall|i: int| 0 <= i < at implies f(#[trigger] items.take(at)[i]) is Ok by {
        assert(items.take(at)[i] == items[i]);
    }
    lemma_try_each_all(items.take(at), f);
    lemma_try_each_step(items, f, at);
    lemma_try_each_fails(items, f, at + 1);
}

/// The outcome is a success exactly where every item succeeds.
pub proof fn lemma_try_concat_all<A, B, E>(items: Seq<A>, f: spec_fn(A) -> Result<Seq<B>, E>)
    ensures
        try_concat(items, f) is Ok <==> forall|i: int|
            0 <= i < items.len() ==> f(#[trigger] items[i]) is Ok,
    decreases items.len(),
{
    if items.len() > 0 {
        lemma_try_concat_all(items.drop_last(), f);
        if try_concat(items, f) is Ok {
            assert forall|i: int| 0 <= i < items.len() implies f(#[trigger] items[i]) is Ok by {
                if i < items.len() - 1 {
                    assert(items.drop_last()[i] == items[i]);
                }
            }
        } else if try_concat(items.drop_last(), f) is Err {
            let i = choose|i: int|
                0 <= i < items.drop_last().len() && !(f(#[trigger] items.drop_last()[i]) is Ok);
            assert(items.drop_last()[i] == items[i]);
        }
    }
}

/// Where an item fails and every item before it succeeds, the outcome is
/// the error of that item.
pub proof fn lemma_try_concat_first_failure<A, B, E>(
    items: Seq<A>,
    f: spec_fn(A) -> Result<Seq<B>, E>,
    at: int,
)
    requires
        0 <= at < items.len(),
        f(items[at]) is Err,
        forall|i: int| 0 <= i < at ==> f(#[trigger] items[i]) is Ok,
    ensures
        try_concat(items, f) == Err::<Seq<B>, E>(f(items[at])->Err_0),
{
    assert forall|i: int| 0 <= i < at implies f(#[trigger] items.take(at)[i]) is Ok by {
        assert(items.take(at)[i] == items[i]);
    }
    lemma_try_concat_all(items.take(at), f);
    lemma_try_concat_step(items, f, at);
    lemma_try_concat_fails(items, f, at + 1);
}

/// A success is the success of the items before a place, followed by the
/// success of the items from that place on.
pub proof fn lemma_try_concat_split<A, B, E>(
    items: Seq<A>,
    f: spec_fn(A) -> Result<Seq<B>, E>,
    n: int,
)
    requires
        0 <= n <= items.len(),
        try_concat(items, f) is Ok,
    ensures
        try_concat(items.take(n), f) is Ok,
        try_concat(items.skip(n), f) is Ok,
        try_concat(items, f)->Ok_0 == try_concat(items.take(n), f)->Ok_0 + try_concat(
            items.skip(n),
            f,
        )->Ok_0,
    decreases items.len(),
{
    if n == items.len() {
        assert(items.take(n) =~= items);
        assert(items.skip(n) =~= Seq::empty());
        assert(try_concat(items, f)->Ok_0 + Seq::empty() =~= try_concat(items, f)->Ok_0);
    } else {
        lemma_try_concat_split(items.drop_last(), f, n);
        assert(items.drop_last().take(n) =~= items.take(n));
        assert(items.skip(n).drop_last() =~= items.drop_last().skip(n));
        assert(items.skip(n).last() == items.last());
        let head = try_concat(items.take(n), f)->Ok_0;
        let middle = try_concat(items.drop_last().skip(n), f)->Ok_0;
        let last = f(items.last())->Ok_0;
        assert((head + middle) + last =~= head + (middle + last));
    }
}

/// Every part of a success comes from one of the items.
pub proof fn lemma_try_concat_source<A, B, E>(
    items: Seq<A>,
    f: spec_fn(A) -> Result<Seq<B>, E>,
    at: int,
) -> (from: (int, int))
    requires
        try_concat(items, f) is Ok,
        0 <= at < try_concat(items, f)->Ok_0.len(),
    ensures
        0 <= from.0 < items.len(),
        f(items[from.0]) is Ok,
        0 <= from.1 < f(items[from.0])->Ok_0.len(),
        try_concat(items, f)->Ok_0[at] == f(items[from.0])->Ok_0[from.1],
    decreases items.len(),
{
    let done = try_concat(items.drop_last(), f)->Ok_0;
    if at < done.len() {
        let from = lemma_try_concat_source(items.drop_last(), f, at);
        assert(items.drop_last()[from.0] == items[from.0]);
        from
    } else {
        (items.len() - 1, at - done.len())
    }
}

} // verus!
