//! Search of an iterator for the first item that a predicate accepts.

use crate::error::NotFoundError;
use vstd::prelude::*;
use vstd::std_specs::iter::IteratorSpec;

verus! {

/// The first of `items` that the predicate `p` accepts, or the error where it
/// accepts none.
pub open spec fn first_accepted<T>(items: Seq<T>, p: spec_fn(T) -> bool) -> Result<
    T,
    NotFoundError<T>,
>
    decreases items.len(),
{
    if items.len() == 0 {
        Err(NotFoundError::<T>::unit())
    } else if p(items[0]) {
        Ok(items[0])
    } else {
        first_accepted(items.drop_first(), p)
    }
}

/// Whether the executable predicate `f` answers as `p` does: whatever `f`
/// returns for an item is what `p` says of it.
pub open spec fn decides<T, F: FnMut(&T) -> bool>(f: F, p: spec_fn(T) -> bool) -> bool {
    forall|x: T, b: bool| #[trigger] call_ensures(f, (&x,), b) ==> b == p(x)
}

/// Whether `f` can refuse each of `items`.
pub open spec fn refuses_all<T, F: FnMut(&T) -> bool>(items: Seq<T>, f: F) -> bool {
    forall|j: int| 0 <= j < items.len() ==> call_ensures(f, (&#[trigger] items[j],), false)
}

/// Whether `r` is a possible outcome of searching `items` in order with the
/// executable predicate `f`.
///
/// `Ok(v)` is possible where `v` stands at some position of `items`, `f` can
/// accept it, and `f` can refuse every item before it. The error is possible
/// where `f` can refuse every item.
pub open spec fn is_located<T, F: FnMut(&T) -> bool>(
    items: Seq<T>,
    f: F,
    r: Result<T, NotFoundError<T>>,
) -> bool {
    match r {
        Ok(v) => exists|i: int|
            0 <= i < items.len() && #[trigger] items[i] == v && call_ensures(f, (&v,), true)
                && refuses_all(items.take(i), f),
        Err(_) => refuses_all(items, f),
    }
}

/// Where the executable predicate answers as `p` does, the only possible
/// outcome of the search is the first item that `p` accepts.
pub proof fn lemma_located_is_first_accepted<T, F: FnMut(&T) -> bool>(
    items: Seq<T>,
    f: F,
    p: spec_fn(T) -> bool,
    r: Result<T, NotFoundError<T>>,
)
    requires
        is_located(items, f, r),
        decides(f, p),
    ensures
        r == first_accepted(items, p),
    decreases items.len(),
{

    if items.len() == 0 {
        assert(r is Err);
        assert(r->Err_0 == NotFoundError::<T>::unit());
    } else {
        let rest = items.drop_first();
        match r {
            Ok(v) => {
                let i = choose|i: int|
                    0 <= i < items.len() && #[trigger] items[i] == v && call_ensures(f, (&v,), true)
                        && refuses_all(items.take(i), f);
                if i == 0 {
                    assert(p(items[0]));
                } else {
                    assert(items.take(i)[0] == items[0]);
                    assert(!p(items[0]));
                    assert(rest[i - 1] == v);
                    assert(rest.take(i - 1) =~= items.take(i).drop_first());
                    let front = rest.take(i - 1);
                    assert forall|j: int| #![trigger front[j]] 0 <= j < front.len() implies call_ensures(
                        f,
                        (&front[j],),
                        false,
                    ) by {
                        assert(front[j] == items.take(i)[j + 1]);
                    }
                    lemma_located_is_first_accepted(rest, f, p, r);
                }
            },
            Err(_) => {
                assert(!p(items[0]));
                assert forall|j: int| #![trigger rest[j]] 0 <= j < rest.len() implies call_ensures(
                    f,
                    (&rest[j],),
                    false,
                ) by {
                    assert(rest[j] == items[j + 1]);
                }
                lemma_located_is_first_accepted(rest, f, p, r);
            },
        }
    }
}

/// Searches `iter` in order and returns the first item that `f` accepts, or
/// the error where the items run out before `f` accepts one.
///
/// The iterator has to be one that ends and that carries a measure of what
/// is left of it, so that the search is known to end; `f` has to be callable
/// on each of its items. Where `f` answers as a predicate `p` does, the
/// result is [`first_accepted`] of the items and `p`.
pub fn locate<T, I: Iterator<Item = T>>(iter: I, f: impl FnMut(&T) -> bool) -> (r: Result<
    T,
    NotFoundError<T>,
>)
    requires
        iter.obeys_prophetic_iter_laws(),
        iter.decrease() is Some,
        forall|i: int|
            0 <= i < iter.remaining().len() ==> call_requires(f, (&#[trigger] iter.remaining()[i],)),
    ensures
        is_located(iter.remaining(), f, r),
        forall|p: spec_fn(T) -> bool| #[trigger]
            decides(f, p) ==> r == first_accepted(iter.remaining(), p),
{
    let mut it = iter;
    let mut accept = f;
    let ghost items = iter.remaining();
    let ghost mut seen: int = 0;
    loop
        invariant
            it.obeys_prophetic_iter_laws(),
            it.decrease() is Some,
            items == iter.remaining(),
            accept == f,
            0 <= seen <= items.len(),
            it.remaining() == items.skip(seen),
            refuses_all(items.take(seen), f),
            forall|i: int| 0 <= i < items.len() ==> call_requires(f, (&#[trigger] items[i],)),
        decreases it.decrease()->0,
    {
        match it.next() {
            Some(x) => {
                assert(x == items[seen]);
                if accept(&x) {
                    proof {
                        let r = Ok::<T, NotFoundError<T>>(x);
                        assert(is_located(items, f, r));
                        assert forall|p: spec_fn(T) -> bool| #[trigger] decides(f, p) implies r
                            == first_accepted(items, p) by {
                            lemma_located_is_first_accepted(items, f, p, r);
                        }
                    }
                    return Ok(x);
                }
                proof {
                    assert(forall|j: int|
                        0 <= j < seen ==> items.take(seen + 1)[j] == items.take(seen)[j]);
                    assert(items.skip(seen).drop_first() =~= items.skip(seen + 1));
                    seen = seen + 1;
                }
            },
            None => {
                let e = NotFoundError::new();
                proof {
                    let r = Err::<T, NotFoundError<T>>(e);
                    assert(items.take(seen) =~= items);
                    assert forall|p: spec_fn(T) -> bool| #[trigger] decides(f, p) implies r
                        == first_accepted(items, p) by {
                        lemma_located_is_first_accepted(items, f, p, r);
                    }
                }
                return Err(e);
            },
        }
    }
}

} // verus!
