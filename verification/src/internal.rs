//! Constructors as values: a layer is made by a function from what is
//! beneath it, or the failure to make that, to the layer, or the failure to
//! make it; such functions are run and chained here.
use crate::error::StreamError;
use vstd::prelude::*;

verus! {

/// Runs one constructor.
pub fn process_unit<T, U, F: Fn(Result<T, StreamError>) -> Result<U, StreamError>>(
    input: Result<T, StreamError>,
    func: F,
) -> (res: Result<U, StreamError>)
    requires
        call_requires(func, (input,)),
    ensures
        call_ensures(func, (input,), res),
{
    func(input)
}

/// Runs two constructors, the second on what the first made.
pub fn process_bind<T, U, V, F1, F2>(input: Result<T, StreamError>, f1: F1, f2: F2) -> (res: Result<V, StreamError>) where
    F1: Fn(Result<T, StreamError>) -> Result<U, StreamError>,
    F2: Fn(Result<U, StreamError>) -> Result<V, StreamError>,

    requires
        call_requires(f1, (input,)),
        forall|made: Result<U, StreamError>| call_ensures(f1, (input,), made) ==> call_requires(f2, (made,)),
    ensures
        exists|made: Result<U, StreamError>|
            call_ensures(f1, (input,), made) && call_ensures(f2, (made,), res),
{
    f2(f1(input))
}

/// Whether `third(second(first(input)))` may come out as `output`.
pub open spec fn chained<T, U, V, W, A, B, C>(first: A, second: B, third: C, input: Result<T, StreamError>, output: Result<
    W,
    StreamError,
>) -> bool where
    A: Fn(Result<T, StreamError>) -> Result<U, StreamError>,
    B: Fn(Result<U, StreamError>) -> Result<V, StreamError>,
    C: Fn(Result<V, StreamError>) -> Result<W, StreamError>,
 {
    exists|inner: Result<U, StreamError>, middle: Result<V, StreamError>|
        call_ensures(first, (input,), inner) && call_ensures(second, (inner,), middle) && call_ensures(
            third,
            (middle,),
            output,
        )
}

/// Whether `third(second(first(input)))` can be run.
pub open spec fn chainable<T, U, V, W, A, B, C>(first: A, second: B, third: C, input: Result<T, StreamError>) -> bool where
    A: Fn(Result<T, StreamError>) -> Result<U, StreamError>,
    B: Fn(Result<U, StreamError>) -> Result<V, StreamError>,
    C: Fn(Result<V, StreamError>) -> Result<W, StreamError>,
 {
    &&& call_requires(first, (input,))
    &&& forall|inner: Result<U, StreamError>|
        call_ensures(first, (input,), inner) ==> call_requires(second, (inner,))
    &&& forall|inner: Result<U, StreamError>, middle: Result<V, StreamError>|
        call_ensures(first, (input,), inner) && call_ensures(second, (inner,), middle) ==> call_requires(
            third,
            (middle,),
        )
}

/// Binds three constructors into one. `a` makes the innermost layer, the one
/// next to the medium; `c` makes the outermost, the one the caller writes to
/// or reads from.
pub fn bind_io_constructors<T, U, V, W, A, B, C>(a: A, b: B, c: C) -> (bound: impl Fn(Result<T, StreamError>) -> Result<
    W,
    StreamError,
>) where
    A: Fn(Result<T, StreamError>) -> Result<U, StreamError>,
    B: Fn(Result<U, StreamError>) -> Result<V, StreamError>,
    C: Fn(Result<V, StreamError>) -> Result<W, StreamError>,

    ensures
        forall|input: Result<T, StreamError>| chainable(a, b, c, input) ==> #[trigger] call_requires(bound, (input,)),
        forall|input: Result<T, StreamError>, output: Result<W, StreamError>|
            #[trigger] call_ensures(bound, (input,), output) ==> chained(a, b, c, input, output),
{
    move |x: Result<T, StreamError>| -> (res: Result<W, StreamError>)
        requires
            chainable(a, b, c, x),
        ensures
            chained(a, b, c, x, res),
        {
            let inner = a(x);
            let middle = b(inner);
            c(middle)
        }
}

} // verus!
