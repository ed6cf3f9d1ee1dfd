//! Loading the functions of the graphics interface, once per run, after
//! the context was made current and before the first frame.
use vstd::prelude::*;

verus! {

/// One function of the graphics interface after the platform's resolver was
/// asked for it: whether the backend cannot do without it, and the address
/// that the resolver gave, zero if it knows no such function.
#[derive(Clone, Copy, Debug, PartialEq, Eq, Structural)]
pub struct GlFunction {
    pub required: bool,
    pub address: usize,
}

/// Whether a function is missing that the backend cannot do without.
pub open spec fn is_missing(function: GlFunction) -> bool {
    function.required && function.address == 0
}

/// The place of the first function that the backend cannot do without and
/// that the resolver does not know, if there is one.
pub open spec fn first_missing(functions: Seq<GlFunction>) -> Option<int>
    decreases functions.len(),
{
    if functions.len() == 0 {
        None
    } else {
        match first_missing(functions.drop_last()) {
            Some(i) => Some(i),
            None => if is_missing(functions.last()) {
                Some(functions.len() - 1)
            } else {
                None
            },
        }
    }
}

/// What `first_missing` finds is missing, and nothing before it is.
pub proof fn lemma_first_missing(functions: Seq<GlFunction>)
    ensures
        match first_missing(functions) {
            Some(i) => 0 <= i < functions.len() && is_missing(functions[i]) && forall|j: int|
                0 <= j < i ==> !is_missing(#[trigger] functions[j]),
            None => forall|j: int| 0 <= j < functions.len() ==> !is_missing(#[trigger] functions[j]),
        },
    decreases functions.len(),
{
    if functions.len() > 0 {
        lemma_first_missing(functions.drop_last());
        assert forall|j: int| 0 <= j < functions.len() - 1 implies functions.drop_last()[j]
            == functions[j] by {}
    }
}

/// Checks what the resolver gave. Loading fails, and startup with it, if a
/// function is missing that the backend cannot do without; the error is
/// the place of the first such function. A function that the backend can
/// do without may be missing: its address is zero, which the caller of
/// that function has to check.
pub fn load_gl_funcs(functions: &Vec<GlFunction>) -> (loaded: Result<(), usize>)
    ensures
        match first_missing(functions@) {
            Some(i) => loaded == Err::<(), usize>(i as usize),
            None => loaded is Ok,
        },
        loaded is Ok <==> forall|j: int|
            0 <= j < functions@.len() ==> !is_missing(#[trigger] functions@[j]),
        loaded matches Err(i) ==> i < functions@.len() && is_missing(functions@[i as int])
            && forall|j: int| 0 <= j < i ==> !is_missing(#[trigger] functions@[j]),
{
    proof {
        lemma_first_missing(functions@);
    }
    let mut i: usize = 0;
    while i < functions.len()
        invariant
            i <= functions.len(),
            first_missing(functions@.take(i as int)) is None,
        decreases functions.len() - i,
    {
        let function: GlFunction = functions[i];
        proof {
            assert(functions@.take(i + 1).drop_last() =~= functions@.take(i as int));
            assert(functions@.take(i + 1).last() == function);
        }
        if function.required && function.address == 0 {
            proof {
                lemma_missing_stays_first(functions@, i + 1);
                lemma_first_missing(functions@);
            }
            return Err(i);
        }
        i = i + 1;
    }
    assert(functions@.take(i as int) =~= functions@);
    Ok(())
}

/// A function that is found missing among the first `n` is the first that
/// is missing among all.
proof fn lemma_missing_stays_first(functions: Seq<GlFunction>, n: int)
    requires
        0 <= n <= functions.len(),
        first_missing(functions.take(n)) is Some,
    ensures
        first_missing(functions) == first_missing(functions.take(n)),
    decreases functions.len() - n,
{
    if n < functions.len() {
        assert(functions.take(n + 1).drop_last() =~= functions.take(n));
        lemma_missing_stays_first(functions, n + 1);
    } else {
        assert(functions.take(n) =~= functions);
    }
}

} // verus!
