//! Bounds on products, by which the arithmetic of the simulation is shown not
//! to overflow.
use vstd::prelude::*;

verus! {

/// A product is bounded by the product of the bounds of its factors.
pub proof fn lema_produto(a: int, b: int, la: int, lb: int)
    requires
        -la <= a <= la,
        -lb <= b <= lb,
    ensures
        -(la * lb) <= a * b <= la * lb,
{
    assert(-(la * lb) <= a * b <= la * lb) by (nonlinear_arith)
        requires
            -la <= a <= la,
            -lb <= b <= lb,
    ;
}

} // verus!
