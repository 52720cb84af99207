use vstd::prelude::*;

verus! {

/// The families of elementwise tensor arithmetic that the engine offers,
/// each with a tensor-tensor function and a tensor-scalar variant.
#[derive(Debug, Clone, Copy, PartialEq, Eq, Structural)]
pub enum ArithOp {
    Plus,
    Minus,
    Mul,
    Div,
}

impl ArithOp {
    /// The engine's name of the tensor-tensor function.
    pub open spec fn spec_name(self) -> Seq<char> {
        match self {
            ArithOp::Plus => "_plus"@,
            ArithOp::Minus => "_minus"@,
            ArithOp::Mul => "_mul"@,
            ArithOp::Div => "_div"@,
        }
    }

    pub fn name(&self) -> (r: &'static str)
        ensures
            r@ == self.spec_name(),
    {
        match self {
            ArithOp::Plus => "_plus",
            ArithOp::Minus => "_minus",
            ArithOp::Mul => "_mul",
            ArithOp::Div => "_div",
        }
    }

    /// The engine's name of the tensor-scalar variant: the family's name
    /// with `_scalar` appended.
    pub fn scalar_name(&self) -> (r: &'static str)
        ensures
            r@ == self.spec_name() + "_scalar"@,
    {
        proof {
            reveal_strlit("_scalar");
        }
        match self {
            ArithOp::Plus => {
                proof {
                    reveal_strlit("_plus");
                    reveal_strlit("_plus_scalar");
                    assert("_plus_scalar"@ =~= "_plus"@ + "_scalar"@);
                }
                "_plus_scalar"
            },
            ArithOp::Minus => {
                proof {
                    reveal_strlit("_minus");
                    reveal_strlit("_minus_scalar");
                    assert("_minus_scalar"@ =~= "_minus"@ + "_scalar"@);
                }
                "_minus_scalar"
            },
            ArithOp::Mul => {
                proof {
                    reveal_strlit("_mul");
                    reveal_strlit("_mul_scalar");
                    assert("_mul_scalar"@ =~= "_mul"@ + "_scalar"@);
                }
                "_mul_scalar"
            },
            ArithOp::Div => {
                proof {
                    reveal_strlit("_div");
                    reveal_strlit("_div_scalar");
                    assert("_div_scalar"@ =~= "_div"@ + "_scalar"@);
                }
                "_div_scalar"
            },
        }
    }
}

} // verus!
