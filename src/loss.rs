use vstd::prelude::*;

verus! {

/// Loss functions understood by the engine.
#[derive(Clone, Copy, Debug, PartialEq, Eq, Structural)]
pub enum Loss {
    /// Squared error, real-valued factorization.
    RealL2,
    /// Absolute error, real-valued factorization.
    RealL1,
    /// Generalized KL-divergence, non-negative real-valued factorization.
    RealKL,
    /// Logarithmic loss, binary factorization.
    BinaryLog,
    /// Squared hinge loss, binary factorization.
    BinaryL2,
    /// Hinge loss, binary factorization.
    BinaryL1,
    /// Row-oriented pair-wise logarithmic loss, one-class factorization.
    OneClassRow,
    /// Column-oriented pair-wise logarithmic loss, one-class factorization.
    OneClassCol,
    /// Squared error, one-class factorization.
    OneClassL2,
}

impl Loss {
    /// The integer code by which the engine names this loss.
    pub open spec fn spec_code(self) -> i32 {
        match self {
            Loss::RealL2 => 0,
            Loss::RealL1 => 1,
            Loss::RealKL => 2,
            Loss::BinaryLog => 5,
            Loss::BinaryL2 => 6,
            Loss::BinaryL1 => 7,
            Loss::OneClassRow => 10,
            Loss::OneClassCol => 11,
            Loss::OneClassL2 => 12,
        }
    }

    /// Returns the engine's integer code for this loss.
    pub fn code(&self) -> (r: i32)
        ensures
            r == self.spec_code(),
    {
        match self {
            Loss::RealL2 => 0,
            Loss::RealL1 => 1,
            Loss::RealKL => 2,
            Loss::BinaryLog => 5,
            Loss::BinaryL2 => 6,
            Loss::BinaryL1 => 7,
            Loss::OneClassRow => 10,
            Loss::OneClassCol => 11,
            Loss::OneClassL2 => 12,
        }
    }

    /// Returns the loss that the engine names by `code`, or `None` for a
    /// code that names no loss.
    pub fn from_code(code: i32) -> (r: Option<Loss>)
        ensures
            r matches Some(l) ==> l.spec_code() == code,
            r is None <==> (forall|l: Loss| l.spec_code() != code),
    {
        let r = if code == 0 {
            Some(Loss::RealL2)
        } else if code == 1 {
            Some(Loss::RealL1)
        } else if code == 2 {
            Some(Loss::RealKL)
        } else if code == 5 {
            Some(Loss::BinaryLog)
        } else if code == 6 {
            Some(Loss::BinaryL2)
        } else if code == 7 {
            Some(Loss::BinaryL1)
        } else if code == 10 {
            Some(Loss::OneClassRow)
        } else if code == 11 {
            Some(Loss::OneClassCol)
        } else if code == 12 {
            Some(Loss::OneClassL2)
        } else {
            None
        };
        proof {
            if r is None {
                assert forall|l: Loss| l.spec_code() != code by {
                    match l {
                        Loss::RealL2 => {},
                        Loss::RealL1 => {},
                        Loss::RealKL => {},
                        Loss::BinaryLog => {},
                        Loss::BinaryL2 => {},
                        Loss::BinaryL1 => {},
                        Loss::OneClassRow => {},
                        Loss::OneClassCol => {},
                        Loss::OneClassL2 => {},
                    }
                }
            }
        }
        r
    }
}

/// Distinct losses have distinct codes, so a code read back from the engine
/// names the loss it was made from.
pub proof fn lemma_code_round_trip(a: Loss, b: Loss)
    ensures
        a.spec_code() == b.spec_code() <==> a == b,
{
}

} // verus!
