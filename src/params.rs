use crate::error::Error;
use crate::float::{Float32, Float64};
use crate::loss::Loss;
use vstd::prelude::*;

verus! {

/// The engine's parameter block.
#[derive(Clone, Copy, Debug)]
pub struct MfParameter {
    /// Loss function.
    pub fun: Loss,
    /// Number of latent factors.
    pub k: i32,
    /// Number of threads.
    pub nr_threads: i32,
    /// Number of bins.
    pub nr_bins: i32,
    /// Number of iterations.
    pub nr_iters: i32,
    /// L1-regularization coefficient for P.
    pub lambda_p1: Float32,
    /// L2-regularization coefficient for P.
    pub lambda_p2: Float32,
    /// L1-regularization coefficient for Q.
    pub lambda_q1: Float32,
    /// L2-regularization coefficient for Q.
    pub lambda_q2: Float32,
    /// Learning rate.
    pub eta: Float32,
    /// Importance of negative entries.
    pub alpha: Float32,
    /// Desired value of negative entries.
    pub c: Float32,
    /// Perform non-negative factorization.
    pub do_nmf: bool,
    /// Do not print progress.
    pub quiet: bool,
    /// Let the engine copy the training data instead of borrowing it.
    pub copy_data: bool,
}

/// The number of bins that a new parameter set starts with, in place of the
/// engine's own default.
pub const DEFAULT_BINS: i32 = 25;

/// The number of checks that a parameter set must pass.
pub open spec fn check_count() -> int {
    8
}

/// Whether `p` passes the check numbered `i`; the checks run in this order.
pub open spec fn check_holds(p: MfParameter, i: int) -> bool {
    if i == 0 {
        p.k >= 1
    } else if i == 1 {
        p.nr_threads >= 1
    } else if i == 2 {
        p.nr_bins >= 1 && p.nr_bins >= p.nr_threads
    } else if i == 3 {
        p.nr_iters >= 1
    } else if i == 4 {
        p.lambda_p1.spec_is_nonnegative() && p.lambda_p2.spec_is_nonnegative()
            && p.lambda_q1.spec_is_nonnegative() && p.lambda_q2.spec_is_nonnegative()
    } else if i == 5 {
        p.eta.spec_is_positive()
    } else if i == 6 {
        p.fun == Loss::RealKL ==> p.do_nmf
    } else {
        p.alpha.spec_is_nonnegative()
    }
}

/// The reason reported when the check numbered `i` fails.
pub open spec fn check_message(i: int) -> Seq<char> {
    if i == 0 {
        "number of factors must be greater than zero"@
    } else if i == 1 {
        "number of threads must be greater than zero"@
    } else if i == 2 {
        "number of bins must be greater than number of threads"@
    } else if i == 3 {
        "number of iterations must be greater than zero"@
    } else if i == 4 {
        "regularization coefficient must be non-negative"@
    } else if i == 5 {
        "learning rate must be greater than zero"@
    } else if i == 6 {
        "nmf must be set when using generalized KL-divergence"@
    } else {
        "alpha must be a non-negative number"@
    }
}

/// The reason of the first check, from the one numbered `i` on, that `p`
/// fails; `None` when it passes them all.
pub open spec fn first_failure_from(p: MfParameter, i: int) -> Option<Seq<char>>
    decreases check_count() - i,
{
    if i < 0 || i >= check_count() {
        None
    } else if !check_holds(p, i) {
        Some(check_message(i))
    } else {
        first_failure_from(p, i + 1)
    }
}

/// The reason that validation of `p` reports: that of its first failing
/// check, or `None` when `p` is valid.
pub open spec fn param_error(p: MfParameter) -> Option<Seq<char>> {
    first_failure_from(p, 0)
}

/// The checks run in order and the first failure wins: when `p` passes every
/// check before the one numbered `i` and fails that one, validation reports
/// the reason of check `i`, whatever the later checks would say.
pub proof fn lemma_first_failing_check_reported(p: MfParameter, i: int)
    requires
        0 <= i < check_count(),
        !check_holds(p, i),
        forall|j: int| 0 <= j < i ==> check_holds(p, j),
    ensures
        param_error(p) == Some(check_message(i)),
{
    lemma_first_failure_skips_passed(p, 0, i);
}

/// From `lo` on, the checks before `i` pass and `i` fails, so the search
/// starting at `lo` stops at `i`.
proof fn lemma_first_failure_skips_passed(p: MfParameter, lo: int, i: int)
    requires
        0 <= lo <= i < check_count(),
        !check_holds(p, i),
        forall|j: int| lo <= j < i ==> check_holds(p, j),
    ensures
        first_failure_from(p, lo) == Some(check_message(i)),
    decreases i - lo,
{
    if lo < i {
        lemma_first_failure_skips_passed(p, lo + 1, i);
    }
}

/// A parameter set is valid exactly when it passes every check.
pub proof fn lemma_valid_iff_all_checks_hold(p: MfParameter)
    ensures
        param_error(p) is None <==> forall|i: int| 0 <= i < check_count() ==> check_holds(p, i),
{
    reveal_with_fuel(first_failure_from, 9);
    if forall|i: int| 0 <= i < check_count() ==> check_holds(p, i) {
        assert(check_holds(p, 0) && check_holds(p, 1) && check_holds(p, 2) && check_holds(p, 3)
            && check_holds(p, 4) && check_holds(p, 5) && check_holds(p, 6) && check_holds(p, 7));
    }
}

/// The outcome of a cross-validation run, from the average error that the
/// engine returned: the engine reports failure by returning exactly zero.
pub fn cross_validation_result(avg_error: Float64) -> (r: Result<Float64, Error>)
    ensures
        r is Err <==> avg_error.spec_is_zero(),
        r matches Err(e) ==> e is Unknown,
        r matches Ok(v) ==> v == avg_error,
{
    if avg_error.is_zero() {
        Err(Error::Unknown)
    } else {
        Ok(avg_error)
    }
}

/// A set of parameters, changed by its setters and checked as a whole
/// before the engine sees it.
pub struct Params {
    param: MfParameter,
}

impl View for Params {
    type V = MfParameter;

    closed spec fn view(&self) -> MfParameter {
        self.param
    }
}

impl Params {
    /// Starts from the engine's default parameter block, with the number of
    /// bins set to `DEFAULT_BINS`.
    pub fn new(defaults: MfParameter) -> (r: Params)
        ensures
            r@ == (MfParameter { nr_bins: DEFAULT_BINS, ..defaults }),
    {
        let mut param = defaults;
        param.nr_bins = DEFAULT_BINS;
        Params { param }
    }

    /// Sets the loss function.
    pub fn loss(&mut self, value: Loss) -> (r: &mut Self)
        ensures
            r@ == (MfParameter { fun: value, ..old(self)@ }),
            final(self)@ == final(r)@,
    {
        self.param.fun = value;
        self
    }

    /// Sets the number of latent factors.
    pub fn factors(&mut self, value: i32) -> (r: &mut Self)
        ensures
            r@ == (MfParameter { k: value, ..old(self)@ }),
            final(self)@ == final(r)@,
    {
        self.param.k = value;
        self
    }

    /// Sets the number of threads.
    pub fn threads(&mut self, value: i32) -> (r: &mut Self)
        ensures
            r@ == (MfParameter { nr_threads: value, ..old(self)@ }),
            final(self)@ == final(r)@,
    {
        self.param.nr_threads = value;
        self
    }

    /// Sets the number of bins.
    pub fn bins(&mut self, value: i32) -> (r: &mut Self)
        ensures
            r@ == (MfParameter { nr_bins: value, ..old(self)@ }),
            final(self)@ == final(r)@,
    {
        self.param.nr_bins = value;
        self
    }

    /// Sets the number of iterations.
    pub fn iterations(&mut self, value: i32) -> (r: &mut Self)
        ensures
            r@ == (MfParameter { nr_iters: value, ..old(self)@ }),
            final(self)@ == final(r)@,
    {
        self.param.nr_iters = value;
        self
    }

    /// Sets the L1-regularization coefficient for P.
    pub fn lambda_p1(&mut self, value: Float32) -> (r: &mut Self)
        ensures
            r@ == (MfParameter { lambda_p1: value, ..old(self)@ }),
            final(self)@ == final(r)@,
    {
        self.param.lambda_p1 = value;
        self
    }

    /// Sets the L2-regularization coefficient for P.
    pub fn lambda_p2(&mut self, value: Float32) -> (r: &mut Self)
        ensures
            r@ == (MfParameter { lambda_p2: value, ..old(self)@ }),
            final(self)@ == final(r)@,
    {
        self.param.lambda_p2 = value;
        self
    }

    /// Sets the L1-regularization coefficient for Q.
    pub fn lambda_q1(&mut self, value: Float32) -> (r: &mut Self)
        ensures
            r@ == (MfParameter { lambda_q1: value, ..old(self)@ }),
            final(self)@ == final(r)@,
    {
        self.param.lambda_q1 = value;
        self
    }

    /// Sets the L2-regularization coefficient for Q.
    pub fn lambda_q2(&mut self, value: Float32) -> (r: &mut Self)
        ensures
            r@ == (MfParameter { lambda_q2: value, ..old(self)@ }),
            final(self)@ == final(r)@,
    {
        self.param.lambda_q2 = value;
        self
    }

    /// Sets the learning rate.
    pub fn learning_rate(&mut self, value: Float32) -> (r: &mut Self)
        ensures
            r@ == (MfParameter { eta: value, ..old(self)@ }),
            final(self)@ == final(r)@,
    {
        self.param.eta = value;
        self
    }

    /// Sets the importance of negative entries.
    pub fn alpha(&mut self, value: Float32) -> (r: &mut Self)
        ensures
            r@ == (MfParameter { alpha: value, ..old(self)@ }),
            final(self)@ == final(r)@,
    {
        self.param.alpha = value;
        self
    }

    /// Sets the desired value of negative entries.
    pub fn c(&mut self, value: Float32) -> (r: &mut Self)
        ensures
            r@ == (MfParameter { c: value, ..old(self)@ }),
            final(self)@ == final(r)@,
    {
        self.param.c = value;
        self
    }

    /// Sets whether to perform non-negative factorization.
    pub fn nmf(&mut self, value: bool) -> (r: &mut Self)
        ensures
            r@ == (MfParameter { do_nmf: value, ..old(self)@ }),
            final(self)@ == final(r)@,
    {
        self.param.do_nmf = value;
        self
    }

    /// Sets whether to keep the engine from printing progress.
    pub fn quiet(&mut self, value: bool) -> (r: &mut Self)
        ensures
            r@ == (MfParameter { quiet: value, ..old(self)@ }),
            final(self)@ == final(r)@,
    {
        self.param.quiet = value;
        self
    }

    /// Checks the parameters in order and returns them, or the reason of
    /// the first check that fails.
    pub fn validate(&self) -> (r: Result<MfParameter, Error>)
        ensures
            r is Ok <==> param_error(self@) is None,
            r matches Ok(p) ==> p == self@,
            r matches Err(e) ==> e is Parameter && param_error(self@) == Some(e.spec_message()),
    {
        proof {
            reveal_with_fuel(first_failure_from, 9);
        }
        let p = self.param;
        if p.k < 1 {
            return Err(Error::Parameter("number of factors must be greater than zero".to_owned()));
        }
        if p.nr_threads < 1 {
            return Err(Error::Parameter("number of threads must be greater than zero".to_owned()));
        }
        if p.nr_bins < 1 || p.nr_bins < p.nr_threads {
            return Err(
                Error::Parameter("number of bins must be greater than number of threads".to_owned()),
            );
        }
        if p.nr_iters < 1 {
            return Err(
                Error::Parameter("number of iterations must be greater than zero".to_owned()),
            );
        }
        if !p.lambda_p1.is_nonnegative() || !p.lambda_p2.is_nonnegative()
            || !p.lambda_q1.is_nonnegative() || !p.lambda_q2.is_nonnegative() {
            return Err(
                Error::Parameter("regularization coefficient must be non-negative".to_owned()),
            );
        }
        if !p.eta.is_positive() {
            return Err(Error::Parameter("learning rate must be greater than zero".to_owned()));
        }
        if p.fun == Loss::RealKL && !p.do_nmf {
            return Err(
                Error::Parameter("nmf must be set when using generalized KL-divergence".to_owned()),
            );
        }
        if !p.alpha.is_nonnegative() {
            return Err(Error::Parameter("alpha must be a non-negative number".to_owned()));
        }
        Ok(p)
    }
}

} // verus!
