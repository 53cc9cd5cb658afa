use vstd::prelude::*;

verus! {

/// Reduction of a value that lies at most one modulus below the range
/// `[0, n)` back into that range.
pub trait ModuloSigned: Sized {
    /// The inputs on which `modulo` is defined.
    spec fn modulo_domain(&self, n: Self) -> bool;

    /// The value `modulo` returns.
    spec fn modulo_spec(&self, n: Self) -> Self;

    fn modulo(&self, n: Self) -> (r: Self)
        requires
            self.modulo_domain(n),
        ensures
            r == self.modulo_spec(n),
    ;
}

impl ModuloSigned for isize {
    open spec fn modulo_domain(&self, n: isize) -> bool {
        n > 0 && *self >= -n && *self + n <= isize::MAX
    }

    /// The Euclidean remainder of `self` by `n`.
    open spec fn modulo_spec(&self, n: isize) -> isize {
        (*self as int % n as int) as isize
    }

    fn modulo(&self, n: isize) -> (r: isize) {
        let s: isize = *self + n;
        proof {
            assert((s as int) % (n as int) == (*self as int) % (n as int)) by (nonlinear_arith)
                requires s as int == *self as int + n as int, n > 0, *self >= -n;
        }
        s % n
    }
}

} // verus!
