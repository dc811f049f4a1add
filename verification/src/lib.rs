//! An assert-present operation for optional containers.
//!
//! `extract()` moves the value out of a container the caller has already
//! established to be present. The caller's guarantee is a machine-checked
//! precondition, so the absent branch is proved unreachable and compiles to
//! no runtime check: there is no panic path and no undefined behaviour.

use vstd::pervasive::unreached;
use vstd::prelude::*;

verus! {

/// Extension trait attaching the assert-present operation, `extract`, to an
/// optional container: a holder of either "present(value)" or "absent".
///
/// The caller must establish presence before the call. In exchange the
/// operation's absent branch is statically unreachable, so no check of the
/// container's state needs to run.
pub trait Extract: Sized {
    /// The type of the value a present container holds.
    type Output;

    /// Whether the container is in the "present" state.
    spec fn is_present(self) -> bool;

    /// The value a present container holds.
    spec fn present_value(self) -> Self::Output
        recommends
            self.is_present(),
    ;

    /// Consumes the container and moves its value out, transferring
    /// ownership to the caller. The absent case is excluded by the
    /// precondition, never tested at runtime.
    fn extract(self) -> (r: Self::Output)
        requires
            self.is_present(),
        ensures
            r == self.present_value(),
    ;
}

impl<T> Extract for Option<T> {
    type Output = T;

    open spec fn is_present(self) -> bool {
        self is Some
    }

    open spec fn present_value(self) -> T {
        self->0
    }

    fn extract(self) -> (r: T) {
        extract_present(self)
    }
}

/// The assert-present operation on the standard optional container, in free
/// form: moves the value out of a container proved present. The absent arm
/// is statically unreachable, so nothing is tested at runtime.
pub fn extract_present<T>(opt: Option<T>) -> (r: T)
    requires
        opt is Some,
    ensures
        r == opt->0,
{
    match opt {
        Some(x) => x,
        None => unreached(),
    }
}

/// For every value `v`, a container holding `present(v)` is present and its
/// present value is `v` itself, unchanged: exactly what `extract` returns.
pub proof fn lemma_extract_present<T>(v: T)
    ensures
        Some(v).is_present(),
        Some(v).present_value() == v,
{
}

/// The operation is deterministic over the present case: a present container
/// determines a single value, so any two results meeting `extract`'s
/// contract on the same container are equal. No environment enters.
pub proof fn lemma_extract_deterministic<T>(opt: Option<T>, r1: T, r2: T)
    requires
        opt.is_present(),
        r1 == opt.present_value(),
        r2 == opt.present_value(),
    ensures
        r1 == r2,
{
}

} // verus!
