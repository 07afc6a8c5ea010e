use vstd::prelude::*;

verus! {

/// The fatal conditions that abort a constraint-generation pass.
/// Every one of them ends the pass: a partially built constraint system
/// is unsound to use, so there is no local recovery.
#[derive(Clone, Copy, Debug, PartialEq, Eq, Structural)]
pub enum CircuitError {
    /// A name resolved to a value variant incompatible with the expected one.
    TypeMismatch,
    /// A struct or function name used in construction is not bound.
    UndefinedName,
    /// A struct literal's field names do not positionally match the declaration.
    FieldMismatch,
    /// Spread elements, struct-valued returns, and other constructs the
    /// current core does not implement.
    Unsupported,
    /// A resolved index or range falls outside the target array's bounds.
    IndexOutOfRange,
    /// An unbound variable has no external-input source available.
    MissingWitness,
    /// An allocation was rejected by the sink: an enforced equality
    /// does not hold, or a division by zero was requested.
    GateAllocationFailure,
}

} // verus!
