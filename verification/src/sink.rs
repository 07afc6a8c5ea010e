//! Gate allocation: the sink is the collaborator that the resolvers drive.
//!
//! Every gate both computes a concrete value for the known witness and
//! stands for an algebraic constraint enforcing that relationship.  The
//! sink records one entry per allocation, labelled with a human-readable
//! annotation derived from the operand values; labels are purely
//! diagnostic and never affect correctness.
//!
//! The fixed-width integer gates work modulo `2^32`: addition, subtraction
//! and multiplication wrap around, division is Euclidean and rejects a zero
//! divisor, and exponentiation is repeated wrapping multiplication.
//! Equality-enforcement gates reject operands whose witness values differ:
//! a constraint system containing such a gate has no satisfying assignment,
//! so generation fails immediately rather than emitting it.

use crate::errors::CircuitError;
use crate::render::bool_string;
use crate::render::u32_string;
use vstd::arithmetic::div_mod::lemma_mul_mod_noop_left;
use vstd::prelude::*;
use vstd::string::StringExecFns;

verus! {

/// A gate-backed boolean: the concrete witness value it evaluates to, and
/// whether it is a compile-time constant (no input wire backs it).
#[derive(Clone, Copy, Debug, PartialEq, Eq, Structural)]
pub struct GateBool {
    pub constant: bool,
    pub value: bool,
}

/// A gate-backed fixed-width (32-bit) integer, analogous to [`GateBool`].
#[derive(Clone, Copy, Debug, PartialEq, Eq, Structural)]
pub struct GateUint {
    pub constant: bool,
    pub value: u32,
}

/// The boolean constant gate for `v`.
pub open spec fn gb_const(v: bool) -> GateBool {
    GateBool { constant: true, value: v }
}

/// A fresh boolean input gate carrying the external witness value `v`.
pub open spec fn gb_input(v: bool) -> GateBool {
    GateBool { constant: false, value: v }
}

/// The NOT gate: constant exactly when its operand is.
pub open spec fn gb_not(a: GateBool) -> GateBool {
    GateBool { constant: a.constant, value: !a.value }
}

/// The AND gate: constant exactly when both operands are.
pub open spec fn gb_and(a: GateBool, b: GateBool) -> GateBool {
    GateBool { constant: a.constant && b.constant, value: a.value && b.value }
}

/// The OR gate: constant exactly when both operands are.
pub open spec fn gb_or(a: GateBool, b: GateBool) -> GateBool {
    GateBool { constant: a.constant && b.constant, value: a.value || b.value }
}

/// The integer constant gate for `v`.
pub open spec fn gu_const(v: u32) -> GateUint {
    GateUint { constant: true, value: v }
}

/// A fresh integer input gate carrying the external witness value `v`.
pub open spec fn gu_input(v: u32) -> GateUint {
    GateUint { constant: false, value: v }
}

/// The wrapping addition gate.
pub open spec fn gu_add(a: GateUint, b: GateUint) -> GateUint {
    GateUint {
        constant: a.constant && b.constant,
        value: vstd::wrapping::u32_specs::wrapping_add(a.value, b.value),
    }
}

/// The wrapping subtraction gate.
pub open spec fn gu_sub(a: GateUint, b: GateUint) -> GateUint {
    GateUint {
        constant: a.constant && b.constant,
        value: vstd::wrapping::u32_specs::wrapping_sub(a.value, b.value),
    }
}

/// The wrapping multiplication gate.
pub open spec fn gu_mul(a: GateUint, b: GateUint) -> GateUint {
    GateUint {
        constant: a.constant && b.constant,
        value: vstd::wrapping::u32_specs::wrapping_mul(a.value, b.value),
    }
}

/// The division gate; meaningful only for a nonzero divisor.
pub open spec fn gu_div(a: GateUint, b: GateUint) -> GateUint {
    GateUint { constant: a.constant && b.constant, value: (a.value as int / b.value as int) as u32 }
}

/// `b` raised to the `e`-th power, without wrapping.
pub open spec fn pow_nat(b: nat, e: nat) -> nat
    decreases e,
{
    if e == 0 {
        1
    } else {
        b * pow_nat(b, (e - 1) as nat)
    }
}

/// The exponentiation gate: repeated wrapping multiplication.
pub open spec fn gu_pow(a: GateUint, b: GateUint) -> GateUint {
    GateUint {
        constant: a.constant && b.constant,
        value: (pow_nat(a.value as nat, b.value as nat) % 0x1_0000_0000) as u32,
    }
}

/// A gate-allocation sink for one constraint-generation pass.
///
/// It owns the sequence of gates allocated so far; `gates` holds one
/// diagnostic label per allocation, so `gates@.len()` is the number of
/// gates.  Generation is not idempotent-safe to retry: a caller must
/// construct a fresh sink per attempt and discard the whole sink when a
/// pass fails.
pub struct Sink {
    pub gates: Vec<String>,
}

impl Sink {
    /// A fresh, empty sink.
    pub fn new() -> (s: Sink)
        ensures
            s.gates@.len() == 0,
    {
        Sink { gates: Vec::new() }
    }

    /// How many gates have been allocated so far.
    pub fn num_gates(&self) -> (n: usize)
        ensures
            n == self.gates@.len(),
    {
        self.gates.len()
    }

    fn push_gate(&mut self, label: String)
        ensures
            final(self).gates@.len() == old(self).gates@.len() + 1,
    {
        self.gates.push(label);
    }

    /// Allocates a boolean constant gate.
    pub fn constant_bool(&mut self, value: bool) -> (g: GateBool)
        ensures
            g == gb_const(value),
            final(self).gates@.len() == old(self).gates@.len() + 1,
    {
        self.push_gate("constant ".to_owned().concat(bool_string(value).as_str()));
        GateBool { constant: true, value }
    }

    /// Allocates a fresh boolean input gate for the named external witness.
    pub fn input_bool(&mut self, name: &str, value: bool) -> (g: GateBool)
        ensures
            g == gb_input(value),
            final(self).gates@.len() == old(self).gates@.len() + 1,
    {
        self.push_gate("input ".to_owned().concat(name));
        GateBool { constant: false, value }
    }

    /// Allocates a NOT gate over `a`.
    pub fn not_gate(&mut self, a: &GateBool) -> (g: GateBool)
        ensures
            g == gb_not(*a),
            final(self).gates@.len() == old(self).gates@.len() + 1,
    {
        self.push_gate("not ".to_owned().concat(bool_string(a.value).as_str()));
        GateBool { constant: a.constant, value: !a.value }
    }

    /// Allocates an AND gate over `a` and `b`.
    pub fn and_gate(&mut self, a: &GateBool, b: &GateBool) -> (g: GateBool)
        ensures
            g == gb_and(*a, *b),
            final(self).gates@.len() == old(self).gates@.len() + 1,
    {
        let label = bool_string(a.value).concat(" && ").concat(bool_string(b.value).as_str());
        self.push_gate(label);
        GateBool { constant: a.constant && b.constant, value: a.value && b.value }
    }

    /// Allocates an OR gate over `a` and `b`.
    pub fn or_gate(&mut self, a: &GateBool, b: &GateBool) -> (g: GateBool)
        ensures
            g == gb_or(*a, *b),
            final(self).gates@.len() == old(self).gates@.len() + 1,
    {
        let label = bool_string(a.value).concat(" || ").concat(bool_string(b.value).as_str());
        self.push_gate(label);
        GateBool { constant: a.constant && b.constant, value: a.value || b.value }
    }

    /// Allocates an equality-enforcement gate over two booleans.  Such a gate
    /// constrains the operands to be equal, so when their witness values
    /// differ the sink rejects the allocation and the pass fails; otherwise
    /// the result is the constant `true`.
    pub fn enforce_bool_eq(&mut self, a: &GateBool, b: &GateBool) -> (r: Result<
        GateBool,
        CircuitError,
    >)
        ensures
            final(self).gates@.len() == old(self).gates@.len() + 1,
            r == if a.value == b.value {
                Result::<GateBool, CircuitError>::Ok(gb_const(true))
            } else {
                Result::<GateBool, CircuitError>::Err(CircuitError::GateAllocationFailure)
            },
    {
        self.push_gate("enforce bool equal".to_owned());
        if a.value == b.value {
            Ok(GateBool { constant: true, value: true })
        } else {
            Err(CircuitError::GateAllocationFailure)
        }
    }

    /// Allocates a conditional equality-enforcement gate over two integers,
    /// with the enforcing condition fixed to the constant `true`.  As with
    /// [`Sink::enforce_bool_eq`], differing witness values make the pass fail.
    pub fn enforce_field_eq(&mut self, a: &GateUint, b: &GateUint) -> (r: Result<
        GateBool,
        CircuitError,
    >)
        ensures
            final(self).gates@.len() == old(self).gates@.len() + 1,
            r == if a.value == b.value {
                Result::<GateBool, CircuitError>::Ok(gb_const(true))
            } else {
                Result::<GateBool, CircuitError>::Err(CircuitError::GateAllocationFailure)
            },
    {
        self.push_gate("enforce field equal".to_owned());
        if a.value == b.value {
            Ok(GateBool { constant: true, value: true })
        } else {
            Err(CircuitError::GateAllocationFailure)
        }
    }

    /// Allocates an integer constant gate.
    pub fn constant_u32(&mut self, value: u32) -> (g: GateUint)
        ensures
            g == gu_const(value),
            final(self).gates@.len() == old(self).gates@.len() + 1,
    {
        self.push_gate("constant ".to_owned().concat(u32_string(value).as_str()));
        GateUint { constant: true, value }
    }

    /// Allocates a fresh integer input gate for the named external witness.
    pub fn input_u32(&mut self, name: &str, value: u32) -> (g: GateUint)
        ensures
            g == gu_input(value),
            final(self).gates@.len() == old(self).gates@.len() + 1,
    {
        self.push_gate("input ".to_owned().concat(name));
        GateUint { constant: false, value }
    }

    fn push_arith_gate(&mut self, a: &GateUint, op: &str, b: &GateUint)
        ensures
            final(self).gates@.len() == old(self).gates@.len() + 1,
    {
        let label = "enforce ".to_owned().concat(u32_string(a.value).as_str()).concat(op).concat(
            u32_string(b.value).as_str(),
        );
        self.push_gate(label);
    }

    /// Allocates a wrapping addition gate.
    pub fn add_gate(&mut self, a: &GateUint, b: &GateUint) -> (g: GateUint)
        ensures
            g == gu_add(*a, *b),
            final(self).gates@.len() == old(self).gates@.len() + 1,
    {
        self.push_arith_gate(a, " + ", b);
        GateUint { constant: a.constant && b.constant, value: a.value.wrapping_add(b.value) }
    }

    /// Allocates a wrapping subtraction gate.
    pub fn sub_gate(&mut self, a: &GateUint, b: &GateUint) -> (g: GateUint)
        ensures
            g == gu_sub(*a, *b),
            final(self).gates@.len() == old(self).gates@.len() + 1,
    {
        self.push_arith_gate(a, " - ", b);
        GateUint { constant: a.constant && b.constant, value: a.value.wrapping_sub(b.value) }
    }

    /// Allocates a wrapping multiplication gate.
    pub fn mul_gate(&mut self, a: &GateUint, b: &GateUint) -> (g: GateUint)
        ensures
            g == gu_mul(*a, *b),
            final(self).gates@.len() == old(self).gates@.len() + 1,
    {
        self.push_arith_gate(a, " * ", b);
        GateUint { constant: a.constant && b.constant, value: a.value.wrapping_mul(b.value) }
    }

    /// Allocates a division gate.  Division by zero is a collaborator-level
    /// failure: the sink rejects the operation and the pass fails.
    pub fn div_gate(&mut self, a: &GateUint, b: &GateUint) -> (r: Result<GateUint, CircuitError>)
        ensures
            final(self).gates@.len() == old(self).gates@.len() + 1,
            r == if b.value != 0 {
                Result::<GateUint, CircuitError>::Ok(gu_div(*a, *b))
            } else {
                Result::<GateUint, CircuitError>::Err(CircuitError::GateAllocationFailure)
            },
    {
        self.push_arith_gate(a, " / ", b);
        if b.value != 0 {
            Ok(GateUint { constant: a.constant && b.constant, value: a.value / b.value })
        } else {
            Err(CircuitError::GateAllocationFailure)
        }
    }

    /// Allocates an exponentiation gate: repeated wrapping multiplication.
    pub fn pow_gate(&mut self, a: &GateUint, b: &GateUint) -> (g: GateUint)
        ensures
            g == gu_pow(*a, *b),
            final(self).gates@.len() == old(self).gates@.len() + 1,
    {
        self.push_arith_gate(a, " ** ", b);
        let mut acc: u32 = 1;
        let mut i: u32 = 0;
        while i < b.value
            invariant
                i <= b.value,
                acc as int == pow_nat(a.value as nat, i as nat) % 0x1_0000_0000,
            decreases b.value - i,
        {
            proof {
                let m: int = 0x1_0000_0000;
                let p: int = pow_nat(a.value as nat, i as nat) as int;
                lemma_mul_mod_noop_left(p, a.value as int, m);
                assert(pow_nat(a.value as nat, (i + 1) as nat) == (a.value as nat) * pow_nat(
                    a.value as nat,
                    i as nat,
                ));
            }
            acc = acc.wrapping_mul(a.value);
            i = i + 1;
        }
        GateUint { constant: a.constant && b.constant, value: acc }
    }
}

} // verus!
