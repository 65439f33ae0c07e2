//! The relation that is proved: two private factors and their public
//! product.
//!
//! The circuit has two private variables, one public input and one
//! constraint. Keys belong to this shape: a circuit of another shape needs
//! keys of its own.

use vstd::prelude::*;

use crate::decimal::{decimal, decimal_string};

verus! {

/// How many public inputs a proof of this circuit carries.
pub const PUBLIC_INPUT_COUNT: usize = 1;

/// The multiplication circuit, with or without values for its private
/// variables. Without values it only fixes the shape that keys are
/// generated for; with both values it is a statement that can be proved.
#[derive(Debug, Clone, Copy)]
pub struct MultiplyCircuit {
    pub a: Option<u64>,
    pub b: Option<u64>,
}

/// The relation itself: `c` is the product of `a` and `b`.
pub open spec fn product_relation(a: nat, b: nat, c: nat) -> bool {
    c == a * b
}

impl MultiplyCircuit {
    /// Whether both private variables have a value.
    pub open spec fn has_witness(&self) -> bool {
        self.a is Some && self.b is Some
    }

    /// The public output that the witness implies.
    pub open spec fn spec_public_output(&self) -> Option<nat> {
        if self.has_witness() {
            Some(self.a->0 as nat * self.b->0 as nat)
        } else {
            None
        }
    }

    /// The circuit without values, as key generation takes it.
    pub fn shape() -> (circuit: MultiplyCircuit)
        ensures
            circuit.a is None,
            circuit.b is None,
    {
        MultiplyCircuit { a: None, b: None }
    }

    /// The circuit with both private variables assigned.
    pub fn with_witness(a: u64, b: u64) -> (circuit: MultiplyCircuit)
        ensures
            circuit.a == Some(a),
            circuit.b == Some(b),
    {
        MultiplyCircuit { a: Some(a), b: Some(b) }
    }

    /// The product of the two factors, where both are assigned.
    pub fn public_output(&self) -> (c: Option<u128>)
        ensures
            c is Some <==> self.has_witness(),
            c matches Some(c) ==> self.spec_public_output() == Some(c as nat),
    {
        match (self.a, self.b) {
            (Some(a), Some(b)) => Some(product(a, b)),
            _ => None,
        }
    }

    /// Whether the witness satisfies the circuit for the public input `c`:
    /// it does exactly when `c` is the product of the factors.
    pub fn is_satisfied_by(&self, c: u128) -> (ok: bool)
        ensures
            ok <==> self.has_witness() && product_relation(
                self.a->0 as nat,
                self.b->0 as nat,
                c as nat,
            ),
    {
        match self.public_output() {
            Some(expected) => expected == c,
            None => false,
        }
    }
}

/// The product of two factors. It always fits: the factors have sixty-four
/// bits each.
pub fn product(a: u64, b: u64) -> (c: u128)
    ensures
        c == a as nat * b as nat,
{
    assert(a as nat * b as nat <= 0xffff_ffff_ffff_ffff * 0xffff_ffff_ffff_ffff) by (nonlinear_arith)
        requires
            a <= 0xffff_ffff_ffff_ffff,
            b <= 0xffff_ffff_ffff_ffff,
    ;
    (a as u128) * (b as u128)
}

/// The public input of a proof that `a` and `b` are known: the decimal
/// numeral of their product.
pub fn public_input(a: u64, b: u64) -> (numeral: String)
    ensures
        numeral@ == decimal(a as nat * b as nat),
{
    decimal_string(product(a, b))
}

} // verus!
