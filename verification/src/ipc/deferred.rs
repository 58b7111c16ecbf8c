//! Deferred execution of commands.
//!
//! Each invocation of a command gets a unique identifier, and the invoker accepts only the
//! response that carries its own identifier; responses to other (for example timed out)
//! invocations are dropped.
use vstd::prelude::*;

verus! {

/// A unique identifier for a particular command invocation
#[derive(Clone, Copy, Debug, PartialEq, Eq, Structural)]
pub struct InvocationId(pub u32);

/// Source of invocation identifiers: each invocation takes the next number, wrapping around.
#[derive(Clone, Copy, Debug, PartialEq, Eq, Structural)]
pub struct InvocationCounter {
    /// The identifier the next invocation gets
    pub next: u32,
}

impl InvocationCounter {
    /// A counter whose first identifier is 0.
    pub fn new() -> (r: Self)
        ensures
            r.next == 0,
    {
        InvocationCounter { next: 0 }
    }

    /// Takes the next identifier and advances the counter, wrapping from `u32::MAX` to 0.
    pub fn next_invocation_id(&mut self) -> (r: InvocationId)
        ensures
            r.0 == old(self).next,
            final(self).next == (old(self).next as int + 1) % 0x1_0000_0000,
    {
        let id = self.next;
        self.next = self.next.wrapping_add(1);
        InvocationId(id)
    }
}

/// Fewer than 2^32 invocations in a row all get distinct identifiers.
pub proof fn law_invocation_ids_distinct(start: u32, k1: nat, k2: nat)
    requires
        k1 < k2 < 0x1_0000_0000,
    ensures
        (start as int + k1) % 0x1_0000_0000 != (start as int + k2) % 0x1_0000_0000,
{
    let m: int = 0x1_0000_0000;
    let a = start as int + k1;
    let b = start as int + k2;
    vstd::arithmetic::div_mod::lemma_fundamental_div_mod(a, m);
    vstd::arithmetic::div_mod::lemma_fundamental_div_mod(b, m);
    if a % m == b % m {
        assert((b - a) == m * (b / m - a / m)) by (nonlinear_arith)
            requires a == m * (a / m) + a % m, b == m * (b / m) + b % m, a % m == b % m;
        assert(0 < b - a < m);
        assert(false) by (nonlinear_arith)
            requires b - a == m * (b / m - a / m), 0 < b - a < m, m > 0;
    }
}

/// Accepts a response only when it answers the expected invocation.
pub fn accept_response<R>(expected: InvocationId, response: (R, InvocationId)) -> (r: Option<R>)
    ensures
        r is Some <==> response.1 == expected,
        r matches Some(v) ==> v == response.0,
{
    let (value, id) = response;
    if id == expected {
        Some(value)
    } else {
        None
    }
}

} // verus!
