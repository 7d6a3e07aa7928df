//! Ding's reconciliation technique: two parties holding close, noisy values of
//! the same underlying integer agree on a single shared bit.
//!
//! Three pure operations over a modulus `q` (intended to be an odd prime):
//! computing a one-bit rounding *hint* from a party's value, mapping residues
//! into a balanced signed representation, and *extracting* the agreed bit from
//! a value together with a hint.

use vstd::prelude::*;

verus! {

/// Quartile bound used by the hint: `(q - 1) / 4`.
pub open spec fn hint_threshold(q: int) -> int {
    (q - 1) / 4
}

/// The hint for value `x` under modulus `q`: 0 when `x` lies strictly inside
/// the central band `(-(q-1)/4, (q-1)/4)`, 1 otherwise.
pub open spec fn hint_spec(x: int, q: int) -> int {
    if -hint_threshold(q) < x && x < hint_threshold(q) {
        0
    } else {
        1
    }
}

/// Computes the reconciliation hint for `x` under modulus `q`: 0 when `x`
/// falls in the central band nearest zero, 1 in the outer quartiles.
pub fn ding_hint(x: i32, q: i32) -> (r: i32)
    requires
        1 <= q,
    ensures
        r == hint_spec(x as int, q as int),
        r == 0 || r == 1,
{
    let upper_bound: i32 = (q - 1) / 4;
    let lower_bound: i32 = -upper_bound;

    if x < upper_bound && x > lower_bound {
        return 0;
    }

    1
}

/// The balanced representative of residue `i` modulo `q`: `i` itself for the
/// lower half of the residue range, `i - q` (negative) for the upper half.
pub open spec fn balanced_spec(i: int, q: int) -> int {
    if i <= (q - 1) / 2 {
        i
    } else {
        i - q
    }
}

/// Builds the lookup table that maps each residue `0..q` to its balanced
/// signed representative in `(-q/2, q/2]`. Index 0 holds 0; each index `i` in
/// the lower half of `1..q` holds `i`, and each index in the upper half holds
/// `i - q`.
///
/// `q` is intended to be an odd prime; oddness is the one part of that
/// precondition the halving of `1..q` actually needs, so it is required here.
pub fn convert_to_q_over_2(q: i32) -> (res: Vec<i32>)
    requires
        1 <= q,
        q % 2 == 1,
    ensures
        res@.len() == q,
        forall|i: int| 0 <= i < q ==> #[trigger] res@[i] == balanced_spec(i, q as int),
{
    let half: i32 = (q - 1) / 2;
    let mut table: Vec<i32> = Vec::new();
    table.push(0);

    let mut v: i32 = 1;
    while v < q
        invariant
            1 <= v <= q,
            half == (q - 1) / 2,
            table@.len() == v,
            forall|j: int| 0 <= j < v ==> #[trigger] table@[j] == balanced_spec(j, q as int),
        decreases q - v,
    {
        if v <= half {
            // the lower half sits on the positive side of q/2
            table.push(v);
        } else {
            // the upper half sits on the negative side of q/2
            table.push(v - q);
        }
        v = v + 1;
    }

    table
}

/// The rounding offset selected by a hint: `hint * (q - 1) / 2`.
pub open spec fn signal_spec(hint: int, q: int) -> int {
    hint * (q - 1) / 2
}

/// The reconciled bit for value `x` under hint `hint` and modulus `q`:
/// `x` shifted by the mod-`q` reduction of the signal, reduced modulo 2.
/// Both remainders are Euclidean, so the result is always 0 or 1.
pub open spec fn extract_spec(x: int, hint: int, q: int) -> int {
    (x + signal_spec(hint, q) % q) % 2
}

/// Extracts the reconciled bit from `x` and a hint under modulus `q`.
///
/// The remainders are normalized to be non-negative (floored modulo), so the
/// result is always 0 or 1, also for negative `x`.
pub fn extract(x: i32, hint: i32, q: i32) -> (r: i32)
    requires
        1 <= q,
        hint == 0 || hint == 1,
        x + (q - 1) / 2 <= i32::MAX,
    ensures
        r == extract_spec(x as int, hint as int, q as int),
        r == 0 || r == 1,
{
    let signal: i32 = hint * (q - 1) / 2;
    proof {
        if hint == 0 {
            assert(signal == 0);
        } else {
            assert(hint * (q - 1) == q - 1);
            assert(signal == (q - 1) / 2);
        }
        assert(signal % q == signal) by {
            vstd::arithmetic::div_mod::lemma_small_mod(signal as nat, q as nat);
        }
    }
    let shifted: i32 = x + signal % q;
    let m: i32 = shifted % 2;
    if m < 0 {
        m + 2
    } else {
        m
    }
}

/// Table invariant: every balanced representative is congruent to its residue
/// modulo `q`, and lies in the symmetric range `(-q/2, q/2]` — stated over the
/// integers as `-q < 2 * b <= q`.
pub proof fn lemma_balanced_residue_invariant(i: int, q: int)
    requires
        1 <= q,
        q % 2 == 1,
        0 <= i < q,
    ensures
        balanced_spec(i, q) % q == i % q,
        -q < 2 * balanced_spec(i, q) <= q,
{
    vstd::arithmetic::div_mod::lemma_fundamental_div_mod(q - 1, 2);
    vstd::arithmetic::div_mod::lemma_sub_mod_noop(q, 1, 2);
    assert(2 * ((q - 1) / 2) == q - 1);
    if i <= (q - 1) / 2 {
        assert(balanced_spec(i, q) == i);
    } else {
        vstd::arithmetic::div_mod::lemma_mod_sub_multiples_vanish(i, q);
        assert(balanced_spec(i, q) == i - q);
    }
}

/// Reconciliation law: two values of the same parity extract to the same bit
/// under the same hint, whichever party's value produced that hint.
pub proof fn lemma_reconcile_same_parity(x: int, y: int, hint: int, q: int)
    requires
        1 <= q,
        (x - y) % 2 == 0,
    ensures
        extract_spec(x, hint, q) == extract_spec(y, hint, q),
{
    let s: int = signal_spec(hint, q) % q;
    vstd::arithmetic::div_mod::lemma_mod_equivalence(x, y, 2);
    vstd::arithmetic::div_mod::lemma_add_mod_noop(x, s, 2);
    vstd::arithmetic::div_mod::lemma_add_mod_noop(y, s, 2);
}

/// Determinism of the hint: its contract pins the result to a function of the
/// arguments alone, so repeated calls with identical arguments return
/// identical results.
pub proof fn lemma_hint_deterministic(x: int, q: int, r1: int, r2: int)
    requires
        r1 == hint_spec(x, q),
        r2 == hint_spec(x, q),
    ensures
        r1 == r2,
{
}

/// Determinism of the table: any two sequences meeting the contract of
/// `convert_to_q_over_2` for the same modulus are equal.
pub proof fn lemma_table_deterministic(q: int, t1: Seq<i32>, t2: Seq<i32>)
    requires
        t1.len() == q,
        t2.len() == q,
        forall|i: int| 0 <= i < q ==> #[trigger] t1[i] == balanced_spec(i, q),
        forall|i: int| 0 <= i < q ==> #[trigger] t2[i] == balanced_spec(i, q),
    ensures
        t1 == t2,
{
    assert(t1 =~= t2);
}

} // verus!
