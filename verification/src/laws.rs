//! General facts about the calculator's model, each proved for every state
//! and every input that its statement admits.

use vstd::prelude::*;
use crate::arith::saturate;
use crate::model::{CalculatorView, Operation, Operator};

verus! {

/// Every element of `digits` is a decimal digit.
pub open spec fn is_digits(digits: Seq<u8>) -> bool {
    forall|i: int| 0 <= i < digits.len() ==> digits[i] < 10
}

/// The number that `digits` writes in base 10, most significant digit first.
pub open spec fn digits_value(digits: Seq<u8>) -> nat
    decreases digits.len(),
{
    if digits.len() == 0 {
        0
    } else {
        digits_value(digits.drop_last()) * 10 + digits.last() as nat
    }
}

/// Typing digits onto an empty or zero entry leaves the number that the
/// digits write in base 10, saturated, and does not touch what is pending.
pub proof fn lemma_typed_operand(state: CalculatorView, digits: Seq<u8>)
    requires
        is_digits(digits),
        state.operand() == 0,
    ensures
        state.with_digits(digits).operand() == saturate(digits_value(digits) as int),
        state.with_digits(digits).pending == state.pending,
        digits.len() > 0 ==> state.with_digits(digits).entry is Some,
        digits.len() == 0 ==> state.with_digits(digits) == state,
    decreases digits.len(),
{
    if digits.len() > 0 {
        let front = digits.drop_last();
        assert(is_digits(front)) by {
            assert forall|i: int| 0 <= i < front.len() implies front[i] < 10 by {
                assert(front[i] == digits[i]);
            }
        }
        assert(digits.last() == digits[digits.len() - 1]);
        lemma_typed_operand(state, front);
    }
}

/// After a clear, the display shows the number that the typed digits write
/// in base 10, saturated to the range of `i32`.
pub proof fn law_typed_digits_are_displayed(digits: Seq<u8>)
    requires
        is_digits(digits),
    ensures
        CalculatorView::initial().with_digits(digits).display() == saturate(
            digits_value(digits) as int,
        ),
{
    lemma_typed_operand(CalculatorView::initial(), digits);
}

/// A cleared calculator shows zero and has nothing pending; evaluating it
/// changes nothing.
pub proof fn law_cleared_state()
    ensures
        CalculatorView::initial().display() == 0,
        CalculatorView::initial().pending is None,
        CalculatorView::initial().well_formed(),
        CalculatorView::initial().evaluated() == CalculatorView::initial(),
{
}

/// Typing `a`, selecting a first operator, typing `b`, selecting a second
/// operator, typing `c` and evaluating applies the first operator to `a` and
/// `b`, then the second to that result and `c`: operators chain from left to
/// right, with no precedence among them.
pub proof fn law_chaining(
    first: Operator,
    second: Operator,
    a: Seq<u8>,
    b: Seq<u8>,
    c: Seq<u8>,
)
    requires
        is_digits(a),
        is_digits(b),
        is_digits(c),
    ensures
        CalculatorView::initial().with_digits(a).selected(first).with_digits(b).selected(
            second,
        ).with_digits(c).evaluated().display() == Operation::of(
            second,
            Operation::of(first, saturate(digits_value(a) as int)).apply(
                saturate(digits_value(b) as int),
            ),
        ).apply(saturate(digits_value(c) as int)),
{
    let typed_a = CalculatorView::initial().with_digits(a);
    lemma_typed_operand(CalculatorView::initial(), a);
    let typed_b = typed_a.selected(first).with_digits(b);
    lemma_typed_operand(typed_a.selected(first), b);
    lemma_typed_operand(typed_b.selected(second), c);
}

/// Typing `a`, selecting addition, typing `b`, selecting multiplication,
/// typing `c` and evaluating shows the saturated sum of `a` and `b`
/// multiplied, saturating, by `c`.
pub proof fn law_add_then_mul(a: Seq<u8>, b: Seq<u8>, c: Seq<u8>)
    requires
        is_digits(a),
        is_digits(b),
        is_digits(c),
    ensures
        CalculatorView::initial().with_digits(a).selected(Operator::Add).with_digits(b).selected(
            Operator::Mul,
        ).with_digits(c).evaluated().display() == saturate(
            saturate(saturate(digits_value(a) as int) + saturate(digits_value(b) as int))
                * saturate(digits_value(c) as int),
        ),
{
    law_chaining(Operator::Add, Operator::Mul, a, b, c);
}

/// Dividing by zero shows zero: whatever was entered before, selecting
/// division, typing a number whose value is zero (or none at all) and
/// evaluating leaves zero on the display.
pub proof fn law_divide_by_zero(state: CalculatorView, zeros: Seq<u8>)
    requires
        is_digits(zeros),
        digits_value(zeros) == 0,
    ensures
        state.selected(Operator::Div).with_digits(zeros).evaluated().display() == 0,
        state.selected(Operator::Div).with_digit(0).evaluated().display() == 0,
{
    lemma_typed_operand(state.selected(Operator::Div), zeros);
}

/// Evaluating with nothing pending changes neither the state nor the
/// display, however often it is repeated.
pub proof fn law_evaluate_nothing_pending(state: CalculatorView, count: nat)
    requires
        state.pending is None,
    ensures
        state.evaluated() == state,
        state.evaluated_times(count) == state,
        state.evaluated_times(count).display() == state.display(),
    decreases count,
{
    if count > 0 {
        law_evaluate_nothing_pending(state, (count - 1) as nat);
    }
}

/// Evaluating leaves nothing pending, so a second evaluation in a row
/// changes nothing.
pub proof fn law_evaluate_idempotent(state: CalculatorView)
    ensures
        state.evaluated().pending is None,
        state.evaluated().evaluated() == state.evaluated(),
{
}

/// Every operation keeps a number to show: from a state with an entry or a
/// pending operation, each step leads to such a state again.
pub proof fn law_steps_keep_a_number(state: CalculatorView, digit: u8, operator: Operator)
    requires
        state.well_formed(),
    ensures
        state.with_digit(digit).well_formed(),
        state.evaluated().well_formed(),
        state.selected(operator).well_formed(),
        state.selected(operator).display() == state.evaluated().display(),
{
}

} // verus!
