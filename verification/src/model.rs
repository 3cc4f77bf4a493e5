//! The calculator: its state, the mathematical model of that state, and the
//! operations that a user's key presses stand for.

use vstd::prelude::*;
use crate::arith::{saturate, saturating_add, saturating_div, saturating_mul, saturating_sub, trunc_div};

verus! {

/// One of the four binary operators.
#[derive(Debug, Clone, Copy, PartialEq, Eq, Structural)]
pub enum Operator {
    Add,
    Sub,
    Mul,
    Div,
}

/// A binary operation that waits for its right-hand operand: the operator
/// and the left-hand operand captured when the operator was selected.
#[derive(Debug, Clone, Copy)]
pub enum Operation {
    Add(i32),
    Sub(i32),
    Mul(i32),
    Div(i32),
}

impl Operation {
    /// The operation of `operator` on the left-hand operand `held`.
    pub open spec fn of(operator: Operator, held: i32) -> Operation {
        match operator {
            Operator::Add => Operation::Add(held),
            Operator::Sub => Operation::Sub(held),
            Operator::Mul => Operation::Mul(held),
            Operator::Div => Operation::Div(held),
        }
    }

    /// The left-hand operand.
    pub open spec fn held(self) -> i32 {
        match self {
            Operation::Add(number) => number,
            Operation::Sub(number) => number,
            Operation::Mul(number) => number,
            Operation::Div(number) => number,
        }
    }

    /// The value of the operation on the right-hand operand `rhs`.
    ///
    /// Results saturate at the ends of the `i32` range; division rounds
    /// toward zero, and division by zero gives zero.
    pub open spec fn apply(self, rhs: i32) -> i32 {
        match self {
            Operation::Add(lhs) => saturate(lhs + rhs),
            Operation::Sub(lhs) => saturate(lhs - rhs),
            Operation::Mul(lhs) => saturate(lhs * rhs),
            Operation::Div(lhs) => if rhs == 0 {
                0
            } else {
                saturate(trunc_div(lhs as int, rhs as int))
            },
        }
    }

    /// Builds the operation of `operator` on the left-hand operand `held`.
    pub fn new(operator: Operator, held: i32) -> (op: Operation)
        ensures
            op == Operation::of(operator, held),
    {
        match operator {
            Operator::Add => Operation::Add(held),
            Operator::Sub => Operation::Sub(held),
            Operator::Mul => Operation::Mul(held),
            Operator::Div => Operation::Div(held),
        }
    }

    /// Apply this operation to two numbers, returning a result.
    pub fn calculate(self, number2: i32) -> (result: i32)
        ensures
            result == self.apply(number2),
    {
        match self {
            Operation::Add(number1) => saturating_add(number1, number2),
            Operation::Sub(number1) => saturating_sub(number1, number2),
            Operation::Mul(number1) => saturating_mul(number1, number2),
            Operation::Div(number1) => if number2 == 0 {
                0
            } else {
                saturating_div(number1, number2)
            },
        }
    }

    /// Returns the first number held by this operation.
    pub fn held_number(self) -> (number: i32)
        ensures
            number == self.held(),
    {
        match self {
            Operation::Add(number) => number,
            Operation::Sub(number) => number,
            Operation::Mul(number) => number,
            Operation::Div(number) => number,
        }
    }
}

/// The mathematical model of a calculator.
pub struct CalculatorView {
    /// The number being typed or last computed; `None` right after an
    /// operator was selected, while the previous number rests in `pending`.
    pub entry: Option<i32>,
    /// The operation that waits for its right-hand operand, if any.
    pub pending: Option<Operation>,
}

impl CalculatorView {
    /// The state of a fresh or cleared calculator: zero, nothing pending.
    pub open spec fn initial() -> CalculatorView {
        CalculatorView { entry: Some(0i32), pending: None }
    }

    /// Some number is there to show: an entry or a held operand.
    pub open spec fn well_formed(self) -> bool {
        self.entry is Some || self.pending is Some
    }

    /// The entry, read as zero where there is none.
    pub open spec fn operand(self) -> i32 {
        match self.entry {
            Some(number) => number,
            None => 0,
        }
    }

    /// The number to show: the entry if there is one, else the operand held
    /// by the pending operation, else zero.
    pub open spec fn display(self) -> i32 {
        match self.entry {
            Some(number) => number,
            None => match self.pending {
                Some(op) => op.held(),
                None => 0,
            },
        }
    }

    /// The state after the digit `digit` is typed.
    pub open spec fn with_digit(self, digit: u8) -> CalculatorView {
        CalculatorView {
            entry: Some(saturate(saturate(self.operand() * 10) + digit)),
            pending: self.pending,
        }
    }

    /// The state after the digits of `digits` are typed, first to last.
    pub open spec fn with_digits(self, digits: Seq<u8>) -> CalculatorView
        decreases digits.len(),
    {
        if digits.len() == 0 {
            self
        } else {
            self.with_digits(digits.drop_last()).with_digit(digits.last())
        }
    }

    /// The state after the pending operation, if any, is applied to the entry.
    pub open spec fn evaluated(self) -> CalculatorView {
        match self.pending {
            Some(op) => CalculatorView { entry: Some(op.apply(self.operand())), pending: None },
            None => self,
        }
    }

    /// The state after `count` evaluations in a row.
    pub open spec fn evaluated_times(self, count: nat) -> CalculatorView
        decreases count,
    {
        if count == 0 {
            self
        } else {
            self.evaluated_times((count - 1) as nat).evaluated()
        }
    }

    /// The state after `operator` is selected: what was pending is evaluated,
    /// and its result becomes the left-hand operand of the new operation.
    pub open spec fn selected(self, operator: Operator) -> CalculatorView {
        CalculatorView {
            entry: None,
            pending: Some(Operation::of(operator, self.evaluated().operand())),
        }
    }
}

/// The calculator's state.
pub struct Calculator {
    /// 'number: None' means we just made an operation with the previous number.
    /// The previous number would then be held in 'op'.
    number: Option<i32>,
    op: Option<Operation>,
}

impl View for Calculator {
    type V = CalculatorView;

    closed spec fn view(&self) -> CalculatorView {
        CalculatorView { entry: self.number, pending: self.op }
    }
}

impl Default for Calculator {
    fn default() -> (calculator: Self)
        ensures
            calculator@ == CalculatorView::initial(),
    {
        Self { number: Some(0), op: None }
    }
}

impl Calculator {
    #[verifier::type_invariant]
    spec fn has_number(self) -> bool {
        self@.well_formed()
    }

    /// Creates a new calculator with the value 0.
    pub fn new() -> (calculator: Self)
        ensures
            calculator@ == CalculatorView::initial(),
    {
        Self { number: Some(0), op: None }
    }

    /// Returns the number to display.
    /// Usually corresponds to the entry.
    /// However, after using an operation, this will correspond
    /// to the _previous_ number, stored in the operation object itself.
    pub fn get_number(&self) -> (number: i32)
        ensures
            number == self@.display(),
            self@.well_formed(),
    {
        proof {
            use_type_invariant(self);
        }
        match self.number {
            Some(number) => number,
            None => match self.op {
                Some(op) => op.held_number(),
                None => 0,
            },
        }
    }

    /// Adds a digit to the currently displayed number.
    pub fn add_digit(&mut self, digit: u8)
        requires
            digit < 10,
        ensures
            final(self)@ == old(self)@.with_digit(digit),
            final(self)@.well_formed(),
    {
        let shifted: i32 = saturating_mul(self.number.unwrap_or(0), 10);
        self.number = Some(saturating_add(shifted, digit as i32));
    }

    /// Clears the calculator's current state, setting its number to zero
    /// and removing pending operations.
    pub fn clear(&mut self)
        ensures
            final(self)@ == CalculatorView::initial(),
            final(self)@.display() == 0,
            final(self)@.pending is None,
    {
        self.number = Some(0);
        self.op = None;
    }

    /// If possible, applies the select operation between the two numbers.
    pub fn calculate(&mut self)
        ensures
            final(self)@ == old(self)@.evaluated(),
            old(self)@.pending is None ==> final(self)@ == old(self)@,
            final(self)@.well_formed(),
    {
        proof {
            use_type_invariant(&*self);
        }
        match self.op {
            Some(op) => {
                self.number = Some(op.calculate(self.number.unwrap_or(0)));
                self.op = None;
            },
            None => {},
        }
    }

    /// Selects `operator`: evaluates what is pending, then holds the result
    /// as the left-hand operand of the new operation and empties the entry.
    pub fn select_operator(&mut self, operator: Operator)
        ensures
            final(self)@ == old(self)@.selected(operator),
            final(self)@.well_formed(),
    {
        self.calculate();
        let lhs: i32 = self.number.unwrap_or(0);
        self.op = Some(Operation::new(operator, lhs));
        self.number = None;
    }

    /// Executes the 'add' operation.
    pub fn add(&mut self)
        ensures
            final(self)@ == old(self)@.selected(Operator::Add),
            final(self)@.well_formed(),
    {
        self.select_operator(Operator::Add);
    }

    /// Executes the 'sub' operation.
    pub fn sub(&mut self)
        ensures
            final(self)@ == old(self)@.selected(Operator::Sub),
            final(self)@.well_formed(),
    {
        self.select_operator(Operator::Sub);
    }

    /// Executes the 'mul' operation.
    pub fn mul(&mut self)
        ensures
            final(self)@ == old(self)@.selected(Operator::Mul),
            final(self)@.well_formed(),
    {
        self.select_operator(Operator::Mul);
    }

    /// Executes the 'div' operation.
    pub fn div(&mut self)
        ensures
            final(self)@ == old(self)@.selected(Operator::Div),
            final(self)@.well_formed(),
    {
        self.select_operator(Operator::Div);
    }
}

} // verus!
