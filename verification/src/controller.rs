//! The bridge between a user interface and the calculator: one call for each
//! input event, each handing back the number that the display must show.

use vstd::prelude::*;
use crate::model::{Calculator, CalculatorView, Operator};

verus! {

/// Bridges the view and the model.
pub struct Controller {
    state: Calculator,
}

impl View for Controller {
    type V = CalculatorView;

    closed spec fn view(&self) -> CalculatorView {
        self.state@
    }
}

impl Controller {
    /// A controller over a fresh calculator.
    pub fn new() -> (controller: Self)
        ensures
            controller@ == CalculatorView::initial(),
    {
        Self { state: Calculator::new() }
    }

    /// The number that the view must show now.
    pub fn number(&self) -> (shown: i32)
        ensures
            shown == self@.display(),
            self@.well_formed(),
    {
        self.state.get_number()
    }

    /// Adds a digit to the end of the displayed number.
    pub fn add_digit(&mut self, digit: u8) -> (shown: i32)
        requires
            digit < 10,
        ensures
            final(self)@ == old(self)@.with_digit(digit),
            shown == final(self)@.display(),
    {
        self.state.add_digit(digit);
        self.number()
    }

    /// Clears the calculator's state.
    pub fn op_clear(&mut self) -> (shown: i32)
        ensures
            final(self)@ == CalculatorView::initial(),
            shown == 0,
    {
        self.state.clear();
        self.number()
    }

    /// Attempts to add two numbers.
    pub fn op_add(&mut self) -> (shown: i32)
        ensures
            final(self)@ == old(self)@.selected(Operator::Add),
            shown == final(self)@.display(),
    {
        self.state.add();
        self.number()
    }

    /// Attempts to subtract two numbers.
    pub fn op_sub(&mut self) -> (shown: i32)
        ensures
            final(self)@ == old(self)@.selected(Operator::Sub),
            shown == final(self)@.display(),
    {
        self.state.sub();
        self.number()
    }

    /// Attempts to multiply two numbers.
    pub fn op_mul(&mut self) -> (shown: i32)
        ensures
            final(self)@ == old(self)@.selected(Operator::Mul),
            shown == final(self)@.display(),
    {
        self.state.mul();
        self.number()
    }

    /// Attempts to divide two numbers.
    pub fn op_div(&mut self) -> (shown: i32)
        ensures
            final(self)@ == old(self)@.selected(Operator::Div),
            shown == final(self)@.display(),
    {
        self.state.div();
        self.number()
    }

    /// Attempts to evaluate the current operation.
    pub fn op_eval(&mut self) -> (shown: i32)
        ensures
            final(self)@ == old(self)@.evaluated(),
            shown == final(self)@.display(),
    {
        self.state.calculate();
        self.number()
    }
}

} // verus!
