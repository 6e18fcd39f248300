use vstd::prelude::*;
use crate::stack::OperandStack;
use crate::token::Operator;

verus! {

/// Why applying an operator failed.
#[derive(PartialEq, Eq, Structural, Clone, Copy, Debug)]
pub enum OperatorError {
    DivideByZero,
    ModuloByZero,
    NotEnoughOperands,
}

/// One arithmetic step on concrete operands: `a` was below `b` on the stack.
#[derive(PartialEq, Eq, Structural, Clone, Copy, Debug)]
pub enum Operation<T> {
    Negate(T),
    Add(T, T),
    Subtract(T, T),
    Multiply(T, T),
    Divide(T, T),
    Remainder(T, T),
}

/// Whether `op` has enough operands on a stack of `n` elements.
pub open spec fn has_operands(op: Operator, n: nat) -> bool {
    match op {
        Operator::Subtract => n >= 1,
        _ => n >= 2,
    }
}

/// How many operands `op` consumes from a stack of `n` elements.
pub open spec fn operand_count(op: Operator, n: nat) -> nat {
    if op == Operator::Subtract && n == 1 {
        1
    } else {
        2
    }
}

/// The error that `op` reports on a zero divisor, for the operators that
/// guard against one.
pub open spec fn zero_error(op: Operator) -> Option<OperatorError> {
    match op {
        Operator::Divide => Some(OperatorError::DivideByZero),
        Operator::Modulo => Some(OperatorError::ModuloByZero),
        _ => None,
    }
}

/// The arithmetic step that `op` performs on stack `s`: `b` is the top,
/// `a` the element below it.
pub open spec fn operation_on<T>(op: Operator, s: Seq<T>) -> Operation<T>
    recommends
        has_operands(op, s.len()),
{
    let b = s.last();
    let a = s[s.len() - 2];
    match op {
        Operator::Add => Operation::Add(a, b),
        Operator::Subtract => if s.len() == 1 {
            Operation::Negate(b)
        } else {
            Operation::Subtract(a, b)
        },
        Operator::Multiply => Operation::Multiply(a, b),
        Operator::Divide => Operation::Divide(a, b),
        Operator::Modulo => Operation::Remainder(a, b),
    }
}

/// The stack after `op` consumed its operands from `s` and pushed `v`.
pub open spec fn replaced<T>(op: Operator, s: Seq<T>, v: T) -> Seq<T> {
    s.take(s.len() - operand_count(op, s.len())).push(v)
}

/// Whether applying `op` to stack `s` may give result `r` and leave stack
/// `s2`, where `is_zero` and `eval` answer as their `ensures` allow.
pub open spec fn applies<T, Z: Fn(T) -> bool, E: Fn(Operation<T>) -> T>(
    op: Operator,
    is_zero: Z,
    eval: E,
    s: Seq<T>,
    r: Result<T, OperatorError>,
    s2: Seq<T>,
) -> bool {
    if !has_operands(op, s.len()) {
        r == Err::<T, OperatorError>(OperatorError::NotEnoughOperands) && s2 == s
    } else {
        match r {
            Ok(v) => {
                &&& eval.ensures((operation_on(op, s),), v)
                &&& s2 == replaced(op, s, v)
                &&& zero_error(op) is Some ==> is_zero.ensures((s.last(),), false)
            },
            Err(e) => {
                &&& zero_error(op) == Some(e)
                &&& is_zero.ensures((s.last(),), true)
                &&& s2 == s
            },
        }
    }
}

impl Operator {
    /// Applies the operator to `stack`.
    ///
    /// `is_zero` tells whether a divisor is zero and `eval` performs one
    /// arithmetic step; both are asked only about operands taken from the
    /// stack. With too few operands the stack is left untouched and
    /// `NotEnoughOperands` returned. Divide and Modulo with a zero divisor
    /// leave the stack exactly as it was and report the matching error.
    /// Otherwise the operands are consumed, the result pushed and returned.
    pub fn apply<T: Copy, Z: Fn(T) -> bool, E: Fn(Operation<T>) -> T>(
        &self,
        stack: &mut OperandStack<T>,
        is_zero: Z,
        eval: E,
    ) -> (r: Result<T, OperatorError>)
        requires
            forall|x: T| is_zero.requires((x,)),
            forall|o: Operation<T>| eval.requires((o,)),
        ensures
            applies(*self, is_zero, eval, old(stack)@, r, final(stack)@),
    {
        let ghost s = stack@;
        let n = stack.len();
        if n == 0 || (n == 1 && *self != Operator::Subtract) {
            return Err(OperatorError::NotEnoughOperands);
        }
        let b = stack.pop().unwrap();
        if n == 1 {
            let v = eval(Operation::Negate(b));
            stack.push(v);
            assert(stack@ =~= replaced(*self, s, v));
            return Ok(v);
        }
        let a = stack.pop().unwrap();
        let operation = match self {
            Operator::Add => Operation::Add(a, b),
            Operator::Subtract => Operation::Subtract(a, b),
            Operator::Multiply => Operation::Multiply(a, b),
            Operator::Divide => Operation::Divide(a, b),
            Operator::Modulo => Operation::Remainder(a, b),
        };
        let guarded = match self {
            Operator::Divide => Some(OperatorError::DivideByZero),
            Operator::Modulo => Some(OperatorError::ModuloByZero),
            _ => None,
        };
        if let Some(e) = guarded {
            if is_zero(b) {
                stack.push(a);
                stack.push(b);
                assert(stack@ =~= s);
                return Err(e);
            }
        }
        let v = eval(operation);
        stack.push(v);
        assert(stack@ =~= replaced(*self, s, v));
        Ok(v)
    }
}

} // verus!
