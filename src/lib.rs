//! A Reverse Polish Notation evaluation engine: an operand stack, a token
//! classifier and an operator dispatcher with exact failure semantics.
//!
//! The engine is generic over the number type. What is specific to the
//! number representation (testing a divisor for zero and performing the
//! arithmetic itself) is handed in by the caller, and every contract is
//! stated relative to what those functions return.
pub mod operator;
pub mod session;
pub mod stack;
pub mod token;

