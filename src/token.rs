use vstd::prelude::*;
use vstd::string::StrSliceExecFns;

verus! {

/// Application-level commands, distinct from arithmetic operators.
#[derive(PartialEq, Eq, Structural, Clone, Copy, Debug)]
pub enum Commands {
    Quit,
    Pop,
    Show,
    Clear,
    Help,
}

/// The arithmetic operators that act on the operand stack.
#[derive(PartialEq, Eq, Structural, Clone, Copy, Debug)]
pub enum Operator {
    Add,
    Subtract,
    Multiply,
    Divide,
    Modulo,
}

/// What one trimmed input token stands for.
#[derive(PartialEq, Eq, Structural, Clone, Copy, Debug)]
pub enum Token<T> {
    Command(Commands),
    Operator(Operator),
    Number(T),
    Invalid,
}

/// The command spelled by exactly the text `t`, if any.
pub open spec fn command_of(t: Seq<char>) -> Option<Commands> {
    if t == seq!['q'] {
        Some(Commands::Quit)
    } else if t == seq!['p'] {
        Some(Commands::Pop)
    } else if t == seq!['c'] {
        Some(Commands::Clear)
    } else if t == seq!['s'] {
        Some(Commands::Show)
    } else if t == seq!['?'] {
        Some(Commands::Help)
    } else {
        None
    }
}

/// The operator spelled by exactly the text `t`, if any.
pub open spec fn operator_of(t: Seq<char>) -> Option<Operator> {
    if t == seq!['+'] {
        Some(Operator::Add)
    } else if t == seq!['-'] {
        Some(Operator::Subtract)
    } else if t == seq!['*'] {
        Some(Operator::Multiply)
    } else if t == seq!['/'] {
        Some(Operator::Divide)
    } else if t == seq!['%'] {
        Some(Operator::Modulo)
    } else {
        None
    }
}

/// Classification of the token `t` by priority: command, then operator,
/// then number (`number` is what reading `t` as a number gave), else invalid.
pub open spec fn token_of<T>(t: Seq<char>, number: Option<T>) -> Token<T> {
    if command_of(t) is Some {
        Token::Command(command_of(t)->0)
    } else if operator_of(t) is Some {
        Token::Operator(operator_of(t)->0)
    } else if number is Some {
        Token::Number(number->0)
    } else {
        Token::Invalid
    }
}

/// The text with leading and trailing whitespace removed, as `str::trim` gives it.
pub uninterp spec fn trimmed(s: Seq<char>) -> Seq<char>;

/// Relies on `str::trim`: the result is the input without surrounding
/// whitespace, and depends on the characters alone.
#[verifier::external_body]
fn trim(s: &str) -> (r: &str)
    ensures
        r@ == trimmed(s@),
{
    s.trim()
}

/// The single character of `t`, when `t` has exactly one.
fn single_char(t: &str) -> (r: Option<char>)
    ensures
        r == (if t@.len() == 1 { Some(t@[0]) } else { None::<char> }),
{
    if t.unicode_len() == 1 {
        Some(t.get_char(0))
    } else {
        None
    }
}

/// Looks up the command spelled by the already trimmed token `t`.
pub fn command_of_token(t: &str) -> (r: Option<Commands>)
    ensures
        r == command_of(t@),
{
    match single_char(t) {
        Some(c) => {
            assert(t@ == seq![c]);
            match c {
                'q' => Some(Commands::Quit),
                'p' => Some(Commands::Pop),
                'c' => Some(Commands::Clear),
                's' => Some(Commands::Show),
                '?' => Some(Commands::Help),
                _ => None,
            }
        },
        None => {
            assert(t@.len() != 1);
            None
        },
    }
}

/// Looks up the operator spelled by the already trimmed token `t`.
pub fn operator_of_token(t: &str) -> (r: Option<Operator>)
    ensures
        r == operator_of(t@),
{
    match single_char(t) {
        Some(c) => {
            assert(t@ == seq![c]);
            match c {
                '+' => Some(Operator::Add),
                '-' => Some(Operator::Subtract),
                '*' => Some(Operator::Multiply),
                '/' => Some(Operator::Divide),
                '%' => Some(Operator::Modulo),
                _ => None,
            }
        },
        None => {
            assert(t@.len() != 1);
            None
        },
    }
}

/// Looks up the command spelled by `s`, ignoring surrounding whitespace.
pub fn try_get_command(s: &str) -> (r: Option<Commands>)
    ensures
        r == command_of(trimmed(s@)),
{
    command_of_token(trim(s))
}

/// Looks up the operator spelled by `s`, ignoring surrounding whitespace.
pub fn try_get_operator(s: &str) -> (r: Option<Operator>)
    ensures
        r == operator_of(trimmed(s@)),
{
    operator_of_token(trim(s))
}

/// Classifies the trimmed, non-empty token `t`; `number` is the result of
/// reading `t` as a number (`None` where it does not read as one).
pub fn classify<T: Copy>(t: &str, number: Option<T>) -> (r: Token<T>)
    ensures
        r == token_of(t@, number),
        command_of(t@) is Some ==> r == Token::<T>::Command(command_of(t@)->0),
{
    if let Some(c) = command_of_token(t) {
        Token::Command(c)
    } else if let Some(o) = operator_of_token(t) {
        Token::Operator(o)
    } else if let Some(n) = number {
        Token::Number(n)
    } else {
        Token::Invalid
    }
}

/// A token that spells a command is classified as that command, whatever
/// reading it as a number would give.
pub proof fn lemma_commands_take_priority<T>(t: Seq<char>, number: Option<T>)
    requires
        command_of(t) is Some,
    ensures
        token_of(t, number) == Token::<T>::Command(command_of(t)->0),
        token_of(t, number) !is Operator,
        token_of(t, number) !is Number,
{
}

} // verus!
