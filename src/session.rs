use vstd::prelude::*;
use crate::operator::{applies, Operation, OperatorError};
use crate::stack::{top_of, without_top, OperandStack};
use crate::token::{command_of, operator_of, token_of, Commands, Token};

verus! {

/// The fixed help listing of valid operators and commands.
pub const HELP_TEXT: &'static str = "Valid operators: +, -, *, /, %\nValid commands: (q)uit, (p)op, (s)how, (c)lear, ?";

/// What handling one token produced, for the caller to report.
#[derive(PartialEq, Debug)]
pub enum Response<T> {
    /// The session should end.
    Quit,
    /// The top operand was removed, or the stack was empty.
    Popped(Option<T>),
    /// The whole stack, bottom first; the stack is unchanged.
    Shown(Vec<T>),
    /// The whole stack just before it was emptied, bottom first.
    Cleared(Vec<T>),
    /// The help listing was asked for.
    Help,
    /// An operator was applied, with its result or its failure.
    Applied(Result<T, OperatorError>),
    /// A number was pushed.
    Pushed(T),
    /// The token was not recognised; nothing changed.
    Invalid,
}

/// The stack after running `cmd` on stack `s`.
pub open spec fn stack_after_command<T>(cmd: Commands, s: Seq<T>) -> Seq<T> {
    match cmd {
        Commands::Pop => without_top(s),
        Commands::Clear => Seq::empty(),
        _ => s,
    }
}

/// The stack contents that `cmd` reports when run on `s`, for the commands
/// that report them.
pub open spec fn reported_by_command<T>(cmd: Commands, s: Seq<T>) -> Option<Seq<T>> {
    match cmd {
        Commands::Show => Some(s),
        Commands::Clear => Some(s),
        _ => None,
    }
}

/// The stack contents carried by a response, if it carries them.
pub open spec fn reported_contents<T>(r: Response<T>) -> Option<Seq<T>> {
    match r {
        Response::Shown(v) => Some(v@),
        Response::Cleared(v) => Some(v@),
        _ => None,
    }
}

/// Whether `r` is the response kind that `cmd` gives on stack `s`.
pub open spec fn answers_command<T>(cmd: Commands, s: Seq<T>, r: Response<T>) -> bool {
    match cmd {
        Commands::Quit => r is Quit,
        Commands::Pop => r == Response::<T>::Popped(top_of(s)),
        Commands::Show => r is Shown,
        Commands::Clear => r is Cleared,
        Commands::Help => r is Help,
    }
}

/// The help listing.
pub fn help_text() -> (r: &'static str)
    ensures
        r@ == HELP_TEXT@,
{
    HELP_TEXT
}

/// Runs the command `cmd` on `stack`.
pub fn execute<T: Copy>(cmd: Commands, stack: &mut OperandStack<T>) -> (r: Response<T>)
    ensures
        answers_command(cmd, old(stack)@, r),
        reported_contents(r) == reported_by_command(cmd, old(stack)@),
        final(stack)@ == stack_after_command(cmd, old(stack)@),
{
    match cmd {
        Commands::Quit => Response::Quit,
        Commands::Pop => Response::Popped(stack.pop()),
        Commands::Show => Response::Shown(stack.contents()),
        Commands::Clear => Response::Cleared(stack.clear()),
        Commands::Help => Response::Help,
    }
}

/// Handles one classified token against `stack`: a command is run, an
/// operator applied, a number pushed; an invalid token changes nothing.
pub fn process<T: Copy, Z: Fn(T) -> bool, E: Fn(Operation<T>) -> T>(
    token: Token<T>,
    stack: &mut OperandStack<T>,
    is_zero: Z,
    eval: E,
) -> (r: Response<T>)
    requires
        forall|x: T| is_zero.requires((x,)),
        forall|o: Operation<T>| eval.requires((o,)),
    ensures
        match token {
            Token::Command(c) => {
                &&& answers_command(c, old(stack)@, r)
                &&& reported_contents(r) == reported_by_command(c, old(stack)@)
                &&& final(stack)@ == stack_after_command(c, old(stack)@)
            },
            Token::Operator(o) => r is Applied && applies(
                o,
                is_zero,
                eval,
                old(stack)@,
                r->Applied_0,
                final(stack)@,
            ),
            Token::Number(n) => r == Response::<T>::Pushed(n) && final(stack)@ == old(stack)@.push(n),
            Token::Invalid => r is Invalid && final(stack)@ == old(stack)@,
        },
{
    match token {
        Token::Command(c) => execute(c, stack),
        Token::Operator(o) => Response::Applied(o.apply(stack, is_zero, eval)),
        Token::Number(n) => {
            stack.push(n);
            Response::Pushed(n)
        },
        Token::Invalid => Response::Invalid,
    }
}

/// Show and Clear report the same contents for the same stack, Show leaves
/// the stack as it was and Clear leaves it empty.
pub proof fn lemma_show_and_clear_agree<T>(s: Seq<T>)
    ensures
        reported_by_command(Commands::Show, s) == Some(s),
        reported_by_command(Commands::Clear, s) == reported_by_command(Commands::Show, s),
        stack_after_command(Commands::Show, s) == s,
        stack_after_command(Commands::Clear, s) == Seq::<T>::empty(),
{
}

/// A number pushed by classifying a token that is neither a command nor an
/// operator comes back unchanged from the next Pop, and the stack is as it
/// was before the push.
pub proof fn lemma_number_then_pop<T>(t: Seq<char>, n: T, s: Seq<T>)
    requires
        command_of(t) is None,
        operator_of(t) is None,
    ensures
        token_of(t, Some(n)) == Token::<T>::Number(n),
        top_of(s.push(n)) == Some(n),
        stack_after_command(Commands::Pop, s.push(n)) == s,
{
    assert(s.push(n).drop_last() =~= s);
}

} // verus!
