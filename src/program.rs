//! The program's instruction handler, the accounts it takes, and the laws
//! that hold of every invocation.

use crate::address::{address_text, format_address};
use vstd::prelude::*;

verus! {

/// `anchor_lang::error::Error`, the error half of the framework's `Result`,
/// declared as an opaque type; nothing is assumed of its values.
#[verifier::external_type_specification]
#[verifier::external_body]
pub struct ExAnchorError(anchor_lang::error::Error);

/// The accounts that `initialize` takes: none.
#[derive(Clone, Copy, Debug, PartialEq, Eq, Structural)]
pub struct Initialize {}

/// What an instruction handler is invoked with: the address of the program
/// that executes, and the accounts that the instruction names.
#[derive(Clone, Copy, Debug)]
pub struct Context {
    pub program_id: [u8; 32],
    pub accounts: Initialize,
}

/// The words that open the greeting.
pub open spec fn greeting_prefix() -> Seq<char> {
    "Greetings from: "@
}

/// The greeting for a program whose address reads `id_text`.
pub open spec fn greeting(id_text: Seq<char>) -> Seq<char> {
    greeting_prefix() + id_text
}

/// The log line that `initialize` writes for the program at `program_id`.
pub open spec fn log_line(program_id: Seq<u8>) -> Seq<char> {
    greeting(address_text(program_id))
}

/// The context after one invocation of `initialize` on `c`: it names no
/// account, so nothing in it changes.
pub open spec fn state_after_initialize(c: Context) -> Context {
    c
}

/// The context after `n` invocations of `initialize` in a row.
pub open spec fn state_after_invocations(c: Context, n: nat) -> Context
    decreases n,
{
    if n == 0 {
        c
    } else {
        state_after_initialize(state_after_invocations(c, (n - 1) as nat))
    }
}

/// `needle` occurs in `hay` at some position.
pub open spec fn contains_text(hay: Seq<char>, needle: Seq<char>) -> bool {
    exists|k: int|
        0 <= k <= hay.len() - needle.len() && #[trigger] hay.subrange(k, k + needle.len())
            == needle
}

/// The greeting for a program whose address reads `id_text`.
pub fn greet(id_text: &str) -> (r: String)
    ensures
        r@ == greeting(id_text@),
{
    let mut line = String::from_str("Greetings from: ");
    line.append(id_text);
    line
}

/// Handles the `initialize` instruction: writes to `logs` one line that greets
/// from the executing program, changes no account, and succeeds.
pub fn initialize(ctx: &mut Context, logs: &mut Vec<String>) -> (r: Result<
    (),
    anchor_lang::error::Error,
>)
    ensures
        r is Ok,
        *final(ctx) == state_after_initialize(*old(ctx)),
        final(logs)@.len() == old(logs)@.len() + 1,
        final(logs)@.subrange(0, old(logs)@.len() as int) == old(logs)@,
        final(logs)@.last()@ == log_line(old(ctx).program_id@),
        contains_text(final(logs)@.last()@, address_text(old(ctx).program_id@)),
{
    let id_text = format_address(&ctx.program_id);
    let line = greet(id_text.as_str());
    logs.push(line);
    proof {
        lemma_log_line_names_program(ctx.program_id@);
    }
    Ok(())
}

/// The line that `initialize` logs always holds the text of the executing
/// program's address.
pub proof fn lemma_log_line_names_program(program_id: Seq<u8>)
    ensures
        contains_text(log_line(program_id), address_text(program_id)),
{
    let line = log_line(program_id);
    let text = address_text(program_id);
    let k = greeting_prefix().len() as int;
    assert(line.subrange(k, k + text.len()) =~= text);
}

/// Any number of invocations of `initialize` leave the context as it was.
pub proof fn lemma_invocations_keep_state(c: Context, n: nat)
    ensures
        state_after_invocations(c, n) == c,
    decreases n,
{
    if n > 0 {
        lemma_invocations_keep_state(c, (n - 1) as nat);
    }
}

} // verus!
