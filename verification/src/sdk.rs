//! What the contract takes from `soroban_sdk` without proof.

use soroban_sdk::{Env, Symbol};
use vstd::prelude::*;

verus! {

/// `soroban_sdk::Env`, the handle to the host that runs the contract.
#[verifier::external_type_specification]
#[verifier::external_body]
pub struct ExEnv(Env);

/// `soroban_sdk::Symbol`, a short string of letters, digits and underscores.
#[verifier::external_type_specification]
#[verifier::external_body]
pub struct ExSymbol(Symbol);

/// The characters that a symbol holds.
pub uninterp spec fn symbol_text(symbol: Symbol) -> Seq<char>;

/// A character that a symbol can hold.
pub open spec fn is_symbol_char(c: char) -> bool {
    ||| 'a' <= c <= 'z'
    ||| 'A' <= c <= 'Z'
    ||| '0' <= c <= '9'
    ||| c == '_'
}

/// A text that fits in a short symbol, which holds up to nine characters
/// within its value. (A longer one is an object of the host.)
pub open spec fn is_short_symbol_text(text: Seq<char>) -> bool {
    &&& text.len() <= 9
    &&& forall|i: int| 0 <= i < text.len() ==> is_symbol_char(#[trigger] text[i])
}

/// Calls `soroban_sdk::Symbol::new`, which makes a symbol of a text and panics
/// where the text is not one that a symbol can hold. Claimed of it: on a text
/// of up to nine valid characters it returns the symbol with that text.
#[verifier::external_body]
pub(crate) fn new_symbol(env: &Env, text: &str) -> (symbol: Symbol)
    requires
        is_short_symbol_text(text@),
    ensures
        symbol_text(symbol) == text@,
{
    Symbol::new(env, text)
}

} // verus!
