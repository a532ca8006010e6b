//! What a command reports to its caller when it has succeeded.
//!
//! The report is a `cosmwasm_std::Response` that carries attributes, pairs of
//! a key and a value, and nothing else. Contracts speak of the attributes as
//! a sequence of pairs of texts.

use vstd::prelude::*;
use vstd::string::StringExecFns;
use cosmwasm_std::{Empty, Response};
use crate::error::ContractError;

verus! {

/// The attributes of a response as contracts see them: pairs of a key and a
/// value, in the order in which they were added.
pub type Attributes = Seq<(Seq<char>, Seq<char>)>;

/// `cosmwasm_std::Empty`, the type of the custom messages of a response that
/// has none. Nothing is claimed of it.
#[verifier::external_type_specification]
#[verifier::external_body]
pub struct ExEmpty(cosmwasm_std::Empty);

/// `cosmwasm_std::Response`. Verus sees nothing inside a response: what the
/// library knows of one it knows from `attributes_of` and `is_bare`.
#[verifier::external_type_specification]
#[verifier::external_body]
#[verifier::reject_recursive_types(T)]
pub struct ExResponse<T>(cosmwasm_std::Response<T>);

/// The attributes of a response, in the order in which they were added: the
/// field `attributes`, each attribute as the pair of its key and its value.
pub uninterp spec fn attributes_of(response: Response<Empty>) -> Seq<(Seq<char>, Seq<char>)>;

/// The key of the attribute that names the command.
pub open spec fn method_key() -> Seq<char> {
    "method"@
}

/// Whether a response carries nothing but attributes: its fields `messages`
/// and `events` are empty and its field `data` is `None`.
pub uninterp spec fn is_bare(response: Response<Empty>) -> bool;

/// Whether a text can be the key of an attribute: keys that start with an
/// underscore are reserved.
pub open spec fn is_attribute_key(key: Seq<char>) -> bool {
    key.len() == 0 || key[0] != '_'
}

/// Calls `cosmwasm_std::Response::new`. The contract claims what the source
/// of `new` shows: that the response has no attributes, no messages, no
/// events and no data.
#[verifier::external_body]
pub(crate) fn new_response() -> (response: Response<Empty>)
    ensures
        attributes_of(response) == Seq::<(Seq<char>, Seq<char>)>::empty(),
        is_bare(response),
{
    Response::new()
}

/// Calls `cosmwasm_std::Response::add_attribute`. The contract claims what
/// the source of `add_attribute` shows: that the attribute with this key and
/// this value is appended to the attributes and that nothing else changes.
/// In a debug build `add_attribute` panics on a key that starts with an
/// underscore, so such keys are excluded.
#[verifier::external_body]
pub(crate) fn with_attribute(response: Response<Empty>, key: &str, value: String) -> (extended:
    Response<Empty>)
    requires
        is_attribute_key(key@),
    ensures
        attributes_of(extended) == attributes_of(response).push((key@, value@)),
        is_bare(extended) == is_bare(response),
{
    response.add_attribute(key, value)
}

/// The decimal digit for a number below ten.
pub open spec fn digit(d: nat) -> char {
    if d == 0 {
        '0'
    } else if d == 1 {
        '1'
    } else if d == 2 {
        '2'
    } else if d == 3 {
        '3'
    } else if d == 4 {
        '4'
    } else if d == 5 {
        '5'
    } else if d == 6 {
        '6'
    } else if d == 7 {
        '7'
    } else if d == 8 {
        '8'
    } else {
        '9'
    }
}

/// A number in decimal notation, without leading zeros.
pub open spec fn decimal(n: nat) -> Seq<char>
    decreases n,
{
    if n < 10 {
        seq![digit(n)]
    } else {
        decimal(n / 10).push(digit(n % 10))
    }
}

fn digit_text(d: u64) -> (text: &'static str)
    requires
        d < 10,
    ensures
        text@ == seq![digit(d as nat)],
{
    proof {
        reveal_strlit("0");
        reveal_strlit("1");
        reveal_strlit("2");
        reveal_strlit("3");
        reveal_strlit("4");
        reveal_strlit("5");
        reveal_strlit("6");
        reveal_strlit("7");
        reveal_strlit("8");
        reveal_strlit("9");
    }
    let text = match d {
        0 => "0",
        1 => "1",
        2 => "2",
        3 => "3",
        4 => "4",
        5 => "5",
        6 => "6",
        7 => "7",
        8 => "8",
        _ => "9",
    };
    assert(text@ =~= seq![digit(d as nat)]);
    text
}

/// Writes a number in decimal notation.
pub fn decimal_text(n: u64) -> (text: String)
    ensures
        text@ == decimal(n as nat),
    decreases n,
{
    if n < 10 {
        String::from_str(digit_text(n))
    } else {
        let mut text = decimal_text(n / 10);
        text.append(digit_text(n % 10));
        assert(text@ =~= decimal(n as nat));
        text
    }
}

/// A response whose only attribute names the command that was carried out.
pub fn method_response(method: &str) -> (response: Response<Empty>)
    ensures
        attributes_of(response) == seq![(method_key(), method@)],
        is_bare(response),
{
    proof {
        reveal_strlit("method");
    }
    let response = with_attribute(new_response(), "method", String::from_str(method));
    assert(attributes_of(response) =~= seq![(method_key(), method@)]);
    response
}

/// What the caller of a command sees: the attributes of the response, or
/// the error.
pub open spec fn reported(outcome: Result<Response<Empty>, ContractError>) -> Result<
    Attributes,
    ContractError,
> {
    match outcome {
        Ok(response) => Ok(attributes_of(response)),
        Err(e) => Err(e),
    }
}

/// Whether the response of a command, if there is one, carries nothing but
/// attributes.
pub open spec fn reports_only(outcome: Result<Response<Empty>, ContractError>) -> bool {
    outcome matches Ok(response) ==> is_bare(response)
}

/// What a command reports: the given attributes if it succeeded, the error if
/// it failed.
pub open spec fn report<R>(outcome: Result<R, ContractError>, attributes: Attributes) -> Result<
    Attributes,
    ContractError,
> {
    match outcome {
        Ok(_) => Ok(attributes),
        Err(e) => Err(e),
    }
}

} // verus!
