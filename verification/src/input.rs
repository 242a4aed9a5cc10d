//! Typed access to build parameters.
//!
//! A parameter is asked for by its key. The key names an environment
//! variable, and the variable's value, where it is set, is read as text, as a
//! boolean or as an integer.

use vstd::prelude::*;
use crate::environment::Environment;
use crate::error::{Expected, ParamError, ParamErrorView};
use crate::name::{env_name, variable_name};
use crate::parse::{
    bool_of,
    i64_of,
    has_sign,
    is_signed_decimal,
    lemma_unsigned_rejects_sign,
    parse_bool,
    parse_i64,
    parse_u64,
    signed_value,
    u64_of,
};

verus! {

/// The raw value of the parameter `key`: what its variable is set to in `env`,
/// or `None` where the variable is not set.
pub open spec fn raw_value(env: Map<Seq<char>, Seq<char>>, key: Seq<char>) -> Option<Seq<char>> {
    if env.contains_key(variable_name(key)) {
        Some(env[variable_name(key)])
    } else {
        None
    }
}

/// What reading a raw value as a `T` comes to: nothing where the parameter is
/// not set, the value that `converted` gives, or an error that names `key`
/// and the kind `expected` where the raw value stands for no `T`.
pub open spec fn typed<T>(
    key: Seq<char>,
    raw: Option<Seq<char>>,
    converted: spec_fn(Seq<char>) -> Option<T>,
    expected: Expected,
) -> Result<Option<T>, ParamErrorView> {
    match raw {
        None => Ok(None),
        Some(text) => match converted(text) {
            Some(value) => Ok(Some(value)),
            None => Err(ParamErrorView::InvalidParameter(key, expected)),
        },
    }
}

/// What insisting on a parameter comes to: its value, the error met on
/// reading it, or an error that names `key` where the parameter is not set.
pub open spec fn required<T>(
    key: Seq<char>,
    read: Result<Option<T>, ParamErrorView>,
) -> Result<T, ParamErrorView> {
    match read {
        Ok(Some(value)) => Ok(value),
        Ok(None) => Err(ParamErrorView::MissingParameter(key)),
        Err(error) => Err(error),
    }
}

/// The parameter `key` of `env`, read as a boolean.
pub open spec fn bool_param(env: Map<Seq<char>, Seq<char>>, key: Seq<char>) -> Result<
    Option<bool>,
    ParamErrorView,
> {
    typed(key, raw_value(env, key), |text: Seq<char>| bool_of(text), Expected::Boolean)
}

/// The parameter `key` of `env`, read as a signed integer.
pub open spec fn i64_param(env: Map<Seq<char>, Seq<char>>, key: Seq<char>) -> Result<
    Option<i64>,
    ParamErrorView,
> {
    typed(key, raw_value(env, key), |text: Seq<char>| i64_of(text), Expected::Integer)
}

/// The parameter `key` of `env`, read as an unsigned integer.
pub open spec fn u64_param(env: Map<Seq<char>, Seq<char>>, key: Seq<char>) -> Result<
    Option<u64>,
    ParamErrorView,
> {
    typed(key, raw_value(env, key), |text: Seq<char>| u64_of(text), Expected::UnsignedInteger)
}

/// The parameter `key` of `env`, read as text: its raw value as it stands.
pub open spec fn text_param(env: Map<Seq<char>, Seq<char>>, key: Seq<char>) -> Result<
    Option<Seq<char>>,
    ParamErrorView,
> {
    Ok(raw_value(env, key))
}

/// The outcome of an accessor, with the key of its error as a sequence of
/// characters.
pub open spec fn outcome<T>(result: Result<T, ParamError>) -> Result<T, ParamErrorView> {
    match result {
        Ok(value) => Ok(value),
        Err(error) => Err(error@),
    }
}

/// The outcome of an accessor that returns text, with the text and the key of
/// its error as sequences of characters.
pub open spec fn text_outcome(result: Result<String, ParamError>) -> Result<
    Seq<char>,
    ParamErrorView,
> {
    match result {
        Ok(text) => Ok(text@),
        Err(error) => Err(error@),
    }
}

/// The outcome `read`, with `key` in place of the key that its error names.
pub open spec fn under_key<T>(read: Result<T, ParamErrorView>, key: Seq<char>) -> Result<
    T,
    ParamErrorView,
> {
    match read {
        Ok(value) => Ok(value),
        Err(ParamErrorView::MissingParameter(_)) => Err(ParamErrorView::MissingParameter(key)),
        Err(ParamErrorView::InvalidParameter(_, expected)) => Err(
            ParamErrorView::InvalidParameter(key, expected),
        ),
    }
}

/// Two keys that name the same variable are resolved alike: they have the
/// same raw value, and every accessor gives both the same outcome, but for
/// the key that an error names.
pub proof fn lemma_same_variable_same_outcome(
    env: Map<Seq<char>, Seq<char>>,
    key: Seq<char>,
    other: Seq<char>,
)
    requires
        variable_name(key) == variable_name(other),
    ensures
        raw_value(env, other) == raw_value(env, key),
        bool_param(env, other) == under_key(bool_param(env, key), other),
        i64_param(env, other) == under_key(i64_param(env, key), other),
        u64_param(env, other) == under_key(u64_param(env, key), other),
        required(other, text_param(env, other)) == under_key(
            required(key, text_param(env, key)),
            other,
        ),
        required(other, bool_param(env, other)) == under_key(
            required(key, bool_param(env, key)),
            other,
        ),
        required(other, i64_param(env, other)) == under_key(
            required(key, i64_param(env, key)),
            other,
        ),
        required(other, u64_param(env, other)) == under_key(
            required(key, u64_param(env, key)),
            other,
        ),
{
}

/// Where the variable of a parameter is not set, every optional accessor
/// finds nothing and every required accessor fails with `MissingParameter`,
/// which names the key.
pub proof fn lemma_unset_parameter(env: Map<Seq<char>, Seq<char>>, key: Seq<char>)
    requires
        !env.contains_key(variable_name(key)),
    ensures
        raw_value(env, key) is None,
        bool_param(env, key) == Ok::<Option<bool>, ParamErrorView>(None),
        i64_param(env, key) == Ok::<Option<i64>, ParamErrorView>(None),
        u64_param(env, key) == Ok::<Option<u64>, ParamErrorView>(None),
        required(key, text_param(env, key)) == Err::<Seq<char>, ParamErrorView>(
            ParamErrorView::MissingParameter(key),
        ),
        required(key, bool_param(env, key)) == Err::<bool, ParamErrorView>(
            ParamErrorView::MissingParameter(key),
        ),
        required(key, i64_param(env, key)) == Err::<i64, ParamErrorView>(
            ParamErrorView::MissingParameter(key),
        ),
        required(key, u64_param(env, key)) == Err::<u64, ParamErrorView>(
            ParamErrorView::MissingParameter(key),
        ),
{
}

/// A parameter set to a signed decimal is read as the number that the decimal
/// writes where that number fits in 64 bits, and fails with
/// `InvalidParameter` where it does not.
pub proof fn lemma_signed_decimal_parameter(
    env: Map<Seq<char>, Seq<char>>,
    key: Seq<char>,
    text: Seq<char>,
)
    requires
        raw_value(env, key) == Some(text),
        is_signed_decimal(text),
    ensures
        i64::MIN <= signed_value(text) <= i64::MAX ==> i64_param(env, key) == Ok::<
            Option<i64>,
            ParamErrorView,
        >(Some(signed_value(text) as i64)),
        !(i64::MIN <= signed_value(text) <= i64::MAX) ==> i64_param(env, key) == Err::<
            Option<i64>,
            ParamErrorView,
        >(ParamErrorView::InvalidParameter(key, Expected::Integer)),
{
}

/// A parameter set to a text that begins with a sign fails with
/// `InvalidParameter` when read as an unsigned integer, whatever follows the
/// sign.
pub proof fn lemma_signed_text_is_no_unsigned_parameter(
    env: Map<Seq<char>, Seq<char>>,
    key: Seq<char>,
    text: Seq<char>,
)
    requires
        raw_value(env, key) == Some(text),
        has_sign(text, '-') || has_sign(text, '+'),
    ensures
        u64_param(env, key) == Err::<Option<u64>, ParamErrorView>(
            ParamErrorView::InvalidParameter(key, Expected::UnsignedInteger),
        ),
{
    lemma_unsigned_rejects_sign(text);
}

/// Looks the parameter `key` up in `env`.
fn get_opt_str(env: &Environment, key: &str) -> (value: Option<String>)
    ensures
        match value {
            Some(text) => raw_value(env@, key@) == Some(text@),
            None => raw_value(env@, key@) is None,
        },
{
    let name = env_name(key);
    match env.get(name.as_str()) {
        Some(text) => Some(text.to_owned()),
        None => None,
    }
}

/// Looks up the parameter `key`, which has to be set.
fn get_str(env: &Environment, key: &str) -> (value: Result<String, ParamError>)
    ensures
        text_outcome(value) == required(key@, text_param(env@, key@)),
{
    match get_opt_str(env, key) {
        Some(text) => Ok(text),
        None => Err(ParamError::MissingParameter(key.to_owned())),
    }
}

/// Reads an optional string parameter.
///
/// Returns `None` if the parameter is not set, and its value as it stands
/// otherwise.
pub fn param(env: &Environment, key: &str) -> (value: Option<String>)
    ensures
        match value {
            Some(text) => raw_value(env@, key@) == Some(text@),
            None => raw_value(env@, key@) is None,
        },
{
    get_opt_str(env, key)
}

/// Reads a required string parameter.
///
/// Fails with `MissingParameter` if the parameter is not set.
pub fn param_required(env: &Environment, key: &str) -> (value: Result<String, ParamError>)
    ensures
        text_outcome(value) == required(key@, text_param(env@, key@)),
{
    get_str(env, key)
}

/// Reads an optional boolean parameter.
///
/// Accepts `true` and `1` for true, `false` and `0` for false. Returns
/// `Ok(None)` if the parameter is not set, and fails with `InvalidParameter`
/// if it is set to anything else.
pub fn param_bool(env: &Environment, key: &str) -> (value: Result<Option<bool>, ParamError>)
    ensures
        outcome(value) == bool_param(env@, key@),
{
    match get_opt_str(env, key) {
        None => Ok(None),
        Some(text) => match parse_bool(text.as_str()) {
            Some(flag) => Ok(Some(flag)),
            None => Err(ParamError::InvalidParameter(key.to_owned(), Expected::Boolean)),
        },
    }
}

/// Reads a required boolean parameter.
///
/// Fails with `MissingParameter` if the parameter is not set, and with
/// `InvalidParameter` if it is set to no boolean.
pub fn param_bool_required(env: &Environment, key: &str) -> (value: Result<bool, ParamError>)
    ensures
        outcome(value) == required(key@, bool_param(env@, key@)),
{
    match param_bool(env, key) {
        Ok(Some(flag)) => Ok(flag),
        Ok(None) => Err(ParamError::MissingParameter(key.to_owned())),
        Err(error) => Err(error),
    }
}

/// Reads an optional signed integer parameter.
///
/// Returns `Ok(None)` if the parameter is not set, and fails with
/// `InvalidParameter` if its value is no decimal integer of 64 bits.
pub fn param_i64(env: &Environment, key: &str) -> (value: Result<Option<i64>, ParamError>)
    ensures
        outcome(value) == i64_param(env@, key@),
{
    match get_opt_str(env, key) {
        None => Ok(None),
        Some(text) => match parse_i64(text.as_str()) {
            Some(number) => Ok(Some(number)),
            None => Err(ParamError::InvalidParameter(key.to_owned(), Expected::Integer)),
        },
    }
}

/// Reads a required signed integer parameter.
///
/// Fails with `MissingParameter` if the parameter is not set, and with
/// `InvalidParameter` if its value is no decimal integer of 64 bits.
pub fn param_i64_required(env: &Environment, key: &str) -> (value: Result<i64, ParamError>)
    ensures
        outcome(value) == required(key@, i64_param(env@, key@)),
{
    match param_i64(env, key) {
        Ok(Some(number)) => Ok(number),
        Ok(None) => Err(ParamError::MissingParameter(key.to_owned())),
        Err(error) => Err(error),
    }
}

/// Reads an optional unsigned integer parameter.
///
/// Returns `Ok(None)` if the parameter is not set, and fails with
/// `InvalidParameter` if its value is no unsigned decimal integer of 64 bits.
pub fn param_u64(env: &Environment, key: &str) -> (value: Result<Option<u64>, ParamError>)
    ensures
        outcome(value) == u64_param(env@, key@),
{
    match get_opt_str(env, key) {
        None => Ok(None),
        Some(text) => match parse_u64(text.as_str()) {
            Some(number) => Ok(Some(number)),
            None => Err(ParamError::InvalidParameter(key.to_owned(), Expected::UnsignedInteger)),
        },
    }
}

/// Reads a required unsigned integer parameter.
///
/// Fails with `MissingParameter` if the parameter is not set, and with
/// `InvalidParameter` if its value is no unsigned decimal integer of 64 bits.
pub fn param_u64_required(env: &Environment, key: &str) -> (value: Result<u64, ParamError>)
    ensures
        outcome(value) == required(key@, u64_param(env@, key@)),
{
    match param_u64(env, key) {
        Ok(Some(number)) => Ok(number),
        Ok(None) => Err(ParamError::MissingParameter(key.to_owned())),
        Err(error) => Err(error),
    }
}

} // verus!
