//! From a parameter's key to the name of the environment variable that carries it.

use vstd::prelude::*;
use vstd::string::*;

verus! {

/// What every parameter's variable name begins with.
pub const PREFIX: &'static str = "BUILD_PARAM_";

/// The uppercase form of a text under Unicode's case mapping, as
/// `str::to_uppercase` computes it.
pub uninterp spec fn uppercased(s: Seq<char>) -> Seq<char>;

/// `s` with every hyphen turned into an underscore.
pub open spec fn underscored(s: Seq<char>) -> Seq<char> {
    s.map_values(|c: char| if c == '-' { '_' } else { c })
}

/// The variable name for a key that is already in uppercase.
pub open spec fn prefixed(upper: Seq<char>) -> Seq<char> {
    PREFIX@ + underscored(upper)
}

/// The name of the environment variable that carries the parameter `key`.
pub open spec fn variable_name(key: Seq<char>) -> Seq<char> {
    prefixed(uppercased(key))
}

/// Hyphens and underscores are interchangeable: turning the hyphens of an
/// uppercase key into underscores beforehand gives the same variable name.
pub proof fn lemma_separators_are_interchangeable(upper: Seq<char>)
    ensures
        underscored(underscored(upper)) == underscored(upper),
        prefixed(underscored(upper)) == prefixed(upper),
{
    assert(underscored(underscored(upper)) =~= underscored(upper));
}

/// Calls `str::to_uppercase`. Trusted: the result is the uppercase form of
/// `s`, a function of the characters of `s` alone.
#[verifier::external_body]
fn to_uppercase(s: &str) -> (upper: String)
    ensures
        upper@ == uppercased(s@),
{
    s.to_uppercase()
}

/// Calls `String::push`. Trusted: `c` is appended to `s`, which is otherwise
/// unchanged.
#[verifier::external_body]
fn push_char(s: &mut String, c: char)
    ensures
        final(s)@ == old(s)@.push(c),
{
    s.push(c);
}

/// Builds the variable name for a key that is already in uppercase: the
/// prefix, then the key with its hyphens turned into underscores.
pub fn name_of_uppercase(upper: &str) -> (name: String)
    ensures
        name@ == prefixed(upper@),
{
    let mut name = PREFIX.to_owned();
    for c in it: upper.chars()
        invariant
            it.seq() == upper@,
            name@ == PREFIX@ + underscored(upper@.take(it.index() as int)),
    {
        push_char(&mut name, if c == '-' { '_' } else { c });
        assert(upper@.take(it.index() + 1) == upper@.take(it.index() as int).push(c));
    }
    assert(upper@.take(upper@.len() as int) == upper@);
    name
}

/// Builds the name of the environment variable that carries the parameter
/// `key`: the prefix, then the key in uppercase with its hyphens turned into
/// underscores.
pub fn env_name(key: &str) -> (name: String)
    ensures
        name@ == variable_name(key@),
{
    let upper = to_uppercase(key);
    name_of_uppercase(upper.as_str())
}

} // verus!
