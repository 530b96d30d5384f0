//! The values that the command line matched, by argument name.

use clap::ArgMatches;
use vstd::prelude::*;

verus! {

/// The text matched under `name`, if there is one.
pub open spec fn text_of(matches: ArgMatches<'_>, name: Seq<char>) -> Option<Seq<char>> {
    if matched_text(matches).dom().contains(name) {
        Some(matched_text(matches)[name])
    } else {
        None
    }
}

/// clap's `ArgMatches`, carried as it is: what it holds is known only
/// through [`matched_text`].
#[verifier::external_type_specification]
#[verifier::external_body]
pub struct ExArgMatches<'a>(ArgMatches<'a>);

/// The texts of a command line by argument name: for each argument that was
/// matched with at least one value, and whose first value is valid UTF-8, its
/// name and that first value.
pub uninterp spec fn matched_text(matches: ArgMatches<'_>) -> Map<Seq<char>, Seq<char>>;

/// `ArgMatches::value_of_os`, with the value handed out as text. clap returns
/// the first value matched under the name, or nothing where the argument was
/// not matched or took no value; `OsStr::to_str` then gives the text of a
/// value that is valid UTF-8 and nothing for any other.
#[verifier::external_body]
pub(crate) fn value_of<'a>(matches: &'a ArgMatches<'_>, name: &str) -> (value: Option<&'a str>)
    ensures
        value is Some <==> matched_text(*matches).dom().contains(name@),
        value matches Some(text) ==> text@ == matched_text(*matches)[name@],
{
    match matches.value_of_os(name) {
        Some(value) => value.to_str(),
        None => None,
    }
}

} // verus!
