//! The attribute's entry point: from the attribute's argument and the
//! annotated item, both as source text, to the rewritten function.
//!
//! Reading the two texts is the parser's work, and no spec function names
//! what it makes of a given text. The parser picks its lexer and its printer
//! per process: the compiler's inside a procedural macro, its own elsewhere.
//! One text may therefore read differently in two processes, and a name for
//! the reading would claim that it cannot.
//!
//! So every decision taken on what the parser read is a function of its own
//! here, with a contract that fixes it: [`level_of`], [`function_of`] and
//! [`rewritten`]. The functions that call the parser say that their result is
//! what those functions give for some reading, which is all that holds of
//! every reading.

use vstd::prelude::*;
use crate::error::{ProfileError, ProfileErrorView};
use crate::expand::{instrument, instrumented, FnItem, FnItemView};
use crate::severity::Severity;
use crate::syntax::{error_message, function_parts, item_fn, meta_ident, parse_item, parse_meta};

verus! {

/// A tier or a refusal, the refusal by what it holds.
pub open spec fn level_view(level: Result<Severity, ProfileError>) -> Result<
    Severity,
    ProfileErrorView,
> {
    match level {
        Ok(tier) => Ok(tier),
        Err(refusal) => Err(refusal@),
    }
}

/// A function or a refusal, each by what it holds.
pub open spec fn function_view(function: Result<FnItem, ProfileError>) -> Result<
    FnItemView,
    ProfileErrorView,
> {
    match function {
        Ok(item) => Ok(item@),
        Err(refusal) => Err(refusal@),
    }
}

/// A text or a refusal, each by what it holds.
pub open spec fn output_view(output: Result<String, ProfileError>) -> Result<
    Seq<char>,
    ProfileErrorView,
> {
    match output {
        Ok(text) => Ok(text@),
        Err(refusal) => Err(refusal@),
    }
}

/// What the parser made of an argument, by the characters it holds: its
/// complaint, or the argument's single identifier if it is one.
pub open spec fn argument_view(reading: Result<Option<String>, String>) -> Result<
    Option<Seq<char>>,
    Seq<char>,
> {
    match reading {
        Ok(Some(name)) => Ok(Some(name@)),
        Ok(None) => Ok(None),
        Err(message) => Err(message@),
    }
}

/// What the parser made of an item, by the characters it holds: its
/// complaint, or the item's pieces if it is a function.
pub open spec fn item_view(reading: Result<Option<FnItem>, String>) -> Result<
    Option<FnItemView>,
    Seq<char>,
> {
    match reading {
        Ok(Some(item)) => Ok(Some(item@)),
        Ok(None) => Ok(None),
        Err(message) => Err(message@),
    }
}

/// The tier that the identifier `name` asks for: the tier of that name, and
/// a refusal that holds the name where there is no such tier.
pub open spec fn spec_level_named(name: Seq<char>) -> Result<Severity, ProfileErrorView> {
    match Severity::spec_from_name(name) {
        Some(tier) => Ok(tier),
        None => Err(ProfileErrorView::UnknownLevel(name)),
    }
}

/// The tier that an argument asks for, given what the parser made of it. An
/// argument that does not parse is refused with the parser's complaint, one
/// that is no single identifier is refused as such, and an identifier stands
/// for the tier it names.
pub open spec fn spec_level_of(reading: Result<Option<Seq<char>>, Seq<char>>) -> Result<
    Severity,
    ProfileErrorView,
> {
    match reading {
        Err(message) => Err(ProfileErrorView::ArgumentSyntax(message)),
        Ok(None) => Err(ProfileErrorView::BadLevel),
        Ok(Some(name)) => spec_level_named(name),
    }
}

/// The tier that the argument `args` asks for: `Trace` where there is no
/// argument, and else what its reading asks for.
pub open spec fn spec_requested_level(
    args: Seq<char>,
    reading: Result<Option<Seq<char>>, Seq<char>>,
) -> Result<Severity, ProfileErrorView> {
    if args.len() == 0 {
        Ok(Severity::Trace)
    } else {
        spec_level_of(reading)
    }
}

/// The function to rewrite, given what the parser made of the item. An item
/// that does not parse is refused with the parser's complaint, and one that
/// is no function is refused as such.
pub open spec fn spec_function_of(reading: Result<Option<FnItemView>, Seq<char>>) -> Result<
    FnItemView,
    ProfileErrorView,
> {
    match reading {
        Err(message) => Err(ProfileErrorView::ItemSyntax(message)),
        Ok(None) => Err(ProfileErrorView::NotAFunction),
        Ok(Some(item)) => Ok(item),
    }
}

/// The attribute's result, given the tier asked for and what the parser made
/// of the item. A refused argument is the result whatever the item is; with a
/// tier, a refused item is the result; and else the function is rewritten at
/// that tier.
pub open spec fn spec_rewritten(
    level: Result<Severity, ProfileErrorView>,
    function: Result<Option<FnItemView>, Seq<char>>,
) -> Result<Seq<char>, ProfileErrorView> {
    match level {
        Err(refusal) => Err(refusal),
        Ok(tier) => match spec_function_of(function) {
            Err(refusal) => Err(refusal),
            Ok(item) => Ok(instrumented(item, tier)),
        },
    }
}

/// The tier that the identifier `name` asks for.
pub fn level_named(name: String) -> (level: Result<Severity, ProfileError>)
    ensures
        level_view(level) == spec_level_named(name@),
{
    match Severity::from_name(name.as_str()) {
        Some(tier) => Ok(tier),
        None => Err(ProfileError::UnknownLevel(name)),
    }
}

/// The tier that an argument asks for, given what the parser made of it.
pub fn level_of(reading: Result<Option<String>, String>) -> (level: Result<
    Severity,
    ProfileError,
>)
    ensures
        level_view(level) == spec_level_of(argument_view(reading)),
{
    match reading {
        Err(message) => Err(ProfileError::ArgumentSyntax(message)),
        Ok(None) => Err(ProfileError::BadLevel),
        Ok(Some(name)) => level_named(name),
    }
}

/// The function to rewrite, given what the parser made of the item.
pub fn function_of(reading: Result<Option<FnItem>, String>) -> (function: Result<
    FnItem,
    ProfileError,
>)
    ensures
        function_view(function) == spec_function_of(item_view(reading)),
{
    match reading {
        Err(message) => Err(ProfileError::ItemSyntax(message)),
        Ok(None) => Err(ProfileError::NotAFunction),
        Ok(Some(item)) => Ok(item),
    }
}

/// The attribute's result, given the tier asked for and what the parser made
/// of the item.
pub fn rewritten(
    level: Result<Severity, ProfileError>,
    function: Result<Option<FnItem>, String>,
) -> (output: Result<String, ProfileError>)
    ensures
        output_view(output) == spec_rewritten(level_view(level), item_view(function)),
{
    match level {
        Err(refusal) => Err(refusal),
        Ok(tier) => match function_of(function) {
            Err(refusal) => Err(refusal),
            Ok(item) => Ok(instrument(&item, tier)),
        },
    }
}

/// The tier that the attribute's argument asks for.
///
/// No argument, which is the empty text, asks for `Trace`, and the parser is
/// not asked. Any other argument is handed to the parser as it is, and the
/// result is what [`level_of`] gives for what the parser made of it.
pub fn requested_level(args: &str) -> (level: Result<Severity, ProfileError>)
    ensures
        args@.len() == 0 ==> level == Ok::<Severity, ProfileError>(Severity::Trace),
        exists|reading: Result<Option<Seq<char>>, Seq<char>>|
            level_view(level) == #[trigger] spec_requested_level(args@, reading),
{
    if args.is_empty() {
        assert(spec_requested_level(args@, Ok(None)) == level_view(Ok(Severity::Trace)));
        return Ok(Severity::Trace);
    }
    let reading = match parse_meta(args) {
        Ok(meta) => Ok(meta_ident(&meta)),
        Err(error) => Err(error_message(&error)),
    };
    let level = level_of(reading);
    assert(level_view(level) == spec_requested_level(args@, argument_view(reading)));
    level
}

/// Asks the parser what `input` is: its complaint, or the item's pieces if
/// the item is a function. The text is handed over as it is; what comes back
/// is the parser's decision alone.
fn item_reading(input: &str) -> Result<Option<FnItem>, String> {
    match parse_item(input) {
        Ok(item) => match item_fn(item) {
            Some(function) => Ok(Some(function_parts(&function))),
            None => Ok(None),
        },
        Err(error) => Err(error_message(&error)),
    }
}

/// Reads `input` as a function definition and cuts it into its pieces.
///
/// The text is handed to the parser as it is, and the result is what
/// [`function_of`] gives for what the parser made of it.
pub fn read_function(input: &str) -> (function: Result<FnItem, ProfileError>)
    ensures
        exists|reading: Result<Option<FnItemView>, Seq<char>>|
            function_view(function) == #[trigger] spec_function_of(reading),
{
    let reading = item_reading(input);
    let function = function_of(reading);
    assert(function_view(function) == spec_function_of(item_view(reading)));
    function
}

/// Rewrites the function in `input` so that it times itself, reporting at
/// the tier that `args` asks for.
///
/// The result is what [`rewritten`] gives for the tier that
/// [`requested_level`] finds in `args` and for what the parser made of
/// `input`. So the argument is judged first: a refused argument is reported
/// even when the item would be refused too.
pub fn profile(args: &str, input: &str) -> (output: Result<String, ProfileError>)
    ensures
        exists|
            argument: Result<Option<Seq<char>>, Seq<char>>,
            function: Result<Option<FnItemView>, Seq<char>>,
        |
            output_view(output) == #[trigger] spec_rewritten(
                spec_requested_level(args@, argument),
                function,
            ),
{
    let level = requested_level(args);
    let function = item_reading(input);
    let output = rewritten(level, function);
    proof {
        let argument = choose|reading: Result<Option<Seq<char>>, Seq<char>>|
            level_view(level) == #[trigger] spec_requested_level(args@, reading);
        assert(output_view(output) == spec_rewritten(
            spec_requested_level(args@, argument),
            item_view(function),
        ));
    }
    output
}

} // verus!
