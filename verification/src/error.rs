//! Chained-cause errors: a tagged value carrying its message and an explicit
//! wrapped cause, with a full-chain formatting routine.

use vstd::prelude::*;

verus! {

/// An error message together with the chain of causes that led to it.
#[derive(Debug)]
pub struct ChainedError {
    pub message: String,
    pub source: Option<Box<ChainedError>>,
}

impl ChainedError {
    /// An error with no recorded cause.
    pub fn new(message: String) -> (r: ChainedError)
        ensures
            r.message@ == message@,
            r.source is None,
    {
        ChainedError { message, source: None }
    }

    /// An error wrapping the failure that caused it.
    pub fn with_source(message: String, source: ChainedError) -> (r: ChainedError)
        ensures
            r.message@ == message@,
            r.source matches Some(boxed) && *boxed == source,
    {
        ChainedError { message, source: Some(Box::new(source)) }
    }
}

/// The text that the full-chain formatting produces for the causes of an
/// error: one `Caused by:` line per wrapped cause, outermost first.
pub open spec fn spec_causes_fmt(source: Option<Box<ChainedError>>) -> Seq<char>
    decreases source,
{
    match source {
        Option::None => Seq::empty(),
        Option::Some(cause) => "Caused by:\n\t"@ + cause.message@ + "\n"@ + spec_causes_fmt(
            cause.source,
        ),
    }
}

/// The text that the full-chain formatting produces for an error: its own
/// message, a blank line, then every cause in order.
pub open spec fn spec_error_chain_fmt(e: ChainedError) -> Seq<char> {
    e.message@ + "\n\n"@ + spec_causes_fmt(e.source)
}

/// Formats the causes of an error, outermost first.
fn causes_fmt(source: &Option<Box<ChainedError>>) -> (r: String)
    ensures
        r@ == spec_causes_fmt(*source),
    decreases source,
{
    match source {
        Option::None => String::new(),
        Option::Some(cause) => {
            let mut s = String::from_str("Caused by:\n\t");
            s.append(cause.message.as_str());
            s.append("\n");
            let rest = causes_fmt(&cause.source);
            s.append(rest.as_str());
            s
        },
    }
}

/// Formats the whole chain of failures that led to the error.
pub fn error_chain_fmt(e: &ChainedError) -> (r: String)
    ensures
        r@ == spec_error_chain_fmt(*e),
{
    let mut s = e.message.clone();
    s.append("\n\n");
    let causes = causes_fmt(&e.source);
    s.append(causes.as_str());
    s
}

} // verus!
