//! What the validator reports when an argument names no method, or several.

use vstd::prelude::*;
use vstd::string::StringExecFns;
use crate::location::LocationRange;

verus! {

/// The kind of a report.
#[derive(Clone, Copy, Debug, PartialEq, Eq, Structural)]
pub enum Code {
    /// No entry of the argument names an HTTP method.
    MissingHttpMethod,
    /// Two or more entries of the argument name an HTTP method.
    MultipleHttpMethods,
}

/// A report on one argument: its kind, a sentence for the reader, and the
/// places in the schema source that it is about.
#[derive(Clone, Debug, PartialEq, Eq)]
pub struct Message {
    pub code: Code,
    pub message: String,
    pub locations: Vec<LocationRange>,
}

/// A report as the contracts speak of it.
pub struct MessageView {
    pub code: Code,
    pub message: Seq<char>,
    pub locations: Seq<LocationRange>,
}

impl View for Message {
    type V = MessageView;

    open spec fn view(&self) -> MessageView {
        MessageView { code: self.code, message: self.message@, locations: self.locations@ }
    }
}

/// The ranges among `spans` that were resolved, in the order of `spans`.
pub open spec fn resolved(spans: Seq<Option<LocationRange>>) -> Seq<LocationRange> {
    spans.filter_map(|span: Option<LocationRange>| span)
}

/// The report on an argument at `coordinate` that names no method, where
/// `span` is the range of the whole argument, if it has one.
pub open spec fn missing_method_message(
    coordinate: Seq<char>,
    span: Option<LocationRange>,
) -> MessageView {
    MessageView {
        code: Code::MissingHttpMethod,
        message: coordinate + " must specify an HTTP method."@,
        locations: match span {
            Some(range) => seq![range],
            None => Seq::empty(),
        },
    }
}

/// The report on an argument at `coordinate` that names several methods,
/// where `spans` holds, for each entry that names one and in their order, the
/// range of its value, if it has one.
pub open spec fn multiple_methods_message(
    coordinate: Seq<char>,
    spans: Seq<Option<LocationRange>>,
) -> MessageView {
    MessageView {
        code: Code::MultipleHttpMethods,
        message: coordinate + " cannot specify more than one HTTP method."@,
        locations: resolved(spans),
    }
}

/// Reports that the argument at `coordinate` names no HTTP method. The report
/// points at `span`, the range of the whole argument, or nowhere if there is
/// none.
pub fn missing_method(coordinate: &str, span: Option<LocationRange>) -> (report: Message)
    ensures
        report@ == missing_method_message(coordinate@, span),
{
    let mut locations: Vec<LocationRange> = Vec::new();
    if let Some(range) = span {
        locations.push(range);
    }
    let report = Message {
        code: Code::MissingHttpMethod,
        message: String::from_str(coordinate).concat(" must specify an HTTP method."),
        locations,
    };
    assert(report@.locations =~= missing_method_message(coordinate@, span).locations);
    report
}

/// Reports that the argument at `coordinate` names more than one HTTP method.
/// The report points at each range in `spans`, in their order, and passes
/// over the entries that have none.
pub fn multiple_methods(coordinate: &str, spans: &Vec<Option<LocationRange>>) -> (report: Message)
    ensures
        report@ == multiple_methods_message(coordinate@, spans@),
{
    let mut locations: Vec<LocationRange> = Vec::new();
    let mut i: usize = 0;
    while i < spans.len()
        invariant
            i <= spans@.len(),
            locations@ == resolved(spans@.take(i as int)),
        decreases spans@.len() - i,
    {
        proof {
            spans@.lemma_filter_map_take_succ(|span: Option<LocationRange>| span, i as int);
        }
        if let Some(range) = spans[i] {
            locations.push(range);
        }
        i += 1;
    }
    assert(spans@.take(i as int) =~= spans@);
    Message {
        code: Code::MultipleHttpMethods,
        message: String::from_str(coordinate).concat(" cannot specify more than one HTTP method."),
        locations,
    }
}

} // verus!
