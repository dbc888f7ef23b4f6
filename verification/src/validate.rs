//! The rule itself: an `http` argument names exactly one HTTP method.

use vstd::prelude::*;
use apollo_compiler::ast::Value;
use apollo_compiler::parser::SourceMap;
use apollo_compiler::Node;
use crate::location::LocationRange;
use crate::message::missing_method;
use crate::message::missing_method_message;
use crate::message::multiple_methods;
use crate::message::multiple_methods_message;
use crate::message::Message;
use crate::message::MessageView;
use crate::method::is_http_method;
use crate::method::is_method_key;
use crate::syntax::line_column_range;
use crate::syntax::name_str;
use crate::syntax::name_text;
use crate::syntax::node_range;
use crate::syntax::Argument;

verus! {

/// Whether the key of `entry` names an HTTP method.
pub open spec fn is_method_entry(entry: Argument) -> bool {
    is_method_key(name_text(entry.0))
}

/// The entries of `entries` whose key names an HTTP method, in their order.
pub open spec fn methods(entries: Seq<Argument>) -> Seq<Argument> {
    entries.filter(|entry: Argument| is_method_entry(entry))
}

/// For each of `entries`, the range that `sources` resolves its value to.
pub open spec fn spans(entries: Seq<Argument>, sources: SourceMap) -> Seq<Option<LocationRange>> {
    entries.map_values(|entry: Argument| node_range(entry.1, sources))
}

/// What validating `entries` comes to. With one entry that names a method,
/// that entry. With none, a report that points at `whole`, the node of the
/// argument. With several, a report that points at the value of each of them.
pub open spec fn validation(
    entries: Seq<Argument>,
    coordinate: Seq<char>,
    whole: Node<Value>,
    sources: SourceMap,
) -> Result<Argument, MessageView> {
    let found = methods(entries);
    if found.len() == 0 {
        Err(missing_method_message(coordinate, node_range(whole, sources)))
    } else if found.len() == 1 {
        Ok(found[0])
    } else {
        Err(multiple_methods_message(coordinate, spans(found, sources)))
    }
}

/// A result as the contracts speak of it: the entry chosen, or the report
/// by its view.
pub open spec fn outcome(result: Result<&Argument, Message>) -> Result<Argument, MessageView> {
    match result {
        Ok(method) => Ok(*method),
        Err(report) => Err(report@),
    }
}

/// The positions in `entries` of the entries whose key names an HTTP method,
/// in rising order.
fn method_positions(entries: &[Argument]) -> (positions: Vec<usize>)
    ensures
        positions@.len() == methods(entries@).len(),
        forall|k: int|
            0 <= k < positions@.len() ==> 0 <= #[trigger] positions@[k] < entries@.len()
                && entries@[positions@[k] as int] == methods(entries@)[k],
        forall|a: int, b: int|
            0 <= a < b < positions@.len() ==> positions@[a] < positions@[b],
{
    let mut positions: Vec<usize> = Vec::new();
    let mut i: usize = 0;
    proof {
        reveal(Seq::filter);
    }
    while i < entries.len()
        invariant
            i <= entries@.len(),
            positions@.len() == methods(entries@.take(i as int)).len(),
            forall|k: int|
                0 <= k < positions@.len() ==> 0 <= #[trigger] positions@[k] < i
                    && entries@[positions@[k] as int] == methods(entries@.take(i as int))[k],
            forall|a: int, b: int|
                0 <= a < b < positions@.len() ==> positions@[a] < positions@[b],
        decreases entries@.len() - i,
    {
        proof {
            reveal(Seq::filter);
            assert(entries@.take(i + 1).drop_last() =~= entries@.take(i as int));
        }
        if is_http_method(name_str(&entries[i].0)) {
            positions.push(i);
        }
        i += 1;
    }
    assert(entries@.take(i as int) =~= entries@);
    positions
}

/// Picks the HTTP method of a connector's `http` argument.
///
/// `http_arg` holds the entries of the argument in the order of the schema
/// source, `http_arg_node` is the node of the whole argument, `coordinate`
/// says in words where in the schema the argument stands, and `source_map`
/// turns nodes into lines and columns.
///
/// Only the entries whose key names a method count; the others are passed
/// over. With exactly one such entry the result is that entry. With none the
/// result is a `MissingHttpMethod` report with the range of the whole
/// argument. With more than one it is a `MultipleHttpMethods` report with the
/// range of each such entry's value, in the order of the source. A range that
/// cannot be resolved is left out of the report.
pub fn validate_http_method_arg<'arg>(
    http_arg: &'arg [Argument],
    coordinate: &str,
    http_arg_node: &Node<Value>,
    source_map: &SourceMap,
) -> (result: Result<&'arg Argument, Message>)
    ensures
        result is Ok <==> methods(http_arg@).len() == 1,
        outcome(result) == validation(http_arg@, coordinate@, *http_arg_node, *source_map),
{
    let positions = method_positions(http_arg);
    if positions.len() == 0 {
        return Err(missing_method(coordinate, line_column_range(http_arg_node, source_map)));
    }
    if positions.len() == 1 {
        return Ok(&http_arg[positions[0]]);
    }
    let ghost found = methods(http_arg@);
    let mut ranges: Vec<Option<LocationRange>> = Vec::new();
    let mut k: usize = 0;
    while k < positions.len()
        invariant
            k <= positions@.len(),
            positions@.len() == found.len(),
            forall|j: int|
                0 <= j < positions@.len() ==> 0 <= #[trigger] positions@[j] < http_arg@.len()
                    && http_arg@[positions@[j] as int] == found[j],
            ranges@ == spans(found.take(k as int), *source_map),
        decreases positions@.len() - k,
    {
        let range = line_column_range(&http_arg[positions[k]].1, source_map);
        ranges.push(range);
        assert(ranges@ =~= spans(found.take(k + 1), *source_map));
        k += 1;
    }
    assert(found.take(k as int) =~= found);
    Err(multiple_methods(coordinate, &ranges))
}

} // verus!
