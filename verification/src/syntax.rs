//! The syntax tree that the validator reads.
//!
//! The tree, its names and its source map belong to `apollo_compiler`. The
//! verifier sees none of their insides: a name is known by its text and a
//! node by the range that the source map resolves it to, and what is stated
//! of either here is taken on trust.

use vstd::prelude::*;
use apollo_compiler::ast::Value;
use apollo_compiler::parser::SourceMap;
use apollo_compiler::Name;
use apollo_compiler::Node;
use crate::location::LineColumn;
use crate::location::LocationRange;

verus! {

/// `apollo_compiler::Name`, a key of an object value.
#[verifier::external_type_specification]
#[verifier::external_body]
pub struct ExName(Name);

/// `apollo_compiler::Node`, a piece of the syntax tree that may know where
/// in a document it was read.
#[verifier::external_type_specification]
#[verifier::external_body]
#[verifier::reject_recursive_types(T)]
pub struct ExNode<T: ?Sized>(Node<T>);

/// `apollo_compiler::ast::Value`, the value of an argument.
#[verifier::external_type_specification]
#[verifier::external_body]
pub struct ExValue(Value);

/// `apollo_compiler::parser::FileId`, the key of a source map.
#[verifier::external_type_specification]
#[verifier::external_body]
pub struct ExFileId(apollo_compiler::parser::FileId);

/// `apollo_compiler::parser::SourceFile`, a document that a source map holds.
#[verifier::external_type_specification]
#[verifier::external_body]
pub struct ExSourceFile(apollo_compiler::parser::SourceFile);

/// `ahash::RandomState`, the hasher of a source map.
#[verifier::external_type_specification]
#[verifier::external_body]
pub struct ExRandomState(ahash::RandomState);

/// `indexmap::IndexMap`, the map that a source map is made of.
#[verifier::external_type_specification]
#[verifier::external_body]
#[verifier::reject_recursive_types(K)]
#[verifier::reject_recursive_types(V)]
#[verifier::reject_recursive_types(S)]
pub struct ExIndexMap<K, V, S>(indexmap::IndexMap<K, V, S>);

/// One entry of an object value: a key and the node of its value.
pub type Argument = (Name, Node<Value>);

/// The text of a name, as `Name::as_str` gives it.
pub uninterp spec fn name_text(name: Name) -> Seq<char>;

/// The range that a source map resolves a node to, if it resolves it, as
/// `Node::line_column_range` gives it.
pub uninterp spec fn node_range(node: Node<Value>, sources: SourceMap) -> Option<LocationRange>;

/// Calls `apollo_compiler::Name::as_str`, which borrows the text of a name.
/// Trusted: the result is the text that `name_text` stands for. Nothing is
/// claimed of what that text holds.
#[verifier::external_body]
pub(crate) fn name_str(name: &Name) -> (text: &str)
    ensures
        text@ == name_text(*name),
{
    name.as_str()
}

/// Calls `apollo_compiler::Node::line_column_range`, which looks up where a
/// node stands in its document, and copies the lines and columns it gives.
/// Trusted: the result is a function of the node and the source map alone,
/// the one that `node_range` stands for. When there is a range is not
/// claimed: a node may carry no location, and a map may not hold its
/// document.
#[verifier::external_body]
pub(crate) fn line_column_range(node: &Node<Value>, sources: &SourceMap) -> (range: Option<
    LocationRange,
>)
    ensures
        range == node_range(*node, *sources),
{
    match node.line_column_range(sources) {
        Some(range) => Some(
            LocationRange {
                start: LineColumn { line: range.start.line, column: range.start.column },
                end: LineColumn { line: range.end.line, column: range.end.column },
            },
        ),
        None => None,
    }
}

} // verus!
