//! What holds of every validation, proved from the definitions.

use vstd::prelude::*;
use apollo_compiler::ast::Value;
use apollo_compiler::parser::SourceMap;
use apollo_compiler::Node;
use crate::location::LocationRange;
use crate::message::missing_method_message;
use crate::message::multiple_methods_message;
use crate::message::resolved;
use crate::message::Code;
use crate::message::Message;
use crate::message::MessageView;
use crate::syntax::node_range;
use crate::syntax::Argument;
use crate::validate::is_method_entry;
use crate::validate::methods;
use crate::validate::outcome;
use crate::validate::spans;
use crate::validate::validation;

verus! {

/// The methods of two lists laid end to end are the methods of the first
/// followed by those of the second.
pub proof fn lemma_methods_of_concat(front: Seq<Argument>, back: Seq<Argument>)
    ensures
        methods(front + back) == methods(front) + methods(back),
{
    Seq::filter_distributes_over_add(front, back, |entry: Argument| is_method_entry(entry));
}

/// A list of one entry has that entry as its only method if its key names
/// one, and no method otherwise.
pub proof fn lemma_methods_of_one(entry: Argument)
    ensures
        methods(seq![entry]) == if is_method_entry(entry) {
            seq![entry]
        } else {
            Seq::<Argument>::empty()
        },
{
    reveal_with_fuel(Seq::filter, 2);
    assert(seq![entry].drop_last() =~= Seq::<Argument>::empty());
    assert(Seq::<Argument>::empty().push(entry) =~= seq![entry]);
}

/// A list in which no key names a method has no methods.
pub proof fn lemma_methods_of_none(entries: Seq<Argument>)
    requires
        forall|j: int| 0 <= j < entries.len() ==> !is_method_entry(#[trigger] entries[j]),
    ensures
        methods(entries) == Seq::<Argument>::empty(),
    decreases entries.len(),
{
    reveal(Seq::filter);
    if entries.len() > 0 {
        lemma_methods_of_none(entries.drop_last());
    } else {
        assert(entries =~= Seq::<Argument>::empty());
    }
}

/// A report never points at more places than there were ranges to resolve.
pub proof fn lemma_resolved_len(ranges: Seq<Option<LocationRange>>)
    ensures
        resolved(ranges).len() <= ranges.len(),
    decreases ranges.len(),
{
    if ranges.len() > 0 {
        lemma_resolved_len(ranges.drop_last());
    }
}

/// Exactly one method: where the entry at `position` is the only one whose
/// key names a method, whatever stands before and after it, validation
/// succeeds with that entry.
pub proof fn lemma_single_method_is_chosen(
    entries: Seq<Argument>,
    position: int,
    coordinate: Seq<char>,
    whole: Node<Value>,
    sources: SourceMap,
)
    requires
        0 <= position < entries.len(),
        is_method_entry(entries[position]),
        forall|j: int|
            0 <= j < entries.len() && j != position ==> !is_method_entry(#[trigger] entries[j]),
    ensures
        methods(entries) == seq![entries[position]],
        validation(entries, coordinate, whole, sources) == Ok::<Argument, MessageView>(
            entries[position],
        ),
{
    let front = entries.take(position);
    let back = entries.skip(position + 1);
    let one = seq![entries[position]];
    assert(entries =~= front + one + back);
    lemma_methods_of_concat(front + one, back);
    lemma_methods_of_concat(front, one);
    lemma_methods_of_none(front);
    lemma_methods_of_none(back);
    lemma_methods_of_one(entries[position]);
    assert(methods(entries) =~= one);
}

/// No method: where no key names a method, and so for the empty list,
/// validation fails with a `MissingHttpMethod` report that points at the
/// range of the whole argument if it has one, and nowhere if not.
pub proof fn lemma_no_method_is_missing(
    entries: Seq<Argument>,
    coordinate: Seq<char>,
    whole: Node<Value>,
    sources: SourceMap,
)
    requires
        forall|j: int| 0 <= j < entries.len() ==> !is_method_entry(#[trigger] entries[j]),
    ensures
        validation(entries, coordinate, whole, sources) == Err::<Argument, MessageView>(
            missing_method_message(coordinate, node_range(whole, sources)),
        ),
        validation(entries, coordinate, whole, sources).unwrap_err().code
            == Code::MissingHttpMethod,
        validation(entries, coordinate, whole, sources).unwrap_err().locations == match node_range(
            whole,
            sources,
        ) {
            Some(range) => seq![range],
            None => Seq::<LocationRange>::empty(),
        },
{
    lemma_methods_of_none(entries);
}

/// Several methods: where two or more keys name a method, validation fails
/// with a `MultipleHttpMethods` report. It points at the ranges of those
/// entries' values that resolve, in the order of the entries, so at no more
/// places than there are such entries.
pub proof fn lemma_several_methods_are_multiple(
    entries: Seq<Argument>,
    coordinate: Seq<char>,
    whole: Node<Value>,
    sources: SourceMap,
)
    requires
        methods(entries).len() >= 2,
    ensures
        validation(entries, coordinate, whole, sources) == Err::<Argument, MessageView>(
            multiple_methods_message(coordinate, spans(methods(entries), sources)),
        ),
        validation(entries, coordinate, whole, sources).unwrap_err().code
            == Code::MultipleHttpMethods,
        validation(entries, coordinate, whole, sources).unwrap_err().locations == resolved(
            spans(methods(entries), sources),
        ),
        validation(entries, coordinate, whole, sources).unwrap_err().locations.len() <= methods(
            entries,
        ).len(),
{
    lemma_resolved_len(spans(methods(entries), sources));
}

/// Two entries at different positions whose keys both name a method, the
/// same one or not, make at least two methods.
pub proof fn lemma_two_methods(entries: Seq<Argument>, first: int, second: int)
    requires
        0 <= first < second < entries.len(),
        is_method_entry(entries[first]),
        is_method_entry(entries[second]),
    ensures
        methods(entries).len() >= 2,
{
    let front = entries.take(first);
    let middle = entries.subrange(first + 1, second);
    let back = entries.skip(second + 1);
    let a = seq![entries[first]];
    let b = seq![entries[second]];
    assert(entries =~= front + a + middle + b + back);
    lemma_methods_of_concat(front + a + middle + b, back);
    lemma_methods_of_concat(front + a + middle, b);
    lemma_methods_of_concat(front + a, middle);
    lemma_methods_of_concat(front, a);
    lemma_methods_of_one(entries[first]);
    lemma_methods_of_one(entries[second]);
}

/// Two lists with the same methods in the same order validate alike: the
/// entries whose key names no method, wherever they stand and however many
/// they are, change neither the outcome nor the entry or the places
/// reported.
pub proof fn lemma_only_methods_matter(
    left: Seq<Argument>,
    right: Seq<Argument>,
    coordinate: Seq<char>,
    whole: Node<Value>,
    sources: SourceMap,
)
    requires
        methods(left) == methods(right),
    ensures
        validation(left, coordinate, whole, sources) == validation(
            right,
            coordinate,
            whole,
            sources,
        ),
{
}

/// Validating the same argument again gives the same: two results that
/// both answer to the validation of one list, at one coordinate, under one
/// source map, choose the same entry or carry the same report.
pub proof fn lemma_validation_is_repeatable(
    first: Result<&Argument, Message>,
    second: Result<&Argument, Message>,
    entries: Seq<Argument>,
    coordinate: Seq<char>,
    whole: Node<Value>,
    sources: SourceMap,
)
    requires
        outcome(first) == validation(entries, coordinate, whole, sources),
        outcome(second) == validation(entries, coordinate, whole, sources),
    ensures
        first is Ok <==> second is Ok,
        first is Ok ==> *first.unwrap() == *second.unwrap(),
        first is Err ==> first.unwrap_err()@ == second.unwrap_err()@,
{
}

/// Putting an entry whose key names no method anywhere into a list leaves
/// its methods, and so its validation, as they were.
pub proof fn lemma_insert_unrecognized(
    entries: Seq<Argument>,
    position: int,
    entry: Argument,
    coordinate: Seq<char>,
    whole: Node<Value>,
    sources: SourceMap,
)
    requires
        0 <= position <= entries.len(),
        !is_method_entry(entry),
    ensures
        methods(entries.insert(position, entry)) == methods(entries),
        validation(entries.insert(position, entry), coordinate, whole, sources) == validation(
            entries,
            coordinate,
            whole,
            sources,
        ),
{
    let front = entries.take(position);
    let back = entries.skip(position);
    assert(entries.insert(position, entry) =~= front + seq![entry] + back);
    assert(entries =~= front + back);
    lemma_methods_of_concat(front + seq![entry], back);
    lemma_methods_of_concat(front, seq![entry]);
    lemma_methods_of_one(entry);
    lemma_methods_of_concat(front, back);
    assert(methods(front) + Seq::<Argument>::empty() =~= methods(front));
}

/// Taking an entry whose key names no method out of a list leaves its
/// methods, and so its validation, as they were.
pub proof fn lemma_remove_unrecognized(
    entries: Seq<Argument>,
    position: int,
    coordinate: Seq<char>,
    whole: Node<Value>,
    sources: SourceMap,
)
    requires
        0 <= position < entries.len(),
        !is_method_entry(entries[position]),
    ensures
        methods(entries.remove(position)) == methods(entries),
        validation(entries.remove(position), coordinate, whole, sources) == validation(
            entries,
            coordinate,
            whole,
            sources,
        ),
{
    let rest = entries.remove(position);
    assert(rest.insert(position, entries[position]) =~= entries);
    lemma_insert_unrecognized(rest, position, entries[position], coordinate, whole, sources);
}

/// Moving an entry whose key names no method to another place in the list
/// leaves its methods, and so its validation, as they were.
pub proof fn lemma_move_unrecognized(
    entries: Seq<Argument>,
    from: int,
    to: int,
    coordinate: Seq<char>,
    whole: Node<Value>,
    sources: SourceMap,
)
    requires
        0 <= from < entries.len(),
        0 <= to < entries.len(),
        !is_method_entry(entries[from]),
    ensures
        methods(entries.remove(from).insert(to, entries[from])) == methods(entries),
        validation(
            entries.remove(from).insert(to, entries[from]),
            coordinate,
            whole,
            sources,
        ) == validation(entries, coordinate, whole, sources),
{
    lemma_remove_unrecognized(entries, from, coordinate, whole, sources);
    lemma_insert_unrecognized(
        entries.remove(from),
        to,
        entries[from],
        coordinate,
        whole,
        sources,
    );
}

} // verus!
