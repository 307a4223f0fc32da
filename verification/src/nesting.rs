//! How elements nest in an event stream: where the element at the head of a
//! stream ends, by counting start and end tags.

use crate::event::{EventView, Token};
use vstd::prelude::*;

verus! {

/// Where the element ends whose content is scanned from index `i` on, at
/// nesting depth `depth` below it: the index after the end tag that closes
/// it, counting start and end tags on the way.
pub open spec fn scan_end(stream: Seq<Token>, i: int, depth: nat) -> Option<int>
    decreases stream.len() - i,
{
    if i < 0 || i >= stream.len() {
        None
    } else {
        match stream[i] {
            Token::Event(EventView::Start { .. }) => scan_end(stream, i + 1, depth + 1),
            Token::Event(EventView::End { .. }) => if depth == 0 {
                Some(i + 1)
            } else {
                scan_end(stream, i + 1, (depth - 1) as nat)
            },
            _ => scan_end(stream, i + 1, depth),
        }
    }
}

/// The number of items that the element at the head of `stream` spans, from
/// its start tag to the end tag at the same depth.
pub open spec fn element_len(stream: Seq<Token>) -> Option<int> {
    if stream.len() > 0 && stream[0] is Event && stream[0]->Event_0 is Start {
        scan_end(stream, 1, 0)
    } else {
        None
    }
}

/// `after` is `before` without the element at its head.
pub open spec fn consumes_element(before: Seq<Token>, after: Seq<Token>) -> bool {
    match element_len(before) {
        Some(k) => after == before.skip(k),
        None => false,
    }
}

/// `after` is what is left of `before` once some items were taken from its
/// front.
pub open spec fn is_rest_of(after: Seq<Token>, before: Seq<Token>) -> bool {
    after.len() <= before.len() && after =~= before.skip(before.len() - after.len())
}

/// What is left of a rest is a rest of the whole.
pub proof fn rest_of_rest(a: Seq<Token>, b: Seq<Token>, c: Seq<Token>)
    requires
        is_rest_of(a, b),
        is_rest_of(b, c),
    ensures
        is_rest_of(a, c),
{
    assert(c.skip(c.len() - b.len()).skip(b.len() - a.len()) =~= c.skip(c.len() - a.len()));
}

/// A stream from some index on is a rest of the stream.
pub proof fn skip_is_rest(stream: Seq<Token>, k: int)
    requires
        0 <= k <= stream.len(),
    ensures
        is_rest_of(stream.skip(k), stream),
{
}

/// An element's end lies after the place from which it was looked for.
pub proof fn scan_end_bounds(stream: Seq<Token>, i: int, depth: nat)
    requires
        0 <= i,
    ensures
        scan_end(stream, i, depth) matches Some(k) ==> i < k <= stream.len(),
    decreases stream.len() - i,
{
    if i < stream.len() {
        match stream[i] {
            Token::Event(EventView::Start { .. }) => scan_end_bounds(stream, i + 1, depth + 1),
            Token::Event(EventView::End { .. }) => if depth != 0 {
                scan_end_bounds(stream, i + 1, (depth - 1) as nat)
            },
            _ => scan_end_bounds(stream, i + 1, depth),
        }
    }
}

/// Consuming an element shortens the stream, and leaves a rest of it.
pub proof fn consumed_is_shorter(before: Seq<Token>, after: Seq<Token>)
    requires
        consumes_element(before, after),
    ensures
        after.len() < before.len(),
        is_rest_of(after, before),
{
    scan_end_bounds(before, 1, 0);
}

/// Looking for an element's end in a suffix of a stream finds the same end
/// as looking from the corresponding place of the whole stream.
pub proof fn scan_end_of_suffix(stream: Seq<Token>, i: int, j: int, depth: nat)
    requires
        0 <= i <= stream.len(),
        0 <= j,
    ensures
        scan_end(stream.skip(i), j, depth) == match scan_end(stream, i + j, depth) {
            Some(k) => Some(k - i),
            None => None,
        },
    decreases stream.len() - (i + j),
{
    if i + j < stream.len() {
        assert(stream.skip(i)[j] == stream[i + j]);
        match stream[i + j] {
            Token::Event(EventView::Start { .. }) => scan_end_of_suffix(
                stream,
                i,
                j + 1,
                depth + 1,
            ),
            Token::Event(EventView::End { .. }) => if depth != 0 {
                scan_end_of_suffix(stream, i, j + 1, (depth - 1) as nat)
            },
            _ => scan_end_of_suffix(stream, i, j + 1, depth),
        }
    }
}

/// Where an element ends at depth `depth`, a look from `extra + 1` levels
/// further down goes on from that place, `extra` levels down.
pub proof fn scan_end_from_deeper(stream: Seq<Token>, i: int, depth: nat, extra: nat)
    requires
        0 <= i,
        scan_end(stream, i, depth) is Some,
    ensures
        scan_end(stream, i, depth + extra + 1) == scan_end(
            stream,
            scan_end(stream, i, depth)->Some_0,
            extra,
        ),
    decreases stream.len() - i,
{
    if i < stream.len() {
        match stream[i] {
            Token::Event(EventView::Start { .. }) => scan_end_from_deeper(
                stream,
                i + 1,
                depth + 1,
                extra,
            ),
            Token::Event(EventView::End { .. }) => if depth != 0 {
                scan_end_from_deeper(stream, i + 1, (depth - 1) as nat, extra)
            },
            _ => scan_end_from_deeper(stream, i + 1, depth, extra),
        }
    }
}

/// Past a child element that starts at index `i`, the look for the parent's
/// end goes on after the child.
pub proof fn scan_end_past_child(stream: Seq<Token>, i: int, after: Seq<Token>)
    requires
        0 <= i < stream.len(),
        consumes_element(stream.skip(i), after),
    ensures
        element_len(stream.skip(i)) matches Some(k) && 2 <= k && i + k <= stream.len() && after
            == stream.skip(i + k) && scan_end(stream, i, 0) == scan_end(stream, i + k, 0),
{
    let k = element_len(stream.skip(i))->Some_0;
    scan_end_bounds(stream.skip(i), 1, 0);
    scan_end_of_suffix(stream, i, 1, 0);
    scan_end_from_deeper(stream, i + 1, 0, 0);
    assert(stream.skip(i)[0] == stream[i]);
    assert(stream.skip(i).skip(k) =~= stream.skip(i + k));
}

} // verus!
