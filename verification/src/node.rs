//! Untyped nodes: an element kept with its name, its attributes, its text
//! and its children, whatever they are.

use crate::error::{outcome, Error, ErrorView};
use crate::escape::{same_text, unescape, unescaped};
use crate::event::{
    attribute_views, head, tail, AttributeView, Event, EventView, RawAttribute, Token,
};
use crate::merge::{rejects_child, Merged};
use crate::nesting::{
    consumed_is_shorter, consumes_element, element_len, is_rest_of, rest_of_rest, scan_end,
    scan_end_bounds, scan_end_of_suffix, scan_end_past_child, skip_is_rest,
};
use crate::reader::{attributes_spec, content_spec, decode_spec, duplicate, PeekingReader};
use crate::visitor::{FromXml, Step, Visitor};
use vstd::prelude::*;

verus! {

/// An attribute of an [`XmlNode`].
#[derive(Debug, Clone, PartialEq)]
pub struct XmlAttribute {
    /// Attribute name.
    pub name: String,
    /// Attribute value.
    pub value: String,
}

/// An XML node that isn't deserialized into a more specific type.
#[derive(Debug, PartialEq, Default)]
pub struct XmlNode {
    /// Tag name of the node.
    pub name: String,
    /// Attributes of the node.
    pub attributes: Vec<XmlAttribute>,
    /// Text content of the node.
    pub text: Option<String>,
    /// Child nodes.
    pub children: Vec<XmlNode>,
}

/// Mathematical content of an [`XmlNode`].
pub struct NodeView {
    pub name: Seq<char>,
    pub attributes: Seq<AttributeView>,
    pub text: Option<Seq<char>>,
    pub children: Seq<NodeView>,
}

/// The contents of the attributes of a node.
pub open spec fn node_attribute_views(attributes: Seq<XmlAttribute>) -> Seq<AttributeView> {
    Seq::new(
        attributes.len(),
        |i: int| AttributeView { name: attributes[i].name@, value: attributes[i].value@ },
    )
}

/// The content of a node.
pub open spec fn node_view(node: XmlNode) -> NodeView
    decreases node,
{
    NodeView {
        name: node.name@,
        attributes: node_attribute_views(node.attributes@),
        text: match node.text {
            Some(text) => Some(text@),
            None => None,
        },
        children: node_views(node.children@),
    }
}

/// The contents of nodes, in order.
pub open spec fn node_views(nodes: Seq<XmlNode>) -> Seq<NodeView>
    decreases nodes,
{
    if nodes.len() == 0 {
        Seq::empty()
    } else {
        node_views(nodes.drop_last()).push(node_view(nodes.last()))
    }
}

impl View for XmlNode {
    type V = NodeView;

    open spec fn view(&self) -> NodeView {
        node_view(*self)
    }
}

/// The contents of nodes with one more node are the contents of the nodes
/// with the content of that node.
pub proof fn node_views_push(nodes: Seq<XmlNode>, node: XmlNode)
    ensures
        node_views(nodes.push(node)) == node_views(nodes).push(node@),
{
    assert(nodes.push(node).drop_last() =~= nodes);
}

/// The content of a node that nothing was handed to yet.
pub open spec fn empty_node() -> NodeView {
    NodeView { name: Seq::empty(), attributes: Seq::empty(), text: None, children: Seq::empty() }
}

/// What a node makes of the attributes from index `i` on: each is kept,
/// with the entity references of its value resolved.
pub open spec fn node_attributes(m: NodeView, attributes: Seq<AttributeView>, i: int) -> (
    NodeView,
    std::result::Result<(), ErrorView>,
)
    decreases attributes.len() - i,
{
    if i < 0 || i >= attributes.len() {
        (m, Ok(()))
    } else {
        match unescaped(attributes[i].value) {
            None => (m, Err(ErrorView::Xml)),
            Some(value) => node_attributes(
                NodeView {
                    attributes: m.attributes.push(
                        AttributeView { name: attributes[i].name, value },
                    ),
                    ..m
                },
                attributes,
                i + 1,
            ),
        }
    }
}

/// The node that the element at the head of a stream decodes to, whatever
/// its name, attributes, text and children, and the events left after it.
pub open spec fn node_spec(pending: Seq<Token>) -> (
    std::result::Result<NodeView, ErrorView>,
    Seq<Token>,
)
    decreases pending.len(), 0nat,
{
    match head(pending) {
        Err(error) => (Err(error), tail(pending)),
        Ok(Some(EventView::Start { name, attributes, malformed })) => {
            let visited = node_attributes(NodeView { name, ..empty_node() }, attributes, 0);
            match visited.1 {
                Err(error) => (Err(error), pending),
                Ok(()) => if malformed {
                    (Err(ErrorView::Xml), pending)
                } else {
                    node_content(visited.0, name, pending.skip(1))
                },
            }
        },
        _ => (Err(ErrorView::MissingStart), pending),
    }
}

/// The node that the content of an element completes, for the node `m` so
/// far inside the element named `open`. The last text of an element is the
/// text of its node.
pub open spec fn node_content(m: NodeView, open: Seq<char>, pending: Seq<Token>) -> (
    std::result::Result<NodeView, ErrorView>,
    Seq<Token>,
)
    decreases pending.len(), 1nat,
{
    if pending.len() == 0 {
        (Err(ErrorView::MissingEnd(open)), pending)
    } else {
        match pending[0] {
            Token::Failure => (Err(ErrorView::Xml), pending.skip(1)),
            Token::Event(EventView::End { name }) => if name == open {
                (Ok(m), pending.skip(1))
            } else {
                (Err(ErrorView::WrongEnd(open, name)), pending.skip(1))
            },
            Token::Event(EventView::Text { content }) => match unescaped(content) {
                None => (Err(ErrorView::Xml), pending),
                Some(text) => node_content(NodeView { text: Some(text), ..m }, open, pending.skip(1)),
            },
            Token::Event(EventView::Start { .. }) => {
                let (child, rest) = node_spec(pending);
                match child {
                    Err(error) => (Err(error), rest),
                    Ok(node) => if rest.len() < pending.len() {
                        node_content(NodeView { children: m.children.push(node), ..m }, open, rest)
                    } else {
                        (Err(ErrorView::MissingEnd(open)), rest)
                    },
                }
            },
            Token::Event(EventView::Other) => node_content(m, open, pending.skip(1)),
        }
    }
}

/// A decode of a node's content that succeeds from index `i` of a stream
/// ends where the element ends that is looked for from there; a decode of
/// a node that succeeds has consumed exactly the element at the head.
proof fn node_ends_element(m: NodeView, open: Seq<char>, stream: Seq<Token>, i: int, content: bool)
    requires
        0 <= i <= stream.len(),
        content ==> node_content(m, open, stream.skip(i)).0 is Ok,
        !content ==> node_spec(stream.skip(i)).0 is Ok,
    ensures
        content ==> (scan_end(stream, i, 0) matches Some(k) && node_content(
            m,
            open,
            stream.skip(i),
        ).1 == stream.skip(k)),
        !content ==> consumes_element(stream.skip(i), node_spec(stream.skip(i)).1),
    decreases stream.len() - i, (if content { 1nat } else { 0nat }),
{
    let pending = stream.skip(i);
    if !content {
        let name = head(pending)->Ok_0->Some_0->Start_name;
        let attributes = head(pending)->Ok_0->Some_0->Start_attributes;
        let visited = node_attributes(NodeView { name, ..empty_node() }, attributes, 0);
        assert(pending.skip(1) =~= stream.skip(i + 1));
        node_ends_element(visited.0, name, stream, i + 1, true);
        scan_end_of_suffix(stream, i, 1, 0);
        let k = scan_end(stream, i + 1, 0)->Some_0;
        scan_end_bounds(stream, i + 1, 0);
        assert(pending.skip(k - i) =~= stream.skip(k));
    } else if i < stream.len() {
        assert(pending[0] == stream[i]);
        assert(pending.skip(1) =~= stream.skip(i + 1));
        match stream[i] {
            Token::Failure => {},
            Token::Event(EventView::End { name }) => {},
            Token::Event(EventView::Text { content }) => {
                let text = unescaped(content)->Some_0;
                node_ends_element(NodeView { text: Some(text), ..m }, open, stream, i + 1, true);
            },
            Token::Event(EventView::Start { .. }) => {
                let (child, rest) = node_spec(pending);
                node_ends_element(m, open, stream, i, false);
                scan_end_past_child(stream, i, rest);
                let k = element_len(pending)->Some_0;
                node_ends_element(
                    NodeView { children: m.children.push(child->Ok_0), ..m },
                    open,
                    stream,
                    i + k,
                    true,
                );
            },
            Token::Event(EventView::Other) => {
                node_ends_element(m, open, stream, i + 1, true);
            },
        }
    }
}

/// A decode of a node that succeeds has consumed exactly the element at
/// the head of the stream.
pub proof fn node_consumes_element(pending: Seq<Token>)
    requires
        node_spec(pending).0 is Ok,
    ensures
        consumes_element(pending, node_spec(pending).1),
{
    assert(pending.skip(0) =~= pending);
    node_ends_element(empty_node(), Seq::empty(), pending, 0, false);
}

/// A decode of a node only takes events from the front of the stream.
proof fn node_leaves_rest_of(m: NodeView, open: Seq<char>, pending: Seq<Token>, content: bool)
    ensures
        content ==> is_rest_of(node_content(m, open, pending).1, pending),
        !content ==> is_rest_of(node_spec(pending).1, pending),
    decreases pending.len(), (if content { 1nat } else { 0nat }),
{
    skip_is_rest(pending, 0);
    if pending.len() > 0 {
        skip_is_rest(pending, 1);
        let rest = pending.skip(1);
        if !content {
            match pending[0] {
                Token::Event(EventView::Start { name, attributes, malformed }) => {
                    let visited = node_attributes(
                        NodeView { name, ..empty_node() },
                        attributes,
                        0,
                    );
                    node_leaves_rest_of(visited.0, name, rest, true);
                    rest_of_rest(node_content(visited.0, name, rest).1, rest, pending);
                },
                _ => {},
            }
        } else {
            match pending[0] {
                Token::Failure => {},
                Token::Event(EventView::End { name }) => {},
                Token::Event(EventView::Text { content }) => match unescaped(content) {
                    None => {},
                    Some(text) => {
                        let next = NodeView { text: Some(text), ..m };
                        node_leaves_rest_of(next, open, rest, true);
                        rest_of_rest(node_content(next, open, rest).1, rest, pending);
                    },
                },
                Token::Event(EventView::Start { .. }) => {
                    let (child, after) = node_spec(pending);
                    node_leaves_rest_of(m, open, pending, false);
                    if child is Ok && after.len() < pending.len() {
                        let next = NodeView { children: m.children.push(child->Ok_0), ..m };
                        node_leaves_rest_of(next, open, after, true);
                        rest_of_rest(node_content(next, open, after).1, after, pending);
                    }
                },
                Token::Event(EventView::Other) => {
                    node_leaves_rest_of(m, open, rest, true);
                    rest_of_rest(node_content(m, open, rest).1, rest, pending);
                },
            }
        }
    }
}

/// A decode of a node only takes events from the front of the stream.
pub proof fn node_leaves_rest(pending: Seq<Token>)
    ensures
        is_rest_of(node_spec(pending).1, pending),
{
    node_leaves_rest_of(empty_node(), Seq::empty(), pending, false);
}

/// Mathematical content of the result of the decode of a node.
pub open spec fn node_result(r: std::result::Result<XmlNode, Error>) -> std::result::Result<
    NodeView,
    ErrorView,
> {
    match r {
        Ok(node) => Ok(node@),
        Err(error) => Err(error@),
    }
}

/// Keeps the attributes of a start tag in a node, in document order, each
/// with the entity references of its value resolved, up to the first that
/// cannot be resolved.
fn keep_attributes(node: &mut XmlNode, attributes: &Vec<RawAttribute>) -> (r: std::result::Result<
    (),
    Error,
>)
    ensures
        (final(node)@, outcome(r)) == node_attributes(
            old(node)@,
            attribute_views(attributes@),
            0,
        ),
{
    let mut i: usize = 0;
    while i < attributes.len()
        invariant
            0 <= i <= attributes.len(),
            node_attributes(old(node)@, attribute_views(attributes@), 0) == node_attributes(
                node@,
                attribute_views(attributes@),
                i as int,
            ),
        decreases attributes.len() - i,
    {
        let attribute = &attributes[i];
        assert(attribute_views(attributes@)[i as int] == attribute@);
        match unescape(attribute.value.as_str()) {
            Err(error) => {
                return Err(Error::Xml(error));
            },
            Ok(value) => {
                let ghost before = node@;
                node.attributes.push(XmlAttribute { name: attribute.name.clone(), value });
                assert(node@.attributes =~= before.attributes.push(
                    AttributeView { name: attribute.name@, value: value@ },
                ));
            },
        }
        i = i + 1;
    }
    Ok(())
}

impl Clone for XmlNode {
    fn clone(&self) -> (node: XmlNode)
        ensures
            node@ == self@,
    {
        self.copy()
    }
}

impl XmlNode {
    /// A copy of the node, with copies of all the nodes below it.
    pub fn copy(&self) -> (node: XmlNode)
        ensures
            node@ == self@,
        decreases self,
    {
        let mut attributes: Vec<XmlAttribute> = Vec::new();
        let mut i: usize = 0;
        while i < self.attributes.len()
            invariant
                0 <= i <= self.attributes.len(),
                attributes@.len() == i,
                forall|j: int|
                    0 <= j < i ==> attributes@[j].name@ == self.attributes@[j].name@
                        && attributes@[j].value@ == self.attributes@[j].value@,
            decreases self.attributes.len() - i,
        {
            let attribute = &self.attributes[i];
            attributes.push(
                XmlAttribute { name: attribute.name.clone(), value: attribute.value.clone() },
            );
            i = i + 1;
        }
        let mut children: Vec<XmlNode> = Vec::new();
        let mut k: usize = 0;
        assert(self.children@.take(0) =~= Seq::<XmlNode>::empty());
        while k < self.children.len()
            invariant
                0 <= k <= self.children.len(),
                node_views(children@) == node_views(self.children@.take(k as int)),
            decreases self.children.len() - k,
        {
            let child = self.children[k].copy();
            proof {
                node_views_push(children@, child);
                node_views_push(self.children@.take(k as int), self.children@[k as int]);
                assert(self.children@.take(k as int).push(self.children@[k as int])
                    =~= self.children@.take(k + 1));
            }
            children.push(child);
            k = k + 1;
        }
        assert(self.children@.take(k as int) =~= self.children@);
        let text = match &self.text {
            Some(text) => Some(text.clone()),
            None => None,
        };
        let node = XmlNode { name: self.name.clone(), attributes, text, children };
        assert(node_attribute_views(node.attributes@) =~= node_attribute_views(
            self.attributes@,
        ));
        node
    }

    /// A node without name, attributes, text and children.
    pub fn new() -> (node: XmlNode)
        ensures
            node@ == empty_node(),
    {
        let node = XmlNode {
            name: String::new(),
            attributes: Vec::new(),
            text: None,
            children: Vec::new(),
        };
        assert(node@.attributes =~= Seq::empty());
        node
    }

    /// Read a single element from the XML input into a node, with all that
    /// it holds.
    pub fn read(reader: &mut PeekingReader) -> (r: std::result::Result<XmlNode, Error>)
        ensures
            (node_result(r), final(reader).pending()) == node_spec(old(reader).pending()),
            r is Ok ==> !final(reader).has_peeked(),
        decreases old(reader).pending().len(),
    {
        let mut node = XmlNode::new();
        let start_tag: String;
        match reader.peek_event() {
            Err(error) => {
                return Err(error);
            },
            Ok(Some(Event::Start { name, attributes, malformed })) => {
                node.name = name.clone();
                start_tag = name.clone();
                assert(node@ == NodeView { name: name@, ..empty_node() });
                match keep_attributes(&mut node, attributes) {
                    Err(error) => {
                        return Err(error);
                    },
                    Ok(()) => {},
                }
                match malformed {
                    Some(error) => {
                        return Err(Error::Xml(duplicate(error)));
                    },
                    None => {},
                }
            },
            Ok(_) => {
                return Err(Error::MissingStart);
            },
        }
        match reader.read_event() {
            Err(error) => {
                return Err(error);
            },
            Ok(_) => {},
        }
        loop
            invariant
                node_spec(old(reader).pending()) == node_content(
                    node@,
                    start_tag@,
                    reader.pending(),
                ),
                reader.pending().len() < old(reader).pending().len(),
            decreases reader.pending().len(),
        {
            let ghost before = reader.pending();
            let ghost m = node@;
            match reader.peek_event() {
                Err(error) => {
                    return Err(error);
                },
                Ok(None) => {
                    return Err(Error::MissingEnd(start_tag));
                },
                Ok(Some(Event::End { name })) => {
                    let name = name.clone();
                    match reader.read_event() {
                        Err(error) => {
                            return Err(error);
                        },
                        Ok(_) => {},
                    }
                    if !same_text(name.as_str(), start_tag.as_str()) {
                        return Err(Error::WrongEnd(start_tag, name));
                    }
                    return Ok(node);
                },
                Ok(Some(Event::Text { content })) => {
                    match unescape(content.as_str()) {
                        Err(error) => {
                            return Err(Error::Xml(error));
                        },
                        Ok(text) => {
                            node.text = Some(text);
                        },
                    }
                    match reader.read_event() {
                        Err(error) => {
                            return Err(error);
                        },
                        Ok(_) => {},
                    }
                },
                Ok(Some(Event::Start { .. })) => {
                    match XmlNode::read(reader) {
                        Err(error) => {
                            return Err(error);
                        },
                        Ok(child) => {
                            proof {
                                node_consumes_element(before);
                                consumed_is_shorter(before, reader.pending());
                            }
                            proof {
                                node_views_push(node.children@, child);
                            }
                            node.children.push(child);
                        },
                    }
                },
                Ok(Some(Event::Other)) => {
                    match reader.read_event() {
                        Err(error) => {
                            return Err(error);
                        },
                        Ok(_) => {},
                    }
                },
            }
        }
    }
}

impl Visitor for XmlNode {
    type Output = XmlNode;

    type Model = NodeView;

    type Value = NodeView;

    open spec fn model(&self) -> NodeView {
        self@
    }

    open spec fn value(output: &XmlNode) -> NodeView {
        output@
    }

    open spec fn initial() -> NodeView {
        empty_node()
    }

    open spec fn expected_name() -> Option<Seq<char>> {
        None
    }

    open spec fn tag_spec(m: NodeView, name: Seq<char>) -> Step<NodeView> {
        (NodeView { name, ..m }, Ok(()))
    }

    open spec fn attribute_spec(m: NodeView, name: Seq<char>, value: Seq<char>) -> Step<NodeView> {
        (NodeView { attributes: m.attributes.push(AttributeView { name, value }), ..m }, Ok(()))
    }

    open spec fn text_spec(m: NodeView, text: Seq<char>) -> Step<NodeView> {
        (NodeView { text: Some(text), ..m }, Ok(()))
    }

    open spec fn child_spec(m: NodeView, name: Seq<char>, pending: Seq<Token>) -> (
        Step<NodeView>,
        Seq<Token>,
    ) {
        let (child, rest) = node_spec(pending);
        match child {
            Ok(node) => ((NodeView { children: m.children.push(node), ..m }, Ok(())), rest),
            Err(error) => ((m, Err(error)), rest),
        }
    }

    open spec fn build_spec(m: NodeView) -> std::result::Result<NodeView, ErrorView> {
        Ok(m)
    }

    proof fn child_is_consumed(m: NodeView, name: Seq<char>, pending: Seq<Token>) {
        node_leaves_rest(pending);
        if node_spec(pending).0 is Ok {
            node_consumes_element(pending);
        }
    }

    fn fresh() -> XmlNode {
        XmlNode::new()
    }

    fn start_name() -> Option<&'static str> {
        None
    }

    fn visit_tag(&mut self, name: &str) -> std::result::Result<(), Error> {
        self.name = name.to_owned();
        Ok(())
    }

    fn visit_attribute(&mut self, name: &str, value: &str) -> std::result::Result<(), Error> {
        self.attributes.push(XmlAttribute { name: name.to_owned(), value: value.to_owned() });
        assert(self@.attributes =~= old(self)@.attributes.push(
            AttributeView { name: name@, value: value@ },
        ));
        Ok(())
    }

    fn visit_child(&mut self, name: &str, reader: &mut PeekingReader) -> std::result::Result<
        (),
        Error,
    > {
        match XmlNode::read(reader) {
            Ok(child) => {
                proof {
                    node_views_push(self.children@, child);
                }
                self.children.push(child);
                Ok(())
            },
            Err(error) => Err(error),
        }
    }

    fn visit_text(&mut self, text: &str) -> std::result::Result<(), Error> {
        self.text = Some(text.to_owned());
        Ok(())
    }

    fn build(self) -> std::result::Result<XmlNode, Error> {
        Ok(self)
    }
}

impl FromXml for XmlNode {
    type Visitor = XmlNode;
}

/// The decode engine with an [`XmlNode`] as its visitor keeps the
/// attributes as [`node_attributes`] says.
proof fn engine_keeps_attributes(m: NodeView, attributes: Seq<AttributeView>, i: int)
    ensures
        attributes_spec::<XmlNode>(m, attributes, i) == node_attributes(
            m,
            attributes,
            i,
        ),
    decreases attributes.len() - i,
{
    if 0 <= i < attributes.len() {
        match unescaped(attributes[i].value) {
            None => {},
            Some(value) => {
                engine_keeps_attributes(
                    NodeView {
                        attributes: m.attributes.push(
                            AttributeView { name: attributes[i].name, value },
                        ),
                        ..m
                    },
                    attributes,
                    i + 1,
                );
            },
        }
    }
}

/// The decode engine with an [`XmlNode`] as its visitor completes a node as
/// [`node_content`] says.
proof fn engine_completes_node(m: NodeView, open: Seq<char>, pending: Seq<Token>)
    ensures
        content_spec::<XmlNode>(m, open, pending) == node_content(m, open, pending),
    decreases pending.len(),
{
    if pending.len() > 0 {
        match pending[0] {
            Token::Failure => {},
            Token::Event(EventView::End { name }) => {},
            Token::Event(EventView::Text { content }) => match unescaped(content) {
                None => {},
                Some(text) => {
                    engine_completes_node(NodeView { text: Some(text), ..m }, open, pending.skip(1));
                },
            },
            Token::Event(EventView::Start { .. }) => {
                let (child, rest) = node_spec(pending);
                if child is Ok {
                    node_consumes_element(pending);
                    consumed_is_shorter(pending, rest);
                    engine_completes_node(
                        NodeView { children: m.children.push(child->Ok_0), ..m },
                        open,
                        rest,
                    );
                }
            },
            Token::Event(EventView::Other) => {
                engine_completes_node(m, open, pending.skip(1));
            },
        }
    }
}

/// Decoding an [`XmlNode`] with the decode engine and reading one with
/// [`XmlNode::read`] give the same node and leave the same events.
pub proof fn engine_reads_nodes(pending: Seq<Token>)
    ensures
        decode_spec::<XmlNode>(pending) == node_spec(pending),
{
    if pending.len() > 0 {
        match pending[0] {
            Token::Event(EventView::Start { name, attributes, malformed }) => {
                let tagged = NodeView { name, ..empty_node() };
                engine_keeps_attributes(tagged, attributes, 0);
                let visited = node_attributes(tagged, attributes, 0);
                engine_completes_node(visited.0, name, pending.skip(1));
            },
            _ => {},
        }
    }
}

/// A node keeps the last text that it is handed, and accepts every
/// attribute: nothing is rejected.
pub proof fn node_accepts_everything(m: NodeView, name: Seq<char>, value: Seq<char>)
    ensures
        XmlNode::attribute_spec(m, name, value).1 is Ok,
        XmlNode::text_spec(m, value).1 is Ok,
        XmlNode::text_spec(m, value).0.text == Some(value),
        XmlNode::tag_spec(m, name).0.name == name,
{
}

/// The decode of a node never fails with the rejection of a child: a node
/// keeps every child.
proof fn node_never_rejects(m: NodeView, open: Seq<char>, pending: Seq<Token>, content: bool)
    ensures
        content ==> !rejects_child(discard_value(node_content(m, open, pending).0)),
        !content ==> !rejects_child(discard_value(node_spec(pending).0)),
    decreases pending.len(), (if content { 1nat } else { 0nat }),
{
    if pending.len() > 0 {
        let rest = pending.skip(1);
        if !content {
            match pending[0] {
                Token::Event(EventView::Start { name, attributes, malformed }) => {
                    let tagged = NodeView { name, ..empty_node() };
                    node_attributes_never_reject(tagged, attributes, 0);
                    node_never_rejects(node_attributes(tagged, attributes, 0).0, name, rest, true);
                },
                _ => {},
            }
        } else {
            match pending[0] {
                Token::Failure => {},
                Token::Event(EventView::End { name }) => {},
                Token::Event(EventView::Text { content }) => match unescaped(content) {
                    None => {},
                    Some(text) => {
                        node_never_rejects(NodeView { text: Some(text), ..m }, open, rest, true);
                    },
                },
                Token::Event(EventView::Start { .. }) => {
                    let (child, after) = node_spec(pending);
                    node_never_rejects(m, open, pending, false);
                    if child is Ok && after.len() < pending.len() {
                        node_never_rejects(
                            NodeView { children: m.children.push(child->Ok_0), ..m },
                            open,
                            after,
                            true,
                        );
                    }
                },
                Token::Event(EventView::Other) => {
                    node_never_rejects(m, open, rest, true);
                },
            }
        }
    }
}

/// Keeping attributes fails with a tokenizer error only.
proof fn node_attributes_never_reject(m: NodeView, attributes: Seq<AttributeView>, i: int)
    ensures
        node_attributes(m, attributes, i).1 is Err ==> node_attributes(m, attributes, i).1
            == Err::<(), ErrorView>(ErrorView::Xml),
    decreases attributes.len() - i,
{
    if 0 <= i < attributes.len() {
        match unescaped(attributes[i].value) {
            None => {},
            Some(value) => {
                node_attributes_never_reject(
                    NodeView {
                        attributes: m.attributes.push(
                            AttributeView { name: attributes[i].name, value },
                        ),
                        ..m
                    },
                    attributes,
                    i + 1,
                );
            },
        }
    }
}

/// The outcome of a decode without its value.
pub open spec fn discard_value<T>(r: std::result::Result<T, ErrorView>) -> std::result::Result<
    (),
    ErrorView,
> {
    match r {
        Ok(_) => Ok(()),
        Err(error) => Err(error),
    }
}

/// A node claims everything: a candidate that is merged after a node is
/// never handed an attribute, a text or a child, and one node is enough to
/// keep all that the candidates before it reject.
pub proof fn nothing_passes_a_node<B: Visitor>(
    m: (NodeView, B::Model),
    name: Seq<char>,
    value: Seq<char>,
    pending: Seq<Token>,
)
    ensures
        Merged::<XmlNode, B>::attribute_spec(m, name, value).0.1 == m.1,
        Merged::<XmlNode, B>::attribute_spec(m, name, value).1 is Ok,
        Merged::<XmlNode, B>::text_spec(m, value).0.1 == m.1,
        Merged::<XmlNode, B>::text_spec(m, value).1 is Ok,
        Merged::<XmlNode, B>::child_spec(m, name, pending).0.0.1 == m.1,
        Merged::<XmlNode, B>::child_spec(m, name, pending).1 == node_spec(pending).1,
{
    node_never_rejects(empty_node(), Seq::empty(), pending, false);
}

} // verus!
