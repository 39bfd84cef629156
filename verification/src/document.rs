//! A parsed page as a flat list of nodes in document order, each with its
//! depth in the tree, and the searches the fixture extraction needs on it.

use crate::text::texts;
use scraper::Html;
use vstd::prelude::*;
use vstd::string::*;

verus! {

/// An element of the page: its tag name, its `id` attribute and its class
/// tokens in the order scraper hands them out, which is sorted and without
/// repeats.
#[derive(Clone, Debug, PartialEq, Eq)]
pub struct Element {
    pub name: String,
    pub id: Option<String>,
    pub classes: Vec<String>,
}

/// What a node of the page is.
#[derive(Clone, Debug, PartialEq, Eq)]
pub enum Content {
    Element(Element),
    Text(String),
    /// The document node, a comment, a doctype or a processing instruction.
    Other,
}

/// A node of the page and the number of its ancestors.
#[derive(Clone, Debug, PartialEq, Eq)]
pub struct Node {
    pub depth: usize,
    pub content: Content,
}

/// A page: its nodes in document order.
#[derive(Debug)]
pub struct Document {
    nodes: Vec<Node>,
}

/// An element, as mathematical values.
pub struct ElementView {
    pub name: Seq<char>,
    pub id: Option<Seq<char>>,
    pub classes: Seq<Seq<char>>,
}

/// What a node is, as mathematical values.
pub enum ContentView {
    Element(ElementView),
    Text(Seq<char>),
    Other,
}

/// A node and its depth, as mathematical values.
pub struct NodeView {
    pub depth: nat,
    pub content: ContentView,
}

/// The parts of a page that the extraction looks for.
#[derive(Clone, Copy, Debug, PartialEq, Eq, Structural)]
pub enum Pattern {
    /// The container that carries the fixtures: `div` with the id `main-data`.
    Anchor,
    /// A grouping element: `div`.
    Group,
    /// A date heading: `h2`.
    Date,
    /// A competition heading: `h3`.
    Competition,
    /// A kick-off time: `time`.
    Time,
    /// A team name: `span` whose first class token, in the order the
    /// element holds them, is `emlpoi30`.
    TeamName,
}

/// The nodes that scraper's parser builds for the page `text`, in document
/// order.
pub uninterp spec fn html_nodes(text: Seq<char>) -> Seq<NodeView>;

/// The views of a list of nodes.
pub open spec fn node_views(nodes: Seq<Node>) -> Seq<NodeView> {
    nodes.map_values(|n: Node| n@)
}

pub open spec fn is_element_named(node: NodeView, name: Seq<char>) -> bool {
    node.content matches ContentView::Element(e) && e.name == name
}

pub open spec fn matches_pattern(node: NodeView, pattern: Pattern) -> bool {
    match pattern {
        Pattern::Anchor => node.content matches ContentView::Element(e) && e.name == "div"@
            && e.id == Some("main-data"@),
        Pattern::Group => is_element_named(node, "div"@),
        Pattern::Date => is_element_named(node, "h2"@),
        Pattern::Competition => is_element_named(node, "h3"@),
        Pattern::Time => is_element_named(node, "time"@),
        Pattern::TeamName => node.content matches ContentView::Element(e) && e.name == "span"@
            && e.classes.len() > 0 && e.classes[0] == "emlpoi30"@,
    }
}

/// Where the run of nodes deeper than `depth` that starts at `from` ends.
pub open spec fn run_end(nodes: Seq<NodeView>, depth: nat, from: int) -> int
    decreases nodes.len() - from,
{
    if from < 0 || from >= nodes.len() || nodes[from].depth <= depth {
        from
    } else {
        run_end(nodes, depth, from + 1)
    }
}

/// One past the last descendant of the node at `i`: its descendants are the
/// nodes between `i` and this index.
pub open spec fn subtree_end(nodes: Seq<NodeView>, i: int) -> int {
    run_end(nodes, nodes[i].depth, i + 1)
}

/// The first index in `lo..hi` whose node matches `pattern`.
pub open spec fn first_match(nodes: Seq<NodeView>, lo: int, hi: int, pattern: Pattern) -> Option<
    int,
>
    decreases hi - lo,
{
    if lo >= hi {
        None
    } else if matches_pattern(nodes[lo], pattern) {
        Some(lo)
    } else {
        first_match(nodes, lo + 1, hi, pattern)
    }
}

/// The first text node in `lo..hi`.
pub open spec fn first_text_in(nodes: Seq<NodeView>, lo: int, hi: int) -> Option<Seq<char>>
    decreases hi - lo,
{
    if lo >= hi {
        None
    } else {
        match nodes[lo].content {
            ContentView::Text(t) => Some(t),
            _ => first_text_in(nodes, lo + 1, hi),
        }
    }
}

/// The first text below the node at `i`.
pub open spec fn first_text(nodes: Seq<NodeView>, i: int) -> Option<Seq<char>> {
    first_text_in(nodes, i + 1, subtree_end(nodes, i))
}

/// The first texts of the nodes in `lo..hi` that match `pattern`, in
/// document order; `None` if one of them has no text below it.
pub open spec fn collected(nodes: Seq<NodeView>, lo: int, hi: int, pattern: Pattern) -> Option<
    Seq<Seq<char>>,
>
    decreases hi - lo,
{
    if hi <= lo {
        Some(Seq::empty())
    } else {
        match collected(nodes, lo, hi - 1, pattern) {
            None => None,
            Some(before) => if !matches_pattern(nodes[hi - 1], pattern) {
                Some(before)
            } else {
                match first_text(nodes, hi - 1) {
                    Some(t) => Some(before.push(t)),
                    None => None,
                }
            },
        }
    }
}

impl View for Element {
    type V = ElementView;

    open spec fn view(&self) -> ElementView {
        ElementView {
            name: self.name@,
            id: match self.id {
                Some(id) => Some(id@),
                None => None,
            },
            classes: texts(self.classes@),
        }
    }
}

impl View for Content {
    type V = ContentView;

    open spec fn view(&self) -> ContentView {
        match self {
            Content::Element(e) => ContentView::Element(e@),
            Content::Text(t) => ContentView::Text(t@),
            Content::Other => ContentView::Other,
        }
    }
}

impl View for Node {
    type V = NodeView;

    open spec fn view(&self) -> NodeView {
        NodeView { depth: self.depth as nat, content: self.content@ }
    }
}

impl View for Document {
    type V = Seq<NodeView>;

    closed spec fn view(&self) -> Seq<NodeView> {
        node_views(self.nodes@)
    }
}

/// Calls `scraper::Html::parse_document` and lists the nodes of the tree it
/// builds, root first, in the order `ego_tree`'s `descendants` walks them,
/// each with the number of its ancestors. Trusted: the list depends on the
/// page text alone.
#[verifier::external_body]
fn parse_nodes(text: &str) -> (nodes: Vec<Node>)
    ensures
        node_views(nodes@) == html_nodes(text@),
{
    let html = Html::parse_document(text);
    html.tree.root().descendants().map(|n| Node {
        depth: n.ancestors().count(),
        content: match n.value() {
            scraper::Node::Element(e) => Content::Element(Element {
                name: e.name().to_string(),
                id: e.id().map(String::from),
                classes: e.classes().map(String::from).collect(),
            }),
            scraper::Node::Text(t) => Content::Text(t.to_string()),
            _ => Content::Other,
        },
    }).collect()
}

/// Whether `text` and `literal` read the same.
fn same_text(text: &String, literal: &str) -> (same: bool)
    ensures
        same == (text@ == literal@),
{
    let wanted = String::from_str(literal);
    *text == wanted
}

impl Element {
    fn is_named(&self, name: &str) -> (named: bool)
        ensures
            named == (self@.name == name@),
    {
        same_text(&self.name, name)
    }

    fn has_id(&self, id: &str) -> (has: bool)
        ensures
            has == (self@.id == Some(id@)),
    {
        match &self.id {
            Some(own) => same_text(own, id),
            None => false,
        }
    }

    fn first_class_is(&self, class: &str) -> (is: bool)
        ensures
            is == (self@.classes.len() > 0 && self@.classes[0] == class@),
    {
        if self.classes.len() > 0 {
            same_text(&self.classes[0], class)
        } else {
            false
        }
    }
}

impl Node {
    /// Whether the node is what `pattern` looks for.
    pub fn matches(&self, pattern: Pattern) -> (matching: bool)
        ensures
            matching == matches_pattern(self@, pattern),
    {
        match &self.content {
            Content::Element(e) => match pattern {
                Pattern::Anchor => e.is_named("div") && e.has_id("main-data"),
                Pattern::Group => e.is_named("div"),
                Pattern::Date => e.is_named("h2"),
                Pattern::Competition => e.is_named("h3"),
                Pattern::Time => e.is_named("time"),
                Pattern::TeamName => e.is_named("span") && e.first_class_is("emlpoi30"),
            },
            _ => false,
        }
    }
}

impl Document {
    /// Parses a page.
    pub fn parse(text: &str) -> (document: Document)
        ensures
            document@ == html_nodes(text@),
    {
        Document { nodes: parse_nodes(text) }
    }

    /// A document made of the given nodes, taken to be in document order.
    pub fn from_nodes(nodes: Vec<Node>) -> (document: Document)
        ensures
            document@ == node_views(nodes@),
    {
        Document { nodes }
    }

    pub fn len(&self) -> (len: usize)
        ensures
            len == self@.len(),
    {
        self.nodes.len()
    }

    pub fn node(&self, index: usize) -> (node: &Node)
        requires
            index < self@.len(),
        ensures
            node@ == self@[index as int],
    {
        &self.nodes[index]
    }

    /// One past the last descendant of the node at `index`.
    pub fn subtree_end(&self, index: usize) -> (end: usize)
        requires
            index < self@.len(),
        ensures
            end == subtree_end(self@, index as int),
            index < end <= self@.len(),
    {
        let total = self.nodes.len();
        let depth = self.nodes[index].depth;
        let mut end = index + 1;
        while end < total && self.nodes[end].depth > depth
            invariant
                total == self@.len(),
                index < end <= total,
                depth == self@[index as int].depth,
                run_end(self@, depth as nat, end as int) == subtree_end(self@, index as int),
            decreases self@.len() - end,
        {
            end += 1;
        }
        end
    }

    /// The first node in `lo..hi` that matches `pattern`.
    pub fn first_match(&self, lo: usize, hi: usize, pattern: Pattern) -> (found: Option<usize>)
        requires
            hi <= self@.len(),
        ensures
            found is Some <==> first_match(self@, lo as int, hi as int, pattern) is Some,
            found matches Some(i) ==> Some(i as int) == first_match(
                self@,
                lo as int,
                hi as int,
                pattern,
            ) && lo <= i < hi,
    {
        let mut at = lo;
        while at < hi
            invariant
                hi <= self@.len(),
                lo <= at,
                first_match(self@, at as int, hi as int, pattern) == first_match(
                    self@,
                    lo as int,
                    hi as int,
                    pattern,
                ),
            decreases hi - at,
        {
            if self.nodes[at].matches(pattern) {
                return Some(at);
            }
            at += 1;
        }
        None
    }

    /// The first text below the node at `index`.
    pub fn first_text(&self, index: usize) -> (text: Option<String>)
        requires
            index < self@.len(),
        ensures
            text is Some <==> first_text(self@, index as int) is Some,
            text matches Some(t) ==> Some(t@) == first_text(self@, index as int),
    {
        let end = self.subtree_end(index);
        let mut at = index + 1;
        while at < end
            invariant
                end <= self@.len(),
                end == subtree_end(self@, index as int),
                first_text_in(self@, at as int, end as int) == first_text(self@, index as int),
            decreases end - at,
        {
            match &self.nodes[at].content {
                Content::Text(t) => {
                    return Some(t.clone());
                },
                _ => {},
            }
            at += 1;
        }
        None
    }

    /// The first texts of the nodes in `lo..hi` that match `pattern`, in
    /// document order; `None` if one of them has no text below it.
    pub fn collect(&self, lo: usize, hi: usize, pattern: Pattern) -> (found: Option<Vec<String>>)
        requires
            hi <= self@.len(),
        ensures
            found is Some <==> collected(self@, lo as int, hi as int, pattern) is Some,
            found matches Some(v) ==> Some(texts(v@)) == collected(
                self@,
                lo as int,
                hi as int,
                pattern,
            ),
    {
        let mut found: Vec<String> = Vec::new();
        let mut at = lo;
        while at < hi
            invariant
                hi <= self@.len(),
                lo <= at,
                at <= hi || at == lo,
                collected(self@, lo as int, at as int, pattern) == Some(texts(found@)),
            decreases hi - at,
        {
            if self.nodes[at].matches(pattern) {
                match self.first_text(at) {
                    Some(t) => {
                        found.push(t);
                    },
                    None => {
                        proof {
                            lemma_collected_stays_none(
                                self@,
                                lo as int,
                                at as int + 1,
                                hi as int,
                                pattern,
                            );
                        }
                        return None;
                    },
                }
            }
            at += 1;
        }
        Some(found)
    }
}

/// The run that `run_end` measures: every node from `from` up to its end
/// lies deeper than `depth`, and the node at its end, if there is one, does
/// not.
pub proof fn lemma_run_end(nodes: Seq<NodeView>, depth: nat, from: int)
    requires
        0 <= from <= nodes.len(),
    ensures
        from <= run_end(nodes, depth, from) <= nodes.len(),
        forall|j: int|
            from <= j < run_end(nodes, depth, from) ==> (#[trigger] nodes[j]).depth > depth,
        run_end(nodes, depth, from) < nodes.len() ==> nodes[run_end(nodes, depth, from)].depth
            <= depth,
    decreases nodes.len() - from,
{
    if from < nodes.len() && nodes[from].depth > depth {
        lemma_run_end(nodes, depth, from + 1);
    }
}

/// What `first_match` finds matches the pattern and lies in `lo..hi`, and no
/// node of that range in front of it matches; where it finds nothing, no
/// node of the range matches.
pub proof fn lemma_first_match(nodes: Seq<NodeView>, lo: int, hi: int, pattern: Pattern)
    ensures
        match first_match(nodes, lo, hi, pattern) {
            Some(i) => {
                &&& lo <= i < hi
                &&& matches_pattern(nodes[i], pattern)
                &&& forall|j: int| lo <= j < i ==> !matches_pattern(#[trigger] nodes[j], pattern)
            },
            None => forall|j: int| lo <= j < hi ==> !matches_pattern(#[trigger] nodes[j], pattern),
        },
    decreases hi - lo,
{
    if lo < hi && !matches_pattern(nodes[lo], pattern) {
        lemma_first_match(nodes, lo + 1, hi, pattern);
    }
}

/// What `first_text_in` gives is the text of a text node in `lo..hi` in
/// front of which the range has no text node; where it gives nothing, the
/// range has none.
pub proof fn lemma_first_text_in(nodes: Seq<NodeView>, lo: int, hi: int)
    ensures
        match first_text_in(nodes, lo, hi) {
            Some(t) => exists|i: int|
                {
                    &&& lo <= i < hi
                    &&& #[trigger] nodes[i].content == ContentView::Text(t)
                    &&& forall|j: int| lo <= j < i ==> !((#[trigger] nodes[j]).content is Text)
                },
            None => forall|j: int| lo <= j < hi ==> !((#[trigger] nodes[j]).content is Text),
        },
    decreases hi - lo,
{
    if lo < hi {
        match nodes[lo].content {
            ContentView::Text(t) => {
            },
            _ => {
                lemma_first_text_in(nodes, lo + 1, hi);
                if first_text_in(nodes, lo, hi) is Some {
                    let t = first_text_in(nodes, lo, hi)->0;
                    let i = choose|i: int|
                        {
                            &&& lo + 1 <= i < hi
                            &&& #[trigger] nodes[i].content == ContentView::Text(t)
                            &&& forall|j: int|
                                lo + 1 <= j < i ==> !((#[trigger] nodes[j]).content is Text)
                        };
                }
            },
        }
    }
}

/// Once a node without text has been met, collecting further gives nothing.
proof fn lemma_collected_stays_none(
    nodes: Seq<NodeView>,
    lo: int,
    mid: int,
    hi: int,
    pattern: Pattern,
)
    requires
        mid <= hi,
        collected(nodes, lo, mid, pattern) is None,
    ensures
        collected(nodes, lo, hi, pattern) is None,
    decreases hi - mid,
{
    if mid < hi {
        lemma_collected_stays_none(nodes, lo, mid, hi - 1, pattern);
    }
}

} // verus!
