//! The syntax model: what the declaration visitor reads of a parsed file.
//!
//! A parsed file is a forest of item nodes. Each node is one of a closed set
//! of kinds and carries, as plain text, the parts of the item that end up in a
//! declaration record. The items nested inside an item are its children, in
//! source order.

use vstd::prelude::*;
use crate::text::texts;

verus! {

/// What a `fn` item shows of itself.
#[derive(Debug, Clone, PartialEq, Eq)]
pub struct FunctionItem {
    /// The declared identifier.
    pub name: String,
    /// Whether the signature carries `async`.
    pub is_async: bool,
    /// The printed tokens of each formal parameter, a receiver included.
    pub inputs: Vec<String>,
    /// The printed tokens of the return type, where one is written.
    pub output: Option<String>,
    /// The printed tokens of the visibility qualifier; empty where none is
    /// written.
    pub visibility: String,
}

/// What a `struct` or `enum` item shows of itself.
#[derive(Debug, Clone, PartialEq, Eq)]
pub struct TypeItem {
    /// The declared identifier.
    pub name: String,
    /// The printed tokens of the visibility qualifier; empty where none is
    /// written.
    pub visibility: String,
}

/// The kinds of item node.
#[derive(Debug, Clone, PartialEq, Eq)]
pub enum ItemKind {
    /// A `fn` item.
    Function(FunctionItem),
    /// A `struct` item.
    Struct(TypeItem),
    /// An `enum` item.
    Enum(TypeItem),
    /// Any other item: it is walked through and yields no record itself.
    Other,
}

/// One item of a parsed file with the items nested inside it.
#[derive(Debug, PartialEq, Eq)]
pub struct SyntaxNode {
    pub kind: ItemKind,
    pub children: Vec<SyntaxNode>,
}

/// A parsed file: its top-level items in source order.
#[derive(Debug, PartialEq, Eq)]
pub struct SyntaxTree {
    pub items: Vec<SyntaxNode>,
}

impl FunctionItem {
    /// A function item is valid when it has a name.
    pub open spec fn wf(&self) -> bool {
        self.name@.len() > 0
    }
}

impl TypeItem {
    /// A type item is valid when it has a name.
    pub open spec fn wf(&self) -> bool {
        self.name@.len() > 0
    }
}

impl ItemKind {
    /// Validity of the item that the kind carries, if it carries one.
    pub open spec fn wf(&self) -> bool {
        match self {
            ItemKind::Function(item) => item.wf(),
            ItemKind::Struct(item) => item.wf(),
            ItemKind::Enum(item) => item.wf(),
            ItemKind::Other => true,
        }
    }
}

/// Every node of the forest `nodes`, at any depth, carries a valid item.
pub open spec fn forest_wf(nodes: Seq<SyntaxNode>) -> bool
    decreases nodes,
{
    forall|i: int| 0 <= i < nodes.len() ==> (#[trigger] nodes[i]).wf()
}

impl SyntaxNode {
    /// The node and every node below it carry a valid item.
    pub open spec fn wf(&self) -> bool
        decreases self,
    {
        self.kind.wf() && forest_wf(self.children@)
    }
}

impl SyntaxTree {
    /// Every node of the tree carries a valid item.
    pub open spec fn wf(&self) -> bool {
        forest_wf(self.items@)
    }

    /// The two trees hold the same text in the same shape.
    pub open spec fn same_text(&self, other: &SyntaxTree) -> bool {
        same_forest(self.items@, other.items@)
    }
}

/// The text of an optional string.
pub open spec fn optional_text(text: Option<String>) -> Option<Seq<char>> {
    match text {
        Some(t) => Some(t@),
        None => None,
    }
}

/// The two items are of one kind and show the same text of themselves.
pub open spec fn same_item(a: ItemKind, b: ItemKind) -> bool {
    match (a, b) {
        (ItemKind::Function(x), ItemKind::Function(y)) => {
            &&& x.name@ == y.name@
            &&& x.is_async == y.is_async
            &&& texts(x.inputs@) == texts(y.inputs@)
            &&& optional_text(x.output) == optional_text(y.output)
            &&& x.visibility@ == y.visibility@
        },
        (ItemKind::Struct(x), ItemKind::Struct(y)) => {
            x.name@ == y.name@ && x.visibility@ == y.visibility@
        },
        (ItemKind::Enum(x), ItemKind::Enum(y)) => {
            x.name@ == y.name@ && x.visibility@ == y.visibility@
        },
        (ItemKind::Other, ItemKind::Other) => true,
        _ => false,
    }
}

/// The two nodes hold the same text in the same shape.
pub open spec fn same_node(a: SyntaxNode, b: SyntaxNode) -> bool
    decreases a,
{
    same_item(a.kind, b.kind) && same_forest(a.children@, b.children@)
}

/// The two forests hold the same text in the same shape.
pub open spec fn same_forest(a: Seq<SyntaxNode>, b: Seq<SyntaxNode>) -> bool
    decreases a,
{
    &&& a.len() == b.len()
    &&& forall|i: int| 0 <= i < a.len() ==> same_node(#[trigger] a[i], b[i])
}

} // verus!
