//! The declaration visitor: from a syntax tree to its declaration records.

use vstd::prelude::*;
use vstd::string::StringExecFns;
use crate::normalize::{
    law_rendering_is_not_empty, normalize_tokens, normalized, normalized_each,
};
use crate::record::{
    Declaration, DeclarationRecord, FunctionDeclaration, FunctionInfo, TypeDeclaration, TypeInfo,
    TypeKind, record_values,
};
use crate::report::{render_report, report_lines};
use crate::syntax::{
    FunctionItem, ItemKind, SyntaxNode, SyntaxTree, TypeItem, forest_wf, optional_text, same_forest,
    same_item, same_node,
};
use crate::text::texts;

verus! {

/// The return type recorded for a function that declares none.
pub open spec fn unit_type() -> Seq<char> {
    seq!['(', ')']
}

/// The visibility recorded for the printed qualifier `text`: absent where
/// nothing is written, else the rendering of what is written.
pub open spec fn recorded_visibility(text: Seq<char>) -> Option<Seq<char>> {
    if text.len() == 0 {
        None
    } else {
        Some(normalized(text))
    }
}

/// The return type recorded for the printed return type `output`: `()`
/// where none is written, else the rendering of what is written.
pub open spec fn recorded_return_type(output: Option<Seq<char>>) -> Seq<char> {
    match output {
        Some(ty) => normalized(ty),
        None => unit_type(),
    }
}

/// The record of a function item.
pub open spec fn function_record(item: FunctionItem) -> FunctionDeclaration {
    FunctionDeclaration {
        name: item.name@,
        is_async: item.is_async,
        parameters: normalized_each(texts(item.inputs@)),
        return_type: recorded_return_type(optional_text(item.output)),
        visibility: recorded_visibility(item.visibility@),
    }
}

/// The record of a struct or enum item.
pub open spec fn type_record(item: TypeItem, kind: TypeKind) -> TypeDeclaration {
    TypeDeclaration { name: item.name@, kind, visibility: recorded_visibility(item.visibility@) }
}

/// The records that an item yields by itself: one for a function, a struct or
/// an enum, none for any other item.
pub open spec fn own_records(kind: ItemKind) -> Seq<DeclarationRecord> {
    match kind {
        ItemKind::Function(item) => seq![DeclarationRecord::Function(function_record(item))],
        ItemKind::Struct(item) => seq![
            DeclarationRecord::Type(type_record(item, TypeKind::Struct)),
        ],
        ItemKind::Enum(item) => seq![DeclarationRecord::Type(type_record(item, TypeKind::Enum))],
        ItemKind::Other => Seq::empty(),
    }
}

/// The records of a node in pre-order: its own, then those of its children
/// from first to last.
pub open spec fn node_records(node: SyntaxNode) -> Seq<DeclarationRecord>
    decreases node,
{
    own_records(node.kind) + forest_records(node.children@)
}

/// The records of the nodes of a forest, from first to last.
pub open spec fn forest_records(nodes: Seq<SyntaxNode>) -> Seq<DeclarationRecord>
    decreases nodes,
{
    if nodes.len() == 0 {
        Seq::empty()
    } else {
        forest_records(nodes.drop_last()) + node_records(nodes.last())
    }
}

/// The records of a parsed file.
pub open spec fn file_records(file: SyntaxTree) -> Seq<DeclarationRecord> {
    forest_records(file.items@)
}

/// The number of function, struct and enum items in a node and below it.
pub open spec fn node_declarations(node: SyntaxNode) -> nat
    decreases node,
{
    (if node.kind is Other {
        0nat
    } else {
        1nat
    }) + forest_declarations(node.children@)
}

/// The number of function, struct and enum items in a forest.
pub open spec fn forest_declarations(nodes: Seq<SyntaxNode>) -> nat
    decreases nodes,
{
    if nodes.len() == 0 {
        0
    } else {
        forest_declarations(nodes.drop_last()) + node_declarations(nodes.last())
    }
}

/// The records of two forests laid end to end are the records of the first
/// followed by the records of the second.
pub proof fn lemma_forest_records_concat(first: Seq<SyntaxNode>, second: Seq<SyntaxNode>)
    ensures
        forest_records(first + second) == forest_records(first) + forest_records(second),
    decreases second.len(),
{
    if second.len() == 0 {
        assert(first + second =~= first);
    } else {
        lemma_forest_records_concat(first, second.drop_last());
        assert((first + second).drop_last() =~= first + second.drop_last());
        assert((first + second).last() == second.last());
    }
}

/// The record of an item is valid: it has the item's name, and its
/// visibility is absent or holds text.
proof fn lemma_own_records_valid(kind: ItemKind)
    requires
        kind.wf(),
    ensures
        forall|i: int| 0 <= i < own_records(kind).len() ==> (#[trigger] own_records(kind)[i]).wf(),
{
    let text = match kind {
        ItemKind::Function(item) => item.visibility@,
        ItemKind::Struct(item) => item.visibility@,
        ItemKind::Enum(item) => item.visibility@,
        ItemKind::Other => Seq::empty(),
    };
    if text.len() > 0 {
        law_rendering_is_not_empty(text);
    }
}

/// Every record of a valid node is valid.
proof fn lemma_node_records_valid(node: SyntaxNode)
    requires
        node.wf(),
    ensures
        forall|i: int|
            0 <= i < node_records(node).len() ==> (#[trigger] node_records(node)[i]).wf(),
    decreases node,
{
    lemma_own_records_valid(node.kind);
    lemma_forest_records_valid(node.children@);
    let own = own_records(node.kind);
    let nested = forest_records(node.children@);
    assert forall|i: int| 0 <= i < node_records(node).len() implies (#[trigger] node_records(
        node,
    )[i]).wf() by {
        if i < own.len() {
            assert(node_records(node)[i] == own[i]);
        } else {
            assert(node_records(node)[i] == nested[i - own.len()]);
        }
    }
}

/// Every record of a valid forest is valid.
proof fn lemma_forest_records_valid(nodes: Seq<SyntaxNode>)
    requires
        forest_wf(nodes),
    ensures
        forall|i: int|
            0 <= i < forest_records(nodes).len() ==> (#[trigger] forest_records(nodes)[i]).wf(),
    decreases nodes,
{
    if nodes.len() > 0 {
        lemma_forest_records_valid(nodes.drop_last());
        lemma_node_records_valid(nodes.last());
        let before = forest_records(nodes.drop_last());
        let last = node_records(nodes.last());
        assert forall|i: int| 0 <= i < forest_records(nodes).len() implies (
        #[trigger] forest_records(nodes)[i]).wf() by {
            if i < before.len() {
                assert(forest_records(nodes)[i] == before[i]);
            } else {
                assert(forest_records(nodes)[i] == last[i - before.len()]);
            }
        }
    }
}

/// A node has one record for each function, struct and enum item in it.
proof fn lemma_node_record_count(node: SyntaxNode)
    ensures
        node_records(node).len() == node_declarations(node),
    decreases node,
{
    lemma_forest_record_count(node.children@);
}

/// A forest has one record for each function, struct and enum item in it.
proof fn lemma_forest_record_count(nodes: Seq<SyntaxNode>)
    ensures
        forest_records(nodes).len() == forest_declarations(nodes),
    decreases nodes,
{
    if nodes.len() > 0 {
        lemma_forest_record_count(nodes.drop_last());
        lemma_node_record_count(nodes.last());
    }
}

/// The records of the `k`-th node of a forest stand together in the records
/// of the forest, after those of the nodes before it.
pub proof fn lemma_forest_records_hold_node(nodes: Seq<SyntaxNode>, k: int)
    requires
        0 <= k < nodes.len(),
    ensures
        forest_records(nodes) == forest_records(nodes.take(k)) + node_records(nodes[k])
            + forest_records(nodes.skip(k + 1)),
{
    let head = nodes.take(k);
    let one = seq![nodes[k]];
    let tail = nodes.skip(k + 1);
    assert(nodes =~= head + one + tail);
    lemma_forest_records_concat(head + one, tail);
    lemma_forest_records_concat(head, one);
    assert(one.drop_last() =~= Seq::<SyntaxNode>::empty());
    assert(forest_records(one.drop_last()) =~= Seq::<DeclarationRecord>::empty());
    assert(forest_records(one) =~= node_records(nodes[k]));
}

proof fn lemma_same_item_same_records(a: ItemKind, b: ItemKind)
    requires
        same_item(a, b),
    ensures
        own_records(a) == own_records(b),
{
    match (a, b) {
        (ItemKind::Function(x), ItemKind::Function(y)) => {
            assert(normalized_each(texts(x.inputs@)) =~= normalized_each(texts(y.inputs@)));
        },
        _ => {},
    }
}

proof fn lemma_same_node_same_records(a: SyntaxNode, b: SyntaxNode)
    requires
        same_node(a, b),
    ensures
        node_records(a) == node_records(b),
    decreases a,
{
    lemma_same_item_same_records(a.kind, b.kind);
    lemma_same_forest_same_records(a.children@, b.children@);
}

proof fn lemma_same_forest_same_records(a: Seq<SyntaxNode>, b: Seq<SyntaxNode>)
    requires
        same_forest(a, b),
    ensures
        forest_records(a) == forest_records(b),
    decreases a,
{
    if a.len() > 0 {
        assert(same_node(a.last(), b.last()));
        assert(same_forest(a.drop_last(), b.drop_last())) by {
            assert forall|i: int| 0 <= i < a.drop_last().len() implies same_node(
                #[trigger] a.drop_last()[i],
                b.drop_last()[i],
            ) by {
                assert(same_node(a[i], b[i]));
            }
        }
        lemma_same_forest_same_records(a.drop_last(), b.drop_last());
        lemma_same_node_same_records(a.last(), b.last());
    }
}

proof fn lemma_same_node_reflexive(node: SyntaxNode)
    ensures
        same_node(node, node),
    decreases node,
{
    lemma_same_forest_reflexive(node.children@);
}

proof fn lemma_same_forest_reflexive(nodes: Seq<SyntaxNode>)
    ensures
        same_forest(nodes, nodes),
    decreases nodes,
{
    assert forall|i: int| 0 <= i < nodes.len() implies same_node(#[trigger] nodes[i], nodes[i]) by {
        lemma_same_node_reflexive(nodes[i]);
    }
}

/// Every tree holds the same text as itself.
pub proof fn law_same_text_is_reflexive(file: SyntaxTree)
    ensures
        file.same_text(&file),
{
    lemma_same_forest_reflexive(file.items@);
}

/// Determinism. The records of a file are a function of the text that its
/// tree holds and of nothing else: two visits that start with the same
/// records and walk trees of the same text in the same shape end with the
/// same records, record for record and character for character, and so
/// with the same report.
pub proof fn law_visit_is_deterministic(
    start: Seq<DeclarationRecord>,
    first_file: SyntaxTree,
    first_end: Seq<DeclarationRecord>,
    second_file: SyntaxTree,
    second_end: Seq<DeclarationRecord>,
    path: Seq<char>,
)
    requires
        first_file.same_text(&second_file),
        first_end == start + file_records(first_file),
        second_end == start + file_records(second_file),
    ensures
        first_end == second_end,
        report_lines(path, first_end) == report_lines(path, second_end),
{
    lemma_same_forest_same_records(first_file.items@, second_file.items@);
}

/// A function that writes no return type is recorded with the return type
/// `()`, and one that writes a return type with the rendering of that type.
pub proof fn law_missing_return_type_is_unit(item: FunctionItem)
    ensures
        item.output is None ==> function_record(item).return_type == "()"@,
        item.output matches Some(ty) ==> function_record(item).return_type == normalized(ty@),
{
    reveal_strlit("()");
    assert("()"@ =~= unit_type());
}

/// A declaration that writes no visibility qualifier is recorded without a
/// visibility, and no record holds the empty text as its visibility.
pub proof fn law_missing_visibility_is_absent(text: Seq<char>)
    ensures
        text.len() == 0 ==> recorded_visibility(text) is None,
        text.len() > 0 ==> recorded_visibility(text) is Some,
        recorded_visibility(text) != Some(Seq::<char>::empty()),
{
    if text.len() > 0 {
        law_rendering_is_not_empty(text);
    }
}

/// Nested declarations. The records of a node are its own record followed by
/// the records of what is nested in it. So the record of the outer
/// declaration is the same whatever is nested in it, and each nested item
/// has its records, whole and in order, among those of the outer node.
pub proof fn law_nested_declarations_are_independent(node: SyntaxNode, k: int)
    requires
        0 <= k < node.children@.len(),
    ensures
        node_records(node) == own_records(node.kind) + forest_records(node.children@),
        node_records(node) == own_records(node.kind) + forest_records(node.children@.take(k))
            + node_records(node.children@[k]) + forest_records(node.children@.skip(k + 1)),
{
    lemma_forest_records_hold_node(node.children@, k);
}

/// Pre-order. A node that joins a forest adds its own record and then the
/// records of what is nested in it, after the records of the forest: an item
/// comes before the items inside it, also where it was finished after them.
pub proof fn law_item_precedes_what_is_nested(siblings: Seq<SyntaxNode>, node: SyntaxNode)
    ensures
        forest_records(siblings.push(node)) == forest_records(siblings) + own_records(node.kind)
            + forest_records(node.children@),
{
    assert(siblings.push(node).drop_last() =~= siblings);
    assert(siblings.push(node).last() == node);
    assert(forest_records(siblings) + node_records(node) =~= forest_records(siblings)
        + own_records(node.kind) + forest_records(node.children@));
}

/// The data invariants of records. Every record of a valid file has a name
/// that is not empty and a visibility that is absent or not empty, and the
/// file has exactly one record for each function, struct and enum item in
/// it.
pub proof fn law_records_are_valid(file: SyntaxTree)
    requires
        file.wf(),
    ensures
        forall|i: int|
            0 <= i < file_records(file).len() ==> (#[trigger] file_records(file)[i]).wf(),
        file_records(file).len() == forest_declarations(file.items@),
{
    lemma_forest_records_valid(file.items@);
    lemma_forest_record_count(file.items@);
}

/// The parameters of a function record are the renderings of the item's
/// parameters, one for one and in declaration order.
pub proof fn law_parameters_keep_order(item: FunctionItem, i: int)
    requires
        0 <= i < item.inputs@.len(),
    ensures
        function_record(item).parameters.len() == item.inputs@.len(),
        function_record(item).parameters[i] == normalized(item.inputs@[i]@),
{
}

/// Collects the declaration records of the items it is shown.
pub struct CodeVisitor {
    records: Vec<Declaration>,
}

impl View for CodeVisitor {
    type V = Seq<DeclarationRecord>;

    closed spec fn view(&self) -> Seq<DeclarationRecord> {
        record_values(self.records@)
    }
}

fn render_visibility(text: &String) -> (visibility: Option<String>)
    ensures
        optional_text(visibility) == recorded_visibility(text@),
{
    if text.as_str().is_empty() {
        None
    } else {
        Some(normalize_tokens(text.as_str()))
    }
}

fn render_each(inputs: &Vec<String>) -> (rendered: Vec<String>)
    ensures
        texts(rendered@) == normalized_each(texts(inputs@)),
{
    let mut rendered: Vec<String> = Vec::new();
    let mut i: usize = 0;
    while i < inputs.len()
        invariant
            i <= inputs.len(),
            rendered.len() == i,
            forall|j: int| 0 <= j < i ==> (#[trigger] rendered@[j])@ == normalized(inputs@[j]@),
        decreases inputs.len() - i,
    {
        rendered.push(normalize_tokens(inputs[i].as_str()));
        i = i + 1;
    }
    assert(texts(rendered@) =~= normalized_each(texts(inputs@)));
    rendered
}

impl CodeVisitor {
    /// A visitor that has seen nothing.
    pub fn new() -> (visitor: CodeVisitor)
        ensures
            visitor@ == Seq::<DeclarationRecord>::empty(),
    {
        let visitor = CodeVisitor { records: Vec::new() };
        assert(visitor@ =~= Seq::<DeclarationRecord>::empty());
        visitor
    }

    fn record(&mut self, declaration: Declaration)
        ensures
            final(self)@ == old(self)@.push(declaration@),
    {
        self.records.push(declaration);
        assert(self@ =~= old(self)@.push(declaration@));
    }

    /// Records a function item.
    pub fn visit_item_fn(&mut self, item_fn: &FunctionItem)
        ensures
            final(self)@ == old(self)@.push(DeclarationRecord::Function(function_record(*item_fn))),
    {
        let name = item_fn.name.clone();
        let inputs = render_each(&item_fn.inputs);
        let output = match &item_fn.output {
            None => {
                proof {
                    reveal_strlit("()");
                    assert("()"@ =~= unit_type());
                }
                String::from_str("()")
            },
            Some(ty) => normalize_tokens(ty.as_str()),
        };
        let visibility = render_visibility(&item_fn.visibility);
        let is_async = item_fn.is_async;
        let function_info = FunctionInfo::new(name, is_async, inputs, output, visibility);
        self.record(Declaration::Function(function_info));
    }

    /// Records a struct item.
    pub fn visit_item_struct(&mut self, item_struct: &TypeItem)
        ensures
            final(self)@ == old(self)@.push(
                DeclarationRecord::Type(type_record(*item_struct, TypeKind::Struct)),
            ),
    {
        let name = item_struct.name.clone();
        let visibility = render_visibility(&item_struct.visibility);
        let type_info = TypeInfo::new(name, TypeKind::Struct, visibility);
        self.record(Declaration::Type(type_info));
    }

    /// Records an enum item.
    pub fn visit_item_enum(&mut self, item_enum: &TypeItem)
        ensures
            final(self)@ == old(self)@.push(
                DeclarationRecord::Type(type_record(*item_enum, TypeKind::Enum)),
            ),
    {
        let name = item_enum.name.clone();
        let visibility = render_visibility(&item_enum.visibility);
        let type_info = TypeInfo::new(name, TypeKind::Enum, visibility);
        self.record(Declaration::Type(type_info));
    }

    /// Visits a node and everything nested in it, in pre-order.
    pub fn visit_item(&mut self, node: &SyntaxNode)
        ensures
            final(self)@ == old(self)@ + node_records(*node),
        decreases node,
    {
        match &node.kind {
            ItemKind::Function(item) => self.visit_item_fn(item),
            ItemKind::Struct(item) => self.visit_item_struct(item),
            ItemKind::Enum(item) => self.visit_item_enum(item),
            ItemKind::Other => {},
        }
        assert(self@ =~= old(self)@ + own_records(node.kind));
        let mut i: usize = 0;
        while i < node.children.len()
            invariant
                i <= node.children.len(),
                self@ == old(self)@ + own_records(node.kind) + forest_records(
                    node.children@.take(i as int),
                ),
            decreases node.children.len() - i,
        {
            let ghost before = self@;
            self.visit_item(&node.children[i]);
            proof {
                let done = node.children@.take(i as int + 1);
                assert(done.drop_last() =~= node.children@.take(i as int));
                assert(done.last() == node.children@[i as int]);
                assert(self@ =~= old(self)@ + own_records(node.kind) + forest_records(done));
            }
            i = i + 1;
        }
        assert(node.children@.take(i as int) =~= node.children@);
        assert(self@ =~= old(self)@ + node_records(*node));
    }

    /// Visits the items of a parsed file from first to last.
    pub fn visit_file(&mut self, file: &SyntaxTree)
        ensures
            final(self)@ == old(self)@ + file_records(*file),
    {
        let mut i: usize = 0;
        assert(self@ =~= old(self)@ + forest_records(file.items@.take(0)));
        while i < file.items.len()
            invariant
                i <= file.items.len(),
                self@ == old(self)@ + forest_records(file.items@.take(i as int)),
            decreases file.items.len() - i,
        {
            self.visit_item(&file.items[i]);
            proof {
                let done = file.items@.take(i as int + 1);
                assert(done.drop_last() =~= file.items@.take(i as int));
                assert(done.last() == file.items@[i as int]);
                assert(self@ =~= old(self)@ + forest_records(done));
            }
            i = i + 1;
        }
        assert(file.items@.take(i as int) =~= file.items@);
    }

    /// The records collected so far, in the order in which they were found.
    pub fn records(&self) -> (records: &Vec<Declaration>)
        ensures
            record_values(records@) == self@,
    {
        &self.records
    }

    /// The report of what was collected from the file at `path`.
    pub fn report(self, path: &str) -> (lines: Vec<String>)
        ensures
            texts(lines@) == report_lines(path@, self@),
    {
        render_report(path, &self.records)
    }

    /// The report of the parsed file `ast`, which was read from `path`.
    pub fn create_report(path: &str, ast: &SyntaxTree) -> (lines: Vec<String>)
        ensures
            texts(lines@) == report_lines(path@, file_records(*ast)),
    {
        let mut visitor = CodeVisitor::new();
        visitor.visit_file(ast);
        visitor.report(path)
    }
}

} // verus!
