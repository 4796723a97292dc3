use code_scan_rs::builder::TreeBuilder;
use code_scan_rs::reader::{item_kind, parse_source};
use code_scan_rs::record::{Declaration, FunctionInfo, TypeInfo, TypeKind};
use code_scan_rs::scan::{scan_file, Cli, ParseOutcome};
use code_scan_rs::syntax::{ItemKind, SyntaxTree};
use code_scan_rs::visitor::CodeVisitor;
use syn::visit::Visit;

/// Walks the parser's tree and tells the builder where each item begins and
/// ends.
struct Walk {
    builder: TreeBuilder,
}

impl<'ast> Visit<'ast> for Walk {
    fn visit_item(&mut self, item: &'ast syn::Item) {
        self.builder.enter();
        syn::visit::visit_item(self, item);
        assert!(self.builder.close(item_kind(item)));
    }
}

fn tree_of(source: &str) -> SyntaxTree {
    let file = parse_source(source).unwrap();
    let mut walk = Walk { builder: TreeBuilder::new() };
    walk.visit_file(&file);
    walk.builder.finish().unwrap()
}

fn records_of(source: &str) -> Vec<Declaration> {
    let mut visitor = CodeVisitor::new();
    visitor.visit_file(&tree_of(source));
    visitor.records().clone()
}

fn function_at(records: &[Declaration], index: usize) -> &FunctionInfo {
    match &records[index] {
        Declaration::Function(info) => info,
        Declaration::Type(_) => panic!("record {} is a type record", index),
    }
}

fn type_at(records: &[Declaration], index: usize) -> &TypeInfo {
    match &records[index] {
        Declaration::Type(info) => info,
        Declaration::Function(_) => panic!("record {} is a function record", index),
    }
}

fn scan_of(codebase: &str) -> Cli {
    Cli { codebase: codebase.to_string() }
}

fn strings(items: &[&str]) -> Vec<String> {
    items.iter().map(|item| item.to_string()).collect()
}

#[test]
fn scenario_plain_function() {
    let records = records_of("fn add(a: i32, b: i32) -> i32 { a + b }");
    assert_eq!(records.len(), 1);
    let info = function_at(&records, 0);
    assert_eq!(info.name(), "add");
    assert_eq!(info.is_async(), false);
    assert_eq!(info.parameters(), &strings(&["a: i32", "b: i32"]));
    assert_eq!(info.return_type(), "i32");
    assert_eq!(info.visibility(), &None);
}

#[test]
fn scenario_public_async_function() {
    let records = records_of("pub async fn fetch() {}");
    assert_eq!(records.len(), 1);
    let info = function_at(&records, 0);
    assert_eq!(info.name(), "fetch");
    assert_eq!(info.is_async(), true);
    assert_eq!(info.parameters(), &Vec::<String>::new());
    assert_eq!(info.return_type(), "()");
    assert_eq!(info.visibility(), &Some("pub".to_string()));
}

#[test]
fn scenario_struct_then_enum() {
    let records = records_of("struct Point { x: f64, y: f64 }\npub enum Color { Red, Green }");
    assert_eq!(records.len(), 2);
    let point = type_at(&records, 0);
    assert_eq!(point.name(), "Point");
    assert_eq!(point.kind(), TypeKind::Struct);
    assert_eq!(point.visibility(), &None);
    let color = type_at(&records, 1);
    assert_eq!(color.name(), "Color");
    assert_eq!(color.kind(), TypeKind::Enum);
    assert_eq!(color.visibility(), &Some("pub".to_string()));
}

#[test]
fn scenario_reports() {
    let plain = CodeVisitor::create_report(
        "src/math.rs",
        &tree_of("fn add(a: i32, b: i32) -> i32 { a + b }"),
    );
    assert_eq!(
        plain,
        strings(&["File: src/math.rs", "private fn add(a: i32, b: i32) -> i32", "---"])
    );
    let fetch = CodeVisitor::create_report("net.rs", &tree_of("pub async fn fetch() {}"));
    assert_eq!(fetch, strings(&["File: net.rs", "pub async fn fetch() -> ()", "---"]));
    let types = CodeVisitor::create_report(
        "shapes.rs",
        &tree_of("struct Point { x: f64, y: f64 }\npub enum Color { Red, Green }"),
    );
    assert_eq!(
        types,
        strings(&["File: shapes.rs", "private struct Point", "pub enum Color", "---"])
    );
}

#[test]
fn whitespace_in_the_source_does_not_show() {
    let tight = records_of("fn add(a:i32,b:i32)->i32{a+b}");
    let loose = records_of("fn  add ( a : i32 ,\n    b :   i32 )\n  ->  i32 { a + b }");
    assert_eq!(tight, loose);
    assert_eq!(function_at(&tight, 0).parameters(), &strings(&["a: i32", "b: i32"]));
}

#[test]
fn visiting_twice_gives_the_same_records() {
    let source = "pub fn a() {}\nstruct B;\nmod m { pub(crate) enum C {} fn d(x: u8) -> u8 { x } }";
    let first = records_of(source);
    let second = records_of(source);
    assert_eq!(first.len(), 4);
    assert_eq!(first, second);
    let tree = tree_of(source);
    assert_eq!(
        CodeVisitor::create_report("x.rs", &tree),
        CodeVisitor::create_report("x.rs", &tree)
    );
}

#[test]
fn missing_return_type_is_recorded_as_unit() {
    let records = records_of("fn quiet(n: usize) {}\nfn loud() -> () {}\nfn never() -> ! { loop {} }");
    assert_eq!(function_at(&records, 0).return_type(), "()");
    assert_eq!(function_at(&records, 1).return_type(), "()");
    assert_eq!(function_at(&records, 2).return_type(), "!");
}

#[test]
fn missing_visibility_is_recorded_as_absent() {
    let records = records_of("fn f() {}\nstruct S;\nenum E {}\npub(crate) fn g() {}");
    assert_eq!(function_at(&records, 0).visibility(), &None);
    assert_eq!(type_at(&records, 1).visibility(), &None);
    assert_eq!(type_at(&records, 2).visibility(), &None);
    assert_eq!(function_at(&records, 3).visibility(), &Some("pub(crate)".to_string()));
    assert_eq!(function_at(&records, 0).render(), "private fn f() -> ()");
    assert_eq!(type_at(&records, 1).render(), "private struct S");
    assert_eq!(type_at(&records, 2).render(), "private enum E");
}

#[test]
fn nested_function_has_its_own_record() {
    let nested = records_of("fn outer(a: u8) -> u8 { fn inner(b: u16) {} a }");
    assert_eq!(nested.len(), 2);
    assert_eq!(function_at(&nested, 0).name(), "outer");
    assert_eq!(function_at(&nested, 1).name(), "inner");
    assert_eq!(function_at(&nested, 1).parameters(), &strings(&["b: u16"]));
    let alone = records_of("fn outer(a: u8) -> u8 { a }");
    assert_eq!(alone.len(), 1);
    assert_eq!(alone[0], nested[0]);
}

#[test]
fn records_come_in_pre_order() {
    let source = "
        fn first() {
            struct Inside;
            fn second() { enum Deep {} }
            if true { fn third() {} }
        }
        enum Last {}
    ";
    let records = records_of(source);
    let names: Vec<String> = records
        .iter()
        .map(|record| match record {
            Declaration::Function(info) => info.name().clone(),
            Declaration::Type(info) => info.name().clone(),
        })
        .collect();
    assert_eq!(names, strings(&["first", "Inside", "second", "Deep", "third", "Last"]));
}

#[test]
fn other_items_are_walked_through() {
    let source = "
        const LIMIT: usize = { fn in_const() -> usize { 1 } in_const() };
        mod inner { pub struct InModule; }
        trait Shape { fn area(&self) -> u32; fn name(&self) -> u32 { struct InTrait; 0 } }
        struct Square;
        impl Shape for Square { fn area(&self) -> u32 { fn in_method() {} 0 } }
        type Alias = Square;
        macro_rules! nothing { () => { fn in_macro() {} }; }
        nothing!();
    ";
    let records = records_of(source);
    let names: Vec<String> = records
        .iter()
        .map(|record| match record {
            Declaration::Function(info) => info.name().clone(),
            Declaration::Type(info) => info.name().clone(),
        })
        .collect();
    assert_eq!(names, strings(&["in_const", "InModule", "InTrait", "Square", "in_method"]));
    let tree = tree_of(source);
    assert_eq!(tree.items.len(), 8);
    assert_eq!(tree.items[0].kind, ItemKind::Other);
    assert_eq!(tree.items[0].children.len(), 1);
}

#[test]
fn signatures_are_rendered_with_canonical_spacing() {
    let source = "
        pub(crate) async unsafe fn run<T: Clone>(items: &mut Vec<T>, n: usize) -> Result<(), String> { Ok(()) }
        pub(in crate::deep) fn path(p: std::path::PathBuf, f: &dyn Fn(u8) -> u8) -> Option<&'static str> { None }
        fn method(&mut self, other: &Self, boxed: Box<Self>) -> Self { other }
        fn typed(self: Box<Self>, (a, b): (u8, [u8; 4]), raw: *const u8, _: <T as Iterator>::Item) {}
    ";
    let records = records_of(source);
    let run = function_at(&records, 0);
    assert_eq!(run.visibility(), &Some("pub(crate)".to_string()));
    assert_eq!(run.is_async(), true);
    assert_eq!(run.parameters(), &strings(&["items: &mut Vec<T>", "n: usize"]));
    assert_eq!(run.return_type(), "Result<(), String>");
    let path = function_at(&records, 1);
    assert_eq!(path.visibility(), &Some("pub(in crate::deep)".to_string()));
    assert_eq!(
        path.parameters(),
        &strings(&["p: std::path::PathBuf", "f: &dyn Fn(u8) -> u8"])
    );
    assert_eq!(path.return_type(), "Option<&'static str>");
    let method = function_at(&records, 2);
    assert_eq!(
        method.parameters(),
        &strings(&["&mut self", "other: &Self", "boxed: Box<Self>"])
    );
    assert_eq!(method.return_type(), "Self");
    let typed = function_at(&records, 3);
    assert_eq!(
        typed.parameters(),
        &strings(&[
            "self: Box<Self>",
            "(a, b): (u8, [u8; 4])",
            "raw: *const u8",
            "_: <T as Iterator>::Item",
        ])
    );
    assert_eq!(
        run.render(),
        "pub(crate) async fn run(items: &mut Vec<T>, n: usize) -> Result<(), String>"
    );
}

#[test]
fn names_are_never_empty() {
    let tree = tree_of("fn r#type() {}\nstruct _S;\nenum E {}");
    let mut visitor = CodeVisitor::new();
    visitor.visit_file(&tree);
    let names: Vec<String> = visitor
        .records()
        .iter()
        .map(|record| match record {
            Declaration::Function(info) => info.name().clone(),
            Declaration::Type(info) => info.name().clone(),
        })
        .collect();
    assert_eq!(names, strings(&["r#type", "_S", "E"]));
    assert!(names.iter().all(|name| !name.is_empty()));
}

#[test]
fn malformed_source_is_rejected_with_a_message() {
    let rejected = parse_source("fn broken( {");
    let failure = rejected.err().expect("the text is no Rust file");
    assert!(!failure.message.is_empty());
    assert!(parse_source("fn fine() {}").is_ok());
    assert!(parse_source("").is_ok());
    assert!(parse_source("struct").is_err());
}

#[test]
fn rejected_file_gives_one_diagnostic_and_no_report() {
    let failure = parse_source("fn broken( {").err().unwrap();
    let message = failure.message.clone();
    let output = scan_file(&scan_of("/work/project"), "/work/project/src/bad.rs", &ParseOutcome::Failed(failure));
    assert_eq!(output.report, Vec::<String>::new());
    assert_eq!(output.diagnostics, vec![format!("/work/project: {}", message)]);
}

#[test]
fn parsed_file_is_reported() {
    let outcome = ParseOutcome::Parsed(tree_of("pub fn main() {}\nstruct Config;"));
    let output = scan_file(&scan_of("/work"), "/work/src/main.rs", &outcome);
    assert_eq!(
        output.report,
        strings(&["File: /work/src/main.rs", "pub fn main() -> ()", "private struct Config", "---"])
    );
    assert_eq!(output.diagnostics, Vec::<String>::new());
}

#[test]
fn file_without_declarations_is_not_reported() {
    let outcome = ParseOutcome::Parsed(tree_of("use std::fmt;\nconst N: u8 = 1;"));
    let output = scan_file(&scan_of("/work"), "/work/src/consts.rs", &outcome);
    assert_eq!(output.report, Vec::<String>::new());
    assert_eq!(output.diagnostics, Vec::<String>::new());
    let lines = CodeVisitor::create_report("/work/src/consts.rs", &tree_of("use std::fmt;"));
    assert_eq!(lines, strings(&["File: /work/src/consts.rs", "---"]));
}
