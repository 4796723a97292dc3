use code_scan_rs::record::{Declaration, FunctionInfo, TypeInfo, TypeKind};
use code_scan_rs::report::render_report;
use code_scan_rs::text::join;

fn owned(items: &[&str]) -> Vec<String> {
    items.iter().map(|item| item.to_string()).collect()
}

#[test]
fn function_line_has_every_part() {
    let info = FunctionInfo::new(
        "add".to_string(),
        false,
        owned(&["a: i32", "b: i32"]),
        "i32".to_string(),
        None,
    );
    assert_eq!(info.render(), "private fn add(a: i32, b: i32) -> i32");
    let fetch = FunctionInfo::new(
        "fetch".to_string(),
        true,
        Vec::new(),
        "()".to_string(),
        Some("pub".to_string()),
    );
    assert_eq!(fetch.render(), "pub async fn fetch() -> ()");
    let one = FunctionInfo::new(
        "one".to_string(),
        true,
        owned(&["&self"]),
        "Self".to_string(),
        None,
    );
    assert_eq!(one.render(), "private async fn one(&self) -> Self");
}

#[test]
fn type_line_has_every_part() {
    let point = TypeInfo::new("Point".to_string(), TypeKind::Struct, None);
    assert_eq!(point.render(), "private struct Point");
    let color = TypeInfo::new("Color".to_string(), TypeKind::Enum, Some("pub".to_string()));
    assert_eq!(color.render(), "pub enum Color");
    let inner = TypeInfo::new("Inner".to_string(), TypeKind::Struct, Some("pub(crate)".to_string()));
    assert_eq!(inner.render(), "pub(crate) struct Inner");
}

#[test]
fn absent_visibility_is_never_printed_as_empty_or_none() {
    let info = FunctionInfo::new("f".to_string(), false, Vec::new(), "()".to_string(), None);
    let line = info.render();
    assert!(line.starts_with("private "));
    assert!(!line.starts_with(" "));
    assert!(!line.contains("None"));
    let ty = TypeInfo::new("T".to_string(), TypeKind::Enum, None);
    assert!(ty.render().starts_with("private "));
    assert!(!ty.render().contains("None"));
}

#[test]
fn record_getters_return_what_was_stored() {
    let info = FunctionInfo::new(
        "f".to_string(),
        true,
        owned(&["x: u8", "y: u8"]),
        "u8".to_string(),
        Some("pub".to_string()),
    );
    assert_eq!(info.name(), "f");
    assert!(info.is_async());
    assert_eq!(info.parameters(), &owned(&["x: u8", "y: u8"]));
    assert_eq!(info.return_type(), "u8");
    assert_eq!(info.visibility(), &Some("pub".to_string()));
    let ty = TypeInfo::new("T".to_string(), TypeKind::Struct, None);
    assert_eq!(ty.name(), "T");
    assert_eq!(ty.kind(), TypeKind::Struct);
    assert_eq!(ty.visibility(), &None);
}

#[test]
fn report_of_no_records_is_header_and_separator() {
    assert_eq!(render_report("a/b.rs", &Vec::new()), owned(&["File: a/b.rs", "---"]));
    assert_eq!(render_report("", &Vec::new()), owned(&["File: ", "---"]));
}

#[test]
fn report_keeps_the_order_within_each_group() {
    let records = vec![
        Declaration::Type(TypeInfo::new("B".to_string(), TypeKind::Enum, None)),
        Declaration::Function(FunctionInfo::new(
            "z".to_string(),
            false,
            Vec::new(),
            "()".to_string(),
            None,
        )),
        Declaration::Type(TypeInfo::new("A".to_string(), TypeKind::Struct, None)),
        Declaration::Function(FunctionInfo::new(
            "a".to_string(),
            false,
            Vec::new(),
            "()".to_string(),
            None,
        )),
    ];
    assert_eq!(
        render_report("f.rs", &records),
        owned(&[
            "File: f.rs",
            "private fn z() -> ()",
            "private fn a() -> ()",
            "private enum B",
            "private struct A",
            "---",
        ])
    );
}

#[test]
fn join_writes_the_separator_between_neighbours() {
    assert_eq!(join(&Vec::new(), ", "), "");
    assert_eq!(join(&owned(&["a"]), ", "), "a");
    assert_eq!(join(&owned(&["a", "b", "c"]), ", "), "a, b, c");
    assert_eq!(join(&owned(&["", ""]), "-"), "-");
    assert_eq!(join(&owned(&["x", "y"]), ""), "xy");
}
