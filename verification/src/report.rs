//! The report of one file: a header, one line per record, a separator.

use vstd::prelude::*;
use vstd::string::StringExecFns;
use crate::record::{Declaration, DeclarationRecord, function_line, record_values, type_line};
use crate::text::texts;

verus! {

/// The header line of the report of the file at `path`.
pub open spec fn header_line(path: Seq<char>) -> Seq<char> {
    "File: "@ + path
}

/// The line that closes a report.
pub open spec fn separator_line() -> Seq<char> {
    "---"@
}

/// The lines of the function records among the first `n` of `records`, in
/// order.
pub open spec fn function_lines_prefix(records: Seq<DeclarationRecord>, n: int) -> Seq<Seq<char>>
    decreases n,
{
    if n <= 0 {
        Seq::empty()
    } else {
        match records[n - 1] {
            DeclarationRecord::Function(function) => function_lines_prefix(records, n - 1).push(
                function_line(function),
            ),
            DeclarationRecord::Type(_) => function_lines_prefix(records, n - 1),
        }
    }
}

/// The lines of the type records among the first `n` of `records`, in order.
pub open spec fn type_lines_prefix(records: Seq<DeclarationRecord>, n: int) -> Seq<Seq<char>>
    decreases n,
{
    if n <= 0 {
        Seq::empty()
    } else {
        match records[n - 1] {
            DeclarationRecord::Function(_) => type_lines_prefix(records, n - 1),
            DeclarationRecord::Type(ty) => type_lines_prefix(records, n - 1).push(type_line(ty)),
        }
    }
}

/// The lines of the function records of `records`, in order.
pub open spec fn function_lines(records: Seq<DeclarationRecord>) -> Seq<Seq<char>> {
    function_lines_prefix(records, records.len() as int)
}

/// The lines of the type records of `records`, in order.
pub open spec fn type_lines(records: Seq<DeclarationRecord>) -> Seq<Seq<char>> {
    type_lines_prefix(records, records.len() as int)
}

/// The report of the file at `path` with the records `records`: the header,
/// the function lines, the type lines, the separator.
pub open spec fn report_lines(path: Seq<char>, records: Seq<DeclarationRecord>) -> Seq<Seq<char>> {
    seq![header_line(path)] + function_lines(records) + type_lines(records) + seq![
        separator_line(),
    ]
}

/// Renders the report of the file at `path`.
pub fn render_report(path: &str, records: &Vec<Declaration>) -> (lines: Vec<String>)
    ensures
        texts(lines@) == report_lines(path@, record_values(records@)),
{
    let ghost values = record_values(records@);
    let mut lines: Vec<String> = Vec::new();
    let mut header = String::from_str("File: ");
    header.append(path);
    lines.push(header);
    assert(texts(lines@) =~= seq![header_line(path@)] + function_lines_prefix(values, 0));
    let mut i: usize = 0;
    while i < records.len()
        invariant
            i <= records.len(),
            values == record_values(records@),
            texts(lines@) == seq![header_line(path@)] + function_lines_prefix(values, i as int),
        decreases records.len() - i,
    {
        let ghost before = lines@;
        assert(values[i as int] == records@[i as int]@);
        match &records[i] {
            Declaration::Function(info) => {
                let line = info.render();
                lines.push(line);
                assert(texts(lines@) =~= texts(before).push(function_line(info@)));
            },
            Declaration::Type(_) => {},
        }
        i = i + 1;
    }
    let ghost head = seq![header_line(path@)] + function_lines(values);
    assert(texts(lines@) =~= head + type_lines_prefix(values, 0));
    let mut k: usize = 0;
    while k < records.len()
        invariant
            k <= records.len(),
            values == record_values(records@),
            texts(lines@) == head + type_lines_prefix(values, k as int),
        decreases records.len() - k,
    {
        let ghost before = lines@;
        assert(values[k as int] == records@[k as int]@);
        match &records[k] {
            Declaration::Function(_) => {},
            Declaration::Type(info) => {
                let line = info.render();
                lines.push(line);
                assert(texts(lines@) =~= texts(before).push(type_line(info@)));
            },
        }
        k = k + 1;
    }
    lines.push(String::from_str("---"));
    assert(texts(lines@) =~= report_lines(path@, values));
    lines
}

} // verus!
