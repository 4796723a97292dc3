//! The scan of a source tree: which entries are read, and what each file
//! that was read adds to the report and to the diagnostics.
//!
//! Walking directories and reading files is left to the caller. The caller
//! hands over what it found as plain values and prints the lines it gets
//! back.

use vstd::prelude::*;
use vstd::string::StringExecFns;
use crate::reader::ParseFailure;
use crate::report::report_lines;
use crate::syntax::SyntaxTree;
use crate::text::{contains, ends_with, has_suffix, occurs_in, texts};
use crate::visitor::{CodeVisitor, file_records};

verus! {

/// The arguments of a scan.
#[derive(Debug, Clone, PartialEq, Eq)]
pub struct Cli {
    /// The path to the codebase directory, as diagnostics show it.
    pub codebase: String,
}

/// What the scan reads of a directory entry.
#[derive(Debug, Clone, PartialEq, Eq)]
pub struct SourceEntry {
    /// The whole path, where it is valid Unicode.
    pub path: Option<String>,
    /// The last component of the path, where it is valid Unicode.
    pub file_name: Option<String>,
    /// The path as reports show it.
    pub label: String,
}

/// How parsing a file ended.
#[derive(Debug, PartialEq, Eq)]
pub enum ParseOutcome {
    /// The file parsed; this is its syntax tree.
    Parsed(SyntaxTree),
    /// The parser rejected the file.
    Failed(ParseFailure),
}

/// A directory entry together with how parsing it ended.
#[derive(Debug, PartialEq, Eq)]
pub struct ScannedFile {
    pub entry: SourceEntry,
    pub outcome: ParseOutcome,
}

/// The lines of a scan: the report, and the diagnostics beside it.
#[derive(Debug, Clone, PartialEq, Eq)]
pub struct ScanOutput {
    /// The report lines, in the order in which they are printed.
    pub report: Vec<String>,
    /// One line for each file that the parser rejected.
    pub diagnostics: Vec<String>,
}

/// Whether the entry's file name ends in `.rs`. A name that is not valid
/// Unicode does not.
pub open spec fn rust_file(entry: SourceEntry) -> bool {
    match entry.file_name {
        Some(name) => has_suffix(name@, ".rs"@),
        None => false,
    }
}

/// Whether the entry's path names a build or dependency directory: whether
/// `target` or `node_modules` stands anywhere in it. A path that is not valid
/// Unicode names none.
pub open spec fn in_target_dir(entry: SourceEntry) -> bool {
    match entry.path {
        Some(path) => occurs_in(path@, "target"@) || occurs_in(path@, "node_modules"@),
        None => false,
    }
}

/// Whether the scan reads the entry.
pub open spec fn selected(entry: SourceEntry) -> bool {
    !in_target_dir(entry) && rust_file(entry)
}

/// The diagnostic line for a file that the parser rejected with `message`,
/// in a scan rooted at `root`.
pub open spec fn diagnostic_line(root: Seq<char>, message: Seq<char>) -> Seq<char> {
    root + ": "@ + message
}

/// The report lines of one file that was read: its report where it parsed and
/// declares something, else nothing.
pub open spec fn file_report(label: Seq<char>, outcome: ParseOutcome) -> Seq<Seq<char>> {
    match outcome {
        ParseOutcome::Parsed(tree) => if file_records(tree).len() > 0 {
            report_lines(label, file_records(tree))
        } else {
            Seq::empty()
        },
        ParseOutcome::Failed(_) => Seq::empty(),
    }
}

/// The diagnostic lines of one file that was read: one line where the parser
/// rejected it, else nothing.
pub open spec fn file_diagnostics(root: Seq<char>, outcome: ParseOutcome) -> Seq<Seq<char>> {
    match outcome {
        ParseOutcome::Parsed(_) => Seq::empty(),
        ParseOutcome::Failed(failure) => seq![diagnostic_line(root, failure.message@)],
    }
}

/// The report lines of a scan over `files`: those of each selected file, in
/// order.
pub open spec fn scan_report(files: Seq<ScannedFile>) -> Seq<Seq<char>>
    decreases files.len(),
{
    if files.len() == 0 {
        Seq::empty()
    } else {
        let file = files.last();
        scan_report(files.drop_last()) + (if selected(file.entry) {
            file_report(file.entry.label@, file.outcome)
        } else {
            Seq::empty()
        })
    }
}

/// The diagnostic lines of a scan over `files` rooted at `root`: those of each
/// selected file, in order.
pub open spec fn scan_diagnostics(root: Seq<char>, files: Seq<ScannedFile>) -> Seq<Seq<char>>
    decreases files.len(),
{
    if files.len() == 0 {
        Seq::empty()
    } else {
        let file = files.last();
        scan_diagnostics(root, files.drop_last()) + (if selected(file.entry) {
            file_diagnostics(root, file.outcome)
        } else {
            Seq::empty()
        })
    }
}

/// The report of two runs of files laid end to end is the report of the
/// first followed by the report of the second.
pub proof fn lemma_scan_report_concat(first: Seq<ScannedFile>, second: Seq<ScannedFile>)
    ensures
        scan_report(first + second) == scan_report(first) + scan_report(second),
    decreases second.len(),
{
    if second.len() == 0 {
        assert(first + second =~= first);
    } else {
        lemma_scan_report_concat(first, second.drop_last());
        assert((first + second).drop_last() =~= first + second.drop_last());
        assert((first + second).last() == second.last());
    }
}

/// The diagnostics of two runs of files laid end to end are the diagnostics
/// of the first followed by the diagnostics of the second.
pub proof fn lemma_scan_diagnostics_concat(
    root: Seq<char>,
    first: Seq<ScannedFile>,
    second: Seq<ScannedFile>,
)
    ensures
        scan_diagnostics(root, first + second) == scan_diagnostics(root, first) + scan_diagnostics(
            root,
            second,
        ),
    decreases second.len(),
{
    if second.len() == 0 {
        assert(first + second =~= first);
    } else {
        lemma_scan_diagnostics_concat(root, first, second.drop_last());
        assert((first + second).drop_last() =~= first + second.drop_last());
        assert((first + second).last() == second.last());
    }
}

/// What one file adds to a scan stands between what the files before it and
/// the files after it add: no file changes the lines of another.
pub proof fn lemma_scan_splits_at(root: Seq<char>, files: Seq<ScannedFile>, k: int)
    requires
        0 <= k < files.len(),
    ensures
        scan_report(files) == scan_report(files.take(k)) + scan_report(seq![files[k]])
            + scan_report(files.skip(k + 1)),
        scan_diagnostics(root, files) == scan_diagnostics(root, files.take(k)) + scan_diagnostics(
            root,
            seq![files[k]],
        ) + scan_diagnostics(root, files.skip(k + 1)),
{
    let head = files.take(k);
    let one = seq![files[k]];
    let tail = files.skip(k + 1);
    assert(files =~= head + one + tail);
    lemma_scan_report_concat(head + one, tail);
    lemma_scan_report_concat(head, one);
    lemma_scan_diagnostics_concat(root, head + one, tail);
    lemma_scan_diagnostics_concat(root, head, one);
}

/// The lines of a scan over a single file.
pub proof fn lemma_scan_of_one(root: Seq<char>, file: ScannedFile)
    ensures
        scan_report(seq![file]) == (if selected(file.entry) {
            file_report(file.entry.label@, file.outcome)
        } else {
            Seq::empty()
        }),
        scan_diagnostics(root, seq![file]) == (if selected(file.entry) {
            file_diagnostics(root, file.outcome)
        } else {
            Seq::empty()
        }),
{
    let one = seq![file];
    assert(one.drop_last() =~= Seq::<ScannedFile>::empty());
    assert(scan_report(one.drop_last()) =~= Seq::<Seq<char>>::empty());
    assert(scan_diagnostics(root, one.drop_last()) =~= Seq::<Seq<char>>::empty());
    assert(one.last() == file);
}

/// Exclusion. An entry whose path holds the name of a build or dependency
/// directory is never read, and a scan says of it nothing at all: its lines
/// are those of the scan over the other files.
pub proof fn law_excluded_entries_add_nothing(root: Seq<char>, files: Seq<ScannedFile>, k: int)
    requires
        0 <= k < files.len(),
        in_target_dir(files[k].entry),
    ensures
        !selected(files[k].entry),
        scan_report(files) == scan_report(files.take(k) + files.skip(k + 1)),
        scan_diagnostics(root, files) == scan_diagnostics(root, files.take(k) + files.skip(k + 1)),
{
    lemma_scan_splits_at(root, files, k);
    lemma_scan_of_one(root, files[k]);
    lemma_scan_report_concat(files.take(k), files.skip(k + 1));
    lemma_scan_diagnostics_concat(root, files.take(k), files.skip(k + 1));
}

/// Parse failures are local. A selected file that the parser rejected has no
/// records and adds no report line; it adds exactly one diagnostic, its
/// message after the root. The lines of the files before and after it are
/// what they are without it.
pub proof fn law_parse_failure_is_local(root: Seq<char>, files: Seq<ScannedFile>, k: int)
    requires
        0 <= k < files.len(),
        selected(files[k].entry),
        files[k].outcome is Failed,
    ensures
        file_report(files[k].entry.label@, files[k].outcome) == Seq::<Seq<char>>::empty(),
        scan_report(files) == scan_report(files.take(k)) + scan_report(files.skip(k + 1)),
        scan_diagnostics(root, files) == scan_diagnostics(root, files.take(k)).push(
            diagnostic_line(root, files[k].outcome->Failed_0.message@),
        ) + scan_diagnostics(root, files.skip(k + 1)),
{
    lemma_scan_splits_at(root, files, k);
    lemma_scan_of_one(root, files[k]);
}

/// Whether the entry is a Rust source file by its name.
pub fn is_rust_file(entry: &SourceEntry) -> (is_rust: bool)
    ensures
        is_rust == rust_file(*entry),
{
    match &entry.file_name {
        Some(name) => ends_with(name.as_str(), ".rs"),
        None => false,
    }
}

/// Whether the entry lies outside every build and dependency directory.
pub fn is_not_target_dir(entry: &SourceEntry) -> (outside: bool)
    ensures
        outside == !in_target_dir(*entry),
{
    match &entry.path {
        Some(path) => !(contains(path.as_str(), "target") || contains(
            path.as_str(),
            "node_modules",
        )),
        None => true,
    }
}

/// Whether the scan reads the entry.
pub fn selects(entry: &SourceEntry) -> (read: bool)
    ensures
        read == selected(*entry),
{
    is_not_target_dir(entry) && is_rust_file(entry)
}

/// What one file that was read adds to the scan that `args` asks for.
pub fn scan_file(args: &Cli, label: &str, outcome: &ParseOutcome) -> (output: ScanOutput)
    ensures
        texts(output.report@) == file_report(label@, *outcome),
        texts(output.diagnostics@) == file_diagnostics(args.codebase@, *outcome),
{
    match outcome {
        ParseOutcome::Parsed(tree) => {
            let mut visitor = CodeVisitor::new();
            visitor.visit_file(tree);
            let report = if visitor.records().len() > 0 {
                visitor.report(label)
            } else {
                Vec::new()
            };
            let output = ScanOutput { report, diagnostics: Vec::new() };
            assert(texts(output.report@) =~= file_report(label@, *outcome));
            assert(texts(output.diagnostics@) =~= file_diagnostics(args.codebase@, *outcome));
            output
        },
        ParseOutcome::Failed(failure) => {
            let mut line = args.codebase.clone();
            line.append(": ");
            line.append(failure.message.as_str());
            let mut diagnostics: Vec<String> = Vec::new();
            diagnostics.push(line);
            let output = ScanOutput { report: Vec::new(), diagnostics };
            assert(texts(output.report@) =~= file_report(label@, *outcome));
            assert(texts(output.diagnostics@) =~= file_diagnostics(args.codebase@, *outcome));
            output
        },
    }
}

/// The scan that `args` asks for over the entries of `files`, in order. An
/// entry that is not selected adds nothing, whatever its outcome says.
pub fn scan_codebase(args: &Cli, files: &Vec<ScannedFile>) -> (output: ScanOutput)
    ensures
        texts(output.report@) == scan_report(files@),
        texts(output.diagnostics@) == scan_diagnostics(args.codebase@, files@),
{
    let mut report: Vec<String> = Vec::new();
    let mut diagnostics: Vec<String> = Vec::new();
    let mut i: usize = 0;
    assert(texts(report@) =~= scan_report(files@.take(0)));
    assert(texts(diagnostics@) =~= scan_diagnostics(args.codebase@, files@.take(0)));
    while i < files.len()
        invariant
            i <= files.len(),
            texts(report@) == scan_report(files@.take(i as int)),
            texts(diagnostics@) == scan_diagnostics(args.codebase@, files@.take(i as int)),
        decreases files.len() - i,
    {
        let file = &files[i];
        let ghost report_before = report@;
        let ghost diagnostics_before = diagnostics@;
        if selects(&file.entry) {
            let mut found = scan_file(args, file.entry.label.as_str(), &file.outcome);
            let ghost found_report = found.report@;
            let ghost found_diagnostics = found.diagnostics@;
            report.append(&mut found.report);
            diagnostics.append(&mut found.diagnostics);
            assert(texts(report@) =~= texts(report_before) + texts(found_report));
            assert(texts(diagnostics@) =~= texts(diagnostics_before) + texts(found_diagnostics));
        }
        proof {
            let done = files@.take(i as int + 1);
            assert(done.drop_last() =~= files@.take(i as int));
            assert(done.last() == files@[i as int]);
            assert(texts(report@) =~= scan_report(done));
            assert(texts(diagnostics@) =~= scan_diagnostics(args.codebase@, done));
        }
        i = i + 1;
    }
    assert(files@.take(i as int) =~= files@);
    ScanOutput { report, diagnostics }
}

} // verus!
