//! The report: the result's compact text, under a file name made of the target.

use vstd::prelude::*;
use crate::json::OsintResult;

verus! {

/// A file to create, or to overwrite if it exists: its name and all of its contents.
#[derive(Debug, PartialEq, Eq)]
pub struct ReportFile {
    pub name: String,
    pub contents: String,
}

/// `ReportFile` with each text as a sequence of characters.
pub struct ReportFileView {
    pub name: Seq<char>,
    pub contents: Seq<char>,
}

impl View for ReportFile {
    type V = ReportFileView;

    open spec fn view(&self) -> ReportFileView {
        ReportFileView { name: self.name@, contents: self.contents@ }
    }
}

/// Name of the report on `target`, in the working directory.
pub open spec fn report_name(target: Seq<char>) -> Seq<char> {
    target + "_osint_report.json"@
}

/// The line that tells where the report went.
pub open spec fn saved_notice_text(name: Seq<char>) -> Seq<char> {
    "Report saved to: "@ + name
}

/// Name of the report on `target`.
pub fn report_filename(target: &str) -> (name: String)
    ensures
        name@ == report_name(target@),
{
    String::from_str(target).concat("_osint_report.json")
}

/// The report on `target`: the result's compact text, unchanged, under the
/// target's file name.
pub fn save_report(target: &str, data: &OsintResult) -> (file: ReportFile)
    ensures
        file@ == (ReportFileView { name: report_name(target@), contents: data@ }),
{
    ReportFile { name: report_filename(target), contents: String::from_str(data.as_str()) }
}

/// The line that tells where the report went.
pub fn saved_notice(name: &str) -> (text: String)
    ensures
        text@ == saved_notice_text(name@),
{
    String::from_str("Report saved to: ").concat(name)
}

} // verus!
