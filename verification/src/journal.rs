//! The boundary to the external journaling collaborator.
//!
//! The tool itself runs outside this crate as a separate process. Here live
//! the decisions around it: the title handed over always carries the fixed
//! extension, the dry-run report renders the intended invocation without
//! side effects, and the tool's exit is interpreted into a result or a
//! terminal error.

use crate::providers::sanitize::{
    ends_with_md, md_ext, space_trimmed, trim_spaces, with_md_extension,
};
use vstd::prelude::*;

verus! {

/// Errors of the external journaling tool.
#[derive(Debug, Clone, PartialEq, Eq)]
pub enum JournalError {
    /// The tool is not installed or could not be started; carries the
    /// spawn failure's detail.
    ExternalToolUnavailable(String),
    /// The tool ran and exited unsuccessfully; carries its own words.
    ExternalToolFailed(String),
}

impl JournalError {
    /// A user-facing message, reporting the tool's words verbatim, with
    /// installation guidance when the tool is missing.
    pub fn describe(&self) -> (r: String)
        ensures
            self matches JournalError::ExternalToolUnavailable(d) ==> r@
                == "file-journal not found in PATH. Please install it first: https://github.com/total70/file-journal\nError: "@
                + d@,
            self matches JournalError::ExternalToolFailed(d) ==> r@ == "file-journal failed: "@
                + d@,
    {
        match self {
            JournalError::ExternalToolUnavailable(d) => {
                let mut r = String::from_str(
                    "file-journal not found in PATH. Please install it first: https://github.com/total70/file-journal\nError: ",
                );
                r.append(d.as_str());
                r
            },
            JournalError::ExternalToolFailed(d) => {
                let mut r = String::from_str("file-journal failed: ");
                r.append(d.as_str());
                r
            },
        }
    }
}

/// Append the fixed extension when the title does not already end with it.
pub fn normalize_entry_title(title: &str) -> (r: String)
    ensures
        r@ == with_md_extension(title@),
{
    let n = title.unicode_len();
    let has = n >= 3 && title.get_char(n - 3) == '.' && title.get_char(n - 2) == 'm'
        && title.get_char(n - 1) == 'd';
    proof {
        assert(has == ends_with_md(title@));
    }
    if has {
        String::from_str(title)
    } else {
        let mut r = String::from_str(title);
        r.append(".md");
        proof {
            reveal_strlit(".md");
            assert(".md"@ =~= md_ext());
        }
        r
    }
}

/// What a dry run reports: the title with the extension ensured, the
/// content, and the command line that a real run would execute.
pub open spec fn spec_dry_run_report(title: Seq<char>, content: Seq<char>) -> Seq<char> {
    "[DRY RUN] Would create:\n  Title: "@ + with_md_extension(title) + "\n  Content: "@ + content
        + "\n  Command: file-journal new '"@ + with_md_extension(title) + "' '"@ + content + "'"@
}

/// Report the entry that would be created, without invoking the journaling
/// tool. Never fails.
pub fn create_entry_dry_run(title: &str, content: &str) -> (r: Result<String, JournalError>)
    ensures
        r matches Ok(s) && s@ == spec_dry_run_report(title@, content@),
{
    let t = normalize_entry_title(title);
    let mut s = String::from_str("[DRY RUN] Would create:\n  Title: ");
    s.append(t.as_str());
    s.append("\n  Content: ");
    s.append(content);
    s.append("\n  Command: file-journal new '");
    s.append(t.as_str());
    s.append("' '");
    s.append(content);
    s.append("'");
    Ok(s)
}

/// Interpret the journaling tool's exit: success hands back its trimmed
/// standard output (the entry's location); failure is terminal and carries
/// the tool's standard error.
pub fn interpret_tool_output(success: bool, stdout: &str, stderr: &str) -> (r: Result<
    String,
    JournalError,
>)
    ensures
        success ==> (r matches Ok(s) && s@ == space_trimmed(stdout@)),
        !success ==> (r matches Err(e) && e matches JournalError::ExternalToolFailed(m) && m@
            == stderr@),
{
    if success {
        Ok(trim_spaces(stdout))
    } else {
        Err(JournalError::ExternalToolFailed(String::from_str(stderr)))
    }
}

} // verus!
