//! What a linter's settings ask of whoever reads its output: which stream
//! to read, where the description of a diagnostic is found, and whether
//! every capture group that is referred to exists.

use vstd::prelude::*;
use crate::config::{LinterView, PicklsLinterConfig};
use crate::document::LinterDocumentView;
use crate::resolve::resolve_linter_spec;

verus! {

/// The stream of a linter from which diagnostics are read. The other
/// stream is ignored: the two are never merged.
#[derive(Clone, Copy, Debug, PartialEq, Eq, Structural)]
pub enum LinterStream {
    Stdout,
    Stderr,
}

/// Where the description of a diagnostic is found.
#[derive(Clone, Copy, Debug, PartialEq, Eq, Structural)]
pub enum DescriptionSource {
    /// The linter gives no description.
    Absent,
    /// The line printed just before the matched line: one line has to be
    /// remembered while the output is read.
    PreviousLine,
    /// The capture group of this number, counted from 1.
    Group(usize),
    /// The setting is neither -1 nor the number of a group.
    Invalid,
}

/// The value of `description_match` that stands for the previous line.
pub const DESCRIPTION_ON_PREVIOUS_LINE: isize = -1;

/// The stream that `use_stderr` selects.
pub open spec fn stream_spec(use_stderr: bool) -> LinterStream {
    if use_stderr {
        LinterStream::Stderr
    } else {
        LinterStream::Stdout
    }
}

/// What a value of `description_match` means.
pub open spec fn description_source_spec(description_match: Option<isize>) -> DescriptionSource {
    match description_match {
        None => DescriptionSource::Absent,
        Some(n) => if n == -1 {
            DescriptionSource::PreviousLine
        } else if n >= 1 {
            DescriptionSource::Group(n as usize)
        } else {
            DescriptionSource::Invalid
        },
    }
}

/// Whether a pattern with `group_count` capture groups has the group
/// `group`, counted from 1.
pub open spec fn has_group(group_count: usize, group: usize) -> bool {
    1 <= group <= group_count
}

/// Whether a pattern with `group_count` capture groups has the group that
/// an optional setting names. A setting that is left out names none.
pub open spec fn has_optional_group(group_count: usize, group: Option<usize>) -> bool {
    match group {
        Some(group) => has_group(group_count, group),
        None => true,
    }
}

/// Whether a pattern with `group_count` capture groups has every group
/// that the linter refers to. The line's group must exist; each other one
/// only where it is set; the previous-line value refers to no group.
pub open spec fn refers_to_groups_of_spec(linter: LinterView, group_count: usize) -> bool {
    &&& has_group(group_count, linter.line_match)
    &&& has_optional_group(group_count, linter.filename_match)
    &&& has_optional_group(group_count, linter.start_col_match)
    &&& has_optional_group(group_count, linter.end_col_match)
    &&& has_optional_group(group_count, linter.severity_match)
    &&& match description_source_spec(linter.description_match) {
        DescriptionSource::Absent => true,
        DescriptionSource::PreviousLine => true,
        DescriptionSource::Group(group) => has_group(group_count, group),
        DescriptionSource::Invalid => false,
    }
}

/// The value -1 of `description_match` is kept when a document is read,
/// means the previous line, and is told apart from a setting that is left
/// out and from every other number: a number from 1 on names that group.
pub proof fn lemma_previous_line_is_distinct(doc: LinterDocumentView, other: isize)
    requires
        doc.description_match == Some(DESCRIPTION_ON_PREVIOUS_LINE),
    ensures
        resolve_linter_spec(doc).description_match == Some(DESCRIPTION_ON_PREVIOUS_LINE),
        description_source_spec(resolve_linter_spec(doc).description_match)
            == DescriptionSource::PreviousLine,
        description_source_spec(None) == DescriptionSource::Absent,
        other != -1 ==> description_source_spec(Some(other)) != DescriptionSource::PreviousLine,
        other >= 1 ==> description_source_spec(Some(other)) == DescriptionSource::Group(
            other as usize,
        ),
{
}

/// Whether the pattern has the group of an optional setting.
fn optional_group_exists(group_count: usize, group: Option<usize>) -> (exists: bool)
    ensures
        exists == has_optional_group(group_count, group),
{
    match group {
        Some(group) => 1 <= group && group <= group_count,
        None => true,
    }
}

impl PicklsLinterConfig {
    /// The stream from which this linter's diagnostics are read.
    pub fn stream(&self) -> (stream: LinterStream)
        ensures
            stream == stream_spec(self.use_stderr),
            stream == LinterStream::Stderr <==> self.use_stderr,
    {
        if self.use_stderr {
            LinterStream::Stderr
        } else {
            LinterStream::Stdout
        }
    }

    /// Where the description of this linter's diagnostics is found.
    pub fn description_source(&self) -> (source: DescriptionSource)
        ensures
            source == description_source_spec(self.description_match),
            source == DescriptionSource::PreviousLine <==> self.description_match == Some(
                DESCRIPTION_ON_PREVIOUS_LINE,
            ),
            source == DescriptionSource::Absent <==> self.description_match is None,
    {
        match self.description_match {
            None => DescriptionSource::Absent,
            Some(n) => {
                if n == DESCRIPTION_ON_PREVIOUS_LINE {
                    DescriptionSource::PreviousLine
                } else if n >= 1 {
                    DescriptionSource::Group(n as usize)
                } else {
                    DescriptionSource::Invalid
                }
            },
        }
    }

    /// Whether a pattern with `group_count` capture groups has every group
    /// that this linter refers to.
    pub fn refers_to_groups_of(&self, group_count: usize) -> (valid: bool)
        ensures
            valid == refers_to_groups_of_spec(self@, group_count),
    {
        let description = match self.description_source() {
            DescriptionSource::Absent => true,
            DescriptionSource::PreviousLine => true,
            DescriptionSource::Group(group) => 1 <= group && group <= group_count,
            DescriptionSource::Invalid => false,
        };
        1 <= self.line_match && self.line_match <= group_count && optional_group_exists(
            group_count,
            self.filename_match,
        ) && optional_group_exists(group_count, self.start_col_match) && optional_group_exists(
            group_count,
            self.end_col_match,
        ) && optional_group_exists(group_count, self.severity_match) && description
    }
}

} // verus!
