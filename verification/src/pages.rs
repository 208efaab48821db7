use vstd::prelude::*;

use crate::rows::{InfoRow, RowKind, RowView, rows_view};
use crate::text::{lines, lines_of, split_once, split_once_str, starts_with, string_views, has_prefix};

verus! {

/// What a page shows.
#[derive(Debug, PartialEq, Eq)]
pub enum PageView {
    /// A list of rows.
    Rows(Vec<InfoRow>),
    /// A heading holding this text (the stored error message of a command).
    Heading(String),
    /// The heading that says that an error occurred.
    ErrorOccurred,
    /// The heading that says that no page is selected.
    NoPage,
}

/// The mathematical value of a `PageView`.
pub enum PageSpec {
    Rows(Seq<RowView>),
    Heading(Seq<char>),
    ErrorOccurred,
    NoPage,
}

impl View for PageView {
    type V = PageSpec;

    open spec fn view(&self) -> PageSpec {
        match self {
            PageView::Rows(rows) => PageSpec::Rows(rows_view(rows@)),
            PageView::Heading(text) => PageSpec::Heading(text@),
            PageView::ErrorOccurred => PageSpec::ErrorOccurred,
            PageView::NoPage => PageSpec::NoPage,
        }
    }
}

/// Whether every line of `text` holds `sep`.
pub open spec fn every_line_splits(text: Seq<char>, sep: Seq<char>) -> bool {
    forall|i: int| 0 <= i < lines(text).len() ==> (#[trigger] split_once(lines(text)[i], sep)) is Some
}

/// A line of `lscpu`, `Key:   value`: the text before the first `':'` labels
/// the text after it.
pub open spec fn processor_row(line: Seq<char>) -> RowView {
    let parts = split_once(line, ":"@).unwrap();
    RowView { label: parts.0, translate: false, value: parts.1, kind: RowKind::Text }
}

/// A line of `lspci` or `lsusb`, `address: description`: the text after the
/// first `": "` labels the text before it.
pub open spec fn device_row(line: Seq<char>) -> RowView {
    let parts = split_once(line, ": "@).unwrap();
    RowView { label: parts.1, translate: false, value: parts.0, kind: RowKind::Text }
}

/// The rows of the processor page: one for each line of the output.
pub open spec fn processor_rows(text: Seq<char>) -> Seq<RowView> {
    lines(text).map_values(|l: Seq<char>| processor_row(l))
}

/// The rows of a device page: one for each line of the output.
pub open spec fn device_rows(text: Seq<char>) -> Seq<RowView> {
    lines(text).map_values(|l: Seq<char>| device_row(l))
}

/// Whether a command page can be shown for `output`: the output is missing,
/// is an error message (starts with `error_text`), or each of its lines holds `sep`.
pub open spec fn command_page_showable(output: Option<Seq<char>>, error_text: Seq<char>, sep: Seq<char>) -> bool {
    match output {
        None => true,
        Some(s) => starts_with(s, error_text) || every_line_splits(s, sep),
    }
}

/// What the processor page shows for the stored `lscpu` output.
pub open spec fn processor_page_spec(output: Option<Seq<char>>, error_text: Seq<char>) -> PageSpec {
    match output {
        None => PageSpec::ErrorOccurred,
        Some(s) => if starts_with(s, error_text) {
            PageSpec::Heading(s)
        } else {
            PageSpec::Rows(processor_rows(s))
        },
    }
}

/// What a device page shows for the stored `lspci` or `lsusb` output.
pub open spec fn device_page_spec(output: Option<Seq<char>>, error_text: Seq<char>) -> PageSpec {
    match output {
        None => PageSpec::ErrorOccurred,
        Some(s) => if starts_with(s, error_text) {
            PageSpec::Heading(s)
        } else {
            PageSpec::Rows(device_rows(s))
        },
    }
}

/// Whether every line of `text` holds `sep`.
pub fn lines_split(text: &str, sep: &str) -> (b: bool)
    ensures
        b == every_line_splits(text@, sep@),
{
    let ls = lines_of(text);
    let mut i: usize = 0;
    while i < ls.len()
        invariant
            string_views(ls@) == lines(text@),
            i <= ls@.len(),
            forall|k: int| 0 <= k < i ==> (#[trigger] split_once(lines(text@)[k], sep@)) is Some,
        decreases ls.len() - i,
    {
        assert(ls@[i as int]@ == lines(text@)[i as int]);
        match split_once_str(ls[i].as_str(), sep) {
            Some(_) => {},
            None => {
                return false;
            },
        }
        i = i + 1;
    }
    true
}

/// The rows of a command's output: each line split at its first `sep`; the
/// part before labels the part after, or, with `swap`, the other way round.
fn command_rows(text: &str, sep: &str, swap: bool) -> (rows: Vec<InfoRow>)
    requires
        every_line_splits(text@, sep@),
    ensures
        rows@.len() == lines(text@).len(),
        forall|i: int| 0 <= i < rows@.len() ==> {
            let parts = split_once(lines(text@)[i], sep@).unwrap();
            #[trigger] rows@[i]@ == (if swap {
                RowView { label: parts.1, translate: false, value: parts.0, kind: RowKind::Text }
            } else {
                RowView { label: parts.0, translate: false, value: parts.1, kind: RowKind::Text }
            })
        },
{
    let ls = lines_of(text);
    let mut rows: Vec<InfoRow> = Vec::new();
    let mut i: usize = 0;
    while i < ls.len()
        invariant
            string_views(ls@) == lines(text@),
            every_line_splits(text@, sep@),
            i <= ls@.len(),
            rows@.len() == i,
            forall|k: int| 0 <= k < i ==> {
                let parts = split_once(lines(text@)[k], sep@).unwrap();
                #[trigger] rows@[k]@ == (if swap {
                    RowView { label: parts.1, translate: false, value: parts.0, kind: RowKind::Text }
                } else {
                    RowView { label: parts.0, translate: false, value: parts.1, kind: RowKind::Text }
                })
            },
        decreases ls.len() - i,
    {
        assert(ls@[i as int]@ == lines(text@)[i as int]);
        assert(split_once(lines(text@)[i as int], sep@) is Some);
        match split_once_str(ls[i].as_str(), sep) {
            Some((before, after)) => {
                let r = if swap {
                    InfoRow { label: after, translate: false, value: before, kind: RowKind::Text }
                } else {
                    InfoRow { label: before, translate: false, value: after, kind: RowKind::Text }
                };
                rows.push(r);
            },
            None => {
                proof {
                    assert(false);
                }
            },
        }
        i = i + 1;
    }
    rows
}

/// The processor page for the stored `lscpu` output: the error heading when
/// there is none, the stored text as a heading when it is an error message
/// (starts with `error_text`), else one row for each line, `Key: value`.
pub fn processor_page(output: &Option<String>, error_text: &str) -> (page: PageView)
    requires
        command_page_showable(opt_str(output), error_text@, ":"@),
    ensures
        page@ == processor_page_spec(opt_str(output), error_text@),
{
    match output {
        None => PageView::ErrorOccurred,
        Some(s) => {
            if has_prefix(s.as_str(), error_text) {
                PageView::Heading(s.clone())
            } else {
                let rows = command_rows(s.as_str(), ":", false);
                assert(rows_view(rows@) =~= processor_rows(s@));
                PageView::Rows(rows)
            }
        },
    }
}

/// A device page for the stored `lspci` or `lsusb` output: the error heading
/// when there is none, the stored text as a heading when it is an error
/// message, else one row for each line, labelled by the text after `": "`.
pub fn device_page(output: &Option<String>, error_text: &str) -> (page: PageView)
    requires
        command_page_showable(opt_str(output), error_text@, ": "@),
    ensures
        page@ == device_page_spec(opt_str(output), error_text@),
{
    match output {
        None => PageView::ErrorOccurred,
        Some(s) => {
            if has_prefix(s.as_str(), error_text) {
                PageView::Heading(s.clone())
            } else {
                let rows = command_rows(s.as_str(), ": ", true);
                assert(rows_view(rows@) =~= device_rows(s@));
                PageView::Rows(rows)
            }
        },
    }
}

/// The view of an optional string.
pub open spec fn opt_str(o: &Option<String>) -> Option<Seq<char>> {
    match o {
        Some(s) => Some(s@),
        None => None,
    }
}

} // verus!
