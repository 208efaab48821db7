use vstd::prelude::*;

use crate::model::Message;

verus! {

/// How a row shows its value.
#[derive(Clone, Copy, Debug, PartialEq, Eq, Structural)]
pub enum RowKind {
    /// The value as body text.
    Text,
    /// An icon named by the value, followed by the value as text.
    Icon,
    /// The value as a link; pressing it opens the value as a URL.
    Link,
}

/// One row of a settings list: a label and a value.
#[derive(Debug, PartialEq, Eq)]
pub struct InfoRow {
    /// The label: a message identifier when `translate` holds, the text itself otherwise.
    pub label: String,
    /// Whether `label` names a localized message.
    pub translate: bool,
    /// The value shown.
    pub value: String,
    /// How the value is shown.
    pub kind: RowKind,
}

impl InfoRow {
    /// The message that pressing the row sends: a link row launches the URL
    /// it shows; other rows cannot be pressed.
    pub fn on_press(&self) -> (m: Option<Message>)
        ensures
            self.kind == RowKind::Link ==> (m matches Some(Message::LaunchUrl(url)) && url@ == self.value@),
            self.kind != RowKind::Link ==> m is None,
    {
        match self.kind {
            RowKind::Link => Some(Message::LaunchUrl(self.value.clone())),
            _ => None,
        }
    }
}

/// The mathematical value of an `InfoRow`.
pub struct RowView {
    pub label: Seq<char>,
    pub translate: bool,
    pub value: Seq<char>,
    pub kind: RowKind,
}

impl View for InfoRow {
    type V = RowView;

    open spec fn view(&self) -> RowView {
        RowView { label: self.label@, translate: self.translate, value: self.value@, kind: self.kind }
    }
}

/// The views of a sequence of rows.
pub open spec fn rows_view(rows: Seq<InfoRow>) -> Seq<RowView> {
    rows.map_values(|r: InfoRow| r@)
}

/// The view of an optional string.
pub open spec fn opt_view(o: Option<String>) -> Option<Seq<char>> {
    match o {
        Some(s) => Some(s@),
        None => None,
    }
}

/// A row with the given parts.
pub open spec fn row_view(label: Seq<char>, translate: bool, value: Seq<char>, kind: RowKind) -> RowView {
    RowView { label, translate, value, kind }
}

/// One row when `value` is present, none otherwise.
pub open spec fn optional_row(
    label: Seq<char>,
    translate: bool,
    value: Option<Seq<char>>,
    kind: RowKind,
) -> Seq<RowView> {
    match value {
        Some(v) => seq![row_view(label, translate, v, kind)],
        None => Seq::empty(),
    }
}

pub proof fn lemma_rows_view_push(rows: Seq<InfoRow>, r: InfoRow)
    ensures
        rows_view(rows.push(r)) == rows_view(rows).push(r@),
{
    assert(rows_view(rows.push(r)) =~= rows_view(rows).push(r@));
}

/// Appends a row built from the parts when `value` is present.
pub fn push_row(rows: &mut Vec<InfoRow>, label: &str, translate: bool, value: Option<String>, kind: RowKind)
    ensures
        rows_view(final(rows)@) == rows_view(old(rows)@) + optional_row(label@, translate, opt_view(value), kind),
{
    proof {
        assert(rows_view(old(rows)@) + Seq::<RowView>::empty() =~= rows_view(old(rows)@));
    }
    match value {
        Some(v) => {
            let r = InfoRow { label: label.to_owned(), translate, value: v, kind };
            proof {
                lemma_rows_view_push(rows@, r);
                assert(rows_view(rows@).push(r@) =~= rows_view(rows@) + seq![r@]);
            }
            rows.push(r);
        },
        None => {},
    }
}

} // verus!
