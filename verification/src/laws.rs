use vstd::prelude::*;

use crate::model::{AppState, ContextPage, Message, Page, page_message_id, view_spec};
use crate::pages::{PageSpec, device_rows, every_line_splits, processor_rows};
use crate::release::{
    distribution_rows_spec, extension_rows, field, field_or, identity_rows, link_rows, nonempty_field, parsed_url_text,
    presentation_rows, release_rows, report_rows, url_field, variant_rows, words_field, date_field,
};
use crate::rows::{RowKind, RowView, optional_row};
use crate::text::{
    first_match, lemma_first_match_matches, lemma_line_end_bounds, line_end, lines, lines_from,
    matches_at, split_once, starts_with, strip_cr,
};

verus! {

/// Toggling a context page selects it: afterwards it is the context page, and
/// the drawer is open unless it was already open on that page.
pub proof fn lemma_toggle_selects(s: AppState, p: ContextPage)
    ensures
        s.toggled(p).context_page == p,
        s.toggled(p).show_context == (s.context_page != p || !s.show_context),
{
}

/// Toggling the page that the drawer already shows, twice, gives back the
/// state; toggling another page twice leaves it selected and the drawer closed.
pub proof fn lemma_toggle_twice(s: AppState, p: ContextPage)
    ensures
        s.context_page == p ==> s.toggled(p).toggled(p) == s,
        s.context_page != p ==> s.toggled(p).toggled(p).context_page == p
            && !s.toggled(p).toggled(p).show_context,
{
}

/// No message changes the navigation bar, the active entry or the stored
/// command output.
pub proof fn lemma_update_keeps_pages(s: AppState, m: Message)
    ensures
        s.after(m).nav == s.nav,
        s.after(m).active == s.active,
        s.after(m).lscpu == s.lscpu,
        s.after(m).lspci == s.lspci,
        s.after(m).lsusb == s.lsusb,
{
}

/// The window title always begins with the application title.
pub proof fn lemma_title_starts_with_app_title(s: AppState, app_title: Seq<char>)
    ensures
        starts_with(s.window_title(app_title), app_title),
{
    let t = s.window_title(app_title);
    assert(t.take(app_title.len() as int) =~= app_title);
}

proof fn lemma_split_rejoins(line: Seq<char>, sep: Seq<char>)
    requires
        split_once(line, sep) is Some,
    ensures
        split_once(line, sep).unwrap().0 + sep + split_once(line, sep).unwrap().1 == line,
{
    lemma_first_match_matches(line, sep, 0);
    let i: int = first_match(line, sep, 0).unwrap();
    assert(matches_at(line, sep, i));
    assert(line.take(i) + sep + line.skip(i + sep.len()) =~= line);
}

/// Each row of the processor page gives back its line: label, `':'`, value.
pub proof fn lemma_processor_rows_rejoin(text: Seq<char>)
    requires
        every_line_splits(text, ":"@),
    ensures
        processor_rows(text).len() == lines(text).len(),
        forall|i: int| 0 <= i < lines(text).len() ==>
            (#[trigger] processor_rows(text)[i]).label + ":"@ + processor_rows(text)[i].value == lines(text)[i],
{
    assert forall|i: int| 0 <= i < lines(text).len() implies
        (#[trigger] processor_rows(text)[i]).label + ":"@ + processor_rows(text)[i].value == lines(text)[i] by {
        assert(split_once(lines(text)[i], ":"@) is Some);
        lemma_split_rejoins(lines(text)[i], ":"@);
    }
}

/// Each row of a device page gives back its line: value, `": "`, label.
pub proof fn lemma_device_rows_rejoin(text: Seq<char>)
    requires
        every_line_splits(text, ": "@),
    ensures
        device_rows(text).len() == lines(text).len(),
        forall|i: int| 0 <= i < lines(text).len() ==>
            (#[trigger] device_rows(text)[i]).value + ": "@ + device_rows(text)[i].label == lines(text)[i],
{
    assert forall|i: int| 0 <= i < lines(text).len() implies
        (#[trigger] device_rows(text)[i]).value + ": "@ + device_rows(text)[i].label == lines(text)[i] by {
        assert(split_once(lines(text)[i], ": "@) is Some);
        lemma_split_rejoins(lines(text)[i], ": "@);
    }
}

proof fn lemma_lines_from_no_newline(s: Seq<char>, i: int)
    ensures
        forall|k: int| 0 <= k < lines_from(s, i).len() ==> !(#[trigger] lines_from(s, i)[k]).contains('\n'),
    decreases s.len() - i,
{
    if 0 <= i < s.len() {
        lemma_line_end_bounds(s, i);
        let e: int = line_end(s, i);
        let l = s.subrange(i, e);
        assert(!l.contains('\n')) by {
            if l.contains('\n') {
                let j = choose|j: int| 0 <= j < l.len() && l[j] == '\n';
                assert(s[i + j] == '\n');
            }
        }
        assert(!strip_cr(l).contains('\n')) by {
            if strip_cr(l).contains('\n') {
                let j = choose|j: int| 0 <= j < strip_cr(l).len() && strip_cr(l)[j] == '\n';
                assert(l[j] == '\n');
            }
        }
        if e < s.len() {
            lemma_lines_from_no_newline(s, e + 1);
            assert forall|k: int| 0 <= k < lines_from(s, i).len() implies !(#[trigger] lines_from(s, i)[k]).contains('\n') by {
                if k > 0 {
                    assert(lines_from(s, i)[k] == lines_from(s, e + 1)[k - 1]);
                }
            }
        }
    }
}

/// No line holds a line break.
pub proof fn lemma_lines_have_no_newline(s: Seq<char>)
    ensures
        forall|k: int| 0 <= k < lines(s).len() ==> !(#[trigger] lines(s)[k]).contains('\n'),
{
    lemma_lines_from_no_newline(s, 0);
}

/// The distribution page always begins with the pretty name and the name of
/// the system, each falling back to its default when unset.
pub proof fn lemma_distribution_starts_with_names(f: Map<Seq<char>, Seq<char>>)
    ensures
        distribution_rows_spec(f).len() >= 3,
        distribution_rows_spec(f)[0] == (RowView {
            label: "pretty-name"@,
            translate: true,
            value: field_or(f, "PRETTY_NAME"@, "Linux"@),
            kind: RowKind::Text,
        }),
        distribution_rows_spec(f)[1] == (RowView {
            label: "name"@,
            translate: true,
            value: field_or(f, "NAME"@, "linux"@),
            kind: RowKind::Text,
        }),
{
}

/// A command that failed leaves its error message, which begins with the
/// error text; its page then shows that message as a heading, and needs no
/// line of it to split.
pub proof fn lemma_failed_command_shows_message(
    s: AppState,
    fields: Map<Seq<char>, Seq<char>>,
    error_text: Seq<char>,
    message: Seq<char>,
)
    requires
        starts_with(message, error_text),
    ensures
        s.active_page() == Some(Page::Processor) && s.lscpu == Some(message) ==> s.showable(false, error_text)
            && view_spec(s, fields, error_text) == PageSpec::Heading(message),
        s.active_page() == Some(Page::PCIs) && s.lspci == Some(message) ==> s.showable(false, error_text)
            && view_spec(s, fields, error_text) == PageSpec::Heading(message),
        s.active_page() == Some(Page::USBs) && s.lsusb == Some(message) ==> s.showable(false, error_text)
            && view_spec(s, fields, error_text) == PageSpec::Heading(message),
{
}

/// Concatenation keeps what either part contains.
pub broadcast proof fn lemma_add_contains<A>(a: Seq<A>, b: Seq<A>, x: A)
    ensures
        a.contains(x) || b.contains(x) ==> #[trigger] (a + b).contains(x),
{
    if a.contains(x) {
        let i = choose|i: int| 0 <= i < a.len() && a[i] == x;
        assert((a + b)[i] == x);
    } else if b.contains(x) {
        let i = choose|i: int| 0 <= i < b.len() && b[i] == x;
        assert((a + b)[a.len() + i] == x);
    }
}

/// A one-element sequence contains its element.
pub broadcast proof fn lemma_singleton_contains<A>(x: A)
    ensures
        #[trigger] seq![x].contains(x),
{
    assert(seq![x][0] == x);
}

/// Each field that the os-release file sets shows on the distribution page
/// as a row under its own label, holding that field's value (an icon row for
/// the logo, text rows otherwise).
pub proof fn lemma_set_fields_are_shown(f: Map<Seq<char>, Seq<char>>)
    ensures
        f.contains_key("VERSION"@) ==> distribution_rows_spec(f).contains(
            RowView { label: "version"@, translate: true, value: f["VERSION"@], kind: RowKind::Text },
        ),
        f.contains_key("VERSION_ID"@) ==> distribution_rows_spec(f).contains(
            RowView { label: "version-id"@, translate: true, value: f["VERSION_ID"@], kind: RowKind::Text },
        ),
        f.contains_key("BUILD_ID"@) ==> distribution_rows_spec(f).contains(
            RowView { label: "build-id"@, translate: true, value: f["BUILD_ID"@], kind: RowKind::Text },
        ),
        f.contains_key("IMAGE_ID"@) ==> distribution_rows_spec(f).contains(
            RowView { label: "image-id"@, translate: true, value: f["IMAGE_ID"@], kind: RowKind::Text },
        ),
        f.contains_key("IMAGE_VERSION"@) ==> distribution_rows_spec(f).contains(
            RowView { label: "image-version"@, translate: true, value: f["IMAGE_VERSION"@], kind: RowKind::Text },
        ),
        f.contains_key("VENDOR_NAME"@) ==> distribution_rows_spec(f).contains(
            RowView { label: "vendor-name"@, translate: true, value: f["VENDOR_NAME"@], kind: RowKind::Text },
        ),
        f.contains_key("ANSI_COLOR"@) ==> distribution_rows_spec(f).contains(
            RowView { label: "ansi-color"@, translate: true, value: f["ANSI_COLOR"@], kind: RowKind::Text },
        ),
        f.contains_key("LOGO"@) ==> distribution_rows_spec(f).contains(
            RowView { label: "logo"@, translate: true, value: f["LOGO"@], kind: RowKind::Icon },
        ),
        f.contains_key("CPE_NAME"@) ==> distribution_rows_spec(f).contains(
            RowView { label: "cpe-name"@, translate: true, value: f["CPE_NAME"@], kind: RowKind::Text },
        ),
        f.contains_key("VARIANT"@) ==> distribution_rows_spec(f).contains(
            RowView { label: "variant"@, translate: true, value: f["VARIANT"@], kind: RowKind::Text },
        ),
        f.contains_key("VARIANT_ID"@) ==> distribution_rows_spec(f).contains(
            RowView { label: "variant-id"@, translate: true, value: f["VARIANT_ID"@], kind: RowKind::Text },
        ),
        f.contains_key("DEFAULT_HOSTNAME"@) ==> distribution_rows_spec(f).contains(
            RowView { label: "default-hostname"@, translate: true, value: f["DEFAULT_HOSTNAME"@], kind: RowKind::Text },
        ),
        f.contains_key("ARCHITECTURE"@) ==> distribution_rows_spec(f).contains(
            RowView { label: "arch"@, translate: true, value: f["ARCHITECTURE"@], kind: RowKind::Text },
        ),
        f.contains_key("SYSEXT_LEVEL"@) ==> distribution_rows_spec(f).contains(
            RowView { label: "SYSEXT_LEVEL"@, translate: false, value: f["SYSEXT_LEVEL"@], kind: RowKind::Text },
        ),
        f.contains_key("CONFEXT_LEVEL"@) ==> distribution_rows_spec(f).contains(
            RowView { label: "CONFEXT_LEVEL"@, translate: false, value: f["CONFEXT_LEVEL"@], kind: RowKind::Text },
        ),
{
    broadcast use lemma_add_contains, lemma_singleton_contains;
}

/// Each URL that the os-release file sets and that parses shows on the
/// distribution page as a link row under its label, holding the parsed URL.
pub proof fn lemma_set_urls_are_links(f: Map<Seq<char>, Seq<char>>)
    ensures
        f.contains_key("HOME_URL"@) && parsed_url_text(f["HOME_URL"@]) is Some ==> distribution_rows_spec(f).contains(
            RowView { label: "home-url"@, translate: true, value: parsed_url_text(f["HOME_URL"@]).unwrap(), kind: RowKind::Link },
        ),
        f.contains_key("SUPPORT_URL"@) && parsed_url_text(f["SUPPORT_URL"@]) is Some ==> distribution_rows_spec(f).contains(
            RowView { label: "vendor-url"@, translate: true, value: parsed_url_text(f["SUPPORT_URL"@]).unwrap(), kind: RowKind::Link },
        ),
        f.contains_key("DOCUMENTATION_URL"@) && parsed_url_text(f["DOCUMENTATION_URL"@]) is Some ==> distribution_rows_spec(f).contains(
            RowView { label: "doc-url"@, translate: true, value: parsed_url_text(f["DOCUMENTATION_URL"@]).unwrap(), kind: RowKind::Link },
        ),
        f.contains_key("SUPPORT_URL"@) && parsed_url_text(f["SUPPORT_URL"@]) is Some ==> distribution_rows_spec(f).contains(
            RowView { label: "support-url"@, translate: true, value: parsed_url_text(f["SUPPORT_URL"@]).unwrap(), kind: RowKind::Link },
        ),
        f.contains_key("BUG_REPORT_URL"@) && parsed_url_text(f["BUG_REPORT_URL"@]) is Some ==> distribution_rows_spec(f).contains(
            RowView { label: "bug-report-url"@, translate: true, value: parsed_url_text(f["BUG_REPORT_URL"@]).unwrap(), kind: RowKind::Link },
        ),
        f.contains_key("PRIVACY_POLICY_URL"@) && parsed_url_text(f["PRIVACY_POLICY_URL"@]) is Some ==> distribution_rows_spec(f).contains(
            RowView { label: "privacy-policy-url"@, translate: true, value: parsed_url_text(f["PRIVACY_POLICY_URL"@]).unwrap(), kind: RowKind::Link },
        ),
{
    broadcast use lemma_add_contains, lemma_singleton_contains;
}

/// The window title names the active navigation entry, whichever it is: for
/// every valid index `i`, making `i` active gives the application title,
/// `" — "` and the text of entry `i`.
pub proof fn lemma_title_names_active_entry(s: AppState, i: int, app_title: Seq<char>)
    requires
        0 <= i < s.nav.len(),
    ensures
        (AppState { active: i, ..s }).window_title(app_title) == app_title + " — "@ + s.nav[i].0,
{
}

/// Distinct pages carry distinct message identifiers, so no two navigation
/// entries share a name.
pub proof fn lemma_page_names_distinct(p: Page, q: Page)
    ensures
        p != q ==> page_message_id(p) != page_message_id(q),
{
    reveal_strlit("distribution");
    reveal_strlit("processor");
    reveal_strlit("pci-devices");
    reveal_strlit("usb-devices");
    assert(("distribution"@).len() == 12);
    assert(("processor"@).len() == 9);
    assert(("pci-devices"@).len() == 11);
    assert(("usb-devices"@).len() == 11);
    assert(("pci-devices"@)[0] == 'p');
    assert(("usb-devices"@)[0] == 'u');
}

/// Opening a URL and the subscription's report leave the whole state
/// unchanged: the context drawer in particular stays as it was.
pub proof fn lemma_other_messages_keep_state(s: AppState, url: String)
    ensures
        s.after(Message::LaunchUrl(url)) == s,
        s.after(Message::SubscriptionChannel) == s,
{
}

} // verus!
verus! {

/// What a concatenation contains, one of its parts contains.
pub broadcast proof fn lemma_add_contains_split<A>(a: Seq<A>, b: Seq<A>, x: A)
    ensures
        #[trigger] (a + b).contains(x) ==> a.contains(x) || b.contains(x),
{
    if (a + b).contains(x) {
        let i = choose|i: int| 0 <= i < (a + b).len() && (a + b)[i] == x;
        if i < a.len() {
            assert(a[i] == x);
        } else {
            assert(b[i - a.len()] == x);
        }
    }
}

pub broadcast proof fn lemma_optional_row_contains(
    label: Seq<char>,
    translate: bool,
    value: Option<Seq<char>>,
    kind: RowKind,
    r: RowView,
)
    ensures
        #[trigger] optional_row(label, translate, value, kind).contains(r) ==> value is Some && r == (RowView {
            label,
            translate,
            value: value.unwrap(),
            kind,
        }),
{
    if optional_row(label, translate, value, kind).contains(r) {
        let i = choose|i: int| 0 <= i < optional_row(label, translate, value, kind).len()
            && optional_row(label, translate, value, kind)[i] == r;
    }
}

/// The rows that `identity_rows` can hold.
spec fn identity_rows_cases(f: Map<Seq<char>, Seq<char>>, r: RowView) -> bool {
    ||| (Some(field_or(f, "PRETTY_NAME"@, "Linux"@)) matches Some(v) && r == (RowView { label: "pretty-name"@, translate: true, value: v, kind: RowKind::Text }))
    ||| (Some(field_or(f, "NAME"@, "linux"@)) matches Some(v) && r == (RowView { label: "name"@, translate: true, value: v, kind: RowKind::Text }))
    ||| (field(f, "VERSION"@) matches Some(v) && r == (RowView { label: "version"@, translate: true, value: v, kind: RowKind::Text }))
    ||| (field(f, "VERSION_ID"@) matches Some(v) && r == (RowView { label: "version-id"@, translate: true, value: v, kind: RowKind::Text }))
    ||| (Some(field_or(f, "ID"@, "linux"@)) matches Some(v) && r == (RowView { label: "id"@, translate: true, value: v, kind: RowKind::Text }))
    ||| (words_field(f, "ID_LIKE"@) matches Some(v) && r == (RowView { label: "id-like"@, translate: true, value: v, kind: RowKind::Text }))
}

proof fn lemma_identity_rows_cases(f: Map<Seq<char>, Seq<char>>, r: RowView)
    ensures
        identity_rows(f).contains(r) ==> identity_rows_cases(f, r),
{
    broadcast use lemma_add_contains_split, lemma_optional_row_contains;
}

/// The rows that `release_rows` can hold.
spec fn release_rows_cases(f: Map<Seq<char>, Seq<char>>, r: RowView) -> bool {
    ||| (nonempty_field(f, "VERSION_CODENAME"@) matches Some(v) && r == (RowView { label: "version-codename"@, translate: true, value: v, kind: RowKind::Text }))
    ||| (field(f, "BUILD_ID"@) matches Some(v) && r == (RowView { label: "build-id"@, translate: true, value: v, kind: RowKind::Text }))
    ||| (field(f, "IMAGE_ID"@) matches Some(v) && r == (RowView { label: "image-id"@, translate: true, value: v, kind: RowKind::Text }))
    ||| (field(f, "IMAGE_VERSION"@) matches Some(v) && r == (RowView { label: "image-version"@, translate: true, value: v, kind: RowKind::Text }))
}

proof fn lemma_release_rows_cases(f: Map<Seq<char>, Seq<char>>, r: RowView)
    ensures
        release_rows(f).contains(r) ==> release_rows_cases(f, r),
{
    broadcast use lemma_add_contains_split, lemma_optional_row_contains;
}

/// The rows that `presentation_rows` can hold.
spec fn presentation_rows_cases(f: Map<Seq<char>, Seq<char>>, r: RowView) -> bool {
    ||| (field(f, "VENDOR_NAME"@) matches Some(v) && r == (RowView { label: "vendor-name"@, translate: true, value: v, kind: RowKind::Text }))
    ||| (field(f, "ANSI_COLOR"@) matches Some(v) && r == (RowView { label: "ansi-color"@, translate: true, value: v, kind: RowKind::Text }))
    ||| (field(f, "LOGO"@) matches Some(v) && r == (RowView { label: "logo"@, translate: true, value: v, kind: RowKind::Icon }))
    ||| (field(f, "CPE_NAME"@) matches Some(v) && r == (RowView { label: "cpe-name"@, translate: true, value: v, kind: RowKind::Text }))
}

proof fn lemma_presentation_rows_cases(f: Map<Seq<char>, Seq<char>>, r: RowView)
    ensures
        presentation_rows(f).contains(r) ==> presentation_rows_cases(f, r),
{
    broadcast use lemma_add_contains_split, lemma_optional_row_contains;
}

/// The rows that `link_rows` can hold.
spec fn link_rows_cases(f: Map<Seq<char>, Seq<char>>, r: RowView) -> bool {
    ||| (url_field(f, "HOME_URL"@) matches Some(v) && r == (RowView { label: "home-url"@, translate: true, value: v, kind: RowKind::Link }))
    ||| (url_field(f, "SUPPORT_URL"@) matches Some(v) && r == (RowView { label: "vendor-url"@, translate: true, value: v, kind: RowKind::Link }))
    ||| (url_field(f, "DOCUMENTATION_URL"@) matches Some(v) && r == (RowView { label: "doc-url"@, translate: true, value: v, kind: RowKind::Link }))
    ||| (url_field(f, "SUPPORT_URL"@) matches Some(v) && r == (RowView { label: "support-url"@, translate: true, value: v, kind: RowKind::Link }))
}

proof fn lemma_link_rows_cases(f: Map<Seq<char>, Seq<char>>, r: RowView)
    ensures
        link_rows(f).contains(r) ==> link_rows_cases(f, r),
{
    broadcast use lemma_add_contains_split, lemma_optional_row_contains;
}

/// The rows that `report_rows` can hold.
spec fn report_rows_cases(f: Map<Seq<char>, Seq<char>>, r: RowView) -> bool {
    ||| (url_field(f, "BUG_REPORT_URL"@) matches Some(v) && r == (RowView { label: "bug-report-url"@, translate: true, value: v, kind: RowKind::Link }))
    ||| (url_field(f, "PRIVACY_POLICY_URL"@) matches Some(v) && r == (RowView { label: "privacy-policy-url"@, translate: true, value: v, kind: RowKind::Link }))
    ||| (date_field(f, "SUPPORT_END"@) matches Some(v) && r == (RowView { label: "support-end"@, translate: true, value: v, kind: RowKind::Text }))
}

proof fn lemma_report_rows_cases(f: Map<Seq<char>, Seq<char>>, r: RowView)
    ensures
        report_rows(f).contains(r) ==> report_rows_cases(f, r),
{
    broadcast use lemma_add_contains_split, lemma_optional_row_contains;
}

/// The rows that `variant_rows` can hold.
spec fn variant_rows_cases(f: Map<Seq<char>, Seq<char>>, r: RowView) -> bool {
    ||| (field(f, "VARIANT"@) matches Some(v) && r == (RowView { label: "variant"@, translate: true, value: v, kind: RowKind::Text }))
    ||| (field(f, "VARIANT_ID"@) matches Some(v) && r == (RowView { label: "variant-id"@, translate: true, value: v, kind: RowKind::Text }))
    ||| (field(f, "DEFAULT_HOSTNAME"@) matches Some(v) && r == (RowView { label: "default-hostname"@, translate: true, value: v, kind: RowKind::Text }))
    ||| (field(f, "ARCHITECTURE"@) matches Some(v) && r == (RowView { label: "arch"@, translate: true, value: v, kind: RowKind::Text }))
}

proof fn lemma_variant_rows_cases(f: Map<Seq<char>, Seq<char>>, r: RowView)
    ensures
        variant_rows(f).contains(r) ==> variant_rows_cases(f, r),
{
    broadcast use lemma_add_contains_split, lemma_optional_row_contains;
}

/// The rows that `extension_rows` can hold.
spec fn extension_rows_cases(f: Map<Seq<char>, Seq<char>>, r: RowView) -> bool {
    ||| (field(f, "SYSEXT_LEVEL"@) matches Some(v) && r == (RowView { label: "SYSEXT_LEVEL"@, translate: false, value: v, kind: RowKind::Text }))
    ||| (words_field(f, "SYSEXT_SCOPE"@) matches Some(v) && r == (RowView { label: "SYSEXT_SCOPE"@, translate: false, value: v, kind: RowKind::Text }))
    ||| (field(f, "CONFEXT_LEVEL"@) matches Some(v) && r == (RowView { label: "CONFEXT_LEVEL"@, translate: false, value: v, kind: RowKind::Text }))
    ||| (words_field(f, "CONFEXT_SCOPE"@) matches Some(v) && r == (RowView { label: "CONFEXT_SCOPE"@, translate: false, value: v, kind: RowKind::Text }))
    ||| (words_field(f, "PORTABLE_PREFIXES"@) matches Some(v) && r == (RowView { label: "portable-prefixes"@, translate: true, value: v, kind: RowKind::Text }))
}

proof fn lemma_extension_rows_cases(f: Map<Seq<char>, Seq<char>>, r: RowView)
    ensures
        extension_rows(f).contains(r) ==> extension_rows_cases(f, r),
{
    broadcast use lemma_add_contains_split, lemma_optional_row_contains;
}

/// The rows that the distribution page can hold.
spec fn page_row_cases(f: Map<Seq<char>, Seq<char>>, r: RowView) -> bool {
    ||| identity_rows_cases(f, r)
    ||| release_rows_cases(f, r)
    ||| presentation_rows_cases(f, r)
    ||| link_rows_cases(f, r)
    ||| report_rows_cases(f, r)
    ||| variant_rows_cases(f, r)
    ||| extension_rows_cases(f, r)
}

/// Each row of the distribution page is one of its labelled rows.
proof fn lemma_page_row_cases(f: Map<Seq<char>, Seq<char>>, r: RowView)
    requires
        distribution_rows_spec(f).contains(r),
    ensures
        page_row_cases(f, r),
{
    broadcast use lemma_add_contains_split;
    lemma_identity_rows_cases(f, r);
    lemma_release_rows_cases(f, r);
    lemma_presentation_rows_cases(f, r);
    lemma_link_rows_cases(f, r);
    lemma_report_rows_cases(f, r);
    lemma_variant_rows_cases(f, r);
    lemma_extension_rows_cases(f, r);
}

/// The lengths and some characters of the row labels, which tell them apart.
proof fn lemma_label_facts()
    ensures
        ("pretty-name"@).len() == 11,
        ("pretty-name"@)[0] == 'p',
        ("pretty-name"@)[1] == 'r',
        ("pretty-name"@)[2] == 'e',
        ("pretty-name"@)[8] == 'a',
        ("name"@).len() == 4,
        ("name"@)[0] == 'n',
        ("name"@)[1] == 'a',
        ("name"@)[2] == 'm',
        ("version"@).len() == 7,
        ("version"@)[0] == 'v',
        ("version"@)[1] == 'e',
        ("version"@)[2] == 'r',
        ("version-id"@).len() == 10,
        ("version-id"@)[0] == 'v',
        ("version-id"@)[1] == 'e',
        ("version-id"@)[2] == 'r',
        ("version-id"@)[8] == 'i',
        ("id"@).len() == 2,
        ("id"@)[0] == 'i',
        ("id"@)[1] == 'd',
        ("id-like"@).len() == 7,
        ("id-like"@)[0] == 'i',
        ("id-like"@)[1] == 'd',
        ("id-like"@)[2] == '-',
        ("version-codename"@).len() == 16,
        ("version-codename"@)[0] == 'v',
        ("version-codename"@)[1] == 'e',
        ("version-codename"@)[2] == 'r',
        ("version-codename"@)[8] == 'c',
        ("build-id"@).len() == 8,
        ("build-id"@)[0] == 'b',
        ("build-id"@)[1] == 'u',
        ("build-id"@)[2] == 'i',
        ("image-id"@).len() == 8,
        ("image-id"@)[0] == 'i',
        ("image-id"@)[1] == 'm',
        ("image-id"@)[2] == 'a',
        ("image-version"@).len() == 13,
        ("image-version"@)[0] == 'i',
        ("image-version"@)[1] == 'm',
        ("image-version"@)[2] == 'a',
        ("image-version"@)[8] == 'r',
        ("vendor-name"@).len() == 11,
        ("vendor-name"@)[0] == 'v',
        ("vendor-name"@)[1] == 'e',
        ("vendor-name"@)[2] == 'n',
        ("vendor-name"@)[8] == 'a',
        ("ansi-color"@).len() == 10,
        ("ansi-color"@)[0] == 'a',
        ("ansi-color"@)[1] == 'n',
        ("ansi-color"@)[2] == 's',
        ("ansi-color"@)[8] == 'o',
        ("logo"@).len() == 4,
        ("logo"@)[0] == 'l',
        ("logo"@)[1] == 'o',
        ("logo"@)[2] == 'g',
        ("cpe-name"@).len() == 8,
        ("cpe-name"@)[0] == 'c',
        ("cpe-name"@)[1] == 'p',
        ("cpe-name"@)[2] == 'e',
        ("home-url"@).len() == 8,
        ("home-url"@)[0] == 'h',
        ("home-url"@)[1] == 'o',
        ("home-url"@)[2] == 'm',
        ("vendor-url"@).len() == 10,
        ("vendor-url"@)[0] == 'v',
        ("vendor-url"@)[1] == 'e',
        ("vendor-url"@)[2] == 'n',
        ("vendor-url"@)[8] == 'r',
        ("doc-url"@).len() == 7,
        ("doc-url"@)[0] == 'd',
        ("doc-url"@)[1] == 'o',
        ("doc-url"@)[2] == 'c',
        ("support-url"@).len() == 11,
        ("support-url"@)[0] == 's',
        ("support-url"@)[1] == 'u',
        ("support-url"@)[2] == 'p',
        ("support-url"@)[8] == 'u',
        ("bug-report-url"@).len() == 14,
        ("bug-report-url"@)[0] == 'b',
        ("bug-report-url"@)[1] == 'u',
        ("bug-report-url"@)[2] == 'g',
        ("bug-report-url"@)[8] == 'r',
        ("privacy-policy-url"@).len() == 18,
        ("privacy-policy-url"@)[0] == 'p',
        ("privacy-policy-url"@)[1] == 'r',
        ("privacy-policy-url"@)[2] == 'i',
        ("privacy-policy-url"@)[8] == 'p',
        ("support-end"@).len() == 11,
        ("support-end"@)[0] == 's',
        ("support-end"@)[1] == 'u',
        ("support-end"@)[2] == 'p',
        ("support-end"@)[8] == 'e',
        ("variant"@).len() == 7,
        ("variant"@)[0] == 'v',
        ("variant"@)[1] == 'a',
        ("variant"@)[2] == 'r',
        ("variant-id"@).len() == 10,
        ("variant-id"@)[0] == 'v',
        ("variant-id"@)[1] == 'a',
        ("variant-id"@)[2] == 'r',
        ("variant-id"@)[8] == 'i',
        ("default-hostname"@).len() == 16,
        ("default-hostname"@)[0] == 'd',
        ("default-hostname"@)[1] == 'e',
        ("default-hostname"@)[2] == 'f',
        ("default-hostname"@)[8] == 'h',
        ("arch"@).len() == 4,
        ("arch"@)[0] == 'a',
        ("arch"@)[1] == 'r',
        ("arch"@)[2] == 'c',
        ("SYSEXT_LEVEL"@).len() == 12,
        ("SYSEXT_LEVEL"@)[0] == 'S',
        ("SYSEXT_LEVEL"@)[1] == 'Y',
        ("SYSEXT_LEVEL"@)[2] == 'S',
        ("SYSEXT_LEVEL"@)[8] == 'E',
        ("SYSEXT_SCOPE"@).len() == 12,
        ("SYSEXT_SCOPE"@)[0] == 'S',
        ("SYSEXT_SCOPE"@)[1] == 'Y',
        ("SYSEXT_SCOPE"@)[2] == 'S',
        ("SYSEXT_SCOPE"@)[8] == 'C',
        ("CONFEXT_LEVEL"@).len() == 13,
        ("CONFEXT_LEVEL"@)[0] == 'C',
        ("CONFEXT_LEVEL"@)[1] == 'O',
        ("CONFEXT_LEVEL"@)[2] == 'N',
        ("CONFEXT_LEVEL"@)[8] == 'L',
        ("CONFEXT_SCOPE"@).len() == 13,
        ("CONFEXT_SCOPE"@)[0] == 'C',
        ("CONFEXT_SCOPE"@)[1] == 'O',
        ("CONFEXT_SCOPE"@)[2] == 'N',
        ("CONFEXT_SCOPE"@)[8] == 'S',
        ("portable-prefixes"@).len() == 17,
        ("portable-prefixes"@)[0] == 'p',
        ("portable-prefixes"@)[1] == 'o',
        ("portable-prefixes"@)[2] == 'r',
        ("portable-prefixes"@)[8] == '-',
{
    reveal_strlit("pretty-name");
    reveal_strlit("name");
    reveal_strlit("version");
    reveal_strlit("version-id");
    reveal_strlit("id");
    reveal_strlit("id-like");
    reveal_strlit("version-codename");
    reveal_strlit("build-id");
    reveal_strlit("image-id");
    reveal_strlit("image-version");
    reveal_strlit("vendor-name");
    reveal_strlit("ansi-color");
    reveal_strlit("logo");
    reveal_strlit("cpe-name");
    reveal_strlit("home-url");
    reveal_strlit("vendor-url");
    reveal_strlit("doc-url");
    reveal_strlit("support-url");
    reveal_strlit("bug-report-url");
    reveal_strlit("privacy-policy-url");
    reveal_strlit("support-end");
    reveal_strlit("variant");
    reveal_strlit("variant-id");
    reveal_strlit("default-hostname");
    reveal_strlit("arch");
    reveal_strlit("SYSEXT_LEVEL");
    reveal_strlit("SYSEXT_SCOPE");
    reveal_strlit("CONFEXT_LEVEL");
    reveal_strlit("CONFEXT_SCOPE");
    reveal_strlit("portable-prefixes");
    assert(("pretty-name"@).len() == 11);
    assert(("pretty-name"@)[0] == 'p');
    assert(("pretty-name"@)[1] == 'r');
    assert(("pretty-name"@)[2] == 'e');
    assert(("pretty-name"@)[8] == 'a');
    assert(("name"@).len() == 4);
    assert(("name"@)[0] == 'n');
    assert(("name"@)[1] == 'a');
    assert(("name"@)[2] == 'm');
    assert(("version"@).len() == 7);
    assert(("version"@)[0] == 'v');
    assert(("version"@)[1] == 'e');
    assert(("version"@)[2] == 'r');
    assert(("version-id"@).len() == 10);
    assert(("version-id"@)[0] == 'v');
    assert(("version-id"@)[1] == 'e');
    assert(("version-id"@)[2] == 'r');
    assert(("version-id"@)[8] == 'i');
    assert(("id"@).len() == 2);
    assert(("id"@)[0] == 'i');
    assert(("id"@)[1] == 'd');
    assert(("id-like"@).len() == 7);
    assert(("id-like"@)[0] == 'i');
    assert(("id-like"@)[1] == 'd');
    assert(("id-like"@)[2] == '-');
    assert(("version-codename"@).len() == 16);
    assert(("version-codename"@)[0] == 'v');
    assert(("version-codename"@)[1] == 'e');
    assert(("version-codename"@)[2] == 'r');
    assert(("version-codename"@)[8] == 'c');
    assert(("build-id"@).len() == 8);
    assert(("build-id"@)[0] == 'b');
    assert(("build-id"@)[1] == 'u');
    assert(("build-id"@)[2] == 'i');
    assert(("image-id"@).len() == 8);
    assert(("image-id"@)[0] == 'i');
    assert(("image-id"@)[1] == 'm');
    assert(("image-id"@)[2] == 'a');
    assert(("image-version"@).len() == 13);
    assert(("image-version"@)[0] == 'i');
    assert(("image-version"@)[1] == 'm');
    assert(("image-version"@)[2] == 'a');
    assert(("image-version"@)[8] == 'r');
    assert(("vendor-name"@).len() == 11);
    assert(("vendor-name"@)[0] == 'v');
    assert(("vendor-name"@)[1] == 'e');
    assert(("vendor-name"@)[2] == 'n');
    assert(("vendor-name"@)[8] == 'a');
    assert(("ansi-color"@).len() == 10);
    assert(("ansi-color"@)[0] == 'a');
    assert(("ansi-color"@)[1] == 'n');
    assert(("ansi-color"@)[2] == 's');
    assert(("ansi-color"@)[8] == 'o');
    assert(("logo"@).len() == 4);
    assert(("logo"@)[0] == 'l');
    assert(("logo"@)[1] == 'o');
    assert(("logo"@)[2] == 'g');
    assert(("cpe-name"@).len() == 8);
    assert(("cpe-name"@)[0] == 'c');
    assert(("cpe-name"@)[1] == 'p');
    assert(("cpe-name"@)[2] == 'e');
    assert(("home-url"@).len() == 8);
    assert(("home-url"@)[0] == 'h');
    assert(("home-url"@)[1] == 'o');
    assert(("home-url"@)[2] == 'm');
    assert(("vendor-url"@).len() == 10);
    assert(("vendor-url"@)[0] == 'v');
    assert(("vendor-url"@)[1] == 'e');
    assert(("vendor-url"@)[2] == 'n');
    assert(("vendor-url"@)[8] == 'r');
    assert(("doc-url"@).len() == 7);
    assert(("doc-url"@)[0] == 'd');
    assert(("doc-url"@)[1] == 'o');
    assert(("doc-url"@)[2] == 'c');
    assert(("support-url"@).len() == 11);
    assert(("support-url"@)[0] == 's');
    assert(("support-url"@)[1] == 'u');
    assert(("support-url"@)[2] == 'p');
    assert(("support-url"@)[8] == 'u');
    assert(("bug-report-url"@).len() == 14);
    assert(("bug-report-url"@)[0] == 'b');
    assert(("bug-report-url"@)[1] == 'u');
    assert(("bug-report-url"@)[2] == 'g');
    assert(("bug-report-url"@)[8] == 'r');
    assert(("privacy-policy-url"@).len() == 18);
    assert(("privacy-policy-url"@)[0] == 'p');
    assert(("privacy-policy-url"@)[1] == 'r');
    assert(("privacy-policy-url"@)[2] == 'i');
    assert(("privacy-policy-url"@)[8] == 'p');
    assert(("support-end"@).len() == 11);
    assert(("support-end"@)[0] == 's');
    assert(("support-end"@)[1] == 'u');
    assert(("support-end"@)[2] == 'p');
    assert(("support-end"@)[8] == 'e');
    assert(("variant"@).len() == 7);
    assert(("variant"@)[0] == 'v');
    assert(("variant"@)[1] == 'a');
    assert(("variant"@)[2] == 'r');
    assert(("variant-id"@).len() == 10);
    assert(("variant-id"@)[0] == 'v');
    assert(("variant-id"@)[1] == 'a');
    assert(("variant-id"@)[2] == 'r');
    assert(("variant-id"@)[8] == 'i');
    assert(("default-hostname"@).len() == 16);
    assert(("default-hostname"@)[0] == 'd');
    assert(("default-hostname"@)[1] == 'e');
    assert(("default-hostname"@)[2] == 'f');
    assert(("default-hostname"@)[8] == 'h');
    assert(("arch"@).len() == 4);
    assert(("arch"@)[0] == 'a');
    assert(("arch"@)[1] == 'r');
    assert(("arch"@)[2] == 'c');
    assert(("SYSEXT_LEVEL"@).len() == 12);
    assert(("SYSEXT_LEVEL"@)[0] == 'S');
    assert(("SYSEXT_LEVEL"@)[1] == 'Y');
    assert(("SYSEXT_LEVEL"@)[2] == 'S');
    assert(("SYSEXT_LEVEL"@)[8] == 'E');
    assert(("SYSEXT_SCOPE"@).len() == 12);
    assert(("SYSEXT_SCOPE"@)[0] == 'S');
    assert(("SYSEXT_SCOPE"@)[1] == 'Y');
    assert(("SYSEXT_SCOPE"@)[2] == 'S');
    assert(("SYSEXT_SCOPE"@)[8] == 'C');
    assert(("CONFEXT_LEVEL"@).len() == 13);
    assert(("CONFEXT_LEVEL"@)[0] == 'C');
    assert(("CONFEXT_LEVEL"@)[1] == 'O');
    assert(("CONFEXT_LEVEL"@)[2] == 'N');
    assert(("CONFEXT_LEVEL"@)[8] == 'L');
    assert(("CONFEXT_SCOPE"@).len() == 13);
    assert(("CONFEXT_SCOPE"@)[0] == 'C');
    assert(("CONFEXT_SCOPE"@)[1] == 'O');
    assert(("CONFEXT_SCOPE"@)[2] == 'N');
    assert(("CONFEXT_SCOPE"@)[8] == 'S');
    assert(("portable-prefixes"@).len() == 17);
    assert(("portable-prefixes"@)[0] == 'p');
    assert(("portable-prefixes"@)[1] == 'o');
    assert(("portable-prefixes"@)[2] == 'r');
    assert(("portable-prefixes"@)[8] == '-');
}

/// A row of the distribution page labelled with a field's label is there
/// only when the file sets that field, and holds that field's own value (the
/// code-name row only when the value is not empty).
pub proof fn lemma_field_rows_hold_their_fields(f: Map<Seq<char>, Seq<char>>, r: RowView)
    requires
        distribution_rows_spec(f).contains(r),
    ensures
        r.label == "version"@ ==> f.contains_key("VERSION"@) && r.value == f["VERSION"@] && r.kind == RowKind::Text,
        r.label == "version-id"@ ==> f.contains_key("VERSION_ID"@) && r.value == f["VERSION_ID"@] && r.kind == RowKind::Text,
        r.label == "build-id"@ ==> f.contains_key("BUILD_ID"@) && r.value == f["BUILD_ID"@] && r.kind == RowKind::Text,
        r.label == "image-id"@ ==> f.contains_key("IMAGE_ID"@) && r.value == f["IMAGE_ID"@] && r.kind == RowKind::Text,
        r.label == "image-version"@ ==> f.contains_key("IMAGE_VERSION"@) && r.value == f["IMAGE_VERSION"@] && r.kind == RowKind::Text,
        r.label == "vendor-name"@ ==> f.contains_key("VENDOR_NAME"@) && r.value == f["VENDOR_NAME"@] && r.kind == RowKind::Text,
        r.label == "ansi-color"@ ==> f.contains_key("ANSI_COLOR"@) && r.value == f["ANSI_COLOR"@] && r.kind == RowKind::Text,
        r.label == "logo"@ ==> f.contains_key("LOGO"@) && r.value == f["LOGO"@] && r.kind == RowKind::Icon,
        r.label == "cpe-name"@ ==> f.contains_key("CPE_NAME"@) && r.value == f["CPE_NAME"@] && r.kind == RowKind::Text,
        r.label == "variant"@ ==> f.contains_key("VARIANT"@) && r.value == f["VARIANT"@] && r.kind == RowKind::Text,
        r.label == "variant-id"@ ==> f.contains_key("VARIANT_ID"@) && r.value == f["VARIANT_ID"@] && r.kind == RowKind::Text,
        r.label == "default-hostname"@ ==> f.contains_key("DEFAULT_HOSTNAME"@) && r.value == f["DEFAULT_HOSTNAME"@] && r.kind == RowKind::Text,
        r.label == "arch"@ ==> f.contains_key("ARCHITECTURE"@) && r.value == f["ARCHITECTURE"@] && r.kind == RowKind::Text,
        r.label == "SYSEXT_LEVEL"@ ==> f.contains_key("SYSEXT_LEVEL"@) && r.value == f["SYSEXT_LEVEL"@] && r.kind == RowKind::Text,
        r.label == "CONFEXT_LEVEL"@ ==> f.contains_key("CONFEXT_LEVEL"@) && r.value == f["CONFEXT_LEVEL"@] && r.kind == RowKind::Text,
        r.label == "version-codename"@ ==> f.contains_key("VERSION_CODENAME"@) && f["VERSION_CODENAME"@].len() > 0
            && r.value == f["VERSION_CODENAME"@],
{
    lemma_page_row_cases(f, r);
    lemma_label_facts();
}

/// A link row of the distribution page is there only when the file sets its
/// URL field and the URL parses, and it holds that parsed URL; every such row
/// is a link.
pub proof fn lemma_url_rows_hold_their_urls(f: Map<Seq<char>, Seq<char>>, r: RowView)
    requires
        distribution_rows_spec(f).contains(r),
    ensures
        r.label == "home-url"@ ==> f.contains_key("HOME_URL"@) && parsed_url_text(f["HOME_URL"@]) == Some(r.value)
            && r.kind == RowKind::Link,
        r.label == "vendor-url"@ ==> f.contains_key("SUPPORT_URL"@) && parsed_url_text(f["SUPPORT_URL"@]) == Some(r.value)
            && r.kind == RowKind::Link,
        r.label == "doc-url"@ ==> f.contains_key("DOCUMENTATION_URL"@) && parsed_url_text(f["DOCUMENTATION_URL"@]) == Some(r.value)
            && r.kind == RowKind::Link,
        r.label == "support-url"@ ==> f.contains_key("SUPPORT_URL"@) && parsed_url_text(f["SUPPORT_URL"@]) == Some(r.value)
            && r.kind == RowKind::Link,
        r.label == "bug-report-url"@ ==> f.contains_key("BUG_REPORT_URL"@) && parsed_url_text(f["BUG_REPORT_URL"@]) == Some(r.value)
            && r.kind == RowKind::Link,
        r.label == "privacy-policy-url"@ ==> f.contains_key("PRIVACY_POLICY_URL"@) && parsed_url_text(f["PRIVACY_POLICY_URL"@]) == Some(r.value)
            && r.kind == RowKind::Link,
{
    lemma_page_row_cases(f, r);
    lemma_label_facts();
}

}
