use vstd::prelude::*;

use etc_os_release::OsRelease;
use itertools::Itertools;
use std::str::FromStr;

use crate::rows::{InfoRow, RowKind, RowView, optional_row, opt_view, push_row, rows_view};
use crate::text::{seq_join, string_views, whitespace_words};

verus! {

// ---------------------------------------------------------------------------
// The `etc_os_release` parser, behind trusted items.
// ---------------------------------------------------------------------------

/// The parsed contents of an os-release file (`etc_os_release::OsRelease`).
#[verifier::external_type_specification]
#[verifier::external_body]
pub struct ExOsRelease(OsRelease);

/// The fields held by an `OsRelease`: each key with its (unquoted, unescaped) value.
pub uninterp spec fn os_release_fields(release: OsRelease) -> Map<Seq<char>, Seq<char>>;

/// The fields that `OsRelease::from_str` reads out of an os-release text.
pub uninterp spec fn parsed_os_release(text: Seq<char>) -> Map<Seq<char>, Seq<char>>;


/// The text (`to_string`) of the URL that `url::Url::parse` makes of a field's
/// value, or `None` when the value is no valid URL.
pub uninterp spec fn parsed_url_text(value: Seq<char>) -> Option<Seq<char>>;

/// The text (`to_string`, `YYYY-MM-DD`) of the date that
/// `NaiveDate::parse_from_str(value, "%Y-%m-%d")` makes of a field's value, or
/// `None` when the value is no such date.
pub uninterp spec fn parsed_date_text(value: Seq<char>) -> Option<Seq<char>>;

/// Parses an os-release text with `OsRelease::from_str` (whose error type is
/// `Infallible`). Trusted: the fields of the result are `parsed_os_release`
/// of the text.
#[verifier::external_body]
fn parse_os_release(text: &str) -> (release: OsRelease)
    ensures
        os_release_fields(release) == parsed_os_release(text@),
{
    match OsRelease::from_str(text) {
        Ok(release) => release,
        Err(never) => match never {},
    }
}

/// `OsRelease::get_value`: the value of `key`, if the file sets it.
/// Trusted: a lookup of `key` in the fields (an `IndexMap::get`).
#[verifier::external_body]
fn field_value(release: &OsRelease, key: &str) -> (value: Option<String>)
    ensures
        value is Some <==> os_release_fields(*release).contains_key(key@),
        value matches Some(v) ==> v@ == os_release_fields(*release)[key@],
{
    match release.get_value(key) {
        Some(v) => Some(v.to_string()),
        None => None,
    }
}

/// `OsRelease::get_value_as_list`: the words of `key`'s value, if the file sets it.
/// Trusted: `Some` exactly when the key is set, holding the words of its value
/// as `str::split_whitespace` documents them (`whitespace_words`).
#[verifier::external_body]
fn field_words(release: &OsRelease, key: &str) -> (words: Option<Vec<String>>)
    ensures
        words is Some <==> os_release_fields(*release).contains_key(key@),
        words matches Some(w) ==> string_views(w@) == whitespace_words(
            os_release_fields(*release)[key@],
        ),
{
    match release.get_value_as_list(key) {
        Some(ws) => Some(ws.map(|w| w.to_string()).collect()),
        None => None,
    }
}

/// `OsRelease::get_value_as_url`, keeping only a URL that parsed, as its text.
/// Trusted: `Some` exactly when the key is set and `parsed_url_text` of its
/// value is `Some`, and then the same text.
#[verifier::external_body]
fn field_url(release: &OsRelease, key: &str) -> (url: Option<String>)
    ensures
        url is Some ==> os_release_fields(*release).contains_key(key@),
        os_release_fields(*release).contains_key(key@) ==> (match url {
            Some(u) => parsed_url_text(os_release_fields(*release)[key@]) == Some(u@),
            None => parsed_url_text(os_release_fields(*release)[key@]) is None,
        }),
{
    match release.get_value_as_url(key) {
        Ok(Some(u)) => Some(u.to_string()),
        Ok(None) => None,
        Err(_) => None,
    }
}

/// `OsRelease::get_value_as_date`, keeping only a date that parsed, as its text.
/// Trusted: `Some` exactly when the key is set and `parsed_date_text` of its
/// value is `Some`, and then the same text.
#[verifier::external_body]
fn field_date(release: &OsRelease, key: &str) -> (date: Option<String>)
    ensures
        date is Some ==> os_release_fields(*release).contains_key(key@),
        os_release_fields(*release).contains_key(key@) ==> (match date {
            Some(d) => parsed_date_text(os_release_fields(*release)[key@]) == Some(d@),
            None => parsed_date_text(os_release_fields(*release)[key@]) is None,
        }),
{
    match release.get_value_as_date(key) {
        Ok(Some(d)) => Some(d.to_string()),
        Ok(None) => None,
        Err(_) => None,
    }
}

/// `OsRelease::pretty_name`. Trusted: the `PRETTY_NAME` value, or `Linux` when unset.
#[verifier::external_body]
fn pretty_name_of(release: &OsRelease) -> (name: String)
    ensures
        name@ == (if os_release_fields(*release).contains_key("PRETTY_NAME"@) {
            os_release_fields(*release)["PRETTY_NAME"@]
        } else {
            "Linux"@
        }),
{
    release.pretty_name().to_string()
}

/// `OsRelease::name`. Trusted: the `NAME` value, or `linux` when unset.
#[verifier::external_body]
fn name_of(release: &OsRelease) -> (name: String)
    ensures
        name@ == (if os_release_fields(*release).contains_key("NAME"@) {
            os_release_fields(*release)["NAME"@]
        } else {
            "linux"@
        }),
{
    release.name().to_string()
}

/// `OsRelease::id`. Trusted: the `ID` value, or `linux` when unset.
#[verifier::external_body]
fn id_of(release: &OsRelease) -> (id: String)
    ensures
        id@ == (if os_release_fields(*release).contains_key("ID"@) {
            os_release_fields(*release)["ID"@]
        } else {
            "linux"@
        }),
{
    release.id().to_string()
}

/// `Itertools::join` over the words. Trusted: the words with `sep` between
/// each two neighbours.
#[verifier::external_body]
fn join_words(words: &Vec<String>, sep: &str) -> (joined: String)
    ensures
        joined@ == seq_join(string_views(words@), sep@),
{
    words.iter().join(sep)
}

// ---------------------------------------------------------------------------
// The rows of the distribution page.
// ---------------------------------------------------------------------------

/// The value of `key`, if set.
pub open spec fn field(f: Map<Seq<char>, Seq<char>>, key: Seq<char>) -> Option<Seq<char>> {
    if f.contains_key(key) {
        Some(f[key])
    } else {
        None
    }
}

/// The value of `key`, or `default` when unset.
pub open spec fn field_or(f: Map<Seq<char>, Seq<char>>, key: Seq<char>, default: Seq<char>) -> Seq<char> {
    if f.contains_key(key) {
        f[key]
    } else {
        default
    }
}

/// The value of `key` when set and not empty.
pub open spec fn nonempty_field(f: Map<Seq<char>, Seq<char>>, key: Seq<char>) -> Option<Seq<char>> {
    if f.contains_key(key) && f[key].len() > 0 {
        Some(f[key])
    } else {
        None
    }
}

/// The words of a list-valued `key`, joined by `", "`, when set.
pub open spec fn words_field(f: Map<Seq<char>, Seq<char>>, key: Seq<char>) -> Option<Seq<char>> {
    if f.contains_key(key) {
        Some(seq_join(whitespace_words(f[key]), ", "@))
    } else {
        None
    }
}

/// The text of the URL in `key`, when set and valid.
pub open spec fn url_field(f: Map<Seq<char>, Seq<char>>, key: Seq<char>) -> Option<Seq<char>> {
    if f.contains_key(key) {
        parsed_url_text(f[key])
    } else {
        None
    }
}

/// The text of the date in `key`, when set and valid.
pub open spec fn date_field(f: Map<Seq<char>, Seq<char>>, key: Seq<char>) -> Option<Seq<char>> {
    if f.contains_key(key) {
        parsed_date_text(f[key])
    } else {
        None
    }
}

/// The identifying rows: pretty name, name, version, version id, id, related ids.
pub open spec fn identity_rows(f: Map<Seq<char>, Seq<char>>) -> Seq<RowView> {
    optional_row("pretty-name"@, true, Some(field_or(f, "PRETTY_NAME"@, "Linux"@)), RowKind::Text)
    + optional_row("name"@, true, Some(field_or(f, "NAME"@, "linux"@)), RowKind::Text)
    + optional_row("version"@, true, field(f, "VERSION"@), RowKind::Text)
    + optional_row("version-id"@, true, field(f, "VERSION_ID"@), RowKind::Text)
    + optional_row("id"@, true, Some(field_or(f, "ID"@, "linux"@)), RowKind::Text)
    + optional_row("id-like"@, true, words_field(f, "ID_LIKE"@), RowKind::Text)
}

/// The release rows: code name (left out when empty), build and image.
pub open spec fn release_rows(f: Map<Seq<char>, Seq<char>>) -> Seq<RowView> {
    optional_row("version-codename"@, true, nonempty_field(f, "VERSION_CODENAME"@), RowKind::Text)
    + optional_row("build-id"@, true, field(f, "BUILD_ID"@), RowKind::Text)
    + optional_row("image-id"@, true, field(f, "IMAGE_ID"@), RowKind::Text)
    + optional_row("image-version"@, true, field(f, "IMAGE_VERSION"@), RowKind::Text)
}

/// The presentation rows: vendor, colour, logo (an icon row) and CPE name.
pub open spec fn presentation_rows(f: Map<Seq<char>, Seq<char>>) -> Seq<RowView> {
    optional_row("vendor-name"@, true, field(f, "VENDOR_NAME"@), RowKind::Text)
    + optional_row("ansi-color"@, true, field(f, "ANSI_COLOR"@), RowKind::Text)
    + optional_row("logo"@, true, field(f, "LOGO"@), RowKind::Icon)
    + optional_row("cpe-name"@, true, field(f, "CPE_NAME"@), RowKind::Text)
}

/// The first link rows, each shown when its URL parses; the vendor URL row shows `SUPPORT_URL`.
pub open spec fn link_rows(f: Map<Seq<char>, Seq<char>>) -> Seq<RowView> {
    optional_row("home-url"@, true, url_field(f, "HOME_URL"@), RowKind::Link)
    + optional_row("vendor-url"@, true, url_field(f, "SUPPORT_URL"@), RowKind::Link)
    + optional_row("doc-url"@, true, url_field(f, "DOCUMENTATION_URL"@), RowKind::Link)
    + optional_row("support-url"@, true, url_field(f, "SUPPORT_URL"@), RowKind::Link)
}

/// The bug report and privacy policy links, and the end of support.
pub open spec fn report_rows(f: Map<Seq<char>, Seq<char>>) -> Seq<RowView> {
    optional_row("bug-report-url"@, true, url_field(f, "BUG_REPORT_URL"@), RowKind::Link)
    + optional_row("privacy-policy-url"@, true, url_field(f, "PRIVACY_POLICY_URL"@), RowKind::Link)
    + optional_row("support-end"@, true, date_field(f, "SUPPORT_END"@), RowKind::Text)
}

/// The variant, default host name and architecture rows.
pub open spec fn variant_rows(f: Map<Seq<char>, Seq<char>>) -> Seq<RowView> {
    optional_row("variant"@, true, field(f, "VARIANT"@), RowKind::Text)
    + optional_row("variant-id"@, true, field(f, "VARIANT_ID"@), RowKind::Text)
    + optional_row("default-hostname"@, true, field(f, "DEFAULT_HOSTNAME"@), RowKind::Text)
    + optional_row("arch"@, true, field(f, "ARCHITECTURE"@), RowKind::Text)
}

/// The extension rows, labelled with the field names themselves, and the portable prefixes.
pub open spec fn extension_rows(f: Map<Seq<char>, Seq<char>>) -> Seq<RowView> {
    optional_row("SYSEXT_LEVEL"@, false, field(f, "SYSEXT_LEVEL"@), RowKind::Text)
    + optional_row("SYSEXT_SCOPE"@, false, words_field(f, "SYSEXT_SCOPE"@), RowKind::Text)
    + optional_row("CONFEXT_LEVEL"@, false, field(f, "CONFEXT_LEVEL"@), RowKind::Text)
    + optional_row("CONFEXT_SCOPE"@, false, words_field(f, "CONFEXT_SCOPE"@), RowKind::Text)
    + optional_row("portable-prefixes"@, true, words_field(f, "PORTABLE_PREFIXES"@), RowKind::Text)
}

/// The rows that the distribution page shows for the fields `f`, in order.
pub open spec fn distribution_rows_spec(f: Map<Seq<char>, Seq<char>>) -> Seq<RowView> {
    identity_rows(f)
    + release_rows(f)
    + presentation_rows(f)
    + link_rows(f)
    + report_rows(f)
    + variant_rows(f)
    + extension_rows(f)
}

/// The words of a list-valued field, joined by `", "`.
fn joined_words(release: &OsRelease, key: &str) -> (joined: Option<String>)
    ensures
        opt_view(joined) == words_field(os_release_fields(*release), key@),
{
    match field_words(release, key) {
        Some(ws) => Some(join_words(&ws, ", ")),
        None => None,
    }
}

/// The value of a field, when set and not empty.
fn nonempty_value(release: &OsRelease, key: &str) -> (value: Option<String>)
    ensures
        opt_view(value) == nonempty_field(os_release_fields(*release), key@),
{
    match field_value(release, key) {
        Some(v) => {
            if v.as_str().is_empty() {
                None
            } else {
                Some(v)
            }
        },
        None => None,
    }
}

fn push_identity_rows(rows: &mut Vec<InfoRow>, release: &OsRelease)
    ensures
        rows_view(final(rows)@) == rows_view(old(rows)@) + identity_rows(os_release_fields(*release)),
{
    let ghost r0 = rows_view(rows@);
    push_row(rows, "pretty-name", true, Some(pretty_name_of(release)), RowKind::Text);
    push_row(rows, "name", true, Some(name_of(release)), RowKind::Text);
    push_row(rows, "version", true, field_value(release, "VERSION"), RowKind::Text);
    push_row(rows, "version-id", true, field_value(release, "VERSION_ID"), RowKind::Text);
    push_row(rows, "id", true, Some(id_of(release)), RowKind::Text);
    push_row(rows, "id-like", true, joined_words(release, "ID_LIKE"), RowKind::Text);
    assert(rows_view(rows@) =~= r0 + identity_rows(os_release_fields(*release)));
}

fn push_release_rows(rows: &mut Vec<InfoRow>, release: &OsRelease)
    ensures
        rows_view(final(rows)@) == rows_view(old(rows)@) + release_rows(os_release_fields(*release)),
{
    let ghost r0 = rows_view(rows@);
    push_row(rows, "version-codename", true, nonempty_value(release, "VERSION_CODENAME"), RowKind::Text);
    push_row(rows, "build-id", true, field_value(release, "BUILD_ID"), RowKind::Text);
    push_row(rows, "image-id", true, field_value(release, "IMAGE_ID"), RowKind::Text);
    push_row(rows, "image-version", true, field_value(release, "IMAGE_VERSION"), RowKind::Text);
    assert(rows_view(rows@) =~= r0 + release_rows(os_release_fields(*release)));
}

fn push_presentation_rows(rows: &mut Vec<InfoRow>, release: &OsRelease)
    ensures
        rows_view(final(rows)@) == rows_view(old(rows)@) + presentation_rows(os_release_fields(*release)),
{
    let ghost r0 = rows_view(rows@);
    push_row(rows, "vendor-name", true, field_value(release, "VENDOR_NAME"), RowKind::Text);
    push_row(rows, "ansi-color", true, field_value(release, "ANSI_COLOR"), RowKind::Text);
    push_row(rows, "logo", true, field_value(release, "LOGO"), RowKind::Icon);
    push_row(rows, "cpe-name", true, field_value(release, "CPE_NAME"), RowKind::Text);
    assert(rows_view(rows@) =~= r0 + presentation_rows(os_release_fields(*release)));
}

fn push_link_rows(rows: &mut Vec<InfoRow>, release: &OsRelease)
    ensures
        rows_view(final(rows)@) == rows_view(old(rows)@) + link_rows(os_release_fields(*release)),
{
    let ghost r0 = rows_view(rows@);
    push_row(rows, "home-url", true, field_url(release, "HOME_URL"), RowKind::Link);
    push_row(rows, "vendor-url", true, field_url(release, "SUPPORT_URL"), RowKind::Link);
    push_row(rows, "doc-url", true, field_url(release, "DOCUMENTATION_URL"), RowKind::Link);
    push_row(rows, "support-url", true, field_url(release, "SUPPORT_URL"), RowKind::Link);
    assert(rows_view(rows@) =~= r0 + link_rows(os_release_fields(*release)));
}

fn push_report_rows(rows: &mut Vec<InfoRow>, release: &OsRelease)
    ensures
        rows_view(final(rows)@) == rows_view(old(rows)@) + report_rows(os_release_fields(*release)),
{
    let ghost r0 = rows_view(rows@);
    push_row(rows, "bug-report-url", true, field_url(release, "BUG_REPORT_URL"), RowKind::Link);
    push_row(rows, "privacy-policy-url", true, field_url(release, "PRIVACY_POLICY_URL"), RowKind::Link);
    push_row(rows, "support-end", true, field_date(release, "SUPPORT_END"), RowKind::Text);
    assert(rows_view(rows@) =~= r0 + report_rows(os_release_fields(*release)));
}

fn push_variant_rows(rows: &mut Vec<InfoRow>, release: &OsRelease)
    ensures
        rows_view(final(rows)@) == rows_view(old(rows)@) + variant_rows(os_release_fields(*release)),
{
    let ghost r0 = rows_view(rows@);
    push_row(rows, "variant", true, field_value(release, "VARIANT"), RowKind::Text);
    push_row(rows, "variant-id", true, field_value(release, "VARIANT_ID"), RowKind::Text);
    push_row(rows, "default-hostname", true, field_value(release, "DEFAULT_HOSTNAME"), RowKind::Text);
    push_row(rows, "arch", true, field_value(release, "ARCHITECTURE"), RowKind::Text);
    assert(rows_view(rows@) =~= r0 + variant_rows(os_release_fields(*release)));
}

fn push_extension_rows(rows: &mut Vec<InfoRow>, release: &OsRelease)
    ensures
        rows_view(final(rows)@) == rows_view(old(rows)@) + extension_rows(os_release_fields(*release)),
{
    let ghost r0 = rows_view(rows@);
    push_row(rows, "SYSEXT_LEVEL", false, field_value(release, "SYSEXT_LEVEL"), RowKind::Text);
    push_row(rows, "SYSEXT_SCOPE", false, joined_words(release, "SYSEXT_SCOPE"), RowKind::Text);
    push_row(rows, "CONFEXT_LEVEL", false, field_value(release, "CONFEXT_LEVEL"), RowKind::Text);
    push_row(rows, "CONFEXT_SCOPE", false, joined_words(release, "CONFEXT_SCOPE"), RowKind::Text);
    push_row(rows, "portable-prefixes", true, joined_words(release, "PORTABLE_PREFIXES"), RowKind::Text);
    assert(rows_view(rows@) =~= r0 + extension_rows(os_release_fields(*release)));
}

/// The rows of the distribution page for an os-release file, in the order the
/// page lists them.
pub fn distribution_rows(release: &OsRelease) -> (rows: Vec<InfoRow>)
    ensures
        rows_view(rows@) == distribution_rows_spec(os_release_fields(*release)),
{
    let ghost f = os_release_fields(*release);
    let mut rows: Vec<InfoRow> = Vec::new();
    proof {
        assert(rows_view(rows@) =~= Seq::<RowView>::empty());
    }
    push_identity_rows(&mut rows, release);
    push_release_rows(&mut rows, release);
    push_presentation_rows(&mut rows, release);
    push_link_rows(&mut rows, release);
    push_report_rows(&mut rows, release);
    push_variant_rows(&mut rows, release);
    push_extension_rows(&mut rows, release);
    assert(rows_view(rows@) =~= distribution_rows_spec(f));
    rows
}

/// Parses the text of an os-release file (as `etc_os_release` does).
pub fn os_release_from_text(text: &str) -> (release: OsRelease)
    ensures
        os_release_fields(release) == parsed_os_release(text@),
{
    parse_os_release(text)
}

} // verus!
