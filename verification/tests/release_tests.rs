use examine::release::{distribution_rows, os_release_from_text};
use examine::model::Message;
use examine::rows::{InfoRow, RowKind};

fn row(label: &str, value: &str, kind: RowKind) -> InfoRow {
    InfoRow { label: label.to_string(), translate: true, value: value.to_string(), kind }
}

fn raw(label: &str, value: &str) -> InfoRow {
    InfoRow { label: label.to_string(), translate: false, value: value.to_string(), kind: RowKind::Text }
}

const FEDORA: &str = r#"
NAME=Fedora
VERSION="32 (Workstation Edition)"
ID=fedora
VERSION_ID=32
VERSION_CODENAME=""
PRETTY_NAME="Fedora 32 (Workstation Edition)"
ANSI_COLOR="0;38;2;60;110;180"
LOGO=fedora-logo-icon
CPE_NAME="cpe:/o:fedoraproject:fedora:32"
HOME_URL="https://fedoraproject.org/"
SUPPORT_URL="https://fedoraproject.org/wiki/Communicating_and_getting_help"
BUG_REPORT_URL="https://bugzilla.redhat.com/"
PRIVACY_POLICY_URL="https://fedoraproject.org/wiki/Legal:PrivacyPolicy"
VARIANT="Workstation Edition"
VARIANT_ID=workstation
"#;

#[test]
fn fedora_rows_in_page_order() {
    let rows = distribution_rows(&os_release_from_text(FEDORA));
    let support = "https://fedoraproject.org/wiki/Communicating_and_getting_help";
    assert_eq!(
        rows,
        vec![
            row("pretty-name", "Fedora 32 (Workstation Edition)", RowKind::Text),
            row("name", "Fedora", RowKind::Text),
            row("version", "32 (Workstation Edition)", RowKind::Text),
            row("version-id", "32", RowKind::Text),
            row("id", "fedora", RowKind::Text),
            row("ansi-color", "0;38;2;60;110;180", RowKind::Text),
            row("logo", "fedora-logo-icon", RowKind::Icon),
            row("cpe-name", "cpe:/o:fedoraproject:fedora:32", RowKind::Text),
            row("home-url", "https://fedoraproject.org/", RowKind::Link),
            row("vendor-url", support, RowKind::Link),
            row("support-url", support, RowKind::Link),
            row("bug-report-url", "https://bugzilla.redhat.com/", RowKind::Link),
            row("privacy-policy-url", "https://fedoraproject.org/wiki/Legal:PrivacyPolicy", RowKind::Link),
            row("variant", "Workstation Edition", RowKind::Text),
            row("variant-id", "workstation", RowKind::Text),
        ]
    );
}

#[test]
fn empty_file_shows_defaults() {
    let rows = distribution_rows(&os_release_from_text(""));
    assert_eq!(
        rows,
        vec![
            row("pretty-name", "Linux", RowKind::Text),
            row("name", "linux", RowKind::Text),
            row("id", "linux", RowKind::Text),
        ]
    );
}

#[test]
fn lists_are_joined_with_commas() {
    let rows = distribution_rows(&os_release_from_text(
        "ID_LIKE=\"rhel  centos fedora\"\nSYSEXT_SCOPE=\"system portable\"\nPORTABLE_PREFIXES=app\n",
    ));
    assert!(rows.contains(&row("id-like", "rhel, centos, fedora", RowKind::Text)));
    assert!(rows.contains(&raw("SYSEXT_SCOPE", "system, portable")));
    assert!(rows.contains(&row("portable-prefixes", "app", RowKind::Text)));
}

#[test]
fn urls_are_normalized_and_invalid_ones_left_out() {
    let rows = distribution_rows(&os_release_from_text(
        "HOME_URL=https://Example.org\nDOCUMENTATION_URL=\"not a url\"\n",
    ));
    assert!(rows.contains(&row("home-url", "https://example.org/", RowKind::Link)));
    assert!(!rows.iter().any(|r| r.label == "doc-url"));
}

#[test]
fn support_end_is_a_date() {
    let rows = distribution_rows(&os_release_from_text("SUPPORT_END=2025-05-13\n"));
    assert!(rows.contains(&row("support-end", "2025-05-13", RowKind::Text)));
    let rows = distribution_rows(&os_release_from_text("SUPPORT_END=soon\n"));
    assert!(!rows.iter().any(|r| r.label == "support-end"));
}

#[test]
fn codename_shown_only_when_not_empty() {
    let rows = distribution_rows(&os_release_from_text("VERSION_CODENAME=jammy\n"));
    assert!(rows.contains(&row("version-codename", "jammy", RowKind::Text)));
    let rows = distribution_rows(&os_release_from_text("VERSION_CODENAME=\n"));
    assert!(!rows.iter().any(|r| r.label == "version-codename"));
}

#[test]
fn extension_levels_use_field_names() {
    let rows = distribution_rows(&os_release_from_text(
        "SYSEXT_LEVEL=1.0\nCONFEXT_LEVEL=2\nCONFEXT_SCOPE=initrd\nARCHITECTURE=x86-64\nDEFAULT_HOSTNAME=box\n",
    ));
    let tail: Vec<InfoRow> = rows.into_iter().skip(3).collect();
    assert_eq!(
        tail,
        vec![
            row("default-hostname", "box", RowKind::Text),
            row("arch", "x86-64", RowKind::Text),
            raw("SYSEXT_LEVEL", "1.0"),
            raw("CONFEXT_LEVEL", "2"),
            raw("CONFEXT_SCOPE", "initrd"),
        ]
    );
}

#[test]
fn quoted_and_escaped_values() {
    let rows = distribution_rows(&os_release_from_text("NAME='A \\\"B'\nPRETTY_NAME=\"X \\\"Y\\\"\"\n"));
    assert_eq!(rows[0], row("pretty-name", "X \"Y\"", RowKind::Text));
    assert_eq!(rows[1], row("name", "A \\\"B", RowKind::Text));
}

#[test]
fn pressing_a_link_launches_its_url() {
    let rows = distribution_rows(&os_release_from_text("HOME_URL=https://example.org\nNAME=X\n"));
    let link = rows.iter().find(|r| r.label == "home-url").unwrap();
    assert!(matches!(link.on_press(), Some(Message::LaunchUrl(u)) if u == "https://example.org/"));
    assert!(rows[1].on_press().is_none());
}
