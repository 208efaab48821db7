use examine::pages::{device_page, processor_page, PageView};
use examine::rows::{InfoRow, RowKind};

fn plain(label: &str, value: &str) -> InfoRow {
    InfoRow { label: label.to_string(), translate: false, value: value.to_string(), kind: RowKind::Text }
}

#[test]
fn processor_rows_split_at_first_colon() {
    let out = Some("Architecture:            x86_64\nCPU op-mode(s):          32-bit, 64-bit\n".to_string());
    let page = processor_page(&out, "An error occurred");
    assert_eq!(
        page,
        PageView::Rows(vec![
            plain("Architecture", "            x86_64"),
            plain("CPU op-mode(s)", "          32-bit, 64-bit"),
        ])
    );
}

#[test]
fn processor_row_keeps_later_colons_in_value() {
    let out = Some("Flags: a:b".to_string());
    assert_eq!(processor_page(&out, "An error occurred"), PageView::Rows(vec![plain("Flags", " a:b")]));
}

#[test]
fn device_rows_are_labelled_by_description() {
    let out = Some(
        "00:00.0 Host bridge: Intel Corporation Device 9b33\nBus 001 Device 002: ID 8087:0026 Intel Corp.\n"
            .to_string(),
    );
    assert_eq!(
        device_page(&out, "An error occurred"),
        PageView::Rows(vec![
            plain("Intel Corporation Device 9b33", "00:00.0 Host bridge"),
            plain("ID 8087:0026 Intel Corp.", "Bus 001 Device 002"),
        ])
    );
}

#[test]
fn stored_error_message_becomes_heading() {
    let out = Some("An error occurred: No such file or directory".to_string());
    assert_eq!(
        processor_page(&out, "An error occurred"),
        PageView::Heading("An error occurred: No such file or directory".to_string())
    );
    assert_eq!(
        device_page(&out, "An error occurred"),
        PageView::Heading("An error occurred: No such file or directory".to_string())
    );
}

#[test]
fn missing_output_shows_error_heading() {
    assert_eq!(processor_page(&None, "An error occurred"), PageView::ErrorOccurred);
    assert_eq!(device_page(&None, "An error occurred"), PageView::ErrorOccurred);
}

#[test]
fn empty_output_has_no_rows() {
    assert_eq!(processor_page(&Some(String::new()), "An error occurred"), PageView::Rows(vec![]));
}

#[test]
fn rows_rejoin_into_their_lines() {
    let text = "Vendor ID: GenuineIntel\nModel:  142";
    if let PageView::Rows(rows) = processor_page(&Some(text.to_string()), "An error occurred") {
        let rejoined: Vec<String> = rows.iter().map(|r| format!("{}:{}", r.label, r.value)).collect();
        let expected: Vec<String> = text.lines().map(|l| l.to_string()).collect();
        assert_eq!(rejoined, expected);
    } else {
        panic!("expected rows");
    }
}
