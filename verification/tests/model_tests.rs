use examine::model::{about_info, pages, AppModel, Command, ContextPage, MenuAction, Message, Page, PageNames};
use examine::pages::PageView;
use examine::release::os_release_from_text;
use examine::rows::{InfoRow, RowKind};

fn names() -> PageNames {
    PageNames {
        distribution: format!("[{}]", Page::Distribution.message_id()),
        processor: format!("[{}]", Page::Processor.message_id()),
        pci_devices: format!("[{}]", Page::PCIs.message_id()),
        usb_devices: format!("[{}]", Page::USBs.message_id()),
    }
}

fn model() -> AppModel {
    AppModel::init(
        names(),
        "Examine",
        false,
        "Architecture: x86_64\n".to_string(),
        "00:02.0 VGA compatible controller: Intel UHD\n".to_string(),
        "An error occurred: lsusb not found".to_string(),
    )
    .0
}

#[test]
fn init_state() {
    let m = model();
    assert_eq!(m.context_page(), ContextPage::About);
    assert!(!m.show_context());
    assert_eq!(m.active_page(), Some(Page::Distribution));
    assert_eq!(m.context_drawer(), None);
}

#[test]
fn pages_in_navigation_order() {
    assert_eq!(pages(), vec![Page::Distribution, Page::Processor, Page::PCIs, Page::USBs]);
    assert_eq!(Page::PCIs.message_id(), "pci-devices");
    assert_eq!(Page::USBs.icon_name(), "media-removable-symbolic");
}

#[test]
fn toggle_opens_and_closes_drawer() {
    let mut m = model();
    let cmd = m.update(Message::ToggleContextPage(ContextPage::About));
    assert_eq!(cmd, Command::SetContextTitle("about".to_string()));
    assert!(m.show_context());
    assert_eq!(m.context_drawer(), Some(ContextPage::About));
    m.update(Message::ToggleContextPage(ContextPage::About));
    assert!(!m.show_context());
    assert_eq!(m.context_drawer(), None);
}

#[test]
fn launch_url_is_handed_on() {
    let mut m = model();
    assert_eq!(
        m.update(Message::LaunchUrl("https://example.org/".to_string())),
        Command::OpenUrl("https://example.org/".to_string())
    );
    assert_eq!(m.update(Message::SubscriptionChannel), Command::Nothing);
    assert!(!m.show_context());
}

#[test]
fn menu_about_toggles_about() {
    assert!(matches!(MenuAction::About.message(), Message::ToggleContextPage(ContextPage::About)));
    assert_eq!(ContextPage::About.title(), "about");
    assert_eq!(ContextPage::default(), ContextPage::About);
}

#[test]
fn title_follows_active_page() {
    let mut m = model();
    assert_eq!(m.update_title("Examine", true), Some("Examine — [distribution]".to_string()));
    assert_eq!(m.update_title("Examine", false), None);
    assert_eq!(m.on_nav_select(2, "Examine", true), Some("Examine — [pci-devices]".to_string()));
    assert_eq!(m.active_page(), Some(Page::PCIs));
    assert_eq!(m.on_nav_select(9, "Examine", true), Some("Examine — [pci-devices]".to_string()));
    assert_eq!(m.active_page(), Some(Page::PCIs));
}

#[test]
fn init_titles_the_window_with_the_distribution_page() {
    let (m, title) = AppModel::init(names(), "Examine", true, String::new(), String::new(), String::new());
    assert_eq!(title, Some("Examine — [distribution]".to_string()));
    assert_eq!(m.active_page(), Some(Page::Distribution));
    let (_, title) = AppModel::init(names(), "Examine", false, String::new(), String::new(), String::new());
    assert_eq!(title, None);
}

#[test]
fn navigation_lists_the_four_pages_in_order() {
    let mut m = model();
    let mut seen = Vec::new();
    for id in 0..4 {
        m.on_nav_select(id, "Examine", false);
        seen.push(m.active_page().unwrap());
    }
    assert_eq!(seen, pages());
}

#[test]
fn views_of_each_page() {
    let mut m = model();
    let release = os_release_from_text("NAME=Arch\nID=arch\n");
    assert!(m.page_ready(true, "An error occurred"));
    assert!(!m.page_ready(false, "An error occurred"));
    match m.page_view(Some(&release), "An error occurred") {
        PageView::Rows(rows) => assert_eq!(rows.len(), 3),
        other => panic!("unexpected {:?}", other),
    }
    m.on_nav_select(1, "Examine", false);
    assert_eq!(
        m.page_view(None, "An error occurred"),
        PageView::Rows(vec![InfoRow {
            label: "Architecture".to_string(),
            translate: false,
            value: " x86_64".to_string(),
            kind: RowKind::Text
        }])
    );
    m.on_nav_select(2, "Examine", false);
    assert_eq!(
        m.page_view(None, "An error occurred"),
        PageView::Rows(vec![InfoRow {
            label: "Intel UHD".to_string(),
            translate: false,
            value: "00:02.0 VGA compatible controller".to_string(),
            kind: RowKind::Text
        }])
    );
    m.on_nav_select(3, "Examine", false);
    assert_eq!(
        m.page_view(None, "An error occurred"),
        PageView::Heading("An error occurred: lsusb not found".to_string())
    );
}

#[test]
fn malformed_output_is_not_ready() {
    let mut m = AppModel::init(names(), "Examine", false, "no colon here".to_string(), String::new(), String::new()).0;
    m.on_nav_select(1, "Examine", false);
    assert!(!m.page_ready(false, "An error occurred"));
    m.on_nav_select(2, "Examine", false);
    assert!(m.page_ready(false, "An error occurred"));
}

#[test]
fn toggling_twice_restores_drawer() {
    let mut m = model();
    let before = m.show_context();
    m.update(Message::ToggleContextPage(ContextPage::About));
    m.update(Message::ToggleContextPage(ContextPage::About));
    assert_eq!(m.show_context(), before);
    assert_eq!(m.active_page(), Some(Page::Distribution));
}

#[test]
fn menu_bar_has_about_under_view() {
    let (root, items) = examine::model::header_menu();
    assert_eq!(root, "view");
    assert_eq!(items, vec![("about".to_string(), MenuAction::About)]);
}

#[test]
fn about_data() {
    let a = about_info("1.2.3");
    assert_eq!(a.version, "1.2.3");
    assert_eq!(a.developer_name, "COSMIC Utilities");
    assert_eq!(a.license, "GPL-3.0");
    assert_eq!(a.name_id, "app-title");
    assert_eq!(a.icon, "io.github.cosmic_utils.Examine");
    assert_eq!(a.support_url, "https://github.com/cosmic-utils/examine/issues");
    assert_eq!(a.developers, vec![("Dexter Reed".to_string(), "dreed4470@proton.me".to_string())]);
}

#[test]
fn failed_command_message_is_shown_on_its_page() {
    let mut m = AppModel::init(
        names(),
        "Examine",
        false,
        "An error occurred: lscpu: not found".to_string(),
        "An error occurred: lspci: not found".to_string(),
        "An error occurred: lsusb: not found".to_string(),
    )
    .0;
    for (id, cmd) in [(1, "lscpu"), (2, "lspci"), (3, "lsusb")] {
        m.on_nav_select(id, "Examine", false);
        assert!(m.page_ready(false, "An error occurred"));
        assert_eq!(
            m.page_view(None, "An error occurred"),
            PageView::Heading(format!("An error occurred: {}: not found", cmd))
        );
    }
}
