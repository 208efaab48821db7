use vstd::prelude::*;

use crate::pages::{
    PageSpec, PageView, command_page_showable, device_page, device_page_spec, lines_split, opt_str,
    processor_page, processor_page_spec,
};
use crate::release::{distribution_rows, distribution_rows_spec, os_release_fields};
use crate::text::has_prefix;
use etc_os_release::OsRelease;

verus! {

/// The page to display in the application.
#[derive(Clone, Copy, Debug, PartialEq, Eq, Structural)]
pub enum Page {
    Distribution,
    Processor,
    PCIs,
    USBs,
}

impl Page {
    /// The identifier of the message that names the page in the navigation bar.
    pub fn message_id(&self) -> (id: &'static str)
        ensures
            id@ == page_message_id(*self),
    {
        match self {
            Page::Distribution => "distribution",
            Page::Processor => "processor",
            Page::PCIs => "pci-devices",
            Page::USBs => "usb-devices",
        }
    }

    /// The identifier of the icon shown beside the page in the navigation bar.
    pub fn icon_name(&self) -> (name: &'static str)
        ensures
            name@ == page_icon_name(*self),
    {
        match self {
            Page::Distribution => "applications-system-symbolic",
            Page::Processor => "system-run-symbolic",
            Page::PCIs => "drive-harddisk-usb-symbolic",
            Page::USBs => "media-removable-symbolic",
        }
    }
}

pub open spec fn page_message_id(p: Page) -> Seq<char> {
    match p {
        Page::Distribution => "distribution"@,
        Page::Processor => "processor"@,
        Page::PCIs => "pci-devices"@,
        Page::USBs => "usb-devices"@,
    }
}

pub open spec fn page_icon_name(p: Page) -> Seq<char> {
    match p {
        Page::Distribution => "applications-system-symbolic"@,
        Page::Processor => "system-run-symbolic"@,
        Page::PCIs => "drive-harddisk-usb-symbolic"@,
        Page::USBs => "media-removable-symbolic"@,
    }
}

/// The pages of the navigation bar, in order; the first one is active at start.
pub fn pages() -> (ps: Vec<Page>)
    ensures
        ps@ == seq![Page::Distribution, Page::Processor, Page::PCIs, Page::USBs],
{
    let mut ps: Vec<Page> = Vec::new();
    ps.push(Page::Distribution);
    ps.push(Page::Processor);
    ps.push(Page::PCIs);
    ps.push(Page::USBs);
    ps
}

/// The context page to display in the context drawer.
#[derive(Copy, Clone, Debug, Eq, PartialEq, Structural)]
pub enum ContextPage {
    About,
}

impl Default for ContextPage {
    fn default() -> (page: ContextPage)
        ensures
            page == ContextPage::About,
    {
        ContextPage::About
    }
}

impl ContextPage {
    /// The identifier of the message that titles the context page.
    pub fn title(&self) -> (title: String)
        ensures
            title@ == context_title(*self),
    {
        match self {
            ContextPage::About => "about".to_owned(),
        }
    }
}

pub open spec fn context_title(p: ContextPage) -> Seq<char> {
    match p {
        ContextPage::About => "about"@,
    }
}

/// The actions of the menu bar.
#[derive(Clone, Copy, Debug, Eq, PartialEq, Structural)]
pub enum MenuAction {
    About,
}

impl MenuAction {
    /// The message that choosing the action sends.
    pub fn message(&self) -> (m: Message)
        ensures
            m == menu_message(*self),
    {
        match self {
            MenuAction::About => Message::ToggleContextPage(ContextPage::About),
        }
    }
}

pub open spec fn menu_message(a: MenuAction) -> Message {
    match a {
        MenuAction::About => Message::ToggleContextPage(ContextPage::About),
    }
}

/// The menu bar: the identifier of its root menu's title, and each item's
/// message identifier with its action.
pub fn header_menu() -> (menu: (String, Vec<(String, MenuAction)>))
    ensures
        menu.0@ == "view"@,
        menu.1@.len() == 1,
        menu.1@[0].0@ == "about"@,
        menu.1@[0].1 == MenuAction::About,
{
    let mut items: Vec<(String, MenuAction)> = Vec::new();
    items.push(("about".to_owned(), MenuAction::About));
    ("view".to_owned(), items)
}

/// The application's identifier, which also names its icon.
pub const APP_ID: &'static str = "io.github.cosmic_utils.Examine";

/// The project's source repository.
pub const REPOSITORY: &'static str = "https://github.com/cosmic-utils/examine";

/// What the about page tells of the application.
pub struct AboutInfo {
    /// The identifier of the message that names the application.
    pub name_id: String,
    /// The name of the application's icon.
    pub icon: String,
    pub developer_name: String,
    /// The version of the application, as the caller gives it (its package version).
    pub version: String,
    pub license: String,
    pub repository_url: String,
    /// The issue tracker: the repository's URL followed by `/issues`.
    pub support_url: String,
    /// Each developer's name and e-mail address.
    pub developers: Vec<(String, String)>,
}

/// The about page's data, for the application's package `version`.
pub fn about_info(version: &str) -> (a: AboutInfo)
    ensures
        a.version@ == version@,
        a.name_id@ == "app-title"@,
        a.icon@ == APP_ID@,
        a.developer_name@ == "COSMIC Utilities"@,
        a.license@ == "GPL-3.0"@,
        a.repository_url@ == REPOSITORY@,
        a.support_url@ == REPOSITORY@ + "/issues"@,
        a.developers@.len() == 1,
        a.developers@[0].0@ == "Dexter Reed"@,
        a.developers@[0].1@ == "dreed4470@proton.me"@,
{
    let mut support_url = REPOSITORY.to_owned();
    support_url.append("/issues");
    let mut developers: Vec<(String, String)> = Vec::new();
    developers.push(("Dexter Reed".to_owned(), "dreed4470@proton.me".to_owned()));
    AboutInfo {
        name_id: "app-title".to_owned(),
        icon: APP_ID.to_owned(),
        developer_name: "COSMIC Utilities".to_owned(),
        version: version.to_owned(),
        license: "GPL-3.0".to_owned(),
        repository_url: REPOSITORY.to_owned(),
        support_url,
        developers,
    }
}

/// The messages that the application handles itself.
#[derive(Debug)]
pub enum Message {
    /// Open a URL in the desktop's handler.
    LaunchUrl(String),
    /// The subscription channel reported in.
    SubscriptionChannel,
    /// Show, hide or switch the context drawer.
    ToggleContextPage(ContextPage),
}

/// What the surrounding program has to carry out after an update.
#[derive(Debug, PartialEq, Eq)]
pub enum Command {
    /// Nothing.
    Nothing,
    /// Open this URL.
    OpenUrl(String),
    /// Set the title of the context drawer to this message.
    SetContextTitle(String),
}

/// An entry of the navigation bar: its text and the page it leads to.
struct NavItem {
    text: String,
    page: Page,
}

/// The localized names of the pages in the navigation bar.
pub struct PageNames {
    pub distribution: String,
    pub processor: String,
    pub pci_devices: String,
    pub usb_devices: String,
}

/// The state of the application: the context drawer, the navigation bar and
/// the stored output of `lscpu`, `lspci` and `lsusb`.
pub struct AppModel {
    context_page: ContextPage,
    show_context: bool,
    nav: Vec<NavItem>,
    active: usize,
    lscpu: Option<String>,
    lspci: Option<String>,
    lsusb: Option<String>,
}

/// The mathematical value of an `AppModel`.
pub struct AppState {
    pub context_page: ContextPage,
    pub show_context: bool,
    pub nav: Seq<(Seq<char>, Page)>,
    pub active: int,
    pub lscpu: Option<Seq<char>>,
    pub lspci: Option<Seq<char>>,
    pub lsusb: Option<Seq<char>>,
}

impl View for AppModel {
    type V = AppState;

    closed spec fn view(&self) -> AppState {
        AppState {
            context_page: self.context_page,
            show_context: self.show_context,
            nav: self.nav@.map_values(|n: NavItem| (n.text@, n.page)),
            active: self.active as int,
            lscpu: opt_str(&self.lscpu),
            lspci: opt_str(&self.lspci),
            lsusb: opt_str(&self.lsusb),
        }
    }
}

impl AppState {
    /// The page of the active navigation entry, if any.
    pub open spec fn active_page(self) -> Option<Page> {
        if 0 <= self.active < self.nav.len() {
            Some(self.nav[self.active].1)
        } else {
            None
        }
    }

    /// The text of the active navigation entry, if any.
    pub open spec fn active_text(self) -> Option<Seq<char>> {
        if 0 <= self.active < self.nav.len() {
            Some(self.nav[self.active].0)
        } else {
            None
        }
    }

    /// The drawer after a `ToggleContextPage(page)`: the same page flips the
    /// drawer, another page is shown in an open drawer.
    pub open spec fn toggled(self, page: ContextPage) -> AppState {
        if self.context_page == page {
            AppState { show_context: !self.show_context, ..self }
        } else {
            AppState { context_page: page, show_context: true, ..self }
        }
    }

    /// The state after handling `m`.
    pub open spec fn after(self, m: Message) -> AppState {
        match m {
            Message::ToggleContextPage(p) => self.toggled(p),
            _ => self,
        }
    }

    /// The window title for the localized application title: the title of the
    /// active page follows it after `" — "`.
    pub open spec fn window_title(self, app_title: Seq<char>) -> Seq<char> {
        match self.active_text() {
            Some(t) => app_title + " — "@ + t,
            None => app_title,
        }
    }

    /// Whether the active page can be shown: the distribution page needs the
    /// os-release file; a command page needs each line of a stored output that
    /// is no error message to hold its separator.
    pub open spec fn showable(self, has_release: bool, error_text: Seq<char>) -> bool {
        match self.active_page() {
            Some(Page::Distribution) => has_release,
            Some(Page::Processor) => command_page_showable(self.lscpu, error_text, ":"@),
            Some(Page::PCIs) => command_page_showable(self.lspci, error_text, ": "@),
            Some(Page::USBs) => command_page_showable(self.lsusb, error_text, ": "@),
            None => true,
        }
    }
}

/// What the active page shows, for the os-release fields `fields` (used only
/// by the distribution page).
pub open spec fn view_spec(s: AppState, fields: Map<Seq<char>, Seq<char>>, error_text: Seq<char>) -> PageSpec {
    match s.active_page() {
        Some(Page::Distribution) => PageSpec::Rows(distribution_rows_spec(fields)),
        Some(Page::Processor) => processor_page_spec(s.lscpu, error_text),
        Some(Page::PCIs) => device_page_spec(s.lspci, error_text),
        Some(Page::USBs) => device_page_spec(s.lsusb, error_text),
        None => PageSpec::NoPage,
    }
}

/// The os-release fields of an optional parsed file (none when absent).
pub open spec fn release_fields(release: Option<&OsRelease>) -> Map<Seq<char>, Seq<char>> {
    match release {
        Some(r) => os_release_fields(*r),
        None => Map::empty(),
    }
}

impl AppModel {
    /// The state at start, with the command that titles the window: the
    /// navigation bar lists the four pages of `pages()` under the localized
    /// `names`, the distribution page active; the context drawer is closed on
    /// the about page; each command's output (or error message) is stored.
    /// When a main window is open, its title is `app_title`, `" — "` and the
    /// name of the distribution page.
    pub fn init(
        names: PageNames,
        app_title: &str,
        window_open: bool,
        lscpu: String,
        lspci: String,
        lsusb: String,
    ) -> (r: (AppModel, Option<String>))
        ensures
            r.0@.context_page == ContextPage::About,
            !r.0@.show_context,
            r.0@.nav == seq![
                (names.distribution@, Page::Distribution),
                (names.processor@, Page::Processor),
                (names.pci_devices@, Page::PCIs),
                (names.usb_devices@, Page::USBs),
            ],
            r.0@.active == 0,
            r.0@.active_page() == Some(Page::Distribution),
            r.0@.lscpu == Some(lscpu@),
            r.0@.lspci == Some(lspci@),
            r.0@.lsusb == Some(lsusb@),
            window_open ==> (r.1 matches Some(t) && t@ == app_title@ + " — "@ + names.distribution@),
            !window_open ==> r.1 is None,
    {
        let PageNames { distribution, processor, pci_devices, usb_devices } = names;
        let mut nav: Vec<NavItem> = Vec::new();
        nav.push(NavItem { text: distribution, page: Page::Distribution });
        nav.push(NavItem { text: processor, page: Page::Processor });
        nav.push(NavItem { text: pci_devices, page: Page::PCIs });
        nav.push(NavItem { text: usb_devices, page: Page::USBs });
        let app = AppModel {
            context_page: ContextPage::default(),
            show_context: false,
            nav,
            active: 0,
            lscpu: Some(lscpu),
            lspci: Some(lspci),
            lsusb: Some(lsusb),
        };
        assert(app@.nav =~= seq![
            (names.distribution@, Page::Distribution),
            (names.processor@, Page::Processor),
            (names.pci_devices@, Page::PCIs),
            (names.usb_devices@, Page::USBs),
        ]);
        let title = app.update_title(app_title, window_open);
        (app, title)
    }

    /// The page shown in the context drawer.
    pub fn context_page(&self) -> (p: ContextPage)
        ensures
            p == self@.context_page,
    {
        self.context_page
    }

    /// Whether the context drawer is open.
    pub fn show_context(&self) -> (b: bool)
        ensures
            b == self@.show_context,
    {
        self.show_context
    }

    /// The page of the active navigation entry.
    pub fn active_page(&self) -> (p: Option<Page>)
        ensures
            p == self@.active_page(),
    {
        if self.active < self.nav.len() {
            Some(self.nav[self.active].page)
        } else {
            None
        }
    }

    /// What the context drawer shows: nothing while it is closed.
    pub fn context_drawer(&self) -> (p: Option<ContextPage>)
        ensures
            p == (if self@.show_context { Some(self@.context_page) } else { None }),
    {
        if !self.show_context {
            return None;
        }
        Some(self.context_page)
    }

    /// Handles a message: toggling a context page switches the drawer and asks
    /// for its title; a URL is handed on to be opened.
    pub fn update(&mut self, message: Message) -> (cmd: Command)
        ensures
            final(self)@ == old(self)@.after(message),
            match message {
                Message::LaunchUrl(url) => cmd == Command::OpenUrl(url),
                Message::SubscriptionChannel => cmd == Command::Nothing,
                Message::ToggleContextPage(p) => cmd matches Command::SetContextTitle(t)
                    && t@ == context_title(p),
            },
    {
        match message {
            Message::LaunchUrl(url) => Command::OpenUrl(url),
            Message::SubscriptionChannel => Command::Nothing,
            Message::ToggleContextPage(context_page) => {
                if self.context_page == context_page {
                    self.show_context = !self.show_context;
                } else {
                    self.context_page = context_page;
                    self.show_context = true;
                }
                Command::SetContextTitle(context_page.title())
            },
        }
    }

    /// The title of the header and of the main window (the one title serves
    /// both), when there is a main window to give it to: the localized
    /// application title, then `" — "` and the text of the active navigation
    /// entry.
    pub fn update_title(&self, app_title: &str, window_open: bool) -> (title: Option<String>)
        ensures
            window_open ==> (title matches Some(t) && t@ == self@.window_title(app_title@)),
            !window_open ==> title is None,
    {
        let mut window_title = app_title.to_owned();
        if self.active < self.nav.len() {
            window_title.append(" — ");
            window_title.append(self.nav[self.active].text.as_str());
        }
        if window_open {
            Some(window_title)
        } else {
            None
        }
    }

    /// Activates the navigation entry `id` (an index; others are ignored), then
    /// gives the new window title as `update_title` does.
    pub fn on_nav_select(&mut self, id: usize, app_title: &str, window_open: bool) -> (title: Option<String>)
        ensures
            final(self)@ == (if id < old(self)@.nav.len() { AppState { active: id as int, ..old(self)@ } } else { old(self)@ }),
            window_open ==> (title matches Some(t) && t@ == final(self)@.window_title(app_title@)),
            !window_open ==> title is None,
    {
        if id < self.nav.len() {
            self.active = id;
        }
        self.update_title(app_title, window_open)
    }

    /// Whether `page_view` can show the active page (see `AppState::showable`).
    pub fn page_ready(&self, has_release: bool, error_text: &str) -> (b: bool)
        ensures
            b == self@.showable(has_release, error_text@),
    {
        match self.active_page() {
            Some(Page::Distribution) => has_release,
            Some(Page::Processor) => self.command_ready(&self.lscpu, error_text, ":"),
            Some(Page::PCIs) => self.command_ready(&self.lspci, error_text, ": "),
            Some(Page::USBs) => self.command_ready(&self.lsusb, error_text, ": "),
            None => true,
        }
    }

    fn command_ready(&self, output: &Option<String>, error_text: &str, sep: &str) -> (b: bool)
        ensures
            b == command_page_showable(opt_str(output), error_text@, sep@),
    {
        match output {
            None => true,
            Some(s) => has_prefix(s.as_str(), error_text) || lines_split(s.as_str(), sep),
        }
    }

    /// What the active page shows. The distribution page lists the fields of
    /// `release`; a command page lists the lines of the stored output, or shows
    /// the stored error message, or the error heading when nothing is stored.
    pub fn page_view(&self, release: Option<&OsRelease>, error_text: &str) -> (page: PageView)
        requires
            self@.showable(release is Some, error_text@),
        ensures
            page@ == view_spec(self@, release_fields(release), error_text@),
    {
        match self.active_page() {
            Some(Page::Distribution) => match release {
                Some(r) => PageView::Rows(distribution_rows(r)),
                None => PageView::NoPage,
            },
            Some(Page::Processor) => processor_page(&self.lscpu, error_text),
            Some(Page::PCIs) => device_page(&self.lspci, error_text),
            Some(Page::USBs) => device_page(&self.lsusb, error_text),
            None => PageView::NoPage,
        }
    }
}

} // verus!
