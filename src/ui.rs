//! Browser user interface state: the address bar, status display, dialogs,
//! onboarding and the few settings there are. Nothing shown ever carries
//! the visited URL into the window title.

use crate::text::{decimal, decimal_string, join_strings, join_with, owned, string_views};
use tokio::sync::mpsc::Sender;
use vstd::prelude::*;
use vstd::string::*;

verus! {

/// tokio's `mpsc::Sender`, carried through as an opaque channel end.
#[verifier::external_type_specification]
#[verifier::external_body]
#[verifier::reject_recursive_types(T)]
pub struct ExSender<T>(Sender<T>);

/// Messages between UI and browser core.
#[derive(Debug, Clone)]
pub enum UiMessage {
    /// User typed in URL bar.
    Navigate(String),
    /// User clicked "New Loop" button.
    NewLoop,
    /// User clicked "Clear State" button.
    ClearState,
    /// Transport status changed.
    TorStatusChanged(TorStatus),
    /// Page load progress.
    LoadProgress(u8),
    /// Page title changed.
    TitleChanged(String),
    /// Security indicator changed.
    SecurityChanged(SecurityIndicator),
    /// Show error to user.
    ShowError(String),
    /// Exit browser.
    Quit,
}

/// Transport connection status.
#[derive(Debug, Clone, PartialEq)]
pub enum TorStatus {
    /// Not connected, trying to connect.
    Connecting,
    /// Connected and ready.
    Connected,
    /// Connection failed.
    Failed(String),
    /// Building circuit.
    BuildingCircuit,
}

/// Security indicator state.
#[derive(Debug, Clone, Copy, PartialEq, Eq, Structural)]
pub enum SecurityIndicator {
    /// HTTPS, onion service, or other secure connection.
    Secure,
    /// HTTP (insecure).
    Insecure,
    /// .onion address.
    Onion,
    /// Error state.
    Error,
}

/// The status line of a transport status.
pub open spec fn status_text(s: TorStatus) -> Seq<char> {
    match s {
        TorStatus::Connecting => "Connecting to Tor..."@,
        TorStatus::Connected => "Connected"@,
        TorStatus::Failed(_) => "Tor Failed"@,
        TorStatus::BuildingCircuit => "Building Circuit..."@,
    }
}

/// The color of a security indicator.
pub open spec fn indicator_color(s: SecurityIndicator) -> Seq<char> {
    match s {
        SecurityIndicator::Secure => "#00ff00"@,
        SecurityIndicator::Insecure => "#ff0000"@,
        SecurityIndicator::Onion => "#7d4cdb"@,
        SecurityIndicator::Error => "#ffaa00"@,
    }
}

/// Browser UI state.
pub struct BrowserUi {
    /// Current URL in the address bar.
    current_url: String,
    /// Current page title.
    current_title: String,
    /// Transport connection status.
    tor_status: TorStatus,
    /// Security indicator.
    security: SecurityIndicator,
    /// Page load progress (0-100).
    load_progress: u8,
    /// Channel to send messages to browser core.
    tx: Sender<UiMessage>,
}

impl BrowserUi {
    /// The URL in the address bar.
    pub closed spec fn url_view(&self) -> Seq<char> {
        self.current_url@
    }

    /// The page title.
    pub closed spec fn title_view(&self) -> Seq<char> {
        self.current_title@
    }

    /// The transport status.
    pub closed spec fn status(&self) -> TorStatus {
        self.tor_status
    }

    /// The security indicator.
    pub closed spec fn security(&self) -> SecurityIndicator {
        self.security
    }

    /// The load progress.
    pub closed spec fn progress(&self) -> u8 {
        self.load_progress
    }

    /// Create new browser UI: empty address bar, "forloop" as title,
    /// connecting, secure, no progress.
    pub fn new(tx: Sender<UiMessage>) -> (r: Self)
        ensures
            r.url_view().len() == 0,
            r.title_view() == "forloop"@,
            r.status() == TorStatus::Connecting,
            r.security() == SecurityIndicator::Secure,
            r.progress() == 0,
    {
        BrowserUi {
            current_url: String::new(),
            current_title: owned("forloop"),
            tor_status: TorStatus::Connecting,
            security: SecurityIndicator::Secure,
            load_progress: 0,
            tx,
        }
    }

    /// Handle an incoming UI message: status, progress, title and security
    /// changes are recorded; other messages change nothing here.
    pub fn handle_message(&mut self, msg: UiMessage)
        ensures
            final(self).url_view() == old(self).url_view(),
            final(self).status() == (match msg {
                UiMessage::TorStatusChanged(s) => s,
                _ => old(self).status(),
            }),
            final(self).progress() == (match msg {
                UiMessage::LoadProgress(p) => p,
                _ => old(self).progress(),
            }),
            final(self).title_view() == (match msg {
                UiMessage::TitleChanged(t) => t@,
                _ => old(self).title_view(),
            }),
            final(self).security() == (match msg {
                UiMessage::SecurityChanged(s) => s,
                _ => old(self).security(),
            }),
    {
        match msg {
            UiMessage::TorStatusChanged(status) => {
                self.tor_status = status;
            },
            UiMessage::LoadProgress(progress) => {
                self.load_progress = progress;
            },
            UiMessage::TitleChanged(title) => {
                self.current_title = title;
            },
            UiMessage::SecurityChanged(security) => {
                self.security = security;
            },
            _ => {},
        }
    }

    /// Navigate to a URL: it goes into the address bar, progress restarts,
    /// and the message for the core is returned for sending.
    pub fn navigation_message(&mut self, url: &str) -> (r: UiMessage)
        ensures
            final(self).url_view() == url@,
            final(self).progress() == 0,
            final(self).title_view() == old(self).title_view(),
            final(self).status() == old(self).status(),
            final(self).security() == old(self).security(),
            r matches UiMessage::Navigate(u) && u@ == url@,
    {
        self.current_url = owned(url);
        self.load_progress = 0;
        UiMessage::Navigate(owned(url))
    }

    /// The channel to the browser core.
    pub fn sender(&self) -> (r: &Sender<UiMessage>) {
        &self.tx
    }

    /// Get current transport status for display.
    pub fn tor_status_display(&self) -> (r: &'static str)
        ensures
            r@ == status_text(self.status()),
    {
        match &self.tor_status {
            TorStatus::Connecting => "Connecting to Tor...",
            TorStatus::Connected => "Connected",
            TorStatus::Failed(_) => "Tor Failed",
            TorStatus::BuildingCircuit => "Building Circuit...",
        }
    }

    /// Get security indicator color.
    pub fn security_color(&self) -> (r: &'static str)
        ensures
            r@ == indicator_color(self.security()),
    {
        match self.security {
            SecurityIndicator::Secure => "#00ff00",
            SecurityIndicator::Insecure => "#ff0000",
            SecurityIndicator::Onion => "#7d4cdb",
            SecurityIndicator::Error => "#ffaa00",
        }
    }
}

/// Toolbar item types.
pub enum ToolbarItem {
    /// Button.
    Button { id: &'static str, label: &'static str, enabled: bool, tooltip: &'static str },
    /// URL input bar.
    UrlBar { id: &'static str, placeholder: &'static str },
    /// Transport status indicator.
    TorIndicator { id: &'static str },
    /// Security indicator (lock icon).
    SecurityIndicator { id: &'static str },
    /// Flexible spacer.
    Spacer,
}

/// Toolbar layout for rendering.
pub struct ToolbarLayout {
    /// Items in the toolbar.
    pub items: Vec<ToolbarItem>,
}

/// The toolbar's items: the New Loop button, the URL bar between spacers,
/// then the transport and security indicators.
pub open spec fn is_toolbar(items: Seq<ToolbarItem>, enabled: bool) -> bool {
    &&& items.len() == 6
    &&& items[0] matches ToolbarItem::Button { id, label, enabled: e, tooltip } && id@
        == "new_loop"@ && label@ == "\u{1f504} New Loop"@ && e == enabled && tooltip@
        == "Create new identity (new Tor circuit, clear all state)"@
    &&& items[1] is Spacer
    &&& items[2] matches ToolbarItem::UrlBar { id, placeholder } && id@ == "url_bar"@
        && placeholder@ == "Enter .onion address or URL"@
    &&& items[3] is Spacer
    &&& items[4] matches ToolbarItem::TorIndicator { id } && id@ == "tor_status"@
    &&& items[5] matches ToolbarItem::SecurityIndicator { id } && id@ == "security"@
}

/// Toolbar component.
pub struct Toolbar {
    /// Whether "New Loop" button is enabled.
    new_loop_enabled: bool,
}

impl Toolbar {
    /// Whether the New Loop button is enabled.
    pub closed spec fn enabled(&self) -> bool {
        self.new_loop_enabled
    }

    /// Create new toolbar, with the New Loop button enabled.
    pub fn new() -> (r: Self)
        ensures
            r.enabled(),
    {
        Toolbar { new_loop_enabled: true }
    }

    /// Lay out the toolbar.
    pub fn render(&self) -> (r: ToolbarLayout)
        ensures
            is_toolbar(r.items@, self.enabled()),
    {
        let items = vec![
            ToolbarItem::Button {
                id: "new_loop",
                label: "\u{1f504} New Loop",
                enabled: self.new_loop_enabled,
                tooltip: "Create new identity (new Tor circuit, clear all state)",
            },
            ToolbarItem::Spacer,
            ToolbarItem::UrlBar { id: "url_bar", placeholder: "Enter .onion address or URL" },
            ToolbarItem::Spacer,
            ToolbarItem::TorIndicator { id: "tor_status" },
            ToolbarItem::SecurityIndicator { id: "security" },
        ];
        ToolbarLayout { items }
    }
}

impl Default for Toolbar {
    fn default() -> (r: Self) {
        Self::new()
    }
}

/// Circuit information (displayed anonymously).
pub struct CircuitInfo {
    /// Country of exit node (ISO 3166-1 alpha-2).
    pub exit_country: String,
    /// Number of hops.
    pub hops: u8,
}

/// Status bar at bottom of window.
pub struct StatusBar {
    /// Current status message.
    message: String,
    /// Current circuit info (anonymized).
    circuit_info: Option<CircuitInfo>,
}

impl StatusBar {
    /// The status message.
    pub closed spec fn message_view(&self) -> Seq<char> {
        self.message@
    }

    /// The circuit shown, as exit country and hop count.
    pub closed spec fn circuit_view(&self) -> Option<(Seq<char>, u8)> {
        match self.circuit_info {
            Some(c) => Some((c.exit_country@, c.hops)),
            None => None,
        }
    }

    /// Create new status bar with no message and no circuit.
    pub fn new() -> (r: Self)
        ensures
            r.message_view().len() == 0,
            r.circuit_view() is None,
    {
        StatusBar { message: String::new(), circuit_info: None }
    }

    /// Set status message.
    pub fn set_message(&mut self, message: &str)
        ensures
            final(self).message_view() == message@,
            final(self).circuit_view() == old(self).circuit_view(),
    {
        self.message = owned(message);
    }

    /// Set circuit info.
    pub fn set_circuit(&mut self, info: CircuitInfo)
        ensures
            final(self).message_view() == old(self).message_view(),
            final(self).circuit_view() == Some((info.exit_country@, info.hops)),
    {
        self.circuit_info = Some(info);
    }

    /// Get display text: the message, followed by the circuit's hops and
    /// exit country when one is set.
    pub fn display(&self) -> (r: String)
        ensures
            r@ == match self.circuit_view() {
                Some((exit, hops)) => self.message_view() + " | Circuit: "@ + decimal(hops as nat)
                    + " hops (exit: "@ + exit + ")"@,
                None => self.message_view(),
            },
    {
        match &self.circuit_info {
            Some(circuit) => {
                let mut r = self.message.clone();
                r.append(" | Circuit: ");
                r.append(decimal_string(circuit.hops as u128).as_str());
                r.append(" hops (exit: ");
                r.append(circuit.exit_country.as_str());
                r.append(")");
                r
            },
            None => self.message.clone(),
        }
    }
}

impl Default for StatusBar {
    fn default() -> (r: Self) {
        Self::new()
    }
}

/// Error dialog.
pub struct ErrorDialog {
    /// Error title.
    pub title: String,
    /// Error message.
    pub message: String,
    /// Whether to show a "Report" button (never: a report would leak).
    pub show_report: bool,
}

impl ErrorDialog {
    /// Create error dialog for connection failure.
    pub fn connection_failed(details: &str) -> (r: Self)
        ensures
            r.title@ == "Connection Failed"@,
            r.message@ == "Could not connect through Tor.\n\nThis may be because:\n\u{2022} Your network blocks Tor\n\u{2022} The Tor network is experiencing issues\n\u{2022} The destination is unreachable\n\nTechnical details: "@
                + details@,
            !r.show_report,
    {
        let mut message = owned(
            "Could not connect through Tor.\n\nThis may be because:\n\u{2022} Your network blocks Tor\n\u{2022} The Tor network is experiencing issues\n\u{2022} The destination is unreachable\n\nTechnical details: ",
        );
        message.append(details);
        ErrorDialog { title: owned("Connection Failed"), message, show_report: false }
    }

    /// Create error dialog for certificate error: there is no way past it.
    pub fn certificate_error(host: &str) -> (r: Self)
        ensures
            r.title@ == "Certificate Error"@,
            r.message@ == "The certificate for "@ + host@
                + " is invalid.\n\nforloop does not allow bypassing certificate errors.\nThis protects you from man-in-the-middle attacks."@,
            !r.show_report,
    {
        let mut message = owned("The certificate for ");
        message.append(host);
        message.append(
            " is invalid.\n\nforloop does not allow bypassing certificate errors.\nThis protects you from man-in-the-middle attacks.",
        );
        ErrorDialog { title: owned("Certificate Error"), message, show_report: false }
    }
}

/// Onboarding page content.
#[derive(Clone)]
pub struct OnboardingPage {
    /// Page title.
    pub title: String,
    /// Page content.
    pub content: String,
    /// Icon emoji.
    pub icon: &'static str,
}

/// The titles of the onboarding pages, in order.
pub open spec fn onboarding_titles() -> Seq<Seq<char>> {
    seq!["Welcome to forloop"@, "How It Works"@, "What forloop Cannot Do"@, "Ready"@]
}

/// Onboarding screen shown on first run.
pub struct OnboardingScreen {
    /// Current page index.
    current_page: usize,
}

impl OnboardingScreen {
    /// The page shown.
    pub closed spec fn page(&self) -> nat {
        self.current_page as nat
    }

    /// The page shown exists.
    pub open spec fn wf(&self) -> bool {
        self.page() < 4
    }

    /// Create new onboarding screen on its first page.
    pub fn new() -> (r: Self)
        ensures
            r.page() == 0,
            r.wf(),
    {
        OnboardingScreen { current_page: 0 }
    }

    /// Get current page content.
    pub fn current_content(&self) -> (r: OnboardingPage)
        requires
            self.wf(),
        ensures
            r.title@ == onboarding_titles()[self.page() as int],
    {
        let mut pages = Self::pages();
        pages.remove(self.current_page)
    }

    /// Go to the next page; false, staying put, on the last one.
    pub fn next(&mut self) -> (r: bool)
        requires
            old(self).wf(),
        ensures
            final(self).wf(),
            r == (old(self).page() < 3),
            final(self).page() == if r {
                old(self).page() + 1
            } else {
                old(self).page()
            },
    {
        if self.current_page < Self::pages().len() - 1 {
            self.current_page += 1;
            true
        } else {
            false
        }
    }

    /// The onboarding pages.
    fn pages() -> (r: Vec<OnboardingPage>)
        ensures
            r@.len() == 4,
            forall|i: int| 0 <= i < 4 ==> (#[trigger] r@[i]).title@ == onboarding_titles()[i],
    {
        vec![
            OnboardingPage {
                title: owned("Welcome to forloop"),
                content: owned(
                    "forloop is a browser designed for one thing:\nabsolute anonymity.\n\nEvery website sees a different you.\nNo fingerprints. No tracking. No history.",
                ),
                icon: "\u{1f512}",
            },
            OnboardingPage {
                title: owned("How It Works"),
                content: owned(
                    "All traffic goes through Tor.\nEach request uses a new circuit.\nNothing is stored between sessions.\n\nSites will load slower. Some will break.\nThis is the cost of true privacy.",
                ),
                icon: "\u{1f9c5}",
            },
            OnboardingPage {
                title: owned("What forloop Cannot Do"),
                content: owned(
                    "If you log in to a site, you identify yourself.\nIf your behavior is unique, you're trackable.\nIf your device is compromised, nothing helps.\n\nforloop protects the browser. You protect yourself.",
                ),
                icon: "\u{26a0}\u{fe0f}",
            },
            OnboardingPage {
                title: owned("Ready"),
                content: owned(
                    "Click 'New Loop' anytime to get a new identity.\n\nRemember: privacy requires discipline.\nforloop gives you the tools.\nYou must use them wisely.",
                ),
                icon: "\u{2713}",
            },
        ]
    }
}

impl Default for OnboardingScreen {
    fn default() -> (r: Self) {
        Self::new()
    }
}

/// Security level.
#[derive(Debug, Clone, Copy, PartialEq, Eq, Structural)]
pub enum SecurityLevel {
    /// Maximum security (the only option).
    Maximum,
}

/// Settings values (very few options by design).
#[derive(Clone)]
pub struct SettingsValues {
    /// Use bridges (for censored networks).
    pub use_bridges: bool,
    /// Bridge lines (if use_bridges is true).
    pub bridge_lines: Vec<String>,
    /// Security level (always maximum, not changeable).
    pub security_level: SecurityLevel,
}

/// Setting item types.
pub enum SettingItem {
    /// Boolean toggle.
    Toggle { id: &'static str, label: &'static str, description: &'static str, value: bool },
    /// Multi-line text input.
    TextArea {
        id: &'static str,
        label: &'static str,
        description: &'static str,
        value: String,
        visible_when: &'static str,
    },
    /// Read-only info.
    Info { label: &'static str, value: &'static str, description: &'static str },
}

/// Settings panel (very minimal).
pub struct SettingsPanel {
    /// Current settings values.
    settings: SettingsValues,
}

impl SettingsPanel {
    /// The settings shown.
    pub closed spec fn values(&self) -> SettingsValues {
        self.settings
    }

    /// Create new settings panel: no bridges, maximum security.
    pub fn new() -> (r: Self)
        ensures
            !r.values().use_bridges,
            r.values().bridge_lines@.len() == 0,
            r.values().security_level == SecurityLevel::Maximum,
    {
        SettingsPanel {
            settings: SettingsValues {
                use_bridges: false,
                bridge_lines: Vec::new(),
                security_level: SecurityLevel::Maximum,
            },
        }
    }

    /// The current settings values.
    pub fn settings(&self) -> (r: &SettingsValues)
        ensures
            *r == self.values(),
    {
        &self.settings
    }

    /// Get available settings: the bridge toggle, the bridge lines (one per
    /// line), and the fixed security level.
    pub fn available_settings(&self) -> (r: Vec<SettingItem>)
        ensures
            r@.len() == 3,
            r@[0] matches SettingItem::Toggle { id, value, .. } && id@ == "use_bridges"@ && value
                == self.values().use_bridges,
            r@[1] matches SettingItem::TextArea { id, value, visible_when, .. } && id@
                == "bridge_lines"@ && value@ == join_with(
                string_views(self.values().bridge_lines@),
                "\n"@,
            ) && visible_when@ == "use_bridges"@,
            r@[2] matches SettingItem::Info { label, value, .. } && label@ == "Security Level"@
                && value@ == "Maximum (cannot be changed)"@,
    {
        vec![
            SettingItem::Toggle {
                id: "use_bridges",
                label: "Use Tor Bridges",
                description: "Connect through bridges to bypass censorship",
                value: self.settings.use_bridges,
            },
            SettingItem::TextArea {
                id: "bridge_lines",
                label: "Bridge Lines",
                description: "One bridge per line (get bridges at bridges.torproject.org)",
                value: join_strings(&self.settings.bridge_lines, "\n"),
                visible_when: "use_bridges",
            },
            SettingItem::Info {
                label: "Security Level",
                value: "Maximum (cannot be changed)",
                description: "forloop always operates at maximum security",
            },
        ]
    }
}

impl Default for SettingsPanel {
    fn default() -> (r: Self) {
        Self::new()
    }
}

/// Window manager integration.
pub struct WindowManager {
    /// Window title.
    title: String,
    /// Window dimensions.
    width: u32,
    height: u32,
}

impl WindowManager {
    /// The window title.
    pub closed spec fn title_view(&self) -> Seq<char> {
        self.title@
    }

    /// The window size.
    pub closed spec fn size(&self) -> (u32, u32) {
        (self.width, self.height)
    }

    /// Create a window with a common size and the title "forloop".
    pub fn new() -> (r: Self)
        ensures
            r.title_view() == "forloop"@,
            r.size() == (1280u32, 720u32),
    {
        WindowManager { title: owned("forloop"), width: 1280, height: 720 }
    }

    /// Get window title (never the URL).
    pub fn title(&self) -> (r: &str)
        ensures
            r@ == self.title_view(),
    {
        self.title.as_str()
    }

    /// Get recommended window size.
    pub fn dimensions(&self) -> (r: (u32, u32))
        ensures
            r == self.size(),
    {
        (self.width, self.height)
    }
}

impl Default for WindowManager {
    fn default() -> (r: Self) {
        Self::new()
    }
}

} // verus!
