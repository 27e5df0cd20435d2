use vstd::prelude::*;
use vstd::string::*;

verus! {

/// Number of wizard pages: the welcome page, one page per setup task, the done page.
pub const TOTAL_PAGES: usize = 5;

/// Number of optional setup tasks offered between the welcome and the done page.
pub const SETUP_PAGE_COUNT: usize = 3;

/// Index of the last page, the one whose forward button reads "Finish".
pub const LAST_PAGE: usize = 4;

/// One optional setup task: what its page shows and which script it runs.
#[derive(Clone, Copy, Debug)]
pub struct SetupPage {
    pub name: &'static str,
    pub title: &'static str,
    pub icon: &'static str,
    pub description: &'static str,
    pub script: &'static str,
}

/// The setup task at position `index` of the table (gaming, virtualization, local AI).
pub open spec fn spec_setup_page(index: int) -> Option<SetupPage> {
    if index == 0 {
        Some(
            SetupPage {
                name: "gaming",
                title: "Gaming Setup",
                icon: "🎮",
                description: "Install Steam and Lutris natively for the best gaming performance. Native packages give better Proton and Wine compatibility than Flatpak.",
                script: "setup-gaming",
            },
        )
    } else if index == 1 {
        Some(
            SetupPage {
                name: "virt",
                title: "Virtualization",
                icon: "🖥",
                description: "Set up KVM/QEMU and virt-manager to run virtual machines. Ideal for running Windows or other Linux distros alongside RakuOS.",
                script: "setup-virtualization",
            },
        )
    } else if index == 2 {
        Some(
            SetupPage {
                name: "ollama",
                title: "Local AI with Ollama",
                icon: "🤖",
                description: "Install Ollama to run AI language models locally on your GPU. Keep your conversations private and use AI without the cloud.",
                script: "setup-ollama",
            },
        )
    } else {
        None
    }
}

/// Looks a setup task up by its position in the table.
pub fn setup_page(index: usize) -> (r: Option<SetupPage>)
    ensures
        r == spec_setup_page(index as int),
        r is Some <==> index < SETUP_PAGE_COUNT,
{
    if index == 0 {
        Some(
            SetupPage {
                name: "gaming",
                title: "Gaming Setup",
                icon: "🎮",
                description: "Install Steam and Lutris natively for the best gaming performance. Native packages give better Proton and Wine compatibility than Flatpak.",
                script: "setup-gaming",
            },
        )
    } else if index == 1 {
        Some(
            SetupPage {
                name: "virt",
                title: "Virtualization",
                icon: "🖥",
                description: "Set up KVM/QEMU and virt-manager to run virtual machines. Ideal for running Windows or other Linux distros alongside RakuOS.",
                script: "setup-virtualization",
            },
        )
    } else if index == 2 {
        Some(
            SetupPage {
                name: "ollama",
                title: "Local AI with Ollama",
                icon: "🤖",
                description: "Install Ollama to run AI language models locally on your GPU. Keep your conversations private and use AI without the cloud.",
                script: "setup-ollama",
            },
        )
    } else {
        None
    }
}

/// Position in the setup table of wizard page `page`; page 0 maps to the first
/// task as well, since the index saturates at zero.
pub open spec fn setup_index_of_page(page: int) -> int {
    if page <= 0 {
        0
    } else {
        page - 1
    }
}

/// The setup task shown on wizard page `page` (pages 1 to 3; page 0 saturates to the first).
pub fn setup_page_for(page: usize) -> (r: Option<SetupPage>)
    ensures
        r == spec_setup_page(setup_index_of_page(page as int)),
        r is Some <==> page <= SETUP_PAGE_COUNT,
{
    setup_page(page.saturating_sub(1))
}

/// The script that wizard page `page_index` runs, if it is a setup page.
pub open spec fn spec_script_for_page(page_index: int) -> Option<&'static str> {
    if page_index == 1 {
        Some("setup-gaming")
    } else if page_index == 2 {
        Some("setup-virtualization")
    } else if page_index == 3 {
        Some("setup-ollama")
    } else {
        None
    }
}

/// The script that wizard page `page_index` runs: pages 1 to 3 each run one, others none.
pub fn script_for_page(page_index: i32) -> (r: Option<&'static str>)
    ensures
        r == spec_script_for_page(page_index as int),
        r is Some <==> 1 <= page_index <= 3,
{
    match page_index {
        1 => Some("setup-gaming"),
        2 => Some("setup-virtualization"),
        3 => Some("setup-ollama"),
        _ => None,
    }
}

/// The page-by-page script lookup agrees with the table of setup tasks.
pub proof fn script_for_page_agrees_with_table(page_index: int)
    requires
        1 <= page_index <= 3,
    ensures
        spec_script_for_page(page_index) == Some(spec_setup_page(page_index - 1)->0.script),
{
}

/// What a wizard page shows.
#[derive(Clone, Copy, Debug, PartialEq, Eq, Structural)]
pub enum PageView {
    Welcome,
    /// A setup task, with its wizard page number (1 to 3).
    Setup(usize),
    Done,
}

pub open spec fn spec_page_view(index: int) -> PageView {
    if index == 0 {
        PageView::Welcome
    } else if 1 <= index <= 3 {
        PageView::Setup(index as usize)
    } else {
        PageView::Done
    }
}

/// Which page wizard position `index` shows: 0 welcome, 1 to 3 setup tasks, anything else done.
pub fn page_view(index: usize) -> (r: PageView)
    ensures
        r == spec_page_view(index as int),
{
    if index == 0 {
        PageView::Welcome
    } else if index <= 3 {
        PageView::Setup(index)
    } else {
        PageView::Done
    }
}

/// The name under which page `index` is registered in a page stack.
pub open spec fn spec_page_name(index: int) -> &'static str {
    if index == 0 {
        "welcome"
    } else if index == 1 {
        "gaming"
    } else if index == 2 {
        "virt"
    } else if index == 3 {
        "ollama"
    } else {
        "done"
    }
}

/// The stack name of page `index`: "welcome", the three task names, then "done".
pub fn page_name(index: usize) -> (r: &'static str)
    requires
        index < TOTAL_PAGES,
    ensures
        r == spec_page_name(index as int),
{
    match index {
        0 => "welcome",
        1 => "gaming",
        2 => "virt",
        3 => "ollama",
        _ => "done",
    }
}

/// The stack names of the setup pages are the names in the setup table.
pub proof fn page_names_agree_with_table(index: int)
    requires
        1 <= index <= 3,
    ensures
        spec_page_name(index) == spec_setup_page(index - 1)->0.name,
{
}

pub open spec fn spec_logo_path(dark: bool) -> &'static str {
    if dark {
        "/usr/share/pixmaps/fedora_whitelogo_med.png"
    } else {
        "/usr/share/pixmaps/fedora_logo_med.png"
    }
}

/// The logo for the current colour scheme: the white logo on a dark theme.
pub fn logo_path(dark: bool) -> (r: &'static str)
    ensures
        r == spec_logo_path(dark),
{
    if dark {
        "/usr/share/pixmaps/fedora_whitelogo_med.png"
    } else {
        "/usr/share/pixmaps/fedora_logo_med.png"
    }
}

/// A link on the welcome page.
#[derive(Clone, Copy, Debug)]
pub struct WelcomeLink {
    pub text: &'static str,
    pub url: &'static str,
}

pub open spec fn spec_welcome_link(index: int) -> Option<WelcomeLink> {
    if index == 0 {
        Some(WelcomeLink { text: "🌐 Website", url: "https://rakuos.org" })
    } else if index == 1 {
        Some(WelcomeLink { text: "💻 GitHub", url: "https://github.com/RakuOS" })
    } else if index == 2 {
        Some(WelcomeLink { text: "📦 SourceForge", url: "https://sourceforge.net/projects/rakuos/" })
    } else {
        None
    }
}

/// The links of the welcome page, in order: website, GitHub, SourceForge.
pub fn welcome_link(index: usize) -> (r: Option<WelcomeLink>)
    ensures
        r == spec_welcome_link(index as int),
        r is Some <==> index < 3,
{
    match index {
        0 => Some(WelcomeLink { text: "🌐 Website", url: "https://rakuos.org" }),
        1 => Some(WelcomeLink { text: "💻 GitHub", url: "https://github.com/RakuOS" }),
        2 => Some(WelcomeLink { text: "📦 SourceForge", url: "https://sourceforge.net/projects/rakuos/" }),
        _ => None,
    }
}

/// The command that runs a setup script with elevated rights.
pub fn script_command(script: &str) -> (r: String)
    ensures
        r@ == "/usr/libexec/rakuos/"@ + script@,
{
    let mut path = String::from_str("/usr/libexec/rakuos/");
    path.append(script);
    path
}

/// The label of a setup page's run button before it has been pressed.
pub fn setup_button_label(title: &str) -> (r: String)
    ensures
        r@ == "Set Up "@ + title@,
{
    let mut label = String::from_str("Set Up ");
    label.append(title);
    label
}

/// Position 0 is the welcome page, positions 1, 2 and 3 are the setup pages of
/// the same number, and every later position is the done page.
pub proof fn page_positions(index: int)
    requires
        index >= 0,
    ensures
        index == 0 ==> spec_page_view(index) == PageView::Welcome,
        index == 1 ==> spec_page_view(index) == PageView::Setup(1),
        index == 2 ==> spec_page_view(index) == PageView::Setup(2),
        index == 3 ==> spec_page_view(index) == PageView::Setup(3),
        index > 3 ==> spec_page_view(index) == PageView::Done,
        (1 <= index <= 3) <==> (spec_page_view(index) is Setup),
        spec_page_view(index) matches PageView::Setup(p) ==> p == index,
{
}

/// The setup page at position `page` shows the task whose script that page runs:
/// the gaming task on page 1, virtualization on page 2, local AI on page 3.
pub proof fn setup_positions_show_their_tasks(page: int)
    requires
        1 <= page <= 3,
    ensures
        spec_page_view(page) == PageView::Setup(page as usize),
        spec_setup_page(page - 1) is Some,
        spec_script_for_page(page) == Some(spec_setup_page(page - 1)->0.script),
        page == 1 ==> spec_setup_page(page - 1)->0.title == "Gaming Setup",
        page == 2 ==> spec_setup_page(page - 1)->0.title == "Virtualization",
        page == 3 ==> spec_setup_page(page - 1)->0.title == "Local AI with Ollama",
{
}

} // verus!
