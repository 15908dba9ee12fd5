//! Layout decisions for the popup: what each page shows, which pages carry
//! a back button and scroll, the outer padding, and how the popup shell is
//! aligned toward the panel edge the applet sits on.

use vstd::prelude::*;

use crate::app::PopupPage;

verus! {

/// The inner content of a popup page.
#[derive(Clone, Copy, Debug, PartialEq, Eq, Structural)]
pub enum PageContent {
    /// Header row: monitor pill left, info and settings icons right.
    MainHeader,
    /// The settings title (placeholder page).
    SettingsTitle,
    /// The about widget with its links.
    AboutDetails,
}

/// How the popup for one page is laid out.
#[derive(Clone, Copy, Debug, PartialEq, Eq, Structural)]
pub struct PopupLayout {
    /// What the page shows.
    pub content: PageContent,
    /// A back button to the main page sits above the content.
    pub back_button: bool,
    /// The content scrolls inside a height cap.
    pub scrollable: bool,
    /// Padding on all sides of the popup content.
    pub padding: u16,
}

/// The page's content.
pub open spec fn page_content(page: PopupPage) -> PageContent {
    match page {
        PopupPage::Main => PageContent::MainHeader,
        PopupPage::Settings => PageContent::SettingsTitle,
        PopupPage::About => PageContent::AboutDetails,
    }
}

/// Layout of the popup for `page`. Sub-pages get a back button and scroll;
/// the main page has neither. Condensed panels use the small theme spacing
/// `space_s` as padding, others the medium spacing `space_m`.
pub fn popup_layout(page: PopupPage, condensed: bool, space_s: u16, space_m: u16) -> (l:
    PopupLayout)
    ensures
        l.content == page_content(page),
        l.back_button == (page != PopupPage::Main),
        l.scrollable == (page != PopupPage::Main),
        l.padding == (if condensed { space_s } else { space_m }),
{
    let padding = if condensed { space_s } else { space_m };
    match page {
        PopupPage::Main => PopupLayout {
            content: PageContent::MainHeader,
            back_button: false,
            scrollable: false,
            padding,
        },
        PopupPage::Settings => PopupLayout {
            content: PageContent::SettingsTitle,
            back_button: true,
            scrollable: true,
            padding,
        },
        PopupPage::About => PopupLayout {
            content: PageContent::AboutDetails,
            back_button: true,
            scrollable: true,
            padding,
        },
    }
}

/// The panel edge the applet sits on.
#[derive(Clone, Copy, Debug, PartialEq, Eq, Structural)]
pub enum PanelAnchor {
    Left,
    Right,
    Top,
    Bottom,
}

/// Vertical placement of the popup shell.
#[derive(Clone, Copy, Debug, PartialEq, Eq, Structural)]
pub enum VerticalAlign {
    Top,
    Center,
    Bottom,
}

/// Horizontal placement of the popup shell.
#[derive(Clone, Copy, Debug, PartialEq, Eq, Structural)]
pub enum HorizontalAlign {
    Left,
    Center,
    Right,
}

/// Alignment of the popup shell toward the panel edge: vertical panels
/// center vertically and stick to their side; horizontal panels stick to
/// their edge and center horizontally.
pub fn shell_alignment(anchor: PanelAnchor) -> (a: (VerticalAlign, HorizontalAlign))
    ensures
        a == (match anchor {
            PanelAnchor::Left => (VerticalAlign::Center, HorizontalAlign::Left),
            PanelAnchor::Right => (VerticalAlign::Center, HorizontalAlign::Right),
            PanelAnchor::Top => (VerticalAlign::Top, HorizontalAlign::Center),
            PanelAnchor::Bottom => (VerticalAlign::Bottom, HorizontalAlign::Center),
        }),
{
    match anchor {
        PanelAnchor::Left => (VerticalAlign::Center, HorizontalAlign::Left),
        PanelAnchor::Right => (VerticalAlign::Center, HorizontalAlign::Right),
        PanelAnchor::Top => (VerticalAlign::Top, HorizontalAlign::Center),
        PanelAnchor::Bottom => (VerticalAlign::Bottom, HorizontalAlign::Center),
    }
}

} // verus!
