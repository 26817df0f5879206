use vstd::prelude::*;
use crate::config::AppMode;

verus! {

#[derive(Clone, Copy, Debug, PartialEq, Eq, Structural)]
pub enum Tab {
    Receipt,
    Commands,
    Settings,
}

impl Default for Tab {
    fn default() -> (t: Self)
        ensures
            t == Tab::Receipt,
    {
        Tab::Receipt
    }
}

/// The panel the window's central area shows.
#[derive(Clone, Copy, Debug, PartialEq, Eq, Structural)]
pub enum Panel {
    ReceiptViewer,
    SaveStatus,
    CommandLog,
    Settings,
}

/// The receipt tab shows the save log in PDF mode and the receipt otherwise;
/// the other tabs show their own panel.
pub open spec fn panel_spec(tab: Tab, mode: AppMode) -> Panel {
    match tab {
        Tab::Receipt => if mode == AppMode::SaveAsPdf {
            Panel::SaveStatus
        } else {
            Panel::ReceiptViewer
        },
        Tab::Commands => Panel::CommandLog,
        Tab::Settings => Panel::Settings,
    }
}

/// The panel shown for a tab in a mode.
pub fn panel_for(tab: Tab, mode: AppMode) -> (p: Panel)
    ensures
        p == panel_spec(tab, mode),
{
    match tab {
        Tab::Receipt => match mode {
            AppMode::SaveAsPdf => Panel::SaveStatus,
            AppMode::PrintAndView => Panel::ReceiptViewer,
        },
        Tab::Commands => Panel::CommandLog,
        Tab::Settings => Panel::Settings,
    }
}

} // verus!
