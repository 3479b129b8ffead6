//! The sidebar sections of the app window, in display order.

use vstd::prelude::*;

verus! {

/// One sidebar section: its stable id and its title.
#[derive(Debug, Clone, Copy)]
pub struct PageInfo {
    pub id: &'static str,
    pub title: &'static str,
}

/// The sections, in sidebar order.
pub fn all_pages() -> (pages: Vec<PageInfo>)
    ensures
        pages@.len() == 10,
        pages@[0].id@ == "dashboard"@ && pages@[0].title@ == "Dashboard"@,
        pages@[1].id@ == "devices"@ && pages@[1].title@ == "Devices"@,
        pages@[2].id@ == "pairing"@ && pages@[2].title@ == "Pairing"@,
        pages@[3].id@ == "input-sharing"@ && pages@[3].title@ == "Input Sharing"@,
        pages@[4].id@ == "files"@ && pages@[4].title@ == "Files"@,
        pages@[5].id@ == "print"@ && pages@[5].title@ == "Print"@,
        pages@[6].id@ == "network"@ && pages@[6].title@ == "Network"@,
        pages@[7].id@ == "news-updates"@ && pages@[7].title@ == "News & Updates"@,
        pages@[8].id@ == "settings"@ && pages@[8].title@ == "Settings"@,
        pages@[9].id@ == "logs"@ && pages@[9].title@ == "Logs"@,
{
    vec![
        PageInfo { id: "dashboard", title: "Dashboard" },
        PageInfo { id: "devices", title: "Devices" },
        PageInfo { id: "pairing", title: "Pairing" },
        PageInfo { id: "input-sharing", title: "Input Sharing" },
        PageInfo { id: "files", title: "Files" },
        PageInfo { id: "print", title: "Print" },
        PageInfo { id: "network", title: "Network" },
        PageInfo { id: "news-updates", title: "News & Updates" },
        PageInfo { id: "settings", title: "Settings" },
        PageInfo { id: "logs", title: "Logs" },
    ]
}

} // verus!
