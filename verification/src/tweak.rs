//! The catalogue of optimizations and the pages of the interface.

use vstd::prelude::*;
use crate::text::str_equals;

verus! {

/// The number of optimizations the tool knows about.
pub const TWEAK_COUNT: usize = 12;

/// One optimization that the tool can check for and apply.
#[derive(Clone, Copy, Debug, PartialEq, Eq, Structural)]
pub enum Tweak {
    RemoveSnap,
    InstallFlatpak,
    FirefoxPpa,
    TelemetryOff,
    ApportOff,
    MotdOff,
    SwappinessTuned,
    ShutdownFast,
    SsdTrim,
    TrackerOff,
    BalooOff,
    BloatRemoved,
}

/// The position of a tweak in the catalogue.
pub open spec fn tweak_index(t: Tweak) -> int {
    match t {
            Tweak::RemoveSnap => 0,
            Tweak::InstallFlatpak => 1,
            Tweak::FirefoxPpa => 2,
            Tweak::TelemetryOff => 3,
            Tweak::ApportOff => 4,
            Tweak::MotdOff => 5,
            Tweak::SwappinessTuned => 6,
            Tweak::ShutdownFast => 7,
            Tweak::SsdTrim => 8,
            Tweak::TrackerOff => 9,
            Tweak::BalooOff => 10,
            Tweak::BloatRemoved => 11,
    }
}

/// The tweak at a position of the catalogue.
pub open spec fn tweak_at(i: int) -> Tweak {
    if i == 0 { Tweak::RemoveSnap } else if i == 1 { Tweak::InstallFlatpak }
    else if i == 2 { Tweak::FirefoxPpa } else if i == 3 { Tweak::TelemetryOff }
    else if i == 4 { Tweak::ApportOff } else if i == 5 { Tweak::MotdOff }
    else if i == 6 { Tweak::SwappinessTuned } else if i == 7 { Tweak::ShutdownFast }
    else if i == 8 { Tweak::SsdTrim } else if i == 9 { Tweak::TrackerOff }
    else if i == 10 { Tweak::BalooOff } else { Tweak::BloatRemoved }
}

/// The identifier of a tweak, as used in logs and selections.
pub open spec fn tweak_key(t: Tweak) -> Seq<char> {
    match t {
            Tweak::RemoveSnap => "remove_snap"@,
            Tweak::InstallFlatpak => "install_flatpak"@,
            Tweak::FirefoxPpa => "firefox_ppa"@,
            Tweak::TelemetryOff => "telemetry_off"@,
            Tweak::ApportOff => "apport_off"@,
            Tweak::MotdOff => "motd_off"@,
            Tweak::SwappinessTuned => "swappiness_tuned"@,
            Tweak::ShutdownFast => "shutdown_fast"@,
            Tweak::SsdTrim => "ssd_trim"@,
            Tweak::TrackerOff => "tracker_off"@,
            Tweak::BalooOff => "baloo_off"@,
            Tweak::BloatRemoved => "bloat_removed"@,
    }
}

/// The human readable name of a tweak.
pub open spec fn tweak_label(t: Tweak) -> Seq<char> {
    match t {
            Tweak::RemoveSnap => "Remove Snap"@,
            Tweak::InstallFlatpak => "Install Flatpak"@,
            Tweak::FirefoxPpa => "Native Firefox"@,
            Tweak::TelemetryOff => "Disable telemetry"@,
            Tweak::ApportOff => "Disable crash popups"@,
            Tweak::MotdOff => "Remove terminal ads"@,
            Tweak::SwappinessTuned => "Tune swappiness"@,
            Tweak::ShutdownFast => "Shorten shutdown"@,
            Tweak::SsdTrim => "Enable SSD TRIM"@,
            Tweak::TrackerOff => "Disable file indexing"@,
            Tweak::BalooOff => "Disable Baloo indexing"@,
            Tweak::BloatRemoved => "Remove desktop bloat"@,
    }
}

/// The one line description of a tweak.
pub open spec fn tweak_description(t: Tweak) -> Seq<char> {
    match t {
            Tweak::RemoveSnap => "Uninstalls snapd, replaces snap apps with flatpak/apt"@,
            Tweak::InstallFlatpak => "Adds the open Flathub ecosystem"@,
            Tweak::FirefoxPpa => "Uses Mozilla's native repo instead of Snap"@,
            Tweak::TelemetryOff => "Stops ubuntu-report, popcon, geoclue"@,
            Tweak::ApportOff => "Turns off apport and whoopsie"@,
            Tweak::MotdOff => "Disables MOTD news and Ubuntu Pro banners"@,
            Tweak::SwappinessTuned => "Sets vm.swappiness=10 (prefer RAM over swap)"@,
            Tweak::ShutdownFast => "systemd timeout 10s instead of 90s"@,
            Tweak::SsdTrim => "Activates fstrim.timer"@,
            Tweak::TrackerOff => "Stops GNOME Tracker (GNOME only)"@,
            Tweak::BalooOff => "Stops KDE Baloo (KDE only)"@,
            Tweak::BloatRemoved => "Removes optional games and extras"@,
    }
}

/// The tweak whose identifier is `k`, if any.
pub open spec fn tweak_of_key(k: Seq<char>) -> Option<Tweak> {
    if k == "remove_snap"@ {
        Some(Tweak::RemoveSnap)
    } else if k == "install_flatpak"@ {
        Some(Tweak::InstallFlatpak)
    } else if k == "firefox_ppa"@ {
        Some(Tweak::FirefoxPpa)
    } else if k == "telemetry_off"@ {
        Some(Tweak::TelemetryOff)
    } else if k == "apport_off"@ {
        Some(Tweak::ApportOff)
    } else if k == "motd_off"@ {
        Some(Tweak::MotdOff)
    } else if k == "swappiness_tuned"@ {
        Some(Tweak::SwappinessTuned)
    } else if k == "shutdown_fast"@ {
        Some(Tweak::ShutdownFast)
    } else if k == "ssd_trim"@ {
        Some(Tweak::SsdTrim)
    } else if k == "tracker_off"@ {
        Some(Tweak::TrackerOff)
    } else if k == "baloo_off"@ {
        Some(Tweak::BalooOff)
    } else if k == "bloat_removed"@ {
        Some(Tweak::BloatRemoved)
    } else {
        None
    }
}

impl Tweak {
    /// The position of this tweak in the catalogue.
    pub fn index(self) -> (i: usize)
        ensures
            i == tweak_index(self),
            i < TWEAK_COUNT,
    {
        match self {
            Tweak::RemoveSnap => 0,
            Tweak::InstallFlatpak => 1,
            Tweak::FirefoxPpa => 2,
            Tweak::TelemetryOff => 3,
            Tweak::ApportOff => 4,
            Tweak::MotdOff => 5,
            Tweak::SwappinessTuned => 6,
            Tweak::ShutdownFast => 7,
            Tweak::SsdTrim => 8,
            Tweak::TrackerOff => 9,
            Tweak::BalooOff => 10,
            Tweak::BloatRemoved => 11,
        }
    }

    /// The tweak at position `i` of the catalogue.
    pub fn from_index(i: usize) -> (t: Tweak)
        requires
            i < TWEAK_COUNT,
        ensures
            t == tweak_at(i as int),
            tweak_index(t) == i,
    {
        if i == 0 {
            Tweak::RemoveSnap
        } else if i == 1 {
            Tweak::InstallFlatpak
        } else if i == 2 {
            Tweak::FirefoxPpa
        } else if i == 3 {
            Tweak::TelemetryOff
        } else if i == 4 {
            Tweak::ApportOff
        } else if i == 5 {
            Tweak::MotdOff
        } else if i == 6 {
            Tweak::SwappinessTuned
        } else if i == 7 {
            Tweak::ShutdownFast
        } else if i == 8 {
            Tweak::SsdTrim
        } else if i == 9 {
            Tweak::TrackerOff
        } else if i == 10 {
            Tweak::BalooOff
        } else {
            Tweak::BloatRemoved
        }
    }

    /// The identifier of this tweak.
    pub fn key(self) -> (s: &'static str)
        ensures
            s@ == tweak_key(self),
    {
        match self {
            Tweak::RemoveSnap => "remove_snap",
            Tweak::InstallFlatpak => "install_flatpak",
            Tweak::FirefoxPpa => "firefox_ppa",
            Tweak::TelemetryOff => "telemetry_off",
            Tweak::ApportOff => "apport_off",
            Tweak::MotdOff => "motd_off",
            Tweak::SwappinessTuned => "swappiness_tuned",
            Tweak::ShutdownFast => "shutdown_fast",
            Tweak::SsdTrim => "ssd_trim",
            Tweak::TrackerOff => "tracker_off",
            Tweak::BalooOff => "baloo_off",
            Tweak::BloatRemoved => "bloat_removed",
        }
    }

    /// The human readable name of this tweak.
    pub fn label(self) -> (s: &'static str)
        ensures
            s@ == tweak_label(self),
    {
        match self {
            Tweak::RemoveSnap => "Remove Snap",
            Tweak::InstallFlatpak => "Install Flatpak",
            Tweak::FirefoxPpa => "Native Firefox",
            Tweak::TelemetryOff => "Disable telemetry",
            Tweak::ApportOff => "Disable crash popups",
            Tweak::MotdOff => "Remove terminal ads",
            Tweak::SwappinessTuned => "Tune swappiness",
            Tweak::ShutdownFast => "Shorten shutdown",
            Tweak::SsdTrim => "Enable SSD TRIM",
            Tweak::TrackerOff => "Disable file indexing",
            Tweak::BalooOff => "Disable Baloo indexing",
            Tweak::BloatRemoved => "Remove desktop bloat",
        }
    }

    /// The one line description of this tweak.
    pub fn description(self) -> (s: &'static str)
        ensures
            s@ == tweak_description(self),
    {
        match self {
            Tweak::RemoveSnap => "Uninstalls snapd, replaces snap apps with flatpak/apt",
            Tweak::InstallFlatpak => "Adds the open Flathub ecosystem",
            Tweak::FirefoxPpa => "Uses Mozilla's native repo instead of Snap",
            Tweak::TelemetryOff => "Stops ubuntu-report, popcon, geoclue",
            Tweak::ApportOff => "Turns off apport and whoopsie",
            Tweak::MotdOff => "Disables MOTD news and Ubuntu Pro banners",
            Tweak::SwappinessTuned => "Sets vm.swappiness=10 (prefer RAM over swap)",
            Tweak::ShutdownFast => "systemd timeout 10s instead of 90s",
            Tweak::SsdTrim => "Activates fstrim.timer",
            Tweak::TrackerOff => "Stops GNOME Tracker (GNOME only)",
            Tweak::BalooOff => "Stops KDE Baloo (KDE only)",
            Tweak::BloatRemoved => "Removes optional games and extras",
        }
    }

    /// The tweak whose identifier is `key`; `None` for any other text.
    pub fn from_key(key: &str) -> (t: Option<Tweak>)
        ensures
            t == tweak_of_key(key@),
    {
        if str_equals(key, "remove_snap") {
            Some(Tweak::RemoveSnap)
        } else if str_equals(key, "install_flatpak") {
            Some(Tweak::InstallFlatpak)
        } else if str_equals(key, "firefox_ppa") {
            Some(Tweak::FirefoxPpa)
        } else if str_equals(key, "telemetry_off") {
            Some(Tweak::TelemetryOff)
        } else if str_equals(key, "apport_off") {
            Some(Tweak::ApportOff)
        } else if str_equals(key, "motd_off") {
            Some(Tweak::MotdOff)
        } else if str_equals(key, "swappiness_tuned") {
            Some(Tweak::SwappinessTuned)
        } else if str_equals(key, "shutdown_fast") {
            Some(Tweak::ShutdownFast)
        } else if str_equals(key, "ssd_trim") {
            Some(Tweak::SsdTrim)
        } else if str_equals(key, "tracker_off") {
            Some(Tweak::TrackerOff)
        } else if str_equals(key, "baloo_off") {
            Some(Tweak::BalooOff)
        } else if str_equals(key, "bloat_removed") {
            Some(Tweak::BloatRemoved)
        } else {
            None
        }
    }
}

/// Each tweak is found again from its identifier.
pub proof fn lemma_key_round_trip(t: Tweak)
    ensures
        tweak_of_key(tweak_key(t)) == Some(t),
{
    match t {
        Tweak::RemoveSnap => {
            reveal_strlit("remove_snap");
        },
        Tweak::InstallFlatpak => {
            reveal_strlit("install_flatpak");
            reveal_strlit("remove_snap");
            assert("install_flatpak"@.len() != "remove_snap"@.len());
        },
        Tweak::FirefoxPpa => {
            reveal_strlit("firefox_ppa");
            reveal_strlit("remove_snap");
            assert("firefox_ppa"@[0] != "remove_snap"@[0]);
            reveal_strlit("install_flatpak");
            assert("firefox_ppa"@.len() != "install_flatpak"@.len());
        },
        Tweak::TelemetryOff => {
            reveal_strlit("telemetry_off");
            reveal_strlit("remove_snap");
            assert("telemetry_off"@.len() != "remove_snap"@.len());
            reveal_strlit("install_flatpak");
            assert("telemetry_off"@.len() != "install_flatpak"@.len());
            reveal_strlit("firefox_ppa");
            assert("telemetry_off"@.len() != "firefox_ppa"@.len());
        },
        Tweak::ApportOff => {
            reveal_strlit("apport_off");
            reveal_strlit("remove_snap");
            assert("apport_off"@.len() != "remove_snap"@.len());
            reveal_strlit("install_flatpak");
            assert("apport_off"@.len() != "install_flatpak"@.len());
            reveal_strlit("firefox_ppa");
            assert("apport_off"@.len() != "firefox_ppa"@.len());
            reveal_strlit("telemetry_off");
            assert("apport_off"@.len() != "telemetry_off"@.len());
        },
        Tweak::MotdOff => {
            reveal_strlit("motd_off");
            reveal_strlit("remove_snap");
            assert("motd_off"@.len() != "remove_snap"@.len());
            reveal_strlit("install_flatpak");
            assert("motd_off"@.len() != "install_flatpak"@.len());
            reveal_strlit("firefox_ppa");
            assert("motd_off"@.len() != "firefox_ppa"@.len());
            reveal_strlit("telemetry_off");
            assert("motd_off"@.len() != "telemetry_off"@.len());
            reveal_strlit("apport_off");
            assert("motd_off"@.len() != "apport_off"@.len());
        },
        Tweak::SwappinessTuned => {
            reveal_strlit("swappiness_tuned");
            reveal_strlit("remove_snap");
            assert("swappiness_tuned"@.len() != "remove_snap"@.len());
            reveal_strlit("install_flatpak");
            assert("swappiness_tuned"@.len() != "install_flatpak"@.len());
            reveal_strlit("firefox_ppa");
            assert("swappiness_tuned"@.len() != "firefox_ppa"@.len());
            reveal_strlit("telemetry_off");
            assert("swappiness_tuned"@.len() != "telemetry_off"@.len());
            reveal_strlit("apport_off");
            assert("swappiness_tuned"@.len() != "apport_off"@.len());
            reveal_strlit("motd_off");
            assert("swappiness_tuned"@.len() != "motd_off"@.len());
        },
        Tweak::ShutdownFast => {
            reveal_strlit("shutdown_fast");
            reveal_strlit("remove_snap");
            assert("shutdown_fast"@.len() != "remove_snap"@.len());
            reveal_strlit("install_flatpak");
            assert("shutdown_fast"@.len() != "install_flatpak"@.len());
            reveal_strlit("firefox_ppa");
            assert("shutdown_fast"@.len() != "firefox_ppa"@.len());
            reveal_strlit("telemetry_off");
            assert("shutdown_fast"@[0] != "telemetry_off"@[0]);
            reveal_strlit("apport_off");
            assert("shutdown_fast"@.len() != "apport_off"@.len());
            reveal_strlit("motd_off");
            assert("shutdown_fast"@.len() != "motd_off"@.len());
            reveal_strlit("swappiness_tuned");
            assert("shutdown_fast"@.len() != "swappiness_tuned"@.len());
        },
        Tweak::SsdTrim => {
            reveal_strlit("ssd_trim");
            reveal_strlit("remove_snap");
            assert("ssd_trim"@.len() != "remove_snap"@.len());
            reveal_strlit("install_flatpak");
            assert("ssd_trim"@.len() != "install_flatpak"@.len());
            reveal_strlit("firefox_ppa");
            assert("ssd_trim"@.len() != "firefox_ppa"@.len());
            reveal_strlit("telemetry_off");
            assert("ssd_trim"@.len() != "telemetry_off"@.len());
            reveal_strlit("apport_off");
            assert("ssd_trim"@.len() != "apport_off"@.len());
            reveal_strlit("motd_off");
            assert("ssd_trim"@[0] != "motd_off"@[0]);
            reveal_strlit("swappiness_tuned");
            assert("ssd_trim"@.len() != "swappiness_tuned"@.len());
            reveal_strlit("shutdown_fast");
            assert("ssd_trim"@.len() != "shutdown_fast"@.len());
        },
        Tweak::TrackerOff => {
            reveal_strlit("tracker_off");
            reveal_strlit("remove_snap");
            assert("tracker_off"@[0] != "remove_snap"@[0]);
            reveal_strlit("install_flatpak");
            assert("tracker_off"@.len() != "install_flatpak"@.len());
            reveal_strlit("firefox_ppa");
            assert("tracker_off"@[0] != "firefox_ppa"@[0]);
            reveal_strlit("telemetry_off");
            assert("tracker_off"@.len() != "telemetry_off"@.len());
            reveal_strlit("apport_off");
            assert("tracker_off"@.len() != "apport_off"@.len());
            reveal_strlit("motd_off");
            assert("tracker_off"@.len() != "motd_off"@.len());
            reveal_strlit("swappiness_tuned");
            assert("tracker_off"@.len() != "swappiness_tuned"@.len());
            reveal_strlit("shutdown_fast");
            assert("tracker_off"@.len() != "shutdown_fast"@.len());
            reveal_strlit("ssd_trim");
            assert("tracker_off"@.len() != "ssd_trim"@.len());
        },
        Tweak::BalooOff => {
            reveal_strlit("baloo_off");
            reveal_strlit("remove_snap");
            assert("baloo_off"@.len() != "remove_snap"@.len());
            reveal_strlit("install_flatpak");
            assert("baloo_off"@.len() != "install_flatpak"@.len());
            reveal_strlit("firefox_ppa");
            assert("baloo_off"@.len() != "firefox_ppa"@.len());
            reveal_strlit("telemetry_off");
            assert("baloo_off"@.len() != "telemetry_off"@.len());
            reveal_strlit("apport_off");
            assert("baloo_off"@.len() != "apport_off"@.len());
            reveal_strlit("motd_off");
            assert("baloo_off"@.len() != "motd_off"@.len());
            reveal_strlit("swappiness_tuned");
            assert("baloo_off"@.len() != "swappiness_tuned"@.len());
            reveal_strlit("shutdown_fast");
            assert("baloo_off"@.len() != "shutdown_fast"@.len());
            reveal_strlit("ssd_trim");
            assert("baloo_off"@.len() != "ssd_trim"@.len());
            reveal_strlit("tracker_off");
            assert("baloo_off"@.len() != "tracker_off"@.len());
        },
        Tweak::BloatRemoved => {
            reveal_strlit("bloat_removed");
            reveal_strlit("remove_snap");
            assert("bloat_removed"@.len() != "remove_snap"@.len());
            reveal_strlit("install_flatpak");
            assert("bloat_removed"@.len() != "install_flatpak"@.len());
            reveal_strlit("firefox_ppa");
            assert("bloat_removed"@.len() != "firefox_ppa"@.len());
            reveal_strlit("telemetry_off");
            assert("bloat_removed"@[0] != "telemetry_off"@[0]);
            reveal_strlit("apport_off");
            assert("bloat_removed"@.len() != "apport_off"@.len());
            reveal_strlit("motd_off");
            assert("bloat_removed"@.len() != "motd_off"@.len());
            reveal_strlit("swappiness_tuned");
            assert("bloat_removed"@.len() != "swappiness_tuned"@.len());
            reveal_strlit("shutdown_fast");
            assert("bloat_removed"@[0] != "shutdown_fast"@[0]);
            reveal_strlit("ssd_trim");
            assert("bloat_removed"@.len() != "ssd_trim"@.len());
            reveal_strlit("tracker_off");
            assert("bloat_removed"@.len() != "tracker_off"@.len());
            reveal_strlit("baloo_off");
            assert("bloat_removed"@.len() != "baloo_off"@.len());
        },
    }
}

/// Positions and tweaks correspond one to one.
pub proof fn lemma_index_round_trip(t: Tweak)
    ensures
        0 <= tweak_index(t) < TWEAK_COUNT,
        tweak_at(tweak_index(t)) == t,
{
}

/// The number of pages of the interface.
pub const PAGE_COUNT: usize = 5;

/// A page of the interface, each listing a group of tweaks.
#[derive(Clone, Copy, Debug, PartialEq, Eq, Structural)]
pub enum Page {
    Overview,
    Packages,
    Privacy,
    Performance,
    Desktop,
}

/// The position of a page in the tab order.
pub open spec fn page_index(v: Page) -> int {
    match v {
        Page::Overview => 0,
        Page::Packages => 1,
        Page::Privacy => 2,
        Page::Performance => 3,
        Page::Desktop => 4,
    }
}

/// The page at a position of the tab order.
pub open spec fn page_at(i: int) -> Page {
    if i == 0 {
        Page::Overview
    } else if i == 1 {
        Page::Packages
    } else if i == 2 {
        Page::Privacy
    } else if i == 3 {
        Page::Performance
    } else {
        Page::Desktop
    }
}

/// The title of a page.
pub open spec fn page_label(v: Page) -> Seq<char> {
    match v {
        Page::Overview => "Overview"@,
        Page::Packages => "Packages"@,
        Page::Privacy => "Privacy"@,
        Page::Performance => "Performance"@,
        Page::Desktop => "Desktop"@,
    }
}

/// The tweaks a page lists, before desktop filtering.
pub open spec fn page_rows(v: Page) -> Seq<Tweak> {
    match v {
        Page::Overview => seq![Tweak::RemoveSnap, Tweak::TelemetryOff, Tweak::SwappinessTuned],
        Page::Packages => seq![Tweak::InstallFlatpak, Tweak::FirefoxPpa],
        Page::Privacy => seq![Tweak::ApportOff, Tweak::MotdOff],
        Page::Performance => seq![Tweak::ShutdownFast, Tweak::SsdTrim],
        Page::Desktop => seq![Tweak::TrackerOff, Tweak::BalooOff, Tweak::BloatRemoved],
    }
}

/// The page after `v` in the tab order, wrapping around.
pub open spec fn page_after(v: Page) -> Page {
    page_at((page_index(v) + 1) % (PAGE_COUNT as int))
}

impl Page {
    /// The title of this page.
    pub fn label(self) -> (s: &'static str)
        ensures
            s@ == page_label(self),
    {
        match self {
            Page::Overview => "Overview",
            Page::Packages => "Packages",
            Page::Privacy => "Privacy",
            Page::Performance => "Performance",
            Page::Desktop => "Desktop",
        }
    }

    /// The tweaks this page lists, in order.
    pub fn rows(self) -> (r: Vec<Tweak>)
        ensures
            r@ == page_rows(self),
    {
        match self {
            Page::Overview => vec![Tweak::RemoveSnap, Tweak::TelemetryOff, Tweak::SwappinessTuned],
            Page::Packages => vec![Tweak::InstallFlatpak, Tweak::FirefoxPpa],
            Page::Privacy => vec![Tweak::ApportOff, Tweak::MotdOff],
            Page::Performance => vec![Tweak::ShutdownFast, Tweak::SsdTrim],
            Page::Desktop => vec![Tweak::TrackerOff, Tweak::BalooOff, Tweak::BloatRemoved],
        }
    }

    /// The position of this page in the tab order.
    pub fn position(self) -> (i: usize)
        ensures
            i == page_index(self),
            i < PAGE_COUNT,
    {
        match self {
            Page::Overview => 0,
            Page::Packages => 1,
            Page::Privacy => 2,
            Page::Performance => 3,
            Page::Desktop => 4,
        }
    }

    /// The page at position `i` of the tab order.
    pub fn from_position(i: usize) -> (v: Page)
        requires
            i < PAGE_COUNT,
        ensures
            v == page_at(i as int),
            page_index(v) == i,
    {
        if i == 0 {
            Page::Overview
        } else if i == 1 {
            Page::Packages
        } else if i == 2 {
            Page::Privacy
        } else if i == 3 {
            Page::Performance
        } else {
            Page::Desktop
        }
    }

    /// The page after this one in the tab order, wrapping around.
    pub fn next(self) -> (v: Page)
        ensures
            v == page_after(self),
    {
        Page::from_position((self.position() + 1) % PAGE_COUNT)
    }
}

/// Each page lists at least two and at most three tweaks.
pub proof fn lemma_page_rows_len(v: Page)
    ensures
        2 <= page_rows(v).len() <= 3,
{
}

/// Pressing to the next page five times comes back to the same page.
pub proof fn lemma_page_cycle(v: Page)
    ensures
        page_after(page_after(page_after(page_after(page_after(v))))) == v,
{
}

/// Every tweak is listed on exactly one page.
pub proof fn lemma_tweak_on_one_page(t: Tweak)
    ensures
        exists|v: Page| #[trigger] page_rows(v).contains(t),
        forall|v: Page, w: Page|
            page_rows(v).contains(t) && page_rows(w).contains(t) ==> v == w,
{
    let v = match t {
        Tweak::RemoveSnap | Tweak::TelemetryOff | Tweak::SwappinessTuned => Page::Overview,
        Tweak::InstallFlatpak | Tweak::FirefoxPpa => Page::Packages,
        Tweak::ApportOff | Tweak::MotdOff => Page::Privacy,
        Tweak::ShutdownFast | Tweak::SsdTrim => Page::Performance,
        _ => Page::Desktop,
    };
    assert(page_rows(v)[0] == t || page_rows(v)[1] == t || page_rows(v)[2] == t);
    assert(page_rows(v).contains(t));
    assert forall|v: Page, w: Page|
        page_rows(v).contains(t) && page_rows(w).contains(t) implies v == w by {
        let i = choose|i: int| 0 <= i < page_rows(v).len() && page_rows(v)[i] == t;
        let j = choose|j: int| 0 <= j < page_rows(w).len() && page_rows(w)[j] == t;
        assert(0 <= i < 3 && 0 <= j < 3);
    }
}

} // verus!
