//! What the tool knows of the machine: the detected system and the result of
//! a scan for optimizations that are already in place.

use vstd::prelude::*;
use vstd::string::*;
use crate::tweak::{Tweak, TWEAK_COUNT};
use crate::text::{
    Strip, has_text, begins_with, trimmed, remove_all, parse_i32, text_lines, strings_view,
    contains_str, starts_with_str, trim_str, remove_all_str, parse_i32_str, lines_of,
};
use crate::unicode::{uppercase, lowercase, utf8_lossy, to_upper, to_lower, decode_lossy};

verus! {

/// The distribution, the desktop session and the privileges of the user.
#[derive(Clone, Debug)]
pub struct SystemInfo {
    pub distro: String,
    pub desktop: String,
    pub is_gnome: bool,
    pub is_kde: bool,
    pub is_root: bool,
}

/// For each optimization, whether the system already has it.
#[derive(Clone, Copy, Debug, PartialEq, Eq, Structural)]
pub struct ScanResult {
    pub remove_snap: bool,
    pub install_flatpak: bool,
    pub firefox_ppa: bool,
    pub telemetry_off: bool,
    pub apport_off: bool,
    pub motd_off: bool,
    pub swappiness_tuned: bool,
    pub shutdown_fast: bool,
    pub ssd_trim: bool,
    pub tracker_off: bool,
    pub baloo_off: bool,
    pub bloat_removed: bool,
}

/// Whether the scan found tweak `t` already applied.
pub open spec fn scan_flag(s: ScanResult, t: Tweak) -> bool {
    match t {
        Tweak::RemoveSnap => s.remove_snap,
        Tweak::InstallFlatpak => s.install_flatpak,
        Tweak::FirefoxPpa => s.firefox_ppa,
        Tweak::TelemetryOff => s.telemetry_off,
        Tweak::ApportOff => s.apport_off,
        Tweak::MotdOff => s.motd_off,
        Tweak::SwappinessTuned => s.swappiness_tuned,
        Tweak::ShutdownFast => s.shutdown_fast,
        Tweak::SsdTrim => s.ssd_trim,
        Tweak::TrackerOff => s.tracker_off,
        Tweak::BalooOff => s.baloo_off,
        Tweak::BloatRemoved => s.bloat_removed,
    }
}

/// The flags of a scan in catalogue order.
pub open spec fn scan_flags(s: ScanResult) -> Seq<bool> {
    seq![
        s.remove_snap,
        s.install_flatpak,
        s.firefox_ppa,
        s.telemetry_off,
        s.apport_off,
        s.motd_off,
        s.swappiness_tuned,
        s.shutdown_fast,
        s.ssd_trim,
        s.tracker_off,
        s.baloo_off,
        s.bloat_removed,
    ]
}

/// How many entries of `s` are true.
pub open spec fn count_true(s: Seq<bool>) -> nat
    decreases s.len(),
{
    if s.len() == 0 {
        0
    } else {
        count_true(s.drop_last()) + if s.last() {
            1nat
        } else {
            0nat
        }
    }
}

/// How many optimizations the scan found applied.
pub open spec fn applied_total(s: ScanResult) -> nat {
    count_true(scan_flags(s))
}

/// A count of true entries never exceeds the length.
pub proof fn lemma_count_true_bound(s: Seq<bool>)
    ensures
        count_true(s) <= s.len(),
    decreases s.len(),
{
    if s.len() > 0 {
        lemma_count_true_bound(s.drop_last());
    }
}

/// The scan's applied count is at most the number of tweaks.
pub proof fn lemma_applied_total_bound(s: ScanResult)
    ensures
        applied_total(s) <= TWEAK_COUNT,
{
    lemma_count_true_bound(scan_flags(s));
}

impl ScanResult {
    /// Whether tweak `t` was found applied.
    pub fn flag(&self, t: Tweak) -> (b: bool)
        ensures
            b == scan_flag(*self, t),
    {
        match t {
            Tweak::RemoveSnap => self.remove_snap,
            Tweak::InstallFlatpak => self.install_flatpak,
            Tweak::FirefoxPpa => self.firefox_ppa,
            Tweak::TelemetryOff => self.telemetry_off,
            Tweak::ApportOff => self.apport_off,
            Tweak::MotdOff => self.motd_off,
            Tweak::SwappinessTuned => self.swappiness_tuned,
            Tweak::ShutdownFast => self.shutdown_fast,
            Tweak::SsdTrim => self.ssd_trim,
            Tweak::TrackerOff => self.tracker_off,
            Tweak::BalooOff => self.baloo_off,
            Tweak::BloatRemoved => self.bloat_removed,
        }
    }

    /// How many optimizations were found applied.
    pub fn applied_count(&self) -> (n: usize)
        ensures
            n == applied_total(*self),
            n <= TWEAK_COUNT,
    {
        let flags: [bool; 12] = [
            self.remove_snap,
            self.install_flatpak,
            self.firefox_ppa,
            self.telemetry_off,
            self.apport_off,
            self.motd_off,
            self.swappiness_tuned,
            self.shutdown_fast,
            self.ssd_trim,
            self.tracker_off,
            self.baloo_off,
            self.bloat_removed,
        ];
        assert(flags@ == scan_flags(*self));
        let mut n: usize = 0;
        let mut i: usize = 0;
        while i < 12
            invariant
                i <= 12,
                flags@ == scan_flags(*self),
                n == count_true(flags@.take(i as int)),
                n <= i,
            decreases 12 - i,
        {
            assert(flags@.take(i + 1).drop_last() == flags@.take(i as int));
            if flags[i] {
                n += 1;
            }
            i += 1;
        }
        assert(flags@.take(12) == flags@);
        n
    }
}

impl Default for ScanResult {
    /// A scan that found nothing applied.
    fn default() -> (s: ScanResult)
        ensures
            forall|t: Tweak| !scan_flag(s, t),
    {
        ScanResult {
            remove_snap: false,
            install_flatpak: false,
            firefox_ppa: false,
            telemetry_off: false,
            apport_off: false,
            motd_off: false,
            swappiness_tuned: false,
            shutdown_fast: false,
            ssd_trim: false,
            tracker_off: false,
            baloo_off: false,
            bloat_removed: false,
        }
    }
}

/// The first of `lines` that begins with `prefix`.
pub open spec fn first_with_prefix(lines: Seq<Seq<char>>, prefix: Seq<char>) -> Option<Seq<char>>
    decreases lines.len(),
{
    if lines.len() == 0 {
        None
    } else if begins_with(lines[0], prefix) {
        Some(lines[0])
    } else {
        first_with_prefix(lines.drop_first(), prefix)
    }
}

/// The distribution's display name in an os-release file: the value of the
/// first `PRETTY_NAME=` line without its quotes, or `Linux` when there is none.
pub open spec fn distro_name(os_release: Seq<char>) -> Seq<char> {
    match first_with_prefix(text_lines(os_release), "PRETTY_NAME="@) {
        Some(line) => trimmed(remove_all(line, "PRETTY_NAME="@), Strip::Only('"')),
        None => "Linux"@,
    }
}

/// Whether an upper-cased desktop name denotes a GNOME-based session.
pub open spec fn gnome_session(upper: Seq<char>) -> bool {
    has_text(upper, "GNOME"@) || has_text(upper, "UNITY"@) || has_text(upper, "BUDGIE"@)
}

/// Whether an upper-cased desktop name denotes a KDE session.
pub open spec fn kde_session(upper: Seq<char>) -> bool {
    has_text(upper, "KDE"@) || has_text(upper, "PLASMA"@)
}

/// The desktop name the session variables give: the first that is set, or
/// nothing.
pub open spec fn desktop_name(desktop_var: Option<String>, session_var: Option<String>) -> Seq<char> {
    match desktop_var {
        Some(d) => d@,
        None => match session_var {
            Some(d) => d@,
            None => Seq::empty(),
        },
    }
}

/// The display name of the distribution in the text of an os-release file.
pub fn distro_from_os_release(os_release: &str) -> (name: String)
    ensures
        name@ == distro_name(os_release@),
{
    let lines = lines_of(os_release);
    let ghost all = strings_view(lines@);
    let mut i: usize = 0;
    assert(all.skip(0) == all);
    while i < lines.len()
        invariant
            i <= lines@.len(),
            all == strings_view(lines@),
            all == text_lines(os_release@),
            first_with_prefix(all, "PRETTY_NAME="@) == first_with_prefix(all.skip(i as int), "PRETTY_NAME="@),
        decreases lines@.len() - i,
    {
        let ghost rest = all.skip(i as int);
        assert(rest[0] == lines@[i as int]@);
        if starts_with_str(lines[i].as_str(), "PRETTY_NAME=") {
            let value = remove_all_str(lines[i].as_str(), "PRETTY_NAME=");
            return trim_str(value.as_str(), Strip::Only('"'));
        }
        assert(rest.drop_first() == all.skip(i + 1));
        i += 1;
    }
    assert(all.skip(lines@.len() as int).len() == 0);
    String::from_str("Linux")
}

/// Whether an upper-cased desktop name denotes GNOME and whether it denotes KDE.
pub fn session_kind(upper: &str) -> (kind: (bool, bool))
    ensures
        kind.0 == gnome_session(upper@),
        kind.1 == kde_session(upper@),
{
    let is_gnome = contains_str(upper, "GNOME") || contains_str(upper, "UNITY") || contains_str(upper, "BUDGIE");
    let is_kde = contains_str(upper, "KDE") || contains_str(upper, "PLASMA");
    (is_gnome, is_kde)
}

/// Whether a desktop name, compared without case, denotes GNOME and whether
/// it denotes KDE.
pub fn detect_desktop(desktop: &str) -> (kind: (bool, bool))
    ensures
        kind.0 == gnome_session(uppercase(desktop@)),
        kind.1 == kde_session(uppercase(desktop@)),
{
    let upper = to_upper(desktop);
    session_kind(upper.as_str())
}

/// The detected system, from the session variables `XDG_CURRENT_DESKTOP` and
/// `DESKTOP_SESSION` (each `None` when unset), the text of the os-release
/// file (`None` when it cannot be read), and whether the user is root.
pub fn system_info_from(
    desktop_var: Option<String>,
    session_var: Option<String>,
    os_release: Option<String>,
    is_root: bool,
) -> (info: SystemInfo)
    ensures
        info.desktop@ == desktop_name(desktop_var, session_var),
        info.is_gnome == gnome_session(uppercase(info.desktop@)),
        info.is_kde == kde_session(uppercase(info.desktop@)),
        info.distro@ == distro_name(
            match os_release {
                Some(t) => t@,
                None => Seq::empty(),
            },
        ),
        info.is_root == is_root,
{
    let desktop = match desktop_var {
        Some(d) => d,
        None => match session_var {
            Some(d) => d,
            None => String::new(),
        },
    };
    let text = match os_release {
        Some(t) => t,
        None => String::new(),
    };
    let distro = distro_from_os_release(text.as_str());
    let kind = detect_desktop(desktop.as_str());
    SystemInfo { distro, desktop, is_gnome: kind.0, is_kde: kind.1, is_root }
}

/// What a scan looks at, gathered from the system as plain values.
#[derive(Clone, Debug)]
pub struct ScanProbe {
    /// `snap` is on the search path.
    pub snap_on_path: bool,
    /// The apt pin that blocks snapd exists.
    pub nosnap_pin: bool,
    /// `flatpak` is on the search path.
    pub flatpak_on_path: bool,
    /// Mozilla's apt source list exists.
    pub mozilla_source: bool,
    /// Mozilla's apt pin exists.
    pub mozilla_pin: bool,
    /// `ubuntu-report` is on the search path.
    pub ubuntu_report_on_path: bool,
    /// The text of the apport configuration, when it can be read.
    pub apport_config: Option<String>,
    /// The apport command line tool exists.
    pub apport_cli: bool,
    /// The MOTD news script exists.
    pub motd_news: bool,
    /// The text of the kernel's swappiness setting, when it can be read.
    pub swappiness: Option<String>,
    /// The text of systemd's system configuration, when it can be read.
    pub system_conf: Option<String>,
    /// What `systemctl is-enabled fstrim.timer` printed, when it ran.
    pub fstrim_state: Option<Vec<u8>>,
    /// What `systemctl --user is-masked` printed for the Tracker miner, when it ran.
    pub tracker_state: Option<Vec<u8>>,
    /// What `balooctl status` printed, when it ran.
    pub baloo_status: Option<Vec<u8>>,
    /// GNOME Mines is installed.
    pub gnome_mines: bool,
    /// KMines is installed.
    pub kmines: bool,
}

/// Whether a swappiness setting reads as a number of at most ten.
pub open spec fn swappiness_low(text: Seq<char>) -> bool {
    match parse_i32(trimmed(text, Strip::Whitespace)) {
        Some(v) => v <= 10,
        None => false,
    }
}

/// Whether a command's output, trimmed, is exactly `state`.
pub open spec fn reports_state(out: Seq<char>, state: Seq<char>) -> bool {
    trimmed(out, Strip::Whitespace) == state
}

/// Whether a lower-cased indexer status says it is off.
pub open spec fn indexer_off(lowered: Seq<char>) -> bool {
    has_text(lowered, "disabled"@) || has_text(lowered, "not running"@)
}

/// What a probe says of each optimization.
pub open spec fn scan_of(p: ScanProbe) -> ScanResult {
    ScanResult {
        remove_snap: !p.snap_on_path || p.nosnap_pin,
        install_flatpak: p.flatpak_on_path,
        firefox_ppa: p.mozilla_source || p.mozilla_pin,
        telemetry_off: !p.ubuntu_report_on_path,
        apport_off: match p.apport_config {
            Some(t) => has_text(t@, "enabled=0"@),
            None => !p.apport_cli,
        },
        motd_off: !p.motd_news,
        swappiness_tuned: match p.swappiness {
            Some(t) => swappiness_low(t@),
            None => false,
        },
        shutdown_fast: match p.system_conf {
            Some(t) => has_text(t@, "DefaultTimeoutStopSec=10s"@),
            None => false,
        },
        ssd_trim: match p.fstrim_state {
            Some(b) => reports_state(utf8_lossy(b@), "enabled"@),
            None => false,
        },
        tracker_off: match p.tracker_state {
            Some(b) => reports_state(utf8_lossy(b@), "masked"@),
            None => false,
        },
        baloo_off: match p.baloo_status {
            Some(b) => indexer_off(lowercase(utf8_lossy(b@))),
            None => false,
        },
        bloat_removed: !p.gnome_mines && !p.kmines,
    }
}

/// Whether a swappiness setting reads as a number of at most ten.
pub fn swappiness_is_low(text: &str) -> (b: bool)
    ensures
        b == swappiness_low(text@),
{
    let t = trim_str(text, Strip::Whitespace);
    match parse_i32_str(t.as_str()) {
        Some(v) => v <= 10,
        None => false,
    }
}

/// Whether a command's decoded output, trimmed, is exactly `state`.
pub fn output_reports(out: &str, state: &str) -> (b: bool)
    ensures
        b == reports_state(out@, state@),
{
    let t = trim_str(out, Strip::Whitespace);
    crate::text::str_equals(t.as_str(), state)
}

/// Whether a lower-cased indexer status says it is off.
pub fn indexer_reports_off(lowered: &str) -> (b: bool)
    ensures
        b == indexer_off(lowered@),
{
    contains_str(lowered, "disabled") || contains_str(lowered, "not running")
}

fn unit_output_is(out: &Option<Vec<u8>>, state: &str) -> (b: bool)
    ensures
        b == match out {
            Some(bytes) => reports_state(utf8_lossy(bytes@), state@),
            None => false,
        },
{
    match out {
        Some(bytes) => {
            let text = decode_lossy(bytes.as_slice());
            output_reports(text.as_str(), state)
        },
        None => false,
    }
}

/// What a probe says of each optimization.
pub fn evaluate_scan(p: &ScanProbe) -> (r: ScanResult)
    ensures
        r == scan_of(*p),
{
    let apport_off = match &p.apport_config {
        Some(t) => contains_str(t.as_str(), "enabled=0"),
        None => !p.apport_cli,
    };
    let swappiness_tuned = match &p.swappiness {
        Some(t) => swappiness_is_low(t.as_str()),
        None => false,
    };
    let shutdown_fast = match &p.system_conf {
        Some(t) => contains_str(t.as_str(), "DefaultTimeoutStopSec=10s"),
        None => false,
    };
    let ssd_trim = unit_output_is(&p.fstrim_state, "enabled");
    let tracker_off = unit_output_is(&p.tracker_state, "masked");
    let baloo_off = match &p.baloo_status {
        Some(bytes) => {
            let text = decode_lossy(bytes.as_slice());
            let lowered = to_lower(text.as_str());
            indexer_reports_off(lowered.as_str())
        },
        None => false,
    };
    ScanResult {
        remove_snap: !p.snap_on_path || p.nosnap_pin,
        install_flatpak: p.flatpak_on_path,
        firefox_ppa: p.mozilla_source || p.mozilla_pin,
        telemetry_off: !p.ubuntu_report_on_path,
        apport_off,
        motd_off: !p.motd_news,
        swappiness_tuned,
        shutdown_fast,
        ssd_trim,
        tracker_off,
        baloo_off,
        bloat_removed: !p.gnome_mines && !p.kmines,
    }
}

} // verus!
