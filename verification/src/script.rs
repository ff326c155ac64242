//! Assembly of the shell scripts that apply and undo the tweaks.

use vstd::prelude::*;
use vstd::string::*;
use crate::tweak::Tweak;
use crate::system::SystemInfo;
use crate::text::{signed_decimal, signed_decimal_string};
use crate::unicode::{utf8_lossy, decode_lossy};

verus! {

/// The first line of every apply script.
pub open spec fn script_header() -> Seq<char> {
    "echo '>>> Ubuntu Optimizer starting...'\n"@
}

/// The last line of every apply script.
pub open spec fn script_footer() -> Seq<char> {
    "echo '>>> Done.'\n"@
}

/// The shell commands that apply one tweak. The desktop indexers are only
/// touched on the desktop they belong to.
pub open spec fn script_fragment(t: Tweak, is_gnome: bool, is_kde: bool) -> Seq<char> {
    match t {
        Tweak::RemoveSnap => "systemctl stop snapd.service snapd.socket snapd.seeded.service 2>/dev/null || true\n\
                 systemctl disable snapd.service snapd.socket snapd.seeded.service 2>/dev/null || true\n\
                 apt-get purge -y snapd 2>/dev/null || apt purge -y snapd 2>/dev/null || true\n\
                 rm -rf /var/snap /var/lib/snapd /var/cache/snapd ~/snap\n\
                 printf 'Package: snapd\\nPin: release *\\nPin-Priority: -10\\n' > /etc/apt/preferences.d/nosnap.pref\n"@,
        Tweak::InstallFlatpak => "apt-get update -qq && apt-get install -y flatpak 2>/dev/null || true\n\
                 flatpak remote-add --if-not-exists flathub https://dl.flathub.org/repo/flathub.flatpakrepo 2>/dev/null || true\n"@,
        Tweak::FirefoxPpa => "install -d -m 0755 /etc/apt/keyrings\n\
                 wget -q https://packages.mozilla.org/apt/repo-signing-key.gpg -O /etc/apt/keyrings/packages.mozilla.org.asc 2>/dev/null || true\n\
                 echo 'deb [signed-by=/etc/apt/keyrings/packages.mozilla.org.asc] https://packages.mozilla.org/apt mozilla main' > /etc/apt/sources.list.d/mozilla.list\n\
                 printf 'Package: *\\nPin: origin packages.mozilla.org\\nPin-Priority: 1000\\n' > /etc/apt/preferences.d/mozilla\n\
                 apt-get update -qq && apt-get install -y firefox 2>/dev/null || true\n"@,
        Tweak::TelemetryOff => "apt-get purge -y ubuntu-report popularity-contest geoclue 2>/dev/null || true\n"@,
        Tweak::ApportOff => "systemctl stop apport whoopsie 2>/dev/null || true\n\
                 systemctl disable apport whoopsie 2>/dev/null || true\n\
                 sed -i 's/enabled=1/enabled=0/g' /etc/default/apport 2>/dev/null || true\n"@,
        Tweak::MotdOff => "chmod -x /etc/update-motd.d/50-motd-news /etc/update-motd.d/80-livepatch 2>/dev/null || true\n\
                 sed -i 's/ENABLED=1/ENABLED=0/g' /etc/default/motd-news 2>/dev/null || true\n"@,
        Tweak::SwappinessTuned => "sysctl -w vm.swappiness=10\n\
                 grep -q 'vm.swappiness' /etc/sysctl.conf && sed -i 's/vm.swappiness=.*/vm.swappiness=10/' /etc/sysctl.conf || echo 'vm.swappiness=10' >> /etc/sysctl.conf\n"@,
        Tweak::ShutdownFast => "grep -q 'DefaultTimeoutStopSec' /etc/systemd/system.conf && sed -i 's/.*DefaultTimeoutStopSec=.*/DefaultTimeoutStopSec=10s/' /etc/systemd/system.conf || echo 'DefaultTimeoutStopSec=10s' >> /etc/systemd/system.conf\n"@,
        Tweak::SsdTrim => "systemctl enable --now fstrim.timer 2>/dev/null || true\n"@,
        Tweak::TrackerOff => if is_gnome { "systemctl --user stop tracker-miner-fs-3.service tracker-extract-3.service 2>/dev/null || true\n\
                 systemctl --user mask tracker-miner-fs-3.service tracker-extract-3.service 2>/dev/null || true\n"@ } else { Seq::empty() },
        Tweak::BalooOff => if is_kde { "balooctl disable 2>/dev/null || balooctl purge 2>/dev/null || true\n"@ } else { Seq::empty() },
        Tweak::BloatRemoved => "apt-get purge -y aisleriot gnome-mahjongg gnome-mines gnome-sudoku shotwell kmines ksudoku 2>/dev/null || true\n\
                 apt-get autoremove -y 2>/dev/null || true\n"@,
    }
}

/// The commands of all the given tweaks, in order.
pub open spec fn script_fragments(keys: Seq<Tweak>, is_gnome: bool, is_kde: bool) -> Seq<char>
    decreases keys.len(),
{
    if keys.len() == 0 {
        Seq::empty()
    } else {
        script_fragments(keys.drop_last(), is_gnome, is_kde)
            + script_fragment(keys.last(), is_gnome, is_kde)
    }
}

/// The whole apply script for the given tweaks.
pub open spec fn script_text(keys: Seq<Tweak>, is_gnome: bool, is_kde: bool) -> Seq<char> {
    script_header() + script_fragments(keys, is_gnome, is_kde) + script_footer()
}

/// The script that puts the default settings back.
pub open spec fn restore_script_text() -> Seq<char> {
    "\
echo '>>> Restoring default settings...'
rm -f /etc/apt/preferences.d/nosnap.pref
sysctl -w vm.swappiness=60
sed -i 's/vm.swappiness=.*/vm.swappiness=60/' /etc/sysctl.conf || true
sed -i 's/DefaultTimeoutStopSec=.*/DefaultTimeoutStopSec=90s/' /etc/systemd/system.conf || true
sed -i 's/enabled=0/enabled=1/g' /etc/default/apport || true
systemctl enable apport 2>/dev/null || true
echo '>>> Defaults restored.'"@
}

/// The shell commands that apply one tweak on the given desktop.
pub fn script_fragment_for(t: Tweak, is_gnome: bool, is_kde: bool) -> (s: &'static str)
    ensures
        s@ == script_fragment(t, is_gnome, is_kde),
{
    proof {
        reveal_strlit("");
    }
    match t {
            Tweak::RemoveSnap => "systemctl stop snapd.service snapd.socket snapd.seeded.service 2>/dev/null || true\n\
                 systemctl disable snapd.service snapd.socket snapd.seeded.service 2>/dev/null || true\n\
                 apt-get purge -y snapd 2>/dev/null || apt purge -y snapd 2>/dev/null || true\n\
                 rm -rf /var/snap /var/lib/snapd /var/cache/snapd ~/snap\n\
                 printf 'Package: snapd\\nPin: release *\\nPin-Priority: -10\\n' > /etc/apt/preferences.d/nosnap.pref\n",
            Tweak::InstallFlatpak => "apt-get update -qq && apt-get install -y flatpak 2>/dev/null || true\n\
                 flatpak remote-add --if-not-exists flathub https://dl.flathub.org/repo/flathub.flatpakrepo 2>/dev/null || true\n",
            Tweak::FirefoxPpa => "install -d -m 0755 /etc/apt/keyrings\n\
                 wget -q https://packages.mozilla.org/apt/repo-signing-key.gpg -O /etc/apt/keyrings/packages.mozilla.org.asc 2>/dev/null || true\n\
                 echo 'deb [signed-by=/etc/apt/keyrings/packages.mozilla.org.asc] https://packages.mozilla.org/apt mozilla main' > /etc/apt/sources.list.d/mozilla.list\n\
                 printf 'Package: *\\nPin: origin packages.mozilla.org\\nPin-Priority: 1000\\n' > /etc/apt/preferences.d/mozilla\n\
                 apt-get update -qq && apt-get install -y firefox 2>/dev/null || true\n",
            Tweak::TelemetryOff => "apt-get purge -y ubuntu-report popularity-contest geoclue 2>/dev/null || true\n",
            Tweak::ApportOff => "systemctl stop apport whoopsie 2>/dev/null || true\n\
                 systemctl disable apport whoopsie 2>/dev/null || true\n\
                 sed -i 's/enabled=1/enabled=0/g' /etc/default/apport 2>/dev/null || true\n",
            Tweak::MotdOff => "chmod -x /etc/update-motd.d/50-motd-news /etc/update-motd.d/80-livepatch 2>/dev/null || true\n\
                 sed -i 's/ENABLED=1/ENABLED=0/g' /etc/default/motd-news 2>/dev/null || true\n",
            Tweak::SwappinessTuned => "sysctl -w vm.swappiness=10\n\
                 grep -q 'vm.swappiness' /etc/sysctl.conf && sed -i 's/vm.swappiness=.*/vm.swappiness=10/' /etc/sysctl.conf || echo 'vm.swappiness=10' >> /etc/sysctl.conf\n",
            Tweak::ShutdownFast => "grep -q 'DefaultTimeoutStopSec' /etc/systemd/system.conf && sed -i 's/.*DefaultTimeoutStopSec=.*/DefaultTimeoutStopSec=10s/' /etc/systemd/system.conf || echo 'DefaultTimeoutStopSec=10s' >> /etc/systemd/system.conf\n",
            Tweak::SsdTrim => "systemctl enable --now fstrim.timer 2>/dev/null || true\n",
            Tweak::TrackerOff => if is_gnome { "systemctl --user stop tracker-miner-fs-3.service tracker-extract-3.service 2>/dev/null || true\n\
                 systemctl --user mask tracker-miner-fs-3.service tracker-extract-3.service 2>/dev/null || true\n" } else { "" },
            Tweak::BalooOff => if is_kde { "balooctl disable 2>/dev/null || balooctl purge 2>/dev/null || true\n" } else { "" },
            Tweak::BloatRemoved => "apt-get purge -y aisleriot gnome-mahjongg gnome-mines gnome-sudoku shotwell kmines ksudoku 2>/dev/null || true\n\
                 apt-get autoremove -y 2>/dev/null || true\n",
    }
}

/// The script that applies `keys`, in order, on the given system.
pub fn build_script(keys: &[Tweak], info: &SystemInfo) -> (s: String)
    ensures
        s@ == script_text(keys@, info.is_gnome, info.is_kde),
{
    let is_gnome = info.is_gnome;
    let is_kde = info.is_kde;
    let mut s = String::from_str("echo '>>> Ubuntu Optimizer starting...'\n");
    let mut i: usize = 0;
    while i < keys.len()
        invariant
            i <= keys@.len(),
            s@ == script_header() + script_fragments(keys@.subrange(0, i as int), is_gnome, is_kde),
        decreases keys@.len() - i,
    {
        let frag = script_fragment_for(keys[i], is_gnome, is_kde);
        s.append(frag);
        proof {
            let pre = keys@.subrange(0, i as int);
            let next = keys@.subrange(0, i + 1);
            assert(next.drop_last() == pre);
            assert(next.last() == keys@[i as int]);
        }
        i += 1;
    }
    assert(keys@.subrange(0, keys@.len() as int) == keys@);
    s.append("echo '>>> Done.'\n");
    s
}

/// The script that puts the default settings back.
pub fn restore_script() -> (s: &'static str)
    ensures
        s@ == restore_script_text(),
{
    "\
echo '>>> Restoring default settings...'
rm -f /etc/apt/preferences.d/nosnap.pref
sysctl -w vm.swappiness=60
sed -i 's/vm.swappiness=.*/vm.swappiness=60/' /etc/sysctl.conf || true
sed -i 's/DefaultTimeoutStopSec=.*/DefaultTimeoutStopSec=90s/' /etc/systemd/system.conf || true
sed -i 's/enabled=0/enabled=1/g' /etc/default/apport || true
systemctl enable apport 2>/dev/null || true
echo '>>> Defaults restored.'"
}

/// The file a script body runs as: a bash script that stops at the first
/// failing command and never asks apt questions.
pub open spec fn framed_script(body: Seq<char>) -> Seq<char> {
    "#!/bin/bash\nset -e\nexport DEBIAN_FRONTEND=noninteractive\n"@ + body + "\n"@
}

/// How an exit code is shown: `Some(n)`, or `None` when the process had none.
pub open spec fn exit_code_text(code: Option<i32>) -> Seq<char> {
    match code {
        Some(n) => "Some("@ + signed_decimal(n as int) + ")"@,
        None => "None"@,
    }
}

/// What a finished script run reports: its output on success, otherwise the
/// exit code and both outputs.
pub open spec fn run_report(success: bool, code: Option<i32>, stdout: Seq<char>, stderr: Seq<char>) -> Result<Seq<char>, Seq<char>> {
    if success {
        Ok(stdout)
    } else {
        Err("Failed (exit "@ + exit_code_text(code) + "):\n"@ + stdout + "\n"@ + stderr)
    }
}

/// The view of a report.
pub open spec fn report_view(r: Result<String, String>) -> Result<Seq<char>, Seq<char>> {
    match r {
        Ok(t) => Ok(t@),
        Err(t) => Err(t@),
    }
}

/// The message when the script could not be started.
pub open spec fn launch_failure_text(err: Seq<char>) -> Seq<char> {
    "Failed to launch: "@ + err
}

/// The file a script body runs as.
pub fn frame_script(body: &str) -> (s: String)
    ensures
        s@ == framed_script(body@),
{
    let mut s = String::from_str("#!/bin/bash\nset -e\nexport DEBIAN_FRONTEND=noninteractive\n");
    s.append(body);
    s.append("\n");
    s
}

/// The program and the arguments before the script's path: root runs bash
/// itself, anyone else goes through sudo.
pub fn launcher(is_root: bool) -> (argv: Vec<&'static str>)
    ensures
        is_root ==> argv@.len() == 1 && argv@[0]@ == "bash"@,
        !is_root ==> argv@.len() == 2 && argv@[0]@ == "sudo"@ && argv@[1]@ == "bash"@,
{
    if is_root {
        vec!["bash"]
    } else {
        vec!["sudo", "bash"]
    }
}

/// How an exit code is shown.
pub fn exit_code_string(code: Option<i32>) -> (s: String)
    ensures
        s@ == exit_code_text(code),
{
    match code {
        Some(n) => {
            let mut s = String::from_str("Some(");
            let digits = signed_decimal_string(n);
            s.append(digits.as_str());
            s.append(")");
            s
        },
        None => String::from_str("None"),
    }
}

/// What a finished script run reports, from its decoded outputs.
pub fn script_report(success: bool, code: Option<i32>, stdout: String, stderr: &str) -> (r: Result<String, String>)
    ensures
        report_view(r) == run_report(success, code, stdout@, stderr@),
{
    if success {
        Ok(stdout)
    } else {
        let mut msg = String::from_str("Failed (exit ");
        let shown = exit_code_string(code);
        msg.append(shown.as_str());
        msg.append("):\n");
        msg.append(stdout.as_str());
        msg.append("\n");
        msg.append(stderr);
        Err(msg)
    }
}

/// What a finished script run reports, from its raw outputs.
pub fn script_outcome(success: bool, code: Option<i32>, stdout: &[u8], stderr: &[u8]) -> (r: Result<String, String>)
    ensures
        report_view(r) == run_report(success, code, utf8_lossy(stdout@), utf8_lossy(stderr@)),
{
    let out = decode_lossy(stdout);
    let err = decode_lossy(stderr);
    script_report(success, code, out, err.as_str())
}

/// The message when the script could not be started.
pub fn launch_failure(err: &str) -> (s: String)
    ensures
        s@ == launch_failure_text(err@),
{
    let mut s = String::from_str("Failed to launch: ");
    s.append(err);
    s
}

} // verus!
