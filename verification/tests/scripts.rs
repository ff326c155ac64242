use ubuntu_optimizer::script::{
    build_script, exit_code_string, frame_script, launch_failure, launcher, restore_script,
    script_fragment_for, script_outcome, script_report,
};
use ubuntu_optimizer::system::SystemInfo;
use ubuntu_optimizer::tweak::Tweak;

fn info(is_gnome: bool, is_kde: bool) -> SystemInfo {
    SystemInfo {
        distro: "Ubuntu".to_string(),
        desktop: "x".to_string(),
        is_gnome,
        is_kde,
        is_root: false,
    }
}

#[test]
fn script_for_one_tweak() {
    let s = build_script(&[Tweak::SsdTrim], &info(false, false));
    assert_eq!(
        s,
        "echo '>>> Ubuntu Optimizer starting...'\nsystemctl enable --now fstrim.timer 2>/dev/null || true\necho '>>> Done.'\n"
    );
}

#[test]
fn empty_script() {
    let s = build_script(&[], &info(true, true));
    assert_eq!(s, "echo '>>> Ubuntu Optimizer starting...'\necho '>>> Done.'\n");
}

#[test]
fn indexers_only_on_their_desktop() {
    let keys = [Tweak::TrackerOff, Tweak::BalooOff];
    let none = build_script(&keys, &info(false, false));
    assert_eq!(none, "echo '>>> Ubuntu Optimizer starting...'\necho '>>> Done.'\n");
    let gnome = build_script(&keys, &info(true, false));
    assert!(gnome.contains("tracker-miner-fs-3.service"));
    assert!(!gnome.contains("balooctl"));
    let kde = build_script(&keys, &info(false, true));
    assert!(kde.contains("balooctl disable"));
    assert!(!kde.contains("tracker"));
}

#[test]
fn fragments_in_order() {
    let keys = [Tweak::ShutdownFast, Tweak::SwappinessTuned, Tweak::RemoveSnap];
    let s = build_script(&keys, &info(false, false));
    let mut expected = String::from("echo '>>> Ubuntu Optimizer starting...'\n");
    for k in keys {
        expected.push_str(script_fragment_for(k, false, false));
    }
    expected.push_str("echo '>>> Done.'\n");
    assert_eq!(s, expected);
    let snap = script_fragment_for(Tweak::RemoveSnap, false, false);
    assert!(snap.starts_with("systemctl stop snapd.service"));
    assert!(snap.contains("printf 'Package: snapd\\nPin: release *\\nPin-Priority: -10\\n' > /etc/apt/preferences.d/nosnap.pref\n"));
    assert!(snap.contains("\napt-get purge -y snapd"));
}

#[test]
fn restore_script_text() {
    let s = restore_script();
    assert!(s.starts_with("echo '>>> Restoring default settings...'\nrm -f /etc/apt/preferences.d/nosnap.pref\n"));
    assert!(s.contains("sysctl -w vm.swappiness=60\n"));
    assert!(s.ends_with("echo '>>> Defaults restored.'"));
}

#[test]
fn framing_and_launch() {
    assert_eq!(
        frame_script("echo hi"),
        "#!/bin/bash\nset -e\nexport DEBIAN_FRONTEND=noninteractive\necho hi\n"
    );
    assert_eq!(launcher(true), vec!["bash"]);
    assert_eq!(launcher(false), vec!["sudo", "bash"]);
    assert_eq!(launch_failure("No such file"), "Failed to launch: No such file");
}

#[test]
fn exit_codes_print_like_debug() {
    for c in [Some(1), Some(-3), Some(0), None, Some(i32::MIN)] {
        assert_eq!(exit_code_string(c), format!("{:?}", c));
    }
}

#[test]
fn run_reports() {
    assert_eq!(script_report(true, Some(0), "out".to_string(), "err"), Ok("out".to_string()));
    assert_eq!(
        script_report(false, Some(2), "out".to_string(), "err"),
        Err("Failed (exit Some(2)):\nout\nerr".to_string())
    );
    assert_eq!(
        script_outcome(false, None, b"o", b"e\xff"),
        Err("Failed (exit None):\no\ne\u{fffd}".to_string())
    );
    assert_eq!(script_outcome(true, Some(0), b"done\n", b""), Ok("done\n".to_string()));
}
