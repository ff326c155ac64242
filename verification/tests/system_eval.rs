use ubuntu_optimizer::system::{
    detect_desktop, distro_from_os_release, evaluate_scan, indexer_reports_off, output_reports,
    session_kind, swappiness_is_low, system_info_from, ScanProbe, ScanResult,
};
use ubuntu_optimizer::tweak::Tweak;

fn quiet_probe() -> ScanProbe {
    ScanProbe {
        snap_on_path: true,
        nosnap_pin: false,
        flatpak_on_path: false,
        mozilla_source: false,
        mozilla_pin: false,
        ubuntu_report_on_path: true,
        apport_config: None,
        apport_cli: true,
        motd_news: true,
        swappiness: None,
        system_conf: None,
        fstrim_state: None,
        tracker_state: None,
        baloo_status: None,
        gnome_mines: true,
        kmines: false,
    }
}

#[test]
fn distro_name_from_os_release() {
    let text = "NAME=\"Ubuntu\"\nPRETTY_NAME=\"Ubuntu 26.04 LTS\"\nID=ubuntu\n";
    assert_eq!(distro_from_os_release(text), "Ubuntu 26.04 LTS");
    assert_eq!(distro_from_os_release("NAME=Debian\n"), "Linux");
    assert_eq!(distro_from_os_release(""), "Linux");
    assert_eq!(distro_from_os_release("PRETTY_NAME=Arch\r\nPRETTY_NAME=Other"), "Arch");
    assert_eq!(distro_from_os_release("X=1\nPRETTY_NAME=\"A PRETTY_NAME=B\""), "A B");
}

#[test]
fn desktop_detection() {
    assert_eq!(detect_desktop("ubuntu:GNOME"), (true, false));
    assert_eq!(detect_desktop("KDE"), (false, true));
    assert_eq!(detect_desktop("plasma"), (false, true));
    assert_eq!(detect_desktop("Budgie:GNOME"), (true, false));
    assert_eq!(detect_desktop("unity"), (true, false));
    assert_eq!(detect_desktop("XFCE"), (false, false));
    assert_eq!(detect_desktop(""), (false, false));
    assert_eq!(session_kind("plasma"), (false, false));
    assert_eq!(session_kind("PLASMA"), (false, true));
}

#[test]
fn system_info_choices() {
    let info = system_info_from(None, Some("plasma".to_string()), None, false);
    assert_eq!(info.desktop, "plasma");
    assert!(info.is_kde && !info.is_gnome);
    assert_eq!(info.distro, "Linux");
    assert!(!info.is_root);
    let info = system_info_from(
        Some("GNOME".to_string()),
        Some("plasma".to_string()),
        Some("PRETTY_NAME=\"Ubuntu\"".to_string()),
        true,
    );
    assert_eq!(info.desktop, "GNOME");
    assert!(info.is_gnome && !info.is_kde && info.is_root);
    assert_eq!(info.distro, "Ubuntu");
    let info = system_info_from(None, None, None, false);
    assert_eq!(info.desktop, "");
}

#[test]
fn nothing_applied_on_a_stock_system() {
    let r = evaluate_scan(&quiet_probe());
    assert_eq!(r, ScanResult::default());
    assert_eq!(r.applied_count(), 0);
}

#[test]
fn every_probe_reading() {
    let mut p = quiet_probe();
    p.snap_on_path = false;
    p.flatpak_on_path = true;
    p.mozilla_pin = true;
    p.ubuntu_report_on_path = false;
    p.apport_config = Some("# comment\nenabled=0\n".to_string());
    p.motd_news = false;
    p.swappiness = Some("10\n".to_string());
    p.system_conf = Some("[Manager]\nDefaultTimeoutStopSec=10s\n".to_string());
    p.fstrim_state = Some(b"  enabled\n".to_vec());
    p.tracker_state = Some(b"masked\n".to_vec());
    p.baloo_status = Some(b"Baloo File Indexer is DISABLED\n".to_vec());
    p.gnome_mines = false;
    let r = evaluate_scan(&p);
    for t in 0..12 {
        assert!(r.flag(Tweak::from_index(t)), "tweak {}", t);
    }
    assert_eq!(r.applied_count(), 12);
}

#[test]
fn probe_edge_readings() {
    let mut p = quiet_probe();
    p.snap_on_path = true;
    p.nosnap_pin = true;
    p.apport_config = Some("enabled=1\n".to_string());
    p.apport_cli = false;
    p.swappiness = Some("60".to_string());
    p.fstrim_state = Some(b"disabled\n".to_vec());
    p.baloo_status = Some(b"Baloo is Not Running".to_vec());
    let r = evaluate_scan(&p);
    assert!(r.remove_snap);
    assert!(!r.apport_off);
    assert!(!r.swappiness_tuned);
    assert!(!r.ssd_trim);
    assert!(r.baloo_off);
    p.apport_config = None;
    assert!(evaluate_scan(&p).apport_off);
    p.swappiness = Some("abc".to_string());
    assert!(!evaluate_scan(&p).swappiness_tuned);
    p.swappiness = Some(" -5 ".to_string());
    assert!(evaluate_scan(&p).swappiness_tuned);
    p.fstrim_state = Some(vec![0xff, b'e']);
    assert!(!evaluate_scan(&p).ssd_trim);
}

#[test]
fn helpers_on_decoded_text() {
    assert!(swappiness_is_low("\t0\n"));
    assert!(!swappiness_is_low("11"));
    assert!(output_reports("masked\n", "masked"));
    assert!(!output_reports("unmasked", "masked"));
    assert!(indexer_reports_off("not running"));
    assert!(!indexer_reports_off("Not Running"));
}

#[test]
fn case_and_decoding_through_the_scan() {
    // upper-casing: a lower-case desktop name is recognised
    assert_eq!(detect_desktop("ubuntu:gnome"), (true, false));
    // lower-casing and decoding: mixed case and invalid bytes in an indexer status
    let mut p = quiet_probe();
    p.baloo_status = Some(b"\xffBaloo: DISABLED".to_vec());
    assert!(evaluate_scan(&p).baloo_off);
    p.baloo_status = Some(b"Baloo: running".to_vec());
    assert!(!evaluate_scan(&p).baloo_off);
    // whitespace of the whole Unicode table is trimmed from a unit state
    p.tracker_state = Some("\u{3000}masked\u{a0}".as_bytes().to_vec());
    assert!(evaluate_scan(&p).tracker_off);
}
