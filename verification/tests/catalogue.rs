use ubuntu_optimizer::tweak::{Page, Tweak, TWEAK_COUNT, PAGE_COUNT};

const ALL: [Tweak; 12] = [
    Tweak::RemoveSnap,
    Tweak::InstallFlatpak,
    Tweak::FirefoxPpa,
    Tweak::TelemetryOff,
    Tweak::ApportOff,
    Tweak::MotdOff,
    Tweak::SwappinessTuned,
    Tweak::ShutdownFast,
    Tweak::SsdTrim,
    Tweak::TrackerOff,
    Tweak::BalooOff,
    Tweak::BloatRemoved,
];

#[test]
fn keys_round_trip() {
    for t in ALL {
        assert_eq!(Tweak::from_key(t.key()), Some(t));
    }
    assert_eq!(Tweak::from_key("remove_snaps"), None);
    assert_eq!(Tweak::from_key(""), None);
    assert_eq!(Tweak::from_key("Remove_snap"), None);
}

#[test]
fn indices_round_trip() {
    for (i, t) in ALL.iter().enumerate() {
        assert_eq!(t.index(), i);
        assert_eq!(Tweak::from_index(i), *t);
    }
    assert_eq!(ALL.len(), TWEAK_COUNT);
}

#[test]
fn catalogue_texts() {
    assert_eq!(Tweak::RemoveSnap.key(), "remove_snap");
    assert_eq!(Tweak::RemoveSnap.label(), "Remove Snap");
    assert_eq!(
        Tweak::RemoveSnap.description(),
        "Uninstalls snapd, replaces snap apps with flatpak/apt"
    );
    assert_eq!(Tweak::SwappinessTuned.description(), "Sets vm.swappiness=10 (prefer RAM over swap)");
    assert_eq!(Tweak::BalooOff.label(), "Disable Baloo indexing");
    assert_eq!(Tweak::TrackerOff.description(), "Stops GNOME Tracker (GNOME only)");
}

#[test]
fn pages_list_their_rows() {
    assert_eq!(
        Page::Overview.rows(),
        vec![Tweak::RemoveSnap, Tweak::TelemetryOff, Tweak::SwappinessTuned]
    );
    assert_eq!(Page::Packages.rows(), vec![Tweak::InstallFlatpak, Tweak::FirefoxPpa]);
    assert_eq!(Page::Privacy.rows(), vec![Tweak::ApportOff, Tweak::MotdOff]);
    assert_eq!(Page::Performance.rows(), vec![Tweak::ShutdownFast, Tweak::SsdTrim]);
    assert_eq!(
        Page::Desktop.rows(),
        vec![Tweak::TrackerOff, Tweak::BalooOff, Tweak::BloatRemoved]
    );
    let mut seen = Vec::new();
    for i in 0..PAGE_COUNT {
        seen.extend(Page::from_position(i).rows());
    }
    for t in ALL {
        assert_eq!(seen.iter().filter(|x| **x == t).count(), 1);
    }
}

#[test]
fn page_titles_and_order() {
    assert_eq!(Page::Overview.label(), "Overview");
    assert_eq!(Page::Performance.label(), "Performance");
    assert_eq!(Page::Overview.next(), Page::Packages);
    assert_eq!(Page::Desktop.next(), Page::Overview);
    let mut p = Page::Privacy;
    for _ in 0..5 {
        p = p.next();
    }
    assert_eq!(p, Page::Privacy);
    for i in 0..PAGE_COUNT {
        assert_eq!(Page::from_position(i).position(), i);
    }
}
