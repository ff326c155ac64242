//! Properties that relate several operations of the optimizer.

use vstd::prelude::*;
use crate::app::{
    App, Key, cursor_after_key, cursor_in, keep_on_page, page_after_key, shown, shown_on,
    toggle_in, visible_rows_for, waiting_in,
};
use crate::system::{
    ScanProbe, ScanResult, applied_total, gnome_session, kde_session, count_true, scan_flag, scan_flags, scan_of,
};
use crate::script::{restore_script_text, script_fragment, script_fragments, script_text};
use crate::text::{
    Strip, all_digits, begins_with, leading_strip, strips, trailing_strip, decimal, digit_char, digits_value, has_text, parse_i32,
    signed_decimal, trimmed,
};
use crate::display::{marker_text, row_state, status_text};
use crate::unicode::{lowercase, utf8_lossy};
use crate::tweak::{
    Page, Tweak, TWEAK_COUNT, tweak_at, tweak_index, page_rows, lemma_page_cycle, lemma_index_round_trip,
    page_label, tweak_description, tweak_key, tweak_label,
};

verus! {

/// Toggling the row under the same cursor twice leaves the selection as it was.
pub proof fn law_toggle_twice(sel: Seq<bool>, rows: Seq<Tweak>, i: int, scan: ScanResult)
    requires
        sel.len() == TWEAK_COUNT,
    ensures
        toggle_in(toggle_in(sel, rows, i, scan), rows, i, scan) == sel,
{
    if rows.len() > 0 && !scan_flag(scan, cursor_in(rows, i)) {
        let k = tweak_index(cursor_in(rows, i));
        assert(sel.update(k, !sel[k]).update(k, sel[k]) =~= sel);
    }
}

/// A tweak the scan found applied is never selected by toggling.
pub proof fn law_toggle_skips_applied(
    sel: Seq<bool>,
    rows: Seq<Tweak>,
    i: int,
    scan: ScanResult,
    t: Tweak,
)
    requires
        sel.len() == TWEAK_COUNT,
        scan_flag(scan, t),
    ensures
        toggle_in(sel, rows, i, scan)[tweak_index(t)] == sel[tweak_index(t)],
{
}

/// Toggling touches no tweak but the one under the cursor.
pub proof fn law_toggle_is_local(
    sel: Seq<bool>,
    rows: Seq<Tweak>,
    i: int,
    scan: ScanResult,
    t: Tweak,
)
    requires
        sel.len() == TWEAK_COUNT,
        rows.len() == 0 || t != cursor_in(rows, i),
    ensures
        toggle_in(sel, rows, i, scan)[tweak_index(t)] == sel[tweak_index(t)],
{
}

/// On a page with rows, moving down undoes moving up and moving up undoes
/// moving down.
pub proof fn law_up_down_inverse(i: int, len: int)
    requires
        0 <= i < len,
    ensures
        cursor_after_key(Key::Down, cursor_after_key(Key::Up, i, len), len) == i,
        cursor_after_key(Key::Up, cursor_after_key(Key::Down, i, len), len) == i,
{
    vstd::arithmetic::div_mod::lemma_mod_bound(i + len - 1, len);
    vstd::arithmetic::div_mod::lemma_mod_bound(i + 1, len);
    if i == 0 {
        vstd::arithmetic::div_mod::lemma_small_mod((len - 1) as nat, len as nat);
        vstd::arithmetic::div_mod::lemma_mod_self_0(len);
    } else {
        vstd::arithmetic::div_mod::lemma_mod_add_multiples_vanish(i - 1, len);
        vstd::arithmetic::div_mod::lemma_small_mod((i - 1) as nat, len as nat);
        vstd::arithmetic::div_mod::lemma_small_mod(i as nat, len as nat);
    }
    if i + 1 < len {
        vstd::arithmetic::div_mod::lemma_small_mod((i + 1) as nat, len as nat);
        vstd::arithmetic::div_mod::lemma_mod_add_multiples_vanish(i, len);
        vstd::arithmetic::div_mod::lemma_small_mod(i as nat, len as nat);
    } else {
        vstd::arithmetic::div_mod::lemma_mod_self_0(len);
        vstd::arithmetic::div_mod::lemma_small_mod((len - 1) as nat, len as nat);
    }
}

/// After a key that moves the cursor, the cursor is on a row of the page.
pub proof fn law_cursor_stays_on_page(key: Key, i: int, len: int)
    requires
        0 <= i,
        0 < len,
        key == Key::Up || key == Key::Down || key == Key::Char('k') || key == Key::Char('j')
            || key == Key::Tab,
    ensures
        0 <= keep_on_page(cursor_after_key(key, i, len), len) < len,
{
    vstd::arithmetic::div_mod::lemma_mod_bound(i + len - 1, len);
    vstd::arithmetic::div_mod::lemma_mod_bound(i + 1, len);
}

/// Five presses of Tab come back to the page they started on.
pub proof fn law_tab_cycles(p: Page)
    ensures
        page_after_key(
            Key::Tab,
            page_after_key(
                Key::Tab,
                page_after_key(Key::Tab, page_after_key(Key::Tab, page_after_key(Key::Tab, p))),
            ),
        ) == p,
{
    lemma_page_cycle(p);
}

/// A page shows exactly those of its rows that fit the desktop: the GNOME
/// indexer only on GNOME and the KDE indexer only on KDE.
pub proof fn law_rows_shown(p: Page, is_gnome: bool, is_kde: bool, t: Tweak)
    ensures
        visible_rows_for(p, is_gnome, is_kde).contains(t) <==> (page_rows(p).contains(t)
            && shown(t, is_gnome, is_kde)),
{
    let rows = page_rows(p);
    let pred = shown_on(is_gnome, is_kde);
    let f = rows.filter(pred);
    if f.contains(t) {
        rows.lemma_filter_contains_rev(pred, t);
        let j = choose|j: int| 0 <= j < f.len() && f[j] == t;
        rows.lemma_filter_pred(pred, j);
    }
    if rows.contains(t) && shown(t, is_gnome, is_kde) {
        let i = choose|i: int| 0 <= i < rows.len() && rows[i] == t;
        rows.lemma_filter_contains(pred, i);
    }
}

/// With nothing selected, no row of the page is waiting to be applied.
pub proof fn law_nothing_pending_without_selection(app: App)
    requires
        forall|t: Tweak| !app.marked(t),
    ensures
        app.pending_rows().len() == 0,
{
    let rows = app.rows_shown();
    let pred = waiting_in(app.selected@, app.scan);
    let f = rows.filter(pred);
    if f.len() > 0 {
        rows.lemma_filter_pred(pred, 0);
        assert(pred(f[0]));
        assert(app.marked(f[0]));
    }
}

/// The apply step offers exactly the rows of the current page that are shown
/// and selected; a tweak the last scan found applied is skipped.
pub proof fn law_pending_rows(app: App, t: Tweak)
    ensures
        app.pending_rows().contains(t) <==> (app.rows_shown().contains(t) && app.marked(t)
            && !scan_flag(app.scan, t)),
{
    let rows = app.rows_shown();
    let pred = waiting_in(app.selected@, app.scan);
    let f = rows.filter(pred);
    if f.contains(t) {
        rows.lemma_filter_contains_rev(pred, t);
        let j = choose|j: int| 0 <= j < f.len() && f[j] == t;
        rows.lemma_filter_pred(pred, j);
    }
    if rows.contains(t) && app.marked(t) && !scan_flag(app.scan, t) {
        let i = choose|i: int| 0 <= i < rows.len() && rows[i] == t;
        rows.lemma_filter_contains(pred, i);
    }
}

/// The rows each page shows: every page but the desktop one shows all its
/// rows; the desktop page shows the GNOME indexer on GNOME, the KDE indexer on
/// KDE, and the bloat removal always.
pub proof fn law_rows_shown_per_page(p: Page, is_gnome: bool, is_kde: bool)
    ensures
        p != Page::Desktop ==> visible_rows_for(p, is_gnome, is_kde) == page_rows(p),
        p == Page::Desktop ==> visible_rows_for(p, is_gnome, is_kde) == (if is_gnome {
            seq![Tweak::TrackerOff]
        } else {
            Seq::empty()
        }) + (if is_kde {
            seq![Tweak::BalooOff]
        } else {
            Seq::empty()
        }) + seq![Tweak::BloatRemoved],
{
    reveal_with_fuel(Seq::<_>::filter, 4);
    let rows = page_rows(p);
    assert(rows.drop_last().drop_last().drop_last().len() == 0 || rows.len() == 2);
    if rows.len() == 3 {
        assert(rows.drop_last().drop_last().drop_last() =~= Seq::<Tweak>::empty());
    } else {
        assert(rows.drop_last().drop_last() =~= Seq::<Tweak>::empty());
    }
    assert(rows.drop_last() =~= rows.subrange(0, rows.len() - 1));
    if p == Page::Desktop {
        assert(visible_rows_for(p, is_gnome, is_kde) =~= (if is_gnome {
            seq![Tweak::TrackerOff]
        } else {
            Seq::empty()
        }) + (if is_kde {
            seq![Tweak::BalooOff]
        } else {
            Seq::empty()
        }) + seq![Tweak::BloatRemoved]);
    } else {
        assert(visible_rows_for(p, is_gnome, is_kde) =~= page_rows(p));
    }
}

/// The commands each tweak adds to an apply script, on any desktop: the
/// GNOME indexer's only on GNOME, the KDE indexer's only on KDE, and every
/// other tweak's always the same.
pub proof fn law_fragment_texts(is_gnome: bool, is_kde: bool)
    ensures
        script_fragment(Tweak::RemoveSnap, is_gnome, is_kde) == "systemctl stop snapd.service snapd.socket snapd.seeded.service 2>/dev/null || true\n\
                 systemctl disable snapd.service snapd.socket snapd.seeded.service 2>/dev/null || true\n\
                 apt-get purge -y snapd 2>/dev/null || apt purge -y snapd 2>/dev/null || true\n\
                 rm -rf /var/snap /var/lib/snapd /var/cache/snapd ~/snap\n\
                 printf 'Package: snapd\\nPin: release *\\nPin-Priority: -10\\n' > /etc/apt/preferences.d/nosnap.pref\n"@,
        script_fragment(Tweak::InstallFlatpak, is_gnome, is_kde) == "apt-get update -qq && apt-get install -y flatpak 2>/dev/null || true\n\
                 flatpak remote-add --if-not-exists flathub https://dl.flathub.org/repo/flathub.flatpakrepo 2>/dev/null || true\n"@,
        script_fragment(Tweak::FirefoxPpa, is_gnome, is_kde) == "install -d -m 0755 /etc/apt/keyrings\n\
                 wget -q https://packages.mozilla.org/apt/repo-signing-key.gpg -O /etc/apt/keyrings/packages.mozilla.org.asc 2>/dev/null || true\n\
                 echo 'deb [signed-by=/etc/apt/keyrings/packages.mozilla.org.asc] https://packages.mozilla.org/apt mozilla main' > /etc/apt/sources.list.d/mozilla.list\n\
                 printf 'Package: *\\nPin: origin packages.mozilla.org\\nPin-Priority: 1000\\n' > /etc/apt/preferences.d/mozilla\n\
                 apt-get update -qq && apt-get install -y firefox 2>/dev/null || true\n"@,
        script_fragment(Tweak::TelemetryOff, is_gnome, is_kde) == "apt-get purge -y ubuntu-report popularity-contest geoclue 2>/dev/null || true\n"@,
        script_fragment(Tweak::ApportOff, is_gnome, is_kde) == "systemctl stop apport whoopsie 2>/dev/null || true\n\
                 systemctl disable apport whoopsie 2>/dev/null || true\n\
                 sed -i 's/enabled=1/enabled=0/g' /etc/default/apport 2>/dev/null || true\n"@,
        script_fragment(Tweak::MotdOff, is_gnome, is_kde) == "chmod -x /etc/update-motd.d/50-motd-news /etc/update-motd.d/80-livepatch 2>/dev/null || true\n\
                 sed -i 's/ENABLED=1/ENABLED=0/g' /etc/default/motd-news 2>/dev/null || true\n"@,
        script_fragment(Tweak::SwappinessTuned, is_gnome, is_kde) == "sysctl -w vm.swappiness=10\n\
                 grep -q 'vm.swappiness' /etc/sysctl.conf && sed -i 's/vm.swappiness=.*/vm.swappiness=10/' /etc/sysctl.conf || echo 'vm.swappiness=10' >> /etc/sysctl.conf\n"@,
        script_fragment(Tweak::ShutdownFast, is_gnome, is_kde) == "grep -q 'DefaultTimeoutStopSec' /etc/systemd/system.conf && sed -i 's/.*DefaultTimeoutStopSec=.*/DefaultTimeoutStopSec=10s/' /etc/systemd/system.conf || echo 'DefaultTimeoutStopSec=10s' >> /etc/systemd/system.conf\n"@,
        script_fragment(Tweak::SsdTrim, is_gnome, is_kde) == "systemctl enable --now fstrim.timer 2>/dev/null || true\n"@,
        script_fragment(Tweak::TrackerOff, is_gnome, is_kde) == (if is_gnome {
            "systemctl --user stop tracker-miner-fs-3.service tracker-extract-3.service 2>/dev/null || true\n\
                 systemctl --user mask tracker-miner-fs-3.service tracker-extract-3.service 2>/dev/null || true\n"@
        } else {
            Seq::empty()
        }),
        script_fragment(Tweak::BalooOff, is_gnome, is_kde) == (if is_kde {
            "balooctl disable 2>/dev/null || balooctl purge 2>/dev/null || true\n"@
        } else {
            Seq::empty()
        }),
        script_fragment(Tweak::BloatRemoved, is_gnome, is_kde) == "apt-get purge -y aisleriot gnome-mahjongg gnome-mines gnome-sudoku shotwell kmines ksudoku 2>/dev/null || true\n\
                 apt-get autoremove -y 2>/dev/null || true\n"@,
{
}

/// Every tweak but the two desktop indexers adds commands to the script,
/// whatever the desktop: a script for it alone is longer than an empty one.
pub proof fn law_fragment_adds_commands(t: Tweak, is_gnome: bool, is_kde: bool)
    requires
        t != Tweak::TrackerOff,
        t != Tweak::BalooOff,
    ensures
        script_fragment(t, is_gnome, is_kde).len() > 0,
        script_text(seq![t], is_gnome, is_kde).len() > script_text(Seq::empty(), is_gnome, is_kde).len(),
{
    law_fragment_texts(is_gnome, is_kde);
    reveal_strlit("systemctl stop snapd.service snapd.socket snapd.seeded.service 2>/dev/null || true\n\
                 systemctl disable snapd.service snapd.socket snapd.seeded.service 2>/dev/null || true\n\
                 apt-get purge -y snapd 2>/dev/null || apt purge -y snapd 2>/dev/null || true\n\
                 rm -rf /var/snap /var/lib/snapd /var/cache/snapd ~/snap\n\
                 printf 'Package: snapd\\nPin: release *\\nPin-Priority: -10\\n' > /etc/apt/preferences.d/nosnap.pref\n");
    reveal_strlit("apt-get update -qq && apt-get install -y flatpak 2>/dev/null || true\n\
                 flatpak remote-add --if-not-exists flathub https://dl.flathub.org/repo/flathub.flatpakrepo 2>/dev/null || true\n");
    reveal_strlit("install -d -m 0755 /etc/apt/keyrings\n\
                 wget -q https://packages.mozilla.org/apt/repo-signing-key.gpg -O /etc/apt/keyrings/packages.mozilla.org.asc 2>/dev/null || true\n\
                 echo 'deb [signed-by=/etc/apt/keyrings/packages.mozilla.org.asc] https://packages.mozilla.org/apt mozilla main' > /etc/apt/sources.list.d/mozilla.list\n\
                 printf 'Package: *\\nPin: origin packages.mozilla.org\\nPin-Priority: 1000\\n' > /etc/apt/preferences.d/mozilla\n\
                 apt-get update -qq && apt-get install -y firefox 2>/dev/null || true\n");
    reveal_strlit("apt-get purge -y ubuntu-report popularity-contest geoclue 2>/dev/null || true\n");
    reveal_strlit("systemctl stop apport whoopsie 2>/dev/null || true\n\
                 systemctl disable apport whoopsie 2>/dev/null || true\n\
                 sed -i 's/enabled=1/enabled=0/g' /etc/default/apport 2>/dev/null || true\n");
    reveal_strlit("chmod -x /etc/update-motd.d/50-motd-news /etc/update-motd.d/80-livepatch 2>/dev/null || true\n\
                 sed -i 's/ENABLED=1/ENABLED=0/g' /etc/default/motd-news 2>/dev/null || true\n");
    reveal_strlit("sysctl -w vm.swappiness=10\n\
                 grep -q 'vm.swappiness' /etc/sysctl.conf && sed -i 's/vm.swappiness=.*/vm.swappiness=10/' /etc/sysctl.conf || echo 'vm.swappiness=10' >> /etc/sysctl.conf\n");
    reveal_strlit("grep -q 'DefaultTimeoutStopSec' /etc/systemd/system.conf && sed -i 's/.*DefaultTimeoutStopSec=.*/DefaultTimeoutStopSec=10s/' /etc/systemd/system.conf || echo 'DefaultTimeoutStopSec=10s' >> /etc/systemd/system.conf\n");
    reveal_strlit("systemctl enable --now fstrim.timer 2>/dev/null || true\n");
    reveal_strlit("apt-get purge -y aisleriot gnome-mahjongg gnome-mines gnome-sudoku shotwell kmines ksudoku 2>/dev/null || true\n\
                 apt-get autoremove -y 2>/dev/null || true\n");
    let one = seq![t];
    assert(one.drop_last() =~= Seq::<Tweak>::empty());
    assert(one.last() == t);
    assert(script_fragments(one, is_gnome, is_kde) == script_fragments(Seq::empty(), is_gnome, is_kde)
        + script_fragment(t, is_gnome, is_kde));
}

/// The script that puts the default settings back: it removes the snapd pin,
/// sets swappiness back to 60, the shutdown timeout back to 90s, and
/// re-enables apport.
pub proof fn law_restore_text()
    ensures
        restore_script_text() == "\
echo '>>> Restoring default settings...'
rm -f /etc/apt/preferences.d/nosnap.pref
sysctl -w vm.swappiness=60
sed -i 's/vm.swappiness=.*/vm.swappiness=60/' /etc/sysctl.conf || true
sed -i 's/DefaultTimeoutStopSec=.*/DefaultTimeoutStopSec=90s/' /etc/systemd/system.conf || true
sed -i 's/enabled=0/enabled=1/g' /etc/default/apport || true
systemctl enable apport 2>/dev/null || true
echo '>>> Defaults restored.'"@,
{
}

/// What a scan reports of each optimization, from what was read: snap is
/// removed when it is off the path or pinned away; the bloat is removed only
/// when neither game is installed; and so on.
pub proof fn law_scan_readings(p: ScanProbe)
    ensures
        scan_of(p).remove_snap <==> (!p.snap_on_path || p.nosnap_pin),
        scan_of(p).install_flatpak <==> p.flatpak_on_path,
        scan_of(p).firefox_ppa <==> (p.mozilla_source || p.mozilla_pin),
        scan_of(p).telemetry_off <==> !p.ubuntu_report_on_path,
        p.apport_config is None ==> (scan_of(p).apport_off <==> !p.apport_cli),
        p.apport_config matches Some(t) ==> (scan_of(p).apport_off <==> has_text(t@, "enabled=0"@)),
        scan_of(p).motd_off <==> !p.motd_news,
        p.swappiness is None ==> !scan_of(p).swappiness_tuned,
        p.swappiness matches Some(t) ==> (scan_of(p).swappiness_tuned <==> (parse_i32(trimmed(t@, Strip::Whitespace)) matches Some(v) && v <= 10)),
        p.system_conf is None ==> !scan_of(p).shutdown_fast,
        p.system_conf matches Some(t) ==> (scan_of(p).shutdown_fast <==> has_text(t@, "DefaultTimeoutStopSec=10s"@)),
        p.fstrim_state is None ==> !scan_of(p).ssd_trim,
        p.fstrim_state matches Some(b) ==> (scan_of(p).ssd_trim <==> trimmed(utf8_lossy(b@), Strip::Whitespace) == "enabled"@),
        p.tracker_state is None ==> !scan_of(p).tracker_off,
        p.tracker_state matches Some(b) ==> (scan_of(p).tracker_off <==> trimmed(utf8_lossy(b@), Strip::Whitespace) == "masked"@),
        p.baloo_status is None ==> !scan_of(p).baloo_off,
        p.baloo_status matches Some(b) ==> (scan_of(p).baloo_off <==> (has_text(lowercase(utf8_lossy(b@)), "disabled"@) || has_text(lowercase(utf8_lossy(b@)), "not running"@))),
        p.gnome_mines ==> !scan_of(p).bloat_removed,
        p.kmines ==> !scan_of(p).bloat_removed,
        !p.gnome_mines && !p.kmines ==> scan_of(p).bloat_removed,
{
}

/// The applied count is the number of tweaks the scan found applied, counted
/// over the catalogue one tweak at a time.
pub proof fn law_applied_count_over_tweaks(s: ScanResult)
    ensures
        applied_total(s) == count_true(Seq::new(TWEAK_COUNT as nat, |i: int| scan_flag(s, tweak_at(i)))),
{
    assert(scan_flags(s) =~= Seq::new(TWEAK_COUNT as nat, |i: int| scan_flag(s, tweak_at(i))));
}

/// A scan that found exactly one tweak applied counts one.
pub proof fn law_single_flag_counts_one(s: ScanResult, t: Tweak)
    requires
        forall|u: Tweak| scan_flag(s, u) <==> u == t,
    ensures
        applied_total(s) == 1,
{
    law_applied_count_over_tweaks(s);
    let f = Seq::new(TWEAK_COUNT as nat, |i: int| scan_flag(s, tweak_at(i)));
    lemma_index_round_trip(t);
    assert forall|i: int| 0 <= i < TWEAK_COUNT implies f[i] == (i == tweak_index(t)) by {
        assert(scan_flag(s, tweak_at(i)) <==> tweak_at(i) == t);
        assert(tweak_index(tweak_at(i)) == i);
    }
    lemma_count_one(f, tweak_index(t));
}

/// A sequence with a single true entry counts one.
proof fn lemma_count_one(f: Seq<bool>, k: int)
    requires
        0 <= k < f.len(),
        forall|i: int| 0 <= i < f.len() ==> f[i] == (i == k),
    ensures
        count_true(f) == 1,
    decreases f.len(),
{
    if f.len() - 1 == k {
        lemma_count_none(f.drop_last());
    } else {
        lemma_count_one(f.drop_last(), k);
    }
}

/// A sequence with no true entry counts zero.
proof fn lemma_count_none(f: Seq<bool>)
    requires
        forall|i: int| 0 <= i < f.len() ==> !f[i],
    ensures
        count_true(f) == 0,
    decreases f.len(),
{
    if f.len() > 0 {
        lemma_count_none(f.drop_last());
    }
}

/// Toggling flips the row under the cursor (the last row when the cursor is
/// past the end) whenever that row is not applied, whatever the scan says of
/// the other rows.
pub proof fn law_toggle_flips_cursor_row(sel: Seq<bool>, rows: Seq<Tweak>, i: int, scan: ScanResult)
    requires
        sel.len() == TWEAK_COUNT,
        0 <= i,
        rows.len() > 0,
        !scan_flag(scan, if i < rows.len() { rows[i] } else { rows[rows.len() - 1] }),
    ensures
        ({
            let c = if i < rows.len() { rows[i] } else { rows[rows.len() - 1] };
            toggle_in(sel, rows, i, scan)[tweak_index(c)] == !sel[tweak_index(c)]
        }),
{
}

/// In a session, toggling flips the selection of the row under the cursor
/// whenever that row is not applied.
pub proof fn law_session_toggle_flips(app: App)
    requires
        app.rows_shown().len() > 0,
        !scan_flag(
            app.scan,
            if app.list_index < app.rows_shown().len() {
                app.rows_shown()[app.list_index as int]
            } else {
                app.rows_shown()[app.rows_shown().len() - 1]
            },
        ),
    ensures
        ({
            let rows = app.rows_shown();
            let c = if app.list_index < rows.len() { rows[app.list_index as int] } else { rows[rows.len() - 1] };
            app.toggled_selection()[tweak_index(c)] == !app.selected@[tweak_index(c)]
        }),
{
    law_toggle_flips_cursor_row(app.selected@, app.rows_shown(), app.list_index as int, app.scan);
}

/// The identifier, name and description of every tweak.
pub proof fn law_catalogue_texts()
    ensures
        tweak_key(Tweak::RemoveSnap) == "remove_snap"@,
        tweak_label(Tweak::RemoveSnap) == "Remove Snap"@,
        tweak_description(Tweak::RemoveSnap) == "Uninstalls snapd, replaces snap apps with flatpak/apt"@,
        tweak_key(Tweak::InstallFlatpak) == "install_flatpak"@,
        tweak_label(Tweak::InstallFlatpak) == "Install Flatpak"@,
        tweak_description(Tweak::InstallFlatpak) == "Adds the open Flathub ecosystem"@,
        tweak_key(Tweak::FirefoxPpa) == "firefox_ppa"@,
        tweak_label(Tweak::FirefoxPpa) == "Native Firefox"@,
        tweak_description(Tweak::FirefoxPpa) == "Uses Mozilla's native repo instead of Snap"@,
        tweak_key(Tweak::TelemetryOff) == "telemetry_off"@,
        tweak_label(Tweak::TelemetryOff) == "Disable telemetry"@,
        tweak_description(Tweak::TelemetryOff) == "Stops ubuntu-report, popcon, geoclue"@,
        tweak_key(Tweak::ApportOff) == "apport_off"@,
        tweak_label(Tweak::ApportOff) == "Disable crash popups"@,
        tweak_description(Tweak::ApportOff) == "Turns off apport and whoopsie"@,
        tweak_key(Tweak::MotdOff) == "motd_off"@,
        tweak_label(Tweak::MotdOff) == "Remove terminal ads"@,
        tweak_description(Tweak::MotdOff) == "Disables MOTD news and Ubuntu Pro banners"@,
        tweak_key(Tweak::SwappinessTuned) == "swappiness_tuned"@,
        tweak_label(Tweak::SwappinessTuned) == "Tune swappiness"@,
        tweak_description(Tweak::SwappinessTuned) == "Sets vm.swappiness=10 (prefer RAM over swap)"@,
        tweak_key(Tweak::ShutdownFast) == "shutdown_fast"@,
        tweak_label(Tweak::ShutdownFast) == "Shorten shutdown"@,
        tweak_description(Tweak::ShutdownFast) == "systemd timeout 10s instead of 90s"@,
        tweak_key(Tweak::SsdTrim) == "ssd_trim"@,
        tweak_label(Tweak::SsdTrim) == "Enable SSD TRIM"@,
        tweak_description(Tweak::SsdTrim) == "Activates fstrim.timer"@,
        tweak_key(Tweak::TrackerOff) == "tracker_off"@,
        tweak_label(Tweak::TrackerOff) == "Disable file indexing"@,
        tweak_description(Tweak::TrackerOff) == "Stops GNOME Tracker (GNOME only)"@,
        tweak_key(Tweak::BalooOff) == "baloo_off"@,
        tweak_label(Tweak::BalooOff) == "Disable Baloo indexing"@,
        tweak_description(Tweak::BalooOff) == "Stops KDE Baloo (KDE only)"@,
        tweak_key(Tweak::BloatRemoved) == "bloat_removed"@,
        tweak_label(Tweak::BloatRemoved) == "Remove desktop bloat"@,
        tweak_description(Tweak::BloatRemoved) == "Removes optional games and extras"@,
{
}

/// The page titles.
pub proof fn law_page_titles()
    ensures
        page_label(Page::Overview) == "Overview"@,
        page_label(Page::Packages) == "Packages"@,
        page_label(Page::Privacy) == "Privacy"@,
        page_label(Page::Performance) == "Performance"@,
        page_label(Page::Desktop) == "Desktop"@,
{
}

/// Each tweak is read from the scan field of the same name.
pub proof fn law_scan_flag_fields(s: ScanResult)
    ensures
        scan_flag(s, Tweak::RemoveSnap) == s.remove_snap,
        scan_flag(s, Tweak::InstallFlatpak) == s.install_flatpak,
        scan_flag(s, Tweak::FirefoxPpa) == s.firefox_ppa,
        scan_flag(s, Tweak::TelemetryOff) == s.telemetry_off,
        scan_flag(s, Tweak::ApportOff) == s.apport_off,
        scan_flag(s, Tweak::MotdOff) == s.motd_off,
        scan_flag(s, Tweak::SwappinessTuned) == s.swappiness_tuned,
        scan_flag(s, Tweak::ShutdownFast) == s.shutdown_fast,
        scan_flag(s, Tweak::SsdTrim) == s.ssd_trim,
        scan_flag(s, Tweak::TrackerOff) == s.tracker_off,
        scan_flag(s, Tweak::BalooOff) == s.baloo_off,
        scan_flag(s, Tweak::BloatRemoved) == s.bloat_removed,
{
}

/// The check box and status of a row: applied wins over selected.
pub proof fn law_row_texts(applied: bool, selected: bool)
    ensures
        applied ==> marker_text(row_state(applied, selected)) == "[✓]"@ && status_text(
            row_state(applied, selected),
        ) == " ✓ Applied "@,
        !applied && selected ==> marker_text(row_state(applied, selected)) == "[▣]"@
            && status_text(row_state(applied, selected)) == " ▣ Selected "@,
        !applied && !selected ==> marker_text(row_state(applied, selected)) == "[ ]"@
            && status_text(row_state(applied, selected)) == " ○ Pending "@,
{
}

/// A text contains whatever is placed inside it.
pub proof fn law_text_found_inside(a: Seq<char>, needle: Seq<char>, b: Seq<char>)
    ensures
        has_text(a + needle + b, needle),
        begins_with(needle + b, needle),
{
    let h = a + needle + b;
    assert(h.subrange(a.len() as int, (a.len() + needle.len()) as int) =~= needle);
    assert((needle + b).subrange(0, needle.len() as int) =~= needle);
}

/// A text never contains something longer than itself, and a text found in
/// a part of a text is found in the whole.
pub proof fn law_text_found_in_whole(a: Seq<char>, needle: Seq<char>, b: Seq<char>)
    ensures
        needle.len() > a.len() ==> !has_text(a, needle),
        has_text(a, needle) ==> has_text(a + b, needle),
        has_text(b, needle) ==> has_text(a + b, needle),
{
    if has_text(a, needle) {
        let i = choose|i: int|
            0 <= i && i + needle.len() <= a.len() && #[trigger] a.subrange(i, i + needle.len())
                == needle;
        assert((a + b).subrange(i, i + needle.len()) =~= a.subrange(i, i + needle.len()));
    }
    if has_text(b, needle) {
        let i = choose|i: int|
            0 <= i && i + needle.len() <= b.len() && #[trigger] b.subrange(i, i + needle.len())
                == needle;
        assert((a + b).subrange(a.len() + i, (a.len() + i + needle.len()) as int) =~= b.subrange(
            i,
            i + needle.len(),
        ));
    }
}

/// The decimal notation of a number is a run of digits worth that number.
pub proof fn law_decimal_reads_back(n: nat)
    ensures
        decimal(n).len() > 0,
        all_digits(decimal(n)),
        digits_value(decimal(n)) == n,
    decreases n,
{
    if n < 10 {
        let d = decimal(n);
        assert(d.drop_last() =~= Seq::<char>::empty());
        assert(digit_char(n as int) as int == '0' as int + n);
        assert(digits_value(d) == 10 * digits_value(d.drop_last()) + (d.last() as int - '0' as int));
        assert(digits_value(d.drop_last()) == 0);
    } else {
        law_decimal_reads_back(n / 10);
        vstd::arithmetic::div_mod::lemma_fundamental_div_mod(n as int, 10);
        let d = decimal(n);
        let r = (n % 10) as int;
        assert(0 <= r < 10);
        assert(d.drop_last() == decimal(n / 10));
        assert(d.last() == digit_char(r));
        assert(digit_char(r) as int == '0' as int + r);
        assert(digits_value(d) == 10 * digits_value(d.drop_last()) + (d.last() as int - '0' as int));
        assert(n as int == 10 * (n / 10) as int + r);
        assert forall|i: int| 0 <= i < d.len() implies '0' <= #[trigger] d[i] <= '9' by {
            if i < d.len() - 1 {
                assert(d[i] == decimal(n / 10)[i]);
            }
        }
    }
}

/// Reading back the printed form of any `i32` gives the same number: exit
/// codes and kernel settings use one notation.
pub proof fn law_print_then_parse(n: i32)
    ensures
        parse_i32(signed_decimal(n as int)) == Some(n),
{
    if n < 0 {
        let m = (-(n as int)) as nat;
        law_decimal_reads_back(m);
        let s = signed_decimal(n as int);
        assert(s[0] == '-');
        assert(s.drop_first() =~= decimal(m));
    } else {
        law_decimal_reads_back(n as nat);
        let s = signed_decimal(n as int);
        assert('0' <= s[0] <= '9');
    }
}

/// The desktop keywords: GNOME, Unity and Budgie sessions count as GNOME;
/// KDE and Plasma sessions count as KDE.
pub proof fn law_desktop_keywords(upper: Seq<char>)
    ensures
        has_text(upper, "GNOME"@) ==> gnome_session(upper),
        has_text(upper, "UNITY"@) ==> gnome_session(upper),
        has_text(upper, "BUDGIE"@) ==> gnome_session(upper),
        !has_text(upper, "GNOME"@) && !has_text(upper, "UNITY"@) && !has_text(upper, "BUDGIE"@)
            ==> !gnome_session(upper),
        has_text(upper, "KDE"@) ==> kde_session(upper),
        has_text(upper, "PLASMA"@) ==> kde_session(upper),
        !has_text(upper, "KDE"@) && !has_text(upper, "PLASMA"@) ==> !kde_session(upper),
{
}

/// What the front of a text gives up to a trim.
proof fn lemma_leading_strip_shape(s: Seq<char>, k: Strip)
    ensures
        leading_strip(s, k) <= s.len(),
        forall|j: int| 0 <= j < leading_strip(s, k) ==> strips(k, #[trigger] s[j]),
        leading_strip(s, k) < s.len() ==> !strips(k, s[leading_strip(s, k) as int]),
    decreases s.len(),
{
    if s.len() > 0 && strips(k, s[0]) {
        lemma_leading_strip_shape(s.drop_first(), k);
        assert forall|j: int| 0 <= j < leading_strip(s, k) implies strips(k, #[trigger] s[j]) by {
            if j > 0 {
                assert(s[j] == s.drop_first()[j - 1]);
            }
        }
    }
}

/// What the back of a text gives up to a trim.
proof fn lemma_trailing_strip_shape(s: Seq<char>, k: Strip)
    ensures
        trailing_strip(s, k) <= s.len(),
        forall|j: int| s.len() - trailing_strip(s, k) <= j < s.len() ==> strips(k, #[trigger] s[j]),
        trailing_strip(s, k) < s.len() ==> !strips(k, s[s.len() - trailing_strip(s, k) - 1]),
    decreases s.len(),
{
    if s.len() > 0 && strips(k, s.last()) {
        lemma_trailing_strip_shape(s.drop_last(), k);
        assert forall|j: int| s.len() - trailing_strip(s, k) <= j < s.len() implies strips(k, #[trigger] s[j]) by {
            if j < s.len() - 1 {
                assert(s[j] == s.drop_last()[j]);
            }
        }
    }
}

/// A trim keeps one unbroken stretch of the text: everything before and after
/// it is removable, and the stretch neither begins nor ends with a removable
/// character.
pub proof fn law_trim_keeps_middle(s: Seq<char>, k: Strip)
    ensures
        exists|a: int, b: int|
            {
                &&& 0 <= a <= b <= s.len()
                &&& #[trigger] trimmed(s, k) == s.subrange(a, b)
                &&& forall|j: int| 0 <= j < a ==> strips(k, #[trigger] s[j])
                &&& forall|j: int| b <= j < s.len() ==> strips(k, #[trigger] s[j])
                &&& a < b ==> !strips(k, s[a]) && !strips(k, s[b - 1])
            },
{
    lemma_leading_strip_shape(s, k);
    let a = leading_strip(s, k) as int;
    let t = s.skip(a);
    lemma_trailing_strip_shape(t, k);
    let b = a + t.len() - trailing_strip(t, k);
    assert(trimmed(s, k) =~= s.subrange(a, b));
    assert forall|j: int| b <= j < s.len() implies strips(k, #[trigger] s[j]) by {
        assert(s[j] == t[j - a]);
    }
    if a < b {
        assert(s[b - 1] == t[b - 1 - a]);
    }
}

} // verus!
