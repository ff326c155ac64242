//! The interactive state of the optimizer and its response to each key.
//! Work outside the process (scanning, running scripts) is requested through
//! a [`Command`]; its outcome is handed back to the matching method.

use vstd::prelude::*;
use vstd::string::*;
use crate::system::{ScanResult, SystemInfo, scan_flag, applied_total};
use crate::tweak::{Page, Tweak, TWEAK_COUNT, tweak_index, tweak_key, page_rows, page_after};
use crate::text::{strings_view, decimal, decimal_string, text_lines, lines_of};
use crate::script::{build_script, restore_script, script_text, restore_script_text};

verus! {

/// Whether tweak `t` is offered on the given desktop: the GNOME indexer only
/// on GNOME, the KDE indexer only on KDE.
pub open spec fn shown(t: Tweak, is_gnome: bool, is_kde: bool) -> bool {
    &&& t == Tweak::TrackerOff ==> is_gnome
    &&& t == Tweak::BalooOff ==> is_kde
}

/// The predicate `shown` for a fixed desktop.
pub open spec fn shown_on(is_gnome: bool, is_kde: bool) -> spec_fn(Tweak) -> bool {
    |t: Tweak| shown(t, is_gnome, is_kde)
}

/// The rows a page shows on the given desktop.
pub open spec fn visible_rows_for(p: Page, is_gnome: bool, is_kde: bool) -> Seq<Tweak> {
    page_rows(p).filter(shown_on(is_gnome, is_kde))
}

/// The predicate "waiting to be applied": marked in this selection and not
/// found applied by this scan.
pub open spec fn waiting_in(sel: Seq<bool>, scan: ScanResult) -> spec_fn(Tweak) -> bool {
    |t: Tweak| sel[tweak_index(t)] && !scan_flag(scan, t)
}

/// Where the activity log is scrolled to show its last line of `n`.
pub open spec fn scroll_to_end(n: nat) -> u16 {
    (if n == 0 {
        0int
    } else {
        n - 1
    }) as u16
}

/// The first log line of a session.
pub open spec fn greeting(distro: Seq<char>, desktop: Seq<char>) -> Seq<char> {
    "System: "@ + distro + " | Desktop: "@ + desktop
}

/// The identifiers of the given tweaks, separated by a comma and a space.
pub open spec fn join_keys(ts: Seq<Tweak>) -> Seq<char>
    decreases ts.len(),
{
    if ts.len() == 0 {
        Seq::empty()
    } else if ts.len() == 1 {
        tweak_key(ts[0])
    } else {
        join_keys(ts.drop_last()) + ", "@ + tweak_key(ts.last())
    }
}

/// The log line after a scan that found `n` tweaks applied.
pub open spec fn scan_message(n: nat) -> Seq<char> {
    "Scan complete. "@ + decimal(n) + " tweaks already applied."@
}

/// The log line announcing which tweaks are being applied.
pub open spec fn applying_message(ts: Seq<Tweak>) -> Seq<char> {
    "Applying: "@ + join_keys(ts)
}

/// The log line for a failure.
pub open spec fn error_line(e: Seq<char>) -> Seq<char> {
    "ERROR: "@ + e
}

/// At most the first three lines of a script's output, indented.
pub open spec fn output_summary(out: Seq<char>) -> Seq<Seq<char>> {
    let lines = text_lines(out);
    let shown = if lines.len() <= 3 {
        lines
    } else {
        lines.take(3)
    };
    shown.map_values(|l: Seq<char>| "  "@ + l)
}

/// The log lines after a script ran: a headline and the start of its output.
pub open spec fn success_log(headline: Seq<char>, out: Seq<char>) -> Seq<Seq<char>> {
    seq![headline] + output_summary(out)
}

/// The log lines after the apply script ran, by its outcome.
pub open spec fn apply_outcome_log(outcome: Result<Seq<char>, Seq<char>>) -> Seq<Seq<char>> {
    match outcome {
        Ok(out) => success_log("Done. All selected optimizations applied."@, out),
        Err(e) => seq![error_line(e)],
    }
}

/// The log lines after the restore script ran, by its outcome.
pub open spec fn restore_outcome_log(outcome: Result<Seq<char>, Seq<char>>) -> Seq<Seq<char>> {
    match outcome {
        Ok(out) => success_log("Defaults restored."@, out),
        Err(e) => seq![error_line(e)],
    }
}

/// The outcome of a script, by the views of its texts.
pub open spec fn outcome_view(outcome: Result<String, String>) -> Result<Seq<char>, Seq<char>> {
    match outcome {
        Ok(out) => Ok(out@),
        Err(e) => Err(e@),
    }
}

/// The identifiers of `ts`, separated by a comma and a space.
pub fn join_tweak_keys(ts: &Vec<Tweak>) -> (s: String)
    ensures
        s@ == join_keys(ts@),
{
    let mut s = String::new();
    let mut i: usize = 0;
    while i < ts.len()
        invariant
            i <= ts@.len(),
            s@ == join_keys(ts@.take(i as int)),
        decreases ts@.len() - i,
    {
        assert(ts@.take(i + 1).drop_last() == ts@.take(i as int));
        if i > 0 {
            s.append(", ");
        } else {
            assert(ts@.take(0) == Seq::<Tweak>::empty());
        }
        s.append(ts[i].key());
        i += 1;
    }
    assert(ts@.take(ts@.len() as int) == ts@);
    s
}

/// The work outside the process that a key asks for.
#[derive(Debug)]
pub enum Command {
    /// Nothing to do.
    Stay,
    /// End the session.
    Quit,
    /// Scan the system again and hand the result to [`App::scan_now`].
    Scan,
    /// Run this apply script and hand its outcome to [`App::finish_apply`].
    Apply(String),
    /// Run this restore script and hand its outcome to [`App::finish_restore`].
    Restore(String),
}

/// A key press, as far as the interface tells keys apart.
#[derive(Clone, Copy, Debug, PartialEq, Eq, Structural)]
pub enum Key {
    Char(char),
    Esc,
    Up,
    Down,
    Tab,
    Enter,
    Other,
}

/// Whether a key press ends the session before any page sees it: `q` on any
/// page, or `c` with Control held.
pub open spec fn ends_session(key: Key, control: bool) -> bool {
    key == Key::Char('q') || (key == Key::Char('c') && control)
}

/// Whether a key press ends the session before any page sees it.
pub fn is_quit_key(key: Key, control: bool) -> (b: bool)
    ensures
        b == ends_session(key, control),
{
    match key {
        Key::Char(c) => c == 'q' || (c == 'c' && control),
        _ => false,
    }
}

/// Whether the key moves the cursor up.
pub open spec fn is_up_key(key: Key) -> bool {
    key == Key::Up || key == Key::Char('k')
}

/// Whether the key moves the cursor down.
pub open spec fn is_down_key(key: Key) -> bool {
    key == Key::Down || key == Key::Char('j')
}

/// Whether the key flips the selection of the row under the cursor.
pub open spec fn is_toggle_key(key: Key) -> bool {
    key == Key::Enter || key == Key::Char(' ')
}

/// The page shown after a key.
pub open spec fn page_after_key(key: Key, p: Page) -> Page {
    if key == Key::Esc || key == Key::Char('1') {
        Page::Overview
    } else if key == Key::Tab {
        page_after(p)
    } else if key == Key::Char('2') {
        Page::Packages
    } else if key == Key::Char('3') {
        Page::Privacy
    } else if key == Key::Char('4') {
        Page::Performance
    } else if key == Key::Char('5') {
        Page::Desktop
    } else {
        p
    }
}

/// The cursor after a key on a page of `len` rows, before it is kept on the page.
pub open spec fn cursor_after_key(key: Key, i: int, len: int) -> int {
    if is_up_key(key) {
        if len > 0 {
            (i + len - 1) % len
        } else {
            i
        }
    } else if is_down_key(key) {
        if len > 0 {
            (i + 1) % len
        } else {
            i
        }
    } else if key == Key::Tab {
        0
    } else {
        i
    }
}

/// A cursor past the last row of a page of `len` rows moves onto the last row.
pub open spec fn keep_on_page(i: int, len: int) -> int {
    if len > 0 && i >= len {
        len - 1
    } else {
        i
    }
}

/// Whether the key ends the session in this state.
pub open spec fn quits(key: Key, p: Page) -> bool {
    key == Key::Char('q') && p == Page::Overview
}

/// Moves a cursor up one row on a page of `len` rows, wrapping around.
fn step_up(i: usize, len: usize) -> (r: usize)
    requires
        len > 0,
    ensures
        r == (i + len - 1) % (len as int),
        r < len,
{
    let m = i % len;
    proof {
        vstd::arithmetic::div_mod::lemma_add_mod_noop(i as int, len - 1, len as int);
        vstd::arithmetic::div_mod::lemma_small_mod((len - 1) as nat, len as nat);
        if m > 0 {
            vstd::arithmetic::div_mod::lemma_mod_add_multiples_vanish(m - 1, len as int);
            vstd::arithmetic::div_mod::lemma_small_mod((m - 1) as nat, len as nat);
        }
    }
    if m == 0 {
        len - 1
    } else {
        m - 1
    }
}

/// Moves a cursor down one row on a page of `len` rows, wrapping around.
fn step_down(i: usize, len: usize) -> (r: usize)
    requires
        len > 0,
    ensures
        r == (i + 1) % (len as int),
        r < len,
{
    let m = i % len;
    proof {
        vstd::arithmetic::div_mod::lemma_add_mod_noop_right(1, i as int, len as int);
        vstd::arithmetic::div_mod::lemma_mod_bound(m + 1, len as int);
    }
    (m + 1) % len
}

/// The row a cursor at `i` acts on: past the last row it acts on the last.
pub open spec fn cursor_in(rows: Seq<Tweak>, i: int) -> Tweak
    recommends
        rows.len() > 0,
{
    if i < rows.len() {
        rows[i]
    } else {
        rows[rows.len() - 1]
    }
}

/// A selection after toggling the row under a cursor at `i`: unchanged when
/// there are no rows or the row's tweak is already applied.
pub open spec fn toggle_in(sel: Seq<bool>, rows: Seq<Tweak>, i: int, scan: ScanResult) -> Seq<bool> {
    if rows.len() == 0 || scan_flag(scan, cursor_in(rows, i)) {
        sel
    } else {
        let k = tweak_index(cursor_in(rows, i));
        sel.update(k, !sel[k])
    }
}

/// The interactive state: what was detected and scanned, what the user
/// selected, where the cursor is, and the activity log.
pub struct App {
    pub info: SystemInfo,
    pub scan: ScanResult,
    pub selected: [bool; TWEAK_COUNT],
    pub view: Page,
    pub list_index: usize,
    pub log: Vec<String>,
    pub log_scroll: u16,
}

impl App {
    /// The log lines.
    pub open spec fn log_view(self) -> Seq<Seq<char>> {
        strings_view(self.log@)
    }

    /// The rows of the current page on this system's desktop.
    pub open spec fn rows_shown(self) -> Seq<Tweak> {
        visible_rows_for(self.view, self.info.is_gnome, self.info.is_kde)
    }

    /// Whether tweak `t` is selected.
    pub open spec fn marked(self, t: Tweak) -> bool {
        self.selected@[tweak_index(t)]
    }

    /// The row of the current page the cursor acts on.
    pub open spec fn cursor_row(self) -> Tweak
        recommends
            self.rows_shown().len() > 0,
    {
        cursor_in(self.rows_shown(), self.list_index as int)
    }

    /// The selection after toggling the row under the cursor.
    pub open spec fn toggled_selection(self) -> Seq<bool> {
        toggle_in(self.selected@, self.rows_shown(), self.list_index as int, self.scan)
    }

    /// A fresh session on a detected system with its first scan.
    pub fn new(info: SystemInfo, scan: ScanResult) -> (app: App)
        ensures
            app.info == info,
            app.scan == scan,
            forall|t: Tweak| !app.marked(t),
            app.view == Page::Overview,
            app.list_index == 0,
            app.log_view() == seq![greeting(info.distro@, info.desktop@)],
            app.log_scroll == 0,
    {
        let mut line = String::from_str("System: ");
        line.append(info.distro.as_str());
        line.append(" | Desktop: ");
        line.append(info.desktop.as_str());
        let mut log: Vec<String> = Vec::new();
        log.push(line);
        let app = App {
            info,
            scan,
            selected: [false, false, false, false, false, false, false, false, false, false, false, false],
            view: Page::Overview,
            list_index: 0,
            log,
            log_scroll: 0,
        };
        assert(app.log_view() =~= seq![greeting(app.info.distro@, app.info.desktop@)]);
        app
    }

    /// The rows of the current page, without the indexer of a desktop that
    /// is not running.
    pub fn visible_rows(&self) -> (rows: Vec<Tweak>)
        ensures
            rows@ == self.rows_shown(),
    {
        let all = self.view.rows();
        let is_gnome = self.info.is_gnome;
        let is_kde = self.info.is_kde;
        let ghost pred = shown_on(is_gnome, is_kde);
        let mut rows: Vec<Tweak> = Vec::new();
        let mut i: usize = 0;
        while i < all.len()
            invariant
                i <= all@.len(),
                all@ == page_rows(self.view),
                pred == shown_on(is_gnome, is_kde),
                rows@ == all@.take(i as int).filter(pred),
            decreases all@.len() - i,
        {
            reveal_with_fuel(Seq::<_>::filter, 1);
            assert(all@.take(i + 1).drop_last() == all@.take(i as int));
            let t = all[i];
            let keep = (t != Tweak::TrackerOff || is_gnome) && (t != Tweak::BalooOff || is_kde);
            if keep {
                rows.push(t);
            }
            i += 1;
        }
        assert(all@.take(all@.len() as int) == all@);
        rows
    }

    /// How many optimizations the last scan found applied.
    pub fn applied_count(&self) -> (n: usize)
        ensures
            n == applied_total(self.scan),
            n <= TWEAK_COUNT,
    {
        self.scan.applied_count()
    }

    /// Whether the last scan found `key` applied.
    pub fn is_applied(&self, key: Tweak) -> (b: bool)
        ensures
            b == scan_flag(self.scan, key),
    {
        self.scan.flag(key)
    }

    /// Whether `key` is selected for the next apply.
    pub fn is_selected(&self, key: Tweak) -> (b: bool)
        ensures
            b == self.marked(key),
    {
        self.selected[key.index()]
    }

    /// Flips the selection of the row under the cursor; an applied tweak
    /// cannot be selected, and an empty page has nothing to flip.
    pub fn toggle_current(&mut self)
        ensures
            final(self).selected@ == old(self).toggled_selection(),
            final(self).info == old(self).info,
            final(self).scan == old(self).scan,
            final(self).view == old(self).view,
            final(self).list_index == old(self).list_index,
            final(self).log == old(self).log,
            final(self).log_scroll == old(self).log_scroll,
    {
        let rows = self.visible_rows();
        if rows.len() == 0 {
            return;
        }
        let last = rows.len() - 1;
        let pos = if self.list_index < last {
            self.list_index
        } else {
            last
        };
        let key = rows[pos];
        if self.is_applied(key) {
            return;
        }
        let i = key.index();
        let flipped = !self.selected[i];
        self.selected[i] = flipped;
    }

    /// The rows of the current page that are selected and not already
    /// applied, in page order.
    pub open spec fn pending_rows(self) -> Seq<Tweak> {
        self.rows_shown().filter(waiting_in(self.selected@, self.scan))
    }

    /// Everything but the log and its scroll position is the same in both states.
    pub open spec fn same_but_log(self, other: App) -> bool {
        &&& self.info == other.info
        &&& self.scan == other.scan
        &&& self.selected == other.selected
        &&& self.view == other.view
        &&& self.list_index == other.list_index
    }

    /// Appends a line to the log.
    fn log_line(&mut self, line: String)
        ensures
            final(self).log_view() == old(self).log_view().push(line@),
            final(self).same_but_log(*old(self)),
            final(self).log_scroll == old(self).log_scroll,
    {
        let ghost before = self.log@;
        self.log.push(line);
        assert(strings_view(self.log@) == strings_view(before).push(line@));
    }

    /// Scrolls the log to its last line.
    fn scroll_log_to_end(&mut self)
        ensures
            final(self).log == old(self).log,
            final(self).same_but_log(*old(self)),
            final(self).log_scroll == scroll_to_end(final(self).log@.len()),
    {
        let n = self.log.len();
        let last: usize = if n == 0 {
            0
        } else {
            n - 1
        };
        self.log_scroll = last as u16;
    }

    /// Appends a line to the log and scrolls to it.
    pub fn push_log(&mut self, line: String)
        ensures
            final(self).log_view() == old(self).log_view().push(line@),
            final(self).same_but_log(*old(self)),
            final(self).log_scroll == scroll_to_end(final(self).log@.len()),
    {
        self.log_line(line);
        self.scroll_log_to_end();
    }

    /// Appends the start of a script's output, indented, to the log.
    fn log_output(&mut self, out: &str)
        ensures
            final(self).log_view() == old(self).log_view() + output_summary(out@),
            final(self).same_but_log(*old(self)),
            final(self).log_scroll == old(self).log_scroll,
    {
        let lines = lines_of(out);
        let ghost all = text_lines(out@);
        let ghost start = self.log_view();
        let count: usize = if lines.len() <= 3 {
            lines.len()
        } else {
            3
        };
        let ghost shown = if all.len() <= 3 {
            all
        } else {
            all.take(3)
        };
        assert(shown.len() == count);
        let mut i: usize = 0;
        while i < count
            invariant
                i <= count,
                count <= lines@.len(),
                shown.len() == count,
                strings_view(lines@) == all,
                forall|j: int| 0 <= j < count ==> shown[j] == all[j],
                self.log_view() == start + shown.take(i as int).map_values(|l: Seq<char>| "  "@ + l),
                self.same_but_log(*old(self)),
                self.log_scroll == old(self).log_scroll,
            decreases count - i,
        {
            let mut line = String::from_str("  ");
            line.append(lines[i].as_str());
            proof {
                assert(lines@[i as int]@ == all[i as int]);
            }
            self.log_line(line);
            proof {
                assert(shown.take(i + 1) == shown.take(i as int).push(shown[i as int]));
                assert(shown.take(i + 1).map_values(|l: Seq<char>| "  "@ + l)
                    == shown.take(i as int).map_values(|l: Seq<char>| "  "@ + l).push("  "@ + shown[i as int]));
            }
            i += 1;
        }
        assert(shown.take(count as int) == shown);
    }

    /// Takes a new scan and logs how many tweaks it found applied.
    pub fn scan_now(&mut self, scan: ScanResult)
        ensures
            final(self).scan == scan,
            final(self).log_view() == old(self).log_view().push(scan_message(applied_total(scan))),
            final(self).log_scroll == scroll_to_end(final(self).log@.len()),
            final(self).info == old(self).info,
            final(self).selected == old(self).selected,
            final(self).view == old(self).view,
            final(self).list_index == old(self).list_index,
    {
        self.scan = scan;
        let n = self.applied_count();
        let mut line = String::from_str("Scan complete. ");
        let digits = decimal_string(n as u64);
        line.append(digits.as_str());
        line.append(" tweaks already applied.");
        self.push_log(line);
    }

    /// The rows of the current page that are selected and not already
    /// applied, in page order.
    pub fn pending(&self) -> (ts: Vec<Tweak>)
        ensures
            ts@ == self.pending_rows(),
    {
        let rows = self.visible_rows();
        let ghost pred = waiting_in(self.selected@, self.scan);
        let mut ts: Vec<Tweak> = Vec::new();
        let mut i: usize = 0;
        while i < rows.len()
            invariant
                i <= rows@.len(),
                rows@ == self.rows_shown(),
                pred == waiting_in(self.selected@, self.scan),
                ts@ == rows@.take(i as int).filter(pred),
            decreases rows@.len() - i,
        {
            reveal_with_fuel(Seq::<_>::filter, 1);
            assert(rows@.take(i + 1).drop_last() == rows@.take(i as int));
            let t = rows[i];
            if self.is_selected(t) && !self.is_applied(t) {
                ts.push(t);
            }
            i += 1;
        }
        assert(rows@.take(rows@.len() as int) == rows@);
        ts
    }

    /// Starts applying the selected rows of the current page, skipping those
    /// the last scan found already applied: with nothing left it only logs
    /// so; otherwise it logs what is applied and returns the script to run.
    pub fn apply_selected(&mut self) -> (script: Option<String>)
        ensures
            final(self).same_but_log(*old(self)),
            final(self).log_scroll == old(self).log_scroll,
            old(self).pending_rows().len() == 0 ==> {
                &&& script is None
                &&& final(self).log_view() == old(self).log_view().push("Nothing selected to apply."@)
            },
            old(self).pending_rows().len() > 0 ==> {
                &&& script matches Some(body) && body@ == script_text(
                    old(self).pending_rows(),
                    old(self).info.is_gnome,
                    old(self).info.is_kde,
                )
                &&& final(self).log_view() == old(self).log_view().push(
                    applying_message(old(self).pending_rows()),
                )
            },
    {
        let pending = self.pending();
        if pending.len() == 0 {
            self.log_line(String::from_str("Nothing selected to apply."));
            return None;
        }
        let body = build_script(pending.as_slice(), &self.info);
        let mut line = String::from_str("Applying: ");
        let keys = join_tweak_keys(&pending);
        line.append(keys.as_str());
        self.log_line(line);
        Some(body)
    }

    /// Records the outcome of the apply script: on success the selection is
    /// cleared and a new scan is wanted; on failure the error is logged.
    pub fn finish_apply(&mut self, outcome: Result<String, String>) -> (rescan: bool)
        ensures
            rescan == outcome is Ok,
            final(self).log_view() == old(self).log_view() + apply_outcome_log(outcome_view(outcome)),
            final(self).log_scroll == scroll_to_end(final(self).log@.len()),
            outcome is Ok ==> forall|t: Tweak| !final(self).marked(t),
            outcome is Err ==> final(self).selected == old(self).selected,
            final(self).info == old(self).info,
            final(self).scan == old(self).scan,
            final(self).view == old(self).view,
            final(self).list_index == old(self).list_index,
    {
        let rescan = match outcome {
            Ok(out) => {
                self.log_line(String::from_str("Done. All selected optimizations applied."));
                self.log_output(out.as_str());
                self.selected = [false, false, false, false, false, false, false, false, false, false, false, false];
                true
            },
            Err(e) => {
                let mut line = String::from_str("ERROR: ");
                line.append(e.as_str());
                self.log_line(line);
                false
            },
        };
        self.scroll_log_to_end();
        rescan
    }

    /// Starts restoring the default settings: logs so and returns the script.
    pub fn restore(&mut self) -> (script: String)
        ensures
            script@ == restore_script_text(),
            final(self).log_view() == old(self).log_view().push("Restoring default system settings..."@),
            final(self).same_but_log(*old(self)),
            final(self).log_scroll == old(self).log_scroll,
    {
        self.log_line(String::from_str("Restoring default system settings..."));
        String::from_str(restore_script())
    }

    /// Records the outcome of the restore script; on success a new scan is wanted.
    pub fn finish_restore(&mut self, outcome: Result<String, String>) -> (rescan: bool)
        ensures
            rescan == outcome is Ok,
            final(self).log_view() == old(self).log_view() + restore_outcome_log(outcome_view(outcome)),
            final(self).log_scroll == scroll_to_end(final(self).log@.len()),
            final(self).same_but_log(*old(self)),
    {
        let rescan = match outcome {
            Ok(out) => {
                self.log_line(String::from_str("Defaults restored."));
                self.log_output(out.as_str());
                true
            },
            Err(e) => {
                let mut line = String::from_str("ERROR: ");
                line.append(e.as_str());
                self.log_line(line);
                false
            },
        };
        self.scroll_log_to_end();
        rescan
    }

    /// The log lines a key adds.
    pub open spec fn key_log(self, key: Key) -> Seq<Seq<char>> {
        if key == Key::Char('a') {
            if self.pending_rows().len() == 0 {
                seq!["Nothing selected to apply."@]
            } else {
                seq![applying_message(self.pending_rows())]
            }
        } else if key == Key::Char('r') {
            seq!["Restoring default system settings..."@]
        } else {
            Seq::empty()
        }
    }

    /// Responds to a key press and says what work outside the process it needs.
    pub fn handle_key(&mut self, key: Key) -> (cmd: Command)
        ensures
            quits(key, old(self).view) ==> {
                &&& cmd is Quit
                &&& *final(self) == *old(self)
            },
            !quits(key, old(self).view) ==> {
                let len = old(self).rows_shown().len() as int;
                &&& final(self).view == page_after_key(key, old(self).view)
                &&& final(self).list_index == keep_on_page(
                    cursor_after_key(key, old(self).list_index as int, len),
                    len,
                )
                &&& final(self).selected@ == if is_toggle_key(key) {
                    old(self).toggled_selection()
                } else {
                    old(self).selected@
                }
                &&& final(self).log_view() == old(self).log_view() + old(self).key_log(key)
                &&& final(self).info == old(self).info
                &&& final(self).scan == old(self).scan
                &&& final(self).log_scroll == old(self).log_scroll
                &&& (key == Key::Char('a') && old(self).pending_rows().len() > 0 ==> (
                cmd matches Command::Apply(body) && body@ == script_text(
                    old(self).pending_rows(),
                    old(self).info.is_gnome,
                    old(self).info.is_kde,
                )))
                &&& (key == Key::Char('r') ==> (cmd matches Command::Restore(body) && body@
                    == restore_script_text()))
                &&& (key == Key::Char('s') ==> cmd is Scan)
                &&& (key != Key::Char('r') && key != Key::Char('s') && !(key == Key::Char('a')
                    && old(self).pending_rows().len() > 0) ==> cmd is Stay)
            },
    {
        let len = self.visible_rows().len();
        let mut cmd = Command::Stay;
        match key {
            Key::Char(c) => {
                if c == 'q' {
                    if self.view == Page::Overview {
                        return Command::Quit;
                    }
                } else if c == 'k' {
                    if len > 0 {
                        self.list_index = step_up(self.list_index, len);
                    }
                } else if c == 'j' {
                    if len > 0 {
                        self.list_index = step_down(self.list_index, len);
                    }
                } else if c == '1' {
                    self.view = Page::Overview;
                } else if c == '2' {
                    self.view = Page::Packages;
                } else if c == '3' {
                    self.view = Page::Privacy;
                } else if c == '4' {
                    self.view = Page::Performance;
                } else if c == '5' {
                    self.view = Page::Desktop;
                } else if c == ' ' {
                    self.toggle_current();
                } else if c == 'a' {
                    match self.apply_selected() {
                        Some(body) => {
                            cmd = Command::Apply(body);
                        },
                        None => {},
                    }
                } else if c == 's' {
                    cmd = Command::Scan;
                } else if c == 'r' {
                    let body = self.restore();
                    cmd = Command::Restore(body);
                }
            },
            Key::Esc => {
                self.view = Page::Overview;
            },
            Key::Up => {
                if len > 0 {
                    self.list_index = step_up(self.list_index, len);
                }
            },
            Key::Down => {
                if len > 0 {
                    self.list_index = step_down(self.list_index, len);
                }
            },
            Key::Tab => {
                self.view = self.view.next();
                self.list_index = 0;
            },
            Key::Enter => {
                self.toggle_current();
            },
            Key::Other => {},
        }
        if len > 0 && self.list_index >= len {
            self.list_index = len - 1;
        }
        cmd
    }
}

} // verus!
