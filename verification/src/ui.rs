use vstd::prelude::*;
use chrono::TimeZone;
use vstd::string::*;
use vstd::arithmetic::div_mod::lemma_mod_add_multiples_vanish;
use crate::app::App;
use crate::branch::BranchInfo;
use crate::pr::{GSWRError, PRResult, PRStatus};

verus! {

/// `truncate` is defined on a text of `len` characters and a width of
/// `max_chars`: a text that does not fit needs room for at least the
/// ellipsis and two characters before it.
pub open spec fn truncation_defined(len: nat, max_chars: nat) -> bool {
    max_chars == 0 || len <= max_chars || max_chars >= 3
}

/// `s` cut to at most `max_chars` characters: kept whole when it fits,
/// else its first `max_chars - 3` characters followed by `…`.
pub open spec fn truncated(s: Seq<char>, max_chars: nat) -> Seq<char> {
    if max_chars == 0 {
        Seq::empty()
    } else if s.len() <= max_chars {
        s
    } else {
        s.take(max_chars - 3) + "…"@
    }
}

/// Cuts `s` to fit a column of `max_chars` characters (see `truncated`).
pub fn truncate(s: &str, max_chars: usize) -> (r: String)
    requires
        truncation_defined(s@.len(), max_chars as nat),
    ensures
        r@ == truncated(s@, max_chars as nat),
{
    if max_chars == 0 {
        return String::new();
    }
    if s.unicode_len() <= max_chars {
        String::from_str(s)
    } else {
        let mut r = String::from_str(s.substring_char(0, max_chars - 3));
        r.append("…");
        assert(s@.subrange(0, max_chars - 3) =~= s@.take(max_chars - 3));
        r
    }
}

/// Widths, in characters, of the four columns of the branch table.
#[derive(Clone, Copy, Debug, PartialEq, Eq, Structural)]
pub struct ColumnWidths {
    pub branch: usize,
    pub date: usize,
    pub status: usize,
    pub pr: usize,
}

/// `a - b`, or 0 when `b` exceeds `a`.
pub open spec fn minus(a: int, b: int) -> int {
    if a >= b {
        a - b
    } else {
        0
    }
}

/// Splits a table `width` characters wide (borders and the gaps between
/// columns take 5): a fifth of the rest for the branch name, 12 for the
/// date, 3 for the status letter, and what remains for the pull request.
pub fn column_widths(width: u16) -> (w: ColumnWidths)
    ensures
        ({
            let inner = minus(width as int, 5);
            &&& w.branch == inner * 20 / 100
            &&& w.date == 12
            &&& w.status == 3
            &&& w.pr == minus(minus(minus(inner, w.branch as int), 12), 3)
        }),
{
    let inner: usize = (width as usize).saturating_sub(5);
    let branch = inner * 20 / 100;
    let date: usize = 12;
    let status: usize = 3;
    let pr = inner.saturating_sub(branch).saturating_sub(date).saturating_sub(status);
    ColumnWidths { branch, date, status, pr }
}

/// The frame of a spinner of `frames` symbols shown at step `index`:
/// `index` modulo `frames`, counted from 0 upward also for negative steps.
pub fn spinner_frame(index: i8, frames: usize) -> (r: usize)
    requires
        0 < frames <= isize::MAX,
    ensures
        r as int == (index as int) % (frames as int),
{
    let m: i128 = frames as i128;
    let mut v: i128 = index as i128;
    while v < 0
        invariant
            m == frames,
            0 < m <= isize::MAX,
            -129 < v,
            (v as int) % (m as int) == (index as int) % (frames as int),
        decreases if v < 0 { 0 - v } else { 0 },
    {
        proof {
            lemma_mod_add_multiples_vanish(v as int, m as int);
        }
        v = v + m;
    }
    ((v as u128) % (frames as u128)) as usize
}

/// The frames of the box-drawing spinner, in order.
pub open spec fn box_drawing_frames() -> Seq<Seq<char>> {
    seq!["│"@, "╱"@, "─"@, "╲"@]
}

/// Number of frames of `throbber_widgets_tui::BOX_DRAWING`, which the
/// crate's source defines as the four symbols of `box_drawing_frames`.
#[verifier::external_body]
fn box_drawing_frame_count() -> (n: usize)
    ensures
        n == box_drawing_frames().len(),
{
    throbber_widgets_tui::BOX_DRAWING.symbols.len()
}

/// Frame `i` of `throbber_widgets_tui::BOX_DRAWING`: the crate's source
/// lists them as the symbols of `box_drawing_frames`, in that order.
#[verifier::external_body]
fn box_drawing_frame(i: usize) -> (s: &'static str)
    requires
        i < box_drawing_frames().len(),
    ensures
        s@ == box_drawing_frames()[i as int],
{
    throbber_widgets_tui::BOX_DRAWING.symbols[i]
}

/// The spinner symbol shown at step `index`.
pub fn spinner_symbol(index: i8) -> (s: &'static str)
    ensures
        s@ == box_drawing_frames()[(index as int) % 4],
{
    let n = box_drawing_frame_count();
    let i = spinner_frame(index, n);
    box_drawing_frame(i)
}

/// The date text of a row: the date as written out, or `---` when it
/// could not be.
pub fn date_cell_text(formatted: Option<String>) -> (t: String)
    ensures
        t@ == match formatted {
            Some(s) => s@,
            None => "---"@,
        },
{
    match formatted {
        Some(s) => s,
        None => String::from_str("---"),
    }
}

/// Unix times (in seconds) that lie well inside the calendar range of
/// `chrono::DateTime::from_timestamp` (years -262143 to 262142): every
/// time within 8 * 10^12 seconds of the epoch, about 253000 years.
pub open spec fn in_calendar_range(secs: i64) -> bool {
    -8_000_000_000_000 <= secs <= 8_000_000_000_000
}

/// `%Y-%m-%d` of the UTC date-time `secs` seconds after the Unix epoch,
/// shifted by `offset` seconds, as `chrono::DateTime::format` writes it.
pub uninterp spec fn naive_day_text(secs: i64, offset: i32) -> Seq<char>;

/// The calendar day (`YYYY-MM-DD`) of a Unix time in the local time
/// zone, through `chrono::Local::timestamp_opt` and `DateTime::format`.
/// `timestamp_opt` gives a single local time for every time that
/// `DateTime::from_timestamp` accepts, which covers `in_calendar_range`;
/// `%Y` writes at least four characters and `-%m-%d` six more. Which day
/// it is depends on the machine's time zone: the text is that of `secs`
/// shifted by the local offset, which chrono (`FixedOffset::east_opt`)
/// keeps within a day either way; the offset itself is not stated.
#[verifier::external_body]
fn local_day(secs: i64) -> (r: Option<String>)
    ensures
        in_calendar_range(secs) ==> r is Some,
        r matches Some(s) ==> s@.len() >= 10,
        match r {
            Some(s) => exists|off: i32| -86400 < off < 86400 && s@ == naive_day_text(secs, off),
            None => true,
        },
{
    match chrono::Local.timestamp_opt(secs, 0).single() {
        Some(d) => Some(d.format("%Y-%m-%d").to_string()),
        None => None,
    }
}

/// The commit time to keep for a branch: `secs` when it has a local day,
/// nothing otherwise (then the branch lists as one without a commit time).
pub fn known_commit_time(secs: i64) -> (r: Option<i64>)
    ensures
        r is Some ==> r == Some(secs),
        in_calendar_range(secs) ==> r == Some(secs),
{
    match local_day(secs) {
        Some(_) => Some(secs),
        None => None,
    }
}

/// The date column of a branch: its last commit day in local time, or
/// `---` when it has no commit time (or the time has no local day). A
/// commit time in calendar range always shows the day of that very time,
/// shifted by some local offset of less than a day, in at least ten
/// characters and never `---`; the offset depends on the time zone.
pub fn commit_date_text(last_commit_date: Option<i64>) -> (t: String)
    ensures
        last_commit_date is None ==> t@ == "---"@,
        last_commit_date matches Some(secs) && in_calendar_range(secs) ==> t@.len() >= 10
            && t@ != "---"@,
        match last_commit_date {
            Some(secs) => in_calendar_range(secs) ==> exists|off: i32|
                -86400 < off < 86400 && t@ == naive_day_text(secs, off),
            None => true,
        },
{
    proof {
        reveal_strlit("---");
    }
    match last_commit_date {
        Some(secs) => date_cell_text(local_day(secs)),
        None => date_cell_text(None),
    }
}

/// How a cell is coloured.
#[derive(Clone, Copy, Debug, PartialEq, Eq, Structural)]
pub enum Tone {
    Plain,
    Accent,
    Muted,
    Text,
    Current,
    Opened,
    Merged,
    Closed,
    Error,
}

/// The pull-request part of a table row: the status letter and the text.
pub struct PrCell {
    pub status: String,
    pub text: String,
    pub tone: Tone,
}

/// The status letter of a pull request.
pub open spec fn status_letter(s: PRStatus) -> Seq<char> {
    match s {
        PRStatus::OPENED => "O"@,
        PRStatus::MERGED => "M"@,
        PRStatus::CLOSED => "C"@,
    }
}

/// The colour of a pull request.
pub open spec fn status_tone(s: PRStatus) -> Tone {
    match s {
        PRStatus::OPENED => Tone::Opened,
        PRStatus::MERGED => Tone::Merged,
        PRStatus::CLOSED => Tone::Closed,
    }
}

/// What a row shows of a pull-request result: the spinner while it is
/// looked up, the letter and title of a found one, `No PR` when there is
/// none, the error text when the lookup failed.
pub fn pr_cell(pr: &PRResult, spinner: &str) -> (c: PrCell)
    ensures
        match *pr {
            Ok(None) => c.status@ == Seq::<char>::empty() && c.text@ == " "@ + spinner@ && c.tone
                == Tone::Muted,
            Ok(Some(p)) => c.status@ == status_letter(p.status) && c.text@ == p.title@ && c.tone
                == status_tone(p.status),
            Err(GSWRError::PR_NOT_FOUND) => c.status@ == Seq::<char>::empty() && c.text@ == "No PR"@
                && c.tone == Tone::Muted,
            Err(GSWRError::Custom(m)) => c.status@ == Seq::<char>::empty() && c.text@ == m@ && c.tone
                == Tone::Error,
        },
{
    match pr {
        Ok(None) => {
            let mut text = String::from_str(" ");
            text.append(spinner);
            PrCell { status: String::new(), text, tone: Tone::Muted }
        },
        Ok(Some(p)) => {
            let (status, tone) = match p.status {
                PRStatus::OPENED => (String::from_str("O"), Tone::Opened),
                PRStatus::MERGED => (String::from_str("M"), Tone::Merged),
                PRStatus::CLOSED => (String::from_str("C"), Tone::Closed),
            };
            PrCell { status, text: p.title.clone(), tone }
        },
        Err(GSWRError::PR_NOT_FOUND) => PrCell {
            status: String::new(),
            text: String::from_str("No PR"),
            tone: Tone::Muted,
        },
        Err(GSWRError::Custom(m)) => PrCell {
            status: String::new(),
            text: m.clone(),
            tone: Tone::Error,
        },
    }
}

/// The name column of a row: a dot marks the checked-out branch.
pub open spec fn branch_label(name: Seq<char>, is_current: bool) -> Seq<char> {
    if is_current {
        " ● "@ + name
    } else {
        "   "@ + name
    }
}

/// The texts of one row of the branch table, each cut to its column.
pub struct RowCells {
    pub name: String,
    pub date: String,
    pub status: String,
    pub pr: String,
    pub name_tone: Tone,
    pub pr_tone: Tone,
}

/// Every cut of a row is defined for these widths.
pub open spec fn row_fits(b: BranchInfo, commit_date: Seq<char>, spinner: Seq<char>, w: ColumnWidths) -> bool {
    &&& truncation_defined(branch_label(b.name@, b.is_current).len(), w.branch as nat)
    &&& truncation_defined(commit_date.len(), w.date as nat)
    &&& truncation_defined(pr_text(b.pr, spinner).len(), w.pr as nat)
}

/// The pull-request text of a row before it is cut.
pub open spec fn pr_text(pr: PRResult, spinner: Seq<char>) -> Seq<char> {
    match pr {
        Ok(None) => " "@ + spinner,
        Ok(Some(p)) => p.title@,
        Err(GSWRError::PR_NOT_FOUND) => "No PR"@,
        Err(GSWRError::Custom(m)) => m@,
    }
}

fn fits(len: usize, max_chars: usize) -> (r: bool)
    ensures
        r == truncation_defined(len as nat, max_chars as nat),
{
    max_chars == 0 || len <= max_chars || max_chars >= 3
}

/// Whether `branch_row` is defined for this branch, date text, spinner and
/// widths (see `row_fits`).
pub fn row_fits_check(b: &BranchInfo, commit_date: &str, spinner: &str, w: ColumnWidths) -> (r: bool)
    ensures
        r == row_fits(*b, commit_date@, spinner@, w),
{
    proof {
        reveal_strlit(" ● ");
        reveal_strlit("   ");
        reveal_strlit(" ");
        reveal_strlit("No PR");
    }
    let name_len = b.name.as_str().unicode_len();
    let label_ok = if name_len > usize::MAX - 3 {
        w.branch == 0 || w.branch >= 3
    } else {
        fits(name_len + 3, w.branch)
    };
    let pr_ok = match &b.pr {
        Ok(None) => {
            let n = spinner.unicode_len();
            if n > usize::MAX - 1 {
                w.pr == 0 || w.pr >= 3
            } else {
                fits(n + 1, w.pr)
            }
        },
        Ok(Some(p)) => fits(p.title.as_str().unicode_len(), w.pr),
        Err(GSWRError::PR_NOT_FOUND) => fits(5, w.pr),
        Err(GSWRError::Custom(m)) => fits(m.as_str().unicode_len(), w.pr),
    };
    label_ok && fits(commit_date.unicode_len(), w.date) && pr_ok
}

/// One row of the branch table: the branch label, its last commit date
/// (`commit_date`, already written out), and its pull request.
pub fn branch_row(b: &BranchInfo, commit_date: &str, spinner: &str, w: ColumnWidths) -> (r: RowCells)
    requires
        row_fits(*b, commit_date@, spinner@, w),
    ensures
        r.name@ == truncated(branch_label(b.name@, b.is_current), w.branch as nat),
        r.date@ == truncated(commit_date@, w.date as nat),
        r.pr@ == truncated(pr_text(b.pr, spinner@), w.pr as nat),
        r.name_tone == if b.is_current {
            Tone::Current
        } else {
            Tone::Text
        },
        match b.pr {
            Ok(Some(p)) => r.status@ == status_letter(p.status) && r.pr_tone == status_tone(p.status),
            Err(GSWRError::Custom(_)) => r.status@ == Seq::<char>::empty() && r.pr_tone == Tone::Error,
            _ => r.status@ == Seq::<char>::empty() && r.pr_tone == Tone::Muted,
        },
{
    let cell = pr_cell(&b.pr, spinner);
    let mut label = if b.is_current {
        String::from_str(" ● ")
    } else {
        String::from_str("   ")
    };
    label.append(b.name.as_str());
    let name = truncate(label.as_str(), w.branch);
    let date = truncate(commit_date, w.date);
    let pr = truncate(cell.text.as_str(), w.pr);
    let name_tone = if b.is_current {
        Tone::Current
    } else {
        Tone::Text
    };
    RowCells { name, date, status: cell.status, pr, name_tone, pr_tone: cell.tone }
}

/// Height of the inline view for `branch_count` branches: four lines
/// more than the branches, at least 6 and at most 20. The count is taken
/// modulo 65536, as a 16-bit line count.
pub open spec fn view_height(branch_count: nat) -> int {
    let h: int = (branch_count % 65536) as int + 4;
    if h > 20 {
        20
    } else if h < 6 {
        6
    } else {
        h
    }
}

/// Height of the inline view (see `view_height`).
pub fn viewport_height(branch_count: usize) -> (h: u16)
    requires
        branch_count % 65536 + 4 <= u16::MAX,
    ensures
        h == view_height(branch_count as nat),
{
    let lines: u16 = (branch_count % 65536) as u16 + 4;
    let h = if lines > 20 {
        20
    } else {
        lines
    };
    if h < 6 {
        6
    } else {
        h
    }
}

/// What the footer line shows.
pub enum FooterContent {
    /// The last error.
    Error(String),
    /// The sync prompt.
    SyncPrompt,
    /// The key help, followed by the last commit message of the selected
    /// branch when it has a non-empty one.
    Help(Option<String>),
}

/// The footer: the last error if any, else the sync prompt while it is
/// open, else the key help with the selected branch's last commit message.
pub fn footer(app: &App) -> (f: FooterContent)
    ensures
        match app.error_message {
            Some(m) => f == FooterContent::Error(m),
            None => if app.confirming_sync {
                f == FooterContent::SyncPrompt
            } else {
                let bs = app.local_branches@;
                let i = app.selected as int;
                if i < bs.len() && (bs[i].last_commit_msg matches Some(m) && m@.len() > 0) {
                    f == FooterContent::Help(bs[i].last_commit_msg)
                } else {
                    f == FooterContent::Help(None)
                }
            },
        },
{
    match &app.error_message {
        Some(m) => FooterContent::Error(m.clone()),
        None => {
            if app.confirming_sync {
                FooterContent::SyncPrompt
            } else {
                let i = app.selected as usize;
                if i < app.local_branches.len() {
                    match &app.local_branches[i].last_commit_msg {
                        Some(m) => {
                            if m.as_str().unicode_len() > 0 {
                                FooterContent::Help(Some(m.clone()))
                            } else {
                                FooterContent::Help(None)
                            }
                        },
                        None => FooterContent::Help(None),
                    }
                } else {
                    FooterContent::Help(None)
                }
            }
        },
    }
}

/// A piece of the footer line.
pub struct FooterSpan {
    pub text: String,
    pub tone: Tone,
    pub bold: bool,
    pub italic: bool,
}

/// What a footer shows: each piece's text, colour, weight and slant.
pub open spec fn span_views(spans: Seq<FooterSpan>) -> Seq<(Seq<char>, Tone, bool, bool)> {
    spans.map_values(|s: FooterSpan| (s.text@, s.tone, s.bold, s.italic))
}

/// The key help.
pub open spec fn helper_spans() -> Seq<(Seq<char>, Tone, bool, bool)> {
    seq![
        (" "@, Tone::Plain, false, false),
        ("↑↓ jk"@, Tone::Accent, false, false),
        (" navigate  "@, Tone::Muted, false, false),
        ("↵"@, Tone::Accent, false, false),
        (" switch  "@, Tone::Muted, false, false),
        ("q"@, Tone::Accent, false, false),
        (" quit  "@, Tone::Muted, false, false),
        ("^s"@, Tone::Accent, false, false),
        (" sync  "@, Tone::Muted, false, false),
        ("⇧D"@, Tone::Accent, false, false),
        (" delete"@, Tone::Muted, false, false),
    ]
}

/// The sync prompt.
pub open spec fn sync_prompt_spans() -> Seq<(Seq<char>, Tone, bool, bool)> {
    seq![
        (" "@, Tone::Plain, false, false),
        ("⚠️ All local branches linked to a merged ("@, Tone::Muted, false, false),
        ("M"@, Tone::Merged, true, false),
        (") or closed ("@, Tone::Muted, false, false),
        ("C"@, Tone::Closed, true, false),
        (") PR will be deleted. Press "@, Tone::Muted, false, false),
        ("↵"@, Tone::Accent, false, false),
        (" to confirm. Press "@, Tone::Muted, false, false),
        ("c"@, Tone::Accent, false, false),
        (" to cancel."@, Tone::Muted, false, false),
    ]
}

fn span(text: &str, tone: Tone, bold: bool) -> (s: FooterSpan)
    ensures
        s.text@ == text@,
        s.tone == tone,
        s.bold == bold,
        !s.italic,
{
    FooterSpan { text: String::from_str(text), tone, bold, italic: false }
}

/// The fixed footer lines.
pub struct Footer {}

impl Footer {
    /// The key help line.
    pub fn helper() -> (spans: Vec<FooterSpan>)
        ensures
            span_views(spans@) == helper_spans(),
    {
        let mut v: Vec<FooterSpan> = Vec::new();
        v.push(span(" ", Tone::Plain, false));
        v.push(span("↑↓ jk", Tone::Accent, false));
        v.push(span(" navigate  ", Tone::Muted, false));
        v.push(span("↵", Tone::Accent, false));
        v.push(span(" switch  ", Tone::Muted, false));
        v.push(span("q", Tone::Accent, false));
        v.push(span(" quit  ", Tone::Muted, false));
        v.push(span("^s", Tone::Accent, false));
        v.push(span(" sync  ", Tone::Muted, false));
        v.push(span("⇧D", Tone::Accent, false));
        v.push(span(" delete", Tone::Muted, false));
        assert(span_views(v@) =~= helper_spans());
        v
    }

    /// The sync prompt line.
    pub fn sync() -> (spans: Vec<FooterSpan>)
        ensures
            span_views(spans@) == sync_prompt_spans(),
    {
        let mut v: Vec<FooterSpan> = Vec::new();
        v.push(span(" ", Tone::Plain, false));
        v.push(span("⚠️ All local branches linked to a merged (", Tone::Muted, false));
        v.push(span("M", Tone::Merged, true));
        v.push(span(") or closed (", Tone::Muted, false));
        v.push(span("C", Tone::Closed, true));
        v.push(span(") PR will be deleted. Press ", Tone::Muted, false));
        v.push(span("↵", Tone::Accent, false));
        v.push(span(" to confirm. Press ", Tone::Muted, false));
        v.push(span("c", Tone::Accent, false));
        v.push(span(" to cancel.", Tone::Muted, false));
        assert(span_views(v@) =~= sync_prompt_spans());
        v
    }
}

/// The last commit message of the selected branch, or nothing.
pub open spec fn selected_hint(app: App) -> Seq<char> {
    let bs = app.local_branches@;
    let i = app.selected as int;
    if i < bs.len() && bs[i].last_commit_msg is Some {
        bs[i].last_commit_msg->Some_0@
    } else {
        Seq::empty()
    }
}

/// The whole footer line: a space and the last error in red; else the
/// sync prompt while it is open; else the key help, followed, when the
/// selected branch has a non-empty last commit message, by
/// `   Last commit: ` and that message in italics.
pub open spec fn footer_line(app: App) -> Seq<(Seq<char>, Tone, bool, bool)> {
    match app.error_message {
        Some(m) => seq![(" "@, Tone::Plain, false, false), (m@, Tone::Error, false, false)],
        None => if app.confirming_sync {
            sync_prompt_spans()
        } else if selected_hint(app).len() > 0 {
            helper_spans() + seq![
                ("   Last commit: "@, Tone::Muted, false, false),
                (selected_hint(app), Tone::Text, false, true),
            ]
        } else {
            helper_spans()
        },
    }
}

/// The pieces of the footer line (see `footer_line`).
pub fn footer_spans(app: &App) -> (spans: Vec<FooterSpan>)
    ensures
        span_views(spans@) == footer_line(*app),
{
    match footer(app) {
        FooterContent::Error(m) => {
            let mut v: Vec<FooterSpan> = Vec::new();
            v.push(span(" ", Tone::Plain, false));
            v.push(FooterSpan { text: m, tone: Tone::Error, bold: false, italic: false });
            assert(span_views(v@) =~= footer_line(*app));
            v
        },
        FooterContent::SyncPrompt => Footer::sync(),
        FooterContent::Help(hint) => {
            let mut v = Footer::helper();
            match hint {
                Some(h) => {
                    let ghost before = v@;
                    v.push(span("   Last commit: ", Tone::Muted, false));
                    v.push(FooterSpan { text: h, tone: Tone::Text, bold: false, italic: true });
                    assert(span_views(v@) =~= span_views(before) + seq![
                        ("   Last commit: "@, Tone::Muted, false, false),
                        (selected_hint(*app), Tone::Text, false, true),
                    ]);
                },
                None => {},
            }
            v
        },
    }
}

} // verus!
