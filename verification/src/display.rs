//! What is shown of a record, as far as it can be said without painting.
//!
//! Widths are counted in terminal columns, which `unicode-width` knows; the
//! library speaks of them by name.

use crate::model::{CommitInfo, Worktree, WorktreeView};
use crate::state::SPINNER_FRAMES;
use crate::text::{chars_of, count_string, decimal, push_chars, push_text};
use unicode_width::{UnicodeWidthChar, UnicodeWidthStr};
use vstd::prelude::*;

verus! {

// ---------------------------------------------------------------------------
// Widths
// ---------------------------------------------------------------------------

/// The number of columns that `unicode-width` gives the text `s`.
pub uninterp spec fn text_columns(s: Seq<char>) -> nat;

/// The number of columns that `unicode-width` gives the character `c` by
/// itself, `None` for a control character.
pub uninterp spec fn char_columns(c: char) -> Option<usize>;

/// `UnicodeWidthStr::width`: the displayed width of `s` in columns. It
/// depends on the characters of `s` alone, and is not always the sum of the
/// widths of its characters; nothing more is claimed about it.
#[verifier::external_body]
fn str_width(s: &str) -> (r: usize)
    ensures
        r == text_columns(s@),
{
    UnicodeWidthStr::width(s)
}

/// `UnicodeWidthChar::width`: the displayed width of `c` in columns, `None`
/// for a control character. It depends on `c` alone; nothing more is claimed
/// about it.
#[verifier::external_body]
fn char_width(c: char) -> (r: Option<usize>)
    ensures
        r == char_columns(c),
{
    UnicodeWidthChar::width(c)
}

/// The widths of the characters of `s`, each by itself.
pub open spec fn widths_of(s: Seq<char>) -> Seq<Option<usize>> {
    Seq::new(s.len(), |i: int| char_columns(s[i]))
}

/// The columns that the character at position `i` takes in a truncated
/// text, given the widths of the characters: a control character takes none,
/// and neither does a character whose width is not given.
pub open spec fn columns_at(widths: Seq<Option<usize>>, i: int) -> nat {
    if 0 <= i < widths.len() {
        match widths[i] {
            Some(w) => w as nat,
            None => 0,
        }
    } else {
        0
    }
}

/// The columns that the characters at the positions `from..to` take, one by
/// one.
pub open spec fn columns_between(widths: Seq<Option<usize>>, from: int, to: int) -> nat
    decreases to - from,
{
    if from >= to {
        0
    } else {
        columns_between(widths, from, to - 1) + columns_at(widths, to - 1)
    }
}

/// How many columns the ellipsis takes.
pub const ELLIPSIS_COLUMNS: usize = 3;

// ---------------------------------------------------------------------------
// Truncation
// ---------------------------------------------------------------------------

/// How many of `len` characters are kept from the start, counting on from
/// `k`, when a text is cut to `max` columns: as many as fit together with
/// the ellipsis.
pub open spec fn kept_front(len: int, widths: Seq<Option<usize>>, max: nat, k: int) -> int
    decreases len - k,
{
    if k >= len {
        len
    } else if columns_between(widths, 0, k + 1) + ELLIPSIS_COLUMNS > max {
        k
    } else {
        kept_front(len, widths, max, k + 1)
    }
}

/// The text `s` cut to `max` columns, given that the whole of it takes
/// `whole` columns and its characters take `widths`: `s` itself where it
/// fits, else as much of its start as fits together with an ellipsis, and
/// the ellipsis.
pub open spec fn cut_at_end(
    s: Seq<char>,
    whole: nat,
    widths: Seq<Option<usize>>,
    max: nat,
) -> Seq<char> {
    if whole <= max {
        s
    } else {
        let k = kept_front(s.len() as int, widths, max, 0);
        if k < s.len() {
            s.take(k) + "..."@
        } else {
            s
        }
    }
}

/// The text `s` cut to `max` columns: `s` itself where it fits, else as much
/// of its start as fits together with an ellipsis, and the ellipsis.
pub open spec fn truncated(s: Seq<char>, max: nat) -> Seq<char> {
    cut_at_end(s, text_columns(s), widths_of(s), max)
}

/// The widths of the characters `chars`, each by itself.
fn char_widths(chars: &Vec<char>) -> (r: Vec<Option<usize>>)
    ensures
        r@ == widths_of(chars@),
{
    let mut r: Vec<Option<usize>> = Vec::new();
    let mut i: usize = 0;
    while i < chars.len()
        invariant
            i <= chars.len(),
            r.len() == i,
            forall|j: int| 0 <= j < i ==> #[trigger] r[j] == char_columns(chars[j]),
        decreases chars.len() - i,
    {
        r.push(char_width(chars[i]));
        i += 1;
    }
    assert(r@ =~= widths_of(chars@));
    r
}

/// The columns that the character at position `i` takes, given the widths.
fn width_of(widths: &Vec<Option<usize>>, i: usize) -> (r: usize)
    ensures
        r == columns_at(widths@, i as int),
{
    if i < widths.len() {
        match widths[i] {
            Some(w) => w,
            None => 0,
        }
    } else {
        0
    }
}

/// The text `s` cut to `max_len` columns, the whole of it taking `whole`
/// columns and its characters taking `widths`, with an ellipsis at its end
/// where something was cut off.
pub fn truncate_measured(s: &str, whole: usize, widths: &Vec<Option<usize>>, max_len: usize) -> (r:
    String)
    ensures
        r@ == cut_at_end(s@, whole as nat, widths@, max_len as nat),
{
    if whole <= max_len {
        return s.to_owned();
    }
    let chars = chars_of(s);
    let mut width: usize = 0;
    let mut k: usize = 0;
    let mut cut = false;
    while k < chars.len() && !cut
        invariant
            k <= chars.len(),
            chars@ == s@,
            width == columns_between(widths@, 0, k as int),
            !cut ==> kept_front(chars.len() as int, widths@, max_len as nat, 0) == kept_front(
                chars.len() as int,
                widths@,
                max_len as nat,
                k as int,
            ),
            cut ==> k < chars.len() && kept_front(chars.len() as int, widths@, max_len as nat, 0)
                == k,
            k > 0 ==> width + ELLIPSIS_COLUMNS <= max_len,
        decreases chars.len() - k, !cut as int,
    {
        let columns = width_of(widths, k);
        let fits = max_len >= ELLIPSIS_COLUMNS && width <= max_len - ELLIPSIS_COLUMNS && columns
            <= max_len - ELLIPSIS_COLUMNS - width;
        if fits {
            width = width + columns;
            k += 1;
        } else {
            cut = true;
        }
    }
    let mut r = String::new();
    push_chars(&mut r, &chars, 0, k);
    if cut {
        push_text(&mut r, "...");
    }
    assert(chars@.subrange(0, k as int) =~= s@.take(k as int));
    assert(!cut ==> s@.take(k as int) =~= s@);
    r
}

/// The text `s` cut to `max_len` columns, with an ellipsis at its end where
/// something was cut off.
pub fn truncate_str(s: &str, max_len: usize) -> (r: String)
    ensures
        r@ == truncated(s@, max_len as nat),
{
    let whole = str_width(s);
    if whole <= max_len {
        return s.to_owned();
    }
    let chars = chars_of(s);
    let widths = char_widths(&chars);
    truncate_measured(s, whole, &widths, max_len)
}

/// How many of `len` characters are kept at the end, counting on from `k`
/// kept ones, when a path is cut to `max` columns: as many as fit behind the
/// ellipsis.
pub open spec fn kept_back(len: int, widths: Seq<Option<usize>>, max: nat, k: int) -> int
    decreases len - k,
{
    if k >= len {
        len
    } else if ELLIPSIS_COLUMNS + columns_between(widths, len - k - 1, len) > max {
        k
    } else {
        kept_back(len, widths, max, k + 1)
    }
}

/// The path `s` cut to `max` columns, given that the whole of it takes
/// `whole` columns and its characters take `widths`: `s` itself where it
/// fits, else an ellipsis and as much of its end as fits behind it.
pub open spec fn cut_at_start(
    s: Seq<char>,
    whole: nat,
    widths: Seq<Option<usize>>,
    max: nat,
) -> Seq<char> {
    if whole <= max {
        s
    } else {
        "..."@ + s.subrange(s.len() - kept_back(s.len() as int, widths, max, 0), s.len() as int)
    }
}

/// The path `s` cut to `max` columns: `s` itself where it fits, else an
/// ellipsis and as much of its end as fits behind it.
pub open spec fn truncated_path(s: Seq<char>, max: nat) -> Seq<char> {
    cut_at_start(s, text_columns(s), widths_of(s), max)
}

/// The columns of a range are those of its first character and of the rest.
proof fn lemma_columns_front(widths: Seq<Option<usize>>, from: int, to: int)
    requires
        from < to,
    ensures
        columns_between(widths, from, to) == columns_at(widths, from) + columns_between(
            widths,
            from + 1,
            to,
        ),
    decreases to - from,
{
    if from + 1 < to {
        lemma_columns_front(widths, from, to - 1);
        assert(columns_between(widths, from + 1, to) == columns_between(widths, from + 1, to - 1)
            + columns_at(widths, to - 1));
    } else {
        assert(columns_between(widths, from, to - 1) == 0);
        assert(columns_between(widths, from + 1, to) == 0);
    }
}

/// The path `path` cut to `max_len` columns, the whole of it taking `whole`
/// columns and its characters taking `widths`, with an ellipsis at its start
/// where something was cut off.
pub fn truncate_path_measured(
    path: &str,
    whole: usize,
    widths: &Vec<Option<usize>>,
    max_len: usize,
) -> (r: String)
    ensures
        r@ == cut_at_start(path@, whole as nat, widths@, max_len as nat),
{
    if whole <= max_len {
        return path.to_owned();
    }
    let chars = chars_of(path);
    let n = chars.len();
    let mut width: usize = 0;
    let mut k: usize = 0;
    let mut cut = false;
    while k < n && !cut
        invariant
            k <= n,
            n == chars.len(),
            chars@ == path@,
            width == columns_between(widths@, n - k, n as int),
            !cut ==> kept_back(n as int, widths@, max_len as nat, 0) == kept_back(
                n as int,
                widths@,
                max_len as nat,
                k as int,
            ),
            cut ==> kept_back(n as int, widths@, max_len as nat, 0) == k,
            k > 0 ==> width + ELLIPSIS_COLUMNS <= max_len,
        decreases n - k, !cut as int,
    {
        let columns = width_of(widths, n - 1 - k);
        proof {
            lemma_columns_front(widths@, n - k - 1, n as int);
        }
        let fits = max_len >= ELLIPSIS_COLUMNS && width <= max_len - ELLIPSIS_COLUMNS && columns
            <= max_len - ELLIPSIS_COLUMNS - width;
        if fits {
            width = width + columns;
            k += 1;
        } else {
            cut = true;
        }
    }
    let mut r = "...".to_owned();
    push_chars(&mut r, &chars, n - k, n);
    r
}

/// The path `path` cut to `max_len` columns, with an ellipsis at its start
/// where something was cut off: of a path the end tells more than the start.
pub fn truncate_path(path: &str, max_len: usize) -> (r: String)
    ensures
        r@ == truncated_path(path@, max_len as nat),
{
    let whole = str_width(path);
    if whole <= max_len {
        return path.to_owned();
    }
    let chars = chars_of(path);
    let widths = char_widths(&chars);
    truncate_path_measured(path, whole, &widths, max_len)
}

// ---------------------------------------------------------------------------
// Rows of the list
// ---------------------------------------------------------------------------

/// The sign in front of a row.
#[derive(Debug, Clone, Copy, PartialEq, Eq, Structural)]
pub enum RowIcon {
    Current,
    Main,
    Locked,
    Prunable,
    Linked,
}

/// The sign in front of the row of `w`: what is most worth knowing of it,
/// that it is the worktree one stands in before that it is the main one,
/// then that it is locked, then that it is gone.
pub open spec fn icon_of(w: WorktreeView) -> RowIcon {
    if w.is_current {
        RowIcon::Current
    } else if w.is_main {
        RowIcon::Main
    } else if w.is_locked {
        RowIcon::Locked
    } else if w.is_prunable {
        RowIcon::Prunable
    } else {
        RowIcon::Linked
    }
}

/// The sign in front of the row of `w`.
pub fn row_icon(w: &Worktree) -> (r: RowIcon)
    ensures
        r == icon_of(w@),
{
    if w.is_current {
        RowIcon::Current
    } else if w.is_main {
        RowIcon::Main
    } else if w.is_locked {
        RowIcon::Locked
    } else if w.is_prunable {
        RowIcon::Prunable
    } else {
        RowIcon::Linked
    }
}

/// How many rows carry the number of the key that jumps to them.
pub const NUMBERED_ROWS: usize = 9;

/// The number shown in front of the row at `position`: the digit that jumps
/// to it, for the first nine rows.
pub fn row_number(position: usize) -> (r: Option<usize>)
    ensures
        r == (if position < NUMBERED_ROWS {
            Some((position + 1) as usize)
        } else {
            None
        }),
{
    if position < NUMBERED_ROWS {
        Some(position + 1)
    } else {
        None
    }
}

/// Whether the commit of `w` is shown as that of the main worktree: it is
/// for the main worktree itself, and for every worktree at the same commit.
pub open spec fn at_main_commit(w: WorktreeView, main: Option<WorktreeView>) -> bool {
    w.is_main || (main matches Some(m) && w.commit == m.commit)
}

/// Whether the commit of `w` is shown as that of the main worktree.
pub fn is_at_main_commit(w: &Worktree, main: Option<&Worktree>) -> (r: bool)
    ensures
        r == at_main_commit(w@, main.deep_view()),
{
    if w.is_main {
        return true;
    }
    match main {
        Some(m) => w.commit == m.commit,
        None => false,
    }
}

// ---------------------------------------------------------------------------
// The details panel
// ---------------------------------------------------------------------------

/// The age shown beside the HEAD commit: that of the newest commit of the
/// history, and nothing where there is no history.
pub open spec fn head_age_of(w: WorktreeView) -> Seq<char> {
    if w.recent_commits.len() > 0 {
        w.recent_commits[0].time_ago
    } else {
        Seq::empty()
    }
}

/// The age shown beside the HEAD commit.
pub fn head_age(w: &Worktree) -> (r: String)
    ensures
        r@ == head_age_of(w@),
{
    if w.recent_commits.len() > 0 {
        assert(w.recent_commits.deep_view()[0] == w.recent_commits[0]@);
        w.recent_commits[0].time_ago.clone()
    } else {
        String::new()
    }
}

/// How many commits the history below the HEAD commit shows at most.
pub const HISTORY_ROWS: usize = 8;

/// The part of the history that is listed below the HEAD commit, as a range
/// of positions: the commits behind the newest one, [`HISTORY_ROWS`] at
/// most, and none where the history is switched off or holds the HEAD commit
/// only.
pub open spec fn history_range(len: nat, shown: bool) -> (nat, nat) {
    if shown && len > 1 {
        (
            1,
            if len <= HISTORY_ROWS + 1 {
                len
            } else {
                (HISTORY_ROWS + 1) as nat
            },
        )
    } else {
        (0, 0)
    }
}

/// The commits listed below the HEAD commit.
pub fn older_commits(w: &Worktree, show_recent_commits: bool) -> (r: Vec<CommitInfo>)
    ensures
        r.deep_view() == w@.recent_commits.subrange(
            history_range(w@.recent_commits.len(), show_recent_commits).0 as int,
            history_range(w@.recent_commits.len(), show_recent_commits).1 as int,
        ),
{
    let len = w.recent_commits.len();
    let mut r: Vec<CommitInfo> = Vec::new();
    if show_recent_commits && len > 1 {
        let end: usize = if len <= HISTORY_ROWS + 1 {
            len
        } else {
            HISTORY_ROWS + 1
        };
        let mut i: usize = 1;
        while i < end
            invariant
                1 <= i <= end <= len,
                len == w.recent_commits.len(),
                r.len() == i - 1,
                forall|j: int| 0 <= j < i - 1 ==> (#[trigger] r[j])@ == w.recent_commits[j + 1]@,
            decreases end - i,
        {
            r.push(w.recent_commits[i].clone());
            i += 1;
        }
        assert(r.deep_view() =~= w@.recent_commits.subrange(1, end as int));
    } else {
        assert(r.deep_view() =~= w@.recent_commits.subrange(0, 0));
    }
    r
}

/// Why a worktree is locked, as shown.
pub open spec fn lock_note_of(w: WorktreeView) -> Seq<char> {
    match w.lock_reason {
        Some(reason) => reason,
        None => "no reason provided"@,
    }
}

/// Why a worktree is locked, as shown.
pub fn lock_note(w: &Worktree) -> (r: &str)
    ensures
        r@ == lock_note_of(w@),
{
    match &w.lock_reason {
        Some(reason) => reason.as_str(),
        None => "no reason provided",
    }
}

// ---------------------------------------------------------------------------
// Bars
// ---------------------------------------------------------------------------

/// How many rows of the list's area are not entries: its two borders, its
/// header and the gap beneath the header.
pub const LIST_FRAME_ROWS: u16 = 4;

/// Whether the list needs a scrollbar: it does where it has more entries
/// than its area has rows for them.
pub fn needs_scrollbar(entries: usize, area_height: u16) -> (r: bool)
    ensures
        r == (entries > area_height - LIST_FRAME_ROWS),
{
    if area_height < LIST_FRAME_ROWS {
        true
    } else {
        entries > (area_height - LIST_FRAME_ROWS) as usize
    }
}

/// The text of the search bar: the query and how many records pass it.
pub fn search_bar_text(query: &str, matches: usize) -> (r: String)
    ensures
        r@ == query@ + "  ("@ + decimal(matches as int) + " matches)"@,
{
    let mut r = query.to_owned();
    push_text(&mut r, "  (");
    let count = count_string(matches);
    push_text(&mut r, count.as_str());
    push_text(&mut r, " matches)");
    r
}

/// The sign of the spinner at the frame `frame`.
pub open spec fn spinner_sign(frame: nat) -> char {
    let f = frame % (SPINNER_FRAMES as nat);
    if f == 0 {
        '\u{280b}'
    } else if f == 1 {
        '\u{2819}'
    } else if f == 2 {
        '\u{2839}'
    } else if f == 3 {
        '\u{2838}'
    } else if f == 4 {
        '\u{283c}'
    } else if f == 5 {
        '\u{2834}'
    } else if f == 6 {
        '\u{2826}'
    } else if f == 7 {
        '\u{2827}'
    } else if f == 8 {
        '\u{2807}'
    } else {
        '\u{280f}'
    }
}

/// The sign of the spinner at the frame `frame`; the frames go round.
pub fn spinner_glyph(frame: usize) -> (r: char)
    ensures
        r == spinner_sign(frame as nat),
{
    let f = frame % SPINNER_FRAMES;
    if f == 0 {
        '\u{280b}'
    } else if f == 1 {
        '\u{2819}'
    } else if f == 2 {
        '\u{2839}'
    } else if f == 3 {
        '\u{2838}'
    } else if f == 4 {
        '\u{283c}'
    } else if f == 5 {
        '\u{2834}'
    } else if f == 6 {
        '\u{2826}'
    } else if f == 7 {
        '\u{2827}'
    } else if f == 8 {
        '\u{2807}'
    } else {
        '\u{280f}'
    }
}

} // verus!
