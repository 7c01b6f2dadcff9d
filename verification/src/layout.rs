//! Screen geometry and the pieces of the usage bars and colours: where the
//! dialogs and the toast sit, and how a bar is drawn.

use vstd::prelude::*;
use crate::text::{
    decimal, decimal_spec, lemma_decimal_len_below_1000, pad_left, pad_left_spec, repeat_char,
    repeat_spec, text_eq,
};

verus! {

/// A rectangle of terminal cells.
#[derive(Clone, Copy, Debug, PartialEq, Eq, Structural)]
pub struct Area {
    pub x: u16,
    pub y: u16,
    pub width: u16,
    pub height: u16,
}

/// `v`, but no more than `max`.
pub open spec fn clamp_to(v: u16, max: int) -> u16 {
    if v > max { max as u16 } else { v }
}

/// The area of ratatui's `Rect::new(x, y, width, height)`.
///
/// Trusted: ratatui 0.29's `Rect::new` keeps `x` and `y` and shortens the
/// width and height so that the rectangle ends at `u16::MAX` at the latest;
/// the contract states exactly that of the fields it reads back.
#[verifier::external_body]
fn rect_new(x: u16, y: u16, width: u16, height: u16) -> (res: Area)
    ensures
        res.x == x,
        res.y == y,
        res.width == clamp_to(width, u16::MAX - x),
        res.height == clamp_to(height, u16::MAX - y),
{
    let r = ratatui::layout::Rect::new(x, y, width, height);
    Area { x: r.x, y: r.y, width: r.width, height: r.height }
}

/// `pct` percent of `len`, rounded down, and no more than `len`.
pub open spec fn percent_of(len: u16, pct: u16) -> u16 {
    let v = (len * pct / 100) as u16;
    if v < len { v } else { len }
}

/// The left (or top) edge of a span `inner` long centred in a span
/// `outer` long that starts at `start`.
pub open spec fn centered_start(start: u16, outer: u16, inner: u16) -> int {
    start + (outer - inner) / 2
}

/// `centered_rect` computes without overflow: the percentages of the
/// parent's size and the centred position fit in a `u16`.
pub open spec fn centered_rect_fits(pct_x: u16, pct_y: u16, parent: Area) -> bool {
    &&& parent.width * pct_x <= u16::MAX
    &&& parent.height * pct_y <= u16::MAX
    &&& centered_start(parent.x, parent.width, percent_of(parent.width, pct_x)) <= u16::MAX
    &&& centered_start(parent.y, parent.height, percent_of(parent.height, pct_y)) <= u16::MAX
}

/// A rectangle of `pct_x` by `pct_y` percent of `parent`, centred in it
/// (and cut off at the largest coordinate, as `Rect::new` does).
pub open spec fn centered_rect_spec(pct_x: u16, pct_y: u16, parent: Area) -> Area {
    let w = percent_of(parent.width, pct_x);
    let h = percent_of(parent.height, pct_y);
    let x = centered_start(parent.x, parent.width, w) as u16;
    let y = centered_start(parent.y, parent.height, h) as u16;
    Area { x, y, width: clamp_to(w, u16::MAX - x), height: clamp_to(h, u16::MAX - y) }
}

/// Computes a rectangle centred within `parent`, `pct_x` and `pct_y`
/// percent of its size.
pub fn centered_rect(pct_x: u16, pct_y: u16, parent: Area) -> (res: Area)
    requires
        centered_rect_fits(pct_x, pct_y, parent),
    ensures
        res == centered_rect_spec(pct_x, pct_y, parent),
{
    let w0 = parent.width * pct_x / 100;
    let w = if w0 < parent.width { w0 } else { parent.width };
    let h0 = parent.height * pct_y / 100;
    let h = if h0 < parent.height { h0 } else { parent.height };
    let x = parent.x + (parent.width - w) / 2;
    let y = parent.y + (parent.height - h) / 2;
    rect_new(x, y, w, h)
}

/// A centred rectangle of at most 100 percent lies inside its parent, is
/// `pct` percent of the parent's size (rounded down), and has margins on
/// either side that differ by at most one cell.
pub proof fn law_centered_rect(pct_x: u16, pct_y: u16, parent: Area)
    requires
        centered_rect_fits(pct_x, pct_y, parent),
        pct_x <= 100,
        pct_y <= 100,
        parent.x + parent.width <= u16::MAX,
        parent.y + parent.height <= u16::MAX,
    ensures
        ({
            let r = centered_rect_spec(pct_x, pct_y, parent);
            let left = r.x - parent.x;
            let right = parent.x + parent.width - (r.x + r.width);
            let top = r.y - parent.y;
            let bottom = parent.y + parent.height - (r.y + r.height);
            &&& r.width == parent.width * pct_x / 100
            &&& r.height == parent.height * pct_y / 100
            &&& 0 <= left && 0 <= right && (left == right || left + 1 == right)
            &&& 0 <= top && 0 <= bottom && (top == bottom || top + 1 == bottom)
        }),
{
    assert(parent.width * pct_x / 100 <= parent.width) by (nonlinear_arith)
        requires
            pct_x <= 100,
    ;
    assert(parent.height * pct_y / 100 <= parent.height) by (nonlinear_arith)
        requires
            pct_y <= 100,
    ;
}

/// A usage bar is filled cells followed by track cells: `used_slots`
/// filled ones (at most `width`), the rest track.
pub proof fn law_bar(used_slots: usize, width: usize)
    ensures
        bar_spec(used_slots, width).0.len() == (if used_slots < width { used_slots } else { width }),
        bar_spec(used_slots, width).0.len() + bar_spec(used_slots, width).1.len() == width,
        forall|i: int| 0 <= i < bar_spec(used_slots, width).0.len() ==> #[trigger] bar_spec(used_slots, width).0[i]
            == '\u{2587}',
        forall|i: int| 0 <= i < bar_spec(used_slots, width).1.len() ==> #[trigger] bar_spec(used_slots, width).1[i]
            == '\u{2592}',
{
}

/// The toast's width within a parent `width` cells wide: half of it, but
/// at least 20 cells.
pub open spec fn toast_width(width: u16) -> u16 {
    let half = percent_of(width, 50);
    if half < 20 { 20 } else { half }
}

/// `toast_rect` computes without overflow.
pub open spec fn toast_rect_fits(parent: Area) -> bool {
    let w = toast_width(parent.width);
    &&& parent.width * 50 <= u16::MAX
    &&& parent.x + (if parent.width >= w { parent.width - w } else { 0 }) / 2 <= u16::MAX
    &&& parent.y + (if parent.height >= 4 { parent.height - 4 } else { 0 }) <= u16::MAX
}

/// Where the toast goes: half the screen wide (at least 20 cells), three
/// rows tall, centred just above the bottom row.
pub open spec fn toast_rect_spec(parent: Area) -> Area {
    let w = toast_width(parent.width);
    let h: u16 = 3;
    let x = (parent.x + (if parent.width >= w { parent.width - w } else { 0 }) / 2) as u16;
    let y = (parent.y + (if parent.height >= 4 { parent.height - 4 } else { 0 })) as u16;
    let avail: u16 = if parent.height >= y { (parent.height - y) as u16 } else { 0 };
    Area {
        x,
        y,
        width: clamp_to(w, u16::MAX - x),
        height: clamp_to(if h < avail { h } else { avail }, u16::MAX - y),
    }
}

/// Computes the toast's rectangle within `parent`.
pub fn toast_rect(parent: Area) -> (res: Area)
    requires
        toast_rect_fits(parent),
    ensures
        res == toast_rect_spec(parent),
{
    let half0 = parent.width * 50 / 100;
    let half = if half0 < parent.width { half0 } else { parent.width };
    let w: u16 = if half < 20 { 20 } else { half };
    let h: u16 = 3;
    let x = parent.x + parent.width.saturating_sub(w) / 2;
    let y = parent.y + parent.height.saturating_sub(h + 1);
    let avail = parent.height.saturating_sub(y);
    let hh = if h < avail { h } else { avail };
    rect_new(x, y, w, hh)
}

// ── usage bars ─────────────────────────────────────────────────────────

/// Width of the usage bar in the mount list.
pub const BAR_W: usize = 10;

/// Width of the usage bar in the detail pane.
pub const BIG_BAR_W: usize = 30;

/// The filled character of a usage bar (lower seven-eighths block).
pub open spec fn fill_char() -> char {
    '\u{2587}'
}

/// The track character of a usage bar (medium shade).
pub open spec fn track_char() -> char {
    '\u{2592}'
}

/// The two parts of a usage bar `width` cells wide with `used_slots`
/// filled cells (at most `width`): the fill, then the track.
pub open spec fn bar_spec(used_slots: usize, width: usize) -> (Seq<char>, Seq<char>) {
    let used: nat = if used_slots < width { used_slots as nat } else { width as nat };
    (repeat_spec(fill_char(), used), repeat_spec(track_char(), (width - used) as nat))
}

/// Builds a usage bar: `used_slots` filled cells (at most `width`), the
/// rest track.  Every bar is exactly `width` characters long.
pub fn bar_strings(used_slots: usize, width: usize) -> (res: (String, String))
    ensures
        (res.0@, res.1@) == bar_spec(used_slots, width),
        res.0@.len() + res.1@.len() == width,
{
    if width == 0 {
        return (String::new(), String::new());
    }
    let used = if used_slots < width { used_slots } else { width };
    let free = width - used;
    (repeat_char('\u{2587}', used), repeat_char('\u{2592}', free))
}

/// Width of the usage column in the mount list: the bar, then the
/// percentage right-aligned in three digits between a space and `"% "`.
pub const USAGE_COLUMN_WIDTH: usize = 16;

/// The percentage after a list bar: `" {:>3}% "`.
pub open spec fn percent_text_spec(percent: nat) -> Seq<char> {
    seq![' '] + pad_left_spec(decimal_spec(percent), 3) + "% "@
}

/// What the list shows in the usage column of a filesystem that reports no
/// usage: an empty track and a dash, as wide as the column.
pub open spec fn usage_placeholder_spec() -> Seq<char> {
    repeat_spec(track_char(), BAR_W as nat) + "    - "@
}

/// The usage column of one list row.
#[derive(Debug)]
pub enum UsageCell {
    /// A bar (filled part, track) and the percentage.
    Bar { used: String, free: String, percent: String },
    /// No usage data.
    Placeholder(String),
}

/// A [`UsageCell`] with its texts as character sequences.
pub enum UsageCellView {
    Bar { used: Seq<char>, free: Seq<char>, percent: Seq<char> },
    Placeholder(Seq<char>),
}

impl View for UsageCell {
    type V = UsageCellView;

    open spec fn view(&self) -> UsageCellView {
        match self {
            UsageCell::Bar { used, free, percent } => UsageCellView::Bar {
                used: used@,
                free: free@,
                percent: percent@,
            },
            UsageCell::Placeholder(t) => UsageCellView::Placeholder(t@),
        }
    }
}

/// The usage column for `usage`: with `Some((used_slots, percent))` a bar
/// of [`BAR_W`] cells with `used_slots` filled and the rounded percentage,
/// with `None` the placeholder.
pub open spec fn usage_cell_spec(usage: Option<(usize, u64)>) -> UsageCellView {
    match usage {
        Some((slots, percent)) => UsageCellView::Bar {
            used: bar_spec(slots, BAR_W).0,
            free: bar_spec(slots, BAR_W).1,
            percent: percent_text_spec(percent as nat),
        },
        None => UsageCellView::Placeholder(usage_placeholder_spec()),
    }
}

/// How many characters a usage cell takes.
pub open spec fn usage_cell_len(c: UsageCellView) -> nat {
    match c {
        UsageCellView::Bar { used, free, percent } => used.len() + free.len() + percent.len(),
        UsageCellView::Placeholder(t) => t.len(),
    }
}

/// Builds the usage column of a list row.
pub fn usage_cell(usage: Option<(usize, u64)>) -> (res: UsageCell)
    ensures
        res@ == usage_cell_spec(usage),
{
    match usage {
        Some((slots, percent)) => {
            let (used, free) = bar_strings(slots, BAR_W);
            let mut text = String::new();
            crate::text::string_push(&mut text, ' ');
            let d = decimal(percent);
            let p = pad_left(d.as_str(), 3);
            crate::text::push_text(&mut text, p.as_str());
            crate::text::push_text(&mut text, "% ");
            assert(text@ =~= percent_text_spec(percent as nat));
            UsageCell::Bar { used, free, percent: text }
        },
        None => {
            let mut t = repeat_char('\u{2592}', BAR_W);
            crate::text::push_text(&mut t, "    - ");
            UsageCell::Placeholder(t)
        },
    }
}

/// The usage column has the same width on every row, with or without usage
/// data (percentages up to 999).
pub proof fn law_usage_column_width(usage: Option<(usize, u64)>)
    requires
        usage matches Some((_, p)) ==> p < 1000,
    ensures
        usage_cell_len(usage_cell_spec(usage)) == USAGE_COLUMN_WIDTH,
{
    match usage {
        Some((slots, percent)) => {
            lemma_decimal_len_below_1000(percent as nat);
            reveal_strlit("% ");
            let d = decimal_spec(percent as nat);
            assert(pad_left_spec(d, 3).len() == 3);
            assert(bar_spec(slots, BAR_W).0.len() + bar_spec(slots, BAR_W).1.len() == BAR_W);
        },
        None => {
            reveal_strlit("    - ");
        },
    }
}

/// How a list row is emphasised.
#[derive(Clone, Copy, Debug, PartialEq, Eq, Structural)]
pub enum RowStyle {
    /// The selected row while the list has focus: bold on a bright band.
    Highlighted,
    /// The selected row while the detail pane has focus: a dim band.
    Marked,
    /// Any other row.
    Plain,
}

/// The emphasis of a row: the selected row stands out, brightly while the
/// list has focus.
pub fn row_style(is_selected: bool, detail_focused: bool) -> (res: RowStyle)
    ensures
        res == (if is_selected && !detail_focused {
            RowStyle::Highlighted
        } else if is_selected {
            RowStyle::Marked
        } else {
            RowStyle::Plain
        }),
{
    if is_selected && !detail_focused {
        RowStyle::Highlighted
    } else if is_selected {
        RowStyle::Marked
    } else {
        RowStyle::Plain
    }
}

// ── colours ────────────────────────────────────────────────────────────

/// The list colour of a filesystem type, as red, green and blue.
pub open spec fn fs_color_spec(fs: Seq<char>) -> (u8, u8, u8) {
    if fs == "apfs"@ { (100, 210, 255) }
    else if fs == "hfs"@ { (200, 170, 255) }
    else if fs == "ext4"@ { (80, 230, 140) }
    else if fs == "ext3"@ { (60, 210, 120) }
    else if fs == "ext2"@ { (40, 190, 100) }
    else if fs == "xfs"@ { (240, 190, 80) }
    else if fs == "btrfs"@ { (100, 230, 210) }
    else if fs == "zfs"@ { (210, 150, 240) }
    else if fs == "ntfs"@ { (80, 190, 235) }
    else if fs == "exfat"@ { (220, 210, 80) }
    else if fs == "fat32"@ { (210, 190, 90) }
    else if fs == "nfs"@ || fs == "nfs4"@ { (255, 150, 60) }
    else if fs == "smbfs"@ || fs == "cifs"@ { (255, 120, 80) }
    else if fs == "tmpfs"@ { (140, 210, 150) }
    else if fs == "iso9660"@ { (200, 180, 140) }
    else { (190, 190, 210) }
}

/// The colour the mount list gives a filesystem type.
pub fn fs_type_color(fs: &str) -> (res: (u8, u8, u8))
    ensures
        res == fs_color_spec(fs@),
{
    if text_eq(fs, "apfs") { (100, 210, 255) }
    else if text_eq(fs, "hfs") { (200, 170, 255) }
    else if text_eq(fs, "ext4") { (80, 230, 140) }
    else if text_eq(fs, "ext3") { (60, 210, 120) }
    else if text_eq(fs, "ext2") { (40, 190, 100) }
    else if text_eq(fs, "xfs") { (240, 190, 80) }
    else if text_eq(fs, "btrfs") { (100, 230, 210) }
    else if text_eq(fs, "zfs") { (210, 150, 240) }
    else if text_eq(fs, "ntfs") { (80, 190, 235) }
    else if text_eq(fs, "exfat") { (220, 210, 80) }
    else if text_eq(fs, "fat32") { (210, 190, 90) }
    else if text_eq(fs, "nfs") || text_eq(fs, "nfs4") { (255, 150, 60) }
    else if text_eq(fs, "smbfs") || text_eq(fs, "cifs") { (255, 120, 80) }
    else if text_eq(fs, "tmpfs") { (140, 210, 150) }
    else if text_eq(fs, "iso9660") { (200, 180, 140) }
    else { (190, 190, 210) }
}

} // verus!
