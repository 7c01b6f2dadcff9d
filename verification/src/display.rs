//! What the screen shows, computed from the mount data: path basenames,
//! the option bullets and the fixed-width columns of the mount list.

use vstd::prelude::*;
use crate::mount_info::{MountEntry, MountView};
use crate::layout::{law_usage_column_width, usage_cell_len, usage_cell_spec, USAGE_COLUMN_WIDTH};
use crate::mount_ops::{format_bytes, format_bytes_spec};
use crate::text::{
    byte_len, chars_of, decimal, decimal_spec, lemma_split_on_join, lemma_split_on_no_sep,
    lemma_split_on_step, pad_right, pad_right_spec, push_text,
    repeat_spec, split_on, string_of, string_push, trim, trim_chars,
};
use vstd::string::StringExecFns;
use vstd::utf8::encode_utf8;

verus! {

// ── mount options ─────────────────────────────────────────────────────

/// The trimmed, non-empty pieces among `segs`, in order.
pub open spec fn kept_options(segs: Seq<Seq<char>>) -> Seq<Seq<char>>
    decreases segs.len(),
{
    if segs.len() == 0 {
        seq![]
    } else {
        let rest = kept_options(segs.drop_last());
        let t = trim(segs.last());
        if t.len() > 0 {
            rest.push(t)
        } else {
            rest
        }
    }
}

/// The option bullets of a comma-separated option string: each piece
/// between commas, trimmed, with empty pieces left out.
pub open spec fn option_items_spec(options: Seq<char>) -> Seq<Seq<char>> {
    kept_options(split_on(options, ','))
}

proof fn lemma_kept_options_append(x: Seq<Seq<char>>, y: Seq<Seq<char>>)
    ensures
        kept_options(x + y) == kept_options(x) + kept_options(y),
    decreases y.len(),
{
    if y.len() == 0 {
        assert(x + y =~= x);
        assert(kept_options(x) + kept_options(y) =~= kept_options(x));
    } else {
        lemma_kept_options_append(x, y.drop_last());
        assert((x + y).drop_last() =~= x + y.drop_last());
        assert((x + y).last() == y.last());
        let t = trim(y.last());
        if t.len() > 0 {
            assert((kept_options(x) + kept_options(y.drop_last())).push(t) =~= kept_options(x)
                + kept_options(y.drop_last()).push(t));
        }
    }
}

/// Options joined by a comma give the options of each side, in order.
pub proof fn law_option_items_join(a: Seq<char>, b: Seq<char>)
    ensures
        option_items_spec(a + seq![','] + b) == option_items_spec(a) + option_items_spec(b),
{
    lemma_split_on_join(a, b, ',');
    lemma_kept_options_append(split_on(a, ','), split_on(b, ','));
}

/// Text without a comma is one option, trimmed, or none when it is blank.
pub proof fn law_option_items_single(s: Seq<char>)
    requires
        !s.contains(','),
    ensures
        option_items_spec(s) == (if trim(s).len() > 0 { seq![trim(s)] } else { seq![] }),
{
    lemma_split_on_no_sep(s, ',');
    assert(seq![s].drop_last() =~= Seq::<Seq<char>>::empty());
    assert(seq![s].last() == s);
    assert(kept_options(Seq::<Seq<char>>::empty()) == Seq::<Seq<char>>::empty());
    assert(Seq::<Seq<char>>::empty().push(trim(s)) =~= seq![trim(s)]);
}

/// Splits a comma-separated option string into its non-empty, trimmed
/// entries (`"rw, noatime,,"` gives `rw` and `noatime`).
pub fn option_items(options: &str) -> (res: Vec<String>)
    ensures
        res.deep_view() == option_items_spec(options@),
{
    let cs = chars_of(options);
    let mut items: Vec<String> = Vec::new();
    let mut cur: Vec<char> = Vec::new();
    let ghost mut done: Seq<Seq<char>> = seq![];
    let mut i: usize = 0;
    assert(cs@.take(0) =~= Seq::<char>::empty());
    while i < cs.len()
        invariant
            i <= cs.len(),
            cs@ == options@,
            split_on(cs@.take(i as int), ',') == done.push(cur@),
            items.deep_view() == kept_options(done),
        decreases cs.len() - i,
    {
        let c = cs[i];
        proof {
            lemma_split_on_step(cs@, i as int, ',', done, cur@);
        }
        if c == ',' {
            let t = trim_chars(&cur);
            let ghost before = items.deep_view();
            if t.len() > 0 {
                items.push(string_of(&t));
                assert(items.deep_view() =~= before.push(t@));
            }
            proof {
                assert(done.push(cur@).drop_last() =~= done);
                done = done.push(cur@);
            }
            cur = Vec::new();
            assert(done.push(cur@) =~= done.push(Seq::empty()));
        } else {
            cur.push(c);
        }
        i = i + 1;
    }
    assert(cs@.take(i as int) =~= cs@);
    let t = trim_chars(&cur);
    let ghost before = items.deep_view();
    if t.len() > 0 {
        items.push(string_of(&t));
        assert(items.deep_view() =~= before.push(t@));
    }
    assert(done.push(cur@).drop_last() =~= done);
    items
}

// ── path basenames ─────────────────────────────────────────────────────

/// The last path component among `segs` that is neither empty nor `.`.
pub open spec fn last_component(segs: Seq<Seq<char>>) -> Option<Seq<char>>
    decreases segs.len(),
{
    if segs.len() == 0 {
        None
    } else {
        let l = segs.last();
        if l.len() == 0 || l == seq!['.'] {
            last_component(segs.drop_last())
        } else {
            Some(l)
        }
    }
}

/// The final component of a `/`-separated path, if it names a file or
/// directory: none for `/`, for an empty path, or when the path ends in `..`.
pub open spec fn file_name_spec(path: Seq<char>) -> Option<Seq<char>> {
    match last_component(split_on(path, '/')) {
        Some(l) => if l == seq!['.', '.'] {
            None
        } else {
            Some(l)
        },
        None => None,
    }
}

/// What the list shows of a path: its final component, or the whole path
/// when it has none.
pub open spec fn basename_spec(path: Seq<char>) -> Seq<char> {
    match file_name_spec(path) {
        Some(n) => n,
        None => path,
    }
}

/// A name that is a path component of its own: not empty, without `/`,
/// and neither `.` nor `..`.
pub open spec fn plain_name(name: Seq<char>) -> bool {
    name.len() > 0 && !name.contains('/') && name != seq!['.'] && name != seq!['.', '.']
}

/// The basename of `dir/name` is `name`, whatever `dir` is; a plain name
/// on its own is its own basename.
pub proof fn law_basename(dir: Seq<char>, name: Seq<char>)
    requires
        plain_name(name),
    ensures
        basename_spec(dir + seq!['/'] + name) == name,
        basename_spec(name) == name,
{
    lemma_split_on_join(dir, name, '/');
    lemma_split_on_no_sep(name, '/');
    let segs = split_on(dir, '/') + seq![name];
    assert(segs.last() == name);
    assert(seq![name].last() == name);
}

fn is_dot(v: &Vec<char>) -> (res: bool)
    ensures
        res == (v@ == seq!['.']),
{
    let r = v.len() == 1 && v[0] == '.';
    if r {
        assert(v@ =~= seq!['.']);
    }
    r
}

fn is_dot_dot(v: &Vec<char>) -> (res: bool)
    ensures
        res == (v@ == seq!['.', '.']),
{
    let r = v.len() == 2 && v[0] == '.' && v[1] == '.';
    if r {
        assert(v@ =~= seq!['.', '.']);
    }
    r
}

/// Strips a path down to its final component, like `basename(1)`:
/// `"/Volumes/Data"` gives `"Data"`, `"/"` stays `"/"`.
pub fn basename(path: &str) -> (res: String)
    ensures
        res@ == basename_spec(path@),
{
    let cs = chars_of(path);
    let mut last: Option<Vec<char>> = None;
    let mut cur: Vec<char> = Vec::new();
    let ghost mut done: Seq<Seq<char>> = seq![];
    let mut i: usize = 0;
    assert(cs@.take(0) =~= Seq::<char>::empty());
    while i < cs.len()
        invariant
            i <= cs.len(),
            cs@ == path@,
            split_on(cs@.take(i as int), '/') == done.push(cur@),
            last_component(done) == (match last {
                Some(v) => Some(v@),
                None => None::<Seq<char>>,
            }),
        decreases cs.len() - i,
    {
        let c = cs[i];
        proof {
            lemma_split_on_step(cs@, i as int, '/', done, cur@);
        }
        if c == '/' {
            proof {
                assert(done.push(cur@).drop_last() =~= done);
                done = done.push(cur@);
            }
            if cur.len() > 0 && !is_dot(&cur) {
                last = Some(cur);
            }
            cur = Vec::new();
            assert(done.push(cur@) =~= done.push(Seq::empty()));
        } else {
            cur.push(c);
        }
        i = i + 1;
    }
    assert(cs@.take(i as int) =~= cs@);
    assert(done.push(cur@).drop_last() =~= done);
    if cur.len() > 0 && !is_dot(&cur) {
        last = Some(cur);
    }
    match last {
        Some(v) => {
            if is_dot_dot(&v) {
                String::from_str(path)
            } else {
                string_of(&v)
            }
        },
        None => String::from_str(path),
    }
}


// ── mount list columns ─────────────────────────────────────────────────

/// The narrowest the device column gets (wide enough for "device").
pub const MIN_DEVICE_WIDTH: usize = 6;

/// Width of the filesystem-type column.
pub const FS_COLUMN_WIDTH: usize = 7;

/// The UTF-8 length in bytes of the basename of `m`'s device.
pub open spec fn device_name_bytes(m: MountView) -> nat {
    encode_utf8(basename_spec(m.device)).len()
}

/// The device column's width: the longest device basename, in UTF-8 bytes,
/// and at least [`MIN_DEVICE_WIDTH`].
pub open spec fn device_width_spec(ms: Seq<MountView>) -> nat
    decreases ms.len(),
{
    if ms.len() == 0 {
        MIN_DEVICE_WIDTH as nat
    } else {
        let rest = device_width_spec(ms.drop_last());
        let b = device_name_bytes(ms.last());
        if b > rest { b } else { rest }
    }
}

proof fn lemma_device_width_bounds(ms: Seq<MountView>, i: int)
    requires
        0 <= i < ms.len(),
    ensures
        device_name_bytes(ms[i]) <= device_width_spec(ms),
    decreases ms.len(),
{
    if i < ms.len() - 1 {
        lemma_device_width_bounds(ms.drop_last(), i);
    }
}

/// The device column is never narrower than [`MIN_DEVICE_WIDTH`], wide
/// enough for the word "device".
pub proof fn law_device_column_min_width(ms: Seq<MountView>)
    ensures
        device_width_spec(ms) >= MIN_DEVICE_WIDTH,
    decreases ms.len(),
{
    if ms.len() > 0 {
        law_device_column_min_width(ms.drop_last());
    }
}

/// The device column is exactly as wide as the longest device basename in
/// bytes, or six when all are shorter: no mount's name is wider, and the
/// width is six or some mount's.
pub proof fn law_device_column_width(ms: Seq<MountView>)
    ensures
        forall|i: int| 0 <= i < ms.len() ==> device_name_bytes(#[trigger] ms[i]) <= device_width_spec(ms),
        device_width_spec(ms) == MIN_DEVICE_WIDTH || exists|i: int|
            0 <= i < ms.len() && device_name_bytes(#[trigger] ms[i]) == device_width_spec(ms),
    decreases ms.len(),
{
    assert forall|i: int| 0 <= i < ms.len() implies device_name_bytes(#[trigger] ms[i]) <= device_width_spec(ms) by {
        lemma_device_width_bounds(ms, i);
    }
    if ms.len() > 0 {
        let r = ms.drop_last();
        law_device_column_width(r);
        if device_width_spec(ms) != MIN_DEVICE_WIDTH {
            if device_name_bytes(ms.last()) > device_width_spec(r) {
                assert(device_name_bytes(ms[ms.len() - 1]) == device_width_spec(ms));
            } else {
                let j = choose|j: int| 0 <= j < r.len() && device_name_bytes(#[trigger] r[j]) == device_width_spec(r);
                assert(ms[j] == r[j]);
            }
        }
    }
}

/// A UTF-8 encoding has at least one byte per character.
pub proof fn lemma_utf8_len_at_least_chars(s: Seq<char>)
    ensures
        encode_utf8(s).len() >= s.len(),
    decreases s.len(),
{
    if s.len() > 0 {
        lemma_utf8_len_at_least_chars(s.drop_first());
    }
}

/// The device column's width for `mounts`: the longest device basename in
/// bytes, and at least six.
pub fn device_column_width(mounts: &Vec<MountEntry>) -> (res: usize)
    ensures
        res == device_width_spec(mounts@.map_values(|m: MountEntry| m@)),
{
    let ghost ms = mounts@.map_values(|m: MountEntry| m@);
    let mut w: usize = MIN_DEVICE_WIDTH;
    let mut i: usize = 0;
    while i < mounts.len()
        invariant
            i <= mounts.len(),
            ms == mounts@.map_values(|m: MountEntry| m@),
            w == device_width_spec(ms.take(i as int)),
        decreases mounts.len() - i,
    {
        let b = basename(mounts[i].device.as_str());
        let bs = b.as_str();
        let n = byte_len(bs);
        proof {
            assert(ms.take(i + 1).drop_last() =~= ms.take(i as int));
            assert(ms[i as int] == mounts@[i as int]@);
            assert(ms.take(i + 1).last() == ms[i as int]);
            assert(bs@ == basename_spec(ms[i as int].device));
            assert(n == encode_utf8(bs@).len());
            assert(n == device_name_bytes(ms[i as int]));
        }
        if n > w {
            w = n;
        }
        i = i + 1;
    }
    assert(ms.take(i as int) =~= ms);
    w
}

/// The texts of one row of the mount list, column by column.
pub struct RowText {
    /// The filesystem type, padded to [`FS_COLUMN_WIDTH`].
    pub fs_type: String,
    /// The device's basename padded to the device column, and a space.
    pub device: String,
    /// The mount point's basename.
    pub mount_name: String,
}

/// The row texts for `m` with the device column `device_width` wide.
pub fn row_text(m: &MountEntry, device_width: usize) -> (res: RowText)
    ensures
        res.fs_type@ == pad_right_spec(m.fs_type@, FS_COLUMN_WIDTH as nat),
        res.device@ == pad_right_spec(basename_spec(m.device@), device_width as nat).push(' '),
        res.mount_name@ == basename_spec(m.mount_point@),
{
    let fs_type = pad_right(m.fs_type.as_str(), FS_COLUMN_WIDTH);
    let dev = basename(m.device.as_str());
    let mut device = pad_right(dev.as_str(), device_width);
    string_push(&mut device, ' ');
    let mount_name = basename(m.mount_point.as_str());
    RowText { fs_type, device, mount_name }
}

/// Every row's device cell has the same width, so all mount-point names
/// start in the same column.
pub proof fn law_device_column_aligned(ms: Seq<MountView>, i: int)
    requires
        0 <= i < ms.len(),
    ensures
        pad_right_spec(basename_spec(ms[i].device), device_width_spec(ms)).push(' ').len()
            == device_width_spec(ms) + 1,
{
    lemma_device_width_bounds(ms, i);
    lemma_utf8_len_at_least_chars(basename_spec(ms[i].device));
}

/// Every row of the list lines up: with a filesystem type of at most
/// [`FS_COLUMN_WIDTH`] characters and a percentage below 1000, the device
/// starts at column 23 and the mount point's name at column 24 plus the
/// device column's width, whether or not the mount reports usage.
pub proof fn law_row_columns_aligned(ms: Seq<MountView>, i: int, usage: Option<(usize, u64)>)
    requires
        0 <= i < ms.len(),
        ms[i].fs_type.len() <= FS_COLUMN_WIDTH,
        usage matches Some((_, p)) ==> p < 1000,
    ensures
        pad_right_spec(ms[i].fs_type, FS_COLUMN_WIDTH as nat).len() + usage_cell_len(
            usage_cell_spec(usage),
        ) == FS_COLUMN_WIDTH + USAGE_COLUMN_WIDTH,
        pad_right_spec(ms[i].fs_type, FS_COLUMN_WIDTH as nat).len() + usage_cell_len(
            usage_cell_spec(usage),
        ) + pad_right_spec(basename_spec(ms[i].device), device_width_spec(ms)).push(' ').len()
            == FS_COLUMN_WIDTH + USAGE_COLUMN_WIDTH + device_width_spec(ms) + 1,
{
    law_usage_column_width(usage);
    law_device_column_aligned(ms, i);
}

// ── detail pane ────────────────────────────────────────────────────────

/// One line of the detail pane.
#[derive(Debug)]
pub enum DetailLine {
    /// A section header.
    Section(String),
    /// A key (padded) and its value.
    Field { key: String, value: String },
    /// One mount option.
    Bullet(String),
    /// An empty line.
    Blank,
    /// The usage bar and percentage of `used` out of `total` bytes
    /// (`total > 0`), drawn by the caller.
    UsageBar { used: u64, total: u64 },
}

/// A [`DetailLine`] with its texts as character sequences.
pub enum DetailLineView {
    Section(Seq<char>),
    Field { key: Seq<char>, value: Seq<char> },
    Bullet(Seq<char>),
    Blank,
    UsageBar { used: u64, total: u64 },
}

impl View for DetailLine {
    type V = DetailLineView;

    open spec fn view(&self) -> DetailLineView {
        match self {
            DetailLine::Section(t) => DetailLineView::Section(t@),
            DetailLine::Field { key, value } => DetailLineView::Field { key: key@, value: value@ },
            DetailLine::Bullet(t) => DetailLineView::Bullet(t@),
            DetailLine::Blank => DetailLineView::Blank,
            DetailLine::UsageBar { used, total } => DetailLineView::UsageBar {
                used: *used,
                total: *total,
            },
        }
    }
}

/// A section header: the title with a space on each side.
pub open spec fn section_spec(title: Seq<char>) -> DetailLineView {
    DetailLineView::Section(seq![' '] + title + seq![' '])
}

/// A key-value line: the key indented by two and padded to 14.
pub open spec fn field_spec(key: Seq<char>, value: Seq<char>) -> DetailLineView {
    DetailLineView::Field { key: seq![' ', ' '] + pad_right_spec(key, 14), value }
}

/// The "Usage" section, when the filesystem reports all three sizes: the
/// three sizes, then the usage bar where the total is not zero.
pub open spec fn usage_lines_spec(m: MountView) -> Seq<DetailLineView> {
    match (m.total_bytes, m.avail_bytes, m.used_bytes) {
        (Some(total), Some(avail), Some(used)) => seq![
            section_spec("Usage"@),
            field_spec("Total:"@, format_bytes_spec(total as nat)),
            field_spec("Used:"@, format_bytes_spec(used as nat)),
            field_spec("Available:"@, format_bytes_spec(avail as nat)),
        ] + if total > 0 {
            seq![DetailLineView::UsageBar { used, total }]
        } else {
            seq![]
        },
        _ => seq![],
    }
}

/// The detail pane for mount number `index` of `total`: identity, option
/// bullets, and the usage figures where known.
pub open spec fn detail_lines_spec(m: MountView, index: nat, total: nat) -> Seq<DetailLineView> {
    seq![
        section_spec("Identity"@),
        field_spec("#"@, decimal_spec(index) + " of "@ + decimal_spec(total)),
        field_spec("Device:"@, m.device),
        field_spec("Mount Point:"@, m.mount_point),
        field_spec("Filesystem:"@, m.fs_type),
        DetailLineView::Blank,
        section_spec("Options"@),
    ] + option_items_spec(m.options).map_values(|o: Seq<char>| DetailLineView::Bullet(o))
        + seq![DetailLineView::Blank] + usage_lines_spec(m)
}

/// The value shown by a key-value line (none for other lines).
pub open spec fn field_value(l: DetailLineView) -> Option<Seq<char>> {
    match l {
        DetailLineView::Field { value, .. } => Some(value),
        _ => None,
    }
}

/// The detail pane shows the mount's full device, mount point and type
/// (not their basenames) in lines 2 to 4, one bullet per option after the
/// "Options" header, and, when the sizes are known, "Total:", "Used:" and
/// "Available:" with exactly the formatted total, used and available
/// bytes, followed by the usage bar of used over total when the total is
/// not zero.
pub proof fn law_detail_lines(m: MountView, index: nat, total: nat)
    ensures
        ({
            let d = detail_lines_spec(m, index, total);
            let k = option_items_spec(m.options).len() as int;
            &&& field_value(d[2]) == Some(m.device)
            &&& field_value(d[3]) == Some(m.mount_point)
            &&& field_value(d[4]) == Some(m.fs_type)
            &&& forall|j: int| 0 <= j < k ==> d[7 + j] == DetailLineView::Bullet(
                #[trigger] option_items_spec(m.options)[j],
            )
            &&& d[7 + k] == DetailLineView::Blank
            &&& match (m.total_bytes, m.avail_bytes, m.used_bytes) {
                (Some(t), Some(a), Some(u)) => {
                    &&& d.len() == 12 + k + (if t > 0 { 1int } else { 0 })
                    &&& field_value(d[k + 9]) == Some(format_bytes_spec(t as nat))
                    &&& field_value(d[k + 10]) == Some(format_bytes_spec(u as nat))
                    &&& field_value(d[k + 11]) == Some(format_bytes_spec(a as nat))
                    &&& t > 0 ==> d[k + 12] == DetailLineView::UsageBar { used: u, total: t }
                },
                _ => d.len() == 8 + k,
            }
        }),
{
    let d = detail_lines_spec(m, index, total);
    let k = option_items_spec(m.options).len() as int;
    let b = option_items_spec(m.options).map_values(|o: Seq<char>| DetailLineView::Bullet(o));
    assert forall|j: int| 0 <= j < k implies d[7 + j] == DetailLineView::Bullet(
        #[trigger] option_items_spec(m.options)[j],
    ) by {
        assert(b[j] == DetailLineView::Bullet(option_items_spec(m.options)[j]));
    }
}

fn section(title: &str) -> (res: DetailLine)
    ensures
        res@ == section_spec(title@),
{
    let mut t = String::new();
    string_push(&mut t, ' ');
    push_text(&mut t, title);
    string_push(&mut t, ' ');
    assert(t@ =~= seq![' '] + title@ + seq![' ']);
    DetailLine::Section(t)
}

fn field(key: &str, value: String) -> (res: DetailLine)
    ensures
        res@ == field_spec(key@, value@),
{
    let mut k = String::new();
    string_push(&mut k, ' ');
    string_push(&mut k, ' ');
    let p = pad_right(key, 14);
    push_text(&mut k, p.as_str());
    assert(k@ =~= seq![' ', ' '] + pad_right_spec(key@, 14));
    DetailLine::Field { key: k, value }
}

fn push_line(lines: &mut Vec<DetailLine>, l: DetailLine)
    ensures
        final(lines)@.map_values(|d: DetailLine| d@) == old(lines)@.map_values(
            |d: DetailLine| d@,
        ).push(l@),
{
    let ghost before = lines@.map_values(|d: DetailLine| d@);
    lines.push(l);
    assert(lines@.map_values(|d: DetailLine| d@) =~= before.push(l@));
}

/// Builds the detail pane's lines for mount number `index` of `total`.
pub fn build_detail_lines(m: &MountEntry, index: usize, total: usize) -> (res: Vec<DetailLine>)
    ensures
        res@.map_values(|d: DetailLine| d@) == detail_lines_spec(m@, index as nat, total as nat),
{
    let mut lines: Vec<DetailLine> = Vec::new();
    push_line(&mut lines, section("Identity"));
    let mut count = decimal(index as u64);
    push_text(&mut count, " of ");
    let t = decimal(total as u64);
    push_text(&mut count, t.as_str());
    push_line(&mut lines, field("#", count));
    push_line(&mut lines, field("Device:", m.device.clone()));
    push_line(&mut lines, field("Mount Point:", m.mount_point.clone()));
    push_line(&mut lines, field("Filesystem:", m.fs_type.clone()));
    push_line(&mut lines, DetailLine::Blank);
    push_line(&mut lines, section("Options"));
    let ghost head = lines@.map_values(|d: DetailLine| d@);
    let opts = option_items(m.options.as_str());
    let ghost bullets = opts.deep_view().map_values(|o: Seq<char>| DetailLineView::Bullet(o));
    let mut i: usize = 0;
    while i < opts.len()
        invariant
            i <= opts.len(),
            bullets == opts.deep_view().map_values(|o: Seq<char>| DetailLineView::Bullet(o)),
            lines@.map_values(|d: DetailLine| d@) == head + bullets.take(i as int),
        decreases opts.len() - i,
    {
        push_line(&mut lines, DetailLine::Bullet(opts[i].clone()));
        assert(head + bullets.take(i + 1) =~= (head + bullets.take(i as int)).push(
            DetailLineView::Bullet(opts@[i as int]@),
        ));
        i = i + 1;
    }
    assert(bullets.take(i as int) =~= bullets);
    push_line(&mut lines, DetailLine::Blank);
    let ghost body = lines@.map_values(|d: DetailLine| d@);
    match (m.total_bytes, m.avail_bytes, m.used_bytes) {
        (Some(total_b), Some(avail_b), Some(used_b)) => {
            push_line(&mut lines, section("Usage"));
            push_line(&mut lines, field("Total:", format_bytes(total_b)));
            push_line(&mut lines, field("Used:", format_bytes(used_b)));
            push_line(&mut lines, field("Available:", format_bytes(avail_b)));
            if total_b > 0 {
                push_line(&mut lines, DetailLine::UsageBar { used: used_b, total: total_b });
            }
            assert(lines@.map_values(|d: DetailLine| d@) =~= body + usage_lines_spec(m@));
        },
        _ => {
            assert(body + usage_lines_spec(m@) =~= body);
        },
    }
    assert(lines@.map_values(|d: DetailLine| d@) =~= detail_lines_spec(
        m@,
        index as nat,
        total as nat,
    ));
    lines
}

// ── small texts ────────────────────────────────────────────────────────

/// The password as the prompt shows it: one dot per character, or a block
/// cursor while it is empty.
pub open spec fn masked_password_spec(password: Seq<char>) -> Seq<char> {
    if password.len() == 0 {
        seq!['\u{2588}']
    } else {
        repeat_spec('\u{2022}', password.len())
    }
}

/// The masked password shows one dot per character of the password, and a
/// single block cursor while it is empty; no character of the password
/// itself is shown.
pub proof fn law_masked_password(password: Seq<char>)
    ensures
        masked_password_spec(password).len() == (if password.len() == 0 { 1 } else { password.len() }),
        password.len() > 0 ==> forall|i: int| 0 <= i < password.len() ==> #[trigger] masked_password_spec(password)[i] == '\u{2022}',
        password.len() == 0 ==> masked_password_spec(password) == seq!['\u{2588}'],
{
}

/// Masks a password for display.
pub fn masked_password(password: &str) -> (res: String)
    ensures
        res@ == masked_password_spec(password@),
{
    let n = password.unicode_len();
    if n == 0 {
        let mut s = String::new();
        string_push(&mut s, '\u{2588}');
        assert(s@ =~= seq!['\u{2588}']);
        s
    } else {
        crate::text::repeat_char('\u{2022}', n)
    }
}

/// The title bar's count of mounts: `" N mounts "`.
pub fn mounts_count_label(n: usize) -> (res: String)
    ensures
        res@ == seq![' '] + decimal_spec(n as nat) + " mounts "@,
{
    let mut s = String::new();
    string_push(&mut s, ' ');
    let d = decimal(n as u64);
    push_text(&mut s, d.as_str());
    push_text(&mut s, " mounts ");
    assert(s@ =~= seq![' '] + decimal_spec(n as nat) + " mounts "@);
    s
}

/// The list pane's title: `" Mount Points (N) "`.
pub fn list_title(n: usize) -> (res: String)
    ensures
        res@ == " Mount Points ("@ + decimal_spec(n as nat) + ") "@,
{
    let mut s = String::from_str(" Mount Points (");
    let d = decimal(n as u64);
    push_text(&mut s, d.as_str());
    push_text(&mut s, ") ");
    assert(s@ =~= " Mount Points ("@ + decimal_spec(n as nat) + ") "@);
    s
}

} // verus!
