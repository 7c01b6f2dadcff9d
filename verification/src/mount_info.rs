//! One mounted filesystem, as the mount list shows it.

use vstd::prelude::*;
use crate::text::{
    chars_of, lemma_split_on_join, lemma_split_on_no_sep, lemma_split_on_step, push_text, split_on,
    string_push,
};
use vstd::string::StringExecFns;

verus! {

/// A mount point with its device, filesystem type, options and, where the
/// filesystem reports it, its size in bytes.
#[derive(Debug, Clone, PartialEq, Eq)]
pub struct MountEntry {
    pub device: String,
    pub mount_point: String,
    pub fs_type: String,
    pub options: String,
    pub total_bytes: Option<u64>,
    pub avail_bytes: Option<u64>,
    pub used_bytes: Option<u64>,
}

/// The content of a [`MountEntry`], with its texts as character sequences.
pub struct MountView {
    pub device: Seq<char>,
    pub mount_point: Seq<char>,
    pub fs_type: Seq<char>,
    pub options: Seq<char>,
    pub total_bytes: Option<u64>,
    pub avail_bytes: Option<u64>,
    pub used_bytes: Option<u64>,
}

impl View for MountEntry {
    type V = MountView;

    open spec fn view(&self) -> MountView {
        MountView {
            device: self.device@,
            mount_point: self.mount_point@,
            fs_type: self.fs_type@,
            options: self.options@,
            total_bytes: self.total_bytes,
            avail_bytes: self.avail_bytes,
            used_bytes: self.used_bytes,
        }
    }
}

/// The used and total bytes of a mount, when both are known and the total
/// is not zero: what its usage bar and percentage are drawn from.
pub open spec fn usage_ratio_spec(m: MountView) -> Option<(u64, u64)> {
    match (m.used_bytes, m.total_bytes) {
        (Some(used), Some(total)) => if total > 0 {
            Some((used, total))
        } else {
            None
        },
        _ => None,
    }
}

/// The used and total bytes of `m`, when its usage can be shown.
pub fn usage_ratio(m: &MountEntry) -> (res: Option<(u64, u64)>)
    ensures
        res == usage_ratio_spec(m@),
{
    match (m.used_bytes, m.total_bytes) {
        (Some(used), Some(total)) => if total > 0 {
            Some((used, total))
        } else {
            None
        },
        _ => None,
    }
}

/// `a * b`, or `u64::MAX` where that would not fit.
pub open spec fn sat_mul(a: u64, b: u64) -> u64 {
    if a * b > u64::MAX { u64::MAX } else { (a * b) as u64 }
}

/// Total, available and used bytes from `statvfs(2)` figures: block counts
/// times the fragment size, used = total − free; none when the total is 0
/// (pseudo-filesystems).
pub open spec fn usage_from_statvfs_spec(blocks: u64, bavail: u64, bfree: u64, frsize: u64) -> Option<(u64, u64, u64)> {
    let total = sat_mul(blocks, frsize);
    let avail = sat_mul(bavail, frsize);
    let free = sat_mul(bfree, frsize);
    if total == 0 {
        None
    } else {
        Some((total, avail, if total >= free { (total - free) as u64 } else { 0 }))
    }
}

fn saturating_mul(a: u64, b: u64) -> (res: u64)
    ensures
        res == sat_mul(a, b),
{
    if b != 0 && a > u64::MAX / b {
        assert(a * b > u64::MAX) by (nonlinear_arith)
            requires
                b > 0,
                a > u64::MAX / b,
        ;
        u64::MAX
    } else {
        assert(a * b <= u64::MAX) by (nonlinear_arith)
            requires
                b == 0 || a <= u64::MAX / b,
        ;
        a * b
    }
}

/// Computes the sizes of a filesystem from its `statvfs(2)` figures.
pub fn usage_from_statvfs(blocks: u64, bavail: u64, bfree: u64, frsize: u64) -> (res: Option<(u64, u64, u64)>)
    ensures
        res == usage_from_statvfs_spec(blocks, bavail, bfree, frsize),
{
    let total = saturating_mul(blocks, frsize);
    let avail = saturating_mul(bavail, frsize);
    let free = saturating_mul(bfree, frsize);
    if total == 0 {
        None
    } else {
        Some((total, avail, total.saturating_sub(free)))
    }
}

/// Without overflow, the total is the block count times the fragment
/// size, the available bytes the available blocks times it, and used plus
/// free bytes make up the total; there are no sizes exactly when the total
/// is zero.
pub proof fn law_usage_from_statvfs(blocks: u64, bavail: u64, bfree: u64, frsize: u64)
    requires
        blocks * frsize <= u64::MAX,
        bavail * frsize <= u64::MAX,
        bfree <= blocks,
    ensures
        usage_from_statvfs_spec(blocks, bavail, bfree, frsize) is None <==> blocks * frsize == 0,
        blocks * frsize > 0 ==> ({
            let (total, avail, used) = usage_from_statvfs_spec(blocks, bavail, bfree, frsize)->0;
            &&& total == blocks * frsize
            &&& avail == bavail * frsize
            &&& used + bfree * frsize == total
        }),
{
    assert(bfree * frsize <= blocks * frsize) by (nonlinear_arith)
        requires
            bfree <= blocks,
    ;
}

/// The option text of a mount from its flags: `ro` or `rw`, then `nosuid`,
/// `nodev` and `noexec` where set, comma-separated.
pub open spec fn options_from_flags_spec(read_only: bool, nosuid: bool, nodev: bool, noexec: bool) -> Seq<char> {
    (if read_only { "ro"@ } else { "rw"@ }) + (if nosuid { ",nosuid"@ } else { Seq::empty() })
        + (if nodev { ",nodev"@ } else { Seq::empty() }) + (if noexec { ",noexec"@ } else { Seq::empty() })
}

/// Builds the option text of a mount from its flags.
pub fn options_from_flags(read_only: bool, nosuid: bool, nodev: bool, noexec: bool) -> (res: String)
    ensures
        res@ == options_from_flags_spec(read_only, nosuid, nodev, noexec),
{
    let mut s = String::from_str(if read_only { "ro" } else { "rw" });
    if nosuid {
        push_text(&mut s, ",nosuid");
    }
    if nodev {
        push_text(&mut s, ",nodev");
    }
    if noexec {
        push_text(&mut s, ",noexec");
    }
    assert(s@ =~= options_from_flags_spec(read_only, nosuid, nodev, noexec));
    s
}

/// The views of a list of mounts.
pub open spec fn mounts_view(mounts: Seq<MountEntry>) -> Seq<MountView> {
    mounts.map_values(|m: MountEntry| m@)
}


// ── the kernel's mount table ───────────────────────────────────────────

/// The non-empty pieces among `segs`, in order.
pub open spec fn nonempty_pieces(segs: Seq<Seq<char>>) -> Seq<Seq<char>>
    decreases segs.len(),
{
    if segs.len() == 0 {
        seq![]
    } else {
        let rest = nonempty_pieces(segs.drop_last());
        if segs.last().len() > 0 {
            rest.push(segs.last())
        } else {
            rest
        }
    }
}

/// The non-empty pieces of `s` between occurrences of `sep`.
pub fn split_nonempty(s: &Vec<char>, sep: char) -> (res: Vec<Vec<char>>)
    ensures
        res@.map_values(|v: Vec<char>| v@) == nonempty_pieces(split_on(s@, sep)),
{
    let mut items: Vec<Vec<char>> = Vec::new();
    let mut cur: Vec<char> = Vec::new();
    let ghost mut done: Seq<Seq<char>> = seq![];
    let mut i: usize = 0;
    assert(s@.take(0) =~= Seq::<char>::empty());
    while i < s.len()
        invariant
            i <= s.len(),
            split_on(s@.take(i as int), sep) == done.push(cur@),
            items@.map_values(|v: Vec<char>| v@) == nonempty_pieces(done),
        decreases s.len() - i,
    {
        let c = s[i];
        proof {
            lemma_split_on_step(s@, i as int, sep, done, cur@);
        }
        if c == sep {
            let ghost before = items@.map_values(|v: Vec<char>| v@);
            assert(done.push(cur@).drop_last() =~= done);
            if cur.len() > 0 {
                let ghost piece = cur@;
                items.push(cur);
                assert(items@.map_values(|v: Vec<char>| v@) =~= before.push(piece));
            }
            proof {
                done = done.push(cur@);
            }
            cur = Vec::new();
            assert(done.push(cur@) =~= done.push(Seq::empty()));
        } else {
            cur.push(c);
        }
        i = i + 1;
    }
    assert(s@.take(i as int) =~= s@);
    assert(done.push(cur@).drop_last() =~= done);
    let ghost before = items@.map_values(|v: Vec<char>| v@);
    if cur.len() > 0 {
        let ghost piece = cur@;
        items.push(cur);
        assert(items@.map_values(|v: Vec<char>| v@) =~= before.push(piece));
    }
    items
}

/// The character the kernel writes as the octal escape `\abc`, for the
/// four characters it escapes in the mount table: space (`\040`), tab
/// (`\011`), newline (`\012`) and backslash (`\134`).
pub open spec fn octal_escape(a: char, b: char, c: char) -> Option<char> {
    if a == '0' && b == '4' && c == '0' {
        Some(' ')
    } else if a == '0' && b == '1' && c == '1' {
        Some('\t')
    } else if a == '0' && b == '1' && c == '2' {
        Some('\n')
    } else if a == '1' && b == '3' && c == '4' {
        Some('\\')
    } else {
        None
    }
}

/// A mount-table field with the kernel's escapes decoded.
pub open spec fn unescape(s: Seq<char>) -> Seq<char>
    decreases s.len(),
{
    if s.len() == 0 {
        s
    } else if s.len() >= 4 && s[0] == '\\' && octal_escape(s[1], s[2], s[3]) is Some {
        seq![octal_escape(s[1], s[2], s[3])->0] + unescape(s.skip(4))
    } else {
        seq![s[0]] + unescape(s.skip(1))
    }
}

fn octal_escape_exec(a: char, b: char, c: char) -> (res: Option<char>)
    ensures
        res == octal_escape(a, b, c),
{
    if a == '0' && b == '4' && c == '0' {
        Some(' ')
    } else if a == '0' && b == '1' && c == '1' {
        Some('\t')
    } else if a == '0' && b == '1' && c == '2' {
        Some('\n')
    } else if a == '1' && b == '3' && c == '4' {
        Some('\\')
    } else {
        None
    }
}

/// Decodes the kernel's escapes in a mount-table field.
pub fn unescape_field(s: &Vec<char>) -> (res: String)
    ensures
        res@ == unescape(s@),
{
    let mut out = String::new();
    let mut i: usize = 0;
    assert(s@.skip(0) =~= s@);
    while i < s.len()
        invariant
            i <= s.len(),
            out@ + unescape(s@.skip(i as int)) == unescape(s@),
        decreases s.len() - i,
    {
        let ghost rest = s@.skip(i as int);
        if s.len() - i >= 4 && s[i] == '\\' {
            match octal_escape_exec(s[i + 1], s[i + 2], s[i + 3]) {
                Some(c) => {
                    assert(rest.skip(4) =~= s@.skip(i + 4));
                    string_push(&mut out, c);
                    i = i + 4;
                    assert(out@ + unescape(s@.skip(i as int)) =~= unescape(s@));
                    continue;
                },
                None => {},
            }
        }
        assert(rest.skip(1) =~= s@.skip(i + 1));
        string_push(&mut out, s[i]);
        i = i + 1;
        assert(out@ + unescape(s@.skip(i as int)) =~= unescape(s@));
    }
    assert(s@.skip(i as int) =~= Seq::<char>::empty());
    assert(out@ + Seq::<char>::empty() =~= out@);
    out
}

/// The mount described by one line of the kernel's mount table
/// (`/proc/mounts`): device, mount point, type and options are its first
/// four space-separated fields; a line with fewer describes none.  Sizes
/// are left unknown.
pub open spec fn mount_line_spec(line: Seq<char>) -> Option<MountView> {
    let f = nonempty_pieces(split_on(line, ' '));
    if f.len() >= 4 {
        Some(
            MountView {
                device: unescape(f[0]),
                mount_point: unescape(f[1]),
                fs_type: unescape(f[2]),
                options: unescape(f[3]),
                total_bytes: None,
                avail_bytes: None,
                used_bytes: None,
            },
        )
    } else {
        None
    }
}

/// A field without backslashes reads as it is written.
pub proof fn lemma_unescape_plain(s: Seq<char>)
    requires
        !s.contains('\\'),
    ensures
        unescape(s) == s,
    decreases s.len(),
{
    if s.len() > 0 {
        assert(s[0] != '\\');
        assert(!s.skip(1).contains('\\')) by {
            if s.skip(1).contains('\\') {
                let j = choose|j: int| 0 <= j < s.skip(1).len() && s.skip(1)[j] == '\\';
                assert(s[j + 1] == '\\');
            }
        }
        lemma_unescape_plain(s.skip(1));
        assert(seq![s[0]] + s.skip(1) =~= s);
    }
}

/// A plain mount-table field: not empty, with neither spaces nor escapes.
pub open spec fn plain_field(f: Seq<char>) -> bool {
    f.len() > 0 && !f.contains(' ') && !f.contains('\\')
}

/// A line `device mountpoint type options` of plain fields reads as that
/// device, mount point, type and options, in that order, with the sizes
/// left unknown.
pub proof fn law_mount_line_fields(device: Seq<char>, mountpoint: Seq<char>, fs_type: Seq<char>, options: Seq<char>)
    requires
        plain_field(device),
        plain_field(mountpoint),
        plain_field(fs_type),
        plain_field(options),
    ensures
        mount_line_spec(device + seq![' '] + mountpoint + seq![' '] + fs_type + seq![' '] + options)
            == Some(
            (MountView {
                device,
                mount_point: mountpoint,
                fs_type,
                options,
                total_bytes: None,
                avail_bytes: None,
                used_bytes: None,
            }),
        ),
{
    let l1 = device + seq![' '] + mountpoint;
    let l2 = l1 + seq![' '] + fs_type;
    let l3 = l2 + seq![' '] + options;
    lemma_split_on_no_sep(device, ' ');
    lemma_split_on_no_sep(mountpoint, ' ');
    lemma_split_on_no_sep(fs_type, ' ');
    lemma_split_on_no_sep(options, ' ');
    lemma_split_on_join(device, mountpoint, ' ');
    lemma_split_on_join(l1, fs_type, ' ');
    lemma_split_on_join(l2, options, ' ');
    let segs = seq![device, mountpoint, fs_type, options];
    assert(split_on(l3, ' ') =~= segs);
    assert(segs.drop_last() =~= seq![device, mountpoint, fs_type]);
    assert(segs.drop_last().drop_last() =~= seq![device, mountpoint]);
    assert(segs.drop_last().drop_last().drop_last() =~= seq![device]);
    assert(seq![device].drop_last() =~= Seq::<Seq<char>>::empty());
    assert(seq![device].last() == device);
    assert(nonempty_pieces(Seq::<Seq<char>>::empty()) == Seq::<Seq<char>>::empty());
    assert(Seq::<Seq<char>>::empty().push(device) =~= seq![device]);
    assert(nonempty_pieces(seq![device]) =~= seq![device]);
    assert(seq![device, mountpoint].last() == mountpoint);
    assert(seq![device].push(mountpoint) =~= seq![device, mountpoint]);
    assert(seq![device, mountpoint, fs_type].last() == fs_type);
    assert(seq![device, mountpoint].push(fs_type) =~= seq![device, mountpoint, fs_type]);
    assert(segs.last() == options);
    assert(seq![device, mountpoint, fs_type].push(options) =~= segs);
    assert(nonempty_pieces(seq![device, mountpoint]) =~= seq![device, mountpoint]);
    assert(nonempty_pieces(seq![device, mountpoint, fs_type]) =~= seq![device, mountpoint, fs_type]);
    assert(nonempty_pieces(segs) =~= segs);
    lemma_unescape_plain(device);
    lemma_unescape_plain(mountpoint);
    lemma_unescape_plain(fs_type);
    lemma_unescape_plain(options);
}

/// Reads one line of the kernel's mount table.
pub fn parse_mount_line(line: &str) -> (res: Option<MountEntry>)
    ensures
        match res {
            Some(m) => mount_line_spec(line@) == Some(m@),
            None => mount_line_spec(line@) is None,
        },
{
    let cs = chars_of(line);
    let f = split_nonempty(&cs, ' ');
    if f.len() < 4 {
        return None;
    }
    assert(f@.map_values(|v: Vec<char>| v@)[0] == f@[0]@);
    assert(f@.map_values(|v: Vec<char>| v@)[1] == f@[1]@);
    assert(f@.map_values(|v: Vec<char>| v@)[2] == f@[2]@);
    assert(f@.map_values(|v: Vec<char>| v@)[3] == f@[3]@);
    Some(
        MountEntry {
            device: unescape_field(&f[0]),
            mount_point: unescape_field(&f[1]),
            fs_type: unescape_field(&f[2]),
            options: unescape_field(&f[3]),
            total_bytes: None,
            avail_bytes: None,
            used_bytes: None,
        },
    )
}

/// The mounts described by the lines of `table`, in order.
pub open spec fn mount_table_spec(lines: Seq<Seq<char>>) -> Seq<MountView>
    decreases lines.len(),
{
    if lines.len() == 0 {
        seq![]
    } else {
        let rest = mount_table_spec(lines.drop_last());
        match mount_line_spec(lines.last()) {
            Some(m) => rest.push(m),
            None => rest,
        }
    }
}

/// Reads the kernel's mount table (the text of `/proc/mounts`).
pub fn parse_mount_table(table: &str) -> (res: Vec<MountEntry>)
    ensures
        mounts_view(res@) == mount_table_spec(split_on(table@, '\n')),
{
    let cs = chars_of(table);
    let mut out: Vec<MountEntry> = Vec::new();
    let mut cur = String::new();
    let ghost mut done: Seq<Seq<char>> = seq![];
    let mut i: usize = 0;
    assert(cs@.take(0) =~= Seq::<char>::empty());
    while i < cs.len()
        invariant
            i <= cs.len(),
            cs@ == table@,
            split_on(cs@.take(i as int), '\n') == done.push(cur@),
            mounts_view(out@) == mount_table_spec(done),
        decreases cs.len() - i,
    {
        let c = cs[i];
        proof {
            lemma_split_on_step(cs@, i as int, '\n', done, cur@);
        }
        if c == '\n' {
            let ghost before = mounts_view(out@);
            assert(done.push(cur@).drop_last() =~= done);
            match parse_mount_line(cur.as_str()) {
                Some(m) => {
                    let ghost mv = m@;
                    out.push(m);
                    assert(mounts_view(out@) =~= before.push(mv));
                },
                None => {},
            }
            proof {
                done = done.push(cur@);
            }
            cur = String::new();
            assert(done.push(cur@) =~= done.push(Seq::empty()));
        } else {
            string_push(&mut cur, c);
        }
        i = i + 1;
    }
    assert(cs@.take(i as int) =~= cs@);
    assert(done.push(cur@).drop_last() =~= done);
    let ghost before = mounts_view(out@);
    match parse_mount_line(cur.as_str()) {
        Some(m) => {
            let ghost mv = m@;
            out.push(m);
            assert(mounts_view(out@) =~= before.push(mv));
        },
        None => {},
    }
    out
}

} // verus!
