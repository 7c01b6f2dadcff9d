//! Mount and unmount: the filesystem presets, the commands that run them
//! under `sudo`, and the messages that report how they went.

use vstd::prelude::*;
use vstd::arithmetic::div_mod::{lemma_div_denominator, lemma_fundamental_div_mod_converse};
use vstd::arithmetic::power2::{lemma2_to64, lemma_pow2_unfold, pow2};
use crate::text::{
    chars_of, decimal_spec, digit, digit_spec, push_decimal, push_text, signed_decimal,
    signed_decimal_spec, string_of, string_push, text_eq, trim, trim_chars,
};
use vstd::string::StringExecFns;

verus! {

/// The outcome of a mount or unmount, as the status dialog shows it.
#[derive(Debug, Clone)]
pub struct OpResult {
    /// `true` if the operation completed without error.
    pub success: bool,
    /// What happened, or what went wrong.
    pub message: String,
}

/// How many filesystem types the mount dialog offers.
pub const FS_TYPE_COUNT: usize = 25;

/// The filesystem type at position `i` of the mount dialog's list.
pub open spec fn fs_type_spec(i: int) -> Seq<char> {
    if i == 0 { "auto"@ }
    else if i == 1 { "apfs"@ }
    else if i == 2 { "hfs"@ }
    else if i == 3 { "exfat"@ }
    else if i == 4 { "fat32"@ }
    else if i == 5 { "ntfs"@ }
    else if i == 6 { "ext2"@ }
    else if i == 7 { "ext3"@ }
    else if i == 8 { "ext4"@ }
    else if i == 9 { "xfs"@ }
    else if i == 10 { "btrfs"@ }
    else if i == 11 { "zfs"@ }
    else if i == 12 { "nfs"@ }
    else if i == 13 { "nfs4"@ }
    else if i == 14 { "smbfs"@ }
    else if i == 15 { "tmpfs"@ }
    else if i == 16 { "devfs"@ }
    else if i == 17 { "proc"@ }
    else if i == 18 { "sysfs"@ }
    else if i == 19 { "cifs"@ }
    else if i == 20 { "fuse"@ }
    else if i == 21 { "sshfs"@ }
    else if i == 22 { "iso9660"@ }
    else if i == 23 { "udf"@ }
    else { "msdos"@ }
}

/// The name of the filesystem type at position `i` of the dialog's list
/// (`auto`, `apfs`, `hfs`, … `msdos`).
pub fn fs_type_name(i: usize) -> (res: &'static str)
    requires
        i < FS_TYPE_COUNT,
    ensures
        res@ == fs_type_spec(i as int),
{
    match i {
        0 => "auto",
        1 => "apfs",
        2 => "hfs",
        3 => "exfat",
        4 => "fat32",
        5 => "ntfs",
        6 => "ext2",
        7 => "ext3",
        8 => "ext4",
        9 => "xfs",
        10 => "btrfs",
        11 => "zfs",
        12 => "nfs",
        13 => "nfs4",
        14 => "smbfs",
        15 => "tmpfs",
        16 => "devfs",
        17 => "proc",
        18 => "sysfs",
        19 => "cifs",
        20 => "fuse",
        21 => "sshfs",
        22 => "iso9660",
        23 => "udf",
        _ => "msdos",
    }
}


// ── human-readable sizes ───────────────────────────────────────────────

/// `1024^k` for the units B, KB, MB, GB, TB, PB (`k` from 0 to 5).
pub open spec fn unit_size(k: nat) -> nat {
    if k == 0 { 1 }
    else if k == 1 { 1024 }
    else if k == 2 { 1048576 }
    else if k == 3 { 1073741824 }
    else if k == 4 { 1099511627776 }
    else { 1125899906842624 }
}

/// The name of unit `k`: `B`, `KB`, `MB`, `GB`, `TB` or `PB`.
pub open spec fn unit_name(k: nat) -> Seq<char> {
    if k == 0 { "B"@ }
    else if k == 1 { "KB"@ }
    else if k == 2 { "MB"@ }
    else if k == 3 { "GB"@ }
    else if k == 4 { "TB"@ }
    else { "PB"@ }
}

/// The largest unit, up to PB, that is no bigger than `b` (B below 1024).
pub open spec fn unit_index(b: nat) -> nat {
    if b < unit_size(1) { 0 }
    else if b < unit_size(2) { 1 }
    else if b < unit_size(3) { 2 }
    else if b < unit_size(4) { 3 }
    else if b < unit_size(5) { 4 }
    else { 5 }
}

/// `n / d` rounded to the nearest whole number, halves to the even one.
pub open spec fn round_half_even(n: nat, d: nat) -> nat {
    let q = n / d;
    let r = n % d;
    if 2 * r > d || (2 * r == d && q % 2 == 1) {
        q + 1
    } else {
        q
    }
}

/// How many low bits of `b` a 64-bit float cannot keep (its mantissa holds
/// 53 bits).
pub open spec fn f64_shift(b: nat) -> nat
    decreases b,
{
    if b < 0x20_0000_0000_0000 {
        0
    } else {
        1 + f64_shift(b / 2)
    }
}

/// `b` as a 64-bit float holds it: rounded to the nearest multiple of
/// `2^f64_shift(b)`, halves to even.
pub open spec fn f64_value(b: nat) -> nat {
    let p = pow2(f64_shift(b));
    round_half_even(b, p) * p
}

/// The size text for `b` bytes: whole bytes below 1 KB (`"1023 B"`), else
/// the value in the largest fitting unit with one decimal (`"1.5 KB"`),
/// rounded to nearest with halves to even, as `{:.1}` prints the byte count
/// converted to a 64-bit float.
pub open spec fn format_bytes_spec(b: nat) -> Seq<char> {
    let k = unit_index(b);
    if k == 0 {
        decimal_spec(b) + " B"@
    } else {
        let t = round_half_even(f64_value(b) * 10, unit_size(k));
        decimal_spec(t / 10) + seq!['.', digit_spec(t % 10), ' '] + unit_name(k)
    }
}

/// Below 1024 bytes the size is the byte count in whole bytes; a whole
/// number `n` (1 to 1023) of KB, MB, GB or TB reads `n.0` and the unit.
pub proof fn law_format_bytes_whole_units(n: nat, k: nat)
    requires
        1 <= n < 1024,
        1 <= k <= 4,
    ensures
        n < 1024 ==> format_bytes_spec(n) == decimal_spec(n) + " B"@,
        format_bytes_spec(n * unit_size(k)) == decimal_spec(n) + seq!['.', '0', ' '] + unit_name(k),
        unit_name(1) == "KB"@,
        unit_name(2) == "MB"@,
        unit_name(3) == "GB"@,
        unit_name(4) == "TB"@,
{
    let u = unit_size(k);
    let b = n * u;
    assert(u <= b < 1024 * u) by (nonlinear_arith)
        requires
            1 <= n < 1024,
            u >= 1,
            b == n * u,
    ;
    assert(unit_size(k + 1) == 1024 * u);
    assert(unit_index(b) == k);
    assert(b < 0x20_0000_0000_0000);
    lemma2_to64();
    assert(f64_shift(b) == 0);
    assert(b / 1 == b && b % 1 == 0);
    assert(f64_value(b) == b);
    let t = round_half_even(b * 10, u);
    assert(b * 10 == (n * 10) * u) by (nonlinear_arith)
        requires
            b == n * u,
    ;
    lemma_fundamental_div_mod_converse((b * 10) as int, u as int, (n * 10) as int, 0);
    assert(t == n * 10);
    assert(t / 10 == n && t % 10 == 0);
}

fn unit_name_str(k: usize) -> (res: &'static str)
    ensures
        res@ == unit_name(k as nat),
{
    match k {
        0 => "B",
        1 => "KB",
        2 => "MB",
        3 => "GB",
        4 => "TB",
        _ => "PB",
    }
}

fn round_half_even_exec(n: u128, d: u128) -> (res: u128)
    requires
        d > 0,
        n < 0x1_0000_0000_0000_0000_0000_0000_0000_0000 - 1,
    ensures
        res == round_half_even(n as nat, d as nat),
{
    let q = n / d;
    let r = n % d;
    assert(q <= n) by (nonlinear_arith)
        requires
            d > 0,
            q == n / d,
    ;
    if (r > d - r) || (r == d - r && q % 2 == 1) {
        q + 1
    } else {
        q
    }
}

/// `b` as a 64-bit float holds it.
fn f64_value_exec(b: u64) -> (res: u128)
    ensures
        res == f64_value(b as nat),
        res <= 0x2_0000_0000_0000_0000,
{
    let mut m: u64 = b;
    let mut p: u128 = 1;
    let ghost mut e: nat = 0;
    proof {
        lemma2_to64();
        assert(b as nat / 1 == b as nat);
    }
    while m >= 0x20_0000_0000_0000
        invariant
            p == pow2(e),
            m == b as nat / pow2(e),
            f64_shift(b as nat) == e + f64_shift(m as nat),
            1 <= p <= b as nat + 1,
        decreases m,
    {
        proof {
            lemma_div_denominator(b as int, pow2(e) as int, 2);
            lemma_pow2_unfold(e + 1);
            assert(p * 2 <= b as nat) by (nonlinear_arith)
                requires
                    m == b as nat / (p as nat),
                    m >= 2,
                    p >= 1,
            ;
        }
        m = m / 2;
        p = p * 2;
        proof {
            e = e + 1;
        }
    }
    let r = round_half_even_exec(b as u128, p);
    assert(r * p <= b as nat + p) by (nonlinear_arith)
        requires
            p >= 1,
            r <= b as nat / (p as nat) + 1,
    ;
    r * p
}

/// Formats a byte count compactly: `0 B`, `1023 B`, `1.5 KB`, `1.5 GB`.
pub fn format_bytes(bytes: u64) -> (res: String)
    ensures
        res@ == format_bytes_spec(bytes as nat),
{
    let k: usize = if bytes < 1024 {
        0
    } else if bytes < 1048576 {
        1
    } else if bytes < 1073741824 {
        2
    } else if bytes < 1099511627776 {
        3
    } else if bytes < 1125899906842624 {
        4
    } else {
        5
    };
    let mut s = String::new();
    if k == 0 {
        push_decimal(&mut s, bytes as u128);
        push_text(&mut s, " B");
    } else {
        let d: u128 = match k {
            1 => 1024,
            2 => 1048576,
            3 => 1073741824,
            4 => 1099511627776,
            _ => 1125899906842624,
        };
        let v = f64_value_exec(bytes);
        let t = round_half_even_exec(v * 10, d);
        push_decimal(&mut s, t / 10);
        string_push(&mut s, '.');
        string_push(&mut s, digit((t % 10) as u64));
        string_push(&mut s, ' ');
        push_text(&mut s, unit_name_str(k));
    }
    assert(s@ =~= format_bytes_spec(bytes as nat));
    s
}


// ── commands ───────────────────────────────────────────────────────────

/// The system the commands are built for: force-unmount and the diskutil
/// fallback differ between them.
#[derive(Clone, Copy, Debug, PartialEq, Eq, Structural)]
pub enum Platform {
    Linux,
    MacOs,
    Other,
}

/// `-t TYPE`, unless the type is empty or `auto` (the kernel then guesses).
pub open spec fn fs_type_args(fs_type: Seq<char>) -> Seq<Seq<char>> {
    if fs_type.len() > 0 && fs_type != "auto"@ {
        seq!["-t"@, fs_type]
    } else {
        seq![]
    }
}

/// `-o OPTIONS`, unless there are none.
pub open spec fn option_args(options: Seq<char>) -> Seq<Seq<char>> {
    if options.len() > 0 {
        seq!["-o"@, options]
    } else {
        seq![]
    }
}

/// The arguments of `sudo` that mount `device` at `mountpoint`:
/// `mount [-t TYPE] [-o OPTIONS] DEVICE MOUNTPOINT`.
pub open spec fn mount_args_spec(
    device: Seq<char>,
    mountpoint: Seq<char>,
    fs_type: Seq<char>,
    options: Seq<char>,
) -> Seq<Seq<char>> {
    seq!["mount"@] + fs_type_args(fs_type) + option_args(options) + seq![device, mountpoint]
}

/// The arguments of `sudo` that unmount `mountpoint`: `umount MOUNTPOINT`,
/// forced with `-l` (lazy) on Linux and `-f` on macOS.
pub open spec fn unmount_args_spec(mountpoint: Seq<char>, force: bool, platform: Platform) -> Seq<Seq<char>> {
    let flag: Seq<Seq<char>> = if force && platform == Platform::Linux {
        seq!["-l"@]
    } else if force && platform == Platform::MacOs {
        seq!["-f"@]
    } else {
        seq![]
    };
    seq!["umount"@] + flag + seq![mountpoint]
}

/// The arguments of `sudo` for the macOS fallback:
/// `diskutil unmount [force] MOUNTPOINT`.
pub open spec fn diskutil_args_spec(mountpoint: Seq<char>, force: bool) -> Seq<Seq<char>> {
    let flag: Seq<Seq<char>> = if force { seq!["force"@] } else { seq![] };
    seq!["diskutil"@, "unmount"@] + flag + seq![mountpoint]
}

/// With a password, `sudo` reads it from standard input (`-S`).
pub open spec fn sudo_args_spec(args: Seq<Seq<char>>, password: Seq<char>) -> Seq<Seq<char>> {
    if password.len() > 0 {
        seq!["-S"@] + args
    } else {
        args
    }
}

fn push_arg(args: &mut Vec<String>, a: &str)
    ensures
        final(args).deep_view() == old(args).deep_view().push(a@),
{
    let ghost before = args.deep_view();
    args.push(String::from_str(a));
    assert(args.deep_view() =~= before.push(a@));
}

/// The arguments of `sudo` that mount `device` at `mountpoint`.
pub fn mount_args(device: &str, mountpoint: &str, fs_type: &str, options: &str) -> (res: Vec<String>)
    ensures
        res.deep_view() == mount_args_spec(device@, mountpoint@, fs_type@, options@),
{
    let mut args: Vec<String> = Vec::new();
    push_arg(&mut args, "mount");
    if !fs_type.is_empty() && !text_eq(fs_type, "auto") {
        push_arg(&mut args, "-t");
        push_arg(&mut args, fs_type);
    }
    if !options.is_empty() {
        push_arg(&mut args, "-o");
        push_arg(&mut args, options);
    }
    push_arg(&mut args, device);
    push_arg(&mut args, mountpoint);
    assert(args.deep_view() =~= mount_args_spec(device@, mountpoint@, fs_type@, options@));
    args
}

/// The arguments of `sudo` that unmount `mountpoint`.
pub fn unmount_args(mountpoint: &str, force: bool, platform: Platform) -> (res: Vec<String>)
    ensures
        res.deep_view() == unmount_args_spec(mountpoint@, force, platform),
{
    let mut args: Vec<String> = Vec::new();
    push_arg(&mut args, "umount");
    if force && platform == Platform::Linux {
        push_arg(&mut args, "-l");
    } else if force && platform == Platform::MacOs {
        push_arg(&mut args, "-f");
    }
    push_arg(&mut args, mountpoint);
    assert(args.deep_view() =~= unmount_args_spec(mountpoint@, force, platform));
    args
}

/// The arguments of `sudo` for `diskutil unmount [force] MOUNTPOINT`.
pub fn diskutil_args(mountpoint: &str, force: bool) -> (res: Vec<String>)
    ensures
        res.deep_view() == diskutil_args_spec(mountpoint@, force),
{
    let mut args: Vec<String> = Vec::new();
    push_arg(&mut args, "diskutil");
    push_arg(&mut args, "unmount");
    if force {
        push_arg(&mut args, "force");
    }
    push_arg(&mut args, mountpoint);
    assert(args.deep_view() =~= diskutil_args_spec(mountpoint@, force));
    args
}

/// `args` for `sudo`, with `-S` in front when a password will be piped in.
pub fn sudo_args(args: Vec<String>, password: &str) -> (res: Vec<String>)
    ensures
        res.deep_view() == sudo_args_spec(args.deep_view(), password@),
{
    if password.is_empty() {
        args
    } else {
        let mut res: Vec<String> = Vec::new();
        push_arg(&mut res, "-S");
        let mut i: usize = 0;
        while i < args.len()
            invariant
                i <= args.len(),
                res.deep_view() == seq!["-S"@] + args.deep_view().take(i as int),
            decreases args.len() - i,
        {
            let ghost before = res.deep_view();
            res.push(args[i].clone());
            assert(res.deep_view() =~= before.push(args[i as int]@));
            assert(args.deep_view().take(i + 1) =~= args.deep_view().take(i as int).push(args[i as int]@));
            i = i + 1;
        }
        assert(args.deep_view().take(i as int) =~= args.deep_view());
        res
    }
}

/// The mount command: `mount` first, then `-t TYPE` right after it exactly
/// when a type other than `auto` is chosen (whatever the options), then
/// `-o OPTIONS` exactly when there are options, then the device and the
/// mount point last.
pub proof fn law_mount_args(device: Seq<char>, mountpoint: Seq<char>, fs_type: Seq<char>, options: Seq<char>)
    ensures
        ({
            let a = mount_args_spec(device, mountpoint, fs_type, options);
            let typed = fs_type.len() > 0 && fs_type != "auto"@;
            let opts = options.len() > 0;
            &&& a.len() == 3 + (if typed { 2int } else { 0 }) + (if opts { 2int } else { 0 })
            &&& a[0] == "mount"@
            &&& typed ==> a[1] == "-t"@ && a[2] == fs_type
            &&& opts ==> a[a.len() - 4] == "-o"@ && a[a.len() - 3] == options
            &&& a[a.len() - 2] == device
            &&& a[a.len() - 1] == mountpoint
        }),
{
}

/// A plain unmount is `umount MOUNTPOINT` on every system; a forced one
/// adds `-l` on Linux and `-f` on macOS, and nothing elsewhere.
pub proof fn law_unmount_args(mountpoint: Seq<char>, platform: Platform)
    ensures
        unmount_args_spec(mountpoint, false, platform) == seq!["umount"@, mountpoint],
        unmount_args_spec(mountpoint, true, Platform::Linux) == seq!["umount"@, "-l"@, mountpoint],
        unmount_args_spec(mountpoint, true, Platform::MacOs) == seq!["umount"@, "-f"@, mountpoint],
        unmount_args_spec(mountpoint, true, Platform::Other) == seq!["umount"@, mountpoint],
        diskutil_args_spec(mountpoint, false) == seq!["diskutil"@, "unmount"@, mountpoint],
        diskutil_args_spec(mountpoint, true) == seq!["diskutil"@, "unmount"@, "force"@, mountpoint],
{
    assert(unmount_args_spec(mountpoint, false, platform) =~= seq!["umount"@, mountpoint]);
    assert(unmount_args_spec(mountpoint, true, Platform::Linux) =~= seq!["umount"@, "-l"@, mountpoint]);
    assert(unmount_args_spec(mountpoint, true, Platform::MacOs) =~= seq!["umount"@, "-f"@, mountpoint]);
    assert(unmount_args_spec(mountpoint, true, Platform::Other) =~= seq!["umount"@, mountpoint]);
    assert(diskutil_args_spec(mountpoint, false) =~= seq!["diskutil"@, "unmount"@, mountpoint]);
    assert(diskutil_args_spec(mountpoint, true) =~= seq!["diskutil"@, "unmount"@, "force"@, mountpoint]);
}

/// With a password, `-S` comes first and the command follows unchanged;
/// without one the command is passed as it is.
pub proof fn law_sudo_args(args: Seq<Seq<char>>, password: Seq<char>)
    ensures
        password.len() > 0 ==> sudo_args_spec(args, password).len() == args.len() + 1
            && sudo_args_spec(args, password)[0] == "-S"@ && sudo_args_spec(args, password).skip(1)
            == args,
        password.len() == 0 ==> sudo_args_spec(args, password) == args,
{
    if password.len() > 0 {
        assert(sudo_args_spec(args, password).skip(1) =~= args);
    }
}

/// An operation succeeds exactly when its command exited with code 0; its
/// message always starts with the command's label, and a success reads
/// "LABEL succeeded".
pub proof fn law_outcome(label: Seq<char>, outcome: RunOutcome, via_diskutil: bool)
    ensures
        outcome_success(outcome) <==> (outcome matches RunOutcome::Exited { code, .. } && code
            == Some(0i32)),
        outcome_message(label, outcome, via_diskutil).len() >= label.len(),
        outcome_message(label, outcome, via_diskutil).take(label.len() as int) == label,
        outcome_success(outcome) && !via_diskutil ==> outcome_message(label, outcome, via_diskutil)
            == label + " succeeded"@,
{
    let m = outcome_message(label, outcome, via_diskutil);
    match outcome {
        RunOutcome::SpawnFailed(e) => {
            assert(m.take(label.len() as int) =~= label);
        },
        RunOutcome::Exited { code, stderr } => {
            assert(m.take(label.len() as int) =~= label);
            if code == Some(0i32) && !via_diskutil {
                assert(m =~= label + " succeeded"@);
            }
        },
        RunOutcome::WaitFailed(e) => {
            assert(m.take(label.len() as int) =~= label);
        },
    }
}

/// A failed exit reads "LABEL failed with exit code CODE" (or "killed by
/// signal" when there is no code), followed by ": " and the trimmed error
/// output when that is not blank.
pub proof fn law_failure_message(label: Seq<char>, code: Option<i32>, stderr: String, via_diskutil: bool)
    requires
        code != Some(0i32),
    ensures
        ({
            let m = outcome_message(label, RunOutcome::Exited { code, stderr }, via_diskutil);
            let head = label + " failed with exit code "@ + match code {
                Some(c) => signed_decimal_spec(c as int),
                None => "killed by signal"@,
            };
            &&& trim(stderr@).len() == 0 ==> m == head
            &&& trim(stderr@).len() > 0 ==> m == head + ": "@ + trim(stderr@)
        }),
{
}

/// Label of the diskutil fallback.
pub open spec fn diskutil_label_spec(force: bool) -> Seq<char> {
    if force { "diskutil unmount force"@ } else { "diskutil unmount"@ }
}

/// Label of the diskutil fallback, as its messages name it.
pub fn diskutil_label(force: bool) -> (res: &'static str)
    ensures
        res@ == diskutil_label_spec(force),
{
    if force { "diskutil unmount force" } else { "diskutil unmount" }
}

/// Whether a failed unmount is retried with `diskutil` (macOS only).
pub fn needs_diskutil_fallback(platform: Platform, result: &OpResult) -> (res: bool)
    ensures
        res == (platform == Platform::MacOs && !result.success),
{
    platform == Platform::MacOs && !result.success
}

// ── outcomes ───────────────────────────────────────────────────────────

/// How running a privileged command went.
#[derive(Debug)]
pub enum RunOutcome {
    /// The command could not be started; the system's error text.
    SpawnFailed(String),
    /// The command exited: its exit code (`None` when a signal killed it)
    /// and what it wrote to standard error.
    Exited { code: Option<i32>, stderr: String },
    /// Waiting for the command failed; the system's error text.
    WaitFailed(String),
}

/// The exit code as the failure message shows it.
pub open spec fn exit_code_text(code: Option<i32>) -> Seq<char> {
    match code {
        Some(c) => signed_decimal_spec(c as int),
        None => "killed by signal"@,
    }
}

/// `": <stderr>"` with the error output trimmed, or nothing when it is
/// blank.
pub open spec fn stderr_detail(stderr: Seq<char>) -> Seq<char> {
    if trim(stderr).len() == 0 {
        Seq::empty()
    } else {
        ": "@ + trim(stderr)
    }
}

/// Whether the outcome counts as success: the command exited with code 0.
pub open spec fn outcome_success(outcome: RunOutcome) -> bool {
    match outcome {
        RunOutcome::Exited { code, .. } => code == Some(0i32),
        _ => false,
    }
}

/// The message for an outcome of the command labelled `label`.  The
/// diskutil fallback (`via_diskutil`) says so on success and gives no
/// install hint when it cannot start.
pub open spec fn outcome_message(label: Seq<char>, outcome: RunOutcome, via_diskutil: bool) -> Seq<char> {
    match outcome {
        RunOutcome::SpawnFailed(e) => label + " error: "@ + e@ + if via_diskutil {
            Seq::empty()
        } else {
            " (is sudo installed?)"@
        },
        RunOutcome::Exited { code, stderr } => if code == Some(0i32) {
            label + " succeeded"@ + if via_diskutil {
                " (via diskutil)"@
            } else {
                Seq::empty()
            }
        } else {
            label + " failed with exit code "@ + exit_code_text(code) + stderr_detail(stderr@)
        },
        RunOutcome::WaitFailed(e) => label + " error: "@ + e@,
    }
}

/// The result to show for an outcome of the command labelled `label`.
pub fn outcome_result(label: &str, outcome: &RunOutcome, via_diskutil: bool) -> (res: OpResult)
    ensures
        res.success == outcome_success(*outcome),
        res.message@ == outcome_message(label@, *outcome, via_diskutil),
{
    let mut msg = String::from_str(label);
    let success = match outcome {
        RunOutcome::SpawnFailed(e) => {
            push_text(&mut msg, " error: ");
            push_text(&mut msg, e.as_str());
            if !via_diskutil {
                push_text(&mut msg, " (is sudo installed?)");
            }
            false
        },
        RunOutcome::Exited { code, stderr } => {
            let ok = match code {
                Some(c) => *c == 0,
                None => false,
            };
            if ok {
                push_text(&mut msg, " succeeded");
                if via_diskutil {
                    push_text(&mut msg, " (via diskutil)");
                }
            } else {
                push_text(&mut msg, " failed with exit code ");
                match code {
                    Some(c) => {
                        let t = signed_decimal(*c);
                        push_text(&mut msg, t.as_str());
                    },
                    None => {
                        push_text(&mut msg, "killed by signal");
                    },
                }
                let trimmed = trim_chars(&chars_of(stderr.as_str()));
                if trimmed.len() > 0 {
                    push_text(&mut msg, ": ");
                    let t = string_of(&trimmed);
                    push_text(&mut msg, t.as_str());
                }
            }
            ok
        },
        RunOutcome::WaitFailed(e) => {
            push_text(&mut msg, " error: ");
            push_text(&mut msg, e.as_str());
            false
        },
    };
    assert(msg@ =~= outcome_message(label@, *outcome, via_diskutil));
    OpResult { success, message: msg }
}

/// The result when the mount point could not be created.
pub fn mkdir_failed(mountpoint: &str, error: &str) -> (res: OpResult)
    ensures
        !res.success,
        res.message@ == "Failed to create mountpoint "@ + mountpoint@ + ": "@ + error@,
{
    let mut msg = String::from_str("Failed to create mountpoint ");
    push_text(&mut msg, mountpoint);
    push_text(&mut msg, ": ");
    push_text(&mut msg, error);
    assert(msg@ =~= "Failed to create mountpoint "@ + mountpoint@ + ": "@ + error@);
    OpResult { success: false, message: msg }
}

} // verus!
