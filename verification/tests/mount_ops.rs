use fancymount::clipboard::clipboard_commands;
use fancymount::mount_info::{
    options_from_flags, parse_mount_line, parse_mount_table, usage_from_statvfs, usage_ratio, MountEntry,
};
use fancymount::mount_ops::{
    diskutil_args, diskutil_label, fs_type_name, mkdir_failed, mount_args, needs_diskutil_fallback,
    outcome_result, sudo_args, unmount_args, OpResult, Platform, RunOutcome, FS_TYPE_COUNT,
};

fn v(xs: &[&str]) -> Vec<String> {
    xs.iter().map(|s| s.to_string()).collect()
}

#[test]
fn mount_arguments() {
    assert_eq!(
        mount_args("/dev/sdb1", "/mnt/usb", "ext4", "ro,noexec"),
        v(&["mount", "-t", "ext4", "-o", "ro,noexec", "/dev/sdb1", "/mnt/usb"])
    );
    assert_eq!(mount_args("/dev/sdb1", "/mnt", "auto", ""), v(&["mount", "/dev/sdb1", "/mnt"]));
    assert_eq!(mount_args("d", "m", "", "x"), v(&["mount", "-o", "x", "d", "m"]));
}

#[test]
fn unmount_arguments() {
    assert_eq!(unmount_args("/mnt", false, Platform::Linux), v(&["umount", "/mnt"]));
    assert_eq!(unmount_args("/mnt", true, Platform::Linux), v(&["umount", "-l", "/mnt"]));
    assert_eq!(unmount_args("/mnt", true, Platform::MacOs), v(&["umount", "-f", "/mnt"]));
    assert_eq!(unmount_args("/mnt", true, Platform::Other), v(&["umount", "/mnt"]));
    assert_eq!(diskutil_args("/V", true), v(&["diskutil", "unmount", "force", "/V"]));
    assert_eq!(diskutil_args("/V", false), v(&["diskutil", "unmount", "/V"]));
    assert_eq!(diskutil_label(true), "diskutil unmount force");
}

#[test]
fn sudo_reads_the_password_from_stdin() {
    assert_eq!(sudo_args(v(&["umount", "/x"]), "pw"), v(&["-S", "umount", "/x"]));
    assert_eq!(sudo_args(v(&["umount", "/x"]), ""), v(&["umount", "/x"]));
}

#[test]
fn outcome_messages() {
    let r = outcome_result("mount", &RunOutcome::Exited { code: Some(0), stderr: String::new() }, false);
    assert!(r.success);
    assert_eq!(r.message, "mount succeeded");
    let r = outcome_result(
        "unmount",
        &RunOutcome::Exited { code: Some(1), stderr: "  umount: /x: not mounted.\n".to_string() },
        false,
    );
    assert!(!r.success);
    assert_eq!(r.message, "unmount failed with exit code 1: umount: /x: not mounted.");
    let r = outcome_result("force unmount", &RunOutcome::Exited { code: None, stderr: " \n".to_string() }, false);
    assert_eq!(r.message, "force unmount failed with exit code killed by signal");
    let r = outcome_result("mount", &RunOutcome::SpawnFailed("No such file".to_string()), false);
    assert_eq!(r.message, "mount error: No such file (is sudo installed?)");
    let r = outcome_result("diskutil unmount", &RunOutcome::SpawnFailed("x".to_string()), true);
    assert_eq!(r.message, "diskutil unmount error: x");
    let r = outcome_result("diskutil unmount", &RunOutcome::Exited { code: Some(0), stderr: String::new() }, true);
    assert_eq!(r.message, "diskutil unmount succeeded (via diskutil)");
    let r = outcome_result("mount", &RunOutcome::WaitFailed("interrupted".to_string()), false);
    assert!(!r.success);
    assert_eq!(r.message, "mount error: interrupted");
    let r = outcome_result("mount", &RunOutcome::Exited { code: Some(-2), stderr: String::new() }, false);
    assert_eq!(r.message, "mount failed with exit code -2");
}

#[test]
fn mkdir_failure_message() {
    let r = mkdir_failed("/mnt/x", "Permission denied (os error 13)");
    assert!(!r.success);
    assert_eq!(r.message, "Failed to create mountpoint /mnt/x: Permission denied (os error 13)");
}

#[test]
fn diskutil_fallback_only_on_macos_failures() {
    let failed = OpResult { success: false, message: String::new() };
    let ok = OpResult { success: true, message: String::new() };
    assert!(needs_diskutil_fallback(Platform::MacOs, &failed));
    assert!(!needs_diskutil_fallback(Platform::MacOs, &ok));
    assert!(!needs_diskutil_fallback(Platform::Linux, &failed));
}

#[test]
fn filesystem_presets() {
    assert_eq!(FS_TYPE_COUNT, 25);
    assert_eq!(fs_type_name(0), "auto");
    assert_eq!(fs_type_name(8), "ext4");
    assert_eq!(fs_type_name(24), "msdos");
}

#[test]
fn mount_table_lines() {
    let m = parse_mount_line("/dev/sda1 /mnt/my\\040drive ext4 rw,relatime 0 0").unwrap();
    assert_eq!(m.device, "/dev/sda1");
    assert_eq!(m.mount_point, "/mnt/my drive");
    assert_eq!(m.fs_type, "ext4");
    assert_eq!(m.options, "rw,relatime");
    assert_eq!(m.total_bytes, None);
    assert!(parse_mount_line("short line").is_none());
    let m = parse_mount_line("a\\134b c\\011d t o").unwrap();
    assert_eq!(m.device, "a\\b");
    assert_eq!(m.mount_point, "c\td");
    let m = parse_mount_line("x\\041y /m t o").unwrap();
    assert_eq!(m.device, "x\\041y");
    let table = "proc /proc proc rw 0 0\n\n/dev/sda1 / ext4 rw 0 0\n";
    let ms = parse_mount_table(table);
    assert_eq!(ms.len(), 2);
    assert_eq!(ms[1].mount_point, "/");
}

#[test]
fn statvfs_figures_to_sizes() {
    assert_eq!(usage_from_statvfs(100, 30, 40, 4096), Some((409600, 122880, 245760)));
    assert_eq!(usage_from_statvfs(0, 0, 0, 4096), None);
    assert_eq!(usage_from_statvfs(u64::MAX, 1, 0, 2), Some((u64::MAX, 2, u64::MAX)));
    assert_eq!(usage_from_statvfs(10, 10, 20, 1), Some((10, 10, 0)));
}

#[test]
fn usage_is_known_only_with_a_total() {
    let mut m = MountEntry {
        device: "d".to_string(),
        mount_point: "/m".to_string(),
        fs_type: "ext4".to_string(),
        options: String::new(),
        total_bytes: Some(100),
        avail_bytes: Some(40),
        used_bytes: Some(60),
    };
    assert_eq!(usage_ratio(&m), Some((60, 100)));
    m.total_bytes = Some(0);
    assert_eq!(usage_ratio(&m), None);
    m.total_bytes = None;
    assert_eq!(usage_ratio(&m), None);
}

#[test]
fn option_text_from_flags() {
    assert_eq!(options_from_flags(false, false, false, false), "rw");
    assert_eq!(options_from_flags(true, true, true, true), "ro,nosuid,nodev,noexec");
    assert_eq!(options_from_flags(false, false, true, false), "rw,nodev");
}

#[test]
fn clipboard_tools_in_order() {
    let cmds = clipboard_commands();
    assert_eq!(
        cmds,
        vec![v(&["pbcopy"]), v(&["xclip", "-selection", "clipboard"]), v(&["xsel", "-ib"]), v(&["wl-copy"])]
    );
}
