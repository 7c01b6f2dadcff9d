use fancymount::display::{
    build_detail_lines, device_column_width, list_title, masked_password, mounts_count_label,
    row_text, DetailLine,
};
use fancymount::layout::{
    bar_strings, centered_rect, fs_type_color, row_style, toast_rect, usage_cell, Area, RowStyle, UsageCell,
    USAGE_COLUMN_WIDTH,
};
use fancymount::mount_info::MountEntry;

fn entry(device: &str, mount_point: &str) -> MountEntry {
    MountEntry {
        device: device.to_string(),
        mount_point: mount_point.to_string(),
        fs_type: "ext4".to_string(),
        options: "rw, relatime,,".to_string(),
        total_bytes: Some(2048),
        avail_bytes: Some(1024),
        used_bytes: Some(1024),
    }
}

#[test]
fn bars_have_exactly_their_width() {
    let (u, f) = bar_strings(3, 10);
    assert_eq!(u, "▇▇▇");
    assert_eq!(f, "▒▒▒▒▒▒▒");
    let (u, f) = bar_strings(40, 30);
    assert_eq!(u.chars().count(), 30);
    assert_eq!(f, "");
    assert_eq!(bar_strings(0, 0), (String::new(), String::new()));
}

fn cell_text(c: UsageCell) -> String {
    match c {
        UsageCell::Bar { used, free, percent } => format!("{}{}{}", used, free, percent),
        UsageCell::Placeholder(t) => t,
    }
}

#[test]
fn usage_column_has_one_width() {
    assert_eq!(cell_text(usage_cell(None)), "▒▒▒▒▒▒▒▒▒▒    - ");
    assert_eq!(cell_text(usage_cell(Some((7, 73)))), "▇▇▇▇▇▇▇▒▒▒  73% ");
    assert_eq!(cell_text(usage_cell(Some((10, 100)))), "▇▇▇▇▇▇▇▇▇▇ 100% ");
    assert_eq!(cell_text(usage_cell(Some((0, 0)))), "▒▒▒▒▒▒▒▒▒▒   0% ");
    for u in [None, Some((3usize, 5u64)), Some((10, 100)), Some((0, 42))] {
        assert_eq!(cell_text(usage_cell(u)).chars().count(), USAGE_COLUMN_WIDTH);
    }
}

#[test]
fn rows_line_up_with_and_without_usage() {
    let ms = vec![entry("/dev/sda1", "/"), entry("proc", "/proc")];
    let w = device_column_width(&ms);
    let a = row_text(&ms[0], w);
    let b = row_text(&ms[1], w);
    let ra = format!("{}{}{}", a.fs_type, cell_text(usage_cell(Some((5, 50)))), a.device);
    let rb = format!("{}{}{}", b.fs_type, cell_text(usage_cell(None)), b.device);
    assert_eq!(ra.chars().count(), 7 + 16 + w + 1);
    assert_eq!(rb.chars().count(), ra.chars().count());
}

#[test]
fn selected_row_emphasis() {
    assert_eq!(row_style(true, false), RowStyle::Highlighted);
    assert_eq!(row_style(true, true), RowStyle::Marked);
    assert_eq!(row_style(false, false), RowStyle::Plain);
    assert_eq!(row_style(false, true), RowStyle::Plain);
}

#[test]
fn centered_rect_examples() {
    let parent = Area { x: 0, y: 0, width: 100, height: 40 };
    assert_eq!(centered_rect(60, 55, parent), Area { x: 20, y: 9, width: 60, height: 22 });
    let parent = Area { x: 5, y: 3, width: 11, height: 7 };
    assert_eq!(centered_rect(50, 30, parent), Area { x: 8, y: 5, width: 5, height: 2 });
}

#[test]
fn toast_sits_above_the_bottom() {
    let parent = Area { x: 0, y: 0, width: 80, height: 24 };
    assert_eq!(toast_rect(parent), Area { x: 20, y: 20, width: 40, height: 3 });
    let small = Area { x: 0, y: 0, width: 10, height: 2 };
    assert_eq!(toast_rect(small), Area { x: 0, y: 0, width: 20, height: 2 });
}

#[test]
fn filesystem_colours() {
    assert_eq!(fs_type_color("apfs"), (100, 210, 255));
    assert_eq!(fs_type_color("nfs4"), (255, 150, 60));
    assert_eq!(fs_type_color("cifs"), (255, 120, 80));
    assert_eq!(fs_type_color("weird"), (190, 190, 210));
}

#[test]
fn device_column_is_padded_to_the_longest_name() {
    let ms = vec![entry("/dev/sda1", "/"), entry("/dev/nvme0n1p2", "/home"), entry("tmpfs", "/tmp")];
    let w = device_column_width(&ms);
    assert_eq!(w, 9);
    for m in &ms {
        assert_eq!(row_text(m, w).device.chars().count(), w + 1);
    }
    let r = row_text(&ms[1], w);
    assert_eq!(r.fs_type, "ext4   ");
    assert_eq!(r.device, "nvme0n1p2 ");
    assert_eq!(r.mount_name, "home");
    assert_eq!(row_text(&ms[0], w).mount_name, "/");
    assert_eq!(device_column_width(&Vec::new()), 6);
    assert_eq!(device_column_width(&vec![entry("/dev/é", "/x")]), 6);
}

#[test]
fn detail_lines_for_a_mount() {
    let m = entry("/dev/sda1", "/");
    let lines = build_detail_lines(&m, 2, 5);
    let expect = vec![
        DetailLine::Section(" Identity ".to_string()),
        DetailLine::Field { key: "  #             ".to_string(), value: "2 of 5".to_string() },
        DetailLine::Field { key: "  Device:       ".to_string(), value: "/dev/sda1".to_string() },
        DetailLine::Field { key: "  Mount Point:  ".to_string(), value: "/".to_string() },
        DetailLine::Field { key: "  Filesystem:   ".to_string(), value: "ext4".to_string() },
        DetailLine::Blank,
        DetailLine::Section(" Options ".to_string()),
        DetailLine::Bullet("rw".to_string()),
        DetailLine::Bullet("relatime".to_string()),
        DetailLine::Blank,
        DetailLine::Section(" Usage ".to_string()),
        DetailLine::Field { key: "  Total:        ".to_string(), value: "2.0 KB".to_string() },
        DetailLine::Field { key: "  Used:         ".to_string(), value: "1.0 KB".to_string() },
        DetailLine::Field { key: "  Available:    ".to_string(), value: "1.0 KB".to_string() },
        DetailLine::UsageBar { used: 1024, total: 2048 },
    ];
    assert_eq!(format!("{:?}", lines), format!("{:?}", expect));
    let mut bare = entry("proc", "/proc");
    bare.total_bytes = None;
    assert_eq!(build_detail_lines(&bare, 1, 1).len(), 10);
    let mut empty_fs = entry("x", "/x");
    empty_fs.total_bytes = Some(0);
    let lines = build_detail_lines(&empty_fs, 1, 1);
    assert_eq!(lines.len(), 14);
    assert!(!matches!(lines[13], DetailLine::UsageBar { .. }));
}

#[test]
fn small_texts() {
    assert_eq!(masked_password(""), "█");
    assert_eq!(masked_password("abc"), "•••");
    assert_eq!(mounts_count_label(42), " 42 mounts ");
    assert_eq!(list_title(7), " Mount Points (7) ");
}

#[test]
fn toast_is_clipped_at_the_screen_edge() {
    let parent = Area { x: 65530, y: 0, width: 5, height: 10 };
    assert_eq!(toast_rect(parent), Area { x: 65530, y: 6, width: 5, height: 3 });
}

#[test]
fn device_column_counts_bytes() {
    let ms = vec![entry("/dev/ééééé", "/x")];
    assert_eq!(device_column_width(&ms), 10);
    assert_eq!(row_text(&ms[0], 10).device.chars().count(), 11);
}
