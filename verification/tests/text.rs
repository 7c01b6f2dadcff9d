use fancymount::display::{basename, option_items};
use fancymount::text::{decimal, pad_right, signed_decimal, text_eq, trim_chars};

#[test]
fn basename_documented_examples() {
    assert_eq!(basename("/Volumes/Data"), "Data");
    assert_eq!(basename("/"), "/");
    assert_eq!(basename("//server/share"), "share");
}

#[test]
fn basename_edge_cases() {
    assert_eq!(basename(""), "");
    assert_eq!(basename("disk3s1"), "disk3s1");
    assert_eq!(basename("/dev/disk3s1/"), "disk3s1");
    assert_eq!(basename("/a/b/."), "b");
    assert_eq!(basename("/a/.."), "/a/..");
    assert_eq!(basename("."), ".");
    assert_eq!(basename("/mnt/my drive"), "my drive");
}

#[test]
fn basename_agrees_with_path_file_name() {
    for p in ["/", "", "a", "a/b", "/a/b/", "a//b", "./a", "a/./", "..", "a/..", "/..", "//x//", "/é/ü"] {
        let expected = std::path::Path::new(p)
            .file_name()
            .and_then(|n| n.to_str())
            .unwrap_or(p)
            .to_string();
        assert_eq!(basename(p), expected, "path = {:?}", p);
    }
}

#[test]
fn option_items_split_trim_and_skip_empty() {
    assert_eq!(option_items("rw,noatime"), vec!["rw".to_string(), "noatime".to_string()]);
    assert_eq!(option_items(" rw , nosuid ,, "), vec!["rw".to_string(), "nosuid".to_string()]);
    assert!(option_items("").is_empty());
    assert!(option_items(",, ,").is_empty());
    assert_eq!(option_items("\u{3000}ro\t"), vec!["ro".to_string()]);
}

#[test]
fn trim_matches_str_trim() {
    for s in ["", "  ", " a ", "\u{2028}x y\u{a0}", "\u{85}z", "\t\nq\r"] {
        let v: Vec<char> = s.chars().collect();
        let t: String = trim_chars(&v).into_iter().collect();
        assert_eq!(t, s.trim());
    }
}

#[test]
fn numbers_and_padding() {
    assert_eq!(decimal(0), "0");
    assert_eq!(decimal(42), "42");
    assert_eq!(decimal(u64::MAX), u64::MAX.to_string());
    assert_eq!(signed_decimal(-1), "-1");
    assert_eq!(signed_decimal(i32::MIN), i32::MIN.to_string());
    assert_eq!(signed_decimal(127), "127");
    assert_eq!(pad_right("apfs", 7), "apfs   ");
    assert_eq!(pad_right("iso9660x", 7), "iso9660x");
    assert_eq!(pad_right("é", 3), "é  ");
    assert!(text_eq("auto", "auto"));
    assert!(!text_eq("auto", "aut"));
}
