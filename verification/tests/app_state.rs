use fancymount::app::{App, Mode, OpKind};
use fancymount::keys::{Key, KeyPress};
use fancymount::mount_info::MountEntry;
use fancymount::mount_ops::OpResult;

fn entry(device: &str, mount_point: &str, fs_type: &str) -> MountEntry {
    MountEntry {
        device: device.to_string(),
        mount_point: mount_point.to_string(),
        fs_type: fs_type.to_string(),
        options: "rw,noatime".to_string(),
        total_bytes: Some(1000),
        avail_bytes: Some(400),
        used_bytes: Some(600),
    }
}

fn mounts(n: usize) -> Vec<MountEntry> {
    (0..n)
        .map(|i| entry(&format!("/dev/disk{}", i), &format!("/Volumes/V{}", i), "apfs"))
        .collect()
}

fn key(code: Key) -> KeyPress {
    KeyPress::plain(code)
}

fn press(app: &mut App, code: Key) -> Option<OpKind> {
    app.handle_key(key(code))
}

#[test]
fn new_app_starts_in_list_view() {
    let app = App::new(mounts(3));
    assert_eq!(app.selected(), 0);
    assert_eq!(app.scroll_offset(), 0);
    assert_eq!(app.mode(), &Mode::Normal);
    assert!(!app.detail_focused());
    assert_eq!(app.status_msg(), "");
    assert!(!app.should_quit);
    assert!(app.pending_privileged.is_none());
    assert!(app.cached_password.is_none());
    assert_eq!(app.mounts().len(), 3);
}

#[test]
fn arrows_move_and_stop_at_the_ends() {
    let mut app = App::new(mounts(3));
    press(&mut app, Key::Up);
    assert_eq!(app.selected(), 0);
    press(&mut app, Key::Down);
    press(&mut app, Key::Char('j'));
    assert_eq!(app.selected(), 2);
    press(&mut app, Key::Down);
    assert_eq!(app.selected(), 2);
    press(&mut app, Key::Char('k'));
    assert_eq!(app.selected(), 1);
}

#[test]
fn page_keys_jump_by_ten() {
    let mut app = App::new(mounts(25));
    press(&mut app, Key::PageDown);
    assert_eq!(app.selected(), 10);
    press(&mut app, Key::PageDown);
    press(&mut app, Key::PageDown);
    assert_eq!(app.selected(), 24);
    press(&mut app, Key::PageUp);
    assert_eq!(app.selected(), 14);
    press(&mut app, Key::Home);
    assert_eq!(app.selected(), 0);
    assert_eq!(app.scroll_offset(), 0);
    press(&mut app, Key::End);
    assert_eq!(app.selected(), 24);
}

#[test]
fn navigation_on_an_empty_list_stays_at_zero() {
    let mut app = App::new(Vec::new());
    for k in [Key::Down, Key::PageDown, Key::End, Key::Up] {
        press(&mut app, k);
        assert_eq!(app.selected(), 0);
    }
}

#[test]
fn tab_moves_focus_and_arrows_scroll_the_detail_pane() {
    let mut app = App::new(mounts(3));
    press(&mut app, Key::Tab);
    assert!(app.detail_focused());
    press(&mut app, Key::Down);
    press(&mut app, Key::PageDown);
    assert_eq!(app.detail_scroll(), 11);
    assert_eq!(app.selected(), 0);
    press(&mut app, Key::Char('j'));
    assert_eq!(app.selected(), 0);
    press(&mut app, Key::PageUp);
    press(&mut app, Key::Up);
    press(&mut app, Key::Up);
    assert_eq!(app.detail_scroll(), 0);
    press(&mut app, Key::End);
    assert_eq!(app.selected(), 2);
    press(&mut app, Key::Tab);
    assert!(!app.detail_focused());
    assert_eq!(app.detail_scroll(), 0);
}

#[test]
fn mount_key_prefills_the_selected_device() {
    let mut app = App::new(mounts(2));
    press(&mut app, Key::Down);
    press(&mut app, Key::Char('m'));
    assert_eq!(
        app.mode(),
        &Mode::MountSelected {
            device: "/dev/disk1".to_string(),
            mountpoint: String::new(),
            fs_type_idx: 0,
            options: String::new(),
            active_field: 1,
        }
    );
}

#[test]
fn new_mount_dialog_round_trip() {
    let mut app = App::new(mounts(1));
    press(&mut app, Key::Char('n'));
    for c in "/dev/sdb1".chars() {
        press(&mut app, Key::Char(c));
    }
    press(&mut app, Key::Tab);
    for c in "/mnt/usb".chars() {
        press(&mut app, Key::Char(c));
    }
    press(&mut app, Key::Tab);
    press(&mut app, Key::Right);
    press(&mut app, Key::Right);
    press(&mut app, Key::Char('x'));
    press(&mut app, Key::Tab);
    for c in "ro,noexec".chars() {
        press(&mut app, Key::Char(c));
    }
    press(&mut app, Key::Backspace);
    let text = app.dialog_text().expect("dialog is up");
    assert_eq!(text.fs_label, "\u{25c0} hfs \u{25b6}");
    assert_eq!(text.active_field, 3);
    assert!(!text.options_cursor);
    let op = press(&mut app, Key::Enter);
    assert_eq!(
        op,
        Some(OpKind::Mount {
            device: "/dev/sdb1".to_string(),
            mountpoint: "/mnt/usb".to_string(),
            fs_type: "hfs".to_string(),
            options: "ro,noexe".to_string(),
        })
    );
}

#[test]
fn dialog_fields_rotate_both_ways() {
    let mut app = App::new(mounts(1));
    press(&mut app, Key::Char('n'));
    press(&mut app, Key::BackTab);
    assert_eq!(app.dialog_text().unwrap().active_field, 3);
    press(&mut app, Key::Tab);
    assert_eq!(app.dialog_text().unwrap().active_field, 0);
    assert!(app.dialog_text().unwrap().device_cursor);
}

#[test]
fn fs_type_choice_stays_in_the_list() {
    let mut app = App::new(mounts(1));
    press(&mut app, Key::Char('n'));
    press(&mut app, Key::Left);
    assert_eq!(app.dialog_text().unwrap().fs_label, "\u{25c0} auto \u{25b6}");
    for _ in 0..40 {
        press(&mut app, Key::Right);
    }
    assert_eq!(app.dialog_text().unwrap().fs_label, "\u{25c0} msdos \u{25b6}");
}

#[test]
fn mount_without_device_is_refused() {
    let mut app = App::new(mounts(1));
    press(&mut app, Key::Char('n'));
    let op = press(&mut app, Key::Enter);
    assert!(op.is_none());
    assert_eq!(
        app.mode(),
        &Mode::Message {
            title: "Error".to_string(),
            body: "Device and mountpoint are required.".to_string(),
            refresh_on_close: false,
        }
    );
    press(&mut app, Key::Char('z'));
    assert_eq!(app.mode(), &Mode::Normal);
}

#[test]
fn escape_closes_the_dialog() {
    let mut app = App::new(mounts(1));
    press(&mut app, Key::Char('m'));
    press(&mut app, Key::Esc);
    assert_eq!(app.mode(), &Mode::Normal);
    assert!(!app.should_quit);
}

#[test]
fn unmount_keys_ask_for_the_selected_mount_point() {
    let mut app = App::new(mounts(2));
    press(&mut app, Key::Down);
    assert_eq!(
        press(&mut app, Key::Char('u')),
        Some(OpKind::Unmount { mountpoint: "/Volumes/V1".to_string(), force: false })
    );
    assert_eq!(
        press(&mut app, Key::Char('f')),
        Some(OpKind::Unmount { mountpoint: "/Volumes/V1".to_string(), force: true })
    );
}

#[test]
fn unmount_without_mounts_shows_an_error() {
    let mut app = App::new(Vec::new());
    assert!(press(&mut app, Key::Char('u')).is_none());
    assert_eq!(
        app.mode(),
        &Mode::Message {
            title: "Error".to_string(),
            body: "No mount point selected.".to_string(),
            refresh_on_close: false,
        }
    );
}

#[test]
fn password_prompt_then_cached_password() {
    let mut app = App::new(mounts(1));
    app.press_key(key(Key::Char('u')));
    assert!(matches!(app.mode(), Mode::PasswordPrompt { .. }));
    for c in "secret".chars() {
        app.press_key(key(Key::Char(c)));
    }
    app.press_key(key(Key::Backspace));
    app.press_key(key(Key::Char('t')));
    app.press_key(key(Key::Enter));
    assert_eq!(app.mode(), &Mode::Normal);
    let (op, pw) = app.pending_privileged.take().expect("operation queued");
    assert_eq!(op, OpKind::Unmount { mountpoint: "/Volumes/V0".to_string(), force: false });
    assert_eq!(pw, "secret");
    app.finish_privileged(pw, &OpResult { success: true, message: "unmount succeeded".to_string() });
    assert_eq!(
        app.mode(),
        &Mode::Message {
            title: "Success".to_string(),
            body: "unmount succeeded".to_string(),
            refresh_on_close: true,
        }
    );
    assert_eq!(app.cached_password.as_deref(), Some("secret"));
    app.press_key(key(Key::Enter));
    assert!(app.pending_refresh);
    app.refresh_mounts(mounts(1));
    assert!(!app.pending_refresh);
    app.press_key(key(Key::Char('f')));
    assert_eq!(app.mode(), &Mode::Normal);
    assert_eq!(
        app.pending_privileged,
        Some((OpKind::Unmount { mountpoint: "/Volumes/V0".to_string(), force: true }, "secret".to_string()))
    );
}

#[test]
fn failed_operation_caches_nothing() {
    let mut app = App::new(mounts(1));
    app.finish_privileged(
        "pw".to_string(),
        &OpResult { success: false, message: "mount failed with exit code 1".to_string() },
    );
    assert!(app.cached_password.is_none());
    assert_eq!(
        app.mode(),
        &Mode::Message {
            title: "Error".to_string(),
            body: "mount failed with exit code 1".to_string(),
            refresh_on_close: false,
        }
    );
    app.press_key(key(Key::Esc));
    assert!(!app.pending_refresh);
}

#[test]
fn password_prompt_escape_cancels() {
    let mut app = App::new(mounts(1));
    app.press_key(key(Key::Char('u')));
    app.press_key(key(Key::Char('a')));
    app.press_key(key(Key::Esc));
    assert_eq!(app.mode(), &Mode::Normal);
    assert!(app.pending_privileged.is_none());
}

#[test]
fn ctrl_l_forgets_the_password() {
    let mut app = App::new(mounts(1));
    app.cached_password = Some("pw".to_string());
    app.press_key(KeyPress::with_ctrl(Key::Char('l')));
    assert!(app.cached_password.is_none());
    assert_eq!(app.status_msg(), "Sudo credentials cleared.");
}

#[test]
fn ctrl_c_quits_everywhere() {
    let mut app = App::new(mounts(1));
    press(&mut app, Key::Char('n'));
    assert!(app.handle_key(KeyPress::with_ctrl(Key::Char('c'))).is_none());
    assert!(app.should_quit);
    let mut app = App::new(mounts(1));
    press(&mut app, Key::Char('q'));
    assert!(app.should_quit);
}

#[test]
fn help_and_toast_close_on_any_key() {
    let mut app = App::new(mounts(1));
    press(&mut app, Key::Char('?'));
    assert_eq!(app.mode(), &Mode::Help);
    press(&mut app, Key::Char('q'));
    assert_eq!(app.mode(), &Mode::Normal);
    assert!(!app.should_quit);
    app.toast("hello");
    press(&mut app, Key::Other);
    assert_eq!(app.mode(), &Mode::Normal);
}

#[test]
fn status_message_lasts_thirty_ticks() {
    let mut app = App::new(mounts(1));
    app.set_status("hi");
    for _ in 0..29 {
        app.tick();
    }
    assert_eq!(app.status_msg(), "hi");
    app.tick();
    assert_eq!(app.status_msg(), "");
    assert_eq!(app.status_ticks(), 0);
}

#[test]
fn toast_lasts_twenty_ticks() {
    let mut app = App::new(mounts(1));
    app.toast("copied");
    for _ in 0..19 {
        app.tick();
    }
    assert_eq!(app.mode(), &Mode::Toast { text: "copied".to_string(), ticks: 1 });
    app.tick();
    assert_eq!(app.mode(), &Mode::Normal);
}

#[test]
fn refresh_key_asks_for_a_new_list() {
    let mut app = App::new(mounts(5));
    press(&mut app, Key::End);
    press(&mut app, Key::Char('r'));
    assert!(app.pending_refresh);
    assert_eq!(app.status_msg(), "Mount list refreshed.");
    app.refresh_mounts(mounts(2));
    assert_eq!(app.selected(), 1);
    app.refresh_mounts(Vec::new());
    assert_eq!(app.selected(), 0);
}

#[test]
fn refresh_keeps_a_valid_selection() {
    let mut app = App::new(mounts(5));
    press(&mut app, Key::Down);
    press(&mut app, Key::Tab);
    press(&mut app, Key::Down);
    app.refresh_mounts(mounts(4));
    assert_eq!(app.selected(), 1);
    assert_eq!(app.detail_scroll(), 0);
}

#[test]
fn copy_keys_ask_for_the_clipboard() {
    let mut app = App::new(mounts(1));
    press(&mut app, Key::Char('y'));
    assert_eq!(app.pending_copy.as_deref(), Some("/Volumes/V0"));
    app.on_copy_result(true);
    assert!(app.pending_copy.is_none());
    assert_eq!(app.mode(), &Mode::Toast { text: "📋 Copied: /Volumes/V0".to_string(), ticks: 20 });
    press(&mut app, Key::Esc);
    press(&mut app, Key::Char('Y'));
    assert_eq!(app.pending_copy.as_deref(), Some("/dev/disk0"));
    app.on_copy_result(false);
    assert_eq!(
        app.status_msg(),
        "Clipboard: no tool found (install xclip / wl-clipboard on Linux)"
    );
}

#[test]
fn list_window_follows_the_selection() {
    let mut app = App::new(mounts(30));
    press(&mut app, Key::End);
    app.clamp_list_scroll(10);
    assert_eq!(app.scroll_offset(), 20);
    press(&mut app, Key::PageUp);
    press(&mut app, Key::PageUp);
    assert_eq!(app.selected(), 9);
    assert_eq!(app.scroll_offset(), 9);
    app.clamp_list_scroll(10);
    assert_eq!(app.scroll_offset(), 9);
    app.clamp_list_scroll(50);
    assert_eq!(app.scroll_offset(), 0);
}

#[test]
fn operation_result_sets_message() {
    let mut app = App::new(mounts(1));
    app.on_op_result(&OpResult { success: true, message: "mount succeeded".to_string() });
    assert_eq!(
        app.mode(),
        &Mode::Message {
            title: "Success".to_string(),
            body: "mount succeeded".to_string(),
            refresh_on_close: true,
        }
    );
}

#[test]
fn password_prompt_can_be_opened_directly() {
    let mut app = App::new(mounts(1));
    app.set_password_prompt(OpKind::Unmount { mountpoint: "/x".to_string(), force: false });
    assert_eq!(
        app.mode(),
        &Mode::PasswordPrompt {
            operation: OpKind::Unmount { mountpoint: "/x".to_string(), force: false },
            password: String::new(),
        }
    );
    app.request_privileged(OpKind::Unmount { mountpoint: "/y".to_string(), force: true });
    assert!(matches!(app.mode(), Mode::PasswordPrompt { .. }));
}

#[test]
fn visible_rows_and_detail_skip() {
    let mut app = App::new(mounts(30));
    press(&mut app, Key::End);
    app.clamp_list_scroll(10);
    assert_eq!(app.visible_range(10), (20, 30));
    assert_eq!(app.visible_range(100), (20, 30));
    assert_eq!(app.detail_skip(14), 0);
    press(&mut app, Key::Tab);
    for _ in 0..3 {
        press(&mut app, Key::PageDown);
    }
    assert_eq!(app.detail_skip(14), 13);
    assert_eq!(app.detail_skip(0), 0);
    press(&mut app, Key::Up);
    assert_eq!(app.detail_skip(40), 29);
}

#[test]
fn four_tabs_restore_the_dialog() {
    let mut app = App::new(mounts(1));
    press(&mut app, Key::Char('m'));
    let before = app.mode().clone();
    for _ in 0..4 {
        press(&mut app, Key::Tab);
    }
    assert_eq!(app.mode(), &before);
}

#[test]
fn expired_messages_stay_gone() {
    let mut app = App::new(mounts(1));
    app.set_status("hi");
    app.toast("t");
    for _ in 0..100 {
        app.tick();
    }
    assert_eq!(app.status_msg(), "");
    assert_eq!(app.mode(), &Mode::Normal);
}
