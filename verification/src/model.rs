//! The application's state machine, stated over plain values: what every
//! key press, tick and result does to the screen state.

use vstd::prelude::*;
use crate::keys::{Key, KeyPress};
use crate::mount_info::MountView;
use crate::mount_ops::{fs_type_spec, FS_TYPE_COUNT};

verus! {

/// Ticks a status-bar message stays up (about 3 s at 100 ms per tick).
pub const STATUS_TICKS: usize = 30;

/// Ticks a toast stays up (about 2 s).
pub const TOAST_TICKS: usize = 20;

/// How far PgUp / PgDn move the selection.
pub const PAGE: usize = 10;

/// A privileged operation, with its texts as character sequences.
pub enum OpView {
    Mount { device: Seq<char>, mountpoint: Seq<char>, fs_type: Seq<char>, options: Seq<char> },
    Unmount { mountpoint: Seq<char>, force: bool },
}

/// The fields of the mount dialog.
pub struct FormView {
    pub device: Seq<char>,
    pub mountpoint: Seq<char>,
    pub fs_type_idx: usize,
    pub options: Seq<char>,
    pub active_field: u8,
}

/// Which screen is up, with what it holds.
pub enum ModeView {
    Normal,
    NewMount(FormView),
    MountSelected(FormView),
    Message { title: Seq<char>, body: Seq<char>, refresh_on_close: bool },
    Toast { text: Seq<char>, ticks: usize },
    Help,
    PasswordPrompt { operation: OpView, password: Seq<char> },
}

/// The whole application state.
pub struct AppView {
    pub mounts: Seq<MountView>,
    pub selected: usize,
    pub scroll_offset: usize,
    pub mode: ModeView,
    pub detail_focused: bool,
    pub detail_scroll: usize,
    pub status_msg: Seq<char>,
    pub status_ticks: usize,
    pub should_quit: bool,
    pub pending_privileged: Option<(OpView, Seq<char>)>,
    pub cached_password: Option<Seq<char>>,
    pub pending_refresh: bool,
    pub pending_copy: Option<Seq<char>>,
}

// ── small arithmetic ────────────────────────────────────────────────────

/// `a - b`, or 0 where that would be negative.
pub open spec fn sat_sub(a: usize, b: usize) -> usize {
    if a >= b { (a - b) as usize } else { 0 }
}

/// `a + b`, or `usize::MAX` where that would not fit.
pub open spec fn sat_add(a: usize, b: usize) -> usize {
    if a + b > usize::MAX { usize::MAX } else { (a + b) as usize }
}

/// `s` without its last character, or `s` itself when it is empty.
pub open spec fn drop_last_char(s: Seq<char>) -> Seq<char> {
    if s.len() > 0 { s.drop_last() } else { s }
}

/// A selection that points at a mount, or is 0 when there is none.
pub open spec fn valid_selection(len: nat, selected: usize) -> bool {
    if len == 0 { selected == 0 } else { selected < len }
}

/// The dialog's field cursor and filesystem choice are in range.
pub open spec fn form_ok(f: FormView) -> bool {
    f.fs_type_idx < FS_TYPE_COUNT && f.active_field < 4
}

// ── dialog form edits ───────────────────────────────────────────────────

/// Types `c` into the active text field (the filesystem field takes none).
pub open spec fn form_type_char(f: FormView, c: char) -> FormView {
    if f.active_field == 0 {
        FormView { device: f.device.push(c), ..f }
    } else if f.active_field == 1 {
        FormView { mountpoint: f.mountpoint.push(c), ..f }
    } else if f.active_field == 3 {
        FormView { options: f.options.push(c), ..f }
    } else {
        f
    }
}

/// Deletes the last character of the active text field.
pub open spec fn form_backspace(f: FormView) -> FormView {
    if f.active_field == 0 {
        FormView { device: drop_last_char(f.device), ..f }
    } else if f.active_field == 1 {
        FormView { mountpoint: drop_last_char(f.mountpoint), ..f }
    } else if f.active_field == 3 {
        FormView { options: drop_last_char(f.options), ..f }
    } else {
        f
    }
}

/// Moves to the next field: 0 → 1 → 2 → 3 → 0.
pub open spec fn form_next_field(f: FormView) -> FormView {
    FormView { active_field: ((f.active_field + 1) % 4) as u8, ..f }
}

/// Moves to the previous field: 0 → 3 → 2 → 1 → 0.
pub open spec fn form_prev_field(f: FormView) -> FormView {
    FormView { active_field: ((f.active_field + 3) % 4) as u8, ..f }
}

/// Left: the previous filesystem type, stopping at the first.
pub open spec fn form_fs_left(f: FormView) -> FormView {
    FormView { fs_type_idx: sat_sub(f.fs_type_idx, 1), ..f }
}

/// Right: the next filesystem type, stopping at the last.
pub open spec fn form_fs_right(f: FormView) -> FormView {
    FormView {
        fs_type_idx: if f.fs_type_idx + 1 < FS_TYPE_COUNT - 1 {
            (f.fs_type_idx + 1) as usize
        } else {
            (FS_TYPE_COUNT - 1) as usize
        },
        ..f
    }
}

/// A dialog form with no text and the cursor on `active_field`.
pub open spec fn blank_form(device: Seq<char>, active_field: u8) -> FormView {
    FormView {
        device,
        mountpoint: Seq::empty(),
        fs_type_idx: 0,
        options: Seq::empty(),
        active_field,
    }
}

impl ModeView {
    /// The form of a dialog screen.
    pub open spec fn form(self) -> FormView {
        match self {
            ModeView::NewMount(f) => f,
            ModeView::MountSelected(f) => f,
            _ => blank_form(Seq::empty(), 0),
        }
    }

    /// Whether a mount dialog is up.
    pub open spec fn is_dialog(self) -> bool {
        self is NewMount || self is MountSelected
    }

    /// The same dialog screen with form `f`.
    pub open spec fn with_form(self, f: FormView) -> ModeView {
        match self {
            ModeView::NewMount(_) => ModeView::NewMount(f),
            ModeView::MountSelected(_) => ModeView::MountSelected(f),
            _ => self,
        }
    }
}

/// An error message overlay that closes without refreshing.
pub open spec fn error_message(body: Seq<char>) -> ModeView {
    ModeView::Message { title: "Error"@, body, refresh_on_close: false }
}

impl AppView {
    /// The invariant every reachable state keeps.
    pub open spec fn wf(self) -> bool {
        &&& self.mounts.len() <= usize::MAX
        &&& valid_selection(self.mounts.len(), self.selected)
        &&& (self.mode.is_dialog() ==> form_ok(self.mode.form()))
    }

    /// The same state on screen `mode`.
    pub open spec fn with_mode(self, mode: ModeView) -> AppView {
        AppView { mode, ..self }
    }

    /// `set_status`: show `msg` in the status bar for [`STATUS_TICKS`] ticks.
    pub open spec fn with_status(self, msg: Seq<char>) -> AppView {
        AppView { status_msg: msg, status_ticks: STATUS_TICKS, ..self }
    }

    /// `toast`: pop up `msg` for [`TOAST_TICKS`] ticks.
    pub open spec fn with_toast(self, msg: Seq<char>) -> AppView {
        self.with_mode(ModeView::Toast { text: msg, ticks: TOAST_TICKS })
    }

    /// `set_password_prompt`: ask for the sudo password before `op`.
    pub open spec fn with_password_prompt(self, op: OpView) -> AppView {
        self.with_mode(ModeView::PasswordPrompt { operation: op, password: Seq::empty() })
    }

    /// `refresh_mounts`: take the new list, keep the selection where it
    /// still points at a mount (else the last one), reset the detail scroll.
    pub open spec fn refreshed(self, mounts: Seq<MountView>) -> AppView {
        AppView {
            mounts,
            selected: if mounts.len() == 0 {
                0
            } else if self.selected >= mounts.len() {
                (mounts.len() - 1) as usize
            } else {
                self.selected
            },
            detail_scroll: 0,
            pending_refresh: false,
            ..self
        }
    }

    /// Brings the first visible row up to the selection if it lies above it.
    pub open spec fn scroll_clamped(self) -> AppView {
        if self.selected < self.scroll_offset {
            AppView { scroll_offset: self.selected, ..self }
        } else {
            self
        }
    }

    /// Moves the selection to `i` and keeps it visible.
    pub open spec fn select(self, i: usize) -> AppView {
        AppView { selected: i, ..self }.scroll_clamped()
    }

    /// The selection moved down by `n`, stopping at the last mount.
    pub open spec fn selection_down(self, n: usize) -> usize {
        if self.mounts.len() == 0 {
            self.selected
        } else if self.selected + n < self.mounts.len() - 1 {
            (self.selected + n) as usize
        } else {
            (self.mounts.len() - 1) as usize
        }
    }
}

// ── key handling ───────────────────────────────────────────────────────

/// `u` / `f`: ask to unmount the selected mount point.
pub open spec fn unmount_step(s: AppView, force: bool) -> (AppView, Option<OpView>) {
    if s.selected < s.mounts.len() {
        (s, Some(OpView::Unmount { mountpoint: s.mounts[s.selected as int].mount_point, force }))
    } else {
        (s.with_mode(error_message("No mount point selected."@)), None)
    }
}

/// Enter in the mount dialog: ask to mount what the form holds, or
/// complain when the device or the mount point is missing.
pub open spec fn mount_step(s: AppView) -> (AppView, Option<OpView>) {
    let f = s.mode.form();
    if f.device.len() == 0 || f.mountpoint.len() == 0 {
        (s.with_mode(error_message("Device and mountpoint are required."@)), None)
    } else {
        (
            s,
            Some(
                OpView::Mount {
                    device: f.device,
                    mountpoint: f.mountpoint,
                    fs_type: fs_type_spec(f.fs_type_idx as int),
                    options: f.options,
                },
            ),
        )
    }
}

/// A key in the two-pane view while the list has the arrows.
pub open spec fn list_key(s: AppView, k: Key) -> (AppView, Option<OpView>) {
    if k == Key::Up || k == Key::Char('k') {
        (s.select(sat_sub(s.selected, 1)), None)
    } else if k == Key::Down || k == Key::Char('j') {
        (s.select(s.selection_down(1)), None)
    } else if k == Key::PageUp {
        (s.select(sat_sub(s.selected, PAGE)), None)
    } else if k == Key::PageDown {
        (s.select(s.selection_down(PAGE)), None)
    } else if k == Key::Home {
        (AppView { selected: 0, scroll_offset: 0, ..s }, None)
    } else if k == Key::End {
        (s.select(if s.mounts.len() == 0 { s.selected } else { (s.mounts.len() - 1) as usize }), None)
    } else if k == Key::Tab {
        (AppView { detail_focused: !s.detail_focused, detail_scroll: 0, ..s }, None)
    } else if k == Key::Char('m') {
        let device = if s.selected < s.mounts.len() {
            s.mounts[s.selected as int].device
        } else {
            Seq::empty()
        };
        (s.with_mode(ModeView::MountSelected(blank_form(device, 1))), None)
    } else if k == Key::Char('u') {
        unmount_step(s, false)
    } else if k == Key::Char('f') {
        unmount_step(s, true)
    } else if k == Key::Char('n') {
        (s.with_mode(ModeView::NewMount(blank_form(Seq::empty(), 0))), None)
    } else if k == Key::Char('r') {
        (AppView { pending_refresh: true, ..s }.with_status("Mount list refreshed."@), None)
    } else if k == Key::Char('y') {
        if s.selected < s.mounts.len() {
            (AppView { pending_copy: Some(s.mounts[s.selected as int].mount_point), ..s }, None)
        } else {
            (s, None)
        }
    } else if k == Key::Char('Y') {
        if s.selected < s.mounts.len() {
            (AppView { pending_copy: Some(s.mounts[s.selected as int].device), ..s }, None)
        } else {
            (s, None)
        }
    } else if k == Key::Char('?') {
        (s.with_mode(ModeView::Help), None)
    } else if k == Key::Esc || k == Key::Char('q') {
        (AppView { should_quit: true, ..s }, None)
    } else {
        (s, None)
    }
}

/// A key in the two-pane view: with the detail pane focused the arrows
/// scroll it (and `j` / `k` do nothing); every other key acts on the list.
pub open spec fn normal_key(s: AppView, k: Key) -> (AppView, Option<OpView>) {
    if s.detail_focused && k == Key::Up {
        (AppView { detail_scroll: sat_sub(s.detail_scroll, 1), ..s }, None)
    } else if s.detail_focused && k == Key::Down {
        (AppView { detail_scroll: sat_add(s.detail_scroll, 1), ..s }, None)
    } else if s.detail_focused && k == Key::PageUp {
        (AppView { detail_scroll: sat_sub(s.detail_scroll, PAGE), ..s }, None)
    } else if s.detail_focused && k == Key::PageDown {
        (AppView { detail_scroll: sat_add(s.detail_scroll, PAGE), ..s }, None)
    } else if s.detail_focused && (k == Key::Char('k') || k == Key::Char('j')) {
        (s, None)
    } else {
        list_key(s, k)
    }
}

/// What a key other than Enter and Esc does to the mount dialog's form.
pub open spec fn form_key(f: FormView, k: Key) -> FormView {
    match k {
        Key::Tab => form_next_field(f),
        Key::BackTab => form_prev_field(f),
        Key::Char(c) => form_type_char(f, c),
        Key::Backspace => form_backspace(f),
        Key::Left => form_fs_left(f),
        Key::Right => form_fs_right(f),
        _ => f,
    }
}

/// A key while the mount dialog is up: Esc closes it, Enter asks for the
/// mount, the other keys edit the form.
pub open spec fn dialog_key(s: AppView, k: Key) -> (AppView, Option<OpView>) {
    match k {
        Key::Esc => (s.with_mode(ModeView::Normal), None),
        Key::Enter => mount_step(s),
        _ => (s.with_mode(s.mode.with_form(form_key(s.mode.form(), k))), None),
    }
}

/// A key while the password prompt is up: Enter hands the operation and
/// the typed password on, Esc cancels, the rest edits the password.
pub open spec fn password_key(s: AppView, k: Key) -> AppView {
    match s.mode {
        ModeView::PasswordPrompt { operation, password } => match k {
            Key::Esc => s.with_mode(ModeView::Normal),
            Key::Enter => AppView {
                pending_privileged: Some((operation, password)),
                mode: ModeView::Normal,
                ..s
            },
            Key::Backspace => s.with_mode(
                ModeView::PasswordPrompt { operation, password: drop_last_char(password) },
            ),
            Key::Char(c) => s.with_mode(
                ModeView::PasswordPrompt { operation, password: password.push(c) },
            ),
            _ => s,
        },
        _ => s,
    }
}

/// Whether the press is Ctrl+`c`.
pub open spec fn is_ctrl_char(k: KeyPress, c: char) -> bool {
    k.ctrl && k.code == Key::Char(c)
}

/// `handle_key`: what a key press does, and the privileged operation it
/// asks for, if any.  Ctrl+C quits from every screen; any key closes a
/// message, a toast or the help screen.
pub open spec fn key_step(s: AppView, k: KeyPress) -> (AppView, Option<OpView>) {
    if is_ctrl_char(k, 'c') {
        (AppView { should_quit: true, ..s }, None)
    } else {
        match s.mode {
            ModeView::Message { refresh_on_close, .. } => (
                AppView {
                    mode: ModeView::Normal,
                    pending_refresh: s.pending_refresh || refresh_on_close,
                    ..s
                },
                None,
            ),
            ModeView::Toast { .. } => (s.with_mode(ModeView::Normal), None),
            ModeView::Help => (s.with_mode(ModeView::Normal), None),
            ModeView::PasswordPrompt { .. } => (password_key(s, k.code), None),
            ModeView::Normal => normal_key(s, k.code),
            _ => dialog_key(s, k.code),
        }
    }
}

/// The operation `op` handed on: with a cached password it runs at once,
/// otherwise the password prompt comes up.
pub open spec fn request_step(s: AppView, op: OpView) -> AppView {
    match s.cached_password {
        Some(pw) => AppView { pending_privileged: Some((op, pw)), ..s },
        None => s.with_password_prompt(op),
    }
}

/// A key press as the event loop handles it: [`key_step`], then the
/// operation it asks for is requested, and Ctrl+L forgets the cached
/// password.
pub open spec fn press_step(s: AppView, k: KeyPress) -> AppView {
    let (t, op) = key_step(s, k);
    let u = match op {
        Some(o) => request_step(t, o),
        None => t,
    };
    if is_ctrl_char(k, 'l') {
        AppView { cached_password: None, ..u }.with_status("Sudo credentials cleared."@)
    } else {
        u
    }
}

// ── time and results ───────────────────────────────────────────────────

/// One tick of the clock: the status message and a toast count down, and
/// go away when their count reaches zero.
pub open spec fn tick_step(s: AppView) -> AppView {
    let s1 = if s.status_ticks > 0 {
        let t = (s.status_ticks - 1) as usize;
        AppView {
            status_ticks: t,
            status_msg: if t == 0 { Seq::empty() } else { s.status_msg },
            ..s
        }
    } else {
        s
    };
    match s1.mode {
        ModeView::Toast { text, ticks } => {
            let t = sat_sub(ticks, 1);
            if t == 0 {
                s1.with_mode(ModeView::Normal)
            } else {
                s1.with_mode(ModeView::Toast { text, ticks: t })
            }
        },
        _ => s1,
    }
}

/// `n` ticks in a row.
pub open spec fn ticks(s: AppView, n: nat) -> AppView
    decreases n,
{
    if n == 0 {
        s
    } else {
        tick_step(ticks(s, (n - 1) as nat))
    }
}

/// `on_op_result`: the outcome of an operation, shown as a message that
/// refreshes the list on close when the operation succeeded.
pub open spec fn result_step(s: AppView, success: bool, message: Seq<char>) -> AppView {
    s.with_mode(
        ModeView::Message {
            title: if success { "Success"@ } else { "Error"@ },
            body: message,
            refresh_on_close: success,
        },
    )
}

/// An operation finished: its outcome is shown, and the password it ran
/// with is kept for the next one when it succeeded.
pub open spec fn finish_step(s: AppView, password: Seq<char>, success: bool, message: Seq<char>) -> AppView {
    let t = result_step(s, success, message);
    if success {
        AppView { cached_password: Some(password), ..t }
    } else {
        t
    }
}

/// The clipboard took (`ok`) or refused the requested text.
pub open spec fn copy_step(s: AppView, ok: bool) -> AppView {
    match s.pending_copy {
        Some(text) => {
            let t = AppView { pending_copy: None, ..s };
            if ok {
                t.with_toast("📋 Copied: "@ + text)
            } else {
                t.with_status("Clipboard: no tool found (install xclip / wl-clipboard on Linux)"@)
            }
        },
        None => s,
    }
}

/// Keeps the selection inside a list window `height` rows tall, and the
/// window inside the list.
pub open spec fn list_scroll_step(s: AppView, height: usize) -> AppView {
    let len = s.mounts.len();
    let o1 = if s.selected < s.scroll_offset { s.selected } else { s.scroll_offset };
    let o2 = if s.selected >= sat_add(o1, height) {
        sat_sub(s.selected, sat_sub(height, 1))
    } else {
        o1
    };
    let o3 = if o2 + height > len && len > 0 { sat_sub(len as usize, height) } else { o2 };
    AppView { scroll_offset: o3, ..s }
}

} // verus!
