//! The application state and everything a key press, a tick or the outcome
//! of an operation does to it.  Each method is held to the state machine in
//! [`crate::model`].

use vstd::prelude::*;
use crate::keys::{Key, KeyPress};
use crate::model::{
    copy_step, finish_step, form_ok, key_step, list_scroll_step, press_step, request_step,
    result_step, tick_step, AppView, FormView, ModeView, OpView, PAGE, STATUS_TICKS, TOAST_TICKS,
};
use crate::mount_info::{mounts_view, MountEntry};
use crate::mount_ops::{fs_type_name, fs_type_spec, OpResult, FS_TYPE_COUNT};
use crate::text::{push_text, string_pop, string_push};
use vstd::string::StringExecFns;

verus! {

/// Which screen is up.  `Normal` is the two-pane mount browser; the others
/// are modal overlays on top of it.
#[derive(Debug, Clone, PartialEq)]
pub enum Mode {
    /// Main two-pane view: mount list + detail pane.
    Normal,
    /// "New Mount" dialog form.
    NewMount {
        device: String,
        mountpoint: String,
        fs_type_idx: usize,
        options: String,
        active_field: u8,
    },
    /// "Mount" dialog pre-filled with the selected device.
    MountSelected {
        device: String,
        mountpoint: String,
        fs_type_idx: usize,
        options: String,
        active_field: u8,
    },
    /// Message overlay (errors, confirmations).
    Message {
        title: String,
        body: String,
        /// If `true`, closing the message refreshes the mount list.
        refresh_on_close: bool,
    },
    /// Small auto-dismissing toast for clipboard copies.
    Toast { text: String, ticks: usize },
    /// Help screen overlay.
    Help,
    /// Sudo password prompt, shown before a privileged operation.
    PasswordPrompt { operation: OpKind, password: String },
}

/// An operation that needs root.
#[derive(Debug, PartialEq)]
pub enum OpKind {
    Mount { device: String, mountpoint: String, fs_type: String, options: String },
    Unmount { mountpoint: String, force: bool },
}

impl View for OpKind {
    type V = OpView;

    open spec fn view(&self) -> OpView {
        match self {
            OpKind::Mount { device, mountpoint, fs_type, options } => OpView::Mount {
                device: device@,
                mountpoint: mountpoint@,
                fs_type: fs_type@,
                options: options@,
            },
            OpKind::Unmount { mountpoint, force } => OpView::Unmount {
                mountpoint: mountpoint@,
                force: *force,
            },
        }
    }
}

impl Clone for OpKind {
    fn clone(&self) -> (res: Self)
        ensures
            res@ == self@,
    {
        match self {
            OpKind::Mount { device, mountpoint, fs_type, options } => OpKind::Mount {
                device: device.clone(),
                mountpoint: mountpoint.clone(),
                fs_type: fs_type.clone(),
                options: options.clone(),
            },
            OpKind::Unmount { mountpoint, force } => OpKind::Unmount {
                mountpoint: mountpoint.clone(),
                force: *force,
            },
        }
    }
}

/// The view of an optional operation.
pub open spec fn op_view(op: Option<OpKind>) -> Option<OpView> {
    match op {
        Some(o) => Some(o@),
        None => None,
    }
}

/// The view of an optional text.
pub open spec fn text_view(t: Option<String>) -> Option<Seq<char>> {
    match t {
        Some(s) => Some(s@),
        None => None,
    }
}

/// The view of an optional (operation, password) pair.
pub open spec fn pending_view(p: Option<(OpKind, String)>) -> Option<(OpView, Seq<char>)> {
    match p {
        Some((o, pw)) => Some((o@, pw@)),
        None => None,
    }
}

impl View for Mode {
    type V = ModeView;

    open spec fn view(&self) -> ModeView {
        match self {
            Mode::Normal => ModeView::Normal,
            Mode::NewMount { device, mountpoint, fs_type_idx, options, active_field } => {
                ModeView::NewMount(
                    FormView {
                        device: device@,
                        mountpoint: mountpoint@,
                        fs_type_idx: *fs_type_idx,
                        options: options@,
                        active_field: *active_field,
                    },
                )
            },
            Mode::MountSelected { device, mountpoint, fs_type_idx, options, active_field } => {
                ModeView::MountSelected(
                    FormView {
                        device: device@,
                        mountpoint: mountpoint@,
                        fs_type_idx: *fs_type_idx,
                        options: options@,
                        active_field: *active_field,
                    },
                )
            },
            Mode::Message { title, body, refresh_on_close } => ModeView::Message {
                title: title@,
                body: body@,
                refresh_on_close: *refresh_on_close,
            },
            Mode::Toast { text, ticks } => ModeView::Toast { text: text@, ticks: *ticks },
            Mode::Help => ModeView::Help,
            Mode::PasswordPrompt { operation, password } => ModeView::PasswordPrompt {
                operation: operation@,
                password: password@,
            },
        }
    }
}

/// The application state.
pub struct App {
    /// All mount points.
    mounts: Vec<MountEntry>,
    /// Which mount is highlighted in the list.
    selected: usize,
    /// First visible row in the list.
    scroll_offset: usize,
    /// Current screen.
    mode: Mode,
    /// `true` when the detail pane has focus.
    detail_focused: bool,
    /// Scroll position within the detail pane text.
    detail_scroll: usize,
    /// Status bar message.
    status_msg: String,
    /// Ticks until the status message is cleared.
    status_ticks: usize,
    /// Set to leave the event loop.
    pub should_quit: bool,
    /// An operation and the password to run it with, for the event loop
    /// to carry out.
    pub pending_privileged: Option<(OpKind, String)>,
    /// The sudo password of the last successful operation.
    pub cached_password: Option<String>,
    /// Set when the mount list should be read again.
    pub pending_refresh: bool,
    /// Text the event loop should put on the clipboard.
    pub pending_copy: Option<String>,
}

impl View for App {
    type V = AppView;

    closed spec fn view(&self) -> AppView {
        AppView {
            mounts: mounts_view(self.mounts@),
            selected: self.selected,
            scroll_offset: self.scroll_offset,
            mode: self.mode@,
            detail_focused: self.detail_focused,
            detail_scroll: self.detail_scroll,
            status_msg: self.status_msg@,
            status_ticks: self.status_ticks,
            should_quit: self.should_quit,
            pending_privileged: pending_view(self.pending_privileged),
            cached_password: text_view(self.cached_password),
            pending_refresh: self.pending_refresh,
            pending_copy: text_view(self.pending_copy),
        }
    }
}

/// What the mount dialog shows.
pub struct DialogText {
    pub device: String,
    pub mountpoint: String,
    /// The filesystem choice between arrows: `◀ ext4 ▶`.
    pub fs_label: String,
    pub options: String,
    /// The field with the cursor: 0 device, 1 mount point, 2 filesystem,
    /// 3 options.
    pub active_field: u8,
    /// Whether a block cursor stands in the empty device field.
    pub device_cursor: bool,
    /// Whether a block cursor stands in the empty mount point field.
    pub mountpoint_cursor: bool,
    /// Whether a block cursor stands in the empty options field.
    pub options_cursor: bool,
}

/// The fields of an open mount dialog, taken out of the screen to be
/// edited.
struct Form {
    /// `true` for the "Mount" dialog, `false` for "New Mount".
    prefilled: bool,
    device: String,
    mountpoint: String,
    fs_type_idx: usize,
    options: String,
    active_field: u8,
}

impl View for Form {
    type V = FormView;

    closed spec fn view(&self) -> FormView {
        FormView {
            device: self.device@,
            mountpoint: self.mountpoint@,
            fs_type_idx: self.fs_type_idx,
            options: self.options@,
            active_field: self.active_field,
        }
    }
}

impl App {
    /// A fresh application showing `mounts`, with the first one selected.
    pub fn new(mounts: Vec<MountEntry>) -> (res: App)
        ensures
            res@ == (AppView {
                mounts: mounts_view(mounts@),
                selected: 0,
                scroll_offset: 0,
                mode: ModeView::Normal,
                detail_focused: false,
                detail_scroll: 0,
                status_msg: Seq::empty(),
                status_ticks: 0,
                should_quit: false,
                pending_privileged: None,
                cached_password: None,
                pending_refresh: false,
                pending_copy: None,
            }),
            res@.wf(),
    {
        // Reading the length tells the verifier that it fits in a usize.
        let _ = mounts.len();
        App {
            mounts,
            selected: 0,
            scroll_offset: 0,
            mode: Mode::Normal,
            detail_focused: false,
            detail_scroll: 0,
            status_msg: String::new(),
            status_ticks: 0,
            should_quit: false,
            pending_privileged: None,
            cached_password: None,
            pending_refresh: false,
            pending_copy: None,
        }
    }

    /// Takes a freshly read mount list.  The selection stays where it is
    /// if it still points at a mount, else it moves to the last one.
    pub fn refresh_mounts(&mut self, mounts: Vec<MountEntry>)
        requires
            old(self)@.wf(),
        ensures
            final(self)@ == old(self)@.refreshed(mounts_view(mounts@)),
            final(self)@.wf(),
    {
        self.mounts = mounts;
        if self.mounts.len() == 0 {
            self.selected = 0;
        } else if self.selected >= self.mounts.len() {
            self.selected = self.mounts.len() - 1;
        }
        self.detail_scroll = 0;
        self.pending_refresh = false;
    }

    /// Shows `msg` in the status bar for about 3 seconds.
    pub fn set_status(&mut self, msg: &str)
        ensures
            final(self)@ == old(self)@.with_status(msg@),
            old(self)@.wf() ==> final(self)@.wf(),
    {
        self.status_msg = String::from_str(msg);
        self.status_ticks = STATUS_TICKS;
    }

    /// Brings up the password prompt for `op`.
    pub fn set_password_prompt(&mut self, op: OpKind)
        ensures
            final(self)@ == old(self)@.with_password_prompt(op@),
            old(self)@.wf() ==> final(self)@.wf(),
    {
        self.mode = Mode::PasswordPrompt { operation: op, password: String::new() };
    }

    /// Pops up `msg` as a toast for about 2 seconds.
    pub fn toast(&mut self, msg: &str)
        ensures
            final(self)@ == old(self)@.with_toast(msg@),
            old(self)@.wf() ==> final(self)@.wf(),
    {
        self.mode = Mode::Toast { text: String::from_str(msg), ticks: TOAST_TICKS };
    }

    /// Shows the outcome of an operation.
    pub fn on_op_result(&mut self, result: &OpResult)
        ensures
            final(self)@ == result_step(old(self)@, result.success, result.message@),
            old(self)@.wf() ==> final(self)@.wf(),
    {
        let title = if result.success {
            String::from_str("Success")
        } else {
            String::from_str("Error")
        };
        self.mode = Mode::Message {
            title,
            body: result.message.clone(),
            refresh_on_close: result.success,
        };
    }

    /// Counts down the status message and the toast, removing each when its
    /// count reaches zero.
    pub fn tick(&mut self)
        ensures
            final(self)@ == tick_step(old(self)@),
            old(self)@.wf() ==> final(self)@.wf(),
    {
        if self.status_ticks > 0 {
            self.status_ticks = self.status_ticks - 1;
            if self.status_ticks == 0 {
                self.status_msg = String::new();
            }
        }
        let mut m = Mode::Normal;
        std::mem::swap(&mut m, &mut self.mode);
        match m {
            Mode::Toast { text, ticks } => {
                let t = if ticks > 0 { ticks - 1 } else { 0 };
                if t == 0 {
                    self.mode = Mode::Normal;
                } else {
                    self.mode = Mode::Toast { text, ticks: t };
                }
            },
            other => {
                self.mode = other;
            },
        }
    }

    /// Hands on an operation a key asked for: with a cached password it is
    /// queued to run at once, otherwise the password prompt comes up.
    pub fn request_privileged(&mut self, op: OpKind)
        ensures
            final(self)@ == request_step(old(self)@, op@),
            old(self)@.wf() ==> final(self)@.wf(),
    {
        match &self.cached_password {
            Some(pw) => {
                let pw = pw.clone();
                self.pending_privileged = Some((op, pw));
            },
            None => {
                self.set_password_prompt(op);
            },
        }
    }

    /// A key press as the event loop handles it: the key is handled, the
    /// operation it asks for is requested, and Ctrl+L forgets the cached
    /// sudo password.
    pub fn press_key(&mut self, key: KeyPress)
        requires
            old(self)@.wf(),
        ensures
            final(self)@ == press_step(old(self)@, key),
            final(self)@.wf(),
    {
        if let Some(op) = self.handle_key(key) {
            self.request_privileged(op);
        }
        if key.ctrl && key.code == Key::Char('l') {
            self.cached_password = None;
            self.set_status("Sudo credentials cleared.");
        }
    }

    /// An operation has run with `password`: its outcome is shown, and on
    /// success the password is kept for the next operation.
    pub fn finish_privileged(&mut self, password: String, result: &OpResult)
        ensures
            final(self)@ == finish_step(old(self)@, password@, result.success, result.message@),
            old(self)@.wf() ==> final(self)@.wf(),
    {
        self.on_op_result(result);
        if result.success {
            self.cached_password = Some(password);
        }
    }

    /// The clipboard took (`ok`) or refused the text of `pending_copy`:
    /// a toast confirms the copy, or the status bar says no tool was found.
    pub fn on_copy_result(&mut self, ok: bool)
        ensures
            final(self)@ == copy_step(old(self)@, ok),
            old(self)@.wf() ==> final(self)@.wf(),
    {
        match self.pending_copy.take() {
            Some(text) => {
                if ok {
                    let mut msg = String::from_str("📋 Copied: ");
                    push_text(&mut msg, text.as_str());
                    self.toast(msg.as_str());
                } else {
                    self.set_status("Clipboard: no tool found (install xclip / wl-clipboard on Linux)");
                }
            },
            None => {},
        }
    }

    /// Before drawing a list window `height` rows tall: moves the window so
    /// that the selection is in it and it does not run past the list.
    pub fn clamp_list_scroll(&mut self, height: usize)
        requires
            old(self)@.wf(),
        ensures
            final(self)@ == list_scroll_step(old(self)@, height),
            final(self)@.wf(),
    {
        let len = self.mounts.len();
        if self.selected < self.scroll_offset {
            self.scroll_offset = self.selected;
        }
        if self.selected >= self.scroll_offset.saturating_add(height) {
            self.scroll_offset = self.selected.saturating_sub(height.saturating_sub(1));
        }
        if len > 0 && self.scroll_offset <= len && height > len - self.scroll_offset {
            self.scroll_offset = len.saturating_sub(height);
        } else if len > 0 && self.scroll_offset > len {
            self.scroll_offset = len.saturating_sub(height);
        }
    }

    /// The rows of the list window `height` rows tall: from the first
    /// visible row up to (not including) the returned end, cut at the end
    /// of the list.
    pub fn visible_range(&self, height: usize) -> (res: (usize, usize))
        requires
            self@.wf(),
        ensures
            res.0 == (if self@.scroll_offset < self@.mounts.len() {
                self@.scroll_offset as int
            } else {
                self@.mounts.len() as int
            }),
            res.1 == (if self@.scroll_offset + height < self@.mounts.len() {
                self@.scroll_offset + height
            } else {
                self@.mounts.len() as int
            }),
            res.0 <= res.1 <= self@.mounts.len(),
    {
        let len = self.mounts.len();
        let first = if self.scroll_offset < len { self.scroll_offset } else { len };
        let end = if height < len - first { first + height } else { len };
        (first, end)
    }

    /// How many lines of a detail pane `n_lines` long are scrolled away:
    /// the detail scroll while the pane has focus, keeping at least the
    /// last line, and none otherwise.
    pub fn detail_skip(&self, n_lines: usize) -> (res: usize)
        ensures
            res == (if self@.detail_focused {
                let last = if n_lines > 0 { n_lines - 1 } else { 0 };
                if self@.detail_scroll < last { self@.detail_scroll as int } else { last }
            } else {
                0
            }),
    {
        if self.detail_focused {
            let last = n_lines.saturating_sub(1);
            if self.detail_scroll < last { self.detail_scroll } else { last }
        } else {
            0
        }
    }

    // ── reading the state ──────────────────────────────────────────────

    /// All mount points.
    pub fn mounts(&self) -> (res: &Vec<MountEntry>)
        ensures
            mounts_view(res@) == self@.mounts,
    {
        &self.mounts
    }

    /// Index of the highlighted mount.
    pub fn selected(&self) -> (res: usize)
        ensures
            res == self@.selected,
    {
        self.selected
    }

    /// First visible row of the list.
    pub fn scroll_offset(&self) -> (res: usize)
        ensures
            res == self@.scroll_offset,
    {
        self.scroll_offset
    }

    /// The current screen.
    pub fn mode(&self) -> (res: &Mode)
        ensures
            res@ == self@.mode,
    {
        &self.mode
    }

    /// Whether the detail pane has focus.
    pub fn detail_focused(&self) -> (res: bool)
        ensures
            res == self@.detail_focused,
    {
        self.detail_focused
    }

    /// Scroll position of the detail pane.
    pub fn detail_scroll(&self) -> (res: usize)
        ensures
            res == self@.detail_scroll,
    {
        self.detail_scroll
    }

    /// The status bar message (empty when there is none).
    pub fn status_msg(&self) -> (res: &str)
        ensures
            res@ == self@.status_msg,
    {
        self.status_msg.as_str()
    }

    /// Ticks left before the status message goes away.
    pub fn status_ticks(&self) -> (res: usize)
        ensures
            res == self@.status_ticks,
    {
        self.status_ticks
    }

    /// The texts of the mount dialog, when it is up.  An empty field with
    /// the cursor shows a block cursor.
    pub fn dialog_text(&self) -> (res: Option<DialogText>)
        requires
            self@.wf(),
        ensures
            res is Some <==> self@.mode.is_dialog(),
            res matches Some(d) ==> {
                let f = self@.mode.form();
                &&& d.device@ == f.device
                &&& d.mountpoint@ == f.mountpoint
                &&& d.fs_label@ == "\u{25c0} "@ + fs_type_spec(f.fs_type_idx as int) + " \u{25b6}"@
                &&& d.options@ == f.options
                &&& d.active_field == f.active_field
                &&& d.device_cursor == (f.device.len() == 0 && f.active_field == 0)
                &&& d.mountpoint_cursor == (f.mountpoint.len() == 0 && f.active_field == 1)
                &&& d.options_cursor == (f.options.len() == 0 && f.active_field == 3)
            },
    {
        let (device, mountpoint, fs_type_idx, options, active_field) = match &self.mode {
            Mode::NewMount { device, mountpoint, fs_type_idx, options, active_field } => (
                device,
                mountpoint,
                *fs_type_idx,
                options,
                *active_field,
            ),
            Mode::MountSelected { device, mountpoint, fs_type_idx, options, active_field } => (
                device,
                mountpoint,
                *fs_type_idx,
                options,
                *active_field,
            ),
            _ => {
                return None;
            },
        };
        let mut fs_label = String::from_str("\u{25c0} ");
        push_text(&mut fs_label, fs_type_name(fs_type_idx));
        push_text(&mut fs_label, " \u{25b6}");
        Some(
            DialogText {
                device: device.clone(),
                mountpoint: mountpoint.clone(),
                fs_label,
                options: options.clone(),
                active_field,
                device_cursor: device.as_str().is_empty() && active_field == 0,
                mountpoint_cursor: mountpoint.as_str().is_empty() && active_field == 1,
                options_cursor: options.as_str().is_empty() && active_field == 3,
            },
        )
    }

    // ── input handling ─────────────────────────────────────────────────

    /// Handles one key press and returns the privileged operation it asks
    /// for, if any.  Ctrl+C quits from every screen; any key closes a
    /// message, a toast or the help screen.
    pub fn handle_key(&mut self, key: KeyPress) -> (res: Option<OpKind>)
        requires
            old(self)@.wf(),
        ensures
            (final(self)@, op_view(res)) == key_step(old(self)@, key),
            final(self)@.wf(),
    {
        if key.ctrl && key.code == Key::Char('c') {
            self.should_quit = true;
            return None;
        }
        match &self.mode {
            Mode::Message { refresh_on_close, .. } => {
                let refresh = *refresh_on_close;
                self.mode = Mode::Normal;
                if refresh {
                    self.pending_refresh = true;
                }
                None
            },
            Mode::Toast { .. } => {
                self.mode = Mode::Normal;
                None
            },
            Mode::Help => {
                self.mode = Mode::Normal;
                None
            },
            Mode::PasswordPrompt { .. } => {
                self.handle_password_key(key.code);
                None
            },
            Mode::Normal => self.handle_normal_key(key.code),
            _ => self.handle_dialog_key(key.code),
        }
    }

    /// The selection moved down by `n`, stopping at the last mount.
    fn selection_down(&self, n: usize) -> (res: usize)
        requires
            self@.wf(),
        ensures
            res == self@.selection_down(n),
    {
        let len = self.mounts.len();
        if len == 0 {
            self.selected
        } else if self.selected < len - 1 && n < len - 1 - self.selected {
            self.selected + n
        } else {
            len - 1
        }
    }

    /// Keeps the selected row from lying above the first visible row.
    fn clamp_scroll(&mut self)
        ensures
            final(self)@ == old(self)@.scroll_clamped(),
    {
        if self.selected < self.scroll_offset {
            self.scroll_offset = self.selected;
        }
    }

    /// Keys in the two-pane view.
    fn handle_normal_key(&mut self, key: Key) -> (res: Option<OpKind>)
        requires
            old(self)@.wf(),
        ensures
            (final(self)@, op_view(res)) == crate::model::normal_key(old(self)@, key),
            final(self)@.wf(),
    {
        if self.detail_focused {
            match key {
                Key::Up => {
                    self.detail_scroll = self.detail_scroll.saturating_sub(1);
                    return None;
                },
                Key::Down => {
                    self.detail_scroll = self.detail_scroll.saturating_add(1);
                    return None;
                },
                Key::PageUp => {
                    self.detail_scroll = self.detail_scroll.saturating_sub(PAGE);
                    return None;
                },
                Key::PageDown => {
                    self.detail_scroll = self.detail_scroll.saturating_add(PAGE);
                    return None;
                },
                Key::Char('k') | Key::Char('j') => {
                    return None;
                },
                _ => {},
            }
        }
        match key {
            Key::Up | Key::Char('k') => {
                self.selected = self.selected.saturating_sub(1);
                self.clamp_scroll();
            },
            Key::Down | Key::Char('j') => {
                self.selected = self.selection_down(1);
                self.clamp_scroll();
            },
            Key::PageUp => {
                self.selected = self.selected.saturating_sub(PAGE);
                self.clamp_scroll();
            },
            Key::PageDown => {
                self.selected = self.selection_down(PAGE);
                self.clamp_scroll();
            },
            Key::Home => {
                self.selected = 0;
                self.scroll_offset = 0;
            },
            Key::End => {
                if self.mounts.len() > 0 {
                    self.selected = self.mounts.len() - 1;
                }
                self.clamp_scroll();
            },
            Key::Tab => {
                self.detail_focused = !self.detail_focused;
                self.detail_scroll = 0;
            },
            Key::Char('m') => {
                let device = if self.selected < self.mounts.len() {
                    self.mounts[self.selected].device.clone()
                } else {
                    String::new()
                };
                self.mode = Mode::MountSelected {
                    device,
                    mountpoint: String::new(),
                    fs_type_idx: 0,
                    options: String::new(),
                    active_field: 1,
                };
            },
            Key::Char('u') => {
                return self.do_unmount(false);
            },
            Key::Char('f') => {
                return self.do_unmount(true);
            },
            Key::Char('n') => {
                self.mode = Mode::NewMount {
                    device: String::new(),
                    mountpoint: String::new(),
                    fs_type_idx: 0,
                    options: String::new(),
                    active_field: 0,
                };
            },
            Key::Char('r') => {
                self.pending_refresh = true;
                self.set_status("Mount list refreshed.");
            },
            Key::Char('y') => {
                if self.selected < self.mounts.len() {
                    self.pending_copy = Some(self.mounts[self.selected].mount_point.clone());
                }
            },
            Key::Char('Y') => {
                if self.selected < self.mounts.len() {
                    self.pending_copy = Some(self.mounts[self.selected].device.clone());
                }
            },
            Key::Char('?') => {
                self.mode = Mode::Help;
            },
            Key::Esc | Key::Char('q') => {
                self.should_quit = true;
            },
            _ => {},
        }
        None
    }

    /// Keys while the mount dialog is up.
    fn handle_dialog_key(&mut self, key: Key) -> (res: Option<OpKind>)
        requires
            old(self)@.wf(),
            old(self)@.mode.is_dialog(),
        ensures
            (final(self)@, op_view(res)) == crate::model::dialog_key(old(self)@, key),
            final(self)@.wf(),
    {
        match key {
            Key::Esc => {
                self.mode = Mode::Normal;
            },
            Key::Tab => {
                self.dialog_rotate_field(1);
            },
            Key::BackTab => {
                self.dialog_rotate_field(3);
            },
            Key::Enter => {
                return self.do_mount_from_dialog();
            },
            Key::Char(c) => {
                self.dialog_type_char(c);
            },
            Key::Backspace => {
                self.dialog_backspace();
            },
            Key::Left | Key::Right => {
                self.dialog_adjust_fs_type(key);
            },
            _ => {
                proof {
                    assert(old(self)@.mode.with_form(old(self)@.mode.form()) == old(self)@.mode);
                }
            },
        }
        None
    }

    /// Takes the open dialog's fields out, leaving the two-pane view.
    fn take_form(&mut self) -> (res: Form)
        requires
            old(self)@.mode.is_dialog(),
        ensures
            res@ == old(self)@.mode.form(),
            res.prefilled == (old(self)@.mode is MountSelected),
            final(self)@ == old(self)@.with_mode(ModeView::Normal),
    {
        let mut m = Mode::Normal;
        std::mem::swap(&mut m, &mut self.mode);
        match m {
            Mode::MountSelected { device, mountpoint, fs_type_idx, options, active_field } => Form {
                prefilled: true,
                device,
                mountpoint,
                fs_type_idx,
                options,
                active_field,
            },
            Mode::NewMount { device, mountpoint, fs_type_idx, options, active_field } => Form {
                prefilled: false,
                device,
                mountpoint,
                fs_type_idx,
                options,
                active_field,
            },
            _ => Form {
                prefilled: false,
                device: String::new(),
                mountpoint: String::new(),
                fs_type_idx: 0,
                options: String::new(),
                active_field: 0,
            },
        }
    }

    /// Puts edited fields back as the dialog they came from.
    fn put_form(&mut self, form: Form)
        ensures
            final(self)@ == old(self)@.with_mode(
                if form.prefilled {
                    ModeView::MountSelected(form@)
                } else {
                    ModeView::NewMount(form@)
                },
            ),
    {
        let Form { prefilled, device, mountpoint, fs_type_idx, options, active_field } = form;
        if prefilled {
            self.mode = Mode::MountSelected { device, mountpoint, fs_type_idx, options, active_field };
        } else {
            self.mode = Mode::NewMount { device, mountpoint, fs_type_idx, options, active_field };
        }
    }

    /// Tab (`by` 1) and Shift+Tab (`by` 3): rotate the field cursor
    /// 0 → 1 → 2 → 3 → 0, forwards or backwards.
    fn dialog_rotate_field(&mut self, by: u8)
        requires
            old(self)@.mode.is_dialog(),
            form_ok(old(self)@.mode.form()),
            by == 1 || by == 3,
        ensures
            final(self)@ == old(self)@.with_mode(
                old(self)@.mode.with_form(
                    if by == 1 {
                        crate::model::form_next_field(old(self)@.mode.form())
                    } else {
                        crate::model::form_prev_field(old(self)@.mode.form())
                    },
                ),
            ),
    {
        let mut form = self.take_form();
        form.active_field = (form.active_field + by) % 4;
        self.put_form(form);
    }

    /// Types a character into the active dialog field.
    fn dialog_type_char(&mut self, c: char)
        requires
            old(self)@.mode.is_dialog(),
        ensures
            final(self)@ == old(self)@.with_mode(
                old(self)@.mode.with_form(crate::model::form_type_char(old(self)@.mode.form(), c)),
            ),
    {
        let mut form = self.take_form();
        if form.active_field == 0 {
            string_push(&mut form.device, c);
        } else if form.active_field == 1 {
            string_push(&mut form.mountpoint, c);
        } else if form.active_field == 3 {
            string_push(&mut form.options, c);
        }
        self.put_form(form);
    }

    /// Deletes the last character of the active dialog field.
    fn dialog_backspace(&mut self)
        requires
            old(self)@.mode.is_dialog(),
        ensures
            final(self)@ == old(self)@.with_mode(
                old(self)@.mode.with_form(crate::model::form_backspace(old(self)@.mode.form())),
            ),
    {
        let mut form = self.take_form();
        if form.active_field == 0 {
            string_pop(&mut form.device);
        } else if form.active_field == 1 {
            string_pop(&mut form.mountpoint);
        } else if form.active_field == 3 {
            string_pop(&mut form.options);
        }
        self.put_form(form);
    }

    /// Left and Right step through the filesystem types, stopping at the
    /// ends of the list.
    fn dialog_adjust_fs_type(&mut self, key: Key)
        requires
            old(self)@.mode.is_dialog(),
            form_ok(old(self)@.mode.form()),
            key == Key::Left || key == Key::Right,
        ensures
            final(self)@ == old(self)@.with_mode(
                old(self)@.mode.with_form(crate::model::form_key(old(self)@.mode.form(), key)),
            ),
    {
        let mut form = self.take_form();
        let max = FS_TYPE_COUNT - 1;
        match key {
            Key::Left => {
                form.fs_type_idx = form.fs_type_idx.saturating_sub(1);
            },
            _ => {
                form.fs_type_idx = if form.fs_type_idx + 1 < max {
                    form.fs_type_idx + 1
                } else {
                    max
                };
            },
        }
        self.put_form(form);
    }

    /// Enter in the mount dialog: the mount operation the form describes,
    /// or an error message when the device or the mount point is empty.
    fn do_mount_from_dialog(&mut self) -> (res: Option<OpKind>)
        requires
            old(self)@.wf(),
            old(self)@.mode.is_dialog(),
        ensures
            (final(self)@, op_view(res)) == crate::model::mount_step(old(self)@),
    {
        let (device, mountpoint, fs_type_idx, options) = match &self.mode {
            Mode::NewMount { device, mountpoint, fs_type_idx, options, .. } => (
                device.clone(),
                mountpoint.clone(),
                *fs_type_idx,
                options.clone(),
            ),
            Mode::MountSelected { device, mountpoint, fs_type_idx, options, .. } => (
                device.clone(),
                mountpoint.clone(),
                *fs_type_idx,
                options.clone(),
            ),
            _ => {
                return None;
            },
        };
        if device.as_str().is_empty() || mountpoint.as_str().is_empty() {
            self.mode = Mode::Message {
                title: String::from_str("Error"),
                body: String::from_str("Device and mountpoint are required."),
                refresh_on_close: false,
            };
            return None;
        }
        let fs_type = String::from_str(fs_type_name(fs_type_idx));
        Some(OpKind::Mount { device, mountpoint, fs_type, options })
    }

    /// Keys while the password prompt is up.
    fn handle_password_key(&mut self, key: Key)
        requires
            old(self)@.mode is PasswordPrompt,
        ensures
            final(self)@ == crate::model::password_key(old(self)@, key),
    {
        let mut m = Mode::Normal;
        std::mem::swap(&mut m, &mut self.mode);
        match m {
            Mode::PasswordPrompt { operation, password } => {
                let mut password = password;
                match key {
                    Key::Esc => {
                        self.mode = Mode::Normal;
                    },
                    Key::Enter => {
                        self.pending_privileged = Some((operation, password));
                        self.mode = Mode::Normal;
                    },
                    Key::Backspace => {
                        string_pop(&mut password);
                        self.mode = Mode::PasswordPrompt { operation, password };
                    },
                    Key::Char(c) => {
                        string_push(&mut password, c);
                        self.mode = Mode::PasswordPrompt { operation, password };
                    },
                    _ => {
                        self.mode = Mode::PasswordPrompt { operation, password };
                    },
                }
            },
            other => {
                self.mode = other;
            },
        }
    }

    /// Asks to unmount the selected mount point, or says that none is
    /// selected.
    fn do_unmount(&mut self, force: bool) -> (res: Option<OpKind>)
        ensures
            (final(self)@, op_view(res)) == crate::model::unmount_step(old(self)@, force),
    {
        if self.selected < self.mounts.len() {
            let mp = self.mounts[self.selected].mount_point.clone();
            Some(OpKind::Unmount { mountpoint: mp, force })
        } else {
            self.mode = Mode::Message {
                title: String::from_str("Error"),
                body: String::from_str("No mount point selected."),
                refresh_on_close: false,
            };
            None
        }
    }
}

} // verus!
