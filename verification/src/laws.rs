//! Properties of the state machine: what each key, tick and result does,
//! stated on its own terms, and what holds across several of them.

use vstd::prelude::*;
use crate::keys::{Key, KeyPress};
use crate::model::{
    copy_step, finish_step, form_ok, key_step, result_step, FormView, normal_key, list_scroll_step, press_step, request_step, tick_step, ticks,
    AppView, ModeView, OpView, PAGE, STATUS_TICKS, TOAST_TICKS,
};
use crate::mount_info::MountView;
use crate::mount_ops::{fs_type_spec, FS_TYPE_COUNT};

verus! {

/// A press of `k` without Ctrl.
pub open spec fn plain(k: Key) -> KeyPress {
    KeyPress { code: k, ctrl: false }
}

/// A press of `k` with Ctrl held.
pub open spec fn ctrl(k: Key) -> KeyPress {
    KeyPress { code: k, ctrl: true }
}

/// Tab in the mount dialog is undone by Shift+Tab: the form, and the whole
/// state, are as before.
pub proof fn law_backtab_undoes_tab(s: AppView)
    requires
        s.wf(),
        s.mode.is_dialog(),
    ensures
        key_step(key_step(s, plain(Key::Tab)).0, plain(Key::BackTab)).0 == s,
        key_step(key_step(s, plain(Key::BackTab)).0, plain(Key::Tab)).0 == s,
{
    let f = s.mode.form();
    assert(form_ok(f));
    assert(s.mode.with_form(f) == s.mode);
}

/// Four Tabs in the mount dialog bring the cursor back to where it was:
/// the state is as before.
pub proof fn law_four_tabs_restore(s: AppView)
    requires
        s.wf(),
        s.mode.is_dialog(),
    ensures
        key_step(key_step(key_step(key_step(s, plain(Key::Tab)).0, plain(Key::Tab)).0, plain(Key::Tab)).0,
            plain(Key::Tab)).0 == s,
{
    let f = s.mode.form();
    assert(form_ok(f));
    assert(s.mode.with_form(f) == s.mode);
}

/// Left and Right in the mount dialog step through the filesystem types
/// and stop at both ends of the list; the choice always stays in the list.
pub proof fn law_fs_type_choice_in_range(s: AppView)
    requires
        s.wf(),
        s.mode.is_dialog(),
    ensures
        key_step(s, plain(Key::Left)).0.mode.form().fs_type_idx == (if s.mode.form().fs_type_idx > 0 {
            s.mode.form().fs_type_idx - 1
        } else {
            0
        }),
        key_step(s, plain(Key::Right)).0.mode.form().fs_type_idx == (if s.mode.form().fs_type_idx
            + 1 < FS_TYPE_COUNT {
            s.mode.form().fs_type_idx + 1
        } else {
            FS_TYPE_COUNT - 1
        }),
        key_step(s, plain(Key::Left)).0.mode.form().fs_type_idx < FS_TYPE_COUNT,
        key_step(s, plain(Key::Right)).0.mode.form().fs_type_idx < FS_TYPE_COUNT,
{
}

/// In the mount dialog, typing a character and then Backspace leaves the
/// state as it was.
pub proof fn law_backspace_undoes_typing(s: AppView, c: char)
    requires
        s.wf(),
        s.mode.is_dialog(),
    ensures
        key_step(key_step(s, plain(Key::Char(c))).0, plain(Key::Backspace)).0 == s,
{
    let f = s.mode.form();
    assert(f.device.push(c).drop_last() =~= f.device);
    assert(f.mountpoint.push(c).drop_last() =~= f.mountpoint);
    assert(f.options.push(c).drop_last() =~= f.options);
    assert(s.mode.with_form(f) == s.mode);
}

/// In the password prompt, typing a character and then Backspace leaves
/// the state as it was.
pub proof fn law_password_backspace_undoes_typing(s: AppView, c: char)
    requires
        s.mode is PasswordPrompt,
    ensures
        key_step(key_step(s, plain(Key::Char(c))).0, plain(Key::Backspace)).0 == s,
{
    match s.mode {
        ModeView::PasswordPrompt { operation, password } => {
            assert(password.push(c).drop_last() =~= password);
        },
        _ => {},
    }
}

/// Ctrl+C quits from every screen.
pub proof fn law_ctrl_c_quits(s: AppView)
    ensures
        key_step(s, ctrl(Key::Char('c'))).0.should_quit,
        key_step(s, ctrl(Key::Char('c'))).1 is None,
{
}

/// Any key other than Ctrl+C closes a message, a toast or the help screen
/// and asks for no operation.
pub proof fn law_any_key_closes_overlay(s: AppView, k: KeyPress)
    requires
        s.mode is Message || s.mode is Toast || s.mode is Help,
        !(k.ctrl && k.code == Key::Char('c')),
    ensures
        key_step(s, k).0.mode == ModeView::Normal,
        key_step(s, k).1 is None,
{
}

/// A status message stays up for exactly [`STATUS_TICKS`] ticks.
pub proof fn law_status_lifetime(s: AppView, msg: Seq<char>, n: nat)
    requires
        n <= STATUS_TICKS,
    ensures
        ticks(s.with_status(msg), n).status_ticks == STATUS_TICKS - n,
        n < STATUS_TICKS ==> ticks(s.with_status(msg), n).status_msg == msg,
        n == STATUS_TICKS ==> ticks(s.with_status(msg), n).status_msg == Seq::<char>::empty(),
    decreases n,
{
    if n > 0 {
        law_status_lifetime(s, msg, (n - 1) as nat);
    }
}

/// A toast stays up for exactly [`TOAST_TICKS`] ticks, then the two-pane
/// view is back.
pub proof fn law_toast_lifetime(s: AppView, msg: Seq<char>, n: nat)
    requires
        n <= TOAST_TICKS,
    ensures
        n < TOAST_TICKS ==> ticks(s.with_toast(msg), n).mode == (ModeView::Toast {
            text: msg,
            ticks: (TOAST_TICKS - n) as usize,
        }),
        n == TOAST_TICKS ==> ticks(s.with_toast(msg), n).mode == ModeView::Normal,
    decreases n,
{
    if n > 0 {
        law_toast_lifetime(s, msg, (n - 1) as nat);
    }
}

/// Once cleared, the status bar stays clear on every later tick (until a
/// new message is set).
pub proof fn law_status_stays_cleared(s: AppView, msg: Seq<char>, n: nat)
    requires
        n >= STATUS_TICKS,
    ensures
        ticks(s.with_status(msg), n).status_ticks == 0,
        ticks(s.with_status(msg), n).status_msg == Seq::<char>::empty(),
    decreases n,
{
    if n == STATUS_TICKS {
        law_status_lifetime(s, msg, n);
    } else {
        law_status_stays_cleared(s, msg, (n - 1) as nat);
    }
}

/// Once gone, the toast stays gone on every later tick: the two-pane view
/// remains.
pub proof fn law_toast_stays_closed(s: AppView, msg: Seq<char>, n: nat)
    requires
        n >= TOAST_TICKS,
    ensures
        ticks(s.with_toast(msg), n).mode == ModeView::Normal,
    decreases n,
{
    if n == TOAST_TICKS {
        law_toast_lifetime(s, msg, n);
    } else {
        law_toast_stays_closed(s, msg, (n - 1) as nat);
    }
}

/// Once an operation has succeeded with a password, the next operation
/// runs with that password and no prompt comes up.
pub proof fn law_success_caches_password(
    s: AppView,
    password: Seq<char>,
    message: Seq<char>,
    op: OpView,
)
    ensures
        finish_step(s, password, true, message).cached_password == Some(password),
        request_step(finish_step(s, password, true, message), op).pending_privileged == Some(
            (op, password),
        ),
        request_step(finish_step(s, password, true, message), op).mode == finish_step(
            s,
            password,
            true,
            message,
        ).mode,
{
}

/// A failed operation leaves the cached password as it was.
pub proof fn law_failure_keeps_cache(s: AppView, password: Seq<char>, message: Seq<char>)
    ensures
        finish_step(s, password, false, message).cached_password == s.cached_password,
{
}

/// Without a cached password the next operation brings up the password
/// prompt.
pub proof fn law_no_cache_prompts(s: AppView, op: OpView)
    requires
        s.cached_password is None,
    ensures
        request_step(s, op).mode == (ModeView::PasswordPrompt {
            operation: op,
            password: Seq::empty(),
        }),
        request_step(s, op).pending_privileged == s.pending_privileged,
{
}

/// Ctrl+L forgets the cached sudo password, on every screen.
pub proof fn law_ctrl_l_forgets_password(s: AppView)
    ensures
        press_step(s, ctrl(Key::Char('l'))).cached_password is None,
        press_step(s, ctrl(Key::Char('l'))).status_msg
            == "Sudo credentials cleared."@,
{
}

/// After a successful operation, closing its message asks for the mount
/// list to be read again; after a failed one it does not.
pub proof fn law_success_refreshes_on_close(
    s: AppView,
    password: Seq<char>,
    success: bool,
    message: Seq<char>,
    k: KeyPress,
)
    requires
        !s.pending_refresh,
        !(k.ctrl && k.code == Key::Char('c')),
    ensures
        key_step(finish_step(s, password, success, message), k).0.pending_refresh == success,
        key_step(finish_step(s, password, success, message), k).0.mode == ModeView::Normal,
{
}

/// After the list window is fitted to its height, the selection is inside
/// the window and the window does not run past the end of the list.
pub proof fn law_selection_visible(s: AppView, height: usize)
    requires
        s.wf(),
        s.mounts.len() > 0,
        height > 0,
    ensures
        list_scroll_step(s, height).scroll_offset <= s.selected,
        s.selected < list_scroll_step(s, height).scroll_offset + height,
        list_scroll_step(s, height).scroll_offset + height <= s.mounts.len()
            || list_scroll_step(s, height).scroll_offset == 0,
{
}

/// A new mount list keeps the selection where it still points at a mount,
/// and otherwise moves it to the last mount.
pub proof fn law_refresh_keeps_selection(s: AppView, mounts: Seq<MountView>)
    requires
        s.wf(),
        mounts.len() <= usize::MAX,
    ensures
        s.selected < mounts.len() ==> s.refreshed(mounts).selected == s.selected,
        s.selected >= mounts.len() && mounts.len() > 0 ==> s.refreshed(mounts).selected
            == mounts.len() - 1,
        s.refreshed(mounts).wf(),
{
}

/// In the list, PgDn moves the selection down by ten, or to the last mount
/// when fewer than ten follow; PgUp moves up by ten, or to the first.
pub proof fn law_page_keys_jump_ten(s: AppView)
    requires
        s.wf(),
        !s.detail_focused,
        s.mode == ModeView::Normal,
    ensures
        s.selected + PAGE < s.mounts.len() ==> key_step(s, plain(Key::PageDown)).0.selected == s.selected
            + PAGE,
        s.selected + PAGE >= s.mounts.len() && s.mounts.len() > 0 ==> key_step(s, plain(Key::PageDown)).0.selected == s.mounts.len() - 1,
        s.selected >= PAGE ==> key_step(s, plain(Key::PageUp)).0.selected
            == s.selected - PAGE,
        s.selected < PAGE ==> key_step(s, plain(Key::PageUp)).0.selected == 0,
{
}

/// Tab twice gives the focus back to the pane that had it, with the detail
/// pane scrolled to the top.
pub proof fn law_tab_twice_restores_focus(s: AppView)
    requires
        s.mode == ModeView::Normal,
    ensures
        key_step(key_step(s, plain(Key::Tab)).0, plain(Key::Tab)).0 == (AppView { detail_scroll: 0, ..s }),
{
}

/// Every key keeps the selection on a mount and the dialog's cursor and
/// filesystem choice in range.
pub proof fn law_key_keeps_invariant(s: AppView, k: KeyPress)
    requires
        s.wf(),
    ensures
        key_step(s, k).0.wf(),
{
    match s.mode {
        ModeView::Normal => {
            if !(k.ctrl && k.code == Key::Char('c')) {
                assert(normal_key(s, k.code).0.wf());
            }
        },
        ModeView::NewMount(f) => {},
        ModeView::MountSelected(f) => {},
        _ => {},
    }
}

/// In the two-pane view in particular, every key (arrows and pages on an
/// empty list, `r`, …) keeps the selection on a mount.
pub proof fn law_normal_key_keeps_invariant(s: AppView, k: Key)
    requires
        s.wf(),
        s.mode == ModeView::Normal,
    ensures
        normal_key(s, k).0.wf(),
{
}

/// A key press as the event loop handles it keeps the invariant too.
pub proof fn law_press_keeps_invariant(s: AppView, k: KeyPress)
    requires
        s.wf(),
    ensures
        press_step(s, k).wf(),
{
    law_key_keeps_invariant(s, k);
}

/// So does every tick of the clock.
pub proof fn law_tick_keeps_invariant(s: AppView)
    requires
        s.wf(),
    ensures
        tick_step(s).wf(),
{
}

// ── what each key does, stated on its own ──────────────────────────────

/// The arrow keys with the list focused: Up (and `k`) move the selection
/// up by exactly one row, stopping at the first; Down (and `j`) move it
/// down by exactly one row, stopping at the last; Home goes to the first
/// row and End to the last.  None of them changes the screen or asks for
/// an operation.
pub proof fn law_list_arrows(s: AppView)
    requires
        s.wf(),
        s.mode == ModeView::Normal,
        !s.detail_focused,
    ensures
        key_step(s, plain(Key::Up)).0.selected == (if s.selected > 0 { s.selected - 1 } else { 0 }),
        key_step(s, plain(Key::Char('k'))).0.selected == (if s.selected > 0 {
            s.selected - 1
        } else {
            0
        }),
        key_step(s, plain(Key::Down)).0.selected == (if s.selected + 1 < s.mounts.len() {
            s.selected + 1
        } else {
            s.selected as int
        }),
        key_step(s, plain(Key::Char('j'))).0.selected == (if s.selected + 1 < s.mounts.len() {
            s.selected + 1
        } else {
            s.selected as int
        }),
        key_step(s, plain(Key::Home)).0.selected == 0,
        key_step(s, plain(Key::Home)).0.scroll_offset == 0,
        key_step(s, plain(Key::End)).0.selected == (if s.mounts.len() > 0 {
            s.mounts.len() - 1
        } else {
            0
        }),
        key_step(s, plain(Key::Up)).0.mode == ModeView::Normal,
        key_step(s, plain(Key::Down)).0.mode == ModeView::Normal,
        key_step(s, plain(Key::Up)).0.mounts == s.mounts,
        key_step(s, plain(Key::Down)).0.mounts == s.mounts,
        key_step(s, plain(Key::Up)).1 is None,
        key_step(s, plain(Key::Down)).1 is None,
        key_step(s, plain(Key::Up)).0.scroll_offset <= key_step(s, plain(Key::Up)).0.selected,
{
}

/// Tab switches the focus between the list and the detail pane, leaves
/// the selection alone and scrolls the detail pane to the top.
pub proof fn law_tab_switches_focus(s: AppView)
    requires
        s.mode == ModeView::Normal,
    ensures
        key_step(s, plain(Key::Tab)).0.detail_focused == !s.detail_focused,
        key_step(s, plain(Key::Tab)).0.detail_scroll == 0,
        key_step(s, plain(Key::Tab)).0.selected == s.selected,
        key_step(s, plain(Key::Tab)).1 is None,
{
}

/// With the detail pane focused, Up and Down scroll it by one line (not
/// below the top) and leave the selection alone; `j` and `k` do nothing.
pub proof fn law_detail_arrows(s: AppView)
    requires
        s.mode == ModeView::Normal,
        s.detail_focused,
    ensures
        key_step(s, plain(Key::Up)).0.detail_scroll == (if s.detail_scroll > 0 {
            s.detail_scroll - 1
        } else {
            0
        }),
        s.detail_scroll < usize::MAX ==> key_step(s, plain(Key::Down)).0.detail_scroll
            == s.detail_scroll + 1,
        key_step(s, plain(Key::Up)).0.selected == s.selected,
        key_step(s, plain(Key::Down)).0.selected == s.selected,
        key_step(s, plain(Key::Char('j'))).0 == s,
        key_step(s, plain(Key::Char('k'))).0 == s,
{
}

/// `u` asks to unmount the selected mount point, `f` to force-unmount it;
/// neither changes the state.  With no mounts they show an error instead.
pub proof fn law_unmount_keys(s: AppView)
    requires
        s.wf(),
        s.mode == ModeView::Normal,
    ensures
        s.mounts.len() > 0 ==> key_step(s, plain(Key::Char('u'))) == (s, Some(
            OpView::Unmount { mountpoint: s.mounts[s.selected as int].mount_point, force: false },
        )),
        s.mounts.len() > 0 ==> key_step(s, plain(Key::Char('f'))) == (s, Some(
            OpView::Unmount { mountpoint: s.mounts[s.selected as int].mount_point, force: true },
        )),
        s.mounts.len() == 0 ==> key_step(s, plain(Key::Char('u'))).1 is None,
        s.mounts.len() == 0 ==> key_step(s, plain(Key::Char('u'))).0.mode == (ModeView::Message {
            title: "Error"@,
            body: "No mount point selected."@,
            refresh_on_close: false,
        }),
{
}

/// `m` opens the mount dialog with the selected device filled in and the
/// cursor on the mount point; `n` opens it blank with the cursor on the
/// device.  Both start on the first filesystem type, `auto`.
pub proof fn law_dialog_opening_keys(s: AppView)
    requires
        s.wf(),
        s.mode == ModeView::Normal,
        s.mounts.len() > 0,
    ensures
        key_step(s, plain(Key::Char('m'))).0.mode == ModeView::MountSelected(
            FormView {
                device: s.mounts[s.selected as int].device,
                mountpoint: Seq::empty(),
                fs_type_idx: 0,
                options: Seq::empty(),
                active_field: 1,
            },
        ),
        key_step(s, plain(Key::Char('n'))).0.mode == ModeView::NewMount(
            FormView {
                device: Seq::empty(),
                mountpoint: Seq::empty(),
                fs_type_idx: 0,
                options: Seq::empty(),
                active_field: 0,
            },
        ),
        fs_type_spec(0) == "auto"@,
{
}

/// `y` asks to copy the selected mount point, `Y` its device; `?` opens
/// help; `q` and Esc quit; `r` asks for the list to be read again and says
/// so in the status bar.
pub proof fn law_other_list_keys(s: AppView)
    requires
        s.wf(),
        s.mode == ModeView::Normal,
        s.mounts.len() > 0,
    ensures
        key_step(s, plain(Key::Char('y'))).0.pending_copy == Some(
            s.mounts[s.selected as int].mount_point,
        ),
        key_step(s, plain(Key::Char('Y'))).0.pending_copy == Some(s.mounts[s.selected as int].device),
        key_step(s, plain(Key::Char('?'))).0.mode == ModeView::Help,
        key_step(s, plain(Key::Char('q'))).0.should_quit,
        key_step(s, plain(Key::Esc)).0.should_quit,
        key_step(s, plain(Key::Char('r'))).0.pending_refresh,
        key_step(s, plain(Key::Char('r'))).0.status_msg == "Mount list refreshed."@,
{
}

/// Enter in the mount dialog with the device or the mount point empty asks
/// for nothing and shows "Device and mountpoint are required."; with both
/// filled in it asks to mount exactly what the form holds, with the chosen
/// filesystem type, and leaves the state as it is.
pub proof fn law_enter_in_dialog(s: AppView)
    requires
        s.wf(),
        s.mode.is_dialog(),
    ensures
        s.mode.form().device.len() == 0 || s.mode.form().mountpoint.len() == 0 ==> key_step(
            s,
            plain(Key::Enter),
        ) == (AppView {
            mode: ModeView::Message {
                title: "Error"@,
                body: "Device and mountpoint are required."@,
                refresh_on_close: false,
            },
            ..s
        }, None::<OpView>),
        s.mode.form().device.len() > 0 && s.mode.form().mountpoint.len() > 0 ==> key_step(
            s,
            plain(Key::Enter),
        ) == (s, Some(
            OpView::Mount {
                device: s.mode.form().device,
                mountpoint: s.mode.form().mountpoint,
                fs_type: fs_type_spec(s.mode.form().fs_type_idx as int),
                options: s.mode.form().options,
            },
        )),
{
}

/// Typing in the mount dialog appends the character to the field under
/// the cursor (device, mount point or options) and to no other; on the
/// filesystem field it changes nothing.  Tab moves the cursor to the next
/// field, wrapping after the fourth.
pub proof fn law_dialog_typing(s: AppView, c: char)
    requires
        s.wf(),
        s.mode.is_dialog(),
    ensures
        ({
            let f = s.mode.form();
            let g = key_step(s, plain(Key::Char(c))).0.mode.form();
            &&& g.device == (if f.active_field == 0 { f.device.push(c) } else { f.device })
            &&& g.mountpoint == (if f.active_field == 1 { f.mountpoint.push(c) } else { f.mountpoint })
            &&& g.options == (if f.active_field == 3 { f.options.push(c) } else { f.options })
            &&& g.fs_type_idx == f.fs_type_idx
            &&& g.active_field == f.active_field
        }),
        key_step(s, plain(Key::Char(c))).0.mode.is_dialog(),
        key_step(s, plain(Key::Char(c))).1 is None,
        key_step(s, plain(Key::Tab)).0.mode.form().active_field == (if s.mode.form().active_field
            < 3 {
            s.mode.form().active_field + 1
        } else {
            0
        }),
        key_step(s, plain(Key::Esc)).0.mode == ModeView::Normal,
{
}

/// In the password prompt, characters go into the password; Enter hands
/// the operation and the typed password on and closes the prompt; Esc
/// closes it and hands nothing on.
pub proof fn law_password_prompt_keys(s: AppView, op: OpView, pw: Seq<char>, c: char)
    requires
        s.mode == (ModeView::PasswordPrompt { operation: op, password: pw }),
    ensures
        key_step(s, plain(Key::Char(c))).0.mode == (ModeView::PasswordPrompt {
            operation: op,
            password: pw.push(c),
        }),
        key_step(s, plain(Key::Enter)).0.pending_privileged == Some((op, pw)),
        key_step(s, plain(Key::Enter)).0.mode == ModeView::Normal,
        key_step(s, plain(Key::Esc)).0.mode == ModeView::Normal,
        key_step(s, plain(Key::Esc)).0.pending_privileged == s.pending_privileged,
{
}

/// The outcome of an operation is shown as "Success" or "Error" with its
/// message, and only a success refreshes the list on close.
pub proof fn law_result_message(s: AppView, success: bool, message: Seq<char>)
    ensures
        result_step(s, true, message).mode == (ModeView::Message {
            title: "Success"@,
            body: message,
            refresh_on_close: true,
        }),
        result_step(s, false, message).mode == (ModeView::Message {
            title: "Error"@,
            body: message,
            refresh_on_close: false,
        }),
        result_step(s, success, message).cached_password == s.cached_password,
{
}

/// When the clipboard takes the requested text, a toast says
/// "📋 Copied: " and the text; when it refuses, the status bar says no
/// tool was found.  Either way the request is done; with no request
/// nothing changes.
pub proof fn law_copy_result(s: AppView, text: Seq<char>)
    ensures
        s.pending_copy == Some(text) ==> copy_step(s, true).mode == (ModeView::Toast {
            text: "📋 Copied: "@ + text,
            ticks: TOAST_TICKS,
        }),
        s.pending_copy == Some(text) ==> copy_step(s, true).pending_copy is None,
        s.pending_copy == Some(text) ==> copy_step(s, false).pending_copy is None,
        s.pending_copy == Some(text) ==> copy_step(s, false).status_msg
            == "Clipboard: no tool found (install xclip / wl-clipboard on Linux)"@,
        s.pending_copy == Some(text) ==> copy_step(s, false).mode == s.mode,
        s.pending_copy is None ==> copy_step(s, true) == s && copy_step(s, false) == s,
{
}

/// Each tick takes one off the status count and clears the message when
/// the count reaches zero; a toast likewise counts down and closes at zero.
pub proof fn law_tick(s: AppView)
    ensures
        s.status_ticks > 1 ==> tick_step(s).status_ticks == s.status_ticks - 1 && tick_step(s).status_msg
            == s.status_msg,
        s.status_ticks == 1 ==> tick_step(s).status_ticks == 0 && tick_step(s).status_msg.len() == 0,
        s.status_ticks == 0 ==> tick_step(s).status_ticks == 0 && tick_step(s).status_msg
            == s.status_msg,
        tick_step(s).selected == s.selected,
        tick_step(s).mounts == s.mounts,
        (s.mode matches ModeView::Toast { text, ticks } && ticks > 1) ==> tick_step(s).mode == (ModeView::Toast {
            text: s.mode->text,
            ticks: (s.mode->ticks - 1) as usize,
        }),
        (s.mode matches ModeView::Toast { ticks, .. } && ticks <= 1) ==> tick_step(s).mode
            == ModeView::Normal,
        !(s.mode is Toast) ==> tick_step(s).mode == s.mode,
{
}

} // verus!
