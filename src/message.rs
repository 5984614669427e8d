//! Window messages that the tray's hidden window interprets.
use vstd::prelude::*;

verus! {

/// Key under which the interceptor is installed on the hidden window.
pub const TRAY_SUBCLASS_ID: usize = 6001;
/// Sent by the shell for mouse activity over the tray slot.
pub const WM_USER_TRAYICON: u32 = 6002;
pub const WM_USER_UPDATE_TRAYMENU: u32 = 6003;
pub const WM_USER_UPDATE_TRAYICON: u32 = 6004;
pub const WM_USER_SHOW_TRAYICON: u32 = 6005;
pub const WM_USER_HIDE_TRAYICON: u32 = 6006;
pub const WM_USER_UPDATE_TRAYTOOLTIP: u32 = 6007;

pub const WM_DESTROY: u32 = 0x0002;
pub const WM_LBUTTONUP: u32 = 0x0202;
pub const WM_LBUTTONDBLCLK: u32 = 0x0203;
pub const WM_RBUTTONUP: u32 = 0x0205;

#[derive(Clone, Copy, Debug, PartialEq, Eq, Structural)]
pub enum ClickType {
    Left,
    Right,
    Double,
}

/// The kind of an incoming message, before its payload is taken.
#[derive(Clone, Copy, Debug, PartialEq, Eq, Structural)]
pub enum MessageKind {
    Destroy,
    UpdateMenu,
    UpdateIcon,
    Show,
    Hide,
    UpdateTooltip,
    TaskbarCreated,
    Click(ClickType),
    Other,
}

/// The click that a tray notification's sub-code stands for, if any.
pub open spec fn click_spec(code: u32) -> Option<ClickType> {
    if code == WM_LBUTTONUP {
        Some(ClickType::Left)
    } else if code == WM_RBUTTONUP {
        Some(ClickType::Right)
    } else if code == WM_LBUTTONDBLCLK {
        Some(ClickType::Double)
    } else {
        None
    }
}

/// Classification of a message, first match wins in this order.
pub open spec fn decode_spec(msg: u32, code: u32, taskbar_created: u32) -> MessageKind {
    if msg == WM_DESTROY {
        MessageKind::Destroy
    } else if msg == WM_USER_UPDATE_TRAYMENU {
        MessageKind::UpdateMenu
    } else if msg == WM_USER_UPDATE_TRAYICON {
        MessageKind::UpdateIcon
    } else if msg == WM_USER_SHOW_TRAYICON {
        MessageKind::Show
    } else if msg == WM_USER_HIDE_TRAYICON {
        MessageKind::Hide
    } else if msg == WM_USER_UPDATE_TRAYTOOLTIP {
        MessageKind::UpdateTooltip
    } else if msg == taskbar_created {
        MessageKind::TaskbarCreated
    } else if msg == WM_USER_TRAYICON && click_spec(code) is Some {
        MessageKind::Click(click_spec(code)->0)
    } else {
        MessageKind::Other
    }
}

/// The click that a tray notification's sub-code stands for, if any.
pub fn click_of(code: u32) -> (r: Option<ClickType>)
    ensures
        r == click_spec(code),
{
    if code == WM_LBUTTONUP {
        Some(ClickType::Left)
    } else if code == WM_RBUTTONUP {
        Some(ClickType::Right)
    } else if code == WM_LBUTTONDBLCLK {
        Some(ClickType::Double)
    } else {
        None
    }
}

/// Classifies message `msg` whose second parameter is `lparam`;
/// `taskbar_created` is the id the shell broadcasts after it restarts.
pub fn decode(msg: u32, lparam: isize, taskbar_created: u32) -> (r: MessageKind)
    ensures
        r == decode_spec(msg, lparam as u32, taskbar_created),
{
    if msg == WM_DESTROY {
        MessageKind::Destroy
    } else if msg == WM_USER_UPDATE_TRAYMENU {
        MessageKind::UpdateMenu
    } else if msg == WM_USER_UPDATE_TRAYICON {
        MessageKind::UpdateIcon
    } else if msg == WM_USER_SHOW_TRAYICON {
        MessageKind::Show
    } else if msg == WM_USER_HIDE_TRAYICON {
        MessageKind::Hide
    } else if msg == WM_USER_UPDATE_TRAYTOOLTIP {
        MessageKind::UpdateTooltip
    } else if msg == taskbar_created {
        MessageKind::TaskbarCreated
    } else if msg == WM_USER_TRAYICON {
        match click_of(lparam as u32) {
            Some(c) => MessageKind::Click(c),
            None => MessageKind::Other,
        }
    } else {
        MessageKind::Other
    }
}

} // verus!
