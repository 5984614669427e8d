//! Verified core of a notification-area (system tray) icon controller.
//!
//! The library holds the decisions of the controller: how reported
//! coordinates are scaled to physical pixels, what is handed to the shell's
//! notify-icon call, how window messages are classified, and how the state
//! owned by the hidden window's message thread evolves. Talking to the
//! operating system is left to the caller.

mod geometry;
mod tooltip;
mod notify;
mod message;
mod interceptor;
mod controller;

pub use tooltip::{TOOLTIP_CAPACITY, encode_wide, tooltip_field};

pub use geometry::{
    LogicalRect, PhysicalPosition, PhysicalSize, Rect, BASE_DPI, position_to_physical,
    rect_to_physical, scale_to_physical, size_to_physical,
};


pub use notify::{NotifyCommand, NotifyData, NotifyFlags};
pub use message::{
    ClickType, MessageKind, TRAY_SUBCLASS_ID, WM_DESTROY, WM_LBUTTONDBLCLK, WM_LBUTTONUP,
    WM_RBUTTONUP, WM_USER_HIDE_TRAYICON, WM_USER_SHOW_TRAYICON, WM_USER_TRAYICON,
    WM_USER_UPDATE_TRAYICON, WM_USER_UPDATE_TRAYMENU, WM_USER_UPDATE_TRAYTOOLTIP, click_of,
    decode,
};
pub use interceptor::{ClickReport, Interceptor, Message, Reaction, TrayIconId, TrayState};
pub use controller::{Creation, Error, IdCounter, TrayIcon, TrayIconEvent};
