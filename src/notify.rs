//! What is handed to the shell to add, change or remove the tray slot.
use vstd::prelude::*;
use crate::tooltip::{field_of, tooltip_field, TOOLTIP_CAPACITY};
use crate::message::WM_USER_TRAYICON;

verus! {

#[derive(Clone, Copy, Debug, PartialEq, Eq)]
pub enum NotifyCommand {
    Add,
    Modify,
    Delete,
}

/// Which fields of the request the shell reads.
#[derive(Clone, Copy, Debug, PartialEq, Eq)]
pub struct NotifyFlags {
    pub message: bool,
    pub icon: bool,
    pub tip: bool,
}

/// One notify-icon request for the slot keyed by `window` and `id`.
/// Handles are carried as plain integers; zero stands for none.
#[derive(Clone, Debug)]
pub struct NotifyData {
    pub command: NotifyCommand,
    pub flags: NotifyFlags,
    pub window: isize,
    pub id: u32,
    pub callback_message: u32,
    pub icon: isize,
    pub tip: Vec<u16>,
}

pub open spec fn handle_or_zero(h: Option<isize>) -> isize {
    match h {
        Some(v) => v,
        None => 0,
    }
}

pub open spec fn str_model(s: Option<&str>) -> Option<Seq<char>> {
    match s {
        Some(t) => Some(t@),
        None => None,
    }
}

impl NotifyData {
    /// An add of the slot: the callback message always, the icon and the
    /// tooltip only where present.
    pub open spec fn is_registration(
        &self,
        window: isize,
        id: u32,
        icon: Option<isize>,
        tooltip: Option<Seq<char>>,
    ) -> bool {
        &&& self.command == NotifyCommand::Add
        &&& self.flags == NotifyFlags { message: true, icon: icon is Some, tip: tooltip is Some }
        &&& self.window == window
        &&& self.id == id
        &&& self.callback_message == WM_USER_TRAYICON
        &&& self.icon == handle_or_zero(icon)
        &&& self.tip@ == field_of(tooltip)
    }

    /// The removal of the slot.
    pub open spec fn is_removal(&self, window: isize, id: u32) -> bool {
        &&& self.command == NotifyCommand::Delete
        &&& self.flags == NotifyFlags { message: false, icon: true, tip: false }
        &&& self.window == window
        &&& self.id == id
        &&& self.callback_message == 0
        &&& self.icon == 0
        &&& self.tip@ == field_of(None)
    }

    /// A change of the live slot's icon (none clears it).
    pub open spec fn is_icon_change(&self, window: isize, id: u32, icon: Option<isize>) -> bool {
        &&& self.command == NotifyCommand::Modify
        &&& self.flags == NotifyFlags { message: false, icon: true, tip: false }
        &&& self.window == window
        &&& self.id == id
        &&& self.callback_message == 0
        &&& self.icon == handle_or_zero(icon)
        &&& self.tip@ == field_of(None)
    }

    /// A change of the live slot's tooltip (none clears it).
    pub open spec fn is_tooltip_change(
        &self,
        window: isize,
        id: u32,
        tooltip: Option<Seq<char>>,
    ) -> bool {
        &&& self.command == NotifyCommand::Modify
        &&& self.flags == NotifyFlags { message: false, icon: false, tip: true }
        &&& self.window == window
        &&& self.id == id
        &&& self.callback_message == 0
        &&& self.icon == 0
        &&& self.tip@ == field_of(tooltip)
    }

    /// Adds the slot with the given icon and tooltip. Where the shell refuses
    /// the add, `after_add` gives the request that replaces an existing slot.
    pub fn registration(window: isize, id: u32, icon: Option<isize>, tooltip: Option<&str>) -> (r:
        Self)
        ensures
            r.is_registration(window, id, icon, str_model(tooltip)),
    {
        let h: isize = match icon {
            Some(v) => v,
            None => 0,
        };
        NotifyData {
            command: NotifyCommand::Add,
            flags: NotifyFlags { message: true, icon: icon.is_some(), tip: tooltip.is_some() },
            window,
            id,
            callback_message: WM_USER_TRAYICON,
            icon: h,
            tip: tooltip_field(tooltip),
        }
    }

    /// What follows an add request once the shell answered: nothing if the
    /// add succeeded, else the same request as a modification, which
    /// replaces the fields of a slot that already exists.
    pub fn after_add(self, added: bool) -> (r: Option<NotifyData>)
        requires
            self.command == NotifyCommand::Add,
        ensures
            added ==> r is None,
            !added ==> (r matches Some(d) && {
                &&& d.command == NotifyCommand::Modify
                &&& d.flags == self.flags
                &&& d.window == self.window
                &&& d.id == self.id
                &&& d.callback_message == self.callback_message
                &&& d.icon == self.icon
                &&& d.tip@ == self.tip@
            }),
    {
        if added {
            None
        } else {
            Some(NotifyData { command: NotifyCommand::Modify, ..self })
        }
    }

    /// Removes the slot.
    pub fn removal(window: isize, id: u32) -> (r: Self)
        ensures
            r.is_removal(window, id),
    {
        NotifyData {
            command: NotifyCommand::Delete,
            flags: NotifyFlags { message: false, icon: true, tip: false },
            window,
            id,
            callback_message: 0,
            icon: 0,
            tip: tooltip_field(None),
        }
    }

    /// Changes the icon of the live slot.
    pub fn icon_change(window: isize, id: u32, icon: Option<isize>) -> (r: Self)
        ensures
            r.is_icon_change(window, id, icon),
    {
        let h: isize = match icon {
            Some(v) => v,
            None => 0,
        };
        NotifyData {
            command: NotifyCommand::Modify,
            flags: NotifyFlags { message: false, icon: true, tip: false },
            window,
            id,
            callback_message: 0,
            icon: h,
            tip: tooltip_field(None),
        }
    }

    /// Changes the tooltip of the live slot; overlong text is cut to the field.
    pub fn tooltip_change(window: isize, id: u32, tooltip: Option<&str>) -> (r: Self)
        ensures
            r.is_tooltip_change(window, id, str_model(tooltip)),
            r.tip@.len() == TOOLTIP_CAPACITY,
    {
        NotifyData {
            command: NotifyCommand::Modify,
            flags: NotifyFlags { message: false, icon: false, tip: true },
            window,
            id,
            callback_message: 0,
            icon: 0,
            tip: tooltip_field(tooltip),
        }
    }
}

} // verus!
