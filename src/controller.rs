//! The tray controller's decisions: what each operation hands to the shell
//! and to the window thread, and what it returns.
use vstd::prelude::*;
use crate::geometry::{LogicalRect, PhysicalPosition, Rect, physical, position_to_physical,
    rect_to_physical};
use crate::interceptor::{ClickReport, Interceptor, Message, TrayIconId, TrayState, opt_string};
use crate::message::ClickType;
use crate::notify::{NotifyData, str_model};

verus! {

#[derive(Clone, Copy, Debug, PartialEq, Eq, Structural)]
pub enum Error {
    /// A platform call failed; carries the platform's last error code.
    OsError(i32),
    /// Every internal id has been handed out.
    NoFreeId,
}

/// Hands out internal ids in increasing order, each at most once.
pub struct IdCounter {
    pub next: u32,
}

impl IdCounter {
    /// The ids handed out so far.
    pub open spec fn issued(&self) -> Set<u32> {
        Set::new(|i: u32| i < self.next)
    }

    pub fn new() -> (r: Self)
        ensures
            r.issued() == Set::<u32>::empty(),
    {
        let r = IdCounter { next: 0 };
        assert(r.issued() =~= Set::<u32>::empty());
        r
    }

    /// A fresh id, or `None` once every id has been handed out.
    pub fn next_id(&mut self) -> (r: Option<u32>)
        ensures
            r is None <==> old(self).next == u32::MAX,
            r is None ==> *final(self) == *old(self),
            r is Some ==> {
                &&& r->0 == old(self).next
                &&& !old(self).issued().contains(r->0)
                &&& final(self).issued() == old(self).issued().insert(r->0)
            },
    {
        if self.next == u32::MAX {
            None
        } else {
            let id: u32 = self.next;
            self.next = self.next + 1;
            assert(self.issued() =~= old(self).issued().insert(id));
            Some(id)
        }
    }
}

/// A click event: which icon, where the cursor was and where the icon is,
/// both in physical pixels, and which click it was.
#[derive(Debug)]
pub struct TrayIconEvent {
    pub id: TrayIconId,
    pub position: PhysicalPosition,
    pub icon_rect: Rect,
    pub click_type: ClickType,
}

impl TrayIconEvent {
    /// The event for a reported click, with the cursor at (`x`, `y`) and the
    /// slot at `icon_rect`, both logical, on a window at `dpi`.
    pub fn from_click(report: &ClickReport, x: i32, y: i32, icon_rect: LogicalRect, dpi: u32) -> (r:
        Self)
        ensures
            r.id@ == report.id@,
            r.position.x == physical(x as int, dpi as int),
            r.position.y == physical(y as int, dpi as int),
            r.icon_rect.is_physical_of(icon_rect, dpi as int),
            r.click_type == report.click_type,
    {
        TrayIconEvent {
            id: report.id.duplicate(),
            position: position_to_physical(x, y, dpi),
            icon_rect: rect_to_physical(icon_rect, dpi),
            click_type: report.click_type,
        }
    }
}

/// The controller's side of a tray icon: its hidden window and the key of
/// its slot.
#[derive(Clone, Copy, Debug, PartialEq, Eq, Structural)]
pub struct TrayIcon {
    pub window: isize,
    pub internal_id: u32,
}

/// A tray icon whose window exists and whose slot is yet to be registered.
#[derive(Debug)]
pub struct Creation {
    pub tray: TrayIcon,
    pub registration: NotifyData,
    pub state: TrayState,
}

impl Creation {
    /// Completes creation once the registration was attempted: on success the
    /// state goes to the window's interceptor, on failure it is dropped.
    pub fn finish(self, registered: bool, last_error: i32) -> (r: Result<
        (TrayIcon, Interceptor),
        Error,
    >)
        ensures
            registered ==> (r matches Ok((t, i)) && t == self.tray && i@ == Some(self.state@)),
            !registered ==> r == Err::<(TrayIcon, Interceptor), Error>(Error::OsError(last_error)),
    {
        if registered {
            Ok((self.tray, Interceptor::new(self.state)))
        } else {
            Err(Error::OsError(last_error))
        }
    }
}

impl TrayIcon {
    /// Starts creation on the hidden `window` (zero when creating it failed):
    /// draws a fresh internal id from `counter`, and gives the registration
    /// with the given icon and tooltip and the state that the window thread
    /// will own, visible from the start.
    pub fn new(
        counter: &mut IdCounter,
        id: TrayIconId,
        window: isize,
        icon: Option<isize>,
        tooltip: Option<String>,
        popup_menu: Option<isize>,
        last_error: i32,
    ) -> (r: Result<Creation, Error>)
        ensures
            window == 0 ==> r == Err::<Creation, Error>(Error::OsError(last_error)),
            window != 0 && old(counter).next == u32::MAX ==> r == Err::<Creation, Error>(
                Error::NoFreeId,
            ),
            r is Err ==> *final(counter) == *old(counter),
            window != 0 && old(counter).next != u32::MAX ==> (r matches Ok(c) && {
                let internal_id = old(counter).next;
                &&& !old(counter).issued().contains(internal_id)
                &&& final(counter).issued() == old(counter).issued().insert(internal_id)
                &&& c.tray == (TrayIcon { window, internal_id })
                &&& c.registration.is_registration(
                    window,
                    internal_id,
                    icon,
                    opt_string(tooltip),
                )
                &&& c.state@.internal_id == internal_id
                &&& c.state@.id == id@
                &&& c.state@.window == window
                &&& c.state@.popup_menu == popup_menu
                &&& c.state@.icon == icon
                &&& c.state@.tooltip == opt_string(tooltip)
                &&& c.state@.visible
            }),
    {
        if window == 0 {
            return Err(Error::OsError(last_error));
        }
        let internal_id: u32 = match counter.next_id() {
            Some(v) => v,
            None => {
                return Err(Error::NoFreeId);
            },
        };
        let registration = {
            let tip: Option<&str> = match &tooltip {
                Some(t) => Some(t.as_str()),
                None => None,
            };
            NotifyData::registration(window, internal_id, icon, tip)
        };
        let state = TrayState { internal_id, id, window, popup_menu, icon, tooltip, visible: true };
        Ok(Creation { tray: TrayIcon { window, internal_id }, registration, state })
    }

    /// The change of the live slot's icon, and the update that follows it to
    /// the window thread.
    pub fn set_icon(&self, icon: Option<isize>) -> (r: (NotifyData, Message))
        ensures
            r.0.is_icon_change(self.window, self.internal_id, icon),
            r.1@ == crate::interceptor::MessageModel::UpdateIcon(icon),
    {
        (NotifyData::icon_change(self.window, self.internal_id, icon), Message::UpdateIcon(icon))
    }

    /// The change of the live slot's tooltip, cut to the field and never
    /// refused, and the update that follows it to the window thread.
    pub fn set_tooltip(&self, tooltip: Option<&str>) -> (r: (NotifyData, Message))
        ensures
            r.0.is_tooltip_change(self.window, self.internal_id, str_model(tooltip)),
            r.1@ == crate::interceptor::MessageModel::UpdateTooltip(str_model(tooltip)),
    {
        let owned: Option<String> = match tooltip {
            Some(t) => Some(t.to_owned()),
            None => None,
        };
        (
            NotifyData::tooltip_change(self.window, self.internal_id, tooltip),
            Message::UpdateTooltip(owned),
        )
    }

    /// Whether the update goes on to the window thread after the shell call:
    /// only when the call succeeded, so that the window thread's state keeps
    /// to what the shell shows.
    pub fn after_change(modified: bool, update: Message, last_error: i32) -> (r: Result<
        Message,
        Error,
    >)
        ensures
            modified ==> (r matches Ok(m) && m@ == update@),
            !modified ==> (r matches Err(e) && e == Error::OsError(last_error)),
    {
        if modified {
            Ok(update)
        } else {
            Err(Error::OsError(last_error))
        }
    }

    /// The update that tells the window thread of the new popup menu.
    pub fn set_menu(&self, popup_menu: Option<isize>) -> (r: Message)
        ensures
            r@ == crate::interceptor::MessageModel::UpdateMenu(popup_menu),
    {
        Message::UpdateMenu(popup_menu)
    }

    /// Titles are not shown by this platform's tray.
    pub fn set_title(&mut self, _title: Option<&str>)
        ensures
            *final(self) == *old(self),
    {
    }

    /// The request that shows or hides the slot. Asking twice for the same is
    /// harmless.
    pub fn set_visible(&self, visible: bool) -> (r: Message)
        ensures
            visible ==> r@ == crate::interceptor::MessageModel::Show,
            !visible ==> r@ == crate::interceptor::MessageModel::Hide,
    {
        if visible {
            Message::Show
        } else {
            Message::Hide
        }
    }

    /// The slot's rectangle in physical pixels, from the shell's answer
    /// (`None` when the slot is absent) and the window's `dpi`.
    pub fn rect(&self, query: Option<LogicalRect>, dpi: u32) -> (r: Option<Rect>)
        ensures
            query is None ==> r is None,
            query is Some ==> r is Some && r->0.is_physical_of(query->0, dpi as int),
    {
        match query {
            Some(q) => Some(rect_to_physical(q, dpi)),
            None => None,
        }
    }

    /// The removal of the slot, first step of teardown.
    pub fn removal(&self) -> (r: NotifyData)
        ensures
            r.is_removal(self.window, self.internal_id),
    {
        NotifyData::removal(self.window, self.internal_id)
    }
}

} // verus!
