use vstd::prelude::*;
use crate::base::{DeftError, EventRegistration, listeners_for};
use crate::text::str_eq;

verus! {

/// A menu entry of the system tray was clicked; holds the entry's id.
pub struct MenuClickEvent(pub String);

/// The system tray icon was activated.
pub struct ActivateEvent;

/// The source of the ids of system trays, handed out in order from 1.
pub struct TrayIds {
    pub next: u32,
}

impl TrayIds {
    pub fn new() -> (r: Self)
        ensures
            r.next == 1,
    {
        TrayIds { next: 1 }
    }
}

/// What the system tray icon is asked to show, oldest first.
#[derive(Clone, Debug, PartialEq, Eq)]
pub enum TrayCommand {
    SetTitle(String),
    SetShowMenuOnLeftClick(bool),
    SetIcon(String),
}

/// A system tray icon: its listeners and what it has been asked to show.
pub struct SystemTray {
    pub tray_id: String,
    pub id: u32,
    pub event_registration: EventRegistration,
    pub commands: Vec<TrayCommand>,
}

/// The event types that scripts can listen to on a tray.
pub open spec fn is_tray_event_type(t: Seq<char>) -> bool {
    t == "menuclick"@ || t == "activate"@
}

impl SystemTray {
    pub open spec fn wf(&self) -> bool {
        self.event_registration.wf()
    }

    /// A tray named `id`, with the next id of `ids` and no listeners.
    pub fn create(ids: &mut TrayIds, id: String) -> (r: Result<SystemTray, DeftError>)
        requires
            old(ids).next < u32::MAX,
        ensures
            final(ids).next == old(ids).next + 1,
            r matches Ok(t) && t.wf() && t.id == old(ids).next && t.tray_id@ == id@
                && t.event_registration@.len() == 0 && t.commands@.len() == 0,
    {
        let inner_id = ids.next;
        ids.next = inner_id + 1;
        Ok(SystemTray {
            tray_id: id,
            id: inner_id,
            event_registration: EventRegistration::new(),
            commands: Vec::new(),
        })
    }

    /// Removes the listener `id` when it listens to `event_type`; the id is
    /// read as unsigned, as scripts pass it.
    pub fn remove_event_listener(&mut self, event_type: String, id: i32)
        requires
            old(self).wf(),
        ensures
            final(self).wf(),
            final(self).id == old(self).id,
            final(self).commands == old(self).commands,
            final(self).event_registration@ == old(self).event_registration@.filter(
                |l: (u32, Seq<char>)| !(l.0 == id as u32 && l.1 == event_type@),
            ),
    {
        self.event_registration.remove_event_listener(event_type.as_str(), id as u32);
    }

    /// Adds a listener for a script event type; an unknown type is refused.
    pub fn bind_event(&mut self, event_type: String) -> (r: Result<u32, DeftError>)
        requires
            old(self).wf(),
            old(self).event_registration.next_id < u32::MAX,
        ensures
            final(self).wf(),
            final(self).id == old(self).id,
            final(self).commands == old(self).commands,
            match r {
                Ok(lid) => is_tray_event_type(event_type@)
                    && lid == old(self).event_registration.next_id
                    && final(self).event_registration@ == old(self).event_registration@.push(
                    (lid, event_type@),
                ),
                Err(e) => !is_tray_event_type(event_type@) && *final(self) == *old(self)
                    && e.message@ == "unknown event_type:"@ + event_type@,
            },
    {
        let t = event_type.as_str();
        if str_eq(t, "menuclick") || str_eq(t, "activate") {
            Ok(self.register_event_listener(t))
        } else {
            let message = String::from_str("unknown event_type:").concat(t);
            Err(DeftError { message })
        }
    }

    pub fn get_id(&self) -> (r: u32)
        ensures
            r == self.id,
    {
        self.id
    }

    pub fn set_title(&mut self, title: String)
        ensures
            final(self).commands@ == old(self).commands@.push(TrayCommand::SetTitle(title)),
            final(self).event_registration == old(self).event_registration,
            final(self).id == old(self).id,
    {
        self.commands.push(TrayCommand::SetTitle(title));
    }

    pub fn set_show_menu_on_left_click(&mut self, value: bool)
        ensures
            final(self).commands@ == old(self).commands@.push(
                TrayCommand::SetShowMenuOnLeftClick(value),
            ),
            final(self).event_registration == old(self).event_registration,
            final(self).id == old(self).id,
    {
        self.commands.push(TrayCommand::SetShowMenuOnLeftClick(value));
    }

    pub fn set_icon(&mut self, icon: String)
        ensures
            final(self).commands@ == old(self).commands@.push(TrayCommand::SetIcon(icon)),
            final(self).event_registration == old(self).event_registration,
            final(self).id == old(self).id,
    {
        self.commands.push(TrayCommand::SetIcon(icon));
    }

    /// Adds a listener for events of type `event_type`; returns its id.
    pub fn register_event_listener(&mut self, event_type: &str) -> (lid: u32)
        requires
            old(self).wf(),
            old(self).event_registration.next_id < u32::MAX,
        ensures
            final(self).wf(),
            lid == old(self).event_registration.next_id,
            final(self).event_registration@ == old(self).event_registration@.push(
                (lid, event_type@),
            ),
            final(self).event_registration.next_id == old(self).event_registration.next_id + 1,
            final(self).id == old(self).id,
            final(self).tray_id == old(self).tray_id,
            final(self).commands == old(self).commands,
    {
        self.event_registration.register_event_listener(event_type)
    }

    /// Removes the listener `id`, whatever event type it listens to.
    pub fn unregister_event_listener(&mut self, id: u32)
        requires
            old(self).wf(),
        ensures
            final(self).wf(),
            final(self).event_registration@ == old(self).event_registration@.filter(
                |l: (u32, Seq<char>)| l.0 != id,
            ),
            final(self).id == old(self).id,
            final(self).commands == old(self).commands,
    {
        self.event_registration.unregister_event_listener(id)
    }

    /// A click on the menu entry `menu_id`: the event, and the listeners it
    /// goes to, in registration order.
    pub fn menu_clicked(&self, menu_id: String) -> (r: (MenuClickEvent, Vec<u32>))
        ensures
            r.0.0 == menu_id,
            r.1@ == listeners_for(self.event_registration@, "menuclick"@),
    {
        let ids = self.event_registration.emit("menuclick");
        (MenuClickEvent(menu_id), ids)
    }

    /// An activation of the tray icon: the event, and the listeners it goes
    /// to, in registration order.
    pub fn activated(&self) -> (r: (ActivateEvent, Vec<u32>))
        ensures
            r.1@ == listeners_for(self.event_registration@, "activate"@),
    {
        let ids = self.event_registration.emit("activate");
        (ActivateEvent, ids)
    }
}

} // verus!
