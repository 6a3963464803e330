//! Custom-UI event plumbing: the event record a host callback hands the
//! plugin, and the flags the plugin hands back.

use vstd::prelude::*;

verus! {

/// The kind of custom-UI event the host delivered.
#[derive(Clone, Copy, Debug, PartialEq, Eq, Structural)]
pub enum EventType {
    NoEvent,
    NewContext,
    Activate,
    DoClick,
    Drag,
    Draw,
    Deactivate,
    Context,
    Idle,
    AdjustCursor,
    Keydown,
    MouseExited,
    NumEvents,
}

/// Flags the plugin reports back after handling an event.
#[derive(Clone, Copy, Debug, PartialEq, Eq, Structural)]
pub struct EventOutFlags {
    pub bits: u32,
}

impl EventOutFlags {
    pub fn none() -> (r: EventOutFlags)
        ensures
            r.bits == 0,
    {
        EventOutFlags { bits: 0 }
    }

    pub fn handled_event() -> (r: EventOutFlags)
        ensures
            r.bits == 1,
    {
        EventOutFlags { bits: 1 }
    }

    /// Rerender the composition.
    pub fn always_update() -> (r: EventOutFlags)
        ensures
            r.bits == 2,
    {
        EventOutFlags { bits: 2 }
    }

    /// Do not rerender the composition.
    pub fn never_update() -> (r: EventOutFlags)
        ensures
            r.bits == 4,
    {
        EventOutFlags { bits: 4 }
    }

    /// Update the view immediately after the event returns.
    pub fn update_now() -> (r: EventOutFlags)
        ensures
            r.bits == 8,
    {
        EventOutFlags { bits: 8 }
    }

    /// Combine two flag sets.
    pub fn or(self, other: EventOutFlags) -> (r: EventOutFlags)
        ensures
            r.bits == self.bits | other.bits,
    {
        EventOutFlags { bits: self.bits | other.bits }
    }
}

/// The opaque token for the host's drawing context.
#[derive(Clone, Copy, Debug, PartialEq, Eq, Structural)]
pub struct ContextHandle {
    token: usize,
}

impl ContextHandle {
    pub closed spec fn token_spec(&self) -> usize {
        self.token
    }

    /// Wrap a host-supplied context token.
    pub fn from_raw(token: usize) -> (r: ContextHandle)
        ensures
            r.token_spec() == token,
    {
        ContextHandle { token }
    }

    /// The raw token, for handing back to the host.
    pub fn as_raw(&self) -> (r: usize)
        ensures
            r == self.token_spec(),
    {
        self.token
    }
}

/// The event record one custom-UI callback carries: the drawing
/// context, the event kind, and the out-flags slot the plugin fills.
pub struct EventExtra {
    pub context: ContextHandle,
    pub e_type: EventType,
    pub evt_out_flags: u32,
}

impl EventExtra {
    /// An event record as the host delivers it, with no out-flags set.
    pub fn new(context: ContextHandle, e_type: EventType) -> (r: EventExtra)
        ensures
            r.context == context,
            r.e_type == e_type,
            r.evt_out_flags == 0,
    {
        EventExtra { context, e_type, evt_out_flags: 0 }
    }

    /// The drawing context of this event.
    pub fn get_context_handle(&self) -> (r: ContextHandle)
        ensures
            r == self.context,
    {
        self.context
    }

    /// The kind of event delivered.
    pub fn get_event_type(&self) -> (r: EventType)
        ensures
            r == self.e_type,
    {
        self.e_type
    }

    /// Report the out-flags back to the host.
    pub fn event_out_flags(&mut self, flags: EventOutFlags)
        ensures
            final(self).evt_out_flags == flags.bits,
            final(self).context == old(self).context,
            final(self).e_type == old(self).e_type,
    {
        self.evt_out_flags = flags.bits;
    }
}

/// Which views a custom-UI parameter wants events for.
#[derive(Clone, Copy, Debug, PartialEq, Eq, Structural)]
pub struct CustomEventFlags {
    pub bits: u32,
}

impl CustomEventFlags {
    pub fn none() -> (r: CustomEventFlags)
        ensures
            r.bits == 0,
    {
        CustomEventFlags { bits: 0 }
    }

    pub fn comp() -> (r: CustomEventFlags)
        ensures
            r.bits == 1,
    {
        CustomEventFlags { bits: 1 }
    }

    pub fn layer() -> (r: CustomEventFlags)
        ensures
            r.bits == 2,
    {
        CustomEventFlags { bits: 2 }
    }

    pub fn effect() -> (r: CustomEventFlags)
        ensures
            r.bits == 4,
    {
        CustomEventFlags { bits: 4 }
    }

    pub fn preview() -> (r: CustomEventFlags)
        ensures
            r.bits == 8,
    {
        CustomEventFlags { bits: 8 }
    }

    /// Combine two flag sets.
    pub fn or(self, other: CustomEventFlags) -> (r: CustomEventFlags)
        ensures
            r.bits == self.bits | other.bits,
    {
        CustomEventFlags { bits: self.bits | other.bits }
    }
}

/// The custom-UI registration record: which events the effect wants and
/// how much room each of its views takes.
#[derive(Clone, Copy, Debug, PartialEq, Eq, Structural)]
pub struct CustomUIInfo {
    pub events_bits: u32,
    pub comp_ui_width: u16,
    pub comp_ui_height: u16,
    pub layer_ui_width: u16,
    pub layer_ui_height: u16,
    pub preview_ui_width: u16,
    pub preview_ui_height: u16,
}

impl CustomUIInfo {
    /// A registration record with nothing requested.
    pub fn new() -> (r: CustomUIInfo)
        ensures
            r == (CustomUIInfo {
                events_bits: 0,
                comp_ui_width: 0,
                comp_ui_height: 0,
                layer_ui_width: 0,
                layer_ui_height: 0,
                preview_ui_width: 0,
                preview_ui_height: 0,
            }),
    {
        CustomUIInfo {
            events_bits: 0,
            comp_ui_width: 0,
            comp_ui_height: 0,
            layer_ui_width: 0,
            layer_ui_height: 0,
            preview_ui_width: 0,
            preview_ui_height: 0,
        }
    }

    pub fn events(&mut self, events: CustomEventFlags)
        ensures
            *final(self) == (CustomUIInfo { events_bits: events.bits, ..*old(self) }),
    {
        self.events_bits = events.bits;
    }

    pub fn comp_ui_width(&mut self, width: u16)
        ensures
            *final(self) == (CustomUIInfo { comp_ui_width: width, ..*old(self) }),
    {
        self.comp_ui_width = width;
    }

    pub fn comp_ui_height(&mut self, height: u16)
        ensures
            *final(self) == (CustomUIInfo { comp_ui_height: height, ..*old(self) }),
    {
        self.comp_ui_height = height;
    }

    pub fn layer_ui_width(&mut self, width: u16)
        ensures
            *final(self) == (CustomUIInfo { layer_ui_width: width, ..*old(self) }),
    {
        self.layer_ui_width = width;
    }

    pub fn layer_ui_height(&mut self, height: u16)
        ensures
            *final(self) == (CustomUIInfo { layer_ui_height: height, ..*old(self) }),
    {
        self.layer_ui_height = height;
    }

    pub fn preview_ui_width(&mut self, width: u16)
        ensures
            *final(self) == (CustomUIInfo { preview_ui_width: width, ..*old(self) }),
    {
        self.preview_ui_width = width;
    }

    pub fn preview_ui_height(&mut self, height: u16)
        ensures
            *final(self) == (CustomUIInfo { preview_ui_height: height, ..*old(self) }),
    {
        self.preview_ui_height = height;
    }

    /// Seal the record for registration.
    pub fn finalize(self) -> (r: CustomUIInfo)
        ensures
            r == self,
    {
        self
    }
}

} // verus!
