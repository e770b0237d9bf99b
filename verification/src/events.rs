use vstd::prelude::*;

use crate::codes::{KeyCode, MouseButton};

verus! {

/// The concrete event category a binding is registered for and a
/// synthesized event carries.
#[derive(Debug, PartialEq, Eq, Hash, Copy, Clone, Structural)]
pub enum EventKind {
    Click,
    DoubleClick,
    MouseDown,
    MouseUp,
    MouseMove,
    MouseEnter,
    MouseLeave,
    MouseOver,
    MouseOut,
    KeyDown,
    KeyUp,
    KeyPress,
}

/// The raw, system-level category attached to a queued input notification
/// before synthesis. Each raw category synthesizes into exactly one
/// concrete `EventKind`, given by `ui_kind`; the four synthetic mouse
/// crossing kinds (enter, leave, over, out) have no raw source here.
#[derive(Debug, PartialEq, Eq, Hash, Copy, Clone, Structural)]
pub enum VirtualEventKind {
    MouseClicked,
    MouseDoubleClicked,
    MousePressed,
    MouseReleased,
    MouseMoved,
    KeyPressed,
    KeyReleased,
    KeyTyped,
}

impl VirtualEventKind {
    /// The concrete event kind this raw category synthesizes into, as a
    /// specification-level value.
    pub open spec fn spec_ui_kind(self) -> EventKind {
        match self {
            VirtualEventKind::MouseClicked => EventKind::Click,
            VirtualEventKind::MouseDoubleClicked => EventKind::DoubleClick,
            VirtualEventKind::MousePressed => EventKind::MouseDown,
            VirtualEventKind::MouseReleased => EventKind::MouseUp,
            VirtualEventKind::MouseMoved => EventKind::MouseMove,
            VirtualEventKind::KeyPressed => EventKind::KeyDown,
            VirtualEventKind::KeyReleased => EventKind::KeyUp,
            VirtualEventKind::KeyTyped => EventKind::KeyPress,
        }
    }

    /// Returns the concrete event kind this raw category synthesizes into.
    pub fn ui_kind(self) -> (r: EventKind)
        ensures
            r == self.spec_ui_kind(),
    {
        match self {
            VirtualEventKind::MouseClicked => EventKind::Click,
            VirtualEventKind::MouseDoubleClicked => EventKind::DoubleClick,
            VirtualEventKind::MousePressed => EventKind::MouseDown,
            VirtualEventKind::MouseReleased => EventKind::MouseUp,
            VirtualEventKind::MouseMoved => EventKind::MouseMove,
            VirtualEventKind::KeyPressed => EventKind::KeyDown,
            VirtualEventKind::KeyReleased => EventKind::KeyUp,
            VirtualEventKind::KeyTyped => EventKind::KeyPress,
        }
    }
}

/// Modifier-key state captured with an input notification:
/// (alt, ctrl, meta, shift).
pub type ModifierStateData = (bool, bool, bool, bool);

/// The numeric handle events carry for their target node. Node identifiers
/// wider than this handle resolve to `DEFAULT_TARGET` instead of failing.
pub type TargetHandle = u32;

/// The handle substituted when a node identifier does not fit a
/// `TargetHandle`: a deliberate best-effort degrade, not an error.
pub const DEFAULT_TARGET: TargetHandle = 0;

/// How an accessor on the `Event` union can decline to answer.
#[derive(Debug, PartialEq, Eq, Copy, Clone, Structural)]
pub enum AccessError {
    /// A key-only accessor was invoked on a mouse event.
    NotAKeyEvent,
    /// A mouse-only accessor was invoked on a key event.
    NotAMouseEvent,
    /// The accessor names a capability this engine does not provide.
    NotSupported,
}

/// Common header embedded in every concrete event: the event kind, the
/// resolved target handle, and the four modifier-key flags. Immutable once
/// constructed.
#[derive(Debug, PartialEq, Eq, Copy, Clone, Structural)]
pub struct BaseEvent {
    pub event_kind: EventKind,
    pub target: TargetHandle,
    pub alt_key: bool,
    pub ctrl_key: bool,
    pub meta_key: bool,
    pub shift_key: bool,
}

impl BaseEvent {
    /// The event kind this header carries.
    pub open spec fn spec_ty(self) -> EventKind {
        self.event_kind
    }

    /// The target handle this header carries.
    pub open spec fn spec_target(self) -> TargetHandle {
        self.target
    }

    /// The modifier flags this header carries, in (alt, ctrl, meta, shift)
    /// order.
    pub open spec fn spec_modifiers(self) -> ModifierStateData {
        (self.alt_key, self.ctrl_key, self.meta_key, self.shift_key)
    }

    /// Builds a header from an event kind, a resolved target handle and the
    /// modifier-key state.
    pub fn new(event_kind: EventKind, target: TargetHandle, modifiers: ModifierStateData) -> (r:
        BaseEvent)
        ensures
            r.spec_ty() == event_kind,
            r.spec_target() == target,
            r.spec_modifiers() == modifiers,
    {
        let (alt_key, ctrl_key, meta_key, shift_key) = modifiers;
        BaseEvent { event_kind, target, alt_key, ctrl_key, meta_key, shift_key }
    }

    /// Returns the event kind.
    pub fn ty(&self) -> (r: EventKind)
        ensures
            r == self.spec_ty(),
    {
        self.event_kind
    }

    /// Returns the target handle.
    pub fn target(&self) -> (r: TargetHandle)
        ensures
            r == self.spec_target(),
    {
        self.target
    }

    /// Returns whether the alt modifier was held.
    pub fn alt_key(&self) -> (r: bool)
        ensures
            r == self.spec_modifiers().0,
    {
        self.alt_key
    }

    /// Returns whether the ctrl modifier was held.
    pub fn ctrl_key(&self) -> (r: bool)
        ensures
            r == self.spec_modifiers().1,
    {
        self.ctrl_key
    }

    /// Returns whether the meta modifier was held.
    pub fn meta_key(&self) -> (r: bool)
        ensures
            r == self.spec_modifiers().2,
    {
        self.meta_key
    }

    /// Returns whether the shift modifier was held.
    pub fn shift_key(&self) -> (r: bool)
        ensures
            r == self.spec_modifiers().3,
    {
        self.shift_key
    }
}

/// A fully synthesized keyboard interaction: the common header plus the
/// physical key involved.
#[derive(Debug, PartialEq, Eq, Copy, Clone, Structural)]
pub struct KeyEvent {
    pub base: BaseEvent,
    pub code: KeyCode,
}

impl KeyEvent {
    /// The common header of this event.
    pub open spec fn spec_base(self) -> BaseEvent {
        self.base
    }

    /// The physical key of this event.
    pub open spec fn spec_code(self) -> KeyCode {
        self.code
    }

    /// Wraps a header and a key code into a key event.
    pub fn new(base: BaseEvent, code: KeyCode) -> (r: KeyEvent)
        ensures
            r.spec_base() == base,
            r.spec_code() == code,
    {
        KeyEvent { base, code }
    }

    /// Promotes this key event to the generic event union.
    pub fn into_generic(self) -> (r: Event)
        ensures
            r == Event::KeyEvent(self),
    {
        Event::KeyEvent(self)
    }

    /// Returns the event kind.
    pub fn ty(&self) -> (r: EventKind)
        ensures
            r == self.spec_base().spec_ty(),
    {
        self.base.ty()
    }

    /// Returns the target handle.
    pub fn target(&self) -> (r: TargetHandle)
        ensures
            r == self.spec_base().spec_target(),
    {
        self.base.target()
    }

    /// Returns whether the alt modifier was held.
    pub fn alt_key(&self) -> (r: bool)
        ensures
            r == self.spec_base().spec_modifiers().0,
    {
        self.base.alt_key()
    }

    /// Returns whether the ctrl modifier was held.
    pub fn ctrl_key(&self) -> (r: bool)
        ensures
            r == self.spec_base().spec_modifiers().1,
    {
        self.base.ctrl_key()
    }

    /// Returns whether the meta modifier was held.
    pub fn meta_key(&self) -> (r: bool)
        ensures
            r == self.spec_base().spec_modifiers().2,
    {
        self.base.meta_key()
    }

    /// Returns whether the shift modifier was held.
    pub fn shift_key(&self) -> (r: bool)
        ensures
            r == self.spec_base().spec_modifiers().3,
    {
        self.base.shift_key()
    }

    /// Returns the physical key.
    pub fn code(&self) -> (r: KeyCode)
        ensures
            r == self.spec_code(),
    {
        self.code
    }

    /// The textual key value is a capability this engine does not
    /// provide: the answer is always `NotSupported`, never a
    /// plausible-looking fabricated string.
    pub fn key(&self) -> (r: Result<String, AccessError>)
        ensures
            r == Result::<String, AccessError>::Err(AccessError::NotSupported),
    {
        Err(AccessError::NotSupported)
    }

    /// Querying a modifier by name is a capability this engine does not
    /// provide: the answer is always `NotSupported`.
    pub fn get_modifier_state(&self) -> (r: Result<bool, AccessError>)
        ensures
            r == Result::<bool, AccessError>::Err(AccessError::NotSupported),
    {
        Err(AccessError::NotSupported)
    }

    /// Key-repeat detection is a capability this engine does not
    /// provide: the answer is always `NotSupported`.
    pub fn repeat(&self) -> (r: Result<bool, AccessError>)
        ensures
            r == Result::<bool, AccessError>::Err(AccessError::NotSupported),
    {
        Err(AccessError::NotSupported)
    }
}

/// A fully synthesized mouse interaction: the common header, the button
/// involved, and three page-anchored positions computed once at synthesis
/// time: page (absolute), client (viewport-relative) and offset
/// (target-relative).
#[derive(Debug, PartialEq, Eq, Copy, Clone, Structural)]
pub struct MouseEvent {
    pub base: BaseEvent,
    pub client_x: u32,
    pub client_y: u32,
    pub offset_x: u32,
    pub offset_y: u32,
    pub page_x: u32,
    pub page_y: u32,
    pub mouse_button: MouseButton,
}

impl MouseEvent {
    /// The common header of this event.
    pub open spec fn spec_base(self) -> BaseEvent {
        self.base
    }

    /// The button of this event.
    pub open spec fn spec_button(self) -> MouseButton {
        self.mouse_button
    }

    /// The absolute page position of this event.
    pub open spec fn spec_page_pos(self) -> (u32, u32) {
        (self.page_x, self.page_y)
    }

    /// The viewport-relative position of this event.
    pub open spec fn spec_client_pos(self) -> (u32, u32) {
        (self.client_x, self.client_y)
    }

    /// The target-relative position of this event.
    pub open spec fn spec_offset_pos(self) -> (u32, u32) {
        (self.offset_x, self.offset_y)
    }

    /// Wraps a header, a button and the three frozen positions into a mouse
    /// event.
    pub fn new(
        base: BaseEvent,
        mouse_button: MouseButton,
        mouse_pos: (u32, u32),
        client_pos: (u32, u32),
        offset_pos: (u32, u32),
    ) -> (r: MouseEvent)
        ensures
            r.spec_base() == base,
            r.spec_button() == mouse_button,
            r.spec_page_pos() == mouse_pos,
            r.spec_client_pos() == client_pos,
            r.spec_offset_pos() == offset_pos,
    {
        MouseEvent {
            base,
            mouse_button,
            page_x: mouse_pos.0,
            page_y: mouse_pos.1,
            client_x: client_pos.0,
            client_y: client_pos.1,
            offset_x: offset_pos.0,
            offset_y: offset_pos.1,
        }
    }

    /// Promotes this mouse event to the generic event union.
    pub fn into_generic(self) -> (r: Event)
        ensures
            r == Event::MouseEvent(self),
    {
        Event::MouseEvent(self)
    }

    /// Returns the event kind.
    pub fn ty(&self) -> (r: EventKind)
        ensures
            r == self.spec_base().spec_ty(),
    {
        self.base.ty()
    }

    /// Returns the target handle.
    pub fn target(&self) -> (r: TargetHandle)
        ensures
            r == self.spec_base().spec_target(),
    {
        self.base.target()
    }

    /// Returns whether the alt modifier was held.
    pub fn alt_key(&self) -> (r: bool)
        ensures
            r == self.spec_base().spec_modifiers().0,
    {
        self.base.alt_key()
    }

    /// Returns whether the ctrl modifier was held.
    pub fn ctrl_key(&self) -> (r: bool)
        ensures
            r == self.spec_base().spec_modifiers().1,
    {
        self.base.ctrl_key()
    }

    /// Returns whether the meta modifier was held.
    pub fn meta_key(&self) -> (r: bool)
        ensures
            r == self.spec_base().spec_modifiers().2,
    {
        self.base.meta_key()
    }

    /// Returns whether the shift modifier was held.
    pub fn shift_key(&self) -> (r: bool)
        ensures
            r == self.spec_base().spec_modifiers().3,
    {
        self.base.shift_key()
    }

    /// Returns the button.
    pub fn button(&self) -> (r: MouseButton)
        ensures
            r == self.spec_button(),
    {
        self.mouse_button
    }

    /// Returns the viewport-relative x coordinate.
    pub fn client_x(&self) -> (r: u32)
        ensures
            r == self.spec_client_pos().0,
    {
        self.client_x
    }

    /// Returns the viewport-relative y coordinate.
    pub fn client_y(&self) -> (r: u32)
        ensures
            r == self.spec_client_pos().1,
    {
        self.client_y
    }

    /// Returns the target-relative x coordinate.
    pub fn offset_x(&self) -> (r: u32)
        ensures
            r == self.spec_offset_pos().0,
    {
        self.offset_x
    }

    /// Returns the target-relative y coordinate.
    pub fn offset_y(&self) -> (r: u32)
        ensures
            r == self.spec_offset_pos().1,
    {
        self.offset_y
    }

    /// Returns the absolute page x coordinate.
    pub fn page_x(&self) -> (r: u32)
        ensures
            r == self.spec_page_pos().0,
    {
        self.page_x
    }

    /// Returns the absolute page y coordinate.
    pub fn page_y(&self) -> (r: u32)
        ensures
            r == self.spec_page_pos().1,
    {
        self.page_y
    }
}

/// Tagged union over the two concrete event shapes. Accessors meaningful
/// for both variants delegate to the embedded header; accessors meaningful
/// for only one variant answer with a named `AccessError` on the other,
/// never with an abort.
#[derive(Debug, PartialEq, Eq, Copy, Clone, Structural)]
pub enum Event {
    KeyEvent(KeyEvent),
    MouseEvent(MouseEvent),
}

impl Event {
    /// The common header of whichever variant this event is.
    pub open spec fn spec_base(self) -> BaseEvent {
        match self {
            Event::KeyEvent(event) => event.spec_base(),
            Event::MouseEvent(event) => event.spec_base(),
        }
    }

    /// Returns the event kind; valid for both variants.
    pub fn ty(&self) -> (r: EventKind)
        ensures
            r == self.spec_base().spec_ty(),
    {
        match self {
            Event::KeyEvent(event) => event.ty(),
            Event::MouseEvent(event) => event.ty(),
        }
    }

    /// Returns the target handle; valid for both variants.
    pub fn target(&self) -> (r: TargetHandle)
        ensures
            r == self.spec_base().spec_target(),
    {
        match self {
            Event::KeyEvent(event) => event.target(),
            Event::MouseEvent(event) => event.target(),
        }
    }

    /// Returns whether the alt modifier was held; valid for both variants.
    pub fn alt_key(&self) -> (r: bool)
        ensures
            r == self.spec_base().spec_modifiers().0,
    {
        match self {
            Event::KeyEvent(event) => event.alt_key(),
            Event::MouseEvent(event) => event.alt_key(),
        }
    }

    /// Returns whether the ctrl modifier was held; valid for both variants.
    pub fn ctrl_key(&self) -> (r: bool)
        ensures
            r == self.spec_base().spec_modifiers().1,
    {
        match self {
            Event::KeyEvent(event) => event.ctrl_key(),
            Event::MouseEvent(event) => event.ctrl_key(),
        }
    }

    /// Returns whether the meta modifier was held; valid for both variants.
    pub fn meta_key(&self) -> (r: bool)
        ensures
            r == self.spec_base().spec_modifiers().2,
    {
        match self {
            Event::KeyEvent(event) => event.meta_key(),
            Event::MouseEvent(event) => event.meta_key(),
        }
    }

    /// Returns whether the shift modifier was held; valid for both
    /// variants.
    pub fn shift_key(&self) -> (r: bool)
        ensures
            r == self.spec_base().spec_modifiers().3,
    {
        match self {
            Event::KeyEvent(event) => event.shift_key(),
            Event::MouseEvent(event) => event.shift_key(),
        }
    }

    /// Returns the physical key: `Ok` exactly on the key variant, and
    /// `NotAKeyEvent` on the mouse variant.
    pub fn code(&self) -> (r: Result<KeyCode, AccessError>)
        ensures
            r == match *self {
                Event::KeyEvent(event) => Result::<KeyCode, AccessError>::Ok(event.spec_code()),
                Event::MouseEvent(_) => Result::<KeyCode, AccessError>::Err(
                    AccessError::NotAKeyEvent,
                ),
            },
    {
        match self {
            Event::KeyEvent(event) => Ok(event.code()),
            Event::MouseEvent(_) => Err(AccessError::NotAKeyEvent),
        }
    }

    /// The textual key value is a capability this engine does not provide:
    /// the key variant answers `NotSupported`, the mouse variant
    /// `NotAKeyEvent`. It never fabricates a plausible-looking string.
    pub fn key(&self) -> (r: Result<String, AccessError>)
        ensures
            r == match *self {
                Event::KeyEvent(_) => Result::<String, AccessError>::Err(AccessError::NotSupported),
                Event::MouseEvent(_) => Result::<String, AccessError>::Err(
                    AccessError::NotAKeyEvent,
                ),
            },
    {
        match self {
            Event::KeyEvent(event) => event.key(),
            Event::MouseEvent(_) => Err(AccessError::NotAKeyEvent),
        }
    }

    /// Querying a modifier by name is a capability this engine does not
    /// provide: the key variant answers `NotSupported`, the mouse variant
    /// `NotAKeyEvent`.
    pub fn get_modifier_state(&self) -> (r: Result<bool, AccessError>)
        ensures
            r == match *self {
                Event::KeyEvent(_) => Result::<bool, AccessError>::Err(AccessError::NotSupported),
                Event::MouseEvent(_) => Result::<bool, AccessError>::Err(AccessError::NotAKeyEvent),
            },
    {
        match self {
            Event::KeyEvent(event) => event.get_modifier_state(),
            Event::MouseEvent(_) => Err(AccessError::NotAKeyEvent),
        }
    }

    /// Key-repeat detection is a capability this engine does not provide:
    /// the key variant answers `NotSupported`, the mouse variant
    /// `NotAKeyEvent`.
    pub fn repeat(&self) -> (r: Result<bool, AccessError>)
        ensures
            r == match *self {
                Event::KeyEvent(_) => Result::<bool, AccessError>::Err(AccessError::NotSupported),
                Event::MouseEvent(_) => Result::<bool, AccessError>::Err(AccessError::NotAKeyEvent),
            },
    {
        match self {
            Event::KeyEvent(event) => event.repeat(),
            Event::MouseEvent(_) => Err(AccessError::NotAKeyEvent),
        }
    }

    /// Returns the button: `Ok` exactly on the mouse variant, and
    /// `NotAMouseEvent` on the key variant.
    pub fn button(&self) -> (r: Result<MouseButton, AccessError>)
        ensures
            r == match *self {
                Event::KeyEvent(_) => Result::<MouseButton, AccessError>::Err(
                    AccessError::NotAMouseEvent,
                ),
                Event::MouseEvent(event) => Result::<MouseButton, AccessError>::Ok(
                    event.spec_button(),
                ),
            },
    {
        match self {
            Event::KeyEvent(_) => Err(AccessError::NotAMouseEvent),
            Event::MouseEvent(event) => Ok(event.button()),
        }
    }

    /// Returns the viewport-relative x coordinate: `Ok` exactly on the
    /// mouse variant.
    pub fn client_x(&self) -> (r: Result<u32, AccessError>)
        ensures
            r == match *self {
                Event::KeyEvent(_) => Result::<u32, AccessError>::Err(AccessError::NotAMouseEvent),
                Event::MouseEvent(event) => Result::<u32, AccessError>::Ok(
                    event.spec_client_pos().0,
                ),
            },
    {
        match self {
            Event::KeyEvent(_) => Err(AccessError::NotAMouseEvent),
            Event::MouseEvent(event) => Ok(event.client_x()),
        }
    }

    /// Returns the viewport-relative y coordinate: `Ok` exactly on the
    /// mouse variant.
    pub fn client_y(&self) -> (r: Result<u32, AccessError>)
        ensures
            r == match *self {
                Event::KeyEvent(_) => Result::<u32, AccessError>::Err(AccessError::NotAMouseEvent),
                Event::MouseEvent(event) => Result::<u32, AccessError>::Ok(
                    event.spec_client_pos().1,
                ),
            },
    {
        match self {
            Event::KeyEvent(_) => Err(AccessError::NotAMouseEvent),
            Event::MouseEvent(event) => Ok(event.client_y()),
        }
    }

    /// Returns the target-relative x coordinate: `Ok` exactly on the mouse
    /// variant.
    pub fn offset_x(&self) -> (r: Result<u32, AccessError>)
        ensures
            r == match *self {
                Event::KeyEvent(_) => Result::<u32, AccessError>::Err(AccessError::NotAMouseEvent),
                Event::MouseEvent(event) => Result::<u32, AccessError>::Ok(
                    event.spec_offset_pos().0,
                ),
            },
    {
        match self {
            Event::KeyEvent(_) => Err(AccessError::NotAMouseEvent),
            Event::MouseEvent(event) => Ok(event.offset_x()),
        }
    }

    /// Returns the target-relative y coordinate: `Ok` exactly on the mouse
    /// variant.
    pub fn offset_y(&self) -> (r: Result<u32, AccessError>)
        ensures
            r == match *self {
                Event::KeyEvent(_) => Result::<u32, AccessError>::Err(AccessError::NotAMouseEvent),
                Event::MouseEvent(event) => Result::<u32, AccessError>::Ok(
                    event.spec_offset_pos().1,
                ),
            },
    {
        match self {
            Event::KeyEvent(_) => Err(AccessError::NotAMouseEvent),
            Event::MouseEvent(event) => Ok(event.offset_y()),
        }
    }

    /// Returns the absolute page x coordinate: `Ok` exactly on the mouse
    /// variant.
    pub fn page_x(&self) -> (r: Result<u32, AccessError>)
        ensures
            r == match *self {
                Event::KeyEvent(_) => Result::<u32, AccessError>::Err(AccessError::NotAMouseEvent),
                Event::MouseEvent(event) => Result::<u32, AccessError>::Ok(event.spec_page_pos().0),
            },
    {
        match self {
            Event::KeyEvent(_) => Err(AccessError::NotAMouseEvent),
            Event::MouseEvent(event) => Ok(event.page_x()),
        }
    }

    /// Returns the absolute page y coordinate: `Ok` exactly on the mouse
    /// variant.
    pub fn page_y(&self) -> (r: Result<u32, AccessError>)
        ensures
            r == match *self {
                Event::KeyEvent(_) => Result::<u32, AccessError>::Err(AccessError::NotAMouseEvent),
                Event::MouseEvent(event) => Result::<u32, AccessError>::Ok(event.spec_page_pos().1),
            },
    {
        match self {
            Event::KeyEvent(_) => Err(AccessError::NotAMouseEvent),
            Event::MouseEvent(event) => Ok(event.page_y()),
        }
    }
}

} // verus!
