//! The events that a test can fire: for each, its name, the kind of event
//! that it is, and what it is like where the caller does not say.
use vstd::prelude::*;

verus! {

/// The interface of an event.
#[derive(Clone, Copy, Debug, PartialEq, Eq, Structural)]
pub enum EventInterface {
    AnimationEvent,
    ClipboardEvent,
    CompositionEvent,
    DragEvent,
    Event,
    FocusEvent,
    InputEvent,
    KeyboardEvent,
    MouseEvent,
    PageTransitionEvent,
    PointerEvent,
    PopStateEvent,
    ProgressEvent,
    TouchEvent,
    TransitionEvent,
    UiEvent,
    WheelEvent,
}

/// What is set of an event when it is made. A field left `None` is for the
/// host to decide.
#[derive(Clone, Copy, Debug, PartialEq, Eq, Structural)]
pub struct EventInit {
    pub bubbles: Option<bool>,
    pub cancelable: Option<bool>,
    pub composed: Option<bool>,
    pub char_code: Option<u32>,
    pub button: Option<i16>,
}

impl EventInit {
    /// Nothing set.
    pub fn new() -> (r: EventInit)
        ensures
            r == (EventInit {
                bubbles: None,
                cancelable: None,
                composed: None,
                char_code: None,
                button: None,
            }),
    {
        EventInit { bubbles: None, cancelable: None, composed: None, char_code: None, button: None }
    }
}

/// The events.
#[derive(Clone, Copy, Debug, PartialEq, Eq, Structural)]
pub enum EventKind {
    Copy,
    Cut,
    Paste,
    CompositionEnd,
    CompositionStart,
    CompositionUpdate,
    KeyDown,
    KeyPress,
    KeyUp,
    Focus,
    Blur,
    FocusIn,
    FocusOut,
    Change,
    Input,
    Invalid,
    Submit,
    Reset,
    Click,
    ContextMenu,
    DblClick,
    Drag,
    DragEnd,
    DragEnter,
    DragExit,
    DragLeave,
    DragOver,
    DragStart,
    Drop,
    MouseDown,
    MouseEnter,
    MouseLeave,
    MouseMove,
    MouseOut,
    MouseOver,
    MouseUp,
    Select,
    TouchCancel,
    TouchEnd,
    TouchMove,
    TouchStart,
    Resize,
    Scroll,
    Wheel,
    Abort,
    CanPlay,
    CanPlayThrough,
    DurationChange,
    Emptied,
    Encrypted,
    Ended,
    LoadedData,
    LoadedMetadata,
    LoadStart,
    Pause,
    Play,
    Playing,
    Progress,
    RateChange,
    Seeked,
    Seeking,
    Stalled,
    Suspend,
    TimeUpdate,
    VolumeChange,
    Waiting,
    Load,
    Error,
    AnimationStart,
    AnimationEnd,
    AnimationIteration,
    TransitionCancel,
    TransitionEnd,
    TransitionRun,
    TransitionStart,
    PointerOver,
    PointerEnter,
    PointerDown,
    PointerMove,
    PointerUp,
    PointerCancel,
    PointerOut,
    PointerLeave,
    GotPointerCapture,
    LostPointerCapture,
    PopState,
    Offline,
    Online,
    PageHide,
    PageShow,
}

/// The first value where there is one, else the second.
pub open spec fn or_else<T>(first: Option<T>, second: Option<T>) -> Option<T> {
    match first {
        Some(value) => Some(value),
        None => second,
    }
}

fn first_of<T>(first: Option<T>, second: Option<T>) -> (r: Option<T>)
    ensures
        r == or_else(first, second),
{
    match first {
        Some(value) => Some(value),
        None => second,
    }
}

impl EventKind {
    /// The name that the host knows the event by.
    pub open spec fn name_of(self) -> Seq<char> {
        match self {
            EventKind::Copy => "copy"@,
            EventKind::Cut => "cut"@,
            EventKind::Paste => "paste"@,
            EventKind::CompositionEnd => "compositionend"@,
            EventKind::CompositionStart => "compositionstart"@,
            EventKind::CompositionUpdate => "compositionupdate"@,
            EventKind::KeyDown => "keydown"@,
            EventKind::KeyPress => "keypress"@,
            EventKind::KeyUp => "keyup"@,
            EventKind::Focus => "focus"@,
            EventKind::Blur => "blur"@,
            EventKind::FocusIn => "focusin"@,
            EventKind::FocusOut => "focusout"@,
            EventKind::Change => "change"@,
            EventKind::Input => "input"@,
            EventKind::Invalid => "invalid"@,
            EventKind::Submit => "submit"@,
            EventKind::Reset => "reset"@,
            EventKind::Click => "click"@,
            EventKind::ContextMenu => "contextmenu"@,
            EventKind::DblClick => "dblclick"@,
            EventKind::Drag => "drag"@,
            EventKind::DragEnd => "dragend"@,
            EventKind::DragEnter => "dragenter"@,
            EventKind::DragExit => "dragexit"@,
            EventKind::DragLeave => "dragleave"@,
            EventKind::DragOver => "dragover"@,
            EventKind::DragStart => "dragstart"@,
            EventKind::Drop => "drop"@,
            EventKind::MouseDown => "mousedown"@,
            EventKind::MouseEnter => "mouseenter"@,
            EventKind::MouseLeave => "mouseleave"@,
            EventKind::MouseMove => "mousemove"@,
            EventKind::MouseOut => "mouseout"@,
            EventKind::MouseOver => "mouseover"@,
            EventKind::MouseUp => "mouseup"@,
            EventKind::Select => "select"@,
            EventKind::TouchCancel => "touchcancel"@,
            EventKind::TouchEnd => "touchend"@,
            EventKind::TouchMove => "touchmove"@,
            EventKind::TouchStart => "touchstart"@,
            EventKind::Resize => "resize"@,
            EventKind::Scroll => "scroll"@,
            EventKind::Wheel => "wheel"@,
            EventKind::Abort => "abort"@,
            EventKind::CanPlay => "canplay"@,
            EventKind::CanPlayThrough => "canplaythrough"@,
            EventKind::DurationChange => "durationchange"@,
            EventKind::Emptied => "emptied"@,
            EventKind::Encrypted => "encrypted"@,
            EventKind::Ended => "ended"@,
            EventKind::LoadedData => "loadeddata"@,
            EventKind::LoadedMetadata => "loadedmetadata"@,
            EventKind::LoadStart => "loadstart"@,
            EventKind::Pause => "pause"@,
            EventKind::Play => "play"@,
            EventKind::Playing => "playing"@,
            EventKind::Progress => "progress"@,
            EventKind::RateChange => "ratechange"@,
            EventKind::Seeked => "seeked"@,
            EventKind::Seeking => "seeking"@,
            EventKind::Stalled => "stalled"@,
            EventKind::Suspend => "suspend"@,
            EventKind::TimeUpdate => "timeupdate"@,
            EventKind::VolumeChange => "volumechange"@,
            EventKind::Waiting => "waiting"@,
            EventKind::Load => "load"@,
            EventKind::Error => "error"@,
            EventKind::AnimationStart => "animationstart"@,
            EventKind::AnimationEnd => "animationend"@,
            EventKind::AnimationIteration => "animationiteration"@,
            EventKind::TransitionCancel => "transitioncancel"@,
            EventKind::TransitionEnd => "transitionend"@,
            EventKind::TransitionRun => "transitionrun"@,
            EventKind::TransitionStart => "transitionstart"@,
            EventKind::PointerOver => "pointerover"@,
            EventKind::PointerEnter => "pointerenter"@,
            EventKind::PointerDown => "pointerdown"@,
            EventKind::PointerMove => "pointermove"@,
            EventKind::PointerUp => "pointerup"@,
            EventKind::PointerCancel => "pointercancel"@,
            EventKind::PointerOut => "pointerout"@,
            EventKind::PointerLeave => "pointerleave"@,
            EventKind::GotPointerCapture => "gotpointercapture"@,
            EventKind::LostPointerCapture => "lostpointercapture"@,
            EventKind::PopState => "popstate"@,
            EventKind::Offline => "offline"@,
            EventKind::Online => "online"@,
            EventKind::PageHide => "pagehide"@,
            EventKind::PageShow => "pageshow"@,
        }
    }

    /// The name that the host knows the event by.
    pub fn name(&self) -> (name: &'static str)
        ensures
            name@ == self.name_of(),
    {
        match self {
            EventKind::Copy => "copy",
            EventKind::Cut => "cut",
            EventKind::Paste => "paste",
            EventKind::CompositionEnd => "compositionend",
            EventKind::CompositionStart => "compositionstart",
            EventKind::CompositionUpdate => "compositionupdate",
            EventKind::KeyDown => "keydown",
            EventKind::KeyPress => "keypress",
            EventKind::KeyUp => "keyup",
            EventKind::Focus => "focus",
            EventKind::Blur => "blur",
            EventKind::FocusIn => "focusin",
            EventKind::FocusOut => "focusout",
            EventKind::Change => "change",
            EventKind::Input => "input",
            EventKind::Invalid => "invalid",
            EventKind::Submit => "submit",
            EventKind::Reset => "reset",
            EventKind::Click => "click",
            EventKind::ContextMenu => "contextmenu",
            EventKind::DblClick => "dblclick",
            EventKind::Drag => "drag",
            EventKind::DragEnd => "dragend",
            EventKind::DragEnter => "dragenter",
            EventKind::DragExit => "dragexit",
            EventKind::DragLeave => "dragleave",
            EventKind::DragOver => "dragover",
            EventKind::DragStart => "dragstart",
            EventKind::Drop => "drop",
            EventKind::MouseDown => "mousedown",
            EventKind::MouseEnter => "mouseenter",
            EventKind::MouseLeave => "mouseleave",
            EventKind::MouseMove => "mousemove",
            EventKind::MouseOut => "mouseout",
            EventKind::MouseOver => "mouseover",
            EventKind::MouseUp => "mouseup",
            EventKind::Select => "select",
            EventKind::TouchCancel => "touchcancel",
            EventKind::TouchEnd => "touchend",
            EventKind::TouchMove => "touchmove",
            EventKind::TouchStart => "touchstart",
            EventKind::Resize => "resize",
            EventKind::Scroll => "scroll",
            EventKind::Wheel => "wheel",
            EventKind::Abort => "abort",
            EventKind::CanPlay => "canplay",
            EventKind::CanPlayThrough => "canplaythrough",
            EventKind::DurationChange => "durationchange",
            EventKind::Emptied => "emptied",
            EventKind::Encrypted => "encrypted",
            EventKind::Ended => "ended",
            EventKind::LoadedData => "loadeddata",
            EventKind::LoadedMetadata => "loadedmetadata",
            EventKind::LoadStart => "loadstart",
            EventKind::Pause => "pause",
            EventKind::Play => "play",
            EventKind::Playing => "playing",
            EventKind::Progress => "progress",
            EventKind::RateChange => "ratechange",
            EventKind::Seeked => "seeked",
            EventKind::Seeking => "seeking",
            EventKind::Stalled => "stalled",
            EventKind::Suspend => "suspend",
            EventKind::TimeUpdate => "timeupdate",
            EventKind::VolumeChange => "volumechange",
            EventKind::Waiting => "waiting",
            EventKind::Load => "load",
            EventKind::Error => "error",
            EventKind::AnimationStart => "animationstart",
            EventKind::AnimationEnd => "animationend",
            EventKind::AnimationIteration => "animationiteration",
            EventKind::TransitionCancel => "transitioncancel",
            EventKind::TransitionEnd => "transitionend",
            EventKind::TransitionRun => "transitionrun",
            EventKind::TransitionStart => "transitionstart",
            EventKind::PointerOver => "pointerover",
            EventKind::PointerEnter => "pointerenter",
            EventKind::PointerDown => "pointerdown",
            EventKind::PointerMove => "pointermove",
            EventKind::PointerUp => "pointerup",
            EventKind::PointerCancel => "pointercancel",
            EventKind::PointerOut => "pointerout",
            EventKind::PointerLeave => "pointerleave",
            EventKind::GotPointerCapture => "gotpointercapture",
            EventKind::LostPointerCapture => "lostpointercapture",
            EventKind::PopState => "popstate",
            EventKind::Offline => "offline",
            EventKind::Online => "online",
            EventKind::PageHide => "pagehide",
            EventKind::PageShow => "pageshow",
        }
    }

    /// The interface that the event is made with.
    pub open spec fn interface_of(self) -> EventInterface {
        match self {
            EventKind::AnimationStart | EventKind::AnimationEnd | EventKind::AnimationIteration => EventInterface::AnimationEvent,
            EventKind::Copy | EventKind::Cut | EventKind::Paste => EventInterface::ClipboardEvent,
            EventKind::CompositionEnd | EventKind::CompositionStart | EventKind::CompositionUpdate => EventInterface::CompositionEvent,
            EventKind::Drag | EventKind::DragEnd | EventKind::DragEnter | EventKind::DragExit | EventKind::DragLeave | EventKind::DragOver | EventKind::DragStart | EventKind::Drop => EventInterface::DragEvent,
            EventKind::Focus | EventKind::Blur | EventKind::FocusIn | EventKind::FocusOut => EventInterface::FocusEvent,
            EventKind::Input => EventInterface::InputEvent,
            EventKind::KeyDown | EventKind::KeyPress | EventKind::KeyUp => EventInterface::KeyboardEvent,
            EventKind::Click | EventKind::ContextMenu | EventKind::DblClick | EventKind::MouseDown | EventKind::MouseEnter | EventKind::MouseLeave | EventKind::MouseMove | EventKind::MouseOut | EventKind::MouseOver | EventKind::MouseUp => EventInterface::MouseEvent,
            EventKind::PageHide | EventKind::PageShow => EventInterface::PageTransitionEvent,
            EventKind::PointerOver | EventKind::PointerEnter | EventKind::PointerDown | EventKind::PointerMove | EventKind::PointerUp | EventKind::PointerCancel | EventKind::PointerOut | EventKind::PointerLeave | EventKind::GotPointerCapture | EventKind::LostPointerCapture => EventInterface::PointerEvent,
            EventKind::PopState => EventInterface::PopStateEvent,
            EventKind::LoadStart | EventKind::Progress => EventInterface::ProgressEvent,
            EventKind::TouchCancel | EventKind::TouchEnd | EventKind::TouchMove | EventKind::TouchStart => EventInterface::TouchEvent,
            EventKind::TransitionCancel | EventKind::TransitionEnd | EventKind::TransitionRun | EventKind::TransitionStart => EventInterface::TransitionEvent,
            EventKind::Resize | EventKind::Scroll => EventInterface::UiEvent,
            EventKind::Wheel => EventInterface::WheelEvent,
            _ => EventInterface::Event,
        }
    }

    /// The interface that the event is made with.
    pub fn interface(&self) -> (r: EventInterface)
        ensures
            r == self.interface_of(),
    {
        match self {
            EventKind::AnimationStart | EventKind::AnimationEnd | EventKind::AnimationIteration => EventInterface::AnimationEvent,
            EventKind::Copy | EventKind::Cut | EventKind::Paste => EventInterface::ClipboardEvent,
            EventKind::CompositionEnd | EventKind::CompositionStart | EventKind::CompositionUpdate => EventInterface::CompositionEvent,
            EventKind::Drag | EventKind::DragEnd | EventKind::DragEnter | EventKind::DragExit | EventKind::DragLeave | EventKind::DragOver | EventKind::DragStart | EventKind::Drop => EventInterface::DragEvent,
            EventKind::Focus | EventKind::Blur | EventKind::FocusIn | EventKind::FocusOut => EventInterface::FocusEvent,
            EventKind::Input => EventInterface::InputEvent,
            EventKind::KeyDown | EventKind::KeyPress | EventKind::KeyUp => EventInterface::KeyboardEvent,
            EventKind::Click | EventKind::ContextMenu | EventKind::DblClick | EventKind::MouseDown | EventKind::MouseEnter | EventKind::MouseLeave | EventKind::MouseMove | EventKind::MouseOut | EventKind::MouseOver | EventKind::MouseUp => EventInterface::MouseEvent,
            EventKind::PageHide | EventKind::PageShow => EventInterface::PageTransitionEvent,
            EventKind::PointerOver | EventKind::PointerEnter | EventKind::PointerDown | EventKind::PointerMove | EventKind::PointerUp | EventKind::PointerCancel | EventKind::PointerOut | EventKind::PointerLeave | EventKind::GotPointerCapture | EventKind::LostPointerCapture => EventInterface::PointerEvent,
            EventKind::PopState => EventInterface::PopStateEvent,
            EventKind::LoadStart | EventKind::Progress => EventInterface::ProgressEvent,
            EventKind::TouchCancel | EventKind::TouchEnd | EventKind::TouchMove | EventKind::TouchStart => EventInterface::TouchEvent,
            EventKind::TransitionCancel | EventKind::TransitionEnd | EventKind::TransitionRun | EventKind::TransitionStart => EventInterface::TransitionEvent,
            EventKind::Resize | EventKind::Scroll => EventInterface::UiEvent,
            EventKind::Wheel => EventInterface::WheelEvent,
            _ => EventInterface::Event,
        }
    }

    /// What the event is like where the caller does not say.
    pub open spec fn defaults(self) -> EventInit {
        match self {
            EventKind::Copy | EventKind::Cut | EventKind::Paste | EventKind::CompositionEnd | EventKind::CompositionStart | EventKind::CompositionUpdate | EventKind::ContextMenu | EventKind::DblClick | EventKind::Drag | EventKind::DragEnter | EventKind::DragOver | EventKind::DragStart | EventKind::Drop | EventKind::MouseDown | EventKind::MouseMove | EventKind::MouseOut | EventKind::MouseOver | EventKind::MouseUp | EventKind::TouchEnd | EventKind::TouchMove | EventKind::TouchStart | EventKind::Wheel | EventKind::PointerOver | EventKind::PointerDown | EventKind::PointerMove | EventKind::PointerUp | EventKind::PointerOut => EventInit { bubbles: Some(true), cancelable: Some(true), composed: Some(true), char_code: None, button: None },
            EventKind::KeyDown | EventKind::KeyPress | EventKind::KeyUp => EventInit { bubbles: Some(true), cancelable: Some(true), composed: Some(true), char_code: Some(0u32), button: None },
            EventKind::Focus | EventKind::Blur | EventKind::MouseEnter | EventKind::MouseLeave => EventInit { bubbles: Some(false), cancelable: Some(false), composed: Some(true), char_code: None, button: None },
            EventKind::FocusIn | EventKind::FocusOut | EventKind::Input | EventKind::DragEnd | EventKind::DragExit | EventKind::DragLeave | EventKind::TouchCancel | EventKind::PointerCancel | EventKind::GotPointerCapture | EventKind::LostPointerCapture => EventInit { bubbles: Some(true), cancelable: Some(false), composed: Some(true), char_code: None, button: None },
            EventKind::Change | EventKind::Select | EventKind::AnimationStart | EventKind::AnimationEnd | EventKind::AnimationIteration | EventKind::TransitionCancel | EventKind::TransitionRun | EventKind::TransitionStart | EventKind::PopState => EventInit { bubbles: Some(true), cancelable: Some(false), composed: None, char_code: None, button: None },
            EventKind::Invalid => EventInit { bubbles: Some(false), cancelable: Some(true), composed: None, char_code: None, button: None },
            EventKind::Submit | EventKind::Reset | EventKind::TransitionEnd | EventKind::PageHide | EventKind::PageShow => EventInit { bubbles: Some(true), cancelable: Some(true), composed: None, char_code: None, button: None },
            EventKind::Click => EventInit { bubbles: Some(true), cancelable: Some(true), composed: Some(true), char_code: None, button: Some(0i16) },
            EventKind::Resize | EventKind::Scroll | EventKind::Abort | EventKind::CanPlay | EventKind::CanPlayThrough | EventKind::DurationChange | EventKind::Emptied | EventKind::Encrypted | EventKind::Ended | EventKind::LoadedData | EventKind::LoadedMetadata | EventKind::LoadStart | EventKind::Pause | EventKind::Play | EventKind::Playing | EventKind::Progress | EventKind::RateChange | EventKind::Seeked | EventKind::Seeking | EventKind::Stalled | EventKind::Suspend | EventKind::TimeUpdate | EventKind::VolumeChange | EventKind::Waiting | EventKind::Load | EventKind::Error | EventKind::PointerEnter | EventKind::PointerLeave | EventKind::Offline | EventKind::Online => EventInit { bubbles: Some(false), cancelable: Some(false), composed: None, char_code: None, button: None },
        }
    }

    /// What the event is like where the caller does not say.
    pub fn get_defaults(&self) -> (r: EventInit)
        ensures
            r == self.defaults(),
    {
        match self {
            EventKind::Copy | EventKind::Cut | EventKind::Paste | EventKind::CompositionEnd | EventKind::CompositionStart | EventKind::CompositionUpdate | EventKind::ContextMenu | EventKind::DblClick | EventKind::Drag | EventKind::DragEnter | EventKind::DragOver | EventKind::DragStart | EventKind::Drop | EventKind::MouseDown | EventKind::MouseMove | EventKind::MouseOut | EventKind::MouseOver | EventKind::MouseUp | EventKind::TouchEnd | EventKind::TouchMove | EventKind::TouchStart | EventKind::Wheel | EventKind::PointerOver | EventKind::PointerDown | EventKind::PointerMove | EventKind::PointerUp | EventKind::PointerOut => EventInit { bubbles: Some(true), cancelable: Some(true), composed: Some(true), char_code: None, button: None },
            EventKind::KeyDown | EventKind::KeyPress | EventKind::KeyUp => EventInit { bubbles: Some(true), cancelable: Some(true), composed: Some(true), char_code: Some(0u32), button: None },
            EventKind::Focus | EventKind::Blur | EventKind::MouseEnter | EventKind::MouseLeave => EventInit { bubbles: Some(false), cancelable: Some(false), composed: Some(true), char_code: None, button: None },
            EventKind::FocusIn | EventKind::FocusOut | EventKind::Input | EventKind::DragEnd | EventKind::DragExit | EventKind::DragLeave | EventKind::TouchCancel | EventKind::PointerCancel | EventKind::GotPointerCapture | EventKind::LostPointerCapture => EventInit { bubbles: Some(true), cancelable: Some(false), composed: Some(true), char_code: None, button: None },
            EventKind::Change | EventKind::Select | EventKind::AnimationStart | EventKind::AnimationEnd | EventKind::AnimationIteration | EventKind::TransitionCancel | EventKind::TransitionRun | EventKind::TransitionStart | EventKind::PopState => EventInit { bubbles: Some(true), cancelable: Some(false), composed: None, char_code: None, button: None },
            EventKind::Invalid => EventInit { bubbles: Some(false), cancelable: Some(true), composed: None, char_code: None, button: None },
            EventKind::Submit | EventKind::Reset | EventKind::TransitionEnd | EventKind::PageHide | EventKind::PageShow => EventInit { bubbles: Some(true), cancelable: Some(true), composed: None, char_code: None, button: None },
            EventKind::Click => EventInit { bubbles: Some(true), cancelable: Some(true), composed: Some(true), char_code: None, button: Some(0i16) },
            EventKind::Resize | EventKind::Scroll | EventKind::Abort | EventKind::CanPlay | EventKind::CanPlayThrough | EventKind::DurationChange | EventKind::Emptied | EventKind::Encrypted | EventKind::Ended | EventKind::LoadedData | EventKind::LoadedMetadata | EventKind::LoadStart | EventKind::Pause | EventKind::Play | EventKind::Playing | EventKind::Progress | EventKind::RateChange | EventKind::Seeked | EventKind::Seeking | EventKind::Stalled | EventKind::Suspend | EventKind::TimeUpdate | EventKind::VolumeChange | EventKind::Waiting | EventKind::Load | EventKind::Error | EventKind::PointerEnter | EventKind::PointerLeave | EventKind::Offline | EventKind::Online => EventInit { bubbles: Some(false), cancelable: Some(false), composed: None, char_code: None, button: None },
        }
    }

    /// The init with which the event is made: what the caller set stays, and
    /// every other field is as the event is by default.
    pub fn default_init(&self, init: EventInit) -> (r: EventInit)
        ensures
            r.bubbles == or_else(init.bubbles, self.defaults().bubbles),
            r.cancelable == or_else(init.cancelable, self.defaults().cancelable),
            r.composed == or_else(init.composed, self.defaults().composed),
            r.char_code == or_else(init.char_code, self.defaults().char_code),
            r.button == or_else(init.button, self.defaults().button),
    {
        let defaults = self.get_defaults();
        EventInit {
            bubbles: first_of(init.bubbles, defaults.bubbles),
            cancelable: first_of(init.cancelable, defaults.cancelable),
            composed: first_of(init.composed, defaults.composed),
            char_code: first_of(init.char_code, defaults.char_code),
            button: first_of(init.button, defaults.button),
        }
    }
}

/// An event as it is to be made: which event, and the init to make it with.
#[derive(Clone, Copy, Debug, PartialEq, Eq, Structural)]
pub struct EventDescription {
    pub kind: EventKind,
    pub init: EventInit,
}

/// What `create_event` returns: the event with the init that the caller gave,
/// or an empty one, filled up with the event's defaults.
pub open spec fn created(kind: EventKind, init: Option<EventInit>) -> EventDescription {
    let given = match init {
        Some(init) => init,
        None => EventInit {
            bubbles: None,
            cancelable: None,
            composed: None,
            char_code: None,
            button: None,
        },
    };
    EventDescription {
        kind,
        init: EventInit {
            bubbles: or_else(given.bubbles, kind.defaults().bubbles),
            cancelable: or_else(given.cancelable, kind.defaults().cancelable),
            composed: or_else(given.composed, kind.defaults().composed),
            char_code: or_else(given.char_code, kind.defaults().char_code),
            button: or_else(given.button, kind.defaults().button),
        },
    }
}

/// Describes an event: the host makes it from the description.
pub fn create_event(kind: EventKind, init: Option<EventInit>) -> (event: EventDescription)
    ensures
        event == created(kind, init),
{
    let given = match init {
        Some(init) => init,
        None => EventInit::new(),
    };
    EventDescription { kind, init: kind.default_init(given) }
}

/// Describes events by their names.
pub struct CreateEvent;

impl CreateEvent {
    /// Another name for the event `dblclick`.
    pub fn double_click() -> (event: EventDescription)
        ensures
            event == created(EventKind::DblClick, None),
    {
        create_event(EventKind::DblClick, None)
    }

    /// Another name for the event `dblclick`.
    pub fn double_click_with_init(init: EventInit) -> (event: EventDescription)
        ensures
            event == created(EventKind::DblClick, Some(init)),
    {
        create_event(EventKind::DblClick, Some(init))
    }
}

} // verus!
