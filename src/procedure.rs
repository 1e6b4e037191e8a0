//! The decisions of the window procedure: what to do with each native
//! message, given the handle it targets and whether a window state is
//! installed for that handle.

use crate::event::Event;
use vstd::prelude::*;

verus! {

/// The native messages that the window procedure tells apart.
#[derive(Debug, Clone, Copy, PartialEq, Eq, Structural)]
pub enum MessageKind {
    /// Sent before the window is created (`WM_NCCREATE`); carries the
    /// caller's window data.
    PreCreate,
    /// The window is being created (`WM_CREATE`).
    Create,
    /// The last message a window receives (`WM_NCDESTROY`).
    PostDestroy,
    /// A size query, which may come before `PreCreate` (`WM_GETMINMAXINFO`).
    SizeQuery,
    /// Any other message, by its native code.
    Other(u32),
}

/// What the window procedure does with a message. Every route ends by
/// forwarding the message to the default native handling, but `Desync`.
#[derive(Debug, Clone, Copy, PartialEq, Eq, Structural)]
pub enum Route {
    /// The handle is null or names no window: forward only.
    Reject,
    /// Build the window state, install it in the handle's slot, forward.
    Install,
    /// Clear the slot, drop the window state, count one window less, forward.
    TearDown,
    /// No state yet, and the message may legitimately come that early:
    /// forward only.
    Early,
    /// Open a dispatch scope, push the event if there is one, release the
    /// scope, forward.
    Dispatch(Option<Event>),
    /// The native layer and the window's state disagree: a fatal bug.
    Desync,
}

/// The event that a message means, if any.
pub fn translate(kind: MessageKind) -> (r: Option<Event>)
    ensures
        r == translate_spec(kind),
{
    match kind {
        MessageKind::Create => Some(Event::Created),
        _ => None,
    }
}

/// Decide what to do with a message sent to `handle`.
///
/// `is_window` says whether the handle names a live window; `installed`,
/// whether a window state sits in its slot.
pub fn route_message(handle: isize, is_window: bool, kind: MessageKind, installed: bool) -> (r: Route)
    ensures
        handle == 0 || !is_window ==> r == Route::Reject,
        handle != 0 && is_window ==> {
            &&& kind == MessageKind::PreCreate ==> r == (if installed { Route::Desync } else { Route::Install })
            &&& kind == MessageKind::PostDestroy ==> r == (if installed { Route::TearDown } else { Route::Desync })
            &&& kind != MessageKind::PreCreate && kind != MessageKind::PostDestroy ==> r == (
                if installed {
                    Route::Dispatch(translate_spec(kind))
                } else if kind == MessageKind::SizeQuery {
                    Route::Early
                } else {
                    Route::Desync
                })
        },
{
    if handle == 0 || !is_window {
        return Route::Reject;
    }
    match kind {
        MessageKind::PreCreate => if installed { Route::Desync } else { Route::Install },
        MessageKind::PostDestroy => if installed { Route::TearDown } else { Route::Desync },
        _ => {
            if installed {
                Route::Dispatch(translate(kind))
            } else if kind == MessageKind::SizeQuery {
                Route::Early
            } else {
                Route::Desync
            }
        },
    }
}

/// The event that a message means, if any.
pub open spec fn translate_spec(kind: MessageKind) -> Option<Event> {
    if kind == MessageKind::Create { Some(Event::Created) } else { None }
}

} // verus!
