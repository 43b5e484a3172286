//! What to do with the events that macOS sends to an application that was
//! started without a file: the file arrives later, in an event of its own,
//! or never.

use vstd::prelude::*;

verus! {

/// After this many events without a file the launcher stops waiting.
pub const IDLE_LIMIT: u8 = 50;

/// An event, as far as the launcher reads it.
#[derive(Debug, PartialEq, Eq)]
pub enum ListenerEvent {
    /// The system asked to open files; `first` is the first of them, if
    /// there was any.
    Opened { first: Option<String> },
    /// Anything else.
    Other,
}

/// A [`ListenerEvent`] as contracts see it.
pub enum ListenerEventView {
    Opened { first: Option<Seq<char>> },
    Other,
}

impl View for ListenerEvent {
    type V = ListenerEventView;

    open spec fn view(&self) -> ListenerEventView {
        match self {
            ListenerEvent::Opened { first } => ListenerEventView::Opened {
                first: match first {
                    Some(path) => Some(path@),
                    None => None,
                },
            },
            ListenerEvent::Other => ListenerEventView::Other,
        }
    }
}

/// What the launcher does in answer to an event.
#[derive(Debug, PartialEq, Eq)]
pub enum ListenerAction {
    /// Go on waiting.
    Wait,
    /// Open this file in the game, then leave.
    Launch { path: String },
    /// Show the settings file, then leave.
    ShowSettings,
}

/// A [`ListenerAction`] as contracts see it.
pub enum ListenerActionView {
    Wait,
    Launch { path: Seq<char> },
    ShowSettings,
}

impl View for ListenerAction {
    type V = ListenerActionView;

    open spec fn view(&self) -> ListenerActionView {
        match self {
            ListenerAction::Wait => ListenerActionView::Wait,
            ListenerAction::Launch { path } => ListenerActionView::Launch { path: path@ },
            ListenerAction::ShowSettings => ListenerActionView::ShowSettings,
        }
    }
}

/// The number of events without a file after one more event. It stops
/// counting at the largest number it can hold.
pub open spec fn idle_after(idle: u8, event: ListenerEventView) -> u8 {
    match event {
        ListenerEventView::Opened { .. } => idle,
        ListenerEventView::Other => if idle < u8::MAX {
            (idle + 1) as u8
        } else {
            idle
        },
    }
}

/// The answer to an event after `idle` events without a file. A file that
/// arrives is opened. The settings are shown once, by the event that
/// brings the count to [`IDLE_LIMIT`].
pub open spec fn answer(idle: u8, event: ListenerEventView) -> ListenerActionView {
    match event {
        ListenerEventView::Opened { first: Some(path) } => ListenerActionView::Launch { path },
        ListenerEventView::Opened { first: None } => ListenerActionView::Wait,
        ListenerEventView::Other => if idle_after(idle, event) == IDLE_LIMIT {
            ListenerActionView::ShowSettings
        } else {
            ListenerActionView::Wait
        },
    }
}

/// Waits for the file that the launcher is to open.
#[derive(Debug, PartialEq, Eq)]
pub struct Listener {
    /// How many events without a file have gone by.
    pub idle: u8,
}

impl Listener {
    /// A listener that has seen nothing yet.
    pub fn new() -> (listener: Listener)
        ensures
            listener.idle == 0,
    {
        Listener { idle: 0 }
    }

    /// Takes one event and says what to do.
    pub fn on_event(&mut self, event: ListenerEvent) -> (action: ListenerAction)
        ensures
            final(self).idle == idle_after(old(self).idle, event@),
            action@ == answer(old(self).idle, event@),
    {
        match event {
            ListenerEvent::Opened { first: Some(path) } => ListenerAction::Launch { path },
            ListenerEvent::Opened { first: None } => ListenerAction::Wait,
            ListenerEvent::Other => {
                if self.idle < u8::MAX {
                    self.idle = self.idle + 1;
                }
                if self.idle == IDLE_LIMIT {
                    ListenerAction::ShowSettings
                } else {
                    ListenerAction::Wait
                }
            },
        }
    }
}

} // verus!
