use vstd::prelude::*;

use crate::actor::Reply;
use crate::project::Project;
use crate::watcher::VolumeWarning;

verus! {

/// How many events may wait for the presentation layer before a producer
/// has to wait for room.
pub const EVENT_CAPACITY: usize = 32;

/// What the presentation layer is told about.
#[derive(Debug)]
pub enum Event {
    VolumeWarning { is_full: bool },
    Project { project: Project },
}

impl Event {
    /// The event for a warning state that the watcher reports.
    pub fn from_warning(w: VolumeWarning) -> (r: Event)
        ensures
            r == (Event::VolumeWarning { is_full: w.is_full }),
    {
        Event::VolumeWarning { is_full: w.is_full }
    }

    /// The broadcast that a reply of the document's owner calls for: a patch
    /// is always broadcast as the whole document, a read never.
    pub fn from_reply(r: Reply) -> (e: Option<Event>)
        ensures
            match r {
                Reply::Snapshot(_) => e is None,
                Reply::Updated(p) => e matches Some(Event::Project { project }) && project@ == p@,
            },
    {
        match r {
            Reply::Snapshot(_) => None,
            Reply::Updated(project) => Some(Event::Project { project }),
        }
    }

    /// The name under which the presentation layer receives the event.
    pub fn topic(&self) -> (r: &'static str)
        ensures
            r@ == (match self {
                Event::VolumeWarning { .. } => "volume_warning"@,
                Event::Project { .. } => "project"@,
            }),
    {
        match self {
            Event::VolumeWarning { .. } => "volume_warning",
            Event::Project { .. } => "project",
        }
    }
}

} // verus!
