//! What the server tells its subscribers.

use vstd::prelude::*;

use super::workspaces::WorkspaceInfo;

verus! {

/// What happened.
#[derive(Debug, Clone, Copy, PartialEq, Eq, Structural)]
pub enum EventKind {
    WorkspaceCreated,
    WorkspaceUpdated,
    WorkspaceClosed,
    TabCreated,
    PaneCreated,
    PaneUpdated,
    LayoutUpdated,
    WorktreeCreated,
    WorktreeOpened,
    WorktreeRemoved,
}

/// What an event says about what happened.
#[derive(Debug, PartialEq, Eq)]
pub enum EventData {
    WorkspaceClosed { workspace_id: String, workspace: Option<WorkspaceInfo> },
    /// Any other event, as the text it is sent as.
    Encoded { body: String },
}

/// One event.
#[derive(Debug, PartialEq, Eq)]
pub struct EventEnvelope {
    pub event: EventKind,
    pub data: EventData,
}

/// The contents of an [`EventData`].
pub enum EventDataView {
    WorkspaceClosed {
        workspace_id: Seq<char>,
        workspace: Option<super::workspaces::WorkspaceInfoView>,
    },
    Encoded { body: Seq<char> },
}

/// The contents of an [`EventEnvelope`].
pub struct EventView {
    pub event: EventKind,
    pub data: EventDataView,
}

impl View for EventEnvelope {
    type V = EventView;

    open spec fn view(&self) -> EventView {
        EventView {
            event: self.event,
            data: match self.data {
                EventData::WorkspaceClosed {
                    workspace_id,
                    workspace,
                } => EventDataView::WorkspaceClosed {
                    workspace_id: workspace_id@,
                    workspace: match workspace {
                        Some(info) => Some(info@),
                        None => None,
                    },
                },
                EventData::Encoded { body } => EventDataView::Encoded { body: body@ },
            },
        }
    }
}

impl Clone for EventEnvelope {
    fn clone(&self) -> (r: Self)
        ensures
            r@ == self@,
    {
        EventEnvelope {
            event: self.event,
            data: match &self.data {
                EventData::WorkspaceClosed {
                    workspace_id,
                    workspace,
                } => EventData::WorkspaceClosed {
                    workspace_id: workspace_id.clone(),
                    workspace: match workspace {
                        Some(info) => Some(info.clone()),
                        None => None,
                    },
                },
                EventData::Encoded { body } => EventData::Encoded { body: body.clone() },
            },
        }
    }
}

} // verus!
