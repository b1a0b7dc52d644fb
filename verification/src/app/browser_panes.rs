//! What is kept of the browser panes.

use vstd::prelude::*;

use crate::app::pane_map::PaneMap;
use crate::app::state::PaneId;
use crate::browser::command::BrowserCommand;

verus! {

/// The size of one cell of the terminal everything is drawn in. Zero while it is
/// not known.
#[derive(Debug, Clone, Copy, PartialEq, Eq, Structural)]
pub struct HostCellSize {
    pub width_px: u32,
    pub height_px: u32,
}

impl HostCellSize {
    /// Both sides are known.
    pub open spec fn known(self) -> bool {
        self.width_px > 0 && self.height_px > 0
    }

    pub fn is_known(&self) -> (r: bool)
        ensures
            r == self.known(),
    {
        self.width_px > 0 && self.height_px > 0
    }
}

/// Everything kept of the browser panes besides the panes themselves.
#[derive(Debug, PartialEq, Eq)]
pub struct BrowserPanes {
    /// The panes whose actor takes commands.
    pub actors: PaneMap<()>,
    /// The size each session was last told.
    pub viewports: PaneMap<(u32, u32)>,
    /// The page each pane was last sent to.
    pub urls: PaneMap<String>,
    /// Why a pane's session is gone, for the panes that wait for a retry.
    pub errors: PaneMap<String>,
    /// Input on its way to the actors.
    pub input_events: Vec<(PaneId, BrowserCommand)>,
    /// Panes whose session is to be stopped.
    pub shutdowns: Vec<PaneId>,
    /// Who may draw into a pane.
    pub streams: PaneMap<String>,
    /// What is drawn into a pane.
    pub layers: PaneMap<Vec<u8>>,
    /// Changes whenever what is drawn changes.
    pub revision: u64,
    /// Whether pictures can be drawn at all.
    pub graphics_enabled: bool,
    pub cell_size: HostCellSize,
}

/// The pages that are kept for panes.
pub open spec fn pages(urls: Map<PaneId, String>) -> Map<PaneId, Seq<char>> {
    urls.map_values(|url: String| url@)
}

/// The contents of [`BrowserPanes`].
#[verifier::ext_equal]
pub struct BrowserView {
    pub actors: Map<PaneId, ()>,
    pub viewports: Map<PaneId, (u32, u32)>,
    pub urls: Map<PaneId, Seq<char>>,
    pub errors: Map<PaneId, String>,
    pub input_events: Seq<(PaneId, BrowserCommand)>,
    pub shutdowns: Seq<PaneId>,
    pub streams: Map<PaneId, String>,
    pub layers: Map<PaneId, Vec<u8>>,
    pub revision: u64,
    pub graphics_enabled: bool,
    pub cell_size: HostCellSize,
}

impl View for BrowserPanes {
    type V = BrowserView;

    open spec fn view(&self) -> BrowserView {
        BrowserView {
            actors: self.actors@,
            viewports: self.viewports@,
            urls: pages(self.urls@),
            errors: self.errors@,
            input_events: self.input_events@,
            shutdowns: self.shutdowns@,
            streams: self.streams@,
            layers: self.layers@,
            revision: self.revision,
            graphics_enabled: self.graphics_enabled,
            cell_size: self.cell_size,
        }
    }
}

/// Nothing is open, and nothing can be drawn.
pub open spec fn no_browsers() -> BrowserView {
    BrowserView {
        actors: Map::empty(),
        viewports: Map::empty(),
        urls: Map::empty(),
        errors: Map::empty(),
        input_events: Seq::empty(),
        shutdowns: Seq::empty(),
        streams: Map::empty(),
        layers: Map::empty(),
        revision: 0,
        graphics_enabled: false,
        cell_size: HostCellSize { width_px: 0, height_px: 0 },
    }
}

impl Default for BrowserPanes {
    fn default() -> (r: Self)
        ensures
            r@ == no_browsers(),
    {
        BrowserPanes {
            actors: PaneMap::new(),
            viewports: PaneMap::new(),
            urls: PaneMap::new(),
            errors: PaneMap::new(),
            input_events: Vec::new(),
            shutdowns: Vec::new(),
            streams: PaneMap::new(),
            layers: PaneMap::new(),
            revision: 0,
            graphics_enabled: false,
            cell_size: HostCellSize { width_px: 0, height_px: 0 },
        }
    }
}

} // verus!
