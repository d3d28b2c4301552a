use vstd::prelude::*;

verus! {

/// The kind of layout component a renderer is asked to draw. The
/// geometry each component carries is the renderer's business; the
/// cache dispatch below only reads the kind.
#[derive(Clone, Copy, Debug, PartialEq, Eq, Structural)]
pub enum ComponentState {
    /// An empty spacer.
    BlankSpace,
    /// The large timer view with segment details.
    DetailedTimer,
    /// A history graph.
    Graph,
    /// A single key/value line.
    KeyValue,
    /// A separator line.
    Separator,
    /// The list of splits.
    Splits,
    /// A free text line.
    Text,
    /// The plain timer view.
    Timer,
    /// The run's title.
    Title,
}

/// The per-component render cache: only the component kinds that keep
/// state between frames carry one; every other kind renders without a
/// cache.
#[derive(Clone, Copy, Debug, PartialEq, Eq, Structural)]
pub enum Cache {
    /// Cache for the detailed timer view.
    DetailedTimer,
    /// Cache for the splits list.
    Splits,
    /// Cache for the title.
    Title,
    /// No cache.
    Empty,
}

/// The cache variant that belongs to a component kind.
pub open spec fn spec_cache_for(component: ComponentState) -> Cache {
    match component {
        ComponentState::DetailedTimer => Cache::DetailedTimer,
        ComponentState::Splits => Cache::Splits,
        ComponentState::Title => Cache::Title,
        _ => Cache::Empty,
    }
}

impl Cache {
    /// Builds the cache that belongs to a component kind: the detailed
    /// timer, the splits list and the title keep a cache; every other
    /// component gets the empty one.
    pub fn new(component: &ComponentState) -> (r: Cache)
        ensures
            r == spec_cache_for(*component),
    {
        match component {
            ComponentState::DetailedTimer => Cache::DetailedTimer,
            ComponentState::Splits => Cache::Splits,
            ComponentState::Title => Cache::Title,
            _ => Cache::Empty,
        }
    }

    /// Drops whatever the cache held.
    pub fn make_empty(&mut self)
        ensures
            *final(self) == Cache::Empty,
    {
        *self = Cache::Empty;
    }
}

} // verus!
