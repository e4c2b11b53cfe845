use vstd::prelude::*;

verus! {

/// Abstract state of one peer-connection slot: the configured neighbor
/// address for one direction, and whether a connection to it is cached.
#[verifier::ext_equal]
pub struct PeerSlotView {
    pub addr: Option<Seq<char>>,
    pub connected: bool,
}

/// What a caller must do to reach the neighbor in one direction.
#[derive(Clone, Copy, Debug, PartialEq, Eq, Structural)]
pub enum Route {
    /// No neighbor is configured in this direction: the end of the chain,
    /// not an error.
    Absent,
    /// A cached connection exists; reuse it without network activity.
    Reuse,
    /// No connection is cached; establish one to the configured address.
    Dial,
}

/// The route a slot in state `s` prescribes.
pub open spec fn spec_route(s: PeerSlotView) -> Route {
    if s.addr is None {
        Route::Absent
    } else if s.connected {
        Route::Reuse
    } else {
        Route::Dial
    }
}

/// Single-slot cache for the outbound connection to one neighbor.
///
/// The slot plans and records connection state; establishing the connection
/// and carrying the call is the transport's work, outside this crate.  A
/// slot starts cold, is marked connected when a call in its direction
/// succeeds, and is invalidated when one fails, so that the next call
/// re-establishes instead of reusing a known-bad handle.
pub struct PeerSlot {
    addr: Option<String>,
    connected: bool,
}

impl View for PeerSlot {
    type V = PeerSlotView;

    closed spec fn view(&self) -> PeerSlotView {
        PeerSlotView { addr: self.addr.deep_view(), connected: self.connected }
    }
}

impl PeerSlot {
    /// A cold slot for the given neighbor address, if any.
    pub fn new(addr: Option<String>) -> (s: PeerSlot)
        ensures
            s@ == (PeerSlotView { addr: addr.deep_view(), connected: false }),
    {
        PeerSlot { addr, connected: false }
    }

    /// How to reach the neighbor: absent when none is configured, reuse of
    /// the cached connection when one exists, a fresh establishment
    /// otherwise.
    pub fn route(&self) -> (r: Route)
        ensures
            r == spec_route(self@),
    {
        match &self.addr {
            Option::None => Route::Absent,
            Option::Some(_) => if self.connected {
                Route::Reuse
            } else {
                Route::Dial
            },
        }
    }

    /// The configured neighbor address.
    pub fn address(&self) -> (a: &Option<String>)
        ensures
            a.deep_view() == self@.addr,
    {
        &self.addr
    }

    /// Record that a connection in this direction is established and cached.
    pub fn note_established(&mut self)
        ensures
            final(self)@ == (PeerSlotView { connected: true, ..old(self)@ }),
    {
        self.connected = true;
    }

    /// Invalidate the cached connection after a transport failure, so the
    /// next call re-establishes.
    pub fn note_failure(&mut self)
        ensures
            final(self)@ == (PeerSlotView { connected: false, ..old(self)@ }),
    {
        self.connected = false;
    }
}

} // verus!
