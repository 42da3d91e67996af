//! Counters that hand out numeric ids.
use vstd::prelude::*;

verus! {

/// The ids of client sessions: the counter moves first, so the first id is 1.
pub struct SessionIds {
    pub session_id: u32,
}

impl SessionIds {
    /// No session yet.
    pub fn new() -> (ids: Self)
        ensures
            ids.session_id == 0,
    {
        SessionIds { session_id: 0 }
    }

    /// The id of the next session.
    pub fn next_session_id(&mut self) -> (id: u32)
        requires
            old(self).session_id < u32::MAX,
        ensures
            id == old(self).session_id + 1,
            final(self).session_id == id,
    {
        self.session_id = self.session_id + 1;
        self.session_id
    }
}

/// The ids of players in a single-process game: handed out from 1, then the
/// counter moves.
pub struct PlayerIds {
    pub next_id: u32,
}

impl PlayerIds {
    /// The first id is 1.
    pub fn new() -> (ids: Self)
        ensures
            ids.next_id == 1,
    {
        PlayerIds { next_id: 1 }
    }

    /// The id of the next player.
    pub fn get_next_id(&mut self) -> (id: u32)
        requires
            old(self).next_id < u32::MAX,
        ensures
            id == old(self).next_id,
            final(self).next_id == id + 1,
    {
        let id = self.next_id;
        self.next_id = self.next_id + 1;
        id
    }
}

} // verus!
