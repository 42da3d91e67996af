//! The server's table of active sessions, one per peer address: when each was
//! last heard from and which player it is logged in as.
use vstd::prelude::*;

use crate::text::copy_string;

verus! {

/// The session of one peer.
pub struct Session {
    pub peer: String,
    pub player_id: Option<String>,
    pub last_active: u64,
}

/// A session as a value, less its peer (the table's key).
pub struct SessionInfo {
    pub player_id: Option<Seq<char>>,
    pub last_active: u64,
}

/// The text of an optional string.
pub open spec fn opt_view(s: Option<String>) -> Option<Seq<char>> {
    match s {
        Some(t) => Some(t@),
        None => None,
    }
}

/// What a table keeps of a session.
pub open spec fn info_of(s: Session) -> SessionInfo {
    SessionInfo { player_id: opt_view(s.player_id), last_active: s.last_active }
}

/// The sessions as a map from peer to session.
pub open spec fn sessions_map(s: Seq<Session>) -> Map<Seq<char>, SessionInfo>
    decreases s.len(),
{
    if s.len() == 0 {
        Map::empty()
    } else {
        sessions_map(s.drop_last()).insert(s.last().peer@, info_of(s.last()))
    }
}

/// No two sessions share a peer.
pub open spec fn peers_distinct(s: Seq<Session>) -> bool {
    forall|i: int, j: int| 0 <= i < j < s.len() ==> s[i].peer@ != s[j].peer@
}

proof fn lemma_map_keys(s: Seq<Session>, k: Seq<char>)
    ensures
        sessions_map(s).contains_key(k) <==> exists|i: int| 0 <= i < s.len() && s[i].peer@ == k,
    decreases s.len(),
{
    if s.len() > 0 {
        lemma_map_keys(s.drop_last(), k);
        if sessions_map(s.drop_last()).contains_key(k) {
            let i = choose|i: int| 0 <= i < s.drop_last().len() && s.drop_last()[i].peer@ == k;
            assert(s[i].peer@ == k);
        }
        if exists|i: int| 0 <= i < s.len() && s[i].peer@ == k {
            let i = choose|i: int| 0 <= i < s.len() && s[i].peer@ == k;
            if i < s.len() - 1 {
                assert(s.drop_last()[i].peer@ == k);
            }
        }
    }
}

proof fn lemma_map_value(s: Seq<Session>, i: int)
    requires
        peers_distinct(s),
        0 <= i < s.len(),
    ensures
        sessions_map(s).contains_key(s[i].peer@),
        sessions_map(s)[s[i].peer@] == info_of(s[i]),
    decreases s.len(),
{
    if i < s.len() - 1 {
        lemma_map_value(s.drop_last(), i);
        assert(s.drop_last()[i] == s[i]);
        assert(s[i].peer@ != s.last().peer@);
    }
}

proof fn lemma_map_update(s: Seq<Session>, i: int, r: Session)
    requires
        peers_distinct(s),
        0 <= i < s.len(),
        r.peer@ == s[i].peer@,
    ensures
        sessions_map(s.update(i, r)) == sessions_map(s).insert(r.peer@, info_of(r)),
        peers_distinct(s.update(i, r)),
    decreases s.len(),
{
    let t = s.update(i, r);
    assert(peers_distinct(t)) by {
        assert forall|a: int, b: int| 0 <= a < b < t.len() implies t[a].peer@ != t[b].peer@ by {
            assert(s[a].peer@ != s[b].peer@);
        }
    }
    if i == s.len() - 1 {
        assert(t.drop_last() =~= s.drop_last());
        assert(sessions_map(s).insert(r.peer@, info_of(r)) =~= sessions_map(s.drop_last()).insert(
            r.peer@,
            info_of(r),
        ));
    } else {
        lemma_map_update(s.drop_last(), i, r);
        assert(t.drop_last() =~= s.drop_last().update(i, r));
        assert(s.last().peer@ != r.peer@);
        assert(sessions_map(t) =~= sessions_map(s).insert(r.peer@, info_of(r)));
    }
}

/// The active sessions, keyed by peer.
pub struct SessionTable {
    sessions: Vec<Session>,
}

impl SessionTable {
    /// The sessions as a map from peer to session.
    pub closed spec fn view_map(&self) -> Map<Seq<char>, SessionInfo> {
        sessions_map(self.sessions@)
    }

    /// No two sessions share a peer.
    pub closed spec fn wf(&self) -> bool {
        peers_distinct(self.sessions@)
    }

    /// A table with no session.
    pub fn new() -> (table: Self)
        ensures
            table.wf(),
            table.view_map() == Map::<Seq<char>, SessionInfo>::empty(),
    {
        SessionTable { sessions: Vec::new() }
    }

    fn find(&self, peer: &String) -> (r: Option<usize>)
        requires
            self.wf(),
        ensures
            match r {
                Some(i) => i < self.sessions.len() && self.sessions@[i as int].peer@ == peer@,
                None => !self.view_map().contains_key(peer@),
            },
    {
        let mut i: usize = 0;
        while i < self.sessions.len()
            invariant
                i <= self.sessions.len(),
                forall|j: int| 0 <= j < i ==> self.sessions@[j].peer@ != peer@,
            decreases self.sessions.len() - i,
        {
            if self.sessions[i].peer == *peer {
                return Some(i);
            }
            i = i + 1;
        }
        proof {
            lemma_map_keys(self.sessions@, peer@);
        }
        None
    }

    /// The session of `peer`, if there is one.
    pub fn get(&self, peer: &String) -> (r: Option<Session>)
        requires
            self.wf(),
        ensures
            match r {
                Some(s) => self.view_map().contains_key(peer@) && s.peer@ == peer@
                    && info_of(s) == self.view_map()[peer@],
                None => !self.view_map().contains_key(peer@),
            },
    {
        match self.find(peer) {
            Some(i) => {
                proof {
                    lemma_map_value(self.sessions@, i as int);
                }
                Some(copy_session(&self.sessions[i]))
            },
            None => None,
        }
    }

    /// Marks `peer` active at `now`, opening a session for it if it has none, and
    /// gives back its session.
    pub fn manage_session(&mut self, peer: &String, now: u64) -> (session: Session)
        requires
            old(self).wf(),
        ensures
            final(self).wf(),
            session.peer@ == peer@,
            session.last_active == now,
            opt_view(session.player_id) == (if old(self).view_map().contains_key(peer@) {
                old(self).view_map()[peer@].player_id
            } else {
                None
            }),
            final(self).view_map() == old(self).view_map().insert(peer@, info_of(session)),
    {
        match self.find(peer) {
            Some(i) => {
                let ghost before = self.sessions@;
                proof {
                    lemma_map_value(before, i as int);
                }
                let updated = Session {
                    peer: copy_string(&self.sessions[i].peer),
                    player_id: copy_opt(&self.sessions[i].player_id),
                    last_active: now,
                };
                let result = copy_session(&updated);
                proof {
                    lemma_map_update(before, i as int, updated);
                }
                self.sessions.set(i, updated);
                result
            },
            None => {
                let fresh = Session { peer: copy_string(peer), player_id: None, last_active: now };
                let result = copy_session(&fresh);
                let ghost before = self.sessions@;
                proof {
                    lemma_map_keys(before, peer@);
                }
                self.sessions.push(fresh);
                assert(self.sessions@.drop_last() =~= before);
                assert forall|a: int, b: int|
                    0 <= a < b < self.sessions@.len() implies self.sessions@[a].peer@
                    != self.sessions@[b].peer@ by {
                    if b == self.sessions@.len() - 1 {
                        assert(before[a].peer@ != peer@);
                    } else {
                        assert(before[a].peer@ != before[b].peer@);
                    }
                }
                result
            },
        }
    }

    /// Records that `peer` plays as `player_id` (or as no one), and marks it active
    /// at `now`. The peer must have a session.
    pub fn set_session_player_id(&mut self, peer: &String, player_id: Option<String>, now: u64) -> (session: Session)
        requires
            old(self).wf(),
            old(self).view_map().contains_key(peer@),
        ensures
            final(self).wf(),
            session.peer@ == peer@,
            session.last_active == now,
            opt_view(session.player_id) == opt_view(player_id),
            final(self).view_map() == old(self).view_map().insert(peer@, info_of(session)),
    {
        match self.find(peer) {
            Some(i) => {
                let ghost before = self.sessions@;
                let updated = Session { peer: copy_string(&self.sessions[i].peer), player_id, last_active: now };
                let result = copy_session(&updated);
                proof {
                    lemma_map_update(before, i as int, updated);
                }
                self.sessions.set(i, updated);
                result
            },
            None => {
                assert(false);
                Session { peer: copy_string(peer), player_id: None, last_active: now }
            },
        }
    }
}

fn copy_opt(s: &Option<String>) -> (c: Option<String>)
    ensures
        opt_view(c) == opt_view(*s),
{
    match s {
        Some(t) => Some(copy_string(t)),
        None => None,
    }
}

/// A copy of a session.
pub fn copy_session(s: &Session) -> (c: Session)
    ensures
        c.peer@ == s.peer@,
        info_of(c) == info_of(*s),
{
    Session { peer: copy_string(&s.peer), player_id: copy_opt(&s.player_id), last_active: s.last_active }
}

} // verus!
