use vstd::prelude::*;

verus! {

/// The query of a player connection: the credential and the display name.
pub struct QueryString {
    pub key: String,
    pub name: String,
}

/// The body of a room creation request.
#[derive(Debug, Clone, Copy, PartialEq, Eq, Structural)]
pub struct RoomOption {
    pub room_id: i32,
    pub max_players: i32,
    pub time: i32,
}

/// One entry of a room listing.
#[derive(Debug, Clone, Copy, PartialEq, Eq, Structural)]
pub struct RoomInfo {
    pub room_id: i32,
}

/// Out-of-band commands that the gateway sends to a session worker without
/// waiting for an answer.
#[derive(Debug, Clone, Copy, PartialEq, Eq, Structural)]
pub enum ServerCommand {
    Reset,
}

/// The marker that a spectator connection carries in place of a key and a name.
pub open spec fn spectator_marker() -> Seq<char> {
    seq!['S', 'P', 'E', 'C', 'T', 'A', 'T', 'O', 'R']
}

/// Who a connection is: a player with a key and a display name, or a
/// read-only spectator. Both name the room they join.
pub enum ConnectionIdentity {
    Player { room_id: i32, key: String, name: String },
    Spectator { room_id: i32 },
}

impl ConnectionIdentity {
    pub open spec fn spec_room_id(&self) -> i32 {
        match self {
            ConnectionIdentity::Player { room_id, .. } => *room_id,
            ConnectionIdentity::Spectator { room_id } => *room_id,
        }
    }

    /// The key that the session worker sees for this connection.
    pub open spec fn spec_key(&self) -> Seq<char> {
        match self {
            ConnectionIdentity::Player { key, .. } => key@,
            ConnectionIdentity::Spectator { .. } => spectator_marker(),
        }
    }

    /// The name that the session worker sees for this connection.
    pub open spec fn spec_name(&self) -> Seq<char> {
        match self {
            ConnectionIdentity::Player { name, .. } => name@,
            ConnectionIdentity::Spectator { .. } => spectator_marker(),
        }
    }

    pub fn room_id(&self) -> (r: i32)
        ensures
            r == self.spec_room_id(),
    {
        match self {
            ConnectionIdentity::Player { room_id, .. } => *room_id,
            ConnectionIdentity::Spectator { room_id } => *room_id,
        }
    }

    pub fn key(&self) -> (r: String)
        ensures
            r@ == self.spec_key(),
    {
        match self {
            ConnectionIdentity::Player { key, .. } => key.clone(),
            ConnectionIdentity::Spectator { .. } => spectator_string(),
        }
    }

    pub fn name(&self) -> (r: String)
        ensures
            r@ == self.spec_name(),
    {
        match self {
            ConnectionIdentity::Player { name, .. } => name.clone(),
            ConnectionIdentity::Spectator { .. } => spectator_string(),
        }
    }

    pub fn is_spectator(&self) -> (r: bool)
        ensures
            r == (self is Spectator),
    {
        match self {
            ConnectionIdentity::Player { .. } => false,
            ConnectionIdentity::Spectator { .. } => true,
        }
    }
}

fn spectator_string() -> (r: String)
    ensures
        r@ == spectator_marker(),
{
    let r = "SPECTATOR".to_string();
    proof {
        reveal_strlit("SPECTATOR");
    }
    assert(r@ =~= spectator_marker());
    r
}

} // verus!
