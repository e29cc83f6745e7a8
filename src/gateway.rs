use vstd::prelude::*;
use vstd::string::StringExecFns;

use crate::auth::CredentialGate;
use crate::messages::{ConnectionIdentity, QueryString, RoomInfo, RoomOption, ServerCommand};
use crate::registry::RoomRegistry;
use crate::text::{decimal, push_decimal};
use crate::GatewayError;

verus! {

/// The confirmation sent back for a created room: it echoes the three fields
/// of the request.
pub open spec fn confirmation_text(option: RoomOption) -> Seq<char> {
    "room created with id: "@ + decimal(option.room_id as int) + " - max_players: "@ + decimal(
        option.max_players as int,
    ) + " - time: "@ + decimal(option.time as int)
}

/// The identifiers of a room listing, in order.
pub open spec fn listed_ids(rooms: Seq<RoomInfo>) -> Seq<i32> {
    rooms.map_values(|info: RoomInfo| info.room_id)
}

/// The result of creating a room: the confirmation text, and the handle of the
/// worker that previously ran a room under the same identifier, if any, so
/// that the caller can shut it down.
pub struct RoomCreated<H> {
    pub confirmation: String,
    pub replaced: Option<H>,
}

/// Decides a player connection. The credential is checked before the room
/// is looked up, so a rejected credential is reported whether or not the room
/// exists. On success the caller attaches a connection with the returned
/// identity to the worker behind the returned handle. Nothing is changed.
pub fn socket_handler<'a, H>(
    gate: &CredentialGate,
    rooms: &'a RoomRegistry<H>,
    room_id: i32,
    query: &QueryString,
) -> (r: Result<(&'a H, ConnectionIdentity), GatewayError>)
    requires
        rooms.wf(),
    ensures
        !gate.accepts(query.key@) ==> r == Err::<(&'a H, ConnectionIdentity), GatewayError>(
            GatewayError::Authorization,
        ),
        gate.accepts(query.key@) && !rooms@.contains_key(room_id) ==> r == Err::<
            (&'a H, ConnectionIdentity),
            GatewayError,
        >(GatewayError::NotFound),
        gate.accepts(query.key@) && rooms@.contains_key(room_id) ==> match r {
            Ok((h, id)) => {
                &&& *h == rooms@[room_id]
                &&& id is Player
                &&& id.spec_room_id() == room_id
                &&& id.spec_key() == query.key@
                &&& id.spec_name() == query.name@
            },
            Err(_) => false,
        },
{
    if !gate.authorize(&query.key) {
        return Err(GatewayError::Authorization);
    }
    match rooms.lookup(room_id) {
        Some(h) => Ok(
            (
                h,
                ConnectionIdentity::Player {
                    room_id,
                    key: query.key.clone(),
                    name: query.name.clone(),
                },
            ),
        ),
        None => Err(GatewayError::NotFound),
    }
}

/// Decides a spectator connection: no credential is asked for, and the
/// connection carries the spectator identity. Nothing is changed.
pub fn spectate_handler<'a, H>(rooms: &'a RoomRegistry<H>, room_id: i32) -> (r: Result<
    (&'a H, ConnectionIdentity),
    GatewayError,
>)
    requires
        rooms.wf(),
    ensures
        !rooms@.contains_key(room_id) ==> r == Err::<(&'a H, ConnectionIdentity), GatewayError>(
            GatewayError::NotFound,
        ),
        rooms@.contains_key(room_id) ==> match r {
            Ok((h, id)) => {
                &&& *h == rooms@[room_id]
                &&& id == ConnectionIdentity::Spectator { room_id }
            },
            Err(_) => false,
        },
{
    match rooms.lookup(room_id) {
        Some(h) => Ok((h, ConnectionIdentity::Spectator { room_id })),
        None => Err(GatewayError::NotFound),
    }
}

/// Decides a reset: the caller sends the returned command to the worker
/// behind the returned handle without waiting, and reports success at once.
/// Nothing is changed in the registry.
pub fn reset_handler<'a, H>(rooms: &'a RoomRegistry<H>, room_id: i32) -> (r: Result<
    (&'a H, ServerCommand),
    GatewayError,
>)
    requires
        rooms.wf(),
    ensures
        !rooms@.contains_key(room_id) ==> r == Err::<(&'a H, ServerCommand), GatewayError>(
            GatewayError::NotFound,
        ),
        rooms@.contains_key(room_id) ==> match r {
            Ok((h, cmd)) => *h == rooms@[room_id] && cmd == ServerCommand::Reset,
            Err(_) => false,
        },
{
    match rooms.lookup(room_id) {
        Some(h) => Ok((h, ServerCommand::Reset)),
        None => Err(GatewayError::NotFound),
    }
}

/// Lists the registered rooms: one entry per identifier, each exactly once,
/// in the order in which the rooms were first created.
pub fn list_rooms<H>(rooms: &RoomRegistry<H>) -> (r: Vec<RoomInfo>)
    requires
        rooms.wf(),
    ensures
        listed_ids(r@) == rooms.ids(),
        listed_ids(r@).no_duplicates(),
        listed_ids(r@).to_set() == rooms@.dom(),
{
    let ids = rooms.enumerate();
    let mut r: Vec<RoomInfo> = Vec::new();
    let mut i: usize = 0;
    while i < ids.len()
        invariant
            i <= ids@.len(),
            r@.len() == i,
            listed_ids(r@) == ids@.subrange(0, i as int),
        decreases ids@.len() - i,
    {
        let ghost before = r@;
        r.push(RoomInfo { room_id: ids[i] });
        assert(r@ == before.push(RoomInfo { room_id: ids@[i as int] }));
        assert(listed_ids(r@) =~= listed_ids(before).push(ids@[i as int]));
        i = i + 1;
        assert(listed_ids(r@) =~= ids@.subrange(0, i as int));
    }
    assert(listed_ids(r@) =~= ids@);
    r
}

/// Registers `worker`, the handle of a freshly started session worker, under
/// the requested identifier. A room already registered under that identifier
/// is replaced, and its handle is handed back.
pub fn create_room<H>(rooms: &mut RoomRegistry<H>, option: &RoomOption, worker: H) -> (r:
    RoomCreated<H>)
    requires
        old(rooms).wf(),
    ensures
        final(rooms).wf(),
        final(rooms)@ == old(rooms)@.insert(option.room_id, worker),
        r.confirmation@ == confirmation_text(*option),
        match r.replaced {
            Some(h) => old(rooms)@.contains_key(option.room_id) && h == old(rooms)@[option.room_id],
            None => !old(rooms)@.contains_key(option.room_id),
        },
        old(rooms)@.contains_key(option.room_id) ==> final(rooms).ids() == old(rooms).ids(),
        !old(rooms)@.contains_key(option.room_id) ==> final(rooms).ids() == old(rooms).ids().push(
            option.room_id,
        ),
{
    let replaced = rooms.insert(option.room_id, worker);
    let mut confirmation = String::from_str("room created with id: ");
    push_decimal(&mut confirmation, option.room_id);
    confirmation.append(" - max_players: ");
    push_decimal(&mut confirmation, option.max_players);
    confirmation.append(" - time: ");
    push_decimal(&mut confirmation, option.time);
    RoomCreated { confirmation, replaced }
}

} // verus!
