use vstd::prelude::*;
use vstd::string::*;

verus! {

/// The power levels of a room, as far as push rules read them.
pub struct RoomPowerLevels {
    /// Power levels of single users, by user id.
    pub users: Vec<(String, i64)>,
    pub users_default: i64,
    /// The level needed to trigger an `@room` notification.
    pub notifications_room: i64,
}

/// A member count that is an estimate, not the room's exact count.
#[derive(PartialEq, Eq, Structural, Clone, Copy, Debug)]
pub struct ApproximateMemberCount {
    pub estimate: u64,
}

/// The member count that push rule conditions are evaluated against; the
/// room's exact count is not looked up.
pub const ESTIMATED_MEMBER_COUNT: u64 = 10;

/// The room context that push rule conditions are evaluated in.
pub struct PushConditionRoomCtx {
    pub room_id: String,
    pub member_count: ApproximateMemberCount,
    pub user_id: String,
    pub user_display_name: String,
    pub users_power_levels: Vec<(String, i64)>,
    pub default_power_level: i64,
    pub notifications_room: i64,
}

/// The first position at or after `i` that holds `:`, or the length.
pub open spec fn colon_from(id: Seq<char>, i: int) -> int
    decreases id.len() - i,
{
    if i < 0 || i >= id.len() || id[i] == ':' {
        i
    } else {
        colon_from(id, i + 1)
    }
}

/// Where the localpart of `id` starts: after a leading `@`.
pub open spec fn localpart_start(id: Seq<char>) -> int {
    if id.len() > 0 && id[0] == '@' {
        1
    } else {
        0
    }
}

/// The localpart of user id `id`: what stands between the leading `@` and
/// the first `:`.
pub open spec fn localpart_of(id: Seq<char>) -> Seq<char> {
    id.subrange(localpart_start(id), colon_from(id, localpart_start(id)))
}

proof fn lemma_colon_from_bounds(id: Seq<char>, i: int)
    requires
        0 <= i <= id.len(),
    ensures
        i <= colon_from(id, i) <= id.len(),
    decreases id.len() - i,
{
    if i < id.len() && id[i] != ':' {
        lemma_colon_from_bounds(id, i + 1);
    }
}

/// The localpart of `user_id`.
pub fn localpart(user_id: &String) -> (r: String)
    ensures
        r@ == localpart_of(user_id@),
{
    let s = user_id.as_str();
    let len = s.unicode_len();
    let start: usize = if len > 0 && s.get_char(0) == '@' {
        1
    } else {
        0
    };
    let mut end: usize = start;
    while end < len && s.get_char(end) != ':'
        invariant
            start <= end <= len,
            len == s@.len(),
            s@ == user_id@,
            start == localpart_start(user_id@),
            colon_from(user_id@, end as int) == colon_from(user_id@, start as int),
        decreases len - end,
    {
        end = end + 1;
    }
    proof {
        lemma_colon_from_bounds(user_id@, start as int);
    }
    s.substring_char(start, end).to_owned()
}

/// Builds the context that `user`'s push rules are evaluated in for an event
/// of `room_id`. The display name falls back to the user id's localpart; the
/// member count is the fixed estimate.
pub fn push_condition_context(
    user: &String,
    display_name: Option<String>,
    power_levels: RoomPowerLevels,
    room_id: &String,
) -> (r: PushConditionRoomCtx)
    ensures
        r.room_id == *room_id,
        r.member_count == (ApproximateMemberCount { estimate: ESTIMATED_MEMBER_COUNT }),
        r.user_id == *user,
        r.user_display_name@ == match display_name {
            Some(n) => n@,
            None => localpart_of(user@),
        },
        r.users_power_levels == power_levels.users,
        r.default_power_level == power_levels.users_default,
        r.notifications_room == power_levels.notifications_room,
{
    let user_display_name = match display_name {
        Some(n) => n,
        None => localpart(user),
    };
    PushConditionRoomCtx {
        room_id: room_id.clone(),
        member_count: ApproximateMemberCount { estimate: ESTIMATED_MEMBER_COUNT },
        user_id: user.clone(),
        user_display_name,
        users_power_levels: power_levels.users,
        default_power_level: power_levels.users_default,
        notifications_room: power_levels.notifications_room,
    }
}

} // verus!
