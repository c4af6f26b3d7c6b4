use vstd::prelude::*;

verus! {

/// The JSON text that serde_json keeps of `s` as a raw value, `None` when `s`
/// is not JSON.
pub uninterp spec fn raw_json_of(s: Seq<char>) -> Option<Seq<char>>;

/// The name held by the content of a room name event, `None` when the content
/// does not decode as one.
pub uninterp spec fn room_name_of(s: Seq<char>) -> Option<Seq<char>>;

/// The characters of an optional string.
pub open spec fn opt_view(o: Option<String>) -> Option<Seq<char>> {
    match o {
        Some(s) => Some(s@),
        None => None,
    }
}

/// Relies on serde_json::value::RawValue::from_string, which checks that the
/// text is JSON and keeps it as a raw value.
#[verifier::external_body]
pub(crate) fn raw_json(s: &String) -> (r: Option<String>)
    ensures
        opt_view(r) == raw_json_of(s@),
{
    match serde_json::value::RawValue::from_string(s.clone()) {
        Ok(v) => Some(v.get().to_owned()),
        Err(_) => None,
    }
}

/// Relies on serde_json::from_str decoding ruma's RoomNameEventContent, whose
/// `name` field is the room name.
#[verifier::external_body]
pub(crate) fn parse_room_name(content: &String) -> (r: Option<String>)
    ensures
        opt_view(r) == room_name_of(content@),
{
    match serde_json::from_str::<ruma::events::room::name::RoomNameEventContent>(content) {
        Ok(c) => Some(c.name),
        Err(_) => None,
    }
}

} // verus!
