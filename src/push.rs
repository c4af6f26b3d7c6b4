use vstd::prelude::*;
use crate::error::Error;
use crate::json::{opt_view, parse_room_name, raw_json, raw_json_of, room_name_of};

verus! {

/// A presentation hint attached to a notification by a matched push rule.
#[derive(Clone, Debug)]
pub enum Tweak {
    /// The sound to play.
    Sound(String),
    /// Whether the notification is highlighted.
    Highlight(bool),
    /// Any other tweak, as a name and a JSON value.
    Custom(String, String),
}

impl Tweak {
    /// A copy of the tweak, equal to it.
    pub fn duplicate(&self) -> (r: Tweak)
        ensures
            r == *self,
    {
        match self {
            Tweak::Sound(s) => Tweak::Sound(s.clone()),
            Tweak::Highlight(b) => Tweak::Highlight(*b),
            Tweak::Custom(n, v) => Tweak::Custom(n.clone(), v.clone()),
        }
    }
}

/// What a matched push rule asks for.
#[derive(Clone, Debug)]
pub enum Action {
    Notify,
    DontNotify,
    Coalesce,
    SetTweak(Tweak),
}

impl Action {
    /// One of notify, dont_notify and coalesce.
    pub open spec fn is_notify_class(self) -> bool {
        !(self is SetTweak)
    }
}

/// Number of notify-class actions in `s`.
pub open spec fn notify_class_count(s: Seq<Action>) -> nat
    decreases s.len(),
{
    if s.len() == 0 {
        0
    } else {
        notify_class_count(s.drop_last()) + if s.last().is_notify_class() {
            1nat
        } else {
            0nat
        }
    }
}

/// The tweaks of `s`, in the order they appear.
pub open spec fn tweaks_of(s: Seq<Action>) -> Seq<Tweak>
    decreases s.len(),
{
    if s.len() == 0 {
        Seq::empty()
    } else {
        match s.last() {
            Action::SetTweak(t) => tweaks_of(s.drop_last()).push(t),
            _ => tweaks_of(s.drop_last()),
        }
    }
}

/// The decision of the first notify-class action of `s`: `None` when there is
/// none, else whether that action is `Notify`.
pub open spec fn first_decision(s: Seq<Action>) -> Option<bool>
    decreases s.len(),
{
    if s.len() == 0 {
        None
    } else {
        match first_decision(s.drop_last()) {
            Some(b) => Some(b),
            None => if s.last().is_notify_class() {
                Some(s.last() is Notify)
            } else {
                None
            },
        }
    }
}

/// The outcome of folding an action list: one notify decision and the tweaks.
pub struct NoticeDecision {
    /// `None` when no notify-class action was present.
    pub notify: Option<bool>,
    pub tweaks: Vec<Tweak>,
}

/// Folds the actions of the matched rule into one decision and the list of
/// tweaks; more than one notify-class action is a malformed rule.
pub fn decide(actions: &Vec<Action>) -> (r: Result<NoticeDecision, Error>)
    ensures
        notify_class_count(actions@) >= 2 <==> r == Err::<NoticeDecision, Error>(
            Error::MalformedPushRule,
        ),
        r is Err ==> r == Err::<NoticeDecision, Error>(Error::MalformedPushRule),
        r matches Ok(d) ==> d.notify == first_decision(actions@) && d.tweaks@ == tweaks_of(
            actions@,
        ),
{
    let mut notify: Option<bool> = None;
    let mut tweaks: Vec<Tweak> = Vec::new();
    let mut i: usize = 0;
    while i < actions.len()
        invariant
            i <= actions@.len(),
            notify_class_count(actions@.subrange(0, i as int)) <= 1,
            notify == first_decision(actions@.subrange(0, i as int)),
            notify is None <==> notify_class_count(actions@.subrange(0, i as int)) == 0,
            tweaks@ == tweaks_of(actions@.subrange(0, i as int)),
        decreases actions@.len() - i,
    {
        proof {
            let next = actions@.subrange(0, i as int + 1);
            assert(next.drop_last() =~= actions@.subrange(0, i as int));
        }
        match &actions[i] {
            Action::SetTweak(t) => {
                tweaks.push(t.duplicate());
            },
            a => {
                if notify.is_some() {
                    proof { lemma_count_monotone(actions@, i as int + 1); }
                    return Err(Error::MalformedPushRule);
                }
                notify = Some(matches!(a, Action::Notify));
            },
        }
        i = i + 1;
    }
    proof {
        assert(actions@.subrange(0, actions@.len() as int) =~= actions@);
    }
    Ok(NoticeDecision { notify, tweaks })
}

/// The count over a prefix never exceeds the count over the whole sequence.
proof fn lemma_count_monotone(s: Seq<Action>, n: int)
    requires
        0 <= n <= s.len(),
    ensures
        notify_class_count(s.subrange(0, n)) <= notify_class_count(s),
    decreases s.len() - n,
{
    if n < s.len() {
        lemma_count_monotone(s, n + 1);
        assert(s.subrange(0, n + 1).drop_last() =~= s.subrange(0, n));
    } else {
        assert(s.subrange(0, n) =~= s);
    }
}

} // verus!

verus! {

/// The payload format a gateway asked for.
#[derive(PartialEq, Eq, Structural, Clone, Copy, Debug)]
pub enum PushFormat {
    /// Only the event id and room id identify the event.
    EventIdOnly,
}

/// The configuration of an HTTP push gateway.
#[derive(Clone, Debug)]
pub struct HttpPusherData {
    pub url: String,
    pub format: Option<PushFormat>,
    /// A JSON object handed to the gateway verbatim.
    pub default_payload: Option<String>,
}

/// What kind of target a pusher is.
#[derive(Clone, Debug)]
pub enum PusherKind {
    Http(HttpPusherData),
    Email,
    /// A kind this server does not handle, by name.
    Other(String),
}

/// The identity of a pusher within its user's pushers.
#[derive(Clone, Debug)]
pub struct PusherIds {
    pub pushkey: String,
    pub app_id: String,
}

/// A registered notification target of a user's device.
#[derive(Clone, Debug)]
pub struct Pusher {
    pub ids: PusherIds,
    pub kind: PusherKind,
    pub app_display_name: String,
    pub device_display_name: String,
    pub profile_tag: Option<String>,
    pub lang: String,
}

/// The type of a timeline event, as far as notifications tell them apart.
#[derive(Clone, Debug)]
pub enum EventType {
    /// `m.room.encrypted`
    RoomEncrypted,
    /// `m.room.member`
    RoomMember,
    /// Any other type, by name.
    Other(String),
}

/// The read-only view of an event that notifications are built from.
#[derive(Clone, Debug)]
pub struct PduEvent {
    pub event_id: String,
    pub room_id: String,
    pub sender: String,
    pub kind: EventType,
    /// The event's content as JSON text.
    pub content: String,
    pub state_key: Option<String>,
}

#[derive(PartialEq, Eq, Structural, Clone, Copy, Debug)]
pub enum NotificationPriority {
    High,
    Low,
}

/// The per-device data handed to the gateway.
#[derive(Clone, Debug)]
pub struct PusherData {
    pub format: Option<PushFormat>,
    pub default_payload: Option<String>,
}

#[derive(Clone, Debug)]
pub struct Device {
    pub app_id: String,
    pub pushkey: String,
    pub data: PusherData,
    pub tweaks: Vec<Tweak>,
}

#[derive(PartialEq, Eq, Structural, Clone, Copy, Debug)]
pub struct NotificationCounts {
    pub unread: u64,
    pub missed_calls: u64,
}

/// The payload of a push gateway notification.
#[derive(Clone, Debug)]
pub struct Notification {
    pub event_id: Option<String>,
    pub room_id: Option<String>,
    pub event_type: Option<EventType>,
    pub sender: Option<String>,
    pub sender_display_name: Option<String>,
    pub room_name: Option<String>,
    pub user_is_target: bool,
    pub prio: NotificationPriority,
    /// The event's content as JSON text.
    pub content: Option<String>,
    pub counts: NotificationCounts,
    pub devices: Vec<Device>,
}

/// A notification ready to be sent to the gateway at `destination`.
pub struct OutgoingNotice {
    pub destination: String,
    pub notification: Notification,
}

/// A tweak that makes a notification urgent.
pub open spec fn raises_priority(t: Tweak) -> bool {
    t matches Tweak::Highlight(true) || t is Sound
}

/// High for encrypted events and for urgent tweaks, else low.
pub open spec fn expected_priority(kind: EventType, tweaks: Seq<Tweak>) -> NotificationPriority {
    if kind is RoomEncrypted || exists|i: int| 0 <= i < tweaks.len() && raises_priority(
        #[trigger] tweaks[i],
    ) {
        NotificationPriority::High
    } else {
        NotificationPriority::Low
    }
}

/// Whether the pusher's format asks for event-id-only payloads.
pub open spec fn is_event_id_only(h: HttpPusherData) -> bool {
    h.format matches Some(PushFormat::EventIdOnly)
}

/// Whether the event is a membership change of its own sender.
pub open spec fn targets_sender(event: PduEvent) -> bool {
    event.kind is RoomMember && (event.state_key matches Some(k) && k@ == event.sender@)
}

pub fn notification_priority(kind: &EventType, tweaks: &Vec<Tweak>) -> (r: NotificationPriority)
    ensures
        r == expected_priority(*kind, tweaks@),
{
    if matches!(kind, EventType::RoomEncrypted) {
        return NotificationPriority::High;
    }
    let mut i: usize = 0;
    while i < tweaks.len()
        invariant
            i <= tweaks@.len(),
            forall|j: int| 0 <= j < i ==> !raises_priority(#[trigger] tweaks@[j]),
        decreases tweaks@.len() - i,
    {
        match &tweaks[i] {
            Tweak::Sound(_) => {
                return NotificationPriority::High;
            },
            Tweak::Highlight(true) => {
                return NotificationPriority::High;
            },
            _ => {},
        }
        i = i + 1;
    }
    NotificationPriority::Low
}

fn copy_opt_string(o: &Option<String>) -> (r: Option<String>)
    ensures
        r == *o,
{
    match o {
        Some(s) => Some(s.clone()),
        None => None,
    }
}

impl HttpPusherData {
    /// A copy of the gateway data, equal to it.
    pub fn duplicate(&self) -> (r: HttpPusherData)
        ensures
            r == *self,
    {
        HttpPusherData {
            url: self.url.clone(),
            format: self.format,
            default_payload: copy_opt_string(&self.default_payload),
        }
    }
}

impl PusherKind {
    /// A copy of the pusher kind, equal to it.
    pub fn duplicate(&self) -> (r: PusherKind)
        ensures
            r == *self,
    {
        match self {
            PusherKind::Http(h) => PusherKind::Http(h.duplicate()),
            PusherKind::Email => PusherKind::Email,
            PusherKind::Other(k) => PusherKind::Other(k.clone()),
        }
    }
}

impl Pusher {
    /// A copy of the pusher, equal to it.
    pub fn duplicate(&self) -> (r: Pusher)
        ensures
            r == *self,
    {
        Pusher {
            ids: PusherIds { pushkey: self.ids.pushkey.clone(), app_id: self.ids.app_id.clone() },
            kind: self.kind.duplicate(),
            app_display_name: self.app_display_name.clone(),
            device_display_name: self.device_display_name.clone(),
            profile_tag: copy_opt_string(&self.profile_tag),
            lang: self.lang.clone(),
        }
    }
}

impl EventType {
    /// A copy of the event type, equal to it.
    pub fn duplicate(&self) -> (r: EventType)
        ensures
            r == *self,
    {
        match self {
            EventType::RoomEncrypted => EventType::RoomEncrypted,
            EventType::RoomMember => EventType::RoomMember,
            EventType::Other(s) => EventType::Other(s.clone()),
        }
    }
}

} // verus!

verus! {

/// The room name that the content of the room's name event gives, if there
/// is such an event.
pub open spec fn room_name_from(room_name_content: Option<String>) -> Option<Seq<char>> {
    match room_name_content {
        Some(c) => room_name_of(c@),
        None => None,
    }
}

/// Whether a room name event is present whose content does not decode.
pub open spec fn room_name_invalid(room_name_content: Option<String>) -> bool {
    room_name_content matches Some(c) && room_name_of(c@) is None
}

/// Whether `o` is the notice for `event` to the HTTP pusher `pusher` with
/// gateway data `h`.
pub open spec fn is_expected_notice(
    o: OutgoingNotice,
    unread: u64,
    pusher: Pusher,
    h: HttpPusherData,
    tweaks: Seq<Tweak>,
    event: PduEvent,
    sender_display_name: Option<String>,
    room_name_content: Option<String>,
) -> bool {
    let n = o.notification;
    let d = n.devices@[0];
    &&& o.destination == h.url
    &&& n.devices@.len() == 1
    &&& d.app_id == pusher.ids.app_id
    &&& d.pushkey == pusher.ids.pushkey
    &&& d.data.format == h.format
    &&& d.data.default_payload == h.default_payload
    &&& d.tweaks@ == if is_event_id_only(h) {
        Seq::empty()
    } else {
        tweaks
    }
    &&& n.prio == expected_priority(event.kind, tweaks)
    &&& n.counts == NotificationCounts { unread, missed_calls: 0 }
    &&& n.event_id == Some(event.event_id)
    &&& n.room_id == Some(event.room_id)
    &&& if is_event_id_only(h) {
        &&& n.sender is None
        &&& n.event_type is None
        &&& n.content is None
        &&& !n.user_is_target
        &&& n.sender_display_name is None
        &&& n.room_name is None
    } else {
        &&& n.sender == Some(event.sender)
        &&& n.event_type == Some(event.kind)
        &&& opt_view(n.content) == raw_json_of(event.content@)
        &&& n.user_is_target == targets_sender(event)
        &&& n.sender_display_name == sender_display_name
        &&& opt_view(n.room_name) == room_name_from(room_name_content)
    }
}

/// Whether `r` is what building the notice for `event` to `pusher` gives:
/// nothing for a pusher that is not HTTP; for an HTTP pusher an error exactly
/// when a full payload is asked for and the room name event does not decode,
/// else the expected notice.
pub open spec fn built_as_expected(
    r: Result<Option<OutgoingNotice>, Error>,
    unread: u64,
    pusher: Pusher,
    tweaks: Seq<Tweak>,
    event: PduEvent,
    sender_display_name: Option<String>,
    room_name_content: Option<String>,
) -> bool {
    match pusher.kind {
        PusherKind::Http(h) => {
            &&& (r is Err) <==> (!is_event_id_only(h) && room_name_invalid(room_name_content))
            &&& r is Err ==> r->Err_0 == Error::InvalidRoomName
            &&& r matches Ok(o) ==> o matches Some(n) && is_expected_notice(
                n,
                unread,
                pusher,
                h,
                tweaks,
                event,
                sender_display_name,
                room_name_content,
            )
        },
        _ => r matches Ok(None),
    }
}

/// Builds the notification for `event` to `pusher`. Email and unknown pushers
/// get none (`Ok(None)`); an HTTP pusher gets one device carrying the
/// pusher's data. `sender_display_name` is the sender's display name and
/// `room_name_content` the content of the room's name event, if any; they are
/// read only for full-format payloads.
pub fn build_notice(
    unread: u64,
    pusher: &Pusher,
    tweaks: Vec<Tweak>,
    event: &PduEvent,
    sender_display_name: Option<String>,
    room_name_content: Option<String>,
) -> (r: Result<Option<OutgoingNotice>, Error>)
    ensures
        built_as_expected(
            r,
            unread,
            *pusher,
            tweaks@,
            *event,
            sender_display_name,
            room_name_content,
        ),
{
    let h = match &pusher.kind {
        PusherKind::Http(h) => h,
        _ => {
            return Ok(None);
        },
    };
    let event_id_only = match h.format {
        Some(PushFormat::EventIdOnly) => true,
        None => false,
    };
    let prio = notification_priority(&event.kind, &tweaks);
    let device_tweaks = if event_id_only {
        Vec::new()
    } else {
        tweaks
    };
    let device = Device {
        app_id: pusher.ids.app_id.clone(),
        pushkey: pusher.ids.pushkey.clone(),
        data: PusherData { format: h.format, default_payload: copy_opt_string(&h.default_payload) },
        tweaks: device_tweaks,
    };
    let mut devices: Vec<Device> = Vec::new();
    devices.push(device);
    let mut notification = Notification {
        event_id: Some(event.event_id.clone()),
        room_id: Some(event.room_id.clone()),
        event_type: None,
        sender: None,
        sender_display_name: None,
        room_name: None,
        user_is_target: false,
        prio,
        content: None,
        counts: NotificationCounts { unread, missed_calls: 0 },
        devices,
    };
    if !event_id_only {
        let room_name = match &room_name_content {
            Some(c) => match parse_room_name(c) {
                Some(name) => Some(name),
                None => {
                    return Err(Error::InvalidRoomName);
                },
            },
            None => None,
        };
        notification.sender = Some(event.sender.clone());
        notification.event_type = Some(event.kind.duplicate());
        notification.content = raw_json(&event.content);
        notification.user_is_target = match (&event.kind, &event.state_key) {
            (EventType::RoomMember, Some(k)) => *k == event.sender,
            _ => false,
        };
        notification.sender_display_name = sender_display_name;
        notification.room_name = room_name;
    }
    Ok(Some(OutgoingNotice { destination: h.url.clone(), notification }))
}

} // verus!
