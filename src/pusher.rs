use vstd::prelude::*;
use crate::error::Error;
use crate::push::{
    Action, NotificationPriority, OutgoingNotice, PduEvent, Pusher, PusherIds, PusherKind,
    build_notice, built_as_expected, decide, first_decision, is_event_id_only, notify_class_count,
    raises_priority, room_name_invalid, tweaks_of,
};

verus! {

/// What a user asks of the pusher store.
pub enum PusherAction {
    /// Registers the pusher, replacing the user's pusher with its pushkey.
    Post(Pusher),
    /// Removes the user's pusher with these ids' pushkey.
    Delete(PusherIds),
}

/// Whether registry entry `e` is `user`'s pusher with pushkey `key`.
pub open spec fn is_key(e: (Seq<char>, Pusher), user: Seq<char>, key: Seq<char>) -> bool {
    e.0 == user && e.1.ids.pushkey@ == key
}

/// The entries of `s` other than `user`'s pusher with pushkey `key`.
pub open spec fn without_key(s: Seq<(Seq<char>, Pusher)>, user: Seq<char>, key: Seq<char>) -> Seq<
    (Seq<char>, Pusher),
>
    decreases s.len(),
{
    if s.len() == 0 {
        s
    } else if is_key(s.last(), user, key) {
        without_key(s.drop_last(), user, key)
    } else {
        without_key(s.drop_last(), user, key).push(s.last())
    }
}

/// `user`'s pusher with pushkey `key` in `s`, the latest registered if several.
pub open spec fn lookup(s: Seq<(Seq<char>, Pusher)>, user: Seq<char>, key: Seq<char>) -> Option<Pusher>
    decreases s.len(),
{
    if s.len() == 0 {
        None
    } else if is_key(s.last(), user, key) {
        Some(s.last().1)
    } else {
        lookup(s.drop_last(), user, key)
    }
}

/// `user`'s pushers in `s`, in the order they were registered.
pub open spec fn pushers_of(s: Seq<(Seq<char>, Pusher)>, user: Seq<char>) -> Seq<Pusher>
    decreases s.len(),
{
    if s.len() == 0 {
        Seq::empty()
    } else if s.last().0 == user {
        pushers_of(s.drop_last(), user).push(s.last().1)
    } else {
        pushers_of(s.drop_last(), user)
    }
}

/// Once `user`'s pusher with pushkey `key` is removed, no such pusher is
/// found.
pub proof fn lemma_removed_pusher_is_gone(s: Seq<(Seq<char>, Pusher)>, user: Seq<char>, key: Seq<char>)
    ensures
        lookup(without_key(s, user, key), user, key) is None,
    decreases s.len(),
{
    if s.len() > 0 {
        lemma_removed_pusher_is_gone(s.drop_last(), user, key);
        let w = without_key(s.drop_last(), user, key);
        if !is_key(s.last(), user, key) {
            assert(w.push(s.last()).drop_last() =~= w);
        }
    }
}

/// Once `user` posts pusher `p`, it is the pusher found under its pushkey.
pub proof fn lemma_posted_pusher_is_found(s: Seq<(Seq<char>, Pusher)>, user: Seq<char>, p: Pusher)
    ensures
        lookup(without_key(s, user, p.ids.pushkey@).push((user, p)), user, p.ids.pushkey@) == Some(p),
{
}

/// Whether `r` is what dispatching `event` to `pusher` gives, when the
/// matched push rule's actions are `actions`: an error for more than one
/// notify-class action; nothing to send unless the one such action is
/// `Notify`; else what building the notice gives.
pub open spec fn dispatched_as_expected(
    r: Result<Option<OutgoingNotice>, Error>,
    unread: u64,
    pusher: Pusher,
    actions: Seq<Action>,
    event: PduEvent,
    sender_display_name: Option<String>,
    room_name_content: Option<String>,
) -> bool {
    if notify_class_count(actions) >= 2 {
        r == Err::<Option<OutgoingNotice>, Error>(Error::MalformedPushRule)
    } else if first_decision(actions) == Some(true) {
        built_as_expected(
            r,
            unread,
            pusher,
            tweaks_of(actions),
            event,
            sender_display_name,
            room_name_content,
        )
    } else {
        r matches Ok(None)
    }
}

/// The push dispatch service, with the registered pushers of each user.
pub struct Service {
    pushers: Vec<(String, Pusher)>,
}

impl Service {
    pub fn new() -> (r: Service)
        ensures
            r.registered() == Seq::<(Seq<char>, Pusher)>::empty(),
    {
        let r = Service { pushers: Vec::new() };
        assert(r.registered() =~= Seq::<(Seq<char>, Pusher)>::empty());
        r
    }

    /// The registered pushers, each with its owning user.
    pub closed spec fn registered(&self) -> Seq<(Seq<char>, Pusher)> {
        self.pushers@.map_values(|e: (String, Pusher)| (e.0@, e.1))
    }

    /// Registers or removes a pusher of `user`.
    pub fn set_pusher(&mut self, user: &String, action: PusherAction) -> (r: Result<(), Error>)
        ensures
            r is Ok,
            match action {
                PusherAction::Post(p) => final(self).registered() == without_key(
                    old(self).registered(),
                    user@,
                    p.ids.pushkey@,
                ).push((user@, p)),
                PusherAction::Delete(ids) => final(self).registered() == without_key(
                    old(self).registered(),
                    user@,
                    ids.pushkey@,
                ),
            },
    {
        let ghost old_registered = self.registered();
        let key = match &action {
            PusherAction::Post(p) => p.ids.pushkey.clone(),
            PusherAction::Delete(ids) => ids.pushkey.clone(),
        };
        let mut kept: Vec<(String, Pusher)> = Vec::new();
        let mut i: usize = 0;
        while i < self.pushers.len()
            invariant
                i <= self.pushers@.len(),
                self.registered() == old_registered,
                kept@.map_values(|e: (String, Pusher)| (e.0@, e.1)) == without_key(
                    old_registered.subrange(0, i as int),
                    user@,
                    key@,
                ),
            decreases self.pushers@.len() - i,
        {
            let ghost kv = kept@;
            proof {
                assert(old_registered.subrange(0, i as int + 1).drop_last() =~= old_registered.subrange(0, i as int));
            }
            if !(self.pushers[i].0 == *user && self.pushers[i].1.ids.pushkey == key) {
                kept.push((self.pushers[i].0.clone(), self.pushers[i].1.duplicate()));
                proof {
                    assert(kept@.map_values(|e: (String, Pusher)| (e.0@, e.1)) =~= kv.map_values(|e: (String, Pusher)| (e.0@, e.1)).push(old_registered[i as int]));
                }
            }
            i = i + 1;
        }
        proof {
            assert(old_registered.subrange(0, self.pushers@.len() as int) =~= old_registered);
        }
        let ghost kv = kept@;
        match action {
            PusherAction::Post(p) => {
                kept.push((user.clone(), p));
                proof {
                    assert(kept@.map_values(|e: (String, Pusher)| (e.0@, e.1)) =~= kv.map_values(|e: (String, Pusher)| (e.0@, e.1)).push((user@, p)));
                }
            },
            PusherAction::Delete(_) => {},
        }
        self.pushers = kept;
        Ok(())
    }

    /// `user`'s pusher with pushkey `pushkey`, if there is one.
    pub fn get_pusher(&self, user: &String, pushkey: &String) -> (r: Result<Option<Pusher>, Error>)
        ensures
            r matches Ok(p) && p == lookup(self.registered(), user@, pushkey@),
    {
        let mut found: Option<Pusher> = None;
        let mut i: usize = 0;
        while i < self.pushers.len()
            invariant
                i <= self.pushers@.len(),
                found == lookup(self.registered().subrange(0, i as int), user@, pushkey@),
            decreases self.pushers@.len() - i,
        {
            proof {
                assert(self.registered().subrange(0, i as int + 1).drop_last() =~= self.registered().subrange(0, i as int));
            }
            if self.pushers[i].0 == *user && self.pushers[i].1.ids.pushkey == *pushkey {
                found = Some(self.pushers[i].1.duplicate());
            }
            i = i + 1;
        }
        proof {
            assert(self.registered().subrange(0, self.pushers@.len() as int) =~= self.registered());
        }
        Ok(found)
    }

    /// `user`'s pushers, in the order they were registered.
    pub fn get_pushers(&self, user: &String) -> (r: Result<Vec<Pusher>, Error>)
        ensures
            r matches Ok(v) && v@ == pushers_of(self.registered(), user@),
    {
        let mut found: Vec<Pusher> = Vec::new();
        let mut i: usize = 0;
        while i < self.pushers.len()
            invariant
                i <= self.pushers@.len(),
                found@ == pushers_of(self.registered().subrange(0, i as int), user@),
            decreases self.pushers@.len() - i,
        {
            proof {
                assert(self.registered().subrange(0, i as int + 1).drop_last() =~= self.registered().subrange(0, i as int));
            }
            if self.pushers[i].0 == *user {
                found.push(self.pushers[i].1.duplicate());
            }
            i = i + 1;
        }
        proof {
            assert(self.registered().subrange(0, self.pushers@.len() as int) =~= self.registered());
        }
        Ok(found)
    }

    /// The pushkeys of `user`'s pushers, in the order they were registered.
    pub fn get_pushkeys(&self, user: &String) -> (r: Vec<String>)
        ensures
            r@.len() == pushers_of(self.registered(), user@).len(),
            forall|i: int|
                0 <= i < r@.len() ==> #[trigger] r@[i] == pushers_of(self.registered(), user@)[i].ids.pushkey,
    {
        let mut keys: Vec<String> = Vec::new();
        let mut i: usize = 0;
        while i < self.pushers.len()
            invariant
                i <= self.pushers@.len(),
                keys@.len() == pushers_of(self.registered().subrange(0, i as int), user@).len(),
                forall|j: int|
                    0 <= j < keys@.len() ==> #[trigger] keys@[j] == pushers_of(
                        self.registered().subrange(0, i as int),
                        user@,
                    )[j].ids.pushkey,
            decreases self.pushers@.len() - i,
        {
            proof {
                assert(self.registered().subrange(0, i as int + 1).drop_last() =~= self.registered().subrange(0, i as int));
            }
            if self.pushers[i].0 == *user {
                keys.push(self.pushers[i].1.ids.pushkey.clone());
            }
            i = i + 1;
        }
        proof {
            assert(self.registered().subrange(0, self.pushers@.len() as int) =~= self.registered());
        }
        keys
    }

    /// Decides whether `event` notifies through `pusher` and builds the
    /// notification to send, if any. `actions` are those of the push rule
    /// that matched the event; `sender_display_name` and `room_name_content`
    /// are the sender's display name and the content of the room's name
    /// event. `Ok(None)` means that no request is to be made.
    pub fn send_push_notice(
        &self,
        unread: u64,
        pusher: &Pusher,
        actions: &Vec<Action>,
        event: &PduEvent,
        sender_display_name: Option<String>,
        room_name_content: Option<String>,
    ) -> (r: Result<Option<OutgoingNotice>, Error>)
        ensures
            dispatched_as_expected(
                r,
                unread,
                *pusher,
                actions@,
                *event,
                sender_display_name,
                room_name_content,
            ),
    {
        let decision = match decide(actions) {
            Ok(d) => d,
            Err(e) => {
                return Err(e);
            },
        };
        match decision.notify {
            Some(true) => build_notice(
                unread,
                pusher,
                decision.tweaks,
                event,
                sender_display_name,
                room_name_content,
            ),
            _ => Ok(None),
        }
    }
}

/// With exactly one notify-class action, dispatch reports no malformed rule,
/// and it succeeds unless a full payload needs a room name event that does
/// not decode.
pub proof fn lemma_single_decision_is_not_malformed(
    r: Result<Option<OutgoingNotice>, Error>,
    unread: u64,
    pusher: Pusher,
    actions: Seq<Action>,
    event: PduEvent,
    sender_display_name: Option<String>,
    room_name_content: Option<String>,
)
    requires
        dispatched_as_expected(
            r,
            unread,
            pusher,
            actions,
            event,
            sender_display_name,
            room_name_content,
        ),
        notify_class_count(actions) == 1,
    ensures
        r != Err::<Option<OutgoingNotice>, Error>(Error::MalformedPushRule),
        !room_name_invalid(room_name_content) ==> r is Ok,
{
}

/// With two or more notify-class actions, dispatch reports a malformed rule
/// and leaves nothing to send.
pub proof fn lemma_conflicting_decisions_are_malformed(
    r: Result<Option<OutgoingNotice>, Error>,
    unread: u64,
    pusher: Pusher,
    actions: Seq<Action>,
    event: PduEvent,
    sender_display_name: Option<String>,
    room_name_content: Option<String>,
)
    requires
        dispatched_as_expected(
            r,
            unread,
            pusher,
            actions,
            event,
            sender_display_name,
            room_name_content,
        ),
        notify_class_count(actions) >= 2,
    ensures
        r == Err::<Option<OutgoingNotice>, Error>(Error::MalformedPushRule),
{
}

/// A notice to an event-id-only gateway carries no tweaks and identifies the
/// event by its event id and room id alone.
pub proof fn lemma_event_id_only_is_minimal(
    r: Result<Option<OutgoingNotice>, Error>,
    unread: u64,
    pusher: Pusher,
    actions: Seq<Action>,
    event: PduEvent,
    sender_display_name: Option<String>,
    room_name_content: Option<String>,
)
    requires
        dispatched_as_expected(
            r,
            unread,
            pusher,
            actions,
            event,
            sender_display_name,
            room_name_content,
        ),
        pusher.kind matches PusherKind::Http(h) && is_event_id_only(h),
        r matches Ok(Some(_)),
    ensures
        ({
            let n = r->Ok_0->Some_0.notification;
            &&& n.devices@.len() == 1
            &&& n.devices@[0].tweaks@.len() == 0
            &&& n.event_id == Some(event.event_id)
            &&& n.room_id == Some(event.room_id)
            &&& n.sender is None
            &&& n.event_type is None
            &&& n.content is None
            &&& n.sender_display_name is None
            &&& n.room_name is None
        }),
{
}

/// A notice is high priority exactly when the event is encrypted or a tweak
/// asks for a highlight or a sound.
pub proof fn lemma_priority_rule(
    r: Result<Option<OutgoingNotice>, Error>,
    unread: u64,
    pusher: Pusher,
    actions: Seq<Action>,
    event: PduEvent,
    sender_display_name: Option<String>,
    room_name_content: Option<String>,
)
    requires
        dispatched_as_expected(
            r,
            unread,
            pusher,
            actions,
            event,
            sender_display_name,
            room_name_content,
        ),
        r matches Ok(Some(_)),
    ensures
        (r->Ok_0->Some_0.notification.prio == NotificationPriority::High) <==> (event.kind is RoomEncrypted
            || exists|i: int|
            0 <= i < tweaks_of(actions).len() && raises_priority(#[trigger] tweaks_of(actions)[i])),
{
}

/// An email pusher, or one of a kind this server does not handle, never
/// fails and leaves nothing to send.
pub proof fn lemma_non_http_sends_nothing(
    r: Result<Option<OutgoingNotice>, Error>,
    unread: u64,
    pusher: Pusher,
    actions: Seq<Action>,
    event: PduEvent,
    sender_display_name: Option<String>,
    room_name_content: Option<String>,
)
    requires
        dispatched_as_expected(
            r,
            unread,
            pusher,
            actions,
            event,
            sender_display_name,
            room_name_content,
        ),
        !(pusher.kind is Http),
        notify_class_count(actions) <= 1,
    ensures
        r matches Ok(None),
{
}

} // verus!
