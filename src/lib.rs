use vstd::prelude::*;

pub mod context;
pub mod error;
pub mod gateway;
pub mod json;
pub mod pdu_metadata;
pub mod push;
pub mod pusher;

verus! {

/// The services of the server core, each handed its own state.
pub struct Services {
    pub pusher: pusher::Service,
    pub pdu_metadata: pdu_metadata::Service,
}

impl Services {
    /// Builds every service in its initial state: no pushers, no relation
    /// edges and no marks.
    pub fn build() -> (r: Services)
        ensures
            r.pusher.registered() == Seq::<(Seq<char>, push::Pusher)>::empty(),
            r.pdu_metadata.wf(),
            r.pdu_metadata.ids() == Seq::<Seq<char>>::empty(),
            r.pdu_metadata.edges() == Set::<(u64, u64)>::empty(),
            r.pdu_metadata.referenced_set() == Set::<(Seq<char>, Seq<char>)>::empty(),
            r.pdu_metadata.soft_failed_set() == Set::<Seq<char>>::empty(),
    {
        Services { pusher: pusher::Service::new(), pdu_metadata: pdu_metadata::Service::new() }
    }
}

} // verus!
