//! The connection proxy: one instance per live duplex connection.
//!
//! The proxy owns the connection's identity and its role, enforces the
//! one-way client-to-pod promotion, and stamps everything bound for the
//! hub with the connection's own identifier — an identifier proposed by
//! the far end is never trusted. The proxy holds no transport state
//! itself: each operation returns what is to be sent or forwarded, and
//! the transport adapter performs it.

use vstd::prelude::*;

use crate::hub::{IdedPodRequest, SubscribeClient, SubscribePod, UnsubscribeClient};
use crate::protocols::{
    ClientRequestAsync, ClientRequestAsyncView, PodId, PodRequest, PodRequestView, PodResponse,
    PodResponseView,
};
use crate::websocket::{CloseCode, CloseReason};

verus! {

/// A connection's role: every connection is an implicit client from the
/// moment it is accepted, and may be promoted to a pod exactly once, by
/// explicit registration. There is no way back.
#[derive(Debug, Eq, PartialEq, Clone, Copy, Structural)]
pub enum Role {
    /// Not registered as a pod; behaves as a plain client.
    Unregistered,
    /// Registered as a pod; terminal for this dimension.
    RegisteredAsPod,
}

/// The connection proxy: the connection's identity and role.
#[derive(Debug, Eq, PartialEq, Clone, Copy, Structural)]
pub struct WebClient {
    /// This connection's identifier, assigned once at accept time.
    pub id: PodId,
    /// Whether this connection has registered as a pod.
    pub role: Role,
}

/// What the proxy does with one pod-role message.
#[derive(Debug, PartialEq)]
pub enum ProxyAction {
    /// Reply to the connection, with nothing for the hub.
    Respond(PodResponse),
    /// Announce a new pod to the hub and reply to the connection.
    Register(SubscribePod, PodResponse),
    /// Forward the stamped message to the hub.
    Forward(IdedPodRequest),
    /// A protocol violation: tell the transport to close the connection.
    Violation(CloseReason),
}

impl WebClient {
    /// A freshly accepted connection: a plain client, not yet a pod.
    pub fn new(id: PodId) -> (r: Self)
        ensures
            r.id == id,
            r.role == Role::Unregistered,
    {
        WebClient { id, role: Role::Unregistered }
    }

    /// The hub command announcing this connection's client subscription,
    /// sent once at accept time.
    pub fn connect_command(&self) -> (c: SubscribeClient)
        ensures
            c.id == self.id,
    {
        SubscribeClient { id: self.id }
    }

    /// The hub command removing this connection's client subscription
    /// (and its pod record, if it registered), sent once at disconnect.
    pub fn disconnect_command(&self) -> (c: UnsubscribeClient)
        ensures
            c.0 == self.id,
    {
        UnsubscribeClient(self.id)
    }

    /// Handles one pod-role message.
    ///
    /// A first registration promotes the connection and announces the pod
    /// to the hub under the connection's own identifier — a proposed
    /// identifier in the message is ignored. A repeated registration is
    /// answered `AlreadyRegistered` with the same identifier and nothing
    /// goes to the hub, so at most one `SubscribePod` is ever produced.
    /// Any other pod message is stamped and forwarded when the connection
    /// is a pod, and is a policy violation when it is not: the hub is
    /// never consulted for it.
    pub fn handle_pod_request(&mut self, msg: PodRequest) -> (a: ProxyAction)
        ensures
            final(self).id == old(self).id,
            // promotion is one-way, and happens exactly on the first
            // registration
            old(self).role == Role::RegisteredAsPod ==> final(self).role
                == Role::RegisteredAsPod,
            final(self).role == (if msg@ matches PodRequestView::RegisterSelf { .. } {
                Role::RegisteredAsPod
            } else {
                old(self).role
            }),
            msg@ matches PodRequestView::RegisterSelf { name, .. } ==> (old(self).role
                == Role::Unregistered ==> (a matches ProxyAction::Register(cmd, resp) && cmd.id
                == old(self).id && cmd.name@ == name && resp@ == (PodResponseView::Registered {
                global_id: old(self).id,
            }))),
            (msg@ matches PodRequestView::RegisterSelf { .. } && old(self).role
                == Role::RegisteredAsPod) ==> (a matches ProxyAction::Respond(resp) && resp@
                == (PodResponseView::AlreadyRegistered { global_id: old(self).id })),
            (!(msg@ matches PodRequestView::RegisterSelf { .. }) && old(self).role
                == Role::RegisteredAsPod) ==> (a matches ProxyAction::Forward(req) && req.id
                == old(self).id && req.message@ == msg@),
            (!(msg@ matches PodRequestView::RegisterSelf { .. }) && old(self).role
                == Role::Unregistered) ==> (a matches ProxyAction::Violation(reason)
                && reason.code == CloseCode::Policy),
    {
        match msg {
            PodRequest::RegisterSelf { proposed_id: _, name } => {
                match self.role {
                    Role::Unregistered => {
                        self.role = Role::RegisteredAsPod;
                        ProxyAction::Register(
                            SubscribePod { id: self.id, name },
                            PodResponse::Registered { global_id: self.id },
                        )
                    },
                    Role::RegisteredAsPod => ProxyAction::Respond(
                        PodResponse::AlreadyRegistered { global_id: self.id },
                    ),
                }
            },
            other_message => {
                match self.role {
                    Role::RegisteredAsPod => ProxyAction::Forward(
                        IdedPodRequest { id: self.id, message: other_message },
                    ),
                    Role::Unregistered => ProxyAction::Violation(
                        CloseReason { code: CloseCode::Policy, description: None },
                    ),
                }
            },
        }
    }

    /// Stamps an image request with this connection's own identity as the
    /// requesting client — a client-supplied identifier is never trusted.
    pub fn stamp_image_request(&self, msg: ClientRequestAsync) -> (r: ClientRequestAsync)
        ensures
            msg@ matches ClientRequestAsyncView::RequestImage { gallery_id, path, .. } ==> r@
                == (ClientRequestAsyncView::RequestImage { gallery_id, path, client_id: self.id }),
    {
        match msg {
            ClientRequestAsync::RequestImage { gallery_id, path, client_id: _ } => {
                ClientRequestAsync::RequestImage { gallery_id, path, client_id: self.id }
            },
        }
    }
}

} // verus!
