//! The protocol messages exchanged between clients, pods and the hub.
//!
//! Every message is already parsed: wire encoding and decoding is the
//! transport adapter's concern. Each executable message type has a
//! spec-level view over mathematical values (`Seq<char>` for strings,
//! `int` for timestamps), and the hub's contracts are stated over these
//! views.

use vstd::prelude::*;

verus! {

/// A connection identifier, unique for the lifetime of the hub process.
/// The same identifier space names pods and clients: a connection is
/// always a client and may additionally be registered as a pod.
pub type PodId = u64;

/// Spec-level view of [`PodDescription`].
pub ghost struct PodDescriptionView {
    pub id: PodId,
    pub name: Seq<char>,
    pub paths: Seq<Seq<char>>,
    pub last_modified: int,
}

/// One pod's public listing: its identifier, display name, served asset
/// paths and the time of the last change to its listing (milliseconds
/// since the Unix epoch).
#[derive(Debug, Clone, PartialEq)]
pub struct PodDescription {
    pub id: PodId,
    pub name: String,
    pub paths: Vec<String>,
    pub last_modified: i64,
}

impl View for PodDescription {
    type V = PodDescriptionView;

    open spec fn view(&self) -> PodDescriptionView {
        PodDescriptionView {
            id: self.id,
            name: self.name@,
            paths: self.paths.deep_view(),
            last_modified: self.last_modified as int,
        }
    }
}

impl DeepView for PodDescription {
    type V = PodDescriptionView;

    open spec fn deep_view(&self) -> PodDescriptionView {
        self.view()
    }
}

/// Spec-level view of [`ClientResponse`].
pub ghost enum ClientResponseView {
    Pods(Seq<PodDescriptionView>),
    NewPod { id: PodId, name: Seq<char> },
    UnknownPod(PodId),
    PodGone(PodId),
    PodUpdateName { id: PodId, name: Seq<char> },
    PodUpdatePaths { id: PodId, paths: Seq<Seq<char>>, replace_images: bool, last_modified: int },
    DeliverImage { gallery_id: PodId, path: Seq<char>, blob: Seq<char> },
}

/// Hub -> client messages: the subscribe-time snapshot, the
/// directory-change broadcasts, and direct replies (unknown-pod
/// acknowledgements and image deliveries).
#[derive(Debug, Clone, PartialEq)]
pub enum ClientResponse {
    Pods(Vec<PodDescription>),
    NewPod { id: PodId, name: String },
    UnknownPod(PodId),
    PodGone(PodId),
    PodUpdateName { id: PodId, name: String },
    PodUpdatePaths { id: PodId, paths: Vec<String>, replace_images: bool, last_modified: i64 },
    DeliverImage { gallery_id: PodId, path: String, blob: String },
}

impl View for ClientResponse {
    type V = ClientResponseView;

    open spec fn view(&self) -> ClientResponseView {
        match self {
            ClientResponse::Pods(pods) => ClientResponseView::Pods(pods.deep_view()),
            ClientResponse::NewPod { id, name } => ClientResponseView::NewPod {
                id: *id,
                name: name@,
            },
            ClientResponse::UnknownPod(id) => ClientResponseView::UnknownPod(*id),
            ClientResponse::PodGone(id) => ClientResponseView::PodGone(*id),
            ClientResponse::PodUpdateName { id, name } => ClientResponseView::PodUpdateName {
                id: *id,
                name: name@,
            },
            ClientResponse::PodUpdatePaths { id, paths, replace_images, last_modified } => {
                ClientResponseView::PodUpdatePaths {
                    id: *id,
                    paths: paths.deep_view(),
                    replace_images: *replace_images,
                    last_modified: *last_modified as int,
                }
            },
            ClientResponse::DeliverImage { gallery_id, path, blob } => {
                ClientResponseView::DeliverImage {
                    gallery_id: *gallery_id,
                    path: path@,
                    blob: blob@,
                }
            },
        }
    }
}

impl DeepView for ClientResponse {
    type V = ClientResponseView;

    open spec fn deep_view(&self) -> ClientResponseView {
        self.view()
    }
}

/// Spec-level view of [`ClientRequest`].
pub ghost enum ClientRequestView {
    ListAllPods,
    ListPodStructure(PodId),
}

/// Client -> hub requests answered directly with a [`ClientResponse`].
#[derive(Debug, PartialEq)]
pub enum ClientRequest {
    ListAllPods,
    ListPodStructure(PodId),
}

impl View for ClientRequest {
    type V = ClientRequestView;

    open spec fn view(&self) -> ClientRequestView {
        match self {
            ClientRequest::ListAllPods => ClientRequestView::ListAllPods,
            ClientRequest::ListPodStructure(id) => ClientRequestView::ListPodStructure(*id),
        }
    }
}

impl DeepView for ClientRequest {
    type V = ClientRequestView;

    open spec fn deep_view(&self) -> ClientRequestView {
        self.view()
    }
}

/// Spec-level view of [`ClientRequestAsync`].
pub ghost enum ClientRequestAsyncView {
    RequestImage { gallery_id: PodId, path: Seq<char>, client_id: PodId },
}

/// Client -> hub fire-and-forget requests; the result is delivered later.
/// The `client_id` is stamped by the connection proxy, never taken from
/// the message body.
#[derive(Debug, PartialEq)]
pub enum ClientRequestAsync {
    RequestImage { gallery_id: PodId, path: String, client_id: PodId },
}

impl View for ClientRequestAsync {
    type V = ClientRequestAsyncView;

    open spec fn view(&self) -> ClientRequestAsyncView {
        match self {
            ClientRequestAsync::RequestImage { gallery_id, path, client_id } => {
                ClientRequestAsyncView::RequestImage {
                    gallery_id: *gallery_id,
                    path: path@,
                    client_id: *client_id,
                }
            },
        }
    }
}

impl DeepView for ClientRequestAsync {
    type V = ClientRequestAsyncView;

    open spec fn deep_view(&self) -> ClientRequestAsyncView {
        self.view()
    }
}

/// Spec-level view of [`PodRequest`].
pub ghost enum PodRequestView {
    RegisterSelf { proposed_id: Option<PodId>, name: Seq<char> },
    UpdateTitle { name: Seq<char> },
    UpdatePaths { paths: Seq<Seq<char>>, replace_images: bool },
    DeliverImage { client_id: PodId, path: Seq<char>, blob: Seq<char> },
}

/// Pod -> hub messages. A proposed identifier inside `RegisterSelf` is
/// never trusted for identity: the connection's own identifier is used.
#[derive(Debug, PartialEq)]
pub enum PodRequest {
    RegisterSelf { proposed_id: Option<PodId>, name: String },
    UpdateTitle { name: String },
    UpdatePaths { paths: Vec<String>, replace_images: bool },
    DeliverImage { client_id: PodId, path: String, blob: String },
}

impl View for PodRequest {
    type V = PodRequestView;

    open spec fn view(&self) -> PodRequestView {
        match self {
            PodRequest::RegisterSelf { proposed_id, name } => PodRequestView::RegisterSelf {
                proposed_id: *proposed_id,
                name: name@,
            },
            PodRequest::UpdateTitle { name } => PodRequestView::UpdateTitle { name: name@ },
            PodRequest::UpdatePaths { paths, replace_images } => PodRequestView::UpdatePaths {
                paths: paths.deep_view(),
                replace_images: *replace_images,
            },
            PodRequest::DeliverImage { client_id, path, blob } => PodRequestView::DeliverImage {
                client_id: *client_id,
                path: path@,
                blob: blob@,
            },
        }
    }
}

impl DeepView for PodRequest {
    type V = PodRequestView;

    open spec fn deep_view(&self) -> PodRequestView {
        self.view()
    }
}

/// Spec-level view of [`PodResponse`].
pub ghost enum PodResponseView {
    Registered { global_id: PodId },
    AlreadyRegistered { global_id: PodId },
    RequestImage { client_id: PodId, path: Seq<char> },
}

/// Hub -> pod messages: registration results and forwarded image requests.
#[derive(Debug, Clone, PartialEq)]
pub enum PodResponse {
    Registered { global_id: PodId },
    AlreadyRegistered { global_id: PodId },
    RequestImage { client_id: PodId, path: String },
}

impl View for PodResponse {
    type V = PodResponseView;

    open spec fn view(&self) -> PodResponseView {
        match self {
            PodResponse::Registered { global_id } => PodResponseView::Registered {
                global_id: *global_id,
            },
            PodResponse::AlreadyRegistered { global_id } => PodResponseView::AlreadyRegistered {
                global_id: *global_id,
            },
            PodResponse::RequestImage { client_id, path } => PodResponseView::RequestImage {
                client_id: *client_id,
                path: path@,
            },
        }
    }
}

impl DeepView for PodResponse {
    type V = PodResponseView;

    open spec fn deep_view(&self) -> PodResponseView {
        self.view()
    }
}

/// Spec-level view of [`JsonProtocol`].
pub ghost enum JsonProtocolView {
    ClientRequest(ClientRequestView),
    ClientRequestAsync(ClientRequestAsyncView),
    ClientResponse(ClientResponseView),
    PodRequest(PodRequestView),
    PodResponse(PodResponseView),
}

/// The envelope uniting every message kind of the protocol; the transport
/// adapter encodes and decodes exactly this type.
#[derive(Debug, PartialEq)]
pub enum JsonProtocol {
    ClientRequest(ClientRequest),
    ClientRequestAsync(ClientRequestAsync),
    ClientResponse(ClientResponse),
    PodRequest(PodRequest),
    PodResponse(PodResponse),
}

impl View for JsonProtocol {
    type V = JsonProtocolView;

    open spec fn view(&self) -> JsonProtocolView {
        match self {
            JsonProtocol::ClientRequest(m) => JsonProtocolView::ClientRequest(m@),
            JsonProtocol::ClientRequestAsync(m) => JsonProtocolView::ClientRequestAsync(m@),
            JsonProtocol::ClientResponse(m) => JsonProtocolView::ClientResponse(m@),
            JsonProtocol::PodRequest(m) => JsonProtocolView::PodRequest(m@),
            JsonProtocol::PodResponse(m) => JsonProtocolView::PodResponse(m@),
        }
    }
}

impl DeepView for JsonProtocol {
    type V = JsonProtocolView;

    open spec fn deep_view(&self) -> JsonProtocolView {
        self.view()
    }
}

/// Copies a vector of strings; the copy has the same view.
pub fn clone_strings(v: &Vec<String>) -> (r: Vec<String>)
    ensures
        r@ == v@,
{
    let mut r: Vec<String> = Vec::new();
    let mut i: usize = 0;
    while i < v.len()
        invariant
            i <= v.len(),
            r@ == v@.subrange(0, i as int),
        decreases v.len() - i,
    {
        r.push(v[i].clone());
        proof {
            assert(r@ =~= v@.subrange(0, i as int + 1));
        }
        i = i + 1;
    }
    proof {
        assert(r@ =~= v@);
    }
    r
}

impl PodDescription {
    /// A copy of this description, equal to it in every field.
    pub fn duplicate(&self) -> (r: Self)
        ensures
            r@ == self@,
    {
        PodDescription {
            id: self.id,
            name: self.name.clone(),
            paths: clone_strings(&self.paths),
            last_modified: self.last_modified,
        }
    }
}

/// Copies a vector of pod descriptions; the copy has the same deep view.
pub fn clone_descriptions(v: &Vec<PodDescription>) -> (r: Vec<PodDescription>)
    ensures
        r.deep_view() == v.deep_view(),
{
    let mut r: Vec<PodDescription> = Vec::new();
    let mut i: usize = 0;
    while i < v.len()
        invariant
            i <= v.len(),
            r@.len() == i as int,
            forall|j: int| 0 <= j < i as int ==> r@[j]@ == v@[j]@,
        decreases v.len() - i,
    {
        r.push(v[i].duplicate());
        i = i + 1;
    }
    proof {
        assert forall|j: int| 0 <= j < v@.len() implies r.deep_view()[j] == v.deep_view()[j] by {
            assert(r@[j]@ == v@[j]@);
        }
        assert(r.deep_view() =~= v.deep_view());
    }
    r
}

impl ClientResponse {
    /// A copy of this message with the same view; broadcasting sends one
    /// such copy to every subscribed client.
    pub fn duplicate(&self) -> (r: Self)
        ensures
            r@ == self@,
    {
        match self {
            ClientResponse::Pods(pods) => ClientResponse::Pods(clone_descriptions(pods)),
            ClientResponse::NewPod { id, name } => ClientResponse::NewPod {
                id: *id,
                name: name.clone(),
            },
            ClientResponse::UnknownPod(id) => ClientResponse::UnknownPod(*id),
            ClientResponse::PodGone(id) => ClientResponse::PodGone(*id),
            ClientResponse::PodUpdateName { id, name } => ClientResponse::PodUpdateName {
                id: *id,
                name: name.clone(),
            },
            ClientResponse::PodUpdatePaths { id, paths, replace_images, last_modified } => {
                ClientResponse::PodUpdatePaths {
                    id: *id,
                    paths: clone_strings(paths),
                    replace_images: *replace_images,
                    last_modified: *last_modified,
                }
            },
            ClientResponse::DeliverImage { gallery_id, path, blob } => {
                ClientResponse::DeliverImage {
                    gallery_id: *gallery_id,
                    path: path.clone(),
                    blob: blob.clone(),
                }
            },
        }
    }
}

} // verus!
