//! The hub routing engine: the sole owner of the directory.
//!
//! The directory is the registry of currently registered pods and
//! currently subscribed clients. Every mutating operation executes
//! atomically with respect to it and returns the outbound messages it
//! gives rise to — the caller owns the transport and performs the actual
//! sends, in the order returned. Broadcasts address every subscribed
//! client; point-to-point routing addresses one connection by identifier.
//!
//! The directory is modelled as a map from pod identifier to pod record
//! plus the sequence of subscribed client identifiers; each operation's
//! contract states the new directory and the addressed messages exactly.

use vstd::prelude::*;

use crate::clock::now_millis;
use crate::paths::{normal_form, normalize_paths};
use crate::protocols::{
    clone_strings, ClientRequest, ClientResponse, ClientResponseView, JsonProtocol,
    JsonProtocolView, PodDescription, PodDescriptionView, PodId, PodRequest, PodRequestView,
    PodResponse, PodResponseView,
};

verus! {

/// Spec-level view of [`PodInfo`].
pub ghost struct PodInfoView {
    pub name: Seq<char>,
    pub paths: Seq<Seq<char>>,
    pub last_modified: int,
}

/// One pod's directory record: its display name, the asset paths it
/// serves (always in normal form), and the time its listing last changed.
/// The pod's outbound handle lives with the transport adapter, keyed by
/// the same identifier.
#[derive(Debug, PartialEq)]
pub struct PodInfo {
    pub name: String,
    pub image_paths: Vec<String>,
    pub last_modified: i64,
}

impl View for PodInfo {
    type V = PodInfoView;

    open spec fn view(&self) -> PodInfoView {
        PodInfoView {
            name: self.name@,
            paths: self.image_paths.deep_view(),
            last_modified: self.last_modified as int,
        }
    }
}

/// Spec-level view of [`Outbound`].
pub ghost struct OutboundView {
    pub dest: PodId,
    pub msg: JsonProtocolView,
}

/// One message addressed to one connection; the transport adapter looks
/// the destination up among its live connections and performs the send.
#[derive(Debug, PartialEq)]
pub struct Outbound {
    pub dest: PodId,
    pub msg: JsonProtocol,
}

impl View for Outbound {
    type V = OutboundView;

    open spec fn view(&self) -> OutboundView {
        OutboundView { dest: self.dest, msg: self.msg@ }
    }
}

impl DeepView for Outbound {
    type V = OutboundView;

    open spec fn deep_view(&self) -> OutboundView {
        self.view()
    }
}

/// Whether some entry of `s` has key `k`.
pub open spec fn has_pod_key(s: Seq<(PodId, PodInfo)>, k: PodId) -> bool {
    exists|i: int| #![trigger s[i]] 0 <= i < s.len() && s[i].0 == k
}

/// The index of the entry with key `k`, when there is exactly one.
pub open spec fn key_index(s: Seq<(PodId, PodInfo)>, k: PodId) -> int {
    choose|i: int| #![trigger s[i]] 0 <= i < s.len() && s[i].0 == k
}

/// Whether the entries of `s` have pairwise distinct keys.
pub open spec fn unique_keys(s: Seq<(PodId, PodInfo)>) -> bool {
    forall|i: int, j: int| 0 <= i < j < s.len() ==> s[i].0 != s[j].0
}

/// The map an association list denotes, given unique keys.
pub open spec fn pods_map(s: Seq<(PodId, PodInfo)>) -> Map<PodId, PodInfoView> {
    Map::new(|k: PodId| has_pod_key(s, k), |k: PodId| s[key_index(s, k)].1@)
}

/// The listing entry a directory entry is published as.
pub open spec fn desc_of(id: PodId, p: PodInfoView) -> PodDescriptionView {
    PodDescriptionView { id, name: p.name, paths: p.paths, last_modified: p.last_modified }
}

/// The full listing an association list is published as, entry by entry.
pub open spec fn snapshot_of(s: Seq<(PodId, PodInfo)>) -> Seq<PodDescriptionView> {
    Seq::new(s.len(), |i: int| desc_of(s[i].0, s[i].1@))
}

/// The broadcast of one message: a copy addressed to every client, in
/// subscription order.
pub open spec fn broadcast_to(clients: Seq<PodId>, m: ClientResponseView) -> Seq<OutboundView> {
    Seq::new(
        clients.len(),
        |i: int| OutboundView { dest: clients[i], msg: JsonProtocolView::ClientResponse(m) },
    )
}

/// With unique keys, an entry's index is the one `key_index` picks, and
/// the denoted map holds that entry's record under its key.
proof fn lemma_key_index(s: Seq<(PodId, PodInfo)>, j: int)
    requires
        unique_keys(s),
        0 <= j < s.len(),
    ensures
        has_pod_key(s, s[j].0),
        key_index(s, s[j].0) == j,
        pods_map(s).dom().contains(s[j].0),
        pods_map(s)[s[j].0] == s[j].1@,
{
    let k = s[j].0;
    assert(has_pod_key(s, k)) by {
        assert(0 <= j < s.len() && s[j].0 == k);
    }
    let i = key_index(s, k);
    assert(0 <= i < s.len() && s[i].0 == k);
    if i < j {
        assert(s[i].0 != s[j].0);
    } else if j < i {
        assert(s[j].0 != s[i].0);
    }
}

/// Appending an entry with a fresh key denotes inserting it in the map.
proof fn lemma_pods_map_push(s: Seq<(PodId, PodInfo)>, k: PodId, v: PodInfo)
    requires
        unique_keys(s),
        !has_pod_key(s, k),
    ensures
        unique_keys(s.push((k, v))),
        pods_map(s.push((k, v))) == pods_map(s).insert(k, v@),
{
    let t = s.push((k, v));
    assert forall|p: int, q: int| 0 <= p < q < t.len() implies t[p].0 != t[q].0 by {
        if q < s.len() {
            assert(s[p].0 != s[q].0);
        } else {
            if t[p].0 == k {
                assert(0 <= p < s.len() && s[p].0 == k);
            }
        }
    }
    assert forall|x: PodId|
        pods_map(t).dom().contains(x) == pods_map(s).insert(k, v@).dom().contains(x) by {
        if has_pod_key(t, x) {
            let i = key_index(t, x);
            assert(0 <= i < t.len() && t[i].0 == x);
            if i < s.len() {
                assert(s[i].0 == x);
                assert(has_pod_key(s, x));
            } else {
                assert(x == k);
            }
        }
        if has_pod_key(s, x) {
            let i = key_index(s, x);
            assert(0 <= i < s.len() && s[i].0 == x);
            assert(t[i].0 == x);
            assert(has_pod_key(t, x));
        }
        if x == k {
            assert(t[s.len() as int].0 == k);
            assert(has_pod_key(t, k));
        }
    }
    assert forall|x: PodId| pods_map(t).dom().contains(x) implies pods_map(t)[x] == pods_map(
        s,
    ).insert(k, v@)[x] by {
        lemma_key_index(t, key_index(t, x));
        let i = key_index(t, x);
        assert(0 <= i < t.len() && t[i].0 == x);
        if x == k {
            if i < s.len() {
                assert(s[i].0 == k);
                assert(has_pod_key(s, k));
            }
            assert(i == s.len());
            assert(pods_map(t)[x] == v@);
        } else {
            assert(i < s.len());
            lemma_key_index(s, i);
            assert(pods_map(s)[x] == s[i].1@);
            assert(pods_map(t)[x] == t[i].1@);
        }
    }
    assert(pods_map(t) =~= pods_map(s).insert(k, v@));
}

/// Removing an entry denotes removing its key from the map; no entry with
/// that key remains.
proof fn lemma_pods_map_remove(s: Seq<(PodId, PodInfo)>, j: int)
    requires
        unique_keys(s),
        0 <= j < s.len(),
    ensures
        unique_keys(s.remove(j)),
        !has_pod_key(s.remove(j), s[j].0),
        pods_map(s.remove(j)) == pods_map(s).remove(s[j].0),
{
    let t = s.remove(j);
    let k = s[j].0;
    s.remove_ensures(j);
    assert forall|p: int, q: int| 0 <= p < q < t.len() implies t[p].0 != t[q].0 by {
        if q < j {
            assert(t[p] == s[p] && t[q] == s[q]);
        } else if p < j {
            assert(t[p] == s[p] && t[q] == s[q + 1]);
        } else {
            assert(t[p] == s[p + 1] && t[q] == s[q + 1]);
        }
    }
    assert forall|x: PodId| has_pod_key(t, x) implies has_pod_key(s, x) && x != k by {
        let i = key_index(t, x);
        assert(0 <= i < t.len() && t[i].0 == x);
        if i < j {
            assert(s[i].0 == x);
            if x == k {
                lemma_key_index(s, i);
                lemma_key_index(s, j);
            }
        } else {
            assert(t[i] == s[i + 1]);
            assert(s[i + 1].0 == x);
            if x == k {
                lemma_key_index(s, i + 1);
                lemma_key_index(s, j);
            }
        }
    }
    assert forall|x: PodId| has_pod_key(s, x) && x != k implies has_pod_key(t, x) by {
        let i = key_index(s, x);
        assert(0 <= i < s.len() && s[i].0 == x);
        if i < j {
            assert(t[i].0 == x);
        } else if i > j {
            assert(t[i - 1] == s[(i - 1) + 1]);
            assert(t[i - 1].0 == x);
        }
    }
    assert forall|x: PodId| pods_map(t).dom().contains(x) implies pods_map(t)[x] == pods_map(
        s,
    ).remove(k)[x] by {
        lemma_key_index(t, key_index(t, x));
        let i = key_index(t, x);
        assert(0 <= i < t.len() && t[i].0 == x);
        if i < j {
            assert(t[i] == s[i]);
            lemma_key_index(s, i);
        } else {
            assert(t[i] == s[i + 1]);
            lemma_key_index(s, i + 1);
        }
    }
    assert(pods_map(t) =~= pods_map(s).remove(k));
}

/// Spec-level view of one entry of a client's reconstruction of the
/// directory: what a client can know of a pod from the broadcasts — its
/// name and its paths. (A pod's timestamp is known from the snapshot and
/// from path updates, but a `NewPod` broadcast does not carry one.)
pub ghost struct DirEntryView {
    pub name: Seq<char>,
    pub paths: Seq<Seq<char>>,
}

/// The reconstructible part of a directory.
pub open spec fn dir_of(pods: Map<PodId, PodInfoView>) -> Map<PodId, DirEntryView> {
    Map::new(
        |k: PodId| pods.dom().contains(k),
        |k: PodId| DirEntryView { name: pods[k].name, paths: pods[k].paths },
    )
}

/// The directory a snapshot listing describes.
pub open spec fn descs_dir(descs: Seq<PodDescriptionView>) -> Map<PodId, DirEntryView> {
    Map::new(
        |k: PodId| exists|i: int| 0 <= i < descs.len() && descs[i].id == k,
        |k: PodId|
            {
                let i = choose|i: int| 0 <= i < descs.len() && descs[i].id == k;
                DirEntryView { name: descs[i].name, paths: descs[i].paths }
            },
    )
}

/// How a client keeps its reconstruction of the directory current: the
/// effect of one received message on its view. A snapshot replaces the
/// view wholesale; the directory-change broadcasts edit it; replies that
/// do not concern the directory leave it unchanged.
pub open spec fn apply_event(
    d: Map<PodId, DirEntryView>,
    e: ClientResponseView,
) -> Map<PodId, DirEntryView> {
    match e {
        ClientResponseView::Pods(descs) => descs_dir(descs),
        ClientResponseView::NewPod { id, name } => d.insert(
            id,
            DirEntryView { name, paths: Seq::empty() },
        ),
        ClientResponseView::PodGone(id) => d.remove(id),
        ClientResponseView::PodUpdateName { id, name } => if d.dom().contains(id) {
            d.insert(id, DirEntryView { name, paths: d[id].paths })
        } else {
            d
        },
        ClientResponseView::PodUpdatePaths { id, paths, .. } => if d.dom().contains(id) {
            d.insert(id, DirEntryView { name: d[id].name, paths })
        } else {
            d
        },
        ClientResponseView::UnknownPod(_) => d,
        ClientResponseView::DeliverImage { .. } => d,
    }
}

/// Inserting a record inserts its reconstructible part.
proof fn lemma_dir_insert(m: Map<PodId, PodInfoView>, k: PodId, v: PodInfoView)
    ensures
        dir_of(m.insert(k, v)) == dir_of(m).insert(k, DirEntryView { name: v.name, paths: v.paths }),
{
    assert(dir_of(m.insert(k, v)) =~= dir_of(m).insert(
        k,
        DirEntryView { name: v.name, paths: v.paths },
    ));
}

/// Removing a record removes its reconstructible part.
proof fn lemma_dir_remove(m: Map<PodId, PodInfoView>, k: PodId)
    ensures
        dir_of(m.remove(k)) == dir_of(m).remove(k),
{
    assert(dir_of(m.remove(k)) =~= dir_of(m).remove(k));
}

/// What registering a pod does, given the time `t` the clock read: the
/// record is inserted with the given name, no paths and that timestamp,
/// and `NewPod` goes out to every subscribed client; replaying that
/// broadcast takes a client's reconstruction of the old directory to the
/// new one.
pub open spec fn register_post(
    pre: Hub,
    post: Hub,
    out: Seq<OutboundView>,
    id: PodId,
    name: Seq<char>,
    t: int,
) -> bool {
    &&& post.wf()
    &&& post.client_ids() == pre.client_ids()
    &&& post.pod_map() == pre.pod_map().insert(
        id,
        PodInfoView { name, paths: Seq::empty(), last_modified: t },
    )
    &&& out == broadcast_to(pre.client_ids(), ClientResponseView::NewPod { id, name })
    &&& apply_event(dir_of(pre.pod_map()), ClientResponseView::NewPod { id, name }) == dir_of(
        post.pod_map(),
    )
}

/// What a title update does: an existing record keeps its paths and
/// timestamp and takes the new name, and `PodUpdateName` goes out to every
/// client; for an unknown identifier nothing changes and nothing goes out
/// — a stale update is absorbed, never a fault. Replaying what a client
/// received takes its reconstruction of the old directory to the new one.
pub open spec fn title_post(
    pre: Hub,
    post: Hub,
    out: Seq<OutboundView>,
    id: PodId,
    name: Seq<char>,
) -> bool {
    &&& post.wf()
    &&& post.client_ids() == pre.client_ids()
    &&& (pre.pod_map().dom().contains(id) ==> post.pod_map() == pre.pod_map().insert(
        id,
        PodInfoView {
            name,
            paths: pre.pod_map()[id].paths,
            last_modified: pre.pod_map()[id].last_modified,
        },
    ) && out == broadcast_to(pre.client_ids(), ClientResponseView::PodUpdateName { id, name }))
    &&& (!pre.pod_map().dom().contains(id) ==> post.pod_map() == pre.pod_map() && out
        == Seq::<OutboundView>::empty())
    &&& apply_event(dir_of(pre.pod_map()), ClientResponseView::PodUpdateName { id, name })
        == dir_of(post.pod_map())
}

/// What a path update does, given the time `t` the clock read: the paths
/// are stored in normal form with the refreshed timestamp, and
/// `PodUpdatePaths` carries exactly the stored list to every client; for
/// an unknown identifier nothing changes and nothing goes out. Replaying
/// what a client received takes its reconstruction of the old directory
/// to the new one.
pub open spec fn update_paths_post(
    pre: Hub,
    post: Hub,
    out: Seq<OutboundView>,
    id: PodId,
    paths: Seq<Seq<char>>,
    replace_images: bool,
    t: int,
) -> bool {
    &&& post.wf()
    &&& post.client_ids() == pre.client_ids()
    &&& (pre.pod_map().dom().contains(id) ==> post.pod_map() == pre.pod_map().insert(
        id,
        PodInfoView { name: pre.pod_map()[id].name, paths: normal_form(paths), last_modified: t },
    ) && out == broadcast_to(
        pre.client_ids(),
        ClientResponseView::PodUpdatePaths {
            id,
            paths: normal_form(paths),
            replace_images,
            last_modified: t,
        },
    ))
    &&& (!pre.pod_map().dom().contains(id) ==> post.pod_map() == pre.pod_map() && out
        == Seq::<OutboundView>::empty())
    &&& apply_event(
        dir_of(pre.pod_map()),
        ClientResponseView::PodUpdatePaths {
            id,
            paths: normal_form(paths),
            replace_images,
            last_modified: t,
        },
    ) == dir_of(post.pod_map())
}

/// What a path update does, at the time the clock read, whatever that
/// was: [`update_paths_post`] for some timestamp.
pub open spec fn update_paths_post_some(
    pre: Hub,
    post: Hub,
    out: Seq<OutboundView>,
    id: PodId,
    paths: Seq<Seq<char>>,
    replace_images: bool,
) -> bool {
    exists|t: int| update_paths_post(pre, post, out, id, paths, replace_images, t)
}

/// What an image delivery sends: the blob to the requesting client if it
/// is still subscribed, and nothing at all if it has disconnected — a
/// silent drop, not an error.
pub open spec fn deliver_out(
    h: Hub,
    pod_id: PodId,
    client_id: PodId,
    path: Seq<char>,
    blob: Seq<char>,
) -> Seq<OutboundView> {
    if h.client_ids().contains(client_id) {
        seq![
            OutboundView {
                dest: client_id,
                msg: JsonProtocolView::ClientResponse(
                    ClientResponseView::DeliverImage { gallery_id: pod_id, path, blob },
                ),
            },
        ]
    } else {
        Seq::<OutboundView>::empty()
    }
}

/// What an image request sends: the request to the owning pod when it is
/// registered; otherwise `UnknownPod` back to the requesting client — a
/// client-initiated request is always acknowledged, by success or by a
/// named failure, as far as the client is still there to hear it.
pub open spec fn request_out(
    h: Hub,
    client_id: PodId,
    gallery_id: PodId,
    path: Seq<char>,
) -> Seq<OutboundView> {
    if h.pod_map().dom().contains(gallery_id) {
        seq![
            OutboundView {
                dest: gallery_id,
                msg: JsonProtocolView::PodResponse(
                    PodResponseView::RequestImage { client_id, path },
                ),
            },
        ]
    } else if h.client_ids().contains(client_id) {
        seq![
            OutboundView {
                dest: client_id,
                msg: JsonProtocolView::ClientResponse(ClientResponseView::UnknownPod(gallery_id)),
            },
        ]
    } else {
        Seq::<OutboundView>::empty()
    }
}

/// The hub's directory: the registered pods and the subscribed clients.
/// Pods are kept as an association list with unique keys, denoting the
/// map [`Hub::pod_map`]; clients are kept in subscription order, each at
/// most once.
pub struct Hub {
    pods: Vec<(PodId, PodInfo)>,
    clients: Vec<PodId>,
}

impl Hub {
    /// The registered pods, as a map from identifier to record.
    pub closed spec fn pod_map(&self) -> Map<PodId, PodInfoView> {
        pods_map(self.pods@)
    }

    /// The subscribed clients, in subscription order.
    pub closed spec fn client_ids(&self) -> Seq<PodId> {
        self.clients@
    }

    /// The directory's structural invariant: one record per pod
    /// identifier, one subscription per client identifier.
    pub closed spec fn wf(&self) -> bool {
        unique_keys(self.pods@) && (forall|i: int, j: int|
            0 <= i < j < self.clients@.len() ==> self.clients@[i] != self.clients@[j])
    }

    /// The listing published to clients: every current pod exactly once.
    pub closed spec fn snapshot(&self) -> Seq<PodDescriptionView> {
        snapshot_of(self.pods@)
    }

    /// An empty directory: no pods, no clients.
    pub fn new() -> (r: Self)
        ensures
            r.wf(),
            r.pod_map() == Map::<PodId, PodInfoView>::empty(),
            r.client_ids() == Seq::<PodId>::empty(),
    {
        let r = Hub { pods: Vec::new(), clients: Vec::new() };
        proof {
            assert(r.pod_map() =~= Map::<PodId, PodInfoView>::empty());
        }
        r
    }

    /// The snapshot describes the directory exactly: it lists each
    /// registered pod once, under its current record, and nothing else.
    pub proof fn lemma_snapshot_exact(&self)
        requires
            self.wf(),
        ensures
            forall|i: int| 0 <= i < self.snapshot().len() ==> self.pod_map().dom().contains(
                #[trigger] self.snapshot()[i].id,
            ) && desc_of(self.snapshot()[i].id, self.pod_map()[self.snapshot()[i].id])
                == self.snapshot()[i],
            forall|k: PodId| #[trigger] self.pod_map().dom().contains(k) ==> exists|i: int|
                0 <= i < self.snapshot().len() && self.snapshot()[i].id == k,
            forall|i: int, j: int| 0 <= i < j < self.snapshot().len() ==> self.snapshot()[i].id
                != self.snapshot()[j].id,
            descs_dir(self.snapshot()) == dir_of(self.pod_map()),
    {
        let s = self.pods@;
        let snap = self.snapshot();
        assert forall|i: int| 0 <= i < snap.len() implies self.pod_map().dom().contains(
            #[trigger] snap[i].id,
        ) && desc_of(snap[i].id, self.pod_map()[snap[i].id]) == snap[i] by {
            lemma_key_index(s, i);
        }
        assert forall|k: PodId| #[trigger] self.pod_map().dom().contains(k) implies exists|i: int|
            0 <= i < snap.len() && snap[i].id == k by {
            let i = key_index(s, k);
            assert(0 <= i < s.len() && s[i].0 == k);
            assert(snap[i].id == k);
        }
        assert forall|x: PodId|
            descs_dir(snap).dom().contains(x) == dir_of(self.pod_map()).dom().contains(x) by {
            if exists|i: int| 0 <= i < snap.len() && snap[i].id == x {
                let i = choose|i: int| 0 <= i < snap.len() && snap[i].id == x;
                assert(s[i].0 == x);
                assert(has_pod_key(s, x));
            }
            if has_pod_key(s, x) {
                let i = key_index(s, x);
                assert(0 <= i < s.len() && s[i].0 == x);
                assert(snap[i].id == x);
            }
        }
        assert forall|x: PodId| descs_dir(snap).dom().contains(x) implies descs_dir(snap)[x]
            == dir_of(self.pod_map())[x] by {
            let i = choose|i: int| 0 <= i < snap.len() && snap[i].id == x;
            assert(s[i].0 == x);
            lemma_key_index(s, i);
            assert(self.pod_map()[x] == s[i].1@);
        }
        assert(descs_dir(snap) =~= dir_of(self.pod_map()));
    }

    /// The index of the pod record for `id`, if one exists.
    fn find_pod(&self, id: PodId) -> (r: Option<usize>)
        ensures
            match r {
                Some(i) => 0 <= i < self.pods@.len() && self.pods@[i as int].0 == id,
                None => !has_pod_key(self.pods@, id),
            },
    {
        let mut i: usize = 0;
        while i < self.pods.len()
            invariant
                0 <= i <= self.pods@.len(),
                forall|j: int| 0 <= j < i as int ==> self.pods@[j].0 != id,
            decreases self.pods@.len() - i,
        {
            if self.pods[i].0 == id {
                return Some(i);
            }
            i = i + 1;
        }
        None
    }

    /// The position of `id` among the subscribed clients, if subscribed.
    fn find_client(&self, id: PodId) -> (r: Option<usize>)
        ensures
            match r {
                Some(i) => 0 <= i < self.clients@.len() && self.clients@[i as int] == id
                    && (forall|j: int| 0 <= j < i as int ==> self.clients@[j] != id),
                None => !self.clients@.contains(id),
            },
    {
        let mut i: usize = 0;
        while i < self.clients.len()
            invariant
                0 <= i <= self.clients@.len(),
                forall|j: int| 0 <= j < i as int ==> self.clients@[j] != id,
            decreases self.clients@.len() - i,
        {
            if self.clients[i] == id {
                return Some(i);
            }
            i = i + 1;
        }
        None
    }

    /// One copy of `message` addressed to every subscribed client, in
    /// subscription order. Sends are independent: a failure to reach one
    /// client is the transport's concern and never blocks the others.
    pub fn broadcast_client_response(&self, message: &ClientResponse) -> (out: Vec<Outbound>)
        ensures
            out.deep_view() == broadcast_to(self.client_ids(), message@),
    {
        let mut out: Vec<Outbound> = Vec::new();
        let mut i: usize = 0;
        while i < self.clients.len()
            invariant
                0 <= i <= self.clients@.len(),
                out@.len() == i as int,
                forall|j: int| 0 <= j < i as int ==> #[trigger] out@[j]@ == (OutboundView {
                    dest: self.clients@[j],
                    msg: JsonProtocolView::ClientResponse(message@),
                }),
            decreases self.clients@.len() - i,
        {
            out.push(
                Outbound {
                    dest: self.clients[i],
                    msg: JsonProtocol::ClientResponse(message.duplicate()),
                },
            );
            i = i + 1;
        }
        proof {
            assert forall|j: int| 0 <= j < out@.len() implies out.deep_view()[j] == broadcast_to(
                self.client_ids(),
                message@,
            )[j] by {
                assert(out@[j]@ == (OutboundView {
                    dest: self.clients@[j],
                    msg: JsonProtocolView::ClientResponse(message@),
                }));
            }
            assert(out.deep_view() =~= broadcast_to(self.client_ids(), message@));
        }
        out
    }

    /// A snapshot of the full current listing: one description per
    /// registered pod, exactly as recorded.
    pub fn list_all_pods(&self) -> (r: Vec<PodDescription>)
        ensures
            r.deep_view() == self.snapshot(),
    {
        let mut r: Vec<PodDescription> = Vec::new();
        let mut i: usize = 0;
        while i < self.pods.len()
            invariant
                0 <= i <= self.pods@.len(),
                r@.len() == i as int,
                forall|j: int| 0 <= j < i as int ==> #[trigger] r@[j]@ == desc_of(
                    self.pods@[j].0,
                    self.pods@[j].1@,
                ),
            decreases self.pods@.len() - i,
        {
            let entry = &self.pods[i];
            r.push(
                PodDescription {
                    id: entry.0,
                    name: entry.1.name.clone(),
                    paths: clone_strings(&entry.1.image_paths),
                    last_modified: entry.1.last_modified,
                },
            );
            i = i + 1;
        }
        proof {
            assert forall|j: int| 0 <= j < r@.len() implies r.deep_view()[j]
                == self.snapshot()[j] by {
                assert(r@[j]@ == desc_of(self.pods@[j].0, self.pods@[j].1@));
            }
            assert(r.deep_view() =~= self.snapshot());
        }
        r
    }

    /// The paths and timestamp of one pod, or `UnknownPod` if there is no
    /// record for `id`: absence is data, not an error.
    pub fn list_pod_structure(&self, id: PodId) -> (r: ClientResponse)
        requires
            self.wf(),
        ensures
            r@ == if self.pod_map().dom().contains(id) {
                ClientResponseView::PodUpdatePaths {
                    id,
                    paths: self.pod_map()[id].paths,
                    replace_images: false,
                    last_modified: self.pod_map()[id].last_modified,
                }
            } else {
                ClientResponseView::UnknownPod(id)
            },
    {
        match self.find_pod(id) {
            Some(i) => {
                proof {
                    lemma_key_index(self.pods@, i as int);
                }
                let entry = &self.pods[i];
                ClientResponse::PodUpdatePaths {
                    id,
                    paths: clone_strings(&entry.1.image_paths),
                    replace_images: false,
                    last_modified: entry.1.last_modified,
                }
            },
            None => ClientResponse::UnknownPod(id),
        }
    }

    /// Inserts a client subscription and, as the same atomic step, returns
    /// the full current listing addressed to that client: the client has
    /// its baseline snapshot before any later broadcast can reach it, and
    /// no pod registered meanwhile can be missed.
    pub fn subscribe_client(&mut self, id: PodId) -> (out: Vec<Outbound>)
        requires
            old(self).wf(),
        ensures
            final(self).wf(),
            final(self).pod_map() == old(self).pod_map(),
            final(self).snapshot() == old(self).snapshot(),
            final(self).client_ids() == if old(self).client_ids().contains(id) {
                old(self).client_ids()
            } else {
                old(self).client_ids().push(id)
            },
            final(self).client_ids().contains(id),
            out.deep_view() == seq![
                OutboundView {
                    dest: id,
                    msg: JsonProtocolView::ClientResponse(
                        ClientResponseView::Pods(old(self).snapshot()),
                    ),
                },
            ],
            // Snapshot consistency: replaying the snapshot yields the
            // directory as it stands at subscription time, whatever the
            // client held before.
            descs_dir(old(self).snapshot()) == dir_of(old(self).pod_map()),
    {
        proof {
            self.lemma_snapshot_exact();
        }
        match self.find_client(id) {
            Some(i) => {
                proof {
                    assert(self.clients@[i as int] == id);
                    assert(self.clients@.contains(id));
                }
            },
            None => {
                self.clients.push(id);
                proof {
                    assert(self.clients@[self.clients@.len() - 1] == id);
                    assert(self.clients@.contains(id));
                }
            },
        }
        let listing = self.list_all_pods();
        let out = vec![
            Outbound { dest: id, msg: JsonProtocol::ClientResponse(ClientResponse::Pods(listing)) },
        ];
        proof {
            assert(out.deep_view() =~= seq![
                OutboundView {
                    dest: id,
                    msg: JsonProtocolView::ClientResponse(
                        ClientResponseView::Pods(old(self).snapshot()),
                    ),
                },
            ]);
        }
        out
    }

    /// Removes the pod record for `id`, if any, leaving no entry under
    /// that key; used by registration (to replace) and removal.
    fn take_pod(&mut self, id: PodId) -> (r: Option<PodInfo>)
        requires
            old(self).wf(),
        ensures
            final(self).wf(),
            final(self).clients@ == old(self).clients@,
            !has_pod_key(final(self).pods@, id),
            match r {
                Some(info) => old(self).pod_map().dom().contains(id) && info@ == old(
                    self,
                ).pod_map()[id] && pods_map(final(self).pods@) == old(self).pod_map().remove(id),
                None => !old(self).pod_map().dom().contains(id) && final(self).pods@ == old(
                    self,
                ).pods@,
            },
    {
        match self.find_pod(id) {
            Some(i) => {
                proof {
                    lemma_key_index(self.pods@, i as int);
                    lemma_pods_map_remove(self.pods@, i as int);
                }
                let entry = self.pods.remove(i);
                Some(entry.1)
            },
            None => None,
        }
    }

    /// Inserts (or replaces) the pod record for `id` with the given name,
    /// no paths and the given timestamp, and broadcasts `NewPod` to every
    /// subscribed client, the new pod itself harmlessly included.
    pub fn register_pod_at(&mut self, id: PodId, name: String, now: i64) -> (out: Vec<Outbound>)
        requires
            old(self).wf(),
        ensures
            register_post(*old(self), *final(self), out.deep_view(), id, name@, now as int),
    {
        let ghost pre = *self;
        self.take_pod(id);
        let message = ClientResponse::NewPod { id, name: name.clone() };
        let out = self.broadcast_client_response(&message);
        let info = PodInfo { name, image_paths: Vec::new(), last_modified: now };
        proof {
            lemma_pods_map_push(self.pods@, id, info);
        }
        let ghost infov = info@;
        self.pods.push((id, info));
        proof {
            assert(infov.paths =~= Seq::<Seq<char>>::empty());
            assert(self.pod_map() =~= pre.pod_map().insert(id, infov));
            lemma_dir_insert(pre.pod_map(), id, infov);
            assert(dir_of(pre.pod_map()).insert(
                id,
                DirEntryView { name: name@, paths: Seq::empty() },
            ) =~= dir_of(self.pod_map()));
        }
        out
    }

    /// Registers a pod at the current time: reads the clock once and
    /// applies [`Hub::register_pod_at`] with what it read.
    pub fn register_pod(&mut self, id: PodId, name: String) -> (out: Vec<Outbound>)
        requires
            old(self).wf(),
        ensures
            exists|t: int|
                register_post(*old(self), *final(self), out.deep_view(), id, name@, t),
            apply_event(dir_of(old(self).pod_map()), ClientResponseView::NewPod { id, name: name@ })
                == dir_of(final(self).pod_map()),
    {
        let now = now_millis();
        let out = self.register_pod_at(id, name, now);
        proof {
            assert(register_post(*old(self), *self, out.deep_view(), id, name@, now as int));
        }
        out
    }

    /// Removes the pod record for `id` and broadcasts `PodGone` to every
    /// subscribed client; with no record for `id` nothing changes and
    /// nothing is sent.
    pub fn unregister_pod(&mut self, id: PodId) -> (out: Vec<Outbound>)
        requires
            old(self).wf(),
        ensures
            final(self).wf(),
            final(self).client_ids() == old(self).client_ids(),
            final(self).pod_map() == old(self).pod_map().remove(id),
            out.deep_view() == if old(self).pod_map().dom().contains(id) {
                broadcast_to(old(self).client_ids(), ClientResponseView::PodGone(id))
            } else {
                Seq::<OutboundView>::empty()
            },
            apply_event(dir_of(old(self).pod_map()), ClientResponseView::PodGone(id)) == dir_of(
                final(self).pod_map(),
            ),
    {
        let removed = self.take_pod(id);
        let out = match removed {
            Some(_) => self.broadcast_client_response(&ClientResponse::PodGone(id)),
            None => {
                let empty_out: Vec<Outbound> = Vec::new();
                proof {
                    assert(old(self).pod_map().remove(id) =~= old(self).pod_map());
                    assert(empty_out.deep_view() =~= Seq::<OutboundView>::empty());
                }
                empty_out
            },
        };
        proof {
            lemma_dir_remove(old(self).pod_map(), id);
        }
        out
    }

    /// Removes the client subscription for `id`. If `id` also has a pod
    /// record — a pod's transport closing is equivalent to it leaving —
    /// the record is removed too and `PodGone` goes to every remaining
    /// client.
    pub fn unsubscribe_client(&mut self, id: PodId) -> (out: Vec<Outbound>)
        requires
            old(self).wf(),
        ensures
            final(self).wf(),
            final(self).client_ids() == old(self).client_ids().remove_value(id),
            !final(self).client_ids().contains(id),
            final(self).pod_map() == old(self).pod_map().remove(id),
            out.deep_view() == if old(self).pod_map().dom().contains(id) {
                broadcast_to(final(self).client_ids(), ClientResponseView::PodGone(id))
            } else {
                Seq::<OutboundView>::empty()
            },
            apply_event(dir_of(old(self).pod_map()), ClientResponseView::PodGone(id)) == dir_of(
                final(self).pod_map(),
            ),
    {
        match self.find_client(id) {
            Some(i) => {
                proof {
                    let cs = self.clients@;
                    cs.index_of_first_ensures(id);
                    let first = cs.index_of_first(id);
                    assert(cs[i as int] == id);
                    assert(cs.contains(id));
                    let fi = first.unwrap();
                    if fi < i as int {
                        assert(cs[fi] != id);
                    } else if fi > i as int {
                        assert(cs[i as int] != id);
                    }
                    cs.remove_ensures(i as int);
                    let t = cs.remove(i as int);
                    assert forall|p: int, q: int| 0 <= p < q < t.len() implies t[p] != t[q] by {
                        if q < i as int {
                            assert(t[p] == cs[p] && t[q] == cs[q]);
                        } else if p < i as int {
                            assert(t[p] == cs[p] && t[q] == cs[q + 1]);
                        } else {
                            assert(t[p] == cs[p + 1] && t[q] == cs[q + 1]);
                        }
                    }
                    assert(!t.contains(id)) by {
                        if t.contains(id) {
                            let w = choose|w: int| 0 <= w < t.len() && t[w] == id;
                            if w < i as int {
                                assert(cs[w] == id);
                            } else {
                                assert(t[w] == cs[w + 1]);
                                assert(cs[w + 1] == id);
                            }
                        }
                    }
                }
                self.clients.remove(i);
            },
            None => {
                proof {
                    self.clients@.index_of_first_ensures(id);
                }
            },
        }
        let removed = self.take_pod(id);
        let out = match removed {
            Some(_) => self.broadcast_client_response(&ClientResponse::PodGone(id)),
            None => {
                let empty_out: Vec<Outbound> = Vec::new();
                proof {
                    assert(old(self).pod_map().remove(id) =~= old(self).pod_map());
                    assert(empty_out.deep_view() =~= Seq::<OutboundView>::empty());
                }
                empty_out
            },
        };
        proof {
            lemma_dir_remove(old(self).pod_map(), id);
        }
        out
    }

    /// Renames the pod `id` and broadcasts `PodUpdateName`; with no record
    /// for `id` — an update racing a removal — nothing changes and nothing
    /// is sent.
    pub fn update_pod_title(&mut self, id: PodId, name: String) -> (out: Vec<Outbound>)
        requires
            old(self).wf(),
        ensures
            title_post(*old(self), *final(self), out.deep_view(), id, name@),
    {
        let removed = self.take_pod(id);
        match removed {
            Some(info) => {
                let message = ClientResponse::PodUpdateName { id, name: name.clone() };
                let out = self.broadcast_client_response(&message);
                let replacement = PodInfo {
                    name,
                    image_paths: info.image_paths,
                    last_modified: info.last_modified,
                };
                proof {
                    lemma_pods_map_push(self.pods@, id, replacement);
                }
                let ghost rv = replacement@;
                self.pods.push((id, replacement));
                proof {
                    assert(self.pod_map() =~= old(self).pod_map().insert(id, rv));
                    lemma_dir_insert(old(self).pod_map(), id, rv);
                    assert(dir_of(old(self).pod_map()).insert(
                        id,
                        DirEntryView { name: name@, paths: rv.paths },
                    ) =~= apply_event(
                        dir_of(old(self).pod_map()),
                        ClientResponseView::PodUpdateName { id, name: name@ },
                    ));
                }
                out
            },
            None => {
                let out = Vec::new();
                proof {
                    assert(out.deep_view() =~= Seq::<OutboundView>::empty());
                }
                out
            },
        }
    }

    /// Stores the pod's paths in normal form — sorted, duplicates removed
    /// — with the given timestamp, and broadcasts `PodUpdatePaths` carrying
    /// exactly the stored list; with no record for `id` nothing changes and
    /// nothing is sent.
    pub fn update_pod_paths_at(
        &mut self,
        id: PodId,
        paths: Vec<String>,
        replace_images: bool,
        now: i64,
    ) -> (out: Vec<Outbound>)
        requires
            old(self).wf(),
        ensures
            update_paths_post(
                *old(self),
                *final(self),
                out.deep_view(),
                id,
                paths.deep_view(),
                replace_images,
                now as int,
            ),
    {
        let normalized = normalize_paths(paths);
        let removed = self.take_pod(id);
        match removed {
            Some(info) => {
                let message = ClientResponse::PodUpdatePaths {
                    id,
                    paths: clone_strings(&normalized),
                    replace_images,
                    last_modified: now,
                };
                let out = self.broadcast_client_response(&message);
                let replacement = PodInfo {
                    name: info.name,
                    image_paths: normalized,
                    last_modified: now,
                };
                proof {
                    lemma_pods_map_push(self.pods@, id, replacement);
                }
                let ghost rv = replacement@;
                self.pods.push((id, replacement));
                proof {
                    assert(self.pod_map() =~= old(self).pod_map().insert(id, rv));
                    lemma_dir_insert(old(self).pod_map(), id, rv);
                    assert(dir_of(old(self).pod_map()).insert(
                        id,
                        DirEntryView { name: rv.name, paths: rv.paths },
                    ) =~= apply_event(
                        dir_of(old(self).pod_map()),
                        ClientResponseView::PodUpdatePaths {
                            id,
                            paths: normal_form(paths.deep_view()),
                            replace_images,
                            last_modified: now as int,
                        },
                    ));
                }
                out
            },
            None => {
                let out = Vec::new();
                proof {
                    assert(out.deep_view() =~= Seq::<OutboundView>::empty());
                }
                out
            },
        }
    }

    /// Updates a pod's paths at the current time: reads the clock once
    /// and applies [`Hub::update_pod_paths_at`] with what it read.
    pub fn update_pod_paths(
        &mut self,
        id: PodId,
        paths: Vec<String>,
        replace_images: bool,
    ) -> (out: Vec<Outbound>)
        requires
            old(self).wf(),
        ensures
            update_paths_post_some(
                *old(self),
                *final(self),
                out.deep_view(),
                id,
                paths.deep_view(),
                replace_images,
            ),
    {
        let now = now_millis();
        let ghost paths_view = paths.deep_view();
        let out = self.update_pod_paths_at(id, paths, replace_images, now);
        proof {
            assert(update_paths_post(
                *old(self),
                *self,
                out.deep_view(),
                id,
                paths_view,
                replace_images,
                now as int,
            ));
        }
        out
    }

    /// Forwards a delivered image to the client that requested it, if it
    /// is still subscribed; a client gone in the meantime means the blob
    /// is dropped silently — no error, nothing else sent, nothing changed.
    pub fn deliver_image(
        &self,
        pod_id: PodId,
        client_id: PodId,
        path: String,
        blob: String,
    ) -> (out: Vec<Outbound>)
        ensures
            out.deep_view() == deliver_out(*self, pod_id, client_id, path@, blob@),
    {
        match self.find_client(client_id) {
            Some(i) => {
                proof {
                    assert(self.clients@[i as int] == client_id);
                    assert(self.clients@.contains(client_id));
                }
                let out = vec![
                    Outbound {
                        dest: client_id,
                        msg: JsonProtocol::ClientResponse(
                            ClientResponse::DeliverImage { gallery_id: pod_id, path, blob },
                        ),
                    },
                ];
                proof {
                    assert(out.deep_view() =~= deliver_out(*self, pod_id, client_id, path@, blob@));
                }
                out
            },
            None => {
                let out = Vec::new();
                proof {
                    assert(out.deep_view() =~= Seq::<OutboundView>::empty());
                }
                out
            },
        }
    }

    /// Routes a client's image request to the pod that owns the gallery,
    /// or acknowledges with `UnknownPod` when no such pod is registered:
    /// the request is never silently dropped while its client is there to
    /// hear the answer. The directory itself is untouched.
    pub fn request_image(&self, client_id: PodId, gallery_id: PodId, path: String) -> (out: Vec<
        Outbound,
    >)
        requires
            self.wf(),
        ensures
            out.deep_view() == request_out(*self, client_id, gallery_id, path@),
    {
        match self.find_pod(gallery_id) {
            Some(i) => {
                proof {
                    lemma_key_index(self.pods@, i as int);
                }
                let out = vec![
                    Outbound {
                        dest: gallery_id,
                        msg: JsonProtocol::PodResponse(
                            PodResponse::RequestImage { client_id, path },
                        ),
                    },
                ];
                proof {
                    assert(out.deep_view() =~= request_out(*self, client_id, gallery_id, path@));
                }
                out
            },
            None => {
                match self.find_client(client_id) {
                    Some(j) => {
                        proof {
                            assert(self.clients@[j as int] == client_id);
                            assert(self.clients@.contains(client_id));
                        }
                        let out = vec![
                            Outbound {
                                dest: client_id,
                                msg: JsonProtocol::ClientResponse(
                                    ClientResponse::UnknownPod(gallery_id),
                                ),
                            },
                        ];
                        proof {
                            assert(out.deep_view() =~= request_out(
                                *self,
                                client_id,
                                gallery_id,
                                path@,
                            ));
                        }
                        out
                    },
                    None => {
                        let out = Vec::new();
                        proof {
                            assert(out.deep_view() =~= Seq::<OutboundView>::empty());
                        }
                        out
                    },
                }
            },
        }
    }

    /// Handles one pod message already stamped with its connection's
    /// identity. Title and path updates mutate the directory and
    /// broadcast; an image delivery is routed to its requesting client. A
    /// stray registration is absorbed as a no-op: the connection proxy
    /// handles registration itself and never forwards it here.
    pub fn handle_ided_pod_request(&mut self, msg: IdedPodRequest) -> (out: Vec<Outbound>)
        requires
            old(self).wf(),
        ensures
            final(self).wf(),
            msg.message@ matches PodRequestView::RegisterSelf { .. } ==> final(self).pod_map()
                == old(self).pod_map() && final(self).client_ids() == old(self).client_ids()
                && out.deep_view() == Seq::<OutboundView>::empty(),
            msg.message@ matches PodRequestView::UpdateTitle { name } ==> title_post(
                *old(self),
                *final(self),
                out.deep_view(),
                msg.id,
                name,
            ),
            msg.message@ matches PodRequestView::UpdatePaths { paths, replace_images }
                ==> update_paths_post_some(
                *old(self),
                *final(self),
                out.deep_view(),
                msg.id,
                paths,
                replace_images,
            ),
            msg.message@ matches PodRequestView::DeliverImage { client_id, path, blob }
                ==> final(self).pod_map() == old(self).pod_map() && final(self).client_ids()
                == old(self).client_ids() && out.deep_view() == deliver_out(
                *old(self),
                msg.id,
                client_id,
                path,
                blob,
            ),
    {
        let IdedPodRequest { id, message } = msg;
        match message {
            PodRequest::RegisterSelf { .. } => {
                let out = Vec::new();
                proof {
                    assert(out.deep_view() =~= Seq::<OutboundView>::empty());
                }
                out
            },
            PodRequest::UpdateTitle { name } => self.update_pod_title(id, name),
            PodRequest::UpdatePaths { paths, replace_images } => {
                let ghost pv = paths.deep_view();
                let out = self.update_pod_paths(id, paths, replace_images);
                proof {
                    assert(msg.message@ == (PodRequestView::UpdatePaths { paths: pv, replace_images }));
                }
                out
            },
            PodRequest::DeliverImage { client_id, path, blob } => self.deliver_image(
                id,
                client_id,
                path,
                blob,
            ),
        }
    }

    /// Answers one synchronous client request: the full listing, or one
    /// pod's structure.
    pub fn handle_client_request(&self, msg: &ClientRequest) -> (r: ClientResponse)
        requires
            self.wf(),
        ensures
            r@ == match msg@ {
                crate::protocols::ClientRequestView::ListAllPods => ClientResponseView::Pods(
                    self.snapshot(),
                ),
                crate::protocols::ClientRequestView::ListPodStructure(id) => if self.pod_map().dom().contains(
                    id,
                ) {
                    ClientResponseView::PodUpdatePaths {
                        id,
                        paths: self.pod_map()[id].paths,
                        replace_images: false,
                        last_modified: self.pod_map()[id].last_modified,
                    }
                } else {
                    ClientResponseView::UnknownPod(id)
                },
            },
    {
        match msg {
            ClientRequest::ListAllPods => ClientResponse::Pods(self.list_all_pods()),
            ClientRequest::ListPodStructure(id) => self.list_pod_structure(*id),
        }
    }

    /// Handles one fire-and-forget client request: an image request,
    /// already stamped with the requesting connection's identity.
    pub fn handle_client_request_async(&self, msg: crate::protocols::ClientRequestAsync) -> (out:
        Vec<Outbound>)
        requires
            self.wf(),
        ensures
            msg@ matches crate::protocols::ClientRequestAsyncView::RequestImage {
                gallery_id,
                path,
                client_id,
            } ==> out.deep_view() == request_out(*self, client_id, gallery_id, path),
    {
        match msg {
            crate::protocols::ClientRequestAsync::RequestImage { gallery_id, path, client_id } => {
                self.request_image(client_id, gallery_id, path)
            },
        }
    }
}

/// The hub command announcing a new pod: the registering connection's own
/// identifier — never one proposed by the far end — and its display name.
/// The connection's outbound handle is kept by the transport adapter
/// under the same identifier.
#[derive(Debug, PartialEq)]
pub struct SubscribePod {
    pub id: PodId,
    pub name: String,
}

/// The hub command removing a pod record explicitly.
#[derive(Debug, PartialEq)]
pub struct UnsubscribePod(pub PodId);

/// The hub command announcing a new client subscription.
#[derive(Debug, PartialEq)]
pub struct SubscribeClient {
    pub id: PodId,
}

/// The hub command removing a client subscription (and, for a connection
/// that also registered as a pod, its pod record).
#[derive(Debug, PartialEq)]
pub struct UnsubscribeClient(pub PodId);

/// A pod message stamped with the identity of the connection it arrived
/// on: the hub never trusts an identifier taken from a message body.
#[derive(Debug, PartialEq)]
pub struct IdedPodRequest {
    pub id: PodId,
    pub message: PodRequest,
}

} // verus!
