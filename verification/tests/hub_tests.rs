use std::collections::BTreeMap;

use gallery_hub::hub::{Hub, IdedPodRequest, Outbound};
use gallery_hub::protocols::{ClientRequest, ClientResponse, JsonProtocol, PodRequest, PodResponse};

fn strings(items: &[&str]) -> Vec<String> {
    items.iter().map(|s| s.to_string()).collect()
}

fn client_msg(out: &Outbound) -> &ClientResponse {
    match &out.msg {
        JsonProtocol::ClientResponse(m) => m,
        other => panic!("expected a client response, got {:?}", other),
    }
}

#[test]
fn subscribe_receives_snapshot() {
    let mut hub = Hub::new();
    let broadcast = hub.register_pod(7, "holiday".to_string());
    assert!(broadcast.is_empty(), "no client is subscribed yet");

    let out = hub.subscribe_client(1);
    assert_eq!(out.len(), 1);
    assert_eq!(out[0].dest, 1);
    match client_msg(&out[0]) {
        ClientResponse::Pods(pods) => {
            assert_eq!(pods.len(), 1);
            assert_eq!(pods[0].id, 7);
            assert_eq!(pods[0].name, "holiday");
            assert!(pods[0].paths.is_empty());
        }
        other => panic!("expected the pod listing, got {:?}", other),
    }
}

#[test]
fn register_broadcasts_new_pod_to_all_clients() {
    let mut hub = Hub::new();
    hub.subscribe_client(1);
    hub.subscribe_client(2);
    let out = hub.register_pod(7, "gallery".to_string());
    assert_eq!(out.len(), 2);
    assert_eq!(out[0].dest, 1);
    assert_eq!(out[1].dest, 2);
    for o in &out {
        assert_eq!(
            client_msg(o),
            &ClientResponse::NewPod { id: 7, name: "gallery".to_string() }
        );
    }
}

#[test]
fn update_pod_paths_sorts_and_deduplicates() {
    let mut hub = Hub::new();
    hub.register_pod(7, "p".to_string());
    hub.subscribe_client(1);
    let out = hub.update_pod_paths(7, strings(&["b", "a", "a", "c"]), false);
    assert_eq!(out.len(), 1);
    match client_msg(&out[0]) {
        ClientResponse::PodUpdatePaths { id, paths, replace_images, .. } => {
            assert_eq!(*id, 7);
            assert_eq!(paths, &strings(&["a", "b", "c"]));
            assert!(!replace_images);
        }
        other => panic!("expected a path update, got {:?}", other),
    }
}

#[test]
fn update_pod_paths_twice_stores_identical_state() {
    let mut hub = Hub::new();
    hub.register_pod(7, "p".to_string());
    hub.subscribe_client(1);
    let first = hub.update_pod_paths(7, strings(&["b", "a", "a", "c"]), true);
    let stored_first = hub.list_all_pods()[0].paths.clone();
    let second = hub.update_pod_paths(7, strings(&["b", "a", "a", "c"]), true);
    let stored_second = hub.list_all_pods()[0].paths.clone();
    assert_eq!(stored_first, strings(&["a", "b", "c"]));
    assert_eq!(stored_first, stored_second);
    let paths_of = |out: &Vec<Outbound>| match client_msg(&out[0]) {
        ClientResponse::PodUpdatePaths { paths, .. } => paths.clone(),
        other => panic!("expected a path update, got {:?}", other),
    };
    assert_eq!(paths_of(&first), paths_of(&second));
}

#[test]
fn update_for_unknown_pod_is_a_noop() {
    let mut hub = Hub::new();
    hub.subscribe_client(1);
    let out = hub.update_pod_title(99, "ghost".to_string());
    assert!(out.is_empty(), "a stale title update must not broadcast");
    let out = hub.update_pod_paths(99, strings(&["x"]), false);
    assert!(out.is_empty(), "a stale path update must not broadcast");
    assert!(hub.list_all_pods().is_empty());
}

#[test]
fn update_pod_title_renames_and_broadcasts() {
    let mut hub = Hub::new();
    hub.register_pod(7, "old name".to_string());
    hub.subscribe_client(1);
    let out = hub.update_pod_title(7, "new name".to_string());
    assert_eq!(out.len(), 1);
    assert_eq!(
        client_msg(&out[0]),
        &ClientResponse::PodUpdateName { id: 7, name: "new name".to_string() }
    );
    assert_eq!(hub.list_all_pods()[0].name, "new name");
}

#[test]
fn request_image_unknown_pod_answers_the_client() {
    let mut hub = Hub::new();
    hub.subscribe_client(5);
    let listing_before = hub.list_all_pods();
    let out = hub.request_image(5, 999, "x".to_string());
    assert_eq!(out.len(), 1);
    assert_eq!(out[0].dest, 5);
    assert_eq!(client_msg(&out[0]), &ClientResponse::UnknownPod(999));
    assert_eq!(hub.list_all_pods(), listing_before, "no directory mutation");
}

#[test]
fn request_image_routes_to_the_owning_pod() {
    let mut hub = Hub::new();
    hub.register_pod(7, "p".to_string());
    hub.subscribe_client(5);
    let out = hub.request_image(5, 7, "a/b.jpg".to_string());
    assert_eq!(out.len(), 1);
    assert_eq!(out[0].dest, 7);
    match &out[0].msg {
        JsonProtocol::PodResponse(PodResponse::RequestImage { client_id, path }) => {
            assert_eq!(*client_id, 5);
            assert_eq!(path, "a/b.jpg");
        }
        other => panic!("expected a forwarded image request, got {:?}", other),
    }
}

#[test]
fn request_image_with_no_pod_and_no_client_sends_nothing() {
    let hub = Hub::new();
    let out = hub.request_image(5, 999, "x".to_string());
    assert!(out.is_empty());
}

#[test]
fn disconnect_cascade_removes_pod_and_subscription() {
    let mut hub = Hub::new();
    hub.subscribe_client(7);
    hub.register_pod(7, "pod seven".to_string());
    hub.subscribe_client(1);
    hub.subscribe_client(2);

    let out = hub.unsubscribe_client(7);
    assert_eq!(out.len(), 2, "exactly one PodGone per remaining client");
    assert_eq!(out[0].dest, 1);
    assert_eq!(out[1].dest, 2);
    for o in &out {
        assert_eq!(client_msg(o), &ClientResponse::PodGone(7));
    }
    assert!(hub.list_all_pods().is_empty(), "the pod record is gone");
    assert_eq!(
        hub.handle_client_request(&ClientRequest::ListPodStructure(7)),
        ClientResponse::UnknownPod(7)
    );
    // the client subscription is gone too: a delivery to 7 is dropped
    let out = hub.deliver_image(2, 7, "p".to_string(), "b".to_string());
    assert!(out.is_empty());
}

#[test]
fn unsubscribe_plain_client_broadcasts_nothing() {
    let mut hub = Hub::new();
    hub.subscribe_client(1);
    hub.subscribe_client(2);
    let out = hub.unsubscribe_client(2);
    assert!(out.is_empty(), "a plain client leaving is not broadcast");
}

#[test]
fn unregister_pod_broadcasts_pod_gone() {
    let mut hub = Hub::new();
    hub.register_pod(7, "p".to_string());
    hub.subscribe_client(1);
    let out = hub.unregister_pod(7);
    assert_eq!(out.len(), 1);
    assert_eq!(out[0].dest, 1);
    assert_eq!(client_msg(&out[0]), &ClientResponse::PodGone(7));
    let out = hub.unregister_pod(7);
    assert!(out.is_empty(), "removing an absent pod is a no-op");
}

#[test]
fn deliver_image_to_departed_client_is_dropped_silently() {
    let mut hub = Hub::new();
    hub.register_pod(7, "p".to_string());
    hub.subscribe_client(5);
    hub.unsubscribe_client(5);
    let out = hub.deliver_image(7, 5, "a.jpg".to_string(), "bytes".to_string());
    assert!(out.is_empty(), "no outbound send to a disconnected client");
}

#[test]
fn deliver_image_reaches_the_requesting_client() {
    let mut hub = Hub::new();
    hub.register_pod(7, "p".to_string());
    hub.subscribe_client(5);
    let out = hub.deliver_image(7, 5, "a.jpg".to_string(), "bytes".to_string());
    assert_eq!(out.len(), 1);
    assert_eq!(out[0].dest, 5);
    assert_eq!(
        client_msg(&out[0]),
        &ClientResponse::DeliverImage {
            gallery_id: 7,
            path: "a.jpg".to_string(),
            blob: "bytes".to_string(),
        }
    );
}

#[test]
fn list_pod_structure_reports_paths_or_absence() {
    let mut hub = Hub::new();
    hub.register_pod(7, "p".to_string());
    hub.update_pod_paths(7, strings(&["z", "a"]), false);
    match hub.handle_client_request(&ClientRequest::ListPodStructure(7)) {
        ClientResponse::PodUpdatePaths { id, paths, replace_images, .. } => {
            assert_eq!(id, 7);
            assert_eq!(paths, strings(&["a", "z"]));
            assert!(!replace_images);
        }
        other => panic!("expected the pod structure, got {:?}", other),
    }
    assert_eq!(
        hub.handle_client_request(&ClientRequest::ListPodStructure(8)),
        ClientResponse::UnknownPod(8)
    );
}

#[test]
fn list_all_pods_via_client_request() {
    let mut hub = Hub::new();
    hub.register_pod(7, "p".to_string());
    hub.register_pod(8, "q".to_string());
    match hub.handle_client_request(&ClientRequest::ListAllPods) {
        ClientResponse::Pods(pods) => {
            let mut ids: Vec<u64> = pods.iter().map(|p| p.id).collect();
            ids.sort();
            assert_eq!(ids, vec![7, 8]);
        }
        other => panic!("expected the pod listing, got {:?}", other),
    }
}

#[test]
fn ided_pod_request_dispatch() {
    let mut hub = Hub::new();
    hub.register_pod(7, "p".to_string());
    hub.subscribe_client(1);

    // a stray registration is absorbed without effect
    let out = hub.handle_ided_pod_request(IdedPodRequest {
        id: 7,
        message: PodRequest::RegisterSelf { proposed_id: None, name: "again".to_string() },
    });
    assert!(out.is_empty());
    assert_eq!(hub.list_all_pods()[0].name, "p");

    let out = hub.handle_ided_pod_request(IdedPodRequest {
        id: 7,
        message: PodRequest::UpdateTitle { name: "q".to_string() },
    });
    assert_eq!(out.len(), 1);
    assert_eq!(hub.list_all_pods()[0].name, "q");

    let out = hub.handle_ided_pod_request(IdedPodRequest {
        id: 7,
        message: PodRequest::UpdatePaths { paths: strings(&["b", "a"]), replace_images: true },
    });
    assert_eq!(out.len(), 1);
    assert_eq!(hub.list_all_pods()[0].paths, strings(&["a", "b"]));

    let out = hub.handle_ided_pod_request(IdedPodRequest {
        id: 7,
        message: PodRequest::DeliverImage {
            client_id: 1,
            path: "a".to_string(),
            blob: "blob".to_string(),
        },
    });
    assert_eq!(out.len(), 1);
    assert_eq!(out[0].dest, 1);
}

/// A client's reconstruction of the directory: the snapshot received at
/// subscription followed by every broadcast received since rebuilds the
/// live pod listing (name and paths) at every step.
#[test]
fn snapshot_then_broadcasts_track_the_directory() {
    let mut hub = Hub::new();
    hub.register_pod(2, "early".to_string());

    let mut view: BTreeMap<u64, (String, Vec<String>)> = BTreeMap::new();
    let client: u64 = 1;
    let mut apply = |view: &mut BTreeMap<u64, (String, Vec<String>)>, out: &Vec<Outbound>| {
        for o in out {
            if o.dest != client {
                continue;
            }
            match client_msg(o) {
                ClientResponse::Pods(pods) => {
                    view.clear();
                    for p in pods {
                        view.insert(p.id, (p.name.clone(), p.paths.clone()));
                    }
                }
                ClientResponse::NewPod { id, name } => {
                    view.insert(*id, (name.clone(), Vec::new()));
                }
                ClientResponse::PodGone(id) => {
                    view.remove(id);
                }
                ClientResponse::PodUpdateName { id, name } => {
                    if let Some(entry) = view.get_mut(id) {
                        entry.0 = name.clone();
                    }
                }
                ClientResponse::PodUpdatePaths { id, paths, .. } => {
                    if let Some(entry) = view.get_mut(id) {
                        entry.1 = paths.clone();
                    }
                }
                ClientResponse::UnknownPod(_) | ClientResponse::DeliverImage { .. } => {}
            }
        }
    };
    let check = |view: &BTreeMap<u64, (String, Vec<String>)>, hub: &Hub| {
        let listing = hub.list_all_pods();
        assert_eq!(listing.len(), view.len(), "no pod missing, none listed twice");
        for p in listing {
            let entry = view.get(&p.id).expect("pod missing from the client view");
            assert_eq!(entry.0, p.name);
            assert_eq!(entry.1, p.paths);
        }
    };

    let out = hub.subscribe_client(client);
    apply(&mut view, &out);
    check(&view, &hub);

    let out = hub.register_pod(2, "early renamed by re-registration".to_string());
    apply(&mut view, &out);
    check(&view, &hub);

    let out = hub.register_pod(3, "late".to_string());
    apply(&mut view, &out);
    check(&view, &hub);

    let out = hub.update_pod_paths(3, strings(&["c", "b", "b"]), false);
    apply(&mut view, &out);
    check(&view, &hub);

    let out = hub.update_pod_title(2, "renamed".to_string());
    apply(&mut view, &out);
    check(&view, &hub);

    let out = hub.unregister_pod(2);
    apply(&mut view, &out);
    check(&view, &hub);

    let out = hub.unsubscribe_client(3);
    apply(&mut view, &out);
    check(&view, &hub);
}
