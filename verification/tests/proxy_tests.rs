use gallery_hub::client::{ProxyAction, Role, WebClient};
use gallery_hub::ids::Incrementor;
use gallery_hub::protocols::{ClientRequestAsync, PodRequest, PodResponse};
use gallery_hub::websocket::CloseCode;

#[test]
fn registering_twice_yields_already_registered_and_one_announcement() {
    let mut proxy = WebClient::new(3);
    assert_eq!(proxy.role, Role::Unregistered);

    let first = proxy.handle_pod_request(PodRequest::RegisterSelf {
        proposed_id: Some(42),
        name: "mine".to_string(),
    });
    match first {
        ProxyAction::Register(cmd, resp) => {
            assert_eq!(cmd.id, 3, "the proposed identifier 42 is never trusted");
            assert_eq!(cmd.name, "mine");
            assert_eq!(resp, PodResponse::Registered { global_id: 3 });
        }
        other => panic!("expected a registration, got {:?}", other),
    }
    assert_eq!(proxy.role, Role::RegisteredAsPod);

    let second = proxy.handle_pod_request(PodRequest::RegisterSelf {
        proposed_id: None,
        name: "mine again".to_string(),
    });
    match second {
        ProxyAction::Respond(resp) => {
            assert_eq!(resp, PodResponse::AlreadyRegistered { global_id: 3 });
        }
        other => panic!("a second registration must announce nothing: {:?}", other),
    }
    assert_eq!(proxy.role, Role::RegisteredAsPod);
}

#[test]
fn pod_message_before_registration_is_a_policy_violation() {
    let mut proxy = WebClient::new(9);
    let action = proxy.handle_pod_request(PodRequest::UpdateTitle { name: "x".to_string() });
    match action {
        ProxyAction::Violation(reason) => assert_eq!(reason.code, CloseCode::Policy),
        other => panic!("expected a policy violation, got {:?}", other),
    }
    assert_eq!(proxy.role, Role::Unregistered);
}

#[test]
fn pod_message_after_registration_is_stamped_and_forwarded() {
    let mut proxy = WebClient::new(9);
    proxy.handle_pod_request(PodRequest::RegisterSelf {
        proposed_id: None,
        name: "p".to_string(),
    });
    let action = proxy.handle_pod_request(PodRequest::UpdatePaths {
        paths: vec!["a".to_string()],
        replace_images: false,
    });
    match action {
        ProxyAction::Forward(req) => {
            assert_eq!(req.id, 9);
            assert_eq!(
                req.message,
                PodRequest::UpdatePaths { paths: vec!["a".to_string()], replace_images: false }
            );
        }
        other => panic!("expected a forward, got {:?}", other),
    }
}

#[test]
fn image_requests_are_stamped_with_the_connection_identity() {
    let proxy = WebClient::new(11);
    let stamped = proxy.stamp_image_request(ClientRequestAsync::RequestImage {
        gallery_id: 7,
        path: "a.jpg".to_string(),
        client_id: 999,
    });
    assert_eq!(
        stamped,
        ClientRequestAsync::RequestImage {
            gallery_id: 7,
            path: "a.jpg".to_string(),
            client_id: 11,
        }
    );
}

#[test]
fn connect_and_disconnect_commands_carry_the_connection_id() {
    let proxy = WebClient::new(4);
    assert_eq!(proxy.connect_command().id, 4);
    assert_eq!(proxy.disconnect_command().0, 4);
}

#[test]
fn incrementor_hands_out_each_identifier_once() {
    let mut inc = Incrementor::new();
    assert!(inc.can_increment());
    assert_eq!(inc.increment(), 0);
    assert_eq!(inc.increment(), 1);
    assert_eq!(inc.increment(), 2);
}
