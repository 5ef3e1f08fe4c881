use gosling::context::TorEvent;
use gosling::encoding::same_text;
use gosling::keys::{array_of_32, array_of_64, vec_of_32, vec_of_64, GoslingX25519PrivateKey};
use gosling::rpc::{version_text, Response};
use gosling::document::Value;
use gosling::service_id::GoslingV3OnionServiceId;
use gosling::transport::{hs_desc_event, status_client_events, BOOTSTRAP_COMPLETE_PROGRESS};

const SERVICE: &str = "aaaaaaaaaaaaaaaaaaaaaaaaaaaaaaaaaaaaaaaaaaaaaaaaaaaaaaad";

#[test]
fn bootstrap_reports_become_events() {
    let events = status_client_events("NOTICE", "BOOTSTRAP", 45, "conn".to_string(), "Connecting".to_string());
    assert_eq!(events.len(), 1);
    match &events[0] {
        TorEvent::BootstrapStatus { progress, tag, summary } => {
            assert_eq!(*progress, 45);
            assert_eq!(tag, "conn");
            assert_eq!(summary, "Connecting");
        }
        _ => panic!("the status of the bootstrap"),
    }
}

#[test]
fn bootstrap_is_complete_at_one_hundred() {
    assert_eq!(BOOTSTRAP_COMPLETE_PROGRESS, 100);
    let events = status_client_events("NOTICE", "BOOTSTRAP", 100, "done".to_string(), "Done".to_string());
    assert_eq!(events.len(), 2);
    assert!(matches!(events[0], TorEvent::BootstrapStatus { progress: 100, .. }));
    assert!(matches!(events[1], TorEvent::BootstrapComplete));
    let events = status_client_events("NOTICE", "BOOTSTRAP", 99, "conn".to_string(), "Almost".to_string());
    assert_eq!(events.len(), 1);
    let events = status_client_events("NOTICE", "BOOTSTRAP", 101, "conn".to_string(), "Beyond".to_string());
    assert_eq!(events.len(), 1);
}

#[test]
fn other_status_reports_mean_nothing() {
    assert!(status_client_events("WARN", "BOOTSTRAP", 100, String::new(), String::new()).is_empty());
    assert!(status_client_events("NOTICE", "CIRCUIT_ESTABLISHED", 100, String::new(), String::new()).is_empty());
    assert!(status_client_events("notice", "bootstrap", 100, String::new(), String::new()).is_empty());
}

#[test]
fn an_uploaded_descriptor_publishes_the_service() {
    let service_id = GoslingV3OnionServiceId::from_string(SERVICE).unwrap();
    match hs_desc_event("UPLOADED", service_id.clone()) {
        Some(TorEvent::OnionServicePublished { service_id: published }) => assert!(published.same(&service_id)),
        _ => panic!("the service is published"),
    }
    assert!(hs_desc_event("UPLOAD", service_id.clone()).is_none());
    assert!(hs_desc_event("RECEIVED", service_id).is_none());
}

#[test]
fn arrays_take_exactly_their_length() {
    let bytes: Vec<u8> = (0u8..32).collect();
    assert_eq!(array_of_32(&bytes).unwrap().to_vec(), bytes);
    assert_eq!(vec_of_32(&array_of_32(&bytes).unwrap()), bytes);
    assert!(array_of_32(&bytes[..31].to_vec()).is_none());
    assert!(array_of_32(&Vec::new()).is_none());
    assert!(array_of_64(&bytes).is_none());
    let long: Vec<u8> = (0u8..64).collect();
    assert_eq!(array_of_64(&long).unwrap().to_vec(), long);
    assert_eq!(vec_of_64(&array_of_64(&long).unwrap()), long);
    assert!(array_of_32(&long).is_none());
    let mut key = [0u8; 32];
    key[5] = 5;
    assert_eq!(GoslingX25519PrivateKey::from_raw(&key).to_bytes(), key);
}

#[test]
fn texts_and_responses() {
    assert!(same_text("begin_handshake", "begin_handshake"));
    assert!(!same_text("begin_handshake", "begin_handshakes"));
    assert!(!same_text("", "a"));
    assert!(same_text("", ""));
    assert_eq!(version_text(), "0.0.0.1");
    assert_eq!(Response::Pending { cookie: 3 }.cookie(), 3);
    assert_eq!(Response::Error { cookie: -4, error_code: 1 }.cookie(), -4);
    assert_eq!(Response::Success { cookie: 5, result: Value::Boolean(true) }.cookie(), 5);
}
