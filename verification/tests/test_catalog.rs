//! Catalog resolution: determinism, failures, and the region fallback.

use osauth::catalog::{find_endpoint, CatalogRecord, Endpoint};
use osauth::error::ErrorKind;

fn sample_catalog() -> Vec<CatalogRecord> {
    vec![
        CatalogRecord {
            service_type: "compute".to_string(),
            endpoints: vec![
                Endpoint {
                    interface: "public".to_string(),
                    region: Some("east".to_string()),
                    url: "http://compute-east/".to_string(),
                },
                Endpoint {
                    interface: "public".to_string(),
                    region: Some("west".to_string()),
                    url: "http://compute-west/".to_string(),
                },
                Endpoint {
                    interface: "internal".to_string(),
                    region: Some("east".to_string()),
                    url: "http://compute-int/".to_string(),
                },
            ],
        },
        CatalogRecord {
            service_type: "identity".to_string(),
            endpoints: vec![Endpoint {
                interface: "admin".to_string(),
                region: None,
                url: "http://identity-admin/".to_string(),
            }],
        },
    ]
}

#[test]
fn test_resolution_is_deterministic() {
    let cat = sample_catalog();
    let a = find_endpoint(&cat, "compute", "public", &None).unwrap();
    let b = find_endpoint(&cat, "compute", "public", &None).unwrap();
    assert_eq!(a.url, b.url);
    assert_eq!(a.interface, b.interface);
    assert_eq!(a.region, b.region);
}

#[test]
fn test_first_in_catalog_order_wins() {
    let cat = sample_catalog();
    let e = find_endpoint(&cat, "compute", "public", &None).unwrap();
    assert_eq!(e.url, "http://compute-east/");
}

#[test]
fn test_exact_region_match_preferred() {
    let cat = sample_catalog();
    let region = Some("west".to_string());
    let e = find_endpoint(&cat, "compute", "public", &region).unwrap();
    assert_eq!(e.url, "http://compute-west/");
}

#[test]
fn test_region_falls_back_to_interface_only() {
    let cat = sample_catalog();
    let region = Some("north".to_string());
    let e = find_endpoint(&cat, "compute", "public", &region).unwrap();
    assert_eq!(e.url, "http://compute-east/");
}

#[test]
fn test_missing_service_type_fails() {
    let cat = sample_catalog();
    let err = find_endpoint(&cat, "volume", "public", &None).unwrap_err();
    assert_eq!(err.kind(), ErrorKind::EndpointNotFound);
    assert_eq!(err.status(), None);
    assert!(err.message().contains("volume"));
}

#[test]
fn test_missing_interface_fails() {
    let cat = sample_catalog();
    let err = find_endpoint(&cat, "identity", "public", &None).unwrap_err();
    assert_eq!(err.kind(), ErrorKind::EndpointNotFound);
    assert!(err.message().contains("identity"));
    assert!(err.message().contains("public"));
}

#[test]
fn test_empty_catalog_fails() {
    let cat: Vec<CatalogRecord> = Vec::new();
    let err = find_endpoint(&cat, "compute", "public", &None).unwrap_err();
    assert_eq!(err.kind(), ErrorKind::EndpointNotFound);
}

#[test]
fn test_not_found_message_names_the_request() {
    let cat = sample_catalog();
    let err = find_endpoint(&cat, "volume", "internal", &None).unwrap_err();
    assert_eq!(
        err.message(),
        "no suitable endpoint for service volume with interface internal"
    );
}
