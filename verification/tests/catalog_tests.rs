use storefront::catalog::{decode_catalog, resolve_resource, CatalogError, Resource, ResourceList};

fn sample_catalog() -> ResourceList {
    ResourceList {
        resources: Some(vec![
            Resource {
                name: Some("A".to_string()),
                launchurl: Some("/x".to_string()),
            },
            Resource {
                name: Some("B".to_string()),
                launchurl: None,
            },
        ]),
    }
}

#[test]
fn resolve_matching_descriptor() {
    assert_eq!(resolve_resource(&sample_catalog(), "A").unwrap(), "/x");
}

#[test]
fn resolve_match_without_launch_path_fails() {
    assert_eq!(
        resolve_resource(&sample_catalog(), "B").unwrap_err(),
        CatalogError::NoLaunchPath
    );
}

#[test]
fn resolve_no_match_fails() {
    assert_eq!(
        resolve_resource(&sample_catalog(), "C").unwrap_err(),
        CatalogError::NoMatch
    );
}

#[test]
fn resolve_absent_sequence_distinct_from_empty() {
    let absent = ResourceList { resources: None };
    let empty = ResourceList {
        resources: Some(vec![]),
    };
    assert_eq!(
        resolve_resource(&absent, "A").unwrap_err(),
        CatalogError::ResourcesAbsent
    );
    assert_eq!(
        resolve_resource(&empty, "A").unwrap_err(),
        CatalogError::NoMatch
    );
}

#[test]
fn resolve_is_case_sensitive() {
    assert_eq!(
        resolve_resource(&sample_catalog(), "a").unwrap_err(),
        CatalogError::NoMatch
    );
}

#[test]
fn resolve_first_match_decides() {
    // The first descriptor with the requested name decides, even when a
    // later one carries a launch path.
    let list = ResourceList {
        resources: Some(vec![
            Resource {
                name: Some("A".to_string()),
                launchurl: None,
            },
            Resource {
                name: Some("A".to_string()),
                launchurl: Some("/later".to_string()),
            },
        ]),
    };
    assert_eq!(
        resolve_resource(&list, "A").unwrap_err(),
        CatalogError::NoLaunchPath
    );
}

#[test]
fn resolve_skips_unnamed_descriptors() {
    let list = ResourceList {
        resources: Some(vec![
            Resource {
                name: None,
                launchurl: Some("/anon".to_string()),
            },
            Resource {
                name: Some("A".to_string()),
                launchurl: Some("/x".to_string()),
            },
        ]),
    };
    assert_eq!(resolve_resource(&list, "A").unwrap(), "/x");
}

#[test]
fn decode_well_formed_payload() {
    let list =
        decode_catalog("{\"resources\":[{\"name\":\"A\",\"launchurl\":\"/x\"}]}").unwrap();
    assert_eq!(resolve_resource(&list, "A").unwrap(), "/x");
}

#[test]
fn decode_not_json_is_none() {
    assert!(decode_catalog("not json at all").is_none());
}

#[test]
fn decode_object_without_resources_has_absent_sequence() {
    let list = decode_catalog("{\"unauthorized\":true}").unwrap();
    assert!(list.resources.is_none());
}

#[test]
fn decode_null_resources_counts_as_absent() {
    let list = decode_catalog("{\"resources\":null}").unwrap();
    assert!(list.resources.is_none());
}

#[test]
fn decode_empty_resources_is_empty_not_absent() {
    let list = decode_catalog("{\"resources\":[]}").unwrap();
    assert_eq!(list.resources.as_ref().map(|r| r.len()), Some(0));
}

#[test]
fn decode_descriptor_with_missing_fields() {
    let list = decode_catalog("{\"resources\":[{\"name\":\"A\"}]}").unwrap();
    assert_eq!(
        resolve_resource(&list, "A").unwrap_err(),
        CatalogError::NoLaunchPath
    );
}
