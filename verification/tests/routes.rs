use ellefuanti::routes::{route_label, HttpMethod, Resolved, Route};

#[test]
fn an_unresolved_uri_shows_the_expression_that_defeated_us() {
    let route = Route {
        method: HttpMethod::Named("Get".to_string()),
        uri: Resolved::Unknown("$legacyUri".into()),
        name: Some(Resolved::Unknown("$legacyName".into())),
        line: 36,
    };
    let label = route_label(&route);
    assert!(label.contains("<$legacyUri>"), "got {label:?}");
    assert!(label.contains("<$legacyName>"), "got {label:?}");
    assert!(!label.contains("  <$legacyUri>  \n"), "no empty placeholder");
    assert_eq!(label, "GET     <$legacyUri>  <$legacyName>");
}

#[test]
fn a_route_with_no_name_gets_no_name_column() {
    let route = Route {
        method: HttpMethod::Named("Post".to_string()),
        uri: Resolved::Known("/users".into()),
        name: None,
        line: 7,
    };
    let label = route_label(&route);
    assert!(label.contains("/users"));
    assert!(!label.contains('<'), "nothing unresolved here: {label:?}");
    assert_eq!(label.trim_end(), label, "no trailing pad for an absent name");
}

#[test]
fn several_verbs_share_one_column() {
    let route = Route {
        method: HttpMethod::Match(vec!["GET".to_string(), "POST".to_string(), "PUT".to_string()]),
        uri: Resolved::Known("/x".into()),
        name: Some(Resolved::Known("x".into())),
        line: 1,
    };
    assert_eq!(route_label(&route), "GET|POST|PUT/x  x");
    let resource = Route {
        method: HttpMethod::Resource("resource".to_string()),
        uri: Resolved::Known("/x".into()),
        name: None,
        line: 1,
    };
    assert_eq!(route_label(&resource), "resource/x");
}
