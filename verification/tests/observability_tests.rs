use tihc::observability::{
    failed_connection_test, health_path, health_result, request_url, source_base_url,
    source_headers, source_name, source_not_found, DataKind, DataSourceConfig, DataSourceRegistry,
};

#[test]
fn request_urls_join_with_one_slash() {
    assert_eq!(request_url("http://prom:3000/", "/api/v1/query"), "http://prom:3000/api/v1/query");
    assert_eq!(request_url("http://prom:3000//", "api"), "http://prom:3000/api");
    assert_eq!(request_url("http://prom:3000", "api"), "http://prom:3000/api");
    assert_eq!(request_url("", ""), "/");
}

#[test]
fn headers_by_source_kind() {
    let p = DataSourceConfig::Prometheus { base_url: "http://p".into(), cookie: "abc".into() };
    assert_eq!(source_headers(&p), vec![("Cookie".to_string(), "grafana_session=abc".to_string())]);
    assert_eq!(source_base_url(&p), "http://p");
    assert_eq!(health_path(&p), "api/datasources/proxy/1/api/v1/status/config");

    let with_key = DataSourceConfig::Clinic {
        base_url: "http://c".into(),
        apikey: Some("k".into()),
        cookie: Some("c".into()),
        csrf_token: Some("t".into()),
    };
    assert_eq!(source_headers(&with_key), vec![("Authorization".to_string(), "Bearer k".to_string())]);

    let with_cookie = DataSourceConfig::Clinic {
        base_url: "http://c".into(),
        apikey: None,
        cookie: Some("c".into()),
        csrf_token: Some("t".into()),
    };
    assert_eq!(
        source_headers(&with_cookie),
        vec![("Cookie".to_string(), "c".to_string()), ("X-CSRF-Token".to_string(), "t".to_string())]
    );
    let cookie_only = DataSourceConfig::Clinic { base_url: "http://c".into(), apikey: None, cookie: Some("c".into()), csrf_token: None };
    assert!(source_headers(&cookie_only).is_empty());
    assert_eq!(health_path(&cookie_only), "clinic/api/v1/dashboard/clusters2?limit=1");
}

#[test]
fn connection_reports() {
    let ok = health_result(Ok(()));
    assert!(ok.success);
    assert_eq!(ok.message, "Connection successful");
    let bad = health_result(Err("timeout".into()));
    assert!(!bad.success);
    assert_eq!(bad.message, "Connection failed: timeout");
    assert_eq!(failed_connection_test("x").message, "Connection test failed: x");
    assert_eq!(source_not_found("logs"), "Data source 'logs' not found");
}

#[test]
fn registry_routes_by_name() {
    let mut r: DataSourceRegistry<u32> = DataSourceRegistry::new();
    assert!(r.get_data_source("prometheus").is_none());
    r.add_data_source("prometheus".into(), 1);
    r.add_data_source("clinic".into(), 2);
    r.add_data_source("prometheus".into(), 3);
    assert_eq!(r.get_data_source(source_name(DataKind::Metrics)), Some(&3));
    assert_eq!(r.get_data_source(source_name(DataKind::SystemTable)), Some(&2));
    assert_eq!(r.get_data_source(source_name(DataKind::Logs)), None);
    let mut names = r.names();
    names.sort();
    assert_eq!(names, vec!["clinic".to_string(), "prometheus".to_string()]);
    assert_eq!(source_name(DataKind::K8sSubsystem), "k8s_subsystem");
}
