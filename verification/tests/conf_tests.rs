use oauth_gateway::conf::{http_upgrade_url, parse_ipv4, render_config, BindAddr, ConfigError};

type Section = (String, Vec<(String, Option<String>)>);

fn kv(key: &str, value: Option<&str>) -> (String, Option<String>) {
    (key.to_string(), value.map(|v| v.to_string()))
}

fn service_section() -> Section {
    (
        "service".to_string(),
        vec![
            kv("domain", Some("/spotify")),
            kv("target", Some("api")),
            kv("endpoint", Some("me/player/currently_playing")),
            kv("extract", Some("item/id")),
            kv("uri", Some("example.org")),
            kv("redirect", Some("https://example.org/authorized")),
        ],
    )
}

fn routing_section() -> Section {
    (
        "routing".to_string(),
        vec![kv("http", Some("127.0.0.1:8080")), kv("https", Some("10.0.0.1"))],
    )
}

#[test]
fn full_config_renders() {
    let sections: Vec<Section> = vec![
        (
            "https".to_string(),
            vec![kv("cert", Some(" /etc/cert.pem ")), kv("key", Some("/etc/key.pem\n"))],
        ),
        routing_section(),
        service_section(),
    ];
    let cfg = render_config(&sections).expect("config should render");
    let https = cfg.https.expect("https should be configured");
    assert_eq!(https.cert, "/etc/cert.pem");
    assert_eq!(https.key, "/etc/key.pem");
    assert_eq!(cfg.routing, vec![
        ("http".to_string(), BindAddr { a: 127, b: 0, c: 0, d: 1, port: 8080 }),
        ("https".to_string(), BindAddr { a: 10, b: 0, c: 0, d: 1, port: 443 }),
    ]);
    assert_eq!(cfg.service.domain, "/spotify");
    assert_eq!(cfg.service.target, "api");
    assert_eq!(cfg.service.endpoint, "me/player/currently_playing");
    assert_eq!(cfg.service.extract, "item/id");
    assert_eq!(cfg.service.uri, "example.org");
    assert_eq!(cfg.service.redirect, "https://example.org/authorized");
}

#[test]
fn config_without_https_section_is_fine() {
    let sections: Vec<Section> = vec![routing_section(), service_section()];
    let cfg = render_config(&sections).expect("config should render");
    assert!(cfg.https.is_none());
}

#[test]
fn missing_routing_section_is_fatal() {
    let sections: Vec<Section> = vec![service_section()];
    assert_eq!(render_config(&sections).err(), Some(ConfigError::MissingRouting));
}

#[test]
fn missing_service_section_is_fatal() {
    let sections: Vec<Section> = vec![routing_section()];
    assert_eq!(render_config(&sections).err(), Some(ConfigError::MissingService));
}

#[test]
fn missing_service_key_is_named() {
    let mut svc = service_section();
    svc.1.retain(|(k, _)| k != "endpoint");
    let sections: Vec<Section> = vec![routing_section(), svc];
    assert_eq!(
        render_config(&sections).err(),
        Some(ConfigError::MissingServiceField("endpoint".to_string()))
    );
}

#[test]
fn https_section_without_key_is_named() {
    let sections: Vec<Section> = vec![
        ("https".to_string(), vec![kv("cert", Some("/etc/cert.pem"))]),
        routing_section(),
        service_section(),
    ];
    assert_eq!(render_config(&sections).err(), Some(ConfigError::MissingHttpsField("key".to_string())));
}

#[test]
fn bad_routing_address_is_named() {
    let sections: Vec<Section> = vec![
        ("routing".to_string(), vec![kv("http", Some("localhost:8080"))]),
        service_section(),
    ];
    assert_eq!(render_config(&sections).err(), Some(ConfigError::InvalidAddress("http".to_string())));
}

#[test]
fn routing_skips_valueless_and_unknown_entries() {
    let sections: Vec<Section> = vec![
        (
            "routing".to_string(),
            vec![kv("comment", None), kv("metrics", Some("9.9.9.9")), kv(
                "http",
                Some("0.0.0.0:80"),
            )],
        ),
        service_section(),
    ];
    let cfg = render_config(&sections).expect("config should render");
    assert_eq!(cfg.routing, vec![("http".to_string(), BindAddr {
        a: 0,
        b: 0,
        c: 0,
        d: 0,
        port: 80,
    })]);
}

#[test]
fn ipv4_parsing() {
    assert_eq!(parse_ipv4("1.2.3.4"), Some((1, 2, 3, 4)));
    assert_eq!(parse_ipv4("255.255.255.255"), Some((255, 255, 255, 255)));
    assert_eq!(parse_ipv4("0.0.0.0"), Some((0, 0, 0, 0)));
    assert_eq!(parse_ipv4("256.0.0.1"), None);
    assert_eq!(parse_ipv4("01.2.3.4"), None);
    assert_eq!(parse_ipv4("1.2.3"), None);
    assert_eq!(parse_ipv4("1.2.3.4.5"), None);
    assert_eq!(parse_ipv4("a.b.c.d"), None);
    assert_eq!(parse_ipv4(""), None);
}

#[test]
fn upgrade_url_joins_host_and_path() {
    assert_eq!(http_upgrade_url("example.org", "/spotify"), "https://example.org/spotify");
}
