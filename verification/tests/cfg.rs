use withdrawal_gateway::cfg::CfgError;
use withdrawal_gateway::Cfg;

#[test]
fn default_settings_point_at_localhost() {
    let cfg = Cfg::default();
    assert_eq!(cfg.address, "http://localhost:8082/");
    assert_eq!(cfg.auth_endpoint, "http://localhost:8081/");
}

#[test]
fn absent_fields_are_at_their_defaults() {
    assert_eq!(Cfg::with_fields(None, None), Cfg::default());
    assert_eq!(Cfg::from_fields(None, None), Ok(Cfg::default()));
    assert_eq!(
        Cfg::with_fields(Some("0.0.0.0:9000".to_string()), None),
        Cfg {
            address: "0.0.0.0:9000".to_string(),
            auth_endpoint: "http://localhost:8081/".to_string(),
        }
    );
    assert_eq!(
        Cfg::from_fields(None, Some("https://auth.example.net/v1/".to_string())),
        Ok(Cfg {
            address: "http://localhost:8082/".to_string(),
            auth_endpoint: "https://auth.example.net/v1/".to_string(),
        })
    );
}

#[test]
fn given_endpoint_is_kept_as_the_url_serializes() {
    assert_eq!(
        Cfg::from_fields(Some("here".to_string()), Some("HTTP://LocalHost:8081".to_string())),
        Ok(Cfg { address: "here".to_string(), auth_endpoint: "http://localhost:8081/".to_string() })
    );
    assert_eq!(
        Cfg::from_fields(None, Some("https://auth.example.net:443/a/../b".to_string()))
            .unwrap()
            .auth_endpoint,
        "https://auth.example.net/b"
    );
}

#[test]
fn default_endpoint_is_a_url_in_its_own_serialization() {
    let cfg = Cfg::from_fields(None, Some(Cfg::default().auth_endpoint)).unwrap();
    assert_eq!(cfg, Cfg::default());
}

#[test]
fn endpoint_that_is_no_absolute_url_is_refused() {
    for text in ["", "localhost", "/relative/path", "http://", "http://[::1", "http://host:99999/"] {
        assert_eq!(
            Cfg::from_fields(None, Some(text.to_string())),
            Err(CfgError::InvalidAuthEndpoint),
            "{:?}",
            text
        );
    }
}
