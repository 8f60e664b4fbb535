use lightwave::client::EffectCommands;
use lightwave::models::ColorRequest;
use lightwave::models::EffectStartRequest;
use lightwave::client::HttpMethod;
use lightwave::client::LightWaveClient;
use lightwave::encode::render_start_body;
use lightwave::errors::ApiError;
use lightwave::values::parse_params;

fn client() -> LightWaveClient {
    LightWaveClient::with_base_url("http://h:8000")
}

#[test]
fn client_from_environment_value() {
    let c = LightWaveClient::new(Some("http://env:9/"));
    assert_eq!(c.base_url, "http://env:9/api");
}

#[test]
fn client_from_nothing_uses_default() {
    let c = LightWaveClient::new(None);
    assert_eq!(c.base_url, "http://localhost:8000/api");
}

#[test]
fn list_effects_request_shape() {
    let r = client().list_effects_request();
    assert_eq!(r.method, HttpMethod::Get);
    assert_eq!(r.url, "http://h:8000/api/effects");
    assert!(r.body.is_none());
}

#[test]
fn effect_info_request_shape() {
    let r = client().effect_info_request("rainbow");
    assert_eq!(r.method, HttpMethod::Get);
    assert_eq!(r.url, "http://h:8000/api/effects/rainbow");
    assert!(r.body.is_none());
}

#[test]
fn status_request_shape() {
    let r = client().effect_status_request();
    assert_eq!(r.method, HttpMethod::Get);
    assert_eq!(r.url, "http://h:8000/api/status");
    assert!(r.body.is_none());
}

#[test]
fn stop_request_shape() {
    let r = client().stop_effect_request();
    assert_eq!(r.method, HttpMethod::Post);
    assert_eq!(r.url, "http://h:8000/api/effects/stop");
    assert!(r.body.is_none());
}

#[test]
fn clear_request_shape() {
    let r = client().clear_leds_request();
    assert_eq!(r.method, HttpMethod::Post);
    assert_eq!(r.url, "http://h:8000/api/leds/clear");
    assert!(r.body.is_none());
}

#[test]
fn start_effect_request_sends_coerced_parameters() {
    let raw = vec!["speed=5".to_string(), "smooth=true".to_string()];
    let params = parse_params(&raw);
    let r = client().start_effect_request("rainbow", &params);
    assert_eq!(r.method, HttpMethod::Post);
    assert_eq!(r.url, "http://h:8000/api/effects/start");
    assert_eq!(
        r.body.as_deref(),
        Some(r#"{"name":"rainbow","parameters":{"speed":5,"smooth":true}}"#)
    );
}

#[test]
fn start_body_escapes_string_values() {
    let raw = vec!["label=a\"b\\c\nd".to_string()];
    let params = parse_params(&raw);
    let body = render_start_body("fx", &params);
    assert_eq!(body, r#"{"name":"fx","parameters":{"label":"a\"b\\c\nd"}}"#);
    let parsed: serde_json::Value = serde_json::from_str(&body).unwrap();
    assert_eq!(parsed["parameters"]["label"], "a\"b\\c\nd");
}

#[test]
fn start_body_renders_control_characters() {
    let raw = vec!["k=\u{1}".to_string()];
    let params = parse_params(&raw);
    let body = render_start_body("fx", &params);
    let parsed: serde_json::Value = serde_json::from_str(&body).unwrap();
    assert_eq!(parsed["parameters"]["k"], "\u{1}");
}

#[test]
fn color_request_shape() {
    let r = client().set_color_request("#ff0000");
    assert_eq!(r.method, HttpMethod::Post);
    assert_eq!(r.url, "http://h:8000/api/leds/color");
    assert_eq!(r.body.as_deref(), Some("{\"color\":\"#ff0000\"}"));
}

#[test]
fn brightness_out_of_range_fails_client_side() {
    for value in [-0.1f64, 1.5, 100.0] {
        let in_range = (0.0..=1.0).contains(&value);
        assert!(!in_range);
        let lit = serde_json::Number::from_f64(value).unwrap().to_string();
        let r = client().set_brightness_request(&lit, in_range);
        match r {
            Err(ApiError::ClientError(m)) => {
                assert_eq!(m, "Brightness must be between 0.0 and 1.0");
            }
            other => panic!("expected a client error, got {other:?}"),
        }
    }
}

#[test]
fn brightness_boundaries_are_accepted() {
    for value in [0.0f64, 1.0, 0.5] {
        let in_range = (0.0..=1.0).contains(&value);
        assert!(in_range);
        let lit = serde_json::Number::from_f64(value).unwrap().to_string();
        let r = client().set_brightness_request(&lit, in_range).unwrap();
        assert_eq!(r.method, HttpMethod::Post);
        assert_eq!(r.url, "http://h:8000/api/leds/brightness");
        let body = r.body.unwrap();
        let parsed: serde_json::Value = serde_json::from_str(&body).unwrap();
        assert_eq!(parsed["brightness"].as_f64(), Some(value));
    }
}

#[test]
fn request_shapes_render_their_own_bodies() {
    let color = ColorRequest { color: "teal".to_string() };
    assert_eq!(color.to_json(), r#"{"color":"teal"}"#);
    let start = EffectStartRequest {
        name: "rainbow".to_string(),
        parameters: parse_params(&vec!["speed=5".to_string()]),
    };
    assert_eq!(start.to_json(), r#"{"name":"rainbow","parameters":{"speed":5}}"#);
}

#[test]
fn effect_command_requests_match_the_builders() {
    let c = client();
    let start = c.request_for_effect_command(&EffectCommands::Start {
        name: "rainbow".to_string(),
        param: vec!["speed=5".to_string(), "smooth=true".to_string()],
    });
    assert_eq!(
        start.body.as_deref(),
        Some(r#"{"name":"rainbow","parameters":{"speed":5,"smooth":true}}"#)
    );
    let info = c.request_for_effect_command(&EffectCommands::Info { name: "glow".to_string() });
    assert_eq!(info.url, "http://h:8000/api/effects/glow");
    let stop = c.request_for_effect_command(&EffectCommands::Stop);
    assert_eq!(stop.url, "http://h:8000/api/effects/stop");
}
