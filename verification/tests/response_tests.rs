use lightwave::client::HttpResponse;
use lightwave::errors::format_error;
use lightwave::errors::ApiError;
use lightwave::response::classify_error_response;
use lightwave::response::handle_empty_response;
use lightwave::response::handle_effect_info_response;
use lightwave::response::handle_list_effects_response;
use lightwave::response::handle_status_response;

fn resp(status: u16, body: &str) -> HttpResponse {
    HttpResponse { status, body: body.to_string() }
}

#[test]
fn failure_with_detail_body_carries_the_detail() {
    let e = classify_error_response(&resp(404, r#"{"detail":"Effect not found"}"#));
    assert_eq!(e, ApiError::ApiResponseError("Effect not found".to_string(), 404));
}

#[test]
fn failure_with_unreadable_body_carries_the_fallback() {
    let e = classify_error_response(&resp(500, "<html>boom</html>"));
    assert_eq!(e, ApiError::ApiResponseError("Error status: 500".to_string(), 500));
}

#[test]
fn failure_with_non_string_detail_carries_the_fallback() {
    let e = classify_error_response(&resp(400, r#"{"detail":42}"#));
    assert_eq!(e, ApiError::ApiResponseError("Error status: 400".to_string(), 400));
}

#[test]
fn empty_response_success_statuses() {
    assert!(handle_empty_response(&resp(200, "")).is_ok());
    assert!(handle_empty_response(&resp(204, "")).is_ok());
    match handle_empty_response(&resp(404, r#"{"detail":"nothing running"}"#)) {
        Err(ApiError::ApiResponseError(m, 404)) => assert_eq!(m, "nothing running"),
        other => panic!("expected an api response error, got {other:?}"),
    }
}

#[test]
fn effects_list_decodes_on_success() {
    let body = r#"{"effects":[{"name":"rainbow","description":"colors"},
                              {"name":"pulse","description":"beat"}]}"#;
    let list = handle_list_effects_response(&resp(200, body)).unwrap();
    assert_eq!(list.effects.len(), 2);
    assert_eq!(list.effects[0].name, "rainbow");
    assert_eq!(list.effects[0].description, "colors");
    assert_eq!(list.effects[1].name, "pulse");
}

#[test]
fn success_status_with_wrong_shape_is_a_deserialization_error() {
    let cases = ["not json at all", r#"{"effects":"nope"}"#, r#"{"effects":[{"name":"x"}]}"#, "{}"];
    for body in cases {
        match handle_list_effects_response(&resp(200, body)) {
            Err(ApiError::DeserializationError(_)) => {}
            other => panic!("expected a deserialization error on {body:?}, got {other:?}"),
        }
    }
}

#[test]
fn failure_status_wins_over_body_shape() {
    let body = r#"{"effects":[{"name":"rainbow","description":"colors"}]}"#;
    match handle_list_effects_response(&resp(500, body)) {
        Err(ApiError::ApiResponseError(m, 500)) => assert_eq!(m, "Error status: 500"),
        other => panic!("expected an api response error, got {other:?}"),
    }
}

#[test]
fn effect_info_decodes_parameters() {
    let body = r#"{"name":"rainbow","description":"colors","parameters":[
        {"name":"speed","type":"int","description":"how fast","default":5,
         "min_value":1,"max_value":10,"options":null},
        {"name":"mode","type":"str","description":"variant","default":"soft",
         "options":["soft","hard"]}
    ]}"#;
    let info = handle_effect_info_response(&resp(200, body)).unwrap();
    assert_eq!(info.name, "rainbow");
    assert_eq!(info.parameters.len(), 2);
    let speed = &info.parameters[0];
    assert_eq!(speed.param_type, "int");
    assert_eq!(speed.default, serde_json::Value::from(5));
    assert_eq!(speed.min_value, Some(serde_json::Value::from(1)));
    assert_eq!(speed.options, None);
    let mode = &info.parameters[1];
    assert_eq!(mode.min_value, None);
    assert_eq!(mode.options, Some(vec!["soft".to_string(), "hard".to_string()]));
}

#[test]
fn effect_info_missing_field_is_a_deserialization_error() {
    let body = r#"{"name":"rainbow","parameters":[]}"#;
    match handle_effect_info_response(&resp(200, body)) {
        Err(ApiError::DeserializationError(_)) => {}
        other => panic!("expected a deserialization error, got {other:?}"),
    }
}

#[test]
fn effect_info_non_string_option_is_a_deserialization_error() {
    let body = r#"{"name":"rainbow","description":"colors","parameters":[
        {"name":"mode","type":"str","description":"variant","default":"soft",
         "options":["soft",3]}
    ]}"#;
    match handle_effect_info_response(&resp(200, body)) {
        Err(ApiError::DeserializationError(_)) => {}
        other => panic!("expected a deserialization error, got {other:?}"),
    }
}

#[test]
fn effect_info_parameter_missing_type_is_a_deserialization_error() {
    let body = r#"{"name":"rainbow","description":"colors","parameters":[
        {"name":"mode","description":"variant","default":"soft"}
    ]}"#;
    match handle_effect_info_response(&resp(200, body)) {
        Err(ApiError::DeserializationError(_)) => {}
        other => panic!("expected a deserialization error, got {other:?}"),
    }
}

#[test]
fn status_with_malformed_parameters_is_a_deserialization_error() {
    let body = r#"{"running":true,"parameters":5}"#;
    match handle_status_response(&resp(200, body)) {
        Err(ApiError::DeserializationError(_)) => {}
        other => panic!("expected a deserialization error, got {other:?}"),
    }
}

#[test]
fn status_with_non_boolean_running_is_a_deserialization_error() {
    let body = r#"{"running":"yes"}"#;
    match handle_status_response(&resp(200, body)) {
        Err(ApiError::DeserializationError(_)) => {}
        other => panic!("expected a deserialization error, got {other:?}"),
    }
}

#[test]
fn status_decodes_running_effect() {
    let body = r#"{"running":true,"name":"rainbow","description":"colors",
        "parameters":{"speed":5},"start_time":"12:00","runtime":12.5}"#;
    let st = handle_status_response(&resp(200, body)).unwrap();
    assert!(st.running);
    assert_eq!(st.name.as_deref(), Some("rainbow"));
    assert_eq!(st.start_time.as_deref(), Some("12:00"));
    assert_eq!(st.runtime.as_deref(), Some("12.5"));
    let params = st.parameters.unwrap();
    assert_eq!(params.len(), 1);
    assert_eq!(params[0].0, "speed");
    assert_eq!(params[0].1, serde_json::Value::from(5));
}

#[test]
fn status_decodes_idle_state() {
    let body = r#"{"running":false,"name":null,"description":null,
        "parameters":null,"start_time":null,"runtime":null}"#;
    let st = handle_status_response(&resp(200, body)).unwrap();
    assert!(!st.running);
    assert_eq!(st.name, None);
    assert_eq!(st.runtime, None);
    assert_eq!(st.parameters, None);
}

#[test]
fn status_with_absent_optional_fields_decodes() {
    let st = handle_status_response(&resp(200, r#"{"running":false}"#)).unwrap();
    assert!(!st.running);
    assert_eq!(st.name, None);
}

#[test]
fn error_messages_carry_their_kind() {
    assert_eq!(
        format_error(&ApiError::RequestError("no route".to_string())),
        "Request failed: no route"
    );
    assert_eq!(
        format_error(&ApiError::DeserializationError("bad body".to_string())),
        "Failed to parse response: bad body"
    );
    assert_eq!(
        format_error(&ApiError::ApiResponseError("gone".to_string(), 404)),
        "API error (404): gone"
    );
    assert_eq!(
        format_error(&ApiError::ClientError("out of range".to_string())),
        "Client error: out of range"
    );
}
