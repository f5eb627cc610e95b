use codex_models::provider_models::{
    decode_failure_message, decode_provider_models, parse_provider_models, provider_models_from_json,
    push_model_id, ProviderModel,
};
use codex_models::json::Json;

fn model(id: &str) -> ProviderModel {
    ProviderModel { id: id.to_string() }
}

#[test]
fn parse_provider_models_prefers_openai_compatible_data_ids() {
    let body = br#"{
        "object": "list",
        "models": [
            {"name": "fallback-a", "model": "fallback-a"}
        ],
        "data": [
            {"id": "provider-a", "object": "model"},
            {"id": "provider-b", "object": "model"}
        ]
    }"#;

    assert_eq!(
        parse_provider_models(body).unwrap(),
        vec![
            ProviderModel {
                id: "provider-a".to_string()
            },
            ProviderModel {
                id: "provider-b".to_string()
            }
        ]
    );
}

#[test]
fn parse_provider_models_accepts_models_model_or_name_fields() {
    let body = br#"{
        "models": [
            {"model": "model-field"},
            {"name": "name-field"},
            {"id": "id-field"},
            {"model": "model-field"}
        ]
    }"#;

    assert_eq!(
        parse_provider_models(body).unwrap(),
        vec![
            ProviderModel {
                id: "model-field".to_string()
            },
            ProviderModel {
                id: "name-field".to_string()
            },
            ProviderModel {
                id: "id-field".to_string()
            }
        ]
    );
}

#[test]
fn parse_provider_models_reads_root_listing() {
    let body = br#"{"object": "list", "data": [{"id": "root-model.gguf", "object": "model", "owned_by": "llamacpp"}]}"#;
    assert_eq!(parse_provider_models(body).unwrap(), vec![model("root-model.gguf")]);
}

#[test]
fn parse_provider_models_falls_back_when_data_ids_are_blank() {
    let body = br#"{"data": [{"id": "   "}, {"name": "x"}], "models": [{"slug": " slug-only "}]}"#;
    assert_eq!(parse_provider_models(body).unwrap(), vec![model("slug-only")]);
}

#[test]
fn parse_provider_models_prefers_id_over_model_name_slug() {
    let body = br#"{"models": [{"slug": "s", "name": "n", "model": "m", "id": "i"}, {"slug": "s", "name": "n"}, {"slug": "s", "model": 3}]}"#;
    assert_eq!(parse_provider_models(body).unwrap(), vec![model("i"), model("n"), model("s")]);
}

#[test]
fn parse_provider_models_ignores_non_string_ids_and_non_arrays() {
    let body = br#"{"data": {"id": "not-an-array"}, "models": [{"id": 7}, "bare", {"id": "ok"}]}"#;
    assert_eq!(parse_provider_models(body).unwrap(), vec![model("ok")]);
    assert_eq!(parse_provider_models(b"[1, 2, 3]").unwrap(), vec![]);
    assert_eq!(parse_provider_models(b"{}").unwrap(), vec![]);
}

#[test]
fn parse_provider_models_rejects_invalid_json() {
    assert!(parse_provider_models(b"not json").is_err());
    assert!(parse_provider_models(b"").is_err());
}

#[test]
fn decode_provider_models_reports_body() {
    let err = decode_provider_models(b"not json").unwrap_err();
    let serde_error = serde_json::from_slice::<serde_json::Value>(b"not json").unwrap_err();
    assert_eq!(
        err,
        format!("failed to decode provider models response: {serde_error}; body: not json")
    );
    assert!(!serde_error.to_string().is_empty());
    assert_eq!(
        decode_provider_models(br#"{"data": [{"id": "a"}]}"#).unwrap(),
        vec![model("a")]
    );
}

#[test]
fn decode_failure_message_shows_body_lossily() {
    assert_eq!(
        decode_failure_message("models response", "oops", b"ab\xffc"),
        "failed to decode models response: oops; body: ab\u{fffd}c"
    );
    assert_eq!(
        decode_failure_message("provider models response", "e", "caf\u{e9}".as_bytes()),
        "failed to decode provider models response: e; body: caf\u{e9}"
    );
}

#[test]
fn push_model_id_trims_and_skips_blank_and_repeated_ids() {
    let mut models = Vec::new();
    push_model_id(&mut models, "  alpha\t");
    push_model_id(&mut models, "");
    push_model_id(&mut models, " \u{3000}\n");
    push_model_id(&mut models, "alpha");
    push_model_id(&mut models, "beta");
    push_model_id(&mut models, "\u{a0}beta\u{2003}");
    push_model_id(&mut models, "gamma delta");
    assert_eq!(models, vec![model("alpha"), model("beta"), model("gamma delta")]);
}

#[test]
fn push_model_id_twice_is_once() {
    let mut once = vec![model("a")];
    push_model_id(&mut once, " b ");
    let mut twice = vec![model("a")];
    push_model_id(&mut twice, " b ");
    push_model_id(&mut twice, " b ");
    assert_eq!(once, twice);
}

#[test]
fn provider_models_from_json_reads_document() {
    let doc = Json::Object(vec![(
        "data".to_string(),
        Json::Array(vec![
            Json::Object(vec![("id".to_string(), Json::Str("m1".to_string()))]),
            Json::Object(vec![("id".to_string(), Json::Number("5".to_string()))]),
            Json::Object(vec![("id".to_string(), Json::Str(" m1 ".to_string()))]),
            Json::Object(vec![("id".to_string(), Json::Str("m2".to_string()))]),
        ]),
    )]);
    assert_eq!(provider_models_from_json(&doc), vec![model("m1"), model("m2")]);
    assert_eq!(provider_models_from_json(&Json::Null), vec![]);
}
