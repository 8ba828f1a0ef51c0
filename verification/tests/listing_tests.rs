use rusty_bedrock_lib::amazon_nova::canvas::json::CanvasResponse;
use rusty_bedrock_lib::amazon_nova::canvas::{
    image_path, model_id, read_response, text_to_image, CanvasError,
};
use rusty_bedrock_lib::listing::{
    catalogue, in_order, join, CatalogueEntry, InferenceProfile, ModelSummary,
};
use rusty_bedrock_lib::{list_models, ModelDetails, TraceId};

fn model(arn: &str, provider: &str, name: &str) -> ModelSummary {
    ModelSummary {
        model_arn: arn.to_string(),
        model_id: format!("id-{}", name),
        model_name: name.to_string(),
        provider_name: provider.to_string(),
        input_modalities: vec!["TEXT".to_string(), "IMAGE".to_string()],
        output_modalities: vec!["TEXT".to_string()],
    }
}

fn profile(id: &str, arns: &[&str]) -> InferenceProfile {
    InferenceProfile {
        inference_profile_id: id.to_string(),
        model_arns: arns.iter().map(|a| a.to_string()).collect(),
    }
}

fn details(provider: &str, name: &str) -> ModelDetails {
    ModelDetails {
        provider: provider.to_string(),
        name: name.to_string(),
        model_id: String::new(),
        input: vec![],
        output: vec![],
        inference_profiles: vec![],
    }
}

#[test]
fn models_come_in_the_order_of_provider_and_name() {
    let models = vec![
        model("arn:3", "Mistral", "Large"),
        model("arn:1", "Amazon", "Nova Pro"),
        model("arn:2", "Amazon", "Nova Lite"),
    ];
    let profiles = vec![
        profile("us.lite", &["arn:2", "arn:9"]),
        profile("eu.lite", &["arn:2"]),
        profile("us.large", &["arn:3", "arn:3"]),
    ];
    let list = list_models(&models, &profiles);
    let names: Vec<&str> = list.iter().map(|d| d.name.as_str()).collect();
    assert_eq!(vec!["Nova Lite", "Nova Pro", "Large"], names);
    assert_eq!(vec!["us.lite".to_string(), "eu.lite".to_string()], list[0].inference_profiles);
    assert!(list[1].inference_profiles.is_empty());
    assert_eq!(vec!["us.large".to_string(), "us.large".to_string()], list[2].inference_profiles);
    assert_eq!("Amazon", list[0].provider);
    assert_eq!("id-Nova Lite", list[0].model_id);
    assert_eq!(vec!["TEXT".to_string(), "IMAGE".to_string()], list[0].input);
    assert_eq!(vec!["TEXT".to_string()], list[0].output);
}

#[test]
fn the_last_model_of_an_address_counts() {
    let models = vec![
        model("arn:1", "Amazon", "Old"),
        model("arn:2", "Amazon", "Other"),
        model("arn:1", "Amazon", "New"),
    ];
    let entries = catalogue(&models, &vec![]);
    assert_eq!(2, entries.len());
    let list = in_order(entries);
    let names: Vec<&str> = list.iter().map(|d| d.name.as_str()).collect();
    assert_eq!(vec!["New", "Other"], names);
    assert!(list_models(&vec![], &vec![]).is_empty());
}

#[test]
fn the_key_is_provider_then_name_as_one_text() {
    assert_eq!("AmazonNova", details("Amazon", "Nova").key());
    let entries: Vec<CatalogueEntry> = [("b", "a"), ("a", "c"), ("ab", ""), ("a", "b"), ("B", "z")]
        .iter()
        .map(|(p, n)| CatalogueEntry { arn: format!("{}{}", p, n), details: details(p, n) })
        .collect();
    let keys: Vec<String> = in_order(entries).iter().map(|d| d.key()).collect();
    let mut expected = vec!["ba", "ac", "ab", "ab", "Bz"];
    expected.sort();
    assert_eq!(expected, keys);
    assert_eq!("Bz", keys[0]);
}

#[test]
fn a_model_on_one_line() {
    let shown = ModelDetails {
        provider: "Amazon".to_string(),
        name: "Nova Lite".to_string(),
        model_id: "amazon.nova-lite-v1:0".to_string(),
        input: vec!["TEXT".to_string(), "IMAGE".to_string(), "VIDEO".to_string()],
        output: vec!["TEXT".to_string()],
        inference_profiles: vec![],
    };
    assert_eq!(
        "Amazon | Nova Lite | model-id: amazon.nova-lite-v1:0 | profile-ids:  | inputs: TEXT, IMAGE, VIDEO | outputs: TEXT",
        shown.to_string()
    );
}

#[test]
fn joining_texts() {
    assert_eq!("", join(&vec![], ", "));
    assert_eq!("a", join(&vec!["a".to_string()], ", "));
    assert_eq!("a, b, c", join(&vec!["a".to_string(), "b".to_string(), "c".to_string()], ", "));
    assert_eq!(", ", join(&vec!["".to_string(), "".to_string()], ", "));
}

#[test]
fn trace_id_of_a_request() {
    assert_eq!("abc-123", TraceId::new(Some("abc-123".to_string())).as_ref());
    assert_eq!("UNKNOWN", TraceId::new(None).as_ref());
    assert_eq!("abc-123", TraceId::new(Some("abc-123".to_string())).to_string());
}

#[test]
fn an_image_request() {
    assert_eq!("amazon.nova-canvas-v1:0", model_id());
    let request = text_to_image("a red kite".to_string(), Some("clouds".to_string()));
    assert_eq!("TEXT_IMAGE", request.task_type);
    assert_eq!("a red kite", request.text_to_image_params.text);
    assert_eq!("clouds", request.text_to_image_params.negative_text);
    assert_eq!(None, request.image_generation_config);
    let plain = text_to_image("a red kite".to_string(), None);
    assert_eq!("", plain.text_to_image_params.negative_text);
}

#[test]
fn an_image_reply() {
    let reply = CanvasResponse {
        images: vec!["aGVsbG8=".to_string(), "AAEC/w==".to_string()],
        error: None,
    };
    let (trace_id, images) =
        read_response(Some(reply), "{}".to_string(), Some("req-7".to_string())).unwrap();
    assert_eq!("req-7", trace_id.as_ref());
    assert_eq!(2, images.len());
    assert_eq!(Some(b"hello".to_vec()), images[0].clone().decode());
    assert_eq!("AAEC/w==", images[1].clone().unwrap());
}

#[test]
fn an_image_reply_that_failed() {
    let reported = CanvasResponse { images: vec![], error: Some("blocked".to_string()) };
    assert_eq!(
        Err(CanvasError::Reported("blocked".to_string())),
        read_response(Some(reported), "{}".to_string(), None)
    );
    assert_eq!(
        Err(CanvasError::MalformedPayload("<html>".to_string())),
        read_response(None, "<html>".to_string(), None)
    );
}

#[test]
fn images_are_saved_under_the_trace_id() {
    let trace_id = TraceId::new(Some("req-7".to_string()));
    assert_eq!("./req-7-0.png", image_path(".", &trace_id, 0));
    assert_eq!("out/req-7-12.png", image_path("out//", &trace_id, 12));
    assert_eq!("/tmp/a/req-7-305.png", image_path("/tmp/a/", &trace_id, 305));
    assert_eq!("/req-7-9.png", image_path("/", &trace_id, 9));
    assert_eq!("/req-7-10.png", image_path("", &TraceId::new(Some("req-7".to_string())), 10));
    assert_eq!("o/UNKNOWN-1.png", image_path("o", &TraceId::new(None), 1));
}
