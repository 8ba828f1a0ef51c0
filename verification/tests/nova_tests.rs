use rusty_bedrock_lib::amazon_nova::text::{build_request, encode, read_response};
use rusty_bedrock_lib::decode::{DecodeError, Modality};
use rusty_bedrock_lib::file::{Attachment, EncodeError, FileReference};
use rusty_bedrock_lib::invoke_model::amazon::nova::{
    Content, Image, ImageSource, InferenceConfig, Message, Output, Response, Role, S3Location,
    Thousandths, Usage, Video, VideoSource,
};
use rusty_bedrock_lib::models::amazon::{
    DownloadLocation, NovaBedrock, NovaLiteArgs, ReadFailure,
};

fn attachment(path: &str, contents: Option<&[u8]>) -> Attachment {
    Attachment {
        reference: FileReference::from(path.to_string()),
        contents: contents.map(|c| c.to_vec()),
    }
}

fn reply(role: Role, content: Vec<Content>) -> Response {
    Response {
        output: Output { message: Message { role, content } },
        stop_reason: "end_turn".to_string(),
        usage: Usage { input_tokens: 4, output_tokens: 35, total_tokens: 39 },
    }
}

fn image(text: &str) -> Content {
    Content::Image(Image {
        format: "png".to_string(),
        source: ImageSource { bytes: text.to_string() },
    })
}

#[test]
fn conversion() {
    let user = "x".to_owned();
    let args = NovaLiteArgs {
        system: None,
        assistant: None,
        image: vec![],
        video: vec![],
        uri_video: vec![],
        user: user.clone(),
    };

    let (_, request) = NovaBedrock::from(&args, &vec![], &vec![]).unwrap().unwrap();

    assert_eq!(1, request.messages.len());
    assert_eq!(Role::User, request.messages[0].role);
    assert_eq!(1, request.messages[0].content.len());
    match &(request.messages[0].content[0]) {
        Content::Text(c) => assert_eq!(c, &user),
        _ => panic!("bad content"),
    }
}

#[test]
fn arguments_become_content_in_groups() {
    let args = NovaLiteArgs {
        system: Some("be brief".to_string()),
        assistant: Some("Sure:".to_string()),
        image: vec!["a.PNG".to_string(), "b.jpg".to_string()],
        video: vec!["c.mp4".to_string()],
        uri_video: vec!["s3://bucket/d.webm".to_string()],
        user: "look".to_string(),
    };
    let images = vec![Some(b"hello".to_vec()), Some(vec![])];
    let videos = vec![Some(vec![0, 1, 2, 255])];
    let built = NovaBedrock::from(&args, &images, &videos).unwrap();
    assert_eq!("us.amazon.nova-lite-v1:0", built.model_id());
    let (_, request) = built.unwrap();
    assert_eq!(1, request.system.len());
    assert_eq!("be brief", request.system[0].text);
    assert!(request.inference_config.is_empty());
    assert_eq!(2, request.messages.len());
    assert_eq!(Role::User, request.messages[0].role);
    assert_eq!(
        vec![
            Content::Text("look".to_string()),
            Content::Image(Image {
                format: "png".to_string(),
                source: ImageSource { bytes: "aGVsbG8=".to_string() },
            }),
            Content::Image(Image {
                format: "jpg".to_string(),
                source: ImageSource { bytes: "".to_string() },
            }),
            Content::Video(Video {
                format: "mp4".to_string(),
                source: VideoSource::Bytes("AAEC/w==".to_string()),
            }),
            Content::Video(Video {
                format: "webm".to_string(),
                source: VideoSource::S3Location(S3Location {
                    uri: "s3://bucket/d.webm".to_string(),
                }),
            }),
        ],
        request.messages[0].content
    );
    assert_eq!(Role::Assistant, request.messages[1].role);
    assert_eq!(vec![Content::Text("Sure:".to_string())], request.messages[1].content);
}

#[test]
fn a_file_that_was_not_read_stops_the_arguments() {
    let args = NovaLiteArgs {
        system: None,
        assistant: None,
        image: vec!["a.png".to_string(), "b.png".to_string()],
        video: vec!["c.mp4".to_string()],
        uri_video: vec![],
        user: "look".to_string(),
    };
    let all = vec![Some(vec![1]), Some(vec![2])];
    assert_eq!(
        Err(ReadFailure("b.png".to_string())),
        NovaBedrock::from(&args, &vec![Some(vec![1]), None], &vec![Some(vec![3])])
    );
    assert_eq!(
        Err(ReadFailure("b.png".to_string())),
        NovaBedrock::from(&args, &vec![Some(vec![1])], &vec![None])
    );
    assert_eq!(Err(ReadFailure("c.mp4".to_string())), NovaBedrock::from(&args, &all, &vec![]));
    assert_eq!(Err(ReadFailure("c.mp4".to_string())), NovaBedrock::from(&args, &all, &vec![None]));
}

#[test]
fn a_local_image_follows_the_prompt() {
    let attachments = vec![attachment("cat.png", Some(b"hello"))];
    let request =
        build_request(None, &attachments, None, None, "Describe this photo".to_string()).unwrap();
    assert_eq!(1, request.messages.len());
    assert_eq!(Role::User, request.messages[0].role);
    assert_eq!(
        vec![
            Content::Text("Describe this photo".to_string()),
            Content::Image(Image {
                format: "png".to_string(),
                source: ImageSource { bytes: "aGVsbG8=".to_string() },
            }),
        ],
        request.messages[0].content
    );
    assert!(request.system.is_empty());
    assert!(request.inference_config.is_empty());
}

#[test]
fn a_remote_video_is_sent_by_reference() {
    let attachments = vec![attachment("s3://bucket/movie.webm", None)];
    let request = build_request(None, &attachments, None, None, "Summarise".to_string()).unwrap();
    assert_eq!(
        vec![
            Content::Text("Summarise".to_string()),
            Content::Video(Video {
                format: "webm".to_string(),
                source: VideoSource::S3Location(S3Location {
                    uri: "s3://bucket/movie.webm".to_string(),
                }),
            }),
        ],
        request.messages[0].content
    );
}

#[test]
fn local_video_travels_inline() {
    let encoded = encode(&attachment("clip.mp4", Some(&[0, 1, 2, 255]))).unwrap();
    assert_eq!(
        Content::Video(Video {
            format: "mp4".to_string(),
            source: VideoSource::Bytes("AAEC/w==".to_string()),
        }),
        encoded
    );
}

#[test]
fn each_refusal_has_its_error() {
    assert_eq!(
        Err(EncodeError::UnsupportedKind("notes.xyz".to_string())),
        encode(&attachment("notes.xyz", Some(b"x")))
    );
    assert_eq!(
        Err(EncodeError::UnsupportedKind("s3://bucket/notes.xyz".to_string())),
        encode(&attachment("s3://bucket/notes.xyz", None))
    );
    assert_eq!(
        Err(EncodeError::ReadFailure("cat.png".to_string())),
        encode(&attachment("cat.png", None))
    );
    assert_eq!(
        Err(EncodeError::ReadFailure("clip.mov".to_string())),
        encode(&attachment("clip.mov", None))
    );
    assert_eq!(
        Err(EncodeError::UnsupportedCombination("s3://bucket/cat.png".to_string())),
        encode(&attachment("s3://bucket/cat.png", None))
    );
    assert_eq!(
        Err(EncodeError::UnsupportedCombination("notes.pdf".to_string())),
        encode(&attachment("notes.pdf", Some(b"x")))
    );
}

#[test]
fn the_first_refused_attachment_decides() {
    let attachments = vec![
        attachment("a.png", Some(b"a")),
        attachment("b.png", None),
        attachment("c.xyz", None),
    ];
    assert_eq!(
        Err(EncodeError::ReadFailure("b.png".to_string())),
        build_request(None, &attachments, None, None, "p".to_string())
    );
}

#[test]
fn prefill_and_system_prompt() {
    let request = build_request(
        None,
        &vec![],
        Some("be brief".to_string()),
        Some("Sure:".to_string()),
        "hi".to_string(),
    )
    .unwrap();
    assert_eq!(1, request.system.len());
    assert_eq!("be brief", request.system[0].text);
    assert_eq!(2, request.messages.len());
    assert_eq!(Role::User, request.messages[0].role);
    assert_eq!(vec![Content::Text("hi".to_string())], request.messages[0].content);
    assert_eq!(Role::Assistant, request.messages[1].role);
    assert_eq!(vec![Content::Text("Sure:".to_string())], request.messages[1].content);
}

#[test]
fn inference_config_is_kept_as_given() {
    let config = InferenceConfig {
        max_new_tokens: Some(100),
        temperature: Some(Thousandths(700)),
        top_p: None,
        top_k: Some(50),
        stop_sequences: vec!["END".to_string()],
    };
    let request =
        build_request(Some(config.clone()), &vec![], None, None, "hi".to_string()).unwrap();
    assert_eq!(config, request.inference_config);
    assert!(!request.inference_config.is_empty());
}

#[test]
fn unset_config_is_empty() {
    assert!(InferenceConfig::default().is_empty());
    let knobs = [
        InferenceConfig { max_new_tokens: Some(1), ..InferenceConfig::default() },
        InferenceConfig { temperature: Some(Thousandths(1)), ..InferenceConfig::default() },
        InferenceConfig { top_p: Some(Thousandths(1)), ..InferenceConfig::default() },
        InferenceConfig { top_k: Some(0), ..InferenceConfig::default() },
        InferenceConfig { stop_sequences: vec!["x".to_string()], ..InferenceConfig::default() },
    ];
    for config in knobs {
        assert!(!config.is_empty());
    }
}

#[test]
fn knob_ranges() {
    assert!(InferenceConfig::default().is_valid());
    let ok = InferenceConfig {
        max_new_tokens: Some(5000),
        temperature: Some(Thousandths(1000)),
        top_p: Some(Thousandths(1)),
        top_k: Some(0),
        stop_sequences: vec![],
    };
    assert!(ok.is_valid());
    assert!(!InferenceConfig { max_new_tokens: Some(0), ..ok.clone() }.is_valid());
    assert!(!InferenceConfig { max_new_tokens: Some(5001), ..ok.clone() }.is_valid());
    assert!(!InferenceConfig { temperature: Some(Thousandths(0)), ..ok.clone() }.is_valid());
    assert!(!InferenceConfig { temperature: Some(Thousandths(1001)), ..ok.clone() }.is_valid());
    assert!(!InferenceConfig { top_p: Some(Thousandths(0)), ..ok.clone() }.is_valid());
    assert!(!InferenceConfig { top_p: Some(Thousandths(1001)), ..ok }.is_valid());
}

#[test]
fn reply_text_is_displayed() {
    let message = Message {
        role: Role::Assistant,
        content: vec![Content::Text("Hello!".to_string())],
    };
    assert_eq!(Ok("Hello!".to_string()), message.display_text());
    let empty = Message { role: Role::Assistant, content: vec![] };
    assert_eq!(Ok(String::new()), empty.display_text());
}

#[test]
fn a_reply_in_the_users_role_is_a_violation() {
    let message = Message { role: Role::User, content: vec![] };
    assert_eq!(Err(DecodeError::ProtocolViolation), message.display_text());
    let with_text = Message { role: Role::User, content: vec![Content::Text("hi".to_string())] };
    assert_eq!(Err(DecodeError::ProtocolViolation), with_text.display_text());
    assert_eq!(
        Err(DecodeError::ProtocolViolation),
        read_response(Some(reply(Role::User, vec![])), "{}".to_string(), None)
    );
}

#[test]
fn two_texts_are_ambiguous() {
    let message = Message {
        role: Role::Assistant,
        content: vec![Content::Text("a".to_string()), Content::Text("b".to_string())],
    };
    assert_eq!(Err(DecodeError::AmbiguousTextContent), message.display_text());
}

#[test]
fn media_in_a_reply_are_refused() {
    let with_image = Message {
        role: Role::Assistant,
        content: vec![Content::Text("a".to_string()), image("aGVsbG8=")],
    };
    assert_eq!(
        Err(DecodeError::UnsupportedOutputModality(Modality::Image)),
        with_image.display_text()
    );
    let with_video = Message {
        role: Role::Assistant,
        content: vec![Content::Video(Video {
            format: "mp4".to_string(),
            source: VideoSource::Bytes("AAEC/w==".to_string()),
        })],
    };
    assert_eq!(
        Err(DecodeError::UnsupportedOutputModality(Modality::Video)),
        with_video.display_text()
    );
}

#[test]
fn a_block_under_an_unknown_tag_is_refused() {
    let message = Message { role: Role::Assistant, content: vec![Content::Unknown] };
    assert_eq!(
        Err(DecodeError::UnsupportedOutputModality(Modality::Unknown)),
        message.display_text()
    );
    let after_text = Message {
        role: Role::Assistant,
        content: vec![Content::Text("a".to_string()), Content::Unknown],
    };
    assert_eq!(
        Err(DecodeError::UnsupportedOutputModality(Modality::Unknown)),
        after_text.display_text()
    );
}

#[test]
fn the_first_offending_block_decides() {
    let message = Message {
        role: Role::Assistant,
        content: vec![
            Content::Text("a".to_string()),
            Content::Text("b".to_string()),
            image("aGVsbG8="),
        ],
    };
    assert_eq!(Err(DecodeError::AmbiguousTextContent), message.display_text());
    let message = Message {
        role: Role::Assistant,
        content: vec![image("aGVsbG8="), Content::Text("a".to_string()), Content::Text("b".to_string())],
    };
    assert_eq!(
        Err(DecodeError::UnsupportedOutputModality(Modality::Image)),
        message.display_text()
    );
}

#[test]
fn read_response_names_the_trace() {
    let ok = reply(Role::Assistant, vec![Content::Text("Hello!".to_string())]);
    let (trace_id, text) =
        read_response(Some(ok.clone()), "{}".to_string(), Some("req-1".to_string())).unwrap();
    assert_eq!("req-1", trace_id.as_ref());
    assert_eq!("Hello!", text);
    let (trace_id, _) = read_response(Some(ok), "{}".to_string(), None).unwrap();
    assert_eq!("UNKNOWN", trace_id.as_ref());
}

#[test]
fn a_reply_without_content_is_malformed_for_one_invocation() {
    assert_eq!(
        Err(DecodeError::MalformedPayload("{\"output\":1}".to_string())),
        read_response(
            Some(reply(Role::Assistant, vec![])),
            "{\"output\":1}".to_string(),
            Some("req-1".to_string())
        )
    );
    assert_eq!(
        Err(DecodeError::AmbiguousTextContent),
        read_response(
            Some(reply(
                Role::Assistant,
                vec![Content::Text("a".to_string()), Content::Text("b".to_string())]
            )),
            "{}".to_string(),
            None
        )
    );
}

#[test]
fn the_format_of_an_attachment_is_its_extension_in_lower_case() {
    let encoded = encode(&attachment("/tmp/Clip.MP4", Some(&[0, 1, 2, 255]))).unwrap();
    assert_eq!(
        Content::Video(Video {
            format: "mp4".to_string(),
            source: VideoSource::Bytes("AAEC/w==".to_string()),
        }),
        encoded
    );
    let remote = encode(&attachment("s3://bucket/Movie.WebM", None)).unwrap();
    assert_eq!(
        Content::Video(Video {
            format: "webm".to_string(),
            source: VideoSource::S3Location(S3Location {
                uri: "s3://bucket/Movie.WebM".to_string(),
            }),
        }),
        remote
    );
}

#[test]
fn a_body_that_did_not_parse_is_malformed() {
    assert_eq!(
        Err(DecodeError::MalformedPayload("<html>".to_string())),
        read_response(None, "<html>".to_string(), Some("req-1".to_string()))
    );
}

#[test]
fn render_response_of_the_arguments() {
    let args = NovaLiteArgs {
        system: None,
        assistant: None,
        image: vec![],
        video: vec![],
        uri_video: vec![],
        user: "x".to_string(),
    };
    let built = NovaBedrock::from(&args, &vec![], &vec![]).unwrap();
    let ok = reply(Role::Assistant, vec![Content::Text("Hello!".to_string())]);
    let none: Vec<DownloadLocation> = vec![];
    assert_eq!(
        Ok(("Hello!".to_string(), none)),
        built.render_response(Some(ok), "{}".to_string())
    );
    assert_eq!(
        Err(DecodeError::MalformedPayload("oops".to_string())),
        built.render_response(None, "oops".to_string())
    );
    assert_eq!(
        Err(DecodeError::ProtocolViolation),
        built.render_response(Some(reply(Role::User, vec![])), "{}".to_string())
    );
    assert_eq!(&built.request().messages[0].content, &vec![Content::Text("x".to_string())]);
}
