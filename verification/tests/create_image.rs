use llm_sdk::{
    CodecError, CreateImageRequest, CreateImageRequestBuilder, CreateImageResponse, ImageModel,
    ImageObject, ImageQuality, ImageResposeFormat, ImageSize, ImageStyle, IntoRequest, Method,
    ValidationError,
};
use serde_json::Value;

fn object(members: Vec<(&str, Value)>) -> Value {
    let mut map = serde_json::Map::new();
    for (key, value) in members {
        map.insert(key.to_string(), value);
    }
    Value::Object(map)
}

fn document(text: &str) -> Value {
    serde_json::from_str(text).unwrap()
}

#[test]
fn create_iamge_request_should_serialize() {
    let req = CreateImageRequest::new("draw a cute cat");
    assert_eq!(
        req.to_value(),
        object(vec![
            ("prompt", Value::from("draw a cute cat")),
            ("model", Value::from("dall-e-3")),
        ])
    );
}

#[test]
fn create_iamge_request_custom_should_serialize() {
    let req = CreateImageRequestBuilder::default()
        .prompt("draw a cute caterpillar")
        .style(ImageStyle::Natural)
        .quality(ImageQuality::Hd)
        .build()
        .unwrap();
    assert_eq!(
        req.to_value(),
        object(vec![
            ("prompt", Value::from("draw a cute caterpillar")),
            ("model", Value::from("dall-e-3")),
            ("style", Value::from("natural")),
            ("quality", Value::from("hd")),
        ])
    );
}

#[test]
fn custom_request_matches_the_json_text() {
    let req = CreateImageRequestBuilder::default()
        .prompt("draw a cute caterpillar")
        .style(ImageStyle::Natural)
        .quality(ImageQuality::Hd)
        .build()
        .unwrap();
    assert_eq!(
        req.to_value(),
        document(
            r#"{"prompt":"draw a cute caterpillar","model":"dall-e-3","style":"natural","quality":"hd"}"#
        )
    );
}

#[test]
fn default_request_has_exactly_two_keys() {
    let value = CreateImageRequest::new("a").to_value();
    let members = value.as_object().unwrap();
    assert_eq!(members.len(), 2);
    assert_eq!(members.get("prompt"), Some(&Value::from("a")));
    assert_eq!(members.get("model"), Some(&Value::from("dall-e-3")));
}

#[test]
fn every_option_that_is_set_appears_with_its_token() {
    let req = CreateImageRequestBuilder::default()
        .prompt("p")
        .model(ImageModel::DallE3)
        .n(3)
        .quality(ImageQuality::Standard)
        .response_format(ImageResposeFormat::B64Json)
        .size(ImageSize::LargeTall)
        .style(ImageStyle::Vivid)
        .user("someone")
        .build()
        .unwrap();
    assert_eq!(
        req.to_value(),
        object(vec![
            ("prompt", Value::from("p")),
            ("model", Value::from("dall-e-3")),
            ("n", Value::from(3u64)),
            ("quality", Value::from("standard")),
            ("response_format", Value::from("b64_json")),
            ("size", Value::from("1024*1792")),
            ("style", Value::from("vivid")),
            ("user", Value::from("someone")),
        ])
    );
}

#[test]
fn one_option_adds_one_key() {
    let req = CreateImageRequestBuilder::default()
        .prompt("p")
        .size(ImageSize::LargeWide)
        .build()
        .unwrap();
    let value = req.to_value();
    let members = value.as_object().unwrap();
    assert_eq!(members.len(), 3);
    assert_eq!(members.get("size"), Some(&Value::from("1792x1024")));
    assert!(!members.contains_key("n"));
    assert!(!members.contains_key("quality"));
    assert!(!members.contains_key("response_format"));
    assert!(!members.contains_key("style"));
    assert!(!members.contains_key("user"));
}

#[test]
fn unset_options_are_not_null() {
    let value = CreateImageRequest::new("p").to_value();
    let text = serde_json::to_string(&value).unwrap();
    assert!(!text.contains("null"));
}

#[test]
fn a_later_setting_replaces_an_earlier_one() {
    let req = CreateImageRequestBuilder::default()
        .prompt("first")
        .prompt("second")
        .style(ImageStyle::Vivid)
        .style(ImageStyle::Natural)
        .build()
        .unwrap();
    assert_eq!(
        req.to_value(),
        object(vec![
            ("prompt", Value::from("second")),
            ("model", Value::from("dall-e-3")),
            ("style", Value::from("natural")),
        ])
    );
}

#[test]
fn builder_can_build_more_than_once() {
    let mut builder = CreateImageRequestBuilder::default();
    builder.prompt("p");
    let first = builder.build().unwrap();
    builder.n(2);
    let second = builder.build().unwrap();
    assert_eq!(first.to_value().as_object().unwrap().len(), 2);
    assert_eq!(second.to_value().as_object().unwrap().get("n"), Some(&Value::from(2u64)));
}

#[test]
fn building_without_a_prompt_fails() {
    let built = CreateImageRequestBuilder::default().build();
    assert!(matches!(built, Err(ValidationError::MissingPrompt)));
    let built = CreateImageRequestBuilder::default().style(ImageStyle::Vivid).n(1).build();
    assert!(matches!(built, Err(ValidationError::MissingPrompt)));
}

#[test]
fn building_with_an_empty_prompt_fails() {
    let built = CreateImageRequestBuilder::default().prompt("").build();
    assert!(matches!(built, Err(ValidationError::EmptyPrompt)));
}

#[test]
fn request_hands_out_its_prompt() {
    assert_eq!(CreateImageRequest::new("draw a cute cat").prompt(), "draw a cute cat");
    let req = CreateImageRequestBuilder::default().prompt("a").prompt("b").build().unwrap();
    assert_eq!(req.prompt(), "b");
}

#[test]
fn clone_keeps_the_request() {
    let req = CreateImageRequestBuilder::default().prompt("p").user("u").n(4).build().unwrap();
    assert_eq!(req.clone().to_value(), req.to_value());
}

#[test]
fn image_request_targets_the_generations_endpoint() {
    let request = CreateImageRequest::new("draw a cute cat").into_request();
    assert_eq!(request.method, Method::Post);
    assert_eq!(request.url, "https://api.openai.com/v1/images/generations");
    assert_eq!(
        request.body,
        object(vec![
            ("prompt", Value::from("draw a cute cat")),
            ("model", Value::from("dall-e-3")),
        ])
    );
}

#[test]
fn tokens_are_the_wire_strings() {
    assert_eq!(ImageModel::DallE3.token(), "dall-e-3");
    assert_eq!(ImageQuality::Standard.token(), "standard");
    assert_eq!(ImageQuality::Hd.token(), "hd");
    assert_eq!(ImageResposeFormat::Url.token(), "url");
    assert_eq!(ImageResposeFormat::B64Json.token(), "b64_json");
    assert_eq!(ImageSize::Large.token(), "1024x1024");
    assert_eq!(ImageSize::LargeWide.token(), "1792x1024");
    assert_eq!(ImageSize::LargeTall.token(), "1024*1792");
    assert_eq!(ImageStyle::Vivid.token(), "vivid");
    assert_eq!(ImageStyle::Natural.token(), "natural");
}

#[test]
fn tokens_round_trip() {
    for v in [ImageModel::DallE3] {
        assert_eq!(ImageModel::parse(v.token()), Ok(v));
        assert_eq!(ImageModel::from_value(&v.to_value()), Ok(v));
    }
    for v in [ImageQuality::Standard, ImageQuality::Hd] {
        assert_eq!(ImageQuality::parse(v.token()), Ok(v));
        assert_eq!(ImageQuality::from_value(&v.to_value()), Ok(v));
    }
    for v in [ImageResposeFormat::Url, ImageResposeFormat::B64Json] {
        assert_eq!(ImageResposeFormat::parse(v.token()), Ok(v));
        assert_eq!(ImageResposeFormat::from_value(&v.to_value()), Ok(v));
    }
    for v in [ImageSize::Large, ImageSize::LargeWide, ImageSize::LargeTall] {
        assert_eq!(ImageSize::parse(v.token()), Ok(v));
        assert_eq!(ImageSize::from_value(&v.to_value()), Ok(v));
    }
    for v in [ImageStyle::Vivid, ImageStyle::Natural] {
        assert_eq!(ImageStyle::parse(v.token()), Ok(v));
        assert_eq!(ImageStyle::from_value(&v.to_value()), Ok(v));
    }
}

#[test]
fn option_values_are_json_strings() {
    assert_eq!(ImageSize::LargeTall.to_value(), Value::from("1024*1792"));
    assert_eq!(ImageModel::DallE3.to_value(), Value::from("dall-e-3"));
    assert_eq!(ImageResposeFormat::B64Json.to_value(), Value::from("b64_json"));
}

#[test]
fn unknown_tokens_are_rejected() {
    assert_eq!(ImageModel::parse("dall-e-2"), Err(CodecError::UnknownToken));
    assert_eq!(ImageQuality::parse("HD"), Err(CodecError::UnknownToken));
    assert_eq!(ImageQuality::parse(""), Err(CodecError::UnknownToken));
    assert_eq!(ImageResposeFormat::parse("b64json"), Err(CodecError::UnknownToken));
    assert_eq!(ImageSize::parse("1024x1792"), Err(CodecError::UnknownToken));
    assert_eq!(ImageSize::parse("1024x1024 "), Err(CodecError::UnknownToken));
    assert_eq!(ImageStyle::parse("Vivid"), Err(CodecError::UnknownToken));
    assert_eq!(ImageStyle::parse("natura"), Err(CodecError::UnknownToken));
    assert_eq!(ImageStyle::from_value(&Value::from("plain")), Err(CodecError::UnknownToken));
}

#[test]
fn options_decode_from_strings_only() {
    assert_eq!(ImageStyle::from_value(&Value::Null), Err(CodecError::WrongType));
    assert_eq!(ImageQuality::from_value(&Value::from(1u64)), Err(CodecError::WrongType));
    assert_eq!(ImageSize::from_value(&Value::Bool(true)), Err(CodecError::WrongType));
    assert_eq!(ImageModel::from_value(&object(vec![])), Err(CodecError::WrongType));
    assert_eq!(
        ImageResposeFormat::from_value(&Value::Array(vec![Value::from("url")])),
        Err(CodecError::WrongType)
    );
}

#[test]
fn defaults_are_the_first_variants() {
    assert_eq!(ImageModel::default(), ImageModel::DallE3);
    assert_eq!(ImageQuality::default(), ImageQuality::Standard);
    assert_eq!(ImageResposeFormat::default(), ImageResposeFormat::Url);
    assert_eq!(ImageSize::default(), ImageSize::Large);
    assert_eq!(ImageStyle::default(), ImageStyle::Vivid);
}

#[test]
fn response_with_a_url_decodes() {
    let response = CreateImageResponse::parse(
        br#"{"created":1700000000,"data":[{"url":"http://x","revised_prompt":"p"}]}"#,
    )
    .unwrap();
    assert_eq!(response.created, 1700000000);
    assert_eq!(response.data.len(), 1);
    let image = &response.data[0];
    assert_eq!(image.b64_json, None);
    assert_eq!(image.url, Some("http://x".to_string()));
    assert_eq!(image.revised_prompt, "p");
}

#[test]
fn response_keeps_the_order_of_its_images() {
    let response = CreateImageResponse::parse(
        br#"{"data":[{"b64_json":"AAAA","revised_prompt":"one"},{"url":"u","b64_json":null,"revised_prompt":"two"}],"created":7}"#,
    )
    .unwrap();
    assert_eq!(response.created, 7);
    assert_eq!(response.data.len(), 2);
    assert_eq!(response.data[0].b64_json, Some("AAAA".to_string()));
    assert_eq!(response.data[0].url, None);
    assert_eq!(response.data[0].revised_prompt, "one");
    assert_eq!(response.data[1].b64_json, None);
    assert_eq!(response.data[1].url, Some("u".to_string()));
    assert_eq!(response.data[1].revised_prompt, "two");
}

#[test]
fn response_without_images_decodes() {
    let response = CreateImageResponse::parse(br#"{"created":0,"data":[]}"#).unwrap();
    assert_eq!(response.created, 0);
    assert!(response.data.is_empty());
    let response =
        CreateImageResponse::parse(br#"{"created":18446744073709551615,"data":[]}"#).unwrap();
    assert_eq!(response.created, u64::MAX);
}

#[test]
fn unknown_members_are_passed_over() {
    let response = CreateImageResponse::parse(
        br#"{"created":1,"usage":{"total":3},"data":[{"url":"u","revised_prompt":"p","seed":9}]}"#,
    )
    .unwrap();
    assert_eq!(response.data.len(), 1);
    assert_eq!(response.data[0].url, Some("u".to_string()));
}

#[test]
fn bytes_that_are_not_json_are_a_syntax_error() {
    assert!(matches!(CreateImageResponse::parse(b""), Err(CodecError::Syntax)));
    assert!(matches!(CreateImageResponse::parse(b"{"), Err(CodecError::Syntax)));
    assert!(matches!(
        CreateImageResponse::parse(br#"{"created":1,"data":[]} x"#),
        Err(CodecError::Syntax)
    ));
    assert!(matches!(CreateImageResponse::parse(&[0xff, 0xfe]), Err(CodecError::Syntax)));
}

#[test]
fn response_must_be_an_object() {
    assert!(matches!(CreateImageResponse::parse(b"[]"), Err(CodecError::NotAnObject)));
    assert!(matches!(CreateImageResponse::parse(b"null"), Err(CodecError::NotAnObject)));
    assert!(matches!(CreateImageResponse::parse(b"\"text\""), Err(CodecError::NotAnObject)));
    assert!(matches!(
        CreateImageResponse::parse(br#"{"created":1,"data":["u"]}"#),
        Err(CodecError::NotAnObject)
    ));
}

#[test]
fn required_members_must_be_present() {
    assert!(matches!(CreateImageResponse::parse(b"{}"), Err(CodecError::MissingField)));
    assert!(matches!(
        CreateImageResponse::parse(br#"{"data":[]}"#),
        Err(CodecError::MissingField)
    ));
    assert!(matches!(
        CreateImageResponse::parse(br#"{"created":1}"#),
        Err(CodecError::MissingField)
    ));
    assert!(matches!(
        CreateImageResponse::parse(br#"{"created":1,"data":[{"url":"u"}]}"#),
        Err(CodecError::MissingField)
    ));
}

#[test]
fn members_must_have_the_right_type() {
    for text in [
        r#"{"created":"1","data":[]}"#,
        r#"{"created":-1,"data":[]}"#,
        r#"{"created":1.5,"data":[]}"#,
        r#"{"created":null,"data":[]}"#,
        r#"{"created":1,"data":{}}"#,
        r#"{"created":1,"data":null}"#,
        r#"{"created":1,"data":[{"url":1,"revised_prompt":"p"}]}"#,
        r#"{"created":1,"data":[{"b64_json":[],"revised_prompt":"p"}]}"#,
        r#"{"created":1,"data":[{"url":"u","revised_prompt":null}]}"#,
        r#"{"created":1,"data":[{"url":"u","revised_prompt":"p"},{"revised_prompt":2}]}"#,
    ] {
        assert!(
            matches!(CreateImageResponse::parse(text.as_bytes()), Err(CodecError::WrongType)),
            "{}",
            text
        );
    }
}

#[test]
fn the_first_fault_decides_the_error() {
    assert!(matches!(
        CreateImageResponse::parse(br#"{"created":"1"}"#),
        Err(CodecError::WrongType)
    ));
    assert!(matches!(
        CreateImageResponse::parse(br#"{"data":7}"#),
        Err(CodecError::MissingField)
    ));
    assert!(matches!(
        CreateImageResponse::parse(br#"{"created":1,"data":[{"url":"u"},3]}"#),
        Err(CodecError::MissingField)
    ));
    assert!(matches!(
        CreateImageResponse::parse(br#"{"created":1,"data":[3,{"url":"u"}]}"#),
        Err(CodecError::NotAnObject)
    ));
    assert!(matches!(
        ImageObject::from_value(&document(r#"{"b64_json":1,"url":2}"#)),
        Err(CodecError::WrongType)
    ));
}

#[test]
fn image_decodes_from_a_value() {
    let image = ImageObject::from_value(&object(vec![
        ("b64_json", Value::from("QUJD")),
        ("revised_prompt", Value::from("a cat")),
    ]))
    .unwrap();
    assert_eq!(image.b64_json, Some("QUJD".to_string()));
    assert_eq!(image.url, None);
    assert_eq!(image.revised_prompt, "a cat");
    assert!(matches!(ImageObject::from_value(&Value::from("u")), Err(CodecError::NotAnObject)));
}

#[test]
fn response_decodes_from_a_value() {
    let value = object(vec![
        ("created", Value::from(5u64)),
        (
            "data",
            Value::Array(vec![object(vec![
                ("url", Value::from("http://y")),
                ("revised_prompt", Value::from("")),
            ])]),
        ),
    ]);
    let response = CreateImageResponse::from_value(&value).unwrap();
    assert_eq!(response.created, 5);
    assert_eq!(response.data.len(), 1);
    assert_eq!(response.data[0].url, Some("http://y".to_string()));
    assert_eq!(response.data[0].revised_prompt, "");
}
