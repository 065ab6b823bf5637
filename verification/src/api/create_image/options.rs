//! The closed sets of options of an image request.
//!
//! Each option has one fixed token on the wire. Encoding writes the token;
//! decoding accepts exactly the tokens of the enum and nothing else. The first
//! variant of each enum is its default.

use crate::error::CodecError;
use crate::json::{as_text, json_of, text_value, Json};
use crate::text::same_text;
use vstd::prelude::*;

verus! {

/// The characters of a JSON string, or `WrongType` for any other value.
pub open spec fn token_text_spec(json: Json) -> Result<Seq<char>, CodecError> {
    match json {
        Json::String(token) => Ok(token),
        _ => Err(CodecError::WrongType),
    }
}

/// Reads the token that a JSON string holds.
pub fn token_text(value: &serde_json::Value) -> (text: Result<&str, CodecError>)
    ensures
        match text {
            Ok(token) => token_text_spec(json_of(*value)) == Ok::<Seq<char>, CodecError>(token@),
            Err(e) => token_text_spec(json_of(*value)) == Err::<Seq<char>, CodecError>(e),
        },
{
    match as_text(value) {
        Some(token) => Ok(token),
        None => Err(CodecError::WrongType),
    }
}

/// The model that draws the image.
#[derive(Debug, Clone, Copy, PartialEq, Eq, Structural)]
pub enum ImageModel {
    /// On the wire: `dall-e-3`.
    DallE3,
}

impl ImageModel {
    /// The token of a variant.
    pub open spec fn token_spec(self) -> Seq<char> {
        match self {
            ImageModel::DallE3 => "dall-e-3"@,
        }
    }

    /// The variant of a token, if it is one of this enum's.
    pub open spec fn parse_spec(token: Seq<char>) -> Option<ImageModel> {
        if token == "dall-e-3"@ {
            Some(ImageModel::DallE3)
        } else {
            None
        }
    }

    /// The JSON value of a variant: the string of its token.
    pub open spec fn encode_spec(self) -> Json {
        Json::String(self.token_spec())
    }

    /// The variant of a JSON value: that of its token, where the value is a
    /// string and the string is a token.
    pub open spec fn decode_spec(json: Json) -> Result<ImageModel, CodecError> {
        match token_text_spec(json) {
            Ok(token) => match ImageModel::parse_spec(token) {
                Some(variant) => Ok(variant),
                None => Err(CodecError::UnknownToken),
            },
            Err(e) => Err(e),
        }
    }

    /// The token of this variant.
    pub fn token(self) -> (token: &'static str)
        ensures
            token@ == self.token_spec(),
    {
        match self {
            ImageModel::DallE3 => "dall-e-3",
        }
    }

    /// The variant that `token` names. Tokens are case-sensitive.
    pub fn parse(token: &str) -> (parsed: Result<ImageModel, CodecError>)
        ensures
            parsed == match ImageModel::parse_spec(token@) {
                Some(variant) => Ok::<ImageModel, CodecError>(variant),
                None => Err(CodecError::UnknownToken),
            },
    {
        if same_text(token, "dall-e-3") {
            Ok(ImageModel::DallE3)
        } else {
            Err(CodecError::UnknownToken)
        }
    }

    /// Encodes this variant as a JSON string.
    pub fn to_value(self) -> (value: serde_json::Value)
        ensures
            json_of(value) == self.encode_spec(),
    {
        text_value(self.token())
    }

    /// Decodes a variant from a JSON string.
    pub fn from_value(value: &serde_json::Value) -> (decoded: Result<ImageModel, CodecError>)
        ensures
            decoded == ImageModel::decode_spec(json_of(*value)),
    {
        match token_text(value) {
            Ok(token) => ImageModel::parse(token),
            Err(e) => Err(e),
        }
    }
}

impl Default for ImageModel {
    fn default() -> (variant: ImageModel)
        ensures
            variant == ImageModel::DallE3,
    {
        ImageModel::DallE3
    }
}

/// Encoding then decoding gives the variant back, for tokens and for JSON
/// values, and a token that decodes is the token of what it decodes to.
pub proof fn lemma_model_round_trip(model: ImageModel)
    ensures
        ImageModel::parse_spec(model.token_spec()) == Some(model),
        ImageModel::decode_spec(model.encode_spec()) == Ok::<ImageModel, CodecError>(model),
        forall|token: Seq<char>|
            ImageModel::parse_spec(token) == Some(model) ==> token == model.token_spec(),
{
}

/// How much detail the image gets.
#[derive(Debug, Clone, Copy, PartialEq, Eq, Structural)]
pub enum ImageQuality {
    /// On the wire: `standard`.
    Standard,
    /// On the wire: `hd`.
    Hd,
}

impl ImageQuality {
    /// The token of a variant.
    pub open spec fn token_spec(self) -> Seq<char> {
        match self {
            ImageQuality::Standard => "standard"@,
            ImageQuality::Hd => "hd"@,
        }
    }

    /// The variant of a token, if it is one of this enum's.
    pub open spec fn parse_spec(token: Seq<char>) -> Option<ImageQuality> {
        if token == "standard"@ {
            Some(ImageQuality::Standard)
        } else if token == "hd"@ {
            Some(ImageQuality::Hd)
        } else {
            None
        }
    }

    /// The JSON value of a variant: the string of its token.
    pub open spec fn encode_spec(self) -> Json {
        Json::String(self.token_spec())
    }

    /// The variant of a JSON value: that of its token, where the value is a
    /// string and the string is a token.
    pub open spec fn decode_spec(json: Json) -> Result<ImageQuality, CodecError> {
        match token_text_spec(json) {
            Ok(token) => match ImageQuality::parse_spec(token) {
                Some(variant) => Ok(variant),
                None => Err(CodecError::UnknownToken),
            },
            Err(e) => Err(e),
        }
    }

    /// The token of this variant.
    pub fn token(self) -> (token: &'static str)
        ensures
            token@ == self.token_spec(),
    {
        match self {
            ImageQuality::Standard => "standard",
            ImageQuality::Hd => "hd",
        }
    }

    /// The variant that `token` names. Tokens are case-sensitive.
    pub fn parse(token: &str) -> (parsed: Result<ImageQuality, CodecError>)
        ensures
            parsed == match ImageQuality::parse_spec(token@) {
                Some(variant) => Ok::<ImageQuality, CodecError>(variant),
                None => Err(CodecError::UnknownToken),
            },
    {
        if same_text(token, "standard") {
            Ok(ImageQuality::Standard)
        } else if same_text(token, "hd") {
            Ok(ImageQuality::Hd)
        } else {
            Err(CodecError::UnknownToken)
        }
    }

    /// Encodes this variant as a JSON string.
    pub fn to_value(self) -> (value: serde_json::Value)
        ensures
            json_of(value) == self.encode_spec(),
    {
        text_value(self.token())
    }

    /// Decodes a variant from a JSON string.
    pub fn from_value(value: &serde_json::Value) -> (decoded: Result<ImageQuality, CodecError>)
        ensures
            decoded == ImageQuality::decode_spec(json_of(*value)),
    {
        match token_text(value) {
            Ok(token) => ImageQuality::parse(token),
            Err(e) => Err(e),
        }
    }
}

impl Default for ImageQuality {
    fn default() -> (variant: ImageQuality)
        ensures
            variant == ImageQuality::Standard,
    {
        ImageQuality::Standard
    }
}

/// Encoding then decoding gives the variant back, for tokens and for JSON
/// values, and a token that decodes is the token of what it decodes to.
pub proof fn lemma_quality_round_trip(quality: ImageQuality)
    ensures
        ImageQuality::parse_spec(quality.token_spec()) == Some(quality),
        ImageQuality::decode_spec(quality.encode_spec()) == Ok::<ImageQuality, CodecError>(quality),
        forall|token: Seq<char>|
            ImageQuality::parse_spec(token) == Some(quality) ==> token == quality.token_spec(),
{
    reveal_strlit("standard");
    reveal_strlit("hd");
    assert("standard"@.len() != "hd"@.len());
}

/// How the response carries the image.
#[derive(Debug, Clone, Copy, PartialEq, Eq, Structural)]
pub enum ImageResposeFormat {
    /// On the wire: `url`.
    Url,
    /// On the wire: `b64_json`.
    B64Json,
}

impl ImageResposeFormat {
    /// The token of a variant.
    pub open spec fn token_spec(self) -> Seq<char> {
        match self {
            ImageResposeFormat::Url => "url"@,
            ImageResposeFormat::B64Json => "b64_json"@,
        }
    }

    /// The variant of a token, if it is one of this enum's.
    pub open spec fn parse_spec(token: Seq<char>) -> Option<ImageResposeFormat> {
        if token == "url"@ {
            Some(ImageResposeFormat::Url)
        } else if token == "b64_json"@ {
            Some(ImageResposeFormat::B64Json)
        } else {
            None
        }
    }

    /// The JSON value of a variant: the string of its token.
    pub open spec fn encode_spec(self) -> Json {
        Json::String(self.token_spec())
    }

    /// The variant of a JSON value: that of its token, where the value is a
    /// string and the string is a token.
    pub open spec fn decode_spec(json: Json) -> Result<ImageResposeFormat, CodecError> {
        match token_text_spec(json) {
            Ok(token) => match ImageResposeFormat::parse_spec(token) {
                Some(variant) => Ok(variant),
                None => Err(CodecError::UnknownToken),
            },
            Err(e) => Err(e),
        }
    }

    /// The token of this variant.
    pub fn token(self) -> (token: &'static str)
        ensures
            token@ == self.token_spec(),
    {
        match self {
            ImageResposeFormat::Url => "url",
            ImageResposeFormat::B64Json => "b64_json",
        }
    }

    /// The variant that `token` names. Tokens are case-sensitive.
    pub fn parse(token: &str) -> (parsed: Result<ImageResposeFormat, CodecError>)
        ensures
            parsed == match ImageResposeFormat::parse_spec(token@) {
                Some(variant) => Ok::<ImageResposeFormat, CodecError>(variant),
                None => Err(CodecError::UnknownToken),
            },
    {
        if same_text(token, "url") {
            Ok(ImageResposeFormat::Url)
        } else if same_text(token, "b64_json") {
            Ok(ImageResposeFormat::B64Json)
        } else {
            Err(CodecError::UnknownToken)
        }
    }

    /// Encodes this variant as a JSON string.
    pub fn to_value(self) -> (value: serde_json::Value)
        ensures
            json_of(value) == self.encode_spec(),
    {
        text_value(self.token())
    }

    /// Decodes a variant from a JSON string.
    pub fn from_value(value: &serde_json::Value) -> (decoded: Result<ImageResposeFormat, CodecError>)
        ensures
            decoded == ImageResposeFormat::decode_spec(json_of(*value)),
    {
        match token_text(value) {
            Ok(token) => ImageResposeFormat::parse(token),
            Err(e) => Err(e),
        }
    }
}

impl Default for ImageResposeFormat {
    fn default() -> (variant: ImageResposeFormat)
        ensures
            variant == ImageResposeFormat::Url,
    {
        ImageResposeFormat::Url
    }
}

/// Encoding then decoding gives the variant back, for tokens and for JSON
/// values, and a token that decodes is the token of what it decodes to.
pub proof fn lemma_response_format_round_trip(response_format: ImageResposeFormat)
    ensures
        ImageResposeFormat::parse_spec(response_format.token_spec()) == Some(response_format),
        ImageResposeFormat::decode_spec(response_format.encode_spec()) == Ok::<ImageResposeFormat, CodecError>(response_format),
        forall|token: Seq<char>|
            ImageResposeFormat::parse_spec(token) == Some(response_format) ==> token == response_format.token_spec(),
{
    reveal_strlit("url");
    reveal_strlit("b64_json");
    assert("url"@.len() != "b64_json"@.len());
}

/// The dimensions of the image.
#[derive(Debug, Clone, Copy, PartialEq, Eq, Structural)]
pub enum ImageSize {
    /// On the wire: `1024x1024`.
    Large,
    /// On the wire: `1792x1024`.
    LargeWide,
    /// On the wire: `1024*1792`.
    LargeTall,
}

impl ImageSize {
    /// The token of a variant.
    pub open spec fn token_spec(self) -> Seq<char> {
        match self {
            ImageSize::Large => "1024x1024"@,
            ImageSize::LargeWide => "1792x1024"@,
            ImageSize::LargeTall => "1024*1792"@,
        }
    }

    /// The variant of a token, if it is one of this enum's.
    pub open spec fn parse_spec(token: Seq<char>) -> Option<ImageSize> {
        if token == "1024x1024"@ {
            Some(ImageSize::Large)
        } else if token == "1792x1024"@ {
            Some(ImageSize::LargeWide)
        } else if token == "1024*1792"@ {
            Some(ImageSize::LargeTall)
        } else {
            None
        }
    }

    /// The JSON value of a variant: the string of its token.
    pub open spec fn encode_spec(self) -> Json {
        Json::String(self.token_spec())
    }

    /// The variant of a JSON value: that of its token, where the value is a
    /// string and the string is a token.
    pub open spec fn decode_spec(json: Json) -> Result<ImageSize, CodecError> {
        match token_text_spec(json) {
            Ok(token) => match ImageSize::parse_spec(token) {
                Some(variant) => Ok(variant),
                None => Err(CodecError::UnknownToken),
            },
            Err(e) => Err(e),
        }
    }

    /// The token of this variant.
    pub fn token(self) -> (token: &'static str)
        ensures
            token@ == self.token_spec(),
    {
        match self {
            ImageSize::Large => "1024x1024",
            ImageSize::LargeWide => "1792x1024",
            ImageSize::LargeTall => "1024*1792",
        }
    }

    /// The variant that `token` names. Tokens are case-sensitive.
    pub fn parse(token: &str) -> (parsed: Result<ImageSize, CodecError>)
        ensures
            parsed == match ImageSize::parse_spec(token@) {
                Some(variant) => Ok::<ImageSize, CodecError>(variant),
                None => Err(CodecError::UnknownToken),
            },
    {
        if same_text(token, "1024x1024") {
            Ok(ImageSize::Large)
        } else if same_text(token, "1792x1024") {
            Ok(ImageSize::LargeWide)
        } else if same_text(token, "1024*1792") {
            Ok(ImageSize::LargeTall)
        } else {
            Err(CodecError::UnknownToken)
        }
    }

    /// Encodes this variant as a JSON string.
    pub fn to_value(self) -> (value: serde_json::Value)
        ensures
            json_of(value) == self.encode_spec(),
    {
        text_value(self.token())
    }

    /// Decodes a variant from a JSON string.
    pub fn from_value(value: &serde_json::Value) -> (decoded: Result<ImageSize, CodecError>)
        ensures
            decoded == ImageSize::decode_spec(json_of(*value)),
    {
        match token_text(value) {
            Ok(token) => ImageSize::parse(token),
            Err(e) => Err(e),
        }
    }
}

impl Default for ImageSize {
    fn default() -> (variant: ImageSize)
        ensures
            variant == ImageSize::Large,
    {
        ImageSize::Large
    }
}

/// Encoding then decoding gives the variant back, for tokens and for JSON
/// values, and a token that decodes is the token of what it decodes to.
pub proof fn lemma_size_round_trip(size: ImageSize)
    ensures
        ImageSize::parse_spec(size.token_spec()) == Some(size),
        ImageSize::decode_spec(size.encode_spec()) == Ok::<ImageSize, CodecError>(size),
        forall|token: Seq<char>|
            ImageSize::parse_spec(token) == Some(size) ==> token == size.token_spec(),
{
    reveal_strlit("1024x1024");
    reveal_strlit("1792x1024");
    reveal_strlit("1024*1792");
    assert("1024x1024"@[1] != "1792x1024"@[1]);
    assert("1024x1024"@[4] != "1024*1792"@[4]);
    assert("1792x1024"@[1] != "1024*1792"@[1]);
}

/// The style of the image.
#[derive(Debug, Clone, Copy, PartialEq, Eq, Structural)]
pub enum ImageStyle {
    /// On the wire: `vivid`.
    Vivid,
    /// On the wire: `natural`.
    Natural,
}

impl ImageStyle {
    /// The token of a variant.
    pub open spec fn token_spec(self) -> Seq<char> {
        match self {
            ImageStyle::Vivid => "vivid"@,
            ImageStyle::Natural => "natural"@,
        }
    }

    /// The variant of a token, if it is one of this enum's.
    pub open spec fn parse_spec(token: Seq<char>) -> Option<ImageStyle> {
        if token == "vivid"@ {
            Some(ImageStyle::Vivid)
        } else if token == "natural"@ {
            Some(ImageStyle::Natural)
        } else {
            None
        }
    }

    /// The JSON value of a variant: the string of its token.
    pub open spec fn encode_spec(self) -> Json {
        Json::String(self.token_spec())
    }

    /// The variant of a JSON value: that of its token, where the value is a
    /// string and the string is a token.
    pub open spec fn decode_spec(json: Json) -> Result<ImageStyle, CodecError> {
        match token_text_spec(json) {
            Ok(token) => match ImageStyle::parse_spec(token) {
                Some(variant) => Ok(variant),
                None => Err(CodecError::UnknownToken),
            },
            Err(e) => Err(e),
        }
    }

    /// The token of this variant.
    pub fn token(self) -> (token: &'static str)
        ensures
            token@ == self.token_spec(),
    {
        match self {
            ImageStyle::Vivid => "vivid",
            ImageStyle::Natural => "natural",
        }
    }

    /// The variant that `token` names. Tokens are case-sensitive.
    pub fn parse(token: &str) -> (parsed: Result<ImageStyle, CodecError>)
        ensures
            parsed == match ImageStyle::parse_spec(token@) {
                Some(variant) => Ok::<ImageStyle, CodecError>(variant),
                None => Err(CodecError::UnknownToken),
            },
    {
        if same_text(token, "vivid") {
            Ok(ImageStyle::Vivid)
        } else if same_text(token, "natural") {
            Ok(ImageStyle::Natural)
        } else {
            Err(CodecError::UnknownToken)
        }
    }

    /// Encodes this variant as a JSON string.
    pub fn to_value(self) -> (value: serde_json::Value)
        ensures
            json_of(value) == self.encode_spec(),
    {
        text_value(self.token())
    }

    /// Decodes a variant from a JSON string.
    pub fn from_value(value: &serde_json::Value) -> (decoded: Result<ImageStyle, CodecError>)
        ensures
            decoded == ImageStyle::decode_spec(json_of(*value)),
    {
        match token_text(value) {
            Ok(token) => ImageStyle::parse(token),
            Err(e) => Err(e),
        }
    }
}

impl Default for ImageStyle {
    fn default() -> (variant: ImageStyle)
        ensures
            variant == ImageStyle::Vivid,
    {
        ImageStyle::Vivid
    }
}

/// Encoding then decoding gives the variant back, for tokens and for JSON
/// values, and a token that decodes is the token of what it decodes to.
pub proof fn lemma_style_round_trip(style: ImageStyle)
    ensures
        ImageStyle::parse_spec(style.token_spec()) == Some(style),
        ImageStyle::decode_spec(style.encode_spec()) == Ok::<ImageStyle, CodecError>(style),
        forall|token: Seq<char>|
            ImageStyle::parse_spec(token) == Some(style) ==> token == style.token_spec(),
{
    reveal_strlit("vivid");
    reveal_strlit("natural");
    assert("vivid"@.len() != "natural"@.len());
}

} // verus!
