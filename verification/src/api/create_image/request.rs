//! The image request and the builder that makes one.

use crate::api::create_image::options::{
    ImageModel, ImageQuality, ImageResposeFormat, ImageSize, ImageStyle,
};
use crate::error::ValidationError;
use crate::json::{
    json_of, members_of, new_members, object_value, put_member, text_value, unsigned_value, Json,
    JsonNumber, Members,
};
use crate::request::{IntoRequest, Method, Request};
use vstd::prelude::*;

verus! {

/// What a builder has been told so far: `None` for what was never set.
pub struct CreateImageRequestBuilderView {
    pub prompt: Option<Seq<char>>,
    pub model: Option<ImageModel>,
    pub n: Option<usize>,
    pub quality: Option<ImageQuality>,
    pub response_format: Option<ImageResposeFormat>,
    pub size: Option<ImageSize>,
    pub style: Option<ImageStyle>,
    pub user: Option<Seq<char>>,
}

/// The parameters of an image request.
pub struct CreateImageRequestView {
    pub prompt: Seq<char>,
    pub model: ImageModel,
    pub n: Option<usize>,
    pub quality: Option<ImageQuality>,
    pub response_format: Option<ImageResposeFormat>,
    pub size: Option<ImageSize>,
    pub style: Option<ImageStyle>,
    pub user: Option<Seq<char>>,
}

impl CreateImageRequestBuilderView {
    /// A builder that has been told nothing.
    pub open spec fn empty() -> CreateImageRequestBuilderView {
        CreateImageRequestBuilderView {
            prompt: None,
            model: None,
            n: None,
            quality: None,
            response_format: None,
            size: None,
            style: None,
            user: None,
        }
    }

    /// The request that these settings make. The prompt is required and must
    /// not be empty; the model falls back to its default; every other
    /// setting is carried over as it is.
    pub open spec fn build(self) -> Result<CreateImageRequestView, ValidationError> {
        match self.prompt {
            None => Err(ValidationError::MissingPrompt),
            Some(prompt) => if prompt.len() == 0 {
                Err(ValidationError::EmptyPrompt)
            } else {
                Ok(
                    CreateImageRequestView {
                        prompt,
                        model: match self.model {
                            Some(model) => model,
                            None => ImageModel::DallE3,
                        },
                        n: self.n,
                        quality: self.quality,
                        response_format: self.response_format,
                        size: self.size,
                        style: self.style,
                        user: self.user,
                    },
                )
            },
        }
    }
}

impl CreateImageRequestView {
    /// The request for `prompt` with nothing else set.
    pub open spec fn with_prompt(prompt: Seq<char>) -> CreateImageRequestView {
        CreateImageRequestView {
            prompt,
            model: ImageModel::DallE3,
            n: None,
            quality: None,
            response_format: None,
            size: None,
            style: None,
            user: None,
        }
    }

    /// The value that the JSON body holds under `key`, or `None` where the
    /// body has no such key. The prompt and the model are always there; an
    /// optional parameter is there exactly when it is set.
    pub open spec fn member(self, key: Seq<char>) -> Option<Json> {
        if key == "prompt"@ {
            Some(Json::String(self.prompt))
        } else if key == "model"@ {
            Some(self.model.encode_spec())
        } else if key == "n"@ {
            match self.n {
                Some(n) => Some(Json::Number(JsonNumber::Unsigned(n as u64))),
                None => None,
            }
        } else if key == "quality"@ {
            match self.quality {
                Some(quality) => Some(quality.encode_spec()),
                None => None,
            }
        } else if key == "response_format"@ {
            match self.response_format {
                Some(format) => Some(format.encode_spec()),
                None => None,
            }
        } else if key == "size"@ {
            match self.size {
                Some(size) => Some(size.encode_spec()),
                None => None,
            }
        } else if key == "style"@ {
            match self.style {
                Some(style) => Some(style.encode_spec()),
                None => None,
            }
        } else if key == "user"@ {
            match self.user {
                Some(user) => Some(Json::String(user)),
                None => None,
            }
        } else {
            None
        }
    }

    /// The members of the JSON body.
    pub open spec fn members(self) -> Members {
        Map::new(|key: Seq<char>| self.member(key) is Some, |key: Seq<char>| self.member(key)->0)
    }
}

/// The keys of the JSON body differ from one another.
pub proof fn lemma_keys_differ()
    ensures
        "prompt"@ != "model"@,
        "prompt"@ != "n"@,
        "prompt"@ != "quality"@,
        "prompt"@ != "response_format"@,
        "prompt"@ != "size"@,
        "prompt"@ != "style"@,
        "prompt"@ != "user"@,
        "model"@ != "n"@,
        "model"@ != "quality"@,
        "model"@ != "response_format"@,
        "model"@ != "size"@,
        "model"@ != "style"@,
        "model"@ != "user"@,
        "n"@ != "quality"@,
        "n"@ != "response_format"@,
        "n"@ != "size"@,
        "n"@ != "style"@,
        "n"@ != "user"@,
        "quality"@ != "response_format"@,
        "quality"@ != "size"@,
        "quality"@ != "style"@,
        "quality"@ != "user"@,
        "response_format"@ != "size"@,
        "response_format"@ != "style"@,
        "response_format"@ != "user"@,
        "size"@ != "style"@,
        "size"@ != "user"@,
        "style"@ != "user"@,
{
    reveal_strlit("prompt");
    reveal_strlit("model");
    reveal_strlit("n");
    reveal_strlit("quality");
    reveal_strlit("response_format");
    reveal_strlit("size");
    reveal_strlit("style");
    reveal_strlit("user");
    assert("prompt"@.len() == 6);
    assert("model"@.len() == 5);
    assert("n"@.len() == 1);
    assert("quality"@.len() == 7);
    assert("response_format"@.len() == 15);
    assert("size"@.len() == 4);
    assert("style"@.len() == 5);
    assert("user"@.len() == 4);
    assert("model"@[0] != "style"@[0]);
    assert("size"@[0] != "user"@[0]);
}

/// An image request: a prompt, a model, and the optional parameters that
/// were set. It is made by [`CreateImageRequestBuilder::build`] and never
/// changes afterwards.
#[derive(Debug)]
pub struct CreateImageRequest {
    prompt: String,
    model: ImageModel,
    n: Option<usize>,
    quality: Option<ImageQuality>,
    response_format: Option<ImageResposeFormat>,
    size: Option<ImageSize>,
    style: Option<ImageStyle>,
    user: Option<String>,
}

impl View for CreateImageRequest {
    type V = CreateImageRequestView;

    closed spec fn view(&self) -> CreateImageRequestView {
        CreateImageRequestView {
            prompt: self.prompt@,
            model: self.model,
            n: self.n,
            quality: self.quality,
            response_format: self.response_format,
            size: self.size,
            style: self.style,
            user: match self.user {
                Some(user) => Some(user@),
                None => None,
            },
        }
    }
}

impl Clone for CreateImageRequest {
    fn clone(&self) -> (copy: CreateImageRequest)
        ensures
            copy@ == self@,
    {
        proof {
            use_type_invariant(self);
        }
        CreateImageRequest {
            prompt: self.prompt.clone(),
            model: self.model,
            n: self.n,
            quality: self.quality,
            response_format: self.response_format,
            size: self.size,
            style: self.style,
            user: match &self.user {
                Some(user) => Some(user.clone()),
                None => None,
            },
        }
    }
}

/// Accumulates the parameters of an image request.
#[derive(Debug)]
pub struct CreateImageRequestBuilder {
    prompt: Option<String>,
    model: Option<ImageModel>,
    n: Option<usize>,
    quality: Option<ImageQuality>,
    response_format: Option<ImageResposeFormat>,
    size: Option<ImageSize>,
    style: Option<ImageStyle>,
    user: Option<String>,
}

impl View for CreateImageRequestBuilder {
    type V = CreateImageRequestBuilderView;

    closed spec fn view(&self) -> CreateImageRequestBuilderView {
        CreateImageRequestBuilderView {
            prompt: match self.prompt {
                Some(prompt) => Some(prompt@),
                None => None,
            },
            model: self.model,
            n: self.n,
            quality: self.quality,
            response_format: self.response_format,
            size: self.size,
            style: self.style,
            user: match self.user {
                Some(user) => Some(user@),
                None => None,
            },
        }
    }
}

impl Clone for CreateImageRequestBuilder {
    fn clone(&self) -> (copy: CreateImageRequestBuilder)
        ensures
            copy@ == self@,
    {
        CreateImageRequestBuilder {
            prompt: match &self.prompt {
                Some(prompt) => Some(prompt.clone()),
                None => None,
            },
            model: self.model,
            n: self.n,
            quality: self.quality,
            response_format: self.response_format,
            size: self.size,
            style: self.style,
            user: match &self.user {
                Some(user) => Some(user.clone()),
                None => None,
            },
        }
    }
}

impl Default for CreateImageRequestBuilder {
    /// A builder that has been told nothing.
    fn default() -> (builder: CreateImageRequestBuilder)
        ensures
            builder@ == CreateImageRequestBuilderView::empty(),
    {
        CreateImageRequestBuilder {
            prompt: None,
            model: None,
            n: None,
            quality: None,
            response_format: None,
            size: None,
            style: None,
            user: None,
        }
    }
}

impl CreateImageRequestBuilder {
    /// Sets the prompt.
    pub fn prompt(&mut self, value: &str) -> (ret: &mut CreateImageRequestBuilder)
        ensures
            ret@ == (CreateImageRequestBuilderView { prompt: Some(value@), ..old(self)@ }),
            *final(self) == *final(ret),
    {
        self.prompt = Some(value.to_owned());
        self
    }

    /// Sets the model.
    pub fn model(&mut self, value: ImageModel) -> (ret: &mut CreateImageRequestBuilder)
        ensures
            ret@ == (CreateImageRequestBuilderView { model: Some(value), ..old(self)@ }),
            *final(self) == *final(ret),
    {
        self.model = Some(value);
        self
    }

    /// Sets the number of images to generate.
    pub fn n(&mut self, value: usize) -> (ret: &mut CreateImageRequestBuilder)
        ensures
            ret@ == (CreateImageRequestBuilderView { n: Some(value), ..old(self)@ }),
            *final(self) == *final(ret),
    {
        self.n = Some(value);
        self
    }

    /// Sets the quality.
    pub fn quality(&mut self, value: ImageQuality) -> (ret: &mut CreateImageRequestBuilder)
        ensures
            ret@ == (CreateImageRequestBuilderView { quality: Some(value), ..old(self)@ }),
            *final(self) == *final(ret),
    {
        self.quality = Some(value);
        self
    }

    /// Sets the format of the response.
    pub fn response_format(&mut self, value: ImageResposeFormat) -> (ret:
        &mut CreateImageRequestBuilder)
        ensures
            ret@ == (CreateImageRequestBuilderView { response_format: Some(value), ..old(self)@ }),
            *final(self) == *final(ret),
    {
        self.response_format = Some(value);
        self
    }

    /// Sets the size.
    pub fn size(&mut self, value: ImageSize) -> (ret: &mut CreateImageRequestBuilder)
        ensures
            ret@ == (CreateImageRequestBuilderView { size: Some(value), ..old(self)@ }),
            *final(self) == *final(ret),
    {
        self.size = Some(value);
        self
    }

    /// Sets the style.
    pub fn style(&mut self, value: ImageStyle) -> (ret: &mut CreateImageRequestBuilder)
        ensures
            ret@ == (CreateImageRequestBuilderView { style: Some(value), ..old(self)@ }),
            *final(self) == *final(ret),
    {
        self.style = Some(value);
        self
    }

    /// Sets the identifier of the end user.
    pub fn user(&mut self, value: &str) -> (ret: &mut CreateImageRequestBuilder)
        ensures
            ret@ == (CreateImageRequestBuilderView { user: Some(value@), ..old(self)@ }),
            *final(self) == *final(ret),
    {
        self.user = Some(value.to_owned());
        self
    }

    /// Makes the request, or says why these settings make none.
    pub fn build(&self) -> (built: Result<CreateImageRequest, ValidationError>)
        ensures
            match built {
                Ok(request) => self@.build() == Ok::<CreateImageRequestView, ValidationError>(
                    request@,
                ),
                Err(e) => self@.build() == Err::<CreateImageRequestView, ValidationError>(e),
            },
    {
        let prompt = match &self.prompt {
            None => { return Err(ValidationError::MissingPrompt); },
            Some(prompt) => prompt.clone(),
        };
        if prompt.as_str().is_empty() {
            return Err(ValidationError::EmptyPrompt);
        }
        let model = match self.model {
            Some(model) => model,
            None => ImageModel::default(),
        };
        let user = match &self.user {
            Some(user) => Some(user.clone()),
            None => None,
        };
        Ok(
            CreateImageRequest {
                prompt,
                model,
                n: self.n,
                quality: self.quality,
                response_format: self.response_format,
                size: self.size,
                style: self.style,
                user,
            },
        )
    }
}

impl CreateImageRequest {
    /// Every request has a prompt of at least one character.
    #[verifier::type_invariant]
    spec fn well_formed(self) -> bool {
        self.prompt@.len() > 0
    }

    /// The request for `prompt` with the default model and nothing else set.
    pub fn new(prompt: &str) -> (request: CreateImageRequest)
        requires
            prompt@.len() > 0,
        ensures
            request@ == CreateImageRequestView::with_prompt(prompt@),
    {
        let mut builder = CreateImageRequestBuilder::default();
        builder.prompt(prompt);
        builder.build().unwrap()
    }

    /// The prompt, which has at least one character.
    pub fn prompt(&self) -> (prompt: &str)
        ensures
            prompt@ == self@.prompt,
            prompt@.len() > 0,
    {
        proof {
            use_type_invariant(self);
        }
        self.prompt.as_str()
    }

    /// Encodes the request as the JSON object of its parameters. A parameter
    /// that is not set gets no key.
    pub fn to_value(&self) -> (value: serde_json::Value)
        ensures
            json_of(value) == Json::Object(self@.members()),
            self@.prompt.len() > 0,
    {
        proof {
            use_type_invariant(self);
        }
        let mut members = new_members();
        put_member(&mut members, "prompt", text_value(self.prompt.as_str()));
        put_member(&mut members, "model", self.model.to_value());
        if let Some(n) = self.n {
            put_member(&mut members, "n", unsigned_value(n as u64));
        }
        if let Some(quality) = self.quality {
            put_member(&mut members, "quality", quality.to_value());
        }
        if let Some(format) = self.response_format {
            put_member(&mut members, "response_format", format.to_value());
        }
        if let Some(size) = self.size {
            put_member(&mut members, "size", size.to_value());
        }
        if let Some(style) = self.style {
            put_member(&mut members, "style", style.to_value());
        }
        if let Some(user) = &self.user {
            put_member(&mut members, "user", text_value(user.as_str()));
        }
        proof {
            lemma_keys_differ();
            assert(members_of(members) =~= self@.members());
        }
        object_value(members)
    }
}

impl IntoRequest for CreateImageRequest {
    open spec fn endpoint() -> Seq<char> {
        "https://api.openai.com/v1/images/generations"@
    }

    open spec fn body(&self) -> Members {
        self@.members()
    }

    /// The POST to the image generation endpoint with this request as its
    /// JSON body.
    fn into_request(self) -> (request: Request) {
        let body = self.to_value();
        Request {
            method: Method::Post,
            url: "https://api.openai.com/v1/images/generations".to_owned(),
            body,
        }
    }
}

/// A prompt of at least one character and nothing else builds, and the body
/// of what is built holds the prompt and the default model and no other key.
pub proof fn lemma_default_body(prompt: Seq<char>)
    requires
        prompt.len() > 0,
    ensures
        (CreateImageRequestBuilderView {
            prompt: Some(prompt),
            ..CreateImageRequestBuilderView::empty()
        }).build() == Ok::<CreateImageRequestView, ValidationError>(
            CreateImageRequestView::with_prompt(prompt),
        ),
        CreateImageRequestView::with_prompt(prompt).members() == Members::empty().insert(
            "prompt"@,
            Json::String(prompt),
        ).insert("model"@, Json::String("dall-e-3"@)),
{
    lemma_keys_differ();
    assert(CreateImageRequestView::with_prompt(prompt).members() =~= Members::empty().insert(
        "prompt"@,
        Json::String(prompt),
    ).insert("model"@, Json::String("dall-e-3"@)));
}

/// The body holds the prompt and the model whatever else is set; it holds
/// the key of an optional parameter exactly when the parameter is set, and
/// then with the parameter's value or token; it holds no other key.
pub proof fn lemma_body_keys(request: CreateImageRequestView)
    ensures
        request.members().contains_key("prompt"@),
        request.members()["prompt"@] == Json::String(request.prompt),
        request.members().contains_key("model"@),
        request.members()["model"@] == Json::String(request.model.token_spec()),
        request.members().contains_key("n"@) <==> request.n is Some,
        request.n matches Some(n) ==> request.members()["n"@] == Json::Number(
            JsonNumber::Unsigned(n as u64),
        ),
        request.members().contains_key("quality"@) <==> request.quality is Some,
        request.quality matches Some(quality) ==> request.members()["quality"@] == Json::String(
            quality.token_spec(),
        ),
        request.members().contains_key("response_format"@) <==> request.response_format is Some,
        request.response_format matches Some(format) ==> request.members()["response_format"@]
            == Json::String(format.token_spec()),
        request.members().contains_key("size"@) <==> request.size is Some,
        request.size matches Some(size) ==> request.members()["size"@] == Json::String(
            size.token_spec(),
        ),
        request.members().contains_key("style"@) <==> request.style is Some,
        request.style matches Some(style) ==> request.members()["style"@] == Json::String(
            style.token_spec(),
        ),
        request.members().contains_key("user"@) <==> request.user is Some,
        request.user matches Some(user) ==> request.members()["user"@] == Json::String(user),
        forall|key: Seq<char>| #[trigger]
            request.members().contains_key(key) ==> key == "prompt"@ || key == "model"@ || key
                == "n"@ || key == "quality"@ || key == "response_format"@ || key == "size"@ || key
                == "style"@ || key == "user"@,
{
    lemma_keys_differ();
}

/// Whatever is built has a prompt of at least one character, and settings
/// build exactly when they hold such a prompt.
pub proof fn lemma_build_validates(settings: CreateImageRequestBuilderView)
    ensures
        settings.build() is Ok <==> settings.prompt is Some && settings.prompt->0.len() > 0,
        settings.build() matches Ok(request) ==> request.prompt.len() > 0,
        settings.prompt is None ==> settings.build() == Err::<
            CreateImageRequestView,
            ValidationError,
        >(ValidationError::MissingPrompt),
        settings.prompt == Some(Seq::<char>::empty()) ==> settings.build() == Err::<
            CreateImageRequestView,
            ValidationError,
        >(ValidationError::EmptyPrompt),
{
}

/// What is built carries every setting over: the body holds the key of an
/// optional parameter exactly when the builder was told that parameter, and
/// the model that the builder was told, or the default one.
pub proof fn lemma_settings_reach_body(settings: CreateImageRequestBuilderView)
    requires
        settings.build() is Ok,
    ensures
        ({
            let body = settings.build()->Ok_0.members();
            &&& body["prompt"@] == Json::String(settings.prompt->0)
            &&& body["model"@] == match settings.model {
                Some(model) => model.encode_spec(),
                None => ImageModel::DallE3.encode_spec(),
            }
            &&& body.contains_key("n"@) <==> settings.n is Some
            &&& body.contains_key("quality"@) <==> settings.quality is Some
            &&& body.contains_key("response_format"@) <==> settings.response_format is Some
            &&& body.contains_key("size"@) <==> settings.size is Some
            &&& body.contains_key("style"@) <==> settings.style is Some
            &&& body.contains_key("user"@) <==> settings.user is Some
        }),
{
    lemma_body_keys(settings.build()->Ok_0);
}

} // verus!
