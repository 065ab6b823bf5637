//! The response to an image request, and how it is decoded from JSON.

use crate::error::CodecError;
use crate::json::{
    as_items, as_members, as_text, as_unsigned, is_null, json_document, json_items, json_of,
    member, members_of, read_document, Json, JsonNumber, Members,
};
use vstd::prelude::*;

verus! {

/// The content of an [`ImageObject`].
pub struct ImageObjectView {
    pub b64_json: Option<Seq<char>>,
    pub url: Option<Seq<char>>,
    pub revised_prompt: Seq<char>,
}

/// The content of a [`CreateImageResponse`].
pub struct CreateImageResponseView {
    pub created: u64,
    pub data: Seq<ImageObjectView>,
}

/// The string under `key`, which must be there.
pub open spec fn required_text_spec(members: Members, key: Seq<char>) -> Result<
    Seq<char>,
    CodecError,
> {
    if !members.contains_key(key) {
        Err(CodecError::MissingField)
    } else {
        match members[key] {
            Json::String(text) => Ok(text),
            _ => Err(CodecError::WrongType),
        }
    }
}

/// The string under `key`, or `None` where the key is absent or holds
/// `null`.
pub open spec fn optional_text_spec(members: Members, key: Seq<char>) -> Result<
    Option<Seq<char>>,
    CodecError,
> {
    if !members.contains_key(key) {
        Ok(None)
    } else {
        match members[key] {
            Json::Null => Ok(None),
            Json::String(text) => Ok(Some(text)),
            _ => Err(CodecError::WrongType),
        }
    }
}

/// The non-negative integer under `key`, which must be there.
pub open spec fn required_unsigned_spec(members: Members, key: Seq<char>) -> Result<
    u64,
    CodecError,
> {
    if !members.contains_key(key) {
        Err(CodecError::MissingField)
    } else {
        match members[key] {
            Json::Number(JsonNumber::Unsigned(n)) => Ok(n),
            _ => Err(CodecError::WrongType),
        }
    }
}

/// The items of the array under `key`, which must be there.
pub open spec fn required_items_spec(members: Members, key: Seq<char>) -> Result<
    Seq<Json>,
    CodecError,
> {
    if !members.contains_key(key) {
        Err(CodecError::MissingField)
    } else {
        match members[key] {
            Json::Array(items) => Ok(items),
            _ => Err(CodecError::WrongType),
        }
    }
}

impl ImageObjectView {
    /// The image that a JSON value describes. The value must be an object;
    /// `b64_json` and `url` may be absent, `revised_prompt` may not. Keys
    /// that the library does not know are passed over. Where several members
    /// are at fault, the error is that of the first in the order `b64_json`,
    /// `url`, `revised_prompt`.
    pub open spec fn decode(json: Json) -> Result<ImageObjectView, CodecError> {
        match json {
            Json::Object(members) => match optional_text_spec(members, "b64_json"@) {
                Err(e) => Err(e),
                Ok(b64_json) => match optional_text_spec(members, "url"@) {
                    Err(e) => Err(e),
                    Ok(url) => match required_text_spec(members, "revised_prompt"@) {
                        Err(e) => Err(e),
                        Ok(revised_prompt) => Ok(ImageObjectView { b64_json, url, revised_prompt }),
                    },
                },
            },
            _ => Err(CodecError::NotAnObject),
        }
    }

    /// The images that a sequence of JSON values describes, in order. The
    /// error, if any, is that of the first value that describes none.
    pub open spec fn decode_all(items: Seq<Json>) -> Result<Seq<ImageObjectView>, CodecError>
        decreases items.len(),
    {
        if items.len() == 0 {
            Ok(Seq::empty())
        } else {
            match ImageObjectView::decode_all(items.drop_last()) {
                Err(e) => Err(e),
                Ok(images) => match ImageObjectView::decode(items.last()) {
                    Err(e) => Err(e),
                    Ok(image) => Ok(images.push(image)),
                },
            }
        }
    }
}

impl CreateImageResponseView {
    /// The response that a JSON value describes. The value must be an object
    /// with a non-negative integer under `created` and an array of images
    /// under `data`; `created` is looked at first.
    pub open spec fn decode(json: Json) -> Result<CreateImageResponseView, CodecError> {
        match json {
            Json::Object(members) => match required_unsigned_spec(members, "created"@) {
                Err(e) => Err(e),
                Ok(created) => match required_items_spec(members, "data"@) {
                    Err(e) => Err(e),
                    Ok(items) => match ImageObjectView::decode_all(items) {
                        Err(e) => Err(e),
                        Ok(data) => Ok(CreateImageResponseView { created, data }),
                    },
                },
            },
            _ => Err(CodecError::NotAnObject),
        }
    }

    /// The response that the bytes of a JSON document describe.
    pub open spec fn parse(bytes: Seq<u8>) -> Result<CreateImageResponseView, CodecError> {
        match json_document(bytes) {
            Some(json) => CreateImageResponseView::decode(json),
            None => Err(CodecError::Syntax),
        }
    }
}

/// One generated image.
#[derive(Debug)]
pub struct ImageObject {
    pub b64_json: Option<String>,
    pub url: Option<String>,
    pub revised_prompt: String,
}

/// The response to an image request.
#[derive(Debug)]
pub struct CreateImageResponse {
    pub created: u64,
    pub data: Vec<ImageObject>,
}

impl View for ImageObject {
    type V = ImageObjectView;

    open spec fn view(&self) -> ImageObjectView {
        ImageObjectView {
            b64_json: match self.b64_json {
                Some(text) => Some(text@),
                None => None,
            },
            url: match self.url {
                Some(text) => Some(text@),
                None => None,
            },
            revised_prompt: self.revised_prompt@,
        }
    }
}

impl View for CreateImageResponse {
    type V = CreateImageResponseView;

    open spec fn view(&self) -> CreateImageResponseView {
        CreateImageResponseView {
            created: self.created,
            data: Seq::new(self.data@.len(), |i: int| self.data@[i]@),
        }
    }
}

impl Clone for ImageObject {
    fn clone(&self) -> (copy: ImageObject)
        ensures
            copy@ == self@,
    {
        ImageObject {
            b64_json: match &self.b64_json {
                Some(text) => Some(text.clone()),
                None => None,
            },
            url: match &self.url {
                Some(text) => Some(text.clone()),
                None => None,
            },
            revised_prompt: self.revised_prompt.clone(),
        }
    }
}

impl Clone for CreateImageResponse {
    fn clone(&self) -> (copy: CreateImageResponse)
        ensures
            copy@ == self@,
    {
        let mut data: Vec<ImageObject> = Vec::new();
        let mut i: usize = 0;
        while i < self.data.len()
            invariant
                i <= self.data.len(),
                data@.len() == i,
                forall|k: int| 0 <= k < i ==> data@[k]@ == self.data@[k]@,
            decreases self.data.len() - i,
        {
            data.push(self.data[i].clone());
            i += 1;
        }
        let copy = CreateImageResponse { created: self.created, data };
        proof {
            assert(copy@.data =~= self@.data);
        }
        copy
    }
}

/// Reads the string under `key`, which must be there.
pub fn required_text(members: &serde_json::Map<String, serde_json::Value>, key: &str) -> (text:
    Result<String, CodecError>)
    ensures
        match text {
            Ok(s) => required_text_spec(members_of(*members), key@) == Ok::<Seq<char>, CodecError>(
                s@,
            ),
            Err(e) => required_text_spec(members_of(*members), key@) == Err::<
                Seq<char>,
                CodecError,
            >(e),
        },
{
    match member(members, key) {
        None => Err(CodecError::MissingField),
        Some(value) => match as_text(value) {
            Some(s) => Ok(s.to_owned()),
            None => Err(CodecError::WrongType),
        },
    }
}

/// Reads the string under `key`, if the key is there and does not hold
/// `null`.
pub fn optional_text(members: &serde_json::Map<String, serde_json::Value>, key: &str) -> (text:
    Result<Option<String>, CodecError>)
    ensures
        match text {
            Ok(Some(s)) => optional_text_spec(members_of(*members), key@) == Ok::<
                Option<Seq<char>>,
                CodecError,
            >(Some(s@)),
            Ok(None) => optional_text_spec(members_of(*members), key@) == Ok::<
                Option<Seq<char>>,
                CodecError,
            >(None),
            Err(e) => optional_text_spec(members_of(*members), key@) == Err::<
                Option<Seq<char>>,
                CodecError,
            >(e),
        },
{
    match member(members, key) {
        None => Ok(None),
        Some(value) => if is_null(value) {
            Ok(None)
        } else {
            match as_text(value) {
                Some(s) => Ok(Some(s.to_owned())),
                None => Err(CodecError::WrongType),
            }
        },
    }
}

/// Reads the non-negative integer under `key`, which must be there.
pub fn required_unsigned(members: &serde_json::Map<String, serde_json::Value>, key: &str) -> (n:
    Result<u64, CodecError>)
    ensures
        n == required_unsigned_spec(members_of(*members), key@),
{
    match member(members, key) {
        None => Err(CodecError::MissingField),
        Some(value) => match as_unsigned(value) {
            Some(n) => Ok(n),
            None => Err(CodecError::WrongType),
        },
    }
}

/// Reads the array under `key`, which must be there.
pub fn required_items<'a>(
    members: &'a serde_json::Map<String, serde_json::Value>,
    key: &str,
) -> (items: Result<&'a Vec<serde_json::Value>, CodecError>)
    ensures
        match items {
            Ok(values) => required_items_spec(members_of(*members), key@) == Ok::<
                Seq<Json>,
                CodecError,
            >(json_items(values@)),
            Err(e) => required_items_spec(members_of(*members), key@) == Err::<
                Seq<Json>,
                CodecError,
            >(e),
        },
{
    match member(members, key) {
        None => Err(CodecError::MissingField),
        Some(value) => match as_items(value) {
            Some(values) => Ok(values),
            None => Err(CodecError::WrongType),
        },
    }
}

impl ImageObject {
    /// Decodes one image from a JSON value.
    pub fn from_value(value: &serde_json::Value) -> (decoded: Result<ImageObject, CodecError>)
        ensures
            match decoded {
                Ok(image) => ImageObjectView::decode(json_of(*value)) == Ok::<
                    ImageObjectView,
                    CodecError,
                >(image@),
                Err(e) => ImageObjectView::decode(json_of(*value)) == Err::<
                    ImageObjectView,
                    CodecError,
                >(e),
            },
    {
        let members = match as_members(value) {
            Some(members) => members,
            None => { return Err(CodecError::NotAnObject); },
        };
        let b64_json = match optional_text(members, "b64_json") {
            Ok(text) => text,
            Err(e) => { return Err(e); },
        };
        let url = match optional_text(members, "url") {
            Ok(text) => text,
            Err(e) => { return Err(e); },
        };
        let revised_prompt = match required_text(members, "revised_prompt") {
            Ok(text) => text,
            Err(e) => { return Err(e); },
        };
        Ok(ImageObject { b64_json, url, revised_prompt })
    }
}

impl CreateImageResponse {
    /// Decodes a response from a JSON value.
    #[verifier::loop_isolation(false)]
    pub fn from_value(value: &serde_json::Value) -> (decoded: Result<
        CreateImageResponse,
        CodecError,
    >)
        ensures
            match decoded {
                Ok(response) => CreateImageResponseView::decode(json_of(*value)) == Ok::<
                    CreateImageResponseView,
                    CodecError,
                >(response@),
                Err(e) => CreateImageResponseView::decode(json_of(*value)) == Err::<
                    CreateImageResponseView,
                    CodecError,
                >(e),
            },
    {
        let members = match as_members(value) {
            Some(members) => members,
            None => { return Err(CodecError::NotAnObject); },
        };
        let created = match required_unsigned(members, "created") {
            Ok(n) => n,
            Err(e) => { return Err(e); },
        };
        let items = match required_items(members, "data") {
            Ok(items) => items,
            Err(e) => { return Err(e); },
        };
        let ghost jsons = json_items(items@);
        let mut data: Vec<ImageObject> = Vec::new();
        let mut i: usize = 0;
        proof {
            assert(jsons.take(0) =~= Seq::empty());
            assert(Seq::new(data@.len(), |k: int| data@[k]@) =~= Seq::empty());
        }
        while i < items.len()
            invariant
                i <= items.len(),
                data@.len() == i,
                jsons == json_items(items@),
                ImageObjectView::decode_all(jsons.take(i as int)) == Ok::<
                    Seq<ImageObjectView>,
                    CodecError,
                >(Seq::new(data@.len(), |k: int| data@[k]@)),
            decreases items.len() - i,
        {
            let ghost before = Seq::new(data@.len(), |k: int| data@[k]@);
            proof {
                assert(jsons.take(i + 1).drop_last() =~= jsons.take(i as int));
                assert(jsons.take(i + 1).last() == json_of(items@[i as int]));
            }
            match ImageObject::from_value(&items[i]) {
                Ok(image) => {
                    data.push(image);
                    proof {
                        assert(Seq::new(data@.len(), |k: int| data@[k]@) =~= before.push(image@));
                    }
                },
                Err(e) => {
                    proof {
                        assert(ImageObjectView::decode_all(jsons.take(i + 1)) is Err);
                        lemma_decode_all_fails(jsons, i + 1);
                    }
                    return Err(e);
                },
            }
            i += 1;
        }
        proof {
            assert(jsons.take(i as int) =~= jsons);
        }
        Ok(CreateImageResponse { created, data })
    }

    /// Decodes a response from the bytes of a JSON document.
    pub fn parse(bytes: &[u8]) -> (parsed: Result<CreateImageResponse, CodecError>)
        ensures
            match parsed {
                Ok(response) => CreateImageResponseView::parse(bytes@) == Ok::<
                    CreateImageResponseView,
                    CodecError,
                >(response@),
                Err(e) => CreateImageResponseView::parse(bytes@) == Err::<
                    CreateImageResponseView,
                    CodecError,
                >(e),
            },
    {
        match read_document(bytes) {
            Ok(value) => CreateImageResponse::from_value(&value),
            Err(_) => Err(CodecError::Syntax),
        }
    }
}

/// Where a prefix of a sequence fails to decode, the sequence fails with the
/// same error.
pub proof fn lemma_decode_all_fails(items: Seq<Json>, n: int)
    requires
        0 <= n <= items.len(),
        ImageObjectView::decode_all(items.take(n)) is Err,
    ensures
        ImageObjectView::decode_all(items) == ImageObjectView::decode_all(items.take(n)),
    decreases items.len() - n,
{
    if n < items.len() {
        assert(items.take(n + 1).drop_last() =~= items.take(n));
        lemma_decode_all_fails(items, n + 1);
    } else {
        assert(items.take(n) =~= items);
    }
}

/// A sequence decodes exactly when each of its values does, and then image by
/// image, in order. Where it does not, the error is that of the first value
/// that fails.
pub proof fn lemma_decode_all_in_order(items: Seq<Json>)
    ensures
        match ImageObjectView::decode_all(items) {
            Ok(images) => {
                &&& images.len() == items.len()
                &&& forall|i: int|
                    0 <= i < items.len() ==> ImageObjectView::decode(#[trigger] items[i]) == Ok::<
                        ImageObjectView,
                        CodecError,
                    >(images[i])
            },
            Err(e) => exists|i: int|
                {
                    &&& 0 <= i < items.len()
                    &&& ImageObjectView::decode(#[trigger] items[i]) == Err::<
                        ImageObjectView,
                        CodecError,
                    >(e)
                    &&& forall|j: int|
                        0 <= j < i ==> ImageObjectView::decode(#[trigger] items[j]) is Ok
                },
        },
    decreases items.len(),
{
    if items.len() > 0 {
        let front = items.drop_last();
        lemma_decode_all_in_order(front);
        match ImageObjectView::decode_all(front) {
            Ok(images) => {
                match ImageObjectView::decode(items.last()) {
                    Ok(image) => {
                        assert forall|i: int| 0 <= i < items.len() implies ImageObjectView::decode(
                            #[trigger] items[i],
                        ) == Ok::<ImageObjectView, CodecError>(images.push(image)[i]) by {
                            if i < front.len() {
                                assert(items[i] == front[i]);
                            }
                        }
                    },
                    Err(e) => {
                        let last = items.len() - 1;
                        assert forall|j: int| 0 <= j < last implies ImageObjectView::decode(
                            #[trigger] items[j],
                        ) is Ok by {
                            assert(items[j] == front[j]);
                        }
                        assert(ImageObjectView::decode(items[last]) == Err::<
                            ImageObjectView,
                            CodecError,
                        >(e));
                    },
                }
            },
            Err(e) => {
                let i = choose|i: int|
                    {
                        &&& 0 <= i < front.len()
                        &&& ImageObjectView::decode(#[trigger] front[i]) == Err::<
                            ImageObjectView,
                            CodecError,
                        >(e)
                        &&& forall|j: int|
                            0 <= j < i ==> ImageObjectView::decode(#[trigger] front[j]) is Ok
                    };
                assert(items[i] == front[i]);
                assert forall|j: int| 0 <= j < i implies ImageObjectView::decode(
                    #[trigger] items[j],
                ) is Ok by {
                    assert(items[j] == front[j]);
                }
            },
        }
    }
}

} // verus!
