//! The request and response payloads that OCR provider configurations
//! produce.

use vstd::prelude::*;

use crate::outside::json::{
    json_array, json_array_value, json_map_extend, json_map_insert, json_map_new, json_object,
    json_object_contents, json_object_value, json_option, json_option_value, json_string,
    json_string_value,
};

verus! {

/// The body (and optional files) of a provider OCR request.
#[derive(Debug)]
pub struct OcrRequestData {
    pub data: serde_json::Value,
    pub files: Option<serde_json::Value>,
}

/// A provider OCR response in the common shape.
#[derive(Debug)]
pub struct OcrResponseData {
    pub pages: Vec<serde_json::Value>,
    pub model: String,
    pub document_annotation: Option<serde_json::Value>,
    pub usage_info: Option<serde_json::Value>,
    pub object: String,
    pub extra_fields: serde_json::Map<String, serde_json::Value>,
    pub provider_native_response: Option<serde_json::Value>,
}

/// The fields every OCR response object has.
pub open spec fn base_response_object(response: OcrResponseData) -> Map<
    Seq<char>,
    serde_json::Value,
> {
    Map::<Seq<char>, serde_json::Value>::empty().insert(
        "pages"@,
        json_array_value(response.pages@),
    ).insert("model"@, json_string_value(response.model@)).insert(
        "document_annotation"@,
        json_option_value(response.document_annotation),
    ).insert("usage_info"@, json_option_value(response.usage_info)).insert(
        "object"@,
        json_string_value(response.object@),
    )
}

/// The JSON object a response becomes: the common fields, then the extra
/// fields (which win on a shared key), then the provider's native response
/// when there is one (which wins over everything).
pub open spec fn response_object(response: OcrResponseData) -> Map<Seq<char>, serde_json::Value> {
    let merged = base_response_object(response).union_prefer_right(
        json_object_contents(response.extra_fields),
    );
    match response.provider_native_response {
        Some(native) => merged.insert("provider_native_response"@, native),
        None => merged,
    }
}

impl OcrResponseData {
    /// The response as one JSON object.
    pub fn into_json(self) -> (value: serde_json::Value)
        ensures
            value == json_object_value(response_object(self)),
    {
        let ghost response = self;
        let mut object = json_map_new();
        json_map_insert(&mut object, "pages".to_owned(), json_array(self.pages));
        json_map_insert(&mut object, "model".to_owned(), json_string(self.model));
        json_map_insert(
            &mut object,
            "document_annotation".to_owned(),
            json_option(self.document_annotation),
        );
        json_map_insert(&mut object, "usage_info".to_owned(), json_option(self.usage_info));
        json_map_insert(&mut object, "object".to_owned(), json_string(self.object));
        assert(json_object_contents(object) =~= base_response_object(response));
        json_map_extend(&mut object, self.extra_fields);
        if let Some(native_response) = self.provider_native_response {
            json_map_insert(&mut object, "provider_native_response".to_owned(), native_response);
        }
        assert(json_object_contents(object) =~= response_object(response));
        json_object(object)
    }
}

/// Each common field of a response appears in its JSON object as given,
/// unless an extra field of the same name replaces it: all the pages in
/// order, the model, the annotation and usage (or `null`) and the object
/// kind.
pub proof fn law_common_fields_are_kept(response: OcrResponseData)
    ensures
        !json_object_contents(response.extra_fields).contains_key("pages"@) ==> response_object(
            response,
        )["pages"@] == json_array_value(response.pages@),
        !json_object_contents(response.extra_fields).contains_key("model"@) ==> response_object(
            response,
        )["model"@] == json_string_value(response.model@),
        !json_object_contents(response.extra_fields).contains_key("document_annotation"@)
            ==> response_object(response)["document_annotation"@] == json_option_value(
            response.document_annotation,
        ),
        !json_object_contents(response.extra_fields).contains_key("usage_info"@)
            ==> response_object(response)["usage_info"@] == json_option_value(
            response.usage_info,
        ),
        !json_object_contents(response.extra_fields).contains_key("object"@) ==> response_object(
            response,
        )["object"@] == json_string_value(response.object@),
        forall|key: Seq<char>|
            #[trigger] base_response_object(response).contains_key(key) ==> response_object(
                response,
            ).contains_key(key),
{
    reveal_strlit("provider_native_response");
    reveal_strlit("pages");
    reveal_strlit("model");
    reveal_strlit("document_annotation");
    reveal_strlit("usage_info");
    reveal_strlit("object");
    let native = "provider_native_response"@;
    assert(native.len() == 24 && "pages"@.len() == 5 && "model"@.len() == 5);
    assert("object"@.len() == 6 && "usage_info"@.len() == 10);
    assert("document_annotation"@.len() == 19);
    assert("pages"@[0] != "model"@[0]);
}

/// The extra fields of a response never hide its native response, and a
/// response without one keeps every extra field as given.
pub proof fn law_response_object_layers(response: OcrResponseData)
    ensures
        response.provider_native_response matches Some(native) ==> response_object(response)["provider_native_response"@]
            == native,
        response.provider_native_response is None ==> forall|key: Seq<char>|
            #[trigger] json_object_contents(response.extra_fields).contains_key(key)
                ==> response_object(response)[key] == json_object_contents(
                response.extra_fields,
            )[key],
        forall|key: Seq<char>|
            #[trigger] response_object(response).contains_key(key) <==> (
            base_response_object(response).contains_key(key) || json_object_contents(
                response.extra_fields,
            ).contains_key(key) || (key == "provider_native_response"@
                && response.provider_native_response is Some)),
{
}

} // verus!
