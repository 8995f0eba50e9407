//! What an OCR provider configuration describes, and the provider-neutral
//! parts of turning a request into a provider request.

use vstd::prelude::*;

use crate::auth::AuthHeaderKind;
use crate::error::Error;
use crate::http_utils::{has_header, pairs_view, spec_has_header};
use crate::ocr::auth::optional_text;
use crate::ocr::types::{OcrRequestData, OcrResponseData};
use crate::text::str_equal;
use crate::outside::json::{
    entry_keys, json_map_entries, json_map_insert, json_map_new, json_object_contents,
};

verus! {

/// How a provider answers an OCR request.
#[derive(Clone, Copy, Debug, PartialEq, Eq, Structural)]
pub enum OcrResponseHandling {
    /// The response body is the result.
    Json,
    /// The provider accepts the job (202) and the result is polled at the
    /// returned operation location.
    AzureDocumentIntelligencePoll,
}

/// The texts of a list of names.
pub open spec fn names_view(names: Seq<&'static str>) -> Seq<Seq<char>> {
    names.map_values(|name: &'static str| name@)
}

/// The entries of `params` whose key is among `supported`.
pub open spec fn selected_params(
    supported: Seq<Seq<char>>,
    params: Map<Seq<char>, serde_json::Value>,
) -> Map<Seq<char>, serde_json::Value> {
    params.restrict(params.dom().filter(|key: Seq<char>| supported.contains(key)))
}

fn name_listed(names: &[&'static str], name: &str) -> (listed: bool)
    ensures
        listed == names_view(names@).contains(name@),
{
    let mut i: usize = 0;
    while i < names.len()
        invariant
            i <= names@.len(),
            forall|j: int| 0 <= j < i ==> #[trigger] names_view(names@)[j] != name@,
        decreases names@.len() - i,
    {
        assert(names_view(names@)[i as int] == names@[i as int]@);
        if str_equal(names[i], name) {
            assert(names_view(names@)[i as int] == name@);
            return true;
        }
        i = i + 1;
    }
    proof {
        assert forall|j: int| 0 <= j < names_view(names@).len() implies names_view(names@)[j]
            != name@ by {}
    }
    false
}

/// Keeps the parameters a provider supports, with their values.
pub fn select_ocr_params(
    supported: &[&'static str],
    non_default_params: &serde_json::Map<String, serde_json::Value>,
) -> (mapped: serde_json::Map<String, serde_json::Value>)
    ensures
        json_object_contents(mapped) == selected_params(
            names_view(supported@),
            json_object_contents(*non_default_params),
        ),
{
    let ghost params = json_object_contents(*non_default_params);
    let ghost wanted = names_view(supported@);
    let mut entries = json_map_entries(non_default_params);
    let ghost all = entries@;
    let mut mapped = json_map_new();
    while entries.len() > 0
        invariant
            wanted == names_view(supported@),
            entries@.len() <= all.len(),
            entries@ == all.subrange(0, entries@.len() as int),
            entry_keys(all).to_set() == params.dom(),
            entry_keys(all).no_duplicates(),
            forall|j: int|
                0 <= j < all.len() ==> params.contains_key(#[trigger] all[j].0@)
                    && params[all[j].0@] == all[j].1,
            json_object_contents(mapped) == params.restrict(
                Set::new(
                    |key: Seq<char>|
                        wanted.contains(key) && entry_keys(all).subrange(
                            entries@.len() as int,
                            all.len() as int,
                        ).contains(key),
                ),
            ),
        decreases entries@.len(),
    {
        let ghost n = entries@.len() as int;
        let ghost before = json_object_contents(mapped);
        let (key, value) = entries.pop().unwrap();
        let ghost k0 = key@;
        let ghost v0 = value;
        assert(all[n - 1] == (key, value));
        assert(entry_keys(all)[n - 1] == k0);
        let listed = name_listed(supported, key.as_str());
        if listed {
            json_map_insert(&mut mapped, key, value);
        }
        proof {
            let done = entry_keys(all).subrange(n - 1, all.len() as int);
            let before_done = entry_keys(all).subrange(n, all.len() as int);
            assert forall|k: Seq<char>| done.contains(k) <==> (k == k0 || before_done.contains(k))
                by {
                if done.contains(k) && k != k0 {
                    let j = choose|j: int| 0 <= j < done.len() && done[j] == k;
                    assert(before_done[j - 1] == k);
                }
                if before_done.contains(k) {
                    let j = choose|j: int| 0 <= j < before_done.len() && before_done[j] == k;
                    assert(done[j + 1] == k);
                }
                if k == k0 {
                    assert(done[0] == k);
                }
            }
            assert(params.contains_key(k0) && params[k0] == v0);
            let target = params.restrict(
                Set::new(|k: Seq<char>| wanted.contains(k) && done.contains(k)),
            );
            let old_target = params.restrict(
                Set::new(|k: Seq<char>| wanted.contains(k) && before_done.contains(k)),
            );
            assert(before == old_target);
            assert(listed == wanted.contains(k0));
            assert forall|k: Seq<char>| #[trigger] target.contains_key(k) <==> (
            old_target.contains_key(k) || (listed && k == k0)) by {}
            if listed {
                assert(json_object_contents(mapped) == before.insert(k0, v0));
            } else {
                assert(json_object_contents(mapped) == before);
            }
            assert(json_object_contents(mapped) =~= target);
        }
    }
    proof {
        assert(entry_keys(all).subrange(0, all.len() as int) == entry_keys(all));
        assert forall|key: Seq<char>| params.contains_key(key) implies entry_keys(all).contains(
            key,
        ) by {
            assert(entry_keys(all).to_set().contains(key));
        }
    }
    assert(json_object_contents(mapped) =~= selected_params(wanted, params));
    mapped
}

/// Mapping keeps exactly the parameters that are both given and
/// supported, each with the value it was given.
pub proof fn law_selected_params_are_the_supported_ones(
    supported: Seq<Seq<char>>,
    params: Map<Seq<char>, serde_json::Value>,
)
    ensures
        forall|key: Seq<char>|
            #[trigger] selected_params(supported, params).contains_key(key) <==> (
            params.contains_key(key) && supported.contains(key)),
        forall|key: Seq<char>|
            #[trigger] selected_params(supported, params).contains_key(key)
                ==> selected_params(supported, params)[key] == params[key],
{
}

/// The header that carries a key, given how the provider expects it.
pub open spec fn auth_header_pair(kind: AuthHeaderKind, api_key: Seq<char>) -> (
    Seq<char>,
    Seq<char>,
) {
    match kind {
        AuthHeaderKind::Bearer => ("Authorization"@, "Bearer "@ + api_key),
        AuthHeaderKind::Header(name) => (name@, api_key),
    }
}

/// The headers with the credential header first and the given headers
/// after it, in their order.
#[verifier::rlimit(40)]
pub fn with_auth_header(
    kind: AuthHeaderKind,
    headers: Vec<(String, String)>,
    api_key: String,
) -> (authorized: Vec<(String, String)>)
    ensures
        pairs_view(authorized@) == seq![auth_header_pair(kind, api_key@)] + pairs_view(headers@),
{
    let auth_header = match kind {
        AuthHeaderKind::Bearer => (
            "Authorization".to_owned(),
            "Bearer ".to_owned().concat(api_key.as_str()),
        ),
        AuthHeaderKind::Header(name) => (name.to_owned(), api_key),
    };
    let mut authorized = Vec::new();
    authorized.push(auth_header);
    let mut headers = headers;
    let ghost initial = headers@;
    let mut rest: Vec<(String, String)> = Vec::new();
    while headers.len() > 0
        invariant
            headers@ + rest@.reverse() == initial,
        decreases headers@.len(),
    {
        let last = headers.pop().unwrap();
        rest.push(last);
        assert(headers@ + rest@.reverse() =~= initial);
    }
    assert(rest@.reverse() == initial);
    while rest.len() > 0
        invariant
            authorized@.len() >= 1,
            pairs_view(authorized@.subrange(0, 1)) == seq![auth_header_pair(kind, api_key@)],
            authorized@.subrange(1, authorized@.len() as int) + rest@.reverse() == initial,
        decreases rest@.len(),
    {
        let next = rest.pop().unwrap();
        authorized.push(next);
        assert(authorized@.subrange(0, 1) =~= old_prefix(authorized@));
        assert(authorized@.subrange(1, authorized@.len() as int) + rest@.reverse() =~= initial);
    }
    assert(authorized@ =~= authorized@.subrange(0, 1) + initial);
    assert(pairs_view(authorized@) =~= seq![auth_header_pair(kind, api_key@)] + pairs_view(
        initial,
    ));
    authorized
}

/// Keeps headers that already carry the credential header of `kind`
/// (whatever the case of its name); otherwise asks `resolve` for the key
/// and puts the credential header first, or returns the resolver's error.
pub fn apply_credential<F: FnOnce() -> Result<String, Error>>(
    kind: AuthHeaderKind,
    headers: Vec<(String, String)>,
    resolve: F,
) -> (authorized: Result<Vec<(String, String)>, Error>)
    requires
        !spec_has_header(pairs_view(headers@), kind.spec_header_name()) ==> resolve.requires(()),
    ensures
        spec_has_header(pairs_view(headers@), kind.spec_header_name()) ==> authorized == Ok::<
            Vec<(String, String)>,
            Error,
        >(headers),
        !spec_has_header(pairs_view(headers@), kind.spec_header_name()) ==> exists|
            resolved: Result<String, Error>,
        |
            #[trigger] resolve.ensures((), resolved) && match resolved {
                Ok(key) => authorized matches Ok(v) && pairs_view(v@) == seq![
                    auth_header_pair(kind, key@),
                ] + pairs_view(headers@),
                Err(e) => authorized == Err::<Vec<(String, String)>, Error>(e),
            },
{
    if has_header(headers.as_slice(), kind.header_name()) {
        return Ok(headers);
    }
    let resolved = resolve();
    match resolved {
        Ok(api_key) => Ok(with_auth_header(kind, headers, api_key)),
        Err(error) => Err(error),
    }
}

spec fn old_prefix(v: Seq<(String, String)>) -> Seq<(String, String)> {
    v.subrange(0, 1)
}

/// A provider's OCR configuration: which parameters it takes, how it is
/// authenticated, and how requests and responses are transformed.
///
/// Each method's result is tied to a spec function that a verified
/// provider defines. Where every provider of the same kind answers alike
/// (a bearer token, a JSON body, no data URI, the plain transformation),
/// the spec function's own definition says so, and a provider that keeps
/// it must answer that way.
pub trait OcrProviderConfig {
    /// The OCR parameters the provider accepts.
    open spec fn spec_supported_ocr_params(&self) -> Seq<&'static str> {
        arbitrary()
    }

    /// The OCR parameters the provider accepts.
    fn supported_ocr_params(&self) -> (names: &'static [&'static str])
        ensures
            names@ == self.spec_supported_ocr_params(),
    ;

    /// The given parameters that the provider supports, with their values.
    fn map_ocr_params(
        &self,
        non_default_params: &serde_json::Map<String, serde_json::Value>,
    ) -> (mapped: serde_json::Map<String, serde_json::Value>)
        default_ensures
            json_object_contents(mapped) == selected_params(
                names_view(self.spec_supported_ocr_params()),
                json_object_contents(*non_default_params),
            ),
    {
        select_ocr_params(self.supported_ocr_params(), non_default_params)
    }

    fn transform_ocr_request(
        &self,
        model: &str,
        document: serde_json::Value,
        optional_params: serde_json::Map<String, serde_json::Value>,
    ) -> Result<OcrRequestData, Error>;

    /// What the provider's transformation makes of a response body for a
    /// model.
    open spec fn ocr_response(&self, model: Seq<char>, response_json: serde_json::Value) -> Result<
        OcrResponseData,
        Error,
    > {
        arbitrary()
    }

    /// Transforms a provider's response body into the common shape.
    fn transform_ocr_response(&self, model: &str, response_json: serde_json::Value) -> (response:
        Result<OcrResponseData, Error>)
        ensures
            response == self.ocr_response(model@, response_json),
    ;

    /// What the provider makes of a response body given the call's
    /// parameters: by definition the plain transformation, for providers
    /// that do not need the parameters.
    open spec fn ocr_response_with_params(
        &self,
        model: Seq<char>,
        response_json: serde_json::Value,
        optional_params: serde_json::Map<String, serde_json::Value>,
    ) -> Result<OcrResponseData, Error> {
        self.ocr_response(model, response_json)
    }

    /// Transforms a response, with the call's parameters at hand.
    fn transform_ocr_response_with_params(
        &self,
        model: &str,
        response_json: serde_json::Value,
        optional_params: &serde_json::Map<String, serde_json::Value>,
    ) -> (response: Result<OcrResponseData, Error>)
        ensures
            response == self.ocr_response_with_params(model@, response_json, *optional_params),
    ;

    fn complete_url<E: Fn(&str) -> Option<String>>(
        &self,
        api_base: Option<&str>,
        model: &str,
        optional_params: &serde_json::Map<String, serde_json::Value>,
        env_lookup: &E,
    ) -> Result<String, Error>;

    /// The key the provider resolves from an explicit key and the
    /// environment.
    open spec fn resolved_api_key<E: Fn(&str) -> Option<String>>(
        &self,
        api_key: Option<Seq<char>>,
        env_lookup: E,
    ) -> Result<String, Error> {
        arbitrary()
    }

    /// Resolves the API key from an explicit key and the environment.
    fn resolve_api_key<E: Fn(&str) -> Option<String>>(
        &self,
        api_key: Option<&str>,
        env_lookup: &E,
    ) -> (key: Result<String, Error>)
        ensures
            key == self.resolved_api_key(optional_text(api_key), *env_lookup),
    ;

    /// Returns the headers unchanged when they already carry the provider's
    /// credential header (whatever the case of its name); otherwise
    /// resolves the key and puts the credential header first, or returns
    /// the resolver's error.
    fn validate_environment<E: Fn(&str) -> Option<String>>(
        &self,
        headers: Vec<(String, String)>,
        api_key: Option<&str>,
        env_lookup: &E,
    ) -> (authorized: Result<Vec<(String, String)>, Error>)
        default_ensures
            spec_has_header(pairs_view(headers@), self.spec_auth_header_kind().spec_header_name())
                ==> authorized == Ok::<Vec<(String, String)>, Error>(headers),
            !spec_has_header(pairs_view(headers@), self.spec_auth_header_kind().spec_header_name())
                ==> match self.resolved_api_key(optional_text(api_key), *env_lookup) {
                Ok(key) => authorized matches Ok(v) && pairs_view(v@) == seq![
                    auth_header_pair(self.spec_auth_header_kind(), key@),
                ] + pairs_view(headers@),
                Err(e) => authorized == Err::<Vec<(String, String)>, Error>(e),
            },
    {
        let strategy = self.auth_header_kind();
        let resolve = || -> (key: Result<String, Error>)
            ensures
                key == self.resolved_api_key(optional_text(api_key), *env_lookup),
            { self.resolve_api_key(api_key, env_lookup) };
        apply_credential(strategy, headers, resolve)
    }

    /// How the provider expects its credential: by definition as a bearer
    /// token in `Authorization`, for providers that keep the definition.
    open spec fn spec_auth_header_kind(&self) -> AuthHeaderKind {
        AuthHeaderKind::Bearer
    }

    /// How the provider expects its credential.
    fn auth_header_kind(&self) -> (kind: AuthHeaderKind)
        ensures
            kind == self.spec_auth_header_kind(),
    ;

    /// Whether the document must be sent inline as a data URI: by
    /// definition not, for providers that keep the definition.
    open spec fn spec_requires_data_uri_document(&self) -> bool {
        false
    }

    /// Whether the document must be sent inline as a data URI.
    fn requires_data_uri_document(&self) -> (required: bool)
        ensures
            required == self.spec_requires_data_uri_document(),
    ;

    /// How the provider answers: by definition with the result as the
    /// body, for providers that keep the definition.
    open spec fn spec_response_handling(&self) -> OcrResponseHandling {
        OcrResponseHandling::Json
    }

    /// How the provider answers.
    fn response_handling(&self) -> (handling: OcrResponseHandling)
        ensures
            handling == self.spec_response_handling(),
    ;
}

} // verus!
