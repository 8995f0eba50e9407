//! Choosing the credential for an OCR provider call: a credential the
//! caller forwarded in its own headers, then an explicit API key, then the
//! host's token provider.

use vstd::prelude::*;

use crate::auth::{AuthError, AuthErrorKind, AuthErrorView, AuthHeaderKind, ReplayPolicy};
use crate::error::{Error, ErrorCode, ErrorView, prepare_view};
use crate::ocr::transformation::{OcrProviderConfig, OcrResponseHandling};
use crate::http_utils::pairs_view;
use crate::outside::http::{
    header_map_insert, header_map_new, header_value_byte, header_value_from_str,
    authorization_bytes, authorization_header, header_map_contents, header_map_get,
    header_name_bytes, header_name_clone, header_name_eq, header_name_from_bytes,
    header_value_bytes, header_value_to_str, parse_header_name, visible_header_byte,
};
use crate::text::{is_blank, lemma_trim_empty_iff_blank, spec_trim, trim};

verus! {

/// The policy for replaying a credential, given how the provider answers:
/// a polled provider's operation location is trusted with the credential
/// when it shares the request's origin.
pub open spec fn replay_policy_for(handling: OcrResponseHandling) -> ReplayPolicy {
    match handling {
        OcrResponseHandling::AzureDocumentIntelligencePoll => ReplayPolicy::SameOrigin,
        OcrResponseHandling::Json => ReplayPolicy::Never,
    }
}

/// Decides how an OCR provider call is authenticated.
pub struct OcrAuthenticator {
    kind: AuthHeaderKind,
    replay: ReplayPolicy,
}

/// How the requests of a session are authorized.
pub enum Authorizer<P> {
    /// Sends `value` in header `name`, after removing the headers in
    /// `conflicts` from the outgoing request.
    StaticHeader {
        name: reqwest::header::HeaderName,
        value: String,
        conflicts: Vec<reqwest::header::HeaderName>,
    },
    /// Asks `provider` for a bearer token when a request is authorized,
    /// after removing the headers in `conflicts`.
    BearerToken { provider: P, conflicts: Vec<reqwest::header::HeaderName> },
}

/// The authorization chosen for a provider call and when it may be replayed.
pub struct AuthPlan<P> {
    pub authorizer: Authorizer<P>,
    pub replay: ReplayPolicy,
}

/// What the caller supplies for authentication.
pub struct AuthInput<'a, P> {
    pub explicit_api_key: Option<&'a str>,
    pub forwarded_headers: &'a reqwest::header::HeaderMap,
    pub external_token_provider: Option<P>,
}

/// What an authorizer states.
pub enum AuthorizerView {
    StaticHeader { name: Seq<u8>, value: Seq<char>, conflicts: Seq<Seq<u8>> },
    BearerToken { conflicts: Seq<Seq<u8>> },
}

/// The bytes of each name.
pub open spec fn names_bytes(names: Seq<reqwest::header::HeaderName>) -> Seq<Seq<u8>> {
    names.map_values(|name: reqwest::header::HeaderName| header_name_bytes(name))
}

impl<P> View for Authorizer<P> {
    type V = AuthorizerView;

    open spec fn view(&self) -> AuthorizerView {
        match self {
            Authorizer::StaticHeader { name, value, conflicts } => AuthorizerView::StaticHeader {
                name: header_name_bytes(*name),
                value: value@,
                conflicts: names_bytes(conflicts@),
            },
            Authorizer::BearerToken { conflicts, .. } => AuthorizerView::BearerToken {
                conflicts: names_bytes(conflicts@),
            },
        }
    }
}

/// The UTF-8 bytes of the header name a provider configures.
pub open spec fn configured_name_bytes(kind: AuthHeaderKind) -> Seq<u8> {
    vstd::utf8::encode_utf8(kind.spec_header_name())
}

pub open spec fn invalid_header_name_error() -> AuthErrorView {
    AuthErrorView {
        kind: AuthErrorKind::InvalidConfiguration,
        code: "invalid_auth_header_name"@,
        message: "provider configured an invalid authentication header name"@,
    }
}

pub open spec fn invalid_forwarded_credential_error() -> AuthErrorView {
    AuthErrorView {
        kind: AuthErrorKind::InvalidHeader,
        code: "invalid_forwarded_credential"@,
        message: "forwarded credential is not a valid HTTP header value"@,
    }
}

pub open spec fn blank_credential_error() -> AuthErrorView {
    AuthErrorView {
        kind: AuthErrorKind::InvalidConfiguration,
        code: "blank_explicit_credential"@,
        message: "explicit authentication credentials cannot be blank"@,
    }
}

pub open spec fn missing_credential_error() -> AuthErrorView {
    AuthErrorView {
        kind: AuthErrorKind::MissingCredential,
        code: "missing_credential"@,
        message: "no provider credential was configured"@,
    }
}

/// The headers an authorizer removes before it adds its own: the
/// provider's credential header and `authorization`, once each.
pub open spec fn spec_conflicts(kind: AuthHeaderKind) -> Result<Seq<Seq<u8>>, AuthErrorView> {
    match parse_header_name(configured_name_bytes(kind)) {
        None => Err(invalid_header_name_error()),
        Some(direct) => Ok(
            if direct == authorization_bytes() {
                seq![authorization_bytes()]
            } else {
                seq![direct, authorization_bytes()]
            },
        ),
    }
}

/// Bytes read as characters.
pub open spec fn bytes_as_chars(bytes: Seq<u8>) -> Seq<char> {
    bytes.map_values(|b: u8| b as char)
}

/// Every byte is a tab or visible ASCII.
pub open spec fn all_visible(bytes: Seq<u8>) -> bool {
    forall|i: int| 0 <= i < bytes.len() ==> visible_header_byte(#[trigger] bytes[i])
}

/// The credential the caller forwarded, if any: the provider's own
/// credential header when present, otherwise `authorization`; it must be
/// visible ASCII and must not be blank.
pub open spec fn spec_forwarded(
    kind: AuthHeaderKind,
    headers: Map<Seq<u8>, Seq<Seq<u8>>>,
) -> Result<Option<(Seq<u8>, Seq<u8>)>, AuthErrorView> {
    match parse_header_name(configured_name_bytes(kind)) {
        None => Err(invalid_header_name_error()),
        Some(direct) => {
            let selected = if headers.contains_key(direct) {
                Some((direct, headers[direct][0]))
            } else if headers.contains_key(authorization_bytes()) {
                Some((authorization_bytes(), headers[authorization_bytes()][0]))
            } else {
                None
            };
            match selected {
                None => Ok(None),
                Some(pair) => if !all_visible(pair.1) {
                    Err(invalid_forwarded_credential_error())
                } else if is_blank(bytes_as_chars(pair.1)) {
                    Err(blank_credential_error())
                } else {
                    Ok(Some(pair))
                },
            }
        },
    }
}

/// The authorizer chosen for a call: a forwarded credential first, then
/// an explicit key (trimmed, and never blank), then the token provider.
pub open spec fn spec_authenticate(
    kind: AuthHeaderKind,
    explicit_api_key: Option<Seq<char>>,
    headers: Map<Seq<u8>, Seq<Seq<u8>>>,
    has_token_provider: bool,
) -> Result<AuthorizerView, AuthErrorView> {
    match spec_conflicts(kind) {
        Err(error) => Err(error),
        Ok(conflicts) => match spec_forwarded(kind, headers) {
            Err(error) => Err(error),
            Ok(Some(pair)) => Ok(
                AuthorizerView::StaticHeader {
                    name: pair.0,
                    value: bytes_as_chars(pair.1),
                    conflicts,
                },
            ),
            Ok(None) => match explicit_api_key {
                Some(api_key) => if is_blank(api_key) {
                    Err(blank_credential_error())
                } else {
                    Ok(
                        AuthorizerView::StaticHeader {
                            name: parse_header_name(configured_name_bytes(kind)).unwrap(),
                            value: kind.spec_header_value(spec_trim(api_key)),
                            conflicts,
                        },
                    )
                },
                None => if has_token_provider {
                    Ok(AuthorizerView::BearerToken { conflicts })
                } else {
                    Err(missing_credential_error())
                },
            },
        },
    }
}

/// The optional view of an optional text.
pub open spec fn optional_text(text: Option<&str>) -> Option<Seq<char>> {
    match text {
        Some(t) => Some(t@),
        None => None,
    }
}

impl OcrAuthenticator {
    /// How the provider expects its credential.
    pub closed spec fn spec_kind(&self) -> AuthHeaderKind {
        self.kind
    }

    /// When the credential may be replayed.
    pub closed spec fn spec_replay(&self) -> ReplayPolicy {
        self.replay
    }

    /// An authenticator for a provider with this credential header and this
    /// way of answering.
    pub fn for_provider(kind: AuthHeaderKind, handling: OcrResponseHandling) -> (authenticator: Self)
        ensures
            authenticator.spec_kind() == kind,
            authenticator.spec_replay() == replay_policy_for(handling),
    {
        let replay = match handling {
            OcrResponseHandling::AzureDocumentIntelligencePoll => ReplayPolicy::SameOrigin,
            OcrResponseHandling::Json => ReplayPolicy::Never,
        };
        OcrAuthenticator { kind, replay }
    }

    /// The authenticator for a provider configuration; its kind and replay
    /// policy come from what the configuration reports.
    pub fn new<C: OcrProviderConfig>(config: &C) -> (authenticator: Self)
        ensures
            authenticator.spec_kind() == config.spec_auth_header_kind(),
            authenticator.spec_replay() == replay_policy_for(config.spec_response_handling()),
    {
        Self::for_provider(config.auth_header_kind(), config.response_handling())
    }

    fn direct_name(&self) -> (name: Result<reqwest::header::HeaderName, AuthError>)
        ensures
            match name {
                Ok(n) => parse_header_name(configured_name_bytes(self.kind)) == Some(
                    header_name_bytes(n),
                ),
                Err(e) => parse_header_name(configured_name_bytes(self.kind)) is None && e@
                    == invalid_header_name_error(),
            },
    {
        match header_name_from_bytes(self.kind.header_name().as_bytes()) {
            Some(name) => Ok(name),
            None => Err(
                AuthError::new(
                    AuthErrorKind::InvalidConfiguration,
                    "invalid_auth_header_name",
                    "provider configured an invalid authentication header name",
                ),
            ),
        }
    }

    /// The headers an authorizer of this provider removes before adding
    /// its own.
    fn conflicts(&self) -> (conflicts: Result<Vec<reqwest::header::HeaderName>, AuthError>)
        ensures
            match conflicts {
                Ok(names) => spec_conflicts(self.kind) == Ok::<Seq<Seq<u8>>, AuthErrorView>(
                    names_bytes(names@),
                ),
                Err(e) => spec_conflicts(self.kind) == Err::<Seq<Seq<u8>>, AuthErrorView>(e@),
            },
    {
        let direct = self.direct_name()?;
        let authorization = authorization_header();
        let mut names = Vec::new();
        if header_name_eq(&direct, &authorization) {
            names.push(authorization);
            assert(names_bytes(names@) =~= seq![authorization_bytes()]);
        } else {
            names.push(direct);
            names.push(authorization);
            assert(names_bytes(names@) =~= seq![
                parse_header_name(configured_name_bytes(self.kind)).unwrap(),
                authorization_bytes(),
            ]);
        }
        Ok(names)
    }

    /// The credential the caller forwarded in its own headers, as a static
    /// header authorizer.
    fn forwarded_authorizer<P>(
        &self,
        headers: &reqwest::header::HeaderMap,
        conflicts: Vec<reqwest::header::HeaderName>,
    ) -> (authorizer: Result<Option<Authorizer<P>>, AuthError>)
        ensures
            match authorizer {
                Ok(Some(a)) => spec_forwarded(self.kind, header_map_contents(*headers)) matches Ok(
                    Some(pair),
                ) && a@ == (AuthorizerView::StaticHeader {
                    name: pair.0,
                    value: bytes_as_chars(pair.1),
                    conflicts: names_bytes(conflicts@),
                }),
                Ok(None) => spec_forwarded(self.kind, header_map_contents(*headers)) == Ok::<
                    Option<(Seq<u8>, Seq<u8>)>,
                    AuthErrorView,
                >(None),
                Err(e) => spec_forwarded(self.kind, header_map_contents(*headers)) == Err::<
                    Option<(Seq<u8>, Seq<u8>)>,
                    AuthErrorView,
                >(e@),
            },
    {
        let ghost contents = header_map_contents(*headers);
        let direct = self.direct_name()?;
        let authorization = authorization_header();
        let ghost direct_bytes = header_name_bytes(direct);
        let (name, value) = match header_map_get(headers, &direct) {
            Some(value) => {
                assert(contents.contains_key(direct_bytes));
                (direct, value)
            },
            None => match header_map_get(headers, &authorization) {
                Some(value) => {
                    assert(!contents.contains_key(direct_bytes));
                    assert(contents.contains_key(authorization_bytes()));
                    (authorization, value)
                },
                None => {
                    return Ok(None);
                },
            },
        };
        assert(header_name_bytes(name) == direct_bytes ==> contents.contains_key(direct_bytes));
        let ghost value_bytes = header_value_bytes(*value);
        let ghost pair = (header_name_bytes(name), value_bytes);
        assert(spec_forwarded(self.kind, contents) == if !all_visible(pair.1) {
            Err::<Option<(Seq<u8>, Seq<u8>)>, AuthErrorView>(invalid_forwarded_credential_error())
        } else if is_blank(bytes_as_chars(pair.1)) {
            Err(blank_credential_error())
        } else {
            Ok(Some(pair))
        });
        let value = match header_value_to_str(value) {
            Some(text) => text,
            None => {
                return Err(
                    AuthError::new(
                        AuthErrorKind::InvalidHeader,
                        "invalid_forwarded_credential",
                        "forwarded credential is not a valid HTTP header value",
                    ),
                );
            },
        };
        assert(value@ == bytes_as_chars(value_bytes));
        let trimmed = trim(value);
        proof {
            lemma_trim_empty_iff_blank(value@);
        }
        if trimmed.unicode_len() == 0 {
            return Err(
                AuthError::new(
                    AuthErrorKind::InvalidConfiguration,
                    "blank_explicit_credential",
                    "explicit authentication credentials cannot be blank",
                ),
            );
        }
        Ok(Some(Authorizer::StaticHeader { name, value: value.to_owned(), conflicts }))
    }

    /// Chooses how the provider call is authorized: a credential the caller
    /// forwarded, then the explicit key, then the token provider, which is
    /// asked for a token only when a request is authorized.
    pub fn authenticate<P>(&self, input: AuthInput<'_, P>) -> (plan: Result<AuthPlan<P>, AuthError>)
        ensures
            match plan {
                Ok(p) => {
                    &&& spec_authenticate(
                        self.spec_kind(),
                        optional_text(input.explicit_api_key),
                        header_map_contents(*input.forwarded_headers),
                        input.external_token_provider is Some,
                    ) == Ok::<AuthorizerView, AuthErrorView>(p.authorizer@)
                    &&& p.replay == self.spec_replay()
                    &&& p.authorizer matches Authorizer::BearerToken { provider, .. }
                        ==> input.external_token_provider == Some(provider)
                },
                Err(e) => spec_authenticate(
                    self.spec_kind(),
                    optional_text(input.explicit_api_key),
                    header_map_contents(*input.forwarded_headers),
                    input.external_token_provider is Some,
                ) == Err::<AuthorizerView, AuthErrorView>(e@),
            },
    {
        let conflicts = self.conflicts()?;
        let forwarded_conflicts = clone_names(&conflicts);
        if let Some(authorizer) = self.forwarded_authorizer(input.forwarded_headers, forwarded_conflicts)? {
            return Ok(AuthPlan { authorizer, replay: self.replay });
        }
        if let Some(api_key) = input.explicit_api_key {
            let trimmed = trim(api_key);
            proof {
                lemma_trim_empty_iff_blank(api_key@);
            }
            if trimmed.unicode_len() == 0 {
                return Err(
                    AuthError::new(
                        AuthErrorKind::InvalidConfiguration,
                        "blank_explicit_credential",
                        "explicit authentication credentials cannot be blank",
                    ),
                );
            }
            let name = self.direct_name()?;
            let value = self.kind.header_value(trimmed);
            return Ok(
                AuthPlan {
                    authorizer: Authorizer::StaticHeader { name, value, conflicts },
                    replay: self.replay,
                },
            );
        }
        let provider = match input.external_token_provider {
            Some(provider) => provider,
            None => {
                return Err(
                    AuthError::new(
                        AuthErrorKind::MissingCredential,
                        "missing_credential",
                        "no provider credential was configured",
                    ),
                );
            },
        };
        Ok(
            AuthPlan {
                authorizer: Authorizer::BearerToken { provider, conflicts },
                replay: self.replay,
            },
        )
    }
}

/// A copy of a list of header names.
fn clone_names(names: &Vec<reqwest::header::HeaderName>) -> (copy: Vec<reqwest::header::HeaderName>)
    ensures
        names_bytes(copy@) == names_bytes(names@),
{
    let mut copy = Vec::new();
    let mut i: usize = 0;
    while i < names.len()
        invariant
            i <= names@.len(),
            names_bytes(copy@) == names_bytes(names@).subrange(0, i as int),
        decreases names@.len() - i,
    {
        let ghost before = copy@;
        let name = header_name_clone(&names[i]);
        copy.push(name);
        assert(copy@ == before.push(name));
        assert(names_bytes(copy@) =~= names_bytes(before).push(header_name_bytes(name)));
        assert(names_bytes(copy@) =~= names_bytes(names@).subrange(0, i + 1));
        i = i + 1;
    }
    assert(names_bytes(names@).subrange(0, i as int) =~= names_bytes(names@));
    copy
}

/// What `auth_session` answers with: the authorizer and replay policy, or
/// the authentication failure as a core error.
pub open spec fn session_outcome(
    kind: AuthHeaderKind,
    replay: ReplayPolicy,
    api_key: Option<Seq<char>>,
    headers: Map<Seq<u8>, Seq<Seq<u8>>>,
    has_token_provider: bool,
) -> Result<(AuthorizerView, ReplayPolicy), ErrorView> {
    match spec_authenticate(kind, api_key, headers, has_token_provider) {
        Ok(authorizer) => Ok((authorizer, replay)),
        Err(error) => Err(prepare_view(ErrorCode::Authentication, error.message)),
    }
}

/// Whether an option holds a value.
pub open spec fn present<P>(option: Option<P>) -> bool {
    option is Some
}

/// What a session result states.
pub open spec fn session_view<P>(session: Result<AuthPlan<P>, Error>) -> Result<
    (AuthorizerView, ReplayPolicy),
    ErrorView,
> {
    match session {
        Ok(plan) => Ok((plan.authorizer@, plan.replay)),
        Err(error) => Err(error@),
    }
}

/// Authenticates an OCR provider call for a provider configuration: the
/// answer is the one `session_outcome` gives for the credential header and
/// response handling that the configuration reports.
pub fn auth_session<C: OcrProviderConfig, P>(
    config: &C,
    api_key: Option<&str>,
    headers: &reqwest::header::HeaderMap,
    external_token_provider: Option<P>,
) -> (session: Result<AuthPlan<P>, Error>)
    ensures
        session_view(session) == session_outcome(
            config.spec_auth_header_kind(),
            replay_policy_for(config.spec_response_handling()),
            optional_text(api_key),
            header_map_contents(*headers),
            present(external_token_provider),
        ),
{
    let authenticator = OcrAuthenticator::new(config);
    let input = AuthInput {
        explicit_api_key: api_key,
        forwarded_headers: headers,
        external_token_provider,
    };
    match authenticator.authenticate(input) {
        Ok(plan) => Ok(plan),
        Err(error) => Err(error.into_error()),
    }
}

/// Every byte may stand in a header value.
pub open spec fn all_value_bytes(bytes: Seq<u8>) -> bool {
    forall|i: int| 0 <= i < bytes.len() ==> header_value_byte(#[trigger] bytes[i])
}

/// The map a list of header texts becomes, or the error for the first
/// header whose name or value is not valid: each name is normalized, and a
/// later header replaces an earlier one of the same name.
pub open spec fn spec_header_map(pairs: Seq<(Seq<char>, Seq<char>)>) -> Result<
    Map<Seq<u8>, Seq<Seq<u8>>>,
    ErrorView,
>
    decreases pairs.len(),
{
    if pairs.len() == 0 {
        Ok(Map::empty())
    } else {
        match spec_header_map(pairs.drop_last()) {
            Err(error) => Err(error),
            Ok(map) => {
                let name = pairs.last().0;
                let value = pairs.last().1;
                match parse_header_name(vstd::utf8::encode_utf8(name)) {
                    None => Err(
                        prepare_view(
                            ErrorCode::InvalidRequest,
                            "invalid request: "@ + ("invalid OCR header name: "@ + name),
                        ),
                    ),
                    Some(normalized) => if all_value_bytes(vstd::utf8::encode_utf8(value)) {
                        Ok(map.insert(normalized, seq![vstd::utf8::encode_utf8(value)]))
                    } else {
                        Err(
                            prepare_view(
                                ErrorCode::InvalidRequest,
                                "invalid request: "@ + "invalid OCR header value"@,
                            ),
                        )
                    },
                }
            },
        }
    }
}

/// The normalized names of the valid header names in a list.
pub open spec fn header_names(pairs: Seq<(Seq<char>, Seq<char>)>) -> Set<Seq<u8>>
    decreases pairs.len(),
{
    if pairs.len() == 0 {
        Set::empty()
    } else {
        let rest = header_names(pairs.drop_last());
        match parse_header_name(vstd::utf8::encode_utf8(pairs.last().0)) {
            Some(name) => rest.insert(name),
            None => rest,
        }
    }
}

proof fn lemma_header_names_finite(pairs: Seq<(Seq<char>, Seq<char>)>)
    ensures
        header_names(pairs).finite(),
    decreases pairs.len(),
{
    if pairs.len() > 0 {
        lemma_header_names_finite(pairs.drop_last());
    }
}

/// A map built from a list holds exactly the list's names.
proof fn lemma_header_map_names(pairs: Seq<(Seq<char>, Seq<char>)>)
    ensures
        spec_header_map(pairs) matches Ok(map) ==> map.dom() == header_names(pairs),
    decreases pairs.len(),
{
    if pairs.len() > 0 {
        lemma_header_map_names(pairs.drop_last());
        if let Ok(map) = spec_header_map(pairs) {
            assert(map.dom() =~= header_names(pairs));
        }
    } else {
        if let Ok(map) = spec_header_map(pairs) {
            assert(map.dom() =~= header_names(pairs));
        }
    }
}

/// The names of a prefix are names of the whole list.
proof fn lemma_header_names_prefix(pairs: Seq<(Seq<char>, Seq<char>)>, k: int)
    requires
        0 <= k <= pairs.len(),
    ensures
        header_names(pairs.subrange(0, k)).subset_of(header_names(pairs)),
    decreases pairs.len() - k,
{
    if k < pairs.len() {
        lemma_header_names_prefix(pairs, k + 1);
        assert(pairs.subrange(0, k + 1).drop_last() =~= pairs.subrange(0, k));
    } else {
        assert(pairs.subrange(0, k) =~= pairs);
    }
}

/// Builds a header map from header texts; the first invalid name or value
/// is reported. The outside map can panic once it holds 6554 names, so the
/// list names fewer than 6554 distinct headers (repeats are free).
pub fn header_map(headers: Vec<(String, String)>) -> (map: Result<reqwest::header::HeaderMap, Error>)
    requires
        header_names(pairs_view(headers@)).len() < 6554,
    ensures
        match map {
            Ok(m) => spec_header_map(pairs_view(headers@)) == Ok::<
                Map<Seq<u8>, Seq<Seq<u8>>>,
                ErrorView,
            >(header_map_contents(m)),
            Err(e) => spec_header_map(pairs_view(headers@)) == Err::<
                Map<Seq<u8>, Seq<Seq<u8>>>,
                ErrorView,
            >(e@),
        },
{
    let ghost all = pairs_view(headers@);
    let mut result = header_map_new();
    let mut i: usize = 0;
    proof {
        lemma_header_names_finite(all);
    }
    assert(all.subrange(0, 0) =~= Seq::<(Seq<char>, Seq<char>)>::empty());
    assert(header_map_contents(result) =~= Map::<Seq<u8>, Seq<Seq<u8>>>::empty());
    while i < headers.len()
        invariant
            all == pairs_view(headers@),
            header_names(all).finite(),
            header_names(all).len() < 6554,
            i <= headers@.len(),
            spec_header_map(all.subrange(0, i as int)) == Ok::<
                Map<Seq<u8>, Seq<Seq<u8>>>,
                ErrorView,
            >(header_map_contents(result)),
        decreases headers@.len() - i,
    {
        let ghost prefix = all.subrange(0, i + 1);
        assert(prefix.drop_last() =~= all.subrange(0, i as int));
        assert(prefix.last() == (headers@[i as int].0@, headers@[i as int].1@));
        proof {
            lemma_header_map_names(all.subrange(0, i as int));
            lemma_header_names_prefix(all, i as int);
            vstd::set_lib::lemma_len_subset(
                header_map_contents(result).dom(),
                header_names(all),
            );
        }
        let name = match header_name_from_bytes(headers[i].0.as_str().as_bytes()) {
            Some(name) => name,
            None => {
                let message = "invalid OCR header name: ".to_owned().concat(headers[i].0.as_str());
                let error = Error::invalid_request(message);
                assert(spec_header_map(all.subrange(0, i + 1)) == Err::<
                    Map<Seq<u8>, Seq<Seq<u8>>>,
                    ErrorView,
                >(error@));
                proof {
                    lemma_header_map_prefix_error(all, i as int + 1);
                }
                return Err(error);
            },
        };
        let value = match header_value_from_str(headers[i].1.as_str()) {
            Some(value) => value,
            None => {
                let error = Error::invalid_request("invalid OCR header value".to_owned());
                assert(spec_header_map(all.subrange(0, i + 1)) == Err::<
                    Map<Seq<u8>, Seq<Seq<u8>>>,
                    ErrorView,
                >(error@));
                proof {
                    lemma_header_map_prefix_error(all, i as int + 1);
                }
                return Err(error);
            },
        };
        header_map_insert(&mut result, name, value);
        i = i + 1;
    }
    assert(all.subrange(0, i as int) =~= all);
    Ok(result)
}

/// A failure on some prefix of a header list is the failure of the whole
/// list.
proof fn lemma_header_map_prefix_error(pairs: Seq<(Seq<char>, Seq<char>)>, k: int)
    requires
        0 <= k <= pairs.len(),
        spec_header_map(pairs.subrange(0, k)) is Err,
    ensures
        spec_header_map(pairs) == spec_header_map(pairs.subrange(0, k)),
    decreases pairs.len() - k,
{
    if k < pairs.len() {
        let next = pairs.subrange(0, k + 1);
        assert(next.drop_last() =~= pairs.subrange(0, k));
        lemma_header_map_prefix_error(pairs, k + 1);
    } else {
        assert(pairs.subrange(0, k) =~= pairs);
    }
}

/// A credential the caller forwards is used as it is, whatever explicit
/// key or token provider there is.
pub proof fn law_forwarded_credential_wins(
    kind: AuthHeaderKind,
    headers: Map<Seq<u8>, Seq<Seq<u8>>>,
    explicit_api_key: Option<Seq<char>>,
    has_token_provider: bool,
)
    requires
        spec_conflicts(kind) is Ok,
        spec_forwarded(kind, headers) matches Ok(Some(_)),
    ensures
        spec_authenticate(kind, explicit_api_key, headers, has_token_provider) == spec_authenticate(
            kind,
            None,
            headers,
            false,
        ),
        spec_authenticate(kind, explicit_api_key, headers, has_token_provider) matches Ok(
            AuthorizerView::StaticHeader { name, value, .. },
        ) && spec_forwarded(kind, headers) == Ok::<Option<(Seq<u8>, Seq<u8>)>, AuthErrorView>(
            Some((name, spec_forwarded(kind, headers)->Ok_0->Some_0.1)),
        ) && value == bytes_as_chars(spec_forwarded(kind, headers)->Ok_0->Some_0.1),
{
}

/// A blank explicit key is refused and never falls back to the token
/// provider.
pub proof fn law_blank_explicit_key_does_not_fall_back(
    kind: AuthHeaderKind,
    headers: Map<Seq<u8>, Seq<Seq<u8>>>,
    api_key: Seq<char>,
    has_token_provider: bool,
)
    requires
        spec_conflicts(kind) is Ok,
        spec_forwarded(kind, headers) == Ok::<Option<(Seq<u8>, Seq<u8>)>, AuthErrorView>(None),
        is_blank(api_key),
    ensures
        spec_authenticate(kind, Some(api_key), headers, has_token_provider) == Err::<
            AuthorizerView,
            AuthErrorView,
        >(blank_credential_error()),
{
}

/// The token provider is used only when there is neither a forwarded
/// credential nor an explicit key, and the absence of all three is a
/// missing credential.
pub proof fn law_token_provider_is_the_last_resort(
    kind: AuthHeaderKind,
    headers: Map<Seq<u8>, Seq<Seq<u8>>>,
    explicit_api_key: Option<Seq<char>>,
    has_token_provider: bool,
)
    ensures
        spec_authenticate(kind, explicit_api_key, headers, has_token_provider) matches Ok(
            AuthorizerView::BearerToken { .. },
        ) ==> explicit_api_key is None && has_token_provider && spec_forwarded(kind, headers)
            == Ok::<Option<(Seq<u8>, Seq<u8>)>, AuthErrorView>(None),
        spec_conflicts(kind) is Ok && spec_forwarded(kind, headers) == Ok::<
            Option<(Seq<u8>, Seq<u8>)>,
            AuthErrorView,
        >(None) && explicit_api_key is None && !has_token_provider ==> spec_authenticate(
            kind,
            explicit_api_key,
            headers,
            has_token_provider,
        ) == Err::<AuthorizerView, AuthErrorView>(missing_credential_error()),
{
}

/// Whatever authorizer is chosen removes any `authorization` header, and
/// the provider's own credential header, before adding its credential.
pub proof fn law_authorizers_clear_conflicting_headers(
    kind: AuthHeaderKind,
    headers: Map<Seq<u8>, Seq<Seq<u8>>>,
    explicit_api_key: Option<Seq<char>>,
    has_token_provider: bool,
)
    ensures
        spec_authenticate(kind, explicit_api_key, headers, has_token_provider) matches Ok(
            authorizer,
        ) ==> {
            let conflicts = match authorizer {
                AuthorizerView::StaticHeader { conflicts, .. } => conflicts,
                AuthorizerView::BearerToken { conflicts } => conflicts,
            };
            &&& conflicts.contains(authorization_bytes())
            &&& conflicts.contains(parse_header_name(configured_name_bytes(kind)).unwrap())
            &&& conflicts.no_duplicates()
        },
{
    if let Ok(authorizer) = spec_authenticate(kind, explicit_api_key, headers, has_token_provider) {
        let direct = parse_header_name(configured_name_bytes(kind)).unwrap();
        let conflicts = spec_conflicts(kind)->Ok_0;
        if direct == authorization_bytes() {
            assert(conflicts[0] == authorization_bytes());
        } else {
            assert(conflicts[0] == direct);
            assert(conflicts[1] == authorization_bytes());
        }
    }
}

/// A credential is replayed to follow-up requests only for providers that
/// are polled, and then only to the same origin.
pub proof fn law_replay_only_for_polled_providers(handling: OcrResponseHandling)
    ensures
        (replay_policy_for(handling) == ReplayPolicy::SameOrigin) <==> (handling
            == OcrResponseHandling::AzureDocumentIntelligencePoll),
        replay_policy_for(handling) == ReplayPolicy::SameOrigin || replay_policy_for(handling)
            == ReplayPolicy::Never,
{
}

/// The replay policy of a session is the one its provider's response
/// handling gives, whichever credential was chosen: a forwarded header, an
/// explicit key or the token provider.
pub proof fn law_replay_policy_ignores_the_credential_source(
    kind: AuthHeaderKind,
    replay: ReplayPolicy,
    api_key: Option<Seq<char>>,
    headers: Map<Seq<u8>, Seq<Seq<u8>>>,
    has_token_provider: bool,
)
    ensures
        session_outcome(kind, replay, api_key, headers, has_token_provider) matches Ok(session)
            ==> session.1 == replay,
        session_outcome(
            kind,
            replay_policy_for(OcrResponseHandling::AzureDocumentIntelligencePoll),
            api_key,
            headers,
            has_token_provider,
        ) matches Ok(session) ==> session.1 == ReplayPolicy::SameOrigin,
{
}

/// A failed authentication reaches the caller as a preparation error with
/// the authentication code: nothing was sent.
pub proof fn law_authentication_failures_are_preparation_errors(
    kind: AuthHeaderKind,
    replay: ReplayPolicy,
    api_key: Option<Seq<char>>,
    headers: Map<Seq<u8>, Seq<Seq<u8>>>,
    has_token_provider: bool,
)
    ensures
        session_outcome(kind, replay, api_key, headers, has_token_provider) matches Err(error)
            ==> error.prepare && error.code == ErrorCode::Authentication && error.provider_state
            == crate::error::ProviderState::NotStarted,
{
}

} // verus!
