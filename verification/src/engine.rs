//! The gateway session protocol engine.
//!
//! One attempt is a fixed, ordered pipeline of exchanges: each step issues
//! one request built from the current session state, applies one or two
//! extraction primitives to the response, and either updates the state or
//! produces the final artifact.  The engine holds the state and the
//! position in the pipeline; the caller performs the exchanges.  A driver
//! loop therefore looks like: build the engine from settings, then
//! repeatedly ask [`Engine::next_request`] for the exchange to perform,
//! perform it, and hand the outcome to [`Engine::apply_response`] until
//! the artifact is finished or a step fails.  Any failure is terminal for
//! the attempt; the caller retries with a fresh engine, never resuming.
//!
//! Every transition is specified against a ghost model of the state
//! ([`EngineModel`]): building a request and applying a response are
//! functions of the model and the response alone.  The catalog
//! exchange's JSON decoding is delegated (see the `json` module) and
//! enters the contracts through its named result, `catalog_of`.

use vstd::prelude::*;
use vstd::string::StrSliceExecFns;
use vstd::string::StringExecFns;
use vstd::utf8::{decode_utf8, valid_utf8};

use crate::catalog::{
    catalog_of, decode_catalog, resolve_catalog_spec, resolve_resource, CatalogError,
};
use crate::codec::bytes_to_text;
use crate::extract::{
    attribute_missing_name, attribute_value_spec, cookie_value_spec, element_value_spec,
    get_attribute_value, get_cookie_value, get_element_value, get_header_attribute,
    header_attribute_spec,
};
use crate::headers::{common_headers, common_headers_model, custom_view};
use crate::http::{
    headers_view, BodyModel, CookieDirective, CookieModel, HttpHeader, HttpRequest, HttpResponse,
    Method, RequestBody, RequestModel, ResponseModel,
};
use crate::scan::{find_from, find_in};
use crate::settings::Settings;
use crate::text::str_chars;
use crate::urls::{
    join_url, normalize_url, url_domain, url_domain_of, url_join_of, url_normal_of, url_path,
    url_path_of,
};

verus! {

/// The exchanges of one attempt, in their mandatory order.  The schema
/// upgrade between the CSRF acquisition and the doomed list probe makes
/// no exchange of its own: it is the cookie-injection event that
/// applying the CSRF acquisition response produces.
#[derive(Debug, Clone, Copy, PartialEq, Eq, Structural)]
pub enum EngineStep {
    /// Plain fetch of the base address; its final resolved address,
    /// trimmed to its directory, becomes the initial authority.
    DiscoverEntry,
    /// First configuration fetch: yields the resource-list path.
    Configure1,
    /// First resource-list probe: yields the auth-methods path from a
    /// custom response header.
    ListProbe1,
    /// First auth-methods discovery: yields the explicit-forms
    /// submission path.
    AuthMethods1,
    /// Auth requirements: yields the session token and the postback path.
    AuthRequirements,
    /// Credential submission: yields the follow-up path (postback, or
    /// redirect as the fallback).
    CredentialSubmission,
    /// Client registration; the response only matters for its cookies.
    ClientRegistration,
    /// Re-fetch of the base address; its final resolved path becomes the
    /// internal authority.
    InternalRedirect,
    /// Configuration fetch off the internal authority, needed only for
    /// its session cookies.
    Configure2,
    /// Second configuration fetch: yields the CSRF token and the second
    /// resource-list path, and triggers the schema upgrade.
    CsrfAcquisition,
    /// Doomed list probe: expected to be rejected, yields the real
    /// auth-methods path.
    ListProbe2,
    /// Second auth-methods discovery: yields the basic-auth login path.
    AuthMethods2,
    /// Basic login; the response only matters for its cookies.
    BasicLogin,
    /// The list fetch that is expected to succeed: its body is the
    /// catalog payload.
    ListFinal,
    /// Download of the resolved artifact.
    ArtifactFetch,
    /// The attempt produced a validated artifact.
    Complete,
}

/// Position of a step in the pipeline.
pub open spec fn step_ord(s: EngineStep) -> int {
    match s {
        EngineStep::DiscoverEntry => 0,
        EngineStep::Configure1 => 1,
        EngineStep::ListProbe1 => 2,
        EngineStep::AuthMethods1 => 3,
        EngineStep::AuthRequirements => 4,
        EngineStep::CredentialSubmission => 5,
        EngineStep::ClientRegistration => 6,
        EngineStep::InternalRedirect => 7,
        EngineStep::Configure2 => 8,
        EngineStep::CsrfAcquisition => 9,
        EngineStep::ListProbe2 => 10,
        EngineStep::AuthMethods2 => 11,
        EngineStep::BasicLogin => 12,
        EngineStep::ListFinal => 13,
        EngineStep::ArtifactFetch => 14,
        EngineStep::Complete => 15,
    }
}

/// What went wrong in a step.  Transport and file-system failures happen
/// outside the engine; the variants exist so the driver can report them
/// under the same error type.
#[derive(Debug, Clone, PartialEq, Eq)]
pub enum StepFailure {
    /// An address failed to parse or to resolve.
    AddressParse,
    /// An extraction target was absent; carries the searched name.
    MissingTarget(String),
    /// The catalog payload did not parse, or carried no descriptor
    /// sequence.
    MalformedCatalog,
    /// No usable descriptor matches the requested application.
    NoMatchingApplication,
    /// The downloaded body is not text.
    BodyNotText,
    /// The downloaded body is no launch descriptor.
    InvalidArtifact,
    /// The exchange itself failed; constructed by the driver.
    Transport(String),
    /// Persisting the artifact failed; constructed by the driver.
    FileSystem(String),
}

/// Ghost image of a step failure.
#[verifier::ext_equal]
pub enum FailureModel {
    AddressParse,
    MissingTarget(Seq<char>),
    MalformedCatalog,
    NoMatchingApplication,
    BodyNotText,
    InvalidArtifact,
    Transport(Seq<char>),
    FileSystem(Seq<char>),
}

impl StepFailure {
    pub open spec fn model(&self) -> FailureModel {
        match self {
            StepFailure::AddressParse => FailureModel::AddressParse,
            StepFailure::MissingTarget(n) => FailureModel::MissingTarget(n@),
            StepFailure::MalformedCatalog => FailureModel::MalformedCatalog,
            StepFailure::NoMatchingApplication => FailureModel::NoMatchingApplication,
            StepFailure::BodyNotText => FailureModel::BodyNotText,
            StepFailure::InvalidArtifact => FailureModel::InvalidArtifact,
            StepFailure::Transport(s) => FailureModel::Transport(s@),
            StepFailure::FileSystem(s) => FailureModel::FileSystem(s@),
        }
    }
}

/// A step-tagged failure: which exchange failed, and why.
#[derive(Debug, Clone, PartialEq, Eq)]
pub struct EngineError {
    pub step: EngineStep,
    pub failure: StepFailure,
}

/// Ghost image of an engine error.
#[verifier::ext_equal]
pub struct ErrorModel {
    pub step: EngineStep,
    pub failure: FailureModel,
}

impl EngineError {
    pub open spec fn model(&self) -> ErrorModel {
        ErrorModel { step: self.step, failure: self.failure.model() }
    }
}

/// The follow-up target after credential submission: the one branch
/// point of the pipeline.
#[derive(Debug, Clone, PartialEq, Eq)]
pub enum FollowUp {
    /// A postback element was present.
    Postback(String),
    /// Fallback: a redirect element was present instead.
    Redirect(String),
}

/// Ghost image of the follow-up choice.
#[verifier::ext_equal]
pub enum FollowUpModel {
    Postback(Seq<char>),
    Redirect(Seq<char>),
}

impl FollowUp {
    pub open spec fn model(&self) -> FollowUpModel {
        match self {
            FollowUp::Postback(p) => FollowUpModel::Postback(p@),
            FollowUp::Redirect(p) => FollowUpModel::Redirect(p@),
        }
    }
}

/// The path a follow-up names, whichever variant it is.
pub open spec fn follow_up_path(f: FollowUpModel) -> Seq<char> {
    match f {
        FollowUpModel::Postback(p) => p,
        FollowUpModel::Redirect(p) => p,
    }
}

/// The validated artifact: the fixed output name and the raw bytes to
/// persist under it.
#[derive(Debug, Clone, PartialEq, Eq)]
pub struct Artifact {
    pub file_name: String,
    pub content: Vec<u8>,
}

/// What applying a response produced, besides an updated state.
#[derive(Debug, Clone, PartialEq, Eq)]
pub enum EngineEvent {
    /// Proceed to the next exchange.
    Continue,
    /// Inject these cookies into the session's cookie store, then
    /// proceed (the schema upgrade).
    InjectCookies(Vec<CookieDirective>),
    /// The attempt is complete; persist the artifact.
    Finished(Artifact),
}

/// Ghost image of an engine event.
#[verifier::ext_equal]
pub enum EventModel {
    Continue,
    InjectCookies(Seq<CookieModel>),
    Finished(Seq<char>, Seq<u8>),
}

impl EngineEvent {
    pub open spec fn model(&self) -> EventModel {
        match self {
            EngineEvent::Continue => EventModel::Continue,
            EngineEvent::InjectCookies(cs) => EventModel::InjectCookies(
                cs@.map_values(|c: CookieDirective| c.model()),
            ),
            EngineEvent::Finished(a) => EventModel::Finished(a.file_name@, a.content@),
        }
    }
}

/// Ghost image of an application outcome.
pub open spec fn outcome_model(r: Result<EngineEvent, EngineError>) -> Result<
    EventModel,
    ErrorModel,
> {
    match r {
        Ok(ev) => Ok(ev.model()),
        Err(e) => Err(e.model()),
    }
}

/// Ghost image of an optional string field.
pub open spec fn opt_view(o: Option<String>) -> Option<Seq<char>> {
    match o {
        Some(s) => Some(s@),
        None => None,
    }
}

/// The ghost model of the session state: the settings the attempt runs
/// with, the position in the pipeline, and every value discovered so
/// far.
#[verifier::ext_equal]
pub struct EngineModel {
    pub step: EngineStep,
    /// The base address exactly as configured.
    pub base_uri: Seq<char>,
    /// Its normalized serialization.
    pub base_url: Seq<char>,
    pub application_name: Seq<char>,
    pub login: Seq<char>,
    pub passwd: Seq<char>,
    pub initial_url: Option<Seq<char>>,
    pub resource_list_path: Option<Seq<char>>,
    pub auth_methods_path: Option<Seq<char>>,
    pub auth_proper_path: Option<Seq<char>>,
    pub state_context: Option<Seq<char>>,
    pub auth_path: Option<Seq<char>>,
    pub follow_up: Option<FollowUpModel>,
    pub internal_url: Option<Seq<char>>,
    pub internal_path: Option<Seq<char>>,
    pub csrf_token: Option<Seq<char>>,
    pub auth_login_path: Option<Seq<char>>,
    pub launch_path: Option<Seq<char>>,
}

/// Which fields are set at which pipeline position: each discovered
/// value appears exactly when the step that extracts it has been
/// applied.  In particular the internal authority is never set before
/// credential submission has succeeded.
pub open spec fn wf(m: EngineModel) -> bool {
    &&& (m.initial_url is Some <==> step_ord(m.step) >= 1)
    &&& (m.resource_list_path is Some <==> step_ord(m.step) >= 2)
    &&& (m.auth_methods_path is Some <==> step_ord(m.step) >= 3)
    &&& (m.auth_proper_path is Some <==> step_ord(m.step) >= 4)
    &&& (m.state_context is Some <==> step_ord(m.step) >= 5)
    &&& (m.auth_path is Some <==> step_ord(m.step) >= 5)
    &&& (m.follow_up is Some <==> step_ord(m.step) >= 6)
    &&& (m.internal_url is Some <==> step_ord(m.step) >= 8)
    &&& (m.internal_path is Some <==> step_ord(m.step) >= 8)
    &&& (m.csrf_token is Some <==> step_ord(m.step) >= 10)
    &&& (m.auth_login_path is Some <==> step_ord(m.step) >= 12)
    &&& (m.launch_path is Some <==> step_ord(m.step) >= 14)
}

/// The session state of one attempt.
#[derive(Debug, Clone, PartialEq, Eq)]
pub struct Engine {
    pub step: EngineStep,
    pub base_uri: String,
    pub base_url: String,
    pub application_name: String,
    pub login: String,
    pub passwd: String,
    pub initial_url: Option<String>,
    pub resource_list_path: Option<String>,
    pub auth_methods_path: Option<String>,
    pub auth_proper_path: Option<String>,
    pub state_context: Option<String>,
    pub auth_path: Option<String>,
    pub follow_up: Option<FollowUp>,
    pub internal_url: Option<String>,
    pub internal_path: Option<String>,
    pub csrf_token: Option<String>,
    pub auth_login_path: Option<String>,
    pub launch_path: Option<String>,
}

impl Engine {
    pub open spec fn model(&self) -> EngineModel {
        EngineModel {
            step: self.step,
            base_uri: self.base_uri@,
            base_url: self.base_url@,
            application_name: self.application_name@,
            login: self.login@,
            passwd: self.passwd@,
            initial_url: opt_view(self.initial_url),
            resource_list_path: opt_view(self.resource_list_path),
            auth_methods_path: opt_view(self.auth_methods_path),
            auth_proper_path: opt_view(self.auth_proper_path),
            state_context: opt_view(self.state_context),
            auth_path: opt_view(self.auth_path),
            follow_up: match self.follow_up {
                Some(f) => Some(f.model()),
                None => None,
            },
            internal_url: opt_view(self.internal_url),
            internal_path: opt_view(self.internal_path),
            csrf_token: opt_view(self.csrf_token),
            auth_login_path: opt_view(self.auth_login_path),
            launch_path: opt_view(self.launch_path),
        }
    }

    pub open spec fn inv(&self) -> bool {
        wf(self.model())
    }
}

/// The fresh state an attempt starts from: nothing discovered, pipeline
/// at its first exchange, base address normalized.
pub open spec fn init_model(
    base_uri: Seq<char>,
    application_name: Seq<char>,
    login: Seq<char>,
    passwd: Seq<char>,
) -> EngineModel {
    EngineModel {
        step: EngineStep::DiscoverEntry,
        base_uri: base_uri,
        base_url: match url_normal_of(base_uri) {
            Some(u) => u,
            None => Seq::empty(),
        },
        application_name: application_name,
        login: login,
        passwd: passwd,
        initial_url: None,
        resource_list_path: None,
        auth_methods_path: None,
        auth_proper_path: None,
        state_context: None,
        auth_path: None,
        follow_up: None,
        internal_url: None,
        internal_path: None,
        csrf_token: None,
        auth_login_path: None,
        launch_path: None,
    }
}

/// An address failure at a step.
pub open spec fn addr_err(step: EngineStep) -> ErrorModel {
    ErrorModel { step, failure: FailureModel::AddressParse }
}

/// A missing-extraction-target failure at a step.
pub open spec fn missing_err(step: EngineStep, name: Seq<char>) -> ErrorModel {
    ErrorModel { step, failure: FailureModel::MissingTarget(name) }
}

/// The custom headers carried by every exchange after the schema
/// upgrade: the CSRF token and the internal authority as referer.
pub open spec fn custom_model(csrf: Seq<char>, internal: Seq<char>) -> Seq<
    (Seq<char>, Seq<char>),
> {
    seq![("Csrf-Token"@, csrf), ("referer"@, internal)]
}

/// The credential form: the literal field names the portal requires.
pub open spec fn credentials_model(
    login: Seq<char>,
    passwd: Seq<char>,
    state_context: Seq<char>,
) -> Seq<(Seq<char>, Seq<char>)> {
    seq![
        ("login"@, login),
        ("passwd"@, passwd),
        ("savecredentials"@, "false"@),
        ("nsg-x1-logon-button"@, "Log On"@),
        ("StateContext"@, state_context),
    ]
}

/// The client-registration form.
pub open spec fn registration_model(state_context: Seq<char>) -> Seq<(Seq<char>, Seq<char>)> {
    seq![("nsg-setclient"@, "wica"@), ("StateContext"@, state_context)]
}

/// The catalog request form.
pub open spec fn list_form_model() -> Seq<(Seq<char>, Seq<char>)> {
    seq![("format"@, "json"@), ("resourceDetails"@, "Default"@)]
}

/// The three client-capability cookies injected by the schema upgrade,
/// scoped to the portal's domain and the internal path.
pub open spec fn inject_model(domain: Seq<char>, path: Seq<char>) -> Seq<CookieModel> {
    seq![
        (CookieModel { name: "CtxsClientDetectionDone"@, value: "true"@, domain: domain, path: path }),
        (CookieModel { name: "CtxsHasUpgradeBeenShown"@, value: "true"@, domain: domain, path: path }),
        (CookieModel { name: "CtxsUserPreferredClient"@, value: "Native"@, domain: domain, path: path }),
    ]
}

/// A POSTed exchange: resolve `rel` against `base`, build the common
/// header set (plus any custom headers) from the configured base
/// address, and send the given body.
pub open spec fn posted_request(
    step: EngineStep,
    base_uri: Seq<char>,
    base: Seq<char>,
    rel: Seq<char>,
    custom: Option<Seq<(Seq<char>, Seq<char>)>>,
    body: BodyModel,
) -> Result<RequestModel, ErrorModel> {
    match url_join_of(base, rel) {
        None => Err(addr_err(step)),
        Some(u) => match common_headers_model(custom, base_uri) {
            Err(_) => Err(addr_err(step)),
            Ok(hs) => Ok(
                RequestModel {
                    method: Method::Post,
                    url: u,
                    headers: hs,
                    body: body,
                    use_session: true,
                },
            ),
        },
    }
}

/// A plain GET of an absolute address, without the common header set.
pub open spec fn plain_get(url: Seq<char>, use_session: bool) -> RequestModel {
    RequestModel {
        method: Method::Get,
        url: url,
        headers: Seq::empty(),
        body: BodyModel::Empty,
        use_session: use_session,
    }
}

/// The request each step issues, as a function of the state model.  Only
/// meaningful for well-formed models whose step is not `Complete`.
pub open spec fn next_request_model(m: EngineModel) -> Result<RequestModel, ErrorModel> {
    match m.step {
        EngineStep::DiscoverEntry => Ok(plain_get(m.base_url, false)),
        EngineStep::Configure1 => posted_request(
            m.step,
            m.base_uri,
            m.initial_url->0,
            "Home/Configuration"@,
            None,
            BodyModel::ZeroLength,
        ),
        EngineStep::ListProbe1 => posted_request(
            m.step,
            m.base_uri,
            m.initial_url->0,
            m.resource_list_path->0,
            None,
            BodyModel::ZeroLength,
        ),
        EngineStep::AuthMethods1 => posted_request(
            m.step,
            m.base_uri,
            m.initial_url->0,
            m.auth_methods_path->0,
            None,
            BodyModel::ZeroLength,
        ),
        EngineStep::AuthRequirements => posted_request(
            m.step,
            m.base_uri,
            m.base_url,
            m.auth_proper_path->0,
            None,
            BodyModel::Empty,
        ),
        EngineStep::CredentialSubmission => posted_request(
            m.step,
            m.base_uri,
            m.base_url,
            m.auth_path->0,
            None,
            BodyModel::Form(credentials_model(m.login, m.passwd, m.state_context->0)),
        ),
        EngineStep::ClientRegistration => posted_request(
            m.step,
            m.base_uri,
            m.base_url,
            follow_up_path(m.follow_up->0),
            None,
            BodyModel::Form(registration_model(m.state_context->0)),
        ),
        EngineStep::InternalRedirect => Ok(plain_get(m.base_url, true)),
        EngineStep::Configure2 => match common_headers_model(None, m.base_uri) {
            Err(_) => Err(addr_err(m.step)),
            Ok(hs) => Ok(
                RequestModel {
                    method: Method::Post,
                    url: m.internal_url->0,
                    headers: hs,
                    body: BodyModel::ZeroLength,
                    use_session: true,
                },
            ),
        },
        EngineStep::CsrfAcquisition => posted_request(
            m.step,
            m.base_uri,
            m.internal_url->0,
            "Home/Configuration"@,
            None,
            BodyModel::ZeroLength,
        ),
        EngineStep::ListProbe2 => posted_request(
            m.step,
            m.base_uri,
            m.internal_url->0,
            m.resource_list_path->0,
            Some(custom_model(m.csrf_token->0, m.internal_url->0)),
            BodyModel::Form(list_form_model()),
        ),
        EngineStep::AuthMethods2 => posted_request(
            m.step,
            m.base_uri,
            m.internal_url->0,
            m.auth_methods_path->0,
            Some(custom_model(m.csrf_token->0, m.internal_url->0)),
            BodyModel::ZeroLength,
        ),
        EngineStep::BasicLogin => posted_request(
            m.step,
            m.base_uri,
            m.internal_url->0,
            m.auth_login_path->0,
            Some(custom_model(m.csrf_token->0, m.internal_url->0)),
            BodyModel::ZeroLength,
        ),
        EngineStep::ListFinal => posted_request(
            m.step,
            m.base_uri,
            m.internal_url->0,
            m.resource_list_path->0,
            Some(custom_model(m.csrf_token->0, m.internal_url->0)),
            BodyModel::Form(list_form_model()),
        ),
        EngineStep::ArtifactFetch => match url_join_of(
            m.base_url,
            m.internal_url->0 + m.launch_path->0,
        ) {
            None => Err(addr_err(m.step)),
            Some(u1) => match url_join_of(
                u1,
                "?CsrfToken="@ + m.csrf_token->0 + "&IsUsingHttps=Yes"@,
            ) {
                None => Err(addr_err(m.step)),
                Some(u2) => Ok(plain_get(u2, true)),
            },
        },
        EngineStep::Complete => Err(addr_err(m.step)),
    }
}

/// What applying a response does to the state, and what it yields, as a
/// function of the state model and the response model alone.  The
/// catalog exchange goes through [`catalog_of`], the named result of
/// the delegated JSON decoding, so it is a function of the response
/// text like every other step.
pub open spec fn apply_model(m: EngineModel, r: ResponseModel) -> (
    EngineModel,
    Result<EventModel, ErrorModel>,
) {
    match m.step {
        EngineStep::DiscoverEntry => match url_join_of(r.final_url, "./"@) {
            None => (m, Err(addr_err(m.step))),
            Some(u) => (
                EngineModel { step: EngineStep::Configure1, initial_url: Some(u), ..m },
                Ok(EventModel::Continue),
            ),
        },
        EngineStep::Configure1 => match attribute_value_spec(
            r.text,
            "resourcesProxy"@,
            "listURL"@,
        ) {
            None => (
                m,
                Err(
                    missing_err(
                        m.step,
                        attribute_missing_name(r.text, "resourcesProxy"@, "listURL"@),
                    ),
                ),
            ),
            Some(p) => (
                EngineModel { step: EngineStep::ListProbe1, resource_list_path: Some(p), ..m },
                Ok(EventModel::Continue),
            ),
        },
        EngineStep::ListProbe1 => match header_attribute_spec(
            r.headers,
            "CitrixWebReceiver-Authenticate"@,
            "location"@,
        ) {
            None => (m, Err(missing_err(m.step, "location"@))),
            Some(p) => (
                EngineModel { step: EngineStep::AuthMethods1, auth_methods_path: Some(p), ..m },
                Ok(EventModel::Continue),
            ),
        },
        EngineStep::AuthMethods1 => match attribute_value_spec(
            r.text,
            "method name=\"ExplicitForms\""@,
            "url"@,
        ) {
            None => (
                m,
                Err(
                    missing_err(
                        m.step,
                        attribute_missing_name(r.text, "method name=\"ExplicitForms\""@, "url"@),
                    ),
                ),
            ),
            Some(p) => (
                EngineModel {
                    step: EngineStep::AuthRequirements,
                    auth_proper_path: Some(p),
                    ..m
                },
                Ok(EventModel::Continue),
            ),
        },
        EngineStep::AuthRequirements => match element_value_spec(r.text, "StateContext"@) {
            None => (m, Err(missing_err(m.step, "StateContext"@))),
            Some(sc) => match element_value_spec(r.text, "Postback"@) {
                None => (m, Err(missing_err(m.step, "Postback"@))),
                Some(p) => (
                    EngineModel {
                        step: EngineStep::CredentialSubmission,
                        state_context: Some(sc),
                        auth_path: Some(p),
                        ..m
                    },
                    Ok(EventModel::Continue),
                ),
            },
        },
        EngineStep::CredentialSubmission => match element_value_spec(r.text, "Postback"@) {
            Some(p) => (
                EngineModel {
                    step: EngineStep::ClientRegistration,
                    follow_up: Some(FollowUpModel::Postback(p)),
                    ..m
                },
                Ok(EventModel::Continue),
            ),
            None => match element_value_spec(r.text, "RedirectURL"@) {
                Some(p) => (
                    EngineModel {
                        step: EngineStep::ClientRegistration,
                        follow_up: Some(FollowUpModel::Redirect(p)),
                        ..m
                    },
                    Ok(EventModel::Continue),
                ),
                None => (m, Err(missing_err(m.step, "RedirectURL"@))),
            },
        },
        EngineStep::ClientRegistration => (
            EngineModel { step: EngineStep::InternalRedirect, ..m },
            Ok(EventModel::Continue),
        ),
        EngineStep::InternalRedirect => match url_path_of(r.final_url) {
            None => (m, Err(addr_err(m.step))),
            Some(p) => match url_join_of(m.base_url, p) {
                None => (m, Err(addr_err(m.step))),
                Some(u) => (
                    EngineModel {
                        step: EngineStep::Configure2,
                        internal_path: Some(p),
                        internal_url: Some(u),
                        ..m
                    },
                    Ok(EventModel::Continue),
                ),
            },
        },
        EngineStep::Configure2 => (
            EngineModel { step: EngineStep::CsrfAcquisition, ..m },
            Ok(EventModel::Continue),
        ),
        EngineStep::CsrfAcquisition => match cookie_value_spec(r.headers, "CsrfToken"@) {
            None => (m, Err(missing_err(m.step, "CsrfToken"@))),
            Some(t) => match attribute_value_spec(r.text, "resourcesProxy"@, "listURL"@) {
                None => (
                    m,
                    Err(
                        missing_err(
                            m.step,
                            attribute_missing_name(r.text, "resourcesProxy"@, "listURL"@),
                        ),
                    ),
                ),
                Some(p) => match url_domain_of(m.base_url) {
                    None => (m, Err(addr_err(m.step))),
                    Some(d) => (
                        EngineModel {
                            step: EngineStep::ListProbe2,
                            csrf_token: Some(t),
                            resource_list_path: Some(p),
                            ..m
                        },
                        Ok(EventModel::InjectCookies(inject_model(d, m.internal_path->0))),
                    ),
                },
            },
        },
        EngineStep::ListProbe2 => match header_attribute_spec(
            r.headers,
            "CitrixWebReceiver-Authenticate"@,
            "location"@,
        ) {
            None => (m, Err(missing_err(m.step, "location"@))),
            Some(p) => (
                EngineModel { step: EngineStep::AuthMethods2, auth_methods_path: Some(p), ..m },
                Ok(EventModel::Continue),
            ),
        },
        EngineStep::AuthMethods2 => match attribute_value_spec(
            r.text,
            "method name=\"CitrixAGBasic\""@,
            "url"@,
        ) {
            None => (
                m,
                Err(
                    missing_err(
                        m.step,
                        attribute_missing_name(r.text, "method name=\"CitrixAGBasic\""@, "url"@),
                    ),
                ),
            ),
            Some(p) => (
                EngineModel { step: EngineStep::BasicLogin, auth_login_path: Some(p), ..m },
                Ok(EventModel::Continue),
            ),
        },
        EngineStep::BasicLogin => (
            EngineModel { step: EngineStep::ListFinal, ..m },
            Ok(EventModel::Continue),
        ),
        EngineStep::ListFinal => match catalog_of(r.text) {
            None => (
                m,
                Err(ErrorModel { step: m.step, failure: FailureModel::MalformedCatalog }),
            ),
            Some(cat) => match resolve_catalog_spec(cat, m.application_name) {
                Err(CatalogError::ResourcesAbsent) => (
                    m,
                    Err(ErrorModel { step: m.step, failure: FailureModel::MalformedCatalog }),
                ),
                Err(_) => (
                    m,
                    Err(
                        ErrorModel {
                            step: m.step,
                            failure: FailureModel::NoMatchingApplication,
                        },
                    ),
                ),
                Ok(u) => (
                    EngineModel {
                        step: EngineStep::ArtifactFetch,
                        launch_path: Some(u),
                        ..m
                    },
                    Ok(EventModel::Continue),
                ),
            },
        },
        EngineStep::ArtifactFetch => if !valid_utf8(r.body) {
            (m, Err(ErrorModel { step: m.step, failure: FailureModel::BodyNotText }))
        } else if find_from(decode_utf8(r.body), "[WFClient]"@, 0, false) is Some {
            (
                EngineModel { step: EngineStep::Complete, ..m },
                Ok(EventModel::Finished("AutoLaunch.ica"@, r.body)),
            )
        } else {
            (m, Err(ErrorModel { step: m.step, failure: FailureModel::InvalidArtifact }))
        },
        EngineStep::Complete => (m, Ok(EventModel::Continue)),
    }
}

/// The state component of a modelled application outcome.
pub open spec fn applied_state(m: EngineModel, r: ResponseModel) -> EngineModel {
    apply_model(m, r).0
}

impl Engine {
    /// Start a fresh attempt from the given settings.  Fails exactly
    /// when the base address does not parse; nothing of any earlier
    /// attempt survives into the new state.
    pub fn new(settings: &Settings) -> (r: Result<Engine, EngineError>)
        ensures
            match r {
                Ok(e) => url_normal_of(settings.base_uri@) is Some && e.inv() && e.model()
                    == init_model(
                    settings.base_uri@,
                    settings.application_name@,
                    settings.login@,
                    settings.passwd@,
                ),
                Err(err) => url_normal_of(settings.base_uri@) is None && err.model() == addr_err(
                    EngineStep::DiscoverEntry,
                ),
            },
    {
        let base_url = match normalize_url(settings.base_uri.as_str()) {
            Some(u) => u,
            None => {
                return Err(
                    EngineError {
                        step: EngineStep::DiscoverEntry,
                        failure: StepFailure::AddressParse,
                    },
                );
            },
        };
        let e = Engine {
            step: EngineStep::DiscoverEntry,
            base_uri: settings.base_uri.clone(),
            base_url,
            application_name: settings.application_name.clone(),
            login: settings.login.clone(),
            passwd: settings.passwd.clone(),
            initial_url: None,
            resource_list_path: None,
            auth_methods_path: None,
            auth_proper_path: None,
            state_context: None,
            auth_path: None,
            follow_up: None,
            internal_url: None,
            internal_path: None,
            csrf_token: None,
            auth_login_path: None,
            launch_path: None,
        };
        proof {
            assert(e.model() =~= init_model(
                settings.base_uri@,
                settings.application_name@,
                settings.login@,
                settings.passwd@,
            ));
        }
        Ok(e)
    }

    /// The custom header pair used from the schema upgrade onward.
    fn custom_headers(&self) -> (r: Vec<HttpHeader>)
        requires
            self.csrf_token is Some,
            self.internal_url is Some,
        ensures
            headers_view(r@) == custom_model(
                self.model().csrf_token->0,
                self.model().internal_url->0,
            ),
    {
        let mut hs: Vec<HttpHeader> = Vec::new();
        hs.push(
            HttpHeader {
                name: "Csrf-Token".to_owned(),
                value: self.csrf_token.as_ref().unwrap().clone(),
            },
        );
        hs.push(
            HttpHeader {
                name: "referer".to_owned(),
                value: self.internal_url.as_ref().unwrap().clone(),
            },
        );
        proof {
            assert(headers_view(hs@) =~= custom_model(
                self.model().csrf_token->0,
                self.model().internal_url->0,
            ));
        }
        hs
    }

    /// Build the request for the current step.
    pub fn next_request(&self) -> (r: Result<HttpRequest, EngineError>)
        requires
            self.inv(),
            !(self.step is Complete),
        ensures
            match r {
                Ok(req) => next_request_model(self.model()) == Ok::<RequestModel, ErrorModel>(
                    req.model(),
                ),
                Err(e) => next_request_model(self.model()) == Err::<RequestModel, ErrorModel>(
                    e.model(),
                ),
            },
    {
        match self.step {
            EngineStep::DiscoverEntry => {
                let req = HttpRequest {
                    method: Method::Get,
                    url: self.base_url.clone(),
                    headers: Vec::new(),
                    body: RequestBody::Empty,
                    use_session: false,
                };
                proof {
                    assert(req.model().headers =~= Seq::<(Seq<char>, Seq<char>)>::empty());
                    assert(req.model() =~= plain_get(self.model().base_url, false));
                }
                Ok(req)
            },
            EngineStep::Configure1 => build_posted(
                self.step,
                self.base_uri.as_str(),
                self.initial_url.as_ref().unwrap().as_str(),
                "Home/Configuration",
                None,
                RequestBody::ZeroLength,
            ),
            EngineStep::ListProbe1 => build_posted(
                self.step,
                self.base_uri.as_str(),
                self.initial_url.as_ref().unwrap().as_str(),
                self.resource_list_path.as_ref().unwrap().as_str(),
                None,
                RequestBody::ZeroLength,
            ),
            EngineStep::AuthMethods1 => build_posted(
                self.step,
                self.base_uri.as_str(),
                self.initial_url.as_ref().unwrap().as_str(),
                self.auth_methods_path.as_ref().unwrap().as_str(),
                None,
                RequestBody::ZeroLength,
            ),
            EngineStep::AuthRequirements => build_posted(
                self.step,
                self.base_uri.as_str(),
                self.base_url.as_str(),
                self.auth_proper_path.as_ref().unwrap().as_str(),
                None,
                RequestBody::Empty,
            ),
            EngineStep::CredentialSubmission => {
                let mut form: Vec<(String, String)> = Vec::new();
                form.push(("login".to_owned(), self.login.clone()));
                form.push(("passwd".to_owned(), self.passwd.clone()));
                form.push(("savecredentials".to_owned(), "false".to_owned()));
                form.push(("nsg-x1-logon-button".to_owned(), "Log On".to_owned()));
                form.push(
                    ("StateContext".to_owned(), self.state_context.as_ref().unwrap().clone()),
                );
                proof {
                    assert(crate::http::form_view(form@) =~= credentials_model(
                        self.model().login,
                        self.model().passwd,
                        self.model().state_context->0,
                    ));
                }
                build_posted(
                    self.step,
                    self.base_uri.as_str(),
                    self.base_url.as_str(),
                    self.auth_path.as_ref().unwrap().as_str(),
                    None,
                    RequestBody::Form(form),
                )
            },
            EngineStep::ClientRegistration => {
                let mut form: Vec<(String, String)> = Vec::new();
                form.push(("nsg-setclient".to_owned(), "wica".to_owned()));
                form.push(
                    ("StateContext".to_owned(), self.state_context.as_ref().unwrap().clone()),
                );
                proof {
                    assert(crate::http::form_view(form@) =~= registration_model(
                        self.model().state_context->0,
                    ));
                }
                let path = match self.follow_up.as_ref().unwrap() {
                    FollowUp::Postback(p) => p,
                    FollowUp::Redirect(p) => p,
                };
                build_posted(
                    self.step,
                    self.base_uri.as_str(),
                    self.base_url.as_str(),
                    path.as_str(),
                    None,
                    RequestBody::Form(form),
                )
            },
            EngineStep::InternalRedirect => {
                let req = HttpRequest {
                    method: Method::Get,
                    url: self.base_url.clone(),
                    headers: Vec::new(),
                    body: RequestBody::Empty,
                    use_session: true,
                };
                proof {
                    assert(req.model().headers =~= Seq::<(Seq<char>, Seq<char>)>::empty());
                    assert(req.model() =~= plain_get(self.model().base_url, true));
                }
                Ok(req)
            },
            EngineStep::Configure2 => {
                let hs = match common_headers(None, self.base_uri.as_str()) {
                    Ok(h) => h,
                    Err(_) => {
                        return Err(
                            EngineError { step: self.step, failure: StepFailure::AddressParse },
                        );
                    },
                };
                let req = HttpRequest {
                    method: Method::Post,
                    url: self.internal_url.as_ref().unwrap().clone(),
                    headers: hs,
                    body: RequestBody::ZeroLength,
                    use_session: true,
                };
                proof {
                    assert(next_request_model(self.model()) == Ok::<RequestModel, ErrorModel>(
                        req.model(),
                    ));
                }
                Ok(req)
            },
            EngineStep::CsrfAcquisition => build_posted(
                self.step,
                self.base_uri.as_str(),
                self.internal_url.as_ref().unwrap().as_str(),
                "Home/Configuration",
                None,
                RequestBody::ZeroLength,
            ),
            EngineStep::ListProbe2 => {
                let custom = self.custom_headers();
                let mut form: Vec<(String, String)> = Vec::new();
                form.push(("format".to_owned(), "json".to_owned()));
                form.push(("resourceDetails".to_owned(), "Default".to_owned()));
                proof {
                    assert(crate::http::form_view(form@) =~= list_form_model());
                }
                build_posted(
                    self.step,
                    self.base_uri.as_str(),
                    self.internal_url.as_ref().unwrap().as_str(),
                    self.resource_list_path.as_ref().unwrap().as_str(),
                    Some(&custom),
                    RequestBody::Form(form),
                )
            },
            EngineStep::AuthMethods2 => {
                let custom = self.custom_headers();
                build_posted(
                    self.step,
                    self.base_uri.as_str(),
                    self.internal_url.as_ref().unwrap().as_str(),
                    self.auth_methods_path.as_ref().unwrap().as_str(),
                    Some(&custom),
                    RequestBody::ZeroLength,
                )
            },
            EngineStep::BasicLogin => {
                let custom = self.custom_headers();
                build_posted(
                    self.step,
                    self.base_uri.as_str(),
                    self.internal_url.as_ref().unwrap().as_str(),
                    self.auth_login_path.as_ref().unwrap().as_str(),
                    Some(&custom),
                    RequestBody::ZeroLength,
                )
            },
            EngineStep::ListFinal => {
                let custom = self.custom_headers();
                let mut form: Vec<(String, String)> = Vec::new();
                form.push(("format".to_owned(), "json".to_owned()));
                form.push(("resourceDetails".to_owned(), "Default".to_owned()));
                proof {
                    assert(crate::http::form_view(form@) =~= list_form_model());
                }
                build_posted(
                    self.step,
                    self.base_uri.as_str(),
                    self.internal_url.as_ref().unwrap().as_str(),
                    self.resource_list_path.as_ref().unwrap().as_str(),
                    Some(&custom),
                    RequestBody::Form(form),
                )
            },
            EngineStep::ArtifactFetch => {
                let mut full = self.internal_url.as_ref().unwrap().clone();
                full.append(self.launch_path.as_ref().unwrap().as_str());
                let u1 = match join_url(self.base_url.as_str(), full.as_str()) {
                    Some(u) => u,
                    None => {
                        return Err(
                            EngineError { step: self.step, failure: StepFailure::AddressParse },
                        );
                    },
                };
                let mut query = "?CsrfToken=".to_owned();
                query.append(self.csrf_token.as_ref().unwrap().as_str());
                query.append("&IsUsingHttps=Yes");
                let u2 = match join_url(u1.as_str(), query.as_str()) {
                    Some(u) => u,
                    None => {
                        return Err(
                            EngineError { step: self.step, failure: StepFailure::AddressParse },
                        );
                    },
                };
                let req = HttpRequest {
                    method: Method::Get,
                    url: u2,
                    headers: Vec::new(),
                    body: RequestBody::Empty,
                    use_session: true,
                };
                proof {
                    assert(req.model().headers =~= Seq::<(Seq<char>, Seq<char>)>::empty());
                    assert(next_request_model(self.model()) == Ok::<RequestModel, ErrorModel>(
                        req.model(),
                    ));
                }
                Ok(req)
            },
            EngineStep::Complete => {
                proof {
                    assert(false);
                }
                Err(EngineError { step: self.step, failure: StepFailure::AddressParse })
            },
        }
    }

    /// Apply the response of the current step: update the state, advance
    /// the pipeline, and report what the caller must do next.  On an
    /// error the state is left unchanged and the attempt is over.
    #[verifier::rlimit(100)]
    pub fn apply_response(&mut self, resp: &HttpResponse) -> (r: Result<EngineEvent, EngineError>)
        requires
            old(self).inv(),
            !(old(self).step is Complete),
        ensures
            final(self).inv(),
            (final(self).model(), outcome_model(r)) == apply_model(
                old(self).model(),
                resp.model(),
            ),
    {
        let step = self.step;
        match step {
            EngineStep::DiscoverEntry => {
                match join_url(resp.final_url.as_str(), "./") {
                    Some(u) => {
                        self.initial_url = Some(u);
                        self.step = EngineStep::Configure1;
                        proof {
                            assert(self.model() =~= applied_state(
                                old(self).model(),
                                resp.model(),
                            ));
                        }
                        Ok(EngineEvent::Continue)
                    },
                    None => Err(EngineError { step, failure: StepFailure::AddressParse }),
                }
            },
            EngineStep::Configure1 => {
                match get_attribute_value(resp.text.as_str(), "resourcesProxy", "listURL") {
                    Ok(p) => {
                        self.resource_list_path = Some(p);
                        self.step = EngineStep::ListProbe1;
                        proof {
                            assert(self.model() =~= applied_state(
                                old(self).model(),
                                resp.model(),
                                ));
                        }
                        Ok(EngineEvent::Continue)
                    },
                    Err(nf) => Err(
                        EngineError { step, failure: StepFailure::MissingTarget(nf.name) },
                    ),
                }
            },
            EngineStep::ListProbe1 => {
                match get_header_attribute(
                    &resp.headers,
                    "CitrixWebReceiver-Authenticate",
                    "location",
                ) {
                    Ok(p) => {
                        self.auth_methods_path = Some(p);
                        self.step = EngineStep::AuthMethods1;
                        proof {
                            assert(self.model() =~= applied_state(
                                old(self).model(),
                                resp.model(),
                                ));
                        }
                        Ok(EngineEvent::Continue)
                    },
                    Err(nf) => Err(
                        EngineError { step, failure: StepFailure::MissingTarget(nf.name) },
                    ),
                }
            },
            EngineStep::AuthMethods1 => {
                match get_attribute_value(
                    resp.text.as_str(),
                    "method name=\"ExplicitForms\"",
                    "url",
                ) {
                    Ok(p) => {
                        self.auth_proper_path = Some(p);
                        self.step = EngineStep::AuthRequirements;
                        proof {
                            assert(self.model() =~= applied_state(
                                old(self).model(),
                                resp.model(),
                                ));
                        }
                        Ok(EngineEvent::Continue)
                    },
                    Err(nf) => Err(
                        EngineError { step, failure: StepFailure::MissingTarget(nf.name) },
                    ),
                }
            },
            EngineStep::AuthRequirements => {
                let sc = match get_element_value(resp.text.as_str(), "StateContext") {
                    Ok(sc) => sc,
                    Err(nf) => {
                        return Err(
                            EngineError { step, failure: StepFailure::MissingTarget(nf.name) },
                        );
                    },
                };
                match get_element_value(resp.text.as_str(), "Postback") {
                    Ok(p) => {
                        self.state_context = Some(sc);
                        self.auth_path = Some(p);
                        self.step = EngineStep::CredentialSubmission;
                        proof {
                            assert(self.model() =~= applied_state(
                                old(self).model(),
                                resp.model(),
                                ));
                        }
                        Ok(EngineEvent::Continue)
                    },
                    Err(nf) => Err(
                        EngineError { step, failure: StepFailure::MissingTarget(nf.name) },
                    ),
                }
            },
            EngineStep::CredentialSubmission => {
                match get_element_value(resp.text.as_str(), "Postback") {
                    Ok(p) => {
                        self.follow_up = Some(FollowUp::Postback(p));
                        self.step = EngineStep::ClientRegistration;
                        proof {
                            assert(self.model() =~= applied_state(
                                old(self).model(),
                                resp.model(),
                                ));
                        }
                        Ok(EngineEvent::Continue)
                    },
                    Err(_) => {
                        match get_element_value(resp.text.as_str(), "RedirectURL") {
                            Ok(p) => {
                                self.follow_up = Some(FollowUp::Redirect(p));
                                self.step = EngineStep::ClientRegistration;
                                proof {
                                    assert(self.model() =~= applied_state(
                                        old(self).model(),
                                        resp.model(),
                                        ));
                                }
                                Ok(EngineEvent::Continue)
                            },
                            Err(nf) => Err(
                                EngineError {
                                    step,
                                    failure: StepFailure::MissingTarget(nf.name),
                                },
                            ),
                        }
                    },
                }
            },
            EngineStep::ClientRegistration => {
                self.step = EngineStep::InternalRedirect;
                proof {
                    assert(self.model() =~= applied_state(old(self).model(), resp.model()));
                }
                Ok(EngineEvent::Continue)
            },
            EngineStep::InternalRedirect => {
                let p = match url_path(resp.final_url.as_str()) {
                    Some(p) => p,
                    None => {
                        return Err(EngineError { step, failure: StepFailure::AddressParse });
                    },
                };
                match join_url(self.base_url.as_str(), p.as_str()) {
                    Some(u) => {
                        self.internal_path = Some(p);
                        self.internal_url = Some(u);
                        self.step = EngineStep::Configure2;
                        proof {
                            assert(self.model() =~= applied_state(
                                old(self).model(),
                                resp.model(),
                                ));
                        }
                        Ok(EngineEvent::Continue)
                    },
                    None => Err(EngineError { step, failure: StepFailure::AddressParse }),
                }
            },
            EngineStep::Configure2 => {
                self.step = EngineStep::CsrfAcquisition;
                proof {
                    assert(self.model() =~= applied_state(old(self).model(), resp.model()));
                }
                Ok(EngineEvent::Continue)
            },
            EngineStep::CsrfAcquisition => {
                let t = match get_cookie_value(&resp.headers, "CsrfToken") {
                    Ok(t) => t,
                    Err(nf) => {
                        return Err(
                            EngineError { step, failure: StepFailure::MissingTarget(nf.name) },
                        );
                    },
                };
                let p = match get_attribute_value(resp.text.as_str(), "resourcesProxy", "listURL") {
                    Ok(p) => p,
                    Err(nf) => {
                        return Err(
                            EngineError { step, failure: StepFailure::MissingTarget(nf.name) },
                        );
                    },
                };
                let d = match url_domain(self.base_url.as_str()) {
                    Some(d) => d,
                    None => {
                        return Err(EngineError { step, failure: StepFailure::AddressParse });
                    },
                };
                let path = self.internal_path.as_ref().unwrap();
                let mut cookies: Vec<CookieDirective> = Vec::new();
                cookies.push(
                    CookieDirective {
                        name: "CtxsClientDetectionDone".to_owned(),
                        value: "true".to_owned(),
                        domain: d.clone(),
                        path: path.clone(),
                    },
                );
                cookies.push(
                    CookieDirective {
                        name: "CtxsHasUpgradeBeenShown".to_owned(),
                        value: "true".to_owned(),
                        domain: d.clone(),
                        path: path.clone(),
                    },
                );
                cookies.push(
                    CookieDirective {
                        name: "CtxsUserPreferredClient".to_owned(),
                        value: "Native".to_owned(),
                        domain: d.clone(),
                        path: path.clone(),
                    },
                );
                proof {
                    assert(cookies@.map_values(|c: CookieDirective| c.model()) =~= inject_model(
                        d@,
                        old(self).model().internal_path->0,
                    ));
                }
                let ev = EngineEvent::InjectCookies(cookies);
                self.csrf_token = Some(t);
                self.resource_list_path = Some(p);
                self.step = EngineStep::ListProbe2;
                proof {
                    assert(self.model() =~= applied_state(old(self).model(), resp.model()));
                }
                Ok(ev)
            },
            EngineStep::ListProbe2 => {
                match get_header_attribute(
                    &resp.headers,
                    "CitrixWebReceiver-Authenticate",
                    "location",
                ) {
                    Ok(p) => {
                        self.auth_methods_path = Some(p);
                        self.step = EngineStep::AuthMethods2;
                        proof {
                            assert(self.model() =~= applied_state(
                                old(self).model(),
                                resp.model(),
                                ));
                        }
                        Ok(EngineEvent::Continue)
                    },
                    Err(nf) => Err(
                        EngineError { step, failure: StepFailure::MissingTarget(nf.name) },
                    ),
                }
            },
            EngineStep::AuthMethods2 => {
                match get_attribute_value(resp.text.as_str(), "method name=\"CitrixAGBasic\"", "url") {
                    Ok(p) => {
                        self.auth_login_path = Some(p);
                        self.step = EngineStep::BasicLogin;
                        proof {
                            assert(self.model() =~= applied_state(
                                old(self).model(),
                                resp.model(),
                                ));
                        }
                        Ok(EngineEvent::Continue)
                    },
                    Err(nf) => Err(
                        EngineError { step, failure: StepFailure::MissingTarget(nf.name) },
                    ),
                }
            },
            EngineStep::BasicLogin => {
                self.step = EngineStep::ListFinal;
                proof {
                    assert(self.model() =~= applied_state(old(self).model(), resp.model()));
                }
                Ok(EngineEvent::Continue)
            },
            EngineStep::ListFinal => {
                match decode_catalog(resp.text.as_str()) {
                    None => Err(EngineError { step, failure: StepFailure::MalformedCatalog }),
                    Some(list) => {
                        match resolve_resource(&list, self.application_name.as_str()) {
                            Ok(u) => {
                                self.launch_path = Some(u);
                                self.step = EngineStep::ArtifactFetch;
                                proof {
                                    assert(self.model() =~= applied_state(
                                        old(self).model(),
                                        resp.model(),
                                    ));
                                }
                                Ok(EngineEvent::Continue)
                            },
                            Err(CatalogError::ResourcesAbsent) => Err(
                                EngineError { step, failure: StepFailure::MalformedCatalog },
                            ),
                            Err(_) => Err(
                                EngineError {
                                    step,
                                    failure: StepFailure::NoMatchingApplication,
                                },
                            ),
                        }
                    },
                }
            },
            EngineStep::ArtifactFetch => {
                let t = match bytes_to_text(&resp.body) {
                    Some(t) => t,
                    None => {
                        return Err(EngineError { step, failure: StepFailure::BodyNotText });
                    },
                };
                let tv = str_chars(t.as_str());
                let marker = str_chars("[WFClient]");
                match find_in(&tv, &marker, 0, false) {
                    Some(_) => {
                        self.step = EngineStep::Complete;
                        let content = copy_bytes(&resp.body);
                        proof {
                            assert(self.model() =~= (EngineModel {
                                step: EngineStep::Complete,
                                ..old(self).model()
                            }));
                        }
                        Ok(
                            EngineEvent::Finished(
                                Artifact { file_name: "AutoLaunch.ica".to_owned(), content },
                            ),
                        )
                    },
                    None => Err(EngineError { step, failure: StepFailure::InvalidArtifact }),
                }
            },
            EngineStep::Complete => {
                proof {
                    assert(false);
                }
                Ok(EngineEvent::Continue)
            },
        }
    }
}

/// A copy of a byte vector.
fn copy_bytes(v: &Vec<u8>) -> (r: Vec<u8>)
    ensures
        r@ == v@,
{
    let n = v.len();
    let mut r: Vec<u8> = Vec::new();
    let mut i: usize = 0;
    while i < n
        invariant
            n == v@.len(),
            i <= n,
            r@ == v@.subrange(0, i as int),
        decreases n - i,
    {
        r.push(v[i]);
        proof {
            assert(r@ =~= v@.subrange(0, i + 1));
        }
        i += 1;
    }
    proof {
        assert(r@ =~= v@);
    }
    r
}

/// Build a POSTed exchange for a step: resolve the relative path, build
/// the common header set, attach the body.
fn build_posted(
    step: EngineStep,
    base_uri: &str,
    base: &str,
    rel: &str,
    custom: Option<&Vec<HttpHeader>>,
    body: RequestBody,
) -> (r: Result<HttpRequest, EngineError>)
    ensures
        match r {
            Ok(req) => posted_request(step, base_uri@, base@, rel@, custom_view(custom), body.model())
                == Ok::<RequestModel, ErrorModel>(req.model()),
            Err(e) => posted_request(step, base_uri@, base@, rel@, custom_view(custom), body.model())
                == Err::<RequestModel, ErrorModel>(e.model()),
        },
{
    let url = match join_url(base, rel) {
        Some(u) => u,
        None => {
            return Err(EngineError { step, failure: StepFailure::AddressParse });
        },
    };
    let hs = match common_headers(custom, base_uri) {
        Ok(h) => h,
        Err(_) => {
            return Err(EngineError { step, failure: StepFailure::AddressParse });
        },
    };
    Ok(HttpRequest { method: Method::Post, url, headers: hs, body, use_session: true })
}

/// One attempt modelled from fresh state through a sequence of
/// responses: fold the step function until a failure or the end of the
/// responses.
pub open spec fn run_model(m: EngineModel, resps: Seq<ResponseModel>) -> Result<
    EngineModel,
    ErrorModel,
>
    decreases resps.len(),
{
    if resps.len() == 0 {
        Ok(m)
    } else {
        match apply_model(m, resps[0]).1 {
            Err(e) => Err(e),
            Ok(_) => run_model(apply_model(m, resps[0]).0, resps.drop_first()),
        }
    }
}

/// Failure is idempotent across attempts: two engines built from the
/// same settings start from the same fresh state, and shown the same
/// responses they take the same steps and fail identically — no state
/// survives from one attempt into the next.
pub proof fn lemma_attempts_independent(
    m1: EngineModel,
    m2: EngineModel,
    resps: Seq<ResponseModel>,
    base_uri: Seq<char>,
    application_name: Seq<char>,
    login: Seq<char>,
    passwd: Seq<char>,
)
    requires
        m1 == init_model(base_uri, application_name, login, passwd),
        m2 == init_model(base_uri, application_name, login, passwd),
    ensures
        run_model(m1, resps) == run_model(m2, resps),
{
}

/// Each successful exchange advances the pipeline by exactly one
/// position and keeps the state well-formed; each failed exchange
/// leaves the state unchanged and tags its error with exactly the
/// failing step, so the first failure aborts the attempt at that step.
/// A successful artifact exchange moreover finishes with the fixed
/// output name and the response's exact bytes, which validate as a
/// launch descriptor.
#[verifier::rlimit(100)]
pub proof fn lemma_step_outcomes(m: EngineModel, r: ResponseModel)
    requires
        wf(m),
        !(m.step is Complete),
    ensures
        ({
            let (m2, out) = apply_model(m, r);
            match out {
                Ok(ev) => wf(m2) && step_ord(m2.step) == step_ord(m.step) + 1 && (m.step
                    is ArtifactFetch ==> artifact_valid(r.body) && ev == EventModel::Finished(
                    "AutoLaunch.ica"@,
                    r.body,
                )),
                Err(e) => m2 == m && e.step == m.step,
            }
        }),
{
}

/// A run of successful exchanges walks the pipeline in order: from a
/// well-formed state, as many successful exchanges as positions remain
/// advance the step exactly that far.
pub proof fn lemma_run_advances(m: EngineModel, resps: Seq<ResponseModel>)
    requires
        wf(m),
        run_model(m, resps) is Ok,
        step_ord(m.step) + resps.len() <= step_ord(EngineStep::Complete),
    ensures
        wf(run_model(m, resps)->Ok_0),
        step_ord((run_model(m, resps)->Ok_0).step) == step_ord(m.step) + resps.len(),
    decreases resps.len(),
{
    if resps.len() > 0 {
        assert(!(m.step is Complete));
        lemma_step_outcomes(m, resps[0]);
        lemma_run_advances(apply_model(m, resps[0]).0, resps.drop_first());
    }
}

proof fn lemma_run_last_artifact(m: EngineModel, resps: Seq<ResponseModel>)
    requires
        wf(m),
        resps.len() > 0,
        run_model(m, resps) is Ok,
        step_ord(m.step) + resps.len() == step_ord(EngineStep::Complete),
    ensures
        artifact_valid(resps.last().body),
    decreases resps.len(),
{
    assert(!(m.step is Complete));
    lemma_step_outcomes(m, resps[0]);
    if resps.len() == 1 {
        assert(step_ord(m.step) == step_ord(EngineStep::ArtifactFetch));
        assert(m.step is ArtifactFetch);
        assert(resps.last() == resps[0]);
    } else {
        lemma_run_last_artifact(apply_model(m, resps[0]).0, resps.drop_first());
        assert(resps.drop_first().last() == resps.last());
    }
}

/// An attempt whose exchanges all succeed completes: fifteen successful
/// exchanges from the fresh state walk the pipeline through its
/// mandatory order, end with the pipeline complete, and the last
/// response's bytes validate as the launch artifact.
pub proof fn lemma_successful_attempt_completes(
    base_uri: Seq<char>,
    application_name: Seq<char>,
    login: Seq<char>,
    passwd: Seq<char>,
    resps: Seq<ResponseModel>,
)
    requires
        resps.len() == 15,
        run_model(init_model(base_uri, application_name, login, passwd), resps) is Ok,
    ensures
        (run_model(init_model(base_uri, application_name, login, passwd), resps)->Ok_0).step
            is Complete,
        artifact_valid(resps.last().body),
{
    let m = init_model(base_uri, application_name, login, passwd);
    lemma_run_advances(m, resps);
    lemma_run_last_artifact(m, resps);
    assert(step_ord((run_model(m, resps)->Ok_0).step) == step_ord(EngineStep::Complete));
    assert((run_model(m, resps)->Ok_0).step is Complete);
}

/// The internal authority exists only after credential submission has
/// succeeded: in any well-formed state that carries it, the pipeline is
/// past the credential-submission exchange.
pub proof fn lemma_internal_authority_after_auth(e: &Engine)
    requires
        e.inv(),
        e.internal_url is Some,
    ensures
        step_ord(e.step) > step_ord(EngineStep::CredentialSubmission),
{
}

/// A downloaded body is a valid launch descriptor exactly when it is
/// text containing the canonical section marker.
pub open spec fn artifact_valid(b: Seq<u8>) -> bool {
    valid_utf8(b) && find_from(decode_utf8(b), "[WFClient]"@, 0, false) is Some
}

/// Decide artifact validity on raw bytes.
pub fn validate_artifact(body: &Vec<u8>) -> (r: bool)
    ensures
        r == artifact_valid(body@),
{
    match bytes_to_text(body) {
        Some(t) => {
            let tv = str_chars(t.as_str());
            let marker = str_chars("[WFClient]");
            match find_in(&tv, &marker, 0, false) {
                Some(_) => true,
                None => false,
            }
        },
        None => false,
    }
}

} // verus!
