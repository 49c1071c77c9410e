use storefront::engine::{
    validate_artifact, Engine, EngineEvent, EngineStep, StepFailure,
};
use storefront::http::{HttpHeader, HttpRequest, HttpResponse, Method, RequestBody};
use storefront::settings::Settings;

fn settings() -> Settings {
    Settings {
        base_uri: "https://gw.example.com/".to_string(),
        application_name: "MyApp".to_string(),
        login: "user".to_string(),
        passwd: "secret".to_string(),
        target: "".to_string(),
        maximization_active: false,
    }
}

fn response(final_url: &str, headers: Vec<(&str, &str)>, text: &str) -> HttpResponse {
    HttpResponse {
        final_url: final_url.to_string(),
        headers: headers
            .into_iter()
            .map(|(n, v)| HttpHeader {
                name: n.to_string(),
                value: v.to_string(),
            })
            .collect(),
        text: text.to_string(),
        body: text.as_bytes().to_vec(),
    }
}

/// The canned response each exchange of a successful attempt gets.
fn canned(step: EngineStep) -> HttpResponse {
    match step {
        EngineStep::DiscoverEntry => response(
            "https://gw.example.com/Logon/LogonPoint/index.html",
            vec![],
            "",
        ),
        EngineStep::Configure1 => response(
            "https://gw.example.com/Logon/LogonPoint/Home/Configuration",
            vec![],
            "<config><resourcesProxy listURL=\"./resources/list\" /></config>",
        ),
        EngineStep::ListProbe1 => response(
            "https://gw.example.com/Logon/LogonPoint/resources/list",
            vec![(
                "CitrixWebReceiver-Authenticate",
                "CitrixAuth realm=\"store\", location=\"auth/methods\"",
            )],
            "",
        ),
        EngineStep::AuthMethods1 => response(
            "https://gw.example.com/Logon/LogonPoint/auth/methods",
            vec![],
            "<methods><method name=\"ExplicitForms\" url=\"/auth/explicit\"/><method name=\"CitrixAGBasic\" url=\"/auth/basic\"/></methods>",
        ),
        EngineStep::AuthRequirements => response(
            "https://gw.example.com/auth/explicit",
            vec![],
            "<AuthenticateResponse><StateContext>ctx42</StateContext><Postback>/auth/post</Postback></AuthenticateResponse>",
        ),
        EngineStep::CredentialSubmission => response(
            "https://gw.example.com/auth/post",
            vec![],
            "<AuthenticateResponse><Postback>/auth/setclient</Postback></AuthenticateResponse>",
        ),
        EngineStep::ClientRegistration => {
            response("https://gw.example.com/auth/setclient", vec![], "")
        }
        EngineStep::InternalRedirect => {
            response("https://gw.example.com/Citrix/StoreWeb/", vec![], "")
        }
        EngineStep::Configure2 => response("https://gw.example.com/Citrix/StoreWeb/", vec![], ""),
        EngineStep::CsrfAcquisition => response(
            "https://gw.example.com/Citrix/StoreWeb/Home/Configuration",
            vec![(
                "Set-Cookie",
                "CsrfToken=tok123; Secure; Path=/Citrix/StoreWeb/",
            )],
            "<config><resourcesProxy listURL=\"./list/v2\" /></config>",
        ),
        EngineStep::ListProbe2 => response(
            "https://gw.example.com/Citrix/StoreWeb/list/v2",
            vec![(
                "CitrixWebReceiver-Authenticate",
                "CitrixAuth realm=\"store\", location=\"auth/v2\"",
            )],
            "",
        ),
        EngineStep::AuthMethods2 => response(
            "https://gw.example.com/Citrix/StoreWeb/auth/v2",
            vec![],
            "<methods><method name=\"CitrixAGBasic\" url=\"/auth/basic2\"/></methods>",
        ),
        EngineStep::BasicLogin => response("https://gw.example.com/auth/basic2", vec![], ""),
        EngineStep::ListFinal => response(
            "https://gw.example.com/Citrix/StoreWeb/list/v2",
            vec![],
            "{\"resources\":[{\"name\":\"Other\",\"launchurl\":\"other/ica\"},{\"name\":\"MyApp\",\"launchurl\":\"launchica/1\"}]}",
        ),
        EngineStep::ArtifactFetch => response(
            "https://gw.example.com/Citrix/StoreWeb/launchica/1",
            vec![],
            "[WFClient]\nVersion=2\n",
        ),
        EngineStep::Complete => response("", vec![], ""),
    }
}

/// Drive one attempt against canned responses, with one step's response
/// optionally replaced.  Returns the requests issued and the outcome.
fn drive(
    replace: Option<(EngineStep, HttpResponse)>,
) -> (Vec<HttpRequest>, Result<EngineEvent, storefront::engine::EngineError>) {
    let mut engine = Engine::new(&settings()).unwrap();
    let mut requests = Vec::new();
    loop {
        let req = match engine.next_request() {
            Ok(r) => r,
            Err(e) => return (requests, Err(e)),
        };
        requests.push(req);
        let step = engine.step;
        let resp = match &replace {
            Some((s, r)) if *s == step => r.clone(),
            _ => canned(step),
        };
        match engine.apply_response(&resp) {
            Ok(EngineEvent::Finished(a)) => return (requests, Ok(EngineEvent::Finished(a))),
            Ok(_) => continue,
            Err(e) => return (requests, Err(e)),
        }
    }
}

#[test]
fn full_attempt_reaches_artifact() {
    let (requests, outcome) = drive(None);
    assert_eq!(requests.len(), 15);
    match outcome.unwrap() {
        EngineEvent::Finished(a) => {
            assert!(!a.file_name.is_empty());
            assert_eq!(a.file_name, "AutoLaunch.ica");
            assert_eq!(a.content, b"[WFClient]\nVersion=2\n".to_vec());
        }
        _ => panic!("expected a finished artifact"),
    }
}

#[test]
fn full_attempt_issues_the_wire_contract() {
    let (requests, _) = drive(None);
    // Entry discovery: a plain fetch of the base address, outside the
    // session.
    assert_eq!(requests[0].method, Method::Get);
    assert_eq!(requests[0].url, "https://gw.example.com/");
    assert!(!requests[0].use_session);
    // First configuration call: the fixed relative path off the initial
    // authority, with the fixed header set.
    assert_eq!(requests[1].method, Method::Post);
    assert_eq!(
        requests[1].url,
        "https://gw.example.com/Logon/LogonPoint/Home/Configuration"
    );
    assert_eq!(requests[1].body, RequestBody::ZeroLength);
    let names: Vec<&str> = requests[1].headers.iter().map(|h| h.name.as_str()).collect();
    assert_eq!(
        names,
        vec!["host", "origin", "X-Citrix-Isusinghttps", "X-Requested-With"]
    );
    assert_eq!(requests[1].headers[0].value, "gw.example.com");
    // Credential submission: the literal form field names.
    let form = match &requests[5].body {
        RequestBody::Form(f) => f.clone(),
        _ => panic!("expected a form"),
    };
    assert_eq!(
        form,
        vec![
            ("login".to_string(), "user".to_string()),
            ("passwd".to_string(), "secret".to_string()),
            ("savecredentials".to_string(), "false".to_string()),
            ("nsg-x1-logon-button".to_string(), "Log On".to_string()),
            ("StateContext".to_string(), "ctx42".to_string()),
        ]
    );
    // The doomed list probe carries the upgraded headers and the catalog
    // form.
    let probe = &requests[10];
    assert_eq!(probe.url, "https://gw.example.com/Citrix/StoreWeb/list/v2");
    let upgraded: Vec<(&str, &str)> = probe
        .headers
        .iter()
        .map(|h| (h.name.as_str(), h.value.as_str()))
        .collect();
    assert!(upgraded.contains(&("Csrf-Token", "tok123")));
    assert!(upgraded.contains(&("referer", "https://gw.example.com/Citrix/StoreWeb/")));
    match &probe.body {
        RequestBody::Form(f) => assert_eq!(
            f.clone(),
            vec![
                ("format".to_string(), "json".to_string()),
                ("resourceDetails".to_string(), "Default".to_string()),
            ]
        ),
        _ => panic!("expected a form"),
    }
    // The artifact download address carries the CSRF token and the
    // secure-transport flag.
    assert_eq!(
        requests[14].url,
        "https://gw.example.com/Citrix/StoreWeb/launchica/1?CsrfToken=tok123&IsUsingHttps=Yes"
    );
    assert_eq!(requests[14].method, Method::Get);
}

#[test]
fn schema_upgrade_injects_capability_cookies() {
    let mut engine = Engine::new(&settings()).unwrap();
    let mut cookies = None;
    loop {
        engine.next_request().unwrap();
        let step = engine.step;
        match engine.apply_response(&canned(step)).unwrap() {
            EngineEvent::InjectCookies(cs) => {
                cookies = Some(cs);
                break;
            }
            _ => continue,
        }
    }
    let cs = cookies.unwrap();
    let triples: Vec<(String, String, String, String)> = cs
        .into_iter()
        .map(|c| (c.name, c.value, c.domain, c.path))
        .collect();
    assert_eq!(
        triples,
        vec![
            (
                "CtxsClientDetectionDone".to_string(),
                "true".to_string(),
                "gw.example.com".to_string(),
                "/Citrix/StoreWeb/".to_string()
            ),
            (
                "CtxsHasUpgradeBeenShown".to_string(),
                "true".to_string(),
                "gw.example.com".to_string(),
                "/Citrix/StoreWeb/".to_string()
            ),
            (
                "CtxsUserPreferredClient".to_string(),
                "Native".to_string(),
                "gw.example.com".to_string(),
                "/Citrix/StoreWeb/".to_string()
            ),
        ]
    );
}

#[test]
fn redirect_fallback_branch() {
    let alt = response(
        "https://gw.example.com/auth/post",
        vec![],
        "<AuthenticateResponse><RedirectURL>/auth/redirected</RedirectURL></AuthenticateResponse>",
    );
    let mut engine = Engine::new(&settings()).unwrap();
    loop {
        let _ = engine.next_request().unwrap();
        let step = engine.step;
        let resp = if step == EngineStep::CredentialSubmission {
            alt.clone()
        } else {
            canned(step)
        };
        engine.apply_response(&resp).unwrap();
        if engine.step == EngineStep::ClientRegistration {
            break;
        }
    }
    let req = engine.next_request().unwrap();
    assert_eq!(req.url, "https://gw.example.com/auth/redirected");
}

/// Each exchange whose response carries an extraction target, with an
/// empty response in its place, must fail at exactly that step.
#[test]
fn omitted_target_fails_at_that_step() {
    let fragile = vec![
        (EngineStep::Configure1, 2),
        (EngineStep::ListProbe1, 3),
        (EngineStep::AuthMethods1, 4),
        (EngineStep::AuthRequirements, 5),
        (EngineStep::CredentialSubmission, 6),
        (EngineStep::CsrfAcquisition, 10),
        (EngineStep::ListProbe2, 11),
        (EngineStep::AuthMethods2, 12),
        (EngineStep::ListFinal, 14),
        (EngineStep::ArtifactFetch, 15),
    ];
    for (step, exchange_count) in fragile {
        let empty = response("https://gw.example.com/x", vec![], "");
        let (requests, outcome) = drive(Some((step, empty)));
        let err = outcome.unwrap_err();
        assert_eq!(err.step, step, "failure not at the altered step");
        // The failing exchange was the last one: nothing was issued
        // past it.
        assert_eq!(requests.len(), exchange_count);
    }
}

#[test]
fn missing_target_errors_carry_the_searched_name() {
    let empty = response("https://gw.example.com/x", vec![], "");
    let (_, outcome) = drive(Some((EngineStep::CsrfAcquisition, empty)));
    match outcome.unwrap_err().failure {
        StepFailure::MissingTarget(name) => assert_eq!(name, "CsrfToken"),
        other => panic!("unexpected failure {:?}", other),
    }
}

#[test]
fn catalog_without_match_fails_with_no_matching_application() {
    let wrong = response(
        "https://gw.example.com/Citrix/StoreWeb/list/v2",
        vec![],
        "{\"resources\":[{\"name\":\"Other\",\"launchurl\":\"other/ica\"}]}",
    );
    let (_, outcome) = drive(Some((EngineStep::ListFinal, wrong)));
    let err = outcome.unwrap_err();
    assert_eq!(err.step, EngineStep::ListFinal);
    assert!(matches!(err.failure, StepFailure::NoMatchingApplication));
}

#[test]
fn catalog_with_absent_sequence_is_malformed() {
    let wrong = response(
        "https://gw.example.com/Citrix/StoreWeb/list/v2",
        vec![],
        "{\"unauthorized\":true}",
    );
    let (_, outcome) = drive(Some((EngineStep::ListFinal, wrong)));
    let err = outcome.unwrap_err();
    assert_eq!(err.step, EngineStep::ListFinal);
    assert!(matches!(err.failure, StepFailure::MalformedCatalog));
}

#[test]
fn unvalidated_artifact_is_rejected() {
    let wrong = response(
        "https://gw.example.com/Citrix/StoreWeb/launchica/1",
        vec![],
        "<html>session expired</html>",
    );
    let (_, outcome) = drive(Some((EngineStep::ArtifactFetch, wrong)));
    let err = outcome.unwrap_err();
    assert_eq!(err.step, EngineStep::ArtifactFetch);
    assert!(matches!(err.failure, StepFailure::InvalidArtifact));
}

#[test]
fn artifact_validation_on_raw_bytes() {
    assert!(validate_artifact(
        &b"[WFClient]\nVersion=2\n".to_vec()
    ));
    assert!(validate_artifact(
        &b"leading text [WFClient] trailing".to_vec()
    ));
    assert!(!validate_artifact(&b"no marker here".to_vec()));
    assert!(!validate_artifact(&vec![0xff, 0xfe, 0x00]));
}

#[test]
fn base_uri_must_parse() {
    let mut s = settings();
    s.base_uri = "not a url".to_string();
    let err = Engine::new(&s).unwrap_err();
    assert_eq!(err.step, EngineStep::DiscoverEntry);
    assert!(matches!(err.failure, StepFailure::AddressParse));
}

/// Two consecutive attempts against a server that always rejects
/// credentials run the same steps and fail identically: nothing leaks
/// from the first attempt into the second.
#[test]
fn failed_attempts_are_independent() {
    let reject = response(
        "https://gw.example.com/auth/post",
        vec![],
        "<AuthenticateResponse>denied</AuthenticateResponse>",
    );
    let run = || drive(Some((EngineStep::CredentialSubmission, reject.clone())));
    let (requests1, outcome1) = run();
    let (requests2, outcome2) = run();
    assert_eq!(requests1, requests2);
    assert_eq!(requests1.len(), 6);
    let e1 = outcome1.unwrap_err();
    let e2 = outcome2.unwrap_err();
    assert_eq!(e1, e2);
    assert_eq!(e1.step, EngineStep::CredentialSubmission);
    match e1.failure {
        StepFailure::MissingTarget(name) => assert_eq!(name, "RedirectURL"),
        other => panic!("unexpected failure {:?}", other),
    }
}
