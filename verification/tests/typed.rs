use bevy_ehttp::HttpRequest;
use bevy_ehttp::OnResponseTyped;
use bevy_ehttp::Request;
use bevy_ehttp::RequestBundle;
use bevy_ehttp::RequestPipeline;
use bevy_ehttp::RequestResponseExt;
use bevy_ehttp::Response;
use bevy_ehttp::ResponseString;
use bevy_ehttp::on_typed_response;

const IP_TAG: u64 = 7;

#[derive(Debug, PartialEq)]
struct IpRecord {
    ip: String,
}

fn parse_ip(s: String) -> Option<IpRecord> {
    let v: serde_json::Value = serde_json::from_str(&s).ok()?;
    let ip = v.get("ip")?.as_str()?.to_string();
    Some(IpRecord { ip })
}

fn plain_response(status: u16, body: Vec<u8>) -> Response {
    Response {
        url: "http://example.test/ip".to_string(),
        ok: (200..300).contains(&status),
        status,
        status_text: String::new(),
        headers: Vec::new(),
        bytes: body,
    }
}

#[test]
fn scenario_typed_parse_success() {
    let mut p = RequestPipeline::new(1);
    let bundle: RequestBundle<IpRecord> =
        RequestBundle::get("http://example.test/ip".to_string());
    let id = p.submit(bundle.request, Some(IP_TAG));
    let jobs = p.handle_request();
    let job = jobs.into_iter().next().unwrap();
    job.sender
        .send(Ok(plain_response(200, b"{\"ip\":\"1.2.3.4\"}".to_vec())))
        .unwrap();
    let event = p.handle_response().into_iter().next().unwrap();
    assert!(event.success());
    let registered = p.type_tag(id) == Some(IP_TAG);
    assert!(registered);
    let typed = on_typed_response(event, registered, parse_ip).unwrap();
    assert_eq!(
        typed.data,
        Some(IpRecord { ip: "1.2.3.4".to_string() })
    );
    assert_eq!(typed.entity, id);
    assert!(typed.success());
}

#[test]
fn scenario_404_with_empty_body_parses_to_none() {
    let rs = ResponseString {
        response: Ok(plain_response(404, Vec::new())),
        entity: 0,
    };
    // the outcome itself is a structural success with `ok == false` ...
    assert!(!rs.success());
    match &rs.response {
        Ok(resp) => {
            assert_eq!(resp.status, 404);
            assert!(!resp.ok);
            assert!(resp.bytes.is_empty());
        }
        Err(_) => panic!("a 404 is not a transport error"),
    }
    // ... and the empty body is not parseable, so the typed data is None
    let typed = on_typed_response(rs, true, parse_ip).unwrap();
    assert_eq!(typed.data, None);
    assert!(!typed.success());
}

#[test]
fn transport_error_parses_to_none() {
    let rs = ResponseString {
        response: Err("ConnectionRefused".to_string()),
        entity: 3,
    };
    let typed = on_typed_response(rs, true, parse_ip).unwrap();
    assert_eq!(typed.data, None);
    assert!(matches!(&typed.request, Err(e) if e == "ConnectionRefused"));
    assert_eq!(typed.url(), Err(&"ConnectionRefused".to_string()));
}

#[test]
fn unregistered_identifier_gets_no_typed_event() {
    let rs = ResponseString {
        response: Ok(plain_response(200, b"{\"ip\":\"1.2.3.4\"}".to_vec())),
        entity: 0,
    };
    assert!(on_typed_response::<IpRecord, _>(rs, false, parse_ip).is_none());
}

#[test]
fn error_status_with_parseable_body_still_parses() {
    // a 4xx/5xx status is not a taxonomy error: the body is still parsed
    let rs = ResponseString {
        response: Ok(plain_response(500, b"{\"ip\":\"9.9.9.9\"}".to_vec())),
        entity: 1,
    };
    let data = OnResponseTyped::try_parse(&rs, parse_ip);
    assert_eq!(data, Some(IpRecord { ip: "9.9.9.9".to_string() }));
}

#[test]
fn non_utf8_body_parses_to_none() {
    let rs = ResponseString {
        response: Ok(plain_response(200, vec![0xff, 0xfe, 0x80])),
        entity: 2,
    };
    let data = OnResponseTyped::try_parse(&rs, parse_ip);
    assert_eq!(data, None);
}

#[test]
fn bundle_headers_accumulate_in_order() {
    let bundle: RequestBundle<IpRecord> =
        RequestBundle::get("http://example.test/ip".to_string())
            .with_header("X-One".to_string(), "1".to_string())
            .with_header("X-One".to_string(), "2".to_string());
    let headers = &bundle.request.0.headers;
    assert_eq!(headers.len(), 3);
    assert_eq!(headers[0], ("Accept".to_string(), "*/*".to_string()));
    assert_eq!(headers[1], ("X-One".to_string(), "1".to_string()));
    assert_eq!(headers[2], ("X-One".to_string(), "2".to_string()));
}

#[test]
fn bundle_new_keeps_the_request() {
    let req = Request::post(
        "http://example.test/submit".to_string(),
        b"payload".to_vec(),
    );
    let bundle: RequestBundle<IpRecord> = RequestBundle::new(req);
    assert_eq!(bundle.request.0.method, "POST");
    assert_eq!(bundle.request.0.url, "http://example.test/submit");
    assert_eq!(bundle.request.0.body, b"payload".to_vec());
}

#[test]
fn type_tags_survive_completion() {
    let mut p = RequestPipeline::new(1);
    let id = p.submit(
        HttpRequest::get("http://example.test/ip".to_string()),
        Some(IP_TAG),
    );
    let untagged = p.submit(
        HttpRequest::get("http://example.test/other".to_string()),
        None,
    );
    let jobs = p.handle_request();
    jobs.into_iter()
        .next()
        .unwrap()
        .sender
        .send(Ok(plain_response(200, Vec::new())))
        .unwrap();
    p.handle_response();
    assert_eq!(p.type_tag(id), Some(IP_TAG));
    assert_eq!(p.type_tag(untagged), None);
}
