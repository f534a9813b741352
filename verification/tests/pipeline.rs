use bevy_ehttp::HttpRequest;
use bevy_ehttp::RequestPipeline;
use bevy_ehttp::RequestResponseExt;
use bevy_ehttp::Response;

fn plain_response(status: u16, body: Vec<u8>) -> Response {
    Response {
        url: "http://example.test/x".to_string(),
        ok: (200..300).contains(&status),
        status,
        status_text: String::new(),
        headers: Vec::new(),
        bytes: body,
    }
}

#[test]
fn submit_does_not_touch_counter() {
    let mut p = RequestPipeline::new(3);
    assert_eq!(p.setting.current_clients, 0);
    p.submit(HttpRequest::get("http://example.test/a".to_string()), None);
    p.submit(HttpRequest::get("http://example.test/b".to_string()), None);
    assert_eq!(p.setting.current_clients, 0);
    assert_eq!(p.pending.len(), 2);
    assert_eq!(p.in_flight.len(), 0);
}

#[test]
fn identifiers_are_fresh_and_ordered() {
    let mut p = RequestPipeline::new(3);
    let a = p.submit(HttpRequest::get("http://example.test/a".to_string()), None);
    let b = p.submit(HttpRequest::get("http://example.test/b".to_string()), None);
    let c = p.submit(HttpRequest::get("http://example.test/c".to_string()), None);
    assert_eq!(a, 0);
    assert_eq!(b, 1);
    assert_eq!(c, 2);
}

#[test]
fn admission_counts_each_request_once() {
    let mut p = RequestPipeline::new(5);
    p.submit(HttpRequest::get("http://example.test/a".to_string()), None);
    p.submit(HttpRequest::get("http://example.test/b".to_string()), None);
    let jobs = p.handle_request();
    assert_eq!(jobs.len(), 2);
    assert_eq!(p.setting.current_clients, 2);
    // no pending records are left, so another sweep admits nothing more
    let jobs_again = p.handle_request();
    assert_eq!(jobs_again.len(), 0);
    assert_eq!(p.setting.current_clients, 2);
}

#[test]
fn scenario_ceiling_of_one_admits_one_at_a_time() {
    let mut p = RequestPipeline::new(1);
    let r1 = p.submit(HttpRequest::get("http://example.test/r1".to_string()), None);
    let r2 = p.submit(HttpRequest::get("http://example.test/r2".to_string()), None);
    let jobs = p.handle_request();
    // exactly one goes in flight; the other stays pending
    assert_eq!(jobs.len(), 1);
    assert_eq!(jobs[0].entity, r1);
    assert_eq!(p.pending.len(), 1);
    assert_eq!(p.in_flight.len(), 1);
    assert!(!p.setting.is_available());
    assert_eq!(p.handle_request().len(), 0);
    // the first outcome is drained; only then is the second admitted
    let job = jobs.into_iter().next().unwrap();
    job.sender
        .send(Ok(plain_response(200, b"done".to_vec())))
        .unwrap();
    let done = p.handle_response();
    assert_eq!(done.len(), 1);
    assert_eq!(done[0].entity, r1);
    assert!(p.setting.is_available());
    let jobs2 = p.handle_request();
    assert_eq!(jobs2.len(), 1);
    assert_eq!(jobs2[0].entity, r2);
}

#[test]
fn scenario_transport_error_still_releases_slot() {
    let mut p = RequestPipeline::new(1);
    let r1 = p.submit(HttpRequest::get("http://example.test/r1".to_string()), None);
    let jobs = p.handle_request();
    let job = jobs.into_iter().next().unwrap();
    job.sender.send(Err("ConnectionRefused".to_string())).unwrap();
    let done = p.handle_response();
    assert_eq!(done.len(), 1);
    assert_eq!(done[0].entity, r1);
    assert!(matches!(&done[0].response, Err(e) if e == "ConnectionRefused"));
    assert!(!done[0].success());
    // the slot is released even though the fetch failed
    assert_eq!(p.setting.current_clients, 0);
    assert!(p.setting.is_available());
}

#[test]
fn scenario_zero_ceiling_admits_nothing_ever() {
    let mut p = RequestPipeline::new(0);
    p.submit(HttpRequest::get("http://example.test/never".to_string()), None);
    for _ in 0..5 {
        assert_eq!(p.handle_request().len(), 0);
        assert_eq!(p.handle_response().len(), 0);
        assert_eq!(p.setting.current_clients, 0);
        assert_eq!(p.pending.len(), 1);
        assert_eq!(p.in_flight.len(), 0);
    }
}

#[test]
fn polling_an_empty_channel_changes_nothing() {
    let mut p = RequestPipeline::new(2);
    let r1 = p.submit(HttpRequest::get("http://example.test/slow".to_string()), None);
    let jobs = p.handle_request();
    assert_eq!(jobs.len(), 1);
    // the fetch has not finished: any number of sweeps finds nothing and
    // leaves the entry in flight
    for _ in 0..5 {
        assert_eq!(p.handle_response().len(), 0);
        assert_eq!(p.in_flight.len(), 1);
        assert_eq!(p.in_flight[0].entity, r1);
        assert_eq!(p.setting.current_clients, 1);
    }
    // once the outcome arrives, one more sweep drains it
    let job = jobs.into_iter().next().unwrap();
    job.sender
        .send(Ok(plain_response(204, Vec::new())))
        .unwrap();
    let done = p.handle_response();
    assert_eq!(done.len(), 1);
    assert_eq!(done[0].entity, r1);
    assert_eq!(p.in_flight.len(), 0);
}

#[test]
fn exactly_one_outcome_per_request() {
    let mut p = RequestPipeline::new(3);
    let a = p.submit(HttpRequest::get("http://example.test/a".to_string()), None);
    let b = p.submit(HttpRequest::get("http://example.test/b".to_string()), None);
    let c = p.submit(HttpRequest::get("http://example.test/c".to_string()), None);
    let mut jobs = p.handle_request();
    assert_eq!(jobs.len(), 3);
    // two finish in the same tick, one later: every request yields exactly
    // one completion event, none twice, none lost
    let third = jobs.pop().unwrap();
    for job in jobs {
        job.sender
            .send(Ok(plain_response(200, Vec::new())))
            .unwrap();
    }
    let mut seen: Vec<u64> = p.handle_response().iter().map(|e| e.entity).collect();
    assert_eq!(seen.len(), 2);
    assert_eq!(p.handle_response().len(), 0);
    third
        .sender
        .send(Ok(plain_response(200, Vec::new())))
        .unwrap();
    let late = p.handle_response();
    assert_eq!(late.len(), 1);
    seen.push(late[0].entity);
    seen.sort_unstable();
    assert_eq!(seen, vec![a, b, c]);
    assert_eq!(p.setting.current_clients, 0);
}

#[test]
fn abandoned_receiver_drops_outcome_silently() {
    let mut p = RequestPipeline::new(1);
    p.submit(HttpRequest::get("http://example.test/gone".to_string()), None);
    let jobs = p.handle_request();
    // the caller's record is discarded before the fetch completes
    p.in_flight.clear();
    p.setting.release();
    let job = jobs.into_iter().next().unwrap();
    // the executor's send fails quietly; nothing panics, nothing is published
    let _ = job.sender.send(Ok(plain_response(200, Vec::new())));
    assert_eq!(p.handle_response().len(), 0);
}

#[test]
fn lowered_ceiling_lets_in_flight_requests_finish() {
    let mut p = RequestPipeline::new(2);
    p.submit(HttpRequest::get("http://example.test/a".to_string()), None);
    p.submit(HttpRequest::get("http://example.test/b".to_string()), None);
    let jobs = p.handle_request();
    assert_eq!(jobs.len(), 2);
    p.setting.max_concurrent = 1;
    // both stay in flight; nothing is cancelled
    assert_eq!(p.handle_response().len(), 0);
    assert_eq!(p.in_flight.len(), 2);
    for job in jobs {
        job.sender
            .send(Ok(plain_response(200, Vec::new())))
            .unwrap();
    }
    assert_eq!(p.handle_response().len(), 2);
    assert_eq!(p.setting.current_clients, 0);
}

#[test]
fn admission_fills_only_the_free_capacity() {
    let mut p = RequestPipeline::new(2);
    let a = p.submit(HttpRequest::get("http://example.test/a".to_string()), None);
    let b = p.submit(HttpRequest::get("http://example.test/b".to_string()), None);
    let c = p.submit(HttpRequest::get("http://example.test/c".to_string()), None);
    let jobs = p.handle_request();
    // two slots, three submissions: the first two go, in submission order
    assert_eq!(jobs.len(), 2);
    assert_eq!(jobs[0].entity, a);
    assert_eq!(jobs[1].entity, b);
    assert_eq!(p.pending.len(), 1);
    assert_eq!(p.pending[0].entity, c);
    assert_eq!(p.setting.current_clients, 2);
}
