use image_bot::job::{body_from_quoted, fetch_key_of, fetch_url, job_handle_from, request_body, submit_url, GenerationRequest, JobError};
use image_bot::market::{format_snapshot, market_entries, market_url, snapshot_message, FetchError, MarketEntry};
use image_bot::poll::{poll_status_from, poll_status_of, PollAction, PollFailure, PollStatus, Poller, DEFAULT_MAX_ATTEMPTS, POLL_DELAY_MILLIS};

/// Runs a poll sequence against answers given in advance; returns the
/// number of queries and how it ended.
fn run_against(max: u32, answers: &[PollStatus]) -> (usize, PollAction) {
    let mut poller = Poller::new(max);
    let mut action = poller.start();
    let mut calls = 0usize;
    while let PollAction::Poll = action {
        let st = match &answers[calls] {
            PollStatus::Pending => PollStatus::Pending,
            PollStatus::Ready(u) => PollStatus::Ready(u.clone()),
            PollStatus::Malformed => PollStatus::Malformed,
        };
        calls += 1;
        action = poller.observe(st);
    }
    (calls, action)
}

#[test]
fn ready_after_some_pending_answers() {
    for k in 0..11usize {
        let mut answers: Vec<PollStatus> = (0..k).map(|_| PollStatus::Pending).collect();
        answers.push(PollStatus::Ready("https://img.example/p.png".to_string()));
        for _ in 0..20 {
            answers.push(PollStatus::Pending);
        }
        let (calls, action) = run_against(11, &answers);
        assert_eq!(calls, k + 1);
        match action {
            PollAction::Deliver(u) => assert_eq!(u, "https://img.example/p.png"),
            _ => panic!("no picture"),
        }
    }
}

#[test]
fn never_ready_times_out_after_the_bound() {
    let answers: Vec<PollStatus> = (0..30).map(|_| PollStatus::Pending).collect();
    let (calls, action) = run_against(11, &answers);
    assert_eq!(calls, 11);
    assert!(matches!(action, PollAction::GiveUp(PollFailure::Timeout)));
}

#[test]
fn zero_bound_makes_no_query() {
    let (calls, action) = run_against(0, &[]);
    assert_eq!(calls, 0);
    assert!(matches!(action, PollAction::GiveUp(PollFailure::Timeout)));
}

#[test]
fn unreadable_answer_ends_the_sequence() {
    let answers = vec![PollStatus::Pending, PollStatus::Malformed, PollStatus::Pending];
    let (calls, action) = run_against(11, &answers);
    assert_eq!(calls, 2);
    assert!(matches!(action, PollAction::GiveUp(PollFailure::Parse)));
}

#[test]
fn poller_settings() {
    assert_eq!(DEFAULT_MAX_ATTEMPTS, 11);
    assert_eq!(POLL_DELAY_MILLIS, 10000);
    let p = Poller::new(3);
    assert_eq!(p.attempts, 0);
    assert_eq!(p.max_attempts, 3);
    assert!(!p.finished);
}

#[test]
fn status_answers() {
    match poll_status_of(r#"{"data":{"picUrl":"https://img.example/a.png"}}"#) {
        PollStatus::Ready(u) => assert_eq!(u, "https://img.example/a.png"),
        _ => panic!("not ready"),
    }
    assert!(matches!(poll_status_of(r#"{"data":{"picUrl":""}}"#), PollStatus::Pending));
    assert!(matches!(poll_status_of(r#"{"data":{}}"#), PollStatus::Pending));
    assert!(matches!(poll_status_of(r#"{"data":{"picUrl":null}}"#), PollStatus::Pending));
    assert!(matches!(poll_status_of("not json"), PollStatus::Malformed));
}

#[test]
fn status_from_lookup_results() {
    assert!(matches!(poll_status_from(Ok(None)), PollStatus::Pending));
    assert!(matches!(poll_status_from(Ok(Some(String::new()))), PollStatus::Pending));
    match poll_status_from(Ok(Some("u".to_string()))) {
        PollStatus::Ready(u) => assert_eq!(u, "u"),
        _ => panic!("not ready"),
    }
    let err = serde_json::from_str::<serde_json::Value>("{").unwrap_err();
    assert!(matches!(poll_status_from(Err(err)), PollStatus::Malformed));
}

#[test]
fn fetch_key_found() {
    assert_eq!(fetch_key_of(r#"{"data":{"fetchKey":"abc123"},"code":0}"#), Ok("abc123".to_string()));
}

#[test]
fn fetch_key_missing() {
    assert_eq!(fetch_key_of(r#"{"data":{}}"#), Err(JobError::MissingFetchKey));
    assert_eq!(fetch_key_of(r#"{"data":{"fetchKey":7}}"#), Err(JobError::MissingFetchKey));
}

#[test]
fn fetch_key_unparsable() {
    assert_eq!(fetch_key_of("<html>busy</html>"), Err(JobError::Parse));
}

#[test]
fn job_handle_from_lookup_results() {
    assert_eq!(job_handle_from(Ok(Some("k".to_string()))), Ok("k".to_string()));
    assert_eq!(job_handle_from(Ok(None)), Err(JobError::MissingFetchKey));
    let err = serde_json::from_str::<serde_json::Value>("[").unwrap_err();
    assert_eq!(job_handle_from(Err(err)), Err(JobError::Parse));
}

#[test]
fn addresses() {
    assert_eq!(submit_url(), "https://miaoshouai.com/playground/translation/produce/do/text2img");
    assert_eq!(
        fetch_url("k1"),
        "https://miaoshouai.com/playground/translation/produce/get/fetchResult?fetchKey=k1"
    );
    assert_eq!(
        market_url("https://api.example"),
        "https://api.example/api/v2/projects?page=1&page_size=10&date_range=24h&sort_dim=volume"
    );
}

const SETTINGS: &str = r#","width":512,"height":512,"batch_size":1,"num_inference_steps":20,"sampler":"Euler a","seed":-1,"cfg_scale":7}"#;

#[test]
fn body_is_quoted_json() {
    let req = GenerationRequest {
        model_id: "inkpunk".to_string(),
        positive_prompt: "say \"hi\"".to_string(),
        negative_prompt: "back\\slash".to_string(),
    };
    let body = request_body("KEY", &req);
    let expected = format!(
        r#"{{"apiKey":"KEY","model_id":"inkpunk","prompt":"say \"hi\"","negative_prompt":"back\\slash"{}"#,
        SETTINGS
    );
    assert_eq!(body, expected);
    let v: serde_json::Value = serde_json::from_str(&body).unwrap();
    assert_eq!(v["prompt"].as_str(), Some("say \"hi\""));
    assert_eq!(v["negative_prompt"].as_str(), Some("back\\slash"));
    assert_eq!(v["width"].as_i64(), Some(512));
}

#[test]
fn body_from_quoted_parts() {
    let body = body_from_quoted("\"k\"", "\"m\"", "\"p\"", "\"n\"");
    assert_eq!(
        body,
        format!(r#"{{"apiKey":"k","model_id":"m","prompt":"p","negative_prompt":"n"{}"#, SETTINGS)
    );
}

const FIXTURE: &str = r#"{"data":{"data":[
  {"name":"Alpha","main_token_address":"0xaaa","tokens":[{"price":1.5},{"price":9}]},
  {"name":"Beta","main_token_address":"0xbbb","tokens":[{"symbol":"B"}]},
  {"name":"Gamma","main_token_address":"0xccc","tokens":[{"price":"0.25"}]}
]}}"#;

#[test]
fn snapshot_of_three_entries() {
    let msg = snapshot_message(FIXTURE).unwrap();
    assert_eq!(
        msg,
        "Alpha\n0xaaa\nPrice: 1.5\n\nBeta\n0xbbb\n\nGamma\n0xccc\nPrice: 0.25\n\n"
    );
    assert_eq!(msg.matches("Price: ").count(), 2);
}

#[test]
fn snapshot_entries() {
    let es = market_entries(FIXTURE).unwrap();
    assert_eq!(es.len(), 3);
    assert_eq!(es[0].name, "Alpha");
    assert_eq!(es[0].price.as_deref(), Some("1.5"));
    assert_eq!(es[1].address, "0xbbb");
    assert_eq!(es[1].price, None);
    assert_eq!(es[2].price.as_deref(), Some("0.25"));
}

#[test]
fn snapshot_with_two_digit_indices() {
    let items: Vec<String> = (0..12)
        .map(|i| format!(r#"{{"name":"P{}","main_token_address":"A{}","tokens":[{{"price":{}}}]}}"#, i, i, i))
        .collect();
    let doc = format!(r#"{{"data":{{"data":[{}]}}}}"#, items.join(","));
    let es = market_entries(&doc).unwrap();
    assert_eq!(es.len(), 12);
    assert_eq!(es[11].name, "P11");
    assert_eq!(es[11].price.as_deref(), Some("11"));
}

#[test]
fn snapshot_errors() {
    assert_eq!(snapshot_message("oops").unwrap_err(), FetchError::Parse);
    assert_eq!(snapshot_message(r#"{"data":{}}"#).unwrap_err(), FetchError::MissingList);
    assert_eq!(snapshot_message(r#"{"data":{"data":{}}}"#).unwrap_err(), FetchError::MissingList);
}

#[test]
fn snapshot_empty_list() {
    assert_eq!(snapshot_message(r#"{"data":{"data":[]}}"#).unwrap(), "");
}

#[test]
fn format_entries_by_hand() {
    let es = vec![
        MarketEntry { name: "N".to_string(), address: "A".to_string(), price: None },
        MarketEntry { name: "M".to_string(), address: "B".to_string(), price: Some("2".to_string()) },
    ];
    assert_eq!(format_snapshot(&es), "N\nA\n\nM\nB\nPrice: 2\n\n");
}
