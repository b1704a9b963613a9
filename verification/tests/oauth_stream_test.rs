use openfga_sdk::error::OpenFgaError;
use openfga_sdk::models::{Status, StreamResult, StreamedListObjectsResponse};
use openfga_sdk::oauth2::{
    cache_token_response, reusable_token, reusable_token_after, token_fetch_failure, token_request_form, CachedToken,
    ClientCredentialsParams, TokenResponse,
};
use openfga_sdk::streaming::{line_item, Frame, NdJsonBuffer};

#[test]
fn token_lifetime_less_jitter() {
    assert_eq!(CachedToken::new("t", 3600).lifetime_secs, 3300);
    assert_eq!(CachedToken::new("t", 100).lifetime_secs, 0);
    let c = cache_token_response(&TokenResponse { access_token: "abc".to_string(), expires_in: None, token_type: None });
    assert_eq!(c.access_token, "abc");
    assert_eq!(c.lifetime_secs, 3300);
}

#[test]
fn token_freshness() {
    let c = CachedToken::new("t", 3600);
    assert!(c.is_valid_after(0));
    assert!(c.is_valid_after(3_299_999_999_999));
    assert!(!c.is_valid_after(3_300_000_000_000));
    assert!(c.is_valid());
    assert_eq!(reusable_token(&Some(c)).as_deref(), Some("t"));
    let stale = CachedToken::new("old", 60);
    assert!(!stale.is_valid());
    assert_eq!(reusable_token(&Some(stale)), None);
    assert_eq!(reusable_token(&None), None);
}

#[test]
fn token_form_fields() {
    let p = ClientCredentialsParams {
        client_id: "id".to_string(),
        client_secret: "secret".to_string(),
        token_url: "https://issuer/token".to_string(),
        audience: "aud".to_string(),
        scopes: Some("read write".to_string()),
    };
    let form = token_request_form(&p);
    let f: Vec<(&str, &str)> = form.iter().map(|(a, b)| (a.as_str(), b.as_str())).collect();
    assert_eq!(
        f,
        vec![
            ("grant_type", "client_credentials"),
            ("client_id", "id"),
            ("client_secret", "secret"),
            ("audience", "aud"),
            ("scope", "read write"),
        ]
    );
    let p2 = ClientCredentialsParams { scopes: None, ..p };
    assert_eq!(token_request_form(&p2).len(), 4);
}

#[test]
fn token_failure_message() {
    match token_fetch_failure(401, "denied") {
        OpenFgaError::Configuration(m) => assert_eq!(m, "Token fetch failed (HTTP 401): denied"),
        other => panic!("unexpected {other:?}"),
    }
}

fn frame_text(f: Frame) -> String {
    match f {
        Frame::Line(l) => format!("line:{}", String::from_utf8(l).unwrap()),
        Frame::Rest(r) => format!("rest:{}", String::from_utf8(r).unwrap()),
        Frame::End => "end".to_string(),
        Frame::NeedInput => "need".to_string(),
    }
}

#[test]
fn ndjson_lines_across_chunks() {
    let mut b = NdJsonBuffer::new();
    b.push_chunk(b"{\"a\":1}\n{\"b\"");
    assert_eq!(frame_text(b.next_frame()), "line:{\"a\":1}");
    assert_eq!(frame_text(b.next_frame()), "need");
    b.push_chunk(b":2}\r\n  \n");
    assert_eq!(frame_text(b.next_frame()), "line:{\"b\":2}");
    // a blank line is consumed and yields nothing
    assert_eq!(frame_text(b.next_frame()), "need");
    b.push_chunk(b" {\"c\":3} ");
    b.finish();
    assert_eq!(frame_text(b.next_frame()), "rest:{\"c\":3}");
    assert_eq!(frame_text(b.next_frame()), "end");
}

#[test]
fn ndjson_take_line_keeps_partial() {
    let mut b = NdJsonBuffer::new();
    b.push_chunk(b"partial");
    assert!(b.take_line().is_none());
    assert_eq!(b.buf, b"partial".to_vec());
    b.push_chunk(b"\nnext");
    assert_eq!(b.take_line().unwrap(), b"partial".to_vec());
    assert_eq!(b.buf, b"next".to_vec());
}

fn plain(object: &str) -> Result<StreamedListObjectsResponse, serde_json::Error> {
    Ok(StreamedListObjectsResponse { object: object.to_string() })
}

fn bad_json() -> serde_json::Error {
    serde_json::from_str::<serde_json::Value>("{").unwrap_err()
}

#[test]
fn line_item_outcomes() {
    let ok = StreamResult { result: Some(StreamedListObjectsResponse { object: "doc:1".to_string() }), error: None };
    assert_eq!(line_item(Some(ok), Err(bad_json())).unwrap().object, "doc:1");
    let err = StreamResult::<StreamedListObjectsResponse> {
        result: None,
        error: Some(Status { code: Some(2), message: Some("boom".to_string()), details: None }),
    };
    match line_item(Some(err), Err(bad_json())) {
        Err(OpenFgaError::Configuration(m)) => assert_eq!(m, "Streaming error from server: boom"),
        other => panic!("unexpected {other:?}"),
    }
    let anon = StreamResult::<StreamedListObjectsResponse> {
        result: None,
        error: Some(Status { code: None, message: None, details: None }),
    };
    match line_item(Some(anon), Err(bad_json())) {
        Err(OpenFgaError::Configuration(m)) => assert_eq!(m, "Streaming error from server: Unknown streaming error"),
        other => panic!("unexpected {other:?}"),
    }
    // A plain object decodes as an envelope holding neither field: it is read as the object.
    let empty = StreamResult::<StreamedListObjectsResponse> { result: None, error: None };
    assert_eq!(line_item(Some(empty), plain("document:1")).unwrap().object, "document:1");
    assert_eq!(line_item(None, plain("document:2")).unwrap().object, "document:2");
    assert!(matches!(line_item(None, Err(bad_json())), Err(OpenFgaError::Json(_))));
}

fn payloads(chunks: &[&[u8]]) -> Vec<String> {
    let mut b = NdJsonBuffer::new();
    let mut out = Vec::new();
    let mut next = 0;
    loop {
        match b.next_frame() {
            Frame::Line(l) | Frame::Rest(l) => out.push(String::from_utf8(l).unwrap()),
            Frame::End => return out,
            Frame::NeedInput => {
                if next < chunks.len() {
                    b.push_chunk(chunks[next]);
                    next += 1;
                } else {
                    b.finish();
                }
            }
        }
    }
}

#[test]
fn ndjson_same_items_for_every_chunking() {
    let body: &[u8] = b"{\"a\":1}\n\n  \n{\"b\":2}\r\n{\"c\":3}\n {\"d\":4} ";
    let whole = payloads(&[body]);
    assert_eq!(whole, vec!["{\"a\":1}", "{\"b\":2}", "{\"c\":3}", "{\"d\":4}"]);
    for cut in 0..=body.len() {
        assert_eq!(payloads(&[&body[..cut], &body[cut..]]), whole, "cut at {cut}");
    }
    let bytes: Vec<&[u8]> = body.chunks(1).collect();
    assert_eq!(payloads(&bytes), whole);
}

#[test]
fn token_reused_only_while_fresh() {
    let c = Some(CachedToken::new("tok", 3600));
    assert_eq!(reusable_token_after(&c, 0).as_deref(), Some("tok"));
    assert_eq!(reusable_token_after(&c, 3_299_999_999_999).as_deref(), Some("tok"));
    assert_eq!(reusable_token_after(&c, 3_300_000_000_000), None);
    assert_eq!(reusable_token_after(&None, 0), None);
}
