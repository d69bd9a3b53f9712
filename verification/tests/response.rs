use todo_htmx::response::{Html, IntoResponse, StatusCode};

#[test]
fn html_is_sent_as_html() {
    let response = Html("<p>hi</p>".to_string()).into_response();
    assert_eq!(response.status.as_u16(), 200);
    assert_eq!(response.body, "<p>hi</p>");
    assert_eq!(response.headers.len(), 1);
    assert_eq!(
        response.headers.get("content-type").unwrap().as_bytes(),
        b"text/html; charset=utf-8"
    );
}

#[test]
fn text_is_sent_as_plain_text() {
    let response = "hello".to_string().into_response();
    assert_eq!(response.status.as_u16(), 200);
    assert_eq!(response.body, "hello");
    assert_eq!(response.headers.len(), 1);
    assert_eq!(
        response.headers.get(http::header::CONTENT_TYPE).unwrap().as_bytes(),
        b"text/plain; charset=utf-8"
    );
}

#[test]
fn unit_is_sent_as_an_empty_response() {
    let response = ().into_response();
    assert_eq!(response.status.as_u16(), 200);
    assert_eq!(response.body, "");
    assert!(response.headers.is_empty());
}

#[test]
fn status_replaces_the_status_of_the_rest() {
    let gone = StatusCode::from_u16(404).unwrap();
    let response = (gone, Html("<p>gone</p>".to_string())).into_response();
    assert_eq!(response.status.as_u16(), 404);
    assert_eq!(response.body, "<p>gone</p>");
    assert_eq!(
        response.headers.get("content-type").unwrap().as_bytes(),
        b"text/html; charset=utf-8"
    );
    assert_eq!(StatusCode::ok().as_u16(), 200);
}

#[test]
fn result_is_sent_as_what_it_holds() {
    let fine: Result<Html, String> = Ok(Html("<p>ok</p>".to_string()));
    let failed: Result<Html, String> = Err("no".to_string());
    let response = fine.into_response();
    assert_eq!(response.body, "<p>ok</p>");
    assert_eq!(
        response.headers.get("content-type").unwrap().as_bytes(),
        b"text/html; charset=utf-8"
    );
    let response = failed.into_response();
    assert_eq!(response.body, "no");
    assert_eq!(
        response.headers.get("content-type").unwrap().as_bytes(),
        b"text/plain; charset=utf-8"
    );
}

#[test]
fn status_has_three_digits() {
    assert_eq!(StatusCode::from_u16(100).unwrap().as_u16(), 100);
    assert_eq!(StatusCode::from_u16(200).unwrap().as_u16(), 200);
    assert_eq!(StatusCode::from_u16(999).unwrap().as_u16(), 999);
    assert!(StatusCode::from_u16(0).is_none());
    assert!(StatusCode::from_u16(99).is_none());
    assert!(StatusCode::from_u16(1000).is_none());
    assert!(StatusCode::from_u16(u16::MAX).is_none());
}

#[test]
fn status_agrees_with_the_status_of_http() {
    let mut code: u16 = 0;
    loop {
        assert_eq!(StatusCode::from_u16(code).is_some(), http::StatusCode::from_u16(code).is_ok());
        if code == u16::MAX {
            break;
        }
        code += 1;
    }
}
