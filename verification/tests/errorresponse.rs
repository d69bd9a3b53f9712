use todo_htmx::errorresponse::{render_alert, AlertLevel, AppError, AppResult};
use todo_htmx::helper::ContainsSlice;
use todo_htmx::response::{Html, IntoResponse};
use todo_htmx::store::StoreError;

fn get_error_into_response() -> AppResult<String> {
    let res: Result<String, StoreError> = Err(StoreError::Failed("This is some error".to_string()));
    match res {
        Ok(_) => Ok("This should not be shown to the public".to_string()),
        Err(err) => Err(AppError::from(err)),
    }
}

fn get_public_error_into_response() -> AppResult<String> {
    Err(AppError::new("Input invalid".into(), AlertLevel::Error))
}

fn get_successful_into_response() -> AppResult<String> {
    Ok("Success".to_string())
}

#[test]
fn private_error_test() {
    let result = get_error_into_response();
    let response = result.into_response();
    let body = response.body.as_bytes();
    assert!(body.contains_slice(b"An error occurred"));
    assert!(!body.contains_slice(b"This should not be shown to the public"));
}

#[test]
fn public_error_test() {
    let result = get_public_error_into_response();
    let response = result.into_response();
    let body = response.body.as_bytes();
    assert!(body.contains_slice(b"Input invalid"));
}

#[test]
fn no_error_test() {
    let result = get_successful_into_response();
    let response = result.into_response();
    let body = response.body.as_bytes();
    assert!(body.contains_slice(b"Success"));
}

#[test]
fn private_error_hides_the_detail() {
    let failure = StoreError::Failed("connection refused".to_string());
    let response = AppError::<Html>::from(failure).into_response();
    assert!(!response.body.contains("connection refused"));
    assert_eq!(response.status.as_u16(), 200);
    assert_eq!(response.headers.get("hx-retarget").unwrap().as_bytes(), b"#alerts");
    assert_eq!(
        response.headers.get("content-type").unwrap().as_bytes(),
        b"text/html; charset=utf-8"
    );
    assert_eq!(response.headers.len(), 2);
    assert_eq!(response.body, render_alert(AlertLevel::Error, "An error occurred").0);
}

#[test]
fn private_errors_are_answered_alike() {
    let one = AppError::<Html>::PrivErr(StoreError::NotFound).into_response();
    let other =
        AppError::<Html>::PrivErr(StoreError::Failed("disk full".to_string())).into_response();
    assert_eq!(one.status.as_u16(), other.status.as_u16());
    assert_eq!(one.headers, other.headers);
    assert_eq!(one.body, other.body);
}

#[test]
fn public_error_is_sent_to_the_alert_region() {
    let response = AppError::new("Input invalid".to_string(), AlertLevel::Info).into_response();
    assert_eq!(response.status.as_u16(), 200);
    assert_eq!(response.headers.get("Hx-Retarget").unwrap().as_bytes(), b"#alerts");
    assert_eq!(response.body, render_alert(AlertLevel::Info, "Input invalid").0);
}

#[test]
fn new_wraps_the_rendered_alert() {
    match AppError::new("Careful".to_string(), AlertLevel::Warning) {
        AppError::PubErr(fragment) => {
            assert_eq!(fragment.0, render_alert(AlertLevel::Warning, "Careful").0)
        }
        AppError::PrivErr(_) => panic!("a new failure is public"),
    }
}

#[test]
fn from_makes_a_private_error() {
    match AppError::<Html>::from(StoreError::NotFound) {
        AppError::PrivErr(StoreError::NotFound) => {}
        _ => panic!("a failure of the table is private and kept as it is"),
    }
}

#[test]
fn alert_of_a_warning_is_exact() {
    let fragment = render_alert(AlertLevel::Warning, "a < b");
    let expected = "<div role=\"alert\" hx-get=\"/empty\" hx-trigger=\"load delay:5.5s\" classes=\"add opacity-0:5s\" class=\"alert alert-warning transition duration-500\" hx-swap=\"outerHTML\"><svg xmlns=\"http://www.w3.org/2000/svg\" class=\"stroke-current shrink-0 h-6 w-6\" fill=\"none\" viewBox=\"0 0 24 24\"><path stroke-linecap=\"round\" stroke-linejoin=\"round\" stroke-width=\"2\" d=\"M12 9v2m0 4h.01m-6.938 4h13.856c1.54 0 2.502-1.667 1.732-3L13.732 4c-.77-1.333-2.694-1.333-3.464 0L3.34 16c-.77 1.333.192 3 1.732 3z\"></path></svg><span>Warning: a &lt; b</span></div>";
    assert_eq!(fragment.0, expected);
}

#[test]
fn alert_levels_have_their_class_and_icon() {
    let error = render_alert(AlertLevel::Error, "m").0;
    let warning = render_alert(AlertLevel::Warning, "m").0;
    let info = render_alert(AlertLevel::Info, "m").0;
    let success = render_alert(AlertLevel::Success, "m").0;
    assert!(error.contains("class=\"alert alert-error transition duration-500\""));
    assert!(warning.contains("class=\"alert alert-warning transition duration-500\""));
    assert!(info.contains("class=\"alert alert-info transition duration-500\""));
    assert!(success.contains("class=\"alert alert-success transition duration-500\""));
    let notice = "d=\"M13 16h-1v-4h-1m1-4h.01M21 12a9 9 0 11-18 0 9 9 0 0118 0z\"";
    assert!(error.contains(notice));
    assert!(info.contains(notice));
    assert!(!warning.contains(notice));
    assert!(success.contains("d=\"M9 12l2 2 4-4m6 2a9 9 0 11-18 0 9 9 0 0118 0z\""));
}

#[test]
fn alert_clears_itself_after_a_delay() {
    let fragment = render_alert(AlertLevel::Success, "Saved").0;
    assert!(fragment.starts_with("<div role=\"alert\" hx-get=\"/empty\" hx-trigger=\"load delay:5.5s\""));
    assert!(fragment.contains("classes=\"add opacity-0:5s\""));
    assert!(fragment.contains("hx-swap=\"outerHTML\""));
    assert!(fragment.ends_with("<span>Warning: Saved</span></div>"));
}

#[test]
fn alert_escapes_its_message() {
    let fragment = render_alert(AlertLevel::Error, "<script>alert('x')</script>").0;
    assert!(!fragment.contains("<script>"));
    assert!(fragment.contains("&lt;script&gt;alert(&#39;x&#39;)&lt;/script&gt;"));
}

#[test]
fn generic_alert_is_the_error_alert_of_the_generic_message() {
    let response = AppError::<Html>::PrivErr(StoreError::NotFound).into_response();
    assert!(response.body.contains("An error occurred"));
    assert!(response.body.contains("class=\"alert alert-error transition duration-500\""));
    assert!(response.body.ends_with("<span>Warning: An error occurred</span></div>"));
}

#[test]
fn public_error_may_hold_any_response() {
    let response = AppError::PubErr("plain words".to_string()).into_response();
    assert_eq!(response.status.as_u16(), 200);
    assert_eq!(response.body, "plain words");
    assert_eq!(
        response.headers.get("content-type").unwrap().as_bytes(),
        b"text/plain; charset=utf-8"
    );
    assert_eq!(response.headers.get("hx-retarget").unwrap().as_bytes(), b"#alerts");
    assert_eq!(response.headers.len(), 2);

    let response = AppError::PubErr(()).into_response();
    assert_eq!(response.body, "");
    assert_eq!(response.headers.get("hx-retarget").unwrap().as_bytes(), b"#alerts");
    assert_eq!(response.headers.len(), 1);
}

#[test]
fn private_error_does_not_depend_on_what_a_public_one_would_hold() {
    let as_html = AppError::<Html>::PrivErr(StoreError::NotFound).into_response();
    let as_text = AppError::<String>::PrivErr(StoreError::NotFound).into_response();
    assert_eq!(as_html.body, as_text.body);
    assert_eq!(as_html.headers, as_text.headers);
}

#[test]
fn failure_inside_a_failure_is_sent_to_the_alert_region_once() {
    let inner = AppError::new("Input invalid".to_string(), AlertLevel::Error);
    let response = AppError::PubErr(inner).into_response();
    assert_eq!(response.headers.get_all("hx-retarget").iter().count(), 1);
    assert_eq!(response.headers.len(), 2);
    assert_eq!(response.body, render_alert(AlertLevel::Error, "Input invalid").0);
}
