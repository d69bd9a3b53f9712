//! Alerts, and the shaping of failures into responses that show one.

use crate::response::{
    html_response, insert_header, lemma_room_is_kept, retarget_name, retargeted, Html,
    IntoResponse, Response, ResponseView, STATUS_OK,
};
use crate::store::StoreError;
use crate::text::{escaped, push_escaped};
use vstd::prelude::*;

verus! {

/// The different levels of errors for alerts.
#[derive(Clone, Copy, Debug)]
pub enum AlertLevel {
    Error,
    Warning,
    Info,
    Success,
}

/// The start of an alert, up to the class that its level gives it.
pub const ALERT_OPEN: &'static str =
    "<div role=\"alert\" hx-get=\"/empty\" hx-trigger=\"load delay:5.5s\" classes=\"add opacity-0:5s\" class=\"alert ";

/// The rest of an alert's opening tag, after the class of its level.
pub const ALERT_OPEN_END: &'static str = " transition duration-500\" hx-swap=\"outerHTML\">";

/// The icon of an error and of a piece of information.
pub const ICON_NOTICE: &'static str =
    "<svg xmlns=\"http://www.w3.org/2000/svg\" fill=\"none\" viewBox=\"0 0 24 24\" class=\"stroke-current shrink-0 w-6 h-6\"><path stroke-linecap=\"round\" stroke-linejoin=\"round\" stroke-width=\"2\" d=\"M13 16h-1v-4h-1m1-4h.01M21 12a9 9 0 11-18 0 9 9 0 0118 0z\"></path></svg>";

/// The icon of a warning.
pub const ICON_WARNING: &'static str =
    "<svg xmlns=\"http://www.w3.org/2000/svg\" class=\"stroke-current shrink-0 h-6 w-6\" fill=\"none\" viewBox=\"0 0 24 24\"><path stroke-linecap=\"round\" stroke-linejoin=\"round\" stroke-width=\"2\" d=\"M12 9v2m0 4h.01m-6.938 4h13.856c1.54 0 2.502-1.667 1.732-3L13.732 4c-.77-1.333-2.694-1.333-3.464 0L3.34 16c-.77 1.333.192 3 1.732 3z\"></path></svg>";

/// The icon of a success.
pub const ICON_SUCCESS: &'static str =
    "<svg xmlns=\"http://www.w3.org/2000/svg\" class=\"stroke-current shrink-0 h-6 w-6\" fill=\"none\" viewBox=\"0 0 24 24\"><path stroke-linecap=\"round\" stroke-linejoin=\"round\" stroke-width=\"2\" d=\"M9 12l2 2 4-4m6 2a9 9 0 11-18 0 9 9 0 0118 0z\"></path></svg>";

/// What stands between an alert's icon and its message.
pub const ALERT_LABEL: &'static str = "<span>Warning: ";

/// The end of an alert.
pub const ALERT_CLOSE: &'static str = "</span></div>";

/// The message shown in place of a failure whose detail is not for the caller.
pub const GENERIC_MESSAGE: &'static str = "An error occurred";

/// The style class of a level.
pub open spec fn level_class(level: AlertLevel) -> Seq<char> {
    match level {
        AlertLevel::Error => "alert-error"@,
        AlertLevel::Warning => "alert-warning"@,
        AlertLevel::Info => "alert-info"@,
        AlertLevel::Success => "alert-success"@,
    }
}

/// The icon of a level.
pub open spec fn level_icon(level: AlertLevel) -> Seq<char> {
    match level {
        AlertLevel::Error => ICON_NOTICE@,
        AlertLevel::Warning => ICON_WARNING@,
        AlertLevel::Info => ICON_NOTICE@,
        AlertLevel::Success => ICON_SUCCESS@,
    }
}

/// The banner that shows `msg` at `level`: the opening tag with the class of
/// the level, the icon of the level, and the message, escaped.
pub open spec fn alert_markup(level: AlertLevel, msg: Seq<char>) -> Seq<char> {
    ALERT_OPEN@ + level_class(level) + ALERT_OPEN_END@ + level_icon(level) + ALERT_LABEL@
        + escaped(msg) + ALERT_CLOSE@
}

/// The banner shown for every failure whose detail is kept from the caller.
pub open spec fn generic_alert() -> Seq<char> {
    alert_markup(AlertLevel::Error, GENERIC_MESSAGE@)
}

/// Returns the style class of `level`.
fn class_of(level: AlertLevel) -> (class: &'static str)
    ensures
        class@ == level_class(level),
{
    match level {
        AlertLevel::Error => "alert-error",
        AlertLevel::Warning => "alert-warning",
        AlertLevel::Info => "alert-info",
        AlertLevel::Success => "alert-success",
    }
}

/// Returns the icon of `level`.
fn icon_of(level: AlertLevel) -> (icon: &'static str)
    ensures
        icon@ == level_icon(level),
{
    match level {
        AlertLevel::Error => ICON_NOTICE,
        AlertLevel::Warning => ICON_WARNING,
        AlertLevel::Info => ICON_NOTICE,
        AlertLevel::Success => ICON_SUCCESS,
    }
}

/// Renders the banner that shows `msg` at `level`.
pub fn render_alert(level: AlertLevel, msg: &str) -> (fragment: Html)
    ensures
        fragment@ == alert_markup(level, msg@),
{
    let mut out = String::new();
    out.append(ALERT_OPEN);
    out.append(class_of(level));
    out.append(ALERT_OPEN_END);
    out.append(icon_of(level));
    out.append(ALERT_LABEL);
    push_escaped(&mut out, msg);
    out.append(ALERT_CLOSE);
    assert(out@ =~= alert_markup(level, msg@));
    Html(out)
}

/// A failure, as the caller is to see it.
#[derive(Debug)]
pub enum AppError<T> where T: IntoResponse {
    /// Something that is safe to show to the caller as it is.
    PubErr(T),
    /// A failure of the table. Its detail is not shown: it is for the
    /// server's log.
    PrivErr(StoreError),
}

/// What a handler hands back: a value to send, or a failure.
pub type AppResult<T, U = Html> = Result<T, AppError<U>>;

impl AppError<Html> {
    /// A failure that shows `error_msg` to the caller as an alert at `level`.
    pub fn new(error_msg: String, level: AlertLevel) -> (err: AppError<Html>)
        ensures
            err matches AppError::PubErr(fragment) && fragment@ == alert_markup(level, error_msg@),
    {
        AppError::PubErr(render_alert(level, error_msg.as_str()))
    }
}

impl<T: IntoResponse> From<StoreError> for AppError<T> {
    /// Every failure of the table is private.
    fn from(err: StoreError) -> (out: AppError<T>) {
        AppError::PrivErr(err)
    }
}

impl<T: IntoResponse> vstd::std_specs::convert::FromSpecImpl<StoreError> for AppError<T> {
    open spec fn obeys_from_spec() -> bool {
        true
    }

    open spec fn from_spec(err: StoreError) -> AppError<T> {
        AppError::PrivErr(err)
    }
}

impl<T: IntoResponse> IntoResponse for AppError<T> {
    open spec fn response(self) -> ResponseView {
        match self {
            AppError::PubErr(shown) => retargeted(shown.response()),
            AppError::PrivErr(_) => retargeted(html_response(generic_alert())),
        }
    }

    /// A public failure is sent as what it holds and a private one as the
    /// generic alert; both are sent to the alert region of the page.
    fn into_response(self) -> (response: Response) {
        let mut response = match self {
            AppError::PubErr(shown) => shown.into_response(),
            AppError::PrivErr(_) => render_alert(AlertLevel::Error, GENERIC_MESSAGE).into_response(),
        };
        proof {
            reveal_strlit("Hx-Retarget");
            reveal_strlit("#alerts");
            lemma_room_is_kept(response@);
        }
        insert_header(&mut response.headers, "Hx-Retarget", "#alerts");
        response
    }
}

/// A private failure is answered with the generic alert, the error alert
/// that shows the generic message, sent to the alert region, whatever the
/// failure was: nothing of its detail reaches the caller, and any two
/// private failures are answered alike.
pub proof fn lemma_private_failure_is_hidden<T: IntoResponse>(failure: StoreError, other: StoreError)
    ensures
        AppError::<T>::PrivErr(failure).response().status == STATUS_OK,
        AppError::<T>::PrivErr(failure).response().body == alert_markup(
            AlertLevel::Error,
            GENERIC_MESSAGE@,
        ),
        AppError::<T>::PrivErr(failure).response().headers.contains_key(retarget_name()),
        AppError::<T>::PrivErr(failure).response() == AppError::<T>::PrivErr(other).response(),
{
}

/// A public failure is answered with what it holds, sent to the alert
/// region: status, body and the other header fields are those of what it
/// holds.
pub proof fn lemma_public_failure_is_shown<T: IntoResponse>(shown: T)
    ensures
        AppError::PubErr(shown).response() == retargeted(shown.response()),
        AppError::PubErr(shown).response().status == shown.response().status,
        AppError::PubErr(shown).response().body == shown.response().body,
        AppError::PubErr(shown).response().headers.contains_key(retarget_name()),
{
}

/// An alert shows its message, escaped, between its label and its end.
pub proof fn lemma_alert_shows_message(level: AlertLevel, msg: Seq<char>)
    ensures
        ({
            let shown = alert_markup(level, msg);
            let at = shown.len() - ALERT_CLOSE@.len() - escaped(msg).len();
            &&& 0 <= at
            &&& shown.subrange(at, at + escaped(msg).len()) == escaped(msg)
        }),
{
    let shown = alert_markup(level, msg);
    let at = shown.len() - ALERT_CLOSE@.len() - escaped(msg).len();
    assert(shown.subrange(at, at + escaped(msg).len()) =~= escaped(msg));
}

} // verus!
