//! The sign-in screen.
use vstd::prelude::*;
use crate::menu::MenuState;
use crate::text::opt_text;

verus! {

/// Where the sign-in stands.
pub enum AuthFlow {
    Authenticated,
    LoggedOut { error: Option<String> },
    /// A kept session is being restored.
    Verifying,
    /// The browser is signing in.
    Authenticating,
}

/// The page that the browser opens with.
#[derive(Clone, Copy, Debug, PartialEq, Eq, Structural)]
pub enum ScreenHint {
    SignIn,
    SignUp,
}

/// What the sign-in screen shows.
pub enum LoginView {
    LoggedOut { error: Option<String> },
    Busy { message: String },
}

/// The text of a view: the error of a signed-out one, or the message of a busy
/// one.
pub open spec fn view_text(view: LoginView) -> (bool, Option<Seq<char>>) {
    match view {
        LoginView::LoggedOut { error } => (false, opt_text(error)),
        LoginView::Busy { message } => (true, Some(message@)),
    }
}

/// Decides what the sign-in screen shows; nothing once signed in.
pub fn login_view(auth: &AuthFlow) -> (r: Option<LoginView>)
    ensures
        r is Some == !(auth is Authenticated),
        r matches Some(view) ==> view_text(view) == match auth {
            AuthFlow::Verifying => (true, Some("Signing you in\u{2026}"@)),
            AuthFlow::Authenticating => (
                true,
                Some("Finish signing in in your browser, then return here."@),
            ),
            AuthFlow::LoggedOut { error } => (false, opt_text(*error)),
            AuthFlow::Authenticated => (false, None),
        },
{
    match auth {
        AuthFlow::Authenticated => None,
        AuthFlow::LoggedOut { error } => {
            let shown: Option<String> = match error {
                Some(text) => Some(text.clone()),
                None => None,
            };
            Some(LoginView::LoggedOut { error: shown })
        },
        AuthFlow::Verifying => Some(
            LoginView::Busy { message: "Signing you in\u{2026}".to_owned() },
        ),
        AuthFlow::Authenticating => Some(
            LoginView::Busy {
                message: "Finish signing in in your browser, then return here.".to_owned(),
            },
        ),
    }
}

/// What was clicked.
#[derive(Clone, Copy, Debug, PartialEq, Eq, Structural)]
pub struct LoginClicks {
    pub sign_in: bool,
    pub create_account: bool,
    pub quit: bool,
}

/// The page that the clicks ask for: a new account before a sign-in.
pub open spec fn wanted_page(clicks: LoginClicks) -> Option<ScreenHint> {
    if clicks.create_account {
        Some(ScreenHint::SignUp)
    } else if clicks.sign_in {
        Some(ScreenHint::SignIn)
    } else {
        None
    }
}

/// Handles the clicks on the sign-in screen. Its buttons are only there while
/// signed out. Hands back the page to open in the browser; the sign-in waits for
/// it from then on.
pub fn login_frame(auth: &mut AuthFlow, menu: &mut MenuState, clicks: LoginClicks) -> (r: Option<
    ScreenHint,
>)
    ensures
        if *old(auth) is LoggedOut {
            &&& r == wanted_page(clicks)
            &&& r is Some ==> *final(auth) == AuthFlow::Authenticating
            &&& r is None ==> *final(auth) == *old(auth)
            &&& *final(menu) == (MenuState {
                quit_requested: old(menu).quit_requested || clicks.quit,
                ..*old(menu)
            })
        } else {
            r is None && *final(auth) == *old(auth) && *final(menu) == *old(menu)
        },
{
    match auth {
        AuthFlow::LoggedOut { .. } => {},
        _ => {
            return None;
        },
    }
    if clicks.quit {
        menu.quit_requested = true;
    }
    let page: Option<ScreenHint> = if clicks.create_account {
        Some(ScreenHint::SignUp)
    } else if clicks.sign_in {
        Some(ScreenHint::SignIn)
    } else {
        None
    };
    if page.is_some() {
        *auth = AuthFlow::Authenticating;
    }
    page
}

/// A page is opened exactly where a button for one was clicked, and a new account comes
/// before a sign-in.
pub proof fn new_account_comes_before_a_sign_in(clicks: LoginClicks)
    ensures
        wanted_page(clicks) is None <==> !clicks.create_account && !clicks.sign_in,
        wanted_page(clicks) == Some(ScreenHint::SignUp) <==> clicks.create_account,
        wanted_page(clicks) == Some(ScreenHint::SignIn) <==> clicks.sign_in
            && !clicks.create_account,
{
}

/// A view reads as busy with its message, or as signed out with its error.
pub proof fn views_read_as_they_are(message: String, error: Option<String>)
    ensures
        view_text(LoginView::Busy { message }).0,
        view_text(LoginView::Busy { message }).1 == Some(message@),
        !view_text(LoginView::LoggedOut { error }).0,
        view_text(LoginView::LoggedOut { error }).1 == opt_text(error),
{
}

} // verus!
