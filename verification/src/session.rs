//! The session: what the ticket endpoint is asked, what its reply means,
//! and how the ticket travels with every later request.
//!
//! A session is made once, from the reply to one authentication exchange,
//! and never changes. Nothing is retried.

use vstd::prelude::*;
use vstd::string::*;
use crate::api::{
    is_success, success_status, ticket_path_text, ApiError, Exchange,
};
use crate::json::{json_member, json_model, json_parse, json_text, parsed_json, Json};
use crate::models::AuthTicket;

verus! {

/// Mathematical model of an [`AuthTicket`].
pub struct AuthTicketView {
    pub ticket: Seq<char>,
    pub csrf_token: Seq<char>,
    pub username: Seq<char>,
}

impl View for AuthTicket {
    type V = AuthTicketView;

    open spec fn view(&self) -> AuthTicketView {
        AuthTicketView {
            ticket: self.ticket@,
            csrf_token: self.csrf_token@,
            username: self.username@,
        }
    }
}

/// An established session.
#[derive(Debug, Clone)]
pub struct Session {
    base_url: String,
    ticket: String,
    csrf_token: String,
}

/// Mathematical model of a [`Session`].
pub struct SessionView {
    pub base_url: Seq<char>,
    pub ticket: Seq<char>,
    pub csrf_token: Seq<char>,
}

/// A request as the transport has to send it: the address, and the one
/// header that carries the credential.
#[derive(Debug, Clone)]
pub struct Request {
    pub url: String,
    pub header_name: String,
    pub header_value: String,
}

/// The address of the ticket endpoint under a base address.
pub open spec fn login_url_text(base: Seq<char>) -> Seq<char> {
    base + ticket_path_text()
}

/// The form that the ticket endpoint is sent: the user name, then the
/// secret.
pub open spec fn login_form_text(username: Seq<char>, password: Seq<char>) -> Seq<
    (Seq<char>, Seq<char>),
> {
    seq![("username"@, username), ("password"@, password)]
}

/// The header value that presents a ticket.
pub open spec fn cookie_text(ticket: Seq<char>) -> Seq<char> {
    "PVEAuthCookie="@ + ticket
}

/// The ticket that a document of the ticket endpoint carries: the members
/// `ticket`, `CSRFPreventionToken` and `username` under `data`, all of them
/// strings. Where one is missing there is no ticket.
pub open spec fn ticket_in(doc: Json) -> Option<AuthTicketView> {
    let data = doc.member("data"@);
    match (
        data.member("ticket"@).text(),
        data.member("CSRFPreventionToken"@).text(),
        data.member("username"@).text(),
    ) {
        (Some(ticket), Some(csrf_token), Some(username)) => Some(
            AuthTicketView { ticket, csrf_token, username },
        ),
        _ => None,
    }
}

/// What an authentication exchange against `base` amounts to: a session,
/// or the failure. No reply is a transport failure; a status that is no
/// success is an authentication failure with that status; a body that is
/// no document, or carries no ticket, is a decode failure.
pub open spec fn session_outcome(base: Seq<char>, exchange: Exchange) -> Result<
    SessionView,
    ApiError,
> {
    match exchange {
        Exchange::Failed => Err(ApiError::Transport),
        Exchange::Answered { status, body } => if !success_status(status) {
            Err(ApiError::Authentication(status))
        } else {
            match parsed_json(body@) {
                None => Err(ApiError::Decode),
                Some(doc) => match ticket_in(doc) {
                    None => Err(ApiError::Decode),
                    Some(t) => Ok(
                        SessionView { base_url: base, ticket: t.ticket, csrf_token: t.csrf_token },
                    ),
                },
            }
        },
    }
}

impl View for Session {
    type V = SessionView;

    closed spec fn view(&self) -> SessionView {
        SessionView {
            base_url: self.base_url@,
            ticket: self.ticket@,
            csrf_token: self.csrf_token@,
        }
    }
}

impl Session {
    /// The session that a ticket establishes against a base address.
    pub fn new(base: &str, ticket: AuthTicket) -> (r: Session)
        ensures
            r@ == (SessionView {
                base_url: base@,
                ticket: ticket@.ticket,
                csrf_token: ticket@.csrf_token,
            }),
    {
        Session {
            base_url: String::from_str(base),
            ticket: ticket.ticket,
            csrf_token: ticket.csrf_token,
        }
    }

    /// The base address that the session was established against.
    pub fn base_url(&self) -> (r: &str)
        ensures
            r@ == self@.base_url,
    {
        self.base_url.as_str()
    }

    /// The session ticket.
    pub fn ticket(&self) -> (r: &str)
        ensures
            r@ == self@.ticket,
    {
        self.ticket.as_str()
    }

    /// The anti-forgery token. Only requests that change state carry it,
    /// and this library issues none.
    pub fn csrf_token(&self) -> (r: &str)
        ensures
            r@ == self@.csrf_token,
    {
        self.csrf_token.as_str()
    }

    /// The request for the resource at `path`: its address under the base
    /// address of the session, and the session ticket as a cookie.
    pub fn request(&self, path: &str) -> (r: Request)
        ensures
            r.url@ == self@.base_url + path@,
            r.header_name@ == "Cookie"@,
            r.header_value@ == cookie_text(self@.ticket),
    {
        let mut url = self.base_url.clone();
        url.append(path);
        let mut cookie = String::from_str("PVEAuthCookie=");
        cookie.append(self.ticket.as_str());
        Request { url, header_name: String::from_str("Cookie"), header_value: cookie }
    }
}

/// The address of the ticket endpoint under a base address.
pub fn login_url(base: &str) -> (r: String)
    ensures
        r@ == login_url_text(base@),
{
    let mut out = String::from_str(base);
    out.append("/api2/json/access/ticket");
    out
}

/// The characters of each pair of a form.
pub open spec fn form_view(form: Seq<(String, String)>) -> Seq<(Seq<char>, Seq<char>)> {
    Seq::new(form.len(), |i: int| (form[i].0@, form[i].1@))
}

/// The form that the ticket endpoint is sent.
pub fn login_form(username: &str, password: &str) -> (r: Vec<(String, String)>)
    ensures
        form_view(r@) == login_form_text(username@, password@),
{
    let mut form: Vec<(String, String)> = Vec::new();
    form.push((String::from_str("username"), String::from_str(username)));
    form.push((String::from_str("password"), String::from_str(password)));
    form
}

/// The ticket that a document of the ticket endpoint carries.
pub fn ticket_of(doc: &serde_json::Value) -> (r: Option<AuthTicket>)
    ensures
        match r {
            Some(t) => ticket_in(json_model(*doc)) == Some(t@),
            None => ticket_in(json_model(*doc)) is None,
        },
{
    let data = json_member(doc, "data");
    let ticket = json_text(json_member(data, "ticket"));
    let csrf_token = json_text(json_member(data, "CSRFPreventionToken"));
    let username = json_text(json_member(data, "username"));
    match (ticket, csrf_token, username) {
        (Some(t), Some(c), Some(u)) => Some(
            AuthTicket {
                ticket: String::from_str(t),
                csrf_token: String::from_str(c),
                username: String::from_str(u),
            },
        ),
        _ => None,
    }
}

/// Establishes a session from the outcome of the authentication exchange
/// against `base`, or says why there is none.
pub fn establish(base: &str, exchange: &Exchange) -> (r: Result<Session, ApiError>)
    ensures
        match r {
            Ok(session) => session_outcome(base@, *exchange) == Ok::<SessionView, ApiError>(
                session@,
            ),
            Err(e) => session_outcome(base@, *exchange) == Err::<SessionView, ApiError>(e),
        },
{
    match exchange {
        Exchange::Failed => Err(ApiError::Transport),
        Exchange::Answered { status, body } => {
            if !is_success(*status) {
                return Err(ApiError::Authentication(*status));
            }
            match json_parse(body.as_slice()) {
                Err(_) => Err(ApiError::Decode),
                Ok(doc) => match ticket_of(&doc) {
                    None => Err(ApiError::Decode),
                    Some(ticket) => Ok(Session::new(base, ticket)),
                },
            }
        },
    }
}

} // verus!
