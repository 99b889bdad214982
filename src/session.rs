//! Questions about the sessions that the OS session manager lists.
use vstd::prelude::*;
use crate::text::{decimal, decimal_text, trim, trim_blanks};

verus! {

/// One entry of the session manager's listing: who is logged in, and where.
/// A field is `None` where the listing gives no text for it.
#[derive(Debug)]
pub struct SessionRecord {
    pub user: Option<String>,
    pub tty: Option<String>,
}

/// The abstract content of a `SessionRecord`.
pub struct SessionView {
    pub user: Option<Seq<char>>,
    pub tty: Option<Seq<char>>,
}

pub open spec fn field_view(f: Option<String>) -> Option<Seq<char>> {
    match f {
        Some(s) => Some(s@),
        None => None,
    }
}

impl View for SessionRecord {
    type V = SessionView;

    open spec fn view(&self) -> SessionView {
        SessionView { user: field_view(self.user), tty: field_view(self.tty) }
    }
}

pub open spec fn sessions_view(v: Seq<SessionRecord>) -> Seq<SessionView> {
    v.map_values(|s: SessionRecord| s@)
}

/// A missing field reads as empty text.
pub open spec fn text_or_empty(f: Option<Seq<char>>) -> Seq<char> {
    match f {
        Some(s) => s,
        None => Seq::empty(),
    }
}

/// A terminal field that names no terminal.
pub open spec fn is_placeholder_tty(t: Seq<char>) -> bool {
    t.len() == 0 || t == seq!['-']
}

/// A session of someone other than the greeter account on `terminal`.
pub open spec fn is_foreign_session(s: SessionView, terminal: Seq<char>, greeter: Seq<char>) -> bool {
    text_or_empty(s.user) != greeter && text_or_empty(s.tty) == terminal
}

/// A session of the greeter account that sits on a real terminal.
pub open spec fn is_greeter_session(s: SessionView, greeter: Seq<char>) -> bool {
    text_or_empty(s.user) == greeter && !is_placeholder_tty(text_or_empty(s.tty))
}

pub open spec fn foreign_user_present(
    sessions: Seq<SessionView>,
    terminal: Seq<char>,
    greeter: Seq<char>,
) -> bool {
    exists|i: int| 0 <= i < sessions.len() && #[trigger] is_foreign_session(sessions[i], terminal, greeter)
}

pub open spec fn greeter_present(sessions: Seq<SessionView>, greeter: Seq<char>) -> bool {
    exists|i: int| 0 <= i < sessions.len() && #[trigger] is_greeter_session(sessions[i], greeter)
}

/// The sessions that the JSON text `listing` describes, or `None` where it
/// cannot be read as one JSON array (malformed JSON, text after the value,
/// nesting too deep, invalid UTF-8, or a value that is not an array).
pub uninterp spec fn session_listing(listing: Seq<u8>) -> Option<Seq<SessionView>>;

#[verifier::external_type_specification]
#[verifier::external_body]
pub struct ExJsonError(serde_json::Error);

/// Why a session query could not be answered.
#[derive(Debug, Clone, Copy, PartialEq, Eq, Structural)]
pub enum QueryError {
    /// The session manager's output is not a JSON array.
    MalformedListing,
}

/// Relies on `serde_json::from_slice` to read the listing as an array of JSON
/// values, and on `Value`'s `["key"]` and `as_str` to take each entry's "user"
/// and "tty" where they are strings.
#[verifier::external_body]
fn read_listing(listing: &[u8]) -> (r: Result<Vec<SessionRecord>, serde_json::Error>)
    ensures
        r is Err <==> session_listing(listing@) is None,
        r is Ok ==> session_listing(listing@) == Some(sessions_view(r->Ok_0@)),
{
    let entries: Vec<serde_json::Value> = serde_json::from_slice(listing)?;
    Ok(entries.iter().map(|e| SessionRecord {
        user: e["user"].as_str().map(String::from),
        tty: e["tty"].as_str().map(String::from),
    }).collect())
}

/// Parses the session manager's JSON listing.
pub fn parse_sessions(listing: &[u8]) -> (r: Result<Vec<SessionRecord>, QueryError>)
    ensures
        match session_listing(listing@) {
            Some(s) => r is Ok && sessions_view(r->Ok_0@) == s,
            None => r == Err::<Vec<SessionRecord>, QueryError>(QueryError::MalformedListing),
        },
{
    match read_listing(listing) {
        Ok(v) => Ok(v),
        Err(_) => Err(QueryError::MalformedListing),
    }
}

fn field_equals(f: &Option<String>, s: &String) -> (r: bool)
    ensures
        r == (text_or_empty(field_view(*f)) == s@),
{
    match f {
        Some(x) => {
            x.eq(s)
        },
        None => {
            let b = s.as_str().is_empty();
            assert(b ==> s@ =~= Seq::<char>::empty());
            b
        },
    }
}

fn is_placeholder_field(f: &Option<String>) -> (r: bool)
    ensures
        r == is_placeholder_tty(text_or_empty(field_view(*f))),
{
    match f {
        Some(x) => {
            let t = x.as_str();
            let n = t.unicode_len();
            if n == 0 {
                true
            } else if n == 1 {
                let c = t.get_char(0);
                assert(c == '-' ==> t@ =~= seq!['-']);
                c == '-'
            } else {
                false
            }
        },
        None => true,
    }
}

/// Whether someone other than `greeter` has a session on `terminal`.
pub fn is_foreign_user_on(sessions: &Vec<SessionRecord>, terminal: &String, greeter: &String) -> (r:
    bool)
    ensures
        r == foreign_user_present(sessions_view(sessions@), terminal@, greeter@),
{
    let ghost sv = sessions_view(sessions@);
    let mut i: usize = 0;
    while i < sessions.len()
        invariant
            i <= sessions.len(),
            sv == sessions_view(sessions@),
            forall|k: int| 0 <= k < i ==> !#[trigger] is_foreign_session(sv[k], terminal@, greeter@),
        decreases sessions.len() - i,
    {
        let s = &sessions[i];
        if !field_equals(&s.user, greeter) && field_equals(&s.tty, terminal) {
            assert(is_foreign_session(sv[i as int], terminal@, greeter@));
            return true;
        }
        i = i + 1;
    }
    false
}

/// Whether the greeter account has a session on a real terminal.
pub fn is_greeter_foreground(sessions: &Vec<SessionRecord>, greeter: &String) -> (r: bool)
    ensures
        r == greeter_present(sessions_view(sessions@), greeter@),
{
    let ghost sv = sessions_view(sessions@);
    let mut i: usize = 0;
    while i < sessions.len()
        invariant
            i <= sessions.len(),
            sv == sessions_view(sessions@),
            forall|k: int| 0 <= k < i ==> !#[trigger] is_greeter_session(sv[k], greeter@),
        decreases sessions.len() - i,
    {
        let s = &sessions[i];
        if field_equals(&s.user, greeter) && !is_placeholder_field(&s.tty) {
            assert(is_greeter_session(sv[i as int], greeter@));
            return true;
        }
        i = i + 1;
    }
    false
}

/// Reads the session manager's listing and tells whether someone other than
/// `greeter` has a session on `terminal`.
pub fn foreign_user_in_listing(listing: &[u8], terminal: &String, greeter: &String) -> (r: Result<
    bool,
    QueryError,
>)
    ensures
        match session_listing(listing@) {
            Some(s) => r == Ok::<bool, QueryError>(foreign_user_present(s, terminal@, greeter@)),
            None => r == Err::<bool, QueryError>(QueryError::MalformedListing),
        },
{
    let sessions = parse_sessions(listing)?;
    Ok(is_foreign_user_on(&sessions, terminal, greeter))
}

/// Reads the session manager's listing and tells whether the greeter account
/// has a session on a real terminal.
pub fn greeter_in_listing(listing: &[u8], greeter: &String) -> (r: Result<bool, QueryError>)
    ensures
        match session_listing(listing@) {
            Some(s) => r == Ok::<bool, QueryError>(greeter_present(s, greeter@)),
            None => r == Err::<bool, QueryError>(QueryError::MalformedListing),
        },
{
    let sessions = parse_sessions(listing)?;
    Ok(is_greeter_foreground(&sessions, greeter))
}

/// Prefix of a virtual terminal's name in the session listing.
pub const TTY_PREFIX: &'static str = "tty";

/// The name under which the session listing shows virtual terminal `vt`.
pub fn terminal_name(vt: u32) -> (r: String)
    ensures
        r@ == TTY_PREFIX@ + decimal(vt as nat),
{
    let digits = decimal_text(vt);
    let prefix = TTY_PREFIX.to_owned();
    prefix.concat(digits.as_str())
}

/// Whether `output`, the number of the foreground virtual terminal as the
/// console query prints it, names terminal `vt`.
pub fn active_terminal_is(output: &str, vt: u32) -> (r: bool)
    ensures
        r == (trim(output@) == decimal(vt as nat)),
{
    let shown = trim_blanks(output);
    let expected = decimal_text(vt);
    shown.eq(&expected)
}

} // verus!
