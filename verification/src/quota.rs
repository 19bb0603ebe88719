//! Account quota: error codes, credentials read from `auth.json`, the
//! usage endpoint's status codes, and how its rate-limit windows are found
//! and classified.

use vstd::prelude::*;

use crate::json::{
    json_is_valid, json_keys_at, json_non_null, json_object_keys, json_parses, json_present, json_text, non_null_at,
    present_at, strings_view, text_at,
};
use crate::text::{concat, decimal, format_decimal};

verus! {

/// Why the account quota could not be read.
#[derive(Clone, Copy, Debug, PartialEq, Eq, Structural)]
pub enum QuotaError {
    AuthNotFound,
    AuthInvalid,
    AuthenticationExpired,
    QuotaUnavailable,
    ConnectionFailed,
}

/// The stable code of an error, the only thing that is logged or stored.
pub open spec fn code_spec(e: QuotaError) -> Seq<char> {
    match e {
        QuotaError::AuthNotFound => "AUTH_NOT_FOUND"@,
        QuotaError::AuthInvalid => "AUTH_INVALID"@,
        QuotaError::AuthenticationExpired => "AUTH_EXPIRED"@,
        QuotaError::QuotaUnavailable => "QUOTA_UNAVAILABLE"@,
        QuotaError::ConnectionFailed => "CONNECTION_FAILED"@,
    }
}

/// The message shown to the user for an error.
pub open spec fn user_message_spec(e: QuotaError) -> Seq<char> {
    match e {
        QuotaError::AuthNotFound | QuotaError::AuthInvalid => "Please login Codex first"@,
        QuotaError::AuthenticationExpired => "Authentication expired"@,
        QuotaError::QuotaUnavailable => "Quota unavailable"@,
        QuotaError::ConnectionFailed => "Connection failed"@,
    }
}

impl QuotaError {
    /// The error's code.
    pub fn code(self) -> (c: &'static str)
        ensures
            c@ == code_spec(self),
    {
        match self {
            QuotaError::AuthNotFound => "AUTH_NOT_FOUND",
            QuotaError::AuthInvalid => "AUTH_INVALID",
            QuotaError::AuthenticationExpired => "AUTH_EXPIRED",
            QuotaError::QuotaUnavailable => "QUOTA_UNAVAILABLE",
            QuotaError::ConnectionFailed => "CONNECTION_FAILED",
        }
    }

    /// The error's message for the user.
    pub fn user_message(self) -> (m: &'static str)
        ensures
            m@ == user_message_spec(self),
    {
        match self {
            QuotaError::AuthNotFound | QuotaError::AuthInvalid => "Please login Codex first",
            QuotaError::AuthenticationExpired => "Authentication expired",
            QuotaError::QuotaUnavailable => "Quota unavailable",
            QuotaError::ConnectionFailed => "Connection failed",
        }
    }
}

/// The message shown for a stored quota status: the user message of the
/// error whose code it is, nothing for `ok`, and `Quota unavailable` for any
/// other status.
pub open spec fn status_message_spec(status: Seq<char>) -> Seq<char> {
    if status == "AUTH_NOT_FOUND"@ || status == "AUTH_INVALID"@ {
        "Please login Codex first"@
    } else if status == "AUTH_EXPIRED"@ {
        "Authentication expired"@
    } else if status == "CONNECTION_FAILED"@ {
        "Connection failed"@
    } else if status == "ok"@ {
        ""@
    } else {
        "Quota unavailable"@
    }
}

/// The message for a quota status read back from storage.
pub fn status_message(status: &str) -> (m: &'static str)
    ensures
        m@ == status_message_spec(status@),
{
    if crate::text::str_eq(status, "AUTH_NOT_FOUND") || crate::text::str_eq(status, "AUTH_INVALID") {
        "Please login Codex first"
    } else if crate::text::str_eq(status, "AUTH_EXPIRED") {
        "Authentication expired"
    } else if crate::text::str_eq(status, "CONNECTION_FAILED") {
        "Connection failed"
    } else if crate::text::str_eq(status, "ok") {
        ""
    } else {
        "Quota unavailable"
    }
}

/// A failed sync stores only the error's code; reading that status back
/// shows exactly the error's user message.
pub proof fn lemma_stored_code_reads_back_as_message(e: QuotaError)
    ensures
        status_message_spec(code_spec(e)) == user_message_spec(e),
{
    reveal_strlit("AUTH_NOT_FOUND");
    reveal_strlit("AUTH_INVALID");
    reveal_strlit("AUTH_EXPIRED");
    reveal_strlit("QUOTA_UNAVAILABLE");
    reveal_strlit("CONNECTION_FAILED");
    reveal_strlit("ok");
    match e {
        QuotaError::AuthNotFound => {},
        QuotaError::AuthInvalid => {
            assert("AUTH_INVALID"@[5] != "AUTH_NOT_FOUND"@[5]);
        },
        QuotaError::AuthenticationExpired => {
            assert("AUTH_EXPIRED"@[5] != "AUTH_INVALID"@[5]);
        },
        QuotaError::QuotaUnavailable => {
            assert("QUOTA_UNAVAILABLE"@[0] != "CONNECTION_FAILED"@[0]);
        },
        QuotaError::ConnectionFailed => {},
    }
}

/// The outcome of the usage request for an HTTP status: 401 and 403 mean
/// the login expired, any other status outside 200–299 means no quota.
pub open spec fn response_status_spec(status: u16) -> Result<(), QuotaError> {
    if status == 401 || status == 403 {
        Err(QuotaError::AuthenticationExpired)
    } else if !(200 <= status && status <= 299) {
        Err(QuotaError::QuotaUnavailable)
    } else {
        Ok(())
    }
}

/// Classifies the HTTP status of the usage endpoint's response.
pub fn check_response_status(status: u16) -> (r: Result<(), QuotaError>)
    ensures
        r == response_status_spec(status),
{
    if status == 401 || status == 403 {
        Err(QuotaError::AuthenticationExpired)
    } else if !(200 <= status && status <= 299) {
        Err(QuotaError::QuotaUnavailable)
    } else {
        Ok(())
    }
}

// ---------------------------------------------------------------------------
// Credentials

/// The access token and account id of the current Codex login, held in
/// memory only.
pub struct AuthCredentials {
    access_token: String,
    account_id: String,
}

impl AuthCredentials {
    /// The access token.
    pub closed spec fn token_view(&self) -> Seq<char> {
        self.access_token@
    }

    /// The account id.
    pub closed spec fn account_view(&self) -> Seq<char> {
        self.account_id@
    }

    /// Credentials from a token and an account id.
    pub fn new(access_token: String, account_id: String) -> (c: Self)
        ensures
            c.token_view() == access_token@,
            c.account_view() == account_id@,
    {
        AuthCredentials { access_token, account_id }
    }

    /// The access token.
    pub fn access_token(&self) -> (t: &str)
        ensures
            t@ == self.token_view(),
    {
        self.access_token.as_str()
    }

    /// The account id.
    pub fn account_id(&self) -> (a: &str)
        ensures
            a@ == self.account_view(),
    {
        self.account_id.as_str()
    }
}

/// The first of two pointers that holds a non-empty string, and that string.
pub open spec fn first_nonempty_text(doc: Seq<char>, first: Seq<char>, second: Seq<char>) -> Option<Seq<char>> {
    match text_at(doc, first) {
        Some(s) if s.len() > 0 => Some(s),
        _ => match text_at(doc, second) {
            Some(s) if s.len() > 0 => Some(s),
            _ => None,
        },
    }
}

/// The credentials in the text of `auth.json`: the access token and account
/// id, nested under `tokens` or at the top level; `AuthInvalid` when the text
/// is not JSON or either is missing or empty.
pub open spec fn auth_spec(contents: Seq<char>) -> Result<(Seq<char>, Seq<char>), QuotaError> {
    if !json_parses(contents) {
        Err(QuotaError::AuthInvalid)
    } else {
        match first_nonempty_text(contents, "/tokens/access_token"@, "/access_token"@) {
            None => Err(QuotaError::AuthInvalid),
            Some(token) => match first_nonempty_text(contents, "/tokens/account_id"@, "/account_id"@) {
                None => Err(QuotaError::AuthInvalid),
                Some(account) => Ok((token, account)),
            },
        }
    }
}

fn nonempty_text(doc: &str, first: &str, second: &str) -> (r: Option<String>)
    requires
        json_parses(doc@),
    ensures
        match r {
            Some(s) => first_nonempty_text(doc@, first@, second@) == Some(s@),
            None => first_nonempty_text(doc@, first@, second@).is_none(),
        },
{
    if let Some(s) = json_text(doc, first) {
        if !s.as_str().is_empty() {
            return Some(s);
        }
    }
    if let Some(s) = json_text(doc, second) {
        if !s.as_str().is_empty() {
            return Some(s);
        }
    }
    None
}

/// Reads the credentials out of the contents of `auth.json`; the refresh
/// token and everything else in the file is left alone.
pub fn parse_auth(contents: &str) -> (r: Result<AuthCredentials, QuotaError>)
    ensures
        match (r, auth_spec(contents@)) {
            (Ok(c), Ok((token, account))) => c.token_view() == token && c.account_view() == account,
            (Err(e), Err(f)) => e == f,
            _ => false,
        },
{
    if !json_is_valid(contents) {
        return Err(QuotaError::AuthInvalid);
    }
    let token = match nonempty_text(contents, "/tokens/access_token", "/access_token") {
        Some(t) => t,
        None => return Err(QuotaError::AuthInvalid),
    };
    let account = match nonempty_text(contents, "/tokens/account_id", "/account_id") {
        Some(a) => a,
        None => return Err(QuotaError::AuthInvalid),
    };
    Ok(AuthCredentials::new(token, account))
}

// ---------------------------------------------------------------------------
// Rate-limit windows in the usage response

/// Where a window is looked for: at the top level, then under
/// `rate_limit`, `rate_limits` and `usage`.
pub open spec fn window_pointers(name: Seq<char>) -> Seq<Seq<char>> {
    seq![
        "/"@ + name,
        "/rate_limit/"@ + name,
        "/rate_limits/"@ + name,
        "/usage/"@ + name,
    ]
}

/// The first of the candidate places that holds anything, if it holds a
/// non-null value.
pub open spec fn window_for_name(doc: Seq<char>, name: Seq<char>) -> Option<Seq<char>> {
    let p = window_pointers(name);
    if present_at(doc, p[0]) {
        if non_null_at(doc, p[0]) { Some(p[0]) } else { None }
    } else if present_at(doc, p[1]) {
        if non_null_at(doc, p[1]) { Some(p[1]) } else { None }
    } else if present_at(doc, p[2]) {
        if non_null_at(doc, p[2]) { Some(p[2]) } else { None }
    } else if present_at(doc, p[3]) {
        if non_null_at(doc, p[3]) { Some(p[3]) } else { None }
    } else {
        None
    }
}

/// The window found under its current name, else under its short name.
pub open spec fn window_location(doc: Seq<char>, name: Seq<char>, short_name: Seq<char>) -> Option<Seq<char>> {
    match window_for_name(doc, name) {
        Some(p) => Some(p),
        None => window_for_name(doc, short_name),
    }
}

fn window_for_name_exec(doc: &str, name: &str) -> (r: Option<String>)
    requires
        json_parses(doc@),
    ensures
        match r {
            Some(p) => window_for_name(doc@, name@) == Some(p@),
            None => window_for_name(doc@, name@).is_none(),
        },
{
    let candidates = [
        crate::text::concat("/", name),
        crate::text::concat("/rate_limit/", name),
        crate::text::concat("/rate_limits/", name),
        crate::text::concat("/usage/", name),
    ];
    let ghost p = window_pointers(name@);
    for i in 0..4usize
        invariant
            json_parses(doc@),
            p == window_pointers(name@),
            candidates@.len() == 4,
            forall|k: int| 0 <= k < 4 ==> (#[trigger] candidates@[k])@ == p[k],
            forall|k: int| 0 <= k < i ==> !present_at(doc@, #[trigger] p[k]),
    {
        let pointer = &candidates[i];
        if json_present(doc, pointer.as_str()) {
            if json_non_null(doc, pointer.as_str()) {
                return Some(pointer.clone());
            }
            return None;
        }
    }
    None
}

/// Finds the JSON pointer of a rate-limit window in the usage response:
/// `primary_window`/`primary` for the first window,
/// `secondary_window`/`secondary` for the second.
fn quota_window_pointer(response: &str, secondary: bool) -> (r: Option<String>)
    requires
        json_parses(response@),
    ensures
        ({
            let expected = if secondary {
                window_location(response@, "secondary_window"@, "secondary"@)
            } else {
                window_location(response@, "primary_window"@, "primary"@)
            };
            match r {
                Some(p) => expected == Some(p@),
                None => expected.is_none(),
            }
        }),
{
    let (name, short_name) = if secondary {
        ("secondary_window", "secondary")
    } else {
        ("primary_window", "primary")
    };
    match window_for_name_exec(response, name) {
        Some(p) => Some(p),
        None => window_for_name_exec(response, short_name),
    }
}

/// The JSON pointers of the first and the second rate-limit window in the
/// usage response; `None` when the response is not JSON.
pub fn locate_quota_windows(response: &str) -> (r: Option<(Option<String>, Option<String>)>)
    ensures
        match r {
            None => !json_parses(response@),
            Some((primary, secondary)) => {
                &&& json_parses(response@)
                &&& opt_text(primary) == window_location(response@, "primary_window"@, "primary"@)
                &&& opt_text(secondary) == window_location(response@, "secondary_window"@, "secondary"@)
            },
        },
{
    if !json_is_valid(response) {
        return None;
    }
    Some((quota_window_pointer(response, false), quota_window_pointer(response, true)))
}

/// The characters of an optional string.
pub open spec fn opt_text(o: Option<String>) -> Option<Seq<char>> {
    match o {
        Some(s) => Some(s@),
        None => None,
    }
}

/// Which returned window fills a slot.
#[derive(Clone, Copy, Debug, PartialEq, Eq, Structural)]
pub enum WindowSource {
    Primary,
    Secondary,
}

/// The windows that fill the five-hour and the weekly slot.
#[derive(Clone, Copy, Debug, PartialEq, Eq, Structural)]
pub struct WindowAssignment {
    pub five_hour: Option<WindowSource>,
    pub weekly: Option<WindowSource>,
}

/// A window is weekly when it declares a length of at least a day; a window
/// without a declared length is weekly when it is the second one.
pub open spec fn is_weekly_spec(window_seconds: Option<i64>, is_second: bool) -> bool {
    match window_seconds {
        Some(seconds) => seconds >= 24 * 60 * 60,
        None => is_second,
    }
}

/// How the returned windows fill the slots: each goes to the slot its length
/// says, the second winning when both claim the same slot; with no window at
/// all the quota is unavailable.
pub open spec fn assignment_spec(primary: Option<Option<i64>>, secondary: Option<Option<i64>>) -> Result<WindowAssignment, QuotaError> {
    if primary.is_none() && secondary.is_none() {
        Err(QuotaError::QuotaUnavailable)
    } else {
        let primary_weekly = primary is Some && is_weekly_spec(primary->0, false);
        let primary_five = primary is Some && !is_weekly_spec(primary->0, false);
        let secondary_weekly = secondary is Some && is_weekly_spec(secondary->0, true);
        let secondary_five = secondary is Some && !is_weekly_spec(secondary->0, true);
        Ok(WindowAssignment {
            five_hour: if secondary_five {
                Some(WindowSource::Secondary)
            } else if primary_five {
                Some(WindowSource::Primary)
            } else {
                None
            },
            weekly: if secondary_weekly {
                Some(WindowSource::Secondary)
            } else if primary_weekly {
                Some(WindowSource::Primary)
            } else {
                None
            },
        })
    }
}

/// Whether a window is the weekly one.
pub fn is_weekly_window(window_seconds: Option<i64>, is_second: bool) -> (r: bool)
    ensures
        r == is_weekly_spec(window_seconds, is_second),
{
    match window_seconds {
        Some(seconds) => seconds >= 24 * 60 * 60,
        None => is_second,
    }
}

/// Assigns the returned windows (given by their declared lengths; `None`
/// for a window the response lacks) to the five-hour and weekly slots.
pub fn assign_quota_windows(primary: Option<Option<i64>>, secondary: Option<Option<i64>>) -> (r: Result<WindowAssignment, QuotaError>)
    ensures
        r == assignment_spec(primary, secondary),
{
    if primary.is_none() && secondary.is_none() {
        return Err(QuotaError::QuotaUnavailable);
    }
    let mut five_hour: Option<WindowSource> = None;
    let mut weekly: Option<WindowSource> = None;
    if let Some(seconds) = primary {
        if is_weekly_window(seconds, false) {
            weekly = Some(WindowSource::Primary);
        } else {
            five_hour = Some(WindowSource::Primary);
        }
    }
    if let Some(seconds) = secondary {
        if is_weekly_window(seconds, true) {
            weekly = Some(WindowSource::Secondary);
        } else {
            five_hour = Some(WindowSource::Secondary);
        }
    }
    Ok(WindowAssignment { five_hour, weekly })
}

/// A slot is only ever filled by a window the response returned, never by
/// an estimate; a response with a window always fills some slot; and the
/// windows never collide: with both returned, each slot holds a different
/// one or one slot stays empty.
pub proof fn lemma_slots_hold_only_returned_windows(primary: Option<Option<i64>>, secondary: Option<Option<i64>>)
    ensures
        assignment_spec(primary, secondary) matches Ok(a) ==> {
            &&& a.five_hour == Some(WindowSource::Primary) ==> primary is Some
            &&& a.five_hour == Some(WindowSource::Secondary) ==> secondary is Some
            &&& a.weekly == Some(WindowSource::Primary) ==> primary is Some
            &&& a.weekly == Some(WindowSource::Secondary) ==> secondary is Some
            &&& a.five_hour is Some || a.weekly is Some
            &&& (a.five_hour is Some && a.weekly is Some) ==> a.five_hour != a.weekly
        },
        assignment_spec(primary, secondary) is Err <==> (primary is None && secondary is None),
{
}

// ---------------------------------------------------------------------------
// The shape of a usage response

/// Keys joined by commas.
pub open spec fn join_with_commas(keys: Seq<Seq<char>>) -> Seq<char>
    decreases keys.len(),
{
    if keys.len() == 0 {
        seq![]
    } else if keys.len() == 1 {
        keys[0]
    } else {
        join_with_commas(keys.drop_last()) + ","@ + keys.last()
    }
}

/// The keys of the object at `pointer`, joined by commas; empty where the
/// body is not JSON, nothing is there, or what is there is not an object.
pub open spec fn keys_text(body: Seq<char>, pointer: Option<Seq<char>>) -> Seq<char> {
    match pointer {
        None => seq![],
        Some(p) => match json_keys_at(body, p) {
            Some(keys) => join_with_commas(keys),
            None => seq![],
        },
    }
}

/// Where the rate limits sit: the first of `rate_limit`, `rate_limits` and
/// `usage` that is present (`null` included).
pub open spec fn rate_pointer(body: Seq<char>) -> Option<Seq<char>> {
    if !json_parses(body) {
        None
    } else if present_at(body, "/rate_limit"@) {
        Some("/rate_limit"@)
    } else if present_at(body, "/rate_limits"@) {
        Some("/rate_limits"@)
    } else if present_at(body, "/usage"@) {
        Some("/usage"@)
    } else {
        None
    }
}

/// Where a window sits under the rate limits: the first of its two names
/// that is present.
pub open spec fn window_pointer_under(body: Seq<char>, rate: Option<Seq<char>>, name: Seq<char>, short_name: Seq<char>) -> Option<Seq<char>> {
    match rate {
        None => None,
        Some(r) => if present_at(body, r + "/"@ + name) {
            Some(r + "/"@ + name)
        } else if present_at(body, r + "/"@ + short_name) {
            Some(r + "/"@ + short_name)
        } else {
            None
        },
    }
}

/// A summary of a usage response that holds no values: the HTTP status and
/// the keys of the top level, of the rate limits and of the two windows.
pub open spec fn response_shape_spec(status: int, body: Seq<char>) -> Seq<char> {
    let rate = rate_pointer(body);
    "http_status="@ + decimal(status) + ";top_keys="@ + keys_text(body, Some(""@)) + ";rate_keys="@
        + keys_text(body, rate) + ";primary_keys="@ + keys_text(
        body,
        window_pointer_under(body, rate, "primary_window"@, "primary"@),
    ) + ";secondary_keys="@ + keys_text(body, window_pointer_under(body, rate, "secondary_window"@, "secondary"@))
}

fn join_keys(keys: &Vec<String>) -> (s: String)
    ensures
        s@ == join_with_commas(strings_view(keys@)),
{
    let mut s = String::new();
    let mut i: usize = 0;
    while i < keys.len()
        invariant
            i <= keys@.len(),
            s@ == join_with_commas(strings_view(keys@.take(i as int))),
        decreases keys@.len() - i,
    {
        let ghost before = strings_view(keys@.take(i as int));
        let ghost after = strings_view(keys@.take(i + 1));
        assert(after.drop_last() =~= before);
        assert(after.last() == keys@[i as int]@);
        if i == 0 {
            s = keys[i].clone();
            assert(s@ == keys@[0]@);
        } else {
            s = concat(s.as_str(), ",");
            s = concat(s.as_str(), keys[i].as_str());
        }
        i += 1;
    }
    assert(keys@.take(keys@.len() as int) =~= keys@);
    s
}

fn keys_at(body: &str, pointer: Option<String>) -> (s: String)
    ensures
        s@ == keys_text(body@, match pointer {
            Some(p) => Some(p@),
            None => None,
        }),
{
    match pointer {
        None => String::new(),
        Some(p) => match json_object_keys(body, p.as_str()) {
            Some(keys) => join_keys(&keys),
            None => String::new(),
        },
    }
}

fn rate_pointer_exec(body: &str) -> (r: Option<String>)
    ensures
        match r {
            Some(p) => rate_pointer(body@) == Some(p@),
            None => rate_pointer(body@).is_none(),
        },
{
    if !json_is_valid(body) {
        return None;
    }
    if json_present(body, "/rate_limit") {
        Some("/rate_limit".to_owned())
    } else if json_present(body, "/rate_limits") {
        Some("/rate_limits".to_owned())
    } else if json_present(body, "/usage") {
        Some("/usage".to_owned())
    } else {
        None
    }
}

fn window_pointer_exec(body: &str, rate: &Option<String>, name: &str, short_name: &str) -> (r: Option<String>)
    requires
        rate.is_some() ==> json_parses(body@),
    ensures
        ({
            let rate_view = match rate {
                Some(p) => Some(p@),
                None => None,
            };
            match r {
                Some(p) => window_pointer_under(body@, rate_view, name@, short_name@) == Some(p@),
                None => window_pointer_under(body@, rate_view, name@, short_name@).is_none(),
            }
        }),
{
    match rate {
        None => None,
        Some(base) => {
            let under = concat(base.as_str(), "/");
            let long = concat(under.as_str(), name);
            if json_present(body, long.as_str()) {
                return Some(long);
            }
            let short = concat(under.as_str(), short_name);
            if json_present(body, short.as_str()) {
                return Some(short);
            }
            None
        },
    }
}

/// Describes a usage response without any of its values: the HTTP status
/// and the keys of the top level, the rate limits and the two windows.
pub fn response_shape(status: u16, body: &str) -> (s: String)
    ensures
        s@ == response_shape_spec(status as int, body@),
{
    let rate = rate_pointer_exec(body);
    let ghost rate_view = rate_pointer(body@);
    assert(rate_view == match rate {
        Some(p) => Some(p@),
        None => None::<Seq<char>>,
    });
    let primary = window_pointer_exec(body, &rate, "primary_window", "primary");
    let secondary = window_pointer_exec(body, &rate, "secondary_window", "secondary");
    let ghost primary_view = window_pointer_under(body@, rate_view, "primary_window"@, "primary"@);
    let ghost secondary_view = window_pointer_under(body@, rate_view, "secondary_window"@, "secondary"@);
    assert(primary_view == match primary {
        Some(p) => Some(p@),
        None => None::<Seq<char>>,
    });
    assert(secondary_view == match secondary {
        Some(p) => Some(p@),
        None => None::<Seq<char>>,
    });
    let rate_keys = keys_at(body, rate);
    let primary_keys = keys_at(body, primary);
    let secondary_keys = keys_at(body, secondary);
    proof {
        reveal_strlit("");
        assert(""@ =~= Seq::<char>::empty());
    }
    let top_keys = keys_at(body, Some(String::new()));
    assert(top_keys@ == keys_text(body@, Some(""@)));
    let s = concat("http_status=", format_decimal(status as i64).as_str());
    let s = concat(s.as_str(), ";top_keys=");
    let s = concat(s.as_str(), top_keys.as_str());
    let s = concat(s.as_str(), ";rate_keys=");
    let s = concat(s.as_str(), rate_keys.as_str());
    let s = concat(s.as_str(), ";primary_keys=");
    let s = concat(s.as_str(), primary_keys.as_str());
    let s = concat(s.as_str(), ";secondary_keys=");
    concat(s.as_str(), secondary_keys.as_str())
}

} // verus!
