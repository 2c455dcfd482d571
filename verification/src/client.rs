//! A client for interacting with a platform instance: the login-token
//! extraction heuristic and the three steps of the login handshake.

use crate::error::Error;
use crate::http::{Body, HttpRequest, Method};
use crate::serde::str_eq;
use vstd::prelude::*;

verus! {

// The login page embeds the token as the value of the only <input> element
// whose serialized attribute list has two spaces before `value`. Extraction
// therefore hunts for the marker `  value="` and captures up to the next
// quote, exactly as the non-greedy pattern `  value="(.+?)"` would: the
// capture is non-empty, may not span a line break, and the earliest
// possible capture wins.

/// The marker that opens a capture: two spaces, `value=`, and the opening
/// quote.
pub open spec fn token_marker() -> Seq<char> {
    seq![' ', ' ', 'v', 'a', 'l', 'u', 'e', '=', '"']
}

/// Whether the marker sits at position `i` of `s`.
pub open spec fn marker_at(s: Seq<char>, i: int) -> bool {
    &&& 0 <= i
    &&& i + 9 <= s.len()
    &&& forall|k: int| i <= k < i + 9 ==> #[trigger] s[k] == token_marker()[k - i]
}

/// Whether a capture opened by a marker at `i` is closed by the quote at
/// `j`: the capture `s[i+9 .. j]` is non-empty and free of line breaks.
/// The capture itself may contain quotes; only the shortest capture is the
/// one reported.
pub open spec fn capture_ends_at(s: Seq<char>, i: int, j: int) -> bool {
    &&& marker_at(s, i)
    &&& i + 10 <= j < s.len()
    &&& s[j] == '"'
    &&& forall|k: int| i + 9 <= k < j ==> #[trigger] s[k] != '\n'
}

/// Whether a marker at `i` opens any completed capture.
pub open spec fn match_at(s: Seq<char>, i: int) -> bool {
    exists|j: int| capture_ends_at(s, i, j)
}

/// Whether any completed capture starts at or after position `start`.
pub open spec fn has_match_from(s: Seq<char>, start: int) -> bool {
    exists|i: int| start <= i && match_at(s, i)
}

/// Whether `(i, j)` is the capture the heuristic reports when scanning
/// from `start`: the earliest marker position that completes, closed by
/// its nearest admissible quote.
pub open spec fn is_first_capture(s: Seq<char>, start: int, i: int, j: int) -> bool {
    &&& start <= i
    &&& capture_ends_at(s, i, j)
    &&& forall|i2: int| start <= i2 < i ==> !match_at(s, i2)
    &&& forall|j2: int| i + 10 <= j2 < j ==> !capture_ends_at(s, i, j2)
}

/// The capture the heuristic reports when scanning from `start`; only
/// meaningful when `has_match_from(s, start)` holds.
pub open spec fn first_capture(s: Seq<char>, start: int) -> (int, int) {
    choose|i: int, j: int| is_first_capture(s, start, i, j)
}

/// The token text of the capture reported when scanning from `start`.
pub open spec fn token_of(s: Seq<char>, start: int) -> Seq<char> {
    s.subrange(first_capture(s, start).0 + 9, first_capture(s, start).1)
}

/// At most one capture can be the first one.
pub proof fn lemma_first_capture_unique(s: Seq<char>, start: int, i1: int, j1: int, i2: int, j2: int)
    requires
        is_first_capture(s, start, i1, j1),
        is_first_capture(s, start, i2, j2),
    ensures
        i1 == i2,
        j1 == j2,
{
    assert(match_at(s, i1));
    assert(match_at(s, i2));
}

/// A found first capture is the one that `first_capture` denotes: a body
/// whose earliest completed capture is `(i, j)` yields exactly the text
/// between the marker and that closing quote.
pub proof fn lemma_first_capture_is(s: Seq<char>, start: int, i: int, j: int)
    requires
        is_first_capture(s, start, i, j),
    ensures
        first_capture(s, start) == (i, j),
        token_of(s, start) == s.subrange(i + 9, j),
{
    assert(exists|i2: int, j2: int| is_first_capture(s, start, i2, j2));
    let (ic, jc) = first_capture(s, start);
    lemma_first_capture_unique(s, start, ic, jc, i, j);
}

/// A body with exactly one completed capture yields exactly that capture's
/// text: `get_token` returns it.
pub proof fn lemma_single_capture_token(s: Seq<char>, i: int, j: int)
    requires
        capture_ends_at(s, i, j),
        forall|i2: int, j2: int| #[trigger] capture_ends_at(s, i2, j2) ==> i2 == i && j2 == j,
    ensures
        has_match_from(s, 0),
        token_of(s, 0) == s.subrange(i + 9, j),
{
    assert(match_at(s, i));
    assert forall|i2: int| 0 <= i2 < i implies !match_at(s, i2) by {
        if match_at(s, i2) {
            let j2 = choose|j2: int| capture_ends_at(s, i2, j2);
            assert(capture_ends_at(s, i2, j2));
        }
    }
    assert(is_first_capture(s, 0, i, j));
    lemma_first_capture_is(s, 0, i, j);
}

/// A body with no completed capture at all yields no token: `get_token`
/// fails on it.
pub proof fn lemma_no_capture_no_token(s: Seq<char>)
    requires
        forall|i: int, j: int| !capture_ends_at(s, i, j),
    ensures
        !has_match_from(s, 0),
{
    assert forall|i: int| !match_at(s, i) by {
        if match_at(s, i) {
            let j = choose|j: int| capture_ends_at(s, i, j);
            assert(capture_ends_at(s, i, j));
        }
    }
}

/// Checks whether the marker sits at position `i`.
fn marker_at_exec(body: &str, i: usize, n: usize) -> (r: bool)
    requires
        n == body@.len(),
        i + 9 <= n,
    ensures
        r == marker_at(body@, i as int),
{
    let r = body.get_char(i) == ' ' && body.get_char(i + 1) == ' ' && body.get_char(i + 2) == 'v'
        && body.get_char(i + 3) == 'a' && body.get_char(i + 4) == 'l' && body.get_char(i + 5)
        == 'u' && body.get_char(i + 6) == 'e' && body.get_char(i + 7) == '=' && body.get_char(
        i + 8,
    ) == '"';
    proof {
        if r {
            assert forall|k: int| i <= k < i + 9 implies #[trigger] body@[k] == token_marker()[
                k - i] by {}
        }
    }
    r
}

/// Scans for the quote closing a capture whose marker sits at `i`.
fn scan_capture(body: &str, i: usize, n: usize) -> (r: Option<usize>)
    requires
        n == body@.len(),
        marker_at(body@, i as int),
        i + 11 <= n,
    ensures
        r is Some <==> match_at(body@, i as int),
        r matches Some(j) ==> capture_ends_at(body@, i as int, j as int) && (forall|j2: int|
            i + 10 <= j2 < j ==> !capture_ends_at(body@, i as int, j2)),
{
    let mut k: usize = i + 9;
    while k < n
        invariant
            i + 9 <= k <= n,
            n == body@.len(),
            marker_at(body@, i as int),
            forall|m: int| i + 9 <= m < k ==> #[trigger] body@[m] != '\n',
            forall|j2: int| i + 10 <= j2 < k ==> #[trigger] body@[j2] != '"',
        decreases n - k,
    {
        let c = body.get_char(k);
        if c == '\n' {
            proof {
                assert forall|j: int| !capture_ends_at(body@, i as int, j) by {
                    if capture_ends_at(body@, i as int, j) {
                        assert(body@[j] == '"');
                        if j > k {
                            assert(body@[k as int] != '\n');
                        }
                    }
                }
            }
            return None;
        }
        if k > i + 9 && c == '"' {
            proof {
                assert(capture_ends_at(body@, i as int, k as int));
            }
            return Some(k);
        }
        k += 1;
    }
    proof {
        assert forall|j: int| !capture_ends_at(body@, i as int, j) by {
            if capture_ends_at(body@, i as int, j) {
                assert(body@[j] == '"');
            }
        }
    }
    None
}

/// Finds the first completed capture at or after character `start`,
/// returning the capture text and the position right after its closing
/// quote, where a further scan may resume.
pub fn find_token_from<'a>(body: &'a str, start: usize) -> (r: Option<(&'a str, usize)>)
    ensures
        r is Some <==> has_match_from(body@, start as int),
        r matches Some((t, end)) ==> t@ == token_of(body@, start as int) && end == first_capture(
            body@,
            start as int,
        ).1 + 1 && end <= body@.len(),
{
    let n = body.unicode_len();
    let mut i: usize = start;
    while i < n && n - i >= 11
        invariant
            start <= i,
            n == body@.len(),
            forall|i2: int| start <= i2 < i ==> !match_at(body@, i2),
        decreases n - i,
    {
        if marker_at_exec(body, i, n) {
            match scan_capture(body, i, n) {
                Some(j) => {
                    proof {
                        lemma_first_capture_is(body@, start as int, i as int, j as int);
                        assert(has_match_from(body@, start as int));
                    }
                    let t = body.substring_char(i + 9, j);
                    return Some((t, j + 1));
                },
                None => {},
            }
        }
        i += 1;
    }
    proof {
        assert forall|i2: int| start <= i2 implies !match_at(body@, i2) by {
            if i2 < i {
            } else if match_at(body@, i2) {
                let j = choose|j: int| capture_ends_at(body@, i2, j);
                assert(i2 + 10 <= j < n);
            }
        }
        assert(!has_match_from(body@, start as int));
    }
    None
}

/// Extracts the login token from a response body: the value of the only
/// input element whose attribute list has two spaces before `value`.
pub fn get_token(body: &str) -> (r: Option<&str>)
    ensures
        r is Some <==> has_match_from(body@, 0),
        r matches Some(t) ==> t@ == token_of(body@, 0),
{
    match find_token_from(body, 0) {
        Some((t, _)) => Some(t),
        None => None,
    }
}

/// An authenticated session against one platform instance: its view is the
/// base URL it was created with. The application driving the handshake
/// keeps the HTTP client and its cookie jar beside this value.
#[derive(Clone, Debug)]
pub struct Client {
    url: String,
}

impl View for Client {
    type V = Seq<char>;

    closed spec fn view(&self) -> Seq<char> {
        self.url@
    }
}

impl Client {
    /// Returns the URL of the associated platform instance, exactly as it
    /// was supplied at login.
    pub fn url(&self) -> (r: &str)
        ensures
            r@ == self@,
    {
        self.url.as_str()
    }

    /// The request that opens the login handshake: fetch the login page,
    /// with redirect following disabled and cookie persistence enabled.
    pub fn login_request(url: &str) -> (r: HttpRequest)
        ensures
            r.method == Method::Get,
            r.url@ == url@ + "/login"@,
            r.body matches Body::Empty,
    {
        HttpRequest {
            method: Method::Get,
            url: String::from_str(url).concat("/login"),
            body: Body::Empty,
        }
    }

    /// Builds the credential submission from the login page body. The page
    /// carries either the token alone or, on an older layout, a generation
    /// timestamp followed by the token; both layouts are recognized. A body
    /// without any token is an authentication error.
    pub fn login_submit(url: &str, username: &str, password: &str, body: &str) -> (r: Result<
        HttpRequest,
        Error,
    >)
        ensures
            r is Ok <==> has_match_from(body@, 0),
            !has_match_from(body@, 0) ==> r == Err::<HttpRequest, Error>(Error::Authentication),
            r matches Ok(req) ==> req.method == Method::Post && req.url@ == url@ + "/login"@ && ({
                let t1 = token_of(body@, 0);
                let next = first_capture(body@, 0).1 + 1;
                req.body matches Body::Form(f) && (if has_match_from(body@, next) {
                    &&& f@.len() == 4
                    &&& f@[0].0@ == "login_form[_username]"@ && f@[0].1@ == username@
                    &&& f@[1].0@ == "login_form[_password]"@ && f@[1].1@ == password@
                    &&& f@[2].0@ == "login_form[_token]"@ && f@[2].1@ == token_of(body@, next)
                    &&& f@[3].0@ == "login_form[_generationTime]"@ && f@[3].1@ == t1
                } else {
                    &&& f@.len() == 3
                    &&& f@[0].0@ == "login_form[_username]"@ && f@[0].1@ == username@
                    &&& f@[1].0@ == "login_form[_password]"@ && f@[1].1@ == password@
                    &&& f@[2].0@ == "login_form[_token]"@ && f@[2].1@ == t1
                })
            }),
    {
        match find_token_from(body, 0) {
            None => Err(Error::Authentication),
            Some((t1, next)) => {
                let mut f: Vec<(&'static str, String)> = Vec::new();
                f.push(("login_form[_username]", String::from_str(username)));
                f.push(("login_form[_password]", String::from_str(password)));
                match find_token_from(body, next) {
                    Some((t2, _)) => {
                        f.push(("login_form[_token]", String::from_str(t2)));
                        f.push(("login_form[_generationTime]", String::from_str(t1)));
                    },
                    None => {
                        f.push(("login_form[_token]", String::from_str(t1)));
                    },
                }
                Ok(
                    HttpRequest {
                        method: Method::Post,
                        url: String::from_str(url).concat("/login"),
                        body: Body::Form(f),
                    },
                )
            },
        }
    }

    /// Concludes the handshake. The platform signals success only by
    /// setting the session cookie; its absence means invalid credentials or
    /// an expired token, and the two are deliberately reported identically.
    /// On success the session's base URL is the input URL, unchanged.
    pub fn login_outcome(url: &str, has_session_cookie: bool) -> (r: Result<Client, Error>)
        ensures
            has_session_cookie ==> (r matches Ok(c) && c@ == url@),
            !has_session_cookie ==> r == Err::<Client, Error>(Error::Authentication),
    {
        if has_session_cookie {
            Ok(Client { url: String::from_str(url) })
        } else {
            Err(Error::Authentication)
        }
    }
}

/// Classifies the login page response: a client or server error status on
/// the login page itself is an authentication failure. Whether a malformed
/// URL, an unsupported protocol or an upstream markup change caused it
/// cannot be told apart here, and the ambiguity is kept.
pub fn login_page_status(status: u16) -> (r: Result<(), Error>)
    ensures
        r == (if 400 <= status && status < 600 {
            Err::<(), Error>(Error::Authentication)
        } else {
            Ok::<(), Error>(())
        }),
{
    if 400 <= status && status < 600 {
        Err(Error::Authentication)
    } else {
        Ok(())
    }
}

/// Whether a post-login response signals success: no error status, and the
/// session cookie present.
pub fn login_succeeded(status: u16, has_session_cookie: bool) -> (r: bool)
    ensures
        r == (!(400 <= status && status < 600) && has_session_cookie),
{
    !(400 <= status && status < 600) && has_session_cookie
}

/// Whether a response's cookie names contain the session cookie
/// (`PHPSESSID`) whose presence signals a successful login.
pub fn has_session_cookie(cookie_names: &Vec<String>) -> (r: bool)
    ensures
        r == exists|k: int|
            0 <= k < cookie_names@.len() && #[trigger] cookie_names@[k]@ == "PHPSESSID"@,
{
    let n = cookie_names.len();
    let mut i: usize = 0;
    while i < n
        invariant
            0 <= i <= n,
            n == cookie_names@.len(),
            forall|k: int| 0 <= k < i ==> #[trigger] cookie_names@[k]@ != "PHPSESSID"@,
        decreases n - i,
    {
        if str_eq(cookie_names[i].as_str(), "PHPSESSID") {
            return true;
        }
        i += 1;
    }
    false
}

} // verus!
