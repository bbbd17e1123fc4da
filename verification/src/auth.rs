//! The OAuth2 token lifecycle's decisions: token validity, credential
//! resolution, the consent URL, the browser callback's parse, and the token
//! records written back to disk.
//!
//! Reading and writing the token file, binding the listener and talking to
//! the token endpoint is the runtime's work.

use vstd::prelude::*;

use crate::bytes::ascii_of;
use crate::bytes::copy_bytes;
use crate::bytes::dec_of;
use crate::bytes::idx_of;
use crate::bytes::is_ws;
use crate::bytes::param_value_of;
use crate::bytes::push_check;
use crate::bytes::push_lit;
use crate::bytes::split_of;
use crate::bytes::trim_front_of;
use crate::ext::naive_utc_epoch_of;
use crate::ext::rfc3339_epoch_of;
use crate::ext::url_decoded_of;
use crate::ext::url_encoded_of;
use crate::ext::utc_micros_rfc3339_of;

verus! {

/// The token record kept on disk, as the token file shapes it.  The scopes
/// field carries the raw JSON text of whatever the file held there.
#[derive(Debug)]
pub struct GoogleToken {
    pub token: Option<Vec<u8>>,
    pub refresh_token: Option<Vec<u8>>,
    pub token_uri: Option<Vec<u8>>,
    pub client_id: Option<Vec<u8>>,
    pub client_secret: Option<Vec<u8>>,
    pub expiry: Option<Vec<u8>>,
    pub scopes: Option<Vec<u8>>,
    pub universe_domain: Option<Vec<u8>>,
    pub account: Option<Vec<u8>>,
}

/// A token counts as expired when its expiry is absent, unreadable in both
/// accepted timestamp forms, or within sixty seconds of `now`.
pub open spec fn token_lapsed(t: GoogleToken, now: int) -> bool {
    match t.expiry {
        None => true,
        Some(v) => match rfc3339_epoch_of(v@) {
            Some(e) => e <= now + 60,
            None => match naive_utc_epoch_of(v@) {
                Some(e) => e <= now + 60,
                None => true,
            },
        },
    }
}

/// Decides whether the stored access token is still usable at time `now`.
pub fn is_token_expired(token: &GoogleToken, now: i64) -> (r: bool)
    requires
        now <= i64::MAX - 60,
    ensures
        r == token_lapsed(*token, now as int),
{
    match &token.expiry {
        None => true,
        Some(v) => match crate::ext::parse_rfc3339_epoch(v) {
            Some(e) => e <= now + 60,
            None => match crate::ext::parse_naive_utc_epoch(v) {
                Some(e) => e <= now + 60,
                None => true,
            },
        },
    }
}

/// One client entry of the credentials file.
#[derive(Debug)]
pub struct ClientConfig {
    pub client_id: Vec<u8>,
    pub client_secret: Vec<u8>,
    pub token_uri: Option<Vec<u8>>,
}

/// The credentials file's top level: an installed-app or web-app client.
#[derive(Debug)]
pub struct CredentialsFile {
    pub installed: Option<ClientConfig>,
    pub web: Option<ClientConfig>,
}

/// The token endpoint assumed when none is recorded.
pub open spec fn default_token_uri() -> Seq<u8> {
    ascii_of("https://oauth2.googleapis.com/token"@)
}

/// The client id, secret and token endpoint as recorded in the token file
/// itself, when both id and secret are present and non-empty there.
pub fn creds_from_token(t: &GoogleToken) -> (r: Option<(Vec<u8>, Vec<u8>, Vec<u8>)>)
    ensures
        match r {
            Some(v) => t.client_id is Some && t.client_id->0@ == v.0@ && v.0@.len() > 0
                && t.client_secret is Some && t.client_secret->0@ == v.1@ && v.1@.len() > 0
                && v.2@ == (match t.token_uri {
                Some(u) => u@,
                None => default_token_uri(),
            }),
            None => !(t.client_id is Some && t.client_id->0@.len() > 0 && t.client_secret is Some
                && t.client_secret->0@.len() > 0),
        },
{
    proof {
        reveal_strlit("https://oauth2.googleapis.com/token");
    }
    match (&t.client_id, &t.client_secret) {
        (Some(id), Some(secret)) => {
            if id.len() > 0 && secret.len() > 0 {
                let uri = match &t.token_uri {
                    Some(u) => copy_bytes(u),
                    None => crate::bytes::lit("https://oauth2.googleapis.com/token"),
                };
                Some((copy_bytes(id), copy_bytes(secret), uri))
            } else {
                None
            }
        },
        _ => None,
    }
}

/// The client id, secret and token endpoint from the credentials file: the
/// installed-app client wins over the web client; a file with neither is
/// refused with the fixed message.
pub fn creds_from_file(c: CredentialsFile) -> (r: Result<(Vec<u8>, Vec<u8>, Vec<u8>), Vec<u8>>)
    ensures
        c.installed matches Some(cfg) ==> r is Ok && r->Ok_0.0@ == cfg.client_id@ && r->Ok_0.1@
            == cfg.client_secret@ && r->Ok_0.2@ == (match cfg.token_uri {
            Some(u) => u@,
            None => default_token_uri(),
        }),
        c.installed is None && c.web is Some ==> r is Ok && r->Ok_0.0@ == c.web->0.client_id@
            && r->Ok_0.1@ == c.web->0.client_secret@ && r->Ok_0.2@ == (match c.web->0.token_uri {
            Some(u) => u@,
            None => default_token_uri(),
        }),
        c.installed is None && c.web is None ==> r is Err && r->Err_0@ == ascii_of(
            "credentials.json has no 'installed' or 'web' section."@,
        ),
{
    proof {
        reveal_strlit("https://oauth2.googleapis.com/token");
        reveal_strlit("credentials.json has no 'installed' or 'web' section.");
    }
    let cfg = match c.installed {
        Some(cfg) => cfg,
        None => match c.web {
            Some(cfg) => cfg,
            None => {
                return Err(
                    crate::bytes::lit("credentials.json has no 'installed' or 'web' section."),
                );
            },
        },
    };
    let uri = match cfg.token_uri {
        Some(u) => u,
        None => crate::bytes::lit("https://oauth2.googleapis.com/token"),
    };
    Ok((cfg.client_id, cfg.client_secret, uri))
}

/// The scopes requested for the workspace: mail read-only, calendar, and
/// spreadsheets, space-separated.
pub open spec fn oauth_scopes() -> Seq<u8> {
    ascii_of(
        "https://www.googleapis.com/auth/gmail.readonly https://www.googleapis.com/auth/calendar https://www.googleapis.com/auth/spreadsheets"@,
    )
}

/// The local redirect target on the ephemeral port.
pub open spec fn redirect_uri_of(port: u16) -> Seq<u8> {
    ascii_of("http://localhost:"@) + dec_of(port as nat)
}

/// The consent URL shown to the user, percent-encoded per parameter.
pub open spec fn consent_url_of(client_id: Seq<u8>, port: u16) -> Seq<u8> {
    ascii_of("https://accounts.google.com/o/oauth2/auth?client_id="@) + url_encoded_of(client_id)
        + ascii_of("&redirect_uri="@) + url_encoded_of(redirect_uri_of(port)) + ascii_of(
        "&response_type=code&scope="@,
    ) + url_encoded_of(oauth_scopes()) + ascii_of("&access_type=offline&prompt=consent"@)
}

/// Builds the consent URL for the client and the listener's port.
pub fn oauth_consent_url(client_id: &Vec<u8>, port: u16) -> (r: Vec<u8>)
    ensures
        r@ == consent_url_of(client_id@, port),
{
    proof {
        reveal_strlit("https://accounts.google.com/o/oauth2/auth?client_id=");
        reveal_strlit("&redirect_uri=");
        reveal_strlit("&response_type=code&scope=");
        reveal_strlit("&access_type=offline&prompt=consent");
        reveal_strlit("http://localhost:");
        reveal_strlit(
            "https://www.googleapis.com/auth/gmail.readonly https://www.googleapis.com/auth/calendar https://www.googleapis.com/auth/spreadsheets",
        );
    }
    let mut redirect = crate::bytes::lit("http://localhost:");
    crate::bytes::push_u64_dec(&mut redirect, port as u64);
    let scopes = crate::bytes::lit(
        "https://www.googleapis.com/auth/gmail.readonly https://www.googleapis.com/auth/calendar https://www.googleapis.com/auth/spreadsheets",
    );
    let mut r = crate::bytes::lit("https://accounts.google.com/o/oauth2/auth?client_id=");
    let mut enc = crate::ext::url_encode(client_id);
    r.append(&mut enc);
    push_lit(&mut r, "&redirect_uri=");
    let mut enc2 = crate::ext::url_encode(&redirect);
    r.append(&mut enc2);
    push_lit(&mut r, "&response_type=code&scope=");
    let mut enc3 = crate::ext::url_encode(&scopes);
    r.append(&mut enc3);
    push_lit(&mut r, "&access_type=offline&prompt=consent");
    assert(r@ =~= consent_url_of(client_id@, port));
    r
}

/// Skipping one maximal run of non-whitespace.
pub open spec fn drop_tok(s: Seq<u8>) -> Seq<u8>
    decreases s.len(),
{
    if s.len() > 0 && !is_ws(s[0]) {
        drop_tok(s.drop_first())
    } else {
        s
    }
}

/// One maximal run of non-whitespace from the front.
pub open spec fn take_tok(s: Seq<u8>) -> Seq<u8>
    decreases s.len(),
{
    if s.len() > 0 && !is_ws(s[0]) {
        seq![s[0]] + take_tok(s.drop_first())
    } else {
        Seq::empty()
    }
}

proof fn lemma_tok_at(s: Seq<u8>, i: int)
    requires
        0 <= i <= s.len(),
        forall|k: int| 0 <= k < i ==> !is_ws(s[k]),
        i < s.len() ==> is_ws(s[i]),
    ensures
        drop_tok(s) == s.skip(i),
        take_tok(s) == s.take(i),
    decreases i + 1,
{
    if i == 0 {
        assert(s.skip(0) =~= s);
        assert(s.take(0) =~= Seq::<u8>::empty());
    } else {
        assert(!is_ws(s[0]));
        assert(forall|k: int| 0 <= k < i - 1 ==> !is_ws(s.drop_first()[k]));
        assert(i - 1 < s.drop_first().len() ==> is_ws(s.drop_first()[i - 1]));
        lemma_tok_at(s.drop_first(), i - 1);
        assert(s.drop_first().skip(i - 1) =~= s.skip(i));
        assert(seq![s[0]] + s.drop_first().take(i - 1) =~= s.take(i));
    }
}

/// The second whitespace-separated token of `line`: for a request line, the
/// target path.
pub open spec fn second_token_of(line: Seq<u8>) -> Seq<u8> {
    take_tok(trim_front_of(drop_tok(trim_front_of(line))))
}

/// Extracts the second whitespace-separated token.
pub fn second_token(line: &Vec<u8>) -> (r: Vec<u8>)
    ensures
        r@ == second_token_of(line@),
{
    let n = line.len();
    let mut i: usize = 0;
    while i < n && (line[i] == 32 || line[i] == 9 || line[i] == 10 || line[i] == 12 || line[i]
        == 13)
        invariant
            i <= n == line@.len(),
            forall|k: int| 0 <= k < i ==> is_ws(line@[k]),
        decreases n - i,
    {
        i = i + 1;
    }
    proof {
        crate::bytes::lemma_trim_front_skip(line@, i as int);
    }
    let ghost s1 = line@.skip(i as int);
    let mut j: usize = i;
    while j < n && !(line[j] == 32 || line[j] == 9 || line[j] == 10 || line[j] == 12 || line[j]
        == 13)
        invariant
            i <= j <= n,
            forall|k: int| i <= k < j ==> !is_ws(line@[k]),
        decreases n - j,
    {
        j = j + 1;
    }
    proof {
        assert(forall|k: int| 0 <= k < j - i ==> s1[k] == line@[#[trigger] (k + i)]);
        lemma_tok_at(s1, j - i);
    }
    let ghost s2 = s1.skip(j - i);
    let mut k: usize = j;
    while k < n && (line[k] == 32 || line[k] == 9 || line[k] == 10 || line[k] == 12 || line[k]
        == 13)
        invariant
            j <= k <= n,
            forall|m: int| j <= m < k ==> is_ws(line@[m]),
        decreases n - k,
    {
        k = k + 1;
    }
    proof {
        assert(forall|m: int| 0 <= m < k - j ==> s2[m] == line@[#[trigger] (m + j)]);
        crate::bytes::lemma_trim_front_skip(s2, k - j);
    }
    let ghost s3 = s2.skip(k - j);
    let mut m: usize = k;
    while m < n && !(line[m] == 32 || line[m] == 9 || line[m] == 10 || line[m] == 12 || line[m]
        == 13)
        invariant
            k <= m <= n,
            forall|q: int| k <= q < m ==> !is_ws(line@[q]),
        decreases n - m,
    {
        m = m + 1;
    }
    proof {
        assert(forall|q: int| 0 <= q < m - k ==> s3[q] == line@[#[trigger] (q + k)]);
        lemma_tok_at(s3, m - k);
    }
    let r = crate::bytes::sub_bytes(line, k, m);
    assert(r@ =~= s3.take(m - k));
    r
}

/// The query string of the callback request: the part of the request line's
/// path between the first `?` and the next one, if any.
pub open spec fn callback_query_of(request: Seq<u8>) -> Seq<u8> {
    let line = request.take(idx_of(request, 10));
    let path = second_token_of(line);
    let qm = idx_of(path, 63);
    if qm < path.len() {
        let rest = path.skip(qm + 1);
        rest.take(idx_of(rest, 63))
    } else {
        Seq::empty()
    }
}

/// How the browser's one callback request reads.
#[derive(Debug)]
pub enum CallbackOutcome {
    /// The user denied or the provider reported an error; the decoded error
    /// text is carried.
    Denied(Vec<u8>),
    /// The decoded authorization code.
    Code(Vec<u8>),
    /// No code and no error in the callback.
    NoCode,
}

/// What the parsed callback must be for a given request: an `error`
/// parameter anywhere in the query refuses the flow; otherwise the first
/// `code` parameter is the authorization code; otherwise there is nothing to
/// exchange.
pub open spec fn callback_read(request: Seq<u8>, r: CallbackOutcome) -> bool {
    let params = split_of(callback_query_of(request), 38);
    match param_value_of(params, ascii_of("error="@)) {
        Some(e) => r is Denied && r->Denied_0@ == url_decoded_of(e),
        None => match param_value_of(params, ascii_of("code="@)) {
            Some(c) => r is Code && r->Code_0@ == url_decoded_of(c),
            None => r is NoCode,
        },
    }
}

/// Parses the browser redirect.
pub fn parse_oauth_callback(request: &Vec<u8>) -> (r: CallbackOutcome)
    ensures
        callback_read(request@, r),
{
    proof {
        reveal_strlit("error=");
        reveal_strlit("code=");
    }
    let nl = crate::bytes::find_byte(request, 10);
    proof {
        crate::bytes::lemma_idx_of(request@, 10);
    }
    let line = crate::bytes::sub_bytes(request, 0, nl);
    proof {
        assert(line@ =~= request@.take(idx_of(request@, 10)));
    }
    let path = second_token(&line);
    let qm = crate::bytes::find_byte(&path, 63);
    proof {
        crate::bytes::lemma_idx_of(path@, 63);
    }
    let query: Vec<u8>;
    if qm < path.len() {
        let rest = crate::bytes::sub_bytes(&path, qm + 1, path.len());
        proof {
            assert(rest@ =~= path@.skip(qm + 1));
        }
        let qe = crate::bytes::find_byte(&rest, 63);
        proof {
            crate::bytes::lemma_idx_of(rest@, 63);
        }
        query = crate::bytes::sub_bytes(&rest, 0, qe);
        proof {
            assert(query@ =~= callback_query_of(request@));
        }
    } else {
        query = Vec::new();
        proof {
            assert(query@ =~= callback_query_of(request@));
        }
    }
    let params = crate::bytes::split_byte(&query, 38);
    let error_key = crate::bytes::lit("error=");
    if let Some(e) = crate::bytes::find_param(&params, &error_key) {
        return CallbackOutcome::Denied(crate::ext::url_decode(&e));
    }
    let code_key = crate::bytes::lit("code=");
    if let Some(c) = crate::bytes::find_param(&params, &code_key) {
        return CallbackOutcome::Code(crate::ext::url_decode(&c));
    }
    CallbackOutcome::NoCode
}

/// The fixed error text when a callback carries no code.
pub fn no_code_error() -> (r: Vec<u8>)
    ensures
        r@ == ascii_of("No authorization code in callback URL"@),
{
    proof {
        reveal_strlit("No authorization code in callback URL");
    }
    crate::bytes::lit("No authorization code in callback URL")
}

/// The HTTP page answered to a denied or failed consent.
pub fn denied_page() -> (r: Vec<u8>)
    ensures
        r@ == ascii_of(
            "HTTP/1.1 400 Bad Request\r\nContent-Type: text/html\r\n\r\n<html><body><h2>Authentication cancelled or denied.</h2><p>You can close this tab.</p></body></html>"@,
        ),
{
    proof {
        reveal_strlit(
            "HTTP/1.1 400 Bad Request\r\nContent-Type: text/html\r\n\r\n<html><body><h2>Authentication cancelled or denied.</h2><p>You can close this tab.</p></body></html>",
        );
    }
    crate::bytes::lit(
        "HTTP/1.1 400 Bad Request\r\nContent-Type: text/html\r\n\r\n<html><body><h2>Authentication cancelled or denied.</h2><p>You can close this tab.</p></body></html>",
    )
}

/// The HTTP page answered to a successful consent.
pub fn success_page() -> (r: Vec<u8>)
    ensures
        r@ == ascii_of(
            "HTTP/1.1 200 OK\r\nContent-Type: text/html\r\n\r\n<html><body style=\"font-family:sans-serif;text-align:center;padding:60px\"><h2>"@,
        ) + crate::bytes::check_of() + ascii_of(
            " Authentication Successful!</h2><p>You can close this tab and return to Rong-E.</p></body></html>"@,
        ),
{
    proof {
        reveal_strlit(
            "HTTP/1.1 200 OK\r\nContent-Type: text/html\r\n\r\n<html><body style=\"font-family:sans-serif;text-align:center;padding:60px\"><h2>",
        );
        reveal_strlit(
            " Authentication Successful!</h2><p>You can close this tab and return to Rong-E.</p></body></html>",
        );
    }
    let mut r = crate::bytes::lit(
        "HTTP/1.1 200 OK\r\nContent-Type: text/html\r\n\r\n<html><body style=\"font-family:sans-serif;text-align:center;padding:60px\"><h2>",
    );
    push_check(&mut r);
    push_lit(
        &mut r,
        " Authentication Successful!</h2><p>You can close this tab and return to Rong-E.</p></body></html>",
    );
    r
}

/// The form fields of a refresh request, in order.
pub fn refresh_params(client_id: &Vec<u8>, client_secret: &Vec<u8>, refresh_token: &Vec<u8>) -> (r:
    Vec<(Vec<u8>, Vec<u8>)>)
    ensures
        r@.len() == 4,
        r@[0].0@ == ascii_of("client_id"@) && r@[0].1@ == client_id@,
        r@[1].0@ == ascii_of("client_secret"@) && r@[1].1@ == client_secret@,
        r@[2].0@ == ascii_of("refresh_token"@) && r@[2].1@ == refresh_token@,
        r@[3].0@ == ascii_of("grant_type"@) && r@[3].1@ == ascii_of("refresh_token"@),
{
    proof {
        reveal_strlit("client_id");
        reveal_strlit("client_secret");
        reveal_strlit("refresh_token");
        reveal_strlit("grant_type");
    }
    let mut r: Vec<(Vec<u8>, Vec<u8>)> = Vec::new();
    r.push((crate::bytes::lit("client_id"), copy_bytes(client_id)));
    r.push((crate::bytes::lit("client_secret"), copy_bytes(client_secret)));
    r.push((crate::bytes::lit("refresh_token"), copy_bytes(refresh_token)));
    r.push((crate::bytes::lit("grant_type"), crate::bytes::lit("refresh_token")));
    r
}

/// The form fields of an authorization-code exchange, in order.
pub fn exchange_params(
    code: &Vec<u8>,
    client_id: &Vec<u8>,
    client_secret: &Vec<u8>,
    redirect_uri: &Vec<u8>,
) -> (r: Vec<(Vec<u8>, Vec<u8>)>)
    ensures
        r@.len() == 5,
        r@[0].0@ == ascii_of("code"@) && r@[0].1@ == code@,
        r@[1].0@ == ascii_of("client_id"@) && r@[1].1@ == client_id@,
        r@[2].0@ == ascii_of("client_secret"@) && r@[2].1@ == client_secret@,
        r@[3].0@ == ascii_of("redirect_uri"@) && r@[3].1@ == redirect_uri@,
        r@[4].0@ == ascii_of("grant_type"@) && r@[4].1@ == ascii_of("authorization_code"@),
{
    proof {
        reveal_strlit("code");
        reveal_strlit("client_id");
        reveal_strlit("client_secret");
        reveal_strlit("redirect_uri");
        reveal_strlit("grant_type");
        reveal_strlit("authorization_code");
    }
    let mut r: Vec<(Vec<u8>, Vec<u8>)> = Vec::new();
    r.push((crate::bytes::lit("code"), copy_bytes(code)));
    r.push((crate::bytes::lit("client_id"), copy_bytes(client_id)));
    r.push((crate::bytes::lit("client_secret"), copy_bytes(client_secret)));
    r.push((crate::bytes::lit("redirect_uri"), copy_bytes(redirect_uri)));
    r.push((crate::bytes::lit("grant_type"), crate::bytes::lit("authorization_code")));
    r
}

/// The expiry instant recorded for a fresh access token: `now` plus the
/// granted lifetime, with the provider's customary default when none is
/// granted.
pub fn expiry_epoch(now: i64, expires_in: Option<u64>) -> (r: i64)
    requires
        0 <= now <= 100_000_000_000,
        expires_in matches Some(e) ==> e <= 10_000_000,
    ensures
        r == now + (match expires_in {
            Some(e) => e as int,
            None => 3599,
        }),
{
    match expires_in {
        Some(e) => now + (e as i64),
        None => now + 3599,
    }
}

/// Records a refreshed access token and its new expiry on the stored token;
/// every other field is kept.
pub fn apply_refresh(token: &mut GoogleToken, access: Vec<u8>, new_expiry_epoch: i64)
    ensures
        final(token).token == Some(access),
        final(token).expiry matches Some(e) && e@ == utc_micros_rfc3339_of(
            new_expiry_epoch as int,
        ),
        final(token).refresh_token == old(token).refresh_token,
        final(token).token_uri == old(token).token_uri,
        final(token).client_id == old(token).client_id,
        final(token).client_secret == old(token).client_secret,
        final(token).scopes == old(token).scopes,
        final(token).universe_domain == old(token).universe_domain,
        final(token).account == old(token).account,
{
    token.token = Some(access);
    token.expiry = Some(crate::ext::format_utc_micros_rfc3339(new_expiry_epoch));
}

/// The token record persisted after a code exchange.
pub fn exchange_token_record(
    access: Vec<u8>,
    refresh: Option<Vec<u8>>,
    token_uri: Vec<u8>,
    client_id: Vec<u8>,
    client_secret: Vec<u8>,
    scope: Option<Vec<u8>>,
    new_expiry_epoch: i64,
) -> (t: GoogleToken)
    ensures
        t.token == Some(access),
        t.refresh_token == refresh,
        t.token_uri == Some(token_uri),
        t.client_id == Some(client_id),
        t.client_secret == Some(client_secret),
        t.expiry matches Some(e) && e@ == utc_micros_rfc3339_of(new_expiry_epoch as int),
        t.scopes == scope,
        t.universe_domain matches Some(u) && u@ == ascii_of("googleapis.com"@),
        t.account is None,
{
    proof {
        reveal_strlit("googleapis.com");
    }
    GoogleToken {
        token: Some(access),
        refresh_token: refresh,
        token_uri: Some(token_uri),
        client_id: Some(client_id),
        client_secret: Some(client_secret),
        expiry: Some(crate::ext::format_utc_micros_rfc3339(new_expiry_epoch)),
        scopes: scope,
        universe_domain: Some(crate::bytes::lit("googleapis.com")),
        account: None,
    }
}

/// The error text when the stored token cannot be refreshed.
pub fn no_refresh_token_error() -> (r: Vec<u8>)
    ensures
        r@ == ascii_of(
            "Token expired and no refresh_token available. Re-authenticate from the app."@,
        ),
{
    proof {
        reveal_strlit(
            "Token expired and no refresh_token available. Re-authenticate from the app.",
        );
    }
    crate::bytes::lit(
        "Token expired and no refresh_token available. Re-authenticate from the app.",
    )
}

/// A usable access token is one that is present, non-empty, and not lapsed.
pub open spec fn token_usable(t: GoogleToken, now: int) -> bool {
    match t.token {
        Some(v) => v@.len() > 0 && !token_lapsed(t, now),
        None => false,
    }
}

/// What the authentication flow should do next with the stored token: use
/// it as it stands, refresh it with the recorded refresh token, or give up
/// for want of one.
#[derive(Debug)]
pub enum AuthPlan {
    /// The stored access token is still valid: hand it out.
    UseStored(Vec<u8>),
    /// Refresh with this refresh token.
    Refresh(Vec<u8>),
    /// No refresh is possible; the carried message says so.
    CannotRefresh(Vec<u8>),
}

/// Decides the next authentication step from the stored token at time
/// `now`: a valid token is used, an expired one with a refresh token is
/// refreshed, anything else is refused.
pub fn auth_plan(token: &GoogleToken, now: i64) -> (r: AuthPlan)
    requires
        now <= i64::MAX - 60,
    ensures
        token_usable(*token, now as int) ==> r is UseStored && r->UseStored_0@
            == token.token->0@,
        !token_usable(*token, now as int) && (token.refresh_token matches Some(rt) && rt@.len()
            > 0) ==> r is Refresh && r->Refresh_0@ == token.refresh_token->0@,
        !token_usable(*token, now as int) && !(token.refresh_token matches Some(rt) && rt@.len()
            > 0) ==> r is CannotRefresh && r->CannotRefresh_0@ == ascii_of(
            "Token expired and no refresh_token available. Re-authenticate from the app."@,
        ),
{
    let usable = match &token.token {
        Some(v) => {
            if v.len() > 0 {
                !is_token_expired(token, now)
            } else {
                false
            }
        },
        None => false,
    };
    if usable {
        match &token.token {
            Some(v) => {
                return AuthPlan::UseStored(copy_bytes(v));
            },
            None => {
                assert(false);
                return AuthPlan::CannotRefresh(no_refresh_token_error());
            },
        }
    }
    match &token.refresh_token {
        Some(rt) => {
            if rt.len() > 0 {
                AuthPlan::Refresh(copy_bytes(rt))
            } else {
                AuthPlan::CannotRefresh(no_refresh_token_error())
            }
        },
        None => AuthPlan::CannotRefresh(no_refresh_token_error()),
    }
}

/// The error text reported when the browser callback refused the flow,
/// carrying the decoded error parameter.
pub fn oauth_error_text(e: &Vec<u8>) -> (r: Vec<u8>)
    ensures
        r@ == ascii_of("OAuth error: "@) + e@,
{
    proof {
        reveal_strlit("OAuth error: ");
    }
    let mut r = crate::bytes::lit("OAuth error: ");
    crate::bytes::push_bytes(&mut r, e);
    r
}

} // verus!
