//! The Cloudflare Tail API: the endpoint that creates a tail session, and
//! what its answer means.

use vstd::prelude::*;
use vstd::string::StringExecFns;
use crate::clock::Timestamp;
use crate::encoding::{url_encode, url_encoded};
use crate::text::{chars_of, join, join_strings, string_from_chars, views};

verus! {

/// A tail session: its id, when it expires, and the WebSocket URL that
/// streams its events.
#[derive(Debug)]
pub struct TailSession {
    pub id: String,
    pub expires_at: Timestamp,
    pub url: String,
}

/// One error that the API reports.
#[derive(Debug)]
pub struct CfError {
    pub message: String,
}

/// The `result` of a tail creation answer.
#[derive(Debug)]
pub struct TailResult {
    pub id: String,
    pub expires_at: Timestamp,
    pub url: String,
}

/// The body of a tail creation answer.
#[derive(Debug)]
pub struct CfEnvelope {
    pub success: bool,
    pub errors: Option<Vec<CfError>>,
    pub result: TailResult,
}

/// Why no tail session was created.
#[derive(Debug)]
pub enum ApiError {
    /// The body of the answer is not a tail creation envelope.
    UnreadableResponse { script: String, body: String, detail: String },
    /// The API answered with a status outside 2xx, or with `success` false.
    CreateFailed { script: String, status_text: String, message: String },
}

/// `s` without the `/` characters at its end.
pub open spec fn trim_trailing_slashes(s: Seq<char>) -> Seq<char>
    decreases s.len(),
{
    if s.len() > 0 && s.last() == '/' {
        trim_trailing_slashes(s.drop_last())
    } else {
        s
    }
}

/// The URL to which a tail creation request is posted.
pub open spec fn tails_endpoint_text(
    api_base: Seq<char>,
    account_id: Seq<char>,
    script: Seq<char>,
) -> Seq<char> {
    trim_trailing_slashes(api_base) + "/accounts/"@ + url_encoded(account_id)
        + "/workers/scripts/"@ + url_encoded(script) + "/tails"@
}

/// `s.trim_end_matches('/')`.
pub fn trim_end_slashes(s: &str) -> (r: String)
    ensures
        r@ == trim_trailing_slashes(s@),
{
    let v = chars_of(s);
    let mut end: usize = v.len();
    assert(v@.subrange(0, end as int) =~= v@);
    while end > 0 && v[end - 1] == '/'
        invariant
            end <= v@.len(),
            trim_trailing_slashes(v@.subrange(0, end as int)) == trim_trailing_slashes(s@),
            v@ == s@,
        decreases end,
    {
        assert(v@.subrange(0, end as int).drop_last() =~= v@.subrange(0, end - 1));
        end = end - 1;
    }
    string_from_chars(&v, 0, end)
}

/// The tail creation URL for `script` of account `account_id`: the API
/// base without trailing slashes, then
/// `/accounts/{account_id}/workers/scripts/{script}/tails` with both ids
/// percent-encoded.
pub fn tails_endpoint(api_base: &str, account_id: &str, script: &str) -> (r: String)
    ensures
        r@ == tails_endpoint_text(api_base@, account_id@, script@),
{
    let mut r = trim_end_slashes(api_base);
    r.append("/accounts/");
    let account = url_encode(account_id);
    r.append(account.as_str());
    r.append("/workers/scripts/");
    let name = url_encode(script);
    r.append(name.as_str());
    r.append("/tails");
    r
}

/// `k` slashes.
pub open spec fn slashes(k: nat) -> Seq<char>
    decreases k,
{
    if k == 0 {
        Seq::empty()
    } else {
        slashes((k - 1) as nat).push('/')
    }
}

proof fn lemma_trim_ignores_added_slashes(b: Seq<char>, k: nat)
    ensures
        trim_trailing_slashes(b + slashes(k)) == trim_trailing_slashes(b),
    decreases k,
{
    if k == 0 {
        assert(b + slashes(0) =~= b);
    } else {
        lemma_trim_ignores_added_slashes(b, (k - 1) as nat);
        assert((b + slashes(k)).drop_last() =~= b + slashes((k - 1) as nat));
    }
}

/// The tail creation URL does not depend on slashes at the end of the API
/// base; for a base that does not end in `/`, it is the base, then
/// `/accounts/`, the encoded account id, `/workers/scripts/`, the encoded
/// script name and `/tails`.
pub proof fn law_endpoint_ignores_trailing_slashes(
    base: Seq<char>,
    k: nat,
    account_id: Seq<char>,
    script: Seq<char>,
)
    ensures
        tails_endpoint_text(base + slashes(k), account_id, script) == tails_endpoint_text(
            base,
            account_id,
            script,
        ),
        base.len() == 0 || base.last() != '/' ==> tails_endpoint_text(base, account_id, script)
            == base + "/accounts/"@ + url_encoded(account_id) + "/workers/scripts/"@ + url_encoded(
            script,
        ) + "/tails"@,
{
    lemma_trim_ignores_added_slashes(base, k);
}

/// Whether an HTTP status is a success (2xx).
pub open spec fn is_success_status(status: u16) -> bool {
    200 <= status <= 299
}

/// The messages of the errors of an answer, none when it has none.
pub open spec fn error_messages(errors: Option<Vec<CfError>>) -> Seq<Seq<char>> {
    match errors {
        Some(v) => v@.map_values(|e: CfError| e.message@),
        None => Seq::empty(),
    }
}

/// The messages of `errors` joined with `"; "`.
fn joined_error_messages(errors: &Option<Vec<CfError>>) -> (r: String)
    ensures
        r@ == join(error_messages(*errors), "; "@),
{
    match errors {
        Some(v) => {
            let mut messages: Vec<String> = Vec::new();
            let mut i: usize = 0;
            while i < v.len()
                invariant
                    i <= v@.len(),
                    views(messages@) =~= v@.take(i as int).map_values(|e: CfError| e.message@),
                decreases v.len() - i,
            {
                let ghost before = messages@;
                let m = v[i].message.clone();
                messages.push(m);
                assert(messages@ == before.push(m));
                assert(v@.take(i + 1) =~= v@.take(i as int).push(v@[i as int]));
                assert(views(messages@) =~= views(before).push(v@[i as int].message@));
                i = i + 1;
            }
            assert(v@.take(v@.len() as int) =~= v@);
            join_strings(&messages, "; ")
        },
        None => {
            assert(error_messages(*errors) =~= Seq::<Seq<char>>::empty());
            String::new()
        },
    }
}

/// What a tail creation answer means: the tail session when the status is
/// 2xx and the envelope says `success`; the joined error messages when
/// not; and a refusal of the body when it did not parse as an envelope.
/// `parsed` is the outcome of parsing `body`; `status_text` is how the
/// status is shown.
pub fn tail_session_from_response(
    script: &str,
    status: u16,
    status_text: &str,
    body: &str,
    parsed: Result<CfEnvelope, String>,
) -> (r: Result<TailSession, ApiError>)
    ensures
        match parsed {
            Err(detail) => r matches Err(ApiError::UnreadableResponse { script: s, body: b, detail: d })
                && s@ == script@ && b@ == body@ && d@ == detail@,
            Ok(env) => if is_success_status(status) && env.success {
                r matches Ok(session) && session.id == env.result.id && session.expires_at
                    == env.result.expires_at && session.url == env.result.url
            } else {
                r matches Err(ApiError::CreateFailed { script: s, status_text: t, message: m })
                    && s@ == script@ && t@ == status_text@ && m@ == join(
                    error_messages(env.errors),
                    "; "@,
                )
            },
        },
{
    match parsed {
        Err(detail) => Err(
            ApiError::UnreadableResponse {
                script: String::from_str(script),
                body: String::from_str(body),
                detail,
            },
        ),
        Ok(env) => {
            if 200 <= status && status <= 299 && env.success {
                Ok(
                    TailSession {
                        id: env.result.id,
                        expires_at: env.result.expires_at,
                        url: env.result.url,
                    },
                )
            } else {
                let message = joined_error_messages(&env.errors);
                Err(
                    ApiError::CreateFailed {
                        script: String::from_str(script),
                        status_text: String::from_str(status_text),
                        message,
                    },
                )
            }
        },
    }
}

/// The text of each refusal.
pub open spec fn api_error_text(e: ApiError) -> Seq<char> {
    match e {
        ApiError::UnreadableResponse { script, body, detail } => "parsing Cloudflare tail response for "@
            + script@ + ": "@ + body@,
        ApiError::CreateFailed { script, status_text, message } => "Cloudflare tail create failed for "@
            + script@ + ": HTTP "@ + status_text@ + if message@.len() == 0 {
            Seq::empty()
        } else {
            ": "@ + message@
        },
    }
}

impl ApiError {
    /// The message shown for this refusal.
    pub fn message(&self) -> (r: String)
        ensures
            r@ == api_error_text(*self),
    {
        match self {
            ApiError::UnreadableResponse { script, body, .. } => {
                let mut r = String::from_str("parsing Cloudflare tail response for ");
                r.append(script.as_str());
                r.append(": ");
                r.append(body.as_str());
                r
            },
            ApiError::CreateFailed { script, status_text, message } => {
                let mut r = String::from_str("Cloudflare tail create failed for ");
                r.append(script.as_str());
                r.append(": HTTP ");
                r.append(status_text.as_str());
                if message.as_str().is_empty() {
                    assert(r@ + Seq::<char>::empty() =~= r@);
                } else {
                    r.append(": ");
                    r.append(message.as_str());
                }
                r
            },
        }
    }
}

} // verus!
