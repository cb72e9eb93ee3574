//! Construction of GitLab REST requests and classification of their
//! responses: the URL and body of the two calls the tool makes (project
//! lookup by path, merge-request creation by project id) and the rule
//! that any non-2xx status or undecodable body fails the repository.
//! The caller performs the HTTP exchange and hands back the status code
//! and the decoded body fields.
use vstd::prelude::*;

verus! {

/// A GitLab project as the API reports it.
pub struct Project {
    pub id: u64,
    pub name: String,
}

/// A created merge request as the API reports it.
pub struct MergeRequest {
    pub web_url: String,
}

/// The body of a merge-request creation call.
pub struct MergeRequestRequest {
    pub source_branch: String,
    pub target_branch: String,
    pub title: String,
    pub description: Option<String>,
}

/// Why an API call failed.
#[derive(Debug)]
pub enum ApiError {
    /// The response status was not 2xx (project lookup keeps the status).
    HttpStatus { status: u16 },
    /// The response status was not 2xx (merge-request creation keeps the
    /// raw response body for diagnosis).
    Rejected { body: String },
    /// A 2xx response body did not decode to the expected shape.
    Decode,
}

/// Whether an HTTP status code counts as success.
pub open spec fn spec_is_success(status: u16) -> bool {
    200 <= status < 300
}

/// The decimal digit `d` as a character.
pub open spec fn dec_digit(d: int) -> char {
    if d == 0 {
        '0'
    } else if d == 1 {
        '1'
    } else if d == 2 {
        '2'
    } else if d == 3 {
        '3'
    } else if d == 4 {
        '4'
    } else if d == 5 {
        '5'
    } else if d == 6 {
        '6'
    } else if d == 7 {
        '7'
    } else if d == 8 {
        '8'
    } else {
        '9'
    }
}

/// The decimal representation of `n`, most significant digit first.
pub open spec fn dec_rep(n: nat) -> Seq<char>
    decreases n,
{
    if n < 10 {
        seq![dec_digit(n as int)]
    } else {
        dec_rep(n / 10).push(dec_digit((n % 10) as int))
    }
}

fn digit_str(d: u64) -> (r: &'static str)
    requires
        d < 10,
    ensures
        r@ == seq![dec_digit(d as int)],
{
    let s: &'static str = match d {
        0 => "0",
        1 => "1",
        2 => "2",
        3 => "3",
        4 => "4",
        5 => "5",
        6 => "6",
        7 => "7",
        8 => "8",
        _ => "9",
    };
    proof {
        reveal_strlit("0");
        reveal_strlit("1");
        reveal_strlit("2");
        reveal_strlit("3");
        reveal_strlit("4");
        reveal_strlit("5");
        reveal_strlit("6");
        reveal_strlit("7");
        reveal_strlit("8");
        reveal_strlit("9");
        assert(s@ =~= seq![dec_digit(d as int)]);
    }
    s
}

/// Writes `n` in decimal.
pub fn u64_to_string(n: u64) -> (r: String)
    ensures
        r@ == dec_rep(n as nat),
    decreases n,
{
    if n < 10 {
        digit_str(n).to_owned()
    } else {
        proof {
            assert(n / 10 < n) by (nonlinear_arith)
                requires
                    n >= 10,
            ;
        }
        let rest = u64_to_string(n / 10);
        let last = digit_str(n % 10);
        let r = rest.concat(last);
        proof {
            assert(r@ =~= dec_rep(n as nat));
        }
        r
    }
}

/// Whether `c` is one of the ASCII characters that percent-encoding
/// leaves as it is: a letter, a digit, or `-`, `.`, `_`, `~`.
pub open spec fn is_unreserved(c: char) -> bool {
    (48 <= c as int <= 57)  // '0' ..= '9'
     || (65 <= c as int <= 90)  // 'A' ..= 'Z'
     || (97 <= c as int <= 122)  // 'a' ..= 'z'
     || c == '-' || c == '.' || c == '_' || c == '~'
}

/// The hexadecimal digit `d` as an uppercase character.
pub open spec fn upper_hex_digit(d: int) -> char {
    if d < 10 {
        dec_digit(d)
    } else if d == 10 {
        'A'
    } else if d == 11 {
        'B'
    } else if d == 12 {
        'C'
    } else if d == 13 {
        'D'
    } else if d == 14 {
        'E'
    } else {
        'F'
    }
}

/// How one ASCII character percent-encodes.
pub open spec fn encoded_char(c: char) -> Seq<char> {
    if is_unreserved(c) {
        seq![c]
    } else {
        seq!['%', upper_hex_digit(c as int / 16), upper_hex_digit(c as int % 16)]
    }
}

/// The percent-encoding of an ASCII character sequence.
pub open spec fn ascii_percent_encoded(s: Seq<char>) -> Seq<char>
    decreases s.len(),
{
    if s.len() == 0 {
        Seq::empty()
    } else {
        encoded_char(s[0]) + ascii_percent_encoded(s.drop_first())
    }
}

/// The percent-encoding of an arbitrary character sequence (the encoder
/// works byte-wise on the sequence's UTF-8 form, so for non-ASCII text
/// only determinism is stated, plus the exact ASCII case below).
pub uninterp spec fn percent_encoding_of(s: Seq<char>) -> Seq<char>;

/// Relies on urlencoding::encode: percent-encodes every byte of the
/// UTF-8 form except ASCII alphanumerics and `-`, `.`, `_`, `~`, writing
/// `%` and two uppercase hexadecimal digits; the result depends on the
/// input characters alone.
#[verifier::external_body]
fn percent_encode(s: &str) -> (r: String)
    ensures
        r@ == percent_encoding_of(s@),
        s.is_ascii() ==> r@ == ascii_percent_encoded(s@),
{
    urlencoding::encode(s).into_owned()
}

/// Percent-encodes a project path for use in a request URL; for ASCII
/// input the encoding is pinned exactly, character by character.
pub fn encode_project_path(path: &str) -> (r: String)
    ensures
        r@ == percent_encoding_of(path@),
        path.is_ascii() ==> r@ == ascii_percent_encoded(path@),
{
    percent_encode(path)
}

/// The URL of the project-lookup call for the project at `path`.
pub fn project_request_url(base: &str, path: &str) -> (r: String)
    ensures
        r@ == base@ + "/projects/"@ + percent_encoding_of(path@),
{
    let encoded = encode_project_path(path);
    let mut url = base.to_owned();
    url.append("/projects/");
    url.append(encoded.as_str());
    url
}

/// The URL of the merge-request creation call for project `project_id`.
pub fn merge_request_url(base: &str, project_id: u64) -> (r: String)
    ensures
        r@ == base@ + "/projects/"@ + dec_rep(project_id as nat) + "/merge_requests"@,
{
    let id = u64_to_string(project_id);
    let mut url = base.to_owned();
    url.append("/projects/");
    url.append(id.as_str());
    url.append("/merge_requests");
    url
}

/// The title of a merge request from `source` to `target`.
pub open spec fn spec_mr_title(source: Seq<char>, target: Seq<char>) -> Seq<char> {
    source + " to "@ + target
}

/// The auto-generated description of a merge request from `source` to
/// `target`.
pub open spec fn spec_mr_description(source: Seq<char>, target: Seq<char>) -> Seq<char> {
    "Auto-created merge request from "@ + source + " to "@ + target
}

/// Whether `req` is the merge-request body for `source` and `target`.
pub open spec fn is_mr_request_for(
    req: MergeRequestRequest,
    source: Seq<char>,
    target: Seq<char>,
) -> bool {
    &&& req.source_branch@ == source
    &&& req.target_branch@ == target
    &&& req.title@ == spec_mr_title(source, target)
    &&& (match req.description {
        Some(d) => d@ == spec_mr_description(source, target),
        None => false,
    })
}

/// Builds the body of a merge-request creation call.
pub fn build_merge_request(source: &str, target: &str) -> (r: MergeRequestRequest)
    ensures
        is_mr_request_for(r, source@, target@),
{
    let mut title = source.to_owned();
    title.append(" to ");
    title.append(target);
    let mut description = "Auto-created merge request from ".to_owned();
    description.append(source);
    description.append(" to ");
    description.append(target);
    MergeRequestRequest {
        source_branch: source.to_owned(),
        target_branch: target.to_owned(),
        title,
        description: Some(description),
    }
}

fn is_success_status(status: u16) -> (r: bool)
    ensures
        r == spec_is_success(status),
{
    200 <= status && status < 300
}

/// Classifies a project-lookup response: the project on a decoded 2xx
/// body, the status on any other status, a decode error on a 2xx body
/// of the wrong shape.
pub fn classify_project_response(status: u16, body: Option<Project>) -> (r: Result<
    Project,
    ApiError,
>)
    ensures
        !spec_is_success(status) ==> (r matches Err(e) && e == (ApiError::HttpStatus { status })),
        spec_is_success(status) && body is None ==> (r matches Err(e) && e == ApiError::Decode),
        spec_is_success(status) ==> (match body {
            Some(p) => r == Ok::<Project, ApiError>(p),
            None => true,
        }),
{
    if !is_success_status(status) {
        Err(ApiError::HttpStatus { status })
    } else {
        match body {
            Some(p) => Ok(p),
            None => Err(ApiError::Decode),
        }
    }
}

/// Classifies a merge-request creation response: the merge request on a
/// decoded 2xx body, the raw response body on any other status, a
/// decode error on a 2xx body of the wrong shape.
pub fn classify_mr_response(status: u16, web_url: Option<String>, raw_body: String) -> (r: Result<
    MergeRequest,
    ApiError,
>)
    ensures
        !spec_is_success(status) ==> (r matches Err(e) && e == (ApiError::Rejected {
            body: raw_body,
        })),
        spec_is_success(status) && web_url is None ==> (r matches Err(e) && e == ApiError::Decode),
        spec_is_success(status) ==> (match web_url {
            Some(u) => (r matches Ok(m) && m.web_url == u),
            None => true,
        }),
{
    if !is_success_status(status) {
        Err(ApiError::Rejected { body: raw_body })
    } else {
        match web_url {
            Some(u) => Ok(MergeRequest { web_url: u }),
            None => Err(ApiError::Decode),
        }
    }
}

/// The report line for a successfully created merge request.
pub fn format_success_line(name: &str, web_url: &str) -> (r: String)
    ensures
        r@ == name@ + ": "@ + web_url@,
{
    let mut line = name.to_owned();
    line.append(": ");
    line.append(web_url);
    line
}

} // verus!
