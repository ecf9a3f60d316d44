use vstd::prelude::*;
use vstd::string::StringSliceAdditionalSpecFns;

verus! {

/// The header that the proxy adds to every response, and its value.
pub const CORS_HEADER: &'static str = "access-control-allow-origin";

/// The only site allowed to read the proxy's responses from a browser.
pub const CORS_ORIGIN: &'static str = "https://paste.valk.sh";

/// The content type given to a file for which Discord names none.
pub const DEFAULT_CONTENT_TYPE: &'static str = "text/plain; charset=utf-8";

/// Why the proxy could not serve a file.
#[derive(Debug)]
pub enum Error {
    /// The request to Discord's CDN failed; holds that error's message.
    Reqwest(String),
    /// Discord's CDN does not have the file, or refuses to serve it.
    NotFound,
}

/// An error answer of the proxy: its HTTP status and its text body.
#[derive(Debug)]
pub struct ErrorResponse {
    pub status: u16,
    pub body: String,
}

/// The CDN address of an attachment.
pub open spec fn spec_attachment_url(
    channel_id: Seq<char>,
    attachment_id: Seq<char>,
    filename: Seq<char>,
) -> Seq<char> {
    "https://cdn.discordapp.com/attachments/"@ + channel_id + "/"@ + attachment_id + "/"@ + filename
}

/// The CDN address of an attachment, from the three segments of the
/// proxy's request path.
pub fn attachment_url(channel_id: &str, attachment_id: &str, filename: &str) -> (url: String)
    ensures
        url@ == spec_attachment_url(channel_id@, attachment_id@, filename@),
{
    let mut url = String::from_str("https://cdn.discordapp.com/attachments/");
    url.append(channel_id);
    url.append("/");
    url.append(attachment_id);
    url.append("/");
    url.append(filename);
    url
}

/// The CDN address carries the three request segments verbatim: it is the
/// CDN's attachment prefix, then the channel id, `/`, the attachment id,
/// `/`, and the file name exactly as requested, which ends the address.
pub proof fn lemma_attachment_url_keeps_segments(
    channel_id: Seq<char>,
    attachment_id: Seq<char>,
    filename: Seq<char>,
)
    ensures
        ({
            let u = spec_attachment_url(channel_id, attachment_id, filename);
            let p = "https://cdn.discordapp.com/attachments/"@;
            let c = p.len() as int;
            let a = c + channel_id.len() + 1;
            let f = a + attachment_id.len() + 1;
            &&& u.len() == f + filename.len()
            &&& u.subrange(0, c) == p
            &&& u.subrange(c, c + channel_id.len()) == channel_id
            &&& u[c + channel_id.len()] == '/'
            &&& u.subrange(a, a + attachment_id.len()) == attachment_id
            &&& u[a + attachment_id.len()] == '/'
            &&& u.subrange(f, u.len() as int) == filename
        }),
{
    reveal_strlit("/");
    let u = spec_attachment_url(channel_id, attachment_id, filename);
    let p = "https://cdn.discordapp.com/attachments/"@;
    let c = p.len() as int;
    let a = c + channel_id.len() + 1;
    let f = a + attachment_id.len() + 1;
    assert(u.subrange(0, c) =~= p);
    assert(u.subrange(c, c + channel_id.len()) =~= channel_id);
    assert(u.subrange(a, a + attachment_id.len()) =~= attachment_id);
    assert(u.subrange(f, u.len() as int) =~= filename);
}

/// Whether the CDN's status means that the file is not to be served
/// (404 Not Found or 403 Forbidden).
pub open spec fn spec_is_missing(status: u16) -> bool {
    status == 404 || status == 403
}

/// Decides how to answer from the CDN's status and content type: a file
/// that is missing or forbidden is not found; otherwise the file is served
/// with the CDN's content type, or with [`DEFAULT_CONTENT_TYPE`] when the
/// CDN names none.
pub fn file_content_type(status: u16, upstream: Option<Vec<u8>>) -> (r: Result<Vec<u8>, Error>)
    ensures
        spec_is_missing(status) ==> (r matches Err(Error::NotFound)),
        !spec_is_missing(status) ==> (r matches Ok(ct) && ct@ == match upstream {
            Some(v) => v@,
            None => DEFAULT_CONTENT_TYPE.spec_bytes(),
        }),
{
    if status == 404 || status == 403 {
        return Err(Error::NotFound);
    }
    match upstream {
        Some(v) => Ok(v),
        None => Ok(vstd::slice::slice_to_vec(DEFAULT_CONTENT_TYPE.as_bytes())),
    }
}

impl Error {
    /// The human-readable description of the error.
    pub open spec fn spec_message(&self) -> Seq<char> {
        match self {
            Error::Reqwest(e) => "HTTP error: "@ + e@,
            Error::NotFound => "404 file not found"@,
        }
    }

    /// The human-readable description of the error.
    pub fn message(&self) -> (r: String)
        ensures
            r@ == self.spec_message(),
    {
        match self {
            Error::Reqwest(e) => {
                let mut r = String::from_str("HTTP error: ");
                r.append(e.as_str());
                r
            },
            Error::NotFound => String::from_str("404 file not found"),
        }
    }

    /// The answer the proxy gives for this error: 404 with a short text for
    /// a missing file, 500 with the failure's message otherwise.
    pub fn into_response(self) -> (r: ErrorResponse)
        ensures
            match self {
                Error::NotFound => r.status == 404 && r.body@ == "404 not found"@,
                Error::Reqwest(e) => r.status == 500 && r.body@ == "HTTP error: "@ + e@,
            },
    {
        match self {
            Error::NotFound => ErrorResponse { status: 404, body: String::from_str("404 not found") },
            Error::Reqwest(e) => {
                let mut body = String::from_str("HTTP error: ");
                body.append(e.as_str());
                ErrorResponse { status: 500, body }
            },
        }
    }
}

} // verus!
