use vstd::prelude::*;
use crate::error::PipelineError;
use crate::text::append_str;

verus! {

/// The catalog's endpoint that answers with one randomly chosen image.
pub const RANDOM_IMAGE_URL: &'static str = "https://api.unsplash.com/photos/random";

/// The orientation that every request asks for.
pub const ORIENTATION: &'static str = "landscape";

/// The scheme word that precedes the access key in the authorization header.
pub const AUTH_SCHEME: &'static str = "Client-ID ";

/// Metadata of one catalog image.
pub struct ImageBody {
    pub id: String,
    pub slug: String,
    pub urls: Urls,
    pub user: User,
}

/// Where an image can be downloaded.
pub struct Urls {
    pub full: String,
}

/// Who made an image.
pub struct User {
    pub name: String,
}

/// The fields of the catalog's answer, each `None` where the answer lacks it.
pub struct ImageFields {
    pub id: Option<String>,
    pub slug: Option<String>,
    pub urls_full: Option<String>,
    pub user_name: Option<String>,
}

/// What came back from asking the catalog.
pub enum CatalogReply {
    /// No answer: the host could not be reached, or the transfer broke off.
    Unreachable,
    /// An answer with this status; its body decoded to `fields`, or could not be
    /// decoded at all (`None`).
    Answered { status: u16, fields: Option<ImageFields> },
}

/// The access key for the catalog, never empty.
pub struct Credentials {
    access_key: String,
}

impl View for Credentials {
    type V = Seq<char>;

    /// The access key.
    closed spec fn view(&self) -> Seq<char> {
        self.access_key@
    }
}

impl Credentials {
    pub closed spec fn wf(&self) -> bool {
        self.access_key@.len() > 0
    }

    /// Takes the configured access key; a missing or empty one is `AuthMissing`.
    pub fn from_config(value: Option<String>) -> (r: Result<Credentials, PipelineError>)
        ensures
            r is Ok <==> (value is Some && value->Some_0@.len() > 0),
            r is Ok ==> r->Ok_0@ == value->Some_0@ && r->Ok_0.wf(),
            r is Err ==> r->Err_0 == PipelineError::AuthMissing,
    {
        match value {
            Some(key) => {
                if key.unicode_len() > 0 {
                    Ok(Credentials { access_key: key })
                } else {
                    Err(PipelineError::AuthMissing)
                }
            },
            None => Err(PipelineError::AuthMissing),
        }
    }

    pub fn access_key(&self) -> (r: &str)
        ensures
            r@ == self@,
    {
        self.access_key.as_str()
    }

    /// The authorization header's value: the scheme word, then the key.
    pub fn authorization(&self) -> (r: String)
        ensures
            r@ == AUTH_SCHEME@ + self@,
    {
        let mut r = String::new();
        append_str(&mut r, AUTH_SCHEME);
        append_str(&mut r, self.access_key.as_str());
        r
    }
}

/// A request to send: an address, its query pairs and the authorization header's value.
pub struct CatalogRequest {
    pub url: String,
    pub query: Vec<(String, String)>,
    pub authorization: String,
}

fn owned(s: &str) -> (r: String)
    ensures
        r@ == s@,
{
    let mut r = String::new();
    append_str(&mut r, s);
    r
}

/// The request for a random landscape image, authorized with `credentials`.
pub fn random_image_request(credentials: &Credentials) -> (r: CatalogRequest)
    ensures
        r.url@ == RANDOM_IMAGE_URL@,
        r.query@.len() == 1,
        r.query@[0].0@ == "orientation"@,
        r.query@[0].1@ == ORIENTATION@,
        r.authorization@ == AUTH_SCHEME@ + credentials@,
{
    let mut query: Vec<(String, String)> = Vec::new();
    query.push((owned("orientation"), owned(ORIENTATION)));
    CatalogRequest { url: owned(RANDOM_IMAGE_URL), query, authorization: credentials.authorization() }
}

/// The reply carries an image: a success status and a body with a slug and a
/// download address.
pub open spec fn reply_has_image(reply: CatalogReply) -> bool {
    match reply {
        CatalogReply::Answered { status, fields } => 200 <= status < 300 && fields is Some
            && fields->Some_0.slug is Some && fields->Some_0.urls_full is Some,
        CatalogReply::Unreachable => false,
    }
}

/// The reply is an answer with a success status.
pub open spec fn reply_answered(reply: CatalogReply) -> bool {
    match reply {
        CatalogReply::Answered { status, .. } => 200 <= status < 300,
        CatalogReply::Unreachable => false,
    }
}

/// The text of an optional field, empty where it is absent.
pub open spec fn text_or_empty(f: Option<String>) -> Seq<char> {
    match f {
        Some(s) => s@,
        None => Seq::empty(),
    }
}

fn take_or_empty(f: Option<String>) -> (r: String)
    ensures
        r@ == text_or_empty(f),
{
    match f {
        Some(s) => s,
        None => String::new(),
    }
}

impl ImageBody {
    /// The image that the catalog's reply describes. The slug and the download
    /// address are required; the id and the author's name are informational and
    /// read as empty where absent.
    pub fn from_reply(reply: CatalogReply) -> (r: Result<ImageBody, PipelineError>)
        ensures
            r is Ok <==> reply_has_image(reply),
            r is Err ==> r->Err_0 == if reply_answered(reply) {
                PipelineError::MalformedResponse
            } else {
                PipelineError::CatalogUnavailable
            },
            r is Ok ==> ({
                let f = reply->fields->Some_0;
                &&& r->Ok_0.slug@ == f.slug->Some_0@
                &&& r->Ok_0.urls.full@ == f.urls_full->Some_0@
                &&& r->Ok_0.id@ == text_or_empty(f.id)
                &&& r->Ok_0.user.name@ == text_or_empty(f.user_name)
            }),
    {
        match reply {
            CatalogReply::Unreachable => Err(PipelineError::CatalogUnavailable),
            CatalogReply::Answered { status, fields } => {
                if status < 200 || status >= 300 {
                    return Err(PipelineError::CatalogUnavailable);
                }
                match fields {
                    None => Err(PipelineError::MalformedResponse),
                    Some(f) => match (f.slug, f.urls_full) {
                        (Some(slug), Some(full)) => Ok(
                            ImageBody {
                                id: take_or_empty(f.id),
                                slug,
                                urls: Urls { full },
                                user: User { name: take_or_empty(f.user_name) },
                            },
                        ),
                        _ => Err(PipelineError::MalformedResponse),
                    },
                }
            },
        }
    }
}

} // verus!
