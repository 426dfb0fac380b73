//! The decisions of the link handlers: accepting a submission, naming and
//! storing a short link, redirecting a visitor, and serving its QR picture
//! and logo uploads.

use vstd::prelude::*;
use vstd::string::*;
use crate::ids::{choose_shortlink_id, is_chosen_id, is_random_id, random_id, VISIT_ID_LEN};
use crate::qrcode::{
    make_qrcode, opt_bytes, prepare_logo, prepared_logo, qrcode_png, result_bytes, LogoError,
    QrCodeError,
};
use crate::reply::{
    Form, TextReply, STATUS_BAD_REQUEST, STATUS_INTERNAL_SERVER_ERROR, STATUS_OK,
    STATUS_UNPROCESSABLE_ENTITY, form_rejection_text,
};

verus! {

/// A stored link, as the redirect looks it up.
#[derive(Debug)]
pub struct Link {
    pub uri: String,
}

/// A stored short-link identifier, as the QR handler looks it up.
#[derive(Debug)]
pub struct ShortlinkId {
    pub shortlink_id: String,
}

/// The bytes of the default logo, if one is stored.
#[derive(Debug)]
pub struct ByteData {
    pub bytedata: Option<Vec<u8>>,
}

/// Where a recorded visit came from.
#[derive(Clone, Copy, Debug, PartialEq, Eq, Structural)]
pub enum Source {
    Qrcode,
    Link,
}

/// A submitted link: its URL, in the normal form of the `url` crate, and the
/// short-link identifier the user asked for, if any.
#[derive(Debug)]
pub struct LinkSubmission {
    pub uri: String,
    pub shortlink: Option<String>,
}

/// The row that shortening a link stores.
#[derive(Debug)]
pub struct NewLink {
    pub uri: String,
    pub shortlink_id: String,
}

/// What the success page of a shortened link shows.
#[derive(Debug)]
pub struct ShortenSuccess {
    pub shortlink_id: String,
    pub domain: String,
}

/// A visit to record.
#[derive(Debug)]
pub struct Visit {
    pub id: String,
    pub shortlink_id: String,
    pub source: Source,
}

/// Where to send a visitor, and the visit to record first.
#[derive(Debug)]
pub struct RedirectPlan {
    pub location: String,
    pub visit: Visit,
}

/// A QR picture as a downloadable reply.
#[derive(Debug)]
pub struct QrImageReply {
    pub status: u16,
    pub content_type: String,
    pub content_disposition: String,
    pub body: Vec<u8>,
}

/// The row that stores an uploaded logo as the new default.
#[derive(Debug)]
pub struct LogoRow {
    pub alias: String,
    pub bytedata: Vec<u8>,
    pub is_default: Option<bool>,
}

/// The normal form that `url::Url::parse` followed by the conversion to a
/// `String` gives a text, or `None` where the text is no URL.
pub uninterp spec fn url_serialization(text: Seq<char>) -> Option<Seq<char>>;

/// `url::Url::parse`, then `Into<String>`: the serialized URL, or `None` on a
/// parse error. The result is a function of the text, named `url_serialization`.
#[verifier::external_body]
fn parse_url(text: &str) -> (url: Option<String>)
    ensures
        match url {
            Some(u) => url_serialization(text@) == Some(u@),
            None => url_serialization(text@) is None,
        },
{
    match url::Url::parse(text) {
        Ok(u) => Some(u.into()),
        Err(_) => None,
    }
}

/// The address of a short link: the domain, a slash, and the identifier.
pub open spec fn short_url(domain: Seq<char>, id: Seq<char>) -> Seq<char> {
    domain + "/"@ + id
}

/// The address of a short link is the domain, a slash, and the whole
/// identifier: it starts with the domain, has a slash right after it, ends with
/// the identifier, and is exactly one character longer than the two together.
pub proof fn law_short_url_keeps_whole_id(domain: Seq<char>, id: Seq<char>)
    ensures
        short_url(domain, id).len() == domain.len() + 1 + id.len(),
        short_url(domain, id).subrange(0, domain.len() as int) == domain,
        short_url(domain, id)[domain.len() as int] == '/',
        short_url(domain, id).subrange(domain.len() + 1int, short_url(domain, id).len() as int) == id,
{
    reveal_strlit("/");
    assert(short_url(domain, id).subrange(0, domain.len() as int) =~= domain);
    assert(short_url(domain, id).subrange(domain.len() + 1int, short_url(domain, id).len() as int)
        =~= id);
}

/// Accepts the fields of a submitted form: a refusal of the extractor keeps its
/// status; a URL that does not parse is refused as an undeserializable form;
/// otherwise the submission holds the URL in normal form.
pub fn accept_submission(fields: Result<(String, Option<String>), u16>) -> (res: Result<
    Form<LinkSubmission>,
    TextReply,
>)
    ensures
        match fields {
            Err(status) => res matches Err(r) && r.status == status && r.message@
                == form_rejection_text(),
            Ok((uri, shortlink)) => match url_serialization(uri@) {
                None => res matches Err(r) && r.status == STATUS_UNPROCESSABLE_ENTITY
                    && r.message@ == form_rejection_text(),
                Some(u) => res matches Ok(f) && f.0.uri@ == u && f.0.shortlink == shortlink,
            },
        },
{
    match fields {
        Err(status) => Form::from_request(Err(status)),
        Ok((uri, shortlink)) => match parse_url(uri.as_str()) {
            None => Form::from_request(Err(STATUS_UNPROCESSABLE_ENTITY)),
            Some(u) => Form::from_request(Ok(LinkSubmission { uri: u, shortlink })),
        },
    }
}

/// The row that shortening a submission stores: its URL under the identifier
/// the user asked for when it is not empty, else under a random one of
/// `SHORTLINK_ID_LEN` URL-safe characters.
pub fn plan_shorten(submission: LinkSubmission) -> (row: NewLink)
    ensures
        row.uri == submission.uri,
        is_chosen_id(
            match submission.shortlink {
                Some(r) => Some(r@),
                None => None,
            },
            row.shortlink_id@,
        ),
        row.shortlink_id@.len() > 0,
{
    NewLink { uri: submission.uri, shortlink_id: choose_shortlink_id(submission.shortlink) }
}

/// The reply to a shortening once the row was stored: the success page, or a
/// server error that carries the database's message.
pub fn shorten_reply(stored: Result<(), String>, shortlink_id: String, domain: String) -> (res:
    Result<ShortenSuccess, TextReply>)
    ensures
        match stored {
            Ok(()) => res matches Ok(page) && page.shortlink_id == shortlink_id && page.domain
                == domain,
            Err(m) => res matches Err(r) && r.status == STATUS_INTERNAL_SERVER_ERROR && r.message
                == m,
        },
{
    match stored {
        Ok(()) => Ok(ShortenSuccess { shortlink_id, domain }),
        Err(m) => Err(TextReply { status: STATUS_INTERNAL_SERVER_ERROR, message: m }),
    }
}

/// What a visit to a short link leads to: when the link was found, a redirect
/// to its URL after recording a visit from a link, under a fresh random
/// identifier of `VISIT_ID_LEN` characters; otherwise a server error that
/// carries the lookup's message.
pub fn plan_redirect(shortlink_id: String, lookup: Result<Link, String>) -> (res: Result<
    RedirectPlan,
    TextReply,
>)
    ensures
        match lookup {
            Ok(link) => res matches Ok(plan) && plan.location == link.uri && plan.visit.shortlink_id
                == shortlink_id && plan.visit.source == Source::Link && is_random_id(
                plan.visit.id@,
                VISIT_ID_LEN as nat,
            ),
            Err(m) => res matches Err(r) && r.status == STATUS_INTERNAL_SERVER_ERROR && r.message
                == m,
        },
{
    match lookup {
        Ok(link) => {
            let id = random_id(VISIT_ID_LEN);
            Ok(
                RedirectPlan {
                    location: link.uri,
                    visit: Visit { id, shortlink_id, source: Source::Link },
                },
            )
        },
        Err(m) => Err(TextReply { status: STATUS_INTERNAL_SERVER_ERROR, message: m }),
    }
}

/// The address that the QR picture of a short link encodes: the short link's
/// address when its identifier was found, otherwise a bad-request reply that
/// carries the lookup's message.
pub fn qrcode_target(lookup: Result<ShortlinkId, String>, domain: &str) -> (res: Result<
    String,
    TextReply,
>)
    ensures
        match lookup {
            Ok(found) => res matches Ok(url) && url@ == short_url(domain@, found.shortlink_id@)
                && url@.len() == domain@.len() + 1 + found.shortlink_id@.len() && url@.subrange(
                domain@.len() + 1int,
                url@.len() as int,
            ) == found.shortlink_id@,
            Err(m) => res matches Err(r) && r.status == STATUS_BAD_REQUEST && r.message == m,
        },
{
    match lookup {
        Ok(found) => {
            let mut url = String::from_str(domain);
            url.append("/");
            url.append(found.shortlink_id.as_str());
            proof {
                law_short_url_keeps_whole_id(domain@, found.shortlink_id@);
            }
            Ok(url)
        },
        Err(m) => Err(TextReply { status: STATUS_BAD_REQUEST, message: m }),
    }
}

/// The logo to lay over a QR picture, from the lookup of the default one:
/// its bytes when a row with bytes was found, else none.
pub open spec fn chosen_logo(lookup: Result<ByteData, String>) -> Option<Vec<u8>> {
    match lookup {
        Ok(row) => row.bytedata,
        Err(_) => None,
    }
}

/// Picks the logo as `chosen_logo` says.
pub fn choose_logo(lookup: Result<ByteData, String>) -> (logo: Option<Vec<u8>>)
    ensures
        logo == chosen_logo(lookup),
{
    match lookup {
        Ok(row) => row.bytedata,
        Err(_) => None,
    }
}

/// The text of the content type of a QR picture.
pub open spec fn png_content_type() -> Seq<char> {
    "image/png"@
}

/// The text of the content disposition of a QR picture.
pub open spec fn png_content_disposition() -> Seq<char> {
    "attachment; filename=\"image.png\""@
}

/// The QR picture of `url`, with the default logo when its lookup found one,
/// as a PNG download: the picture is the one `qrcode_png` describes.
pub fn qrcode_reply(url: &str, logo_lookup: Result<ByteData, String>) -> (res: Result<
    QrImageReply,
    QrCodeError,
>)
    ensures
        match res {
            Ok(reply) => qrcode_png(url.spec_bytes(), opt_bytes(chosen_logo(logo_lookup))) == Ok::<
                Seq<u8>,
                QrCodeError,
            >(reply.body@) && reply.status == STATUS_OK && reply.content_type@
                == png_content_type() && reply.content_disposition@ == png_content_disposition(),
            Err(e) => qrcode_png(url.spec_bytes(), opt_bytes(chosen_logo(logo_lookup))) == Err::<
                Seq<u8>,
                QrCodeError,
            >(e),
        },
{
    let logo = choose_logo(logo_lookup);
    match make_qrcode(url, logo) {
        Ok(png) => Ok(
            QrImageReply {
                status: STATUS_OK,
                content_type: String::from_str("image/png"),
                content_disposition: String::from_str("attachment; filename=\"image.png\""),
                body: png,
            },
        ),
        Err(e) => Err(e),
    }
}

/// The alias under which uploaded logos are stored.
pub open spec fn logo_alias() -> Seq<char> {
    "meme"@
}

/// The row that stores an uploaded logo as the new default: the upload
/// prepared as `prepared_logo` says, under the alias `logo_alias`.
pub fn logo_row(upload: &[u8]) -> (res: Result<LogoRow, LogoError>)
    ensures
        match res {
            Ok(row) => prepared_logo(upload@) == Ok::<Seq<u8>, LogoError>(row.bytedata@)
                && row.alias@ == logo_alias() && row.is_default == Some(true),
            Err(e) => prepared_logo(upload@) == Err::<Seq<u8>, LogoError>(e),
        },
{
    match prepare_logo(upload) {
        Ok(png) => Ok(
            LogoRow { alias: String::from_str("meme"), bytedata: png, is_default: Some(true) },
        ),
        Err(e) => Err(e),
    }
}

/// The reply once every uploaded logo was stored.
pub open spec fn upload_done_text() -> Seq<char> {
    "Logo uploaded!"@
}

/// The reply once every uploaded logo was stored: success, with a short note.
pub fn upload_done() -> (reply: TextReply)
    ensures
        reply.status == STATUS_OK,
        reply.message@ == upload_done_text(),
{
    TextReply { status: STATUS_OK, message: String::from_str("Logo uploaded!") }
}

} // verus!
