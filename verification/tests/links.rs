use mili::links::{
    accept_submission, choose_logo, logo_row, plan_redirect, plan_shorten, qrcode_reply,
    qrcode_target, shorten_reply, upload_done, ByteData, Link, LinkSubmission, ShortlinkId, Source,
};
use mili::qrcode::QrCodeError;
use mili::reply::Form;

const REJECTION: &str = "Deserialization failed. Are you sure this is a URL?";

#[test]
fn extracted_form_is_handed_on() {
    let f = Form::from_request(Ok::<u32, u16>(5)).unwrap();
    assert_eq!(f.0, 5);
}

#[test]
fn refused_form_keeps_its_status() {
    let r = Form::<u32>::from_request(Err(415)).err().unwrap();
    assert_eq!(r.status, 415);
    assert_eq!(r.message, REJECTION);
}

#[test]
fn submitted_url_is_normalised() {
    let f = accept_submission(Ok(("HTTPS://Example.COM".to_string(), Some("mine".to_string()))))
        .unwrap();
    assert_eq!(f.0.uri, "https://example.com/");
    assert_eq!(f.0.shortlink, Some("mine".to_string()));
}

#[test]
fn submission_that_is_no_url_is_refused() {
    let r = accept_submission(Ok(("not a url".to_string(), None))).err().unwrap();
    assert_eq!(r.status, 422);
    assert_eq!(r.message, REJECTION);
    let r = accept_submission(Err(415)).err().unwrap();
    assert_eq!(r.status, 415);
    assert_eq!(r.message, REJECTION);
}

#[test]
fn shortening_stores_url_under_chosen_id() {
    let row = plan_shorten(LinkSubmission {
        uri: "https://example.com/".to_string(),
        shortlink: Some("abc".to_string()),
    });
    assert_eq!(row.uri, "https://example.com/");
    assert_eq!(row.shortlink_id, "abc");
    let row = plan_shorten(LinkSubmission { uri: "https://example.com/".to_string(), shortlink: None });
    assert_eq!(row.shortlink_id.len(), 6);
}

#[test]
fn shorten_reply_reports_the_page_or_the_error() {
    let page = shorten_reply(Ok(()), "abc".to_string(), "https://mili.example".to_string()).unwrap();
    assert_eq!(page.shortlink_id, "abc");
    assert_eq!(page.domain, "https://mili.example");
    let err = shorten_reply(Err("duplicate key".to_string()), "abc".to_string(), "d".to_string())
        .err()
        .unwrap();
    assert_eq!(err.status, 500);
    assert_eq!(err.message, "duplicate key");
}

#[test]
fn found_link_redirects_and_records_a_visit() {
    let plan = plan_redirect(
        "abc".to_string(),
        Ok(Link { uri: "https://example.com/".to_string() }),
    )
    .unwrap();
    assert_eq!(plan.location, "https://example.com/");
    assert_eq!(plan.visit.shortlink_id, "abc");
    assert_eq!(plan.visit.source, Source::Link);
    assert_eq!(plan.visit.id.len(), 20);
}

#[test]
fn missing_link_is_a_server_error() {
    let err = plan_redirect("abc".to_string(), Err("no rows returned".to_string())).err().unwrap();
    assert_eq!(err.status, 500);
    assert_eq!(err.message, "no rows returned");
}

#[test]
fn qr_target_is_the_short_address() {
    let url = qrcode_target(Ok(ShortlinkId { shortlink_id: "abc".to_string() }), "https://mili.example")
        .unwrap();
    assert_eq!(url, "https://mili.example/abc");
    let err = qrcode_target(Err("no rows returned".to_string()), "https://mili.example").err().unwrap();
    assert_eq!(err.status, 400);
    assert_eq!(err.message, "no rows returned");
}

#[test]
fn logo_is_used_only_when_found_with_bytes() {
    assert_eq!(choose_logo(Ok(ByteData { bytedata: Some(vec![1, 2]) })), Some(vec![1, 2]));
    assert_eq!(choose_logo(Ok(ByteData { bytedata: None })), None);
    assert_eq!(choose_logo(Err("no rows returned".to_string())), None);
}

#[test]
fn qr_reply_is_a_png_download() {
    let reply = qrcode_reply("https://mili.example/abc", Err("no rows".to_string())).unwrap();
    assert_eq!(reply.status, 200);
    assert_eq!(reply.content_type, "image/png");
    assert_eq!(reply.content_disposition, "attachment; filename=\"image.png\"");
    assert!(image::load_from_memory(&reply.body).is_ok());
}

#[test]
fn qr_reply_with_broken_logo_fails() {
    let res = qrcode_reply("https://mili.example/abc", Ok(ByteData { bytedata: Some(vec![9, 9]) }));
    assert_eq!(res.err().unwrap(), QrCodeError::LogoUnreadable);
}

#[test]
fn uploaded_logo_becomes_the_default_row() {
    let mut upload = Vec::new();
    image::DynamicImage::new_rgba8(40, 40)
        .write_to(&mut std::io::Cursor::new(&mut upload), image::ImageOutputFormat::Png)
        .unwrap();
    let row = logo_row(&upload).unwrap();
    assert_eq!(row.alias, "meme");
    assert_eq!(row.is_default, Some(true));
    assert!(image::load_from_memory(&row.bytedata).is_ok());
    assert!(logo_row(&[1, 2, 3]).is_err());
}

#[test]
fn upload_reply_is_ok() {
    let r = upload_done();
    assert_eq!(r.status, 200);
    assert_eq!(r.message, "Logo uploaded!");
}
