use pastebot::site::{routes, Css, Ico, JavaScript, Png, Serve, BOT_INVITE};

#[test]
fn responses_carry_their_content_type() {
    let r = Css(vec![1u8]).into_response();
    assert_eq!(r.content_type, "text/css");
    assert_eq!(r.body, vec![1u8]);
    assert_eq!(JavaScript("x").into_response().content_type, "application/javascript");
    assert_eq!(Png(()).into_response().content_type, "image/png");
    assert_eq!(Ico(3).into_response().content_type, "image/x-icon");
    assert_eq!(Ico(3).into_response().body, 3);
}

#[test]
fn from_wraps_the_body() {
    let c: Css<&str> = Css::from("body{}");
    assert_eq!(c.0, "body{}");
    let j: JavaScript<u8> = 5u8.into();
    assert_eq!(j.0, 5);
    let p: Png<i32> = Png::from(-1);
    assert_eq!(p.0, -1);
    let i: Ico<bool> = Ico::from(true);
    assert!(i.0);
}

#[test]
fn route_table() {
    let r = routes();
    assert_eq!(r.len(), 13);
    assert_eq!(r[0].path, "/");
    assert_eq!(r[0].source, "resources/html/index.html");
    assert_eq!(r[0].serve, Serve::Html);
    assert_eq!(r[1].path, "/invite");
    assert_eq!(r[1].source, BOT_INVITE);
    assert_eq!(r[1].serve, Serve::PermanentRedirect);
    assert_eq!(r[10].path, "/:channelid/:messageid/:filename");
    assert_eq!(r[10].source, "resources/html/paste.html");
    assert_eq!(r[9].serve, Serve::Ico);
    assert_eq!(r[12].path, "/css/highlight.css");
    assert_eq!(r[12].serve, Serve::Css);
    assert!(BOT_INVITE.starts_with("https://discord.com/api/oauth2/authorize?client_id=975460814007963738"));
}
