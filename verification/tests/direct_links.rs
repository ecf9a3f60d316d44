use pastebot::direct_links::{button_rows, direct_button, message};
use pastebot::reply::{Attachment, IncomingMessage};

fn att(id: u64, name: &str, ct: Option<&str>) -> Attachment {
    Attachment { id, filename: name.to_string(), content_type: ct.map(|s| s.to_string()) }
}

#[test]
fn direct_button_links_by_path() {
    let b = direct_button("https://paste.valk.sh", 12, &att(34, "x.log", Some("image/png")));
    assert_eq!(b.label, "View x.log");
    assert_eq!(b.url, "https://paste.valk.sh/12/34/x.log");
}

#[test]
fn all_buttons_share_one_row() {
    for (n, sizes) in [(0usize, vec![]), (3, vec![3]), (5, vec![5]), (6, vec![6]), (12, vec![12])] {
        let atts: Vec<Attachment> = (0..n as u64).map(|i| att(i, "f", None)).collect();
        let rows = button_rows("s", 1, &atts);
        assert_eq!(rows.iter().map(|r| r.len()).collect::<Vec<_>>(), sizes);
    }
    let atts: Vec<Attachment> = (0..7u64).map(|i| att(i, "f", None)).collect();
    let rows = button_rows("s", 1, &atts);
    assert_eq!(rows[0][6].url, "s/1/6/f");
}

#[test]
fn message_in_direct_link_style() {
    let m = IncomingMessage {
        id: 5,
        channel_id: 6,
        author_id: 7,
        attachments: vec![att(1, "a.png", Some("image/png")), att(2, "b.txt", None)],
    };
    match message(&m, "site", None) {
        Some(p) => {
            assert_eq!(p.reply_to, 5);
            assert_eq!(p.channel_id, 6);
            assert_eq!(p.content, "Web version of attachments from <@7>");
            assert_eq!(p.rows.len(), 1);
            assert_eq!(p.rows[0][0].url, "site/6/1/a.png");
            assert!(!p.mentions_allowed);
        }
        None => panic!("expected a reply"),
    }
    assert!(message(&m, "site", Some(false)).is_none());
    assert!(message(&m, "site", Some(true)).is_some());
    let empty = IncomingMessage { id: 5, channel_id: 6, author_id: 7, attachments: vec![] };
    assert!(message(&empty, "site", None).is_none());
}
