use pastebot::event::{handle_event, message_delete, messages_delete, Action, Event};
use pastebot::replies::MessageReplies;
use pastebot::reply::{
    content_for, into_rows, is_viewable, link_button, new_message, Attachment, Error,
    IncomingMessage, LinkButton, BUTTON_EMOJI,
};

const PASTE: &str = "https://paste.valk.sh";

fn att(id: u64, name: &str, ct: Option<&str>) -> Attachment {
    Attachment { id, filename: name.to_string(), content_type: ct.map(|s| s.to_string()) }
}

fn msg(attachments: Vec<Attachment>) -> IncomingMessage {
    IncomingMessage { id: 100, channel_id: 200, author_id: 300, attachments }
}

fn labels(rows: &Vec<Vec<LinkButton>>) -> Vec<Vec<String>> {
    rows.iter().map(|r| r.iter().map(|b| b.label.clone()).collect()).collect()
}

#[test]
fn viewable_content_types() {
    assert!(is_viewable(&att(1, "a", None)));
    assert!(is_viewable(&att(1, "a", Some("text/plain; charset=utf-8"))));
    assert!(is_viewable(&att(1, "a", Some("TEXT/PLAIN; CHARSET=UTF-8"))));
    assert!(!is_viewable(&att(1, "a", Some("image/png"))));
    assert!(!is_viewable(&att(1, "a", Some("text/plain; charset=latin1"))));
}

#[test]
fn button_label_and_url() {
    let b = link_button(PASTE, 200, &att(456, "log.txt", None));
    assert_eq!(b.label, "View log.txt");
    assert_eq!(b.url, "https://paste.valk.sh#/200/456/log.txt");
    assert_eq!(BUTTON_EMOJI, "\u{1F4DC}");
}

#[test]
fn reply_text_mentions_author() {
    assert_eq!(content_for(300), "Web version of attachments from <@300>");
}

#[test]
fn rows_split_after_five() {
    let bs: Vec<LinkButton> = (0..7).map(|i| link_button(PASTE, 1, &att(i, "f", None))).collect();
    let rows = into_rows(bs);
    assert_eq!(rows.len(), 2);
    assert_eq!(rows[0].len(), 5);
    assert_eq!(rows[1].len(), 2);
    assert_eq!(rows[1][0].url, "https://paste.valk.sh#/1/5/f");
    assert_eq!(into_rows(Vec::new()).len(), 0);
    let one = into_rows(vec![link_button(PASTE, 1, &att(1, "g", None))]);
    assert_eq!(labels(&one), vec![vec!["View g".to_string()]]);
}

#[test]
fn no_attachments_no_reply() {
    assert!(matches!(new_message(&msg(vec![]), PASTE), Ok(None)));
}

#[test]
fn no_viewable_attachment_is_an_error() {
    let m = msg(vec![att(1, "a.png", Some("image/png"))]);
    assert!(matches!(new_message(&m, PASTE), Err(Error::InvalidAttachment)));
}

#[test]
fn reply_has_one_button_per_viewable_attachment() {
    let m = msg(vec![
        att(1, "a.txt", Some("text/plain; charset=utf-8")),
        att(2, "b.png", Some("image/png")),
        att(3, "c.rs", None),
    ]);
    match new_message(&m, PASTE) {
        Ok(Some(p)) => {
            assert_eq!(p.channel_id, 200);
            assert_eq!(p.reply_to, 100);
            assert_eq!(p.content, "Web version of attachments from <@300>");
            assert!(!p.mentions_allowed);
            assert_eq!(labels(&p.rows), vec![vec!["View a.txt".to_string(), "View c.rs".to_string()]]);
            assert_eq!(p.rows[0][1].url, "https://paste.valk.sh#/200/3/c.rs");
        }
        _ => panic!("expected a reply"),
    }
}

#[test]
fn ten_buttons_fit_eleven_do_not() {
    let ten = msg((0..10).map(|i| att(i, "f.txt", None)).collect());
    match new_message(&ten, PASTE) {
        Ok(Some(p)) => assert_eq!(p.rows.iter().map(|r| r.len()).collect::<Vec<_>>(), vec![5, 5]),
        _ => panic!("expected a reply"),
    }
    let eleven = msg((0..11).map(|i| att(i, "f.txt", None)).collect());
    assert!(matches!(new_message(&eleven, PASTE), Err(Error::MessageValidation(_))));
}

#[test]
fn long_file_names_break_the_label_limit() {
    let ok = msg(vec![att(1, &"a".repeat(75), None)]);
    assert!(matches!(new_message(&ok, PASTE), Ok(Some(_))));
    let long = msg(vec![att(1, &"a".repeat(76), None)]);
    match new_message(&long, PASTE) {
        Err(Error::MessageValidation(e)) => assert_eq!(e, "a provided component is invalid"),
        _ => panic!("expected a validation error"),
    }
}

#[test]
fn bot_error_messages() {
    assert_eq!(Error::InvalidAttachment.message(), "Invalid attachment detected");
    assert_eq!(Error::Http("boom".to_string()).message(), "Twilight-Http error: boom");
    assert_eq!(Error::Send("s".to_string()).message(), "Twilight-Gateway error: s");
    assert_eq!(Error::HttpBody("b".to_string()).message(), "Twilight-Http deserialize error: b");
    assert_eq!(
        Error::MessageValidation("v".to_string()).message(),
        "Twilight-Validate message error: v"
    );
}

#[test]
fn deleting_a_replied_message_deletes_the_reply() {
    let mut cache = MessageReplies::new();
    cache.insert(100, 900);
    match handle_event(&mut cache, Event::MessageDelete { id: 100, channel_id: 200 }, PASTE) {
        Ok(Action::DeleteReply { channel_id, reply_id }) => {
            assert_eq!(channel_id, 200);
            assert_eq!(reply_id, 900);
        }
        _ => panic!("expected the reply to be deleted"),
    }
    assert_eq!(cache.get(100), None);
    assert!(matches!(
        handle_event(&mut cache, Event::MessageDelete { id: 100, channel_id: 200 }, PASTE),
        Ok(Action::Nothing)
    ));
}

#[test]
fn bulk_delete_collects_known_replies() {
    let mut cache = MessageReplies::new();
    cache.insert(1, 11);
    cache.insert(3, 33);
    cache.insert(4, 44);
    match handle_event(
        &mut cache,
        Event::MessageDeleteBulk { ids: vec![3, 2, 1, 3], channel_id: 7 },
        PASTE,
    ) {
        Ok(Action::DeleteReplies { channel_id, reply_ids }) => {
            assert_eq!(channel_id, 7);
            assert_eq!(reply_ids, vec![33, 11]);
        }
        _ => panic!("expected deletions"),
    }
    assert_eq!(cache.get(4), Some(44));
    assert_eq!(cache.get(1), None);
}

#[test]
fn single_and_many_deletes() {
    let mut cache = MessageReplies::new();
    cache.insert(5, 50);
    assert_eq!(message_delete(&mut cache, 5), Some(50));
    assert_eq!(message_delete(&mut cache, 5), None);
    cache.insert(6, 60);
    assert_eq!(messages_delete(&mut cache, &vec![6, 6, 8]), vec![60]);
}

#[test]
fn other_events() {
    let mut cache = MessageReplies::new();
    assert!(matches!(handle_event(&mut cache, Event::ThreadCreate { id: 9 }, PASTE), Ok(Action::JoinThread(9))));
    assert!(matches!(handle_event(&mut cache, Event::Ready, PASTE), Ok(Action::AnnounceReady)));
    assert!(matches!(handle_event(&mut cache, Event::Other, PASTE), Ok(Action::Nothing)));
    let m = msg(vec![att(1, "a.txt", None)]);
    match handle_event(&mut cache, Event::MessageCreate(m), PASTE) {
        Ok(Action::Reply(p)) => assert_eq!(p.rows[0][0].label, "View a.txt"),
        _ => panic!("expected a reply"),
    }
    let bad = msg(vec![att(1, "a.png", Some("image/png"))]);
    assert!(matches!(handle_event(&mut cache, Event::MessageCreate(bad), PASTE), Err(Error::InvalidAttachment)));
}

#[test]
fn posted_reply_is_recorded_for_its_message() {
    let mut cache = MessageReplies::new();
    let m = msg(vec![att(1, "a.txt", None)]);
    let plan = match new_message(&m, PASTE) {
        Ok(Some(p)) => p,
        _ => panic!("expected a reply"),
    };
    pastebot::event::reply_posted(&mut cache, &plan, 777);
    assert_eq!(cache.get(100), Some(777));
}

#[test]
fn refused_reply_gives_the_same_error_either_way() {
    let make = || msg((0..11).map(|i| att(i, "f.txt", None)).collect());
    let direct = match new_message(&make(), PASTE) {
        Err(Error::MessageValidation(e)) => e,
        _ => panic!("expected a validation error"),
    };
    let mut cache = MessageReplies::new();
    let via_event = match handle_event(&mut cache, Event::MessageCreate(make()), PASTE) {
        Err(Error::MessageValidation(e)) => e,
        _ => panic!("expected a validation error"),
    };
    assert_eq!(direct, "a provided component is invalid");
    assert_eq!(direct, via_event);
}

#[test]
fn unviewable_attachments_and_case_change_nothing() {
    let base = msg(vec![att(1, "a.txt", Some("text/plain; charset=utf-8")), att(2, "b.rs", None)]);
    let other = msg(vec![
        att(9, "x.png", Some("image/png")),
        att(1, "a.txt", Some("TEXT/PLAIN; CHARSET=UTF-8")),
        att(8, "y.jpg", Some("image/jpeg")),
        att(2, "b.rs", None),
    ]);
    let urls = |m: &IncomingMessage| match new_message(m, PASTE) {
        Ok(Some(p)) => p.rows.iter().flatten().map(|b| b.url.clone()).collect::<Vec<_>>(),
        _ => panic!("expected a reply"),
    };
    assert_eq!(urls(&base), urls(&other));
}
