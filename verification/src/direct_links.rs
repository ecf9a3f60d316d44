use crate::reply::{
    button_label, content_for, reply_content, rows_view, Attachment, IncomingMessage, LinkButton,
    ReplyPlan,
};
use crate::text::{decimal, push_decimal};
use vstd::prelude::*;

verus! {

/// The viewer address of attachment `a` as a plain path under `paste_site`:
/// `{site}/{channel}/{attachment}/{file name}`.
pub open spec fn direct_url(paste_site: Seq<char>, channel_id: u64, a: Attachment) -> Seq<char> {
    paste_site + "/"@ + decimal(channel_id as nat) + "/"@ + decimal(a.id as nat) + "/"@
        + a.filename@
}

/// One button per attachment, whatever its content type, in order.
pub open spec fn direct_buttons(
    paste_site: Seq<char>,
    channel_id: u64,
    attachments: Seq<Attachment>,
) -> Seq<(Seq<char>, Seq<char>)> {
    Seq::new(
        attachments.len(),
        |i: int| (button_label(attachments[i]), direct_url(paste_site, channel_id, attachments[i])),
    )
}

/// The rows of this reply style: every button in one row, or no row when
/// there is no button.
pub open spec fn single_row<T>(s: Seq<T>) -> Seq<Seq<T>> {
    if s.len() == 0 {
        Seq::empty()
    } else {
        seq![s]
    }
}

/// The button for attachment `a`, linking to its plain viewer path.
pub fn direct_button(paste_site: &str, channel_id: u64, a: &Attachment) -> (b: LinkButton)
    ensures
        b@ == (button_label(*a), direct_url(paste_site@, channel_id, *a)),
{
    let mut label = String::from_str("View ");
    label.append(a.filename.as_str());
    let mut url = String::from_str(paste_site);
    url.append("/");
    push_decimal(&mut url, channel_id);
    url.append("/");
    push_decimal(&mut url, a.id);
    url.append("/");
    url.append(a.filename.as_str());
    LinkButton { label, url }
}

/// A button for every attachment, all in one row (none when there are no
/// attachments).  The row is never cut: the size test this style makes on a
/// row counts the fields of the row's builder, which stay below five.
pub fn button_rows(paste_site: &str, channel_id: u64, attachments: &Vec<Attachment>) -> (rows: Vec<
    Vec<LinkButton>,
>)
    ensures
        rows_view(rows@) == single_row(direct_buttons(paste_site@, channel_id, attachments@)),
{
    let ghost bv = direct_buttons(paste_site@, channel_id, attachments@);
    let mut row: Vec<LinkButton> = Vec::new();
    let mut i: usize = 0;
    while i < attachments.len()
        invariant
            bv == direct_buttons(paste_site@, channel_id, attachments@),
            i <= attachments.len(),
            row@.map_values(|b: LinkButton| b@) == bv.subrange(0, i as int),
        decreases attachments.len() - i,
    {
        let b = direct_button(paste_site, channel_id, &attachments[i]);
        assert(bv[i as int] == b@);
        let ghost prev = row@;
        row.push(b);
        assert(row@ == prev.push(b));
        assert(row@.map_values(|b: LinkButton| b@) =~= prev.map_values(|b: LinkButton| b@).push(b@));
        assert(row@.map_values(|b: LinkButton| b@) =~= bv.subrange(0, i + 1));
        i = i + 1;
    }
    assert(bv.subrange(0, bv.len() as int) =~= bv);
    let mut rows: Vec<Vec<LinkButton>> = Vec::new();
    if row.len() > 0 {
        rows.push(row);
    }
    assert(rows_view(rows@) =~= single_row(bv));
    rows
}

/// Decides the reply to a new message in the style that links each
/// attachment by a plain path: nothing for a message without attachments,
/// or when the bot is known not to be allowed to send messages in the
/// channel (`can_send`, `None` when that is unknown); otherwise a reply to
/// the message, pinging nobody, with one button per attachment, all in one
/// row.
pub fn message(msg: &IncomingMessage, paste_site: &str, can_send: Option<bool>) -> (r: Option<
    ReplyPlan,
>)
    ensures
        msg.attachments@.len() == 0 || can_send == Some(false) ==> r is None,
        msg.attachments@.len() > 0 && can_send != Some(false) ==> (r matches Some(p) && p.channel_id
            == msg.channel_id && p.reply_to == msg.id && p.content@ == reply_content(msg.author_id)
            && !p.mentions_allowed && rows_view(p.rows@) == single_row(
            direct_buttons(paste_site@, msg.channel_id, msg.attachments@),
        )),
{
    if msg.attachments.len() == 0 {
        return None;
    }
    if let Some(false) = can_send {
        return None;
    }
    let rows = button_rows(paste_site, msg.channel_id, &msg.attachments);
    assert(direct_buttons(paste_site@, msg.channel_id, msg.attachments@).len() > 0);
    assert(rows_view(rows@).len() == rows@.len());
    if rows.len() == 0 {
        return None;
    }
    let content = content_for(msg.author_id);
    Some(
        ReplyPlan {
            channel_id: msg.channel_id,
            reply_to: msg.id,
            content,
            rows,
            mentions_allowed: false,
        },
    )
}

} // verus!
