use crate::text::{ascii_lowercase, contains, contains_run, decimal, push_decimal, to_ascii_lowercase};
use crate::validate::{
    content_error_text, link_rows_acceptable, link_rows_error_text, validate_content,
    validate_link_rows, MESSAGE_CONTENT_LENGTH_MAX,
};
use vstd::prelude::*;

verus! {

/// An attachment of an incoming message, as far as the bot looks at it.
#[derive(Debug)]
pub struct Attachment {
    pub id: u64,
    pub filename: String,
    pub content_type: Option<String>,
}

/// A message the bot has seen being posted.
#[derive(Debug)]
pub struct IncomingMessage {
    pub id: u64,
    pub channel_id: u64,
    pub author_id: u64,
    pub attachments: Vec<Attachment>,
}

/// A link button under the bot's reply: its label and the URL it opens.
/// Every such button shows the [`BUTTON_EMOJI`] and has the link style.
#[derive(Debug)]
pub struct LinkButton {
    pub label: String,
    pub url: String,
}

impl View for LinkButton {
    type V = (Seq<char>, Seq<char>);

    open spec fn view(&self) -> (Seq<char>, Seq<char>) {
        (self.label@, self.url@)
    }
}

/// The emoji shown on every link button (a scroll).
pub const BUTTON_EMOJI: &'static str = "\u{1F4DC}";

/// The reply the bot posts for a message with viewable attachments.
#[derive(Debug)]
pub struct ReplyPlan {
    /// The channel to post in.
    pub channel_id: u64,
    /// The message replied to.
    pub reply_to: u64,
    /// The text of the reply.
    pub content: String,
    /// The rows of link buttons, one button per viewable attachment.
    pub rows: Vec<Vec<LinkButton>>,
    /// Whether the reply may ping anyone it mentions; the bot's replies
    /// never do (their allowed mentions are empty).
    pub mentions_allowed: bool,
}

/// What can go wrong while handling an event.  The variants that carry text
/// hold the message of the underlying error.
#[derive(Debug)]
pub enum Error {
    /// Sending on the gateway failed.
    Send(String),
    /// An HTTP request to Discord failed.
    Http(String),
    /// Discord's answer could not be read.
    HttpBody(String),
    /// The reply would not pass Discord's message rules.
    MessageValidation(String),
    /// None of the attachments can be shown as text.
    InvalidAttachment,
}

impl Error {
    /// The human-readable description of the error.
    pub open spec fn spec_message(&self) -> Seq<char> {
        match self {
            Error::Send(s) => "Twilight-Gateway error: "@ + s@,
            Error::Http(s) => "Twilight-Http error: "@ + s@,
            Error::HttpBody(s) => "Twilight-Http deserialize error: "@ + s@,
            Error::MessageValidation(s) => "Twilight-Validate message error: "@ + s@,
            Error::InvalidAttachment => "Invalid attachment detected"@,
        }
    }

    /// The human-readable description of the error.
    pub fn message(&self) -> (r: String)
        ensures
            r@ == self.spec_message(),
    {
        match self {
            Error::Send(s) => {
                let mut r = String::from_str("Twilight-Gateway error: ");
                r.append(s.as_str());
                r
            },
            Error::Http(s) => {
                let mut r = String::from_str("Twilight-Http error: ");
                r.append(s.as_str());
                r
            },
            Error::HttpBody(s) => {
                let mut r = String::from_str("Twilight-Http deserialize error: ");
                r.append(s.as_str());
                r
            },
            Error::MessageValidation(s) => {
                let mut r = String::from_str("Twilight-Validate message error: ");
                r.append(s.as_str());
                r
            },
            Error::InvalidAttachment => String::from_str("Invalid attachment detected"),
        }
    }
}

/// An attachment is offered for viewing when it has no content type, or
/// when its content type, lower-cased, names a UTF charset.
pub open spec fn viewable(a: Attachment) -> bool {
    match a.content_type {
        None => true,
        Some(c) => contains_run(ascii_lowercase(c@), "charset=utf"@),
    }
}

/// The label of the button for attachment `a`.
pub open spec fn button_label(a: Attachment) -> Seq<char> {
    "View "@ + a.filename@
}

/// The paste viewer's URL for attachment `a` of a message in `channel_id`.
pub open spec fn button_url(paste_url: Seq<char>, channel_id: u64, a: Attachment) -> Seq<char> {
    paste_url + "#/"@ + decimal(channel_id as nat) + "/"@ + decimal(a.id as nat) + "/"@
        + a.filename@
}

/// The buttons for a message's attachments: one per viewable attachment, in
/// the attachments' order.
pub open spec fn planned_buttons(
    paste_url: Seq<char>,
    channel_id: u64,
    attachments: Seq<Attachment>,
) -> Seq<(Seq<char>, Seq<char>)>
    decreases attachments.len(),
{
    if attachments.len() == 0 {
        Seq::empty()
    } else {
        let earlier = planned_buttons(paste_url, channel_id, attachments.drop_last());
        let a = attachments.last();
        if viewable(a) {
            earlier.push((button_label(a), button_url(paste_url, channel_id, a)))
        } else {
            earlier
        }
    }
}

/// How buttons are laid out in rows: the first five in the first row, all
/// the others in a second row; no row when there are no buttons.
pub open spec fn rows_of<T>(buttons: Seq<T>) -> Seq<Seq<T>> {
    if buttons.len() == 0 {
        Seq::empty()
    } else if buttons.len() <= 5 {
        seq![buttons]
    } else {
        seq![buttons.take(5), buttons.skip(5)]
    }
}

/// The views of rows of buttons.
pub open spec fn rows_view(rows: Seq<Vec<LinkButton>>) -> Seq<Seq<(Seq<char>, Seq<char>)>> {
    rows.map_values(|r: Vec<LinkButton>| r@.map_values(|b: LinkButton| b@))
}

/// The text of the reply to a message written by `author_id`.
pub open spec fn reply_content(author_id: u64) -> Seq<char> {
    "Web version of attachments from <@"@ + decimal(author_id as nat) + ">"@
}

/// Whether attachment `a` is offered for viewing (see [`viewable`]).
pub fn is_viewable(a: &Attachment) -> (b: bool)
    ensures
        b == viewable(*a),
{
    match &a.content_type {
        None => true,
        Some(c) => {
            let lower = to_ascii_lowercase(c.as_str());
            contains(lower.as_str(), "charset=utf")
        },
    }
}

/// The link button for attachment `a` of a message in `channel_id`.
pub fn link_button(paste_url: &str, channel_id: u64, a: &Attachment) -> (b: LinkButton)
    ensures
        b@ == (button_label(*a), button_url(paste_url@, channel_id, *a)),
{
    let mut label = String::from_str("View ");
    label.append(a.filename.as_str());
    let mut url = String::from_str(paste_url);
    url.append("#/");
    push_decimal(&mut url, channel_id);
    url.append("/");
    push_decimal(&mut url, a.id);
    url.append("/");
    url.append(a.filename.as_str());
    LinkButton { label, url }
}

/// The buttons for all viewable attachments of a message, in order.
pub fn link_buttons(paste_url: &str, channel_id: u64, attachments: &Vec<Attachment>) -> (bs: Vec<
    LinkButton,
>)
    ensures
        bs@.map_values(|b: LinkButton| b@) == planned_buttons(paste_url@, channel_id, attachments@),
{
    let mut bs: Vec<LinkButton> = Vec::new();
    let mut i: usize = 0;
    while i < attachments.len()
        invariant
            i <= attachments.len(),
            bs@.map_values(|b: LinkButton| b@) == planned_buttons(
                paste_url@,
                channel_id,
                attachments@.subrange(0, i as int),
            ),
        decreases attachments.len() - i,
    {
        let a = &attachments[i];
        let ghost pre = attachments@.subrange(0, i + 1);
        assert(pre.drop_last() =~= attachments@.subrange(0, i as int));
        if is_viewable(a) {
            let b = link_button(paste_url, channel_id, a);
            bs.push(b);
        }
        assert(bs@.map_values(|b: LinkButton| b@) =~= planned_buttons(paste_url@, channel_id, pre));
        i = i + 1;
    }
    assert(attachments@.subrange(0, attachments@.len() as int) =~= attachments@);
    bs
}

/// Lays buttons out in rows: the first five in the first row, the others in
/// a second one (see [`rows_of`]).
pub fn into_rows(buttons: Vec<LinkButton>) -> (rows: Vec<Vec<LinkButton>>)
    ensures
        rows_view(rows@) == rows_of(buttons@.map_values(|b: LinkButton| b@)),
{
    let ghost bv = buttons@.map_values(|b: LinkButton| b@);
    let n = buttons.len();
    let mut rows: Vec<Vec<LinkButton>> = Vec::new();
    if n == 0 {
        assert(rows_view(rows@) =~= rows_of(bv));
        return rows;
    }
    let mut row0 = buttons;
    if n > 5 {
        let row1 = row0.split_off(5);
        assert(row0@.map_values(|b: LinkButton| b@) =~= bv.take(5));
        assert(row1@.map_values(|b: LinkButton| b@) =~= bv.skip(5));
        rows.push(row0);
        rows.push(row1);
    } else {
        rows.push(row0);
    }
    assert(rows_view(rows@) =~= rows_of(bv));
    rows
}

/// The text of the reply to a message written by `author_id`.
pub fn content_for(author_id: u64) -> (s: String)
    ensures
        s@ == reply_content(author_id),
{
    let mut s = String::from_str("Web version of attachments from <@");
    push_decimal(&mut s, author_id);
    s.append(">");
    s
}


/// Whether Discord's rules accept a reply with this text and these buttons.
pub open spec fn reply_acceptable(content: Seq<char>, buttons: Seq<(Seq<char>, Seq<char>)>) -> bool {
    content.len() <= MESSAGE_CONTENT_LENGTH_MAX && link_rows_acceptable(rows_of(buttons))
}

/// The message of the validation error for a refused reply: the text's
/// error when the text is too long, else the buttons' error.
pub open spec fn refusal_text(content: Seq<char>, buttons: Seq<(Seq<char>, Seq<char>)>) -> Seq<
    char,
> {
    if content.len() > MESSAGE_CONTENT_LENGTH_MAX {
        content_error_text()
    } else {
        link_rows_error_text(rows_of(buttons))
    }
}

/// Decides the bot's reply to a newly posted message: nothing for a message
/// without attachments; an error when no attachment can be shown as text,
/// or when the reply would break Discord's message rules; otherwise a reply
/// in the same channel, to that message, pinging nobody, with one link
/// button per viewable attachment.
pub fn new_message(message: &IncomingMessage, paste_url: &str) -> (r: Result<
    Option<ReplyPlan>,
    Error,
>)
    ensures
        message.attachments@.len() == 0 ==> (r matches Ok(None)),
        message.attachments@.len() > 0 ==> ({
            let bs = planned_buttons(paste_url@, message.channel_id, message.attachments@);
            let text = reply_content(message.author_id);
            if bs.len() == 0 {
                r matches Err(Error::InvalidAttachment)
            } else if !reply_acceptable(text, bs) {
                r matches Err(Error::MessageValidation(e)) && e@ == refusal_text(text, bs)
            } else {
                r matches Ok(Some(p)) && p.channel_id == message.channel_id && p.reply_to
                    == message.id && p.content@ == text && !p.mentions_allowed && rows_view(p.rows@)
                    == rows_of(bs)
            }
        }),
{
    if message.attachments.len() == 0 {
        return Ok(None);
    }
    let buttons = link_buttons(paste_url, message.channel_id, &message.attachments);
    if buttons.len() == 0 {
        return Err(Error::InvalidAttachment);
    }
    let rows = into_rows(buttons);
    let content = content_for(message.author_id);
    match validate_content(content.as_str()) {
        Ok(()) => {},
        Err(e) => {
            return Err(Error::MessageValidation(e));
        },
    }
    match validate_link_rows(&rows) {
        Ok(()) => {},
        Err(e) => {
            return Err(Error::MessageValidation(e));
        },
    }
    Ok(
        Some(
            ReplyPlan {
                channel_id: message.channel_id,
                reply_to: message.id,
                content,
                rows,
                mentions_allowed: false,
            },
        ),
    )
}


/// The rows hold every button exactly once and in order: at most two rows,
/// the first with at most five buttons, no row empty.
pub proof fn lemma_rows_hold_every_button<T>(buttons: Seq<T>)
    ensures
        rows_of(buttons).flatten() == buttons,
        rows_of(buttons).len() <= 2,
        forall|i: int| 0 <= i < rows_of(buttons).len() ==> #[trigger] rows_of(buttons)[i].len() > 0,
        rows_of(buttons).len() > 0 ==> rows_of(buttons)[0].len() <= 5,
{
    let rows = rows_of(buttons);
    let none = Seq::<Seq<T>>::empty();
    assert(none.flatten() == Seq::<T>::empty());
    if buttons.len() == 0 {
    } else if buttons.len() <= 5 {
        assert(rows.drop_first() =~= none);
        assert(rows.flatten() == rows.first() + none.flatten());
        assert(rows.flatten() =~= buttons);
    } else {
        let tail = rows.drop_first();
        assert(tail =~= seq![buttons.skip(5)]);
        assert(tail.drop_first() =~= none);
        assert(tail.flatten() == tail.first() + none.flatten());
        assert(tail.flatten() =~= buttons.skip(5));
        assert(rows.flatten() == rows.first() + tail.flatten());
        assert(rows.flatten() =~= buttons);
    }
}

/// The reply text always fits Discord's limit, so a reply is refused
/// exactly when there are more than ten buttons or a label longer than 80
/// characters (a file name longer than 75).
pub proof fn lemma_reply_acceptable_iff(author_id: u64, buttons: Seq<(Seq<char>, Seq<char>)>)
    ensures
        reply_acceptable(reply_content(author_id), buttons) <==> (buttons.len() <= 10 && forall|
            i: int,
        |
            0 <= i < buttons.len() ==> (#[trigger] buttons[i]).0.len() <= 80),
{
    crate::text::lemma_u64_decimal_len(author_id);
    reveal_strlit("Web version of attachments from <@");
    reveal_strlit(">");
    assert(reply_content(author_id).len() <= MESSAGE_CONTENT_LENGTH_MAX);
    let rows = rows_of(buttons);
    let labels_ok = forall|i: int| 0 <= i < buttons.len() ==> (#[trigger] buttons[i]).0.len() <= 80;
    if buttons.len() > 5 {
        if link_rows_acceptable(rows) {
            assert(rows[1].len() <= 5);
            assert forall|i: int| 0 <= i < buttons.len() implies (#[trigger] buttons[i]).0.len() <= 80 by {
                if i < 5 {
                    assert(rows[0][i] == buttons[i]);
                } else {
                    assert(rows[1][i - 5] == buttons[i]);
                }
            }
        }
        if buttons.len() <= 10 && labels_ok {
            assert forall|i: int, j: int|
                0 <= i < rows.len() && 0 <= j < rows[i].len() implies (#[trigger] rows[i][j]).0.len()
                <= 80 by {
                if i == 0 {
                    assert(rows[0][j] == buttons[j]);
                } else {
                    assert(rows[1][j] == buttons[j + 5]);
                }
            }
        }
    } else if buttons.len() > 0 {
        if link_rows_acceptable(rows) {
            assert forall|i: int| 0 <= i < buttons.len() implies (#[trigger] buttons[i]).0.len() <= 80 by {
                assert(rows[0][i] == buttons[i]);
            }
        }
    }
}


/// Two attachments that differ at most in the ASCII letter case of their
/// content type.
pub open spec fn same_but_case(a: Attachment, b: Attachment) -> bool {
    &&& a.id == b.id
    &&& a.filename@ == b.filename@
    &&& match (a.content_type, b.content_type) {
        (None, None) => true,
        (Some(x), Some(y)) => ascii_lowercase(x@) == ascii_lowercase(y@),
        _ => false,
    }
}

/// Changing the letter case of content types changes no button: the reply
/// planned for the message stays the same.
pub proof fn lemma_content_type_case_changes_nothing(
    paste_url: Seq<char>,
    channel_id: u64,
    attachments: Seq<Attachment>,
    recased: Seq<Attachment>,
)
    requires
        attachments.len() == recased.len(),
        forall|i: int|
            0 <= i < attachments.len() ==> same_but_case(#[trigger] attachments[i], recased[i]),
    ensures
        planned_buttons(paste_url, channel_id, recased) == planned_buttons(
            paste_url,
            channel_id,
            attachments,
        ),
    decreases attachments.len(),
{
    if attachments.len() > 0 {
        let n = attachments.len() - 1;
        assert(same_but_case(attachments[n], recased[n]));
        lemma_content_type_case_changes_nothing(
            paste_url,
            channel_id,
            attachments.drop_last(),
            recased.drop_last(),
        );
    }
}

/// Adding an attachment that cannot be shown as text, anywhere among the
/// others, changes no button: the reply planned for the message stays the
/// same.
pub proof fn lemma_unviewable_attachment_changes_nothing(
    paste_url: Seq<char>,
    channel_id: u64,
    attachments: Seq<Attachment>,
    at: int,
    extra: Attachment,
)
    requires
        !viewable(extra),
        0 <= at <= attachments.len(),
    ensures
        planned_buttons(paste_url, channel_id, attachments.insert(at, extra)) == planned_buttons(
            paste_url,
            channel_id,
            attachments,
        ),
    decreases attachments.len(),
{
    let longer = attachments.insert(at, extra);
    if at == attachments.len() {
        assert(longer.drop_last() =~= attachments);
    } else {
        lemma_unviewable_attachment_changes_nothing(
            paste_url,
            channel_id,
            attachments.drop_last(),
            at,
            extra,
        );
        assert(longer.drop_last() =~= attachments.drop_last().insert(at, extra));
        assert(longer.last() == attachments.last());
    }
}


/// A character with ASCII capitals folded to lower case (`A`..=`Z` become
/// `a`..=`z`).
pub open spec fn folded(x: char) -> char {
    if 'A' <= x && x <= 'Z' {
        ((x as u8) + 32) as u8 as char
    } else {
        x
    }
}

/// `c` has the eleven characters `charset=utf`, in any letter case, from
/// position `i` on.
pub open spec fn utf_charset_at(c: Seq<char>, i: int) -> bool {
    0 <= i && i + 11 <= c.len() && forall|j: int|
        0 <= j < 11 ==> #[trigger] folded(c[i + j]) == "charset=utf"@[j]
}

/// An attachment is shown as text exactly when it has no content type, or
/// when its content type has, at some position, the eleven characters
/// `charset=utf` in any letter case, whatever else it says.
pub proof fn lemma_viewable_exactly_when_utf_charset(a: Attachment)
    ensures
        viewable(a) <==> match a.content_type {
            None => true,
            Some(c) => exists|i: int| #[trigger] utf_charset_at(c@, i),
        },
{
    reveal_strlit("charset=utf");
    let n = "charset=utf"@;
    assert(n.len() == 11);
    match a.content_type {
        None => {},
        Some(c) => {
            let l = ascii_lowercase(c@);
            if viewable(a) {
                let i = choose|i: int| 0 <= i && i + n.len() <= l.len() && #[trigger] l.subrange(i, i + n.len()) == n;
                assert forall|j: int| 0 <= j < 11 implies #[trigger] folded(c@[i + j]) == n[j] by {
                    assert(l.subrange(i, i + n.len())[j] == n[j]);
                }
                assert(utf_charset_at(c@, i));
            }
            if exists|i: int| #[trigger] utf_charset_at(c@, i) {
                let i = choose|i: int| #[trigger] utf_charset_at(c@, i);
                assert(l.subrange(i, i + n.len()) =~= n) by {
                    assert forall|j: int| 0 <= j < 11 implies l.subrange(i, i + n.len())[j] == n[j] by {
                        assert(folded(c@[i + j]) == n[j]);
                    }
                }
                assert(contains_run(l, n));
            }
        },
    }
}

/// The link of an attachment's button starts with the viewer's address and
/// `#/`, then has the channel id and the attachment id in decimal, each
/// followed by `/`, and ends with the attachment's file name exactly as
/// given; the label is `View ` followed by that same file name.
pub proof fn lemma_button_keeps_file_name(paste_url: Seq<char>, channel_id: u64, a: Attachment)
    ensures
        ({
            let u = button_url(paste_url, channel_id, a);
            let f = a.filename@;
            &&& u.len() >= paste_url.len() + 2 + f.len() + 1
            &&& u.subrange(0, paste_url.len() as int) == paste_url
            &&& u[paste_url.len() as int] == '#'
            &&& u[paste_url.len() + 1int] == '/'
            &&& u[u.len() - f.len() - 1] == '/'
            &&& u.subrange(u.len() - f.len(), u.len() as int) == f
            &&& u.subrange(paste_url.len() + 2int, u.len() - f.len()) == decimal(channel_id as nat)
                + seq!['/'] + decimal(a.id as nat) + seq!['/']
            &&& button_label(a).subrange(0, 5) == seq!['V', 'i', 'e', 'w', ' ']
            &&& button_label(a).subrange(5, button_label(a).len() as int) == f
        }),
{
    reveal_strlit("#/");
    reveal_strlit("/");
    reveal_strlit("View ");
    let u = button_url(paste_url, channel_id, a);
    let f = a.filename@;
    let mid = "#/"@ + decimal(channel_id as nat) + "/"@ + decimal(a.id as nat) + "/"@;
    assert(u =~= paste_url + mid + f);
    assert(mid[0] == '#');
    assert(mid[1] == '/');
    assert(mid[mid.len() - 1] == '/');
    assert(u.subrange(0, paste_url.len() as int) =~= paste_url);
    assert(u.subrange(u.len() - f.len(), u.len() as int) =~= f);
    assert(button_label(a).subrange(5, button_label(a).len() as int) =~= f);
    assert(button_label(a).subrange(0, 5) =~= seq!['V', 'i', 'e', 'w', ' ']);
    assert(u.subrange(paste_url.len() + 2int, u.len() - f.len()) =~= decimal(channel_id as nat)
        + seq!['/'] + decimal(a.id as nat) + seq!['/']);
}

} // verus!
