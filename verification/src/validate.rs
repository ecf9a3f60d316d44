use crate::reply::{rows_view, LinkButton, BUTTON_EMOJI};
use crate::text::decimal;
use twilight_model::channel::message::component::{ActionRow, Button, ButtonStyle};
use twilight_model::channel::message::{Component, ReactionType};
use vstd::prelude::*;

verus! {

/// The longest message text Discord accepts, in characters.
pub const MESSAGE_CONTENT_LENGTH_MAX: usize = 2000;

/// Discord's rules for rows of link buttons, as `twilight_validate` checks
/// them for buttons with a URL and no custom id: at most five rows, at most
/// five buttons in a row, and labels of at most 80 characters.
pub open spec fn link_rows_acceptable(rows: Seq<Seq<(Seq<char>, Seq<char>)>>) -> bool {
    &&& rows.len() <= 5
    &&& forall|i: int| 0 <= i < rows.len() ==> #[trigger] rows[i].len() <= 5
    &&& forall|i: int, j: int|
        0 <= i < rows.len() && 0 <= j < rows[i].len() ==> (#[trigger] rows[i][j]).0.len() <= 80
}

/// The message of the error that `twilight_validate::message::content`
/// gives for a refused message text.
pub open spec fn content_error_text() -> Seq<char> {
    "message content is invalid"@
}

/// The message of the error that `twilight_validate::message::components`
/// gives for refused rows of link buttons: the count when there are more
/// than five rows, else the notice that a component is invalid.
pub open spec fn link_rows_error_text(rows: Seq<Seq<(Seq<char>, Seq<char>)>>) -> Seq<char> {
    if rows.len() > 5 {
        decimal(rows.len()) + " components were provided, but only "@ + "5"@
            + " root components are allowed"@
    } else {
        "a provided component is invalid"@
    }
}

/// `twilight_validate::message::content`: accepts a message text of at most
/// 2000 characters; otherwise gives an error whose message is
/// [`content_error_text`].
#[verifier::external_body]
pub(crate) fn validate_content(content: &str) -> (r: Result<(), String>)
    ensures
        r is Ok <==> content@.len() <= MESSAGE_CONTENT_LENGTH_MAX,
        r matches Err(e) ==> e@ == content_error_text(),
{
    twilight_validate::message::content(content).map_err(|e| e.to_string())
}

/// `twilight_validate::message::components` on the action rows that hold
/// these link buttons (link style, a URL, no custom id, the scroll emoji):
/// accepts them exactly when [`link_rows_acceptable`] holds; otherwise gives
/// an error whose message is [`link_rows_error_text`] of the rows.
#[verifier::external_body]
pub(crate) fn validate_link_rows(rows: &Vec<Vec<LinkButton>>) -> (r: Result<(), String>)
    ensures
        r is Ok <==> link_rows_acceptable(rows_view(rows@)),
        r matches Err(e) ==> e@ == link_rows_error_text(rows_view(rows@)),
{
    let components: Vec<Component> = rows.iter().map(|row| Component::ActionRow(ActionRow {
        components: row.iter().map(|b| Component::Button(Button {
            custom_id: None, disabled: false, label: Some(b.label.clone()), style: ButtonStyle::Link,
            emoji: Some(ReactionType::Unicode { name: BUTTON_EMOJI.to_owned() }), url: Some(b.url.clone()),
        })).collect(),
    })).collect();
    twilight_validate::message::components(&components).map_err(|e| e.to_string())
}

} // verus!
