//! The messages the bot sends: an embed with an optional title, a
//! description, a colour, a footer, an image and a select menu.

use vstd::prelude::*;

verus! {

/// Discord's branding red, `rgb(237, 66, 69)`.
pub const BRANDING_RED: u32 = 0xED4245u32;

/// Discord's branding green, `rgb(87, 242, 135)`.
pub const BRANDING_GREEN: u32 = 0x57F287u32;

/// The user a reply is made for, as the embed footer shows them.
pub struct Author {
    pub name: String,
    pub icon_url: String,
}

/// The footer line of an embed, with its icon.
pub struct Footer {
    pub text: String,
    pub icon_url: String,
}

/// One entry of a select menu: the label shown and the value returned.
pub struct SelectOption {
    pub label: String,
    pub value: String,
}

/// A string select menu attached below the embed.
pub struct SelectMenu {
    pub custom_id: String,
    pub options: Vec<SelectOption>,
}

/// A reply made of one embed and, optionally, one select menu.
pub struct Reply {
    pub title: Option<String>,
    pub description: String,
    pub color: Option<u32>,
    pub footer: Option<Footer>,
    pub image: Option<String>,
    pub select_menu: Option<SelectMenu>,
    pub ephemeral: bool,
}

/// `r` is a plain embed whose only content is `msg`, drawn in `color`.
pub open spec fn is_plain_reply(r: Reply, msg: Seq<char>, color: Option<u32>) -> bool {
    &&& r.title is None
    &&& r.description@ == msg
    &&& r.color == color
    &&& r.footer is None
    &&& r.image is None
    &&& r.select_menu is None
    &&& !r.ephemeral
}

/// `r` is the uncoloured text reply `msg`.
pub open spec fn is_text_reply(r: Reply, msg: Seq<char>) -> bool {
    is_plain_reply(r, msg, None)
}

/// `r` is the red error reply `msg`.
pub open spec fn is_error_reply(r: Reply, msg: Seq<char>) -> bool {
    is_plain_reply(r, msg, Some(BRANDING_RED))
}

/// The value of serenity's `colours::branding::RED`.
#[verifier::external_body]
fn branding_red() -> (c: u32)
    ensures
        c == BRANDING_RED,
{
    serenity::all::colours::branding::RED.0
}

/// The value of serenity's `colours::branding::GREEN`.
#[verifier::external_body]
pub(crate) fn branding_green() -> (c: u32)
    ensures
        c == BRANDING_GREEN,
{
    serenity::all::colours::branding::GREEN.0
}

/// A plain embed with the description `msg` in the given colour.
fn say_text_with_color(msg: String, color: u32) -> (r: Reply)
    ensures
        is_plain_reply(r, msg@, Some(color)),
{
    Reply {
        title: None,
        description: msg,
        color: Some(color),
        footer: None,
        image: None,
        select_menu: None,
        ephemeral: false,
    }
}

/// A plain embed with the description `msg` and no colour.
pub fn say_text(msg: String) -> (r: Reply)
    ensures
        is_text_reply(r, msg@),
{
    Reply {
        title: None,
        description: msg,
        color: None,
        footer: None,
        image: None,
        select_menu: None,
        ephemeral: false,
    }
}

/// A plain embed with the description `msg` in branding red.
pub fn say_error(msg: String) -> (r: Reply)
    ensures
        is_error_reply(r, msg@),
{
    say_text_with_color(msg, branding_red())
}

} // verus!
