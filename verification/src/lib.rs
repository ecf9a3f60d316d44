//! Verified core of a Discord bot that links message attachments to a web
//! paste viewer, together with the pure parts of the viewer site and of the
//! attachment proxy.

pub mod api;
pub mod direct_links;
pub mod event;
pub mod replies;
pub mod reply;
pub mod site;
pub mod text;
pub mod validate;
