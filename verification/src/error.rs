//! The errors that ticket operations report to clients and staff.
use vstd::prelude::*;

use crate::text::{extend_chars, extend_str, i64_text, int_text, string_of};

verus! {

/// Which kind of message was found empty.
#[derive(Clone, Copy, PartialEq, Eq, Structural, Debug)]
pub enum EmptyMessageContext {
    NewTicket,
    Reply,
    StaffMessage,
}

/// An error of a ticket operation; `message` gives the text and
/// `status_code` the HTTP status that the API answers with.
#[derive(Clone, Copy, PartialEq, Eq, Structural, Debug)]
pub enum SupportError {
    InvalidTicketPriority,
    InvalidTicketStatus,
    InvalidCategoryColor,
    MetadataTooLarge,
    MetadataNotObject,
    MetadataInvalidJson,
    WebhookUrlInvalid,
    WebhookUrlNotDiscord,
    WebhookUrlRequired,
    CategoryNameEmpty,
    CategoryNotFound,
    TicketNotFound,
    AttachmentNotFound,
    AttachmentReadFailed,
    RateLimited,
    TooManyOpenTickets { max_open: i32 },
    SubjectEmpty,
    MessageEmpty { context: EmptyMessageContext },
    CategoriesDisabled,
    SelectedCategoryNotFound,
    SelectedCategoryDisabled,
    ServerNotAccessible,
    ReplyOnClosed,
    ClientCloseDisabled,
    OnlyClosedReopen,
    ClientStatusNotAllowed,
    AssignedUserNotFound,
    AssignedUserNotStaff,
    InvalidUuid,
    TooManyAttachments { max: u32 },
    UnsupportedAttachmentType,
    EmptyAttachment,
    AttachmentTooLarge { video: bool, limit_mib: u32 },
    TotalAttachmentsTooLarge { limit_mib: u32 },
    StoredSizeOverflow,
}

/// The HTTP status of an error: 404 for missing things, 429 for the rate
/// limit, 502 when storage fails, and 400 for everything else.
pub open spec fn error_status(e: SupportError) -> u16 {
    match e {
        SupportError::CategoryNotFound => 404,
        SupportError::TicketNotFound => 404,
        SupportError::AttachmentNotFound => 404,
        SupportError::AttachmentReadFailed => 502,
        SupportError::RateLimited => 429,
        _ => 400,
    }
}

/// The text shown for an error.
pub open spec fn error_message(e: SupportError) -> Seq<char> {
    match e {
        SupportError::InvalidTicketPriority => "invalid ticket priority"@,
        SupportError::InvalidTicketStatus => "invalid ticket status"@,
        SupportError::InvalidCategoryColor => "category color must be a hex value like #4f46e5"@,
        SupportError::MetadataTooLarge => "ticket metadata is too large"@,
        SupportError::MetadataNotObject => "ticket metadata must be a JSON object"@,
        SupportError::MetadataInvalidJson => "ticket metadata must be valid JSON"@,
        SupportError::WebhookUrlInvalid => "discord webhook url is invalid"@,
        SupportError::WebhookUrlNotDiscord => "discord webhook url must be a Discord incoming webhook"@,
        SupportError::WebhookUrlRequired => "discord webhook url is required when webhook delivery is enabled"@,
        SupportError::CategoryNameEmpty => "category name cannot be empty"@,
        SupportError::CategoryNotFound => "category not found"@,
        SupportError::TicketNotFound => "ticket not found"@,
        SupportError::AttachmentNotFound => "attachment not found"@,
        SupportError::AttachmentReadFailed => "failed to read attachment"@,
        SupportError::RateLimited => "ticket creation rate limit reached, please try again in a few minutes"@,
        SupportError::TooManyOpenTickets { max_open } => "you can only have "@ + int_text(
            max_open as int,
        ) + " open support tickets at a time"@,
        SupportError::SubjectEmpty => "ticket subject cannot be empty"@,
        SupportError::MessageEmpty { context } => match context {
            EmptyMessageContext::NewTicket => "ticket message cannot be empty"@,
            EmptyMessageContext::Reply => "reply cannot be empty"@,
            EmptyMessageContext::StaffMessage => "message cannot be empty"@,
        },
        SupportError::CategoriesDisabled => "ticket categories are disabled"@,
        SupportError::SelectedCategoryNotFound => "selected category not found"@,
        SupportError::SelectedCategoryDisabled => "selected category is disabled"@,
        SupportError::ServerNotAccessible => "selected server was not found or is not accessible"@,
        SupportError::ReplyOnClosed => "ticket is closed and cannot receive replies"@,
        SupportError::ClientCloseDisabled => "clients cannot close tickets right now"@,
        SupportError::OnlyClosedReopen => "only closed tickets can be reopened"@,
        SupportError::ClientStatusNotAllowed => "clients may only close or reopen tickets"@,
        SupportError::AssignedUserNotFound => "assigned user not found"@,
        SupportError::AssignedUserNotStaff => "assigned user must have support staff permissions"@,
        SupportError::InvalidUuid => "invalid UUID value"@,
        SupportError::TooManyAttachments { max } => "you can upload up to "@ + int_text(
            max as int,
        ) + " attachments per message"@,
        SupportError::UnsupportedAttachmentType => "attachments must be PNG, JPEG, GIF, WebP, AVIF, MP4, WebM, OGG, or MOV"@,
        SupportError::EmptyAttachment => "attachments cannot be empty"@,
        SupportError::AttachmentTooLarge { video, limit_mib } => (if video {
            "video"@
        } else {
            "image"@
        }) + " attachments must be smaller than "@ + int_text(limit_mib as int) + " MiB"@,
        SupportError::TotalAttachmentsTooLarge { limit_mib } => "total attachment size must be smaller than "@
            + int_text(limit_mib as int) + " MiB"@,
        SupportError::StoredSizeOverflow => "stored attachment size is out of range"@,
    }
}

impl SupportError {
    pub fn status_code(&self) -> (r: u16)
        ensures
            r == error_status(*self),
    {
        match self {
            SupportError::CategoryNotFound => 404,
            SupportError::TicketNotFound => 404,
            SupportError::AttachmentNotFound => 404,
            SupportError::AttachmentReadFailed => 502,
            SupportError::RateLimited => 429,
            _ => 400,
        }
    }

    pub fn message(&self) -> (r: String)
        ensures
            r@ == error_message(*self),
    {
        let mut out: Vec<char> = Vec::new();
        match self {
            SupportError::InvalidTicketPriority => extend_str(&mut out, "invalid ticket priority"),
            SupportError::InvalidTicketStatus => extend_str(&mut out, "invalid ticket status"),
            SupportError::InvalidCategoryColor => extend_str(&mut out, "category color must be a hex value like #4f46e5"),
            SupportError::MetadataTooLarge => extend_str(&mut out, "ticket metadata is too large"),
            SupportError::MetadataNotObject => extend_str(&mut out, "ticket metadata must be a JSON object"),
            SupportError::MetadataInvalidJson => extend_str(&mut out, "ticket metadata must be valid JSON"),
            SupportError::WebhookUrlInvalid => extend_str(&mut out, "discord webhook url is invalid"),
            SupportError::WebhookUrlNotDiscord => extend_str(&mut out, "discord webhook url must be a Discord incoming webhook"),
            SupportError::WebhookUrlRequired => extend_str(&mut out, "discord webhook url is required when webhook delivery is enabled"),
            SupportError::CategoryNameEmpty => extend_str(&mut out, "category name cannot be empty"),
            SupportError::CategoryNotFound => extend_str(&mut out, "category not found"),
            SupportError::TicketNotFound => extend_str(&mut out, "ticket not found"),
            SupportError::AttachmentNotFound => extend_str(&mut out, "attachment not found"),
            SupportError::AttachmentReadFailed => extend_str(&mut out, "failed to read attachment"),
            SupportError::RateLimited => extend_str(&mut out, "ticket creation rate limit reached, please try again in a few minutes"),
            SupportError::TooManyOpenTickets { max_open } => {
                extend_str(&mut out, "you can only have ");
                let n = i64_text(*max_open as i64);
                extend_chars(&mut out, &n);
                extend_str(&mut out, " open support tickets at a time");
            },
            SupportError::SubjectEmpty => extend_str(&mut out, "ticket subject cannot be empty"),
            SupportError::MessageEmpty { context } => match context {
                EmptyMessageContext::NewTicket => extend_str(&mut out, "ticket message cannot be empty"),
                EmptyMessageContext::Reply => extend_str(&mut out, "reply cannot be empty"),
                EmptyMessageContext::StaffMessage => extend_str(&mut out, "message cannot be empty"),
            },
            SupportError::CategoriesDisabled => extend_str(&mut out, "ticket categories are disabled"),
            SupportError::SelectedCategoryNotFound => extend_str(&mut out, "selected category not found"),
            SupportError::SelectedCategoryDisabled => extend_str(&mut out, "selected category is disabled"),
            SupportError::ServerNotAccessible => extend_str(&mut out, "selected server was not found or is not accessible"),
            SupportError::ReplyOnClosed => extend_str(&mut out, "ticket is closed and cannot receive replies"),
            SupportError::ClientCloseDisabled => extend_str(&mut out, "clients cannot close tickets right now"),
            SupportError::OnlyClosedReopen => extend_str(&mut out, "only closed tickets can be reopened"),
            SupportError::ClientStatusNotAllowed => extend_str(&mut out, "clients may only close or reopen tickets"),
            SupportError::AssignedUserNotFound => extend_str(&mut out, "assigned user not found"),
            SupportError::AssignedUserNotStaff => extend_str(&mut out, "assigned user must have support staff permissions"),
            SupportError::InvalidUuid => extend_str(&mut out, "invalid UUID value"),
            SupportError::TooManyAttachments { max } => {
                extend_str(&mut out, "you can upload up to ");
                let n = i64_text(*max as i64);
                extend_chars(&mut out, &n);
                extend_str(&mut out, " attachments per message");
            },
            SupportError::UnsupportedAttachmentType => extend_str(&mut out, "attachments must be PNG, JPEG, GIF, WebP, AVIF, MP4, WebM, OGG, or MOV"),
            SupportError::EmptyAttachment => extend_str(&mut out, "attachments cannot be empty"),
            SupportError::AttachmentTooLarge { video, limit_mib } => {
                if *video {
                    extend_str(&mut out, "video");
                } else {
                    extend_str(&mut out, "image");
                }
                extend_str(&mut out, " attachments must be smaller than ");
                let n = i64_text(*limit_mib as i64);
                extend_chars(&mut out, &n);
                extend_str(&mut out, " MiB");
            },
            SupportError::TotalAttachmentsTooLarge { limit_mib } => {
                extend_str(&mut out, "total attachment size must be smaller than ");
                let n = i64_text(*limit_mib as i64);
                extend_chars(&mut out, &n);
                extend_str(&mut out, " MiB");
            },
            SupportError::StoredSizeOverflow => extend_str(&mut out, "stored attachment size is out of range"),
        }
        proof {
            match self {
                SupportError::TooManyOpenTickets { max_open } => {},
                SupportError::TooManyAttachments { max } => {},
                SupportError::AttachmentTooLarge { video, limit_mib } => {},
                SupportError::TotalAttachmentsTooLarge { limit_mib } => {},
                _ => {},
            }
        }
        string_of(&out)
    }
}

} // verus!
