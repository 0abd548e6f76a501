//! The ticket manager's own rules: normalizing input, validating
//! categories, settings and metadata, and shaping stored rows for the API.
use vstd::prelude::*;

use crate::discord_format::{humanize, humanize_chars};
use crate::error::SupportError;
use crate::discord_webhook::{opt_view, DiscordWebhookConfig};
use crate::ids::{uuid_chars, uuid_text};
use crate::models::{
    priority_from_name, status_from_name, ApiDiscordWebhookSettings, ApiTicketAttachment,
    ApiTicketAuditEvent, ApiTicketCategory, ApiTicketCategorySummary, ApiTicketLinkedServer,
    ApiTicketDetail, ApiTicketMessage, ApiTicketSettings, ApiTicketSummary, ApiTicketUserSummary,
    TicketPriority, TicketStatus,
};
use crate::lifecycle::TicketActor;
use crate::models::{
    ApiTicketServerOption, ClientListTicketsParams, AdminListTicketsParams, ServerStatus,
    TicketActorType,
};
use crate::text::{
    ascii_lowercase, chars_eq_str, chars_of, extend_chars, extend_str, is_ascii_hex,
    is_ascii_hexdigit, starts_with, starts_with_chars, string_of, to_ascii_lowercase_chars, trim,
    trim_chars,
};

verus! {

/// A subject as stored: trimmed.
pub fn normalize_subject(value: &str) -> (r: String)
    ensures
        r@ == trim(value@),
{
    let v = chars_of(value);
    let t = trim_chars(&v);
    string_of(&t)
}

/// A message body as stored: trimmed.
pub fn normalize_body(value: &str) -> (r: String)
    ensures
        r@ == trim(value@),
{
    let v = chars_of(value);
    let t = trim_chars(&v);
    string_of(&t)
}

/// The status named by a text, surrounding whitespace ignored.
pub open spec fn normalized_status(v: Seq<char>) -> Option<TicketStatus> {
    status_from_name(trim(v))
}

/// The status that a request names; unknown names are refused.
pub fn normalize_status(value: &str) -> (r: Result<TicketStatus, SupportError>)
    ensures
        r == (match normalized_status(value@) {
            Some(s) => Ok(s),
            None => Err(SupportError::InvalidTicketStatus),
        }),
{
    let v = chars_of(value);
    let t = trim_chars(&v);
    let ts = string_of(&t);
    match TicketStatus::from_str(ts.as_str()) {
        Some(s) => Ok(s),
        None => Err(SupportError::InvalidTicketStatus),
    }
}

/// The priority that a request names: none when absent or blank, an error
/// for an unknown name.
pub open spec fn normalized_priority(v: Option<Seq<char>>) -> Result<
    Option<TicketPriority>,
    SupportError,
> {
    match v {
        None => Ok(None),
        Some(x) => if trim(x).len() == 0 {
            Ok(None)
        } else {
            match priority_from_name(trim(x)) {
                Some(p) => Ok(Some(p)),
                None => Err(SupportError::InvalidTicketPriority),
            }
        },
    }
}

/// The priority that a request names.
pub fn normalize_priority(value: Option<&str>) -> (r: Result<Option<TicketPriority>, SupportError>)
    ensures
        r == normalized_priority(
            match value {
                Some(v) => Some(v@),
                None => None,
            },
        ),
{
    match value {
        None => Ok(None),
        Some(v) => {
            let cv = chars_of(v);
            let t = trim_chars(&cv);
            if t.len() == 0 {
                return Ok(None);
            }
            let ts = string_of(&t);
            match TicketPriority::from_str(ts.as_str()) {
                Some(p) => Ok(Some(p)),
                None => Err(SupportError::InvalidTicketPriority),
            }
        },
    }
}

/// A stored value such as `waiting_on_staff` rendered as `Waiting On Staff`.
pub fn humanize_ticket_value(value: &str) -> (r: String)
    ensures
        r@ == humanize(value@),
{
    let v = chars_of(value);
    let h = humanize_chars(&v);
    string_of(&h)
}


/// The largest encoded size of client metadata, in bytes.
pub const MAX_METADATA_BYTES: usize = 8192;

/// Client metadata as stored, given the compact JSON text of what the
/// client sent (`None` when nothing was sent): an empty object when absent;
/// an object is kept when its encoding is at most 8192 bytes; anything else
/// is refused. (A compact JSON text is an object exactly when it starts
/// with `{`.)
pub open spec fn normalized_metadata(metadata: Option<&str>) -> Result<Seq<char>, SupportError> {
    match metadata {
        None => Ok("{}"@),
        Some(text) => if text@.len() > 0 && text@[0] == '{' {
            if text.len() > 8192 {
                Err(SupportError::MetadataTooLarge)
            } else {
                Ok(text@)
            }
        } else {
            Err(SupportError::MetadataNotObject)
        },
    }
}

pub fn normalize_metadata(metadata: Option<&str>) -> (r: Result<String, SupportError>)
    ensures
        match r {
            Ok(v) => normalized_metadata(metadata) == Ok::<Seq<char>, SupportError>(v@),
            Err(e) => normalized_metadata(metadata) == Err::<Seq<char>, SupportError>(e),
        },
{
    match metadata {
        None => {
            let v = chars_of("{}");
            let r = string_of(&v);
            assert(r@ == "{}"@);
            assert(normalized_metadata(metadata) == Ok::<Seq<char>, SupportError>("{}"@));
            Ok(r)
        },
        Some(text) => {
            let v = chars_of(text);
            if v.len() > 0 && v[0] == '{' {
                if text.len() > MAX_METADATA_BYTES {
                    Err(SupportError::MetadataTooLarge)
                } else {
                    Ok(string_of(&v))
                }
            } else {
                Err(SupportError::MetadataNotObject)
            }
        },
    }
}

/// The stored metadata of a new ticket, as compact JSON text: the client's
/// metadata under `client` and, when a server is linked, the snapshot of
/// that server under `server`.
pub open spec fn ticket_metadata(client: Seq<char>, server: Option<Seq<char>>) -> Seq<char> {
    match server {
        Some(snapshot) => "{\"client\":"@ + client + ",\"server\":"@ + snapshot + "}"@,
        None => "{\"client\":"@ + client + "}"@,
    }
}

pub fn build_ticket_metadata(client: &str, server: Option<&str>) -> (r: String)
    ensures
        r@ == ticket_metadata(client@, opt_str(server)),
{
    let mut out: Vec<char> = Vec::new();
    extend_str(&mut out, "{\"client\":");
    extend_str(&mut out, client);
    match server {
        Some(snapshot) => {
            extend_str(&mut out, ",\"server\":");
            extend_str(&mut out, snapshot);
        },
        None => {},
    }
    extend_str(&mut out, "}");
    string_of(&out)
}


// ---------------------------------------------------------------------
// Stored rows and their API form.

/// The stored support settings.
pub struct TicketSettingsRow {
    pub uuid: u128,
    pub categories_enabled: bool,
    pub allow_client_close: bool,
    pub allow_reply_on_closed: bool,
    pub create_ticket_rate_limit_hits: i32,
    pub create_ticket_rate_limit_window_seconds: i32,
    pub max_open_tickets_per_user: i32,
    pub discord_webhook_enabled: bool,
    pub discord_webhook_url: Option<String>,
    pub discord_notify_on_ticket_created: bool,
    pub discord_notify_on_client_reply: bool,
    pub discord_notify_on_staff_reply: bool,
    pub discord_notify_on_internal_note: bool,
    pub discord_notify_on_status_change: bool,
    pub discord_notify_on_assignment_change: bool,
    pub discord_notify_on_ticket_deleted: bool,
    pub created: i64,
    pub updated: i64,
}

pub fn to_settings_api(row: &TicketSettingsRow) -> (r: ApiTicketSettings)
    ensures
        r.uuid == row.uuid,
        r.categories_enabled == row.categories_enabled,
        r.allow_client_close == row.allow_client_close,
        r.allow_reply_on_closed == row.allow_reply_on_closed,
        r.create_ticket_rate_limit_hits == row.create_ticket_rate_limit_hits,
        r.create_ticket_rate_limit_window_seconds == row.create_ticket_rate_limit_window_seconds,
        r.max_open_tickets_per_user == row.max_open_tickets_per_user,
        r.created == row.created,
        r.updated == row.updated,
{
    ApiTicketSettings {
        uuid: row.uuid,
        categories_enabled: row.categories_enabled,
        allow_client_close: row.allow_client_close,
        allow_reply_on_closed: row.allow_reply_on_closed,
        create_ticket_rate_limit_hits: row.create_ticket_rate_limit_hits,
        create_ticket_rate_limit_window_seconds: row.create_ticket_rate_limit_window_seconds,
        max_open_tickets_per_user: row.max_open_tickets_per_user,
        created: row.created,
        updated: row.updated,
    }
}

fn clone_opt(o: &Option<String>) -> (r: Option<String>)
    ensures
        opt_view(r) == opt_view(*o),
{
    match o {
        Some(v) => Some(v.clone()),
        None => None,
    }
}

pub fn to_discord_webhook_settings_api(row: &TicketSettingsRow) -> (r: ApiDiscordWebhookSettings)
    ensures
        r.enabled == row.discord_webhook_enabled,
        opt_view(r.webhook_url) == opt_view(row.discord_webhook_url),
        r.notify_on_ticket_created == row.discord_notify_on_ticket_created,
        r.notify_on_client_reply == row.discord_notify_on_client_reply,
        r.notify_on_staff_reply == row.discord_notify_on_staff_reply,
        r.notify_on_internal_note == row.discord_notify_on_internal_note,
        r.notify_on_status_change == row.discord_notify_on_status_change,
        r.notify_on_assignment_change == row.discord_notify_on_assignment_change,
        r.notify_on_ticket_deleted == row.discord_notify_on_ticket_deleted,
{
    ApiDiscordWebhookSettings {
        enabled: row.discord_webhook_enabled,
        webhook_url: clone_opt(&row.discord_webhook_url),
        notify_on_ticket_created: row.discord_notify_on_ticket_created,
        notify_on_client_reply: row.discord_notify_on_client_reply,
        notify_on_staff_reply: row.discord_notify_on_staff_reply,
        notify_on_internal_note: row.discord_notify_on_internal_note,
        notify_on_status_change: row.discord_notify_on_status_change,
        notify_on_assignment_change: row.discord_notify_on_assignment_change,
        notify_on_ticket_deleted: row.discord_notify_on_ticket_deleted,
    }
}

pub fn to_discord_webhook_config(row: &TicketSettingsRow) -> (r: DiscordWebhookConfig)
    ensures
        r.enabled == row.discord_webhook_enabled,
        opt_view(r.webhook_url) == opt_view(row.discord_webhook_url),
        r.notify_on_ticket_created == row.discord_notify_on_ticket_created,
        r.notify_on_client_reply == row.discord_notify_on_client_reply,
        r.notify_on_staff_reply == row.discord_notify_on_staff_reply,
        r.notify_on_internal_note == row.discord_notify_on_internal_note,
        r.notify_on_status_change == row.discord_notify_on_status_change,
        r.notify_on_assignment_change == row.discord_notify_on_assignment_change,
        r.notify_on_ticket_deleted == row.discord_notify_on_ticket_deleted,
{
    DiscordWebhookConfig {
        enabled: row.discord_webhook_enabled,
        webhook_url: clone_opt(&row.discord_webhook_url),
        notify_on_ticket_created: row.discord_notify_on_ticket_created,
        notify_on_client_reply: row.discord_notify_on_client_reply,
        notify_on_staff_reply: row.discord_notify_on_staff_reply,
        notify_on_internal_note: row.discord_notify_on_internal_note,
        notify_on_status_change: row.discord_notify_on_status_change,
        notify_on_assignment_change: row.discord_notify_on_assignment_change,
        notify_on_ticket_deleted: row.discord_notify_on_ticket_deleted,
    }
}

/// A stored category.
pub struct TicketCategoryRow {
    pub uuid: u128,
    pub name: String,
    pub description: Option<String>,
    pub color: Option<String>,
    pub sort_order: i32,
    pub enabled: bool,
    pub created: i64,
    pub updated: i64,
}

pub fn to_category_api(row: TicketCategoryRow) -> (r: ApiTicketCategory)
    ensures
        r.uuid == row.uuid,
        r.name@ == row.name@,
        opt_view(r.description) == opt_view(row.description),
        opt_view(r.color) == opt_view(row.color),
        r.sort_order == row.sort_order,
        r.enabled == row.enabled,
        r.created == row.created,
        r.updated == row.updated,
{
    ApiTicketCategory {
        uuid: row.uuid,
        name: row.name,
        description: row.description,
        color: row.color,
        sort_order: row.sort_order,
        enabled: row.enabled,
        created: row.created,
        updated: row.updated,
    }
}

pub fn to_user_summary(
    uuid: u128,
    username: String,
    name_first: String,
    name_last: String,
    admin: bool,
) -> (r: ApiTicketUserSummary)
    ensures
        r.uuid == uuid,
        r.username@ == username@,
        r.name_first@ == name_first@,
        r.name_last@ == name_last@,
        r.admin == admin,
{
    ApiTicketUserSummary { uuid, username, name_first, name_last, admin }
}

/// The joined columns of a ticket as listed or shown.
pub struct TicketSummaryRow {
    pub uuid: u128,
    pub subject: String,
    pub status: String,
    pub priority: Option<String>,
    pub creator_uuid: u128,
    pub creator_username: String,
    pub creator_name_first: String,
    pub creator_name_last: String,
    pub creator_admin: bool,
    pub category_uuid: Option<u128>,
    pub category_name: Option<String>,
    pub category_color: Option<String>,
    pub assigned_user_uuid: Option<u128>,
    pub assigned_user_username: Option<String>,
    pub assigned_user_name_first: Option<String>,
    pub assigned_user_name_last: Option<String>,
    pub assigned_user_admin: Option<bool>,
    pub linked_server_uuid: Option<u128>,
    pub linked_server_snapshot_name: Option<String>,
    pub linked_server_snapshot_uuid_short: Option<i32>,
    pub linked_server_deleted_at: Option<i64>,
    pub current_server_name: Option<String>,
    pub current_server_uuid_short: Option<i32>,
    pub current_server_status: Option<String>,
    pub current_server_suspended: Option<bool>,
    pub current_server_owner_username: Option<String>,
    pub last_reply_at: Option<i64>,
    pub last_reply_by_type: Option<String>,
    pub created: i64,
    pub updated: i64,
    pub closed_at: Option<i64>,
    /// The number of rows that the listing's filters match, over all pages.
    pub total_count: i64,
}

/// The category summary: present only when both uuid and name are.
pub open spec fn category_summary_of(
    s: Option<ApiTicketCategorySummary>,
    uuid: Option<u128>,
    name: Option<String>,
    color: Option<String>,
) -> bool {
    match (uuid, name) {
        (Some(u), Some(n)) => s matches Some(c) && c.uuid == u && c.name@ == n@ && opt_view(c.color)
            == opt_view(color),
        _ => s is None,
    }
}

/// A ticket filed under a category shows that category, whatever its color
/// (a missing color is shown as missing); without both a uuid and a name
/// there is no category to show.
pub proof fn lemma_category_summary_shown(
    s: Option<ApiTicketCategorySummary>,
    uuid: Option<u128>,
    name: Option<String>,
    color: Option<String>,
)
    requires
        category_summary_of(s, uuid, name, color),
    ensures
        uuid is Some && name is Some ==> s is Some && s->0.uuid == uuid->0 && s->0.name@
            == name->0@ && opt_view(s->0.color) == opt_view(color),
        uuid is None || name is None ==> s is None,
{
}

pub fn optional_category_summary(row: &TicketSummaryRow) -> (r: Option<ApiTicketCategorySummary>)
    ensures
        category_summary_of(r, row.category_uuid, row.category_name, row.category_color),
        row.category_uuid is Some && row.category_name is Some ==> r is Some && r->0.uuid
            == row.category_uuid->0 && r->0.name@ == row.category_name->0@ && opt_view(
            r->0.color,
        ) == opt_view(row.category_color),
        row.category_uuid is None || row.category_name is None ==> r is None,
{
    match (row.category_uuid, &row.category_name) {
        (Some(u), Some(n)) => Some(
            ApiTicketCategorySummary {
                uuid: u,
                name: n.clone(),
                color: clone_opt(&row.category_color),
            },
        ),
        _ => None,
    }
}

/// The assigned user: present only when uuid, username and both names
/// are; an unknown admin flag counts as not admin.
pub open spec fn assigned_user_of(
    s: Option<ApiTicketUserSummary>,
    uuid: Option<u128>,
    username: Option<String>,
    name_first: Option<String>,
    name_last: Option<String>,
    admin: Option<bool>,
) -> bool {
    if uuid is Some && username is Some && name_first is Some && name_last is Some {
        s matches Some(a) && a.uuid == uuid->0 && a.username@ == username->0@ && a.name_first@
            == name_first->0@ && a.name_last@ == name_last->0@ && a.admin == (admin == Some(true))
    } else {
        s is None
    }
}

pub fn optional_assigned_user(row: &TicketSummaryRow) -> (r: Option<ApiTicketUserSummary>)
    ensures
        assigned_user_of(
            r,
            row.assigned_user_uuid,
            row.assigned_user_username,
            row.assigned_user_name_first,
            row.assigned_user_name_last,
            row.assigned_user_admin,
        ),
{
    match (
        row.assigned_user_uuid,
        &row.assigned_user_username,
        &row.assigned_user_name_first,
        &row.assigned_user_name_last,
    ) {
        (Some(u), Some(n), Some(f), Some(l)) => Some(
            to_user_summary(
                u,
                n.clone(),
                f.clone(),
                l.clone(),
                match row.assigned_user_admin {
                    Some(a) => a,
                    None => false,
                },
            ),
        ),
        _ => None,
    }
}

pub open spec fn linked_server_of(l: ApiTicketLinkedServer, row: TicketSummaryRow) -> bool {
    &&& l.uuid == row.linked_server_uuid
    &&& opt_view(l.snapshot_name) == opt_view(row.linked_server_snapshot_name)
    &&& l.snapshot_uuid_short == row.linked_server_snapshot_uuid_short
    &&& l.deleted_at == row.linked_server_deleted_at
    &&& opt_view(l.current_name) == opt_view(row.current_server_name)
    &&& l.current_uuid_short == row.current_server_uuid_short
    &&& opt_view(l.current_status) == opt_view(row.current_server_status)
    &&& l.current_is_suspended == row.current_server_suspended
    &&& opt_view(l.current_owner_username) == opt_view(row.current_server_owner_username)
}

pub fn to_linked_server_summary(row: &TicketSummaryRow) -> (r: ApiTicketLinkedServer)
    ensures
        linked_server_of(r, *row),
{
    ApiTicketLinkedServer {
        uuid: row.linked_server_uuid,
        snapshot_name: clone_opt(&row.linked_server_snapshot_name),
        snapshot_uuid_short: row.linked_server_snapshot_uuid_short,
        deleted_at: row.linked_server_deleted_at,
        current_name: clone_opt(&row.current_server_name),
        current_uuid_short: row.current_server_uuid_short,
        current_status: clone_opt(&row.current_server_status),
        current_is_suspended: row.current_server_suspended,
        current_owner_username: clone_opt(&row.current_server_owner_username),
    }
}

/// The API form of a ticket row.
pub open spec fn summary_of(s: ApiTicketSummary, row: TicketSummaryRow) -> bool {
    &&& s.uuid == row.uuid
    &&& s.subject@ == row.subject@
    &&& s.status@ == row.status@
    &&& opt_view(s.priority) == opt_view(row.priority)
    &&& s.creator.uuid == row.creator_uuid
    &&& s.creator.username@ == row.creator_username@
    &&& s.creator.name_first@ == row.creator_name_first@
    &&& s.creator.name_last@ == row.creator_name_last@
    &&& s.creator.admin == row.creator_admin
    &&& category_summary_of(s.category, row.category_uuid, row.category_name, row.category_color)
    &&& assigned_user_of(
        s.assigned_user,
        row.assigned_user_uuid,
        row.assigned_user_username,
        row.assigned_user_name_first,
        row.assigned_user_name_last,
        row.assigned_user_admin,
    )
    &&& linked_server_of(s.linked_server, row)
    &&& s.last_reply_at == row.last_reply_at
    &&& opt_view(s.last_reply_by_type) == opt_view(row.last_reply_by_type)
    &&& s.created == row.created
    &&& s.updated == row.updated
    &&& s.closed_at == row.closed_at
}

pub fn to_ticket_summary(row: TicketSummaryRow) -> (r: ApiTicketSummary)
    ensures
        summary_of(r, row),
        row.category_uuid is Some && row.category_name is Some ==> r.category is Some
            && r.category->0.uuid == row.category_uuid->0 && r.category->0.name@
            == row.category_name->0@ && opt_view(r.category->0.color) == opt_view(
            row.category_color,
        ),
{
    let category = optional_category_summary(&row);
    let assigned_user = optional_assigned_user(&row);
    let linked_server = to_linked_server_summary(&row);
    let last_reply_by_type = clone_opt(&row.last_reply_by_type);
    ApiTicketSummary {
        uuid: row.uuid,
        subject: row.subject,
        status: row.status,
        priority: row.priority,
        creator: to_user_summary(
            row.creator_uuid,
            row.creator_username,
            row.creator_name_first,
            row.creator_name_last,
            row.creator_admin,
        ),
        category,
        assigned_user,
        linked_server,
        last_reply_at: row.last_reply_at,
        last_reply_by_type,
        created: row.created,
        updated: row.updated,
        closed_at: row.closed_at,
    }
}


/// Whose download route an attachment link points to.
#[derive(Clone, Copy, PartialEq, Eq, Structural, Debug)]
pub enum AttachmentUrlScope {
    Client,
    Admin,
}

/// The download path of an attachment in the client or admin API.
pub open spec fn attachment_url(scope: AttachmentUrlScope, ticket: u128, attachment: u128) -> Seq<
    char,
> {
    (match scope {
        AttachmentUrlScope::Client => "/api/client/support/tickets/"@,
        AttachmentUrlScope::Admin => "/api/admin/support/tickets/"@,
    }) + uuid_text(ticket) + "/attachments/"@ + uuid_text(attachment)
}

pub fn build_attachment_url(scope: AttachmentUrlScope, ticket_uuid: u128, attachment_uuid: u128) -> (r:
    String)
    ensures
        r@ == attachment_url(scope, ticket_uuid, attachment_uuid),
{
    let mut v = match scope {
        AttachmentUrlScope::Client => chars_of("/api/client/support/tickets/"),
        AttachmentUrlScope::Admin => chars_of("/api/admin/support/tickets/"),
    };
    let t = uuid_chars(ticket_uuid);
    extend_chars(&mut v, &t);
    extend_str(&mut v, "/attachments/");
    let a = uuid_chars(attachment_uuid);
    extend_chars(&mut v, &a);
    string_of(&v)
}

/// Where an attachment's bytes are stored.
pub open spec fn attachment_storage_path(
    ticket: u128,
    message: u128,
    attachment: u128,
    original_name: Seq<char>,
) -> Seq<char> {
    "support/tickets/"@ + uuid_text(ticket) + "/messages/"@ + uuid_text(message) + "/"@ + uuid_text(
        attachment,
    ) + "_"@ + original_name
}

pub fn build_attachment_storage_path(
    ticket_uuid: u128,
    message_uuid: u128,
    attachment_uuid: u128,
    original_name: &str,
) -> (r: String)
    ensures
        r@ == attachment_storage_path(ticket_uuid, message_uuid, attachment_uuid, original_name@),
{
    let mut v = chars_of("support/tickets/");
    let t = uuid_chars(ticket_uuid);
    extend_chars(&mut v, &t);
    extend_str(&mut v, "/messages/");
    let m = uuid_chars(message_uuid);
    extend_chars(&mut v, &m);
    extend_str(&mut v, "/");
    let a = uuid_chars(attachment_uuid);
    extend_chars(&mut v, &a);
    extend_str(&mut v, "_");
    let n = chars_of(original_name);
    extend_chars(&mut v, &n);
    string_of(&v)
}

/// A stored attachment.
pub struct TicketAttachmentRow {
    pub uuid: u128,
    pub message_uuid: u128,
    pub original_name: String,
    pub content_type: String,
    pub media_type: String,
    pub size: i64,
    pub created: i64,
}

/// An attachment as the API shows it: its fields and its download link.
pub open spec fn attachment_of(
    a: ApiTicketAttachment,
    row: TicketAttachmentRow,
    ticket: u128,
    scope: AttachmentUrlScope,
) -> bool {
    &&& a.uuid == row.uuid
    &&& a.original_name@ == row.original_name@
    &&& a.content_type@ == row.content_type@
    &&& a.media_type@ == row.media_type@
    &&& a.size == row.size
    &&& a.url@ == attachment_url(scope, ticket, row.uuid)
    &&& a.created == row.created
}

pub fn to_ticket_attachment(row: &TicketAttachmentRow, ticket_uuid: u128, scope: AttachmentUrlScope) -> (r:
    ApiTicketAttachment)
    ensures
        attachment_of(r, *row, ticket_uuid, scope),
{
    ApiTicketAttachment {
        uuid: row.uuid,
        original_name: row.original_name.clone(),
        content_type: row.content_type.clone(),
        media_type: row.media_type.clone(),
        size: row.size,
        url: build_attachment_url(scope, ticket_uuid, row.uuid),
        created: row.created,
    }
}

/// A stored message, with the author's avatar already resolved to a URL.
pub struct TicketMessageRow {
    pub uuid: u128,
    pub author_user_uuid: Option<u128>,
    pub author_snapshot_username: String,
    pub author_snapshot_display_name: String,
    pub author_avatar_url: Option<String>,
    pub author_type: String,
    pub body: String,
    pub is_internal: bool,
    pub created: i64,
    pub updated: i64,
}

/// The messages a reader sees, in order: all of them for staff, only the
/// public ones otherwise.
pub open spec fn visible_messages(messages: Seq<TicketMessageRow>, include_internal: bool) -> Seq<
    TicketMessageRow,
>
    decreases messages.len(),
{
    if messages.len() == 0 {
        messages
    } else {
        let init = visible_messages(messages.drop_last(), include_internal);
        if include_internal || !messages.last().is_internal {
            init.push(messages.last())
        } else {
            init
        }
    }
}

/// A reader without access to internal notes never sees one.
pub proof fn lemma_no_internal_without_access(messages: Seq<TicketMessageRow>)
    ensures
        forall|i: int|
            0 <= i < visible_messages(messages, false).len() ==> !(#[trigger] visible_messages(
                messages,
                false,
            )[i]).is_internal,
    decreases messages.len(),
{
    if messages.len() > 0 {
        lemma_no_internal_without_access(messages.drop_last());
    }
}

/// Staff see every message.
pub proof fn lemma_staff_see_all(messages: Seq<TicketMessageRow>)
    ensures
        visible_messages(messages, true) == messages,
    decreases messages.len(),
{
    if messages.len() > 0 {
        lemma_staff_see_all(messages.drop_last());
        assert(messages.drop_last().push(messages.last()) =~= messages);
    }
}

pub fn select_visible_messages(messages: Vec<TicketMessageRow>, include_internal: bool) -> (r: Vec<
    TicketMessageRow,
>)
    ensures
        r@ == visible_messages(messages@, include_internal),
{
    let ghost orig = messages@;
    let mut rest = messages;
    let mut kept: Vec<TicketMessageRow> = Vec::new();
    let ghost mut taken: Seq<TicketMessageRow> = Seq::empty();
    while rest.len() > 0
        invariant
            taken.len() + rest@.len() == orig.len(),
            taken == orig.take(taken.len() as int),
            rest@ == orig.skip(taken.len() as int),
            kept@ == visible_messages(taken, include_internal),
        decreases rest@.len(),
    {
        let ghost k = taken.len();
        let m = rest.remove(0);
        assert(m == orig[k as int]);
        assert(rest@ == orig.skip((k + 1) as int));
        let ghost before = taken;
        proof {
            taken = taken.push(m);
        }
        assert(taken == orig.take((k + 1) as int));
        assert(taken.drop_last() == before);
        if include_internal || !m.is_internal {
            kept.push(m);
        }
    }
    assert(taken == orig);
    kept
}

/// A message as the API shows it (without its attachments).
pub open spec fn message_of(m: ApiTicketMessage, row: TicketMessageRow) -> bool {
    &&& m.uuid == row.uuid
    &&& m.author_user_uuid == row.author_user_uuid
    &&& m.author_username@ == row.author_snapshot_username@
    &&& m.author_display_name@ == row.author_snapshot_display_name@
    &&& opt_view(m.author_avatar) == opt_view(row.author_avatar_url)
    &&& m.author_type@ == row.author_type@
    &&& m.body@ == row.body@
    &&& m.is_internal == row.is_internal
    &&& m.created == row.created
    &&& m.updated == row.updated
}

pub fn to_ticket_message(row: &TicketMessageRow, attachments: Vec<ApiTicketAttachment>) -> (r:
    ApiTicketMessage)
    ensures
        message_of(r, *row),
        r.attachments@ == attachments@,
{
    ApiTicketMessage {
        uuid: row.uuid,
        author_user_uuid: row.author_user_uuid,
        author_username: row.author_snapshot_username.clone(),
        author_display_name: row.author_snapshot_display_name.clone(),
        author_avatar: clone_opt(&row.author_avatar_url),
        author_type: row.author_type.clone(),
        body: row.body.clone(),
        is_internal: row.is_internal,
        attachments,
        created: row.created,
        updated: row.updated,
    }
}

/// The attachments of one message, in their stored order.
pub open spec fn attachments_of(atts: Seq<TicketAttachmentRow>, message: u128) -> Seq<
    TicketAttachmentRow,
>
    decreases atts.len(),
{
    if atts.len() == 0 {
        atts
    } else {
        let init = attachments_of(atts.drop_last(), message);
        if atts.last().message_uuid == message {
            init.push(atts.last())
        } else {
            init
        }
    }
}

/// The attachments shown under message `k`: those of its uuid, unless an
/// earlier message has the same uuid (which took them).
pub open spec fn attachments_shown(
    atts: Seq<TicketAttachmentRow>,
    msgs: Seq<TicketMessageRow>,
    k: int,
) -> Seq<TicketAttachmentRow> {
    if exists|j: int| 0 <= j < k && (#[trigger] msgs[j]).uuid == msgs[k].uuid {
        Seq::empty()
    } else {
        attachments_of(atts, msgs[k].uuid)
    }
}

fn attachments_for_message(
    atts: &Vec<TicketAttachmentRow>,
    message: u128,
    ticket_uuid: u128,
    scope: AttachmentUrlScope,
) -> (r: Vec<ApiTicketAttachment>)
    ensures
        r@.len() == attachments_of(atts@, message).len(),
        forall|i: int|
            0 <= i < r@.len() ==> attachment_of(
                #[trigger] r@[i],
                attachments_of(atts@, message)[i],
                ticket_uuid,
                scope,
            ),
{
    let mut r: Vec<ApiTicketAttachment> = Vec::new();
    let mut i: usize = 0;
    while i < atts.len()
        invariant
            i <= atts.len(),
            r@.len() == attachments_of(atts@.take(i as int), message).len(),
            forall|j: int|
                0 <= j < r@.len() ==> attachment_of(
                    #[trigger] r@[j],
                    attachments_of(atts@.take(i as int), message)[j],
                    ticket_uuid,
                    scope,
                ),
        decreases atts.len() - i,
    {
        assert(atts@.take(i + 1).drop_last() == atts@.take(i as int));
        assert(atts@.take(i + 1).last() == atts@[i as int]);
        if atts[i].message_uuid == message {
            let a = to_ticket_attachment(&atts[i], ticket_uuid, scope);
            r.push(a);
        }
        i = i + 1;
    }
    assert(atts@.take(atts.len() as int) == atts@);
    r
}

/// The messages of a ticket with their attachments grouped under them.
pub fn assemble_messages(
    messages: &Vec<TicketMessageRow>,
    attachments: &Vec<TicketAttachmentRow>,
    ticket_uuid: u128,
    scope: AttachmentUrlScope,
) -> (r: Vec<ApiTicketMessage>)
    ensures
        r@.len() == messages@.len(),
        forall|k: int|
            0 <= k < r@.len() ==> {
                &&& message_of(#[trigger] r@[k], messages@[k])
                &&& r@[k].attachments@.len() == attachments_shown(attachments@, messages@, k).len()
                &&& forall|i: int|
                    0 <= i < r@[k].attachments@.len() ==> attachment_of(
                        #[trigger] r@[k].attachments@[i],
                        attachments_shown(attachments@, messages@, k)[i],
                        ticket_uuid,
                        scope,
                    )
            },
{
    let mut out: Vec<ApiTicketMessage> = Vec::new();
    let mut k: usize = 0;
    while k < messages.len()
        invariant
            k <= messages.len(),
            out@.len() == k,
            forall|q: int|
                0 <= q < k ==> {
                    &&& message_of(#[trigger] out@[q], messages@[q])
                    &&& out@[q].attachments@.len() == attachments_shown(
                        attachments@,
                        messages@,
                        q,
                    ).len()
                    &&& forall|i: int|
                        0 <= i < out@[q].attachments@.len() ==> attachment_of(
                            #[trigger] out@[q].attachments@[i],
                            attachments_shown(attachments@, messages@, q)[i],
                            ticket_uuid,
                            scope,
                        )
                },
        decreases messages.len() - k,
    {
        let uuid = messages[k].uuid;
        let mut seen = false;
        let mut j: usize = 0;
        while j < k
            invariant
                j <= k,
                k < messages.len(),
                uuid == messages@[k as int].uuid,
                seen <==> exists|q: int| 0 <= q < j && (#[trigger] messages@[q]).uuid == uuid,
            decreases k - j,
        {
            if messages[j].uuid == uuid {
                seen = true;
            }
            j = j + 1;
        }
        let list = if seen {
            Vec::new()
        } else {
            attachments_for_message(attachments, uuid, ticket_uuid, scope)
        };
        let m = to_ticket_message(&messages[k], list);
        out.push(m);
        k = k + 1;
    }
    out
}

/// A stored audit event.
pub struct TicketAuditRow {
    pub uuid: u128,
    pub actor_user_uuid: Option<u128>,
    pub actor_snapshot_username: Option<String>,
    pub actor_type: String,
    pub event: String,
    pub payload: String,
    pub created: i64,
}

pub fn to_ticket_audit(row: TicketAuditRow) -> (r: ApiTicketAuditEvent)
    ensures
        r.uuid == row.uuid,
        r.actor_user_uuid == row.actor_user_uuid,
        opt_view(r.actor_username) == opt_view(row.actor_snapshot_username),
        r.actor_type@ == row.actor_type@,
        r.event@ == row.event@,
        r.payload@ == row.payload@,
        r.created == row.created,
{
    ApiTicketAuditEvent {
        uuid: row.uuid,
        actor_user_uuid: row.actor_user_uuid,
        actor_username: row.actor_snapshot_username,
        actor_type: row.actor_type,
        event: row.event,
        payload: row.payload,
        created: row.created,
    }
}

/// A ticket's detail: its row, metadata, messages (with attachments) and,
/// for staff, its audit events.
pub fn assemble_ticket_detail(
    row: TicketSummaryRow,
    metadata: String,
    messages: Vec<ApiTicketMessage>,
    audit_events: Vec<ApiTicketAuditEvent>,
) -> (r: ApiTicketDetail)
    ensures
        summary_of(r.ticket, row),
        r.metadata@ == metadata@,
        r.messages@ == messages@,
        r.audit_events@ == audit_events@,
{
    ApiTicketDetail { ticket: to_ticket_summary(row), metadata, messages, audit_events }
}


// ---------------------------------------------------------------------
// Categories.

/// A category color: after trimming, `#` followed by three or six hex
/// digits. (Its length may be counted in bytes or in characters: a text
/// that passes the other tests is all ASCII, so both decide the same.)
pub open spec fn valid_category_color(color: Seq<char>) -> bool {
    let t = trim(color);
    &&& (t.len() == 7 || t.len() == 4)
    &&& t[0] == '#'
    &&& forall|i: int| 1 <= i < t.len() ==> is_ascii_hex(#[trigger] t[i])
}

pub fn validate_category_color(color: Option<&str>) -> (r: Result<(), SupportError>)
    ensures
        r is Ok <==> match color {
            Some(c) => valid_category_color(c@),
            None => true,
        },
        r is Err ==> r == Err::<(), SupportError>(SupportError::InvalidCategoryColor),
{
    let c = match color {
        Some(c) => c,
        None => return Ok(()),
    };
    let cv = chars_of(c);
    let t = trim_chars(&cv);
    if !(t.len() == 7 || t.len() == 4) || t[0] != '#' {
        return Err(SupportError::InvalidCategoryColor);
    }
    let mut i: usize = 1;
    while i < t.len()
        invariant
            1 <= i <= t.len(),
            t@ == trim(c@),
            color == Some(c),
            forall|j: int| 1 <= j < i ==> is_ascii_hex(#[trigger] t@[j]),
        decreases t.len() - i,
    {
        if !is_ascii_hexdigit(t[i]) {
            assert(!is_ascii_hex(trim(c@)[i as int]));
            assert(!valid_category_color(c@));
            return Err(SupportError::InvalidCategoryColor);
        }
        i = i + 1;
    }
    Ok(())
}

/// A text that counts only when it is not blank: the trimmed text, or none.
pub open spec fn non_blank(o: Option<Seq<char>>) -> Option<Seq<char>> {
    match o {
        Some(v) => if trim(v).len() == 0 {
            None
        } else {
            Some(trim(v))
        },
        None => None,
    }
}

pub open spec fn opt_str(o: Option<&str>) -> Option<Seq<char>> {
    match o {
        Some(v) => Some(v@),
        None => None,
    }
}

pub open spec fn opt_string(o: Option<String>) -> Option<Seq<char>> {
    match o {
        Some(v) => Some(v@),
        None => None,
    }
}

fn non_blank_str(o: Option<&str>) -> (r: Option<String>)
    ensures
        opt_view(r) == non_blank(opt_str(o)),
{
    match o {
        Some(v) => {
            let cv = chars_of(v);
            let t = trim_chars(&cv);
            if t.len() == 0 {
                None
            } else {
                Some(string_of(&t))
            }
        },
        None => None,
    }
}

/// The fields of a category as stored.
pub struct CategoryInput {
    pub name: String,
    pub description: Option<String>,
    pub color: Option<String>,
}

/// Why a category definition is refused, if it is.
pub open spec fn category_input_error(name: Seq<char>, color: Option<&str>) -> Option<SupportError> {
    if color is Some && !valid_category_color(color->0@) {
        Some(SupportError::InvalidCategoryColor)
    } else if trim(name).len() == 0 {
        Some(SupportError::CategoryNameEmpty)
    } else {
        None
    }
}

/// A category definition as stored: a valid color, a non-blank trimmed
/// name, and description and color trimmed, blank ones dropped.
pub fn prepare_category(name: &str, description: Option<&str>, color: Option<&str>) -> (r: Result<
    CategoryInput,
    SupportError,
>)
    ensures
        match r {
            Ok(c) => {
                &&& category_input_error(name@, color) is None
                &&& c.name@ == trim(name@)
                &&& opt_view(c.description) == non_blank(opt_str(description))
                &&& opt_view(c.color) == non_blank(opt_str(color))
            },
            Err(e) => category_input_error(name@, color) == Some(e),
        },
{
    match validate_category_color(color) {
        Ok(()) => {},
        Err(e) => return Err(e),
    }
    let nv = chars_of(name);
    let nt = trim_chars(&nv);
    if nt.len() == 0 {
        return Err(SupportError::CategoryNameEmpty);
    }
    Ok(
        CategoryInput {
            name: string_of(&nt),
            description: non_blank_str(description),
            color: non_blank_str(color),
        },
    )
}

// ---------------------------------------------------------------------
// Settings.

/// The host and path that `reqwest::Url::parse` reads from a text, or none
/// when the text is not a URL. The host is absent for URLs without one.
pub uninterp spec fn url_host_and_path(s: Seq<char>) -> Option<(Option<Seq<char>>, Seq<char>)>;

/// Reads the host and path of a URL (`reqwest::Url::parse`, `host_str`, `path`).
#[verifier::external_body]
fn parse_url_host_and_path(s: &str) -> (r: Option<(Option<String>, String)>)
    ensures
        match r {
            Some((h, p)) => url_host_and_path(s@) == Some((opt_view(h), p@)),
            None => url_host_and_path(s@) is None,
        },
{
    match reqwest::Url::parse(s) {
        Ok(u) => Some((u.host_str().map(|h| h.to_string()), u.path().to_string())),
        Err(_) => None,
    }
}

/// The hosts that serve Discord incoming webhooks.
pub open spec fn discord_host(h: Seq<char>) -> bool {
    ||| h == "discord.com"@
    ||| h == "canary.discord.com"@
    ||| h == "ptb.discord.com"@
    ||| h == "discordapp.com"@
    ||| h == "canary.discordapp.com"@
    ||| h == "ptb.discordapp.com"@
}

/// The hosts that serve Discord incoming webhooks, written out.
pub open spec fn is_listed_discord_host(h: Seq<char>) -> bool {
    h == "discord.com"@ || h == "canary.discord.com"@ || h == "ptb.discord.com"@ || h
        == "discordapp.com"@ || h == "canary.discordapp.com"@ || h == "ptb.discordapp.com"@
}

/// The verdict on a non-blank webhook URL given what the URL parser read:
/// it must parse, its host (lower-cased) must be a Discord host, and its
/// path must start with `/api/webhooks/`.
pub open spec fn webhook_url_verdict(
    trimmed: Seq<char>,
    parts: Option<(Option<Seq<char>>, Seq<char>)>,
) -> Result<Option<Seq<char>>, SupportError> {
    match parts {
        None => Err(SupportError::WebhookUrlInvalid),
        Some((host, path)) => {
            let h = ascii_lowercase(
                match host {
                    Some(h) => h,
                    None => Seq::empty(),
                },
            );
            if discord_host(h) && starts_with(path, "/api/webhooks/"@) {
                Ok(Some(trimmed))
            } else {
                Err(SupportError::WebhookUrlNotDiscord)
            }
        },
    }
}

/// Every Discord webhook URL is taken: on any of the six Discord hosts
/// (`discord.com`, `canary.discord.com`, `ptb.discord.com`,
/// `discordapp.com`, `canary.discordapp.com`, `ptb.discordapp.com`), with a
/// path under `/api/webhooks/`, the trimmed URL is kept as it is. And only
/// those are taken: a URL that is kept has one of these hosts (in any
/// letter case) and such a path.
pub proof fn lemma_discord_webhooks_accepted(
    trimmed: Seq<char>,
    host: Option<Seq<char>>,
    path: Seq<char>,
)
    ensures
        host matches Some(h) && is_listed_discord_host(h) && starts_with(path, "/api/webhooks/"@)
            ==> webhook_url_verdict(trimmed, Some((host, path))) == Ok::<
            Option<Seq<char>>,
            SupportError,
        >(Some(trimmed)),
        webhook_url_verdict(trimmed, Some((host, path))) is Ok ==> host is Some
            && is_listed_discord_host(ascii_lowercase(host->0)) && starts_with(
            path,
            "/api/webhooks/"@,
        ),
        webhook_url_verdict(trimmed, None) == Err::<Option<Seq<char>>, SupportError>(
            SupportError::WebhookUrlInvalid,
        ),
{
    reveal_strlit("discord.com");
    reveal_strlit("canary.discord.com");
    reveal_strlit("ptb.discord.com");
    reveal_strlit("discordapp.com");
    reveal_strlit("canary.discordapp.com");
    reveal_strlit("ptb.discordapp.com");
    if let Some(h) = host {
        if is_listed_discord_host(h) {
            assert(ascii_lowercase(h) =~= h) by {
                assert forall|i: int| 0 <= i < h.len() implies ascii_lowercase(h)[i] == h[i] by {
                    assert(!('A' <= h[i] && h[i] <= 'Z'));
                }
            }
        }
    } else {
        reveal_strlit("");
        assert(ascii_lowercase(Seq::<char>::empty()) =~= Seq::<char>::empty());
        assert(!is_listed_discord_host(Seq::<char>::empty()));
    }
}

/// The webhook URL as stored: none when blank, otherwise the trimmed URL
/// when it is a Discord incoming webhook.
pub open spec fn normalized_webhook_url(v: Option<Seq<char>>) -> Result<
    Option<Seq<char>>,
    SupportError,
> {
    match non_blank(v) {
        None => Ok(None),
        Some(t) => webhook_url_verdict(t, url_host_and_path(t)),
    }
}

pub open spec fn opt_result_view(r: Result<Option<String>, SupportError>) -> Result<
    Option<Seq<char>>,
    SupportError,
> {
    match r {
        Ok(o) => Ok(opt_view(o)),
        Err(e) => Err(e),
    }
}

/// Decides on a non-blank webhook URL given what the URL parser read.
pub fn check_discord_webhook_url(trimmed: &str, parts: Option<(Option<String>, String)>) -> (r:
    Result<Option<String>, SupportError>)
    ensures
        opt_result_view(r) == webhook_url_verdict(
            trimmed@,
            match parts {
                Some((h, p)) => Some((opt_view(h), p@)),
                None => None,
            },
        ),
{
    match parts {
        None => Err(SupportError::WebhookUrlInvalid),
        Some((host, path)) => {
            let hv = match &host {
                Some(h) => chars_of(h.as_str()),
                None => Vec::new(),
            };
            let h = to_ascii_lowercase_chars(&hv);
            let is_discord = chars_eq_str(&h, "discord.com") || chars_eq_str(&h, "canary.discord.com")
                || chars_eq_str(&h, "ptb.discord.com") || chars_eq_str(&h, "discordapp.com")
                || chars_eq_str(&h, "canary.discordapp.com") || chars_eq_str(
                &h,
                "ptb.discordapp.com",
            );
            let pv = chars_of(path.as_str());
            let prefix = chars_of("/api/webhooks/");
            if is_discord && starts_with_chars(&pv, &prefix) {
                let tv = chars_of(trimmed);
                Ok(Some(string_of(&tv)))
            } else {
                Err(SupportError::WebhookUrlNotDiscord)
            }
        },
    }
}

/// The Discord webhook URL to store.
pub fn normalize_discord_webhook_url(value: Option<&str>) -> (r: Result<Option<String>, SupportError>)
    ensures
        opt_result_view(r) == normalized_webhook_url(opt_str(value)),
{
    let trimmed = match non_blank_str(value) {
        Some(t) => t,
        None => return Ok(None),
    };
    let parts = parse_url_host_and_path(trimmed.as_str());
    check_discord_webhook_url(trimmed.as_str(), parts)
}

/// The webhook URL to store with new settings: delivery cannot be enabled
/// without a URL.
pub open spec fn settings_webhook_url(enabled: bool, url: Option<Seq<char>>) -> Result<
    Option<Seq<char>>,
    SupportError,
> {
    match normalized_webhook_url(url) {
        Err(e) => Err(e),
        Ok(u) => if enabled && u is None {
            Err(SupportError::WebhookUrlRequired)
        } else {
            Ok(u)
        },
    }
}

pub fn prepare_settings_webhook_url(enabled: bool, url: Option<&str>) -> (r: Result<
    Option<String>,
    SupportError,
>)
    ensures
        opt_result_view(r) == settings_webhook_url(enabled, opt_str(url)),
{
    let u = match normalize_discord_webhook_url(url) {
        Ok(u) => u,
        Err(e) => return Err(e),
    };
    if enabled && u.is_none() {
        return Err(SupportError::WebhookUrlRequired);
    }
    Ok(u)
}


// ---------------------------------------------------------------------
// Listing tickets.

/// The filters, order window and owner of a ticket listing.
pub struct TicketListFilter {
    /// Only tickets opened by this user (client listings).
    pub creator_uuid: Option<u128>,
    /// Matched against subject, creator username and linked server name.
    pub search: Option<String>,
    pub status: Option<TicketStatus>,
    pub category_uuid: Option<u128>,
    pub assigned_user_uuid: Option<u128>,
    /// Matched against the creator's username and email.
    pub client: Option<String>,
    /// Matched against the linked server's name.
    pub server: Option<String>,
    pub priority: Option<TicketPriority>,
    pub limit: i64,
    pub offset: i64,
}

/// The page window of a listing is representable.
pub open spec fn page_window_ok(page: i64, per_page: i64) -> bool {
    1 <= page && 1 <= per_page && (page - 1) * per_page <= i64::MAX
}

fn non_blank_string(o: &Option<String>) -> (r: Option<String>)
    ensures
        opt_view(r) == non_blank(opt_string(*o)),
{
    match o {
        Some(v) => non_blank_str(Some(v.as_str())),
        None => non_blank_str(None),
    }
}

fn page_offset(page: i64, per_page: i64) -> (r: i64)
    requires
        page_window_ok(page, per_page),
    ensures
        r == (page - 1) * per_page,
{
    assert(0 <= (page - 1) * per_page) by (nonlinear_arith)
        requires
            1 <= page,
            1 <= per_page,
    ;
    (page - 1) * per_page
}

/// A status filter: none when absent or blank, refused when unknown.
pub open spec fn status_filter(v: Option<Seq<char>>) -> Result<Option<TicketStatus>, SupportError> {
    match non_blank(v) {
        None => Ok(None),
        Some(t) => match normalized_status(t) {
            Some(s) => Ok(Some(s)),
            None => Err(SupportError::InvalidTicketStatus),
        },
    }
}

fn status_filter_of(v: &Option<String>) -> (r: Result<Option<TicketStatus>, SupportError>)
    ensures
        r == status_filter(opt_string(*v)),
{
    match non_blank_string(v) {
        None => Ok(None),
        Some(t) => {
            proof {
                crate::text::lemma_trim_idempotent(t@);
            }
            match normalize_status(t.as_str()) {
                Ok(s) => Ok(Some(s)),
                Err(e) => Err(e),
            }
        },
    }
}

/// The filter of a client's listing of their own tickets.
pub open spec fn client_filter_ok(f: TicketListFilter, user_uuid: u128, p: ClientListTicketsParams) -> bool {
    &&& f.creator_uuid == Some(user_uuid)
    &&& opt_view(f.search) == non_blank(opt_string(p.search))
    &&& status_filter(opt_string(p.status)) == Ok::<Option<TicketStatus>, SupportError>(f.status)
    &&& f.category_uuid is None
    &&& f.assigned_user_uuid is None
    &&& f.client is None
    &&& f.server is None
    &&& f.priority is None
    &&& f.limit == p.per_page
    &&& f.offset == (p.page - 1) * p.per_page
}

/// A client's listing of their own tickets, newest activity first.
pub fn client_ticket_filter(user_uuid: u128, params: &ClientListTicketsParams) -> (r: Result<
    TicketListFilter,
    SupportError,
>)
    requires
        page_window_ok(params.page, params.per_page),
    ensures
        match r {
            Ok(f) => client_filter_ok(f, user_uuid, *params),
            Err(e) => status_filter(opt_string(params.status)) == Err::<
                Option<TicketStatus>,
                SupportError,
            >(e),
        },
{
    let search = non_blank_string(&params.search);
    let status = match status_filter_of(&params.status) {
        Ok(s) => s,
        Err(e) => return Err(e),
    };
    Ok(
        TicketListFilter {
            creator_uuid: Some(user_uuid),
            search,
            status,
            category_uuid: None,
            assigned_user_uuid: None,
            client: None,
            server: None,
            priority: None,
            limit: params.per_page,
            offset: page_offset(params.page, params.per_page),
        },
    )
}

/// Why a staff listing is refused, if it is: an unknown status, then an
/// unknown priority.
pub open spec fn admin_filter_error(p: AdminListTicketsParams) -> Option<SupportError> {
    match status_filter(opt_string(p.status)) {
        Err(e) => Some(e),
        Ok(_) => match normalized_priority(opt_string(p.priority)) {
            Err(e) => Some(e),
            Ok(_) => None,
        },
    }
}

/// The filter of a staff listing of all tickets.
pub open spec fn admin_filter_ok(f: TicketListFilter, p: AdminListTicketsParams) -> bool {
    &&& f.creator_uuid is None
    &&& opt_view(f.search) == non_blank(opt_string(p.search))
    &&& status_filter(opt_string(p.status)) == Ok::<Option<TicketStatus>, SupportError>(f.status)
    &&& f.category_uuid == p.category_uuid
    &&& f.assigned_user_uuid == p.assigned_user_uuid
    &&& opt_view(f.client) == non_blank(opt_string(p.client))
    &&& opt_view(f.server) == non_blank(opt_string(p.server))
    &&& normalized_priority(opt_string(p.priority)) == Ok::<Option<TicketPriority>, SupportError>(
        f.priority,
    )
    &&& f.limit == p.per_page
    &&& f.offset == (p.page - 1) * p.per_page
}

/// A staff listing of all tickets, newest activity first.
pub fn admin_ticket_filter(params: &AdminListTicketsParams) -> (r: Result<
    TicketListFilter,
    SupportError,
>)
    requires
        page_window_ok(params.page, params.per_page),
    ensures
        match r {
            Ok(f) => admin_filter_error(*params) is None && admin_filter_ok(f, *params),
            Err(e) => admin_filter_error(*params) == Some(e),
        },
{
    let search = non_blank_string(&params.search);
    let status = match status_filter_of(&params.status) {
        Ok(s) => s,
        Err(e) => return Err(e),
    };
    let client = non_blank_string(&params.client);
    let server = non_blank_string(&params.server);
    let priority = match &params.priority {
        Some(p) => normalize_priority(Some(p.as_str())),
        None => normalize_priority(None),
    };
    let priority = match priority {
        Ok(p) => p,
        Err(e) => return Err(e),
    };
    Ok(
        TicketListFilter {
            creator_uuid: None,
            search,
            status,
            category_uuid: params.category_uuid,
            assigned_user_uuid: params.assigned_user_uuid,
            client,
            server,
            priority,
            limit: params.per_page,
            offset: page_offset(params.page, params.per_page),
        },
    )
}

/// One page of a ticket listing.
pub struct TicketPage {
    pub total: i64,
    pub per_page: i64,
    pub page: i64,
    pub data: Vec<ApiTicketSummary>,
}

/// The page of a listing from its rows: the total count comes with every
/// row (none when there are no rows), and each row becomes a summary.
pub fn paginate(rows: Vec<TicketSummaryRow>, page: i64, per_page: i64) -> (r: TicketPage)
    ensures
        r.total == (if rows@.len() == 0 {
            0
        } else {
            rows@[0].total_count
        }),
        r.page == page,
        r.per_page == per_page,
        r.data@.len() == rows@.len(),
        forall|i: int| 0 <= i < rows@.len() ==> summary_of(#[trigger] r.data@[i], rows@[i]),
{
    let ghost orig = rows@;
    let total = if rows.len() == 0 {
        0
    } else {
        rows[0].total_count
    };
    let mut rows = rows;
    let mut data: Vec<ApiTicketSummary> = Vec::new();
    while rows.len() > 0
        invariant
            data@.len() + rows@.len() == orig.len(),
            rows@ == orig.skip(data@.len() as int),
            forall|i: int| 0 <= i < data@.len() ==> summary_of(#[trigger] data@[i], orig[i]),
        decreases rows@.len(),
    {
        let ghost k = data@.len();
        let row = rows.remove(0);
        assert(row == orig[k as int]);
        assert(rows@ == orig.skip((k + 1) as int));
        data.push(to_ticket_summary(row));
    }
    TicketPage { total, per_page, page, data }
}

// ---------------------------------------------------------------------
// Attachments in storage.

/// The outcome of reading an attachment from object storage by the HTTP
/// status of the response: any 2xx is the attachment, 404 means it is gone,
/// anything else is a storage failure.
pub open spec fn storage_read_outcome(status: u16) -> Result<(), SupportError> {
    if 200 <= status <= 299 {
        Ok(())
    } else if status == 404 {
        Err(SupportError::AttachmentNotFound)
    } else {
        Err(SupportError::AttachmentReadFailed)
    }
}

pub fn classify_storage_status(status: u16) -> (r: Result<(), SupportError>)
    ensures
        r == storage_read_outcome(status),
{
    if 200 <= status && status <= 299 {
        Ok(())
    } else if status == 404 {
        Err(SupportError::AttachmentNotFound)
    } else {
        Err(SupportError::AttachmentReadFailed)
    }
}

/// What the store holds about an attachment that someone asks to download:
/// the ticket it belongs to, that ticket's creator, whether the ticket is
/// deleted, and whether the message it came with is an internal note.
pub struct AttachmentAccess {
    pub ticket_uuid: u128,
    pub ticket_creator_uuid: u128,
    pub ticket_deleted: bool,
    pub message_internal: bool,
}

/// A client may download an attachment of a ticket when it belongs to that
/// ticket, the ticket is theirs and not deleted, and it did not come with
/// an internal note.
pub open spec fn client_may_download(a: AttachmentAccess, ticket_uuid: u128, user_uuid: u128) -> bool {
    &&& a.ticket_uuid == ticket_uuid
    &&& a.ticket_creator_uuid == user_uuid
    &&& !a.ticket_deleted
    &&& !a.message_internal
}

/// Staff may download an attachment of a ticket when it belongs to that
/// ticket and the ticket is not deleted.
pub open spec fn staff_may_download(a: AttachmentAccess, ticket_uuid: u128) -> bool {
    a.ticket_uuid == ticket_uuid && !a.ticket_deleted
}

pub fn client_can_download(access: &AttachmentAccess, ticket_uuid: u128, user_uuid: u128) -> (r:
    bool)
    ensures
        r == client_may_download(*access, ticket_uuid, user_uuid),
{
    access.ticket_uuid == ticket_uuid && access.ticket_creator_uuid == user_uuid
        && !access.ticket_deleted && !access.message_internal
}

pub fn staff_can_download(access: &AttachmentAccess, ticket_uuid: u128) -> (r: bool)
    ensures
        r == staff_may_download(*access, ticket_uuid),
{
    access.ticket_uuid == ticket_uuid && !access.ticket_deleted
}

/// What a client may download, staff may too; attachments of internal
/// notes and of deleted tickets never reach a client.
pub proof fn lemma_client_downloads_are_staff_downloads(
    a: AttachmentAccess,
    ticket_uuid: u128,
    user_uuid: u128,
)
    ensures
        client_may_download(a, ticket_uuid, user_uuid) ==> staff_may_download(a, ticket_uuid),
        a.message_internal ==> !client_may_download(a, ticket_uuid, user_uuid),
        a.ticket_deleted ==> !client_may_download(a, ticket_uuid, user_uuid),
{
}

/// The size that storage reports for a stored attachment, as recorded:
/// it must fit in an `i64`.
pub fn stored_size_to_i64(size: u64) -> (r: Result<i64, SupportError>)
    ensures
        size <= i64::MAX ==> r == Ok::<i64, SupportError>(size as i64),
        size > i64::MAX ==> r == Err::<i64, SupportError>(SupportError::StoredSizeOverflow),
{
    if size <= i64::MAX as u64 {
        Ok(size as i64)
    } else {
        Err(SupportError::StoredSizeOverflow)
    }
}

// ---------------------------------------------------------------------
// Audit events and server options.

/// The actor columns of an audit event: the actor's uuid, username and
/// kind, or the system when there is no actor.
pub struct AuditActorColumns {
    pub user_uuid: Option<u128>,
    pub username: Option<String>,
    pub actor_type: TicketActorType,
}

pub fn audit_actor_columns(actor: Option<&TicketActor>) -> (r: AuditActorColumns)
    ensures
        match actor {
            Some(a) => r.user_uuid == a.user_uuid && opt_view(r.username) == Some(a.username@)
                && r.actor_type == a.actor_type,
            None => r.user_uuid is None && r.username is None && r.actor_type
                == TicketActorType::System,
        },
{
    match actor {
        Some(a) => AuditActorColumns {
            user_uuid: a.user_uuid,
            username: Some(a.username.clone()),
            actor_type: a.actor_type,
        },
        None => AuditActorColumns {
            user_uuid: None,
            username: None,
            actor_type: TicketActorType::System,
        },
    }
}

/// What the panel knows of a server that a client may link to a ticket.
pub struct ServerInfo {
    pub uuid: u128,
    pub uuid_short: i32,
    pub name: String,
    pub owner_username: String,
    pub nest_name: String,
    pub egg_name: String,
    pub suspended: bool,
    pub status: Option<ServerStatus>,
}

pub fn to_client_server_option(server: ServerInfo) -> (r: ApiTicketServerOption)
    ensures
        r.uuid == server.uuid,
        r.uuid_short == server.uuid_short,
        r.name@ == server.name@,
        r.owner_username@ == server.owner_username@,
        r.nest_name@ == server.nest_name@,
        r.egg_name@ == server.egg_name@,
        r.is_suspended == server.suspended,
        opt_view(r.status) == match server.status {
            Some(s) => Some(crate::models::server_status_name(s)),
            None => None,
        },
{
    let status = match server.status {
        Some(s) => Some(string_of(&chars_of(s.as_str()))),
        None => None,
    };
    ApiTicketServerOption {
        uuid: server.uuid,
        uuid_short: server.uuid_short,
        name: server.name,
        owner_username: server.owner_username,
        nest_name: server.nest_name,
        egg_name: server.egg_name,
        is_suspended: server.suspended,
        status,
    }
}

} // verus!
