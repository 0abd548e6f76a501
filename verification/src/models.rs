//! Ticket states and the records that the API exchanges.
use vstd::prelude::*;

use crate::text::{chars_eq_str, chars_of};

verus! {

/// Where a ticket stands in its conversation between client and staff.
#[derive(Clone, Copy, PartialEq, Eq, Structural, Debug)]
pub enum TicketStatus {
    Open,
    Pending,
    Answered,
    WaitingOnClient,
    WaitingOnStaff,
    Closed,
}

/// The stored name of a status.
pub open spec fn status_name(s: TicketStatus) -> Seq<char> {
    match s {
        TicketStatus::Open => "open"@,
        TicketStatus::Pending => "pending"@,
        TicketStatus::Answered => "answered"@,
        TicketStatus::WaitingOnClient => "waiting_on_client"@,
        TicketStatus::WaitingOnStaff => "waiting_on_staff"@,
        TicketStatus::Closed => "closed"@,
    }
}

/// The status with a stored name, if any.
pub open spec fn status_from_name(v: Seq<char>) -> Option<TicketStatus> {
    if v == "open"@ {
        Some(TicketStatus::Open)
    } else if v == "pending"@ {
        Some(TicketStatus::Pending)
    } else if v == "answered"@ {
        Some(TicketStatus::Answered)
    } else if v == "waiting_on_client"@ {
        Some(TicketStatus::WaitingOnClient)
    } else if v == "waiting_on_staff"@ {
        Some(TicketStatus::WaitingOnStaff)
    } else if v == "closed"@ {
        Some(TicketStatus::Closed)
    } else {
        None
    }
}

impl TicketStatus {
    pub fn as_str(self) -> (r: &'static str)
        ensures
            r@ == status_name(self),
    {
        match self {
            TicketStatus::Open => "open",
            TicketStatus::Pending => "pending",
            TicketStatus::Answered => "answered",
            TicketStatus::WaitingOnClient => "waiting_on_client",
            TicketStatus::WaitingOnStaff => "waiting_on_staff",
            TicketStatus::Closed => "closed",
        }
    }

    pub fn from_str(value: &str) -> (r: Option<Self>)
        ensures
            r == status_from_name(value@),
    {
        let v = chars_of(value);
        if chars_eq_str(&v, "open") {
            Some(TicketStatus::Open)
        } else if chars_eq_str(&v, "pending") {
            Some(TicketStatus::Pending)
        } else if chars_eq_str(&v, "answered") {
            Some(TicketStatus::Answered)
        } else if chars_eq_str(&v, "waiting_on_client") {
            Some(TicketStatus::WaitingOnClient)
        } else if chars_eq_str(&v, "waiting_on_staff") {
            Some(TicketStatus::WaitingOnStaff)
        } else if chars_eq_str(&v, "closed") {
            Some(TicketStatus::Closed)
        } else {
            None
        }
    }
}

/// Every status is read back from its stored name, and a name that reads
/// as a status is that status's name.
pub proof fn lemma_status_name_roundtrip(s: TicketStatus, v: Seq<char>)
    ensures
        status_from_name(status_name(s)) == Some(s),
        status_from_name(v) == Some(s) ==> status_name(s) == v,
{
    reveal_strlit("open");
    reveal_strlit("pending");
    reveal_strlit("answered");
    reveal_strlit("waiting_on_client");
    reveal_strlit("waiting_on_staff");
    reveal_strlit("closed");
    assert("open"@.len() == 4);
    assert("pending"@.len() == 7);
    assert("answered"@.len() == 8);
    assert("waiting_on_client"@.len() == 17);
    assert("waiting_on_staff"@.len() == 16);
    assert("closed"@.len() == 6);
}

/// How urgent a ticket is.
#[derive(Clone, Copy, PartialEq, Eq, Structural, Debug)]
pub enum TicketPriority {
    Low,
    Normal,
    High,
    Urgent,
}

pub open spec fn priority_name(p: TicketPriority) -> Seq<char> {
    match p {
        TicketPriority::Low => "low"@,
        TicketPriority::Normal => "normal"@,
        TicketPriority::High => "high"@,
        TicketPriority::Urgent => "urgent"@,
    }
}

pub open spec fn priority_from_name(v: Seq<char>) -> Option<TicketPriority> {
    if v == "low"@ {
        Some(TicketPriority::Low)
    } else if v == "normal"@ {
        Some(TicketPriority::Normal)
    } else if v == "high"@ {
        Some(TicketPriority::High)
    } else if v == "urgent"@ {
        Some(TicketPriority::Urgent)
    } else {
        None
    }
}

impl TicketPriority {
    pub fn as_str(self) -> (r: &'static str)
        ensures
            r@ == priority_name(self),
    {
        match self {
            TicketPriority::Low => "low",
            TicketPriority::Normal => "normal",
            TicketPriority::High => "high",
            TicketPriority::Urgent => "urgent",
        }
    }

    pub fn from_str(value: &str) -> (r: Option<Self>)
        ensures
            r == priority_from_name(value@),
    {
        let v = chars_of(value);
        if chars_eq_str(&v, "low") {
            Some(TicketPriority::Low)
        } else if chars_eq_str(&v, "normal") {
            Some(TicketPriority::Normal)
        } else if chars_eq_str(&v, "high") {
            Some(TicketPriority::High)
        } else if chars_eq_str(&v, "urgent") {
            Some(TicketPriority::Urgent)
        } else {
            None
        }
    }
}

/// Every priority is read back from its stored name, and a name that reads
/// as a priority is that priority's name.
pub proof fn lemma_priority_name_roundtrip(p: TicketPriority, v: Seq<char>)
    ensures
        priority_from_name(priority_name(p)) == Some(p),
        priority_from_name(v) == Some(p) ==> priority_name(p) == v,
{
    reveal_strlit("low");
    reveal_strlit("normal");
    reveal_strlit("high");
    reveal_strlit("urgent");
    assert("low"@.len() == 3);
    assert("normal"@.len() == 6);
    assert("high"@.len() == 4);
    assert("urgent"@.len() == 6);
    assert("normal"@[0] != "urgent"@[0]);
}

/// Who performed an action on a ticket.
#[derive(Clone, Copy, PartialEq, Eq, Structural, Debug)]
pub enum TicketActorType {
    Client,
    Staff,
    System,
}

pub open spec fn actor_type_name(a: TicketActorType) -> Seq<char> {
    match a {
        TicketActorType::Client => "client"@,
        TicketActorType::Staff => "staff"@,
        TicketActorType::System => "system"@,
    }
}

impl TicketActorType {
    pub fn as_str(self) -> (r: &'static str)
        ensures
            r@ == actor_type_name(self),
    {
        match self {
            TicketActorType::Client => "client",
            TicketActorType::Staff => "staff",
            TicketActorType::System => "system",
        }
    }

    /// The kind of actor a stored name stands for.
    pub fn from_str(value: &str) -> (r: Option<Self>)
        ensures
            r == actor_type_from_name(value@),
    {
        let v = chars_of(value);
        if chars_eq_str(&v, "client") {
            Some(TicketActorType::Client)
        } else if chars_eq_str(&v, "staff") {
            Some(TicketActorType::Staff)
        } else if chars_eq_str(&v, "system") {
            Some(TicketActorType::System)
        } else {
            None
        }
    }
}

pub open spec fn actor_type_from_name(v: Seq<char>) -> Option<TicketActorType> {
    if v == "client"@ {
        Some(TicketActorType::Client)
    } else if v == "staff"@ {
        Some(TicketActorType::Staff)
    } else if v == "system"@ {
        Some(TicketActorType::System)
    } else {
        None
    }
}

/// Every actor kind is read back from its stored name.
pub proof fn lemma_actor_type_name_roundtrip(a: TicketActorType)
    ensures
        actor_type_from_name(actor_type_name(a)) == Some(a),
{
    reveal_strlit("client");
    reveal_strlit("staff");
    reveal_strlit("system");
    assert("client"@.len() == 6 && "staff"@.len() == 5 && "system"@.len() == 6);
    assert("client"@[0] != "system"@[0]);
}

/// The transient state of a game server that is worth showing on a ticket.
#[derive(Clone, Copy, PartialEq, Eq, Structural, Debug)]
pub enum ServerStatus {
    Installing,
    InstallFailed,
    RestoringBackup,
}

pub open spec fn server_status_name(s: ServerStatus) -> Seq<char> {
    match s {
        ServerStatus::Installing => "installing"@,
        ServerStatus::InstallFailed => "install_failed"@,
        ServerStatus::RestoringBackup => "restoring_backup"@,
    }
}

impl ServerStatus {
    pub fn as_str(self) -> (r: &'static str)
        ensures
            r@ == server_status_name(self),
    {
        match self {
            ServerStatus::Installing => "installing",
            ServerStatus::InstallFailed => "install_failed",
            ServerStatus::RestoringBackup => "restoring_backup",
        }
    }
}


// ---------------------------------------------------------------------
// Records exchanged with the API. Uuids are 128-bit integers and times are
// microseconds since the Unix epoch; JSON values are kept as their text.

pub struct ApiTicketSettings {
    pub uuid: u128,
    pub categories_enabled: bool,
    pub allow_client_close: bool,
    pub allow_reply_on_closed: bool,
    pub create_ticket_rate_limit_hits: i32,
    pub create_ticket_rate_limit_window_seconds: i32,
    pub max_open_tickets_per_user: i32,
    pub created: i64,
    pub updated: i64,
}

pub struct ApiDiscordWebhookSettings {
    pub enabled: bool,
    pub webhook_url: Option<String>,
    pub notify_on_ticket_created: bool,
    pub notify_on_client_reply: bool,
    pub notify_on_staff_reply: bool,
    pub notify_on_internal_note: bool,
    pub notify_on_status_change: bool,
    pub notify_on_assignment_change: bool,
    pub notify_on_ticket_deleted: bool,
}

pub struct ApiTicketCategory {
    pub uuid: u128,
    pub name: String,
    pub description: Option<String>,
    pub color: Option<String>,
    pub sort_order: i32,
    pub enabled: bool,
    pub created: i64,
    pub updated: i64,
}

pub struct ApiTicketCategorySummary {
    pub uuid: u128,
    pub name: String,
    pub color: Option<String>,
}

pub struct ApiTicketUserSummary {
    pub uuid: u128,
    pub username: String,
    pub name_first: String,
    pub name_last: String,
    pub admin: bool,
}

pub struct ApiTicketLinkedServer {
    pub uuid: Option<u128>,
    pub snapshot_name: Option<String>,
    pub snapshot_uuid_short: Option<i32>,
    pub deleted_at: Option<i64>,
    pub current_name: Option<String>,
    pub current_uuid_short: Option<i32>,
    pub current_status: Option<String>,
    pub current_is_suspended: Option<bool>,
    pub current_owner_username: Option<String>,
}

pub struct ApiTicketServerOption {
    pub uuid: u128,
    pub uuid_short: i32,
    pub name: String,
    pub owner_username: String,
    pub nest_name: String,
    pub egg_name: String,
    pub is_suspended: bool,
    pub status: Option<String>,
}

pub struct ApiTicketAttachment {
    pub uuid: u128,
    pub original_name: String,
    pub content_type: String,
    pub media_type: String,
    pub size: i64,
    pub url: String,
    pub created: i64,
}

pub struct ApiTicketMessage {
    pub uuid: u128,
    pub author_user_uuid: Option<u128>,
    pub author_username: String,
    pub author_display_name: String,
    pub author_avatar: Option<String>,
    pub author_type: String,
    pub body: String,
    pub is_internal: bool,
    pub attachments: Vec<ApiTicketAttachment>,
    pub created: i64,
    pub updated: i64,
}

pub struct ApiTicketAuditEvent {
    pub uuid: u128,
    pub actor_user_uuid: Option<u128>,
    pub actor_username: Option<String>,
    pub actor_type: String,
    pub event: String,
    /// The event's JSON payload, as text.
    pub payload: String,
    pub created: i64,
}

pub struct ApiTicketSummary {
    pub uuid: u128,
    pub subject: String,
    pub status: String,
    pub priority: Option<String>,
    pub creator: ApiTicketUserSummary,
    pub category: Option<ApiTicketCategorySummary>,
    pub assigned_user: Option<ApiTicketUserSummary>,
    pub linked_server: ApiTicketLinkedServer,
    pub last_reply_at: Option<i64>,
    pub last_reply_by_type: Option<String>,
    pub created: i64,
    pub updated: i64,
    pub closed_at: Option<i64>,
}

pub struct ApiTicketDetail {
    pub ticket: ApiTicketSummary,
    /// The ticket's JSON metadata, as text.
    pub metadata: String,
    pub messages: Vec<ApiTicketMessage>,
    pub audit_events: Vec<ApiTicketAuditEvent>,
}

pub struct ClientTicketBootstrapResponse {
    pub settings: ApiTicketSettings,
    pub categories: Vec<ApiTicketCategory>,
    pub servers: Vec<ApiTicketServerOption>,
}

pub struct AdminTicketBootstrapResponse {
    pub settings: ApiTicketSettings,
    pub categories: Vec<ApiTicketCategory>,
    pub staff_users: Vec<ApiTicketUserSummary>,
}

pub struct AdminTicketSettingsDetailResponse {
    pub settings: ApiTicketSettings,
    pub discord_webhook: ApiDiscordWebhookSettings,
}


// ---------------------------------------------------------------------
// Requests and their validation rules. Text lengths count characters.

/// The texts of a list of field names.
pub open spec fn names_view(v: Vec<&'static str>) -> Seq<Seq<char>> {
    v@.map_values(|s: &'static str| s@)
}

/// The field's name when its check failed, nothing otherwise.
pub open spec fn field_check(ok: bool, name: Seq<char>) -> Seq<Seq<char>> {
    if ok {
        Seq::empty()
    } else {
        seq![name]
    }
}

pub open spec fn len_between(s: Seq<char>, min: nat, max: nat) -> bool {
    min <= s.len() <= max
}

pub open spec fn opt_len_between(s: Option<String>, min: nat, max: nat) -> bool {
    match s {
        Some(v) => len_between(v@, min, max),
        None => true,
    }
}

fn text_len_between(s: &String, min: usize, max: usize) -> (r: bool)
    ensures
        r == len_between(s@, min as nat, max as nat),
{
    let v = chars_of(s.as_str());
    min <= v.len() && v.len() <= max
}

fn opt_text_len_between(s: &Option<String>, min: usize, max: usize) -> (r: bool)
    ensures
        r == opt_len_between(*s, min as nat, max as nat),
{
    match s {
        Some(v) => text_len_between(v, min, max),
        None => true,
    }
}

fn note_field(bad: &mut Vec<&'static str>, ok: bool, name: &'static str)
    ensures
        names_view(*final(bad)) == names_view(*old(bad)) + field_check(ok, name@),
{
    let ghost before = names_view(*bad);
    if !ok {
        bad.push(name);
        assert(names_view(*bad) =~= before + seq![name@]);
    } else {
        assert(names_view(*bad) =~= before + Seq::<Seq<char>>::empty());
    }
}

/// A client's new ticket. `metadata` is the compact JSON text of what the client sent.
pub struct ClientCreateTicketRequest {
    pub server_uuid: Option<u128>,
    pub category_uuid: Option<u128>,
    pub subject: String,
    pub message: String,
    pub metadata: Option<String>,
}

/// The fields of a `ClientCreateTicketRequest` that break their rules, in order.
pub open spec fn invalid_fields_client_create_ticket_request(r: ClientCreateTicketRequest) -> Seq<Seq<char>> {
    Seq::<Seq<char>>::empty() + field_check(len_between(r.subject@, 3, 255), "subject"@)
        + field_check(len_between(r.message@, 5, 20000), "message"@)
}

impl ClientCreateTicketRequest {
    /// The names of the fields that break their rules; empty when the
    /// request is valid.
    pub fn validate(&self) -> (r: Vec<&'static str>)
        ensures
            names_view(r) == invalid_fields_client_create_ticket_request(*self),
    {
        let mut bad: Vec<&'static str> = Vec::new();
        assert(names_view(bad) =~= Seq::<Seq<char>>::empty());
        note_field(&mut bad, text_len_between(&self.subject, 3, 255), "subject");
        note_field(&mut bad, text_len_between(&self.message, 5, 20000), "message");
        bad
    }
}

/// A client's reply.
pub struct ClientReplyTicketRequest {
    pub body: String,
}

/// The fields of a `ClientReplyTicketRequest` that break their rules, in order.
pub open spec fn invalid_fields_client_reply_ticket_request(r: ClientReplyTicketRequest) -> Seq<Seq<char>> {
    Seq::<Seq<char>>::empty() + field_check(len_between(r.body@, 1, 20000), "body"@)
}

impl ClientReplyTicketRequest {
    /// The names of the fields that break their rules; empty when the
    /// request is valid.
    pub fn validate(&self) -> (r: Vec<&'static str>)
        ensures
            names_view(r) == invalid_fields_client_reply_ticket_request(*self),
    {
        let mut bad: Vec<&'static str> = Vec::new();
        assert(names_view(bad) =~= Seq::<Seq<char>>::empty());
        note_field(&mut bad, text_len_between(&self.body, 1, 20000), "body");
        bad
    }
}

/// A client's status change.
pub struct ClientUpdateTicketStatusRequest {
    pub status: String,
}

/// The fields of a `ClientUpdateTicketStatusRequest` that break their rules, in order.
pub open spec fn invalid_fields_client_update_ticket_status_request(r: ClientUpdateTicketStatusRequest) -> Seq<Seq<char>> {
    Seq::<Seq<char>>::empty() + field_check(len_between(r.status@, 1, 32), "status"@)
}

impl ClientUpdateTicketStatusRequest {
    /// The names of the fields that break their rules; empty when the
    /// request is valid.
    pub fn validate(&self) -> (r: Vec<&'static str>)
        ensures
            names_view(r) == invalid_fields_client_update_ticket_status_request(*self),
    {
        let mut bad: Vec<&'static str> = Vec::new();
        assert(names_view(bad) =~= Seq::<Seq<char>>::empty());
        note_field(&mut bad, text_len_between(&self.status, 1, 32), "status");
        bad
    }
}

/// A staff message or internal note.
pub struct AdminTicketMessageRequest {
    pub body: String,
    pub is_internal: bool,
}

/// The fields of a `AdminTicketMessageRequest` that break their rules, in order.
pub open spec fn invalid_fields_admin_ticket_message_request(r: AdminTicketMessageRequest) -> Seq<Seq<char>> {
    Seq::<Seq<char>>::empty() + field_check(len_between(r.body@, 1, 20000), "body"@)
}

impl AdminTicketMessageRequest {
    /// The names of the fields that break their rules; empty when the
    /// request is valid.
    pub fn validate(&self) -> (r: Vec<&'static str>)
        ensures
            names_view(r) == invalid_fields_admin_ticket_message_request(*self),
    {
        let mut bad: Vec<&'static str> = Vec::new();
        assert(names_view(bad) =~= Seq::<Seq<char>>::empty());
        note_field(&mut bad, text_len_between(&self.body, 1, 20000), "body");
        bad
    }
}

/// A staff status change.
pub struct AdminUpdateTicketStatusRequest {
    pub status: String,
}

/// The fields of a `AdminUpdateTicketStatusRequest` that break their rules, in order.
pub open spec fn invalid_fields_admin_update_ticket_status_request(r: AdminUpdateTicketStatusRequest) -> Seq<Seq<char>> {
    Seq::<Seq<char>>::empty() + field_check(len_between(r.status@, 1, 32), "status"@)
}

impl AdminUpdateTicketStatusRequest {
    /// The names of the fields that break their rules; empty when the
    /// request is valid.
    pub fn validate(&self) -> (r: Vec<&'static str>)
        ensures
            names_view(r) == invalid_fields_admin_update_ticket_status_request(*self),
    {
        let mut bad: Vec<&'static str> = Vec::new();
        assert(names_view(bad) =~= Seq::<Seq<char>>::empty());
        note_field(&mut bad, text_len_between(&self.status, 1, 32), "status");
        bad
    }
}

/// A staff assignment.
pub struct AdminAssignTicketRequest {
    pub assigned_user_uuid: Option<u128>,
}

/// A staff priority change.
pub struct AdminUpdateTicketPriorityRequest {
    pub priority: Option<String>,
}

/// A staff category change.
pub struct AdminUpdateTicketCategoryRequest {
    pub category_uuid: Option<u128>,
}

/// New support settings.
pub struct AdminUpdateTicketSettingsRequest {
    pub categories_enabled: bool,
    pub allow_client_close: bool,
    pub allow_reply_on_closed: bool,
    pub create_ticket_rate_limit_hits: i32,
    pub create_ticket_rate_limit_window_seconds: i32,
    pub max_open_tickets_per_user: i32,
    pub discord_webhook_enabled: bool,
    pub discord_webhook_url: Option<String>,
    pub discord_notify_on_ticket_created: bool,
    pub discord_notify_on_client_reply: bool,
    pub discord_notify_on_staff_reply: bool,
    pub discord_notify_on_internal_note: bool,
    pub discord_notify_on_status_change: bool,
    pub discord_notify_on_assignment_change: bool,
    pub discord_notify_on_ticket_deleted: bool,
}

/// The fields of a `AdminUpdateTicketSettingsRequest` that break their rules, in order.
pub open spec fn invalid_fields_admin_update_ticket_settings_request(r: AdminUpdateTicketSettingsRequest) -> Seq<Seq<char>> {
    Seq::<Seq<char>>::empty() + field_check(0 <= r.create_ticket_rate_limit_hits <= 10000, "create_ticket_rate_limit_hits"@)
        + field_check(1 <= r.create_ticket_rate_limit_window_seconds <= 86400, "create_ticket_rate_limit_window_seconds"@)
        + field_check(0 <= r.max_open_tickets_per_user <= 1000, "max_open_tickets_per_user"@)
        + field_check(opt_len_between(r.discord_webhook_url, 0, 2048), "discord_webhook_url"@)
}

impl AdminUpdateTicketSettingsRequest {
    /// The names of the fields that break their rules; empty when the
    /// request is valid.
    pub fn validate(&self) -> (r: Vec<&'static str>)
        ensures
            names_view(r) == invalid_fields_admin_update_ticket_settings_request(*self),
    {
        let mut bad: Vec<&'static str> = Vec::new();
        assert(names_view(bad) =~= Seq::<Seq<char>>::empty());
        note_field(&mut bad, 0 <= self.create_ticket_rate_limit_hits && self.create_ticket_rate_limit_hits <= 10000, "create_ticket_rate_limit_hits");
        note_field(&mut bad, 1 <= self.create_ticket_rate_limit_window_seconds && self.create_ticket_rate_limit_window_seconds <= 86400, "create_ticket_rate_limit_window_seconds");
        note_field(&mut bad, 0 <= self.max_open_tickets_per_user && self.max_open_tickets_per_user <= 1000, "max_open_tickets_per_user");
        note_field(&mut bad, opt_text_len_between(&self.discord_webhook_url, 0, 2048), "discord_webhook_url");
        bad
    }
}

/// A category to create (no uuid) or update.
pub struct AdminUpsertTicketCategoryRequest {
    pub uuid: Option<u128>,
    pub name: String,
    pub description: Option<String>,
    pub color: Option<String>,
    pub sort_order: i32,
    pub enabled: bool,
}

/// The fields of a `AdminUpsertTicketCategoryRequest` that break their rules, in order.
pub open spec fn invalid_fields_admin_upsert_ticket_category_request(r: AdminUpsertTicketCategoryRequest) -> Seq<Seq<char>> {
    Seq::<Seq<char>>::empty() + field_check(len_between(r.name@, 2, 255), "name"@)
        + field_check(opt_len_between(r.description, 2, 2048), "description"@)
        + field_check(opt_len_between(r.color, 3, 32), "color"@)
        + field_check(-1000 <= r.sort_order <= 1000, "sort_order"@)
}

impl AdminUpsertTicketCategoryRequest {
    /// The names of the fields that break their rules; empty when the
    /// request is valid.
    pub fn validate(&self) -> (r: Vec<&'static str>)
        ensures
            names_view(r) == invalid_fields_admin_upsert_ticket_category_request(*self),
    {
        let mut bad: Vec<&'static str> = Vec::new();
        assert(names_view(bad) =~= Seq::<Seq<char>>::empty());
        note_field(&mut bad, text_len_between(&self.name, 2, 255), "name");
        note_field(&mut bad, opt_text_len_between(&self.description, 2, 2048), "description");
        note_field(&mut bad, opt_text_len_between(&self.color, 3, 32), "color");
        note_field(&mut bad, -1000 <= self.sort_order && self.sort_order <= 1000, "sort_order");
        bad
    }
}

/// A client's ticket list query.
pub struct ClientListTicketsParams {
    pub page: i64,
    pub per_page: i64,
    pub search: Option<String>,
    pub status: Option<String>,
}

/// The fields of a `ClientListTicketsParams` that break their rules, in order.
pub open spec fn invalid_fields_client_list_tickets_params(r: ClientListTicketsParams) -> Seq<Seq<char>> {
    Seq::<Seq<char>>::empty() + field_check(1 <= r.page, "page"@)
        + field_check(1 <= r.per_page <= 100, "per_page"@)
        + field_check(opt_len_between(r.search, 1, 128), "search"@)
        + field_check(opt_len_between(r.status, 1, 32), "status"@)
}

impl ClientListTicketsParams {
    /// The names of the fields that break their rules; empty when the
    /// request is valid.
    pub fn validate(&self) -> (r: Vec<&'static str>)
        ensures
            names_view(r) == invalid_fields_client_list_tickets_params(*self),
    {
        let mut bad: Vec<&'static str> = Vec::new();
        assert(names_view(bad) =~= Seq::<Seq<char>>::empty());
        note_field(&mut bad, 1 <= self.page, "page");
        note_field(&mut bad, 1 <= self.per_page && self.per_page <= 100, "per_page");
        note_field(&mut bad, opt_text_len_between(&self.search, 1, 128), "search");
        note_field(&mut bad, opt_text_len_between(&self.status, 1, 32), "status");
        bad
    }
}

/// A staff ticket list query.
pub struct AdminListTicketsParams {
    pub page: i64,
    pub per_page: i64,
    pub search: Option<String>,
    pub status: Option<String>,
    pub category_uuid: Option<u128>,
    pub assigned_user_uuid: Option<u128>,
    pub client: Option<String>,
    pub server: Option<String>,
    pub priority: Option<String>,
}

/// The fields of a `AdminListTicketsParams` that break their rules, in order.
pub open spec fn invalid_fields_admin_list_tickets_params(r: AdminListTicketsParams) -> Seq<Seq<char>> {
    Seq::<Seq<char>>::empty() + field_check(1 <= r.page, "page"@)
        + field_check(1 <= r.per_page <= 100, "per_page"@)
        + field_check(opt_len_between(r.search, 1, 128), "search"@)
        + field_check(opt_len_between(r.status, 1, 32), "status"@)
        + field_check(opt_len_between(r.client, 1, 128), "client"@)
        + field_check(opt_len_between(r.server, 1, 128), "server"@)
        + field_check(opt_len_between(r.priority, 1, 32), "priority"@)
}

impl AdminListTicketsParams {
    /// The names of the fields that break their rules; empty when the
    /// request is valid.
    pub fn validate(&self) -> (r: Vec<&'static str>)
        ensures
            names_view(r) == invalid_fields_admin_list_tickets_params(*self),
    {
        let mut bad: Vec<&'static str> = Vec::new();
        assert(names_view(bad) =~= Seq::<Seq<char>>::empty());
        note_field(&mut bad, 1 <= self.page, "page");
        note_field(&mut bad, 1 <= self.per_page && self.per_page <= 100, "per_page");
        note_field(&mut bad, opt_text_len_between(&self.search, 1, 128), "search");
        note_field(&mut bad, opt_text_len_between(&self.status, 1, 32), "status");
        note_field(&mut bad, opt_text_len_between(&self.client, 1, 128), "client");
        note_field(&mut bad, opt_text_len_between(&self.server, 1, 128), "server");
        note_field(&mut bad, opt_text_len_between(&self.priority, 1, 32), "priority");
        bad
    }
}

} // verus!
