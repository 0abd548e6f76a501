use supportsystem::error::SupportError;
use supportsystem::ids::parse_optional_uuid;
use supportsystem::manager::{
    admin_ticket_filter, assemble_messages, audit_actor_columns, build_attachment_storage_path,
    client_can_download, staff_can_download, AttachmentAccess,
    build_attachment_url, build_ticket_metadata, classify_storage_status, client_ticket_filter,
    normalize_body, normalize_discord_webhook_url, normalize_metadata, normalize_priority,
    normalize_status, normalize_subject, paginate, prepare_category, prepare_settings_webhook_url,
    select_visible_messages, stored_size_to_i64, to_client_server_option, to_ticket_summary,
    validate_category_color, AttachmentUrlScope, ServerInfo, TicketAttachmentRow,
    TicketMessageRow, TicketSummaryRow,
};
use supportsystem::models::{
    AdminListTicketsParams, ClientListTicketsParams, ServerStatus, TicketActorType,
    TicketPriority, TicketStatus,
};

const T: u128 = 0x67e55044_10b1_426f_9247_bb680e5fe0c8;
const A: u128 = 0x00000000_0000_0000_0000_0000000000ff;

#[test]
fn uuids_read_from_form_text() {
    assert_eq!(parse_optional_uuid("  "), Ok(None));
    assert_eq!(parse_optional_uuid(" 67E55044-10B1-426F-9247-BB680E5FE0C8 "), Ok(Some(T)));
    assert_eq!(parse_optional_uuid("67e5504410b1426f9247bb680e5fe0c8"), Ok(Some(T)));
    assert_eq!(parse_optional_uuid("not-a-uuid"), Err(SupportError::InvalidUuid));
}

#[test]
fn attachment_urls_and_paths() {
    assert_eq!(
        build_attachment_url(AttachmentUrlScope::Client, T, A),
        "/api/client/support/tickets/67e55044-10b1-426f-9247-bb680e5fe0c8/attachments/00000000-0000-0000-0000-0000000000ff"
    );
    assert_eq!(
        build_attachment_url(AttachmentUrlScope::Admin, T, A),
        "/api/admin/support/tickets/67e55044-10b1-426f-9247-bb680e5fe0c8/attachments/00000000-0000-0000-0000-0000000000ff"
    );
    assert_eq!(
        build_attachment_storage_path(T, 1, A, "a.png"),
        "support/tickets/67e55044-10b1-426f-9247-bb680e5fe0c8/messages/00000000-0000-0000-0000-000000000001/00000000-0000-0000-0000-0000000000ff_a.png"
    );
}

#[test]
fn texts_are_normalized() {
    assert_eq!(normalize_subject("  Subject\n"), "Subject");
    assert_eq!(normalize_body("\tbody "), "body");
    assert_eq!(normalize_status(" waiting_on_client "), Ok(TicketStatus::WaitingOnClient));
    assert_eq!(normalize_status("Closed"), Err(SupportError::InvalidTicketStatus));
    assert_eq!(normalize_priority(None), Ok(None));
    assert_eq!(normalize_priority(Some(" ")), Ok(None));
    assert_eq!(normalize_priority(Some("urgent")), Ok(Some(TicketPriority::Urgent)));
    assert_eq!(normalize_priority(Some("huge")), Err(SupportError::InvalidTicketPriority));
    assert_eq!(SupportError::InvalidTicketPriority.message(), "invalid ticket priority");
}

#[test]
fn metadata_must_be_a_small_object() {
    assert_eq!(normalize_metadata(None), Ok("{}".to_string()));
    assert_eq!(normalize_metadata(Some("{\"a\":1}")), Ok("{\"a\":1}".to_string()));
    assert_eq!(normalize_metadata(Some("[1]")), Err(SupportError::MetadataNotObject));
    let big = format!("{{\"k\":\"{}\"}}", "x".repeat(8200));
    assert_eq!(normalize_metadata(Some(&big)), Err(SupportError::MetadataTooLarge));
    let exact = format!("{{\"k\":\"{}\"}}", "x".repeat(8192 - 8));
    assert_eq!(exact.len(), 8192);
    assert!(normalize_metadata(Some(&exact)).is_ok());
}

#[test]
fn ticket_metadata_wraps_client_and_server() {
    assert_eq!(build_ticket_metadata("{}", None), "{\"client\":{}}");
    assert_eq!(
        build_ticket_metadata("{\"a\":1}", Some("{\"uuid\":\"x\"}")),
        "{\"client\":{\"a\":1},\"server\":{\"uuid\":\"x\"}}"
    );
}

#[test]
fn category_colors_are_hex() {
    assert_eq!(validate_category_color(None), Ok(()));
    assert_eq!(validate_category_color(Some(" #4f46e5 ")), Ok(()));
    assert_eq!(validate_category_color(Some("#ABC")), Ok(()));
    assert_eq!(validate_category_color(Some("#abcd")), Err(SupportError::InvalidCategoryColor));
    assert_eq!(validate_category_color(Some("4f46e5")), Err(SupportError::InvalidCategoryColor));
    assert_eq!(validate_category_color(Some("#12345g")), Err(SupportError::InvalidCategoryColor));
}

#[test]
fn categories_are_trimmed() {
    let c = prepare_category("  Billing ", Some("  "), Some(" #fff ")).unwrap();
    assert_eq!(c.name, "Billing");
    assert_eq!(c.description, None);
    assert_eq!(c.color, Some("#fff".to_string()));
    assert_eq!(prepare_category("  ", None, None).err(), Some(SupportError::CategoryNameEmpty));
    assert_eq!(prepare_category("", None, Some("red")).err(), Some(SupportError::InvalidCategoryColor));
}

#[test]
fn webhook_urls_must_be_discord_webhooks() {
    assert_eq!(normalize_discord_webhook_url(None), Ok(None));
    assert_eq!(normalize_discord_webhook_url(Some("   ")), Ok(None));
    assert_eq!(
        normalize_discord_webhook_url(Some(" https://discord.com/api/webhooks/1/abc ")),
        Ok(Some("https://discord.com/api/webhooks/1/abc".to_string()))
    );
    assert_eq!(
        normalize_discord_webhook_url(Some("https://PTB.Discord.com/api/webhooks/1/abc")),
        Ok(Some("https://PTB.Discord.com/api/webhooks/1/abc".to_string()))
    );
    assert_eq!(
        normalize_discord_webhook_url(Some("https://example.com/api/webhooks/1")),
        Err(SupportError::WebhookUrlNotDiscord)
    );
    assert_eq!(
        normalize_discord_webhook_url(Some("https://discord.com/channels/1")),
        Err(SupportError::WebhookUrlNotDiscord)
    );
    assert_eq!(normalize_discord_webhook_url(Some("not a url")), Err(SupportError::WebhookUrlInvalid));
    assert_eq!(prepare_settings_webhook_url(true, None), Err(SupportError::WebhookUrlRequired));
    assert_eq!(prepare_settings_webhook_url(false, None), Ok(None));
}

#[test]
fn listing_filters() {
    let p = ClientListTicketsParams {
        page: 3,
        per_page: 20,
        search: Some("  printer ".to_string()),
        status: Some(" closed ".to_string()),
    };
    let f = client_ticket_filter(5, &p).unwrap();
    assert_eq!(f.creator_uuid, Some(5));
    assert_eq!(f.search, Some("printer".to_string()));
    assert_eq!(f.status, Some(TicketStatus::Closed));
    assert_eq!(f.offset, 40);
    assert_eq!(f.limit, 20);
    let bad = ClientListTicketsParams { page: 1, per_page: 10, search: None, status: Some("x".to_string()) };
    assert_eq!(client_ticket_filter(5, &bad).err(), Some(SupportError::InvalidTicketStatus));

    let a = AdminListTicketsParams {
        page: 1,
        per_page: 10,
        search: None,
        status: Some("  ".to_string()),
        category_uuid: Some(2),
        assigned_user_uuid: None,
        client: Some("bob".to_string()),
        server: Some(" ".to_string()),
        priority: Some("low".to_string()),
    };
    let g = admin_ticket_filter(&a).unwrap();
    assert_eq!(g.creator_uuid, None);
    assert_eq!(g.status, None);
    assert_eq!(g.category_uuid, Some(2));
    assert_eq!(g.client, Some("bob".to_string()));
    assert_eq!(g.server, None);
    assert_eq!(g.priority, Some(TicketPriority::Low));
    assert_eq!(g.offset, 0);
    let worse = AdminListTicketsParams { priority: Some("max".to_string()), ..a };
    assert_eq!(admin_ticket_filter(&worse).err(), Some(SupportError::InvalidTicketPriority));
}

fn row(uuid: u128, total: i64) -> TicketSummaryRow {
    TicketSummaryRow {
        uuid,
        subject: "s".to_string(),
        status: "open".to_string(),
        priority: None,
        creator_uuid: 1,
        creator_username: "alice".to_string(),
        creator_name_first: "Alice".to_string(),
        creator_name_last: "A".to_string(),
        creator_admin: false,
        category_uuid: Some(4),
        category_name: None,
        category_color: None,
        assigned_user_uuid: Some(9),
        assigned_user_username: Some("bob".to_string()),
        assigned_user_name_first: Some("Bob".to_string()),
        assigned_user_name_last: Some("B".to_string()),
        assigned_user_admin: None,
        linked_server_uuid: None,
        linked_server_snapshot_name: None,
        linked_server_snapshot_uuid_short: None,
        linked_server_deleted_at: None,
        current_server_name: None,
        current_server_uuid_short: None,
        current_server_status: None,
        current_server_suspended: None,
        current_server_owner_username: None,
        last_reply_at: None,
        last_reply_by_type: None,
        created: 1,
        updated: 2,
        closed_at: None,
        total_count: total,
    }
}

#[test]
fn summaries_drop_partial_joins() {
    let s = to_ticket_summary(row(1, 1));
    assert!(s.category.is_none());
    let a = s.assigned_user.unwrap();
    assert_eq!(a.username, "bob");
    assert!(!a.admin);
}

#[test]
fn pages_count_all_rows() {
    let page = paginate(vec![row(1, 12), row(2, 12)], 2, 2);
    assert_eq!(page.total, 12);
    assert_eq!(page.data.len(), 2);
    assert_eq!(page.data[1].uuid, 2);
    let empty = paginate(Vec::new(), 1, 10);
    assert_eq!(empty.total, 0);
    assert!(empty.data.is_empty());
}

fn message(uuid: u128, internal: bool) -> TicketMessageRow {
    TicketMessageRow {
        uuid,
        author_user_uuid: None,
        author_snapshot_username: "u".to_string(),
        author_snapshot_display_name: "U".to_string(),
        author_avatar_url: None,
        author_type: "staff".to_string(),
        body: format!("m{uuid}"),
        is_internal: internal,
        created: uuid as i64,
        updated: uuid as i64,
    }
}

fn attachment(uuid: u128, message_uuid: u128) -> TicketAttachmentRow {
    TicketAttachmentRow {
        uuid,
        message_uuid,
        original_name: "a.png".to_string(),
        content_type: "image/png".to_string(),
        media_type: "image".to_string(),
        size: 3,
        created: 1,
    }
}

#[test]
fn clients_never_see_internal_notes() {
    let all = vec![message(1, false), message(2, true), message(3, false)];
    let shown = select_visible_messages(all, false);
    assert_eq!(shown.iter().map(|m| m.uuid).collect::<Vec<_>>(), vec![1, 3]);
    assert!(shown.iter().all(|m| !m.is_internal));
    let staff = select_visible_messages(vec![message(1, false), message(2, true)], true);
    assert_eq!(staff.len(), 2);
}

#[test]
fn attachments_group_under_their_messages() {
    let msgs = vec![message(1, false), message(3, false)];
    let atts = vec![attachment(10, 3), attachment(11, 1), attachment(12, 3), attachment(13, 2)];
    let out = assemble_messages(&msgs, &atts, T, AttachmentUrlScope::Client);
    assert_eq!(out.len(), 2);
    assert_eq!(out[0].attachments.iter().map(|a| a.uuid).collect::<Vec<_>>(), vec![11]);
    assert_eq!(out[1].attachments.iter().map(|a| a.uuid).collect::<Vec<_>>(), vec![10, 12]);
    assert!(out[1].attachments[0].url.starts_with("/api/client/support/tickets/"));
    assert_eq!(out[1].body, "m3");
}

#[test]
fn storage_reads_map_to_errors() {
    assert_eq!(classify_storage_status(200), Ok(()));
    assert_eq!(classify_storage_status(206), Ok(()));
    assert_eq!(classify_storage_status(404), Err(SupportError::AttachmentNotFound));
    assert_eq!(classify_storage_status(500), Err(SupportError::AttachmentReadFailed));
    assert_eq!(SupportError::AttachmentNotFound.status_code(), 404);
    assert_eq!(SupportError::AttachmentReadFailed.status_code(), 502);
    assert_eq!(stored_size_to_i64(10), Ok(10));
    assert_eq!(stored_size_to_i64(u64::MAX), Err(SupportError::StoredSizeOverflow));
}

#[test]
fn audit_actor_defaults_to_system() {
    let none = audit_actor_columns(None);
    assert_eq!(none.actor_type, TicketActorType::System);
    assert_eq!(none.username, None);
}

#[test]
fn server_options_show_status_names() {
    let o = to_client_server_option(ServerInfo {
        uuid: 1,
        uuid_short: 2,
        name: "srv".to_string(),
        owner_username: "o".to_string(),
        nest_name: "n".to_string(),
        egg_name: "e".to_string(),
        suspended: true,
        status: Some(ServerStatus::InstallFailed),
    });
    assert_eq!(o.status, Some("install_failed".to_string()));
    assert!(o.is_suspended);
}

#[test]
fn trimming_twice_is_trimming_once() {
    for raw in ["  a b  ", "\u{a0}x\u{2003}", "", "   ", "plain"] {
        let once = normalize_subject(raw);
        assert_eq!(normalize_subject(&once), once);
        assert_eq!(once, raw.trim());
    }
}

#[test]
fn actor_kinds_read_back_from_their_names() {
    for a in [TicketActorType::Client, TicketActorType::Staff, TicketActorType::System] {
        assert_eq!(TicketActorType::from_str(a.as_str()), Some(a));
    }
    assert_eq!(TicketActorType::from_str("Staff"), None);
}

#[test]
fn downloads_follow_ticket_ownership_and_note_privacy() {
    let ok = AttachmentAccess { ticket_uuid: T, ticket_creator_uuid: 5, ticket_deleted: false, message_internal: false };
    assert!(client_can_download(&ok, T, 5));
    assert!(!client_can_download(&ok, T, 6));
    assert!(!client_can_download(&ok, A, 5));
    assert!(staff_can_download(&ok, T));
    assert!(!staff_can_download(&ok, A));
    let note = AttachmentAccess { message_internal: true, ..ok };
    assert!(!client_can_download(&note, T, 5));
    assert!(staff_can_download(&note, T));
    let gone = AttachmentAccess { ticket_deleted: true, ..ok };
    assert!(!client_can_download(&gone, T, 5));
    assert!(!staff_can_download(&gone, T));
}
