use supportsystem::discord_webhook::{
    describe_linked_server, render_ticket_event, webhook_target_url, DiscordWebhookConfig,
    DiscordWebhookEvent, DiscordWebhookEventKind, PanelApp,
};
use supportsystem::error::SupportError;
use supportsystem::models::{
    AdminUpsertTicketCategoryRequest, ApiTicketDetail, ApiTicketLinkedServer, ApiTicketSummary,
    ApiTicketUserSummary, ClientCreateTicketRequest, ClientListTicketsParams, TicketPriority,
    TicketStatus,
};
use supportsystem::permissions::{
    has_support_permissions, permission_group, permission_group_description,
    require_any_permission, staff_message_permission, TicketPermission,
};

fn config(enabled: bool, url: Option<&str>) -> DiscordWebhookConfig {
    DiscordWebhookConfig {
        enabled,
        webhook_url: url.map(|u| u.to_string()),
        notify_on_ticket_created: true,
        notify_on_client_reply: true,
        notify_on_staff_reply: false,
        notify_on_internal_note: false,
        notify_on_status_change: true,
        notify_on_assignment_change: true,
        notify_on_ticket_deleted: true,
    }
}

fn linked(current: Option<&str>, snapshot: Option<&str>, uuid: Option<u128>) -> ApiTicketLinkedServer {
    ApiTicketLinkedServer {
        uuid,
        snapshot_name: snapshot.map(|s| s.to_string()),
        snapshot_uuid_short: Some(11),
        deleted_at: None,
        current_name: current.map(|s| s.to_string()),
        current_uuid_short: Some(22),
        current_status: None,
        current_is_suspended: None,
        current_owner_username: None,
    }
}

fn detail(server: ApiTicketLinkedServer) -> ApiTicketDetail {
    ApiTicketDetail {
        ticket: ApiTicketSummary {
            uuid: 0x67e55044_10b1_426f_9247_bb680e5fe0c8,
            subject: "Printer on fire".to_string(),
            status: "waiting_on_staff".to_string(),
            priority: None,
            creator: ApiTicketUserSummary {
                uuid: 1,
                username: "al_ice".to_string(),
                name_first: "Alice".to_string(),
                name_last: "A".to_string(),
                admin: false,
            },
            category: None,
            assigned_user: None,
            linked_server: server,
            last_reply_at: Some(1_000),
            last_reply_by_type: Some("client".to_string()),
            created: 1,
            updated: 2,
            closed_at: None,
        },
        metadata: "{}".to_string(),
        messages: Vec::new(),
        audit_events: Vec::new(),
    }
}

fn event(kind: DiscordWebhookEventKind, html: Option<&str>) -> DiscordWebhookEvent {
    DiscordWebhookEvent {
        kind,
        actor_display_name: Some("Alice A".to_string()),
        actor_username: Some("al_ice".to_string()),
        latest_message_html: html.map(|h| h.to_string()),
        extra_lines: Vec::new(),
    }
}

fn app() -> PanelApp {
    PanelApp {
        url: "https://panel.example/".to_string(),
        name: "Panel".to_string(),
        icon: "/logo.png".to_string(),
    }
}

#[test]
fn webhook_targets_follow_the_settings() {
    let c = config(true, Some("  https://discord.com/api/webhooks/1/x  "));
    assert_eq!(
        webhook_target_url(&c, DiscordWebhookEventKind::TicketCreated),
        Some("https://discord.com/api/webhooks/1/x".to_string())
    );
    assert_eq!(webhook_target_url(&c, DiscordWebhookEventKind::StaffReply), None);
    assert_eq!(webhook_target_url(&config(false, Some("https://d")), DiscordWebhookEventKind::TicketCreated), None);
    assert_eq!(webhook_target_url(&config(true, Some("  ")), DiscordWebhookEventKind::TicketCreated), None);
    assert_eq!(DiscordWebhookEventKind::TicketDeleted.title(), "Ticket Deleted");
    assert_eq!(DiscordWebhookEventKind::InternalNote.color(), 0xd97706);
}

#[test]
fn linked_servers_are_described() {
    assert_eq!(describe_linked_server(&detail(linked(Some("Live"), Some("Old"), Some(5)))), "Live (#22)");
    assert_eq!(describe_linked_server(&detail(linked(None, Some("Old"), Some(5)))), "Old (#11)");
    assert_eq!(describe_linked_server(&detail(linked(None, None, None))), "General Ticket");
}

#[test]
fn events_render_into_embeds() {
    let d = detail(linked(Some("Live"), None, Some(5)));
    let e = event(DiscordWebhookEventKind::ClientReply, Some("<p>Hi <b>there</b></p>"));
    let m = render_ticket_event(&config(true, Some("https://discord.com/api/webhooks/1/x")), &app(), &d, &e).unwrap();
    assert_eq!(m.webhook_url, "https://discord.com/api/webhooks/1/x");
    assert_eq!(m.username, "Panel Support");
    assert_eq!(m.panel_url, "https://panel.example");
    assert_eq!(m.icon_url, Some("https://panel.example/logo.png".to_string()));
    assert_eq!(m.title, "Client Reply • Printer on fire");
    assert_eq!(m.url, "https://panel.example/admin/support/67e55044-10b1-426f-9247-bb680e5fe0c8");
    assert_eq!(m.color, 0x7c3aed);
    assert_eq!(m.timestamp, 1_000);
    assert_eq!(m.footer_text, "Client • Ticket 67e55044-10b1-426f-9247-bb680e5fe0c8");
    assert_eq!(
        m.description,
        "**Ticket:** [Printer on fire](https://panel.example/admin/support/67e55044-10b1-426f-9247-bb680e5fe0c8)\n\
         **Client:** @al\\_ice\n\
         **Linked Server:** [Live \\(#22\\)](https://panel.example/admin/servers/00000000-0000-0000-0000-000000000005)\n\
         **Actor:** Alice A (@al\\_ice)\n\
         \n\
         **Latest Message**\n\
         > Hi **there**"
    );
    let names: Vec<&str> = m.fields.iter().map(|f| f.name.as_str()).collect();
    assert_eq!(names, vec!["Client", "Status", "Priority", "Actor"]);
    assert_eq!(m.fields[1].value, "Waiting On Staff");
    assert_eq!(m.fields[2].value, "Normal");
    assert_eq!(m.buttons.len(), 2);
    assert_eq!(m.buttons[1].label, "Open Server");
    assert!(m.allowed_mentions.is_empty());
    assert!(m.description.chars().count() <= 4096);
}

#[test]
fn disabled_events_render_nothing() {
    let d = detail(linked(None, None, None));
    let e = event(DiscordWebhookEventKind::InternalNote, None);
    assert!(render_ticket_event(&config(true, Some("https://x")), &app(), &d, &e).is_none());
}

#[test]
fn long_messages_stay_within_discord_limits() {
    let d = detail(linked(None, None, None));
    let body = format!("<p>{}</p>", "word ".repeat(3000));
    let e = event(DiscordWebhookEventKind::TicketCreated, Some(&body));
    let m = render_ticket_event(&config(true, Some("https://x")), &app(), &d, &e).unwrap();
    assert!(m.description.chars().count() <= 4096);
    assert!(m.fields.iter().all(|f| f.value.chars().count() <= 1024));
    assert!(m.description.contains('…'));
}

#[test]
fn statuses_and_priorities_round_trip() {
    for s in [
        TicketStatus::Open,
        TicketStatus::Pending,
        TicketStatus::Answered,
        TicketStatus::WaitingOnClient,
        TicketStatus::WaitingOnStaff,
        TicketStatus::Closed,
    ] {
        assert_eq!(TicketStatus::from_str(s.as_str()), Some(s));
    }
    for p in [TicketPriority::Low, TicketPriority::Normal, TicketPriority::High, TicketPriority::Urgent] {
        assert_eq!(TicketPriority::from_str(p.as_str()), Some(p));
    }
    assert_eq!(TicketStatus::from_str("OPEN"), None);
}

#[test]
fn requests_report_invalid_fields() {
    let r = ClientCreateTicketRequest {
        server_uuid: None,
        category_uuid: None,
        subject: "Hi".to_string(),
        message: "Hello there".to_string(),
        metadata: None,
    };
    assert_eq!(r.validate(), vec!["subject"]);
    let c = AdminUpsertTicketCategoryRequest {
        uuid: None,
        name: "x".to_string(),
        description: Some("ok desc".to_string()),
        color: Some("#f".to_string()),
        sort_order: 5000,
        enabled: true,
    };
    assert_eq!(c.validate(), vec!["name", "color", "sort_order"]);
    let p = ClientListTicketsParams { page: 0, per_page: 101, search: None, status: None };
    assert_eq!(p.validate(), vec!["page", "per_page"]);
}

#[test]
fn permission_groups() {
    let user = permission_group(false);
    assert_eq!(user, vec![TicketPermission::ViewOwn, TicketPermission::Create, TicketPermission::ReplyOwn]);
    assert_eq!(permission_group(true).len(), 8);
    assert!(permission_group(true).iter().all(|p| p.is_admin()));
    assert_eq!(TicketPermission::AddInternalNotes.name(), "tickets.add-internal-notes");
    assert_eq!(staff_message_permission(true), TicketPermission::AddInternalNotes);
    assert_eq!(staff_message_permission(false), TicketPermission::ReplyAll);
    assert!(permission_group_description(false).contains("your own"));
}

#[test]
fn any_of_several_permissions() {
    assert_eq!(require_any_permission(&vec![false, true, false]), Ok(()));
    assert_eq!(require_any_permission(&vec![false, false]), Err(0));
}

#[test]
fn support_staff_are_admins_or_hold_ticket_permissions() {
    assert!(has_support_permissions(true, None));
    assert!(!has_support_permissions(false, None));
    let perms = vec!["servers.read".to_string(), "tickets.assign".to_string()];
    assert!(has_support_permissions(false, Some(&perms)));
    let other = vec!["ticketsx".to_string()];
    assert!(!has_support_permissions(false, Some(&other)));
}

#[test]
fn every_error_has_a_status_and_text() {
    let all = [
        SupportError::InvalidTicketPriority,
        SupportError::CategoryNotFound,
        SupportError::TicketNotFound,
        SupportError::WebhookUrlRequired,
        SupportError::StoredSizeOverflow,
        SupportError::ServerNotAccessible,
    ];
    for e in all {
        assert!(!e.message().is_empty());
        assert!(e.status_code() >= 400);
    }
    assert_eq!(SupportError::CategoryNotFound.status_code(), 404);
    assert_eq!(
        SupportError::WebhookUrlNotDiscord.message(),
        "discord webhook url must be a Discord incoming webhook"
    );
}

#[test]
fn server_numbers_are_written_in_decimal() {
    let mut l = linked(Some("Neg"), None, None);
    l.current_uuid_short = Some(-120);
    assert_eq!(describe_linked_server(&detail(l)), "Neg (#-120)");
    let mut z = linked(Some("Zero"), None, None);
    z.current_uuid_short = Some(0);
    assert_eq!(describe_linked_server(&detail(z)), "Zero (#0)");
    let mut big = linked(Some("Max"), None, None);
    big.current_uuid_short = Some(i32::MIN);
    assert_eq!(describe_linked_server(&detail(big)), format!("Max (#{})", i32::MIN));
}
