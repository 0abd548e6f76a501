//! Discord notifications about ticket activity: which events are sent,
//! and what the message says.
use vstd::prelude::*;

use crate::discord_format::{
    app_icon_url, escape_markdown_chars, escape_md, format_markdown_link_chars, html_to_discord_text_chars,
    html_to_text, humanize, humanize_chars, md_link, quote_discord_text_chars, quoted,
    resolve_app_icon_url_chars, truncate_for_discord_chars, truncated,
};
use crate::ids::{uuid_chars, uuid_text};
use crate::text::starts_with;
use crate::models::{ApiTicketDetail, ApiTicketLinkedServer};
use crate::text::{
    chars_of, extend_chars, extend_str, i64_text, int_text, join, join_chars, string_of, trim,
    trim_chars, trim_end_char, trim_end_char_chars,
};

verus! {

/// The webhook settings of the support system.
pub struct DiscordWebhookConfig {
    pub enabled: bool,
    pub webhook_url: Option<String>,
    pub notify_on_ticket_created: bool,
    pub notify_on_client_reply: bool,
    pub notify_on_staff_reply: bool,
    pub notify_on_internal_note: bool,
    pub notify_on_status_change: bool,
    pub notify_on_assignment_change: bool,
    pub notify_on_ticket_deleted: bool,
}

/// The kinds of ticket activity that can be announced.
#[derive(Clone, Copy, PartialEq, Eq, Structural, Debug)]
pub enum DiscordWebhookEventKind {
    TicketCreated,
    ClientReply,
    StaffReply,
    InternalNote,
    StatusChanged,
    AssignmentChanged,
    TicketDeleted,
}

pub open spec fn kind_title(k: DiscordWebhookEventKind) -> Seq<char> {
    match k {
        DiscordWebhookEventKind::TicketCreated => "New Support Ticket"@,
        DiscordWebhookEventKind::ClientReply => "Client Reply"@,
        DiscordWebhookEventKind::StaffReply => "Staff Reply"@,
        DiscordWebhookEventKind::InternalNote => "Internal Note"@,
        DiscordWebhookEventKind::StatusChanged => "Ticket Status Updated"@,
        DiscordWebhookEventKind::AssignmentChanged => "Ticket Assignment Updated"@,
        DiscordWebhookEventKind::TicketDeleted => "Ticket Deleted"@,
    }
}

pub open spec fn kind_emoji(k: DiscordWebhookEventKind) -> Seq<char> {
    match k {
        DiscordWebhookEventKind::TicketCreated => "Ticket"@,
        DiscordWebhookEventKind::ClientReply => "Client"@,
        DiscordWebhookEventKind::StaffReply => "Staff"@,
        DiscordWebhookEventKind::InternalNote => "Internal"@,
        DiscordWebhookEventKind::StatusChanged => "Status"@,
        DiscordWebhookEventKind::AssignmentChanged => "Assign"@,
        DiscordWebhookEventKind::TicketDeleted => "Deleted"@,
    }
}

pub open spec fn kind_color(k: DiscordWebhookEventKind) -> u32 {
    match k {
        DiscordWebhookEventKind::TicketCreated => 0x2563eb,
        DiscordWebhookEventKind::ClientReply => 0x7c3aed,
        DiscordWebhookEventKind::StaffReply => 0x0891b2,
        DiscordWebhookEventKind::InternalNote => 0xd97706,
        DiscordWebhookEventKind::StatusChanged => 0x4f46e5,
        DiscordWebhookEventKind::AssignmentChanged => 0x059669,
        DiscordWebhookEventKind::TicketDeleted => 0xdc2626,
    }
}

/// Whether the configuration asks for this kind of event.
pub open spec fn kind_enabled_in(k: DiscordWebhookEventKind, c: DiscordWebhookConfig) -> bool {
    match k {
        DiscordWebhookEventKind::TicketCreated => c.notify_on_ticket_created,
        DiscordWebhookEventKind::ClientReply => c.notify_on_client_reply,
        DiscordWebhookEventKind::StaffReply => c.notify_on_staff_reply,
        DiscordWebhookEventKind::InternalNote => c.notify_on_internal_note,
        DiscordWebhookEventKind::StatusChanged => c.notify_on_status_change,
        DiscordWebhookEventKind::AssignmentChanged => c.notify_on_assignment_change,
        DiscordWebhookEventKind::TicketDeleted => c.notify_on_ticket_deleted,
    }
}

impl DiscordWebhookEventKind {
    pub fn title(self) -> (r: &'static str)
        ensures
            r@ == kind_title(self),
    {
        match self {
            DiscordWebhookEventKind::TicketCreated => "New Support Ticket",
            DiscordWebhookEventKind::ClientReply => "Client Reply",
            DiscordWebhookEventKind::StaffReply => "Staff Reply",
            DiscordWebhookEventKind::InternalNote => "Internal Note",
            DiscordWebhookEventKind::StatusChanged => "Ticket Status Updated",
            DiscordWebhookEventKind::AssignmentChanged => "Ticket Assignment Updated",
            DiscordWebhookEventKind::TicketDeleted => "Ticket Deleted",
        }
    }

    pub fn emoji(self) -> (r: &'static str)
        ensures
            r@ == kind_emoji(self),
    {
        match self {
            DiscordWebhookEventKind::TicketCreated => "Ticket",
            DiscordWebhookEventKind::ClientReply => "Client",
            DiscordWebhookEventKind::StaffReply => "Staff",
            DiscordWebhookEventKind::InternalNote => "Internal",
            DiscordWebhookEventKind::StatusChanged => "Status",
            DiscordWebhookEventKind::AssignmentChanged => "Assign",
            DiscordWebhookEventKind::TicketDeleted => "Deleted",
        }
    }

    pub fn color(self) -> (r: u32)
        ensures
            r == kind_color(self),
    {
        match self {
            DiscordWebhookEventKind::TicketCreated => 0x2563eb,
            DiscordWebhookEventKind::ClientReply => 0x7c3aed,
            DiscordWebhookEventKind::StaffReply => 0x0891b2,
            DiscordWebhookEventKind::InternalNote => 0xd97706,
            DiscordWebhookEventKind::StatusChanged => 0x4f46e5,
            DiscordWebhookEventKind::AssignmentChanged => 0x059669,
            DiscordWebhookEventKind::TicketDeleted => 0xdc2626,
        }
    }

    pub fn enabled_in(self, config: &DiscordWebhookConfig) -> (r: bool)
        ensures
            r == kind_enabled_in(self, *config),
    {
        match self {
            DiscordWebhookEventKind::TicketCreated => config.notify_on_ticket_created,
            DiscordWebhookEventKind::ClientReply => config.notify_on_client_reply,
            DiscordWebhookEventKind::StaffReply => config.notify_on_staff_reply,
            DiscordWebhookEventKind::InternalNote => config.notify_on_internal_note,
            DiscordWebhookEventKind::StatusChanged => config.notify_on_status_change,
            DiscordWebhookEventKind::AssignmentChanged => config.notify_on_assignment_change,
            DiscordWebhookEventKind::TicketDeleted => config.notify_on_ticket_deleted,
        }
    }
}

/// One piece of ticket activity to announce.
pub struct DiscordWebhookEvent {
    pub kind: DiscordWebhookEventKind,
    pub actor_display_name: Option<String>,
    pub actor_username: Option<String>,
    pub latest_message_html: Option<String>,
    pub extra_lines: Vec<String>,
}

/// The text of an optional string.
pub open spec fn opt_view(o: Option<String>) -> Option<Seq<char>> {
    match o {
        Some(s) => Some(s@),
        None => None,
    }
}

/// The texts of a list of strings.
pub open spec fn lines_view(v: Vec<String>) -> Seq<Seq<char>> {
    v@.map_values(|s: String| s@)
}

/// The URL to post an event to: none when delivery is off, the event kind
/// is not wanted, or the URL is blank; otherwise the trimmed URL.
pub open spec fn webhook_target(c: DiscordWebhookConfig, k: DiscordWebhookEventKind) -> Option<
    Seq<char>,
> {
    if !c.enabled || !kind_enabled_in(k, c) {
        None
    } else {
        match c.webhook_url {
            Some(u) => if trim(u@).len() == 0 {
                None
            } else {
                Some(trim(u@))
            },
            None => None,
        }
    }
}

/// Where to deliver an event of this kind, if it is to be delivered at all.
pub fn webhook_target_url(config: &DiscordWebhookConfig, kind: DiscordWebhookEventKind) -> (r:
    Option<String>)
    ensures
        opt_view(r) == webhook_target(*config, kind),
{
    if !config.enabled || !kind.enabled_in(config) {
        return None;
    }
    match &config.webhook_url {
        Some(u) => {
            let v = chars_of(u.as_str());
            let t = trim_chars(&v);
            if t.len() == 0 {
                None
            } else {
                Some(string_of(&t))
            }
        },
        None => None,
    }
}


/// A name followed by ` (#short)` when the short id is known.
pub open spec fn name_with_short(name: Seq<char>, short: Option<i32>) -> Seq<char> {
    match short {
        Some(x) => name + " (#"@ + int_text(x as int) + ")"@,
        None => name,
    }
}

/// How a ticket's linked server is named: by its current name, else by the
/// name it had when linked (each with its short id when known), else as a
/// general ticket.
pub open spec fn linked_server_label(ls: ApiTicketLinkedServer) -> Seq<char> {
    match ls.current_name {
        Some(n) => name_with_short(n@, ls.current_uuid_short),
        None => match ls.snapshot_name {
            Some(n) => name_with_short(n@, ls.snapshot_uuid_short),
            None => "General Ticket"@,
        },
    }
}

fn name_with_short_chars(name: &String, short: Option<i32>) -> (r: Vec<char>)
    ensures
        r@ == name_with_short(name@, short),
{
    let mut r = chars_of(name.as_str());
    match short {
        Some(x) => {
            extend_str(&mut r, " (#");
            let n = i64_text(x as i64);
            extend_chars(&mut r, &n);
            extend_str(&mut r, ")");
        },
        None => {},
    }
    r
}

fn linked_server_label_chars(ls: &ApiTicketLinkedServer) -> (r: Vec<char>)
    ensures
        r@ == linked_server_label(*ls),
{
    match &ls.current_name {
        Some(n) => name_with_short_chars(n, ls.current_uuid_short),
        None => match &ls.snapshot_name {
            Some(n) => name_with_short_chars(n, ls.snapshot_uuid_short),
            None => chars_of("General Ticket"),
        },
    }
}

/// How the ticket's linked server is shown.
pub fn describe_linked_server(detail: &ApiTicketDetail) -> (r: String)
    ensures
        r@ == linked_server_label(detail.ticket.linked_server),
{
    let v = linked_server_label_chars(&detail.ticket.linked_server);
    string_of(&v)
}

/// The application the panel runs as.
pub struct PanelApp {
    pub url: String,
    pub name: String,
    pub icon: String,
}

/// A field of the embed; all fields are shown inline.
pub struct DiscordEmbedField {
    pub name: String,
    pub value: String,
}

/// A link button under the message.
pub struct DiscordLinkButton {
    pub label: String,
    pub url: String,
}

/// A rendered notification. The embed's author is `username` linking to
/// `panel_url`; `icon_url` is the avatar, the author icon and the thumbnail.
/// `allowed_mentions` lists the kinds of mention (`everyone`, `roles`,
/// `users`) that Discord may resolve in the message.
pub struct DiscordWebhookMessage {
    pub webhook_url: String,
    pub username: String,
    pub panel_url: String,
    pub icon_url: Option<String>,
    pub title: String,
    pub url: String,
    pub description: String,
    pub color: u32,
    pub fields: Vec<DiscordEmbedField>,
    pub footer_text: String,
    pub timestamp: i64,
    pub buttons: Vec<DiscordLinkButton>,
    pub allowed_mentions: Vec<String>,
}

pub open spec fn fields_view(v: Vec<DiscordEmbedField>) -> Seq<(Seq<char>, Seq<char>)> {
    v@.map_values(|f: DiscordEmbedField| (f.name@, f.value@))
}

pub open spec fn buttons_view(v: Vec<DiscordLinkButton>) -> Seq<(Seq<char>, Seq<char>)> {
    v@.map_values(|b: DiscordLinkButton| (b.label@, b.url@))
}

/// The panel URL without trailing slashes.
pub open spec fn panel_base(app: PanelApp) -> Seq<char> {
    trim_end_char(app.url@, '/')
}

pub open spec fn ticket_admin_url(app: PanelApp, d: ApiTicketDetail) -> Seq<char> {
    panel_base(app) + "/admin/support/"@ + uuid_text(d.ticket.uuid)
}

pub open spec fn server_admin_url(app: PanelApp, d: ApiTicketDetail) -> Option<Seq<char>> {
    match d.ticket.linked_server.uuid {
        Some(u) => Some(panel_base(app) + "/admin/servers/"@ + uuid_text(u)),
        None => None,
    }
}

/// The latest message as shown: the trimmed HTML flattened and cut to 1200
/// characters, when anything is left.
pub open spec fn latest_message_text(html: Option<Seq<char>>) -> Option<Seq<char>> {
    match html {
        Some(h) => if trim(h).len() == 0 {
            None
        } else {
            let t = truncated(html_to_text(trim(h)), 1200);
            if t.len() == 0 {
                None
            } else {
                Some(t)
            }
        },
        None => None,
    }
}

/// ` (@username)` when the actor's username is known.
pub open spec fn actor_suffix(username: Option<Seq<char>>) -> Seq<char> {
    match username {
        Some(u) => " (@"@ + escape_md(u) + ")"@,
        None => Seq::empty(),
    }
}

/// The description lines of the embed: ticket link, client, linked server,
/// category and actor when known, the event's extra lines, and the latest
/// message quoted under a heading.
pub open spec fn description_lines(app: PanelApp, d: ApiTicketDetail, e: DiscordWebhookEvent) -> Seq<
    Seq<char>,
> {
    let label = linked_server_label(d.ticket.linked_server);
    let server_line = match server_admin_url(app, d) {
        Some(u) => md_link(label, u),
        None => escape_md(label),
    };
    seq![
        "**Ticket:** "@ + md_link(d.ticket.subject@, ticket_admin_url(app, d)),
        "**Client:** @"@ + escape_md(d.ticket.creator.username@),
        "**Linked Server:** "@ + server_line,
    ] + (match d.ticket.category {
        Some(c) => seq!["**Category:** "@ + escape_md(c.name@)],
        None => Seq::empty(),
    }) + (match opt_view(e.actor_display_name) {
        Some(a) => seq!["**Actor:** "@ + escape_md(a) + actor_suffix(opt_view(e.actor_username))],
        None => Seq::empty(),
    }) + lines_view(e.extra_lines) + (match latest_message_text(opt_view(e.latest_message_html)) {
        Some(m) => seq![Seq::empty(), "**Latest Message**"@, quoted(m)],
        None => Seq::empty(),
    })
}

/// The embed fields: client, status, priority (normal when unset), and
/// category and actor when known, each value cut to 1024 characters.
pub open spec fn embed_fields(d: ApiTicketDetail, e: DiscordWebhookEvent) -> Seq<
    (Seq<char>, Seq<char>),
> {
    seq![
        ("Client"@, truncated("@"@ + escape_md(d.ticket.creator.username@), 1024)),
        ("Status"@, truncated(humanize(d.ticket.status@), 1024)),
        ("Priority"@, truncated(
            match d.ticket.priority {
                Some(p) => humanize(p@),
                None => "Normal"@,
            },
            1024,
        )),
    ] + (match d.ticket.category {
        Some(c) => seq![("Category"@, truncated(escape_md(c.name@), 1024))],
        None => Seq::empty(),
    }) + (match opt_view(e.actor_display_name) {
        Some(a) => seq![
            ("Actor"@, truncated(escape_md(a) + actor_suffix(opt_view(e.actor_username)), 1024)),
        ],
        None => Seq::empty(),
    })
}

/// The buttons: open the ticket, and open the linked server when there is one.
pub open spec fn link_buttons(app: PanelApp, d: ApiTicketDetail) -> Seq<(Seq<char>, Seq<char>)> {
    seq![("Open Ticket"@, ticket_admin_url(app, d))] + (match server_admin_url(app, d) {
        Some(u) => seq![("Open Server"@, u)],
        None => Seq::empty(),
    })
}

/// The message is the rendering of the event for this ticket.
pub open spec fn renders(
    m: DiscordWebhookMessage,
    target: Seq<char>,
    app: PanelApp,
    d: ApiTicketDetail,
    e: DiscordWebhookEvent,
) -> bool {
    &&& m.webhook_url@ == target
    &&& m.username@ == app.name@ + " Support"@
    &&& m.panel_url@ == panel_base(app)
    &&& opt_view(m.icon_url) == app_icon_url(panel_base(app), app.icon@)
    &&& m.title@ == kind_title(e.kind) + " • "@ + d.ticket.subject@
    &&& m.url@ == ticket_admin_url(app, d)
    &&& m.description@ == truncated(join(description_lines(app, d, e), seq!['\n']), 4096)
    &&& m.color == kind_color(e.kind)
    &&& fields_view(m.fields) == embed_fields(d, e)
    &&& m.footer_text@ == kind_emoji(e.kind) + " • Ticket "@ + uuid_text(d.ticket.uuid)
    &&& m.timestamp == match d.ticket.last_reply_at {
        Some(t) => t,
        None => d.ticket.updated,
    }
    &&& buttons_view(m.buttons) == link_buttons(app, d)
    &&& m.allowed_mentions@.len() == 0
}


fn cat(a: &Vec<char>, b: &Vec<char>) -> (r: Vec<char>)
    ensures
        r@ == a@ + b@,
{
    let mut r = slice_chars(a);
    extend_chars(&mut r, b);
    r
}

fn slice_chars(a: &Vec<char>) -> (r: Vec<char>)
    ensures
        r@ == a@,
{
    let mut r: Vec<char> = Vec::new();
    extend_chars(&mut r, a);
    assert(r@ == Seq::<char>::empty() + a@);
    r
}

fn lit_then(prefix: &str, b: &Vec<char>) -> (r: Vec<char>)
    ensures
        r@ == prefix@ + b@,
{
    let mut r = chars_of(prefix);
    extend_chars(&mut r, b);
    r
}

fn admin_url_chars(base: &Vec<char>, path: &str, uuid: u128) -> (r: Vec<char>)
    ensures
        r@ == base@ + path@ + uuid_text(uuid),
{
    let mut r = slice_chars(base);
    extend_str(&mut r, path);
    let u = uuid_chars(uuid);
    extend_chars(&mut r, &u);
    r
}

fn latest_message_chars(html: &Option<String>) -> (r: Option<Vec<char>>)
    ensures
        match r {
            Some(v) => latest_message_text(opt_view(*html)) == Some(v@),
            None => latest_message_text(opt_view(*html)) is None,
        },
{
    match html {
        Some(h) => {
            let hv = chars_of(h.as_str());
            let t = trim_chars(&hv);
            if t.len() == 0 {
                return None;
            }
            let flat = html_to_discord_text_chars(&t);
            let cut = truncate_for_discord_chars(&flat, 1200);
            if cut.len() == 0 {
                None
            } else {
                Some(cut)
            }
        },
        None => None,
    }
}

fn actor_suffix_chars(username: &Option<String>) -> (r: Vec<char>)
    ensures
        r@ == actor_suffix(opt_view(*username)),
{
    match username {
        Some(u) => {
            let uv = chars_of(u.as_str());
            let e = escape_markdown_chars(&uv);
            let mut r = chars_of(" (@");
            extend_chars(&mut r, &e);
            extend_str(&mut r, ")");
            r
        },
        None => Vec::new(),
    }
}

fn push_line(lines: &mut Vec<Vec<char>>, line: Vec<char>)
    ensures
        final(lines)@.map_values(|v: Vec<char>| v@) == old(lines)@.map_values(|v: Vec<char>| v@).push(
            line@,
        ),
{
    lines.push(line);
    assert(lines@.map_values(|v: Vec<char>| v@) =~= old(lines)@.map_values(|v: Vec<char>| v@).push(
        line@,
    ));
}

fn description_lines_chars(
    base: &Vec<char>,
    ticket_url: &Vec<char>,
    server_url: &Option<Vec<char>>,
    latest: &Option<Vec<char>>,
    app: &PanelApp,
    d: &ApiTicketDetail,
    e: &DiscordWebhookEvent,
) -> (r: Vec<Vec<char>>)
    requires
        base@ == panel_base(*app),
        ticket_url@ == ticket_admin_url(*app, *d),
        match server_url {
            Some(u) => server_admin_url(*app, *d) == Some(u@),
            None => server_admin_url(*app, *d) is None,
        },
        match latest {
            Some(m) => latest_message_text(opt_view(e.latest_message_html)) == Some(m@),
            None => latest_message_text(opt_view(e.latest_message_html)) is None,
        },
    ensures
        r@.map_values(|v: Vec<char>| v@) == description_lines(*app, *d, *e),
{
    let mut lines: Vec<Vec<char>> = Vec::new();
    let subject = chars_of(d.ticket.subject.as_str());
    let link = format_markdown_link_chars(&subject, ticket_url);
    push_line(&mut lines, lit_then("**Ticket:** ", &link));
    let creator = chars_of(d.ticket.creator.username.as_str());
    let ec = escape_markdown_chars(&creator);
    push_line(&mut lines, lit_then("**Client:** @", &ec));
    let label = linked_server_label_chars(&d.ticket.linked_server);
    let server_line = match server_url {
        Some(u) => format_markdown_link_chars(&label, u),
        None => escape_markdown_chars(&label),
    };
    push_line(&mut lines, lit_then("**Linked Server:** ", &server_line));
    let ghost head = lines@.map_values(|v: Vec<char>| v@);
    let ghost spec_label = linked_server_label(d.ticket.linked_server);
    assert(head =~= seq![
        "**Ticket:** "@ + md_link(d.ticket.subject@, ticket_admin_url(*app, *d)),
        "**Client:** @"@ + escape_md(d.ticket.creator.username@),
        "**Linked Server:** "@ + match server_admin_url(*app, *d) {
            Some(u) => md_link(spec_label, u),
            None => escape_md(spec_label),
        },
    ]);
    match &d.ticket.category {
        Some(c) => {
            let cn = chars_of(c.name.as_str());
            let ecn = escape_markdown_chars(&cn);
            push_line(&mut lines, lit_then("**Category:** ", &ecn));
        },
        None => {},
    }
    let ghost with_category = lines@.map_values(|v: Vec<char>| v@);
    assert(with_category =~= head + match d.ticket.category {
        Some(c) => seq!["**Category:** "@ + escape_md(c.name@)],
        None => Seq::<Seq<char>>::empty(),
    });
    match &e.actor_display_name {
        Some(a) => {
            let av = chars_of(a.as_str());
            let ea = escape_markdown_chars(&av);
            let suffix = actor_suffix_chars(&e.actor_username);
            let body = cat(&ea, &suffix);
            let line = lit_then("**Actor:** ", &body);
            assert(line@ =~= "**Actor:** "@ + escape_md(a@) + actor_suffix(opt_view(e.actor_username)));
            push_line(&mut lines, line);
        },
        None => {},
    }
    let ghost with_actor = lines@.map_values(|v: Vec<char>| v@);
    assert(with_actor =~= with_category + match opt_view(e.actor_display_name) {
        Some(a) => seq!["**Actor:** "@ + escape_md(a) + actor_suffix(opt_view(e.actor_username))],
        None => Seq::<Seq<char>>::empty(),
    });
    let mut i: usize = 0;
    while i < e.extra_lines.len()
        invariant
            i <= e.extra_lines.len(),
            lines@.map_values(|v: Vec<char>| v@) == with_actor + lines_view(e.extra_lines).take(
                i as int,
            ),
        decreases e.extra_lines.len() - i,
    {
        let l = chars_of(e.extra_lines[i].as_str());
        push_line(&mut lines, l);
        assert(lines_view(e.extra_lines).take(i + 1) == lines_view(e.extra_lines).take(
            i as int,
        ).push(e.extra_lines@[i as int]@));
        i = i + 1;
    }
    assert(lines_view(e.extra_lines).take(e.extra_lines.len() as int) == lines_view(
        e.extra_lines,
    ));
    let ghost with_extra = lines@.map_values(|v: Vec<char>| v@);
    match latest {
        Some(m) => {
            push_line(&mut lines, Vec::new());
            push_line(&mut lines, chars_of("**Latest Message**"));
            push_line(&mut lines, quote_discord_text_chars(m));
        },
        None => {},
    }
    let ghost all = lines@.map_values(|v: Vec<char>| v@);
    assert(all =~= with_extra + match latest_message_text(opt_view(e.latest_message_html)) {
        Some(m) => seq![Seq::<char>::empty(), "**Latest Message**"@, quoted(m)],
        None => Seq::<Seq<char>>::empty(),
    });
    assert(all =~= description_lines(*app, *d, *e));
    lines
}

fn push_field(fields: &mut Vec<DiscordEmbedField>, name: &str, value: Vec<char>)
    ensures
        fields_view(*final(fields)) == fields_view(*old(fields)).push((name@, value@)),
{
    let f = DiscordEmbedField { name: string_of(&chars_of(name)), value: string_of(&value) };
    fields.push(f);
    assert(fields_view(*fields) =~= fields_view(*old(fields)).push((name@, value@)));
}

fn embed_fields_vec(d: &ApiTicketDetail, e: &DiscordWebhookEvent) -> (r: Vec<DiscordEmbedField>)
    ensures
        fields_view(r) == embed_fields(*d, *e),
{
    let mut fields: Vec<DiscordEmbedField> = Vec::new();
    let creator = chars_of(d.ticket.creator.username.as_str());
    let ec = escape_markdown_chars(&creator);
    let client = lit_then("@", &ec);
    push_field(&mut fields, "Client", truncate_for_discord_chars(&client, 1024));
    let status = chars_of(d.ticket.status.as_str());
    let hs = humanize_chars(&status);
    push_field(&mut fields, "Status", truncate_for_discord_chars(&hs, 1024));
    let priority = match &d.ticket.priority {
        Some(p) => {
            let pv = chars_of(p.as_str());
            humanize_chars(&pv)
        },
        None => chars_of("Normal"),
    };
    push_field(&mut fields, "Priority", truncate_for_discord_chars(&priority, 1024));
    match &d.ticket.category {
        Some(c) => {
            let cn = chars_of(c.name.as_str());
            let ecn = escape_markdown_chars(&cn);
            push_field(&mut fields, "Category", truncate_for_discord_chars(&ecn, 1024));
        },
        None => {},
    }
    match &e.actor_display_name {
        Some(a) => {
            let av = chars_of(a.as_str());
            let ea = escape_markdown_chars(&av);
            let suffix = actor_suffix_chars(&e.actor_username);
            let body = cat(&ea, &suffix);
            push_field(&mut fields, "Actor", truncate_for_discord_chars(&body, 1024));
        },
        None => {},
    }
    assert(fields_view(fields) =~= embed_fields(*d, *e));
    fields
}

fn push_button(buttons: &mut Vec<DiscordLinkButton>, label: &str, url: &Vec<char>)
    ensures
        buttons_view(*final(buttons)) == buttons_view(*old(buttons)).push((label@, url@)),
{
    let b = DiscordLinkButton { label: string_of(&chars_of(label)), url: string_of(url) };
    buttons.push(b);
    assert(buttons_view(*buttons) =~= buttons_view(*old(buttons)).push((label@, url@)));
}

/// The notification to deliver for an event on a ticket, or none when the
/// configuration does not deliver it (see `webhook_target`).
pub fn render_ticket_event(
    config: &DiscordWebhookConfig,
    app: &PanelApp,
    detail: &ApiTicketDetail,
    event: &DiscordWebhookEvent,
) -> (r: Option<DiscordWebhookMessage>)
    ensures
        r is Some <==> webhook_target(*config, event.kind) is Some,
        r matches Some(m) ==> renders(
            m,
            webhook_target(*config, event.kind)->0,
            *app,
            *detail,
            *event,
        ),
{
    let target = match webhook_target_url(config, event.kind) {
        Some(t) => t,
        None => return None,
    };
    let url_chars = chars_of(app.url.as_str());
    let base = trim_end_char_chars(&url_chars, '/');
    let icon_chars = chars_of(app.icon.as_str());
    let icon = resolve_app_icon_url_chars(&base, &icon_chars);
    let ticket_url = admin_url_chars(&base, "/admin/support/", detail.ticket.uuid);
    let server_url = match detail.ticket.linked_server.uuid {
        Some(u) => Some(admin_url_chars(&base, "/admin/servers/", u)),
        None => None,
    };
    let latest = latest_message_chars(&event.latest_message_html);
    let lines = description_lines_chars(&base, &ticket_url, &server_url, &latest, app, detail, event);
    let mut nl: Vec<char> = Vec::new();
    nl.push('\n');
    let joined = join_chars(&lines, &nl);
    let description = truncate_for_discord_chars(&joined, 4096);
    let fields = embed_fields_vec(detail, event);
    let mut buttons: Vec<DiscordLinkButton> = Vec::new();
    push_button(&mut buttons, "Open Ticket", &ticket_url);
    match &server_url {
        Some(u) => push_button(&mut buttons, "Open Server", u),
        None => {},
    }
    assert(buttons_view(buttons) =~= link_buttons(*app, *detail));
    let mut username = chars_of(app.name.as_str());
    extend_str(&mut username, " Support");
    let mut title = chars_of(event.kind.title());
    extend_str(&mut title, " • ");
    let subject = chars_of(detail.ticket.subject.as_str());
    extend_chars(&mut title, &subject);
    let mut footer = chars_of(event.kind.emoji());
    extend_str(&mut footer, " • Ticket ");
    let uuid = uuid_chars(detail.ticket.uuid);
    extend_chars(&mut footer, &uuid);
    let timestamp = match detail.ticket.last_reply_at {
        Some(t) => t,
        None => detail.ticket.updated,
    };
    Some(
        DiscordWebhookMessage {
            webhook_url: target,
            username: string_of(&username),
            panel_url: string_of(&base),
            icon_url: match icon {
                Some(v) => Some(string_of(&v)),
                None => None,
            },
            title: string_of(&title),
            url: string_of(&ticket_url),
            description: string_of(&description),
            color: event.kind.color(),
            fields,
            footer_text: string_of(&footer),
            timestamp,
            buttons,
            allowed_mentions: Vec::new(),
        },
    )
}


/// How many fixed lines open a description: the ticket, client and linked
/// server lines, then a category line and an actor line when those are known.
pub open spec fn header_line_count(d: ApiTicketDetail, e: DiscordWebhookEvent) -> int {
    3 + (if d.ticket.category is Some {
        1int
    } else {
        0int
    }) + (if e.actor_display_name is Some {
        1int
    } else {
        0int
    })
}

/// The notification says what changed: every extra line of the event is a
/// line of the description, in the event's order, right after the header
/// lines; the header opens with the ticket, client and linked-server lines;
/// and the description ends with the extra lines when there is no latest
/// message to quote, or with the quoted message block otherwise.
pub proof fn lemma_extra_lines_shown(app: PanelApp, d: ApiTicketDetail, e: DiscordWebhookEvent)
    ensures
        description_lines(app, d, e).len() >= header_line_count(d, e) + e.extra_lines@.len(),
        forall|i: int|
            0 <= i < e.extra_lines@.len() ==> description_lines(app, d, e)[header_line_count(d, e)
                + i] == (#[trigger] e.extra_lines@[i])@,
        starts_with(description_lines(app, d, e)[0], "**Ticket:** "@),
        starts_with(description_lines(app, d, e)[1], "**Client:** @"@),
        starts_with(description_lines(app, d, e)[2], "**Linked Server:** "@),
        latest_message_text(opt_view(e.latest_message_html)) is None ==> description_lines(
            app,
            d,
            e,
        ).len() == header_line_count(d, e) + e.extra_lines@.len(),
        latest_message_text(opt_view(e.latest_message_html)) is Some ==> description_lines(
            app,
            d,
            e,
        ).len() == header_line_count(d, e) + e.extra_lines@.len() + 3,
{
    let lines = description_lines(app, d, e);
    let h = header_line_count(d, e);
    let extra = lines_view(e.extra_lines);
    let label = linked_server_label(d.ticket.linked_server);
    let server_line = match server_admin_url(app, d) {
        Some(u) => md_link(label, u),
        None => escape_md(label),
    };
    let head = seq![
        "**Ticket:** "@ + md_link(d.ticket.subject@, ticket_admin_url(app, d)),
        "**Client:** @"@ + escape_md(d.ticket.creator.username@),
        "**Linked Server:** "@ + server_line,
    ];
    let cat: Seq<Seq<char>> = match d.ticket.category {
        Some(c) => seq!["**Category:** "@ + escape_md(c.name@)],
        None => Seq::empty(),
    };
    let act: Seq<Seq<char>> = match opt_view(e.actor_display_name) {
        Some(a) => seq!["**Actor:** "@ + escape_md(a) + actor_suffix(opt_view(e.actor_username))],
        None => Seq::empty(),
    };
    let tail: Seq<Seq<char>> = match latest_message_text(opt_view(e.latest_message_html)) {
        Some(m) => seq![Seq::empty(), "**Latest Message**"@, quoted(m)],
        None => Seq::empty(),
    };
    assert(lines == head + cat + act + extra + tail);
    assert((head + cat + act).len() == h);
    assert forall|i: int| 0 <= i < e.extra_lines@.len() implies lines[h + i] == (
    #[trigger] e.extra_lines@[i])@ by {
        assert(lines[h + i] == extra[i]);
    }
    assert(lines[0] == head[0]);
    assert(lines[1] == head[1]);
    assert(lines[2] == head[2]);
    assert(("**Ticket:** "@ + md_link(d.ticket.subject@, ticket_admin_url(app, d))).take(
        "**Ticket:** "@.len() as int,
    ) =~= "**Ticket:** "@);
    assert(("**Client:** @"@ + escape_md(d.ticket.creator.username@)).take(
        "**Client:** @"@.len() as int,
    ) =~= "**Client:** @"@);
    assert(("**Linked Server:** "@ + server_line).take("**Linked Server:** "@.len() as int)
        =~= "**Linked Server:** "@);
}

/// A rendered notification stays within Discord's limits (the description
/// has at most 4096 characters and every field value at most 1024) and
/// pings nobody: no kind of mention is resolved, whatever the ticket's text.
pub proof fn lemma_rendered_within_limits(
    m: DiscordWebhookMessage,
    target: Seq<char>,
    app: PanelApp,
    d: ApiTicketDetail,
    e: DiscordWebhookEvent,
)
    requires
        renders(m, target, app, d, e),
    ensures
        m.description@.len() <= 4096,
        forall|i: int| 0 <= i < m.fields@.len() ==> (#[trigger] m.fields@[i]).value@.len() <= 1024,
        m.allowed_mentions@.len() == 0,
{
    crate::discord_format::lemma_truncated_fits(join(description_lines(app, d, e), seq!['\n']), 4096);
    assert forall|x: Seq<char>| #[trigger] truncated(x, 1024).len() <= 1024 by {
        crate::discord_format::lemma_truncated_fits(x, 1024);
    }
    let fs = embed_fields(d, e);
    let base = seq![
        ("Client"@, truncated("@"@ + escape_md(d.ticket.creator.username@), 1024)),
        ("Status"@, truncated(humanize(d.ticket.status@), 1024)),
        ("Priority"@, truncated(
            match d.ticket.priority {
                Some(p) => humanize(p@),
                None => "Normal"@,
            },
            1024,
        )),
    ];
    let catp = match d.ticket.category {
        Some(c) => seq![("Category"@, truncated(escape_md(c.name@), 1024))],
        None => Seq::<(Seq<char>, Seq<char>)>::empty(),
    };
    let actp = match opt_view(e.actor_display_name) {
        Some(a) => seq![
            ("Actor"@, truncated(escape_md(a) + actor_suffix(opt_view(e.actor_username)), 1024)),
        ],
        None => Seq::<(Seq<char>, Seq<char>)>::empty(),
    };
    assert(fs == base + catp + actp);
    assert forall|i: int| 0 <= i < m.fields@.len() implies (#[trigger] m.fields@[i]).value@.len()
        <= 1024 by {
        assert(fields_view(m.fields)[i] == (m.fields@[i].name@, m.fields@[i].value@));
        if i < 3 {
            assert(fs[i] == base[i]);
        } else if i < 3 + catp.len() {
            assert(fs[i] == catp[i - 3]);
        } else {
            assert(fs[i] == actp[i - 3 - catp.len()]);
        }
    }
}

} // verus!
