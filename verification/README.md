# supportsystem

Support tickets for a game-server panel: clients open tickets (optionally
linked to one of their servers), attach images and videos, and talk to
staff; staff reply, leave internal notes, change status, priority and
category, assign tickets and delete them; activity can be announced to a
Discord webhook.

## Layout

- `src/` — the verified library (Verus). The support system's rules are
  here, stated in `requires`/`ensures` over `Seq`, `Option` and the
  library's own records, and proved; `app/` loads the rows they need (with
  queries that select and order, such as a ticket's messages or a page of a
  listing) and writes what they decide:
  - `lifecycle.rs` — the ticket state machine: each operation is planned
    from the stored ticket and the request into the next state, the audit
    event, the message to store and the notification to send; laws on
    consistency, deleted tickets, and client access.
  - `manager.rs` — normalising requests, listing filters and pages, shaping
    stored rows for the API, which messages a reader sees, settings and
    webhook URLs, who may download an attachment.
  - `multipart.rs` — multipart form fields, attachment naming, typing and
    size limits.
  - `discord_format.rs`, `discord_webhook.rs` — rendering notifications as
    Discord markdown within Discord's limits.
  - `permissions.rs`, `models.rs`, `error.rs`, `ids.rs`, `text.rs` —
    permissions, records and request validation, errors, uuids, and the
    character-level text operations the rest is stated with.
- `tests/` — tests of the library on concrete values.
- `app/` — the panel extension around the library: routes, database,
  storage, multipart reading and webhook delivery.
