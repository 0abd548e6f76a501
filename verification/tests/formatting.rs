use supportsystem::discord_format::{
    escape_markdown, escape_markdown_link_label, format_markdown_link, html_to_discord_text,
    humanize_slug, quote_discord_text, resolve_app_icon_url, truncate_for_discord,
};
use supportsystem::manager::humanize_ticket_value;

#[test]
fn humanize_slug_capitalizes_each_word() {
    assert_eq!(humanize_slug("waiting_on_staff"), "Waiting On Staff");
    assert_eq!(humanize_slug("__a__b_"), "A B");
    assert_eq!(humanize_slug(""), "");
    assert_eq!(humanize_ticket_value("install_failed"), "Install Failed");
}

#[test]
fn escape_markdown_escapes_emphasis_and_code() {
    assert_eq!(escape_markdown("a*b_c`d"), "a\\*b\\_c\\`d");
    assert_eq!(escape_markdown("plain"), "plain");
}

#[test]
fn link_labels_escape_brackets_and_parentheses() {
    assert_eq!(escape_markdown_link_label("[x](y)"), "\\[x\\]\\(y\\)");
    assert_eq!(
        format_markdown_link("Ticket [1]", "https://panel.example/t/1"),
        "[Ticket \\[1\\]](https://panel.example/t/1)"
    );
}

#[test]
fn quoting_prefixes_every_line() {
    assert_eq!(quote_discord_text("hello\n\nworld"), "> hello\n>\n> world");
    assert_eq!(quote_discord_text("a\r\nb\n"), "> a\n> b");
    assert_eq!(quote_discord_text(""), "");
    assert_eq!(quote_discord_text("   \nx"), ">\n> x");
}

#[test]
fn app_icon_urls_resolve_against_the_panel() {
    assert_eq!(resolve_app_icon_url("https://panel.example/", "  "), None);
    assert_eq!(
        resolve_app_icon_url("https://panel.example/", " https://cdn.example/x.png "),
        Some("https://cdn.example/x.png".to_string())
    );
    assert_eq!(
        resolve_app_icon_url("https://panel.example/", "/icon.png"),
        Some("https://panel.example/icon.png".to_string())
    );
    assert_eq!(
        resolve_app_icon_url("https://panel.example//", "icon.png"),
        Some("https://panel.example/icon.png".to_string())
    );
}

#[test]
fn truncation_keeps_short_text_trimmed() {
    assert_eq!(truncate_for_discord("  hello  ", 10), "hello");
    assert_eq!(truncate_for_discord("hello", 5), "hello");
}

#[test]
fn truncation_ends_with_an_ellipsis_and_fits() {
    let out = truncate_for_discord("hello world", 6);
    assert_eq!(out, "hello…");
    assert_eq!(out.chars().count(), 6);
    assert_eq!(truncate_for_discord("ab cd", 4), "ab…");
    for max in 1..20usize {
        let t = truncate_for_discord("the quick brown fox jumps over the lazy dog", max);
        assert!(t.chars().count() <= max);
    }
}

#[test]
fn html_becomes_discord_markdown() {
    assert_eq!(
        html_to_discord_text("<p>Hello <strong>world</strong></p><p>Bye &amp; thanks</p>"),
        "Hello **world**\n\nBye & thanks"
    );
    assert_eq!(html_to_discord_text("<ul><li>one</li><li>two</li></ul>"), "• one\n• two");
    assert_eq!(html_to_discord_text("<em>x</em> <code>y</code>"), "*x* `y`");
}

#[test]
fn html_conversion_collapses_blank_lines_and_drops_tags() {
    assert_eq!(html_to_discord_text("a<br><br><br><br>b"), "a\n\nb");
    assert_eq!(html_to_discord_text("&lt;script&gt;alert(1)&lt;/script&gt;"), "alert(1)");
    let out = html_to_discord_text("<div>x</div>\n\n\n<span a='>'>y</span>&gt;");
    assert!(!out.contains('<') && !out.contains('>'));
    assert!(!out.contains("\n\n\n"));
}

#[test]
fn quoting_gives_one_piece_per_line() {
    for text in ["a\n\n b \r\nc", "one", "x\r\n\r\n", "  \n\t\nq"] {
        let lines: Vec<&str> = text.lines().collect();
        let out = quote_discord_text(text);
        let pieces: Vec<&str> = out.split('\n').collect();
        assert_eq!(pieces.len(), lines.len());
        for (piece, line) in pieces.iter().zip(lines.iter()) {
            if line.trim().is_empty() {
                assert_eq!(*piece, ">");
            } else {
                assert_eq!(*piece, format!("> {line}"));
            }
        }
    }
    assert_eq!(quote_discord_text("\n"), ">");
}
