//! Text rendering for Discord notifications: markdown escaping, slug
//! humanizing, quoting, truncation and HTML flattening.
use vstd::prelude::*;

use crate::text::{
    ascii_upper, chars_of, extend_chars, extend_str, free_of, is_ws, join, lemma_split_join,
    lemma_split_on_nonempty, lemma_split_pieces_free, join_chars, non_empty_pieces,
    replace_all, replace_str, slice_to_vec, split_chars, split_on, starts_with, starts_with_chars,
    string_of, to_ascii_uppercase, trim, trim_chars, trim_end, trim_end_char, trim_end_char_chars,
    trim_bounds, trim_end_chars, trim_start_char, trim_start_char_chars,
};

verus! {

/// The first character upper-cased (ASCII only), the rest unchanged.
pub open spec fn capitalize(seg: Seq<char>) -> Seq<char> {
    if seg.len() == 0 {
        seg
    } else {
        seq![ascii_upper(seg[0])] + seg.drop_first()
    }
}

/// `snake_case_value` rendered as `Snake Case Value`: the non-empty pieces
/// between underscores, each capitalized, joined by single spaces.
pub open spec fn humanize(s: Seq<char>) -> Seq<char> {
    join(non_empty_pieces(split_on(s, '_')).map_values(|p: Seq<char>| capitalize(p)), seq![' '])
}

fn capitalize_chars(seg: &Vec<char>) -> (r: Vec<char>)
    ensures
        r@ == capitalize(seg@),
{
    if seg.len() == 0 {
        return Vec::new();
    }
    let mut r: Vec<char> = Vec::new();
    r.push(to_ascii_uppercase(seg[0]));
    let rest = slice_to_vec(seg, 1, seg.len());
    assert(rest@ == seg@.drop_first());
    extend_chars(&mut r, &rest);
    r
}

/// The humanized form of a snake_case value.
pub fn humanize_chars(s: &Vec<char>) -> (r: Vec<char>)
    ensures
        r@ == humanize(s@),
{
    let parts = split_chars(s, '_');
    let ghost pv = parts@.map_values(|v: Vec<char>| v@);
    let mut caps: Vec<Vec<char>> = Vec::new();
    let mut i: usize = 0;
    while i < parts.len()
        invariant
            i <= parts.len(),
            pv == parts@.map_values(|v: Vec<char>| v@),
            caps@.map_values(|v: Vec<char>| v@) == non_empty_pieces(pv.take(i as int)).map_values(
                |p: Seq<char>| capitalize(p),
            ),
        decreases parts.len() - i,
    {
        assert(pv.take(i + 1).drop_last() == pv.take(i as int));
        assert(pv.take(i + 1).last() == parts@[i as int]@);
        if parts[i].len() > 0 {
            let c = capitalize_chars(&parts[i]);
            let ghost before = caps@.map_values(|v: Vec<char>| v@);
            caps.push(c);
            assert(caps@.map_values(|v: Vec<char>| v@) == before.push(c@));
            assert(non_empty_pieces(pv.take(i + 1)) == non_empty_pieces(pv.take(i as int)).push(
                parts@[i as int]@,
            ));
            assert(non_empty_pieces(pv.take(i + 1)).map_values(|p: Seq<char>| capitalize(p))
                == non_empty_pieces(pv.take(i as int)).map_values(|p: Seq<char>| capitalize(p)).push(
                capitalize(parts@[i as int]@),
            ));
        }
        i = i + 1;
    }
    assert(pv.take(parts.len() as int) == pv);
    assert(pv == split_on(s@, '_'));
    let mut sep: Vec<char> = Vec::new();
    sep.push(' ');
    join_chars(&caps, &sep)
}

/// `snake_case_value` rendered as `Snake Case Value`.
pub fn humanize_slug(value: &str) -> (r: String)
    ensures
        r@ == humanize(value@),
{
    let v = chars_of(value);
    let h = humanize_chars(&v);
    string_of(&h)
}

/// Markdown emphasis and code characters escaped with a backslash.
pub open spec fn escape_md(s: Seq<char>) -> Seq<char> {
    replace_all(
        replace_all(replace_all(s, "*"@, "\\*"@), "_"@, "\\_"@),
        "`"@,
        "\\`"@,
    )
}

/// Markdown escaping plus escaped brackets and parentheses, for link labels.
pub open spec fn escape_md_link_label(s: Seq<char>) -> Seq<char> {
    replace_all(
        replace_all(
            replace_all(replace_all(escape_md(s), "["@, "\\["@), "]"@, "\\]"@),
            "("@,
            "\\("@,
        ),
        ")"@,
        "\\)"@,
    )
}

/// A markdown link `[label](url)` with the label escaped.
pub open spec fn md_link(label: Seq<char>, url: Seq<char>) -> Seq<char> {
    "["@ + escape_md_link_label(label) + "]("@ + url + ")"@
}

proof fn lemma_single_char_literals()
    ensures
        "*"@.len() == 1,
        "_"@.len() == 1,
        "`"@.len() == 1,
        "["@.len() == 1,
        "]"@.len() == 1,
        "("@.len() == 1,
        ")"@.len() == 1,
{
    reveal_strlit("*");
    reveal_strlit("_");
    reveal_strlit("`");
    reveal_strlit("[");
    reveal_strlit("]");
    reveal_strlit("(");
    reveal_strlit(")");
}

pub fn escape_markdown_chars(s: &Vec<char>) -> (r: Vec<char>)
    ensures
        r@ == escape_md(s@),
{
    proof {
        lemma_single_char_literals();
    }
    let a = replace_str(s, "*", "\\*");
    let b = replace_str(&a, "_", "\\_");
    replace_str(&b, "`", "\\`")
}

/// The text with `*`, `_` and `` ` `` escaped for Discord markdown.
pub fn escape_markdown(value: &str) -> (r: String)
    ensures
        r@ == escape_md(value@),
{
    let v = chars_of(value);
    let e = escape_markdown_chars(&v);
    string_of(&e)
}

pub fn escape_markdown_link_label_chars(s: &Vec<char>) -> (r: Vec<char>)
    ensures
        r@ == escape_md_link_label(s@),
{
    proof {
        lemma_single_char_literals();
    }
    let a = escape_markdown_chars(s);
    let b = replace_str(&a, "[", "\\[");
    let c = replace_str(&b, "]", "\\]");
    let d = replace_str(&c, "(", "\\(");
    replace_str(&d, ")", "\\)")
}

/// A link label escaped so that it cannot break out of `[...]`.
pub fn escape_markdown_link_label(value: &str) -> (r: String)
    ensures
        r@ == escape_md_link_label(value@),
{
    let v = chars_of(value);
    let e = escape_markdown_link_label_chars(&v);
    string_of(&e)
}

pub fn format_markdown_link_chars(label: &Vec<char>, url: &Vec<char>) -> (r: Vec<char>)
    ensures
        r@ == md_link(label@, url@),
{
    let mut r: Vec<char> = Vec::new();
    extend_str(&mut r, "[");
    let e = escape_markdown_link_label_chars(label);
    extend_chars(&mut r, &e);
    extend_str(&mut r, "](");
    extend_chars(&mut r, url);
    extend_str(&mut r, ")");
    r
}

/// The markdown link `[label](url)`.
pub fn format_markdown_link(label: &str, url: &str) -> (r: String)
    ensures
        r@ == md_link(label@, url@),
{
    let l = chars_of(label);
    let u = chars_of(url);
    let r = format_markdown_link_chars(&l, &u);
    string_of(&r)
}

/// The trimmed text, cut to `max_len` characters: when longer, its first
/// `max_len - 1` characters (trailing whitespace removed) and an ellipsis.
pub open spec fn truncated(s: Seq<char>, max_len: nat) -> Seq<char> {
    let t = trim(s);
    if t.len() <= max_len {
        t
    } else {
        let keep: nat = if max_len >= 1 { (max_len - 1) as nat } else { 0 };
        trim_end(t.take(keep as int)) + seq!['…']
    }
}

proof fn lemma_trim_end_shorter(s: Seq<char>)
    ensures
        trim_end(s).len() <= s.len(),
    decreases s.len(),
{
    if s.len() > 0 && is_ws(s.last()) {
        lemma_trim_end_shorter(s.drop_last());
    }
}

/// A truncated text is never longer than the limit (for a positive limit).
pub proof fn lemma_truncated_fits(s: Seq<char>, max_len: nat)
    requires
        max_len >= 1,
    ensures
        truncated(s, max_len).len() <= max_len,
{
    let t = trim(s);
    if t.len() > max_len {
        lemma_trim_end_shorter(t.take((max_len - 1) as int));
    }
}

pub fn truncate_for_discord_chars(s: &Vec<char>, max_len: usize) -> (r: Vec<char>)
    ensures
        r@ == truncated(s@, max_len as nat),
{
    let t = trim_chars(s);
    if t.len() <= max_len {
        return t;
    }
    let keep = if max_len >= 1 { max_len - 1 } else { 0 };
    let head = slice_to_vec(&t, 0, keep);
    let mut r = trim_end_chars(&head);
    r.push('…');
    r
}

/// The text trimmed and cut to at most `max_len` characters, ending in an
/// ellipsis when it was cut.
pub fn truncate_for_discord(value: &str, max_len: usize) -> (r: String)
    ensures
        r@ == truncated(value@, max_len as nat),
{
    let v = chars_of(value);
    let r = truncate_for_discord_chars(&v, max_len);
    string_of(&r)
}

/// The URL of the application icon: none for a blank icon, the icon itself
/// when it is an absolute http(s) URL, and otherwise the icon path joined
/// to the panel URL with exactly one slash.
pub open spec fn app_icon_url(panel_url: Seq<char>, icon: Seq<char>) -> Option<Seq<char>> {
    let t = trim(icon);
    if t.len() == 0 {
        None
    } else if starts_with(t, "http://"@) || starts_with(t, "https://"@) {
        Some(t)
    } else if starts_with(t, seq!['/']) {
        Some(trim_end_char(panel_url, '/') + t)
    } else {
        Some(trim_end_char(panel_url, '/') + seq!['/'] + trim_start_char(t, '/'))
    }
}

pub fn resolve_app_icon_url_chars(panel_url: &Vec<char>, icon: &Vec<char>) -> (r: Option<Vec<char>>)
    ensures
        r matches Some(v) ==> app_icon_url(panel_url@, icon@) == Some(v@),
        r is None <==> app_icon_url(panel_url@, icon@) is None,
{
    let t = trim_chars(icon);
    if t.len() == 0 {
        return None;
    }
    let http = chars_of("http://");
    let https = chars_of("https://");
    if starts_with_chars(&t, &http) || starts_with_chars(&t, &https) {
        return Some(t);
    }
    let mut slash: Vec<char> = Vec::new();
    slash.push('/');
    let mut r = trim_end_char_chars(panel_url, '/');
    if starts_with_chars(&t, &slash) {
        extend_chars(&mut r, &t);
    } else {
        r.push('/');
        let rest = trim_start_char_chars(&t, '/');
        extend_chars(&mut r, &rest);
    }
    Some(r)
}

/// The absolute URL of the application icon, if one is configured.
pub fn resolve_app_icon_url(panel_url: &str, icon: &str) -> (r: Option<String>)
    ensures
        r matches Some(v) ==> app_icon_url(panel_url@, icon@) == Some(v@),
        r is None <==> app_icon_url(panel_url@, icon@) is None,
{
    let p = chars_of(panel_url);
    let i = chars_of(icon);
    match resolve_app_icon_url_chars(&p, &i) {
        Some(v) => Some(string_of(&v)),
        None => None,
    }
}


/// A line without one trailing carriage return.
pub open spec fn strip_cr(l: Seq<char>) -> Seq<char> {
    if l.len() > 0 && l.last() == '\r' {
        l.drop_last()
    } else {
        l
    }
}

/// The lines of a text (`str::lines`): the pieces between `\n`, without a
/// final empty piece, each piece that was ended by `\n` also losing one `\r`.
pub open spec fn text_lines(s: Seq<char>) -> Seq<Seq<char>> {
    let pieces = split_on(s, '\n');
    let kept = if pieces.last().len() == 0 {
        pieces.drop_last()
    } else {
        pieces
    };
    Seq::new(
        kept.len(),
        |k: int|
            if k < pieces.len() - 1 {
                strip_cr(kept[k])
            } else {
                kept[k]
            },
    )
}

/// A line quoted for Discord: `>` for a blank line, `> line` otherwise.
pub open spec fn quote_line(l: Seq<char>) -> Seq<char> {
    if trim(l).len() == 0 {
        ">"@
    } else {
        "> "@ + l
    }
}

/// Every line of the text quoted, joined by newlines.
pub open spec fn quoted(s: Seq<char>) -> Seq<char> {
    join(text_lines(s).map_values(|l: Seq<char>| quote_line(l)), seq!['\n'])
}

/// Quoting keeps the text's lines apart: a text without lines quotes to
/// nothing, and otherwise splitting the quoted text at newlines gives one
/// piece per line, in order: `>` for a blank line, `> ` and the line kept
/// as it is otherwise.
pub proof fn lemma_quoted_lines(s: Seq<char>)
    ensures
        text_lines(s).len() == 0 ==> quoted(s).len() == 0,
        text_lines(s).len() > 0 ==> split_on(quoted(s), '\n') == text_lines(s).map_values(
            |l: Seq<char>| quote_line(l),
        ),
        text_lines(s).len() > 0 ==> split_on(quoted(s), '\n').len() == text_lines(s).len(),
        forall|k: int|
            0 <= k < text_lines(s).len() ==> split_on(quoted(s), '\n')[k] == quote_line(
                #[trigger] text_lines(s)[k],
            ),
{
    let lines = text_lines(s);
    let q = lines.map_values(|l: Seq<char>| quote_line(l));
    if lines.len() == 0 {
        assert(q.len() == 0);
    } else {
        let pieces = split_on(s, '\n');
        lemma_split_pieces_free(s, '\n');
        reveal_strlit(">");
        reveal_strlit("> ");
        assert forall|k: int| 0 <= k < q.len() implies free_of(#[trigger] q[k], '\n') by {
            lemma_split_on_nonempty(s, '\n');
            assert(k < pieces.len());
            let p = pieces[k];
            assert(free_of(p, '\n'));
            let l = lines[k];
            assert(l == p || l == strip_cr(p));
            assert(l.len() <= p.len());
            assert(free_of(l, '\n')) by {
                assert forall|i: int| 0 <= i < l.len() implies #[trigger] l[i] != '\n' by {
                    assert(l[i] == p[i]);
                }
            }
            let ql = quote_line(l);
            assert(free_of(ql, '\n')) by {
                assert forall|i: int| 0 <= i < ql.len() implies #[trigger] ql[i] != '\n' by {
                    if trim(l).len() != 0 && i >= 2 {
                        assert(ql[i] == l[i - 2]);
                    }
                }
            }
        }
        lemma_split_join(q, '\n');
    }
}

fn quote_line_chars(l: &Vec<char>) -> (r: Vec<char>)
    ensures
        r@ == quote_line(l@),
{
    let t = trim_chars(l);
    let mut r: Vec<char> = Vec::new();
    if t.len() == 0 {
        extend_str(&mut r, ">");
    } else {
        extend_str(&mut r, "> ");
        extend_chars(&mut r, l);
    }
    r
}

pub fn quote_discord_text_chars(s: &Vec<char>) -> (r: Vec<char>)
    ensures
        r@ == quoted(s@),
{
    let parts = split_chars(s, '\n');
    let ghost pieces = split_on(s@, '\n');
    let ghost lines = text_lines(s@);
    assert(parts@.map_values(|v: Vec<char>| v@) == pieces);
    let n = parts.len();
    let m = if parts[n - 1].len() == 0 { n - 1 } else { n };
    assert(lines.len() == m);
    let mut out: Vec<Vec<char>> = Vec::new();
    let mut k: usize = 0;
    while k < m
        invariant
            k <= m,
            m <= n,
            n == parts.len(),
            pieces == parts@.map_values(|v: Vec<char>| v@),
            lines == text_lines(s@),
            pieces == split_on(s@, '\n'),
            lines.len() == m,
            out@.map_values(|v: Vec<char>| v@) == lines.take(k as int).map_values(
                |l: Seq<char>| quote_line(l),
            ),
        decreases m - k,
    {
        let line = if k + 1 < n {
            let p = &parts[k];
            if p.len() > 0 && p[p.len() - 1] == '\r' {
                slice_to_vec(p, 0, p.len() - 1)
            } else {
                slice_to_vec(p, 0, p.len())
            }
        } else {
            slice_to_vec(&parts[k], 0, parts[k].len())
        };
        assert(line@ == lines[k as int]);
        let q = quote_line_chars(&line);
        let ghost before = out@.map_values(|v: Vec<char>| v@);
        out.push(q);
        assert(out@.map_values(|v: Vec<char>| v@) == before.push(q@));
        assert(lines.take(k + 1) == lines.take(k as int).push(lines[k as int]));
        assert(lines.take(k + 1).map_values(|l: Seq<char>| quote_line(l)) == lines.take(
            k as int,
        ).map_values(|l: Seq<char>| quote_line(l)).push(quote_line(lines[k as int])));
        k = k + 1;
    }
    assert(lines.take(m as int) == lines);
    let mut sep: Vec<char> = Vec::new();
    sep.push('\n');
    join_chars(&out, &sep)
}

/// Every line of the text prefixed with `> ` (blank lines become `>`).
pub fn quote_discord_text(value: &str) -> (r: String)
    ensures
        r@ == quoted(value@),
{
    let v = chars_of(value);
    let r = quote_discord_text_chars(&v);
    string_of(&r)
}


/// The HTML tags and entities that have a markdown or plain-text
/// equivalent, each replaced in turn.
pub open spec fn html_replaced(s: Seq<char>) -> Seq<char> {
    let s = replace_all(s, "<br>"@, "\n"@);
    let s = replace_all(s, "<br/>"@, "\n"@);
    let s = replace_all(s, "<br />"@, "\n"@);
    let s = replace_all(s, "</p>"@, "\n\n"@);
    let s = replace_all(s, "</div>"@, "\n"@);
    let s = replace_all(s, "</li>"@, "\n"@);
    let s = replace_all(s, "<li>"@, "• "@);
    let s = replace_all(s, "<strong>"@, "**"@);
    let s = replace_all(s, "</strong>"@, "**"@);
    let s = replace_all(s, "<b>"@, "**"@);
    let s = replace_all(s, "</b>"@, "**"@);
    let s = replace_all(s, "<em>"@, "*"@);
    let s = replace_all(s, "</em>"@, "*"@);
    let s = replace_all(s, "<i>"@, "*"@);
    let s = replace_all(s, "</i>"@, "*"@);
    let s = replace_all(s, "<s>"@, "~~"@);
    let s = replace_all(s, "</s>"@, "~~"@);
    let s = replace_all(s, "<code>"@, "`"@);
    let s = replace_all(s, "</code>"@, "`"@);
    let s = replace_all(s, "<pre>"@, "```\n"@);
    let s = replace_all(s, "</pre>"@, "\n```"@);
    let s = replace_all(s, "&nbsp;"@, " "@);
    let s = replace_all(s, "&amp;"@, "&"@);
    let s = replace_all(s, "&lt;"@, "<"@);
    let s = replace_all(s, "&gt;"@, ">"@);
    let s = replace_all(s, "&quot;"@, "\""@);
    let s = replace_all(s, "&#39;"@, "'"@);
    s
}

/// The characters outside `<...>` tags; `inside` tells whether the text
/// starts inside a tag.
pub open spec fn strip_tags(s: Seq<char>, inside: bool) -> Seq<char>
    decreases s.len(),
{
    if s.len() == 0 {
        s
    } else if s[0] == '<' {
        strip_tags(s.drop_first(), true)
    } else if s[0] == '>' {
        strip_tags(s.drop_first(), false)
    } else if !inside {
        seq![s[0]] + strip_tags(s.drop_first(), inside)
    } else {
        strip_tags(s.drop_first(), inside)
    }
}

/// The text with every run of newlines cut to at most two; `run` counts the
/// newlines that directly precede the text.
pub open spec fn collapse_newlines(s: Seq<char>, run: nat) -> Seq<char>
    decreases s.len(),
{
    if s.len() == 0 {
        s
    } else if s[0] == '\n' {
        if run + 1 <= 2 {
            seq![s[0]] + collapse_newlines(s.drop_first(), run + 1)
        } else {
            collapse_newlines(s.drop_first(), run + 1)
        }
    } else {
        seq![s[0]] + collapse_newlines(s.drop_first(), 0)
    }
}

/// HTML message text flattened for Discord: tags and entities replaced,
/// remaining tags dropped, newline runs cut to two, whitespace trimmed.
pub open spec fn html_to_text(s: Seq<char>) -> Seq<char> {
    trim(collapse_newlines(strip_tags(html_replaced(s), false), 0))
}

proof fn lemma_html_patterns_non_empty()
    ensures
        "<br>"@.len() > 0,
        "<br/>"@.len() > 0,
        "<br />"@.len() > 0,
        "</p>"@.len() > 0,
        "</div>"@.len() > 0,
        "</li>"@.len() > 0,
        "<li>"@.len() > 0,
        "<strong>"@.len() > 0,
        "</strong>"@.len() > 0,
        "<b>"@.len() > 0,
        "</b>"@.len() > 0,
        "<em>"@.len() > 0,
        "</em>"@.len() > 0,
        "<i>"@.len() > 0,
        "</i>"@.len() > 0,
        "<s>"@.len() > 0,
        "</s>"@.len() > 0,
        "<code>"@.len() > 0,
        "</code>"@.len() > 0,
        "<pre>"@.len() > 0,
        "</pre>"@.len() > 0,
        "&nbsp;"@.len() > 0,
        "&amp;"@.len() > 0,
        "&lt;"@.len() > 0,
        "&gt;"@.len() > 0,
        "&quot;"@.len() > 0,
        "&#39;"@.len() > 0,
{
    reveal_strlit("<br>");
    reveal_strlit("<br/>");
    reveal_strlit("<br />");
    reveal_strlit("</p>");
    reveal_strlit("</div>");
    reveal_strlit("</li>");
    reveal_strlit("<li>");
    reveal_strlit("<strong>");
    reveal_strlit("</strong>");
    reveal_strlit("<b>");
    reveal_strlit("</b>");
    reveal_strlit("<em>");
    reveal_strlit("</em>");
    reveal_strlit("<i>");
    reveal_strlit("</i>");
    reveal_strlit("<s>");
    reveal_strlit("</s>");
    reveal_strlit("<code>");
    reveal_strlit("</code>");
    reveal_strlit("<pre>");
    reveal_strlit("</pre>");
    reveal_strlit("&nbsp;");
    reveal_strlit("&amp;");
    reveal_strlit("&lt;");
    reveal_strlit("&gt;");
    reveal_strlit("&quot;");
    reveal_strlit("&#39;");
}

fn html_replace_chars(s: &Vec<char>) -> (r: Vec<char>)
    ensures
        r@ == html_replaced(s@),
{
    proof {
        lemma_html_patterns_non_empty();
    }
    assert(s@.subrange(0, s.len() as int) == s@);
    let s = slice_to_vec(s, 0, s.len());
    let s = replace_str(&s, "<br>", "\n");
    let s = replace_str(&s, "<br/>", "\n");
    let s = replace_str(&s, "<br />", "\n");
    let s = replace_str(&s, "</p>", "\n\n");
    let s = replace_str(&s, "</div>", "\n");
    let s = replace_str(&s, "</li>", "\n");
    let s = replace_str(&s, "<li>", "• ");
    let s = replace_str(&s, "<strong>", "**");
    let s = replace_str(&s, "</strong>", "**");
    let s = replace_str(&s, "<b>", "**");
    let s = replace_str(&s, "</b>", "**");
    let s = replace_str(&s, "<em>", "*");
    let s = replace_str(&s, "</em>", "*");
    let s = replace_str(&s, "<i>", "*");
    let s = replace_str(&s, "</i>", "*");
    let s = replace_str(&s, "<s>", "~~");
    let s = replace_str(&s, "</s>", "~~");
    let s = replace_str(&s, "<code>", "`");
    let s = replace_str(&s, "</code>", "`");
    let s = replace_str(&s, "<pre>", "```\n");
    let s = replace_str(&s, "</pre>", "\n```");
    let s = replace_str(&s, "&nbsp;", " ");
    let s = replace_str(&s, "&amp;", "&");
    let s = replace_str(&s, "&lt;", "<");
    let s = replace_str(&s, "&gt;", ">");
    let s = replace_str(&s, "&quot;", "\"");
    let s = replace_str(&s, "&#39;", "'");
    s
}

fn strip_tags_chars(s: &Vec<char>) -> (r: Vec<char>)
    ensures
        r@ == strip_tags(s@, false),
{
    let mut out: Vec<char> = Vec::new();
    let mut inside = false;
    let mut i: usize = 0;
    assert(s@.skip(0) == s@);
    while i < s.len()
        invariant
            i <= s.len(),
            out@ + strip_tags(s@.skip(i as int), inside) == strip_tags(s@, false),
        decreases s.len() - i,
    {
        let c = s[i];
        let ghost rest = s@.skip(i as int);
        assert(rest[0] == c);
        assert(rest.drop_first() == s@.skip(i + 1));
        if c == '<' {
            inside = true;
        } else if c == '>' {
            inside = false;
        } else if !inside {
            let ghost before = out@;
            out.push(c);
            assert(before + (seq![c] + strip_tags(s@.skip(i + 1), inside)) == out@ + strip_tags(
                s@.skip(i + 1),
                inside,
            ));
        }
        i = i + 1;
    }
    assert(out@ + strip_tags(s@.skip(i as int), inside) == out@);
    out
}

fn collapse_newlines_chars(s: &Vec<char>) -> (r: Vec<char>)
    ensures
        r@ == collapse_newlines(s@, 0),
{
    let mut out: Vec<char> = Vec::new();
    let mut run: usize = 0;
    let mut i: usize = 0;
    assert(s@.skip(0) == s@);
    while i < s.len()
        invariant
            i <= s.len(),
            run <= i,
            out@ + collapse_newlines(s@.skip(i as int), run as nat) == collapse_newlines(s@, 0),
        decreases s.len() - i,
    {
        let c = s[i];
        let ghost rest = s@.skip(i as int);
        assert(rest[0] == c);
        assert(rest.drop_first() == s@.skip(i + 1));
        let ghost before = out@;
        if c == '\n' {
            run = run + 1;
            if run <= 2 {
                out.push(c);
                assert(before + (seq![c] + collapse_newlines(s@.skip(i + 1), run as nat)) == out@
                    + collapse_newlines(s@.skip(i + 1), run as nat));
            }
        } else {
            run = 0;
            out.push(c);
            assert(before + (seq![c] + collapse_newlines(s@.skip(i + 1), 0)) == out@
                + collapse_newlines(s@.skip(i + 1), 0));
        }
        i = i + 1;
    }
    assert(out@ + collapse_newlines(s@.skip(i as int), run as nat) == out@);
    out
}

pub fn html_to_discord_text_chars(s: &Vec<char>) -> (r: Vec<char>)
    ensures
        r@ == html_to_text(s@),
{
    let a = html_replace_chars(s);
    let b = strip_tags_chars(&a);
    let c = collapse_newlines_chars(&b);
    trim_chars(&c)
}

/// HTML message text flattened to Discord markdown.
pub fn html_to_discord_text(value: &str) -> (r: String)
    ensures
        r@ == html_to_text(value@),
{
    let v = chars_of(value);
    let r = html_to_discord_text_chars(&v);
    string_of(&r)
}


/// The text holds no `<` and no `>`.
pub open spec fn no_angle_brackets(s: Seq<char>) -> bool {
    forall|i: int| 0 <= i < s.len() ==> s[i] != '<' && s[i] != '>'
}

/// The text holds no three newlines in a row.
pub open spec fn no_triple_newline(s: Seq<char>) -> bool {
    forall|i: int|
        0 <= i && i + 2 < s.len() ==> !(#[trigger] s[i] == '\n' && s[i + 1] == '\n' && s[i + 2]
            == '\n')
}

proof fn lemma_strip_tags_no_angle(s: Seq<char>, inside: bool)
    ensures
        no_angle_brackets(strip_tags(s, inside)),
    decreases s.len(),
{
    if s.len() > 0 {
        if s[0] == '<' {
            lemma_strip_tags_no_angle(s.drop_first(), true);
        } else if s[0] == '>' {
            lemma_strip_tags_no_angle(s.drop_first(), false);
        } else {
            lemma_strip_tags_no_angle(s.drop_first(), inside);
            let r = strip_tags(s.drop_first(), inside);
            if !inside {
                assert forall|i: int| 0 <= i < r.len() + 1 implies (seq![s[0]] + r)[i] != '<'
                    && (seq![s[0]] + r)[i] != '>' by {
                    if i > 0 {
                        assert((seq![s[0]] + r)[i] == r[i - 1]);
                    }
                }
            }
        }
    }
}

/// What `collapse_newlines` gives after `run` newlines: no triple newline,
/// and no newline run that would reach three with the preceding ones.
pub open spec fn collapsed_after(o: Seq<char>, run: nat) -> bool {
    &&& no_triple_newline(o)
    &&& run >= 2 ==> !(o.len() > 0 && o[0] == '\n')
    &&& run == 1 ==> !(o.len() > 1 && o[0] == '\n' && o[1] == '\n')
}

proof fn lemma_collapse_properties(s: Seq<char>, run: nat)
    ensures
        collapsed_after(collapse_newlines(s, run), run),
        no_angle_brackets(s) ==> no_angle_brackets(collapse_newlines(s, run)),
    decreases s.len(),
{
    if s.len() > 0 {
        let rest = s.drop_first();
        if no_angle_brackets(s) {
            assert(no_angle_brackets(rest)) by {
                assert forall|i: int| 0 <= i < rest.len() implies rest[i] != '<' && rest[i]
                    != '>' by {
                    assert(rest[i] == s[i + 1]);
                }
            }
        }
        if s[0] == '\n' {
            lemma_collapse_properties(rest, run + 1);
            let r = collapse_newlines(rest, run + 1);
            if run + 1 <= 2 {
                let o = seq![s[0]] + r;
                assert forall|i: int| 0 <= i && i + 2 < o.len() implies !(#[trigger] o[i] == '\n'
                    && o[i + 1] == '\n' && o[i + 2] == '\n') by {
                    if i > 0 {
                        assert(o[i] == r[i - 1]);
                        assert(o[i + 1] == r[i]);
                        assert(o[i + 2] == r[i + 1]);
                    } else {
                        assert(o[1] == r[0]);
                        assert(o[2] == r[1]);
                    }
                }
                if no_angle_brackets(s) {
                    assert forall|i: int| 0 <= i < o.len() implies o[i] != '<' && o[i] != '>' by {
                        if i > 0 {
                            assert(o[i] == r[i - 1]);
                        }
                    }
                }
            }
        } else {
            lemma_collapse_properties(rest, 0);
            let r = collapse_newlines(rest, 0);
            let o = seq![s[0]] + r;
            assert forall|i: int| 0 <= i && i + 2 < o.len() implies !(#[trigger] o[i] == '\n'
                && o[i + 1] == '\n' && o[i + 2] == '\n') by {
                if i > 0 {
                    assert(o[i] == r[i - 1]);
                    assert(o[i + 1] == r[i]);
                    assert(o[i + 2] == r[i + 1]);
                }
            }
            if no_angle_brackets(s) {
                assert forall|i: int| 0 <= i < o.len() implies o[i] != '<' && o[i] != '>' by {
                    if i > 0 {
                        assert(o[i] == r[i - 1]);
                    }
                }
            }
        }
    }
}

/// Text flattened from HTML holds no angle brackets (every tag is gone) and
/// never three newlines in a row.
pub proof fn lemma_html_to_text_clean(s: Seq<char>)
    ensures
        no_angle_brackets(html_to_text(s)),
        no_triple_newline(html_to_text(s)),
{
    let stripped = strip_tags(html_replaced(s), false);
    lemma_strip_tags_no_angle(html_replaced(s), false);
    lemma_collapse_properties(stripped, 0);
    let c = collapse_newlines(stripped, 0);
    let (a, b) = trim_bounds(c);
    let t = c.subrange(a, b);
    assert forall|i: int| 0 <= i < t.len() implies t[i] != '<' && t[i] != '>' by {
        assert(t[i] == c[a + i]);
    }
    assert forall|i: int| 0 <= i && i + 2 < t.len() implies !(#[trigger] t[i] == '\n' && t[i
        + 1] == '\n' && t[i + 2] == '\n') by {
        assert(t[i] == c[a + i]);
        assert(t[i + 1] == c[a + i + 1]);
        assert(t[i + 2] == c[a + i + 2]);
    }
}

} // verus!
