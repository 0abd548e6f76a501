//! Multipart ticket forms: which fields are read, how attachments are named,
//! typed and bounded, and how the text fields become form values.
use vstd::prelude::*;

use crate::discord_webhook::opt_view;
use crate::error::SupportError;
use crate::ids::{optional_uuid, parse_optional_uuid};
use crate::manager::opt_result_view;
use crate::text::{
    chars_eq_str, chars_of, is_ascii_alnum, is_ascii_alphanumeric, slice_to_vec, string_of, trim,
    trim_chars,
};

verus! {

/// Attachments accepted with one message.
pub const MAX_ATTACHMENTS_PER_MESSAGE: usize = 5;

/// The largest image attachment, in bytes (12 MiB).
pub const MAX_IMAGE_ATTACHMENT_BYTES: usize = 12582912;

/// The largest video attachment, in bytes (80 MiB).
pub const MAX_VIDEO_ATTACHMENT_BYTES: usize = 83886080;

/// The largest total of the attachments of one message, in bytes (100 MiB).
pub const MAX_TOTAL_ATTACHMENT_BYTES: usize = 104857600;

/// One mebibyte.
pub const MIB: usize = 1048576;

// ---------------------------------------------------------------------
// Media types.

/// The two kinds of attachment media.
#[derive(Clone, Copy, PartialEq, Eq, Debug, Structural)]
pub enum MediaType {
    Image,
    Video,
}

/// The stored name of a media kind.
pub open spec fn media_type_name(m: MediaType) -> Seq<char> {
    match m {
        MediaType::Image => "image"@,
        MediaType::Video => "video"@,
    }
}

impl MediaType {
    pub fn as_str(&self) -> (r: &'static str)
        ensures
            r@ == media_type_name(*self),
    {
        match self {
            MediaType::Image => "image",
            MediaType::Video => "video",
        }
    }
}

/// The media kind of a (trimmed) content type: PNG, JPEG, GIF, WebP and
/// AVIF images; MP4, WebM, OGG and QuickTime videos; nothing else.
pub open spec fn media_type_of(content_type: Seq<char>) -> Option<MediaType> {
    if content_type == "image/png"@ || content_type == "image/jpeg"@ || content_type
        == "image/jpg"@ || content_type == "image/gif"@ || content_type == "image/webp"@
        || content_type == "image/avif"@ {
        Some(MediaType::Image)
    } else if content_type == "video/mp4"@ || content_type == "video/webm"@ || content_type
        == "video/ogg"@ || content_type == "video/quicktime"@ {
        Some(MediaType::Video)
    } else {
        None
    }
}

/// The accepted content types are exactly the PNG, JPEG (`image/jpeg` and
/// `image/jpg`), GIF, WebP and AVIF images and the MP4, WebM, OGG and
/// QuickTime videos; every other content type is refused.
pub proof fn lemma_accepted_content_types(content_type: Seq<char>)
    ensures
        media_type_of(content_type) == Some(MediaType::Image) <==> (content_type == "image/png"@
            || content_type == "image/jpeg"@ || content_type == "image/jpg"@ || content_type
            == "image/gif"@ || content_type == "image/webp"@ || content_type == "image/avif"@),
        media_type_of(content_type) == Some(MediaType::Video) <==> (content_type == "video/mp4"@
            || content_type == "video/webm"@ || content_type == "video/ogg"@ || content_type
            == "video/quicktime"@),
        media_type_of("image/jpeg"@) == Some(MediaType::Image),
        media_type_of("image/jpg"@) == Some(MediaType::Image),
        media_type_of("video/quicktime"@) == Some(MediaType::Video),
{
    reveal_strlit("image/png");
    reveal_strlit("image/jpeg");
    reveal_strlit("image/jpg");
    reveal_strlit("image/gif");
    reveal_strlit("image/webp");
    reveal_strlit("image/avif");
    reveal_strlit("video/mp4");
    reveal_strlit("video/webm");
    reveal_strlit("video/ogg");
    reveal_strlit("video/quicktime");
    if content_type.len() > 0 && content_type[0] == 'v' {
        lemma_not_an_image_type(content_type);
    }
    lemma_not_an_image_type("video/quicktime"@);
}

proof fn lemma_not_an_image_type(t: Seq<char>)
    requires
        t.len() > 0 && t[0] == 'v',
    ensures
        t != "image/png"@ && t != "image/jpeg"@ && t != "image/jpg"@ && t != "image/gif"@ && t
            != "image/webp"@ && t != "image/avif"@,
{
    reveal_strlit("image/png");
    reveal_strlit("image/jpeg");
    reveal_strlit("image/jpg");
    reveal_strlit("image/gif");
    reveal_strlit("image/webp");
    reveal_strlit("image/avif");
}

pub fn classify_media_type(content_type: &str) -> (r: Result<MediaType, SupportError>)
    ensures
        match media_type_of(content_type@) {
            Some(m) => r == Ok::<MediaType, SupportError>(m),
            None => r == Err::<MediaType, SupportError>(SupportError::UnsupportedAttachmentType),
        },
{
    let c = chars_of(content_type);
    if chars_eq_str(&c, "image/png") || chars_eq_str(&c, "image/jpeg") || chars_eq_str(
        &c,
        "image/jpg",
    ) || chars_eq_str(&c, "image/gif") || chars_eq_str(&c, "image/webp") || chars_eq_str(
        &c,
        "image/avif",
    ) {
        Ok(MediaType::Image)
    } else if chars_eq_str(&c, "video/mp4") || chars_eq_str(&c, "video/webm") || chars_eq_str(
        &c,
        "video/ogg",
    ) || chars_eq_str(&c, "video/quicktime") {
        Ok(MediaType::Video)
    } else {
        Err(SupportError::UnsupportedAttachmentType)
    }
}

// ---------------------------------------------------------------------
// File names.

pub open spec fn is_path_separator(c: char) -> bool {
    c == '/' || c == '\\'
}

/// What follows the last `/` or `\` of a path (all of it when there is none).
pub open spec fn last_segment(s: Seq<char>) -> Seq<char>
    decreases s.len(),
{
    if s.len() == 0 {
        s
    } else if is_path_separator(s.last()) {
        Seq::empty()
    } else {
        last_segment(s.drop_last()).push(s.last())
    }
}

/// A character kept as it is in a stored file name.
pub open spec fn is_name_char(c: char) -> bool {
    is_ascii_alnum(c) || c == '.' || c == '-' || c == '_'
}

/// Every character that may not appear in a file name becomes `-`.
pub open spec fn name_chars(s: Seq<char>) -> Seq<char> {
    s.map_values(|c: char| if is_name_char(c) { c } else { '-' })
}

/// At most the first 96 characters.
pub open spec fn at_most_96(s: Seq<char>) -> Seq<char> {
    if s.len() > 96 {
        s.take(96)
    } else {
        s
    }
}

/// Each run of `-` shortened to one `-`.
pub open spec fn squeeze_dashes(s: Seq<char>) -> Seq<char>
    decreases s.len(),
{
    if s.len() <= 1 {
        s
    } else if s[0] == '-' && s[1] == '-' {
        squeeze_dashes(s.drop_first())
    } else {
        seq![s[0]] + squeeze_dashes(s.drop_first())
    }
}

pub open spec fn is_edge_char(c: char) -> bool {
    c == '-' || c == '.'
}

/// `s` without leading `-` and `.`.
pub open spec fn strip_edges_start(s: Seq<char>) -> Seq<char>
    decreases s.len(),
{
    if s.len() > 0 && is_edge_char(s[0]) {
        strip_edges_start(s.drop_first())
    } else {
        s
    }
}

/// `s` without trailing `-` and `.`.
pub open spec fn strip_edges_end(s: Seq<char>) -> Seq<char>
    decreases s.len(),
{
    if s.len() > 0 && is_edge_char(s.last()) {
        strip_edges_end(s.drop_last())
    } else {
        s
    }
}

/// The stored name of an uploaded file: the last path segment, trimmed,
/// with disallowed characters replaced by `-`, cut to 96 characters, runs
/// of `-` squeezed, and `-` and `.` stripped from both ends; `attachment`
/// when nothing is left.
pub open spec fn sanitized_name(value: Seq<char>) -> Seq<char> {
    let t = strip_edges_end(
        strip_edges_start(squeeze_dashes(at_most_96(name_chars(trim(last_segment(value)))))),
    );
    if t.len() == 0 {
        "attachment"@
    } else {
        t
    }
}

/// Every character is one that file names keep.
pub open spec fn all_name_chars(s: Seq<char>) -> bool {
    forall|i: int| 0 <= i < s.len() ==> #[trigger] is_name_char(s[i])
}

/// No `-` directly follows another.
pub open spec fn no_double_dash(s: Seq<char>) -> bool {
    forall|i: int| 0 <= i < s.len() - 1 ==> !(#[trigger] s[i] == '-' && s[i + 1] == '-')
}

/// A name that is safe to store and show: 1 to 96 allowed characters, no
/// `--`, and neither starting nor ending with `-` or `.`.
pub open spec fn is_safe_file_name(s: Seq<char>) -> bool {
    &&& 0 < s.len() <= 96
    &&& all_name_chars(s)
    &&& no_double_dash(s)
    &&& !is_edge_char(s[0])
    &&& !is_edge_char(s.last())
}

proof fn lemma_squeeze_dashes(s: Seq<char>)
    ensures
        squeeze_dashes(s).len() <= s.len(),
        all_name_chars(s) ==> all_name_chars(squeeze_dashes(s)),
        no_double_dash(squeeze_dashes(s)),
        s.len() > 0 ==> squeeze_dashes(s).len() > 0 && squeeze_dashes(s)[0] == s[0],
    decreases s.len(),
{
    if s.len() <= 1 {
    } else {
        let rest = s.drop_first();
        lemma_squeeze_dashes(rest);
        let q = squeeze_dashes(rest);
        if all_name_chars(s) {
            assert forall|i: int| 0 <= i < rest.len() implies #[trigger] is_name_char(rest[i]) by {
                assert(rest[i] == s[i + 1]);
            }
        }
        if !(s[0] == '-' && s[1] == '-') {
            let r = seq![s[0]] + q;
            assert(squeeze_dashes(s) == r);
            if all_name_chars(s) {
                assert forall|i: int| 0 <= i < r.len() implies #[trigger] is_name_char(r[i]) by {
                    if i > 0 {
                        assert(r[i] == q[i - 1]);
                    }
                }
            }
            assert forall|i: int| 0 <= i < r.len() - 1 implies !(#[trigger] r[i] == '-' && r[i + 1]
                == '-') by {
                if i > 0 {
                    assert(r[i] == q[i - 1] && r[i + 1] == q[i]);
                } else {
                    assert(r[1] == q[0] && q[0] == s[1]);
                }
            }
        }
    }
}

proof fn lemma_strip_start(s: Seq<char>) -> (k: int)
    ensures
        0 <= k <= s.len(),
        strip_edges_start(s) == s.skip(k),
        strip_edges_start(s).len() == 0 || !is_edge_char(strip_edges_start(s)[0]),
    decreases s.len(),
{
    if s.len() > 0 && is_edge_char(s[0]) {
        let k = lemma_strip_start(s.drop_first());
        assert(s.drop_first().skip(k) =~= s.skip(k + 1));
        k + 1
    } else {
        assert(s.skip(0) =~= s);
        0
    }
}

proof fn lemma_strip_end(s: Seq<char>) -> (k: int)
    ensures
        0 <= k <= s.len(),
        strip_edges_end(s) == s.take(k),
        strip_edges_end(s).len() == 0 || !is_edge_char(strip_edges_end(s).last()),
    decreases s.len(),
{
    if s.len() > 0 && is_edge_char(s.last()) {
        let k = lemma_strip_end(s.drop_last());
        assert(s.drop_last().take(k) =~= s.take(k));
        k
    } else {
        assert(s.take(s.len() as int) =~= s);
        s.len() as int
    }
}

/// Whatever name a client sends, the stored name is safe: 1 to 96 letters,
/// digits, `.`, `-` or `_`, with no `--` and no `-` or `.` at either end.
pub proof fn lemma_sanitized_name_safe(value: Seq<char>)
    ensures
        is_safe_file_name(sanitized_name(value)),
{
    let m = name_chars(trim(last_segment(value)));
    assert(all_name_chars(m));
    let c = at_most_96(m);
    assert(all_name_chars(c));
    assert(c.len() <= 96);
    let q = squeeze_dashes(c);
    lemma_squeeze_dashes(c);
    let k1 = lemma_strip_start(q);
    let a = strip_edges_start(q);
    let k2 = lemma_strip_end(a);
    let t = strip_edges_end(a);
    assert(t =~= q.subrange(k1, k1 + k2));
    assert(all_name_chars(t)) by {
        assert forall|i: int| 0 <= i < t.len() implies #[trigger] is_name_char(t[i]) by {
            assert(t[i] == q[k1 + i]);
        }
    }
    assert(no_double_dash(t)) by {
        assert forall|i: int| 0 <= i < t.len() - 1 implies !(#[trigger] t[i] == '-' && t[i + 1]
            == '-') by {
            assert(t[i] == q[k1 + i] && t[i + 1] == q[k1 + i + 1]);
        }
    }
    if t.len() > 0 {
        assert(t[0] == a[0]);
    } else {
        reveal_strlit("attachment");
        let n = "attachment"@;
        assert(all_name_chars(n)) by {
            assert forall|i: int| 0 <= i < n.len() implies #[trigger] is_name_char(n[i]) by {
                assert(is_ascii_alnum(n[i]));
            }
        }
    }
}

proof fn lemma_last_segment_fixed(s: Seq<char>)
    requires
        forall|i: int| 0 <= i < s.len() ==> !is_path_separator(#[trigger] s[i]),
    ensures
        last_segment(s) == s,
    decreases s.len(),
{
    if s.len() > 0 {
        assert(!is_path_separator(s[s.len() - 1]));
        lemma_last_segment_fixed(s.drop_last());
        assert(s.drop_last().push(s.last()) =~= s);
    }
}

proof fn lemma_squeeze_fixed(s: Seq<char>)
    requires
        no_double_dash(s),
    ensures
        squeeze_dashes(s) == s,
    decreases s.len(),
{
    if s.len() > 1 {
        let rest = s.drop_first();
        assert(no_double_dash(rest)) by {
            assert forall|i: int| 0 <= i < rest.len() - 1 implies !(#[trigger] rest[i] == '-'
                && rest[i + 1] == '-') by {
                assert(rest[i] == s[i + 1] && rest[i + 1] == s[i + 2]);
            }
        }
        lemma_squeeze_fixed(rest);
        assert(!(s[0] == '-' && s[1] == '-'));
        assert(seq![s[0]] + rest =~= s);
    }
}

/// A stored name is stored under itself: sanitizing twice is sanitizing once.
pub proof fn lemma_sanitize_idempotent(value: Seq<char>)
    ensures
        sanitized_name(sanitized_name(value)) == sanitized_name(value),
{
    let n = sanitized_name(value);
    lemma_sanitized_name_safe(value);
    assert forall|i: int| 0 <= i < n.len() implies !is_path_separator(#[trigger] n[i]) by {
        assert(is_name_char(n[i]));
    }
    lemma_last_segment_fixed(n);
    assert(is_name_char(n[0]) && is_name_char(n.last()));
    crate::text::lemma_trim_fixed(n);
    assert(name_chars(n) =~= n) by {
        assert forall|i: int| 0 <= i < n.len() implies name_chars(n)[i] == n[i] by {
            assert(is_name_char(n[i]));
        }
    }
    assert(at_most_96(n) == n);
    lemma_squeeze_fixed(n);
    assert(strip_edges_start(n) == n);
    assert(strip_edges_end(n) == n);
}

fn last_segment_start(v: &Vec<char>) -> (k: usize)
    ensures
        k <= v.len(),
        last_segment(v@) == v@.subrange(k as int, v.len() as int),
{
    let mut k = v.len();
    assert(v@.take(v.len() as int) =~= v@);
    assert(v@.subrange(k as int, v.len() as int) =~= Seq::<char>::empty());
    while k > 0 && !(v[k - 1] == '/' || v[k - 1] == '\\')
        invariant
            k <= v.len(),
            last_segment(v@) == last_segment(v@.take(k as int)) + v@.subrange(
                k as int,
                v.len() as int,
            ),
        decreases k,
    {
        assert(v@.take(k as int).drop_last() =~= v@.take(k - 1));
        assert(last_segment(v@.take(k as int)) == last_segment(v@.take(k - 1)).push(v@[k - 1]));
        assert(last_segment(v@.take(k - 1)).push(v@[k - 1]) + v@.subrange(k as int, v.len() as int)
            =~= last_segment(v@.take(k - 1)) + v@.subrange(k - 1, v.len() as int));
        k = k - 1;
    }
    if k > 0 {
        assert(v@.take(k as int).drop_last() =~= v@.take(k - 1));
        assert(last_segment(v@.take(k as int)) =~= Seq::<char>::empty());
    } else {
        assert(v@.take(0) =~= Seq::<char>::empty());
    }
    assert(last_segment(v@) =~= v@.subrange(k as int, v.len() as int));
    k
}

fn map_name_chars(v: &Vec<char>) -> (r: Vec<char>)
    ensures
        r@ == name_chars(v@),
{
    let mut r: Vec<char> = Vec::new();
    let mut i: usize = 0;
    while i < v.len()
        invariant
            i <= v.len(),
            r@ == name_chars(v@.take(i as int)),
        decreases v.len() - i,
    {
        let c = v[i];
        let keep = is_ascii_alphanumeric(c) || c == '.' || c == '-' || c == '_';
        if keep {
            r.push(c);
        } else {
            r.push('-');
        }
        assert(name_chars(v@.take(i + 1)) =~= name_chars(v@.take(i as int)).push(
            if is_name_char(c) {
                c
            } else {
                '-'
            },
        ));
        i = i + 1;
    }
    assert(v@.take(v.len() as int) =~= v@);
    r
}

fn squeeze_dash_chars(v: &Vec<char>) -> (r: Vec<char>)
    ensures
        r@ == squeeze_dashes(v@),
{
    let mut r: Vec<char> = Vec::new();
    let mut i: usize = 0;
    assert(v@.subrange(0, v.len() as int) =~= v@);
    while i < v.len()
        invariant
            i <= v.len(),
            r@ + squeeze_dashes(v@.subrange(i as int, v.len() as int)) == squeeze_dashes(v@),
        decreases v.len() - i,
    {
        let ghost rest = v@.subrange(i as int, v.len() as int);
        assert(rest.drop_first() =~= v@.subrange(i + 1, v.len() as int));
        let skip = v[i] == '-' && i + 1 < v.len() && v[i + 1] == '-';
        if !skip {
            r.push(v[i]);
            proof {
                if rest.len() <= 1 {
                    assert(v@.subrange(i + 1, v.len() as int) =~= Seq::<char>::empty());
                }
            }
            assert(r@ + squeeze_dashes(v@.subrange(i + 1, v.len() as int)) =~= (r@.drop_last()
                + squeeze_dashes(rest)));
        }
        i = i + 1;
    }
    assert(v@.subrange(v.len() as int, v.len() as int) =~= Seq::<char>::empty());
    assert(r@ + Seq::<char>::empty() =~= r@);
    r
}

fn strip_edge_chars(v: &Vec<char>) -> (r: Vec<char>)
    ensures
        r@ == strip_edges_end(strip_edges_start(v@)),
{
    let mut i: usize = 0;
    assert(v@.skip(0) =~= v@);
    while i < v.len() && (v[i] == '-' || v[i] == '.')
        invariant
            i <= v.len(),
            strip_edges_start(v@) == strip_edges_start(v@.skip(i as int)),
        decreases v.len() - i,
    {
        assert(v@.skip(i as int).drop_first() =~= v@.skip(i + 1));
        i = i + 1;
    }
    let mut j = v.len();
    assert(v@.subrange(i as int, j as int) =~= v@.skip(i as int));
    while j > i && (v[j - 1] == '-' || v[j - 1] == '.')
        invariant
            i <= j <= v.len(),
            strip_edges_start(v@) == v@.skip(i as int),
            strip_edges_end(v@.skip(i as int)) == strip_edges_end(
                v@.subrange(i as int, j as int),
            ),
        decreases j,
    {
        assert(v@.subrange(i as int, j as int).drop_last() =~= v@.subrange(i as int, j - 1));
        j = j - 1;
    }
    slice_to_vec(v, i, j)
}

/// The name under which an uploaded file is stored.
pub fn sanitize_filename(value: &str) -> (r: String)
    ensures
        r@ == sanitized_name(value@),
{
    let v = chars_of(value);
    let k = last_segment_start(&v);
    let segment = slice_to_vec(&v, k, v.len());
    let trimmed = trim_chars(&segment);
    let mapped = map_name_chars(&trimmed);
    let cut = if mapped.len() > 96 {
        let c = slice_to_vec(&mapped, 0, 96);
        assert(c@ =~= mapped@.take(96));
        c
    } else {
        mapped
    };
    let squeezed = squeeze_dash_chars(&cut);
    let stripped = strip_edge_chars(&squeezed);
    if stripped.len() == 0 {
        string_of(&chars_of("attachment"))
    } else {
        string_of(&stripped)
    }
}

// ---------------------------------------------------------------------
// Attachments.

/// An attachment whose name and type are known and whose bytes are next.
pub struct PendingAttachment {
    pub original_name: String,
    pub content_type: String,
    pub media_type: MediaType,
}

/// An uploaded attachment, ready to be stored with its message.
pub struct IncomingAttachmentUpload {
    pub original_name: String,
    pub content_type: String,
    pub media_type: String,
    pub data: Vec<u8>,
}

/// The given text, or a default when there is none.
pub open spec fn text_or(o: Option<&str>, default: Seq<char>) -> Seq<char> {
    match o {
        Some(s) => s@,
        None => default,
    }
}

/// The content type of an upload: what the client declared, trimmed;
/// `application/octet-stream` when it declared none.
pub open spec fn upload_content_type(content_type: Option<&str>) -> Seq<char> {
    trim(text_or(content_type, "application/octet-stream"@))
}

/// Starts an attachment from its part's file name and content type, before
/// its bytes are read: only images and videos are accepted.
pub fn begin_attachment(file_name: Option<&str>, content_type: Option<&str>) -> (r: Result<
    PendingAttachment,
    SupportError,
>)
    ensures
        match media_type_of(upload_content_type(content_type)) {
            Some(m) => r matches Ok(p) && p.media_type == m && p.original_name@ == sanitized_name(
                text_or(file_name, "attachment"@),
            ) && p.content_type@ == upload_content_type(content_type),
            None => r == Err::<PendingAttachment, SupportError>(
                SupportError::UnsupportedAttachmentType,
            ),
        },
{
    let original_name = match file_name {
        Some(n) => sanitize_filename(n),
        None => sanitize_filename("attachment"),
    };
    let declared = match content_type {
        Some(c) => chars_of(c),
        None => chars_of("application/octet-stream"),
    };
    let content_type = string_of(&trim_chars(&declared));
    let media_type = match classify_media_type(content_type.as_str()) {
        Ok(m) => m,
        Err(e) => return Err(e),
    };
    Ok(PendingAttachment { original_name, content_type, media_type })
}

/// The largest attachment of a media kind, in bytes.
pub open spec fn attachment_limit(m: MediaType) -> usize {
    match m {
        MediaType::Image => MAX_IMAGE_ATTACHMENT_BYTES,
        MediaType::Video => MAX_VIDEO_ATTACHMENT_BYTES,
    }
}

/// Whether an attachment of `size` bytes may follow `total_before` bytes of
/// earlier attachments: it must not be empty, must fit its kind's limit,
/// and the total must stay within the message limit, checked in that order.
pub open spec fn attachment_size_check(m: MediaType, size: nat, total_before: nat) -> Result<
    (),
    SupportError,
> {
    if size == 0 {
        Err(SupportError::EmptyAttachment)
    } else if size > attachment_limit(m) {
        Err(
            SupportError::AttachmentTooLarge {
                video: m == MediaType::Video,
                limit_mib: (attachment_limit(m) / MIB) as u32,
            },
        )
    } else if total_before + size > MAX_TOTAL_ATTACHMENT_BYTES {
        Err(
            SupportError::TotalAttachmentsTooLarge {
                limit_mib: (MAX_TOTAL_ATTACHMENT_BYTES / MIB) as u32,
            },
        )
    } else {
        Ok(())
    }
}

/// An accepted attachment is not empty, fits its kind's limit, and keeps
/// the message's total within 100 MiB.
pub proof fn lemma_accepted_attachment_within_limits(m: MediaType, size: nat, total_before: nat)
    requires
        attachment_size_check(m, size, total_before) is Ok,
    ensures
        0 < size <= attachment_limit(m),
        total_before + size <= MAX_TOTAL_ATTACHMENT_BYTES,
        attachment_limit(m) <= MAX_VIDEO_ATTACHMENT_BYTES,
{
}

/// The running total after an attachment of `size` bytes: the size counts
/// once the attachment passes its own checks (not empty, within its kind's
/// limit), before the total is held against the message limit.
pub open spec fn counted_total(m: MediaType, size: nat, total_before: nat) -> nat {
    if 0 < size <= attachment_limit(m) {
        total_before + size
    } else {
        total_before
    }
}

/// Completes an attachment with its bytes, adding their count to the
/// running total of the message (also when the total then goes over the
/// message limit, which refuses the attachment).
pub fn finish_attachment(pending: PendingAttachment, data: Vec<u8>, total: &mut usize) -> (r:
    Result<IncomingAttachmentUpload, SupportError>)
    requires
        0 < data@.len() <= attachment_limit(pending.media_type) ==> *old(total) + data@.len()
            <= usize::MAX,
    ensures
        *final(total) == counted_total(pending.media_type, data@.len(), *old(total) as nat),
        match attachment_size_check(pending.media_type, data@.len(), *old(total) as nat) {
            Ok(_) => r matches Ok(u) && u.original_name@ == pending.original_name@
                && u.content_type@ == pending.content_type@ && u.media_type@ == media_type_name(
                pending.media_type,
            ) && u.data@ == data@,
            Err(e) => r == Err::<IncomingAttachmentUpload, SupportError>(e),
        },
{
    let size = data.len();
    let limit = match pending.media_type {
        MediaType::Image => MAX_IMAGE_ATTACHMENT_BYTES,
        MediaType::Video => MAX_VIDEO_ATTACHMENT_BYTES,
    };
    if size == 0 {
        return Err(SupportError::EmptyAttachment);
    }
    if size > limit {
        let video = match pending.media_type {
            MediaType::Image => false,
            MediaType::Video => true,
        };
        return Err(SupportError::AttachmentTooLarge { video, limit_mib: (limit / MIB) as u32 });
    }
    *total = *total + size;
    if *total > MAX_TOTAL_ATTACHMENT_BYTES {
        return Err(
            SupportError::TotalAttachmentsTooLarge {
                limit_mib: (MAX_TOTAL_ATTACHMENT_BYTES / MIB) as u32,
            },
        );
    }
    let media_type = string_of(&chars_of(pending.media_type.as_str()));
    Ok(
        IncomingAttachmentUpload {
            original_name: pending.original_name,
            content_type: pending.content_type,
            media_type,
            data,
        },
    )
}

/// A message takes at most five attachments.
pub fn enforce_attachment_limits(attachments: &Vec<IncomingAttachmentUpload>) -> (r: Result<
    (),
    SupportError,
>)
    ensures
        attachments@.len() <= MAX_ATTACHMENTS_PER_MESSAGE ==> r is Ok,
        attachments@.len() > MAX_ATTACHMENTS_PER_MESSAGE ==> r == Err::<(), SupportError>(
            SupportError::TooManyAttachments { max: MAX_ATTACHMENTS_PER_MESSAGE as u32 },
        ),
{
    if attachments.len() > MAX_ATTACHMENTS_PER_MESSAGE {
        Err(SupportError::TooManyAttachments { max: MAX_ATTACHMENTS_PER_MESSAGE as u32 })
    } else {
        Ok(())
    }
}

// ---------------------------------------------------------------------
// Text fields.

/// A yes/no form field: `true`, `1`, `yes` or `on` after trimming mean yes.
pub open spec fn flag_value(value: Seq<char>) -> bool {
    let t = trim(value);
    t == "true"@ || t == "1"@ || t == "yes"@ || t == "on"@
}

pub fn parse_flag(value: &str) -> (r: bool)
    ensures
        r == flag_value(value@),
{
    let t = trim_chars(&chars_of(value));
    chars_eq_str(&t, "true") || chars_eq_str(&t, "1") || chars_eq_str(&t, "yes") || chars_eq_str(
        &t,
        "on",
    )
}

/// The compact JSON text of the value that `serde_json` reads from a text,
/// if it reads one.
pub uninterp spec fn json_compact(text: Seq<char>) -> Option<Seq<char>>;

/// Reads a JSON value (`serde_json::from_str::<serde_json::Value>`) and
/// writes it back compactly (`Display` of `serde_json::Value`).
#[verifier::external_body]
fn parse_json_compact(text: &str) -> (r: Option<String>)
    ensures
        opt_view(r) == json_compact(text@),
{
    match serde_json::from_str::<serde_json::Value>(text) {
        Ok(v) => Some(v.to_string()),
        Err(_) => None,
    }
}

/// The metadata of a non-blank field, given what the JSON reader made of it.
pub open spec fn metadata_from(parsed: Option<Seq<char>>) -> Result<Option<Seq<char>>, SupportError> {
    match parsed {
        Some(t) => Ok(Some(t)),
        None => Err(SupportError::MetadataInvalidJson),
    }
}

pub fn metadata_from_parse(parsed: Option<String>) -> (r: Result<Option<String>, SupportError>)
    ensures
        opt_result_view(r) == metadata_from(opt_view(parsed)),
{
    match parsed {
        Some(t) => Ok(Some(t)),
        None => Err(SupportError::MetadataInvalidJson),
    }
}

/// The metadata field: none when blank, else the JSON it holds, which must
/// be valid.
pub open spec fn metadata_field(value: Seq<char>) -> Result<Option<Seq<char>>, SupportError> {
    if trim(value).len() == 0 {
        Ok(None)
    } else {
        metadata_from(json_compact(value))
    }
}

pub fn parse_metadata_field(value: &str) -> (r: Result<Option<String>, SupportError>)
    ensures
        opt_result_view(r) == metadata_field(value@),
{
    let t = trim_chars(&chars_of(value));
    if t.len() == 0 {
        return Ok(None);
    }
    metadata_from_parse(parse_json_compact(value))
}

// ---------------------------------------------------------------------
// The ticket creation form.

/// The fields of the ticket creation form.
#[derive(Clone, Copy, PartialEq, Eq, Debug, Structural)]
pub enum CreateFormField {
    ServerUuid,
    CategoryUuid,
    Subject,
    Message,
    Metadata,
    Attachment,
    Other,
}

/// The field a part's name refers to; both camelCase and snake_case names
/// are accepted, and `body` is another name of the message.
pub open spec fn create_form_field_of(name: Seq<char>) -> CreateFormField {
    if name == "serverUuid"@ || name == "server_uuid"@ {
        CreateFormField::ServerUuid
    } else if name == "categoryUuid"@ || name == "category_uuid"@ {
        CreateFormField::CategoryUuid
    } else if name == "subject"@ {
        CreateFormField::Subject
    } else if name == "message"@ || name == "body"@ {
        CreateFormField::Message
    } else if name == "metadata"@ {
        CreateFormField::Metadata
    } else if name == "files"@ || name == "attachments"@ {
        CreateFormField::Attachment
    } else {
        CreateFormField::Other
    }
}

pub fn create_form_field(name: &str) -> (r: CreateFormField)
    ensures
        r == create_form_field_of(name@),
{
    let n = chars_of(name);
    if chars_eq_str(&n, "serverUuid") || chars_eq_str(&n, "server_uuid") {
        CreateFormField::ServerUuid
    } else if chars_eq_str(&n, "categoryUuid") || chars_eq_str(&n, "category_uuid") {
        CreateFormField::CategoryUuid
    } else if chars_eq_str(&n, "subject") {
        CreateFormField::Subject
    } else if chars_eq_str(&n, "message") || chars_eq_str(&n, "body") {
        CreateFormField::Message
    } else if chars_eq_str(&n, "metadata") {
        CreateFormField::Metadata
    } else if chars_eq_str(&n, "files") || chars_eq_str(&n, "attachments") {
        CreateFormField::Attachment
    } else {
        CreateFormField::Other
    }
}

/// A ticket creation form as read so far.
pub struct CreateTicketMultipartForm {
    pub server_uuid: Option<u128>,
    pub category_uuid: Option<u128>,
    pub subject: String,
    pub message: String,
    /// Compact JSON text.
    pub metadata: Option<String>,
    pub attachments: Vec<IncomingAttachmentUpload>,
}

/// Whether a text field can be taken: uuids must read, metadata must be
/// JSON; other fields always can.
pub open spec fn create_field_outcome(field: CreateFormField, value: Seq<char>) -> Result<
    (),
    SupportError,
> {
    match field {
        CreateFormField::ServerUuid | CreateFormField::CategoryUuid => match optional_uuid(value) {
            Ok(_) => Ok(()),
            Err(e) => Err(e),
        },
        CreateFormField::Metadata => match metadata_field(value) {
            Ok(_) => Ok(()),
            Err(e) => Err(e),
        },
        _ => Ok(()),
    }
}

/// `b` is `a` with the text field taken in: that field holds the value
/// (the last one given wins), every other field is as it was.
pub open spec fn create_form_applied(
    a: CreateTicketMultipartForm,
    b: CreateTicketMultipartForm,
    field: CreateFormField,
    value: Seq<char>,
) -> bool {
    &&& b.server_uuid == (if field == CreateFormField::ServerUuid {
        optional_uuid(value)->Ok_0
    } else {
        a.server_uuid
    })
    &&& b.category_uuid == (if field == CreateFormField::CategoryUuid {
        optional_uuid(value)->Ok_0
    } else {
        a.category_uuid
    })
    &&& b.subject@ == (if field == CreateFormField::Subject {
        value
    } else {
        a.subject@
    })
    &&& b.message@ == (if field == CreateFormField::Message {
        value
    } else {
        a.message@
    })
    &&& opt_view(b.metadata) == (if field == CreateFormField::Metadata {
        metadata_field(value)->Ok_0
    } else {
        opt_view(a.metadata)
    })
    &&& b.attachments@ == a.attachments@
}

/// The form is unchanged.
pub open spec fn create_form_same(a: CreateTicketMultipartForm, b: CreateTicketMultipartForm) -> bool {
    &&& b.server_uuid == a.server_uuid
    &&& b.category_uuid == a.category_uuid
    &&& b.subject@ == a.subject@
    &&& b.message@ == a.message@
    &&& opt_view(b.metadata) == opt_view(a.metadata)
    &&& b.attachments@ == a.attachments@
}

impl CreateTicketMultipartForm {
    /// A form with no field read yet.
    pub fn new() -> (r: Self)
        ensures
            r.server_uuid is None,
            r.category_uuid is None,
            r.subject@.len() == 0,
            r.message@.len() == 0,
            r.metadata is None,
            r.attachments@.len() == 0,
    {
        CreateTicketMultipartForm {
            server_uuid: None,
            category_uuid: None,
            subject: String::new(),
            message: String::new(),
            metadata: None,
            attachments: Vec::new(),
        }
    }

    /// Takes in the value of a text field.
    pub fn apply_text_field(&mut self, field: CreateFormField, value: &str) -> (r: Result<
        (),
        SupportError,
    >)
        ensures
            r == create_field_outcome(field, value@),
            r is Ok ==> create_form_applied(*old(self), *final(self), field, value@),
            r is Err ==> create_form_same(*old(self), *final(self)),
    {
        match field {
            CreateFormField::ServerUuid => match parse_optional_uuid(value) {
                Ok(u) => {
                    self.server_uuid = u;
                    Ok(())
                },
                Err(e) => Err(e),
            },
            CreateFormField::CategoryUuid => match parse_optional_uuid(value) {
                Ok(u) => {
                    self.category_uuid = u;
                    Ok(())
                },
                Err(e) => Err(e),
            },
            CreateFormField::Subject => {
                self.subject = string_of(&chars_of(value));
                Ok(())
            },
            CreateFormField::Message => {
                self.message = string_of(&chars_of(value));
                Ok(())
            },
            CreateFormField::Metadata => match parse_metadata_field(value) {
                Ok(m) => {
                    self.metadata = m;
                    Ok(())
                },
                Err(e) => Err(e),
            },
            CreateFormField::Attachment | CreateFormField::Other => Ok(()),
        }
    }
}

// ---------------------------------------------------------------------
// The message form.

/// The fields of the message form.
#[derive(Clone, Copy, PartialEq, Eq, Debug, Structural)]
pub enum MessageFormField {
    Body,
    IsInternal,
    Attachment,
    Other,
}

pub open spec fn message_form_field_of(name: Seq<char>) -> MessageFormField {
    if name == "body"@ || name == "message"@ {
        MessageFormField::Body
    } else if name == "isInternal"@ || name == "is_internal"@ {
        MessageFormField::IsInternal
    } else if name == "files"@ || name == "attachments"@ {
        MessageFormField::Attachment
    } else {
        MessageFormField::Other
    }
}

pub fn message_form_field(name: &str) -> (r: MessageFormField)
    ensures
        r == message_form_field_of(name@),
{
    let n = chars_of(name);
    if chars_eq_str(&n, "body") || chars_eq_str(&n, "message") {
        MessageFormField::Body
    } else if chars_eq_str(&n, "isInternal") || chars_eq_str(&n, "is_internal") {
        MessageFormField::IsInternal
    } else if chars_eq_str(&n, "files") || chars_eq_str(&n, "attachments") {
        MessageFormField::Attachment
    } else {
        MessageFormField::Other
    }
}

/// A message form as read so far.
pub struct MessageMultipartForm {
    pub body: String,
    pub is_internal: bool,
    pub attachments: Vec<IncomingAttachmentUpload>,
}

impl MessageMultipartForm {
    /// A form with no field read yet: an empty public message.
    pub fn new() -> (r: Self)
        ensures
            r.body@.len() == 0,
            !r.is_internal,
            r.attachments@.len() == 0,
    {
        MessageMultipartForm { body: String::new(), is_internal: false, attachments: Vec::new() }
    }

    /// Takes in the value of a text field (the last one given wins).
    pub fn apply_text_field(&mut self, field: MessageFormField, value: &str)
        ensures
            final(self).body@ == (if field == MessageFormField::Body {
                value@
            } else {
                old(self).body@
            }),
            final(self).is_internal == (if field == MessageFormField::IsInternal {
                flag_value(value@)
            } else {
                old(self).is_internal
            }),
            final(self).attachments@ == old(self).attachments@,
    {
        match field {
            MessageFormField::Body => {
                self.body = string_of(&chars_of(value));
            },
            MessageFormField::IsInternal => {
                self.is_internal = parse_flag(value);
            },
            MessageFormField::Attachment | MessageFormField::Other => {},
        }
    }
}

} // verus!
