use supportsystem::error::SupportError;
use supportsystem::multipart::{
    begin_attachment, classify_media_type, create_form_field, enforce_attachment_limits,
    finish_attachment, message_form_field, parse_flag, parse_metadata_field, sanitize_filename,
    CreateFormField, CreateTicketMultipartForm, IncomingAttachmentUpload, MediaType,
    MessageFormField, MessageMultipartForm, MAX_IMAGE_ATTACHMENT_BYTES, MAX_TOTAL_ATTACHMENT_BYTES,
    MAX_VIDEO_ATTACHMENT_BYTES,
};

fn is_safe(name: &str) -> bool {
    let chars: Vec<char> = name.chars().collect();
    !chars.is_empty()
        && chars.len() <= 96
        && chars
            .iter()
            .all(|c| c.is_ascii_alphanumeric() || *c == '.' || *c == '-' || *c == '_')
        && !name.contains("--")
        && !matches!(chars[0], '-' | '.')
        && !matches!(chars[chars.len() - 1], '-' | '.')
}

#[test]
fn media_types_are_images_and_videos_only() {
    assert_eq!(classify_media_type("image/png"), Ok(MediaType::Image));
    assert_eq!(classify_media_type("image/jpg"), Ok(MediaType::Image));
    assert_eq!(classify_media_type("video/quicktime"), Ok(MediaType::Video));
    assert_eq!(classify_media_type("text/plain"), Err(SupportError::UnsupportedAttachmentType));
    assert_eq!(classify_media_type("IMAGE/PNG"), Err(SupportError::UnsupportedAttachmentType));
    assert_eq!(MediaType::Video.as_str(), "video");
}

#[test]
fn file_names_keep_the_last_segment_only() {
    assert_eq!(sanitize_filename("C:\\Users\\me\\My Photo (1).png"), "My-Photo-1-.png");
    assert_eq!(sanitize_filename("../../etc/passwd"), "passwd");
    assert_eq!(sanitize_filename("  report.pdf  "), "report.pdf");
}

#[test]
fn empty_file_names_become_attachment() {
    assert_eq!(sanitize_filename("  ...---  "), "attachment");
    assert_eq!(sanitize_filename("dir/"), "attachment");
    assert_eq!(sanitize_filename(""), "attachment");
}

#[test]
fn file_names_drop_unsafe_characters_and_length() {
    assert_eq!(sanitize_filename("ünïcode.jpg"), "n-code.jpg");
    let long = format!("{}.png", "a".repeat(200));
    assert_eq!(sanitize_filename(&long), "a".repeat(96));
}

#[test]
fn sanitized_names_are_safe_and_stable() {
    for raw in [
        "a--b",
        "-.x.-",
        "  spaced name .jpg ",
        "folder\\sub/..\\evil<>.gif",
        "---",
        "ok_name.mp4",
        "ééé",
    ] {
        let once = sanitize_filename(raw);
        assert!(is_safe(&once), "{raw:?} gave {once:?}");
        assert_eq!(sanitize_filename(&once), once);
    }
}

#[test]
fn attachments_start_from_name_and_type() {
    let p = begin_attachment(Some("a/b.png"), Some(" image/png ")).unwrap();
    assert_eq!(p.original_name, "b.png");
    assert_eq!(p.content_type, "image/png");
    assert_eq!(p.media_type, MediaType::Image);
    let q = begin_attachment(None, Some("video/mp4")).unwrap();
    assert_eq!(q.original_name, "attachment");
    assert!(matches!(begin_attachment(Some("x"), None), Err(SupportError::UnsupportedAttachmentType)));
}

#[test]
fn empty_attachments_are_refused() {
    let p = begin_attachment(Some("x.png"), Some("image/png")).unwrap();
    let mut total = 0usize;
    assert!(matches!(finish_attachment(p, Vec::new(), &mut total), Err(SupportError::EmptyAttachment)));
    assert_eq!(total, 0);
}

#[test]
fn oversized_images_are_refused() {
    let p = begin_attachment(Some("x.png"), Some("image/png")).unwrap();
    let mut total = 0usize;
    let data = vec![0u8; MAX_IMAGE_ATTACHMENT_BYTES + 1];
    let r = finish_attachment(p, data, &mut total);
    assert!(matches!(r, Err(SupportError::AttachmentTooLarge { video: false, limit_mib: 12 })));
    assert_eq!(total, 0);
    let e = SupportError::AttachmentTooLarge { video: false, limit_mib: 12 };
    assert_eq!(e.message(), "image attachments must be smaller than 12 MiB");
    let v = SupportError::AttachmentTooLarge { video: true, limit_mib: 80 };
    assert_eq!(v.message(), "video attachments must be smaller than 80 MiB");
    assert_eq!(MAX_VIDEO_ATTACHMENT_BYTES, 80 * 1024 * 1024);
}

#[test]
fn attachment_totals_are_bounded() {
    let p = begin_attachment(Some("clip.mp4"), Some("video/mp4")).unwrap();
    let mut total = MAX_TOTAL_ATTACHMENT_BYTES - 10;
    let r = finish_attachment(p, vec![1u8; 11], &mut total);
    assert!(matches!(r, Err(SupportError::TotalAttachmentsTooLarge { limit_mib: 100 })));
    assert_eq!(total, MAX_TOTAL_ATTACHMENT_BYTES + 1);

    let mut total = MAX_TOTAL_ATTACHMENT_BYTES - 10;
    let p = begin_attachment(Some("clip.mp4"), Some("video/mp4")).unwrap();
    let u = finish_attachment(p, vec![1u8; 10], &mut total).unwrap();
    assert_eq!(total, MAX_TOTAL_ATTACHMENT_BYTES);
    assert_eq!(u.media_type, "video");
    assert_eq!(u.original_name, "clip.mp4");
    assert_eq!(u.data.len(), 10);
}

fn upload() -> IncomingAttachmentUpload {
    IncomingAttachmentUpload {
        original_name: "a.png".to_string(),
        content_type: "image/png".to_string(),
        media_type: "image".to_string(),
        data: vec![1],
    }
}

#[test]
fn at_most_five_attachments_per_message() {
    let mut list: Vec<IncomingAttachmentUpload> = (0..5).map(|_| upload()).collect();
    assert!(enforce_attachment_limits(&list).is_ok());
    list.push(upload());
    let e = enforce_attachment_limits(&list).unwrap_err();
    assert_eq!(e, SupportError::TooManyAttachments { max: 5 });
    assert_eq!(e.message(), "you can upload up to 5 attachments per message");
    assert_eq!(e.status_code(), 400);
}

#[test]
fn flags_accept_the_usual_yes_words() {
    assert!(parse_flag(" yes "));
    assert!(parse_flag("true"));
    assert!(parse_flag("1"));
    assert!(parse_flag("on"));
    assert!(!parse_flag("TRUE"));
    assert!(!parse_flag("0"));
    assert!(!parse_flag(""));
}

#[test]
fn metadata_fields_hold_json() {
    assert_eq!(parse_metadata_field("   "), Ok(None));
    assert_eq!(
        parse_metadata_field("{ \"a\" : [1, 2] }"),
        Ok(Some("{\"a\":[1,2]}".to_string()))
    );
    assert_eq!(parse_metadata_field("[1 ,2]"), Ok(Some("[1,2]".to_string())));
    assert_eq!(parse_metadata_field("{not json"), Err(SupportError::MetadataInvalidJson));
}

#[test]
fn form_fields_accept_both_spellings() {
    assert_eq!(create_form_field("serverUuid"), CreateFormField::ServerUuid);
    assert_eq!(create_form_field("category_uuid"), CreateFormField::CategoryUuid);
    assert_eq!(create_form_field("body"), CreateFormField::Message);
    assert_eq!(create_form_field("files"), CreateFormField::Attachment);
    assert_eq!(create_form_field("Subject"), CreateFormField::Other);
    assert_eq!(message_form_field("is_internal"), MessageFormField::IsInternal);
    assert_eq!(message_form_field("message"), MessageFormField::Body);
    assert_eq!(message_form_field("attachments"), MessageFormField::Attachment);
    assert_eq!(message_form_field(""), MessageFormField::Other);
}

#[test]
fn creation_form_takes_text_fields() {
    let mut form = CreateTicketMultipartForm::new();
    assert_eq!(form.apply_text_field(CreateFormField::Subject, "Help"), Ok(()));
    assert_eq!(form.apply_text_field(CreateFormField::Message, " body "), Ok(()));
    assert_eq!(
        form.apply_text_field(CreateFormField::ServerUuid, " 67e55044-10b1-426f-9247-bb680e5fe0c8 "),
        Ok(())
    );
    assert_eq!(form.server_uuid, Some(0x67e55044_10b1_426f_9247_bb680e5fe0c8));
    assert_eq!(
        form.apply_text_field(CreateFormField::CategoryUuid, "nope"),
        Err(SupportError::InvalidUuid)
    );
    assert_eq!(form.category_uuid, None);
    assert_eq!(
        form.apply_text_field(CreateFormField::Metadata, "{oops"),
        Err(SupportError::MetadataInvalidJson)
    );
    assert_eq!(form.metadata, None);
    assert_eq!(form.apply_text_field(CreateFormField::Metadata, "{\"k\":true}"), Ok(()));
    assert_eq!(form.metadata, Some("{\"k\":true}".to_string()));
    assert_eq!(form.apply_text_field(CreateFormField::ServerUuid, "  "), Ok(()));
    assert_eq!(form.server_uuid, None);
    assert_eq!(form.subject, "Help");
    assert_eq!(form.message, " body ");
}

#[test]
fn message_form_takes_text_fields() {
    let mut form = MessageMultipartForm::new();
    assert!(!form.is_internal);
    form.apply_text_field(MessageFormField::Body, "hi");
    form.apply_text_field(MessageFormField::IsInternal, "on");
    form.apply_text_field(MessageFormField::Other, "ignored");
    assert_eq!(form.body, "hi");
    assert!(form.is_internal);
    form.apply_text_field(MessageFormField::IsInternal, "off");
    assert!(!form.is_internal);
}
