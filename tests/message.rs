use ohmysmtp::{Email, File, FileType};

#[test]
fn only_required_fields_serialize() {
    let email = Email::new("a@x.com", "b@x.com", "hi");
    assert_eq!(email.to_string(), "{\"from\":\"a@x.com\",\"to\":\"b@x.com\",\"textbody\":\"hi\"}");
}

#[test]
fn html_after_text_keeps_only_html() {
    let email = Email::new("a@x.com", "b@x.com", "hi")
        .with_text_body("plain")
        .with_html("<p>x</p>");
    assert_eq!(email.to_string(), "{\"from\":\"a@x.com\",\"to\":\"b@x.com\",\"htmlbody\":\"<p>x</p>\"}");
}

#[test]
fn text_after_html_keeps_only_text() {
    let email = Email::new("a@x.com", "b@x.com", "hi")
        .with_html("<p>x</p>")
        .with_text_body("plain");
    assert_eq!(email.to_string(), "{\"from\":\"a@x.com\",\"to\":\"b@x.com\",\"textbody\":\"plain\"}");
}

#[test]
fn second_attachment_replaces_first() {
    let email = Email::new("a@x.com", "b@x.com", "hi")
        .with_attachment(File::new(b"one", "one.txt", &FileType::Txt))
        .with_attachment(File::new(b"two", "two.csv", &FileType::Csv));
    assert_eq!(email.to_string(), "{\"from\":\"a@x.com\",\"to\":\"b@x.com\",\"textbody\":\"hi\",\"attachments\":[{\"name\":\"two.csv\",\"content\":\"dHdv\",\"content_type\":\"text/csv\"}]}");
}

#[test]
fn attachments_list_keeps_order() {
    let email = Email::new("a@x.com", "b@x.com", "hi").with_attachments(vec![
        File::new(b"", "empty.pdf", &FileType::Pdf),
        File::new(b"ab", "two.png", &FileType::Png),
    ]);
    assert_eq!(email.to_string(), "{\"from\":\"a@x.com\",\"to\":\"b@x.com\",\"textbody\":\"hi\",\"attachments\":[{\"name\":\"empty.pdf\",\"content\":\"\",\"content_type\":\"application/pdf\"},{\"name\":\"two.png\",\"content\":\"YWI=\",\"content_type\":\"image/png\"}]}");
}

#[test]
fn tags_keep_insertion_order() {
    let email = Email::new("a@x.com", "b@x.com", "hi").with_tags(vec!["b", "a"]);
    assert_eq!(email.to_string(), "{\"from\":\"a@x.com\",\"to\":\"b@x.com\",\"textbody\":\"hi\",\"tags\":[\"b\",\"a\"]}");
    let email = Email::new("a@x.com", "b@x.com", "hi").with_tags(vec!["a", "b"]);
    assert_eq!(email.to_string(), "{\"from\":\"a@x.com\",\"to\":\"b@x.com\",\"textbody\":\"hi\",\"tags\":[\"a\",\"b\"]}");
}

#[test]
fn all_fields_in_declaration_order() {
    let email = Email::new("a@x.com", "b@x.com", "hi")
        .with_tag("t")
        .with_list_unsubscribe("u")
        .with_replyto("r@x.com")
        .with_subject("s")
        .with_bcc("bcc@x.com")
        .with_cc("cc@x.com");
    assert_eq!(email.to_string(), "{\"from\":\"a@x.com\",\"to\":\"b@x.com\",\"textbody\":\"hi\",\"cc\":\"cc@x.com\",\"bcc\":\"bcc@x.com\",\"subject\":\"s\",\"replyto\":\"r@x.com\",\"list_unsubscribe\":\"u\",\"tags\":[\"t\"]}");
}

#[test]
fn strings_are_escaped() {
    let email = Email::new("a@x.com", "b@x.com", "say \"hi\"\n\\ \u{1}");
    assert_eq!(email.to_string(), "{\"from\":\"a@x.com\",\"to\":\"b@x.com\",\"textbody\":\"say \\\"hi\\\"\\n\\\\ \\u0001\"}");
}

#[test]
fn mime_types_follow_kind() {
    assert_eq!(FileType::Jpeg.mime_type(), "image/jpeg");
    assert_eq!(FileType::Jpg.mime_type(), "image/jpeg");
    assert_eq!(FileType::Gif.mime_type(), "image/gif");
    assert_eq!(FileType::Txt.mime_type(), "text/plain");
    assert_eq!(FileType::Docx.mime_type(), "application/vnd.openxmlformats-officedocument.wordprocessingml.document");
    assert_eq!(FileType::Xlsx.mime_type(), "application/vnd.openxmlformats-officedocument.spreadsheetml.sheet");
    assert_eq!(FileType::Pptx.mime_type(), "application/vnd.openxmlformats-officedocument.presentationml.presentation");
}

#[test]
fn attachment_content_round_trips() {
    for bytes in [&b""[..], &b"F"[..], &b"Fi"[..], &b"File!"[..], &[0u8, 255, 128, 7][..]] {
        let email = Email::new("a@x.com", "b@x.com", "hi")
            .with_attachment(File::new(bytes, "f", &FileType::Txt));
        let json = email.to_string();
        let start = json.find("\"content\":\"").unwrap() + "\"content\":\"".len();
        let end = start + json[start..].find('"').unwrap();
        let decoded = base64::decode(&json[start..end]).unwrap();
        assert_eq!(decoded, bytes.to_vec());
    }
}
