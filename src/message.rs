//! The outbound message, its attachments, and their JSON wire form.
use vstd::prelude::*;
use crate::encoding::{b64_decode, b64_encode, b64_len, encode_base64, lemma_b64_round_trip};
use crate::json::{
    json_array, json_object, json_quote, json_string, join, lemma_join_push, member, push_item,
    push_member, quote_all, string_array,
};

verus! {

/// The kinds of file the service accepts as attachments.
#[derive(Clone, Copy, Debug, PartialEq, Eq, Structural)]
pub enum FileType {
    Jpeg,
    Jpg,
    Png,
    Gif,
    Txt,
    Pdf,
    Docx,
    Xlsx,
    Pptx,
    Csv,
}

/// The MIME type sent for each kind of file.
pub open spec fn mime_of(kind: FileType) -> Seq<char> {
    match kind {
        FileType::Jpeg | FileType::Jpg => "image/jpeg"@,
        FileType::Png => "image/png"@,
        FileType::Gif => "image/gif"@,
        FileType::Txt => "text/plain"@,
        FileType::Pdf => "application/pdf"@,
        FileType::Docx => "application/vnd.openxmlformats-officedocument.wordprocessingml.document"@,
        FileType::Xlsx => "application/vnd.openxmlformats-officedocument.spreadsheetml.sheet"@,
        FileType::Pptx => "application/vnd.openxmlformats-officedocument.presentationml.presentation"@,
        FileType::Csv => "text/csv"@,
    }
}

impl FileType {
    /// The MIME type of this kind of file.
    pub fn mime_type(&self) -> (r: String)
        ensures
            r@ == mime_of(*self),
    {
        match self {
            FileType::Jpeg | FileType::Jpg => String::from_str("image/jpeg"),
            FileType::Png => String::from_str("image/png"),
            FileType::Gif => String::from_str("image/gif"),
            FileType::Txt => String::from_str("text/plain"),
            FileType::Pdf => String::from_str("application/pdf"),
            FileType::Docx => String::from_str(
                "application/vnd.openxmlformats-officedocument.wordprocessingml.document",
            ),
            FileType::Xlsx => String::from_str(
                "application/vnd.openxmlformats-officedocument.spreadsheetml.sheet",
            ),
            FileType::Pptx => String::from_str(
                "application/vnd.openxmlformats-officedocument.presentationml.presentation",
            ),
            FileType::Csv => String::from_str("text/csv"),
        }
    }
}

/// An attachment: its name, its content in base64, its MIME type, and an
/// optional content id for inline use.
#[derive(Clone, Debug)]
pub struct File {
    name: String,
    content: String,
    content_type: String,
    cid: Option<String>,
}

/// What an attachment holds, as text.
pub struct FileModel {
    pub name: Seq<char>,
    pub content: Seq<char>,
    pub content_type: Seq<char>,
    pub cid: Option<Seq<char>>,
}

/// The text of an optional string.
pub open spec fn opt_view(s: Option<String>) -> Option<Seq<char>> {
    match s {
        Some(v) => Some(v@),
        None => None,
    }
}

impl View for File {
    type V = FileModel;

    closed spec fn view(&self) -> FileModel {
        FileModel {
            name: self.name@,
            content: self.content@,
            content_type: self.content_type@,
            cid: opt_view(self.cid),
        }
    }
}

/// `members` with one more member when `value` is present.
pub open spec fn with_member(
    members: Seq<Seq<char>>,
    key: Seq<char>,
    value: Option<Seq<char>>,
) -> Seq<Seq<char>> {
    match value {
        Some(v) => members.push(member(key, v)),
        None => members,
    }
}

/// The quoted form of an optional string.
pub open spec fn quote_opt(s: Option<Seq<char>>) -> Option<Seq<char>> {
    match s {
        Some(v) => Some(json_quote(v)),
        None => None,
    }
}

/// The members of an attachment's JSON object, in order.
pub open spec fn file_members(f: FileModel) -> Seq<Seq<char>> {
    with_member(
        seq![
            member("name"@, json_quote(f.name)),
            member("content"@, json_quote(f.content)),
            member("content_type"@, json_quote(f.content_type)),
        ],
        "cid"@,
        quote_opt(f.cid),
    )
}

/// An attachment's JSON object.
pub open spec fn file_json(f: FileModel) -> Seq<char> {
    json_object(file_members(f))
}

/// The JSON object of each attachment, in order.
pub open spec fn files_json(files: Seq<FileModel>) -> Seq<Seq<char>> {
    files.map_values(|f: FileModel| file_json(f))
}

impl File {
    /// An attachment of the given bytes, name and kind: the content is the
    /// bytes in base64, the MIME type follows from the kind, and there is no
    /// content id. Decoding the content gives back exactly the bytes.
    pub fn new(bytes: &[u8], name: &str, filetype: &FileType) -> (r: File)
        requires
            b64_len(bytes@.len()) <= usize::MAX,
        ensures
            r@ == (FileModel {
                name: name@,
                content: b64_encode(bytes@),
                content_type: mime_of(*filetype),
                cid: None,
            }),
            b64_decode(r@.content) == bytes@,
    {
        proof {
            lemma_b64_round_trip(bytes@);
        }
        File {
            name: String::from_str(name),
            content: encode_base64(bytes),
            content_type: filetype.mime_type(),
            cid: None,
        }
    }

    pub(crate) fn json(&self) -> (r: String)
        ensures
            r@ == file_json(self@),
    {
        let mut out = String::new();
        out.push('{');
        let name = json_string(self.name.as_str());
        push_member(&mut out, true, "name", name.as_str());
        let content = json_string(self.content.as_str());
        push_member(&mut out, false, "content", content.as_str());
        let content_type = json_string(self.content_type.as_str());
        push_member(&mut out, false, "content_type", content_type.as_str());
        let ghost ms = seq![
            member("name"@, json_quote(self.name@)),
            member("content"@, json_quote(self.content@)),
            member("content_type"@, json_quote(self.content_type@)),
        ];
        proof {
            lemma_join_push(Seq::empty(), ms[0]);
            lemma_join_push(seq![ms[0]], ms[1]);
            lemma_join_push(seq![ms[0], ms[1]], ms[2]);
            assert(seq![ms[0]] =~= Seq::<Seq<char>>::empty().push(ms[0]));
            assert(seq![ms[0], ms[1]] =~= seq![ms[0]].push(ms[1]));
            assert(ms =~= seq![ms[0], ms[1]].push(ms[2]));
            assert(out@ =~= seq!['{'] + join(ms));
        }
        match &self.cid {
            Some(c) => {
                let q = json_string(c.as_str());
                push_member(&mut out, false, "cid", q.as_str());
                proof {
                    lemma_join_push(ms, member("cid"@, q@));
                }
            },
            None => {},
        }
        out.push('}');
        assert(out@ =~= file_json(self@));
        out
    }
}

/// The JSON array of the given attachments.
fn files_array(files: &Vec<File>) -> (r: String)
    ensures
        r@ == json_array(files_json(files@.map_values(|f: File| f@))),
{
    let ghost views = files@.map_values(|f: File| f@);
    let mut out = String::new();
    out.push('[');
    let mut i: usize = 0;
    while i < files.len()
        invariant
            i <= files.len(),
            views == files@.map_values(|f: File| f@),
            out@ == seq!['['] + join(files_json(views.take(i as int))),
        decreases files.len() - i,
    {
        let item = files[i].json();
        proof {
            lemma_join_push(files_json(views.take(i as int)), item@);
            assert(files_json(views.take(i as int)).push(item@) =~= files_json(views.take(i + 1)));
        }
        push_item(&mut out, i == 0, item.as_str());
        i = i + 1;
    }
    out.push(']');
    assert(views.take(i as int) =~= views);
    assert(out@ =~= json_array(files_json(views)));
    out
}

/// An outbound message. It always has exactly one body, text or HTML; the
/// other fields are optional.
#[derive(Debug)]
pub struct Email {
    from: String,
    to: String,
    text_body: Option<String>,
    html_body: Option<String>,
    cc: Option<String>,
    bcc: Option<String>,
    subject: Option<String>,
    reply_to: Option<String>,
    list_unsubscribe: Option<String>,
    attachments: Option<Vec<File>>,
    tags: Option<Vec<String>>,
}

/// What a message holds, as text; absent optional fields are `None`.
pub struct EmailModel {
    pub from: Seq<char>,
    pub to: Seq<char>,
    pub text_body: Option<Seq<char>>,
    pub html_body: Option<Seq<char>>,
    pub cc: Option<Seq<char>>,
    pub bcc: Option<Seq<char>>,
    pub subject: Option<Seq<char>>,
    pub reply_to: Option<Seq<char>>,
    pub list_unsubscribe: Option<Seq<char>>,
    pub attachments: Option<Seq<FileModel>>,
    pub tags: Option<Seq<Seq<char>>>,
}

impl EmailModel {
    /// Exactly one of the two bodies is present.
    pub open spec fn wf(self) -> bool {
        self.text_body is Some != self.html_body is Some
    }

    /// A message with a text body and nothing optional.
    pub open spec fn basic(from: Seq<char>, to: Seq<char>, body: Seq<char>) -> EmailModel {
        EmailModel {
            from,
            to,
            text_body: Some(body),
            html_body: None,
            cc: None,
            bcc: None,
            subject: None,
            reply_to: None,
            list_unsubscribe: None,
            attachments: None,
            tags: None,
        }
    }

    pub open spec fn set_html(self, html: Seq<char>) -> EmailModel {
        EmailModel { html_body: Some(html), text_body: None, ..self }
    }

    pub open spec fn set_text(self, text: Seq<char>) -> EmailModel {
        EmailModel { text_body: Some(text), html_body: None, ..self }
    }

    pub open spec fn set_cc(self, cc: Seq<char>) -> EmailModel {
        EmailModel { cc: Some(cc), ..self }
    }

    pub open spec fn set_bcc(self, bcc: Seq<char>) -> EmailModel {
        EmailModel { bcc: Some(bcc), ..self }
    }

    pub open spec fn set_subject(self, subject: Seq<char>) -> EmailModel {
        EmailModel { subject: Some(subject), ..self }
    }

    pub open spec fn set_reply_to(self, reply_to: Seq<char>) -> EmailModel {
        EmailModel { reply_to: Some(reply_to), ..self }
    }

    pub open spec fn set_list_unsubscribe(self, value: Seq<char>) -> EmailModel {
        EmailModel { list_unsubscribe: Some(value), ..self }
    }

    /// Replaces the whole list of attachments.
    pub open spec fn set_attachments(self, files: Seq<FileModel>) -> EmailModel {
        EmailModel { attachments: Some(files), ..self }
    }

    /// Replaces the whole list of tags.
    pub open spec fn set_tags(self, tags: Seq<Seq<char>>) -> EmailModel {
        EmailModel { tags: Some(tags), ..self }
    }

    /// The members of the message's JSON object, in declaration order,
    /// absent fields left out.
    pub open spec fn members(self) -> Seq<Seq<char>> {
        let required = seq![member("from"@, json_quote(self.from)), member("to"@, json_quote(self.to))];
        let a = with_member(required, "textbody"@, quote_opt(self.text_body));
        let b = with_member(a, "htmlbody"@, quote_opt(self.html_body));
        let c = with_member(b, "cc"@, quote_opt(self.cc));
        let d = with_member(c, "bcc"@, quote_opt(self.bcc));
        let e = with_member(d, "subject"@, quote_opt(self.subject));
        let f = with_member(e, "replyto"@, quote_opt(self.reply_to));
        let g = with_member(f, "list_unsubscribe"@, quote_opt(self.list_unsubscribe));
        let h = with_member(
            g,
            "attachments"@,
            match self.attachments {
                Some(files) => Some(json_array(files_json(files))),
                None => None,
            },
        );
        with_member(
            h,
            "tags"@,
            match self.tags {
                Some(tags) => Some(json_array(quote_all(tags))),
                None => None,
            },
        )
    }

    /// The message's JSON text.
    pub open spec fn json(self) -> Seq<char> {
        json_object(self.members())
    }
}

impl View for Email {
    type V = EmailModel;

    closed spec fn view(&self) -> EmailModel {
        EmailModel {
            from: self.from@,
            to: self.to@,
            text_body: opt_view(self.text_body),
            html_body: opt_view(self.html_body),
            cc: opt_view(self.cc),
            bcc: opt_view(self.bcc),
            subject: opt_view(self.subject),
            reply_to: opt_view(self.reply_to),
            list_unsubscribe: opt_view(self.list_unsubscribe),
            attachments: match self.attachments {
                Some(v) => Some(v@.map_values(|f: File| f@)),
                None => None,
            },
            tags: match self.tags {
                Some(v) => Some(v@.map_values(|t: String| t@)),
                None => None,
            },
        }
    }
}

/// Appends the member for an optional string field, when it is present.
fn push_optional(
    out: &mut String,
    key: &str,
    value: &Option<String>,
    Ghost(members): Ghost<Seq<Seq<char>>>,
)
    requires
        members.len() > 0,
        old(out)@ == seq!['{'] + join(members),
    ensures
        final(out)@ == seq!['{'] + join(with_member(members, key@, quote_opt(opt_view(*value)))),
{
    match value {
        Some(v) => {
            let q = json_string(v.as_str());
            push_member(out, false, key, q.as_str());
            proof {
                lemma_join_push(members, member(key@, q@));
            }
        },
        None => {},
    }
}

/// Appends the member for an optional list field, already in JSON, when it
/// is present.
fn push_optional_json(
    out: &mut String,
    key: &str,
    value: &Option<String>,
    Ghost(members): Ghost<Seq<Seq<char>>>,
)
    requires
        members.len() > 0,
        old(out)@ == seq!['{'] + join(members),
    ensures
        final(out)@ == seq!['{'] + join(with_member(members, key@, opt_view(*value))),
{
    match value {
        Some(v) => {
            push_member(out, false, key, v.as_str());
            proof {
                lemma_join_push(members, member(key@, v@));
            }
        },
        None => {},
    }
}

fn clone_opt(s: &Option<String>) -> (r: Option<String>)
    ensures
        opt_view(r) == opt_view(*s),
{
    match s {
        Some(v) => Some(v.clone()),
        None => None,
    }
}

impl Clone for Email {
    fn clone(&self) -> (r: Email)
        ensures
            r@.from == self@.from && r@.to == self@.to && r@.text_body == self@.text_body
                && r@.html_body == self@.html_body,
            r@.cc == self@.cc && r@.bcc == self@.bcc && r@.subject == self@.subject,
            r@.reply_to == self@.reply_to && r@.list_unsubscribe == self@.list_unsubscribe,
    {
        proof {
            use_type_invariant(self);
        }
        Email {
            from: self.from.clone(),
            to: self.to.clone(),
            text_body: clone_opt(&self.text_body),
            html_body: clone_opt(&self.html_body),
            cc: clone_opt(&self.cc),
            bcc: clone_opt(&self.bcc),
            subject: clone_opt(&self.subject),
            reply_to: clone_opt(&self.reply_to),
            list_unsubscribe: clone_opt(&self.list_unsubscribe),
            attachments: self.attachments.clone(),
            tags: self.tags.clone(),
        }
    }
}

impl Email {
    /// Exactly one of the two bodies is present.
    #[verifier::type_invariant]
    spec fn one_body(&self) -> bool {
        self.text_body is Some != self.html_body is Some
    }

    /// A message from `from` to `to` with a text body and nothing else.
    pub fn new(from: &str, to: &str, body: &str) -> (r: Email)
        ensures
            r@ == EmailModel::basic(from@, to@, body@),
            r@.wf(),
    {
        Email {
            from: String::from_str(from),
            to: String::from_str(to),
            text_body: Some(String::from_str(body)),
            html_body: None,
            cc: None,
            bcc: None,
            subject: None,
            reply_to: None,
            list_unsubscribe: None,
            attachments: None,
            tags: None,
        }
    }

    /// Sets the HTML body; any text body is cleared.
    pub fn with_html(self, html_body: &str) -> (r: Email)
        ensures
            r@ == self@.set_html(html_body@),
            r@.wf(),
    {
        Email { html_body: Some(String::from_str(html_body)), text_body: None, ..self }
    }

    /// Sets the text body; any HTML body is cleared.
    pub fn with_text_body(self, textbody: &str) -> (r: Email)
        ensures
            r@ == self@.set_text(textbody@),
            r@.wf(),
    {
        Email { text_body: Some(String::from_str(textbody)), html_body: None, ..self }
    }

    /// Sends a carbon copy to the given address.
    pub fn with_cc(self, cc: &str) -> (r: Email)
        ensures
            r@ == self@.set_cc(cc@),
            r@.wf(),
    {
        proof {
            use_type_invariant(&self);
        }
        Email { cc: Some(String::from_str(cc)), ..self }
    }

    /// Sends a blind carbon copy to the given address.
    pub fn with_bcc(self, bcc: &str) -> (r: Email)
        ensures
            r@ == self@.set_bcc(bcc@),
            r@.wf(),
    {
        proof {
            use_type_invariant(&self);
        }
        Email { bcc: Some(String::from_str(bcc)), ..self }
    }

    /// Sets the subject line.
    pub fn with_subject(self, subject: &str) -> (r: Email)
        ensures
            r@ == self@.set_subject(subject@),
            r@.wf(),
    {
        proof {
            use_type_invariant(&self);
        }
        Email { subject: Some(String::from_str(subject)), ..self }
    }

    /// Sets the reply-to address.
    pub fn with_replyto(self, replyto: &str) -> (r: Email)
        ensures
            r@ == self@.set_reply_to(replyto@),
            r@.wf(),
    {
        proof {
            use_type_invariant(&self);
        }
        Email { reply_to: Some(String::from_str(replyto)), ..self }
    }

    /// Sets the list-unsubscribe header.
    pub fn with_list_unsubscribe(self, listunsubscribe: &str) -> (r: Email)
        ensures
            r@ == self@.set_list_unsubscribe(listunsubscribe@),
            r@.wf(),
    {
        proof {
            use_type_invariant(&self);
        }
        Email { list_unsubscribe: Some(String::from_str(listunsubscribe)), ..self }
    }

    /// Replaces the attachments with the given list; earlier ones are dropped.
    pub fn with_attachments(self, attachments: Vec<File>) -> (r: Email)
        ensures
            r@ == self@.set_attachments(attachments@.map_values(|f: File| f@)),
            r@.wf(),
    {
        proof {
            use_type_invariant(&self);
        }
        Email { attachments: Some(attachments), ..self }
    }

    /// Replaces the attachments with this one alone; earlier ones are dropped.
    pub fn with_attachment(self, attachment: File) -> (r: Email)
        ensures
            r@ == self@.set_attachments(seq![attachment@]),
            r@.wf(),
    {
        proof {
            use_type_invariant(&self);
        }
        let ghost a = attachment@;
        let files = vec![attachment];
        assert(files@.map_values(|f: File| f@) =~= seq![a]);
        Email { attachments: Some(files), ..self }
    }

    /// Replaces the tags with the given list, in its order.
    pub fn with_tags(self, tags: Vec<&str>) -> (r: Email)
        ensures
            r@ == self@.set_tags(tags@.map_values(|t: &str| t@)),
            r@.wf(),
    {
        proof {
            use_type_invariant(&self);
        }
        let mut owned: Vec<String> = Vec::new();
        let mut i: usize = 0;
        while i < tags.len()
            invariant
                i <= tags.len(),
                owned@.map_values(|t: String| t@) =~= tags@.take(i as int).map_values(|t: &str| t@),
            decreases tags.len() - i,
        {
            let tag = String::from_str(tags[i]);
            let ghost before = owned@;
            owned.push(tag);
            proof {
                assert(owned@ == before.push(tag));
                assert(tags@.take(i + 1) =~= tags@.take(i as int).push(tags@[i as int]));
                assert(owned@.map_values(|t: String| t@) =~= before.map_values(|t: String| t@).push(tag@));
            }
            i = i + 1;
        }
        assert(tags@.take(i as int) =~= tags@);
        Email { tags: Some(owned), ..self }
    }

    /// Replaces the tags with this one alone.
    pub fn with_tag(self, tag: &str) -> (r: Email)
        ensures
            r@ == self@.set_tags(seq![tag@]),
            r@.wf(),
    {
        proof {
            use_type_invariant(&self);
        }
        let tags = vec![String::from_str(tag)];
        assert(tags@.map_values(|t: String| t@) =~= seq![tag@]);
        Email { tags: Some(tags), ..self }
    }

    /// The address the message goes to.
    pub fn recipient(&self) -> (r: &str)
        ensures
            r@ == self@.to,
    {
        self.to.as_str()
    }

    /// The message's JSON text, as the service expects it.
    pub fn to_string(&self) -> (r: String)
        ensures
            r@ == self@.json(),
            self@.wf(),
    {
        proof {
            use_type_invariant(self);
        }
        let mut out = String::new();
        out.push('{');
        let from = json_string(self.from.as_str());
        push_member(&mut out, true, "from", from.as_str());
        let to = json_string(self.to.as_str());
        push_member(&mut out, false, "to", to.as_str());
        let ghost m0 = seq![member("from"@, json_quote(self.from@)), member("to"@, json_quote(self.to@))];
        proof {
            lemma_join_push(Seq::empty(), m0[0]);
            lemma_join_push(seq![m0[0]], m0[1]);
            assert(seq![m0[0]] =~= Seq::<Seq<char>>::empty().push(m0[0]));
            assert(m0 =~= seq![m0[0]].push(m0[1]));
            assert(out@ =~= seq!['{'] + join(m0));
        }
        let ghost m1 = with_member(m0, "textbody"@, quote_opt(opt_view(self.text_body)));
        push_optional(&mut out, "textbody", &self.text_body, Ghost(m0));
        let ghost m2 = with_member(m1, "htmlbody"@, quote_opt(opt_view(self.html_body)));
        push_optional(&mut out, "htmlbody", &self.html_body, Ghost(m1));
        let ghost m3 = with_member(m2, "cc"@, quote_opt(opt_view(self.cc)));
        push_optional(&mut out, "cc", &self.cc, Ghost(m2));
        let ghost m4 = with_member(m3, "bcc"@, quote_opt(opt_view(self.bcc)));
        push_optional(&mut out, "bcc", &self.bcc, Ghost(m3));
        let ghost m5 = with_member(m4, "subject"@, quote_opt(opt_view(self.subject)));
        push_optional(&mut out, "subject", &self.subject, Ghost(m4));
        let ghost m6 = with_member(m5, "replyto"@, quote_opt(opt_view(self.reply_to)));
        push_optional(&mut out, "replyto", &self.reply_to, Ghost(m5));
        let ghost m7 = with_member(m6, "list_unsubscribe"@, quote_opt(opt_view(self.list_unsubscribe)));
        push_optional(&mut out, "list_unsubscribe", &self.list_unsubscribe, Ghost(m6));
        let attachments = match &self.attachments {
            Some(files) => Some(files_array(files)),
            None => None,
        };
        let ghost m8 = with_member(m7, "attachments"@, opt_view(attachments));
        push_optional_json(&mut out, "attachments", &attachments, Ghost(m7));
        let tags = match &self.tags {
            Some(t) => Some(string_array(t)),
            None => None,
        };
        push_optional_json(&mut out, "tags", &tags, Ghost(m8));
        out.push('}');
        assert(out@ =~= self@.json());
        out
    }
}

/// A message with only a sender, a recipient and a text body serializes to
/// exactly those three members: every optional key is left out.
pub proof fn lemma_basic_json(from: Seq<char>, to: Seq<char>, body: Seq<char>)
    ensures
        EmailModel::basic(from, to, body).json() == seq!['{'] + member("from"@, json_quote(from))
            + seq![','] + member("to"@, json_quote(to)) + seq![','] + member(
            "textbody"@,
            json_quote(body),
        ) + seq!['}'],
{
    let m = EmailModel::basic(from, to, body);
    let a = member("from"@, json_quote(from));
    let b = member("to"@, json_quote(to));
    let c = member("textbody"@, json_quote(body));
    assert(m.members() == seq![a, b].push(c));
    lemma_join_push(Seq::empty(), a);
    lemma_join_push(seq![a], b);
    lemma_join_push(seq![a, b], c);
    assert(seq![a] =~= Seq::<Seq<char>>::empty().push(a));
    assert(seq![a, b] =~= seq![a].push(b));
    assert(m.json() =~= seq!['{'] + a + seq![','] + b + seq![','] + c + seq!['}']);
}

/// Setting the HTML body after the text body, or the text body after the
/// HTML body, leaves exactly the one set last.
pub proof fn lemma_last_body_wins(m: EmailModel, text: Seq<char>, html: Seq<char>)
    ensures
        m.set_text(text).set_html(html).html_body == Some(html),
        m.set_text(text).set_html(html).text_body is None,
        m.set_html(html).set_text(text).text_body == Some(text),
        m.set_html(html).set_text(text).html_body is None,
        m.set_text(text).set_html(html).wf(),
        m.set_html(html).set_text(text).wf(),
{
}

/// A second single attachment replaces the first: one attachment remains,
/// the second.
pub proof fn lemma_second_attachment_replaces(m: EmailModel, first: FileModel, second: FileModel)
    ensures
        m.set_attachments(seq![first]).set_attachments(seq![second]).attachments == Some(
            seq![second],
        ),
{
}

proof fn lemma_with_member_len(members: Seq<Seq<char>>, key: Seq<char>, value: Option<Seq<char>>)
    ensures
        with_member(members, key, value).len() >= members.len(),
{
}

/// The tags serialize as the last member, an array of their string literals
/// in the order they were given.
pub proof fn lemma_tags_in_order(m: EmailModel, tags: Seq<Seq<char>>)
    ensures
        m.set_tags(tags).json() == (EmailModel { tags: None, ..m }).json().drop_last()
            + seq![','] + member("tags"@, json_array(quote_all(tags))) + seq!['}'],
        quote_all(tags).len() == tags.len(),
        forall|i: int| 0 <= i < tags.len() ==> #[trigger] quote_all(tags)[i] == json_quote(tags[i]),
{
    let untagged = EmailModel { tags: None, ..m };
    let base = untagged.members();
    let t = member("tags"@, json_array(quote_all(tags)));
    assert(m.set_tags(tags).members() == base.push(t));
    let required = seq![member("from"@, json_quote(m.from)), member("to"@, json_quote(m.to))];
    let a = with_member(required, "textbody"@, quote_opt(m.text_body));
    let b = with_member(a, "htmlbody"@, quote_opt(m.html_body));
    let c = with_member(b, "cc"@, quote_opt(m.cc));
    let d = with_member(c, "bcc"@, quote_opt(m.bcc));
    let e = with_member(d, "subject"@, quote_opt(m.subject));
    let f = with_member(e, "replyto"@, quote_opt(m.reply_to));
    let g = with_member(f, "list_unsubscribe"@, quote_opt(m.list_unsubscribe));
    lemma_with_member_len(required, "textbody"@, quote_opt(m.text_body));
    lemma_with_member_len(a, "htmlbody"@, quote_opt(m.html_body));
    lemma_with_member_len(b, "cc"@, quote_opt(m.cc));
    lemma_with_member_len(c, "bcc"@, quote_opt(m.bcc));
    lemma_with_member_len(d, "subject"@, quote_opt(m.subject));
    lemma_with_member_len(e, "replyto"@, quote_opt(m.reply_to));
    lemma_with_member_len(f, "list_unsubscribe"@, quote_opt(m.list_unsubscribe));
    lemma_with_member_len(
        g,
        "attachments"@,
        match m.attachments {
            Some(files) => Some(json_array(files_json(files))),
            None => None,
        },
    );
    assert(base.len() >= 2);
    lemma_join_push(base, t);
    assert(untagged.json().drop_last() =~= seq!['{'] + join(base));
    assert(m.set_tags(tags).json() =~= untagged.json().drop_last() + seq![','] + t + seq!['}']);
}

} // verus!
