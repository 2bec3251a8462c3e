//! The message store's data: summaries of stored messages, the interface a
//! store implements, and the file-backed store's identity.  The store's
//! I/O itself lives outside the library; here stand the types it exchanges
//! with the client and the pure parsing and rendering of its text format.

use vstd::prelude::*;

use vstd::string::StrSliceExecFns;
use vstd::string::StringExecFns;

use crate::position::all_space;
use crate::strutil::{
    join_nl, join_with_newlines, line_is_blank, starts_with, str_eq_str, str_has_prefix,
    str_suffix_owned, views_of,
};

verus! {

/// One stored message, as the inbox list shows it.  A message read from a
/// directory keeps the path of its file (as text) so it can be deleted.
#[derive(Debug)]
pub struct EmailSummary {
    pub subject: String,
    pub from: String,
    pub body: String,
    pub file_path: Option<String>,
}

impl View for EmailSummary {
    type V = (Seq<char>, Seq<char>, Seq<char>, Option<Seq<char>>);

    open spec fn view(&self) -> Self::V {
        (
            self.subject@,
            self.from@,
            self.body@,
            match self.file_path {
                Some(p) => Some(p@),
                None => None,
            },
        )
    }
}

impl Clone for EmailSummary {
    fn clone(&self) -> (res: Self)
        ensures
            res@ == self@,
    {
        EmailSummary {
            subject: self.subject.clone(),
            from: self.from.clone(),
            body: self.body.clone(),
            file_path: match &self.file_path {
                Some(p) => Some(p.clone()),
                None => None,
            },
        }
    }
}

/// What a message store offers the client.  Implementations live outside
/// the library, next to the I/O they perform; an error carries the store's
/// description of what failed.
pub trait EmailBackend {
    fn fetch_inbox(&self) -> Result<Vec<EmailSummary>, String>;

    fn send_email(&self, to: &str, subject: &str, body: &str) -> Result<(), String>;

    fn delete_email(&self, email: &EmailSummary) -> Result<(), String>;
}

/// The identity of the file-backed store: where its messages live and whom
/// sent mail is from.
pub struct FileBackend {
    path: String,
    user_email: String,
}

impl FileBackend {
    pub closed spec fn path_spec(&self) -> Seq<char> {
        self.path@
    }

    pub closed spec fn user_email_spec(&self) -> Seq<char> {
        self.user_email@
    }

    pub fn new(path: String, user_email: String) -> (r: Self)
        ensures
            r.path_spec() == path@,
            r.user_email_spec() == user_email@,
    {
        FileBackend { path, user_email }
    }

    pub fn path(&self) -> (r: &String)
        ensures
            r@ == self.path_spec(),
    {
        &self.path
    }

    pub fn user_email(&self) -> (r: &String)
        ensures
            r@ == self.user_email_spec(),
    {
        &self.user_email
    }
}

/// The header that carries a message's sender.
pub open spec fn from_prefix() -> Seq<char> {
    seq!['F', 'R', 'O', 'M', ':', ' ']
}

/// The header that carries a message's recipient.
pub open spec fn to_prefix() -> Seq<char> {
    seq!['T', 'O', ':', ' ']
}

/// The header that carries a message's subject.
pub open spec fn subject_prefix() -> Seq<char> {
    seq!['S', 'U', 'B', 'J', 'E', 'C', 'T', ':', ' ']
}

/// The line that opens a message's body.
pub open spec fn body_marker() -> Seq<char> {
    seq!['B', 'O', 'D', 'Y', ':']
}

/// The line that separates records in a single mailbox file.
pub open spec fn record_separator() -> Seq<char> {
    seq!['-', '-', '-']
}

/// The characters of a header line after its prefix.
pub open spec fn after_prefix(line: Seq<char>, p: Seq<char>) -> Seq<char> {
    line.subrange(p.len() as int, line.len() as int)
}

/// One parsed message: sender, subject, body.
pub struct ParsedRecord {
    pub from: Seq<char>,
    pub subject: Seq<char>,
    pub body: Seq<char>,
}

/// The parser's state while it walks a mailbox file's lines.
pub struct MailboxParse {
    pub from: Seq<char>,
    pub subject: Seq<char>,
    pub body: Seq<Seq<char>>,
    pub in_body: bool,
    pub out: Seq<ParsedRecord>,
}

/// The parser's state before any line.
pub open spec fn mailbox_init() -> MailboxParse {
    MailboxParse {
        from: Seq::<char>::empty(),
        subject: Seq::<char>::empty(),
        body: Seq::<Seq<char>>::empty(),
        in_body: false,
        out: Seq::<ParsedRecord>::empty(),
    }
}

/// How one line advances the mailbox parser: a sender header restarts the
/// body, a subject header leaves it, the body marker opens it, the
/// separator closes the record, and any other line belongs to the body
/// when one is open.
pub open spec fn mailbox_step(st: MailboxParse, line: Seq<char>) -> MailboxParse {
    if starts_with(line, from_prefix()) {
        MailboxParse {
            from: after_prefix(line, from_prefix()),
            in_body: false,
            body: Seq::<Seq<char>>::empty(),
            ..st
        }
    } else if starts_with(line, subject_prefix()) {
        MailboxParse { subject: after_prefix(line, subject_prefix()), in_body: false, ..st }
    } else if line == body_marker() {
        MailboxParse { in_body: true, body: Seq::<Seq<char>>::empty(), ..st }
    } else if line == record_separator() {
        MailboxParse {
            out: st.out.push(
                ParsedRecord { from: st.from, subject: st.subject, body: join_nl(st.body) },
            ),
            from: Seq::<char>::empty(),
            subject: Seq::<char>::empty(),
            body: Seq::<Seq<char>>::empty(),
            in_body: false,
            ..st
        }
    } else if st.in_body {
        MailboxParse { body: st.body.push(line), ..st }
    } else {
        st
    }
}

/// The parser run over all lines.
pub open spec fn mailbox_fold(lines: Seq<Seq<char>>, st: MailboxParse) -> MailboxParse
    decreases lines.len(),
{
    if lines.len() == 0 {
        st
    } else {
        mailbox_fold(lines.drop_first(), mailbox_step(st, lines[0]))
    }
}

/// The records a mailbox file's lines hold: the closed records, and a
/// final unterminated one when anything of it was seen.
pub open spec fn mailbox_records(lines: Seq<Seq<char>>) -> Seq<ParsedRecord> {
    let st = mailbox_fold(lines, mailbox_init());
    if st.from.len() == 0 && st.subject.len() == 0 && st.body.len() == 0 {
        st.out
    } else {
        st.out.push(ParsedRecord { from: st.from, subject: st.subject, body: join_nl(st.body) })
    }
}

/// The triples of views a summary list holds.
pub open spec fn records_of(es: Seq<EmailSummary>) -> Seq<ParsedRecord> {
    es.map_values(|e: EmailSummary| ParsedRecord { from: e.from@, subject: e.subject@, body: e.body@ })
}

/// True when the line carries the sender header.
fn is_from_line(line: &str) -> (r: bool)
    ensures
        r == starts_with(line@, from_prefix()),
{
    proof {
        reveal_strlit("FROM: ");
        assert("FROM: "@ =~= from_prefix());
    }
    str_has_prefix(line, "FROM: ")
}

/// True when the line carries the subject header.
fn is_subject_line(line: &str) -> (r: bool)
    ensures
        r == starts_with(line@, subject_prefix()),
{
    proof {
        reveal_strlit("SUBJECT: ");
        assert("SUBJECT: "@ =~= subject_prefix());
    }
    str_has_prefix(line, "SUBJECT: ")
}

/// True when the line is the body marker.
fn is_body_marker(line: &str) -> (r: bool)
    ensures
        r == (line@ == body_marker()),
{
    proof {
        reveal_strlit("BODY:");
        assert("BODY:"@ =~= body_marker());
    }
    str_eq_str(line, "BODY:")
}

/// True when the line is the record separator.
fn is_separator(line: &str) -> (r: bool)
    ensures
        r == (line@ == record_separator()),
{
    proof {
        reveal_strlit("---");
        assert("---"@ =~= record_separator());
    }
    str_eq_str(line, "---")
}

/// Parses the lines of a single mailbox file holding records separated by
/// `---` lines, as the store's inbox is read from its legacy layout.  The
/// I/O that produced the lines stays with the caller.
pub fn parse_mailbox_lines(lines: &Vec<String>) -> (r: Vec<EmailSummary>)
    ensures
        records_of(r@) == mailbox_records(views_of(lines@)),
        forall|k: int| 0 <= k < r@.len() ==> r@[k].file_path is None,
{
    let mut out: Vec<EmailSummary> = Vec::new();
    let mut from = String::new();
    let mut subject = String::new();
    let mut body_lines: Vec<String> = Vec::new();
    let mut in_body = false;
    let mut i: usize = 0;
    proof {
        assert(views_of(lines@).skip(0) =~= views_of(lines@));
        assert(records_of(out@) =~= mailbox_init().out);
        assert(views_of(body_lines@) =~= mailbox_init().body);
    }
    while i < lines.len()
        invariant
            i <= lines@.len(),
            ({
                let st = mailbox_fold(views_of(lines@), mailbox_init());
                let cur = MailboxParse {
                    from: from@,
                    subject: subject@,
                    body: views_of(body_lines@),
                    in_body: in_body,
                    out: records_of(out@),
                };
                mailbox_fold(views_of(lines@).skip(i as int), cur) == st
            }),
            forall|k: int| 0 <= k < out@.len() ==> out@[k].file_path is None,
        decreases lines@.len() - i,
    {
        proof {
            assert(views_of(lines@).skip(i as int).drop_first() =~= views_of(lines@).skip(
                i as int + 1,
            ));
            assert(views_of(lines@).skip(i as int)[0] == lines@[i as int]@);
            assert(from_prefix().len() == 6);
            assert(subject_prefix().len() == 9);
        }
        let ghost pre = MailboxParse {
            from: from@,
            subject: subject@,
            body: views_of(body_lines@),
            in_body: in_body,
            out: records_of(out@),
        };
        let line = &lines[i];
        if is_from_line(line.as_str()) {
            from = str_suffix_owned(line.as_str(), 6);
            in_body = false;
            body_lines = Vec::new();
        } else if is_subject_line(line.as_str()) {
            subject = str_suffix_owned(line.as_str(), 9);
            in_body = false;
        } else if is_body_marker(line.as_str()) {
            in_body = true;
            body_lines = Vec::new();
        } else if is_separator(line.as_str()) {
            let body = join_with_newlines(&body_lines);
            let rec = EmailSummary {
                from: from.clone(),
                subject: subject.clone(),
                body,
                file_path: None,
            };
            proof {
                assert(records_of(out@.push(rec)) =~= pre.out.push(
                    ParsedRecord { from: pre.from, subject: pre.subject, body: join_nl(pre.body) },
                ));
            }
            out.push(rec);
            from = String::new();
            subject = String::new();
            body_lines = Vec::new();
            in_body = false;
        } else if in_body {
            let ghost pre_body = body_lines@;
            body_lines.push(line.clone());
            proof {
                assert(views_of(body_lines@) =~= views_of(pre_body).push(lines@[i as int]@));
            }
        }
        proof {
            let stepped = mailbox_step(pre, lines@[i as int]@);
            assert(views_of(Seq::<String>::empty()) =~= Seq::<Seq<char>>::empty());
            assert(from@ == stepped.from);
            assert(subject@ == stepped.subject);
            assert(views_of(body_lines@) =~= stepped.body);
            assert(in_body == stepped.in_body);
            assert(records_of(out@) =~= stepped.out);
            let cur2 = MailboxParse {
                from: from@,
                subject: subject@,
                body: views_of(body_lines@),
                in_body: in_body,
                out: records_of(out@),
            };
            assert(cur2 == stepped);
            assert(mailbox_fold(views_of(lines@).skip(i as int), pre) == mailbox_fold(
                views_of(lines@).skip(i as int + 1),
                stepped,
            ));
        }
        i = i + 1;
    }
    proof {
        assert(views_of(lines@).skip(lines@.len() as int) =~= Seq::<Seq<char>>::empty());
    }
    let unfinished = !(from.as_str().is_empty() && subject.as_str().is_empty()
        && body_lines.len() == 0);
    if unfinished {
        let body = join_with_newlines(&body_lines);
        let rec = EmailSummary { from, subject, body, file_path: None };
        proof {
            assert(records_of(out@.push(rec)) =~= records_of(out@).push(
                ParsedRecord { from: rec.from@, subject: rec.subject@, body: rec.body@ },
            ));
        }
        out.push(rec);
    }
    out
}

/// The state of the single-message parser: the headers seen and the body
/// lines collected so far.
pub struct HeaderParse {
    pub from: Seq<char>,
    pub subject: Seq<char>,
    pub body: Seq<Seq<char>>,
    pub in_body: bool,
}

/// The single-message parser's state before any line.
pub open spec fn single_init() -> HeaderParse {
    HeaderParse {
        from: Seq::<char>::empty(),
        subject: Seq::<char>::empty(),
        body: Seq::<Seq<char>>::empty(),
        in_body: false,
    }
}

/// How one line advances the single-message parser: headers fill their
/// fields, the body marker opens the body, and any later line belongs to
/// it.
pub open spec fn single_step(st: HeaderParse, line: Seq<char>) -> HeaderParse {
    if starts_with(line, from_prefix()) {
        HeaderParse { from: after_prefix(line, from_prefix()), ..st }
    } else if starts_with(line, subject_prefix()) {
        HeaderParse { subject: after_prefix(line, subject_prefix()), ..st }
    } else if line == body_marker() {
        HeaderParse { in_body: true, ..st }
    } else if st.in_body {
        HeaderParse { body: st.body.push(line), ..st }
    } else {
        st
    }
}

/// The single-message parser run over all lines.
pub open spec fn single_fold(lines: Seq<Seq<char>>, st: HeaderParse) -> HeaderParse
    decreases lines.len(),
{
    if lines.len() == 0 {
        st
    } else {
        single_fold(lines.drop_first(), single_step(st, lines[0]))
    }
}

/// The lines with leading all-whitespace lines dropped.
pub open spec fn trim_blank_front(ls: Seq<Seq<char>>) -> Seq<Seq<char>>
    decreases ls.len(),
{
    if ls.len() > 0 && all_space(ls[0]) {
        trim_blank_front(ls.drop_first())
    } else {
        ls
    }
}

/// The lines with trailing all-whitespace lines dropped.
pub open spec fn trim_blank_back(ls: Seq<Seq<char>>) -> Seq<Seq<char>>
    decreases ls.len(),
{
    if ls.len() > 0 && all_space(ls.last()) {
        trim_blank_back(ls.drop_last())
    } else {
        ls
    }
}

/// Parses the lines of one stored message file: the `FROM:` and
/// `SUBJECT:` headers, then the body after its `BODY:` marker, with blank
/// lines at either end of the body dropped.  The caller reads the file
/// and records its path.
pub fn parse_email_lines(lines: &Vec<String>) -> (r: EmailSummary)
    ensures
        ({
            let st = single_fold(views_of(lines@), single_init());
            &&& r.from@ == st.from
            &&& r.subject@ == st.subject
            &&& r.body@ == join_nl(trim_blank_back(trim_blank_front(st.body)))
            &&& r.file_path is None
        }),
{
    let mut from = String::new();
    let mut subject = String::new();
    let mut body_lines: Vec<String> = Vec::new();
    let mut in_body = false;
    let mut i: usize = 0;
    proof {
        assert(views_of(lines@).skip(0) =~= views_of(lines@));
        assert(views_of(body_lines@) =~= single_init().body);
    }
    while i < lines.len()
        invariant
            i <= lines@.len(),
            ({
                let st = single_fold(views_of(lines@), single_init());
                let cur = HeaderParse {
                    from: from@,
                    subject: subject@,
                    body: views_of(body_lines@),
                    in_body: in_body,
                };
                single_fold(views_of(lines@).skip(i as int), cur) == st
            }),
        decreases lines@.len() - i,
    {
        proof {
            assert(views_of(lines@).skip(i as int).drop_first() =~= views_of(lines@).skip(
                i as int + 1,
            ));
            assert(views_of(lines@).skip(i as int)[0] == lines@[i as int]@);
            assert(from_prefix().len() == 6);
            assert(subject_prefix().len() == 9);
        }
        let ghost pre = HeaderParse {
            from: from@,
            subject: subject@,
            body: views_of(body_lines@),
            in_body: in_body,
        };
        let line = &lines[i];
        if is_from_line(line.as_str()) {
            from = str_suffix_owned(line.as_str(), 6);
        } else if is_subject_line(line.as_str()) {
            subject = str_suffix_owned(line.as_str(), 9);
        } else if is_body_marker(line.as_str()) {
            in_body = true;
        } else if in_body {
            let ghost pre_body = body_lines@;
            body_lines.push(line.clone());
            proof {
                assert(views_of(body_lines@) =~= views_of(pre_body).push(lines@[i as int]@));
            }
        }
        proof {
            let stepped = single_step(pre, lines@[i as int]@);
            assert(from@ == stepped.from);
            assert(subject@ == stepped.subject);
            assert(views_of(body_lines@) =~= stepped.body);
            assert(in_body == stepped.in_body);
            let cur2 = HeaderParse {
                from: from@,
                subject: subject@,
                body: views_of(body_lines@),
                in_body: in_body,
            };
            assert(cur2 == stepped);
            assert(single_fold(views_of(lines@).skip(i as int), pre) == single_fold(
                views_of(lines@).skip(i as int + 1),
                stepped,
            ));
        }
        i = i + 1;
    }
    proof {
        assert(views_of(lines@).skip(lines@.len() as int) =~= Seq::<Seq<char>>::empty());
    }
    let ghost collected = views_of(body_lines@);
    while body_lines.len() > 0 && line_is_blank(body_lines[0].as_str())
        invariant
            trim_blank_front(views_of(body_lines@)) == trim_blank_front(collected),
        decreases body_lines@.len(),
    {
        let ghost pre_body = body_lines@;
        body_lines.remove(0);
        proof {
            assert(views_of(body_lines@) =~= views_of(pre_body).drop_first());
        }
    }
    let ghost fronted = views_of(body_lines@);
    proof {
        assert(trim_blank_front(fronted) == fronted);
    }
    while body_lines.len() > 0 && line_is_blank(body_lines[body_lines.len() - 1].as_str())
        invariant
            trim_blank_back(views_of(body_lines@)) == trim_blank_back(fronted),
        decreases body_lines@.len(),
    {
        let ghost pre_body = body_lines@;
        body_lines.pop();
        proof {
            assert(views_of(body_lines@) =~= views_of(pre_body).drop_last());
        }
    }
    proof {
        assert(trim_blank_back(views_of(body_lines@)) == views_of(body_lines@));
    }
    let body = join_with_newlines(&body_lines);
    EmailSummary { from, subject, body, file_path: None }
}

/// Lays out one message as the lines of its stored record: the sender,
/// recipient and subject headers, the body marker, the body text, and,
/// when the record goes into a shared mailbox file, the separator line.
/// Writing the lines out stays with the caller.
pub fn render_email_record(
    from_addr: &str,
    to: &str,
    subject: &str,
    body: &str,
    with_separator: bool,
) -> (r: Vec<String>)
    ensures
        r@.len() == if with_separator {
            6int
        } else {
            5int
        },
        r@[0]@ == from_prefix() + from_addr@,
        r@[1]@ == to_prefix() + to@,
        r@[2]@ == subject_prefix() + subject@,
        r@[3]@ == body_marker(),
        r@[4]@ == body@,
        with_separator ==> r@[5]@ == record_separator(),
{
    proof {
        reveal_strlit("FROM: ");
        reveal_strlit("TO: ");
        reveal_strlit("SUBJECT: ");
        reveal_strlit("BODY:");
        reveal_strlit("---");
        assert("FROM: "@ =~= from_prefix());
        assert("TO: "@ =~= to_prefix());
        assert("SUBJECT: "@ =~= subject_prefix());
        assert("BODY:"@ =~= body_marker());
        assert("---"@ =~= record_separator());
    }
    let mut r: Vec<String> = Vec::new();
    let mut l: String = "FROM: ".to_owned();
    l.append(from_addr);
    r.push(l);
    let mut l: String = "TO: ".to_owned();
    l.append(to);
    r.push(l);
    let mut l: String = "SUBJECT: ".to_owned();
    l.append(subject);
    r.push(l);
    r.push("BODY:".to_owned());
    r.push(body.to_owned());
    if with_separator {
        r.push("---".to_owned());
    }
    r
}

} // verus!
