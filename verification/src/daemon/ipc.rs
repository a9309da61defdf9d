//! The tiny protocol over the owner-local control socket: one request line, and a framed reply.
//!
//! A request is the marker and a verb. A reply is `ok`, lines and an end marker, or `err` with a
//! code and an end marker.
use vstd::prelude::*;
use vstd::string::StringExecFns;
use vstd::utf8::encode_utf8;
use crate::daemon::error::PathDefect;
use crate::daemon::layout::{audit_dir, audit_file, path_defect, PathFacts};
use crate::text::{
    char_lists, chars_of, join2, join3, nat_text, part, push_nat, same, spells, split_words,
    string_texts, text_of, words,
};

verus! {

/// Protocol marker on every request and response line.
pub const PROTOCOL: &'static str = "cg1";

/// Conservative socket-path limit: the smaller of the platforms' buffers, less the end mark.
pub const MAX_SOCKET_PATH_LEN: usize = 103;

/// Longest request that is read. A request is one short verb.
pub const MAX_REQUEST_BYTES: u64 = 256;

/// A request the control socket understands.
#[derive(Debug, Clone, Copy, PartialEq, Eq, Structural)]
pub enum Request {
    /// Liveness only.
    Ping,
    /// Aggregate obligation, attention, health and daemon state.
    Status,
    /// One line per open obligation.
    Obligations,
    /// The daemon's half of the state-root diagnosis.
    Doctor,
}

impl Request {
    /// The verb as it appears on the wire.
    pub open spec fn word(self) -> &'static str {
        match self {
            Request::Ping => "ping",
            Request::Status => "status",
            Request::Obligations => "obligations",
            Request::Doctor => "doctor",
        }
    }

    /// The verb as it appears on the wire.
    pub fn verb(self) -> (r: &'static str)
        ensures
            r == self.word(),
    {
        match self {
            Request::Ping => "ping",
            Request::Status => "status",
            Request::Obligations => "obligations",
            Request::Doctor => "doctor",
        }
    }

    /// The request a verb names, if it names one.
    pub open spec fn named(verb: Seq<char>) -> Option<Request> {
        if verb == "ping"@ {
            Some(Request::Ping)
        } else if verb == "status"@ {
            Some(Request::Status)
        } else if verb == "obligations"@ {
            Some(Request::Obligations)
        } else if verb == "doctor"@ {
            Some(Request::Doctor)
        } else {
            None
        }
    }

    /// Parses one verb.
    pub fn parse(verb: &str) -> (r: Option<Request>)
        ensures
            r == Request::named(verb@),
    {
        if same(verb, "ping") {
            Some(Request::Ping)
        } else if same(verb, "status") {
            Some(Request::Status)
        } else if same(verb, "obligations") {
            Some(Request::Obligations)
        } else if same(verb, "doctor") {
            Some(Request::Doctor)
        } else {
            None
        }
    }
}

/// Why an exchange failed.
#[derive(Debug, PartialEq, Eq)]
pub enum IpcError {
    /// The socket path does not fit in a socket address.
    PathTooLong {
        /// Length of the path that was refused.
        len: usize,
        /// The limit that is enforced.
        limit: usize,
    },
    /// The socket, or the directory holding it, could not be prepared.
    Bind,
    /// No daemon is listening on the socket.
    NotRunning,
    /// The daemon did not answer, or answered something unparseable.
    Unreadable,
    /// The daemon refused the request.
    Refused {
        /// The refusal's stable code.
        code: String,
    },
}

impl IpcError {
    /// The failure in words.
    pub open spec fn words(self) -> Seq<char> {
        match self {
            IpcError::PathTooLong { len, limit } => {
                "the control socket path is "@ + nat_text(len as nat) + " bytes, over the "@ + nat_text(
                    limit as nat,
                ) + "-byte limit"@
            },
            IpcError::Bind => "the control socket could not be bound"@,
            IpcError::NotRunning => {
                "no daemon is listening on this state root's control socket"@
            },
            IpcError::Unreadable => "the daemon's reply could not be read"@,
            IpcError::Refused { code } => "the daemon refused the request: "@ + code@,
        }
    }

    /// The failure in words.
    pub fn message(&self) -> (r: String)
        ensures
            r@ == self.words(),
    {
        let mut out = String::new();
        match self {
            IpcError::PathTooLong { len, limit } => {
                out.append("the control socket path is ");
                push_nat(&mut out, *len as u64);
                out.append(" bytes, over the ");
                push_nat(&mut out, *limit as u64);
                out.append("-byte limit");
            },
            IpcError::Bind => {
                out.append("the control socket could not be bound");
            },
            IpcError::NotRunning => {
                out.append("no daemon is listening on this state root's control socket");
            },
            IpcError::Unreadable => {
                out.append("the daemon's reply could not be read");
            },
            IpcError::Refused { code } => {
                out.append("the daemon refused the request: ");
                out.append(code.as_str());
            },
        }
        assert(out@ =~= self.words());
        out
    }
}

/// Whether a socket path fits the address buffer, in bytes.
pub open spec fn socket_path_fits(path: Seq<char>) -> Result<(), IpcError> {
    if encode_utf8(path).len() > MAX_SOCKET_PATH_LEN {
        Err(
            IpcError::PathTooLong {
                len: encode_utf8(path).len() as usize,
                limit: MAX_SOCKET_PATH_LEN,
            },
        )
    } else {
        Ok(())
    }
}

/// Checks a socket path against the address-buffer limit, in bytes.
pub fn check_socket_path(path: &str) -> (r: Result<(), IpcError>)
    ensures
        r == socket_path_fits(path@),
{
    let len: usize = path.as_bytes().len();
    if len > MAX_SOCKET_PATH_LEN {
        return Err(IpcError::PathTooLong { len, limit: MAX_SOCKET_PATH_LEN });
    }
    Ok(())
}

// --- Requests --------------------------------------------------------------------------------------------

/// The request a line carries: the marker, a known verb, and nothing else.
pub open spec fn request_in(line: Seq<char>) -> Option<Request> {
    let fields = words(line);
    if fields.len() == 2 && fields[0] == PROTOCOL@ {
        Request::named(fields[1])
    } else {
        None
    }
}

/// Parses one request line. Anything after the verb is refused: there are no arguments.
pub fn parse_request(line: &str) -> (r: Option<Request>)
    ensures
        r == request_in(line@),
{
    let chars = chars_of(line);
    let fields = split_words(&chars);
    assert(char_lists(fields@) == words(line@));
    if fields.len() != 2 {
        return None;
    }
    assert(words(line@)[0] == fields@[0]@);
    assert(words(line@)[1] == fields@[1]@);
    if !spells(&fields[0], PROTOCOL) {
        return None;
    }
    let verb = text_of(fields[1].as_slice());
    Request::parse(verb.as_str())
}

/// The line that carries a request, without its end of line.
pub open spec fn request_text(request: Request) -> Seq<char> {
    PROTOCOL@ + " "@ + request.word()@
}

/// Renders the line that carries a request.
pub fn request_line(request: Request) -> (r: String)
    ensures
        r@ == request_text(request),
{
    join3(PROTOCOL, " ", request.verb())
}

// --- Replies ---------------------------------------------------------------------------------------------

/// The line that opens a reply to a request that was understood.
pub open spec fn ok_text() -> Seq<char> {
    PROTOCOL@ + " ok"@
}

/// The line that ends a reply.
pub open spec fn end_text() -> Seq<char> {
    PROTOCOL@ + " end"@
}

/// What opens the line of a refusal; its code follows.
pub open spec fn err_text() -> Seq<char> {
    PROTOCOL@ + " err "@
}

/// The lines of a reply: what was handled, framed, or a refusal.
pub open spec fn reply_texts(understood: bool, lines: Seq<Seq<char>>) -> Seq<Seq<char>> {
    if understood {
        seq![ok_text()] + lines + seq![end_text()]
    } else {
        seq![err_text() + "unknown_request"@, end_text()]
    }
}

/// Frames a reply. `handled` is what the handler said, or nothing where the request was not
/// understood.
pub fn answer(handled: Option<Vec<String>>) -> (r: Vec<String>)
    ensures
        string_texts(r@) == reply_texts(
            handled is Some,
            match handled {
                Some(lines) => string_texts(lines@),
                None => Seq::empty(),
            },
        ),
{
    let mut out: Vec<String> = Vec::new();
    match handled {
        Some(lines) => {
            let ghost said = lines@;
            let mut lines = lines;
            out.push(join2(PROTOCOL, " ok"));
            out.append(&mut lines);
            out.push(join2(PROTOCOL, " end"));
            assert(string_texts(out@) =~= seq![ok_text()] + string_texts(said) + seq![end_text()]);
        },
        None => {
            out.push(join3(PROTOCOL, " err ", "unknown_request"));
            out.push(join2(PROTOCOL, " end"));
            assert(string_texts(out@) =~= seq![err_text() + "unknown_request"@, end_text()]);
        },
    }
    out
}

/// The position of the end marker of a reply, if it has one.
pub open spec fn end_at(lines: Seq<Seq<char>>, from: int) -> Option<int>
    decreases lines.len() - from,
{
    if from >= lines.len() {
        None
    } else if lines[from] == end_text() {
        Some(from)
    } else {
        end_at(lines, from + 1)
    }
}

/// What a reply says on values alone: its lines, or why there are none.
pub enum ReplyView {
    Lines(Seq<Seq<char>>),
    Refused(Seq<char>),
    Unreadable,
}

/// What the lines of a reply say: whatever stands before the end marker counts, and nothing after
/// it is looked at.
pub open spec fn reply_of(lines: Seq<Seq<char>>) -> ReplyView {
    match end_at(lines, 0) {
        None => ReplyView::Unreadable,
        Some(end) => if end == 0 {
            ReplyView::Unreadable
        } else if lines[0] == ok_text() {
            ReplyView::Lines(lines.subrange(1, end))
        } else if err_text().is_prefix_of(lines[0]) {
            ReplyView::Refused(lines[0].skip(err_text().len() as int))
        } else {
            ReplyView::Unreadable
        },
    }
}

/// What a reply that was read says, on values alone.
pub open spec fn reply_view(r: Result<Vec<String>, IpcError>) -> ReplyView {
    match r {
        Ok(lines) => ReplyView::Lines(string_texts(lines@)),
        Err(IpcError::Refused { code }) => ReplyView::Refused(code@),
        Err(_) => ReplyView::Unreadable,
    }
}

/// The code behind a refusal's opening, if a line opens one.
fn refusal_of(header: &str) -> (r: Option<String>)
    ensures
        match r {
            Some(code) => err_text().is_prefix_of(header@) && code@ == header@.skip(
                err_text().len() as int,
            ),
            None => !err_text().is_prefix_of(header@),
        },
{
    let chars = chars_of(header);
    let opening = join2(PROTOCOL, " err ");
    let marks = chars_of(opening.as_str());
    if chars.len() < marks.len() {
        return None;
    }
    let head = part(&chars, 0, marks.len());
    if !spells(&head, opening.as_str()) {
        assert(!err_text().is_prefix_of(header@)) by {
            if err_text().is_prefix_of(header@) {
                assert(head@ =~= err_text());
            }
        }
        return None;
    }
    let code = part(&chars, marks.len(), chars.len());
    assert(err_text().is_prefix_of(header@)) by {
        assert(header@.subrange(0, err_text().len() as int) =~= head@);
    }
    assert(code@ =~= header@.skip(err_text().len() as int));
    Some(text_of(code.as_slice()))
}

/// Decides what a whole reply says, its header being its first line.
pub fn finish(header: &str, lines: Vec<String>) -> (r: Result<Vec<String>, IpcError>)
    ensures
        match r {
            Ok(said) => header@ == ok_text() && said == lines,
            Err(e) => header@ != ok_text() && (if err_text().is_prefix_of(header@) {
                e matches IpcError::Refused { code } && code@ == header@.skip(
                    err_text().len() as int,
                )
            } else {
                e == IpcError::Unreadable
            }),
        },
{
    let ok = join2(PROTOCOL, " ok");
    if same(header, ok.as_str()) {
        return Ok(lines);
    }
    match refusal_of(header) {
        Some(code) => Err(IpcError::Refused { code }),
        None => Err(IpcError::Unreadable),
    }
}

/// Reads a reply from the lines a daemon sent.
pub fn read_reply(lines: &Vec<String>) -> (r: Result<Vec<String>, IpcError>)
    ensures
        reply_view(r) == reply_of(string_texts(lines@)),
        r matches Err(e) ==> e is Refused || e is Unreadable,
{
    let ghost all = string_texts(lines@);
    let end = join2(PROTOCOL, " end");
    let mut said: Vec<String> = Vec::new();
    let mut i: usize = 0;
    while i < lines.len()
        invariant
            i <= lines@.len(),
            all == string_texts(lines@),
            end@ == end_text(),
            end_at(all, 0) == end_at(all, i as int),
            i == 0 ==> said@.len() == 0,
            i > 0 ==> said@.len() == i - 1,
            forall|k: int| 0 <= k < said@.len() ==> #[trigger] said@[k]@ == all[k + 1],
        decreases lines@.len() - i,
    {
        assert(all[i as int] == lines@[i as int]@);
        if same(lines[i].as_str(), end.as_str()) {
            if i == 0 {
                return Err(IpcError::Unreadable);
            }
            assert(string_texts(said@) =~= all.subrange(1, i as int));
            assert(all[0] == lines@[0]@);
            return finish(lines[0].as_str(), said);
        }
        if i > 0 {
            said.push(lines[i].clone());
        }
        i = i + 1;
    }
    Err(IpcError::Unreadable)
}

/// Whether a daemon answers, from the reply to a liveness request: only an answer proves one.
pub fn daemon_answering(reply: &Result<Vec<String>, IpcError>) -> (r: bool)
    ensures
        r == (*reply is Ok),
{
    match reply {
        Ok(_) => true,
        Err(_) => false,
    }
}

/// What is wrong with one of the socket's paths, as a finding under its name; a path that leads to
/// nothing is no finding here.
pub open spec fn path_findings(
    name: &'static str,
    path: Option<PathFacts>,
    owner_uid: u32,
    as_directory: bool,
) -> Seq<(&'static str, PathDefect)> {
    match path {
        None => Seq::empty(),
        Some(facts) => match path_defect(facts, owner_uid, as_directory) {
            Err(defect) => seq![(name, defect)],
            Ok(_) => Seq::empty(),
        },
    }
}

/// What is wrong with the socket's directory and the socket, of those whose path leads to something.
pub open spec fn socket_findings(
    directory: Option<PathFacts>,
    socket: Option<PathFacts>,
    owner_uid: u32,
) -> Seq<(&'static str, PathDefect)> {
    path_findings("ipc_directory", directory, owner_uid, true) + path_findings(
        "control_socket",
        socket,
        owner_uid,
        false,
    )
}

/// Audits the socket's directory and the socket. Nothing stands for a path that leads to nothing,
/// links followed.
pub fn audit(directory: Option<PathFacts>, socket: Option<PathFacts>, owner_uid: u32) -> (r: Vec<
    (&'static str, PathDefect),
>)
    ensures
        r@ == socket_findings(directory, socket, owner_uid),
{
    let mut findings: Vec<(&'static str, PathDefect)> = Vec::new();
    if let Some(facts) = directory {
        if let Err(defect) = audit_dir(facts, owner_uid) {
            findings.push(("ipc_directory", defect));
        }
    }
    if let Some(facts) = socket {
        if let Err(defect) = audit_file(facts, owner_uid) {
            findings.push(("control_socket", defect));
        }
    }
    assert(findings@ =~= socket_findings(directory, socket, owner_uid));
    findings
}

// --- Laws ------------------------------------------------------------------------------------------------

/// Every verb names its request.
pub proof fn every_verb_names_its_request(request: Request)
    ensures
        Request::named(request.word()@) == Some(request),
{
    reveal_strlit("ping");
    reveal_strlit("status");
    reveal_strlit("obligations");
    reveal_strlit("doctor");
    assert("ping"@.len() == 4 && "status"@.len() == 6 && "obligations"@.len() == 11 && "doctor"@.len()
        == 6);
    assert("status"@[0] == 's' && "doctor"@[0] == 'd');
}

/// A request that is sent is the request that is read, with or without its end of line.
pub proof fn a_sent_request_is_the_one_read(request: Request)
    ensures
        request_in(request_text(request)) == Some(request),
        request_in(request_text(request) + seq!['\n']) == Some(request),
{
    every_verb_names_its_request(request);
    reveal_strlit("cg1");
    reveal_strlit(" ");
    reveal_strlit("ping");
    reveal_strlit("status");
    reveal_strlit("obligations");
    reveal_strlit("doctor");
    let verb = request.word()@;
    assert(forall|i: int| 0 <= i < verb.len() ==> !crate::text::is_white(#[trigger] verb[i]));
    assert(verb.len() > 0);
    let tail = " "@ + verb;
    let none = Seq::<Seq<char>>::empty();
    let nothing = Seq::<char>::empty();
    let line = request_text(request);
    assert(line =~= PROTOCOL@ + tail);
    crate::text::a_word_is_read(none, nothing, PROTOCOL@, tail);
    assert(nothing + PROTOCOL@ =~= PROTOCOL@);
    assert(tail.skip(1) =~= verb + nothing);
    crate::text::a_word_is_read(none.push(PROTOCOL@), nothing, verb, nothing);
    assert(nothing + verb =~= verb);
    assert(words(line) =~= seq![PROTOCOL@, verb]);
    let end = seq!['\n'];
    let long = tail + end;
    assert(line + end =~= PROTOCOL@ + long);
    crate::text::a_word_is_read(none, nothing, PROTOCOL@, long);
    assert(long.skip(1) =~= verb + end);
    crate::text::a_word_is_read(none.push(PROTOCOL@), nothing, verb, end);
    assert(end.skip(1) =~= nothing);
    assert(words(line + end) =~= seq![PROTOCOL@, verb]);
}

proof fn end_is_last(lines: Seq<Seq<char>>, from: int)
    requires
        0 <= from < lines.len(),
        lines.last() == end_text(),
        forall|i: int| from <= i < lines.len() - 1 ==> #[trigger] lines[i] != end_text(),
    ensures
        end_at(lines, from) == Some(lines.len() - 1),
    decreases lines.len() - from,
{
    if from < lines.len() - 1 {
        assert(lines[from] != end_text());
        end_is_last(lines, from + 1);
    }
}

/// A reply carries the handler's lines: what is framed is read back, where no line is itself the end
/// marker.
pub proof fn a_reply_carries_the_lines(lines: Seq<Seq<char>>)
    requires
        forall|i: int| 0 <= i < lines.len() ==> #[trigger] lines[i] != end_text(),
    ensures
        reply_of(reply_texts(true, lines)) == ReplyView::Lines(lines),
{
    reveal_strlit(" ok");
    reveal_strlit(" end");
    reveal_strlit("cg1");
    let all = reply_texts(true, lines);
    assert(ok_text().len() == 6 && end_text().len() == 7);
    assert forall|i: int| 0 <= i < all.len() - 1 implies #[trigger] all[i] != end_text() by {
        if i > 0 {
            assert(all[i] == lines[i - 1]);
        } else {
            assert(all[i] == ok_text());
        }
    }
    assert(all.last() == end_text());
    end_is_last(all, 0);
    assert(all.subrange(1, all.len() - 1) =~= lines);
}

/// A request that is not understood is refused with a code, and carries nothing.
pub proof fn an_unknown_request_is_refused(lines: Seq<Seq<char>>)
    ensures
        reply_of(reply_texts(false, lines)) == ReplyView::Refused("unknown_request"@),
{
    reveal_strlit(" ok");
    reveal_strlit(" end");
    reveal_strlit(" err ");
    reveal_strlit("cg1");
    reveal_strlit("unknown_request");
    let all = reply_texts(false, lines);
    assert(all.len() == 2);
    assert(all[0].len() == 23 && end_text().len() == 7 && ok_text().len() == 6);
    assert(end_at(all, 0) == end_at(all, 1));
    assert(end_at(all, 1) == Some(1int));
    assert(err_text().is_prefix_of(all[0])) by {
        assert(all[0].subrange(0, err_text().len() as int) =~= err_text());
    }
    assert(all[0].skip(err_text().len() as int) =~= "unknown_request"@);
}

/// A line is a request exactly where its words are the marker and that request's verb: nothing else is
/// understood, not even a verb with more behind it.
pub proof fn a_request_is_the_marker_and_a_verb(line: Seq<char>, request: Request)
    ensures
        request_in(line) == Some(request) <==> words(line) == seq![PROTOCOL@, request.word()@],
{
    every_verb_names_its_request(request);
    let fields = words(line);
    if request_in(line) == Some(request) {
        assert(fields =~= seq![PROTOCOL@, request.word()@]);
    }
}

/// A socket path fits where its bytes do, and one that does not is told how long it is and how long it
/// may be.
pub proof fn a_socket_path_fits_its_buffer(path: Seq<char>)
    ensures
        socket_path_fits(path) is Ok <==> encode_utf8(path).len() <= MAX_SOCKET_PATH_LEN,
        socket_path_fits(path) matches Err(error) ==> (error matches IpcError::PathTooLong { len, limit }
            && limit == MAX_SOCKET_PATH_LEN && (encode_utf8(path).len() <= usize::MAX ==> len
            == encode_utf8(path).len() && len > limit)),
{
}

proof fn an_end_is_the_first(lines: Seq<Seq<char>>, from: int)
    requires
        0 <= from <= lines.len(),
    ensures
        end_at(lines, from) matches Some(end) ==> from <= end < lines.len() && lines[end] == end_text(),
        end_at(lines, from) is None <==> forall|i: int|
            from <= i < lines.len() ==> #[trigger] lines[i] != end_text(),
        end_at(lines, from) matches Some(end) ==> forall|i: int|
            from <= i < end ==> #[trigger] lines[i] != end_text(),
    decreases lines.len() - from,
{
    if from < lines.len() && lines[from] != end_text() {
        an_end_is_the_first(lines, from + 1);
    }
}

proof fn an_end_hides_what_follows(lines: Seq<Seq<char>>, more: Seq<Seq<char>>, from: int)
    requires
        0 <= from <= lines.len(),
        end_at(lines, from) is Some,
    ensures
        end_at(lines + more, from) == end_at(lines, from),
    decreases lines.len() - from,
{
    assert((lines + more)[from] == lines[from]);
    if lines[from] != end_text() {
        an_end_hides_what_follows(lines, more, from + 1);
    }
}

/// A reply ends at its end marker: one without it cannot be read, and nothing behind it is.
pub proof fn a_reply_ends_at_its_end_marker(lines: Seq<Seq<char>>, more: Seq<Seq<char>>)
    ensures
        (forall|i: int| 0 <= i < lines.len() ==> #[trigger] lines[i] != end_text()) ==> reply_of(lines)
            == ReplyView::Unreadable,
        (exists|i: int| 0 <= i < lines.len() && #[trigger] lines[i] == end_text()) ==> reply_of(
            lines + more,
        ) == reply_of(lines),
{
    an_end_is_the_first(lines, 0);
    if end_at(lines, 0) is Some {
        an_end_hides_what_follows(lines, more, 0);
        let end = end_at(lines, 0)->0;
        assert((lines + more)[0] == lines[0]);
        if end > 0 {
            assert((lines + more).subrange(1, end) =~= lines.subrange(1, end));
        }
    }
}

/// A refusal is read as the code it carries, whatever the code.
pub proof fn a_refusal_carries_its_code(code: Seq<char>)
    ensures
        reply_of(seq![err_text() + code, end_text()]) == ReplyView::Refused(code),
{
    reveal_strlit(" ok");
    reveal_strlit(" end");
    reveal_strlit(" err ");
    reveal_strlit("cg1");
    let all = seq![err_text() + code, end_text()];
    assert(all[0].len() >= 8 && end_text().len() == 7 && ok_text().len() == 6);
    assert(end_at(all, 0) == end_at(all, 1));
    assert(end_at(all, 1) == Some(1int));
    assert(err_text().is_prefix_of(all[0])) by {
        assert(all[0].subrange(0, err_text().len() as int) =~= err_text());
    }
    assert(all[0].skip(err_text().len() as int) =~= code);
}

} // verus!
