//! The Body Sender: the full MIME message as the exact sequence of writes
//! to stream over the transport once the server has accepted DATA.
//!
//! The message is multipart/mixed with the fixed boundary token
//! `boundary123456789`: a header block and a plain-text section in one
//! write, then, if an attachment is present, the attachment section header
//! followed by the base64 text of the attachment in fixed-size chunks, and
//! finally the closing boundary marker and the lone `.` line that ends the
//! DATA phase.

use vstd::prelude::*;

use crate::b64::{b64_encode, b64_of};
use crate::stream::SmtpConnection;
use crate::strutil::spec_starts_with;

verus! {

/// Size, in characters, of one line of base64 attachment text.
pub const CHUNK_SIZE: usize = 76;

/// The chunk size actually used: the configured size rounded down to the
/// nearest multiple of four — so that no chunk boundary falls inside a
/// base64 quantum — with four as the floor.
pub open spec fn spec_adjusted_chunk(chunk_size: nat) -> nat {
    if (chunk_size / 4) * 4 == 0 {
        4
    } else {
        (chunk_size / 4) * 4
    }
}

/// The base64 text `e` cut into chunks of `c` characters (the last chunk
/// may be shorter), each chunk with a line terminator appended.
pub open spec fn spec_chunks(e: Seq<char>, c: nat) -> Seq<Seq<char>>
    decreases e.len(),
{
    if c == 0 {
        Seq::empty()
    } else if e.len() == 0 {
        Seq::empty()
    } else if e.len() <= c {
        seq![e + "\r\n"@]
    } else {
        seq![e.take(c as int) + "\r\n"@] + spec_chunks(e.skip(c as int), c)
    }
}

/// Base64-encode `data` in full, then cut the encoded text into chunks of
/// `chunk_size` characters — rounded down to a multiple of four, floor
/// four — appending a line terminator to each chunk.
pub fn chunk_and_encode(data: &[u8], chunk_size: usize) -> (chunks: Vec<String>)
    requires
        4 * ((data@.len() + 2) / 3) <= usize::MAX,
    ensures
        chunks.deep_view() == spec_chunks(b64_of(data@), spec_adjusted_chunk(chunk_size as nat)),
        b64_of(data@).len() == 4 * ((data@.len() + 2) / 3),
{
    let encoded: String = b64_encode(data);
    let adjusted: usize = (chunk_size / 4) * 4;
    let c: usize = if adjusted == 0 {
        4
    } else {
        adjusted
    };
    assert(c as nat == spec_adjusted_chunk(chunk_size as nat));
    let es: &str = encoded.as_str();
    proof {
        vstd::string::is_ascii_spec_bytes(es);
    }
    let n: usize = es.len();
    assert(n == es@.len());
    let ghost e: Seq<char> = encoded@;
    let mut chunks: Vec<String> = Vec::new();
    let mut start: usize = 0;
    proof {
        assert(e.skip(0) =~= e);
        assert(chunks.deep_view() + spec_chunks(e.skip(0), c as nat) =~~= spec_chunks(
            e,
            c as nat,
        ));
    }
    while start < n
        invariant
            4 <= c,
            n == es@.len(),
            es@ == e,
            vstd::utf8::is_ascii_chars(es@),
            start <= n,
            spec_chunks(e, c as nat) == chunks.deep_view() + spec_chunks(
                e.skip(start as int),
                c as nat,
            ),
        decreases n - start,
    {
        let end: usize = if n - start < c {
            n
        } else {
            start + c
        };
        let piece: &str = es.substring_ascii(start, end);
        let mut line: String = String::from_str(piece);
        line.append("\r\n");
        let ghost old_dv = chunks.deep_view();
        chunks.push(line);
        proof {
            assert(chunks.deep_view() =~~= old_dv.push(piece@ + "\r\n"@));
            let rem = e.skip(start as int);
            if n - start <= c {
                assert(piece@ =~= rem);
                assert(e.skip(end as int) =~= Seq::<char>::empty());
                assert(spec_chunks(rem, c as nat) =~~= seq![rem + "\r\n"@]);
                assert(chunks.deep_view() + spec_chunks(e.skip(end as int), c as nat) =~~= old_dv
                    + spec_chunks(rem, c as nat));
            } else {
                assert(piece@ =~= rem.take(c as int));
                assert(rem.skip(c as int) =~= e.skip(end as int));
                assert(spec_chunks(rem, c as nat) =~~= seq![rem.take(c as int) + "\r\n"@]
                    + spec_chunks(e.skip(end as int), c as nat));
                assert(chunks.deep_view() + spec_chunks(e.skip(end as int), c as nat) =~~= old_dv
                    + spec_chunks(rem, c as nat));
            }
        }
        start = end;
    }
    proof {
        assert(e.skip(start as int) =~= Seq::<char>::empty());
        assert(chunks.deep_view() =~~= spec_chunks(e, c as nat));
    }
    chunks
}

/// One chunk with its injected line terminator stripped.
pub open spec fn spec_strip_crlf(chunk: Seq<char>) -> Seq<char> {
    chunk.take(chunk.len() - 2)
}

/// The chunk sequence rejoined, stripping the terminator injected into each
/// chunk.
pub open spec fn spec_rejoin(chunks: Seq<Seq<char>>) -> Seq<char>
    decreases chunks.len(),
{
    if chunks.len() == 0 {
        Seq::empty()
    } else {
        spec_strip_crlf(chunks[0]) + spec_rejoin(chunks.drop_first())
    }
}

/// Round-trip law of the chunking step: cutting any text into chunks and
/// rejoining them, stripping the injected terminators, reproduces the text
/// exactly. Applied to `b64_of(data)` this is the textual half of the
/// attachment round trip; that base64 decoding then recovers `data` itself
/// is the `base64` crate's inverse pair, exercised by the tests.
pub proof fn lemma_chunks_rejoin(e: Seq<char>, c: nat)
    requires
        c >= 1,
    ensures
        spec_rejoin(spec_chunks(e, c)) == e,
    decreases e.len(),
{
    reveal_strlit("\r\n");
    if e.len() == 0 {
        assert(spec_rejoin(spec_chunks(e, c)) =~= e);
    } else if e.len() <= c {
        let ch = e + "\r\n"@;
        assert(spec_strip_crlf(ch) =~= e);
        assert(seq![ch].drop_first() =~~= Seq::<Seq<char>>::empty());
        assert(spec_rejoin(Seq::<Seq<char>>::empty()) == Seq::<char>::empty());
        assert(spec_rejoin(spec_chunks(e, c)) =~= e);
    } else {
        lemma_chunks_rejoin(e.skip(c as int), c);
        let ch = e.take(c as int) + "\r\n"@;
        assert(spec_strip_crlf(ch) =~= e.take(c as int));
        assert((seq![ch] + spec_chunks(e.skip(c as int), c)).drop_first() =~~= spec_chunks(
            e.skip(c as int),
            c,
        ));
        assert(spec_rejoin(spec_chunks(e, c)) == spec_strip_crlf(ch) + spec_rejoin(
            spec_chunks(e.skip(c as int), c),
        ));
        assert(e.take(c as int) + e.skip(c as int) =~= e);
    }
}

/// Chunk-length law: every chunk is its text plus the two-character
/// terminator; every chunk's text has exactly `c` characters except
/// possibly the last, whose length is still positive, at most `c`, and —
/// for text whose length is a multiple of four, as padded base64 text is,
/// and `c` a multiple of four — itself a multiple of four.
pub proof fn lemma_chunk_lengths(e: Seq<char>, c: nat)
    requires
        c >= 4,
        c % 4 == 0,
        e.len() % 4 == 0,
    ensures
        forall|i: int|
            0 <= i < spec_chunks(e, c).len() ==> {
                let chunk = #[trigger] spec_chunks(e, c)[i];
                &&& chunk.len() > 2
                &&& chunk == spec_strip_crlf(chunk) + "\r\n"@
                &&& chunk.len() - 2 <= c
                &&& (chunk.len() - 2) % 4 == 0
                &&& (i < spec_chunks(e, c).len() - 1 ==> chunk.len() - 2 == c)
            },
    decreases e.len(),
{
    reveal_strlit("\r\n");
    if e.len() == 0 {
    } else if e.len() <= c {
        let ch = e + "\r\n"@;
        assert(ch == spec_strip_crlf(ch) + "\r\n"@) by {
            assert(spec_strip_crlf(ch) =~= e);
        }
    } else {
        lemma_chunk_lengths(e.skip(c as int), c);
        let ch = e.take(c as int) + "\r\n"@;
        assert(ch == spec_strip_crlf(ch) + "\r\n"@) by {
            assert(spec_strip_crlf(ch) =~= e.take(c as int));
        }
        let rest = spec_chunks(e.skip(c as int), c);
        assert(e.skip(c as int).len() == e.len() - c);
        assert forall|i: int| 0 <= i < spec_chunks(e, c).len() implies {
            let chunk = #[trigger] spec_chunks(e, c)[i];
            &&& chunk.len() > 2
            &&& chunk == spec_strip_crlf(chunk) + "\r\n"@
            &&& chunk.len() - 2 <= c
            &&& (chunk.len() - 2) % 4 == 0
            &&& (i < spec_chunks(e, c).len() - 1 ==> chunk.len() - 2 == c)
        } by {
            if i > 0 {
                assert(spec_chunks(e, c)[i] == rest[i - 1]);
                assert(rest.len() > 0);
            }
        }
    }
}

/// All the writes of a message, joined: the byte stream the server sees
/// during the DATA phase.
pub open spec fn spec_concat_all(ws: Seq<Seq<char>>) -> Seq<char>
    decreases ws.len(),
{
    if ws.len() == 0 {
        Seq::empty()
    } else {
        ws[0] + spec_concat_all(ws.drop_first())
    }
}

/// A period stands right after a line feed at position `j` of `s`. Every
/// lone-period line of a CRLF-delimited stream that does not begin with one
/// starts at such a position.
pub open spec fn nl_dot_at(s: Seq<char>, j: int) -> bool {
    0 <= j && j + 1 < s.len() && s[j] == '\n' && s[j + 1] == '.'
}

/// No period follows a line feed anywhere in `s`.
pub open spec fn no_nl_dot(s: Seq<char>) -> bool {
    forall|j: int| !nl_dot_at(s, j)
}

/// `s` contains no line feed.
pub open spec fn nl_free(s: Seq<char>) -> bool {
    forall|i: int| 0 <= i < s.len() ==> s[i] != '\n'
}

proof fn lemma_nl_free_no_nl_dot(s: Seq<char>)
    requires
        nl_free(s),
    ensures
        no_nl_dot(s),
{
    assert forall|j: int| !nl_dot_at(s, j) by {
        if nl_dot_at(s, j) {
            assert(s[j] != '\n');
        }
    }
}

proof fn lemma_no_nl_dot_concat(x: Seq<char>, y: Seq<char>)
    requires
        no_nl_dot(x),
        no_nl_dot(y),
        x.len() == 0 || y.len() == 0 || x.last() != '\n' || y.first() != '.',
    ensures
        no_nl_dot(x + y),
{
    assert forall|j: int| !nl_dot_at(x + y, j) by {
        if nl_dot_at(x + y, j) {
            if j + 1 < x.len() {
                assert(nl_dot_at(x, j));
            } else if j >= x.len() {
                assert(nl_dot_at(y, j - x.len()));
            } else {
                assert((x + y)[j] == x.last());
                assert((x + y)[j + 1] == y.first());
            }
        }
    }
}

/// For a session without an attachment the Body Sender's output is exactly
/// three writes: the headers with the plain-text section, the closing
/// boundary marker, and the DATA terminator. No write is an attachment
/// section — every attachment section write begins with the boundary
/// token — and exactly one write, the last, is the lone-period line that
/// terminates the DATA phase.
pub proof fn lemma_body_without_attachment(c: SmtpConnection)
    requires
        !spec_has_attachment(c),
    ensures
        spec_body_writes(c) == seq![
            spec_data_header(c) + spec_data_msg(c) + "\r\n"@,
            spec_closing_plain(),
            spec_dot_line(),
        ],
        forall|i: int|
            0 <= i < spec_body_writes(c).len() ==> !spec_starts_with(
                #[trigger] spec_body_writes(c)[i],
                "--boundary123456789"@,
            ),
        forall|i: int|
            0 <= i < spec_body_writes(c).len() ==> ((#[trigger] spec_body_writes(c)[i]
                == spec_dot_line()) <==> i == spec_body_writes(c).len() - 1),
{
    reveal_strlit("From: ");
    reveal_strlit("--boundary123456789");
    reveal_strlit("\r\n--boundary123456789--\r\n");
    reveal_strlit("\r\n.\r\n");
    let w = spec_body_writes(c);
    let marker = "--boundary123456789"@;
    assert(w.len() == 3);
    assert(w[0][0] == 'F');
    assert(w[1][0] == '\r');
    assert(w[2] == spec_dot_line());
    assert forall|i: int| 0 <= i < w.len() implies !spec_starts_with(
        #[trigger] w[i],
        "--boundary123456789"@,
    ) by {
        if spec_starts_with(w[i], marker) {
            assert(w[i].subrange(0, marker.len() as int)[0] == marker[0]);
            assert(w[i][0] == '-');
        }
    }
    assert forall|i: int| 0 <= i < w.len() implies ((#[trigger] w[i] == spec_dot_line()) <==> i
        == w.len() - 1) by {
        assert(spec_dot_line()[0] == '\r');
        assert(spec_dot_line().len() == 5);
        assert(spec_closing_plain().len() == 25);
        if i == 1 && w[1] == spec_dot_line() {
            assert(w[1].len() == 5);
        }
    }
}

/// For a session without an attachment whose sender, recipient and subject
/// contain no line feed, the streamed message as a whole has exactly one
/// position where a period follows a line feed: inside the DATA terminator,
/// four characters before the end. Every lone-period line of the
/// CRLF-delimited stream starts at such a position, so the stream carries
/// exactly one lone-period line, and it is the line that ends the DATA
/// phase.
pub proof fn lemma_single_dot_line(c: SmtpConnection)
    requires
        !spec_has_attachment(c),
        nl_free(c.from@),
        nl_free(c.to@),
        nl_free(c.subject@),
    ensures
        spec_concat_all(spec_body_writes(c)).len() >= 5,
        forall|j: int|
            nl_dot_at(spec_concat_all(spec_body_writes(c)), j) <==> j == spec_concat_all(
                spec_body_writes(c),
            ).len() - 4,
        spec_concat_all(spec_body_writes(c)).skip(
            spec_concat_all(spec_body_writes(c)).len() - 5,
        ) == spec_dot_line(),
{
    reveal_strlit("From: ");
    reveal_strlit("\r\nTo: ");
    reveal_strlit("\r\nSubject: ");
    reveal_strlit(
        "\r\nMIME-Version: 1.0\r\nContent-Type: multipart/mixed; boundary=\"boundary123456789\"\r\n\r\n--boundary123456789\r\nContent-Type: text/plain; charset=utf-8\r\n",
    );
    reveal_strlit("This is the email body.\r\n\r\nWas sent from ");
    reveal_strlit(" to ");
    reveal_strlit(".\r\n\r\nSubject: \"");
    reveal_strlit("\"\r\n\r\nSee the attached file!\r\n\r\n");
    reveal_strlit("\r\n");
    reveal_strlit("\r\n--boundary123456789--\r\n");
    reveal_strlit("\r\n.\r\n");
    let from = c.from@;
    let to = c.to@;
    let subj = c.subject@;
    let l1 = "From: "@;
    let l2 = "\r\nTo: "@;
    let l3 = "\r\nSubject: "@;
    let l4 =
        "\r\nMIME-Version: 1.0\r\nContent-Type: multipart/mixed; boundary=\"boundary123456789\"\r\n\r\n--boundary123456789\r\nContent-Type: text/plain; charset=utf-8\r\n"@;
    let m1 = "This is the email body.\r\n\r\nWas sent from "@;
    let m2 = " to "@;
    let m3 = ".\r\n\r\nSubject: \""@;
    let m4 = "\"\r\n\r\nSee the attached file!\r\n\r\n"@;
    assert(no_nl_dot(l1));
    assert(no_nl_dot(l2));
    assert(no_nl_dot(l3));
    assert(no_nl_dot(l4));
    assert(no_nl_dot(m1));
    assert(no_nl_dot(m2));
    assert(no_nl_dot(m3));
    assert(no_nl_dot(m4));
    assert(no_nl_dot("\r\n"@));
    assert(no_nl_dot(spec_closing_plain()));
    lemma_nl_free_no_nl_dot(from);
    lemma_nl_free_no_nl_dot(to);
    lemma_nl_free_no_nl_dot(subj);

    // the header block, piece by piece
    let a1 = l1 + from;
    lemma_no_nl_dot_concat(l1, from);
    let a2 = a1 + l2;
    lemma_no_nl_dot_concat(a1, l2);
    let a3 = a2 + to;
    assert(a2.last() == ' ');
    lemma_no_nl_dot_concat(a2, to);
    let a4 = a3 + l3;
    lemma_no_nl_dot_concat(a3, l3);
    let a5 = a4 + subj;
    assert(a4.last() == ' ');
    lemma_no_nl_dot_concat(a4, subj);
    let hdr = a5 + l4;
    lemma_no_nl_dot_concat(a5, l4);
    assert(hdr == spec_data_header(c));

    // the text section, piece by piece
    let b1 = m1 + from;
    assert(m1.last() == ' ');
    lemma_no_nl_dot_concat(m1, from);
    let b2 = b1 + m2;
    lemma_no_nl_dot_concat(b1, m2);
    let b3 = b2 + to;
    assert(b2.last() == ' ');
    lemma_no_nl_dot_concat(b2, to);
    let b4 = b3 + m3;
    assert(m3.first() == '.');
    if to.len() == 0 {
        assert(b3.last() == ' ');
    } else {
        assert(b3.last() == to.last());
    }
    lemma_no_nl_dot_concat(b3, m3);
    let b5 = b4 + subj;
    assert(b4.last() == '\"');
    lemma_no_nl_dot_concat(b4, subj);
    let msg = b5 + m4;
    lemma_no_nl_dot_concat(b5, m4);
    assert(msg == spec_data_msg(c));

    // the three writes, joined
    let w0 = hdr + msg + "\r\n"@;
    assert(msg.first() == 'T');
    lemma_no_nl_dot_concat(hdr, msg);
    lemma_no_nl_dot_concat(hdr + msg, "\r\n"@);
    let before = w0 + spec_closing_plain();
    lemma_no_nl_dot_concat(w0, spec_closing_plain());
    let s = before + spec_dot_line();
    assert(before.last() == '\n');
    assert(spec_dot_line().first() == '\r');

    let ws = spec_body_writes(c);
    assert(ws == seq![w0, spec_closing_plain(), spec_dot_line()]);
    assert(ws.drop_first() =~~= seq![spec_closing_plain(), spec_dot_line()]);
    assert(ws.drop_first().drop_first() =~~= seq![spec_dot_line()]);
    assert(seq![spec_dot_line()].drop_first() =~~= Seq::<Seq<char>>::empty());
    assert(spec_concat_all(Seq::<Seq<char>>::empty()) == Seq::<char>::empty());
    assert(spec_concat_all(seq![spec_dot_line()]) =~= spec_dot_line());
    assert(spec_concat_all(seq![spec_closing_plain(), spec_dot_line()]) =~= spec_closing_plain()
        + spec_dot_line());
    assert(spec_concat_all(ws) == ws[0] + spec_concat_all(ws.drop_first()));
    assert(spec_concat_all(ws) =~= s);

    assert(s.len() == before.len() + 5);
    assert forall|j: int| nl_dot_at(s, j) <==> j == s.len() - 4 by {
        if nl_dot_at(s, j) {
            if j + 1 < before.len() {
                assert(nl_dot_at(before, j));
                assert(false);
            } else if j == before.len() - 1 {
                assert(s[j + 1] == spec_dot_line().first());
                assert(false);
            } else {
                assert(s[j] == spec_dot_line()[j - before.len()]);
                assert(s[j + 1] == spec_dot_line()[j + 1 - before.len()]);
                assert(j - before.len() == 1);
            }
        }
        if j == s.len() - 4 {
            assert(s[j] == spec_dot_line()[1]);
            assert(s[j + 1] == spec_dot_line()[2]);
            assert(nl_dot_at(s, j));
        }
    }
    assert(s.skip(s.len() - 5) =~= spec_dot_line());
}

/// Whether the session carries an attachment with any content. An absent
/// attachment and one with empty data both produce a message without an
/// attachment section.
pub open spec fn spec_has_attachment(c: SmtpConnection) -> bool {
    c.attachment is Some && c.attachment->0.data@.len() > 0
}

/// The header block of the message: the envelope headers, the multipart
/// declaration with the fixed boundary token, and the opening of the
/// plain-text section.
pub open spec fn spec_data_header(c: SmtpConnection) -> Seq<char> {
    "From: "@ + c.from@ + "\r\nTo: "@ + c.to@ + "\r\nSubject: "@ + c.subject@
        + "\r\nMIME-Version: 1.0\r\nContent-Type: multipart/mixed; boundary=\"boundary123456789\"\r\n\r\n--boundary123456789\r\nContent-Type: text/plain; charset=utf-8\r\n"@
}

/// The human-readable text section, summarising sender, recipient and
/// subject.
pub open spec fn spec_data_msg(c: SmtpConnection) -> Seq<char> {
    "This is the email body.\r\n\r\nWas sent from "@ + c.from@ + " to "@ + c.to@
        + ".\r\n\r\nSubject: \""@ + c.subject@ + "\"\r\n\r\nSee the attached file!\r\n\r\n"@
}

/// The header of the attachment section: its boundary line, content type,
/// disposition with the file name, and the base64 transfer encoding.
pub open spec fn spec_attachment_header(name: Seq<char>) -> Seq<char> {
    "--boundary123456789\r\nContent-Type: application/octet-stream\r\nContent-Disposition: attachment; filename=\""@
        + name + "\"\r\nContent-Transfer-Encoding: base64\r\n"@
}

/// The closing boundary marker of a message without an attachment.
pub open spec fn spec_closing_plain() -> Seq<char> {
    "\r\n--boundary123456789--\r\n"@
}

/// The closing boundary marker of a message with an attachment.
pub open spec fn spec_closing_attachment() -> Seq<char> {
    "\r\n--boundary123456789--\r\n\r\n"@
}

/// The lone `.` line that terminates the DATA phase.
pub open spec fn spec_dot_line() -> Seq<char> {
    "\r\n.\r\n"@
}

/// The exact sequence of writes that streams the message for session `c`:
/// headers and text section; then, only if an attachment with content is
/// present, its section header and its base64 text chunk by chunk; then the
/// closing boundary marker and the DATA terminator.
pub open spec fn spec_body_writes(c: SmtpConnection) -> Seq<Seq<char>> {
    let first = spec_data_header(c) + spec_data_msg(c) + "\r\n"@;
    if spec_has_attachment(c) {
        seq![first, spec_attachment_header(c.attachment->0.name@)] + spec_chunks(
            b64_of(c.attachment->0.data@),
            spec_adjusted_chunk(CHUNK_SIZE as nat),
        ) + seq![spec_closing_attachment(), spec_dot_line()]
    } else {
        seq![first, spec_closing_plain(), spec_dot_line()]
    }
}

/// The full MIME message for session `c` as the sequence of transport
/// writes, in order. The driver writes each element and flushes after the
/// attachment text and after each of the final markers.
pub fn send_body(conn: &SmtpConnection) -> (writes: Vec<String>)
    requires
        conn.attachment matches Some(a) ==> 4 * ((a.data@.len() + 2) / 3) <= usize::MAX,
    ensures
        writes.deep_view() == spec_body_writes(*conn),
{
    let mut first = String::from_str("From: ");
    first.append(conn.from.as_str());
    first.append("\r\nTo: ");
    first.append(conn.to.as_str());
    first.append("\r\nSubject: ");
    first.append(conn.subject.as_str());
    first.append(
        "\r\nMIME-Version: 1.0\r\nContent-Type: multipart/mixed; boundary=\"boundary123456789\"\r\n\r\n--boundary123456789\r\nContent-Type: text/plain; charset=utf-8\r\n",
    );
    first.append("This is the email body.\r\n\r\nWas sent from ");
    first.append(conn.from.as_str());
    first.append(" to ");
    first.append(conn.to.as_str());
    first.append(".\r\n\r\nSubject: \"");
    first.append(conn.subject.as_str());
    first.append("\"\r\n\r\nSee the attached file!\r\n\r\n");
    first.append("\r\n");
    assert(first@ =~= spec_data_header(*conn) + spec_data_msg(*conn) + "\r\n"@);

    let mut writes: Vec<String> = Vec::new();
    match &conn.attachment {
        Some(att) => {
            let chunks = chunk_and_encode(att.data.as_slice(), CHUNK_SIZE);
            if chunks.len() == 0 {
                writes.push(first);
                writes.push(String::from_str("\r\n--boundary123456789--\r\n"));
                writes.push(String::from_str("\r\n.\r\n"));
                proof {
                    let e = b64_of(att.data@);
                    let ck = spec_adjusted_chunk(CHUNK_SIZE as nat);
                    assert(ck == 76);
                    assert(chunks.deep_view().len() == 0);
                    assert(spec_chunks(e, ck).len() == 0);
                    if e.len() > 0 {
                        if e.len() <= ck {
                            assert(spec_chunks(e, ck).len() == 1);
                        } else {
                            assert(spec_chunks(e, ck).len() >= 1);
                        }
                    }
                    assert(e.len() == 0);
                    assert(att.data@.len() == 0);
                    assert(!spec_has_attachment(*conn));
                }
                assert(writes.deep_view() =~~= spec_body_writes(*conn));
            } else {
                writes.push(first);
                let mut header = String::from_str(
                    "--boundary123456789\r\nContent-Type: application/octet-stream\r\nContent-Disposition: attachment; filename=\"",
                );
                header.append(att.name.as_str());
                header.append("\"\r\nContent-Transfer-Encoding: base64\r\n");
                assert(header@ =~= spec_attachment_header(att.name@));
                writes.push(header);
                let mut j: usize = 0;
                let ghost prefix = writes.deep_view();
                while j < chunks.len()
                    invariant
                        j <= chunks.len(),
                        writes.deep_view() =~~= prefix + chunks.deep_view().take(j as int),
                        prefix.len() == 2,
                        prefix[0] == spec_data_header(*conn) + spec_data_msg(*conn) + "\r\n"@,
                        prefix[1] == spec_attachment_header(att.name@),
                        conn.attachment matches Some(a) && a == att,
                        chunks.deep_view() == spec_chunks(
                            b64_of(att.data@),
                            spec_adjusted_chunk(CHUNK_SIZE as nat),
                        ),
                        b64_of(att.data@).len() == 4 * ((att.data@.len() + 2) / 3),
                    decreases chunks.len() - j,
                {
                    let line: String = chunks[j].clone();
                    let ghost old_dv = writes.deep_view();
                    writes.push(line);
                    proof {
                        assert(chunks.deep_view().take(j as int + 1) =~~= chunks.deep_view().take(
                            j as int,
                        ).push(chunks.deep_view()[j as int]));
                        assert(writes.deep_view() =~~= old_dv.push(chunks.deep_view()[j as int]));
                    }
                    j += 1;
                }
                proof {
                    assert(chunks.deep_view().take(chunks@.len() as int) =~~= chunks.deep_view());
                }
                let ghost base = writes.deep_view();
                proof {
                    assert(base =~~= prefix + chunks.deep_view());
                }
                writes.push(String::from_str("\r\n--boundary123456789--\r\n\r\n"));
                let ghost base2 = writes.deep_view();
                proof {
                    assert(base2 =~~= base.push(spec_closing_attachment()));
                }
                writes.push(String::from_str("\r\n.\r\n"));
                proof {
                    assert(writes.deep_view() =~~= base2.push(spec_dot_line()));
                }
                proof {
                    let e = b64_of(att.data@);
                    let ck = spec_adjusted_chunk(CHUNK_SIZE as nat);
                    assert(ck == 76);
                    assert(spec_has_attachment(*conn)) by {
                        assert(chunks.deep_view().len() > 0);
                        if e.len() == 0 {
                            assert(spec_chunks(e, ck).len() == 0);
                        }
                        assert(e.len() > 0);
                        assert(4 * ((att.data@.len() + 2) / 3) > 0);
                        assert(att.data@.len() > 0);
                    }
                    let sp = spec_body_writes(*conn);
                    assert(sp.len() == 4 + spec_chunks(e, ck).len());
                    assert(writes.deep_view().len() == sp.len());
                    assert(writes.deep_view()[0] == sp[0]);
                    assert(writes.deep_view()[1] == sp[1]);
                    assert(forall|i: int|
                        0 <= i < chunks.deep_view().len() ==> writes.deep_view()[2 + i]
                            == #[trigger] sp[2 + i]);
                    assert(writes.deep_view()[sp.len() - 2] == sp[sp.len() - 2]);
                    assert(writes.deep_view()[sp.len() - 1] == sp[sp.len() - 1]);
                    assert(writes.deep_view() =~~= spec_body_writes(*conn));
                }
            }
        },
        None => {
            writes.push(first);
            writes.push(String::from_str("\r\n--boundary123456789--\r\n"));
            writes.push(String::from_str("\r\n.\r\n"));
            assert(writes.deep_view() =~~= spec_body_writes(*conn));
        },
    }
    writes
}

} // verus!
