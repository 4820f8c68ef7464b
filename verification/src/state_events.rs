//! Server responses and their classification into protocol events.
//!
//! One call classifies the text of one bounded read. The text is scanned
//! line by line and the first line that matches a rule decides the event,
//! in this order: a "220" greeting; a "250" reply, refined by whether the
//! whole response offers STARTTLS or AUTH; the two base64 AUTH LOGIN
//! challenges; a "4" transient error; a "5" permanent error. A failed read
//! has no text and classifies as `Stop`. A response that matches no rule is
//! `NoEvent`. A response split across reads, or several distinct status
//! lines in one read, can therefore be misclassified; that bounded-read,
//! first-line-wins behaviour is a known limit of this client.

use vstd::prelude::*;

use crate::b64::{b64_encode, b64_of};
use crate::strutil::{
    find_char, lemma_spec_find, match_at, spec_contains, spec_find, spec_starts_with,
    str_contains,
};

verus! {

/// One protocol event: what one unit of server output (or of driver input,
/// for `Connect`, `Stop`, `Timeout` and `Complete`) means to the state
/// machine. Reply-carrying variants keep the text of the line that matched.
#[derive(Debug, PartialEq)]
pub enum Event {
    NoEvent,
    Connect,
    Received220(String),
    Received250(String),
    Received250StartTls(String),
    Received250StartTlsAuth(String),
    Received334Username,
    Received334Password,
    AuthSuccess(String),
    Received250SenderOk(String),
    Received250RecipientOk(String),
    Received354MailInput(String),
    Received250Queued(String),
    Received4xx(String),
    Received5xx(String),
    Stop,
    Timeout,
    Complete,
}

/// The mathematical model of an `Event`: the same variants over character
/// sequences.
pub enum EventV {
    NoEvent,
    Connect,
    Received220(Seq<char>),
    Received250(Seq<char>),
    Received250StartTls(Seq<char>),
    Received250StartTlsAuth(Seq<char>),
    Received334Username,
    Received334Password,
    AuthSuccess(Seq<char>),
    Received250SenderOk(Seq<char>),
    Received250RecipientOk(Seq<char>),
    Received354MailInput(Seq<char>),
    Received250Queued(Seq<char>),
    Received4xx(Seq<char>),
    Received5xx(Seq<char>),
    Stop,
    Timeout,
    Complete,
}

impl View for Event {
    type V = EventV;

    open spec fn view(&self) -> EventV {
        match self {
            Event::NoEvent => EventV::NoEvent,
            Event::Connect => EventV::Connect,
            Event::Received220(m) => EventV::Received220(m@),
            Event::Received250(m) => EventV::Received250(m@),
            Event::Received250StartTls(m) => EventV::Received250StartTls(m@),
            Event::Received250StartTlsAuth(m) => EventV::Received250StartTlsAuth(m@),
            Event::Received334Username => EventV::Received334Username,
            Event::Received334Password => EventV::Received334Password,
            Event::AuthSuccess(m) => EventV::AuthSuccess(m@),
            Event::Received250SenderOk(m) => EventV::Received250SenderOk(m@),
            Event::Received250RecipientOk(m) => EventV::Received250RecipientOk(m@),
            Event::Received354MailInput(m) => EventV::Received354MailInput(m@),
            Event::Received250Queued(m) => EventV::Received250Queued(m@),
            Event::Received4xx(m) => EventV::Received4xx(m@),
            Event::Received5xx(m) => EventV::Received5xx(m@),
            Event::Stop => EventV::Stop,
            Event::Timeout => EventV::Timeout,
            Event::Complete => EventV::Complete,
        }
    }
}

/// The bytes of the AUTH LOGIN username prompt, `"Username:"`.
pub open spec fn username_prompt_bytes() -> Seq<u8> {
    seq![
        'U' as u8,
        's' as u8,
        'e' as u8,
        'r' as u8,
        'n' as u8,
        'a' as u8,
        'm' as u8,
        'e' as u8,
        ':' as u8,
    ]
}

/// The bytes of the AUTH LOGIN password prompt, `"Password:"`.
pub open spec fn password_prompt_bytes() -> Seq<u8> {
    seq![
        'P' as u8,
        'a' as u8,
        's' as u8,
        's' as u8,
        'w' as u8,
        'o' as u8,
        'r' as u8,
        'd' as u8,
        ':' as u8,
    ]
}

/// The line prefix of the username challenge: `334` and a space, then the
/// base64 encoding of the username prompt.
pub open spec fn username_challenge_prefix() -> Seq<char> {
    "334 "@ + b64_of(username_prompt_bytes())
}

/// The line prefix of the password challenge.
pub open spec fn password_challenge_prefix() -> Seq<char> {
    "334 "@ + b64_of(password_prompt_bytes())
}

/// What one line classifies to, given the whole response text, or `None`
/// if the line matches no rule. The STARTTLS and AUTH refinements of a
/// "250" line look at the whole response, not only at this line.
pub open spec fn spec_line_rule(line: Seq<char>, whole: Seq<char>) -> Option<EventV> {
    if spec_starts_with(line, "220"@) {
        Some(EventV::Received220(line))
    } else if spec_starts_with(line, "250"@) {
        if spec_contains(whole, "STARTTLS"@) {
            Some(EventV::Received250StartTls(line))
        } else if spec_contains(whole, "AUTH"@) {
            Some(EventV::Received250StartTlsAuth(line))
        } else {
            Some(EventV::Received250(line))
        }
    } else if spec_starts_with(line, username_challenge_prefix()) {
        Some(EventV::Received334Username)
    } else if spec_starts_with(line, password_challenge_prefix()) {
        Some(EventV::Received334Password)
    } else if spec_starts_with(line, "4"@) {
        Some(EventV::Received4xx(line))
    } else if spec_starts_with(line, "5"@) {
        Some(EventV::Received5xx(line))
    } else {
        None
    }
}

/// The line starting at `pos`: it runs to the next line feed (with one
/// carriage return before that line feed stripped) or, if there is no
/// further line feed, to the end of the text.
pub open spec fn spec_line_end(s: Seq<char>, pos: int) -> int {
    let nl = spec_find(s, pos, '\n');
    if nl < s.len() && nl > pos && s[nl - 1] == '\r' {
        nl - 1
    } else {
        nl
    }
}

/// First-match-wins classification of the response text, scanning lines
/// from `pos` on.
pub open spec fn spec_classify_from(s: Seq<char>, pos: int) -> EventV
    decreases s.len() - pos,
    via spec_classify_from_decreases
{
    if pos < 0 || pos >= s.len() {
        EventV::NoEvent
    } else {
        let nl = spec_find(s, pos, '\n');
        let line = s.subrange(pos, spec_line_end(s, pos));
        match spec_line_rule(line, s) {
            Some(e) => e,
            None => if nl >= s.len() {
                EventV::NoEvent
            } else {
                spec_classify_from(s, nl + 1)
            },
        }
    }
}

#[via_fn]
proof fn spec_classify_from_decreases(s: Seq<char>, pos: int) {
    if 0 <= pos < s.len() {
        lemma_spec_find(s, pos, '\n');
    }
}

/// The event one successfully read response text classifies to.
pub open spec fn spec_classify(s: Seq<char>) -> EventV {
    spec_classify_from(s, 0)
}

/// The event one read produces: `Stop` for a failed read, otherwise the
/// classification of the text that was read.
pub open spec fn spec_read_event(input: Option<&str>) -> EventV {
    match input {
        Some(s) => spec_classify(s@),
        None => EventV::Stop,
    }
}

/// The username challenge prefix as text: `"334 "` followed by the base64
/// encoding of `"Username:"`.
fn username_prefix_string() -> (r: String)
    ensures
        r@ == username_challenge_prefix(),
{
    let mut prompt: Vec<u8> = Vec::new();
    prompt.push('U' as u8);
    prompt.push('s' as u8);
    prompt.push('e' as u8);
    prompt.push('r' as u8);
    prompt.push('n' as u8);
    prompt.push('a' as u8);
    prompt.push('m' as u8);
    prompt.push('e' as u8);
    prompt.push(':' as u8);
    assert(prompt@ =~= username_prompt_bytes());
    let encoded = b64_encode(prompt.as_slice());
    let mut r = String::from_str("334 ");
    r.append(encoded.as_str());
    r
}

/// The password challenge prefix as text: `"334 "` followed by the base64
/// encoding of `"Password:"`.
fn password_prefix_string() -> (r: String)
    ensures
        r@ == password_challenge_prefix(),
{
    let mut prompt: Vec<u8> = Vec::new();
    prompt.push('P' as u8);
    prompt.push('a' as u8);
    prompt.push('s' as u8);
    prompt.push('s' as u8);
    prompt.push('w' as u8);
    prompt.push('o' as u8);
    prompt.push('r' as u8);
    prompt.push('d' as u8);
    prompt.push(':' as u8);
    assert(prompt@ =~= password_prompt_bytes());
    let encoded = b64_encode(prompt.as_slice());
    let mut r = String::from_str("334 ");
    r.append(encoded.as_str());
    r
}

/// Classify the outcome of one bounded read: `None` (a failed read) is
/// `Stop`; otherwise the first line of the text that matches a rule decides
/// the event, and a text with no matching line is `NoEvent`.
pub fn get_event(input: Option<&str>) -> (e: Event)
    ensures
        e@ == spec_read_event(input),
{
    let s: &str = match input {
        Some(s) => s,
        None => {
            return Event::Stop;
        },
    };
    assert(spec_read_event(input) == spec_classify(s@));
    let user_prefix = username_prefix_string();
    let pass_prefix = password_prefix_string();
    let n = s.unicode_len();
    let mut pos: usize = 0;
    while pos < n
        invariant
            pos <= n,
            n == s@.len(),
            user_prefix@ == username_challenge_prefix(),
            pass_prefix@ == password_challenge_prefix(),
            spec_read_event(input) == spec_classify(s@),
            spec_classify(s@) == spec_classify_from(s@, pos as int),
        decreases n - pos,
    {
        let nl = find_char(s, pos, '\n');
        proof {
            lemma_spec_find(s@, pos as int, '\n');
        }
        let line_end = if nl < n && nl > pos && s.get_char(nl - 1) == '\r' {
            nl - 1
        } else {
            nl
        };
        assert(line_end == spec_line_end(s@, pos as int));
        let line = s.substring_char(pos, line_end);
        if match_at(line, 0, "220") {
            assert(spec_line_rule(line@, s@) == Some(EventV::Received220(line@)));
            assert(spec_classify_from(s@, pos as int) == EventV::Received220(line@));
            return Event::Received220(String::from_str(line));
        }
        if match_at(line, 0, "250") {
            if str_contains(s, "STARTTLS") {
                assert(spec_classify_from(s@, pos as int) == EventV::Received250StartTls(line@));
                return Event::Received250StartTls(String::from_str(line));
            }
            if str_contains(s, "AUTH") {
                assert(spec_classify_from(s@, pos as int) == EventV::Received250StartTlsAuth(
                    line@,
                ));
                return Event::Received250StartTlsAuth(String::from_str(line));
            }
            assert(spec_classify_from(s@, pos as int) == EventV::Received250(line@));
            return Event::Received250(String::from_str(line));
        }
        if match_at(line, 0, user_prefix.as_str()) {
            assert(spec_classify_from(s@, pos as int) == EventV::Received334Username);
            return Event::Received334Username;
        }
        if match_at(line, 0, pass_prefix.as_str()) {
            assert(spec_classify_from(s@, pos as int) == EventV::Received334Password);
            return Event::Received334Password;
        }
        if match_at(line, 0, "4") {
            assert(spec_classify_from(s@, pos as int) == EventV::Received4xx(line@));
            return Event::Received4xx(String::from_str(line));
        }
        if match_at(line, 0, "5") {
            assert(spec_classify_from(s@, pos as int) == EventV::Received5xx(line@));
            return Event::Received5xx(String::from_str(line));
        }
        assert(spec_line_rule(line@, s@) is None);
        if nl >= n {
            assert(spec_classify_from(s@, pos as int) == EventV::NoEvent);
            return Event::NoEvent;
        }
        assert(spec_classify_from(s@, pos as int) == spec_classify_from(s@, nl + 1));
        pos = nl + 1;
    }
    Event::NoEvent
}

} // verus!
