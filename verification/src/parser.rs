//! The lines of an SMTP client, read as commands.
//!
//! A line is a command word, its parameters, and `\r\n`. Command words are
//! matched without regard to case. What follows the `\r\n` is not looked at.
use vstd::prelude::*;
use vstd::slice::slice_subrange;
use vstd::string::StringSliceAdditionalSpecFns;
use vstd::utf8::{decode_utf8, valid_utf8};
use crate::smtp::{Cmd, CmdView, Credentials, Response};

verus! {

/// The byte of a space.
pub const SP: u8 = 32;

/// The byte of a tab.
pub const TAB: u8 = 9;

/// The byte of a carriage return.
pub const CR: u8 = 13;

/// The byte of a line feed.
pub const LF: u8 = 10;

/// The byte `<`.
pub const LT: u8 = 60;

/// The byte `>`.
pub const GT: u8 = 62;

/// The sets of bytes that the grammar speaks of.
#[derive(Clone, Copy, Debug, PartialEq, Eq, Structural)]
pub enum Class {
    /// The space.
    Space,
    /// The space and the tab.
    Blank,
    /// The bytes of base64 text: letters, digits, `+`, `/` and `=`.
    Base64,
    /// The bytes of a domain: all but space, tab and the ends of a line.
    Domain,
    /// The bytes of a mail path: those of a domain, but `<` and `>`.
    Path,
    /// The bytes of a line: all but the ends of a line.
    Line,
    /// The bytes of a field of credentials: all but zero.
    Field,
}

/// Whether `chr` may stand in base64 text.
pub open spec fn spec_is_base64(chr: u8) -> bool {
    (48 <= chr && chr <= 57) || (65 <= chr && chr <= 90) || (97 <= chr && chr <= 122) || chr == 43
        || chr == 47 || chr == 61
}

/// Whether `chr` may stand in base64 text.
#[verifier::when_used_as_spec(spec_is_base64)]
pub fn is_base64(chr: u8) -> (r: bool)
    ensures
        r == spec_is_base64(chr),
{
    (48 <= chr && chr <= 57) || (65 <= chr && chr <= 90) || (97 <= chr && chr <= 122) || chr == 43
        || chr == 47 || chr == 61
}

impl Class {
    /// Whether the byte is in the set.
    pub open spec fn has(self, b: u8) -> bool {
        match self {
            Class::Space => b == SP,
            Class::Blank => b == SP || b == TAB,
            Class::Base64 => spec_is_base64(b),
            Class::Domain => !(b == SP || b == TAB || b == CR || b == LF),
            Class::Path => !(b == SP || b == LT || b == GT || b == TAB || b == CR || b == LF),
            Class::Line => !(b == CR || b == LF),
            Class::Field => b != 0,
        }
    }

    /// Whether the byte is in the set.
    #[verifier::when_used_as_spec(has)]
    pub fn contains(self, b: u8) -> (r: bool)
        ensures
            r == self.has(b),
    {
        match self {
            Class::Space => b == SP,
            Class::Blank => b == SP || b == TAB,
            Class::Base64 => is_base64(b),
            Class::Domain => !(b == SP || b == TAB || b == CR || b == LF),
            Class::Path => !(b == SP || b == LT || b == GT || b == TAB || b == CR || b == LF),
            Class::Line => !(b == CR || b == LF),
            Class::Field => b != 0,
        }
    }
}

/// A letter in lower case, and any other byte as it is.
pub open spec fn spec_lower(b: u8) -> u8 {
    if 65 <= b && b <= 90 {
        (b + 32) as u8
    } else {
        b
    }
}

/// A letter in lower case, and any other byte as it is.
fn lower(b: u8) -> (r: u8)
    ensures
        r == spec_lower(b),
{
    if 65 <= b && b <= 90 {
        b + 32
    } else {
        b
    }
}

/// Where the bytes of `class` that start at `at` end.
pub open spec fn run(buf: Seq<u8>, at: int, class: Class) -> int
    decreases buf.len() - at,
{
    if 0 <= at < buf.len() && class.has(buf[at]) {
        run(buf, at + 1, class)
    } else {
        at
    }
}

/// Whether `word` stands at `at`, letters in either case.
pub open spec fn spec_tag_no_case(buf: Seq<u8>, at: int, word: Seq<u8>) -> bool {
    &&& at + word.len() <= buf.len()
    &&& forall|i: int| 0 <= i < word.len() ==> spec_lower(#[trigger] buf[at + i]) == spec_lower(word[i])
}

/// Whether `word` stands at `at`.
pub open spec fn spec_tag(buf: Seq<u8>, at: int, word: Seq<u8>) -> bool {
    &&& at + word.len() <= buf.len()
    &&& forall|i: int| 0 <= i < word.len() ==> #[trigger] buf[at + i] == word[i]
}

/// A run of at least one byte of `class`: where it ends.
pub open spec fn spec_run1(buf: Seq<u8>, at: int, class: Class) -> Option<int> {
    if run(buf, at, class) > at {
        Some(run(buf, at, class))
    } else {
        None
    }
}

/// A run of at least one byte of `class` that is UTF-8: where it ends, and
/// its text.
pub open spec fn spec_text(buf: Seq<u8>, at: int, class: Class) -> Option<(int, Seq<char>)> {
    let end = run(buf, at, class);
    if end > at && valid_utf8(buf.subrange(at, end)) {
        Some((end, decode_utf8(buf.subrange(at, end))))
    } else {
        None
    }
}

/// A command word and the spaces behind it, of which there is at least one:
/// where they end.
pub open spec fn spec_cmd(buf: Seq<u8>, at: int, word: Seq<u8>) -> Option<int> {
    if spec_tag_no_case(buf, at, word) {
        spec_run1(buf, at + word.len(), Class::Space)
    } else {
        None
    }
}

/// `HELO`, spaces and a domain.
pub open spec fn spec_helo(buf: Seq<u8>, at: int) -> Option<(int, CmdView)> {
    match spec_cmd(buf, at, "helo".spec_bytes()) {
        None => None,
        Some(param) => match spec_text(buf, param, Class::Domain) {
            None => None,
            Some((end, domain)) => Some((end, CmdView::Helo { domain })),
        },
    }
}

/// `EHLO`, spaces and a domain.
pub open spec fn spec_ehlo(buf: Seq<u8>, at: int) -> Option<(int, CmdView)> {
    match spec_cmd(buf, at, "ehlo".spec_bytes()) {
        None => None,
        Some(param) => match spec_text(buf, param, Class::Domain) {
            None => None,
            Some((end, domain)) => Some((end, CmdView::Ehlo { domain })),
        },
    }
}

/// A mail path between `<` and `>`. The path is not empty.
pub open spec fn spec_bracketed(buf: Seq<u8>, at: int) -> Option<(int, Seq<char>)> {
    if spec_tag(buf, at, "<".spec_bytes()) {
        match spec_text(buf, at + "<".spec_bytes().len(), Class::Path) {
            None => None,
            Some((end, path)) => if spec_tag(buf, end, ">".spec_bytes()) {
                Some((end + ">".spec_bytes().len(), path))
            } else {
                None
            },
        }
    } else {
        None
    }
}

/// Blanks, `BODY=` and `8BITMIME` or `7BIT`: where they end, and whether the
/// body is of eight bits.
pub open spec fn spec_body_eq_8bit(buf: Seq<u8>, at: int) -> Option<(int, bool)> {
    let word = run(buf, at, Class::Blank);
    if spec_tag_no_case(buf, word, "body=".spec_bytes()) {
        let value = word + "body=".spec_bytes().len();
        if spec_tag_no_case(buf, value, "8bitmime".spec_bytes()) {
            Some((value + "8bitmime".spec_bytes().len(), true))
        } else if spec_tag_no_case(buf, value, "7bit".spec_bytes()) {
            Some((value + "7bit".spec_bytes().len(), false))
        } else {
            None
        }
    } else {
        None
    }
}

/// The `BODY` parameter where there is one, and seven bits where there is
/// none: then nothing is taken from the line.
pub open spec fn spec_is8bitmime(buf: Seq<u8>, at: int) -> (int, bool) {
    match spec_body_eq_8bit(buf, at) {
        Some(found) => found,
        None => (at, false),
    }
}

/// `MAIL FROM:`, spaces, a bracketed path, spaces and the `BODY` parameter,
/// if there is one.
pub open spec fn spec_mail(buf: Seq<u8>, at: int) -> Option<(int, CmdView)> {
    if spec_tag_no_case(buf, at, "mail from:".spec_bytes()) {
        let path = run(buf, at + "mail from:".spec_bytes().len(), Class::Space);
        match spec_bracketed(buf, path) {
            None => None,
            Some((after, reverse_path)) => {
                let (end, is8bit) = spec_is8bitmime(buf, run(buf, after, Class::Space));
                Some((end, CmdView::Mail { reverse_path, is8bit }))
            },
        }
    } else {
        None
    }
}

/// `RCPT TO:`, spaces and a bracketed path.
pub open spec fn spec_rcpt(buf: Seq<u8>, at: int) -> Option<(int, CmdView)> {
    if spec_tag_no_case(buf, at, "rcpt to:".spec_bytes()) {
        let path = run(buf, at + "rcpt to:".spec_bytes().len(), Class::Space);
        match spec_bracketed(buf, path) {
            None => None,
            Some((end, forward_path)) => Some((end, CmdView::Rcpt { forward_path })),
        }
    } else {
        None
    }
}

/// A command that is its word alone.
pub open spec fn spec_word(buf: Seq<u8>, at: int, word: Seq<u8>, cmd: CmdView) -> Option<
    (int, CmdView),
> {
    if spec_tag_no_case(buf, at, word) {
        Some((at + word.len(), cmd))
    } else {
        None
    }
}

/// `VRFY`, spaces, and the rest of the line, which is not empty.
pub open spec fn spec_vrfy(buf: Seq<u8>, at: int) -> Option<(int, CmdView)> {
    match spec_cmd(buf, at, "vrfy".spec_bytes()) {
        None => None,
        Some(param) => match spec_text(buf, param, Class::Line) {
            None => None,
            Some((end, _)) => Some((end, CmdView::Vrfy)),
        },
    }
}

/// The initial response of an `AUTH` command: spaces and base64 text. Where
/// there is none, nothing is taken from the line and the response is empty.
/// Gives where the command ends, and where the response starts.
pub open spec fn spec_auth_initial(buf: Seq<u8>, at: int) -> (int, int) {
    match spec_run1(buf, at, Class::Space) {
        None => (at, at),
        Some(start) => match spec_run1(buf, start, Class::Base64) {
            None => (at, at),
            Some(end) => (end, start),
        },
    }
}

/// What base64 text decodes to, by the standard alphabet with padding, or
/// nothing where it is no such text.
pub uninterp spec fn base64_decoded(input: Seq<u8>) -> Option<Seq<u8>>;

/// The text of bytes that are UTF-8, and no text for others.
pub open spec fn spec_string(bytes: Seq<u8>) -> Seq<char> {
    if valid_utf8(bytes) {
        decode_utf8(bytes)
    } else {
        Seq::empty()
    }
}

/// The text of the field that starts at `at`, where fields are separated by
/// zero bytes, and no text where there is no such field.
pub open spec fn spec_field(bytes: Seq<u8>, at: Option<int>) -> Seq<char> {
    match at {
        Some(start) if 0 <= start <= bytes.len() => spec_string(
            bytes.subrange(start, run(bytes, start, Class::Field)),
        ),
        _ => Seq::empty(),
    }
}

/// Where the field after the one that starts at `at` starts, if there is
/// one.
pub open spec fn spec_next_field(bytes: Seq<u8>, at: Option<int>) -> Option<int> {
    match at {
        Some(start) if 0 <= start && run(bytes, start, Class::Field) < bytes.len() => Some(
            run(bytes, start, Class::Field) + 1,
        ),
        _ => None,
    }
}

/// The mathematical form of `Credentials`.
pub struct CredentialsView {
    pub authorization_id: Seq<char>,
    pub authentication_id: Seq<char>,
    pub password: Seq<char>,
}

impl View for Credentials {
    type V = CredentialsView;

    open spec fn view(&self) -> CredentialsView {
        CredentialsView {
            authorization_id: self.authorization_id@,
            authentication_id: self.authentication_id@,
            password: self.password@,
        }
    }
}

/// The credentials in decoded base64 text: its first three fields, where
/// fields are separated by zero bytes. A field that is missing or no UTF-8
/// gives an empty text, and so does each field where nothing was decoded.
pub open spec fn spec_credentials(decoded: Option<Seq<u8>>) -> CredentialsView {
    match decoded {
        None => CredentialsView {
            authorization_id: Seq::empty(),
            authentication_id: Seq::empty(),
            password: Seq::empty(),
        },
        Some(bytes) => {
            let first = Some(0int);
            let second = spec_next_field(bytes, first);
            let third = spec_next_field(bytes, second);
            CredentialsView {
                authorization_id: spec_field(bytes, first),
                authentication_id: spec_field(bytes, second),
                password: spec_field(bytes, third),
            }
        },
    }
}

/// The user name in decoded base64 text: the text if it is UTF-8, and an
/// empty text if it is not or nothing was decoded.
pub open spec fn spec_login(decoded: Option<Seq<u8>>) -> Seq<char> {
    match decoded {
        None => Seq::empty(),
        Some(bytes) => spec_string(bytes),
    }
}

/// The command for `AUTH PLAIN` with the initial response `param`.
pub open spec fn spec_sasl_plain_cmd(param: Seq<u8>) -> CmdView {
    if param.len() == 0 {
        CmdView::AuthPlainEmpty
    } else {
        let creds = spec_credentials(base64_decoded(param));
        CmdView::AuthPlain {
            authorization_id: creds.authorization_id,
            authentication_id: creds.authentication_id,
            password: creds.password,
        }
    }
}

/// The command for `AUTH LOGIN` with the initial response `param`.
pub open spec fn spec_sasl_login_cmd(param: Seq<u8>) -> CmdView {
    if param.len() == 0 {
        CmdView::AuthLoginEmpty
    } else {
        CmdView::AuthLogin { username: spec_login(base64_decoded(param)) }
    }
}

/// `PLAIN` and an initial response, if there is one.
pub open spec fn spec_auth_plain(buf: Seq<u8>, at: int) -> Option<(int, CmdView)> {
    if spec_tag_no_case(buf, at, "plain".spec_bytes()) {
        let (end, start) = spec_auth_initial(buf, at + "plain".spec_bytes().len());
        Some((end, spec_sasl_plain_cmd(buf.subrange(start, end))))
    } else {
        None
    }
}

/// `LOGIN` and an initial response, if there is one.
pub open spec fn spec_auth_login(buf: Seq<u8>, at: int) -> Option<(int, CmdView)> {
    if spec_tag_no_case(buf, at, "login".spec_bytes()) {
        let (end, start) = spec_auth_initial(buf, at + "login".spec_bytes().len());
        Some((end, spec_sasl_login_cmd(buf.subrange(start, end))))
    } else {
        None
    }
}

/// `AUTH`, spaces, and one of the two mechanisms.
pub open spec fn spec_auth(buf: Seq<u8>, at: int) -> Option<(int, CmdView)> {
    match spec_cmd(buf, at, "auth".spec_bytes()) {
        None => None,
        Some(mechanism) => if spec_auth_plain(buf, mechanism) is Some {
            spec_auth_plain(buf, mechanism)
        } else {
            spec_auth_login(buf, mechanism)
        },
    }
}

/// The first of the commands that the start of the line can be read as.
pub open spec fn spec_any(buf: Seq<u8>) -> Option<(int, CmdView)> {
    if spec_helo(buf, 0) is Some {
        spec_helo(buf, 0)
    } else if spec_ehlo(buf, 0) is Some {
        spec_ehlo(buf, 0)
    } else if spec_mail(buf, 0) is Some {
        spec_mail(buf, 0)
    } else if spec_rcpt(buf, 0) is Some {
        spec_rcpt(buf, 0)
    } else if spec_word(buf, 0, "data".spec_bytes(), CmdView::Data) is Some {
        spec_word(buf, 0, "data".spec_bytes(), CmdView::Data)
    } else if spec_word(buf, 0, "rset".spec_bytes(), CmdView::Rset) is Some {
        spec_word(buf, 0, "rset".spec_bytes(), CmdView::Rset)
    } else if spec_word(buf, 0, "quit".spec_bytes(), CmdView::Quit) is Some {
        spec_word(buf, 0, "quit".spec_bytes(), CmdView::Quit)
    } else if spec_vrfy(buf, 0) is Some {
        spec_vrfy(buf, 0)
    } else if spec_word(buf, 0, "noop".spec_bytes(), CmdView::Noop) is Some {
        spec_word(buf, 0, "noop".spec_bytes(), CmdView::Noop)
    } else if spec_word(buf, 0, "starttls".spec_bytes(), CmdView::StartTls) is Some {
        spec_word(buf, 0, "starttls".spec_bytes(), CmdView::StartTls)
    } else {
        spec_auth(buf, 0)
    }
}

/// The command that a line is read as, if it is one: a command at its start,
/// with `\r\n` behind it.
pub open spec fn spec_command(buf: Seq<u8>) -> Option<CmdView> {
    match spec_any(buf) {
        None => None,
        Some((end, cmd)) => if spec_tag(buf, end, "\r\n".spec_bytes()) {
            Some(cmd)
        } else {
            None
        },
    }
}

/// The response that a line holds: the base64 text at its start, which is
/// not empty and has `\r\n` behind it.
pub open spec fn spec_auth_response(buf: Seq<u8>) -> Option<Seq<u8>> {
    match spec_run1(buf, 0, Class::Base64) {
        None => None,
        Some(end) => if spec_tag(buf, end, "\r\n".spec_bytes()) {
            Some(buf.subrange(0, end))
        } else {
            None
        },
    }
}

/// Whether `r` is what the grammar gives: the same end and the same command,
/// or nothing.
pub open spec fn parsed<'a>(r: Option<(usize, Cmd<'a>)>, expect: Option<(int, CmdView)>) -> bool {
    match r {
        Some((end, cmd)) => expect == Some((end as int, cmd@)),
        None => expect is None,
    }
}

/// A position as the grammar counts it.
pub open spec fn position(at: Option<usize>) -> Option<int> {
    match at {
        Some(start) => Some(start as int),
        None => None,
    }
}

/// Calls `core::str::from_utf8`, which gives the text of bytes that are
/// UTF-8 and an error for others.
#[verifier::external_body]
fn utf8<'a>(bytes: &'a [u8]) -> (r: Option<&'a str>)
    ensures
        match r {
            Some(text) => valid_utf8(bytes@) && text@ == decode_utf8(bytes@),
            None => !valid_utf8(bytes@),
        },
{
    match core::str::from_utf8(bytes) {
        Ok(text) => Some(text),
        Err(_) => None,
    }
}

/// Calls `base64::decode`, which decodes text of the standard alphabet with
/// padding and gives an error for any other input.
#[verifier::external_body]
#[allow(deprecated)]
fn base64_decode(param: &[u8]) -> (r: Option<Vec<u8>>)
    ensures
        match r {
            Some(bytes) => base64_decoded(param@) == Some(bytes@),
            None => base64_decoded(param@) is None,
        },
{
    match base64::decode(param) {
        Ok(bytes) => Some(bytes),
        Err(_) => None,
    }
}

/// Finds where the bytes of `class` that start at `at` end.
fn scan(buf: &[u8], at: usize, class: Class) -> (end: usize)
    requires
        at <= buf@.len(),
    ensures
        end == run(buf@, at as int, class),
        at <= end <= buf@.len(),
{
    let mut i: usize = at;
    while i < buf.len() && class.contains(buf[i])
        invariant
            at <= i <= buf@.len(),
            run(buf@, at as int, class) == run(buf@, i as int, class),
        decreases buf@.len() - i,
    {
        i += 1;
    }
    i
}

/// Looks for `word` at `at`, letters in either case: gives where it ends.
fn tag_no_case(buf: &[u8], at: usize, word: &str) -> (r: Option<usize>)
    requires
        at <= buf@.len(),
    ensures
        match r {
            Some(end) => spec_tag_no_case(buf@, at as int, word.spec_bytes()) && end == at
                + word.spec_bytes().len(),
            None => !spec_tag_no_case(buf@, at as int, word.spec_bytes()),
        },
{
    let bytes = word.as_bytes();
    let total: usize = buf.len();
    if total - at < bytes.len() {
        return None;
    }
    let mut i: usize = 0;
    while i < bytes.len()
        invariant
            i <= bytes@.len(),
            total == buf@.len(),
            bytes@ == word.spec_bytes(),
            at + bytes@.len() <= buf@.len(),
            forall|k: int|
                0 <= k < i ==> spec_lower(#[trigger] buf@[at + k]) == spec_lower(bytes@[k]),
        decreases bytes@.len() - i,
    {
        if lower(buf[at + i]) != lower(bytes[i]) {
            assert(spec_lower(buf@[at + i]) != spec_lower(bytes@[i as int]));
            return None;
        }
        i += 1;
    }
    Some(at + bytes.len())
}

/// Looks for `word` at `at`: gives where it ends.
fn tag(buf: &[u8], at: usize, word: &str) -> (r: Option<usize>)
    requires
        at <= buf@.len(),
    ensures
        match r {
            Some(end) => spec_tag(buf@, at as int, word.spec_bytes()) && end == at
                + word.spec_bytes().len(),
            None => !spec_tag(buf@, at as int, word.spec_bytes()),
        },
{
    let bytes = word.as_bytes();
    let total: usize = buf.len();
    if total - at < bytes.len() {
        return None;
    }
    let mut i: usize = 0;
    while i < bytes.len()
        invariant
            i <= bytes@.len(),
            total == buf@.len(),
            bytes@ == word.spec_bytes(),
            at + bytes@.len() <= buf@.len(),
            forall|k: int| 0 <= k < i ==> #[trigger] buf@[at + k] == bytes@[k],
        decreases bytes@.len() - i,
    {
        if buf[at + i] != bytes[i] {
            assert(buf@[at + i] != bytes@[i as int]);
            return None;
        }
        i += 1;
    }
    Some(at + bytes.len())
}

/// Reads a run of at least one byte of `class` that is UTF-8.
fn text<'a>(buf: &'a [u8], at: usize, class: Class) -> (r: Option<(usize, &'a str)>)
    requires
        at <= buf@.len(),
    ensures
        match r {
            Some((end, found)) => spec_text(buf@, at as int, class) == Some((end as int, found@))
                && end <= buf@.len(),
            None => spec_text(buf@, at as int, class) is None,
        },
{
    let end = scan(buf, at, class);
    if end == at {
        return None;
    }
    match utf8(slice_subrange(buf, at, end)) {
        Some(found) => Some((end, found)),
        None => None,
    }
}

/// Reads one or more spaces.
fn space(buf: &[u8], at: usize) -> (r: Option<usize>)
    requires
        at <= buf@.len(),
    ensures
        match r {
            Some(end) => spec_run1(buf@, at as int, Class::Space) == Some(end as int) && end
                <= buf@.len(),
            None => spec_run1(buf@, at as int, Class::Space) is None,
        },
{
    let end = scan(buf, at, Class::Space);
    if end > at {
        Some(end)
    } else {
        None
    }
}

/// Reads a command word and the spaces behind it.
fn cmd(buf: &[u8], at: usize, cmd_tag: &str) -> (r: Option<usize>)
    requires
        at <= buf@.len(),
    ensures
        match r {
            Some(end) => spec_cmd(buf@, at as int, cmd_tag.spec_bytes()) == Some(end as int)
                && end <= buf@.len(),
            None => spec_cmd(buf@, at as int, cmd_tag.spec_bytes()) is None,
        },
{
    match tag_no_case(buf, at, cmd_tag) {
        Some(spaces) => space(buf, spaces),
        None => None,
    }
}

/// Reads the domain of a greeting.
fn hello_domain<'a>(buf: &'a [u8], at: usize) -> (r: Option<(usize, &'a str)>)
    requires
        at <= buf@.len(),
    ensures
        match r {
            Some((end, found)) => spec_text(buf@, at as int, Class::Domain) == Some(
                (end as int, found@),
            ) && end <= buf@.len(),
            None => spec_text(buf@, at as int, Class::Domain) is None,
        },
{
    text(buf, at, Class::Domain)
}

/// Reads a mail path.
fn mail_path<'a>(buf: &'a [u8], at: usize) -> (r: Option<(usize, &'a str)>)
    requires
        at <= buf@.len(),
    ensures
        match r {
            Some((end, found)) => spec_text(buf@, at as int, Class::Path) == Some(
                (end as int, found@),
            ) && end <= buf@.len(),
            None => spec_text(buf@, at as int, Class::Path) is None,
        },
{
    text(buf, at, Class::Path)
}

/// Reads the rest of the line.
fn take_all<'a>(buf: &'a [u8], at: usize) -> (r: Option<(usize, &'a str)>)
    requires
        at <= buf@.len(),
    ensures
        match r {
            Some((end, found)) => spec_text(buf@, at as int, Class::Line) == Some(
                (end as int, found@),
            ) && end <= buf@.len(),
            None => spec_text(buf@, at as int, Class::Line) is None,
        },
{
    text(buf, at, Class::Line)
}

fn helo<'a>(buf: &'a [u8], at: usize) -> (r: Option<(usize, Cmd<'a>)>)
    requires
        at <= buf@.len(),
    ensures
        parsed(r, spec_helo(buf@, at as int)),
        r matches Some((end, _)) ==> end <= buf@.len(),
{
    match cmd(buf, at, "helo") {
        None => None,
        Some(param) => match hello_domain(buf, param) {
            None => None,
            Some((end, domain)) => Some((end, Cmd::Helo { domain })),
        },
    }
}

fn ehlo<'a>(buf: &'a [u8], at: usize) -> (r: Option<(usize, Cmd<'a>)>)
    requires
        at <= buf@.len(),
    ensures
        parsed(r, spec_ehlo(buf@, at as int)),
        r matches Some((end, _)) ==> end <= buf@.len(),
{
    match cmd(buf, at, "ehlo") {
        None => None,
        Some(param) => match hello_domain(buf, param) {
            None => None,
            Some((end, domain)) => Some((end, Cmd::Ehlo { domain })),
        },
    }
}

/// Reads a mail path between `<` and `>`.
fn bracketed<'a>(buf: &'a [u8], at: usize) -> (r: Option<(usize, &'a str)>)
    requires
        at <= buf@.len(),
    ensures
        match r {
            Some((end, found)) => spec_bracketed(buf@, at as int) == Some((end as int, found@))
                && end <= buf@.len(),
            None => spec_bracketed(buf@, at as int) is None,
        },
{
    match tag(buf, at, "<") {
        None => None,
        Some(start) => match mail_path(buf, start) {
            None => None,
            Some((closing, path)) => match tag(buf, closing, ">") {
                Some(end) => Some((end, path)),
                None => None,
            },
        },
    }
}

fn body_eq_8bit(buf: &[u8], at: usize) -> (r: Option<(usize, bool)>)
    requires
        at <= buf@.len(),
    ensures
        match r {
            Some((end, is8bit)) => spec_body_eq_8bit(buf@, at as int) == Some((end as int, is8bit))
                && end <= buf@.len(),
            None => spec_body_eq_8bit(buf@, at as int) is None,
        },
{
    let word = scan(buf, at, Class::Blank);
    match tag_no_case(buf, word, "body=") {
        None => None,
        Some(value) => match tag_no_case(buf, value, "8bitmime") {
            Some(end) => Some((end, true)),
            None => match tag_no_case(buf, value, "7bit") {
                Some(end) => Some((end, false)),
                None => None,
            },
        },
    }
}

fn is8bitmime(buf: &[u8], at: usize) -> (r: (usize, bool))
    requires
        at <= buf@.len(),
    ensures
        spec_is8bitmime(buf@, at as int) == (r.0 as int, r.1),
        r.0 <= buf@.len(),
{
    match body_eq_8bit(buf, at) {
        Some(found) => found,
        None => (at, false),
    }
}

fn mail<'a>(buf: &'a [u8], at: usize) -> (r: Option<(usize, Cmd<'a>)>)
    requires
        at <= buf@.len(),
    ensures
        parsed(r, spec_mail(buf@, at as int)),
        r matches Some((end, _)) ==> end <= buf@.len(),
{
    match tag_no_case(buf, at, "mail from:") {
        None => None,
        Some(spaces) => {
            let path = scan(buf, spaces, Class::Space);
            match bracketed(buf, path) {
                None => None,
                Some((after, reverse_path)) => {
                    let body = scan(buf, after, Class::Space);
                    let (end, is8bit) = is8bitmime(buf, body);
                    Some((end, Cmd::Mail { reverse_path, is8bit }))
                },
            }
        },
    }
}

fn rcpt<'a>(buf: &'a [u8], at: usize) -> (r: Option<(usize, Cmd<'a>)>)
    requires
        at <= buf@.len(),
    ensures
        parsed(r, spec_rcpt(buf@, at as int)),
        r matches Some((end, _)) ==> end <= buf@.len(),
{
    match tag_no_case(buf, at, "rcpt to:") {
        None => None,
        Some(spaces) => {
            let path = scan(buf, spaces, Class::Space);
            match bracketed(buf, path) {
                None => None,
                Some((end, forward_path)) => Some((end, Cmd::Rcpt { forward_path })),
            }
        },
    }
}

/// Reads a command that is its word alone.
fn word<'a>(buf: &'a [u8], at: usize, name: &str, command: Cmd<'a>) -> (r: Option<
    (usize, Cmd<'a>),
>)
    requires
        at <= buf@.len(),
    ensures
        parsed(r, spec_word(buf@, at as int, name.spec_bytes(), command@)),
        r matches Some((end, _)) ==> end <= buf@.len(),
{
    match tag_no_case(buf, at, name) {
        Some(end) => Some((end, command)),
        None => None,
    }
}

fn data<'a>(buf: &'a [u8], at: usize) -> (r: Option<(usize, Cmd<'a>)>)
    requires
        at <= buf@.len(),
    ensures
        parsed(r, spec_word(buf@, at as int, "data".spec_bytes(), CmdView::Data)),
        r matches Some((end, _)) ==> end <= buf@.len(),
{
    word(buf, at, "data", Cmd::Data)
}

fn rset<'a>(buf: &'a [u8], at: usize) -> (r: Option<(usize, Cmd<'a>)>)
    requires
        at <= buf@.len(),
    ensures
        parsed(r, spec_word(buf@, at as int, "rset".spec_bytes(), CmdView::Rset)),
        r matches Some((end, _)) ==> end <= buf@.len(),
{
    word(buf, at, "rset", Cmd::Rset)
}

fn quit<'a>(buf: &'a [u8], at: usize) -> (r: Option<(usize, Cmd<'a>)>)
    requires
        at <= buf@.len(),
    ensures
        parsed(r, spec_word(buf@, at as int, "quit".spec_bytes(), CmdView::Quit)),
        r matches Some((end, _)) ==> end <= buf@.len(),
{
    word(buf, at, "quit", Cmd::Quit)
}

fn vrfy<'a>(buf: &'a [u8], at: usize) -> (r: Option<(usize, Cmd<'a>)>)
    requires
        at <= buf@.len(),
    ensures
        parsed(r, spec_vrfy(buf@, at as int)),
        r matches Some((end, _)) ==> end <= buf@.len(),
{
    match cmd(buf, at, "vrfy") {
        None => None,
        Some(param) => match take_all(buf, param) {
            None => None,
            Some((end, _)) => Some((end, Cmd::Vrfy)),
        },
    }
}

fn noop<'a>(buf: &'a [u8], at: usize) -> (r: Option<(usize, Cmd<'a>)>)
    requires
        at <= buf@.len(),
    ensures
        parsed(r, spec_word(buf@, at as int, "noop".spec_bytes(), CmdView::Noop)),
        r matches Some((end, _)) ==> end <= buf@.len(),
{
    word(buf, at, "noop", Cmd::Noop)
}

fn starttls<'a>(buf: &'a [u8], at: usize) -> (r: Option<(usize, Cmd<'a>)>)
    requires
        at <= buf@.len(),
    ensures
        parsed(r, spec_word(buf@, at as int, "starttls".spec_bytes(), CmdView::StartTls)),
        r matches Some((end, _)) ==> end <= buf@.len(),
{
    word(buf, at, "starttls", Cmd::StartTls)
}

/// Reads the initial response of an `AUTH` command, if there is one: gives
/// where the command ends, and the response, which is empty where there is
/// none.
fn auth_initial<'a>(buf: &'a [u8], at: usize) -> (r: (usize, &'a [u8]))
    requires
        at <= buf@.len(),
    ensures
        r.0 == spec_auth_initial(buf@, at as int).0,
        r.1@ == buf@.subrange(
            spec_auth_initial(buf@, at as int).1,
            spec_auth_initial(buf@, at as int).0,
        ),
        r.0 <= buf@.len(),
{
    match space(buf, at) {
        None => (at, empty(buf, at)),
        Some(start) => {
            let end = scan(buf, start, Class::Base64);
            if end > start {
                (end, slice_subrange(buf, start, end))
            } else {
                (at, empty(buf, at))
            }
        },
    }
}

/// The empty response: no byte of the line, taken at `at`.
fn empty<'a>(buf: &'a [u8], at: usize) -> (r: &'a [u8])
    requires
        at <= buf@.len(),
    ensures
        r@ == buf@.subrange(at as int, at as int),
{
    slice_subrange(buf, at, at)
}

/// The text of bytes that are UTF-8, and no text for others.
fn string(bytes: &[u8]) -> (r: String)
    ensures
        r@ == spec_string(bytes@),
{
    match utf8(bytes) {
        Some(found) => found.to_owned(),
        None => String::new(),
    }
}

/// Reads the field that starts at `at`, where fields are separated by zero
/// bytes: gives its text, and where the next field starts if there is one.
/// A field that is no UTF-8 gives an empty text, and so does no field.
pub fn next_string(fields: &[u8], at: Option<usize>) -> (r: (String, Option<usize>))
    ensures
        r.0@ == spec_field(fields@, position(at)),
        position(r.1) == spec_next_field(fields@, position(at)),
        r.1 matches Some(next) ==> next <= fields@.len(),
{
    match at {
        Some(start) if start <= fields.len() => {
            let end = scan(fields, start, Class::Field);
            let found = string(slice_subrange(fields, start, end));
            if end < fields.len() {
                (found, Some(end + 1))
            } else {
                (found, None)
            }
        },
        _ => (String::new(), None),
    }
}

/// Takes the credentials of a `PLAIN` authentication out of the decoded
/// parameter.
pub fn credentials(decoded: Option<Vec<u8>>) -> (creds: Credentials)
    ensures
        creds@ == spec_credentials(
            match decoded {
                Some(bytes) => Some(bytes@),
                None => None,
            },
        ),
{
    match decoded {
        Some(bytes) => {
            let (authorization_id, second) = next_string(bytes.as_slice(), Some(0));
            let (authentication_id, third) = next_string(bytes.as_slice(), second);
            let (password, _) = next_string(bytes.as_slice(), third);
            Credentials { authorization_id, authentication_id, password }
        },
        None => Credentials {
            authorization_id: String::new(),
            authentication_id: String::new(),
            password: String::new(),
        },
    }
}

/// Takes the user name of a `LOGIN` authentication out of the decoded
/// parameter.
pub fn login_name(decoded: Option<Vec<u8>>) -> (name: String)
    ensures
        name@ == spec_login(
            match decoded {
                Some(bytes) => Some(bytes@),
                None => None,
            },
        ),
{
    match decoded {
        Some(bytes) => string(bytes.as_slice()),
        None => String::new(),
    }
}

/// Decodes the base64 encoded plain authentication parameter.
pub fn decode_sasl_plain(param: &[u8]) -> (creds: Credentials)
    ensures
        creds@ == spec_credentials(base64_decoded(param@)),
{
    credentials(base64_decode(param))
}

/// Decodes base64 encoded login authentication parameters (in login auth,
/// username and password are sent in separate lines).
pub fn decode_sasl_login(param: &[u8]) -> (name: String)
    ensures
        name@ == spec_login(base64_decoded(param@)),
{
    login_name(base64_decode(param))
}

/// The command for `AUTH PLAIN` with the initial response `param`.
pub fn sasl_plain_cmd<'a>(param: &[u8]) -> (c: Cmd<'a>)
    ensures
        c@ == spec_sasl_plain_cmd(param@),
{
    if param.len() == 0 {
        Cmd::AuthPlainEmpty
    } else {
        let creds = decode_sasl_plain(param);
        Cmd::AuthPlain {
            authorization_id: creds.authorization_id,
            authentication_id: creds.authentication_id,
            password: creds.password,
        }
    }
}

/// The command for `AUTH LOGIN` with the initial response `param`.
pub fn sasl_login_cmd<'a>(param: &[u8]) -> (c: Cmd<'a>)
    ensures
        c@ == spec_sasl_login_cmd(param@),
{
    if param.len() == 0 {
        Cmd::AuthLoginEmpty
    } else {
        Cmd::AuthLogin { username: decode_sasl_login(param) }
    }
}

fn auth_plain<'a>(buf: &'a [u8], at: usize) -> (r: Option<(usize, Cmd<'a>)>)
    requires
        at <= buf@.len(),
    ensures
        parsed(r, spec_auth_plain(buf@, at as int)),
        r matches Some((end, _)) ==> end <= buf@.len(),
{
    match tag_no_case(buf, at, "plain") {
        None => None,
        Some(initial) => {
            let (end, param) = auth_initial(buf, initial);
            Some((end, sasl_plain_cmd(param)))
        },
    }
}

fn auth_login<'a>(buf: &'a [u8], at: usize) -> (r: Option<(usize, Cmd<'a>)>)
    requires
        at <= buf@.len(),
    ensures
        parsed(r, spec_auth_login(buf@, at as int)),
        r matches Some((end, _)) ==> end <= buf@.len(),
{
    match tag_no_case(buf, at, "login") {
        None => None,
        Some(initial) => {
            let (end, param) = auth_initial(buf, initial);
            Some((end, sasl_login_cmd(param)))
        },
    }
}

fn auth<'a>(buf: &'a [u8], at: usize) -> (r: Option<(usize, Cmd<'a>)>)
    requires
        at <= buf@.len(),
    ensures
        parsed(r, spec_auth(buf@, at as int)),
        r matches Some((end, _)) ==> end <= buf@.len(),
{
    match cmd(buf, at, "auth") {
        None => None,
        Some(mechanism) => match auth_plain(buf, mechanism) {
            Some(found) => Some(found),
            None => auth_login(buf, mechanism),
        },
    }
}

/// Reads the command at the start of a line, and `\r\n` behind it.
fn command<'a>(buf: &'a [u8]) -> (r: Option<Cmd<'a>>)
    ensures
        match r {
            Some(cmd) => spec_command(buf@) == Some(cmd@),
            None => spec_command(buf@) is None,
        },
{
    let found = match helo(buf, 0) {
        Some(found) => Some(found),
        None => match ehlo(buf, 0) {
            Some(found) => Some(found),
            None => match mail(buf, 0) {
                Some(found) => Some(found),
                None => match rcpt(buf, 0) {
                    Some(found) => Some(found),
                    None => match data(buf, 0) {
                        Some(found) => Some(found),
                        None => match rset(buf, 0) {
                            Some(found) => Some(found),
                            None => match quit(buf, 0) {
                                Some(found) => Some(found),
                                None => match vrfy(buf, 0) {
                                    Some(found) => Some(found),
                                    None => match noop(buf, 0) {
                                        Some(found) => Some(found),
                                        None => match starttls(buf, 0) {
                                            Some(found) => Some(found),
                                            None => auth(buf, 0),
                                        },
                                    },
                                },
                            },
                        },
                    },
                },
            },
        },
    };
    match found {
        None => None,
        Some((end, cmd)) => match tag(buf, end, "\r\n") {
            Some(_) => Some(cmd),
            None => None,
        },
    }
}

/// Reads the response of a client in the middle of an authentication: base64
/// text and `\r\n` behind it.
fn auth_response<'a>(buf: &'a [u8]) -> (r: Option<&'a [u8]>)
    ensures
        match r {
            Some(response) => spec_auth_response(buf@) == Some(response@),
            None => spec_auth_response(buf@) is None,
        },
{
    let end = scan(buf, 0, Class::Base64);
    if end == 0 {
        return None;
    }
    match tag(buf, end, "\r\n") {
        Some(_) => Some(slice_subrange(buf, 0, end)),
        None => None,
    }
}

/// Parse a line from the client. A line that is no command gives the reply
/// for a syntax error.
pub fn parse<'a>(line: &'a [u8]) -> (r: Result<Cmd<'a>, Response>)
    ensures
        match r {
            Ok(cmd) => spec_command(line@) == Some(cmd@),
            Err(reply) => spec_command(line@) is None && reply == Response::syntax_error(),
        },
{
    match command(line) {
        Some(cmd) => Ok(cmd),
        None => Err(Response::syntax_error()),
    }
}

/// Parse an authentication response from the client. A line that is none
/// gives the reply for a syntax error.
pub fn parse_auth_response<'a>(line: &'a [u8]) -> (r: Result<&'a [u8], Response>)
    ensures
        match r {
            Ok(response) => spec_auth_response(line@) == Some(response@),
            Err(reply) => spec_auth_response(line@) is None && reply == Response::syntax_error(),
        },
{
    match auth_response(line) {
        Some(response) => Ok(response),
        None => Err(Response::syntax_error()),
    }
}

} // verus!
