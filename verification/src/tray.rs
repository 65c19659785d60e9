//! What the tray shows, as text, and what it takes from the broadcast
//! dialog. Drawing the menu is the caller's.

use vstd::prelude::*;
use vstd::utf8::{decode_utf8, encode_utf8, valid_utf8};
use crate::text::{decimal, decimal_usize, prefix, text_view};

verus! {

/// How many characters of a content a menu entry shows.
pub const LABEL_CHARS: usize = 80;

/// How many of the most recent items the menu lists.
pub const MENU_ITEMS: usize = 5;

/// The tray's title.
pub open spec fn title_text(connected: bool) -> Seq<char> {
    if connected {
        "Corridor ✓"@
    } else {
        "Corridor ✗"@
    }
}

/// The first line of the menu: the state of the connection, and the size
/// of the backlog where there is one.
pub open spec fn status_text(connected: bool, pending: nat) -> Seq<char> {
    if connected {
        if pending > 0 {
            "Status: ✓ Connected (Syncing "@ + decimal(pending as int) + " items...)"@
        } else {
            "Status: ✓ Connected"@
        }
    } else {
        if pending > 0 {
            "Status: ✗ Disconnected ("@ + decimal(pending as int) + " pending)"@
        } else {
            "Status: ✗ Disconnected"@
        }
    }
}

/// The address at which the relay's history is cleared: the relay's web
/// address, then `/clipboard/` and the token.
pub open spec fn clear_address_text(http_url: Seq<char>, token: Seq<char>) -> Seq<char> {
    http_url + "/clipboard/"@ + token
}

/// Whether the first line break of `text` stands at `at`.
pub open spec fn breaks_at(text: Seq<char>, at: int) -> bool {
    &&& 0 <= at < text.len()
    &&& text[at] == '\n'
    &&& forall|j: int| 0 <= j < at ==> text[j] != '\n'
}

/// The first line of `text`: what stands before the first line break,
/// without the carriage return that may precede the break; all of `text`
/// where it has no line break.
pub open spec fn first_line(text: Seq<char>) -> Seq<char> {
    if exists|at: int| breaks_at(text, at) {
        let at = choose|at: int| breaks_at(text, at);
        if at > 0 && text[at - 1] == '\r' {
            text.take(at - 1)
        } else {
            text.take(at)
        }
    } else {
        text
    }
}

/// The number of bytes that `text` takes in UTF-8, as `str::len` counts
/// them.
pub open spec fn byte_len(text: Seq<char>) -> usize {
    encode_utf8(text).len() as usize
}

/// A content cut down to one line of at most eighty characters, with
/// three dots where something was left out: where the content has a line
/// break or takes more than eighty bytes.
pub open spec fn shortened(content: Seq<char>) -> Seq<char> {
    let line = prefix(first_line(content), LABEL_CHARS as nat);
    if byte_len(content) > LABEL_CHARS || content.contains('\n') {
        line + "..."@
    } else {
        line
    }
}

/// The menu entry for a history item with this content.
pub open spec fn label_text(content: Seq<char>) -> Seq<char> {
    "🗐 "@ + shortened(content)
}

/// Whether a character is white space, as `char::is_whitespace` tells.
pub uninterp spec fn white_space(c: char) -> bool;

/// The number of white-space characters at the start of `text`.
pub open spec fn leading_white(text: Seq<char>) -> nat
    decreases text.len(),
{
    if text.len() > 0 && white_space(text[0]) {
        1 + leading_white(text.drop_first())
    } else {
        0
    }
}

/// The number of white-space characters at the end of `text`.
pub open spec fn trailing_white(text: Seq<char>) -> nat
    decreases text.len(),
{
    if text.len() > 0 && white_space(text.last()) {
        1 + trailing_white(text.drop_last())
    } else {
        0
    }
}

/// `text` without the white space at its start and at its end.
pub open spec fn trimmed(text: Seq<char>) -> Seq<char> {
    let rest = text.skip(leading_white(text) as int);
    rest.take(rest.len() - trailing_white(rest))
}

/// The bytes that the standard base64 alphabet, with padding, decodes a
/// text to; none where the text is not such an encoding.
pub uninterp spec fn base64_decoded(text: Seq<char>) -> Option<Seq<u8>>;

/// The error with which `base64` refuses a text.
#[verifier::external_type_specification]
#[verifier::external_body]
pub struct ExDecodeError(base64::DecodeError);

/// The error with which std refuses bytes that are not UTF-8.
#[verifier::external_type_specification]
#[verifier::external_body]
pub struct ExFromUtf8Error(std::string::FromUtf8Error);

/// The text that a line of the broadcast dialog asks to be shared: what
/// follows `SYNC:` on the trimmed line, decoded from base64 and read as
/// UTF-8; none where the line has another shape or the text is empty.
pub open spec fn broadcast_of(line: Seq<char>) -> Option<Seq<char>> {
    request_of(trimmed(line))
}

/// The text that a trimmed line of the broadcast dialog asks to be
/// shared.
pub open spec fn request_of(inner: Seq<char>) -> Option<Seq<char>> {
    if "SYNC:"@.is_prefix_of(inner) {
        match base64_decoded(inner.skip("SYNC:"@.len() as int)) {
            Some(bytes) => payload_of(bytes),
            None => None,
        }
    } else {
        None
    }
}

/// The text that decoded bytes stand for: their reading as UTF-8, where
/// they are UTF-8 and the text is not empty.
pub open spec fn payload_of(bytes: Seq<u8>) -> Option<Seq<char>> {
    if valid_utf8(bytes) && decode_utf8(bytes).len() > 0 {
        Some(decode_utf8(bytes))
    } else {
        None
    }
}

/// Whether `c` is white space.
///
/// Trusted: calls std's `char::is_whitespace`. The result depends on the
/// character alone and is given the name `white_space`.
#[verifier::external_body]
fn is_white_space(c: char) -> (white: bool)
    ensures
        white == white_space(c),
{
    c.is_whitespace()
}

/// `text` without the white space around it.
pub fn trim(text: &str) -> (inner: &str)
    ensures
        inner@ == trimmed(text@),
{
    let len = text.unicode_len();
    let mut start: usize = 0;
    assert(text@.skip(0) =~= text@);
    while start < len && is_white_space(text.get_char(start))
        invariant
            len == text@.len(),
            start <= len,
            leading_white(text@) == start + leading_white(text@.skip(start as int)),
        decreases len - start,
    {
        assert(text@.skip(start as int).drop_first() =~= text@.skip(start + 1));
        start += 1;
    }
    let ghost rest = text@.skip(start as int);
    assert(leading_white(rest) == 0);
    let mut end: usize = len;
    assert(text@.subrange(start as int, end as int) =~= rest);
    while end > start && is_white_space(text.get_char(end - 1))
        invariant
            len == text@.len(),
            start <= end <= len,
            rest == text@.skip(start as int),
            trailing_white(rest) == (len - end) + trailing_white(
                text@.subrange(start as int, end as int),
            ),
        decreases end - start,
    {
        assert(text@.subrange(start as int, end as int).drop_last() =~= text@.subrange(
            start as int,
            end - 1,
        ));
        end -= 1;
    }
    assert(trailing_white(text@.subrange(start as int, end as int)) == 0);
    let inner = text.substring_char(start, end);
    assert(inner@ =~= trimmed(text@));
    inner
}

/// Decodes base64.
///
/// Trusted: calls `Engine::decode` on `base64`'s
/// `engine::general_purpose::STANDARD`. The result depends on the text
/// alone; it is `Ok` exactly where the text is an encoding in the standard
/// alphabet with padding, and the bytes are given the name
/// `base64_decoded`.
#[verifier::external_body]
fn decode_base64(text: &str) -> (decoded: Result<Vec<u8>, base64::DecodeError>)
    ensures
        decoded is Ok <==> base64_decoded(text@) is Some,
        decoded matches Ok(bytes) ==> base64_decoded(text@) == Some(bytes@),
{
    base64::Engine::decode(&base64::engine::general_purpose::STANDARD, text)
}

/// Reads bytes as UTF-8.
///
/// Trusted: calls std's `String::from_utf8`, which gives the text that the
/// bytes encode where they are valid UTF-8, and an error else.
#[verifier::external_body]
fn utf8_text(bytes: Vec<u8>) -> (text: Result<String, std::string::FromUtf8Error>)
    ensures
        text is Ok <==> valid_utf8(bytes@),
        text matches Ok(inner) ==> inner@ == decode_utf8(bytes@),
{
    String::from_utf8(bytes)
}

/// The tray's title.
pub fn title(connected: bool) -> (text: String)
    ensures
        text@ == title_text(connected),
{
    if connected {
        "Corridor ✓".to_owned()
    } else {
        "Corridor ✗".to_owned()
    }
}

/// The first line of the menu.
pub fn status_label(connected: bool, pending: usize) -> (text: String)
    ensures
        text@ == status_text(connected, pending as nat),
{
    if connected {
        if pending > 0 {
            "Status: ✓ Connected (Syncing ".to_owned().concat(
                decimal_usize(pending).as_str(),
            ).concat(" items...)")
        } else {
            "Status: ✓ Connected".to_owned()
        }
    } else {
        if pending > 0 {
            "Status: ✗ Disconnected (".to_owned().concat(decimal_usize(pending).as_str()).concat(
                " pending)",
            )
        } else {
            "Status: ✗ Disconnected".to_owned()
        }
    }
}

/// The address at which the relay's history is cleared.
pub fn clear_address(http_url: &str, token: &str) -> (address: String)
    ensures
        address@ == clear_address_text(http_url@, token@),
{
    http_url.to_owned().concat("/clipboard/").concat(token)
}

/// Whether `text` has a line break.
fn has_break(text: &str) -> (found: bool)
    ensures
        found == text@.contains('\n'),
{
    let len = text.unicode_len();
    let mut i: usize = 0;
    while i < len
        invariant
            len == text@.len(),
            i <= len,
            forall|j: int| 0 <= j < i ==> text@[j] != '\n',
        decreases len - i,
    {
        if text.get_char(i) == '\n' {
            return true;
        }
        i += 1;
    }
    false
}

/// The first `limit` characters of the first line of `text`.
pub fn line_start(text: &str, limit: usize) -> (shown: String)
    ensures
        shown@ == prefix(first_line(text@), limit as nat),
{
    let len = text.unicode_len();
    let window = if limit < len {
        limit + 1
    } else {
        len
    };
    let mut at: usize = 0;
    while at < window && text.get_char(at) != '\n'
        invariant
            len == text@.len(),
            window <= len,
            at <= window,
            forall|j: int| 0 <= j < at ==> text@[j] != '\n',
        decreases window - at,
    {
        at += 1;
    }
    if at < window {
        assert(breaks_at(text@, at as int));
        assert forall|other: int| breaks_at(text@, other) implies other == at by {
            if other < at {
                assert(text@[other] != '\n');
            } else if other > at {
                assert(text@[at as int] == '\n');
            }
        }
        let end = if at > 0 && text.get_char(at - 1) == '\r' {
            at - 1
        } else {
            at
        };
        let cut = if limit < end {
            limit
        } else {
            end
        };
        let shown = text.substring_char(0, cut).to_owned();
        assert(shown@ =~= prefix(first_line(text@), limit as nat));
        shown
    } else {
        let cut = if limit < len {
            limit
        } else {
            len
        };
        assert forall|other: int| breaks_at(text@, other) implies other >= window by {
            if other < window {
                assert(text@[other] != '\n');
            }
        }
        let shown = text.substring_char(0, cut).to_owned();
        assert(shown@ =~= prefix(first_line(text@), limit as nat));
        shown
    }
}

/// A content cut down to one line for the menu.
pub fn preview_line(content: &str) -> (shown: String)
    ensures
        shown@ == shortened(content@),
{
    let line = line_start(content, LABEL_CHARS);
    if content.len() > LABEL_CHARS || has_break(content) {
        line.concat("...")
    } else {
        line
    }
}

/// The menu entry for a history item with this content.
pub fn history_label(content: &str) -> (text: String)
    ensures
        text@ == label_text(content@),
{
    "🗐 ".to_owned().concat(preview_line(content).as_str())
}

/// What follows `lead` in `text`, where `text` starts with it.
fn after<'a>(text: &'a str, lead: &str) -> (rest: Option<&'a str>)
    ensures
        rest is Some <==> lead@.is_prefix_of(text@),
        rest matches Some(inner) ==> inner@ == text@.skip(lead@.len() as int),
{
    let len = text.unicode_len();
    let wanted = lead.unicode_len();
    if len < wanted {
        None
    } else {
        let head = text.substring_char(0, wanted).to_owned();
        if head == lead.to_owned() {
            let rest = text.substring_char(wanted, len);
            assert(rest@ =~= text@.skip(lead@.len() as int));
            Some(rest)
        } else {
            None
        }
    }
}

/// The text that decoded bytes stand for, where they are UTF-8 and the
/// text is not empty.
pub fn broadcast_payload(bytes: Vec<u8>) -> (text: Option<String>)
    ensures
        text_view(text) == payload_of(bytes@),
{
    match utf8_text(bytes) {
        Ok(inner) => {
            if inner.as_str().is_empty() {
                None
            } else {
                Some(inner)
            }
        },
        Err(_) => None,
    }
}

/// The text that a trimmed line of the broadcast dialog asks to be
/// shared, if it asks for one.
pub fn broadcast_request(inner: &str) -> (text: Option<String>)
    ensures
        text_view(text) == request_of(inner@),
{
    match after(inner, "SYNC:") {
        Some(encoded) => match decode_base64(encoded) {
            Ok(bytes) => broadcast_payload(bytes),
            Err(_) => None,
        },
        None => None,
    }
}

/// The text that a line of the broadcast dialog asks to be shared, if it
/// asks for one.
pub fn broadcast_text(line: &str) -> (text: Option<String>)
    ensures
        text_view(text) == broadcast_of(line@),
{
    broadcast_request(trim(line))
}

} // verus!
