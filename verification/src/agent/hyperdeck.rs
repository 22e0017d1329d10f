//! The HyperDeck vendor protocol: a line-oriented text protocol over TCP.
//!
//! A response is either one line, `<code> <text>`, or a header line whose
//! text ends in a colon, followed by payload lines and closed by a blank
//! line. Lines end in a line feed; a carriage return before it is dropped.
//! Responses with a code from 500 to 599 are asynchronous notifications
//! that may turn up between a command and its reply.
//!
//! The runtime owns the socket. [`HyperDeck`] holds the bytes received so
//! far and cuts responses out of them, one at a time.

use crate::agent::parameters::{
    parameters_of, read_parameters, MalformedParameters, Parameters,
};
use vstd::prelude::*;
use vstd::slice::{slice_subrange, slice_to_vec};
use vstd::string::StringExecFns;
use vstd::utf8::{decode_utf8, valid_utf8};

verus! {

/// The TCP port on which HyperDecks listen.
pub const DEFAULT_PORT: u16 = 9993;

/// How long a connection attempt may take, in milliseconds.
pub const CONNECT_TIMEOUT_MS: u64 = 2000;

/// How long a read may wait for the next bytes, in milliseconds.
pub const READ_TIMEOUT_MS: u64 = 2000;

/// How many bytes the runtime asks of the socket at a time.
pub const READ_CHUNK: usize = 1024;

pub const LF: u8 = 0x0a;

pub const CR: u8 = 0x0d;

pub const SPACE: u8 = 0x20;

pub const COLON: u8 = 0x3a;

pub const PLUS: u8 = 0x2b;

pub const MINUS: u8 = 0x2d;

pub const DIGIT_ZERO: u8 = 0x30;

pub const DIGIT_NINE: u8 = 0x39;

/// A response of the device.
#[derive(Debug, PartialEq, Eq)]
pub struct HyperDeckResponse {
    pub code: i32,
    pub text: String,
    /// The payload lines, each closed by a line feed; `None` when the
    /// response has no payload line.
    pub payload: Option<String>,
}

/// Mathematical model of [`HyperDeckResponse`].
pub struct HyperDeckResponseModel {
    pub code: i32,
    pub text: Seq<char>,
    pub payload: Option<Seq<char>>,
}

impl View for HyperDeckResponse {
    type V = HyperDeckResponseModel;

    open spec fn view(&self) -> HyperDeckResponseModel {
        HyperDeckResponseModel {
            code: self.code,
            text: self.text@,
            payload: self.payload.deep_view(),
        }
    }
}

impl DeepView for HyperDeckResponse {
    type V = HyperDeckResponseModel;

    open spec fn deep_view(&self) -> HyperDeckResponseModel {
        self@
    }
}

impl Clone for HyperDeckResponse {
    fn clone(&self) -> (copy: Self)
        ensures
            copy@ == self@,
    {
        HyperDeckResponse {
            code: self.code,
            text: self.text.clone(),
            payload: self.payload.clone(),
        }
    }
}

impl HyperDeckResponse {
    /// Reads the payload as parameters: one `key: value` pair to the line,
    /// key and value trimmed, each key with the value that its last line
    /// gives it. A response without a payload has no parameters; a payload
    /// line without a colon is an error.
    pub fn parse_payload_parameters(&self) -> (parameters: Result<
        Parameters,
        MalformedParameters,
    >)
        ensures
            match self.payload {
                None => parameters matches Ok(found) && found@ == Map::<
                    Seq<char>,
                    Seq<char>,
                >::empty(),
                Some(payload) => match parameters_of(payload@) {
                    Some(stated) => parameters matches Ok(found) && found@ == stated,
                    None => parameters is Err,
                },
            },
    {
        match &self.payload {
            None => Ok(Parameters::new()),
            Some(payload) => read_parameters(payload.as_str()),
        }
    }
}

/// Why no response could be read.
#[derive(Clone, Copy, Debug, PartialEq, Eq)]
pub enum ReadError {
    /// The header line has no space between code and text.
    MalformedCodeLine,
    /// The code is not a decimal integer of 32 bits.
    MalformedCode,
    /// The text or the payload is not UTF-8.
    MalformedText,
    /// The device closed the connection in the middle of a response.
    UnexpectedEof,
    /// The socket reported an error.
    ReadFailed,
    /// No bytes came within the read timeout.
    TimedOut,
}

/// The words for a read error.
pub open spec fn read_error_text(error: ReadError) -> Seq<char> {
    match error {
        ReadError::MalformedCodeLine => "malformed response code line"@,
        ReadError::MalformedCode => "malformed response code"@,
        ReadError::MalformedText => "malformed response"@,
        ReadError::UnexpectedEof => "unexpected eof"@,
        ReadError::ReadFailed => "read error"@,
        ReadError::TimedOut => "deadline has elapsed"@,
    }
}

impl ReadError {
    /// The words for the error.
    pub fn description(&self) -> (text: String)
        ensures
            text@ == read_error_text(*self),
    {
        match self {
            ReadError::MalformedCodeLine => String::from_str("malformed response code line"),
            ReadError::MalformedCode => String::from_str("malformed response code"),
            ReadError::MalformedText => String::from_str("malformed response"),
            ReadError::UnexpectedEof => String::from_str("unexpected eof"),
            ReadError::ReadFailed => String::from_str("read error"),
            ReadError::TimedOut => String::from_str("deadline has elapsed"),
        }
    }
}

/// What the bytes received so far amount to.
pub enum Parsed {
    /// No complete response yet: more bytes are needed.
    Incomplete,
    /// The bytes cannot start a response.
    Malformed(ReadError),
    /// A response, and the number of bytes that it takes up.
    Response { response: HyperDeckResponseModel, consumed: int },
}

/// A header line taken apart.
pub struct Header {
    pub code: i32,
    pub text: Seq<u8>,
    pub multiline: bool,
}

/// Number of items from position `from` up to the first `item`, or up to
/// the end where there is none.
pub open spec fn run_length<T>(items: Seq<T>, item: T, from: int) -> nat
    decreases items.len() - from,
{
    if from < 0 || from >= items.len() || items[from] == item {
        0
    } else {
        1 + run_length(items, item, from + 1)
    }
}

/// Position of the first `item` at or after `from`; the length of `items`
/// where there is none.
pub open spec fn find_first<T>(items: Seq<T>, item: T, from: int) -> int {
    from + run_length(items, item, from)
}

/// Whether a whole line, line feed included, starts at `from`.
pub open spec fn has_line(buf: Seq<u8>, from: int) -> bool {
    0 <= from && find_first(buf, LF, from) < buf.len()
}

/// Position just behind the line that starts at `from`.
pub open spec fn next_line(buf: Seq<u8>, from: int) -> int {
    find_first(buf, LF, from) + 1
}

/// A line without the carriage return at its end, if it has one.
pub open spec fn without_cr(line: Seq<u8>) -> Seq<u8> {
    if line.len() > 0 && line.last() == CR {
        line.drop_last()
    } else {
        line
    }
}

/// What the line that starts at `from` holds: its bytes up to the line
/// feed, without a carriage return before the line feed.
pub open spec fn line_at(buf: Seq<u8>, from: int) -> Seq<u8> {
    without_cr(buf.subrange(from, find_first(buf, LF, from)))
}

/// Where the header line starts: at `from`, or behind the blank lines that
/// stand there.
pub open spec fn header_start(buf: Seq<u8>, from: int) -> int
    decreases buf.len() - from,
{
    if has_line(buf, from) && line_at(buf, from).len() == 0 {
        header_start(buf, next_line(buf, from))
    } else {
        from
    }
}

pub open spec fn is_digit(byte: u8) -> bool {
    DIGIT_ZERO <= byte <= DIGIT_NINE
}

pub open spec fn all_digits(bytes: Seq<u8>) -> bool {
    forall|i: int| 0 <= i < bytes.len() ==> is_digit(#[trigger] bytes[i])
}

/// The number that a string of decimal digits spells.
pub open spec fn digits_value(digits: Seq<u8>) -> int
    decreases digits.len(),
{
    if digits.len() == 0 {
        0
    } else {
        digits_value(digits.drop_last()) * 10 + (digits.last() - DIGIT_ZERO)
    }
}

/// The response code that a token spells: an optional sign and at least
/// one decimal digit, with a value that fits in 32 bits.
pub open spec fn parse_code(token: Seq<u8>) -> Option<i32> {
    let negative = token.len() > 0 && token[0] == MINUS;
    let signed = token.len() > 0 && (token[0] == MINUS || token[0] == PLUS);
    let digits = if signed {
        token.skip(1)
    } else {
        token
    };
    let value = if negative {
        -digits_value(digits)
    } else {
        digits_value(digits)
    };
    if digits.len() > 0 && all_digits(digits) && i32::MIN <= value <= i32::MAX {
        Some(value as i32)
    } else {
        None
    }
}

/// A text without the colons at its end.
pub open spec fn strip_colons(text: Seq<u8>) -> Seq<u8>
    decreases text.len(),
{
    if text.len() > 0 && text.last() == COLON {
        strip_colons(text.drop_last())
    } else {
        text
    }
}

/// Takes a header line apart: the code up to the first space, the text
/// behind it. A text that ends in a colon announces a payload, and loses
/// the colons at its end.
pub open spec fn parse_header(line: Seq<u8>) -> Result<Header, ReadError> {
    let space = find_first(line, SPACE, 0);
    if space >= line.len() {
        Err(ReadError::MalformedCodeLine)
    } else {
        match parse_code(line.take(space)) {
            None => Err(ReadError::MalformedCode),
            Some(code) => {
                let rest = line.skip(space + 1);
                let text = strip_colons(rest);
                if valid_utf8(text) {
                    Ok(Header { code, text, multiline: rest.len() > 0 && rest.last() == COLON })
                } else {
                    Err(ReadError::MalformedText)
                }
            },
        }
    }
}

/// Reads payload lines from `from` up to the blank line that closes them.
/// Gives the payload, in which every line ends in a line feed, and the
/// position behind the blank line; `None` while the blank line is missing.
pub open spec fn scan_payload(buf: Seq<u8>, from: int) -> Option<(Seq<u8>, int)>
    decreases buf.len() - from,
{
    if !has_line(buf, from) {
        None
    } else if line_at(buf, from).len() == 0 {
        Some((Seq::empty(), next_line(buf, from)))
    } else {
        match scan_payload(buf, next_line(buf, from)) {
            None => None,
            Some((rest, end)) => Some((line_at(buf, from) + seq![LF] + rest, end)),
        }
    }
}

/// What the received bytes `buf` amount to: the first response in them.
pub open spec fn parse_response(buf: Seq<u8>) -> Parsed {
    let start = header_start(buf, 0);
    if !has_line(buf, start) {
        Parsed::Incomplete
    } else {
        match parse_header(line_at(buf, start)) {
            Err(error) => Parsed::Malformed(error),
            Ok(header) => {
                if !header.multiline {
                    Parsed::Response {
                        response: HyperDeckResponseModel {
                            code: header.code,
                            text: decode_utf8(header.text),
                            payload: None,
                        },
                        consumed: next_line(buf, start),
                    }
                } else {
                    match scan_payload(buf, next_line(buf, start)) {
                        None => Parsed::Incomplete,
                        Some((payload, end)) => {
                            if payload.len() == 0 {
                                Parsed::Response {
                                    response: HyperDeckResponseModel {
                                        code: header.code,
                                        text: decode_utf8(header.text),
                                        payload: None,
                                    },
                                    consumed: end,
                                }
                            } else if valid_utf8(payload) {
                                Parsed::Response {
                                    response: HyperDeckResponseModel {
                                        code: header.code,
                                        text: decode_utf8(header.text),
                                        payload: Some(decode_utf8(payload)),
                                    },
                                    consumed: end,
                                }
                            } else {
                                Parsed::Malformed(ReadError::MalformedText)
                            }
                        },
                    }
                }
            },
        }
    }
}

/// Whether a response code marks an asynchronous notification.
pub open spec fn is_asynchronous(code: i32) -> bool {
    500 <= code < 600
}

/// `String::from_utf8`: the text that the bytes encode, if they are valid
/// UTF-8, and nothing otherwise.
#[verifier::external_body]
fn string_from_utf8(bytes: Vec<u8>) -> (text: Option<String>)
    ensures
        text is Some <==> valid_utf8(bytes@),
        text matches Some(text) ==> text@ == decode_utf8(bytes@),
{
    String::from_utf8(bytes).ok()
}

/// `find_first` finds the first: it stays within the sequence, stops on
/// the item, and passes over nothing that equals it.
pub proof fn lemma_find_first<T>(items: Seq<T>, item: T, from: int)
    requires
        0 <= from <= items.len(),
    ensures
        from <= find_first(items, item, from) <= items.len(),
        find_first(items, item, from) < items.len() ==> items[find_first(items, item, from)]
            == item,
        forall|i: int| from <= i < find_first(items, item, from) ==> items[i] != item,
    decreases items.len() - from,
{
    if from < items.len() && items[from] != item {
        lemma_find_first(items, item, from + 1);
    }
}

fn find(bytes: &[u8], byte: u8, from: usize) -> (at: usize)
    requires
        from <= bytes.len(),
    ensures
        at == find_first(bytes@, byte, from as int),
        from <= at <= bytes.len(),
        at < bytes.len() ==> bytes[at as int] == byte,
{
    let mut at = from;
    while at < bytes.len() && bytes[at] != byte
        invariant
            from <= at <= bytes.len(),
            find_first(bytes@, byte, from as int) == find_first(bytes@, byte, at as int),
        decreases bytes.len() - at,
    {
        at += 1;
    }
    at
}

/// Gives the end of the content of the line `bytes[from..end]`: `end`, or
/// one less where the line ends in a carriage return.
fn content_end(bytes: &[u8], from: usize, end: usize) -> (stop: usize)
    requires
        from <= end <= bytes.len(),
    ensures
        from <= stop <= end,
        bytes@.subrange(from as int, stop as int) == without_cr(
            bytes@.subrange(from as int, end as int),
        ),
{
    if end > from && bytes[end - 1] == CR {
        assert(bytes@.subrange(from as int, end - 1) =~= bytes@.subrange(
            from as int,
            end as int,
        ).drop_last());
        end - 1
    } else {
        end
    }
}

proof fn lemma_digits_value_bounds(digits: Seq<u8>)
    requires
        all_digits(digits),
    ensures
        0 <= digits_value(digits),
    decreases digits.len(),
{
    if digits.len() > 0 {
        assert(is_digit(digits.last()));
        assert forall|i: int| 0 <= i < digits.drop_last().len() implies is_digit(
            #[trigger] digits.drop_last()[i],
        ) by {
            assert(digits.drop_last()[i] == digits[i]);
        }
        lemma_digits_value_bounds(digits.drop_last());
    }
}

proof fn lemma_digits_value_grows(digits: Seq<u8>, n: int)
    requires
        all_digits(digits),
        0 <= n <= digits.len(),
    ensures
        digits_value(digits.take(n)) <= digits_value(digits),
    decreases digits.len() - n,
{
    if n < digits.len() {
        lemma_digits_value_grows(digits, n + 1);
        assert(digits.take(n + 1).drop_last() =~= digits.take(n));
        assert(is_digit(digits[n]));
        assert forall|i: int| 0 <= i < digits.take(n).len() implies is_digit(
            #[trigger] digits.take(n)[i],
        ) by {
            assert(digits.take(n)[i] == digits[i]);
        }
        lemma_digits_value_bounds(digits.take(n));
    } else {
        assert(digits.take(n) =~= digits);
    }
}

/// Reads a response code: an optional sign, then decimal digits.
pub fn read_code(token: &[u8]) -> (code: Option<i32>)
    ensures
        code == parse_code(token@),
{
    let negative = token.len() > 0 && token[0] == MINUS;
    let signed = token.len() > 0 && (token[0] == MINUS || token[0] == PLUS);
    let first: usize = if signed {
        1
    } else {
        0
    };
    let ghost digits = if signed {
        token@.skip(1)
    } else {
        token@
    };
    assert(digits =~= token@.skip(first as int));
    if first == token.len() {
        return None;
    }
    let mut value: i64 = 0;
    let mut i: usize = first;
    assert(digits.take(0) =~= Seq::<u8>::empty());
    while i < token.len()
        invariant
            first <= i <= token.len(),
            first <= 1,
            negative == (token.len() > 0 && token[0] == MINUS),
            signed == (token.len() > 0 && (token[0] == MINUS || token[0] == PLUS)),
            digits == if signed {
                token@.skip(1)
            } else {
                token@
            },
            digits == token@.skip(first as int),
            all_digits(digits.take(i - first)),
            value == digits_value(digits.take(i - first)),
            0 <= value <= 0x8000_0000,
        decreases token.len() - i,
    {
        let byte = token[i];
        if byte < DIGIT_ZERO || byte > DIGIT_NINE {
            assert(!is_digit(digits[i - first]));
            return None;
        }
        let ghost shorter = digits.take(i - first);
        let ghost longer = digits.take(i - first + 1);
        proof {
            assert(longer.drop_last() =~= shorter);
            assert(longer.last() == byte);
            assert forall|k: int| 0 <= k < longer.len() implies is_digit(#[trigger] longer[k]) by {
                if k < shorter.len() {
                    assert(longer[k] == shorter[k]);
                }
            }
        }
        value = value * 10 + (byte - DIGIT_ZERO) as i64;
        if value > 0x8000_0000 {
            proof {
                if all_digits(digits) {
                    lemma_digits_value_grows(digits, i - first + 1);
                }
            }
            return None;
        }
        i += 1;
    }
    assert(digits.take(i - first) =~= digits);
    if negative {
        Some((-value) as i32)
    } else if value > 0x7fff_ffff {
        None
    } else {
        Some(value as i32)
    }
}

/// Gives the end of `text` without the colons at its end.
fn colons_start(text: &[u8]) -> (end: usize)
    ensures
        end <= text.len(),
        text@.take(end as int) == strip_colons(text@),
{
    let mut end = text.len();
    assert(text@.take(end as int) =~= text@);
    while end > 0 && text[end - 1] == COLON
        invariant
            end <= text.len(),
            strip_colons(text@) == strip_colons(text@.take(end as int)),
        decreases end,
    {
        assert(text@.take(end as int).drop_last() =~= text@.take(end - 1));
        end -= 1;
    }
    end
}

/// A header line as the parser hands it on.
struct HeaderLine {
    code: i32,
    text: String,
    multiline: bool,
}

fn read_header(line: &[u8]) -> (header: Result<HeaderLine, ReadError>)
    ensures
        match parse_header(line@) {
            Ok(expected) => header matches Ok(found) && found.code == expected.code && found.text@
                == decode_utf8(expected.text) && found.multiline == expected.multiline,
            Err(error) => header matches Err(found) && found == error,
        },
{
    let space = find(line, SPACE, 0);
    if space >= line.len() {
        return Err(ReadError::MalformedCodeLine);
    }
    let token = slice_subrange(line, 0, space);
    assert(token@ =~= line@.take(space as int));
    let code = match read_code(token) {
        Some(code) => code,
        None => { return Err(ReadError::MalformedCode); },
    };
    let rest = slice_subrange(line, space + 1, line.len());
    assert(rest@ =~= line@.skip(space + 1));
    let multiline = rest.len() > 0 && rest[rest.len() - 1] == COLON;
    let end = colons_start(rest);
    let bytes = slice_to_vec(slice_subrange(rest, 0, end));
    assert(bytes@ =~= strip_colons(rest@));
    match string_from_utf8(bytes) {
        Some(text) => Ok(HeaderLine { code, text, multiline }),
        None => Err(ReadError::MalformedText),
    }
}

/// Joins a payload read so far with what the rest of the buffer gives.
spec fn payload_after(so_far: Seq<u8>, rest: Option<(Seq<u8>, int)>) -> Option<(Seq<u8>, int)> {
    match rest {
        None => None,
        Some((more, end)) => Some((so_far + more, end)),
    }
}

fn read_payload(buf: &[u8], from: usize) -> (found: Option<(Vec<u8>, usize)>)
    requires
        from <= buf.len(),
    ensures
        match scan_payload(buf@, from as int) {
            None => found is None,
            Some((payload, end)) => found matches Some((bytes, stop)) && bytes@ == payload && stop
                == end && from < stop <= buf.len(),
        },
{
    let mut payload: Vec<u8> = Vec::new();
    let mut at = from;
    assert(payload_after(payload@, scan_payload(buf@, at as int)) =~= scan_payload(
        buf@,
        from as int,
    )) by {
        match scan_payload(buf@, at as int) {
            None => {},
            Some((more, end)) => {
                assert(payload@ + more =~= more);
            },
        }
    }
    loop
        invariant
            from <= at <= buf.len(),
            scan_payload(buf@, from as int) == payload_after(
                payload@,
                scan_payload(buf@, at as int),
            ),
        decreases buf.len() - at,
    {
        let end = find(buf, LF, at);
        if end >= buf.len() {
            return None;
        }
        let stop = content_end(buf, at, end);
        if stop == at {
            assert(line_at(buf@, at as int).len() == 0);
            assert(payload@ + Seq::<u8>::empty() =~= payload@);
            return Some((payload, end + 1));
        }
        let ghost before = payload@;
        let ghost line = line_at(buf@, at as int);
        payload.extend_from_slice(slice_subrange(buf, at, stop));
        payload.push(LF);
        proof {
            assert(payload@ =~= before + (line + seq![LF]));
            match scan_payload(buf@, end + 1) {
                None => {},
                Some((more, last)) => {
                    assert(before + (line + seq![LF] + more) =~= payload@ + more);
                },
            }
        }
        at = end + 1;
    }
}

/// Looks for the first response in `buf`. Blank lines before the header are
/// skipped; the line feed that closes the response is the last byte that
/// counts as consumed.
pub fn try_parse_response(buf: &[u8]) -> (outcome: Result<Option<(HyperDeckResponse, usize)>, ReadError>)
    ensures
        match parse_response(buf@) {
            Parsed::Incomplete => outcome matches Ok(None),
            Parsed::Malformed(error) => outcome matches Err(found) && found == error,
            Parsed::Response { response, consumed } => outcome matches Ok(Some((found, used)))
                && found@ == response && used == consumed && 0 < used <= buf.len(),
        },
{
    let mut start: usize = 0;
    let mut end: usize = 0;
    let mut stop: usize = 0;
    loop
        invariant
            start <= buf.len(),
            header_start(buf@, 0) == header_start(buf@, start as int),
        ensures
            start <= stop <= end < buf.len(),
            header_start(buf@, 0) == start,
            end == find_first(buf@, LF, start as int),
            buf@.subrange(start as int, stop as int) == line_at(buf@, start as int),
            start < stop,
        decreases buf.len() - start,
    {
        end = find(buf, LF, start);
        if end >= buf.len() {
            return Ok(None);
        }
        stop = content_end(buf, start, end);
        if stop > start {
            break;
        }
        start = end + 1;
    }
    let line = slice_subrange(buf, start, stop);
    let header = match read_header(line) {
        Ok(header) => header,
        Err(error) => { return Err(error); },
    };
    if !header.multiline {
        return Ok(
            Some((HyperDeckResponse { code: header.code, text: header.text, payload: None }, end + 1)),
        );
    }
    match read_payload(buf, end + 1) {
        None => Ok(None),
        Some((bytes, used)) => {
            if bytes.len() == 0 {
                Ok(
                    Some(
                        (
                            HyperDeckResponse { code: header.code, text: header.text, payload: None },
                            used,
                        ),
                    ),
                )
            } else {
                match string_from_utf8(bytes) {
                    Some(payload) => Ok(
                        Some(
                            (
                                HyperDeckResponse {
                                    code: header.code,
                                    text: header.text,
                                    payload: Some(payload),
                                },
                                used,
                            ),
                        ),
                    ),
                    None => Err(ReadError::MalformedText),
                }
            }
        },
    }
}

/// A response never takes up nothing, nor more than there is.
pub proof fn lemma_consumed_bounds(buf: Seq<u8>)
    ensures
        parse_response(buf) matches Parsed::Response { consumed, .. } ==> 0 < consumed <= buf.len(),
{
    lemma_header_start(buf, 0);
    let start = header_start(buf, 0);
    if has_line(buf, start) {
        lemma_find_first(buf, LF, start);
        lemma_scan_payload(buf, next_line(buf, start));
    }
}

proof fn lemma_header_start(buf: Seq<u8>, from: int)
    requires
        0 <= from <= buf.len(),
    ensures
        from <= header_start(buf, from) <= buf.len(),
    decreases buf.len() - from,
{
    if has_line(buf, from) && line_at(buf, from).len() == 0 {
        lemma_find_first(buf, LF, from);
        lemma_header_start(buf, next_line(buf, from));
    }
}

proof fn lemma_scan_payload(buf: Seq<u8>, from: int)
    requires
        0 <= from <= buf.len(),
    ensures
        scan_payload(buf, from) matches Some((_, end)) ==> from < end <= buf.len(),
    decreases buf.len() - from,
{
    if has_line(buf, from) {
        lemma_find_first(buf, LF, from);
        if line_at(buf, from).len() != 0 {
            lemma_scan_payload(buf, next_line(buf, from));
        }
    }
}

/// Number of bytes at the start of `buf` that asynchronous notifications
/// take up: what a reader that waits for the reply to a command passes
/// over.
pub open spec fn asynchronous_prefix(buf: Seq<u8>) -> int
    decreases buf.len(),
{
    match parse_response(buf) {
        Parsed::Response { response, consumed } => {
            if is_asynchronous(response.code) && 0 < consumed <= buf.len() {
                consumed + asynchronous_prefix(buf.skip(consumed))
            } else {
                0
            }
        },
        _ => 0,
    }
}

proof fn lemma_find_first_take<T>(items: Seq<T>, item: T, from: int, n: int)
    requires
        0 <= from <= n <= items.len(),
    ensures
        find_first(items.take(n), item, from) == if find_first(items, item, from) < n {
            find_first(items, item, from)
        } else {
            n
        },
    decreases n - from,
{
    if from < n {
        assert(items.take(n)[from] == items[from]);
        if items[from] != item {
            lemma_find_first_take(items, item, from + 1, n);
        }
    }
}

proof fn lemma_line_take(buf: Seq<u8>, from: int, n: int)
    requires
        0 <= from <= n <= buf.len(),
    ensures
        has_line(buf.take(n), from) == (has_line(buf, from) && next_line(buf, from) <= n),
        has_line(buf.take(n), from) ==> line_at(buf.take(n), from) == line_at(buf, from)
            && next_line(buf.take(n), from) == next_line(buf, from),
{
    lemma_find_first_take(buf, LF, from, n);
    lemma_find_first(buf, LF, from);
    if has_line(buf.take(n), from) {
        let end = find_first(buf, LF, from);
        assert(buf.take(n).subrange(from, end) =~= buf.subrange(from, end));
    }
}

proof fn lemma_header_start_take(buf: Seq<u8>, from: int, n: int)
    requires
        0 <= from <= n <= buf.len(),
    ensures
        ({
            let start = header_start(buf, from);
            if has_line(buf, start) && next_line(buf, start) <= n {
                header_start(buf.take(n), from) == start
            } else {
                !has_line(buf.take(n), header_start(buf.take(n), from))
            }
        }),
    decreases buf.len() - from,
{
    lemma_line_take(buf, from, n);
    lemma_find_first(buf, LF, from);
    if has_line(buf, from) && line_at(buf, from).len() == 0 {
        let next = next_line(buf, from);
        if next <= n {
            lemma_header_start_take(buf, next, n);
        } else {
            lemma_header_start(buf, next);
            lemma_find_first(buf, LF, header_start(buf, from));
        }
    }
}

proof fn lemma_scan_payload_take(buf: Seq<u8>, from: int, n: int)
    requires
        0 <= from <= n <= buf.len(),
    ensures
        match scan_payload(buf, from) {
            Some((payload, end)) => if end <= n {
                scan_payload(buf.take(n), from) == Some((payload, end))
            } else {
                scan_payload(buf.take(n), from) is None
            },
            None => scan_payload(buf.take(n), from) is None,
        },
    decreases buf.len() - from,
{
    lemma_line_take(buf, from, n);
    lemma_find_first(buf, LF, from);
    if has_line(buf, from) && line_at(buf, from).len() != 0 {
        let next = next_line(buf, from);
        if next <= n {
            lemma_scan_payload_take(buf, next, n);
        } else {
            lemma_scan_payload(buf, next);
        }
    }
}

/// Of a stream that starts with a response, every prefix either gives
/// that same response, taking up the same bytes, or asks for more: the
/// first where the prefix holds the whole response, the second where it
/// does not. A prefix never gives an error or another response.
pub proof fn lemma_prefix_of_response(stream: Seq<u8>, n: int)
    requires
        0 <= n <= stream.len(),
        parse_response(stream) is Response,
    ensures
        n >= parse_response(stream)->consumed ==> parse_response(stream.take(n))
            == parse_response(stream),
        n < parse_response(stream)->consumed ==> parse_response(stream.take(n))
            == Parsed::Incomplete,
{
    let start = header_start(stream, 0);
    lemma_header_start(stream, 0);
    lemma_header_start_take(stream, 0, n);
    lemma_find_first(stream, LF, start);
    let body = next_line(stream, start);
    if body <= n {
        lemma_line_take(stream, start, n);
        lemma_scan_payload_take(stream, body, n);
        lemma_scan_payload(stream, body);
    } else {
        lemma_scan_payload(stream, body);
    }
}

/// Bytes that arrive behind a response change nothing about it: a buffer
/// that gives a response gives the same one, taking up the same bytes,
/// whatever follows.
pub proof fn lemma_response_is_stable(buf: Seq<u8>, more: Seq<u8>)
    requires
        parse_response(buf) is Response,
    ensures
        parse_response(buf + more) == parse_response(buf),
{
    let long = buf + more;
    let n = buf.len() as int;
    assert(long.take(n) =~= buf);
    let start = header_start(buf, 0);
    lemma_header_start(long, 0);
    lemma_header_start_take(long, 0, n);
    let long_start = header_start(long, 0);
    lemma_find_first(long, LF, long_start);
    assert(has_line(long, long_start) && next_line(long, long_start) <= n);
    lemma_line_take(long, long_start, n);
    lemma_scan_payload_take(long, next_line(long, long_start), n);
}

/// What the socket gave when the runtime asked it for more bytes.
#[derive(Debug, PartialEq, Eq)]
pub enum ReadEvent {
    /// Bytes came in. No bytes at all mean the end of the stream.
    Data(Vec<u8>),
    /// The device closed the connection.
    Eof,
    /// Nothing is there yet.
    NotReady,
    /// The socket reported an error.
    Failed,
    /// Nothing came within the read timeout.
    TimedOut,
}

/// The client's side of one connection to a HyperDeck: the bytes that came
/// in and are not yet accounted for.
#[derive(Debug)]
pub struct HyperDeck {
    read_buffer: Vec<u8>,
}

impl View for HyperDeck {
    type V = Seq<u8>;

    /// The bytes received and not yet consumed.
    closed spec fn view(&self) -> Seq<u8> {
        self.read_buffer@
    }
}

/// How `read_response` answers on a buffer, and what it leaves of it.
pub open spec fn read_outcome(
    before: Seq<u8>,
    outcome: Result<Option<HyperDeckResponse>, ReadError>,
    after: Seq<u8>,
) -> bool {
    match parse_response(before) {
        Parsed::Incomplete => outcome matches Ok(None) && after == before,
        Parsed::Malformed(error) => outcome matches Err(found) && found == error && after
            == before,
        Parsed::Response { response, consumed } => outcome matches Ok(Some(found)) && found@
            == response && after == before.skip(consumed),
    }
}

impl HyperDeck {
    /// The client for a connection that has just been opened: nothing has
    /// been received yet. Opening the socket, within
    /// [`CONNECT_TIMEOUT_MS`], is the runtime's part.
    pub fn connect() -> (client: Self)
        ensures
            client@ == Seq::<u8>::empty(),
    {
        HyperDeck { read_buffer: Vec::new() }
    }

    /// The bytes received and not yet consumed.
    pub fn buffered(&self) -> (bytes: &Vec<u8>)
        ensures
            bytes@ == self@,
    {
        &self.read_buffer
    }

    /// Frames a command for the wire: the command and a line feed. What has
    /// been received stays as it is.
    pub fn write_command(&self, cmd: String) -> (line: String)
        ensures
            line@ == cmd@ + seq!['\n'],
    {
        proof {
            reveal_strlit("\n");
        }
        let line = cmd.concat("\n");
        assert(line@ =~= cmd@ + seq!['\n']);
        line
    }

    /// Takes in bytes that the socket delivered.
    pub fn receive(&mut self, chunk: &[u8])
        ensures
            final(self)@ == old(self)@ + chunk@,
    {
        self.read_buffer.extend_from_slice(chunk);
    }

    /// Reads the next response, asynchronous notifications included, from
    /// what has been received. `Ok(None)` asks for more bytes and leaves
    /// the buffer alone, as does an error; a response takes exactly its own
    /// bytes out of the buffer.
    pub fn read_response(&mut self) -> (outcome: Result<Option<HyperDeckResponse>, ReadError>)
        ensures
            read_outcome(old(self)@, outcome, final(self)@),
    {
        match try_parse_response(self.read_buffer.as_slice()) {
            Err(error) => Err(error),
            Ok(None) => Ok(None),
            Ok(Some((response, used))) => {
                let rest = self.read_buffer.split_off(used);
                assert(rest@ =~= old(self)@.skip(used as int));
                self.read_buffer = rest;
                Ok(Some(response))
            },
        }
    }

    /// Reads the reply to a command: takes responses out of the buffer and
    /// discards them as long as they are asynchronous notifications, and
    /// answers with the first response that is none.
    pub fn read_command_response(&mut self) -> (outcome: Result<
        Option<HyperDeckResponse>,
        ReadError,
    >)
        ensures
            read_outcome(
                old(self)@.skip(asynchronous_prefix(old(self)@)),
                outcome,
                final(self)@,
            ),
            outcome matches Ok(Some(response)) ==> !is_asynchronous(response.code),
    {
        let ghost mut passed: int = 0;
        proof {
            assert(old(self)@.skip(0) =~= old(self)@);
        }
        loop
            invariant
                0 <= passed <= old(self)@.len(),
                self@ == old(self)@.skip(passed),
                asynchronous_prefix(old(self)@) == passed + asynchronous_prefix(self@),
            decreases self@.len(),
        {
            let ghost before = self@;
            proof {
                lemma_consumed_bounds(before);
            }
            let outcome = self.read_response();
            match outcome {
                Ok(Some(response)) => {
                    if 500 <= response.code && response.code < 600 {
                        proof {
                            let consumed = parse_response(before)->consumed;
                            assert(self@ =~= old(self)@.skip(passed + consumed));
                            passed = passed + consumed;
                        }
                    } else {
                        proof {
                            assert(old(self)@.skip(passed) == before);
                        }
                        return Ok(Some(response));
                    }
                },
                Ok(None) => {
                    return Ok(None);
                },
                Err(error) => {
                    return Err(error);
                },
            }
        }
    }

    /// Goes on after the socket was asked for more bytes. Bytes are taken in
    /// and the buffer is looked at again; the end of the stream, an error
    /// and a timeout end the read; and where nothing is there yet, the read
    /// stays pending.
    pub fn poll(&mut self, event: &ReadEvent) -> (outcome: Result<
        Option<HyperDeckResponse>,
        ReadError,
    >)
        ensures
            match *event {
                ReadEvent::Data(chunk) => if chunk@.len() == 0 {
                    outcome matches Err(ReadError::UnexpectedEof) && final(self)@ == old(self)@
                } else {
                    read_outcome(old(self)@ + chunk@, outcome, final(self)@)
                },
                ReadEvent::Eof => outcome matches Err(ReadError::UnexpectedEof) && final(self)@
                    == old(self)@,
                ReadEvent::NotReady => outcome matches Ok(None) && final(self)@ == old(self)@,
                ReadEvent::Failed => outcome matches Err(ReadError::ReadFailed) && final(self)@
                    == old(self)@,
                ReadEvent::TimedOut => outcome matches Err(ReadError::TimedOut) && final(self)@
                    == old(self)@,
            },
    {
        match event {
            ReadEvent::Data(chunk) => {
                if chunk.len() == 0 {
                    Err(ReadError::UnexpectedEof)
                } else {
                    self.receive(chunk.as_slice());
                    self.read_response()
                }
            },
            ReadEvent::Eof => Err(ReadError::UnexpectedEof),
            ReadEvent::NotReady => Ok(None),
            ReadEvent::Failed => Err(ReadError::ReadFailed),
            ReadEvent::TimedOut => Err(ReadError::TimedOut),
        }
    }

    /// Goes on with reading the reply to a command after the socket was
    /// asked for more bytes: as [`HyperDeck::poll`], but asynchronous
    /// notifications are passed over.
    pub fn poll_command_response(&mut self, event: &ReadEvent) -> (outcome: Result<
        Option<HyperDeckResponse>,
        ReadError,
    >)
        ensures
            match *event {
                ReadEvent::Data(chunk) => if chunk@.len() == 0 {
                    outcome matches Err(ReadError::UnexpectedEof) && final(self)@ == old(self)@
                } else {
                    read_outcome(
                        (old(self)@ + chunk@).skip(asynchronous_prefix(old(self)@ + chunk@)),
                        outcome,
                        final(self)@,
                    )
                },
                ReadEvent::Eof => outcome matches Err(ReadError::UnexpectedEof) && final(self)@
                    == old(self)@,
                ReadEvent::NotReady => outcome matches Ok(None) && final(self)@ == old(self)@,
                ReadEvent::Failed => outcome matches Err(ReadError::ReadFailed) && final(self)@
                    == old(self)@,
                ReadEvent::TimedOut => outcome matches Err(ReadError::TimedOut) && final(self)@
                    == old(self)@,
            },
            outcome matches Ok(Some(response)) ==> !is_asynchronous(response.code),
    {
        match event {
            ReadEvent::Data(chunk) => {
                if chunk.len() == 0 {
                    Err(ReadError::UnexpectedEof)
                } else {
                    self.receive(chunk.as_slice());
                    self.read_command_response()
                }
            },
            ReadEvent::Eof => Err(ReadError::UnexpectedEof),
            ReadEvent::NotReady => Ok(None),
            ReadEvent::Failed => Err(ReadError::ReadFailed),
            ReadEvent::TimedOut => Err(ReadError::TimedOut),
        }
    }
}

} // verus!
