use blackmagic_c2::agent::hyperdeck::{
    try_parse_response, HyperDeck, HyperDeckResponse, ReadError, ReadEvent, DEFAULT_PORT,
};
use blackmagic_c2::agent::parameters::{read_parameters, MalformedParameters};

fn client_with(bytes: &[u8]) -> HyperDeck {
    let mut hyperdeck = HyperDeck::connect();
    hyperdeck.receive(bytes);
    hyperdeck
}

#[test]
fn hyperdeck_read_command_response() {
    let mut hyperdeck = client_with(b"500 init\n200 hello\n");
    let result = hyperdeck.read_command_response().unwrap().unwrap();
    assert_eq!(200, result.code);
    assert_eq!("hello", result.text);
}

#[test]
fn hyperdeck_read_response() {
    let mut hyperdeck = client_with(b"200 hello:\nfoo\n\n");
    let result = hyperdeck.read_response().unwrap().unwrap();
    assert_eq!(200, result.code);
    assert_eq!("hello", result.text);
    assert_eq!("foo\n", result.payload.unwrap());
}

#[test]
fn default_port_is_9993() {
    assert_eq!(DEFAULT_PORT, 9993);
}

#[test]
fn read_response_rejects_malformed_header() {
    let mut hyperdeck = client_with(b"foo bar\n");
    assert_eq!(hyperdeck.read_response(), Err(ReadError::MalformedCode));
    assert_eq!(hyperdeck.buffered().as_slice(), b"foo bar\n");
}

#[test]
fn read_response_rejects_line_without_space() {
    let mut hyperdeck = client_with(b"200\n");
    assert_eq!(hyperdeck.read_response(), Err(ReadError::MalformedCodeLine));
}

#[test]
fn read_response_rejects_code_out_of_range() {
    let mut hyperdeck = client_with(b"2147483648 too big\n");
    assert_eq!(hyperdeck.read_response(), Err(ReadError::MalformedCode));
    let mut hyperdeck = client_with(b"99999999999999999999999999 far too big\n");
    assert_eq!(hyperdeck.read_response(), Err(ReadError::MalformedCode));
    let mut hyperdeck = client_with(b"- nothing\n");
    assert_eq!(hyperdeck.read_response(), Err(ReadError::MalformedCode));
}

#[test]
fn read_response_takes_signed_codes() {
    let mut hyperdeck = client_with(b"+200 plus\n-2147483648 minus\n2147483647 max\n007 zeros\n");
    assert_eq!(hyperdeck.read_response().unwrap().unwrap().code, 200);
    assert_eq!(hyperdeck.read_response().unwrap().unwrap().code, -2147483648);
    assert_eq!(hyperdeck.read_response().unwrap().unwrap().code, 2147483647);
    assert_eq!(hyperdeck.read_response().unwrap().unwrap().code, 7);
    assert_eq!(hyperdeck.read_response(), Ok(None));
}

#[test]
fn read_response_rejects_text_that_is_not_utf8() {
    let mut hyperdeck = client_with(b"200 \xff\xfe\n");
    assert_eq!(hyperdeck.read_response(), Err(ReadError::MalformedText));
    let mut hyperdeck = client_with(b"200 ok:\n\xc3\x28\n\n");
    assert_eq!(hyperdeck.read_response(), Err(ReadError::MalformedText));
}

#[test]
fn read_response_decodes_utf8() {
    let mut hyperdeck = client_with("200 gr\u{fc}\u{df}e:\nname: \u{65e5}\u{672c}\n\n".as_bytes());
    let response = hyperdeck.read_response().unwrap().unwrap();
    assert_eq!(response.text, "gr\u{fc}\u{df}e");
    assert_eq!(response.payload.unwrap(), "name: \u{65e5}\u{672c}\n");
}

#[test]
fn read_response_asks_for_more_on_every_proper_prefix() {
    let stream: &[u8] = b"200 device info:\nmodel: HyperDeck Studio\nunique id: ABC\n\n208 ok\n";
    let first = 57;
    for n in 0..stream.len() + 1 {
        let mut hyperdeck = client_with(&stream[..n]);
        let outcome = hyperdeck.read_response().unwrap();
        if n < first {
            assert_eq!(outcome, None);
            assert_eq!(hyperdeck.buffered().as_slice(), &stream[..n]);
        } else {
            let response = outcome.unwrap();
            assert_eq!(response.code, 200);
            assert_eq!(response.text, "device info");
            assert_eq!(
                response.payload.unwrap(),
                "model: HyperDeck Studio\nunique id: ABC\n"
            );
            assert_eq!(hyperdeck.buffered().as_slice(), &stream[first..n]);
        }
    }
}

#[test]
fn read_response_is_restartable() {
    let mut hyperdeck = client_with(b"200 one\n201 two:\na\nb\n\n202 three\n20");
    assert_eq!(hyperdeck.read_response().unwrap().unwrap().text, "one");
    let two = hyperdeck.read_response().unwrap().unwrap();
    assert_eq!(two.text, "two");
    assert_eq!(two.payload.unwrap(), "a\nb\n");
    assert_eq!(hyperdeck.read_response().unwrap().unwrap().text, "three");
    assert_eq!(hyperdeck.read_response(), Ok(None));
    assert_eq!(hyperdeck.buffered().as_slice(), b"20");
    hyperdeck.receive(b"3 four\n");
    let four = hyperdeck.read_response().unwrap().unwrap();
    assert_eq!((four.code, four.text.as_str()), (203, "four"));
    assert!(hyperdeck.buffered().is_empty());
}

#[test]
fn read_response_drops_carriage_returns_and_skips_blank_lines() {
    let mut hyperdeck = client_with(b"\r\n\n200 hello:\r\nfoo: bar\r\n\r\n100 next\r\n");
    let response = hyperdeck.read_response().unwrap().unwrap();
    assert_eq!(response.text, "hello");
    assert_eq!(response.payload.unwrap(), "foo: bar\n");
    let next = hyperdeck.read_response().unwrap().unwrap();
    assert_eq!((next.code, next.text.as_str()), (100, "next"));
}

#[test]
fn header_text_loses_all_trailing_colons_and_empty_payload_is_none() {
    let mut hyperdeck = client_with(b"200 hello:::\n\n200 \n");
    let response = hyperdeck.read_response().unwrap().unwrap();
    assert_eq!(response.text, "hello");
    assert_eq!(response.payload, None);
    let empty = hyperdeck.read_response().unwrap().unwrap();
    assert_eq!(empty.text, "");
    assert_eq!(empty.payload, None);
}

#[test]
fn try_parse_response_counts_the_bytes_of_the_response() {
    let (response, used) = try_parse_response(b"200 ok\nrest").unwrap().unwrap();
    assert_eq!(response.text, "ok");
    assert_eq!(used, 7);
    assert_eq!(try_parse_response(b"200 ok"), Ok(None));
    assert_eq!(try_parse_response(b""), Ok(None));
}

#[test]
fn proxied_command_reads_past_the_asynchronous_greeting() {
    let mut hyperdeck = HyperDeck::connect();
    assert_eq!(hyperdeck.write_command("device info".to_string()), "device info\n");
    assert_eq!(hyperdeck.read_command_response(), Ok(None));
    hyperdeck.receive(
        b"500 init\n200 device info:\nmodel: HyperDeck Studio\nprotocol version: 1.11\nunique id: ABC\n\n",
    );
    let response = hyperdeck.read_command_response().unwrap().unwrap();
    assert_eq!(response.code, 200);
    assert_eq!(response.text, "device info");
    assert_eq!(
        response.payload.as_deref(),
        Some("model: HyperDeck Studio\nprotocol version: 1.11\nunique id: ABC\n")
    );
    assert!(hyperdeck.buffered().is_empty());
}

#[test]
fn poll_gives_the_asynchronous_greeting_first() {
    let mut hyperdeck = HyperDeck::connect();
    let first = hyperdeck.poll(&ReadEvent::Data(b"500 init\n200 hello\n".to_vec()));
    assert_eq!(first.unwrap().unwrap().code, 500);
    assert_eq!(hyperdeck.read_response().unwrap().unwrap().code, 200);
}

#[test]
fn read_command_response_discards_every_5xx_and_only_those() {
    let mut hyperdeck = client_with(b"500 a\n599 b:\nx: y\n\n600 c\n502 d\n");
    let response = hyperdeck.read_command_response().unwrap().unwrap();
    assert_eq!(response.code, 600);
    assert_eq!(hyperdeck.buffered().as_slice(), b"502 d\n");
    assert_eq!(hyperdeck.read_command_response(), Ok(None));
    assert!(hyperdeck.buffered().is_empty());
    let mut hyperdeck = client_with(b"499 edge\n");
    assert_eq!(hyperdeck.read_command_response().unwrap().unwrap().code, 499);
}

#[test]
fn read_command_response_stops_at_a_malformed_response() {
    let mut hyperdeck = client_with(b"500 a\nbogus\n");
    assert_eq!(hyperdeck.read_command_response(), Err(ReadError::MalformedCodeLine));
    assert_eq!(hyperdeck.buffered().as_slice(), b"bogus\n");
}

#[test]
fn poll_ends_the_read_on_eof_error_and_timeout() {
    let mut hyperdeck = client_with(b"200 par");
    assert_eq!(hyperdeck.poll(&ReadEvent::NotReady), Ok(None));
    assert_eq!(hyperdeck.poll(&ReadEvent::Eof), Err(ReadError::UnexpectedEof));
    assert_eq!(hyperdeck.poll(&ReadEvent::Data(Vec::new())), Err(ReadError::UnexpectedEof));
    assert_eq!(hyperdeck.poll(&ReadEvent::Failed), Err(ReadError::ReadFailed));
    assert_eq!(hyperdeck.poll(&ReadEvent::TimedOut), Err(ReadError::TimedOut));
    assert_eq!(hyperdeck.buffered().as_slice(), b"200 par");
    let response = hyperdeck.poll(&ReadEvent::Data(b"tial\n".to_vec())).unwrap().unwrap();
    assert_eq!(response.text, "partial");
}

#[test]
fn read_error_descriptions() {
    assert_eq!(ReadError::MalformedCodeLine.description(), "malformed response code line");
    assert_eq!(ReadError::MalformedCode.description(), "malformed response code");
    assert_eq!(ReadError::MalformedText.description(), "malformed response");
    assert_eq!(ReadError::UnexpectedEof.description(), "unexpected eof");
    assert_eq!(ReadError::ReadFailed.description(), "read error");
    assert_eq!(ReadError::TimedOut.description(), "deadline has elapsed");
}

#[test]
fn payload_parameters_are_trimmed_and_the_last_one_wins() {
    let response = HyperDeckResponse {
        code: 200,
        text: "device info".to_string(),
        payload: Some(
            "model: HyperDeck Studio\r\n  protocol version :1.11  \nunique id: A:B\nmodel:\u{a0}Mini\u{3000}"
                .to_string(),
        ),
    };
    let parameters = response.parse_payload_parameters().unwrap();
    assert_eq!(parameters.len(), 3);
    assert_eq!(parameters.get("model").map(String::as_str), Some("Mini"));
    assert_eq!(parameters.get("protocol version").map(String::as_str), Some("1.11"));
    assert_eq!(parameters.get("unique id").map(String::as_str), Some("A:B"));
    assert_eq!(parameters.get("missing"), None);
    assert_eq!(parameters.get_or_empty("missing"), "");
    assert_eq!(parameters.get_or_empty("model"), "Mini");
}

#[test]
fn repeated_key_stands_once_with_its_later_value() {
    let response = HyperDeckResponse {
        code: 200,
        text: "x".to_string(),
        payload: Some(" a :  1 \nb: x:y\na: 2\n".to_string()),
    };
    let parameters = response.parse_payload_parameters().unwrap();
    assert_eq!(parameters.len(), 2);
    assert_eq!(parameters.get("a").map(String::as_str), Some("2"));
    assert_eq!(parameters.get("b").map(String::as_str), Some("x:y"));
    let mut parameters = read_parameters("k: 1\nk: 2\nk: 3").unwrap();
    assert_eq!(parameters.len(), 1);
    assert_eq!(parameters.get_or_empty("k"), "3");
    parameters.insert("k".to_string(), "4".to_string());
    parameters.insert("l".to_string(), String::new());
    assert_eq!(parameters.len(), 2);
    assert_eq!(parameters.get_or_empty("k"), "4");
    assert_eq!(parameters.get("l").map(String::as_str), Some(""));
}

#[test]
fn payload_parameters_need_a_colon_on_every_line() {
    let response = HyperDeckResponse {
        code: 200,
        text: "x".to_string(),
        payload: Some("a: b\nno colon here\n".to_string()),
    };
    assert_eq!(response.parse_payload_parameters().err(), Some(MalformedParameters {}));
    assert_eq!(read_parameters("\n").err(), Some(MalformedParameters {}));
}

#[test]
fn response_without_payload_has_no_parameters() {
    let response = HyperDeckResponse { code: 200, text: "ok".to_string(), payload: None };
    assert_eq!(response.parse_payload_parameters().unwrap().len(), 0);
    assert_eq!(read_parameters("").unwrap().len(), 0);
}
