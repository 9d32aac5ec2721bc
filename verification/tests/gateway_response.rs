use xunlei::gateway::response::{
    parse_cgi_output, parse_header_line, CgiError, HeaderLine, ResponseHead,
};

fn pair(name: &str, value: &str) -> (String, String) {
    (name.to_string(), value.to_string())
}

#[test]
fn status_headers_and_body_are_read() {
    let response =
        match parse_cgi_output(b"Status: 404 Not Found\nX-Custom: 1\n\nbody-bytes") {
            Ok(r) => r,
            Err(_) => panic!("well-formed output"),
        };
    assert_eq!(response.status_code, 404);
    assert_eq!(response.headers, vec![pair("X-Custom", "1")]);
    assert_eq!(response.body, b"body-bytes");
}

#[test]
fn status_defaults_to_200() {
    let response = match parse_cgi_output(b"Content-Type: text/html\n\n<html></html>") {
        Ok(r) => r,
        Err(_) => panic!("well-formed output"),
    };
    assert_eq!(response.status_code, 200);
    assert_eq!(response.headers, vec![pair("Content-Type", "text/html")]);
    assert_eq!(response.body, b"<html></html>");
}

#[test]
fn empty_output_is_an_empty_response() {
    let response = match parse_cgi_output(b"") {
        Ok(r) => r,
        Err(_) => panic!("empty output"),
    };
    assert_eq!(response.status_code, 200);
    assert!(response.headers.is_empty());
    assert!(response.body.is_empty());
}

#[test]
fn body_starts_right_behind_the_first_empty_line() {
    let response = match parse_cgi_output(b"\n\n\nA: b\n\nrest") {
        Ok(r) => r,
        Err(_) => panic!("well-formed output"),
    };
    assert!(response.headers.is_empty());
    assert_eq!(response.body, b"\n\nA: b\n\nrest");
}

#[test]
fn body_bytes_are_not_touched() {
    let mut output = b"X: y\r\n\r\n".to_vec();
    let body: Vec<u8> = vec![0, 255, 13, 10, 13, 10, 128, 10, 0];
    output.extend_from_slice(&body);
    let response = match parse_cgi_output(&output) {
        Ok(r) => r,
        Err(_) => panic!("well-formed output"),
    };
    assert_eq!(response.headers, vec![pair("X", "y")]);
    assert_eq!(response.body, body);
}

#[test]
fn carriage_return_belongs_to_the_line_end() {
    let response =
        match parse_cgi_output(b"Status: 201 Created\r\nLocation: /x\r\n\r\nok") {
            Ok(r) => r,
            Err(_) => panic!("well-formed output"),
        };
    assert_eq!(response.status_code, 201);
    assert_eq!(response.headers, vec![pair("Location", "/x")]);
    assert_eq!(response.body, b"ok");
}

#[test]
fn output_without_empty_line_is_all_headers() {
    let response = match parse_cgi_output(b"Status: 204\nX-A: 1\nX-B: 2") {
        Ok(r) => r,
        Err(_) => panic!("well-formed output"),
    };
    assert_eq!(response.status_code, 204);
    assert_eq!(response.headers, vec![pair("X-A", "1"), pair("X-B", "2")]);
    assert!(response.body.is_empty());
}

#[test]
fn last_line_without_line_feed_keeps_its_carriage_return() {
    let response = match parse_cgi_output(b"X-A: 1\r") {
        Ok(r) => r,
        Err(_) => panic!("well-formed output"),
    };
    assert_eq!(response.headers, vec![pair("X-A", "1\r")]);
}

#[test]
fn later_status_line_wins_and_is_no_header() {
    let response = match parse_cgi_output(b"Status: 301\nA: 1\nStatus: 302 Found\n\n") {
        Ok(r) => r,
        Err(_) => panic!("well-formed output"),
    };
    assert_eq!(response.status_code, 302);
    assert_eq!(response.headers, vec![pair("A", "1")]);
}

#[test]
fn header_value_starts_one_character_behind_the_colon() {
    let response = match parse_cgi_output(b"A:b\nB:  c\nC: d:e\nD: \n\n") {
        Ok(r) => r,
        Err(_) => panic!("well-formed output"),
    };
    assert_eq!(
        response.headers,
        vec![pair("A", ""), pair("B", " c"), pair("C", "d:e"), pair("D", "")]
    );
}

#[test]
fn header_text_beyond_ascii_is_decoded() {
    let response = match parse_cgi_output("X-Name: caf\u{e9} \u{4e2d}\u{6587}\n\n".as_bytes()) {
        Ok(r) => r,
        Err(_) => panic!("well-formed output"),
    };
    assert_eq!(response.headers, vec![pair("X-Name", "caf\u{e9} \u{4e2d}\u{6587}")]);
}

#[test]
fn header_line_that_is_not_utf8_is_refused() {
    assert!(matches!(
        parse_cgi_output(b"X-A: \xff\xfe\n\nbody"),
        Err(CgiError::InvalidUtf8)
    ));
    assert!(matches!(
        parse_cgi_output(b"A: 1\n\xc3\n\n"),
        Err(CgiError::InvalidUtf8)
    ));
}

#[test]
fn bytes_that_are_not_utf8_are_fine_in_the_body() {
    let response = match parse_cgi_output(b"A: 1\n\n\xff\xfe") {
        Ok(r) => r,
        Err(_) => panic!("well-formed output"),
    };
    assert_eq!(response.body, b"\xff\xfe");
}

#[test]
fn header_line_without_colon_is_refused() {
    assert!(matches!(
        parse_cgi_output(b"no colon here\n\n"),
        Err(CgiError::MissingColon)
    ));
    assert!(matches!(
        parse_cgi_output(b"A: 1\n \n\n"),
        Err(CgiError::MissingColon)
    ));
}

#[test]
fn header_line_that_ends_with_its_colon_is_refused() {
    assert!(matches!(
        parse_cgi_output(b"A:\n\n"),
        Err(CgiError::MissingValue)
    ));
    assert!(matches!(
        parse_cgi_output(b"Status:\n\n"),
        Err(CgiError::MissingValue)
    ));
}

#[test]
fn status_that_is_no_number_is_refused() {
    for output in [
        &b"Status: abc\n\n"[..],
        &b"Status: 20\n\n"[..],
        &b"Status: \n\n"[..],
        &b"Status: 2 0\n\n"[..],
        &b"Status:200\n\n"[..],
        &b"Status: -20\n\n"[..],
        &b"Status:  200\n\n"[..],
    ] {
        assert!(matches!(
            parse_cgi_output(output),
            Err(CgiError::InvalidStatus)
        ));
    }
}

#[test]
fn status_is_read_from_three_characters() {
    let cases: [(&[u8], u16); 5] = [
        (b"Status: 200\n\n", 200),
        (b"Status: 5000\n\n", 500),
        (b"Status: 404Not Found\n\n", 404),
        (b"Status: +40\n\n", 40),
        (b"Status: 007\n\n", 7),
    ];
    for (output, expected) in cases {
        match parse_cgi_output(output) {
            Ok(r) => assert_eq!(r.status_code, expected),
            Err(_) => panic!("status is a number"),
        }
    }
}

#[test]
fn status_name_is_matched_exactly() {
    let response = match parse_cgi_output(b"status: 404\nSTATUS: 500\n\n") {
        Ok(r) => r,
        Err(_) => panic!("well-formed output"),
    };
    assert_eq!(response.status_code, 200);
    assert_eq!(
        response.headers,
        vec![pair("status", "404"), pair("STATUS", "500")]
    );
}

#[test]
fn first_malformed_line_decides_the_error() {
    assert!(matches!(
        parse_cgi_output(b"Status: xyz\nno colon\n\n"),
        Err(CgiError::InvalidStatus)
    ));
    assert!(matches!(
        parse_cgi_output(b"no colon\nStatus: xyz\n\n"),
        Err(CgiError::MissingColon)
    ));
}

#[test]
fn malformed_line_behind_the_empty_line_is_body() {
    let response = match parse_cgi_output(b"A: 1\n\nno colon\nStatus: xyz\n") {
        Ok(r) => r,
        Err(_) => panic!("well-formed output"),
    };
    assert_eq!(response.body, b"no colon\nStatus: xyz\n");
}

#[test]
fn single_lines_are_read() {
    assert!(matches!(
        parse_header_line("Status: 404 Not Found"),
        Ok(HeaderLine::Status(404))
    ));
    match parse_header_line("X-Custom: 1") {
        Ok(HeaderLine::Field(name, value)) => {
            assert_eq!(name, "X-Custom");
            assert_eq!(value, "1");
        }
        _ => panic!("a header"),
    }
    match parse_header_line(": x") {
        Ok(HeaderLine::Field(name, value)) => {
            assert_eq!(name, "");
            assert_eq!(value, "x");
        }
        _ => panic!("a header"),
    }
    match parse_header_line("A:\u{e9}b") {
        Ok(HeaderLine::Field(name, value)) => {
            assert_eq!(name, "A");
            assert_eq!(value, "b");
        }
        _ => panic!("a header"),
    }
    assert!(matches!(parse_header_line(""), Err(CgiError::MissingColon)));
    assert!(matches!(parse_header_line(":"), Err(CgiError::MissingValue)));
}

#[test]
fn head_takes_lines_until_the_empty_one() {
    let mut head = ResponseHead::new();
    assert_eq!(head.status_code, 200);
    assert!(head.headers.is_empty());
    assert_eq!(head.accept("Status: 404 Not Found"), Ok(true));
    assert_eq!(head.accept("X-Custom: 1"), Ok(true));
    assert_eq!(head.accept(""), Ok(false));
    assert_eq!(head.status_code, 404);
    assert_eq!(head.headers, vec![pair("X-Custom", "1")]);
}

#[test]
fn head_is_unchanged_by_a_refused_line() {
    let mut head = ResponseHead::new();
    assert_eq!(head.accept("A: 1"), Ok(true));
    assert_eq!(head.accept("broken"), Err(CgiError::MissingColon));
    assert_eq!(head.accept("Status: x"), Err(CgiError::InvalidStatus));
    assert_eq!(head.status_code, 200);
    assert_eq!(head.headers, vec![pair("A", "1")]);
}

#[test]
fn bytes_and_lines_give_the_same_head() {
    let output = "Status: 418 teapot\r\nA: 1\r\nB: caf\u{e9}\r\n\r\nbody\n";
    let whole = match parse_cgi_output(output.as_bytes()) {
        Ok(r) => r,
        Err(_) => panic!("well-formed output"),
    };
    let mut head = ResponseHead::new();
    for line in std::io::BufRead::lines(output.as_bytes()) {
        let line = line.unwrap();
        match head.accept(&line) {
            Ok(true) => {}
            Ok(false) => break,
            Err(_) => panic!("well-formed output"),
        }
    }
    assert_eq!(whole.status_code, head.status_code);
    assert_eq!(whole.headers, head.headers);
    assert_eq!(whole.body, b"body\n");
}
