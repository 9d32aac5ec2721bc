use xunlei::config::{parser_port_in_range, port_error_message, Config, PortError};
use xunlei::decimal::decimal_string;

#[test]
fn port_in_range_is_accepted() {
    assert_eq!(parser_port_in_range("5055"), Ok(5055));
    assert_eq!(parser_port_in_range("1024"), Ok(1024));
    assert_eq!(parser_port_in_range("65535"), Ok(65535));
}

#[test]
fn port_out_of_range_is_refused() {
    assert_eq!(parser_port_in_range("1023"), Err(PortError::OutOfRange));
    assert_eq!(parser_port_in_range("65536"), Err(PortError::OutOfRange));
    assert_eq!(parser_port_in_range("0"), Err(PortError::OutOfRange));
    assert_eq!(parser_port_in_range("80"), Err(PortError::OutOfRange));
}

#[test]
fn port_text_that_is_no_number_is_refused() {
    assert_eq!(parser_port_in_range(""), Err(PortError::NotANumber));
    assert_eq!(parser_port_in_range("abc"), Err(PortError::NotANumber));
    assert_eq!(parser_port_in_range("-5055"), Err(PortError::NotANumber));
    assert_eq!(parser_port_in_range(" 5055"), Err(PortError::NotANumber));
    assert_eq!(parser_port_in_range("5055 "), Err(PortError::NotANumber));
    assert_eq!(parser_port_in_range("50_55"), Err(PortError::NotANumber));
    assert_eq!(parser_port_in_range("+"), Err(PortError::NotANumber));
    assert_eq!(parser_port_in_range("++5055"), Err(PortError::NotANumber));
    assert_eq!(parser_port_in_range("5055.0"), Err(PortError::NotANumber));
    assert_eq!(parser_port_in_range("0x1400"), Err(PortError::NotANumber));
}

#[test]
fn port_text_with_sign_or_leading_zeros_is_read() {
    assert_eq!(parser_port_in_range("+5055"), Ok(5055));
    assert_eq!(parser_port_in_range("0005055"), Ok(5055));
    assert_eq!(parser_port_in_range("+0"), Err(PortError::OutOfRange));
    assert_eq!(
        parser_port_in_range("000000000000000000000000000000000000008080"),
        Ok(8080)
    );
}

#[test]
fn port_text_beyond_the_machine_word_is_no_number() {
    assert_eq!(
        parser_port_in_range("340282366920938463463374607431768211456"),
        Err(PortError::NotANumber)
    );
    let max = usize::MAX.to_string();
    assert_eq!(parser_port_in_range(&max), Err(PortError::OutOfRange));
    let beyond = format!("{}0", usize::MAX);
    assert_eq!(parser_port_in_range(&beyond), Err(PortError::NotANumber));
}

#[test]
fn every_number_up_to_seventy_thousand_is_judged_by_the_range() {
    let mut p: usize = 0;
    while p <= 70000 {
        let text = p.to_string();
        let got = parser_port_in_range(&text);
        if (1024..=65535).contains(&p) {
            assert_eq!(got, Ok(p as u16));
        } else {
            assert_eq!(got, Err(PortError::OutOfRange));
        }
        p += 1;
    }
}

#[test]
fn port_reader_agrees_with_the_standard_reader() {
    let samples = [
        "", "+", "-", "0", "+1", "-1", "1024", "65535", "65536", "99999", "1e3", "٣٤", "１２３４",
        "12 34", "\t1234", "1234\n", "+-1", "4294967296", "18446744073709551615",
        "18446744073709551616", "000", "0001024",
    ];
    for s in samples {
        let expected = match s.parse::<usize>() {
            Err(_) => Err(PortError::NotANumber),
            Ok(n) => {
                if (1024..=65535).contains(&n) {
                    Ok(n as u16)
                } else {
                    Err(PortError::OutOfRange)
                }
            }
        };
        assert_eq!(parser_port_in_range(s), expected);
    }
}

#[test]
fn port_errors_have_a_message() {
    assert_eq!(
        port_error_message(PortError::NotANumber, "abc"),
        "`abc` isn't a port number"
    );
    assert_eq!(
        port_error_message(PortError::OutOfRange, "80"),
        "Port not in range 1024-65535"
    );
}

#[test]
fn decimal_string_writes_the_shortest_text() {
    assert_eq!(decimal_string(0), "0");
    assert_eq!(decimal_string(7), "7");
    assert_eq!(decimal_string(10), "10");
    assert_eq!(decimal_string(5055), "5055");
    assert_eq!(decimal_string(65535), "65535");
    assert_eq!(decimal_string(u64::MAX), "18446744073709551615");
}

#[test]
fn config_holds_what_it_was_given() {
    let config = match Config::new(true, 5055, "/etc/xunlei".to_string(), "/downloads".to_string())
    {
        Ok(c) => c,
        Err(_) => panic!("port 5055 lies in the range"),
    };
    assert!(config.internal());
    assert_eq!(config.port(), 5055);
    assert_eq!(config.config_path(), "/etc/xunlei");
    assert_eq!(config.download_path(), "/downloads");
}

#[test]
fn config_refuses_a_port_below_the_range() {
    assert!(matches!(
        Config::new(false, 1023, String::new(), String::new()),
        Err(PortError::OutOfRange)
    ));
    assert!(matches!(
        Config::new(false, 80, String::new(), String::new()),
        Err(PortError::OutOfRange)
    ));
    assert!(Config::new(false, 1024, String::new(), String::new()).is_ok());
    assert!(Config::new(false, 65535, String::new(), String::new()).is_ok());
}
