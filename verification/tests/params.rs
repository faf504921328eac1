use tradesatoshi::params::{Amount, Field, Params, Value};

fn text(s: &str) -> Value {
    Value::Text(s.to_string())
}

#[test]
fn empty_set_has_no_query_string() {
    assert_eq!(Params::new().to_query_params(), "");
}

#[test]
fn empty_set_is_an_empty_json_object() {
    assert_eq!(Params::new().to_json_body(), "{}");
}

#[test]
fn query_string_names_the_populated_fields() {
    let params = Params::new().market("LTC_BTC".to_string()).count(20);
    assert_eq!(params.to_query_params(), "?Market=LTC_BTC&Count=20");
}

#[test]
fn json_body_names_the_populated_fields() {
    let params = Params::new().market("LTC_BTC".to_string()).count(20);
    assert_eq!(params.to_json_body(), "{\"Market\":\"LTC_BTC\",\"Count\":20}");
}

#[test]
fn fields_are_written_in_canonical_order_whatever_the_order_of_setting() {
    let params = Params::new()
        .username("bob".to_string())
        .orderid(7)
        .page_num(3)
        .address("addr".to_string())
        .price(Amount { units: 150_000_000 })
        .amount(Amount { units: 25_100_000_000 })
        .depth(5)
        .typeo("Buy".to_string())
        .currency("BTC".to_string())
        .count(2)
        .market("LTC_BTC".to_string());
    assert_eq!(
        params.to_query_params(),
        "?Market=LTC_BTC&Count=2&Currency=BTC&Type=Buy&Depth=5&Amount=251.00000000\
         &Price=1.50000000&Address=addr&PageNumber=3&OrderId=7&Username=bob"
    );
    assert_eq!(
        params.to_json_body(),
        "{\"Market\":\"LTC_BTC\",\"Count\":2,\"Currency\":\"BTC\",\"Type\":\"Buy\",\"Depth\":5,\
         \"Amount\":251.00000000,\"Price\":1.50000000,\"Address\":\"addr\",\"PageNumber\":3,\
         \"OrderId\":7,\"Username\":\"bob\"}"
    );
}

#[test]
fn a_single_late_field_stands_alone() {
    let params = Params::new().username("bob".to_string());
    assert_eq!(params.to_query_params(), "?Username=bob");
    assert_eq!(params.to_json_body(), "{\"Username\":\"bob\"}");
}

#[test]
fn query_values_are_form_encoded() {
    let params = Params::new().market("LTC BTC/\u{e9}&".to_string());
    assert_eq!(params.to_query_params(), "?Market=LTC+BTC%2F%C3%A9%26");
}

#[test]
fn unreserved_characters_stay_as_they_are_in_a_query() {
    let params = Params::new().market("aZ09*-._".to_string());
    assert_eq!(params.to_query_params(), "?Market=aZ09*-._");
}

#[test]
fn json_texts_are_quoted_and_escaped() {
    let params = Params::new().market("a\"b\\c\n".to_string());
    assert_eq!(params.to_json_body(), "{\"Market\":\"a\\\"b\\\\c\\n\"}");
}

#[test]
fn json_texts_escape_control_characters_and_nothing_more() {
    let text = "\u{0}\u{1}\u{8}\t\n\u{b}\u{c}\r\u{1f} /\u{7f}\u{e9}\u{1f600}";
    let params = Params::new().market(text.to_string());
    assert_eq!(
        params.to_json_body(),
        "{\"Market\":\"\\u0000\\u0001\\b\\t\\n\\u000b\\f\\r\\u001f /\u{7f}\u{e9}\u{1f600}\"}"
    );
}

#[test]
fn setting_a_field_twice_keeps_the_later_value() {
    let params = Params::new().count(1).count(2);
    assert_eq!(params.get(Field::Count), Some(Value::Number(2)));
    assert_eq!(params.to_query_params(), "?Count=2");
}

#[test]
fn get_returns_what_was_set_and_nothing_else() {
    let params = Params::new().currency("BTC".to_string()).amount(Amount { units: 5 });
    assert_eq!(params.get(Field::Currency), Some(text("BTC")));
    assert_eq!(params.get(Field::Amount), Some(Value::Quantity(Amount { units: 5 })));
    assert_eq!(params.get(Field::Market), None);
    assert_eq!(params.get(Field::Count), None);
    assert_eq!(params.get(Field::Type), None);
    assert_eq!(params.get(Field::Depth), None);
    assert_eq!(params.get(Field::Price), None);
    assert_eq!(params.get(Field::Address), None);
    assert_eq!(params.get(Field::PageNumber), None);
    assert_eq!(params.get(Field::OrderId), None);
    assert_eq!(params.get(Field::Username), None);
}

#[test]
fn every_field_has_its_wire_name() {
    let names: Vec<&str> = (0..11u8).map(|rank| Field::at(rank).key()).collect();
    assert_eq!(
        names,
        vec![
            "Market",
            "Count",
            "Currency",
            "Type",
            "Depth",
            "Amount",
            "Price",
            "Address",
            "PageNumber",
            "OrderId",
            "Username"
        ]
    );
}

#[test]
fn numbers_are_written_in_full() {
    assert_eq!(Params::new().count(0).to_json_body(), "{\"Count\":0}");
    assert_eq!(Params::new().count(u32::MAX).to_json_body(), "{\"Count\":4294967295}");
    assert_eq!(Params::new().depth(1000).to_query_params(), "?Depth=1000");
}

#[test]
fn amounts_are_written_with_eight_decimal_places() {
    let render = |units: u64| {
        let mut out = String::new();
        Amount { units }.push_text(&mut out);
        out
    };
    assert_eq!(render(0), "0.00000000");
    assert_eq!(render(1), "0.00000001");
    assert_eq!(render(25_100_000_000), "251.00000000");
    assert_eq!(render(123_456_789), "1.23456789");
    assert_eq!(render(u64::MAX), "184467440737.09551615");
}

#[test]
fn amount_is_built_from_whole_coins_and_a_fraction() {
    assert_eq!(Amount::new(251, 0), Some(Amount { units: 25_100_000_000 }));
    assert_eq!(Amount::new(0, 99_999_999), Some(Amount { units: 99_999_999 }));
    assert_eq!(Amount::new(1, 100_000_000), None);
    assert_eq!(Amount::new(u64::MAX, 0), None);
    assert_eq!(Amount::new(184_467_440_737, 9_551_615), Some(Amount { units: u64::MAX }));
    assert_eq!(Amount::new(184_467_440_737, 9_551_616), None);
}

#[test]
fn json_body_reads_back_to_the_values_that_were_set() {
    let params = Params::new()
        .market("LTC \"quoted\" \u{e9}".to_string())
        .count(42)
        .amount(Amount { units: 123_456_789 })
        .username("".to_string());
    let body = params.to_json_body();
    let parsed: serde_json::Value = serde_json::from_str(&body).unwrap();
    let object = parsed.as_object().unwrap();
    assert_eq!(object.len(), 4);
    assert_eq!(object["Market"].as_str(), Some("LTC \"quoted\" \u{e9}"));
    assert_eq!(object["Count"].as_u64(), Some(42));
    assert_eq!(object["Amount"].as_f64(), Some(1.23456789));
    assert_eq!(object["Username"].as_str(), Some(""));
}

#[test]
fn query_string_reads_back_to_the_values_that_were_set() {
    let params = Params::new().market("LTC BTC/\u{e9}&=?".to_string()).count(42);
    let query = params.to_query_params();
    let pairs: Vec<(String, String)> =
        url::form_urlencoded::parse(query[1..].as_bytes()).into_owned().collect();
    assert_eq!(
        pairs,
        vec![
            ("Market".to_string(), "LTC BTC/\u{e9}&=?".to_string()),
            ("Count".to_string(), "42".to_string())
        ]
    );
}

#[test]
fn every_ascii_character_is_form_encoded_by_the_rule() {
    for code in 0u8..128 {
        let c = code as char;
        let expected = if c.is_ascii_alphanumeric() || "*-._".contains(c) {
            c.to_string()
        } else if c == ' ' {
            "+".to_string()
        } else {
            format!("%{:02X}", code)
        };
        let params = Params::new().market(c.to_string());
        assert_eq!(params.to_query_params(), format!("?Market={}", expected));
    }
}

#[test]
fn characters_beyond_ascii_are_form_encoded_byte_by_byte() {
    for c in ['\u{80}', '\u{e9}', '\u{7ff}', '\u{800}', '\u{20ac}', '\u{ffff}', '\u{1f600}'] {
        let mut expected = String::from("?Market=");
        for byte in c.to_string().bytes() {
            expected.push_str(&format!("%{:02X}", byte));
        }
        assert_eq!(Params::new().market(c.to_string()).to_query_params(), expected);
    }
}

#[test]
fn every_ascii_character_is_escaped_in_json_by_the_rule() {
    for code in 0u8..128 {
        let c = code as char;
        let expected = match c {
            '"' => "\\\"".to_string(),
            '\\' => "\\\\".to_string(),
            '\u{8}' => "\\b".to_string(),
            '\t' => "\\t".to_string(),
            '\n' => "\\n".to_string(),
            '\u{c}' => "\\f".to_string(),
            '\r' => "\\r".to_string(),
            _ if code < 0x20 => format!("\\u{:04x}", code),
            _ => c.to_string(),
        };
        let params = Params::new().market(format!("a{}b", c));
        assert_eq!(params.to_json_body(), format!("{{\"Market\":\"a{}b\"}}", expected));
    }
}

#[test]
fn numbers_are_written_as_the_standard_library_writes_them() {
    let mut n: u32 = 0;
    loop {
        assert_eq!(Params::new().count(n).to_query_params(), format!("?Count={}", n));
        if n > u32::MAX / 7 {
            break;
        }
        n = n * 7 + 3;
    }
    for n in [9, 10, 11, 99, 100, 101, 999_999_999, 1_000_000_000, u32::MAX - 1, u32::MAX] {
        assert_eq!(Params::new().count(n).to_json_body(), format!("{{\"Count\":{}}}", n));
    }
}

#[test]
fn amounts_are_written_as_whole_part_and_padded_fraction() {
    let samples = [
        0u64,
        9,
        10,
        99_999_999,
        100_000_000,
        100_000_001,
        1_234_567_890_123,
        u64::MAX - 1,
        u64::MAX,
    ];
    for units in samples {
        let expected = format!("{}.{:08}", units / 100_000_000, units % 100_000_000);
        let params = Params::new().amount(Amount { units });
        assert_eq!(params.to_json_body(), format!("{{\"Amount\":{}}}", expected));
        assert_eq!(params.to_query_params(), format!("?Amount={}", expected));
    }
}
