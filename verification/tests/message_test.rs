use embedded_recruitment_task::message::{AddRequest, AddResponse, EchoMessage};

fn echo(text: &str) -> EchoMessage {
    EchoMessage { content: text.to_string() }
}

#[test]
fn add_request_bytes_are_two_varint_fields() {
    let message = AddRequest { a: 10, b: 25 };
    assert_eq!(message.encode_to_vec(), vec![0x08, 0x0a, 0x10, 0x19]);
}

#[test]
fn add_request_is_read_from_its_bytes() {
    assert_eq!(
        AddRequest::decode(&[0x08, 0x0a, 0x10, 0x19]),
        Some(AddRequest { a: 10, b: 25 })
    );
}

#[test]
fn add_request_leaves_zero_fields_off_the_wire() {
    assert_eq!(AddRequest { a: 0, b: 0 }.encode_to_vec(), Vec::<u8>::new());
    assert_eq!(AddRequest { a: 0, b: 5 }.encode_to_vec(), vec![0x10, 0x05]);
    assert_eq!(AddRequest { a: 5, b: 0 }.encode_to_vec(), vec![0x08, 0x05]);
    assert_eq!(AddRequest::default(), AddRequest { a: 0, b: 0 });
}

#[test]
fn empty_bytes_are_the_request_of_two_zeros() {
    assert_eq!(AddRequest::decode(&[]), Some(AddRequest { a: 0, b: 0 }));
    assert_eq!(AddResponse::decode(&[]), Some(AddResponse { result: 0 }));
    assert_eq!(EchoMessage::decode(&[]), Some(echo("")));
}

#[test]
fn varint_of_two_bytes() {
    assert_eq!(AddRequest { a: 300, b: 0 }.encode_to_vec(), vec![0x08, 0xac, 0x02]);
    assert_eq!(AddRequest::decode(&[0x08, 0xac, 0x02]), Some(AddRequest { a: 300, b: 0 }));
}

#[test]
fn negative_numbers_take_ten_bytes() {
    let minus_one = vec![0x08, 0xff, 0xff, 0xff, 0xff, 0xff, 0xff, 0xff, 0xff, 0xff, 0x01];
    assert_eq!(AddRequest { a: -1, b: 0 }.encode_to_vec(), minus_one);
    assert_eq!(AddRequest::decode(&minus_one), Some(AddRequest { a: -1, b: 0 }));

    let minus_seven = vec![0x10, 0xf9, 0xff, 0xff, 0xff, 0xff, 0xff, 0xff, 0xff, 0xff, 0x01];
    assert_eq!(AddRequest { a: 0, b: -7 }.encode_to_vec(), minus_seven);
    assert_eq!(AddRequest::decode(&minus_seven), Some(AddRequest { a: 0, b: -7 }));
}

#[test]
fn extremes_of_int32() {
    let least = vec![0x08, 0x80, 0x80, 0x80, 0x80, 0xf8, 0xff, 0xff, 0xff, 0xff, 0x01];
    let most = vec![0x08, 0xff, 0xff, 0xff, 0xff, 0x07];
    assert_eq!(AddResponse { result: i32::MIN }.encode_to_vec(), least);
    assert_eq!(AddResponse { result: i32::MAX }.encode_to_vec(), most);
    assert_eq!(AddResponse::decode(&least), Some(AddResponse { result: i32::MIN }));
    assert_eq!(AddResponse::decode(&most), Some(AddResponse { result: i32::MAX }));
}

#[test]
fn int32_keeps_the_low_32_bits_of_a_longer_varint() {
    // 2^32 + 5
    assert_eq!(
        AddRequest::decode(&[0x08, 0x85, 0x80, 0x80, 0x80, 0x10]),
        Some(AddRequest { a: 5, b: 0 })
    );
    // 2^64 - 1
    assert_eq!(
        AddRequest::decode(&[0x10, 0xff, 0xff, 0xff, 0xff, 0xff, 0xff, 0xff, 0xff, 0xff, 0x01]),
        Some(AddRequest { a: 0, b: -1 })
    );
}

#[test]
fn fields_come_in_any_order_and_the_last_value_counts() {
    assert_eq!(
        AddRequest::decode(&[0x10, 0x19, 0x08, 0x0a]),
        Some(AddRequest { a: 10, b: 25 })
    );
    assert_eq!(
        AddRequest::decode(&[0x08, 0x01, 0x08, 0x02, 0x10, 0x03, 0x08, 0x04]),
        Some(AddRequest { a: 4, b: 3 })
    );
    assert_eq!(
        EchoMessage::decode(&[0x0a, 0x01, 0x41, 0x0a, 0x01, 0x42]),
        Some(echo("B"))
    );
}

#[test]
fn unknown_fields_are_skipped() {
    // field 3 as a varint, then field 1
    assert_eq!(
        AddRequest::decode(&[0x18, 0x01, 0x08, 0x05]),
        Some(AddRequest { a: 5, b: 0 })
    );
    // field 3 as four bytes, as eight bytes, as a run of two bytes
    assert_eq!(
        AddRequest::decode(&[0x1d, 1, 2, 3, 4, 0x08, 0x05]),
        Some(AddRequest { a: 5, b: 0 })
    );
    assert_eq!(
        AddRequest::decode(&[0x19, 1, 2, 3, 4, 5, 6, 7, 8, 0x10, 0x05]),
        Some(AddRequest { a: 0, b: 5 })
    );
    assert_eq!(
        AddResponse::decode(&[0x1a, 0x02, 0x08, 0x09, 0x08, 0x05]),
        Some(AddResponse { result: 5 })
    );
    // field 2 is unknown to the answer and to the echo message
    assert_eq!(AddResponse::decode(&[0x10, 0x05]), Some(AddResponse { result: 0 }));
    assert_eq!(EchoMessage::decode(&[0x10, 0x05]), Some(echo("")));
}

#[test]
fn a_group_is_skipped_with_what_is_in_it() {
    // field 3 opens a group that holds field 1, then closes; field 1 follows
    assert_eq!(
        AddRequest::decode(&[0x1b, 0x08, 0x01, 0x1c, 0x08, 0x07]),
        Some(AddRequest { a: 7, b: 0 })
    );
    // the group is closed under another number
    assert_eq!(AddRequest::decode(&[0x1b, 0x24, 0x08, 0x07]), None);
    // the group is never closed
    assert_eq!(AddRequest::decode(&[0x1b, 0x08, 0x01]), None);
    // a group ends that was never opened
    assert_eq!(AddRequest::decode(&[0x1c]), None);
}

#[test]
fn a_known_field_of_the_wrong_kind_is_refused() {
    // field 1 as four bytes
    assert_eq!(AddRequest::decode(&[0x0d, 1, 0, 0, 0]), None);
    assert_eq!(AddResponse::decode(&[0x0d, 1, 0, 0, 0]), None);
    assert_eq!(EchoMessage::decode(&[0x0d, 1, 0, 0, 0]), None);
    // field 1 as a run of bytes is no number
    assert_eq!(AddRequest::decode(&[0x0a, 0x01, 0x41]), None);
    // field 1 as a varint is no text
    assert_eq!(EchoMessage::decode(&[0x08, 0x05]), None);
    // field 2 as a run of bytes
    assert_eq!(AddRequest::decode(&[0x12, 0x01, 0x41]), None);
}

#[test]
fn broken_keys_are_refused() {
    // field number zero
    assert_eq!(AddRequest::decode(&[0x00]), None);
    // wire kinds 6 and 7
    assert_eq!(AddRequest::decode(&[0x0e]), None);
    assert_eq!(AddRequest::decode(&[0x0f]), None);
    // a key that does not end
    assert_eq!(AddRequest::decode(&[0xff]), None);
    // a key beyond 32 bits
    assert_eq!(AddRequest::decode(&[0x88, 0x80, 0x80, 0x80, 0x10, 0x01]), None);
    assert_eq!(EchoMessage::decode(&[0x00]), None);
    assert_eq!(AddResponse::decode(&[0xff]), None);
}

#[test]
fn broken_varints_are_refused() {
    // the value is missing
    assert_eq!(AddRequest::decode(&[0x08]), None);
    // the value does not end
    assert_eq!(AddRequest::decode(&[0x08, 0x80]), None);
    // ten bytes whose last is more than one: beyond 64 bits
    assert_eq!(
        AddRequest::decode(&[0x08, 0xff, 0xff, 0xff, 0xff, 0xff, 0xff, 0xff, 0xff, 0xff, 0x02]),
        None
    );
    // eleven bytes
    assert_eq!(
        AddRequest::decode(&[
            0x08, 0x80, 0x80, 0x80, 0x80, 0x80, 0x80, 0x80, 0x80, 0x80, 0x80, 0x01
        ]),
        None
    );
    // ten bytes of which the last is zero are accepted
    assert_eq!(
        AddRequest::decode(&[0x08, 0x85, 0x80, 0x80, 0x80, 0x80, 0x80, 0x80, 0x80, 0x80, 0x00]),
        Some(AddRequest { a: 5, b: 0 })
    );
}

#[test]
fn add_response_bytes() {
    assert_eq!(AddResponse { result: 35 }.encode_to_vec(), vec![0x08, 0x23]);
    assert_eq!(AddResponse { result: 0 }.encode_to_vec(), Vec::<u8>::new());
    assert_eq!(AddResponse::decode(&[0x08, 0x23]), Some(AddResponse { result: 35 }));
    assert_eq!(AddResponse::default(), AddResponse { result: 0 });
}

#[test]
fn echo_message_bytes() {
    let message = echo("Hello, Server!");
    let bytes = vec![
        0x0a, 0x0e, 0x48, 0x65, 0x6c, 0x6c, 0x6f, 0x2c, 0x20, 0x53, 0x65, 0x72, 0x76, 0x65, 0x72,
        0x21,
    ];
    assert_eq!(message.encode_to_vec(), bytes);
    assert_eq!(EchoMessage::decode(&bytes), Some(message));
}

#[test]
fn echo_message_with_empty_text_takes_no_bytes() {
    assert_eq!(echo("").encode_to_vec(), Vec::<u8>::new());
    assert_eq!(EchoMessage::default(), echo(""));
    // an empty text that is written out all the same is read as empty
    assert_eq!(EchoMessage::decode(&[0x0a, 0x00]), Some(echo("")));
}

#[test]
fn echo_message_keeps_text_beyond_ascii() {
    let message = echo("gr\u{fc}\u{df} dich, \u{4e16}\u{754c} \u{1f980}");
    let bytes = message.encode_to_vec();
    assert_eq!(bytes[0], 0x0a);
    assert_eq!(bytes[1] as usize, message.content.len());
    assert_eq!(&bytes[2..], message.content.as_bytes());
    assert_eq!(EchoMessage::decode(&bytes), Some(message));
}

#[test]
fn echo_message_with_a_long_text_has_a_two_byte_length() {
    let message = echo(&"a".repeat(509));
    let bytes = message.encode_to_vec();
    assert_eq!(bytes.len(), 512);
    assert_eq!(&bytes[..3], &[0x0a, 0xfd, 0x03]);
    assert_eq!(EchoMessage::decode(&bytes), Some(message));
}

#[test]
fn echo_message_refuses_bytes_that_are_no_utf8() {
    assert_eq!(EchoMessage::decode(&[0x0a, 0x02, 0xc3, 0x28]), None);
    assert_eq!(EchoMessage::decode(&[0x0a, 0x01, 0xff]), None);
    // an overlong form and a surrogate
    assert_eq!(EchoMessage::decode(&[0x0a, 0x02, 0xc0, 0x80]), None);
    assert_eq!(EchoMessage::decode(&[0x0a, 0x03, 0xed, 0xa0, 0x80]), None);
}

#[test]
fn echo_message_refuses_a_text_that_is_cut_short() {
    assert_eq!(EchoMessage::decode(&[0x0a, 0x05, 0x41]), None);
    assert_eq!(EchoMessage::decode(&[0x0a]), None);
    // what follows the text is read as the next field
    assert_eq!(EchoMessage::decode(&[0x0a, 0x01, 0x41, 0x42]), None);
}

#[test]
fn decode_reads_more_than_it_was_given_back() {
    // the readers move on: a second field after the first is seen
    assert_eq!(
        AddRequest::decode(&[0x08, 0x01, 0x10, 0x02]),
        Some(AddRequest { a: 1, b: 2 })
    );
    assert_eq!(
        EchoMessage::decode(&[0x18, 0x07, 0x0a, 0x02, 0x68, 0x69]),
        Some(echo("hi"))
    );
}

#[test]
fn encode_appends_to_what_is_there() {
    let mut out = vec![0xaa];
    AddRequest { a: 1, b: 2 }.encode(&mut out);
    AddResponse { result: 3 }.encode(&mut out);
    echo("x").encode(&mut out);
    assert_eq!(out, vec![0xaa, 0x08, 0x01, 0x10, 0x02, 0x08, 0x03, 0x0a, 0x01, 0x78]);
}

#[test]
fn every_message_is_read_back_as_written() {
    let numbers = [0, 1, -1, 127, 128, 300, -300, 65536, i32::MAX, i32::MIN];
    for a in numbers {
        for b in numbers {
            let request = AddRequest { a, b };
            assert_eq!(AddRequest::decode(&request.encode_to_vec()), Some(request));
        }
        let response = AddResponse { result: a };
        assert_eq!(AddResponse::decode(&response.encode_to_vec()), Some(response));
    }
    for text in ["", "a", "Hello, World!", "\u{0}", "\u{7ff}\u{800}\u{ffff}\u{10000}\u{10ffff}"] {
        let message = echo(text);
        assert_eq!(EchoMessage::decode(&message.encode_to_vec()), Some(message));
    }
}

#[test]
fn an_echo_message_with_text_is_no_addition_request() {
    for text in ["a", "Hello, World!", "\u{1f980}"] {
        assert_eq!(AddRequest::decode(&echo(text).encode_to_vec()), None);
    }
}
