use bincode::config::standard;
use salus::codec::DecodeError;
use salus::wire::decode_action;
use salus::wire::decode_option_text;
use salus::wire::decode_response;
use salus::wire::decode_texts;
use salus::wire::encode_action;
use salus::wire::encode_option_text;
use salus::wire::encode_response;
use salus::wire::encode_texts;
use salus::Action;
use salus::Response;
use salus::Share;
use salus::Shares;
use salus::Store;

fn actions() -> Vec<Action> {
    vec![
        Action::Unlock,
        Action::Share(Share::new("1abc:2def".to_string())),
        Action::Share(Share::new(String::new())),
        Action::GenShares(5, 3),
        Action::GenShares(0, 255),
        Action::Store(Store::new("hello".to_string(), "world".to_string())),
        Action::Store(Store::new(String::new(), "x".repeat(300))),
        Action::Read("h\u{e9}llo".to_string()),
        Action::GetThreshold,
    ]
}

fn responses() -> Vec<Response> {
    vec![
        Response::Error("Store not unlocked".to_string()),
        Response::Success,
        Response::Shares(Shares::new(vec![])),
        Response::Shares(Shares::new(vec![
            "a:1".to_string(),
            "b:2".to_string(),
            "c:\u{1f600}".to_string(),
        ])),
        Response::Shares(Shares::new(vec!["s".to_string(); 300])),
        Response::AlreadyInitialized,
        Response::Threshold(3),
        Response::Value(None),
        Response::Value(Some("world".to_string())),
        Response::KeyNotFound,
    ]
}

#[test]
fn action_bytes_are_the_variant_and_its_fields() {
    assert_eq!(encode_action(&Action::Unlock), vec![0]);
    assert_eq!(
        encode_action(&Action::Share(Share::new("ab".to_string()))),
        vec![1, 2, 97, 98]
    );
    assert_eq!(encode_action(&Action::GenShares(5, 3)), vec![2, 5, 3]);
    assert_eq!(
        encode_action(&Action::Store(Store::new("k".to_string(), "vw".to_string()))),
        vec![3, 1, 107, 2, 118, 119]
    );
    assert_eq!(encode_action(&Action::Read("k".to_string())), vec![4, 1, 107]);
    assert_eq!(encode_action(&Action::GetThreshold), vec![5]);
}

#[test]
fn response_bytes_are_the_variant_and_its_fields() {
    assert_eq!(encode_response(&Response::Error("no".to_string())), vec![0, 2, 110, 111]);
    assert_eq!(encode_response(&Response::Success), vec![1]);
    assert_eq!(
        encode_response(&Response::Shares(Shares::new(vec!["a".to_string(), "bc".to_string()]))),
        vec![2, 2, 1, 97, 2, 98, 99]
    );
    assert_eq!(encode_response(&Response::AlreadyInitialized), vec![3]);
    assert_eq!(encode_response(&Response::Threshold(3)), vec![4, 3]);
    assert_eq!(encode_response(&Response::Value(None)), vec![5, 0]);
    assert_eq!(
        encode_response(&Response::Value(Some("v".to_string()))),
        vec![5, 1, 1, 118]
    );
    assert_eq!(encode_response(&Response::KeyNotFound), vec![6]);
}

#[test]
fn action_bytes_match_the_standard_encoding() {
    let share = bincode::encode_to_vec((1u32, "1abc:2def"), standard()).expect("no bytes");
    assert_eq!(encode_action(&Action::Share(Share::new("1abc:2def".to_string()))), share);
    let gen = bincode::encode_to_vec((2u32, 5u8, 3u8), standard()).expect("no bytes");
    assert_eq!(encode_action(&Action::GenShares(5, 3)), gen);
    let store = bincode::encode_to_vec((3u32, "hello", "world"), standard()).expect("no bytes");
    assert_eq!(
        encode_action(&Action::Store(Store::new("hello".to_string(), "world".to_string()))),
        store
    );
    let read = bincode::encode_to_vec((4u32, "nope"), standard()).expect("no bytes");
    assert_eq!(encode_action(&Action::Read("nope".to_string())), read);
    let unlock = bincode::encode_to_vec(0u32, standard()).expect("no bytes");
    assert_eq!(encode_action(&Action::Unlock), unlock);
    let threshold = bincode::encode_to_vec(5u32, standard()).expect("no bytes");
    assert_eq!(encode_action(&Action::GetThreshold), threshold);
}

#[test]
fn response_bytes_match_the_standard_encoding() {
    let error = bincode::encode_to_vec((0u32, "Store not unlocked"), standard()).expect("no bytes");
    assert_eq!(encode_response(&Response::Error("Store not unlocked".to_string())), error);
    let list = vec!["a:1".to_string(), "b:2".to_string(), "c:3".to_string()];
    let shares = bincode::encode_to_vec((2u32, list.clone()), standard()).expect("no bytes");
    assert_eq!(encode_response(&Response::Shares(Shares::new(list))), shares);
    let threshold = bincode::encode_to_vec((4u32, 3u8), standard()).expect("no bytes");
    assert_eq!(encode_response(&Response::Threshold(3)), threshold);
    let some = bincode::encode_to_vec((5u32, Some("world")), standard()).expect("no bytes");
    assert_eq!(encode_response(&Response::Value(Some("world".to_string()))), some);
    let none = bincode::encode_to_vec((5u32, None::<String>), standard()).expect("no bytes");
    assert_eq!(encode_response(&Response::Value(None)), none);
}

#[test]
fn standard_decoding_reads_what_is_encoded() {
    let bytes = encode_response(&Response::Shares(Shares::new(vec![
        "a:1".to_string(),
        "b:2".to_string(),
    ])));
    let ((variant, list), used): ((u32, Vec<String>), usize) =
        bincode::decode_from_slice(&bytes, standard()).expect("not decoded");
    assert_eq!(variant, 2);
    assert_eq!(list, vec!["a:1".to_string(), "b:2".to_string()]);
    assert_eq!(used, bytes.len());
}

#[test]
fn every_action_is_read_back() {
    for action in actions() {
        let bytes = encode_action(&action);
        assert_eq!(decode_action(&bytes), Ok((action, bytes.len())));
    }
}

#[test]
fn every_response_is_read_back() {
    for response in responses() {
        let bytes = encode_response(&response);
        assert_eq!(decode_response(&bytes), Ok((response, bytes.len())));
    }
}

#[test]
fn what_follows_a_message_is_left_unread() {
    for action in actions() {
        let mut bytes = encode_action(&action);
        let end = bytes.len();
        bytes.extend_from_slice(&[1, 2, 3]);
        assert_eq!(decode_action(&bytes), Ok((action, end)));
    }
    for response in responses() {
        let mut bytes = encode_response(&response);
        let end = bytes.len();
        bytes.push(0);
        assert_eq!(decode_response(&bytes), Ok((response, end)));
    }
}

#[test]
fn a_message_that_ends_early_is_refused() {
    for action in actions() {
        let bytes = encode_action(&action);
        for cut in 0..bytes.len() {
            assert_eq!(decode_action(&bytes[..cut]), Err(DecodeError::UnexpectedEnd));
        }
    }
    for response in responses() {
        let bytes = encode_response(&response);
        for cut in 0..bytes.len() {
            assert_eq!(decode_response(&bytes[..cut]), Err(DecodeError::UnexpectedEnd));
        }
    }
}

#[test]
fn no_bytes_are_no_message() {
    assert_eq!(decode_action(&[]), Err(DecodeError::UnexpectedEnd));
    assert_eq!(decode_response(&[]), Err(DecodeError::UnexpectedEnd));
}

#[test]
fn an_unknown_variant_is_refused() {
    assert_eq!(decode_action(&[6]), Err(DecodeError::UnexpectedVariant));
    assert_eq!(decode_action(&[250]), Err(DecodeError::UnexpectedVariant));
    assert_eq!(decode_action(&[251, 0, 1]), Err(DecodeError::UnexpectedVariant));
    assert_eq!(decode_response(&[7]), Err(DecodeError::UnexpectedVariant));
}

#[test]
fn a_variant_index_in_a_long_form_is_read() {
    assert_eq!(decode_action(&[251, 5, 0]), Ok((Action::GetThreshold, 3)));
    assert_eq!(decode_response(&[252, 1, 0, 0, 0]), Ok((Response::Success, 5)));
}

#[test]
fn a_variant_index_with_a_bad_marker_is_refused() {
    assert_eq!(decode_action(&[253, 0, 0, 0, 0, 0, 0, 0, 0]), Err(DecodeError::InvalidInteger));
    assert_eq!(decode_action(&[254]), Err(DecodeError::InvalidInteger));
    assert_eq!(decode_response(&[255]), Err(DecodeError::InvalidInteger));
}

#[test]
fn a_text_that_is_not_utf8_is_refused() {
    assert_eq!(decode_action(&[4, 1, 0xff]), Err(DecodeError::InvalidUtf8));
    assert_eq!(decode_response(&[0, 2, 0xc3, 0x28]), Err(DecodeError::InvalidUtf8));
    assert_eq!(decode_response(&[2, 1, 1, 0x80]), Err(DecodeError::InvalidUtf8));
}

#[test]
fn an_optional_text_is_marked_by_zero_or_one() {
    assert_eq!(decode_response(&[5, 0]), Ok((Response::Value(None), 2)));
    assert_eq!(decode_response(&[5, 1, 0]), Ok((Response::Value(Some(String::new())), 3)));
    assert_eq!(decode_response(&[5, 2]), Err(DecodeError::UnexpectedVariant));
    assert_eq!(decode_option_text(&[9, 1, 1, 97], 1), Ok((Some("a".to_string()), 4)));
    let mut out = vec![];
    encode_option_text(&Some("a".to_string()), &mut out);
    encode_option_text(&None, &mut out);
    assert_eq!(out, vec![1, 1, 97, 0]);
}

#[test]
fn a_list_of_texts_is_their_number_and_each_text() {
    let texts = vec!["a".to_string(), String::new(), "bc".to_string()];
    let mut out = vec![];
    encode_texts(&texts, &mut out);
    assert_eq!(out, vec![3, 1, 97, 0, 2, 98, 99]);
    assert_eq!(decode_texts(&out, 0), Ok((texts, 7)));
    assert_eq!(decode_texts(&[0], 0), Ok((vec![], 1)));
    assert_eq!(decode_texts(&[2, 1, 97], 0), Err(DecodeError::UnexpectedEnd));
}

#[test]
fn message_parts_are_given_back() {
    let share = Share::new("1:2".to_string());
    assert_eq!(share.share(), "1:2");
    let shares = Shares::new(vec!["a".to_string(), "b".to_string()]);
    assert_eq!(shares.shares(), &["a".to_string(), "b".to_string()]);
    let store = Store::new("key".to_string(), "value".to_string());
    assert_eq!(store.key(), "key");
    assert_eq!(store.value(), "value");
    assert_eq!(store.into_parts(), ("key".to_string(), "value".to_string()));
}

#[test]
fn a_list_or_an_optional_text_behind_the_end_is_an_early_end() {
    assert_eq!(decode_texts(&[0], 2), Err(DecodeError::UnexpectedEnd));
    assert_eq!(decode_option_text(&[0], 2), Err(DecodeError::UnexpectedEnd));
}
