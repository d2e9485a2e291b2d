use probeengine::user::{DemoComplicatedRequest, DemoResponse, DemoUser};
use probeengine::wire::DecodeError;

fn user(name: &str, age: u8) -> DemoUser {
    DemoUser { name: String::from(name), age }
}

#[test]
fn a_user_is_its_name_and_its_age() {
    assert_eq!(user("ab", 7).encode(), vec![2, 0, 0, 0, 0, 0, 0, 0, 97, 98, 7]);
}

#[test]
fn a_user_without_a_name_is_written() {
    assert_eq!(user("", 0).encode(), vec![0, 0, 0, 0, 0, 0, 0, 0, 0]);
}

#[test]
fn a_user_comes_back() {
    for sent in [user("alice", 30), user("", 0), user("\u{4f60}\u{597d} \u{1f600}", 255)] {
        assert_eq!(DemoUser::decode(&sent.encode()), Ok(sent));
    }
}

#[test]
fn a_user_is_read_from_its_bytes() {
    assert_eq!(DemoUser::decode(&[1, 0, 0, 0, 0, 0, 0, 0, 0x7a, 200]), Ok(user("z", 200)));
}

#[test]
fn a_user_that_ends_early_is_refused() {
    let bytes = user("alice", 30).encode();
    for end in [0, 1, 7, 8, 9, 12, 13] {
        assert_eq!(DemoUser::decode(&bytes[..end]), Err(DecodeError::Truncated));
    }
}

#[test]
fn a_user_with_bytes_after_it_is_refused() {
    let mut bytes = user("alice", 30).encode();
    bytes.push(0);
    assert_eq!(DemoUser::decode(&bytes), Err(DecodeError::TrailingBytes));
}

#[test]
fn a_name_that_is_not_text_is_refused() {
    assert_eq!(
        DemoUser::decode(&[2, 0, 0, 0, 0, 0, 0, 0, 0xff, 0xfe, 1]),
        Err(DecodeError::InvalidText)
    );
    assert_eq!(
        DemoUser::decode(&[1, 0, 0, 0, 0, 0, 0, 0, 0xc3, 1]),
        Err(DecodeError::InvalidText)
    );
}

#[test]
fn a_length_beyond_the_bytes_is_refused() {
    assert_eq!(
        DemoUser::decode(&[255, 255, 255, 255, 255, 255, 255, 255, 1, 2]),
        Err(DecodeError::Truncated)
    );
    assert_eq!(DemoUser::decode(&[3, 0, 0, 0, 0, 0, 0, 0, 97, 98]), Err(DecodeError::Truncated));
}

#[test]
fn a_request_is_its_users_and_its_block() {
    let request = DemoComplicatedRequest { users: vec![user("a", 1), user("", 2)], balabala: vec![0, 9] };
    assert_eq!(
        request.encode(),
        vec![
            2, 0, 0, 0, 0, 0, 0, 0, // two users
            1, 0, 0, 0, 0, 0, 0, 0, 97, 1, // the first
            0, 0, 0, 0, 0, 0, 0, 0, 2, // the second
            2, 0, 0, 0, 0, 0, 0, 0, 0, 9, // the block
        ]
    );
}

#[test]
fn an_empty_request_is_two_lengths() {
    let request = DemoComplicatedRequest { users: Vec::new(), balabala: Vec::new() };
    assert_eq!(request.encode(), vec![0; 16]);
    assert_eq!(DemoComplicatedRequest::decode(&[0; 16]), Ok(request));
}

#[test]
fn a_request_comes_back() {
    let requests = [
        DemoComplicatedRequest { users: Vec::new(), balabala: Vec::new() },
        DemoComplicatedRequest { users: vec![user("bob", 41)], balabala: Vec::new() },
        DemoComplicatedRequest { users: Vec::new(), balabala: vec![0, 0, 0] },
        DemoComplicatedRequest {
            users: vec![user("carol", 1), user("", 2), user("d\u{e9}j\u{e0}", 3), user("carol", 1)],
            balabala: vec![255, 0, 1, 0, 255],
        },
    ];
    for sent in requests {
        assert_eq!(DemoComplicatedRequest::decode(&sent.encode()), Ok(sent));
    }
}

#[test]
fn the_users_of_a_request_keep_their_order() {
    let request = DemoComplicatedRequest {
        users: vec![user("x", 3), user("y", 2), user("z", 1)],
        balabala: vec![7],
    };
    let back = DemoComplicatedRequest::decode(&request.encode()).unwrap();
    assert_eq!(back.users.len(), 3);
    assert_eq!(back.users[0], user("x", 3));
    assert_eq!(back.users[1], user("y", 2));
    assert_eq!(back.users[2], user("z", 1));
    assert_eq!(back.balabala, vec![7]);
}

#[test]
fn a_request_that_ends_early_is_refused() {
    let request = DemoComplicatedRequest { users: vec![user("a", 1)], balabala: vec![5, 6] };
    let bytes = request.encode();
    for end in 0..bytes.len() {
        assert_eq!(DemoComplicatedRequest::decode(&bytes[..end]), Err(DecodeError::Truncated));
    }
}

#[test]
fn a_request_that_counts_more_users_than_it_holds_is_refused() {
    assert_eq!(
        DemoComplicatedRequest::decode(&[
            255, 255, 255, 255, 255, 255, 255, 255, // far too many users
            0, 0, 0, 0, 0, 0, 0, 0, 2, // one user
            0, 0, 0, 0, 0, 0, 0, 0, // what would be the block
        ]),
        Err(DecodeError::Truncated)
    );
}

#[test]
fn a_request_with_bytes_after_it_is_refused() {
    let mut bytes = DemoComplicatedRequest { users: vec![user("a", 1)], balabala: vec![5] }.encode();
    bytes.push(5);
    assert_eq!(DemoComplicatedRequest::decode(&bytes), Err(DecodeError::TrailingBytes));
}

#[test]
fn a_request_with_a_name_that_is_not_text_is_refused() {
    assert_eq!(
        DemoComplicatedRequest::decode(&[
            1, 0, 0, 0, 0, 0, 0, 0, // one user
            1, 0, 0, 0, 0, 0, 0, 0, 0x80, 2, // whose name is no text
            0, 0, 0, 0, 0, 0, 0, 0, // the block
        ]),
        Err(DecodeError::InvalidText)
    );
}

#[test]
fn an_answer_is_one_byte() {
    assert_eq!(DemoResponse { pass: true }.encode(), vec![1]);
    assert_eq!(DemoResponse { pass: false }.encode(), vec![0]);
}

#[test]
fn an_answer_comes_back() {
    for sent in [DemoResponse { pass: true }, DemoResponse { pass: false }] {
        assert_eq!(DemoResponse::decode(&sent.encode()), Ok(sent));
    }
}

#[test]
fn an_answer_that_is_no_flag_is_refused() {
    assert_eq!(DemoResponse::decode(&[2]), Err(DecodeError::InvalidFlag));
    assert_eq!(DemoResponse::decode(&[255]), Err(DecodeError::InvalidFlag));
    assert_eq!(DemoResponse::decode(&[2, 0]), Err(DecodeError::InvalidFlag));
}

#[test]
fn an_answer_of_the_wrong_length_is_refused() {
    assert_eq!(DemoResponse::decode(&[]), Err(DecodeError::Truncated));
    assert_eq!(DemoResponse::decode(&[1, 0]), Err(DecodeError::TrailingBytes));
}
