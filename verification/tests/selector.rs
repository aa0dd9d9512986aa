use selector_link::selector::SelectorState;

const ALL: [SelectorState; 4] = [
    SelectorState::Idle,
    SelectorState::OptionA,
    SelectorState::OptionB,
    SelectorState::OptionC,
];

#[test]
fn codes_are_the_ascii_digits() {
    assert_eq!(SelectorState::Idle.code(), b'0');
    assert_eq!(SelectorState::OptionA.code(), b'1');
    assert_eq!(SelectorState::OptionB.code(), b'2');
    assert_eq!(SelectorState::OptionC.code(), b'3');
    assert_eq!(SelectorState::Idle.code(), 0x30);
    assert_eq!(SelectorState::OptionC.code(), 0x33);
}

#[test]
fn message_is_exactly_one_code_byte() {
    assert_eq!(SelectorState::Idle.message(), *b"0");
    assert_eq!(SelectorState::OptionA.message(), *b"1");
    assert_eq!(SelectorState::OptionB.message(), *b"2");
    assert_eq!(SelectorState::OptionC.message(), *b"3");
    for state in ALL {
        assert_eq!(state.message().len(), 1);
        assert_eq!(state.message()[0], state.code());
    }
}

#[test]
fn counters_map_to_states() {
    assert_eq!(SelectorState::from_counter(0), SelectorState::Idle);
    assert_eq!(SelectorState::from_counter(1), SelectorState::OptionA);
    assert_eq!(SelectorState::from_counter(2), SelectorState::OptionB);
    assert_eq!(SelectorState::from_counter(3), SelectorState::OptionC);
}

#[test]
fn counters_out_of_range_map_to_idle() {
    for counter in [4i8, 5, 100, i8::MAX, -1, -4, i8::MIN] {
        assert_eq!(SelectorState::from_counter(counter), SelectorState::Idle);
    }
}

#[test]
fn mapped_codes_select_their_state() {
    assert_eq!(SelectorState::from_code(0x30), SelectorState::Idle);
    assert_eq!(SelectorState::from_code(0x31), SelectorState::OptionA);
    assert_eq!(SelectorState::from_code(0x32), SelectorState::OptionB);
    assert_eq!(SelectorState::from_code(0x33), SelectorState::OptionC);
}

#[test]
fn unmapped_codes_select_idle() {
    for code in 0u8..=255 {
        if !(0x31..=0x33).contains(&code) {
            assert_eq!(SelectorState::from_code(code), SelectorState::Idle, "code {code:#04x}");
        }
    }
}

#[test]
fn code_round_trips() {
    for state in ALL {
        assert_eq!(SelectorState::from_code(state.code()), state);
    }
}

#[test]
fn counter_and_code_agree() {
    for counter in 0i8..=3 {
        let state = SelectorState::from_counter(counter);
        assert_eq!(state.code(), b'0' + counter as u8);
    }
}
