use numlocklrs::led_state_from_bytes;
use numlocklrs::parse_led_bytes;
use numlocklrs::Error;
use numlocklrs::State;

#[test]
fn parse_off() {
    let r = led_state_from_bytes(&b"0\n".to_vec(), b"some/path".to_vec());
    assert_eq!(r, Ok(State::OFF));
}

#[test]
fn parse_on() {
    let r = led_state_from_bytes(&b"1\n".to_vec(), b"some/path".to_vec());
    assert_eq!(r, Ok(State::ON));
}

#[test]
fn parse_rejects_everything_else() {
    let bad: Vec<Vec<u8>> = vec![
        b"".to_vec(),
        b"0".to_vec(),
        b"1".to_vec(),
        b"01\n".to_vec(),
        b"2\n".to_vec(),
        b"0\n\n".to_vec(),
        b"on\n".to_vec(),
        vec![0xFF, 0xFE],
    ];
    for bytes in bad {
        let path = b"sys/class/leds/input0::numlock/brightness".to_vec();
        let r = led_state_from_bytes(&bytes, path.clone());
        assert_eq!(r, Err(Error::InvalidLedState(path)));
    }
}

#[test]
fn parse_option_form() {
    assert_eq!(parse_led_bytes(&b"0\n".to_vec()), Some(State::OFF));
    assert_eq!(parse_led_bytes(&b"1\n".to_vec()), Some(State::ON));
    assert_eq!(parse_led_bytes(&b"2\n".to_vec()), None);
    assert_eq!(parse_led_bytes(&b"".to_vec()), None);
}

#[test]
fn toggled_swaps() {
    assert_eq!(State::OFF.toggled(), State::ON);
    assert_eq!(State::ON.toggled(), State::OFF);
}

#[test]
fn toggled_twice_is_identity() {
    assert_eq!(State::OFF.toggled().toggled(), State::OFF);
    assert_eq!(State::ON.toggled().toggled(), State::ON);
}
