use stm::hazard::{create, Sentinels, State};

const SPINS: usize = 1 << 16;

static BLOCKED: u8 = 0x01;
static FREE: u8 = 0x02;
static DEAD: u8 = 0x03;

fn address_of(value: &u8) -> usize {
    std::ptr::from_ref(value).addr()
}

fn words() -> Sentinels {
    let words = Sentinels {
        blocked: address_of(&BLOCKED),
        free: address_of(&FREE),
        dead: address_of(&DEAD),
    };
    assert!(words.is_valid());
    words
}

#[test]
fn test_set_and_get() {
    let (r, w) = create(words());
    assert!(w.is_blocked());

    w.free();
    assert!(!w.is_blocked());
    assert_eq!(r.get(SPINS), Some(State::Free));

    w.free();
    assert!(!w.is_blocked());
    assert_eq!(r.get(SPINS), Some(State::Free));

    let x: u8 = 42;

    w.protect(address_of(&x));
    assert_eq!(r.get(SPINS), Some(State::Protect(address_of(&x))));

    w.protect(0);
    assert_eq!(r.get(SPINS), Some(State::Protect(0)));

    w.protect(0x1);
    assert_eq!(r.get(SPINS), Some(State::Protect(0x1)));

    w.kill();
    assert!(r.destroy().is_ok());
}

#[test]
fn hazard_pair() {
    let (r, w) = create(words());
    let x: u8 = 2;

    w.free();
    assert_eq!(r.get(SPINS), Some(State::Free));
    w.protect(address_of(&x));
    assert_eq!(r.get(SPINS), Some(State::Protect(address_of(&x))));
    w.kill();
    assert_eq!(r.get(SPINS), Some(State::Dead));

    assert!(r.destroy().is_ok());
}

#[test]
fn drop() {
    for _ in 0..9000 {
        let (r, w) = create(words());
        w.kill();
        assert!(r.destroy().is_ok());
    }
}
