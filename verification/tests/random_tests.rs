use roc_host::roc_io_error::IOErrTag;
use roc_host::roc_random::{random_u32, random_u64, seed_u32, seed_u64};

#[test]
fn seed_of_equal_bytes() {
    assert_eq!(seed_u64(Ok([7; 8])).ok(), Some(0x0707_0707_0707_0707));
    assert_eq!(seed_u32(Ok([0xAB; 4])).ok(), Some(0xABAB_ABAB));
    assert_eq!(seed_u64(Ok([0; 8])).ok(), Some(0));
    assert_eq!(seed_u32(Ok([0xFF; 4])).ok(), Some(u32::MAX));
}

#[test]
fn seed_is_read_in_one_of_the_two_byte_orders() {
    let wide = seed_u64(Ok([1, 2, 3, 4, 5, 6, 7, 8])).ok().unwrap();
    assert!(wide == 0x0807_0605_0403_0201 || wide == 0x0102_0304_0506_0708);
    assert_eq!(wide, u64::from_ne_bytes([1, 2, 3, 4, 5, 6, 7, 8]));

    let narrow = seed_u32(Ok([1, 2, 3, 4])).ok().unwrap();
    assert!(narrow == 0x0403_0201 || narrow == 0x0102_0304);
    assert_eq!(narrow, u32::from_ne_bytes([1, 2, 3, 4]));
}

#[test]
fn failure_of_the_source_is_an_other_error() {
    let e = seed_u64(Err(getrandom::Error::UNSUPPORTED)).err().unwrap();
    assert!(e.tag() == IOErrTag::Other);
    assert_eq!(e.message(), Some("getrandom: this target is not supported"));

    let e = seed_u32(Err(getrandom::Error::UNEXPECTED)).err().unwrap();
    assert!(e.tag() == IOErrTag::Other);
    assert_eq!(e.message(), Some("unexpected situation"));
}

#[test]
fn failure_with_a_code_of_its_own() {
    let code = std::num::NonZeroU32::new(getrandom::Error::CUSTOM_START + 5).unwrap();
    let error = getrandom::Error::from(code);
    let e = seed_u64(Err(error)).err().unwrap();
    assert!(e.tag() == IOErrTag::Other);
    assert_eq!(e.message(), Some(error.to_string().as_str()));
}

#[test]
fn random_seeds_or_an_other_error() {
    match random_u64() {
        Ok(_) => {}
        Err(e) => {
            assert!(e.tag() == IOErrTag::Other);
            assert!(e.message().is_some());
        }
    }
    match random_u32() {
        Ok(_) => {}
        Err(e) => {
            assert!(e.tag() == IOErrTag::Other);
            assert!(e.message().is_some());
        }
    }
}

#[test]
fn random_seeds_are_not_all_the_same() {
    let mut seeds = Vec::new();
    for _ in 0..16 {
        if let Ok(seed) = random_u64() {
            seeds.push(seed);
        }
    }
    if seeds.len() == 16 {
        assert!(seeds.iter().any(|seed| *seed != seeds[0]));
    }
}
