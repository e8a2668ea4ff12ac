use clap_clap::id::{ClapId, Error, CLAP_INVALID_ID};

#[test]
fn id_doc_example() {
    let id = ClapId::from(3u16);
    assert!(id.is_valid());
    assert_ne!(id, ClapId::invalid_id());
}

#[test]
fn id_from_u32() {
    let id = ClapId::try_from(7u32).unwrap();
    assert!(id.is_valid());
    assert_eq!(u32::from(id), 7);
    assert_eq!(ClapId::try_from(u32::MAX), Err(Error::InvalidId));
    assert_eq!(ClapId::try_from(u32::MAX - 1).map(u32::from), Ok(u32::MAX - 1));
}

#[test]
fn id_from_i32() {
    assert_eq!(ClapId::try_from(-1i32), Err(Error::Underflow));
    assert_eq!(ClapId::try_from(i32::MIN), Err(Error::Underflow));
    assert_eq!(ClapId::try_from(0i32).map(u32::from), Ok(0));
    assert_eq!(ClapId::try_from(i32::MAX).map(u32::from), Ok(i32::MAX as u32));
}

#[test]
fn id_from_usize() {
    assert_eq!(ClapId::try_from(5usize).map(u32::from), Ok(5));
    assert_eq!(ClapId::try_from(u32::MAX as usize), Err(Error::InvalidId));
    if usize::BITS > 32 {
        assert_eq!(ClapId::try_from((u32::MAX as usize) + 1), Err(Error::Overflow));
    }
}

#[test]
fn invalid_id_converts_to_reserved_value() {
    let invalid = ClapId::invalid_id();
    assert!(!invalid.is_valid());
    assert_eq!(u32::from(invalid), CLAP_INVALID_ID);
    assert_eq!(ClapId::default(), invalid);
    assert_eq!(invalid.to_clap_id(), u32::MAX);
}

#[test]
fn id_round_trip() {
    for v in [0u32, 1, 1000, u32::MAX - 1] {
        let id = ClapId::try_from(v).unwrap();
        assert_eq!(ClapId::try_from(u32::from(id)), Ok(id));
    }
}
