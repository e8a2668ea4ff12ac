use clap_clap::ffi::{clap_timestamp, CLAP_TIMESTAMP_UNKNOWN};
use clap_clap::timestamp::TimeStamp;
use clap_clap::version::clap_version;
use clap_clap::fixedpoint::{BeatTime, SecTime};

#[test]
fn cast_name_size_as_usize() {
    usize::try_from(clap_clap::ffi::CLAP_NAME_SIZE).unwrap();
}

#[test]
fn cast_path_size_as_usize() {
    usize::try_from(clap_clap::ffi::CLAP_PATH_SIZE).unwrap();
}

#[test]
fn clap_timestamp_unknown_is_zero() {
    assert_eq!(CLAP_TIMESTAMP_UNKNOWN, 0);
}

#[test]
fn clap_timestamp_is_u64() {
    let x: clap_timestamp = u64::MAX;
    assert!(x > 0)
}

#[test]
fn string_sizes_match_ffi() {
    assert_eq!(clap_clap::string_sizes::CLAP_NAME_SIZE, 256);
    assert_eq!(clap_clap::string_sizes::CLAP_PATH_SIZE, 1024);
}

#[test]
fn timestamp_doc_examples() {
    assert_ne!(TimeStamp::from(1), TimeStamp::Unknown);
    assert!(TimeStamp::from(2) > TimeStamp::from(1));
    assert_eq!(TimeStamp::from(CLAP_TIMESTAMP_UNKNOWN), TimeStamp::Unknown);
}

#[test]
fn timestamp_round_trip() {
    for v in [0u64, 1, 2, 1_700_000_000, u64::MAX] {
        let t = TimeStamp::from(v);
        assert_eq!(u64::from(t), v);
    }
    assert_eq!(TimeStamp::from(42), TimeStamp::Seconds(42));
    assert_eq!(u64::from(TimeStamp::Unknown), 0);
    assert_eq!(TimeStamp::from(u64::from(TimeStamp::Seconds(7))), TimeStamp::Seconds(7));
}

#[test]
fn version_is_1_2_3() {
    let v = clap_version();
    assert_eq!((v.major, v.minor, v.revision), (1, 2, 3));
}

#[test]
fn fixedpoint_new_keeps_value() {
    assert_eq!(BeatTime::new(-5).0, -5);
    assert_eq!(SecTime::new(1 << 31).0, 1 << 31);
    assert!(BeatTime::new(1) < BeatTime::new(2));
}
