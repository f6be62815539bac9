use mintshot::save::{
    create_unique_file, encode_png_to_vec, generate_filename, numbered_filename, save_dir,
    CreateOutcome, Timestamp, UniqueFileStep,
};

fn ts() -> Timestamp {
    Timestamp {
        year: 2024,
        month: 3,
        day: 7,
        hour: 9,
        minute: 5,
        second: 2,
        nanosecond: 45_600_000,
    }
}

#[test]
fn file_names_carry_a_millisecond_stamp() {
    assert_eq!(generate_filename(&ts()), "mintshot_20240307_090502.045.png");
    assert_eq!(numbered_filename(&ts(), 12), "mintshot_20240307_090502.045_12.png");
    let leap = Timestamp { second: 59, nanosecond: 1_250_000_000, ..ts() };
    assert_eq!(generate_filename(&leap), "mintshot_20240307_090560.250.png");
    let early = Timestamp { year: 33, ..ts() };
    assert_eq!(generate_filename(&early), "mintshot_00330307_090502.045.png");
    let late = Timestamp { year: 12345, ..ts() };
    assert_eq!(generate_filename(&late), "mintshot_+123450307_090502.045.png");
    let before = Timestamp { year: -7, ..ts() };
    assert_eq!(generate_filename(&before), "mintshot_-00070307_090502.045.png");
}

#[test]
fn save_directory_is_under_home() {
    assert_eq!(save_dir(&Some("/home/u".to_string())), Ok("/home/u/Pictures/MintShot".to_string()));
    assert_eq!(save_dir(&None), Err("Cannot determine home directory".to_string()));
}

#[test]
fn unique_names_count_up_and_stop() {
    let t = ts();
    match create_unique_file(&t, 0, None) {
        UniqueFileStep::TryName(n) => assert_eq!(n, "mintshot_20240307_090502.045.png"),
        other => panic!("unexpected {:?}", other),
    }
    match create_unique_file(&t, 0, Some(CreateOutcome::AlreadyExists)) {
        UniqueFileStep::TryName(n) => assert_eq!(n, "mintshot_20240307_090502.045_1.png"),
        other => panic!("unexpected {:?}", other),
    }
    match create_unique_file(&t, 41, Some(CreateOutcome::AlreadyExists)) {
        UniqueFileStep::TryName(n) => assert_eq!(n, "mintshot_20240307_090502.045_42.png"),
        other => panic!("unexpected {:?}", other),
    }
    match create_unique_file(&t, 9999, Some(CreateOutcome::AlreadyExists)) {
        UniqueFileStep::Fail(m) => {
            assert_eq!(m, "Cannot create a unique filename after 9 999 attempts")
        }
        other => panic!("unexpected {:?}", other),
    }
    assert!(matches!(create_unique_file(&t, 3, Some(CreateOutcome::Created)), UniqueFileStep::Done));
    match create_unique_file(&t, 3, Some(CreateOutcome::Failed("denied".to_string()))) {
        UniqueFileStep::Fail(m) => assert_eq!(m, "denied"),
        other => panic!("unexpected {:?}", other),
    }
}

#[test]
fn png_encoding_produces_a_png() {
    let pixels = vec![255u8, 0, 0, 255, 0, 255, 0, 255];
    let bytes = encode_png_to_vec(&pixels, 2, 1).unwrap();
    assert_eq!(&bytes[0..8], &[137, 80, 78, 71, 13, 10, 26, 10]);
    assert!(bytes.len() > pixels.len());
    assert_ne!(bytes, pixels);
}

#[test]
fn png_encoding_rejects_bad_sizes() {
    assert!(encode_png_to_vec(&[], 0, 1).is_err());
    assert!(encode_png_to_vec(&[], 1, 0).is_err());
    assert!(encode_png_to_vec(&[1, 2, 3], 1, 1).is_err());
    assert!(!encode_png_to_vec(&[1, 2, 3], 1, 1).unwrap_err().is_empty());
}
