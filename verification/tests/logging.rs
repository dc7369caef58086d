use pvf_harness::codec::pack;
use pvf_harness::logging::{ext_logging_log_version_1, log_line};
use pvf_harness::memory::OutOfBounds;

#[test]
fn log_line_has_level_target_and_message() {
    assert_eq!(log_line(3, b"runtime", b"hello"), b"L3 [runtime] hello".to_vec());
    assert_eq!(log_line(0, b"", b""), b"L0 [] ".to_vec());
    assert_eq!(log_line(10, b"a", b"b c"), b"L10 [a] b c".to_vec());
    assert_eq!(log_line(909, b"x", b"y"), b"L909 [x] y".to_vec());
    assert_eq!(log_line(u32::MAX, b"t", b"m"), b"L4294967295 [t] m".to_vec());
}

#[test]
fn log_line_is_what_formatting_gives_for_text() {
    for level in [0u32, 1, 9, 10, 99, 100, 1_000_000, 4_000_000_000, u32::MAX] {
        let expected = format!("L{} [{}] {}", level, "pvf::adder", "added 5 \u{2192} 14");
        assert_eq!(
            log_line(level, "pvf::adder".as_bytes(), "added 5 \u{2192} 14".as_bytes()),
            expected.into_bytes()
        );
    }
}

#[test]
fn logging_import_reads_its_texts_from_memory() {
    let memory = b"..runtime..validated block..".to_vec();
    let target = pack(2, 7);
    let message = pack(11, 15);
    assert_eq!(
        ext_logging_log_version_1(&memory, 2, target, message),
        Ok(b"L2 [runtime] validated block".to_vec())
    );
    assert_eq!(ext_logging_log_version_1(&memory, 5, pack(0, 0), pack(28, 0)), Ok(b"L5 [] ".to_vec()));
}

#[test]
fn logging_import_refuses_text_outside_memory() {
    let memory = b"0123456789".to_vec();
    assert_eq!(
        ext_logging_log_version_1(&memory, 1, pack(8, 3), pack(0, 2)),
        Err(OutOfBounds { offset: 8, length: 3, extent: 10 })
    );
    assert_eq!(
        ext_logging_log_version_1(&memory, 1, pack(0, 2), pack(11, 0)),
        Err(OutOfBounds { offset: 11, length: 0, extent: 10 })
    );
    assert_eq!(
        ext_logging_log_version_1(&memory, 1, pack(9, 9), pack(11, 0)),
        Err(OutOfBounds { offset: 9, length: 9, extent: 10 })
    );
}
