use target_inspect::margin::machine::measure;
use target_inspect::scan::{load_word, scan_margin, word, STACK_SENTINEL, WORD_BYTES};

fn filled(words: usize) -> Vec<u8> {
    let mut stack = Vec::new();
    for _ in 0..words {
        stack.extend_from_slice(&STACK_SENTINEL.to_le_bytes());
    }
    stack
}

#[test]
fn sentinel_is_the_kernel_fill_word() {
    assert_eq!(STACK_SENTINEL, 0xbaddcafe);
    assert_eq!(WORD_BYTES, 4);
}

#[test]
fn words_are_little_endian() {
    let bytes = [0xfe, 0xca, 0xdd, 0xba, 0x78, 0x56, 0x34, 0x12];
    assert_eq!(word(&bytes, 0), 0xbaddcafe);
    assert_eq!(word(&bytes, 4), 0x12345678);
    assert_eq!(word(&bytes, 1), 0x78baddca);
    assert_eq!(word(&[0xff, 0xff, 0xff, 0xff], 0), u32::MAX);
    assert_eq!(word(&[0, 0, 0, 0], 0), 0);
}

#[test]
fn word_is_loaded_only_where_it_fits() {
    let bytes = [1, 0, 0, 0, 2, 0, 0];
    assert_eq!(load_word(&bytes, 0), Some(1));
    assert_eq!(load_word(&bytes, 3), Some(0x0000_0200));
    assert_eq!(load_word(&bytes, 4), None);
    assert_eq!(load_word(&bytes, 7), None);
    assert_eq!(load_word(&bytes, usize::MAX), None);
    assert_eq!(load_word(&[], 0), None);
}

#[test]
fn untouched_stack_is_all_margin() {
    let stack = filled(256);
    assert_eq!(scan_margin(&stack, STACK_SENTINEL), 1024);
    let row = measure(0, String::from("idle"), 0x2000_2800, &stack);
    assert_eq!(row.size, 1024);
    assert_eq!(row.depth, 0);
    assert_eq!(row.margin, 1024);
}

#[test]
fn scan_stops_at_first_touched_word() {
    let mut stack = filled(8);
    stack[12] = 0;
    assert_eq!(scan_margin(&stack, STACK_SENTINEL), 12);
    stack[0] ^= 1;
    assert_eq!(scan_margin(&stack, STACK_SENTINEL), 0);
}

#[test]
fn untouched_words_above_a_touched_one_do_not_count() {
    let mut stack = filled(4);
    stack[4] = 0x11;
    assert_eq!(scan_margin(&stack, STACK_SENTINEL), 4);
}

#[test]
fn tail_shorter_than_a_word_counts_as_used() {
    let mut stack = filled(3);
    stack.extend_from_slice(&[0xfe, 0xca, 0xdd]);
    assert_eq!(stack.len(), 15);
    assert_eq!(scan_margin(&stack, STACK_SENTINEL), 12);
    let row = measure(1, String::from("ping"), 0x100, &stack);
    assert_eq!((row.size, row.depth, row.margin), (15, 3, 12));
}

#[test]
fn stack_shorter_than_a_word_is_all_depth() {
    for len in 0..4 {
        let stack = STACK_SENTINEL.to_le_bytes()[..len].to_vec();
        assert_eq!(scan_margin(&stack, STACK_SENTINEL), 0);
        let row = measure(0, String::new(), 0, &stack);
        assert_eq!(row.size, len);
        assert_eq!(row.depth, len);
        assert_eq!(row.margin, 0);
    }
}

#[test]
fn stack_untouched_for_three_quarters_has_that_margin() {
    let mut stack = filled(192);
    stack.extend(std::iter::repeat(0u8).take(256));
    assert_eq!(stack.len(), 1024);
    let row = measure(0, String::from("jefe"), 0x2000_1000, &stack);
    assert_eq!(row.task, 0);
    assert_eq!(row.name, "jefe");
    assert_eq!(row.base, 0x2000_1000);
    assert_eq!(row.size, 1024);
    assert_eq!(row.depth, 256);
    assert_eq!(row.margin, 768);
}

#[test]
fn depth_and_margin_split_the_size() {
    for touched in 0..=16usize {
        let mut stack = filled(4);
        for byte in stack.iter_mut().skip(touched) {
            *byte = 0x55;
        }
        let row = measure(2, String::from("t"), 0x40, &stack);
        assert!(row.depth <= row.size);
        assert_eq!(row.margin, row.size - row.depth);
        assert_eq!(row.margin, touched - touched % 4);
    }
}

#[test]
fn another_fill_word_can_be_scanned_for() {
    let stack = [0xef, 0xbe, 0xad, 0xde, 0xef, 0xbe, 0xad, 0xde, 0, 0, 0, 0];
    assert_eq!(scan_margin(&stack, 0xdeadbeef), 8);
    assert_eq!(scan_margin(&stack, STACK_SENTINEL), 0);
    assert_eq!(scan_margin(&[0, 0, 0, 0, 0, 0, 0, 0, 1], 0), 8);
}
