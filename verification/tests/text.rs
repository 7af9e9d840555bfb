use target_inspect::protocol::StackMarginResult;
use target_inspect::text::{
    decimal_text, hexadecimal_text, margin_header, margin_row, supervisor_notice, unknown_row,
    variable_row,
};

fn row(task: u32, name: &str, base: u32, size: usize, depth: usize, margin: usize) -> StackMarginResult {
    StackMarginResult { task, name: name.to_string(), base, size, depth, margin }
}

#[test]
fn numbers_are_written_in_decimal() {
    assert_eq!(decimal_text(0), "0");
    assert_eq!(decimal_text(9), "9");
    assert_eq!(decimal_text(10), "10");
    assert_eq!(decimal_text(1024), "1024");
    assert_eq!(decimal_text(u64::MAX), "18446744073709551615");
    for n in [1u64, 99, 100, 4294967295, 12345678901234] {
        assert_eq!(decimal_text(n), format!("{}", n));
    }
}

#[test]
fn numbers_are_written_in_lower_case_hexadecimal() {
    assert_eq!(hexadecimal_text(0), "0");
    assert_eq!(hexadecimal_text(15), "f");
    assert_eq!(hexadecimal_text(16), "10");
    assert_eq!(hexadecimal_text(0xbaddcafe), "baddcafe");
    assert_eq!(hexadecimal_text(u64::MAX), "ffffffffffffffff");
    for n in [0x2000_1000u64, 0xabcdef, 0x1234_5678_9abc_def0] {
        assert_eq!(hexadecimal_text(n), format!("{:x}", n));
    }
}

#[test]
fn header_names_the_columns() {
    assert_eq!(
        margin_header(),
        "ID TASK                STACKBASE  STACKSIZE   MAXDEPTH     MARGIN"
    );
    assert_eq!(
        margin_header(),
        format!(
            "{:2} {:18} {:>10} {:>10} {:>10} {:>10}",
            "ID", "TASK", "STACKBASE", "STACKSIZE", "MAXDEPTH", "MARGIN"
        )
    );
}

#[test]
fn measured_row_is_laid_out_in_columns() {
    assert_eq!(
        margin_row(&row(0, "jefe", 0x2000_1000, 1024, 256, 768)),
        " 0 jefe               0x20001000       1024        256        768"
    );
    assert_eq!(
        margin_row(&row(6, "idle", 0x2000_2800, 256, 104, 152)),
        " 6 idle               0x20002800        256        104        152"
    );
}

#[test]
fn measured_row_agrees_with_the_standard_formatter() {
    let rows = [
        row(0, "", 0, 0, 0, 0),
        row(1, "rcc_driver", 0x2000_1400, 1024, 176, 848),
        row(12, "a_task_with_a_very_long_name", 0x800, 7, 3, 4),
        row(100, "exactly_eighteen_c", 0x1_2345, 4096, 4096, 0),
        row(u32::MAX, "grüße", u32::MAX, usize::MAX, usize::MAX, 0),
    ];
    for r in rows.iter() {
        assert_eq!(
            margin_row(r),
            format!(
                "{:2} {:18} 0x{:<8x} {:10} {:10} {:10}",
                r.task, r.name, r.base, r.size, r.depth, r.margin
            )
        );
    }
}

#[test]
fn short_base_is_padded_on_the_right() {
    assert_eq!(
        margin_row(&row(3, "t", 0x40, 16, 8, 8)),
        " 3 t                  0x40               16          8          8"
    );
}

#[test]
fn unknown_row_says_why() {
    assert_eq!(
        unknown_row(0, "jefe"),
        " 0 jefe               unknown (cannot read supervisor memory remotely)"
    );
    assert_eq!(
        unknown_row(10, "supervisor"),
        format!("{:2} {:18} unknown (cannot read supervisor memory remotely)", 10, "supervisor")
    );
}

#[test]
fn variable_row_shows_name_address_and_value() {
    assert_eq!(
        variable_row("CURRENT_TASK_PTR", 0x2000_0018, "Some(0x20000558)"),
        "CURRENT_TASK_PTR (0x20000018) = Some(0x20000558)"
    );
    assert_eq!(variable_row("X", 0x18, "1\n"), "X (0x00000018) = 1\n");
    assert_eq!(variable_row("", 0, ""), " (0x00000000) = ");
    for addr in [0u32, 0xf, 0x100, 0x0800_0004, u32::MAX] {
        assert_eq!(
            variable_row("TICKS", addr, "[\n    0x1\n]"),
            format!("{} (0x{:08x}) = {}", "TICKS", addr, "[\n    0x1\n]")
        );
    }
}

#[test]
fn notice_says_that_the_supervisor_is_left_out() {
    assert_eq!(
        supervisor_notice(),
        "skipping supervisor because we are reading over the network"
    );
}
