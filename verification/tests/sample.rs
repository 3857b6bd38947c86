use comfy_table::presets::UTF8_FULL;
use sqlite_glance::sample::{
    count_query, format_cell, heading_lines, render_sample, sample_query, selected_count_query,
    to_byte_string_literal, Cell, Sample,
};
use sqlite_glance::size::fmt_n_bytes;

fn float_size(n: usize) -> String {
    if n < 1024 {
        return format!("{} B", n);
    }
    let mut size: f32 = n as f32;
    let units = ["KiB", "MiB", "GiB", "TiB", "PiB", "EiB"];
    for unit in units {
        size /= 1024.0;
        if size < 1024.0 {
            return format!("{:.1} {}", size, unit);
        }
    }
    "huge".to_string()
}

#[test]
fn byte_string_literal_of_printable_bytes() {
    assert_eq!(to_byte_string_literal(b"abc(~)"), "b\"abc(~)\"");
    assert_eq!(to_byte_string_literal(b""), "b\"\"");
}

#[test]
fn byte_string_literal_escapes_the_rest() {
    assert_eq!(to_byte_string_literal(&[0, 39, 40, 126, 127, 255]), "b\"\\x00\\x27(~\\x7F\\xFF\"");
    assert_eq!(to_byte_string_literal(b" \"\n"), "b\"\\x20\\x22\\x0A\"");
    assert_eq!(to_byte_string_literal(b"\\"), "b\"\\\"");
    assert_eq!(to_byte_string_literal(&[0xAB, 0x1C]), "b\"\\xAB\\x1C\"");
}

#[test]
fn small_sizes_are_written_in_bytes() {
    assert_eq!(fmt_n_bytes(0), "0 B");
    assert_eq!(fmt_n_bytes(9), "9 B");
    assert_eq!(fmt_n_bytes(1023), "1023 B");
}

#[test]
fn larger_sizes_are_written_with_a_unit() {
    assert_eq!(fmt_n_bytes(1024), "1.0 KiB");
    assert_eq!(fmt_n_bytes(1280), "1.2 KiB");
    assert_eq!(fmt_n_bytes(1536), "1.5 KiB");
    assert_eq!(fmt_n_bytes(1024 * 1024 - 1), "1024.0 KiB");
    assert_eq!(fmt_n_bytes(1024 * 1024), "1.0 MiB");
    assert_eq!(fmt_n_bytes(5 * 1024 * 1024 * 1024), "5.0 GiB");
    assert_eq!(fmt_n_bytes(usize::MAX), "16.0 EiB");
}

#[test]
fn sizes_agree_with_single_precision_arithmetic() {
    let mut checked = 0;
    for n in 0..70_000usize {
        assert_eq!(fmt_n_bytes(n), float_size(n), "{}", n);
        checked += 1;
    }
    for shift in 10..64u32 {
        let base = 1usize << shift;
        for delta in 0..600usize {
            for n in [base.wrapping_add(delta), base.wrapping_sub(delta), base + (base >> 1) + delta,
                base + (base >> 1) - delta, base + (base / 5) * 3 + delta]
            {
                assert_eq!(fmt_n_bytes(n), float_size(n), "{}", n);
                checked += 1;
            }
        }
    }
    let mut x: u64 = 0x2545_F491_4F6C_DD1D;
    for _ in 0..200_000 {
        x ^= x << 13;
        x ^= x >> 7;
        x ^= x << 17;
        let n = (x >> (x % 54)) as usize;
        assert_eq!(fmt_n_bytes(n), float_size(n), "{}", n);
        checked += 1;
    }
    assert!(checked > 400_000);
}

#[test]
fn cells_are_formatted_by_kind() {
    assert_eq!(format_cell(&Cell::Null), "");
    assert_eq!(format_cell(&Cell::Integer(0)), "0");
    assert_eq!(format_cell(&Cell::Integer(42)), "42");
    assert_eq!(format_cell(&Cell::Integer(-7)), "-7");
    assert_eq!(format_cell(&Cell::Integer(i64::MAX)), "9223372036854775807");
    assert_eq!(format_cell(&Cell::Integer(i64::MIN)), "-9223372036854775808");
    assert_eq!(format_cell(&Cell::Real("1.5".to_string())), "1.5");
    assert_eq!(format_cell(&Cell::Text("a b".to_string())), "a b");
}

#[test]
fn short_blobs_are_shown_whole() {
    assert_eq!(format_cell(&Cell::Blob(vec![])), "b\"\"");
    assert_eq!(format_cell(&Cell::Blob(b"12345678".to_vec())), "b\"12345678\"");
}

#[test]
fn long_blobs_are_cut_and_sized() {
    assert_eq!(format_cell(&Cell::Blob(b"123456789".to_vec())), "b\"123456\".. (9 B)");
    assert_eq!(format_cell(&Cell::Blob(vec![0; 2048])),
        "b\"\\x00\\x00\\x00\\x00\\x00\\x00\".. (2.0 KiB)");
}

#[test]
fn queries_escape_the_name() {
    assert_eq!(sample_query("t1", None), "SELECT * FROM t1  LIMIT ?");
    assert_eq!(sample_query("t1", Some("a > 1")), "SELECT * FROM t1 WHERE a > 1 LIMIT ?");
    assert_eq!(sample_query("select", None), "SELECT * FROM \"select\"  LIMIT ?");
    assert_eq!(count_query("a\"b"), "SELECT count(*) from \"a\"\"b\"");
    assert_eq!(
        selected_count_query("order", "x = 'y'"),
        "SELECT count(*) from \"order\" WHERE x = 'y'"
    );
}

fn sample() -> Sample {
    Sample {
        columns: vec!["id".to_string(), "name".to_string()],
        rows: vec![
            vec![Cell::Integer(1), Cell::Text("one".to_string())],
            vec![Cell::Integer(2), Cell::Null],
        ],
        selected: None,
    }
}

#[test]
fn sample_is_drawn_as_a_grid() {
    let text = render_sample("f.db", "t1", "table", &sample(), 10, false);
    let expected = "f.db: t1 table\n\
\u{250c}\u{2500}\u{2500}\u{2500}\u{2500}\u{252c}\u{2500}\u{2500}\u{2500}\u{2500}\u{2500}\u{2500}\u{2510}\n\
\u{2502} id \u{2506} name \u{2502}\n\
\u{255e}\u{2550}\u{2550}\u{2550}\u{2550}\u{256a}\u{2550}\u{2550}\u{2550}\u{2550}\u{2550}\u{2550}\u{2561}\n\
\u{2502} 1  \u{2506} one  \u{2502}\n\
\u{251c}\u{254c}\u{254c}\u{254c}\u{254c}\u{253c}\u{254c}\u{254c}\u{254c}\u{254c}\u{254c}\u{254c}\u{2524}\n\
\u{2502} 2  \u{2506}      \u{2502}\n\
\u{2514}\u{2500}\u{2500}\u{2500}\u{2500}\u{2534}\u{2500}\u{2500}\u{2500}\u{2500}\u{2500}\u{2500}\u{2518}\n\
2 of 10 rows\n";
    assert_eq!(text, expected);
}

#[test]
fn sample_grid_is_the_one_of_the_table_crate() {
    let mut table = comfy_table::Table::new();
    table.load_preset(UTF8_FULL).set_header(vec!["id", "name"]);
    table.add_row(vec!["1", "one"]);
    table.add_row(vec!["2", ""]);
    let text = render_sample("f.db", "t1", "table", &sample(), 10, false);
    assert_eq!(text, format!("f.db: t1 table\n{}\n2 of 10 rows\n", table));
}

#[test]
fn sample_footer_with_a_filter() {
    let mut s = sample();
    s.selected = Some(5);
    let text = render_sample("f.db", "t1", "view", &s, 10, false);
    assert!(text.starts_with("f.db: t1 view\n"));
    assert!(text.ends_with("\n2 of 5 selected rows (of 10 in table)\n"));
}

#[test]
fn sample_heading_is_styled_where_colour_is_on() {
    let text = render_sample("f.db", "select", "table", &sample(), 10, true);
    assert!(text.starts_with("f.db: \u{1b}[1;92m\"select\"\u{1b}[0m table\n"));
}

#[test]
fn heading_takes_a_line_more_for_each_line_feed() {
    assert_eq!(heading_lines("f.db", "t1", "table", false), 1);
    assert_eq!(heading_lines("f.db", "t1", "table", true), 1);
    assert_eq!(heading_lines("f.db", "foo \n\"bar", "table", false), 2);
    assert_eq!(heading_lines("a\nb", "c\nd\n", "view", true), 4);
}
