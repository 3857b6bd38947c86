use sqlite_glance::dispatch::{
    choose_output, dispatch, measure, sample_output, schema_output, Extent, OutputMode, Terminal,
};

fn std_measure(text: &str, line: Option<usize>) -> Extent {
    Extent {
        height: text.lines().count(),
        width: line.and_then(|k| text.lines().nth(k)).map(|l| l.chars().count()),
    }
}

#[test]
fn measure_counts_lines_as_the_standard_library_does() {
    let texts = [
        "",
        "\n",
        "a",
        "a\n",
        "a\nbc",
        "a\nbc\n",
        "a\r\nbcd\r\n",
        "a\r\nbcd\r",
        "\r\n\r\n",
        "\n\nx",
        "caf\u{e9}\n\u{250c}\u{2500}\u{2500}\u{2510}\nx",
        "one\rtwo\nthree",
    ];
    for text in texts {
        for line in [None, Some(0), Some(1), Some(2), Some(3)] {
            assert_eq!(measure(text, line), std_measure(text, line));
        }
    }
}

#[test]
fn measure_of_a_grid() {
    let text = "test.db: t1 table\n\u{250c}\u{2500}\u{2500}\u{2500}\u{2510}\n\u{2502} a \u{2502}\n";
    assert_eq!(measure(text, Some(1)), Extent { height: 3, width: Some(5) });
    assert_eq!(measure(text, None), Extent { height: 3, width: None });
    assert_eq!(measure(text, Some(9)), Extent { height: 3, width: None });
}

#[test]
fn output_that_fits_is_printed_directly() {
    let extent = Extent { height: 24, width: Some(80) };
    assert_eq!(choose_output(true, extent, 80, 24), OutputMode::Direct);
}

#[test]
fn taller_output_is_paged_on_a_terminal() {
    let extent = Extent { height: 25, width: Some(10) };
    assert_eq!(choose_output(true, extent, 80, 24), OutputMode::Paged);
    let extent = Extent { height: 25, width: None };
    assert_eq!(choose_output(true, extent, 80, 24), OutputMode::Paged);
}

#[test]
fn wider_output_is_paged_on_a_terminal() {
    let extent = Extent { height: 3, width: Some(81) };
    assert_eq!(choose_output(true, extent, 80, 24), OutputMode::Paged);
}

#[test]
fn width_counts_only_where_it_is_measured() {
    let extent = Extent { height: 3, width: None };
    assert_eq!(choose_output(true, extent, 0, 24), OutputMode::Direct);
}

#[test]
fn redirected_output_is_never_paged() {
    let extent = Extent { height: 100_000, width: Some(100_000) };
    assert_eq!(choose_output(false, extent, 80, 24), OutputMode::Direct);
    assert_eq!(choose_output(false, extent, 0, 0), OutputMode::Direct);
}

#[test]
fn dispatch_measures_and_chooses() {
    let text = "head\n0123456789\nx\n";
    assert_eq!(dispatch(text, Some(1), true, 10, 3), OutputMode::Direct);
    assert_eq!(dispatch(text, Some(1), true, 9, 3), OutputMode::Paged);
    assert_eq!(dispatch(text, Some(1), true, 10, 2), OutputMode::Paged);
    assert_eq!(dispatch(text, None, true, 9, 3), OutputMode::Direct);
    assert_eq!(dispatch(text, Some(1), false, 9, 2), OutputMode::Direct);
}

#[test]
fn schema_output_looks_at_the_height_only() {
    let text = "a very wide first line of a report\nx\n";
    let terminal = Terminal { interactive: true, cols: 3, rows: 2 };
    assert_eq!(schema_output(text, terminal), OutputMode::Direct);
    let terminal = Terminal { interactive: true, cols: 300, rows: 1 };
    assert_eq!(schema_output(text, terminal), OutputMode::Paged);
    let terminal = Terminal { interactive: false, cols: 300, rows: 1 };
    assert_eq!(schema_output(text, terminal), OutputMode::Direct);
}

#[test]
fn sample_output_measures_the_line_behind_the_heading() {
    let text = "a heading in\ntwo lines\n+----+\n| ab |\n";
    let terminal = Terminal { interactive: true, cols: 6, rows: 4 };
    assert_eq!(sample_output(text, 2, terminal), OutputMode::Direct);
    let terminal = Terminal { interactive: true, cols: 5, rows: 4 };
    assert_eq!(sample_output(text, 2, terminal), OutputMode::Paged);
    assert_eq!(sample_output(text, 1, Terminal { interactive: true, cols: 8, rows: 4 }), OutputMode::Paged);
    assert_eq!(sample_output(text, 2, Terminal { interactive: true, cols: 6, rows: 3 }), OutputMode::Paged);
    assert_eq!(sample_output(text, 2, Terminal { interactive: false, cols: 1, rows: 1 }), OutputMode::Direct);
    assert_eq!(sample_output(text, 9, Terminal { interactive: true, cols: 0, rows: 4 }), OutputMode::Direct);
}
