use grid_printer::style::{Bg, Fg, Sgr, StyleOpt};
use grid_printer::{GridPrinter, GridPrinterBuilder, GridPrinterErr};

fn to_grid(rows: &[&[&str]]) -> Vec<Vec<String>> {
    rows.iter().map(|r| r.iter().map(|c| c.to_string()).collect()).collect()
}

#[test]
fn test_2d_arr() {
    let v = to_grid(&[&["1", "20", "3"], &["40", "5", "6"], &["7", "800", "9"]]);

    let rows = v.len();
    let cols = v[0].len();
    let mut printer = GridPrinterBuilder::new(rows, cols).col_spacing(20).build();
    printer.render(&v);
}

#[test]
fn end_to_end_example() {
    let v = to_grid(&[&["1", "2", "3", "4"], &["5", "6", "7", "8"], &["9", "10", "11", "12"]]);

    let mut printer = GridPrinterBuilder::new(3, 4).col_spacing(2).build();
    let out = printer.render(&v);

    // column widths are [1, 2, 2, 2]: each value is padded to its column's
    // width plus the spacing of 2
    assert_eq!(out.len(), 3);
    assert_eq!(out[0], "1  2   3   4   \n");
    assert_eq!(out[1], "5  6   7   8   \n");
    assert_eq!(out[2], "9  10  11  12  \n");

    // every row spans the same total: sum over columns of width + spacing,
    // plus the line break
    for row in &out {
        assert_eq!(row.len(), (1 + 2) + (2 + 2) + (2 + 2) + (2 + 2) + 1);
    }
}

#[test]
fn undersized_input() {
    // rows = 3, cols = 3 but only 2 rows, and the first row has only 2
    // entries: the missing cells render as empty strings padded to the
    // column's width, and no error is raised
    let v = to_grid(&[&["a", "b"], &["c", "d", "e"]]);

    let mut printer = GridPrinter::new(3, 3);
    let out = printer.render(&v);

    assert_eq!(out.len(), 3);
    assert_eq!(out[0], "a  b     \n");
    assert_eq!(out[1], "c  d  e  \n");
    assert_eq!(out[2], "         \n");
}

#[test]
fn print_is_idempotent() {
    let v = to_grid(&[&["alpha", "b"], &["c", "delta"]]);

    let mut printer = GridPrinterBuilder::new(2, 2)
        .col_style(0, StyleOpt::new().fg(Fg::Cyan))
        .unwrap()
        .build();
    let first = printer.render(&v);
    let second = printer.render(&v);
    assert_eq!(first, second);
}

#[test]
fn styling_keeps_padding() {
    let v = to_grid(&[&["1"], &["22"]]);

    let mut plain = GridPrinter::new(2, 1);
    let mut styled = GridPrinter::builder(2, 1)
        .col_style(0, StyleOpt::new().fg(Fg::Magenta))
        .unwrap()
        .build();

    let plain_out = plain.render(&v);
    let styled_out = styled.render(&v);

    assert_eq!(plain_out[0], "1   \n");
    assert_eq!(plain_out[1], "22  \n");

    // the styled cell is longer by exactly the escape codes; the padding
    // after it is identical to the unstyled padding
    assert_eq!(styled_out[0], "\x1b[1;35m1\x1b[1;0m   \n");
    assert_eq!(styled_out[1], "\x1b[1;35m22\x1b[1;0m  \n");
    let extra = "\x1b[1;35m".len() + "\x1b[1;0m".len();
    assert_eq!(styled_out[0].len(), plain_out[0].len() + extra);
    assert_eq!(styled_out[1].len(), plain_out[1].len() + extra);
}

#[test]
fn style_rendering() {
    let v = to_grid(&[&["9", "x"], &["10", "y"]]);

    let mut printer = GridPrinter::builder(2, 2)
        .col_style(0, StyleOpt::new().fg(Fg::Magenta))
        .unwrap()
        .build();
    let out = printer.render(&v);

    // each cell of the styled column is wrapped as
    // <magenta-code><value><reset-code>, and the padding after the wrapped
    // cell carries no escape codes
    assert_eq!(out[0], "\x1b[1;35m9\x1b[1;0m   x  \n");
    assert_eq!(out[1], "\x1b[1;35m10\x1b[1;0m  y  \n");
    let tail = &out[0]["\x1b[1;35m9\x1b[1;0m".len()..];
    assert!(tail.chars().all(|c| c == ' ' || c == '\n' || c == 'x'));
}

#[test]
fn styled_grid_example() {
    let v = to_grid(&[&["1", "2", "3", "4"], &["5", "6", "7", "8"], &["9", "10", "11", "12"]]);

    let mut printer = GridPrinter::builder(3, 4)
        .col_style(0, StyleOpt::new().fg(Fg::Magenta))
        .unwrap()
        .col_style(1, StyleOpt::new().fg(Fg::Black).bg(Bg::BrightYellow))
        .unwrap()
        .col_style(2, StyleOpt::new().sgr(Sgr::StrikeThrough))
        .unwrap()
        .col_style(3, StyleOpt::new().fg(Fg::Cyan))
        .unwrap()
        .build();
    let out = printer.render(&v);

    assert_eq!(
        out[0],
        "\x1b[1;35m1\x1b[1;0m  \
         \x1b[1;30m\x1b[1;103m2\x1b[1;0m   \
         \x1b[1;9m3\x1b[1;0m   \
         \x1b[1;36m4\x1b[1;0m   \n"
    );
    assert_eq!(
        out[2],
        "\x1b[1;35m9\x1b[1;0m  \
         \x1b[1;30m\x1b[1;103m10\x1b[1;0m  \
         \x1b[1;9m11\x1b[1;0m  \
         \x1b[1;36m12\x1b[1;0m  \n"
    );
}

#[test]
fn config_rejection_by_index() {
    // index cols is one past the last valid index
    let r = GridPrinterBuilder::new(3, 3).col_style(3, StyleOpt::new().fg(Fg::Red));
    assert!(matches!(r, Err(GridPrinterErr::DimensionErr)));

    let r = GridPrinterBuilder::new(3, 3).col_style(2, StyleOpt::new().fg(Fg::Red));
    assert!(r.is_ok());
}

#[test]
fn config_rejection_by_length() {
    let short: Vec<Option<StyleOpt>> = vec![None, None];
    let r = GridPrinterBuilder::new(3, 3).col_styles(short);
    assert!(matches!(r, Err(GridPrinterErr::DimensionErr)));

    let long: Vec<Option<StyleOpt>> = vec![None, None, None, None];
    let r = GridPrinterBuilder::new(3, 3).col_styles(long);
    assert!(matches!(r, Err(GridPrinterErr::DimensionErr)));

    let exact: Vec<Option<StyleOpt>> = vec![None, Some(StyleOpt::new().bg(Bg::Blue)), None];
    let r = GridPrinterBuilder::new(3, 3).col_styles(exact);
    assert!(r.is_ok());
}

#[test]
fn builder_defaults() {
    let p = GridPrinter::new(2, 5);
    assert_eq!(p.rows, 2);
    assert_eq!(p.cols, 5);
    assert_eq!(p.col_spacing, 2);
    assert!(p.col_styles.is_none());
    assert_eq!(p.max_widths, vec![0; 5]);

    let p = GridPrinterBuilder::new(2, 5).col_spacing(4).build();
    assert_eq!(p.col_spacing, 4);
}

#[test]
fn builder_styles_chain() {
    let p = GridPrinter::builder(1, 3)
        .col_style(0, StyleOpt::new().fg(Fg::Black))
        .unwrap()
        .col_style(2, StyleOpt::new().sgr(Sgr::Bold))
        .unwrap()
        .build();
    let styles = p.col_styles.as_ref().unwrap();
    assert_eq!(styles.len(), 3);
    assert_eq!(styles[0], Some(StyleOpt::new().fg(Fg::Black)));
    assert_eq!(styles[1], None);
    assert_eq!(styles[2], Some(StyleOpt::new().sgr(Sgr::Bold)));
}

#[test]
fn render_cell_pads() {
    let p = GridPrinter::new(1, 1);
    // the width cache starts at zero, so an empty cell gets spacing alone
    assert_eq!(p.render_cell("", 0, None), "  ");
}

#[test]
fn zero_dimensions_yield_no_output() {
    let mut p = GridPrinter::new(0, 0);
    let out = p.render(&Vec::new());
    assert!(out.is_empty());

    // zero columns with configured rows: no cell exists, so no cell and no
    // line break is emitted
    let mut p = GridPrinter::new(3, 0);
    let out = p.render(&Vec::new());
    assert!(out.is_empty());

    // zero rows with configured columns: likewise nothing
    let mut p = GridPrinter::new(0, 3);
    let out = p.render(&to_grid(&[&["ignored"]]));
    assert!(out.is_empty());
}

#[test]
fn error_message() {
    let e = GridPrinterErr::DimensionErr;
    assert_eq!(
        e.message(),
        "DimensionErr. Caused by mismatch in dimension size between method calls."
    );
}
