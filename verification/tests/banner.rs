use fieldmid::banner::{banner_cell, banner_row, banner_row_cells, banner_rows, c1, c5, paint, wordmark_color, wordmark_letters};

#[test]
fn paint_wraps_text_in_true_colour() {
    assert_eq!(paint((142, 197, 255), "f"), "\x1b[38;2;142;197;255mf\x1b[0m");
    assert_eq!(paint((0, 7, 10), ""), "\x1b[38;2;0;7;10m\x1b[0m");
}

#[test]
fn wordmark_cycles_colours() {
    assert_eq!(wordmark_color(0), c1());
    assert_eq!(wordmark_color(4), c5());
    assert_eq!(wordmark_color(8), c1());
    assert_eq!(wordmark_color(7), wordmark_color(1));
    let letters = wordmark_letters();
    assert_eq!(letters.len(), 8);
    assert_eq!(letters[0], paint(c1(), "f"));
    assert_eq!(letters[7], paint(wordmark_color(7), "d"));
}

#[test]
fn banner_has_six_painted_rows() {
    let rows = banner_rows();
    assert_eq!(rows.len(), 6);
    assert!(rows[0].starts_with(&paint((25, 60, 184), "███████╗")));
    assert!(rows[5].ends_with(&paint((25, 60, 184), "╚═════╝ ")));
    let stripped: String = rows[2].split("\x1b[").map(|p| p.split_once('m').map(|(_, t)| t).unwrap_or(p)).collect();
    assert_eq!(stripped, "█████╗  ██║█████╗  ██║     ██║  ██║██╔████╔██║██║██║  ██║");
}

#[test]
fn row_cells_paint_to_the_printed_row() {
    for row in 0..6usize {
        let cells = banner_row_cells(row);
        assert_eq!(cells.len(), 8);
        let painted: String = cells.iter().map(|(color, text)| paint(*color, text)).collect();
        assert_eq!(painted, banner_row(row));
        for (col, cell) in cells.iter().enumerate() {
            assert_eq!(*cell, banner_cell(row, col));
        }
    }
    assert_eq!(banner_row_cells(0)[0], (c5(), "███████╗"));
}
