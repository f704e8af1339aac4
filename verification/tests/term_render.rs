use timesheets::term_render::{Block, Cell, Column, Segment};

fn cell(figure: &str, comment: &str) -> Cell {
    Cell { figure: figure.into(), comment: comment.into() }
}

#[test]
fn check_display_feature() {
    let column = Column(vec![
        Block(vec![
            Segment(vec![
                Cell {
                    figure: "+15m".into(),
                    comment: "A comment".into(),
                },
                Cell {
                    figure: "-40m".into(),
                    comment: "Another comment".into(),
                }
            ]),
            Segment(vec![
                Cell {
                    figure: "+1:30".into(),
                    comment: "Lots of time here".into()
                }
            ])
        ]),
        Block(vec![
            Segment(vec![
                Cell {
                    figure: "+3:00".into(),
                    comment: "By itself".into(),
                }
            ]),
            Segment(vec![
                Cell {
                    figure: "-6:00".into(),
                    comment: "Alone and yet together".into(),
                }
            ]),
            Segment(vec![
                Cell {
                    figure: "+9:00".into(),
                    comment: "Like two passing ships".into(),
                }
            ]),
        ])
    ]);

    println!("{}", column.render());
}

#[test]
fn column_renders_boxes_with_dividers() {
    let column = Column(vec![
        Block(vec![
            Segment(vec![cell("+15m", "A comment"), cell("-40m", "Another comment")]),
            Segment(vec![cell("+1:30", "Lots of time here")]),
        ]),
        Block(vec![Segment(vec![cell("+3:00", "By itself")])]),
    ]);
    let expected = "    ┌───────┐\n\
                    \x20   │ +15m  │ A comment\n\
                    \x20   │ -40m  │ Another comment\n\
                    \x20   ├───────┤\n\
                    \x20   │ +1:30 │ Lots of time here\n\
                    \x20   └───────┘\n\
                    \x20   ┌───────┐\n\
                    \x20   │ +3:00 │ By itself\n\
                    \x20   └───────┘\n";
    assert_eq!(column.render(), expected);
}

#[test]
fn empty_block_is_two_edges() {
    assert_eq!(Block(vec![]).render(), "    ┌───────┐\n    └───────┘\n");
}

#[test]
fn empty_column_is_empty_text() {
    assert_eq!(Column(vec![]).render(), "");
}

#[test]
fn long_figure_is_not_cut() {
    assert_eq!(cell("+123:45", "long").render(), "    │ +123:45 │ long\n");
}

#[test]
fn short_figure_is_filled_with_spaces() {
    assert_eq!(cell("", "none").render(), "    │       │ none\n");
}

#[test]
fn empty_segment_renders_nothing() {
    assert_eq!(Segment(vec![]).render(), "");
    assert_eq!(
        Block(vec![Segment(vec![]), Segment(vec![])]).render(),
        "    ┌───────┐\n    ├───────┤\n    └───────┘\n"
    );
}
