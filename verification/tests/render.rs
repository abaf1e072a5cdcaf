use tg::render::{
    render_row_cells, semantic_style_to_terminal, RenderLine, RenderSegment, SemanticStyle,
    TerminalColor, TerminalStyle,
};

#[test]
fn row_is_cut_at_the_width() {
    let line = RenderLine {
        segments: vec![
            RenderSegment { text: "ab".to_string(), style: SemanticStyle::Grid },
            RenderSegment { text: "cd".to_string(), style: SemanticStyle::Cursor },
        ],
    };
    let cells = render_row_cells(&line, 3);
    assert_eq!(
        cells,
        vec![
            ('a', SemanticStyle::Grid),
            ('b', SemanticStyle::Grid),
            ('c', SemanticStyle::Cursor)
        ]
    );
}

#[test]
fn short_row_is_padded_with_plain_blanks() {
    let line = RenderLine {
        segments: vec![RenderSegment { text: "─x".to_string(), style: SemanticStyle::Text }],
    };
    let cells = render_row_cells(&line, 4);
    assert_eq!(
        cells,
        vec![
            ('─', SemanticStyle::Text),
            ('x', SemanticStyle::Text),
            (' ', SemanticStyle::Plain),
            (' ', SemanticStyle::Plain)
        ]
    );
    assert!(render_row_cells(&line, 0).is_empty());
}

#[test]
fn styles_map_to_terminal_colors() {
    assert_eq!(
        semantic_style_to_terminal(SemanticStyle::Cursor),
        TerminalStyle {
            fg: Some(TerminalColor::Black),
            bg: Some(TerminalColor::Yellow),
            bold: true
        }
    );
    assert_eq!(
        semantic_style_to_terminal(SemanticStyle::Plain),
        TerminalStyle { fg: None, bg: None, bold: false }
    );
    assert_eq!(
        semantic_style_to_terminal(SemanticStyle::HintKey),
        semantic_style_to_terminal(SemanticStyle::HelpKey)
    );
}
