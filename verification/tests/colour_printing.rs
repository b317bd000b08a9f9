use os::colour_printing::{colour_ident, parse_segment, Segment};
use os::vga_buffer::Colour;

#[test]
fn test_parse_segment() {
    assert_eq!(
        parse_segment("plain"),
        vec![Segment::Plain("plain".to_string())]
    );

    let out = parse_segment("<red>Red text</red>");
    assert_eq!(
        out,
        vec![Segment::Coloured("red".to_string(), "Red text".to_string())]
    );
}

#[test]
fn parse_segment_empty_gives_no_segments() {
    assert_eq!(parse_segment(""), Vec::<Segment>::new());
}

#[test]
fn parse_segment_double_angle_is_plain_text() {
    assert_eq!(
        parse_segment("a<<b"),
        vec![Segment::Plain("a<<".to_string()), Segment::Plain("b".to_string())]
    );
}

#[test]
fn parse_segment_coloured_then_plain() {
    assert_eq!(
        parse_segment("<blue>x</blue> tail"),
        vec![
            Segment::Coloured("blue".to_string(), "x".to_string()),
            Segment::Plain(" tail".to_string())
        ]
    );
}

#[test]
fn parse_segment_two_coloured() {
    assert_eq!(
        parse_segment("<red>a</red><white>b</white>"),
        vec![
            Segment::Coloured("red".to_string(), "a".to_string()),
            Segment::Coloured("white".to_string(), "b".to_string())
        ]
    );
}

#[test]
fn segment_equality_compares_text() {
    assert!(Segment::Plain("a".to_string()) == Segment::Plain("a".to_string()));
    assert!(Segment::Plain("a".to_string()) != Segment::Plain("b".to_string()));
    assert!(Segment::Plain("a".to_string()) != Segment::Coloured("a".to_string(), "a".to_string()));
}

#[test]
fn colour_ident_names_the_four_colours() {
    assert_eq!(colour_ident("black"), Colour::Black);
    assert_eq!(colour_ident("white"), Colour::White);
    assert_eq!(colour_ident("red"), Colour::Red);
    assert_eq!(colour_ident("blue"), Colour::Blue);
}
