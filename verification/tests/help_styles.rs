use rasm::report::Color;
use rasm::styles::{get_styles, Element, TextStyle};

#[test]
fn headings_are_bold_underlined_yellow() {
    let heading = TextStyle { bold: true, underline: true, color: Some(Color::Yellow) };
    let styles = get_styles();
    assert_eq!(styles.usage, heading);
    assert_eq!(styles.header, heading);
}

#[test]
fn the_other_styles_are_as_tabled() {
    let styles = get_styles();
    assert_eq!(
        styles.literal,
        TextStyle { bold: false, underline: false, color: Some(Color::Green) }
    );
    let wrong = TextStyle { bold: true, underline: false, color: Some(Color::Red) };
    assert_eq!(styles.invalid, wrong);
    assert_eq!(styles.error, wrong);
    assert_eq!(
        styles.valid,
        TextStyle { bold: true, underline: true, color: Some(Color::Green) }
    );
    assert_eq!(
        styles.placeholder,
        TextStyle { bold: false, underline: false, color: Some(Color::White) }
    );
}

#[test]
fn get_picks_the_style_of_an_element() {
    let styles = get_styles();
    assert_eq!(styles.get(Element::Usage), styles.usage);
    assert_eq!(styles.get(Element::Header), styles.header);
    assert_eq!(styles.get(Element::Literal), styles.literal);
    assert_eq!(styles.get(Element::Invalid), styles.invalid);
    assert_eq!(styles.get(Element::Error), styles.error);
    assert_eq!(styles.get(Element::Valid), styles.valid);
    assert_eq!(styles.get(Element::Placeholder), styles.placeholder);
}
