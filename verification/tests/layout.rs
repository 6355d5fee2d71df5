use dz6::util::{center_widget, chars_of, choice_area, parse_number, push_hex_number, Rect};

#[test]
fn widget_is_centred_one_line_up() {
    let area = Rect { x: 3, y: 4, width: 80, height: 24 };
    assert_eq!(center_widget(20, 6, area), Rect { x: 30, y: 8, width: 20, height: 6 });
    assert_eq!(center_widget(80, 22, area), Rect { x: 0, y: 0, width: 80, height: 22 });
    assert_eq!(center_widget(81, 23, area), Rect { x: 0, y: 0, width: 81, height: 23 });
}

#[test]
fn choices_take_a_third_by_a_quarter() {
    let area = Rect { x: 0, y: 0, width: 90, height: 40 };
    assert_eq!(choice_area(area), Some(Rect { x: 30, y: 14, width: 30, height: 10 }));
    let low = Rect { x: 0, y: 0, width: 90, height: 2 };
    assert_eq!(choice_area(low), Some(Rect { x: 30, y: 0, width: 30, height: 0 }));
    assert_eq!(choice_area(Rect { x: 0, y: 0, width: 90, height: 1 }), None);
    assert_eq!(choice_area(Rect { x: 0, y: 0, width: 0, height: 0 }), None);
}

#[test]
fn chars_of_keeps_every_character() {
    assert_eq!(chars_of(""), Vec::<char>::new());
    assert_eq!(chars_of("a\u{e9}\u{1f600}z"), vec!['a', '\u{e9}', '\u{1f600}', 'z']);
}

#[test]
fn numbers_in_other_radixes() {
    let digits: Vec<char> = "zz".chars().collect();
    assert_eq!(parse_number(&digits, 36), Ok(35 * 36 + 35));
    let digits: Vec<char> = "101".chars().collect();
    assert_eq!(parse_number(&digits, 2), Ok(5));
    let digits: Vec<char> = "\u{663}".chars().collect();
    assert!(parse_number(&digits, 10).is_err());
}

#[test]
fn hex_numbers_have_no_leading_zeros() {
    let mut text = String::new();
    push_hex_number(&mut text, 0);
    text.push(' ');
    push_hex_number(&mut text, 0xf);
    text.push(' ');
    push_hex_number(&mut text, 0x10);
    text.push(' ');
    push_hex_number(&mut text, 0xabc_def0);
    assert_eq!(text, "0 F 10 ABCDEF0");
}
