use pico_macropad_rs::example_config::{example_icon, get_example_config};
use pico_macropad_rs::model::MacroConfig;
use pico_macropad_rs::update_display::{
    can_rotate, cell_content, display_layout, icon_header_in_range, rotate, CellContent, DisplayData, GetDisplayData,
    NUM_CELLS,
};

fn rot(text: &str, amount: usize, length: usize) -> String {
    rotate(&String::from(text), amount, length)
}

fn text_of(content: &CellContent) -> String {
    match content {
        CellContent::Text(t) => t.clone(),
        CellContent::Icon(_) => panic!("expected a text cell"),
    }
}

#[test]
fn short_texts_are_not_scrolled() {
    assert_eq!(rot("AB", 7, 3), "AB");
    assert_eq!(rot("ABC", 1, 3), "ABC");
    assert_eq!(rot("", 0, 3), "");
}

#[test]
fn long_texts_scroll_through_the_window() {
    assert_eq!(rot("Copy/Paste", 0, 3), "Cop");
    assert_eq!(rot("Copy/Paste", 2, 3), "py/");
    assert_eq!(rot("Copy/Paste", 11, 3), "  C");
    assert_eq!(rot("ABCD", 5, 3), "  A");
    assert_eq!(rot("ABCD", 5, 10), "ABCD");
    assert_eq!(rot("ABCDEF", 7, 5), "  ABC");
}

#[test]
fn scrolling_repeats_after_a_full_turn() {
    for amount in 0..13 {
        assert_eq!(rot("Copy/Paste", amount, 3), rot("Copy/Paste", amount + 13, 3));
    }
}

#[test]
fn scrolling_counts_bytes_of_non_ascii_texts() {
    assert_eq!(rot("Zürich", 1, 3), "üri");
    assert_eq!(rot("Zürich", 3, 3), "ric");
    assert!(can_rotate(&String::from("Zürich"), 3, 3));
    assert!(!can_rotate(&String::from("Zürich"), 2, 3));
    assert!(can_rotate(&String::from("Zü"), 2, 3));
}

#[test]
fn cell_shows_text_when_icon_is_refused() {
    let d = DisplayData { text: String::from("Hello"), icon: Some(vec![1, 2, 3]) };
    assert_eq!(text_of(&cell_content(d, false, 1)), "ell");
    let d = DisplayData { text: String::from("Hello"), icon: Some(vec![1, 2, 3]) };
    match cell_content(d, true, 1) {
        CellContent::Icon(bytes) => assert_eq!(bytes, vec![1, 2, 3]),
        CellContent::Text(_) => panic!("expected the icon"),
    }
    let d = DisplayData { text: String::from("Hi"), icon: None };
    assert_eq!(text_of(&cell_content(d, true, 4)), "Hi");
}

#[test]
fn example_layout_shows_every_icon_in_place() {
    let config = get_example_config();
    let cells = display_layout(&config, 0).expect("layout");
    assert_eq!(cells.len(), NUM_CELLS);
    let positions = [
        (0, 0),
        (26, 0),
        (130, 0),
        (0, 23),
        (26, 23),
        (52, 23),
        (78, 23),
        (104, 23),
        (0, 46),
        (26, 46),
        (52, 46),
        (78, 46),
        (104, 46),
    ];
    for (k, cell) in cells.iter().enumerate() {
        assert_eq!((cell.x, cell.y), positions[k]);
        match &cell.content {
            CellContent::Icon(bytes) => assert_eq!(bytes, &example_icon()),
            CellContent::Text(_) => panic!("cell {} should show the icon", k),
        }
    }
}

#[test]
fn broken_icon_falls_back_to_text() {
    let mut config = get_example_config();
    config.buttons[0].display_icon = Some(b"BMnot a bitmap".to_vec());
    config.encoders[1].display_icon = None;
    let cells = display_layout(&config, 2).expect("layout");
    assert_eq!(text_of(&cells[3].content), "Mac");
    assert_eq!(text_of(&cells[1].content), "py/");
    assert!(matches!(cells[0].content, CellContent::Icon(_)));
}

#[test]
fn default_layout_shows_empty_texts() {
    let config = MacroConfig::default();
    let cells = display_layout(&config, 9).expect("layout");
    assert_eq!(cells.len(), 13);
    for cell in &cells {
        assert_eq!(text_of(&cell.content), "");
    }
}

#[test]
fn layout_refuses_to_cut_a_character() {
    let mut config = MacroConfig::default();
    config.buttons[4].display_text = String::from("Zürich");
    assert!(display_layout(&config, 2).is_none());
    let cells = display_layout(&config, 3).expect("layout");
    assert_eq!(text_of(&cells[7].content), "ric");
}

#[test]
fn draw_data_copies_text_and_icon() {
    let config = get_example_config();
    let d = config.menu_encoder.get_draw_data();
    assert_eq!(d.text, "Volume");
    assert_eq!(d.icon, Some(example_icon()));
    let d = config.buttons[7].get_draw_data();
    assert_eq!(d.text, "H Macro Paaaaaaad");
    let d = config.encoders[0].get_draw_data();
    assert_eq!(d.text, "Copy/Paste");
}

#[test]
fn header_check_admits_everything_on_64_bit_and_short_inputs() {
    let mut header = vec![0u8; 54];
    header[0] = b'B';
    header[1] = b'M';
    header[46] = 0x01;
    header[49] = 0x40;
    assert_eq!(icon_header_in_range(&header), usize::BITS == 64);
    header[49] = 0x3F;
    assert!(icon_header_in_range(&header));
    assert!(icon_header_in_range(&header[..49]));
    assert!(icon_header_in_range(&example_icon()));
}
