use term_basics_linux::{FGBG, TextStyle, UserColour, set_colour, set_colours, set_style};

#[test]
fn colour_codes() {
    assert_eq!(set_colour(UserColour::Red, FGBG::FG), "\x1b[31m");
    assert_eq!(set_colour(UserColour::Grey, FGBG::BG), "\x1b[47m");
    assert_eq!(set_colour(UserColour::Std, FGBG::BG), "\x1b[00m\x1b[499m");
    assert_eq!(set_colours(UserColour::Green, UserColour::Black), "\x1b[32m\x1b[40m");
}

#[test]
fn style_codes() {
    assert_eq!(set_style(TextStyle::Std), "\x1b[00m");
    assert_eq!(set_style(TextStyle::Hidden), "\x1b[08m");
    assert_eq!(set_style(TextStyle::Crossed), "\x1b[09m");
}

#[test]
fn all_colours_and_styles_listed() {
    let cols = UserColour::iterator();
    assert_eq!(cols.len(), 9);
    assert_eq!(cols[0], UserColour::Std);
    assert_eq!(cols[8], UserColour::Grey);
    let ids: Vec<u8> = cols.iter().map(|c| c.id()).collect();
    assert_eq!(ids, vec![99, 0, 1, 2, 3, 4, 5, 6, 7]);
    let stys = TextStyle::iterator();
    let ids: Vec<u8> = stys.iter().map(|s| s.id()).collect();
    assert_eq!(ids, vec![0, 1, 2, 3, 4, 5, 8, 9]);
}

#[test]
fn it_works() {
    assert_eq!(2 + 2, 4);
}
