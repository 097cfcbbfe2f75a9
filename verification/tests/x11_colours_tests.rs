use g213_cols::commands::{get_command, Command};
use g213_cols::text::parse_u16_saturating;
use g213_cols::x11_colours::{get_x11_colour, list_colours, x11_colour_names};

fn to_string_vec(words: Vec<&str>) -> Vec<String> {
    words.iter().map(|s| s.to_string()).collect()
}

#[test]
fn known_names_resolve() {
    assert_eq!(get_x11_colour(&to_string_vec(vec!["red"])), Some(0xff0000));
    assert_eq!(get_x11_colour(&to_string_vec(vec!["green"])), Some(0x00ff00));
    assert_eq!(get_x11_colour(&to_string_vec(vec!["white"])), Some(0xffffff));
    assert_eq!(get_x11_colour(&to_string_vec(vec!["RED"])), Some(0xff0000));
}

#[test]
fn hex_literals_resolve() {
    assert_eq!(get_x11_colour(&to_string_vec(vec!["00ff00"])), Some(0x00ff00));
    assert_eq!(get_x11_colour(&to_string_vec(vec!["0xff00ff"])), Some(0xff00ff));
    assert_eq!(get_x11_colour(&to_string_vec(vec!["0XFF00Ff"])), Some(0xff00ff));
    assert_eq!(get_x11_colour(&to_string_vec(vec!["a1"])), Some(0xa1));
}

#[test]
fn bad_colour_operands_do_not_resolve() {
    assert_eq!(get_x11_colour(&Vec::new()), None);
    assert_eq!(get_x11_colour(&to_string_vec(vec!["notacolour"])), None);
    assert_eq!(get_x11_colour(&to_string_vec(vec!["1234567"])), None);
    assert_eq!(get_x11_colour(&to_string_vec(vec!["0x"])), None);
    assert_eq!(get_x11_colour(&to_string_vec(vec!["red", "green"])), None);
}

#[test]
fn colour_names_are_listed_in_table_order() {
    let names = x11_colour_names();
    assert_eq!(names.len(), 25);
    assert!(names.iter().any(|n| n == "red"));
    assert_eq!(names.first().map(|n| n.as_str()), Some("black"));
}

#[test]
fn listing_filters_by_substring() {
    let all = list_colours(&Vec::new());
    assert_eq!(all.len(), 25);

    let just_red = list_colours(&to_string_vec(vec!["red"]));
    assert_eq!(just_red, vec![("red".to_string(), 0xff0000)]);

    let with_re = list_colours(&to_string_vec(vec!["re"]));
    let names: Vec<String> = with_re.iter().map(|p| p.0.clone()).collect();
    assert_eq!(names, vec!["green", "grey", "red"]);

    let none = list_colours(&to_string_vec(vec!["zzz"]));
    assert!(none.is_empty());
}

#[test]
fn speed_tokens_parse_with_saturation() {
    assert_eq!(parse_u16_saturating("0"), Some(0));
    assert_eq!(parse_u16_saturating("3"), Some(3));
    assert_eq!(parse_u16_saturating("1000"), Some(1000));
    assert_eq!(parse_u16_saturating("65535"), Some(65535));
    assert_eq!(parse_u16_saturating("99999"), Some(65535));
    assert_eq!(parse_u16_saturating("99999999999999999999"), Some(65535));
    assert_eq!(parse_u16_saturating(""), None);
    assert_eq!(parse_u16_saturating("notacolour"), None);
    assert_eq!(parse_u16_saturating("12a"), None);
    assert_eq!(parse_u16_saturating("-1"), None);
}

#[test]
fn breathe_with_a_bad_token_classifies_but_falls_back() {
    // The command classifies, the speed token is not numeric, and the
    // missing colour operand falls back to the sentinel red.
    let cmd = get_command(&to_string_vec(vec!["breathe", "notacolour"]));
    assert_eq!(cmd, Command::Breathe(to_string_vec(vec!["notacolour"])));
    assert_eq!(parse_u16_saturating("notacolour"), None);
    let (colour, status) =
        g213_cols::commands::get_colour_or_red(&Vec::new());
    assert_eq!(colour, 0xff1010);
    assert_eq!(status, g213_cols::commands::Status::Failure);
}
