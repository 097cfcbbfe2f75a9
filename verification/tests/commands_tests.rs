use g213_cols::commands::{
    get_command, get_colour_or_red, get_colours_or_red, run_command, should_save,
    updated_saved_command, Command, Run, Status, Successful, RED,
};
use g213_cols::errors::G213Error;

fn to_string_vec(words: Vec<&str>) -> Vec<String> {
    words.iter().map(|s| s.to_string()).collect()
}

#[test]
fn colour_command() {
    let args = to_string_vec(vec!["colour"]);

    let cmd = get_command(&args);

    assert!(match cmd {
        Command::Colour(_) => true,
        _ => false,
    });

    assert!(!cmd.has_args());
}

#[test]
fn colour_command_with_args() {
    let args = to_string_vec(vec!["colour", "0xff00ff"]);

    let cmd = get_command(&args);

    assert!(match cmd {
        Command::Colour(_) => true,
        _ => false,
    });

    assert!(cmd.has_args());
}

#[test]
fn classification_keywords() {
    assert!(matches!(get_command(&to_string_vec(vec!["c"])), Command::Colour(_)));
    assert!(matches!(get_command(&to_string_vec(vec!["region", "3"])), Command::Region(_)));
    assert!(matches!(get_command(&to_string_vec(vec!["r"])), Command::Region(_)));
    assert!(matches!(get_command(&to_string_vec(vec!["regions"])), Command::Regions(_)));
    assert!(matches!(get_command(&to_string_vec(vec!["rs"])), Command::Regions(_)));
    assert!(matches!(get_command(&to_string_vec(vec!["breathe"])), Command::Breathe(_)));
    assert!(matches!(get_command(&to_string_vec(vec!["b"])), Command::Breathe(_)));
    assert!(matches!(get_command(&to_string_vec(vec!["cycle"])), Command::Cycle(_)));
    assert!(matches!(get_command(&to_string_vec(vec!["cy"])), Command::Cycle(_)));
    assert!(matches!(get_command(&to_string_vec(vec!["list"])), Command::List(_)));
    assert!(matches!(get_command(&to_string_vec(vec!["l"])), Command::List(_)));
    assert!(matches!(get_command(&to_string_vec(vec!["info"])), Command::Info));
    assert!(matches!(get_command(&to_string_vec(vec!["i"])), Command::Info));
    assert!(matches!(get_command(&to_string_vec(vec!["saved"])), Command::Saved));
    assert!(matches!(get_command(&to_string_vec(vec!["s"])), Command::Saved));
    assert!(matches!(get_command(&to_string_vec(vec!["help"])), Command::Help(_)));
    assert!(matches!(get_command(&to_string_vec(vec!["h"])), Command::Help(_)));
    assert!(matches!(get_command(&to_string_vec(vec!["?"])), Command::Help(_)));
}

#[test]
fn classification_is_case_insensitive() {
    assert!(matches!(get_command(&to_string_vec(vec!["COLOUR", "red"])), Command::Colour(_)));
    assert!(matches!(get_command(&to_string_vec(vec!["Cy", "1000"])), Command::Cycle(_)));
    assert!(matches!(get_command(&to_string_vec(vec!["Saved"])), Command::Saved));
}

#[test]
fn classification_unknown_keeps_all_tokens() {
    let cmd = get_command(&to_string_vec(vec!["wat", "red"]));
    assert_eq!(cmd, Command::Unknown(to_string_vec(vec!["wat", "red"])));
}

#[test]
fn classification_of_empty_input_is_unknown() {
    let cmd = get_command(&Vec::new());
    assert_eq!(cmd, Command::Unknown(Vec::new()));
}

#[test]
fn classification_drops_the_keyword_for_known_commands() {
    let cmd = get_command(&to_string_vec(vec!["colour", "red"]));
    assert_eq!(cmd, Command::Colour(to_string_vec(vec!["red"])));
}

#[test]
fn has_args_is_false_for_info_and_saved() {
    assert!(!Command::Info.has_args());
    assert!(!Command::Saved.has_args());
}

#[test]
fn has_args_is_emptiness_of_the_operand_list() {
    assert!(Command::Cycle(to_string_vec(vec!["1000"])).has_args());
    assert!(!Command::Cycle(Vec::new()).has_args());
    assert!(Command::Unknown(to_string_vec(vec!["wat"])).has_args());
    assert!(!Command::Unknown(Vec::new()).has_args());
}

#[test]
fn successful_statuses() {
    assert!(Status::Success.successful());
    assert!(Status::SuccessNoSave.successful());
    assert!(!Status::Failure.successful());
}

#[test]
fn colour_or_red_resolves_known_names() {
    let (colour, status) = get_colour_or_red(&to_string_vec(vec!["red"]));
    assert_eq!(colour, 0xff0000);
    assert_eq!(status, Status::Success);
}

#[test]
fn colour_or_red_falls_back_to_red() {
    let (colour, status) = get_colour_or_red(&to_string_vec(vec!["notacolour"]));
    assert_eq!(colour, RED);
    assert_eq!(colour, 0xff1010);
    assert_eq!(status, Status::Failure);

    let (colour, status) = get_colour_or_red(&Vec::new());
    assert_eq!(colour, 0xff1010);
    assert_eq!(status, Status::Failure);
}

#[test]
fn colours_or_red_resolves_each_region_independently() {
    let (colours, status) =
        get_colours_or_red(&to_string_vec(vec!["red", "green", "blue", "black", "white"]), 5);
    assert_eq!(colours, vec![0xff0000, 0x00ff00, 0x0000ff, 0x000000, 0xffffff]);
    assert_eq!(status, Status::Success);

    let (colours, status) =
        get_colours_or_red(&to_string_vec(vec!["red", "nope", "blue", "black", "white"]), 5);
    assert_eq!(colours, vec![0xff0000, 0xff1010, 0x0000ff, 0x000000, 0xffffff]);
    assert_eq!(status, Status::Failure);

    let (colours, status) = get_colours_or_red(&to_string_vec(vec!["red"]), 5);
    assert_eq!(colours, vec![0xff0000, 0xff1010, 0xff1010, 0xff1010, 0xff1010]);
    assert_eq!(status, Status::Failure);
}

#[test]
fn persistence_follows_only_success() {
    let command = Command::Colour(to_string_vec(vec!["red"]));
    let saved = Some(Command::Cycle(to_string_vec(vec!["1000"])));

    assert!(should_save(&Status::Success));
    assert!(!should_save(&Status::Failure));
    assert!(!should_save(&Status::SuccessNoSave));

    let updated = updated_saved_command(&Status::Success, command.clone(), saved.clone());
    assert_eq!(updated, Some(command.clone()));

    let kept = updated_saved_command(&Status::Failure, command.clone(), saved.clone());
    assert_eq!(kept, saved);

    let kept = updated_saved_command(&Status::SuccessNoSave, command.clone(), saved.clone());
    assert_eq!(kept, saved);

    let kept = updated_saved_command(&Status::Failure, command, None);
    assert_eq!(kept, None);
}

#[test]
fn scenario_colour_red_end_to_end() {
    // Classification keeps the operand, the operand resolves to pure red,
    // the encoded frame matches the protocol template, and a Success
    // status replaces the saved command.
    let args = to_string_vec(vec!["colour", "red"]);
    let cmd = get_command(&args);
    assert_eq!(cmd, Command::Colour(to_string_vec(vec!["red"])));

    let (colour, status) = get_colour_or_red(&to_string_vec(vec!["red"]));
    assert_eq!(colour, 0xff0000);
    assert_eq!(status, Status::Success);

    let frame = g213_cols::g213_keyboard::static_frame(0x00, colour);
    assert_eq!(frame, hex::decode("11ff0c3a0001ff00000200000000000000000000").unwrap());

    let updated = updated_saved_command(&status, cmd.clone(), None);
    assert_eq!(updated, Some(cmd));
}

#[test]
fn missing_device_reports_device_not_found() {
    let command = get_command(&to_string_vec(vec!["colour", "red"]));
    let outcome = run_command(&command, None);
    assert_eq!(outcome, Err(G213Error::DeviceNotFound));
}

#[test]
fn error_texts_are_distinct() {
    let texts = vec![
        G213Error::DeviceNotFound.text(),
        G213Error::DeviceOpen.text(),
        G213Error::DriverDetach.text(),
        G213Error::DriverReattach.text(),
        G213Error::Transport.text(),
        G213Error::Argument.text(),
        G213Error::Persistence.text(),
    ];
    for (i, a) in texts.iter().enumerate() {
        assert!(!a.is_empty());
        for b in texts.iter().skip(i + 1) {
            assert_ne!(a, b);
        }
    }
}
