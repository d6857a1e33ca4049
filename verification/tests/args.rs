use osd_overlay::args::{read_args, Invocation};

fn argv(tokens: &[&str]) -> Vec<String> {
    tokens.iter().map(|t| t.to_string()).collect()
}

#[test]
fn no_arguments_means_help() {
    match read_args(&argv(&["osd"])) {
        Invocation::Help => {}
        _ => panic!("expected the usage outcome"),
    }
}

#[test]
fn each_flag_takes_the_next_token() {
    match read_args(&argv(&["osd", "-v", "50", "-t", "Volume", "-i", "audio-volume-high"])) {
        Invocation::Run { value, text, icon } => {
            assert_eq!(value.as_deref(), Some("50"));
            assert_eq!(text.as_deref(), Some("Volume"));
            assert_eq!(icon.as_deref(), Some("audio-volume-high"));
        }
        _ => panic!("expected a run"),
    }
}

#[test]
fn flags_come_in_any_order() {
    match read_args(&argv(&["osd", "-t", "hi", "-v", "7"])) {
        Invocation::Run { value, text, icon } => {
            assert_eq!(value.as_deref(), Some("7"));
            assert_eq!(text.as_deref(), Some("hi"));
            assert_eq!(icon, None);
        }
        _ => panic!("expected a run"),
    }
}

#[test]
fn a_later_flag_replaces_the_earlier_value() {
    match read_args(&argv(&["osd", "-v", "10", "-v", "90"])) {
        Invocation::Run { value, .. } => assert_eq!(value.as_deref(), Some("90")),
        _ => panic!("expected a run"),
    }
}

#[test]
fn a_flag_interrupts_a_pending_flag() {
    // "-t" is read as a flag even while "-v" waits for its value.
    match read_args(&argv(&["osd", "-v", "-t", "words"])) {
        Invocation::Run { value, text, .. } => {
            assert_eq!(value, None);
            assert_eq!(text.as_deref(), Some("words"));
        }
        _ => panic!("expected a run"),
    }
}

#[test]
fn a_trailing_flag_leaves_its_channel_empty() {
    match read_args(&argv(&["osd", "-v"])) {
        Invocation::Run { value, text, icon } => {
            assert_eq!(value, None);
            assert_eq!(text, None);
            assert_eq!(icon, None);
        }
        _ => panic!("expected a run"),
    }
}

#[test]
fn a_bare_token_is_an_unknown_argument() {
    match read_args(&argv(&["osd", "oops"])) {
        Invocation::Unknown(t) => assert_eq!(t, "oops"),
        _ => panic!("expected the unknown-argument outcome"),
    }
}

#[test]
fn an_unknown_token_after_a_consumed_value() {
    match read_args(&argv(&["osd", "-v", "5", "stray"])) {
        Invocation::Unknown(t) => assert_eq!(t, "stray"),
        _ => panic!("expected the unknown-argument outcome"),
    }
}
