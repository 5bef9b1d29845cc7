use process_ctl::Error;
use process_ctl::Signal;

#[test]
fn signal_names_are_only_accepted_as_uppercase() {
    assert_eq!(Signal::HUP, "HUP".parse().unwrap());
    assert!("hup".parse::<Signal>().is_err());
}

#[test]
fn signals_can_render_as_strings() {
    assert_eq!("HUP", Signal::HUP.render());
}

#[test]
fn signals_can_round_trip_through_parsing() {
    for signal in &[
        Signal::HUP,
        Signal::INT,
        Signal::QUIT,
        Signal::ABRT,
        Signal::FPE,
        Signal::KILL,
        Signal::USR1,
        Signal::SEGV,
        Signal::USR2,
        Signal::ALRM,
        Signal::TERM,
        Signal::CHLD,
    ] {
        assert_eq!(
            *signal,
            signal
                .render()
                .parse::<Signal>()
                .expect("Couldn't parse back into a Signal!")
        );
    }
}

#[test]
fn every_name_parses_to_its_signal() {
    let expected = [
        ("INT", Signal::INT),
        ("ILL", Signal::ILL),
        ("ABRT", Signal::ABRT),
        ("FPE", Signal::FPE),
        ("KILL", Signal::KILL),
        ("SEGV", Signal::SEGV),
        ("TERM", Signal::TERM),
        ("HUP", Signal::HUP),
        ("QUIT", Signal::QUIT),
        ("ALRM", Signal::ALRM),
        ("USR1", Signal::USR1),
        ("USR2", Signal::USR2),
        ("CHLD", Signal::CHLD),
    ];
    for (name, signal) in &expected {
        assert_eq!(*signal, Signal::parse(name).unwrap());
        assert_eq!(*name, signal.render());
    }
}

#[test]
fn out_of_set_names_are_rejected() {
    assert!(Signal::parse("").is_err());
    assert!(Signal::parse("SIGTERM").is_err());
    assert!(Signal::parse("TERM ").is_err());
    assert!(Signal::parse(" TERM").is_err());
    assert!(Signal::parse("15").is_err());
    assert!(Signal::parse("Term").is_err());
    assert!(Signal::parse("STOP").is_err());
}

#[test]
fn every_lowercase_name_is_rejected() {
    for name in &[
        "int", "ill", "abrt", "fpe", "kill", "segv", "term", "hup", "quit", "alrm", "usr1",
        "usr2", "chld",
    ] {
        assert!(Signal::parse(name).is_err());
    }
}

#[test]
fn signal_parse_error_echoes_the_input() {
    match Signal::parse("bogus") {
        Err(e) => {
            assert_eq!(e, Error::InvalidSignalName("bogus".to_string()));
            assert_eq!("invalid signal name: bogus", e.message());
        }
        Ok(_) => panic!("an out-of-set name parsed"),
    }
}
