use optspec::settings::{ArgFlags, ArgSettings};

const ALL: [ArgSettings; 9] = [
    ArgSettings::Required,
    ArgSettings::Multiple,
    ArgSettings::EmptyValues,
    ArgSettings::Global,
    ArgSettings::Hidden,
    ArgSettings::TakesValue,
    ArgSettings::UseValueDelimiter,
    ArgSettings::NextLineHelp,
    ArgSettings::RequiredUnlessAll,
];

#[test]
fn new_flags_have_nothing_set() {
    let flags = ArgFlags::new();
    for s in ALL {
        assert!(!flags.is_set(s));
    }
    let flags = ArgFlags::default();
    for s in ALL {
        assert!(!flags.is_set(s));
    }
}

#[test]
fn set_switches_on_one_setting_only() {
    for s in ALL {
        let mut flags = ArgFlags::new();
        flags.set(s);
        for t in ALL {
            assert_eq!(flags.is_set(t), t == s);
        }
    }
}

#[test]
fn set_twice_is_set_once() {
    let mut flags = ArgFlags::new();
    flags.set(ArgSettings::Multiple);
    flags.set(ArgSettings::Multiple);
    assert!(flags.is_set(ArgSettings::Multiple));
    flags.unset(ArgSettings::Multiple);
    assert!(!flags.is_set(ArgSettings::Multiple));
}

#[test]
fn unset_switches_off_one_setting_only() {
    for s in ALL {
        let mut flags = ArgFlags::new();
        for t in ALL {
            flags.set(t);
        }
        flags.unset(s);
        for t in ALL {
            assert_eq!(flags.is_set(t), t != s);
        }
    }
}

#[test]
fn unset_of_what_is_off_changes_nothing() {
    let mut flags = ArgFlags::new();
    flags.set(ArgSettings::Required);
    flags.unset(ArgSettings::Hidden);
    assert!(flags.is_set(ArgSettings::Required));
    assert!(!flags.is_set(ArgSettings::Hidden));
}
