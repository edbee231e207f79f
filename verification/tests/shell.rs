use optspec::shell::Shell;
use std::str::FromStr;

#[test]
fn parse_ignores_ascii_case() {
    assert_eq!(Shell::parse("Bash"), Ok(Shell::Bash));
    assert_eq!(Shell::parse("BASH"), Ok(Shell::Bash));
    assert_eq!(Shell::parse("bash"), Ok(Shell::Bash));
    assert_eq!(Shell::parse("fIsH"), Ok(Shell::Fish));
    assert_eq!(Shell::parse("ZSH"), Ok(Shell::Zsh));
    assert_eq!(Shell::parse("zsh"), Ok(Shell::Zsh));
}

#[test]
fn parse_does_not_trim() {
    assert_eq!(
        Shell::parse("zsh "),
        Err(String::from("[valid values: bash, fish, zsh]"))
    );
    assert_eq!(
        Shell::parse(" bash"),
        Err(String::from("[valid values: bash, fish, zsh]"))
    );
}

#[test]
fn parse_rejects_other_text() {
    let expected = Err(String::from("[valid values: bash, fish, zsh]"));
    assert_eq!(Shell::parse(""), expected);
    assert_eq!(Shell::parse("powershell"), expected);
    assert_eq!(Shell::parse("bas"), expected);
    assert_eq!(Shell::parse("bashh"), expected);
    // Only ASCII letters are folded: the long s is no `s`.
    assert_eq!(Shell::parse("fi\u{17f}h"), expected);
}

#[test]
fn from_str_agrees_with_parse() {
    assert_eq!(Shell::from_str("Fish"), Ok(Shell::Fish));
    assert_eq!("zsh".parse::<Shell>(), Ok(Shell::Zsh));
    assert_eq!(
        "csh".parse::<Shell>(),
        Err(String::from("[valid values: bash, fish, zsh]"))
    );
}

#[test]
fn render_is_upper_case() {
    assert_eq!(Shell::Bash.render(), "BASH");
    assert_eq!(Shell::Fish.render(), "FISH");
    assert_eq!(Shell::Zsh.render(), "ZSH");
}

#[test]
fn render_is_not_a_listed_variant() {
    for shell in [Shell::Bash, Shell::Fish, Shell::Zsh] {
        let shown = shell.render();
        assert!(!Shell::variants().contains(&shown.as_str()));
    }
}

#[test]
fn render_does_not_invert_parse() {
    for spelled in Shell::variants() {
        let shell = Shell::parse(spelled).unwrap();
        assert_ne!(shell.render(), spelled);
    }
}

#[test]
fn variants_in_listed_order() {
    assert_eq!(Shell::variants(), ["zsh", "bash", "fish"]);
}
