//! The shells for which a completion script can be generated.

use std::str::FromStr;
use vstd::prelude::*;

verus! {

/// Describes which shell to produce a completions file for.
#[derive(Debug, Clone, Copy, PartialEq, Eq, Structural)]
pub enum Shell {
    /// The Bourne Again SHell.
    Bash,
    /// The Friendly Interactive SHell.
    Fish,
    /// The Z SHell.
    Zsh,
}

/// The ASCII lower-case equivalent of `c`: `'A'..='Z'` map to `'a'..='z'`,
/// every other character is unchanged.
pub open spec fn ascii_lower(c: char) -> char {
    if 'A' <= c && c <= 'Z' {
        ((c as u32) + 32) as char
    } else {
        c
    }
}

/// `s` with each character mapped to its ASCII lower-case equivalent.
pub open spec fn ascii_lowercase(s: Seq<char>) -> Seq<char> {
    Seq::new(s.len(), |i: int| ascii_lower(s[i]))
}

/// Whether `a` and `b` are equal up to the case of their ASCII letters.
pub open spec fn eq_ignoring_ascii_case(a: Seq<char>, b: Seq<char>) -> bool {
    ascii_lowercase(a) == ascii_lowercase(b)
}

/// The text reported when a shell name is not recognised.
pub open spec fn invalid_shell_message() -> Seq<char> {
    "[valid values: bash, fish, zsh]"@
}

/// `str::eq_ignore_ascii_case` of std: true exactly when the two strings,
/// each mapped to ASCII lower case, are the same.
pub assume_specification[ str::eq_ignore_ascii_case ](s: &str, other: &str) -> (r: bool)
    ensures
        r == eq_ignoring_ascii_case(s@, other@),
;

impl Shell {
    /// The shell that `text` names, if any: the match against `zsh`, `fish`
    /// and `bash` ignores ASCII case and nothing else (no trimming).
    pub open spec fn parse_spec(text: Seq<char>) -> Option<Shell> {
        if eq_ignoring_ascii_case(text, "zsh"@) {
            Some(Shell::Zsh)
        } else if eq_ignoring_ascii_case(text, "fish"@) {
            Some(Shell::Fish)
        } else if eq_ignoring_ascii_case(text, "bash"@) {
            Some(Shell::Bash)
        } else {
            None
        }
    }

    /// The upper-case token shown for a shell.
    pub open spec fn render_spec(self) -> Seq<char> {
        match self {
            Shell::Bash => "BASH"@,
            Shell::Fish => "FISH"@,
            Shell::Zsh => "ZSH"@,
        }
    }

    /// The accepted spellings, in the order in which help text lists them.
    pub open spec fn variants_spec() -> Seq<Seq<char>> {
        seq!["zsh"@, "bash"@, "fish"@]
    }

    /// A list of possible variants in `&'static str` form.
    pub fn variants() -> (r: [&'static str; 3])
        ensures
            r@.map_values(|s: &'static str| s@) == Self::variants_spec(),
    {
        let r = ["zsh", "bash", "fish"];
        assert(r@.map_values(|s: &'static str| s@) =~= Self::variants_spec());
        r
    }

    /// Parses a shell name, ignoring ASCII case.
    pub fn parse(text: &str) -> (r: Result<Shell, String>)
        ensures
            match Self::parse_spec(text@) {
                Some(shell) => r == Ok::<Shell, String>(shell),
                None => r is Err && r->Err_0@ == invalid_shell_message(),
            },
    {
        if text.eq_ignore_ascii_case("zsh") {
            Ok(Shell::Zsh)
        } else if text.eq_ignore_ascii_case("fish") {
            Ok(Shell::Fish)
        } else if text.eq_ignore_ascii_case("bash") {
            Ok(Shell::Bash)
        } else {
            Err("[valid values: bash, fish, zsh]".to_owned())
        }
    }

    /// The token shown for this shell.
    pub fn render(&self) -> (r: String)
        ensures
            r@ == self.render_spec(),
    {
        match self {
            Shell::Bash => "BASH".to_owned(),
            Shell::Fish => "FISH".to_owned(),
            Shell::Zsh => "ZSH".to_owned(),
        }
    }
}

impl FromStr for Shell {
    type Err = String;

    fn from_str(s: &str) -> (r: Result<Self, String>)
        ensures
            match Shell::parse_spec(s@) {
                Some(shell) => r == Ok::<Shell, String>(shell),
                None => r is Err && r->Err_0@ == invalid_shell_message(),
            },
    {
        Shell::parse(s)
    }
}

/// Parsing does not tell apart two texts that differ only in the case of
/// their ASCII letters.
pub proof fn lemma_parse_ignores_case(a: Seq<char>, b: Seq<char>)
    requires
        eq_ignoring_ascii_case(a, b),
    ensures
        Shell::parse_spec(a) == Shell::parse_spec(b),
{
}

/// Every listed spelling names a shell, and that shell is rendered otherwise
/// than it is spelled: rendering does not undo parsing.
pub proof fn lemma_render_does_not_invert_parse(i: int)
    requires
        0 <= i < Shell::variants_spec().len(),
    ensures
        Shell::parse_spec(Shell::variants_spec()[i]) is Some,
        Shell::parse_spec(Shell::variants_spec()[i])->0.render_spec() != Shell::variants_spec()[i],
{
    reveal_strlit("zsh");
    reveal_strlit("bash");
    reveal_strlit("fish");
    reveal_strlit("ZSH");
    reveal_strlit("BASH");
    reveal_strlit("FISH");
    let spelled = Shell::variants_spec()[i];
    assert(ascii_lowercase(spelled) =~= spelled);
    assert("zsh"@.len() == 3 && "bash"@.len() == 4 && "fish"@.len() == 4);
    assert("bash"@[0] == 'b' && "fish"@[0] == 'f');
    assert("ZSH"@[0] == 'Z' && "BASH"@[0] == 'B' && "FISH"@[0] == 'F' && "zsh"@[0] == 'z');
}

/// No shell is rendered as one of the listed spellings.
pub proof fn lemma_rendered_is_not_listed(shell: Shell)
    ensures
        !Shell::variants_spec().contains(shell.render_spec()),
{
    reveal_strlit("zsh");
    reveal_strlit("bash");
    reveal_strlit("fish");
    reveal_strlit("ZSH");
    reveal_strlit("BASH");
    reveal_strlit("FISH");
    assert("ZSH"@[0] == 'Z' && "BASH"@[0] == 'B' && "FISH"@[0] == 'F');
    assert("zsh"@[0] == 'z' && "bash"@[0] == 'b' && "fish"@[0] == 'f');
}

} // verus!
