//! Shell kinds and the rules for alias names.

use vstd::prelude::*;
use crate::errors::ModeError;
use crate::text::{chars_of, contains_chars, equals_str, has_infix, join3};

verus! {

/// The shells whose rc files this tool edits.
#[derive(Debug, Clone, Copy, PartialEq, Eq, Structural)]
pub enum ShellType {
    Bash,
    Zsh,
}

pub open spec fn shell_name(s: ShellType) -> Seq<char> {
    match s {
        ShellType::Bash => "bash"@,
        ShellType::Zsh => "zsh"@,
    }
}

pub open spec fn shell_rc_file_name(s: ShellType) -> Seq<char> {
    match s {
        ShellType::Bash => ".bashrc"@,
        ShellType::Zsh => ".zshrc"@,
    }
}

impl ShellType {
    /// The shell's name.
    pub fn name(&self) -> (r: &'static str)
        ensures
            r@ == shell_name(*self),
    {
        match self {
            ShellType::Bash => "bash",
            ShellType::Zsh => "zsh",
        }
    }

    /// The name of the shell's rc file in the home directory.
    pub fn rc_file_name(&self) -> (r: &'static str)
        ensures
            r@ == shell_rc_file_name(*self),
    {
        match self {
            ShellType::Bash => ".bashrc",
            ShellType::Zsh => ".zshrc",
        }
    }
}

/// The shell named by a login shell path such as `/bin/bash`, or why it is
/// not supported.
pub open spec fn shell_of_path(path: Seq<char>) -> Result<ShellType, Seq<char>> {
    if has_infix(path, "bash"@) {
        Ok(ShellType::Bash)
    } else if has_infix(path, "zsh"@) {
        Ok(ShellType::Zsh)
    } else {
        Err("Unsupported shell: "@ + path + ". Only bash and zsh are supported."@)
    }
}

/// Tells the shell from the login shell path (the `SHELL` variable).
pub fn shell_type_from_path(shell_path: &str) -> (r: Result<ShellType, ModeError>)
    ensures
        shell_of_path(shell_path@) matches Ok(s) ==> r == Ok::<ShellType, ModeError>(s),
        shell_of_path(shell_path@) matches Err(m) ==> r matches Err(ModeError::ShellDetection(d))
            && d@ == m,
{
    let path = chars_of(shell_path);
    let bash = chars_of("bash");
    if contains_chars(&path, &bash) {
        return Ok(ShellType::Bash);
    }
    let zsh = chars_of("zsh");
    if contains_chars(&path, &zsh) {
        return Ok(ShellType::Zsh);
    }
    Err(
        ModeError::ShellDetection(
            join3("Unsupported shell: ", shell_path, ". Only bash and zsh are supported."),
        ),
    )
}

/// Words the shell reserves, which cannot name an alias.
pub open spec fn reserved_words() -> Seq<Seq<char>> {
    seq![
        "if"@, "then"@, "else"@, "elif"@, "fi"@, "case"@, "esac"@, "for"@, "select"@,
        "while"@, "until"@, "do"@, "done"@, "in"@, "function"@, "time"@, "!"@, "[["@, "]]"@,
        "{"@, "}"@,
    ]
}

pub open spec fn is_ascii_alphanumeric(c: char) -> bool {
    ('a' <= c <= 'z') || ('A' <= c <= 'Z') || ('0' <= c <= '9')
}

/// Why an alias name is rejected, if it is: it must be non-empty, must not
/// start with a digit, may hold only ASCII letters, digits and underscores,
/// and must not be a reserved word.
pub open spec fn alias_name_error(n: Seq<char>) -> Option<Seq<char>> {
    if n.len() == 0 {
        Some("Alias name cannot be empty"@)
    } else if '0' <= n[0] <= '9' {
        Some("Alias name cannot start with a digit"@)
    } else if !(forall|i: int| 0 <= i < n.len() ==> is_ascii_alphanumeric(#[trigger] n[i]) || n[i] == '_') {
        Some("Alias name can only contain letters, numbers, and underscores"@)
    } else if reserved_words().contains(n) {
        Some("'"@ + n + "' is a shell reserved keyword"@)
    } else {
        None
    }
}

/// Checks an alias name.
pub fn validate_alias_name(name: &str) -> (r: Result<(), ModeError>)
    ensures
        alias_name_error(name@) is None ==> r is Ok,
        alias_name_error(name@) matches Some(m) ==> r matches Err(ModeError::InvalidAliasName(d))
            && d@ == m,
{
    let n = chars_of(name);
    if n.len() == 0 {
        return Err(ModeError::InvalidAliasName("Alias name cannot be empty".to_owned()));
    }
    let first = n[0];
    if '0' <= first && first <= '9' {
        return Err(ModeError::InvalidAliasName("Alias name cannot start with a digit".to_owned()));
    }
    let mut i: usize = 0;
    while i < n.len()
        invariant
            i <= n@.len(),
            n@ == name@,
            n@.len() > 0,
            !('0' <= n@[0] <= '9'),
            forall|k: int| 0 <= k < i ==> is_ascii_alphanumeric(#[trigger] n@[k]) || n@[k] == '_',
        decreases n.len() - i,
    {
        let c = n[i];
        if !(('a' <= c && c <= 'z') || ('A' <= c && c <= 'Z') || ('0' <= c && c <= '9') || c
            == '_') {
            assert(!(is_ascii_alphanumeric(n@[i as int]) || n@[i as int] == '_'));
            return Err(
                ModeError::InvalidAliasName(
                    "Alias name can only contain letters, numbers, and underscores".to_owned(),
                ),
            );
        }
        i = i + 1;
    }
    let reserved: Vec<&'static str> = vec![
        "if", "then", "else", "elif", "fi", "case", "esac", "for", "select", "while", "until",
        "do", "done", "in", "function", "time", "!", "[[", "]]", "{", "}",
    ];
    let ghost words = reserved@.map_values(|w: &'static str| w@);
    assert(words =~= reserved_words());
    let mut k: usize = 0;
    while k < reserved.len()
        invariant
            k <= reserved@.len(),
            words == reserved@.map_values(|w: &'static str| w@),
            words == reserved_words(),
            n@ == name@,
            n@.len() > 0,
            !('0' <= n@[0] <= '9'),
            forall|c: int| 0 <= c < n@.len() ==> is_ascii_alphanumeric(#[trigger] n@[c]) || n@[c] == '_',
            forall|j: int| 0 <= j < k ==> words[j] != n@,
        decreases reserved.len() - k,
    {
        if equals_str(&n, reserved[k]) {
            assert(words[k as int] == n@);
            assert(reserved_words().contains(n@));
            return Err(
                ModeError::InvalidAliasName(
                    join3("'", name, "' is a shell reserved keyword"),
                ),
            );
        }
        k = k + 1;
    }
    assert(!reserved_words().contains(n@)) by {
        if reserved_words().contains(n@) {
            let j = choose|j: int| 0 <= j < words.len() && words[j] == n@;
            assert(words[j] != n@);
        }
    }
    Ok(())
}

} // verus!
