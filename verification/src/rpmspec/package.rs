//! Package dependencies and file attributes of a spec file.
use crate::text::{chars_eq, chars_of};
use vstd::prelude::*;

verus! {

/// Conditional operators used in specifying dependencies: `=`, `<=`, `<`,
/// `>=`, `>`.
#[derive(Debug, Clone, Copy, PartialEq, Eq, Structural)]
pub enum PkgQCond {
    /// =
    Eq,
    /// <=
    Le,
    /// <
    Lt,
    /// >=
    Ge,
    /// >
    Gt,
}

/// The symbol of each condition.
pub open spec fn cond_symbol(c: PkgQCond) -> Seq<char> {
    match c {
        PkgQCond::Eq => "="@,
        PkgQCond::Le => "<="@,
        PkgQCond::Lt => "<"@,
        PkgQCond::Ge => ">="@,
        PkgQCond::Gt => ">"@,
    }
}

/// Different conditions have different symbols.
pub proof fn lemma_cond_symbol_injective(a: PkgQCond, b: PkgQCond)
    ensures
        cond_symbol(a) == cond_symbol(b) ==> a == b,
{
    reveal_strlit("=");
    reveal_strlit("<=");
    reveal_strlit("<");
    reveal_strlit(">=");
    reveal_strlit(">");
    if cond_symbol(a) == cond_symbol(b) {
        assert(cond_symbol(a).len() == cond_symbol(b).len());
        assert(cond_symbol(a)[0] == cond_symbol(b)[0]);
    }
}

/// Whether `s` is the symbol of a condition.
pub open spec fn is_cond_symbol(s: Seq<char>) -> bool {
    exists|c: PkgQCond| cond_symbol(c) == s
}

fn lit_is(s: &[char], lit: &str) -> (r: bool)
    ensures
        r == (s@ == lit@),
{
    chars_eq(s, &chars_of(lit))
}

impl PkgQCond {
    /// The condition written as `symbol`.
    pub fn from_symbol(symbol: &str) -> (r: PkgQCond)
        requires
            is_cond_symbol(symbol@),
        ensures
            cond_symbol(r) == symbol@,
    {
        let s = chars_of(symbol);
        if lit_is(&s, "=") {
            PkgQCond::Eq
        } else if lit_is(&s, ">=") {
            PkgQCond::Ge
        } else if lit_is(&s, ">") {
            PkgQCond::Gt
        } else if lit_is(&s, "<=") {
            PkgQCond::Le
        } else {
            let ghost c = choose|c: PkgQCond| cond_symbol(c) == symbol@;
            assert(c == PkgQCond::Lt);
            PkgQCond::Lt
        }
    }
}

impl Default for PkgQCond {
    fn default() -> (r: PkgQCond)
        ensures
            r == PkgQCond::Eq,
    {
        PkgQCond::Eq
    }
}

/// Settings for `%config(...)` in `%files`: `%config`,
/// `%config(missingok)`, `%config(noreplace)`.
#[derive(Debug, Clone, Copy, PartialEq, Eq, Structural)]
pub enum ConfigFileMod {
    /// Represents `%config`
    Plain,
    /// Represents `%config(missingok)`
    MissingOK,
    /// Represents `%config(noreplace)`
    NoReplace,
}

impl Default for ConfigFileMod {
    fn default() -> (r: ConfigFileMod)
        ensures
            r == ConfigFileMod::Plain,
    {
        ConfigFileMod::Plain
    }
}

/// Settings for `%verify(...)` in `%files`.
#[derive(Debug)]
pub enum VerifyFileMod {
    /// Represents `%verify(user owner)`
    Owner,
    /// Represents `%verify(group)`
    Group,
    /// Represents `%verify(mode)`
    Mode,
    /// Represents `%verify(filedigest md5)`
    Md5,
    /// Represents `%verify(size)`
    Size,
    /// Represents `%verify(maj)`
    Maj,
    /// Represents `%verify(min)`
    Min,
    /// Represents `%verify(link symlink)`
    Symlink,
    /// Represents `%verify(mtime)`
    Mtime,
    /// Represents `%verify(rdev)`
    Rdev,
    /// Represents `%verify(...)` where `...` is invalid
    Invalid(String),
    /// Represents `%verify(not ...)`
    Not,
}

/// The setting that a `%verify` argument names.
pub open spec fn verify_mod_of(v: Seq<char>) -> VerifyFileMod {
    if v == "user"@ || v == "owner"@ {
        VerifyFileMod::Owner
    } else if v == "group"@ {
        VerifyFileMod::Group
    } else if v == "mode"@ {
        VerifyFileMod::Mode
    } else if v == "filedigest"@ || v == "md5"@ {
        VerifyFileMod::Md5
    } else if v == "size"@ {
        VerifyFileMod::Size
    } else if v == "maj"@ {
        VerifyFileMod::Maj
    } else if v == "min"@ {
        VerifyFileMod::Min
    } else if v == "link"@ || v == "symlink"@ {
        VerifyFileMod::Symlink
    } else if v == "rdev"@ {
        VerifyFileMod::Rdev
    } else if v == "mtime"@ {
        VerifyFileMod::Mtime
    } else if v == "not"@ {
        VerifyFileMod::Not
    } else {
        VerifyFileMod::Invalid(arbitrary())
    }
}

/// Two settings agree; an unknown argument is compared by its text.
pub open spec fn verify_mod_is(m: VerifyFileMod, v: Seq<char>) -> bool {
    match verify_mod_of(v) {
        VerifyFileMod::Invalid(_) => m matches VerifyFileMod::Invalid(s) && s@ == v,
        known => m == known,
    }
}

impl VerifyFileMod {
    /// Returns all the possible arguments to `%verify`
    pub fn all() -> (r: Vec<VerifyFileMod>)
        ensures
            r@ == seq![VerifyFileMod::Owner, VerifyFileMod::Group, VerifyFileMod::Mode, VerifyFileMod::Md5,
                VerifyFileMod::Size, VerifyFileMod::Maj, VerifyFileMod::Min, VerifyFileMod::Symlink, VerifyFileMod::Mtime,
                VerifyFileMod::Rdev],
    {
        let mut v: Vec<VerifyFileMod> = Vec::new();
        v.push(VerifyFileMod::Owner);
        v.push(VerifyFileMod::Group);
        v.push(VerifyFileMod::Mode);
        v.push(VerifyFileMod::Md5);
        v.push(VerifyFileMod::Size);
        v.push(VerifyFileMod::Maj);
        v.push(VerifyFileMod::Min);
        v.push(VerifyFileMod::Symlink);
        v.push(VerifyFileMod::Mtime);
        v.push(VerifyFileMod::Rdev);
        assert(v@ =~= seq![VerifyFileMod::Owner, VerifyFileMod::Group, VerifyFileMod::Mode, VerifyFileMod::Md5,
            VerifyFileMod::Size, VerifyFileMod::Maj, VerifyFileMod::Min, VerifyFileMod::Symlink, VerifyFileMod::Mtime,
            VerifyFileMod::Rdev]);
        v
    }

    /// The setting that a `%verify` argument names; an unknown one is kept
    /// as `Invalid` with its text.
    pub fn from_arg(value: &str) -> (r: VerifyFileMod)
        ensures
            verify_mod_is(r, value@),
    {
        let s = chars_of(value);
        if lit_is(&s, "user") || lit_is(&s, "owner") {
            VerifyFileMod::Owner
        } else if lit_is(&s, "group") {
            VerifyFileMod::Group
        } else if lit_is(&s, "mode") {
            VerifyFileMod::Mode
        } else if lit_is(&s, "filedigest") || lit_is(&s, "md5") {
            VerifyFileMod::Md5
        } else if lit_is(&s, "size") {
            VerifyFileMod::Size
        } else if lit_is(&s, "maj") {
            VerifyFileMod::Maj
        } else if lit_is(&s, "min") {
            VerifyFileMod::Min
        } else if lit_is(&s, "link") || lit_is(&s, "symlink") {
            VerifyFileMod::Symlink
        } else if lit_is(&s, "rdev") {
            VerifyFileMod::Rdev
        } else if lit_is(&s, "mtime") {
            VerifyFileMod::Mtime
        } else if lit_is(&s, "not") {
            VerifyFileMod::Not
        } else {
            VerifyFileMod::Invalid(value.to_owned())
        }
    }
}

impl<'a> From<&'a str> for VerifyFileMod {
    fn from(value: &'a str) -> (r: VerifyFileMod)
        ensures
            verify_mod_is(r, value@),
    {
        VerifyFileMod::from_arg(value)
    }
}

impl<'a> vstd::std_specs::convert::FromSpecImpl<&'a str> for VerifyFileMod {
    open spec fn obeys_from_spec() -> bool {
        false
    }

    open spec fn from_spec(value: &'a str) -> VerifyFileMod {
        verify_mod_of(value@)
    }
}

} // verus!
