//! The value of the `--unix-listen-chmod` option.
use vstd::prelude::*;
use crate::text::{
    eq_ignore_ascii_case, lemma_eq_ignore_ascii_case_same_words, str_eq_ignore_ascii_case,
};

verus! {

/// Value of `--unix-listen-chmod` option which allows changing DAC file access mode for UNIX path socket
#[derive(Debug, Clone, Copy, PartialEq, Eq, Structural, PartialOrd, Ord, Hash)]
pub enum UnixChmodVariant {
    /// Set filesystem mode of the UNIX socket to `u+rw`, allowing access only to one uid
    Owner,
    /// Set filesystem mode of the UNIX socket to `ug+rw`, allowing access to owner uid and a group
    Group,
    /// Set filesystem mode of the UNIX socket to `a+rw`, allowing global access to the socket
    Everybody,
}

/// The name of each variant, as it is written and read.
pub open spec fn chmod_variant_text(v: UnixChmodVariant) -> Seq<char> {
    match v {
        UnixChmodVariant::Owner => "owner"@,
        UnixChmodVariant::Group => "group"@,
        UnixChmodVariant::Everybody => "everybody"@,
    }
}

/// The variant whose name matches `s` without regard to ASCII case, if any.
pub open spec fn chmod_variant_of(s: Seq<char>) -> Option<UnixChmodVariant> {
    if eq_ignore_ascii_case(s, "owner"@) {
        Some(UnixChmodVariant::Owner)
    } else if eq_ignore_ascii_case(s, "group"@) {
        Some(UnixChmodVariant::Group)
    } else if eq_ignore_ascii_case(s, "everybody"@) {
        Some(UnixChmodVariant::Everybody)
    } else {
        None
    }
}

/// The file mode bits that each variant gives to the socket file.
pub open spec fn chmod_mode_bits(v: UnixChmodVariant) -> u32 {
    match v {
        UnixChmodVariant::Owner => 0o600,
        UnixChmodVariant::Group => 0o660,
        UnixChmodVariant::Everybody => 0o666,
    }
}

impl UnixChmodVariant {
    /// Reads a variant from its name, ignoring ASCII case.
    pub fn parse(s: &str) -> (r: Result<UnixChmodVariant, &'static str>)
        ensures
            r is Ok <==> chmod_variant_of(s@) is Some,
            r matches Ok(v) ==> chmod_variant_of(s@) == Some(v),
            r matches Err(e) ==> e@
                == "Unknown chmod variant. Expected `owner`, `group` or `everybody`."@,
    {
        if str_eq_ignore_ascii_case(s, "owner") {
            Ok(UnixChmodVariant::Owner)
        } else if str_eq_ignore_ascii_case(s, "group") {
            Ok(UnixChmodVariant::Group)
        } else if str_eq_ignore_ascii_case(s, "everybody") {
            Ok(UnixChmodVariant::Everybody)
        } else {
            Err("Unknown chmod variant. Expected `owner`, `group` or `everybody`.")
        }
    }

    /// The name of the variant: `owner`, `group` or `everybody`.
    pub fn to_string(&self) -> (r: String)
        ensures
            r@ == chmod_variant_text(*self),
    {
        match self {
            UnixChmodVariant::Owner => String::from_str("owner"),
            UnixChmodVariant::Group => String::from_str("group"),
            UnixChmodVariant::Everybody => String::from_str("everybody"),
        }
    }

    /// The file mode bits given to a UNIX path socket: `u+rw`, `ug+rw` or `a+rw`.
    pub fn mode(&self) -> (r: u32)
        ensures
            r == chmod_mode_bits(*self),
    {
        match self {
            UnixChmodVariant::Owner => 0o600,
            UnixChmodVariant::Group => 0o660,
            UnixChmodVariant::Everybody => 0o666,
        }
    }
}

impl std::str::FromStr for UnixChmodVariant {
    type Err = &'static str;

    fn from_str(s: &str) -> (r: Result<UnixChmodVariant, &'static str>)
        ensures
            r is Ok <==> chmod_variant_of(s@) is Some,
            r matches Ok(v) ==> chmod_variant_of(s@) == Some(v),
            r matches Err(e) ==> e@
                == "Unknown chmod variant. Expected `owner`, `group` or `everybody`."@,
    {
        UnixChmodVariant::parse(s)
    }
}

/// Reading back the name of a variant gives the variant.
pub proof fn lemma_chmod_variant_round_trip(v: UnixChmodVariant)
    ensures
        chmod_variant_of(chmod_variant_text(v)) == Some(v),
{
    reveal_strlit("owner");
    reveal_strlit("group");
    reveal_strlit("everybody");
    match v {
        UnixChmodVariant::Owner => {},
        UnixChmodVariant::Group => {
            assert(!eq_ignore_ascii_case("group"@, "owner"@)) by {
                assert(crate::text::ascii_lower("group"@[0]) != crate::text::ascii_lower("owner"@[0]));
            };
        },
        UnixChmodVariant::Everybody => {},
    }
}

/// Reading a variant ignores ASCII case: texts that match without regard to
/// case read as the same variant, or are refused alike.
pub proof fn lemma_chmod_variant_ignores_case(s: Seq<char>, t: Seq<char>)
    requires
        eq_ignore_ascii_case(s, t),
    ensures
        chmod_variant_of(s) == chmod_variant_of(t),
{
    lemma_eq_ignore_ascii_case_same_words(s, t, "owner"@);
    lemma_eq_ignore_ascii_case_same_words(s, t, "group"@);
    lemma_eq_ignore_ascii_case_same_words(s, t, "everybody"@);
}

} // verus!
