use vstd::prelude::*;
use vstd::string::*;
use crate::text::{find_key, lookup, str_eq};

verus! {

/// The platform that rules and native classifiers are evaluated against.
#[derive(Debug)]
pub struct Platform {
    /// Operating system name as descriptors write it (`windows`, `osx`, `linux`).
    pub name: String,
    /// Architecture name that rules compare with (`x86`, `aarch64`).
    pub arch: String,
    /// Word size substituted for `${arch}` in classifier keys (`64`, `32`).
    pub arch_bits: String,
}

pub open spec fn windows_name() -> Seq<char> {
    seq!['w', 'i', 'n', 'd', 'o', 'w', 's']
}

/// The separator of a list of paths on a platform: `;` on Windows, `:` elsewhere.
pub open spec fn path_separator_spec(name: Seq<char>) -> Seq<char> {
    if name == windows_name() {
        seq![';']
    } else {
        seq![':']
    }
}

impl Platform {
    pub fn path_separator(&self) -> (r: &'static str)
        ensures
            r@ == path_separator_spec(self.name@),
    {
        proof {
            reveal_strlit("windows");
            reveal_strlit(";");
            reveal_strlit(":");
        }
        assert("windows"@ =~= windows_name());
        if str_eq(self.name.as_str(), "windows") {
            assert(";"@ =~= seq![';']);
            ";"
        } else {
            assert(":"@ =~= seq![':']);
            ":"
        }
    }
}

pub open spec fn allow_word() -> Seq<char> {
    seq!['a', 'l', 'l', 'o', 'w']
}

pub open spec fn name_key() -> Seq<char> {
    seq!['n', 'a', 'm', 'e']
}

pub open spec fn arch_key() -> Seq<char> {
    seq!['a', 'r', 'c', 'h']
}

/// A condition under which a library or an argument applies.
#[derive(Debug)]
pub struct Rule {
    /// `allow`, or anything else for deny.
    pub action: String,
    /// Constraints on the operating system, keyed by `name` and `arch`.
    pub os: Vec<(String, String)>,
    /// Feature flags; no feature is ever enabled.
    pub features: Vec<(String, bool)>,
}

/// Whether an optional constraint value, if present, differs from `actual`.
pub open spec fn mismatches(c: Option<String>, actual: Seq<char>) -> bool {
    match c {
        Some(v) => v@ != actual,
        None => false,
    }
}

impl Rule {
    /// Rule evaluation: the verdict of an allow rule is `true`, of any other
    /// `false`; a rule with feature constraints, or one whose OS name or
    /// architecture differs from the platform's, gives the opposite verdict.
    pub open spec fn holds(&self, p: Platform) -> bool {
        let allow = self.action@ == allow_word();
        if self.features@.len() > 0 {
            !allow
        } else if mismatches(lookup(self.os@, name_key()), p.name@) {
            !allow
        } else if mismatches(lookup(self.os@, arch_key()), p.arch@) {
            !allow
        } else {
            allow
        }
    }

    pub fn calc(&self, p: &Platform) -> (r: bool)
        ensures
            r == self.holds(*p),
    {
        proof {
            reveal_strlit("allow");
            reveal_strlit("name");
            reveal_strlit("arch");
        }
        assert("allow"@ =~= allow_word());
        assert("name"@ =~= name_key());
        assert("arch"@ =~= arch_key());
        let result = str_eq(self.action.as_str(), "allow");
        if self.features.len() > 0 {
            return !result;
        }
        match find_key(&self.os, "name") {
            Some(v) => {
                if !str_eq(v.as_str(), p.name.as_str()) {
                    return !result;
                }
            },
            None => {},
        }
        match find_key(&self.os, "arch") {
            Some(v) => {
                if !str_eq(v.as_str(), p.arch.as_str()) {
                    return !result;
                }
            },
            None => {},
        }
        result
    }
}

/// An element with these rules applies when none of them fails.
pub open spec fn all_hold(rules: Seq<Rule>, p: Platform) -> bool {
    forall|i: int| 0 <= i < rules.len() ==> #[trigger] rules[i].holds(p)
}

pub fn permitted(rules: &Vec<Rule>, p: &Platform) -> (r: bool)
    ensures
        r == all_hold(rules@, *p),
{
    let mut i: usize = 0;
    while i < rules.len()
        invariant
            i <= rules@.len(),
            forall|j: int| 0 <= j < i ==> #[trigger] rules@[j].holds(*p),
        decreases rules@.len() - i,
    {
        if !rules[i].calc(p) {
            return false;
        }
        i += 1;
    }
    true
}

/// An allow rule whose one constraint is the platform's own OS name holds;
/// the same rule with a different architecture added does not; and an allow
/// rule with any feature constraint does not hold.
pub proof fn lemma_rule_evaluation(r: Rule, p: Platform)
    ensures
        r.action@ == allow_word() && r.features@.len() == 0 && lookup(r.os@, arch_key()) is None
            && (lookup(r.os@, name_key()) matches Some(v) && v@ == p.name@) ==> r.holds(p),
        r.action@ == allow_word() && r.features@.len() == 0 && (lookup(r.os@, name_key()) matches Some(
            v,
        ) && v@ == p.name@) && (lookup(r.os@, arch_key()) matches Some(a) && a@ != p.arch@)
            ==> !r.holds(p),
        r.action@ == allow_word() && r.features@.len() > 0 ==> !r.holds(p),
{
}

} // verus!
