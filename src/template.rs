use vstd::prelude::*;
use vstd::string::*;
use crate::text::{find_from, find_spec, lookup};

verus! {

/// The map that a list of bindings denotes: a later binding of a name
/// overrides an earlier one.
pub open spec fn bindings_map(e: Seq<(String, String)>) -> Map<Seq<char>, Seq<char>> {
    Map::new(|k: Seq<char>| lookup(e, k) is Some, |k: Seq<char>| (lookup(e, k)->0)@)
}

pub proof fn lemma_bindings_push(e: Seq<(String, String)>, b: (String, String))
    ensures
        bindings_map(e.push(b)) == bindings_map(e).insert(b.0@, b.1@),
{
    assert(e.push(b).drop_last() =~= e);
    assert(bindings_map(e.push(b)) =~= bindings_map(e).insert(b.0@, b.1@));
}

/// Named values for argument templates.
#[derive(Debug)]
pub struct Vars {
    pub entries: Vec<(String, String)>,
}

impl View for Vars {
    type V = Map<Seq<char>, Seq<char>>;

    open spec fn view(&self) -> Map<Seq<char>, Seq<char>> {
        bindings_map(self.entries@)
    }
}

impl Vars {
    pub fn new() -> (r: Vars)
        ensures
            r@ == Map::<Seq<char>, Seq<char>>::empty(),
    {
        let r = Vars { entries: Vec::new() };
        assert(r@ =~= Map::<Seq<char>, Seq<char>>::empty());
        r
    }

    /// Binds `k` to `v`, replacing an earlier binding of `k`.
    pub fn insert(&mut self, k: &str, v: &str)
        ensures
            final(self)@ == old(self)@.insert(k@, v@),
    {
        let b = (String::from_str(k), String::from_str(v));
        proof {
            lemma_bindings_push(self.entries@, b);
        }
        self.entries.push(b);
    }

    pub fn get(&self, k: &str) -> (r: Option<&String>)
        ensures
            r matches Some(v) ==> self@.contains_key(k@) && self@[k@] == v@,
            r is None ==> !self@.contains_key(k@),
    {
        crate::text::find_key(&self.entries, k)
    }
}

pub open spec fn open_marker() -> Seq<char> {
    seq!['$', '{']
}

pub open spec fn close_marker() -> Seq<char> {
    seq!['}']
}

pub open spec fn null_text() -> Seq<char> {
    seq!['n', 'u', 'l', 'l']
}

/// The template with its first `${name}` placeholder replaced by the value
/// of `name`, or by `null` when `name` is unbound. Text before and after the
/// placeholder, later placeholders included, is kept as it is. A template
/// without a complete placeholder is returned unchanged.
pub open spec fn substitute(t: Seq<char>, vars: Map<Seq<char>, Seq<char>>) -> Seq<char> {
    match find_spec(t, open_marker(), 0) {
        None => t,
        Some(m) => match find_spec(t, close_marker(), m + 2) {
            None => t,
            Some(c) => t.take(m) + if vars.contains_key(t.subrange(m + 2, c)) {
                vars[t.subrange(m + 2, c)]
            } else {
                null_text()
            } + t.skip(c + 1),
        },
    }
}

/// Fills the first placeholder of an argument template.
pub fn format(t: &str, vars: &Vars) -> (r: String)
    ensures
        r@ == substitute(t@, vars@),
{
    proof {
        reveal_strlit("${");
        reveal_strlit("}");
        reveal_strlit("null");
    }
    assert("${"@ =~= open_marker());
    assert("}"@ =~= close_marker());
    assert("null"@ =~= null_text());
    let n = t.unicode_len();
    match find_from(t, "${", 0) {
        None => String::from_str(t),
        Some(m) => match find_from(t, "}", m + 2) {
            None => String::from_str(t),
            Some(c) => {
                let name = t.substring_char(m + 2, c);
                let mut r = String::from_str(t.substring_char(0, m));
                match vars.get(name) {
                    Some(v) => r.append(v.as_str()),
                    None => r.append("null"),
                }
                r.append(t.substring_char(c + 1, n));
                assert(t@.subrange(0, m as int) =~= t@.take(m as int));
                assert(t@.subrange(c + 1, n as int) =~= t@.skip(c + 1));
                r
            },
        },
    }
}

} // verus!
