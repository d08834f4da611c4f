use vstd::prelude::*;
use crate::rule::{all_hold, permitted, Platform, Rule};
use crate::text::views;

verus! {

/// One argument value: a single token or a list of tokens.
#[derive(Debug)]
pub enum Value {
    Single(String),
    Multiple(Vec<String>),
}

/// A launch argument, either unconditional or gated by rules.
#[derive(Debug)]
pub enum Argument {
    Raw(Value),
    WithRules { rules: Vec<Rule>, value: Value },
}

/// The structured argument lists of a descriptor.
#[derive(Debug)]
pub struct Arguments {
    pub game: Vec<Argument>,
    pub jvm: Vec<Argument>,
}

impl Default for Arguments {
    fn default() -> (r: Self)
        ensures
            r.game@.len() == 0,
            r.jvm@.len() == 0,
    {
        Arguments { game: Vec::new(), jvm: Vec::new() }
    }
}

/// The tokens that a value contributes, in order.
pub open spec fn value_tokens(v: Value) -> Seq<Seq<char>> {
    match v {
        Value::Single(s) => seq![s@],
        Value::Multiple(l) => views(l@),
    }
}

/// The tokens that an argument contributes on a platform: none when one of
/// its rules fails.
pub open spec fn argument_tokens(a: Argument, p: Platform) -> Seq<Seq<char>> {
    match a {
        Argument::Raw(v) => value_tokens(v),
        Argument::WithRules { rules, value } => if all_hold(rules@, p) {
            value_tokens(value)
        } else {
            Seq::empty()
        },
    }
}

/// The tokens of a list of arguments on a platform, in order.
pub open spec fn tokens(args: Seq<Argument>, p: Platform) -> Seq<Seq<char>>
    decreases args.len(),
{
    if args.len() == 0 {
        Seq::empty()
    } else {
        tokens(args.drop_last(), p) + argument_tokens(args.last(), p)
    }
}

fn push_value(out: &mut Vec<String>, v: &Value)
    ensures
        views(final(out)@) == views(old(out)@) + value_tokens(*v),
{
    match v {
        Value::Single(s) => {
            out.push(s.clone());
            assert(views(final(out)@) =~= views(old(out)@) + value_tokens(*v));
        },
        Value::Multiple(l) => {
            let mut j: usize = 0;
            while j < l.len()
                invariant
                    j <= l@.len(),
                    views(out@) == views(old(out)@) + views(l@.take(j as int)),
                decreases l@.len() - j,
            {
                let ghost prev = out@;
                out.push(l[j].clone());
                assert(l@.take(j + 1) =~= l@.take(j as int).push(l@[j as int]));
                assert(views(out@) =~= views(prev).push(l@[j as int]@));
                assert(views(l@.take(j + 1)) =~= views(l@.take(j as int)).push(l@[j as int]@));
                assert(views(out@) =~= views(old(out)@) + views(l@.take(j + 1)));
                j += 1;
            }
            assert(l@.take(l@.len() as int) =~= l@);
        },
    }
}

/// The argument tokens that apply on a platform, in order.
pub fn flatten(args: &Vec<Argument>, p: &Platform) -> (r: Vec<String>)
    ensures
        views(r@) == tokens(args@, *p),
{
    let mut out: Vec<String> = Vec::new();
    let mut i: usize = 0;
    while i < args.len()
        invariant
            i <= args@.len(),
            views(out@) == tokens(args@.take(i as int), *p),
        decreases args@.len() - i,
    {
        assert(args@.take(i + 1).drop_last() =~= args@.take(i as int));
        match &args[i] {
            Argument::Raw(v) => {
                push_value(&mut out, v);
            },
            Argument::WithRules { rules, value } => {
                if permitted(rules, p) {
                    push_value(&mut out, value);
                } else {
                    assert(views(out@) =~= views(out@) + Seq::<Seq<char>>::empty());
                }
            },
        }
        i += 1;
    }
    assert(args@.take(args@.len() as int) =~= args@);
    out
}

} // verus!
