use vstd::prelude::*;

verus! {

/// A dynamically typed value, as scripts return it and as the environment
/// holds it. A number keeps its textual form.
#[derive(Debug)]
pub enum ScriptValue {
    Null,
    Bool(bool),
    Number(String),
    Str(String),
    Array(Vec<ScriptValue>),
    Object(Vec<(String, ScriptValue)>),
}

/// The read-only environment of an invocation: named values of earlier blocks.
#[derive(Debug)]
pub struct Env {
    pub vars: Vec<(String, ScriptValue)>,
}

/// The value of the first variable called `name`, if any.
pub open spec fn lookup(vars: Seq<(String, ScriptValue)>, name: Seq<char>) -> Option<ScriptValue>
    decreases vars.len(),
{
    if vars.len() == 0 {
        None
    } else if vars[0].0@ == name {
        Some(vars[0].1)
    } else {
        lookup(vars.drop_first(), name)
    }
}

/// The textual form of a scalar value; compound values have none.
pub open spec fn text_of(v: ScriptValue) -> Option<Seq<char>> {
    match v {
        ScriptValue::Null => Some(seq!['n', 'u', 'l', 'l']),
        ScriptValue::Bool(true) => Some(seq!['t', 'r', 'u', 'e']),
        ScriptValue::Bool(false) => Some(seq!['f', 'a', 'l', 's', 'e']),
        ScriptValue::Number(n) => Some(n@),
        ScriptValue::Str(s) => Some(s@),
        ScriptValue::Array(_) => None,
        ScriptValue::Object(_) => None,
    }
}

impl Env {
    /// Looks a variable up; the first binding of a name wins.
    pub fn get(&self, name: &Vec<char>) -> (r: Option<&ScriptValue>)
        ensures
            match r {
                Some(v) => lookup(self.vars@, name@) == Some(*v),
                None => lookup(self.vars@, name@) is None,
            },
    {
        let mut i: usize = 0;
        assert(self.vars@.skip(0) =~= self.vars@);
        while i < self.vars.len()
            invariant
                0 <= i <= self.vars@.len(),
                lookup(self.vars@, name@) == lookup(self.vars@.skip(i as int), name@),
            decreases self.vars@.len() - i,
        {
            assert(self.vars@.skip(i as int).drop_first() =~= self.vars@.skip(i + 1));
            if chars_equal(&self.vars[i].0, name) {
                return Some(&self.vars[i].1);
            }
            i = i + 1;
        }
        None
    }
}

/// Whether a string holds exactly the given characters.
pub fn chars_equal(s: &String, c: &Vec<char>) -> (r: bool)
    ensures
        r == (s@ == c@),
{
    let mut n: usize = 0;
    let mut same = true;
    for ch in it: s.chars()
        invariant
            it.seq() == s@,
            same ==> n == it.index() && n <= c@.len() && s@.take(n as int) == c@.take(n as int),
            !same ==> s@ != c@,
    {
        if same {
            if n < c.len() && c[n] == ch {
                assert(s@.take(n + 1) =~= s@.take(n as int).push(ch));
                assert(c@.take(n + 1) =~= c@.take(n as int).push(ch));
                n = n + 1;
            } else {
                assert(s@[n as int] == ch);
                same = false;
            }
        }
    }
    if same && n == c.len() {
        assert(s@ =~= s@.take(n as int));
        assert(c@ =~= c@.take(n as int));
        true
    } else {
        false
    }
}

} // verus!
