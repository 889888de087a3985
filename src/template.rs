use vstd::prelude::*;
use crate::config::Curl;
use crate::error::{CurlError, TemplateFailure};
use crate::value::{lookup, text_of, Env, ScriptValue};

verus! {

/// Why a template does not resolve, as text.
pub enum TemplateFault {
    UnknownVariable(Seq<char>),
    NotTextual(Seq<char>),
    Malformed,
}

/// The fault that a failure describes.
pub open spec fn fault_of(f: TemplateFailure) -> TemplateFault {
    match f {
        TemplateFailure::UnknownVariable(n) => TemplateFault::UnknownVariable(n@),
        TemplateFailure::NotTextual(n) => TemplateFault::NotTextual(n@),
        TemplateFailure::Malformed => TemplateFault::Malformed,
    }
}

/// The first brace at or after `i`.
pub open spec fn find_brace(t: Seq<char>, i: int) -> Option<int>
    decreases t.len() - i,
{
    if i < 0 || i >= t.len() {
        None
    } else if t[i] == '{' || t[i] == '}' {
        Some(i)
    } else {
        find_brace(t, i + 1)
    }
}

/// Resolves `t` from position `i` on: each `{name}` is replaced by the
/// textual form of the variable `name`; any other brace is malformed.
pub open spec fn resolve_from(t: Seq<char>, i: int, vars: Seq<(String, ScriptValue)>) -> Result<
    Seq<char>,
    TemplateFault,
>
    decreases t.len() - i,
{
    if i < 0 || i >= t.len() {
        Ok(Seq::empty())
    } else if t[i] == '}' {
        Err(TemplateFault::Malformed)
    } else if t[i] == '{' {
        match find_brace(t, i + 1) {
            Some(k) => if i + 1 < k < t.len() && t[k] == '}' {
                let name = t.subrange(i + 1, k);
                match lookup(vars, name) {
                    None => Err(TemplateFault::UnknownVariable(name)),
                    Some(v) => match text_of(v) {
                        None => Err(TemplateFault::NotTextual(name)),
                        Some(s) => match resolve_from(t, k + 1, vars) {
                            Ok(rest) => Ok(s + rest),
                            Err(e) => Err(e),
                        },
                    },
                }
            } else {
                Err(TemplateFault::Malformed)
            },
            None => Err(TemplateFault::Malformed),
        }
    } else {
        match resolve_from(t, i + 1, vars) {
            Ok(rest) => Ok(seq![t[i]] + rest),
            Err(e) => Err(e),
        }
    }
}

/// The resolution of a whole template.
pub open spec fn resolve(t: Seq<char>, vars: Seq<(String, ScriptValue)>) -> Result<
    Seq<char>,
    TemplateFault,
> {
    resolve_from(t, 0, vars)
}

/// Relies on `String`'s `FromIterator<char>`: the string of the characters,
/// in order.
#[verifier::external_body]
fn string_of_chars(c: &Vec<char>) -> (r: String)
    ensures
        r@ == c@,
{
    c.iter().collect()
}

/// Appends the characters of `s`.
fn push_chars(out: &mut Vec<char>, s: &String)
    ensures
        final(out)@ == old(out)@ + s@,
{
    let ghost start = out@;
    for ch in it: s.chars()
        invariant
            it.seq() == s@,
            out@ == start + s@.take(it.index() as int),
    {
        assert(s@.take(it.index() + 1) =~= s@.take(it.index() as int).push(ch));
        out.push(ch);
    }
    assert(s@.take(s@.len() as int) =~= s@);
}

/// Appends the textual form of a scalar value; a compound value has none.
fn push_text(out: &mut Vec<char>, v: &ScriptValue) -> (ok: bool)
    ensures
        ok == (text_of(*v) is Some),
        ok ==> final(out)@ == old(out)@ + text_of(*v)->0,
{
    match v {
        ScriptValue::Null => {
            out.push('n');
            out.push('u');
            out.push('l');
            out.push('l');
            assert(final(out)@ =~= old(out)@ + text_of(*v)->0);
            true
        },
        ScriptValue::Bool(true) => {
            out.push('t');
            out.push('r');
            out.push('u');
            out.push('e');
            assert(final(out)@ =~= old(out)@ + text_of(*v)->0);
            true
        },
        ScriptValue::Bool(false) => {
            out.push('f');
            out.push('a');
            out.push('l');
            out.push('s');
            out.push('e');
            assert(final(out)@ =~= old(out)@ + text_of(*v)->0);
            true
        },
        ScriptValue::Number(n) => {
            push_chars(out, n);
            true
        },
        ScriptValue::Str(s) => {
            push_chars(out, s);
            true
        },
        ScriptValue::Array(_) => false,
        ScriptValue::Object(_) => false,
    }
}

/// The characters of a string.
fn chars_of(s: &String) -> (r: Vec<char>)
    ensures
        r@ == s@,
{
    let mut out: Vec<char> = Vec::new();
    push_chars(&mut out, s);
    assert(out@ =~= s@);
    out
}

/// The first brace at or after `i`, or the length when there is none.
fn next_brace(t: &Vec<char>, i: usize) -> (r: usize)
    requires
        i <= t@.len(),
    ensures
        i <= r <= t@.len(),
        r < t@.len() ==> find_brace(t@, i as int) == Some(r as int),
        r == t@.len() ==> find_brace(t@, i as int) is None,
{
    let mut j: usize = i;
    while j < t.len() && t[j] != '{' && t[j] != '}'
        invariant
            i <= j <= t@.len(),
            find_brace(t@, i as int) == find_brace(t@, j as int),
        decreases t@.len() - j,
    {
        j = j + 1;
    }
    j
}

/// Resolves every `{name}` reference of a template against the environment.
pub fn resolve_template(template: &String, env: &Env) -> (r: Result<String, TemplateFailure>)
    ensures
        match resolve(template@, env.vars@) {
            Ok(s) => r matches Ok(x) && x@ == s,
            Err(f) => r matches Err(e) && fault_of(e) == f,
        },
{
    let t = chars_of(template);
    let mut out: Vec<char> = Vec::new();
    let mut pos: usize = 0;
    while pos < t.len()
        invariant
            t@ == template@,
            0 <= pos <= t@.len(),
            resolve(t@, env.vars@) == match resolve_from(t@, pos as int, env.vars@) {
                Ok(rest) => Ok(out@ + rest),
                Err(e) => Err::<Seq<char>, TemplateFault>(e),
            },
        decreases t@.len() - pos,
    {
        let c = t[pos];
        if c == '}' {
            return Err(TemplateFailure::Malformed);
        } else if c == '{' {
            let k = next_brace(&t, pos + 1);
            if k == t.len() || t[k] != '}' || k == pos + 1 {
                return Err(TemplateFailure::Malformed);
            }
            let mut name: Vec<char> = Vec::new();
            let mut j: usize = pos + 1;
            while j < k
                invariant
                    pos + 1 <= j <= k < t@.len(),
                    name@ == t@.subrange(pos + 1, j as int),
                decreases k - j,
            {
                name.push(t[j]);
                assert(t@.subrange(pos + 1, j + 1) =~= t@.subrange(pos + 1, j as int).push(
                    t@[j as int],
                ));
                j = j + 1;
            }
            match env.get(&name) {
                None => return Err(TemplateFailure::UnknownVariable(string_of_chars(&name))),
                Some(v) => {
                    let ghost before = out@;
                    if !push_text(&mut out, v) {
                        return Err(TemplateFailure::NotTextual(string_of_chars(&name)));
                    }
                    proof {
                        let s = text_of(*v)->0;
                        match resolve_from(t@, k + 1, env.vars@) {
                            Ok(rest) => {
                                assert(before + (s + rest) =~= out@ + rest);
                            },
                            Err(_) => {},
                        }
                    }
                    pos = k + 1;
                },
            }
        } else {
            let ghost before = out@;
            out.push(c);
            proof {
                match resolve_from(t@, pos + 1, env.vars@) {
                    Ok(rest) => {
                        assert(before + (seq![c] + rest) =~= out@ + rest);
                    },
                    Err(_) => {},
                }
            }
            pos = pos + 1;
        }
    }
    assert(out@ + Seq::<char>::empty() =~= out@);
    Ok(string_of_chars(&out))
}

impl Curl {
    /// The concrete URL: the URL template resolved against the environment.
    /// A failure names the field `url`.
    pub fn resolve_url(&self, env: &Env) -> (r: Result<String, CurlError>)
        ensures
            match resolve(self@.url, env.vars@) {
                Ok(s) => r matches Ok(x) && x@ == s,
                Err(f) => r matches Err(CurlError::Template(field, e)) && field@ == seq![
                    'u',
                    'r',
                    'l',
                ] && fault_of(e) == f,
            },
    {
        match resolve_template(self.url(), env) {
            Ok(s) => Ok(s),
            Err(e) => Err(CurlError::Template(string_of_chars(&vec!['u', 'r', 'l']), e)),
        }
    }
}

} // verus!
