use vstd::prelude::*;
use crate::error::{CurlError, Field};
use crate::value::chars_equal;

verus! {

/// One entry of the block's declarative body, as the surrounding parser
/// hands it over.
#[derive(Debug, Clone)]
pub enum Entry {
    /// A `key = value` pair.
    Pair(String, String),
    /// An `expected` clause.
    Expected,
}

/// The request methods the block supports.
#[derive(Debug, Clone, Copy, PartialEq, Eq, Structural)]
pub enum Method {
    Get,
    Post,
    Put,
    Patch,
}

/// The key under which a field is written.
pub open spec fn field_key(f: Field) -> Seq<char> {
    match f {
        Field::Method => seq!['m', 'e', 't', 'h', 'o', 'd'],
        Field::Url => seq!['u', 'r', 'l'],
        Field::HeadersCode => seq![
            'h', 'e', 'a', 'd', 'e', 'r', 's', '_', 'c', 'o', 'd', 'e',
        ],
        Field::BodyCode => seq!['b', 'o', 'd', 'y', '_', 'c', 'o', 'd', 'e'],
    }
}

/// The field that a key names, if it names one.
pub open spec fn field_of_key(k: Seq<char>) -> Option<Field> {
    if k == field_key(Field::Method) {
        Some(Field::Method)
    } else if k == field_key(Field::Url) {
        Some(Field::Url)
    } else if k == field_key(Field::HeadersCode) {
        Some(Field::HeadersCode)
    } else if k == field_key(Field::BodyCode) {
        Some(Field::BodyCode)
    } else {
        None
    }
}

/// The literal that names a method (exact, case-sensitive).
pub open spec fn method_name(m: Method) -> Seq<char> {
    match m {
        Method::Get => seq!['G', 'E', 'T'],
        Method::Post => seq!['P', 'O', 'S', 'T'],
        Method::Put => seq!['P', 'U', 'T'],
        Method::Patch => seq!['P', 'A', 'T', 'C', 'H'],
    }
}

/// The method that a literal names, if any.
pub open spec fn method_of(s: Seq<char>) -> Option<Method> {
    if s == method_name(Method::Get) {
        Some(Method::Get)
    } else if s == method_name(Method::Post) {
        Some(Method::Post)
    } else if s == method_name(Method::Put) {
        Some(Method::Put)
    } else if s == method_name(Method::Patch) {
        Some(Method::Patch)
    } else {
        None
    }
}

/// An entry the block accepts: a pair whose key names a field.
pub open spec fn entry_accepted(e: Entry) -> bool {
    match e {
        Entry::Pair(k, _) => field_of_key(k@) is Some,
        Entry::Expected => false,
    }
}

/// The value of the last pair that sets field `f`.
pub open spec fn last_value(s: Seq<Entry>, f: Field) -> Option<Seq<char>>
    decreases s.len(),
{
    if s.len() == 0 {
        None
    } else {
        match s.last() {
            Entry::Pair(k, v) => if field_of_key(k@) == Some(f) {
                Some(v@)
            } else {
                last_value(s.drop_last(), f)
            },
            Entry::Expected => last_value(s.drop_last(), f),
        }
    }
}

/// What a configuration holds, as text.
pub struct CurlModel {
    pub method: Seq<char>,
    pub url: Seq<char>,
    pub headers_code: Seq<char>,
    pub body_code: Seq<char>,
}

/// A validated, immutable configuration of the block.
#[derive(Debug, Clone)]
pub struct Curl {
    method: String,
    url: String,
    headers_code: String,
    body_code: String,
}

impl View for Curl {
    type V = CurlModel;

    closed spec fn view(&self) -> CurlModel {
        CurlModel {
            method: self.method@,
            url: self.url@,
            headers_code: self.headers_code@,
            body_code: self.body_code@,
        }
    }
}

/// Which field a key names, if any.
fn key_field(key: &String) -> (r: Option<Field>)
    ensures
        r == field_of_key(key@),
{
    if chars_equal(key, &vec!['m', 'e', 't', 'h', 'o', 'd']) {
        Some(Field::Method)
    } else if chars_equal(key, &vec!['u', 'r', 'l']) {
        Some(Field::Url)
    } else if chars_equal(
        key,
        &vec!['h', 'e', 'a', 'd', 'e', 'r', 's', '_', 'c', 'o', 'd', 'e'],
    ) {
        Some(Field::HeadersCode)
    } else if chars_equal(key, &vec!['b', 'o', 'd', 'y', '_', 'c', 'o', 'd', 'e']) {
        Some(Field::BodyCode)
    } else {
        None
    }
}

/// Selects the method that a literal names; any other literal is refused.
pub fn select_method(name: &String) -> (r: Result<Method, CurlError>)
    ensures
        match method_of(name@) {
            Some(m) => r == Ok::<Method, CurlError>(m),
            None => r matches Err(CurlError::InvalidMethod(x)) && x@ == name@,
        },
{
    if chars_equal(name, &vec!['G', 'E', 'T']) {
        Ok(Method::Get)
    } else if chars_equal(name, &vec!['P', 'O', 'S', 'T']) {
        Ok(Method::Post)
    } else if chars_equal(name, &vec!['P', 'U', 'T']) {
        Ok(Method::Put)
    } else if chars_equal(name, &vec!['P', 'A', 'T', 'C', 'H']) {
        Ok(Method::Patch)
    } else {
        Err(CurlError::InvalidMethod(name.clone()))
    }
}

/// Every entry is accepted.
pub open spec fn all_accepted(s: Seq<Entry>) -> bool {
    forall|i: int| 0 <= i < s.len() ==> entry_accepted(#[trigger] s[i])
}

/// Entry `i` is the first one that is not accepted.
pub open spec fn first_refused(s: Seq<Entry>, i: int) -> bool {
    &&& 0 <= i < s.len()
    &&& !entry_accepted(s[i])
    &&& forall|j: int| 0 <= j < i ==> entry_accepted(#[trigger] s[j])
}

/// The text an optional string holds.
pub open spec fn opt_text(o: Option<String>) -> Option<Seq<char>> {
    match o {
        Some(s) => Some(s@),
        None => None,
    }
}

impl Curl {
    /// Validates the entries of a block into a configuration.
    ///
    /// The first entry that is not a pair with a known key fails the parse.
    /// Then the fields are required in the order method, url, headers_code,
    /// body_code, and the method must be one of the supported literals. A
    /// field set twice keeps its last value.
    pub fn parse(entries: &Vec<Entry>) -> (r: Result<Curl, CurlError>)
        ensures
            forall|i: int|
                #![trigger entries@[i]]
                first_refused(entries@, i) ==> match entries@[i] {
                    Entry::Expected => r == Err::<Curl, CurlError>(
                        CurlError::ExpectedUnsupported,
                    ),
                    Entry::Pair(k, _) => r matches Err(CurlError::UnexpectedField(x)) && x@
                        == k@,
                },
            all_accepted(entries@) ==> {
                let m = last_value(entries@, Field::Method);
                let u = last_value(entries@, Field::Url);
                let h = last_value(entries@, Field::HeadersCode);
                let b = last_value(entries@, Field::BodyCode);
                &&& m is None ==> r == Err::<Curl, CurlError>(
                    CurlError::MissingField(Field::Method),
                )
                &&& m is Some && u is None ==> r == Err::<Curl, CurlError>(
                    CurlError::MissingField(Field::Url),
                )
                &&& m is Some && u is Some && h is None ==> r == Err::<Curl, CurlError>(
                    CurlError::MissingField(Field::HeadersCode),
                )
                &&& m is Some && u is Some && h is Some && b is None ==> r == Err::<
                    Curl,
                    CurlError,
                >(CurlError::MissingField(Field::BodyCode))
                &&& m is Some && u is Some && h is Some && b is Some ==> match method_of(
                    m->0,
                ) {
                    None => r matches Err(CurlError::InvalidMethod(x)) && x@ == m->0,
                    Some(_) => r matches Ok(c) && c@.method == m->0 && c@.url == u->0
                        && c@.headers_code == h->0 && c@.body_code == b->0,
                }
            },
    {
        let mut method: Option<String> = None;
        let mut url: Option<String> = None;
        let mut headers_code: Option<String> = None;
        let mut body_code: Option<String> = None;
        let mut i: usize = 0;
        while i < entries.len()
            invariant
                0 <= i <= entries@.len(),
                forall|j: int| 0 <= j < i ==> entry_accepted(#[trigger] entries@[j]),
                opt_text(method) == last_value(entries@.take(i as int), Field::Method),
                opt_text(url) == last_value(entries@.take(i as int), Field::Url),
                opt_text(headers_code) == last_value(
                    entries@.take(i as int),
                    Field::HeadersCode,
                ),
                opt_text(body_code) == last_value(entries@.take(i as int), Field::BodyCode),
            decreases entries@.len() - i,
        {
            let ghost before = entries@.take(i as int);
            assert(entries@.take(i + 1).drop_last() =~= before);
            assert(entries@.take(i + 1).last() == entries@[i as int]);
            match &entries[i] {
                Entry::Pair(k, v) => {
                    match key_field(k) {
                        Some(Field::Method) => method = Some(v.clone()),
                        Some(Field::Url) => url = Some(v.clone()),
                        Some(Field::HeadersCode) => headers_code = Some(v.clone()),
                        Some(Field::BodyCode) => body_code = Some(v.clone()),
                        None => {
                            assert(first_refused(entries@, i as int));
                            return Err(CurlError::UnexpectedField(k.clone()));
                        },
                    }
                },
                Entry::Expected => {
                    assert(first_refused(entries@, i as int));
                    return Err(CurlError::ExpectedUnsupported);
                },
            }
            i = i + 1;
        }
        assert(entries@.take(i as int) =~= entries@);
        assert(forall|j: int| !first_refused(entries@, j));
        let method = match method {
            Some(m) => m,
            None => return Err(CurlError::MissingField(Field::Method)),
        };
        let url = match url {
            Some(u) => u,
            None => return Err(CurlError::MissingField(Field::Url)),
        };
        let headers_code = match headers_code {
            Some(h) => h,
            None => return Err(CurlError::MissingField(Field::HeadersCode)),
        };
        let body_code = match body_code {
            Some(b) => b,
            None => return Err(CurlError::MissingField(Field::BodyCode)),
        };
        match select_method(&method) {
            Ok(_) => Ok(Curl { method, url, headers_code, body_code }),
            Err(e) => Err(e),
        }
    }

    /// The method literal.
    pub fn method(&self) -> (r: &String)
        ensures
            r@ == self@.method,
    {
        &self.method
    }

    /// The URL template.
    pub fn url(&self) -> (r: &String)
        ensures
            r@ == self@.url,
    {
        &self.url
    }

    /// The source of the script that computes the headers.
    pub fn headers_code(&self) -> (r: &String)
        ensures
            r@ == self@.headers_code,
    {
        &self.headers_code
    }

    /// The source of the script that computes the body.
    pub fn body_code(&self) -> (r: &String)
        ensures
            r@ == self@.body_code,
    {
        &self.body_code
    }
}

} // verus!
