use vstd::prelude::*;

verus! {

/// The error that a handler's own logic may return. It is carried through
/// dispatch unchanged and never inspected.
#[verifier::external_type_specification]
#[verifier::external_body]
pub struct ExHttpError(http::Error);

/// Request methods. Methods outside the standard set keep their token; an
/// extension whose token is a standard name is that standard method.
#[derive(Debug)]
pub enum Method {
    Options,
    Get,
    Post,
    Put,
    Delete,
    Head,
    Trace,
    Connect,
    Patch,
    Extension(Vec<u8>),
}

/// The mathematical value of a method: the standard ones by position,
/// an extension by its token.
pub enum MethodView {
    Standard(nat),
    Extension(Seq<u8>),
}

/// The token of the standard method at position `n`, in ASCII.
pub open spec fn standard_name(n: nat) -> Seq<u8> {
    if n == 0 {
        seq![79u8, 80, 84, 73, 79, 78, 83]
    } else if n == 1 {
        seq![71u8, 69, 84]
    } else if n == 2 {
        seq![80u8, 79, 83, 84]
    } else if n == 3 {
        seq![80u8, 85, 84]
    } else if n == 4 {
        seq![68u8, 69, 76, 69, 84, 69]
    } else if n == 5 {
        seq![72u8, 69, 65, 68]
    } else if n == 6 {
        seq![84u8, 82, 65, 67, 69]
    } else if n == 7 {
        seq![67u8, 79, 78, 78, 69, 67, 84]
    } else {
        seq![80u8, 65, 84, 67, 72]
    }
}

/// The position of the standard method whose token is `t`, if there is one.
pub open spec fn standard_index(t: Seq<u8>) -> Option<nat> {
    if exists|n: nat| n < 9 && standard_name(n) == t {
        Some(choose|n: nat| n < 9 && standard_name(n) == t)
    } else {
        None
    }
}

impl View for Method {
    type V = MethodView;

    open spec fn view(&self) -> MethodView {
        match self {
            Method::Options => MethodView::Standard(0),
            Method::Get => MethodView::Standard(1),
            Method::Post => MethodView::Standard(2),
            Method::Put => MethodView::Standard(3),
            Method::Delete => MethodView::Standard(4),
            Method::Head => MethodView::Standard(5),
            Method::Trace => MethodView::Standard(6),
            Method::Connect => MethodView::Standard(7),
            Method::Patch => MethodView::Standard(8),
            Method::Extension(t) => match standard_index(t@) {
                Some(n) => MethodView::Standard(n),
                None => MethodView::Extension(t@),
            },
        }
    }
}

impl Clone for Method {
    fn clone(&self) -> (r: Method)
        ensures
            r@ == self@,
    {
        match self {
            Method::Options => Method::Options,
            Method::Get => Method::Get,
            Method::Post => Method::Post,
            Method::Put => Method::Put,
            Method::Delete => Method::Delete,
            Method::Head => Method::Head,
            Method::Trace => Method::Trace,
            Method::Connect => Method::Connect,
            Method::Patch => Method::Patch,
            Method::Extension(t) => {
                let c = t.clone();
                assert(c@ =~= t@);
                Method::Extension(c)
            },
        }
    }
}

/// The position of the standard method whose token is `t`, if there is one.
fn standard_index_of(t: &Vec<u8>) -> (r: Option<u8>)
    ensures
        match r {
            Some(n) => standard_index(t@) == Some(n as nat),
            None => standard_index(t@) is None,
        },
{
    let mut n: u8 = 0;
    while n < 9
        invariant
            n <= 9,
            forall|k: nat| k < n ==> standard_name(k) != t@,
        decreases 9 - n,
    {
        let name: Vec<u8> = if n == 0 {
            vec![79u8, 80, 84, 73, 79, 78, 83]
        } else if n == 1 {
            vec![71u8, 69, 84]
        } else if n == 2 {
            vec![80u8, 79, 83, 84]
        } else if n == 3 {
            vec![80u8, 85, 84]
        } else if n == 4 {
            vec![68u8, 69, 76, 69, 84, 69]
        } else if n == 5 {
            vec![72u8, 69, 65, 68]
        } else if n == 6 {
            vec![84u8, 82, 65, 67, 69]
        } else if n == 7 {
            vec![67u8, 79, 78, 78, 69, 67, 84]
        } else {
            vec![80u8, 65, 84, 67, 72]
        };
        assert(name@ =~= standard_name(n as nat));
        if bytes_equal(&name, t) {
            proof {
                let m = choose|m: nat| m < 9 && standard_name(m) == t@;
                if m != n as nat {
                    assert(m > n);
                    lemma_standard_names_distinct(m, n as nat);
                }
            }
            return Some(n);
        }
        n = n + 1;
    }
    None
}

proof fn lemma_standard_names_distinct(a: nat, b: nat)
    requires
        a < 9,
        b < 9,
        a != b,
    ensures
        standard_name(a) != standard_name(b),
{
    let x = standard_name(a);
    let y = standard_name(b);
    if x.len() == y.len() {
        assert(x[0] != y[0] || x[1] != y[1] || x[2] != y[2]);
    }
}

/// Whether two byte sequences are equal, compared byte by byte.
pub fn bytes_equal(a: &Vec<u8>, b: &Vec<u8>) -> (r: bool)
    ensures
        r == (a@ == b@),
{
    if a.len() != b.len() {
        return false;
    }
    let mut i: usize = 0;
    while i < a.len()
        invariant
            a@.len() == b@.len(),
            0 <= i <= a@.len(),
            a@.subrange(0, i as int) == b@.subrange(0, i as int),
        decreases a@.len() - i,
    {
        if a[i] != b[i] {
            assert(a@.subrange(0, i as int + 1)[i as int] != b@.subrange(0, i as int + 1)[i as int]);
            return false;
        }
        assert(a@.subrange(0, i as int + 1) =~= a@.subrange(0, i as int).push(a@[i as int]));
        assert(b@.subrange(0, i as int + 1) =~= b@.subrange(0, i as int).push(b@[i as int]));
        i = i + 1;
    }
    assert(a@ =~= a@.subrange(0, i as int));
    assert(b@ =~= b@.subrange(0, i as int));
    true
}

impl Method {
    /// The position of the method among the standard ones, if it is one.
    fn position(&self) -> (r: Option<u8>)
        ensures
            match r {
                Some(n) => self@ == MethodView::Standard(n as nat),
                None => self@ is Extension && self is Extension,
            },
    {
        match self {
            Method::Options => Some(0),
            Method::Get => Some(1),
            Method::Post => Some(2),
            Method::Put => Some(3),
            Method::Delete => Some(4),
            Method::Head => Some(5),
            Method::Trace => Some(6),
            Method::Connect => Some(7),
            Method::Patch => Some(8),
            Method::Extension(t) => standard_index_of(t),
        }
    }

    /// Whether two methods are the same method.
    pub fn same_as(&self, other: &Method) -> (r: bool)
        ensures
            r == (self@ == other@),
    {
        match (self.position(), other.position()) {
            (Some(a), Some(b)) => a == b,
            (None, None) => match (self, other) {
                (Method::Extension(a), Method::Extension(b)) => bytes_equal(a, b),
                _ => false,
            },
            _ => false,
        }
    }
}


/// Whether `c` is an upper-case ASCII letter.
pub open spec fn is_ascii_upper(c: char) -> bool {
    'A' <= c && c <= 'Z'
}

/// Whether two characters are equal once ASCII letters are folded to lower case.
pub open spec fn chars_match(a: char, b: char) -> bool {
    ||| a == b
    ||| is_ascii_upper(a) && a as u32 + 32 == b as u32
    ||| is_ascii_upper(b) && b as u32 + 32 == a as u32
}

/// Whether two header names are equal; header names ignore ASCII case.
pub open spec fn names_match(a: Seq<char>, b: Seq<char>) -> bool {
    &&& a.len() == b.len()
    &&& forall|i: int| 0 <= i < a.len() ==> chars_match(#[trigger] a[i], b[i])
}

/// Whether a header value can be read as text: each character is visible
/// ASCII or a tab.
pub open spec fn is_visible_text(v: Seq<char>) -> bool {
    forall|i: int| 0 <= i < v.len() ==> ((' ' <= #[trigger] v[i] && v[i] <= '~') || v[i] == '\t')
}

/// One header line of a request or response.
#[derive(Clone, Debug)]
pub struct Header {
    pub name: String,
    pub value: String,
}

/// The value of the first header in `hs` whose name matches `name`.
pub open spec fn first_value(hs: Seq<Header>, name: Seq<char>) -> Option<Seq<char>>
    decreases hs.len(),
{
    if hs.len() == 0 {
        None
    } else if names_match(hs[0].name@, name) {
        Some(hs[0].value@)
    } else {
        first_value(hs.drop_first(), name)
    }
}

/// An incoming request: its method, the path of its target, its headers in
/// order of arrival (a name may repeat) and its body.
#[derive(Clone, Debug)]
pub struct Request {
    pub method: Method,
    pub path: Vec<u8>,
    pub headers: Vec<Header>,
    pub body: Vec<u8>,
}

/// A response: its status code, headers and body.
#[derive(Clone, Debug)]
pub struct Response {
    pub status: u16,
    pub headers: Vec<Header>,
    pub body: Vec<u8>,
}

/// Whether two characters are equal once ASCII letters are folded to lower case.
fn char_matches(a: char, b: char) -> (r: bool)
    ensures
        r == chars_match(a, b),
{
    if a == b {
        true
    } else if 'A' <= a && a <= 'Z' {
        (a as u32) + 32 == b as u32
    } else if 'A' <= b && b <= 'Z' {
        (b as u32) + 32 == a as u32
    } else {
        false
    }
}

/// Whether two header names are equal, ignoring ASCII case.
pub fn name_matches(a: &str, b: &str) -> (r: bool)
    ensures
        r == names_match(a@, b@),
{
    let n = a.unicode_len();
    if n != b.unicode_len() {
        return false;
    }
    let mut i: usize = 0;
    while i < n
        invariant
            n == a@.len(),
            n == b@.len(),
            0 <= i <= n,
            forall|j: int| 0 <= j < i ==> chars_match(#[trigger] a@[j], b@[j]),
        decreases n - i,
    {
        if !char_matches(a.get_char(i), b.get_char(i)) {
            return false;
        }
        i = i + 1;
    }
    true
}

/// Whether a header value can be read as text.
pub fn visible_text(v: &str) -> (r: bool)
    ensures
        r == is_visible_text(v@),
{
    let n = v.unicode_len();
    let mut i: usize = 0;
    while i < n
        invariant
            n == v@.len(),
            0 <= i <= n,
            forall|j: int| 0 <= j < i ==> ((' ' <= #[trigger] v@[j] && v@[j] <= '~') || v@[j] == '\t'),
        decreases n - i,
    {
        let c = v.get_char(i);
        if !((' ' <= c && c <= '~') || c == '\t') {
            return false;
        }
        i = i + 1;
    }
    true
}

impl Request {
    /// A GET request for `/` with no headers and the given body.
    pub fn new(body: Vec<u8>) -> (r: Request)
        ensures
            r.method@ == Method::Get@,
            r.path@ == seq![47u8],
            r.headers@.len() == 0,
            r.body@ == body@,
    {
        Request { method: Method::Get, path: vec![47u8], headers: Vec::new(), body }
    }

    /// The value of the first header named `name`, ignoring ASCII case.
    pub fn header(&self, name: &str) -> (r: Option<&String>)
        ensures
            match r {
                Some(v) => first_value(self.headers@, name@) == Some(v@),
                None => first_value(self.headers@, name@) is None,
            },
    {
        let mut i: usize = self.headers.len();
        let mut found: Option<&String> = None;
        while i > 0
            invariant
                0 <= i <= self.headers@.len(),
                match found {
                    Some(v) => first_value(self.headers@.subrange(i as int, self.headers@.len() as int), name@) == Some(v@),
                    None => first_value(self.headers@.subrange(i as int, self.headers@.len() as int), name@) is None,
                },
            decreases i,
        {
            i = i - 1;
            let ghost rest = self.headers@.subrange(i as int, self.headers@.len() as int);
            assert(rest.drop_first() =~= self.headers@.subrange(i as int + 1, self.headers@.len() as int));
            let h = &self.headers[i];
            if name_matches(h.name.as_str(), name) {
                found = Some(&h.value);
            }
        }
        assert(self.headers@.subrange(0, self.headers@.len() as int) =~= self.headers@);
        found
    }
}

impl Response {
    /// A response with status 200, no headers and the given body.
    pub fn new(body: Vec<u8>) -> (r: Response)
        ensures
            r.status == 200,
            r.headers@.len() == 0,
            r.body@ == body@,
    {
        Response { status: 200, headers: Vec::new(), body }
    }
}

} // verus!
