//! The head of a request as the parser hands it over, and the header slots of
//! a connection.

use vstd::prelude::*;

verus! {

/// The number of header slots that a connection owns. A request with more
/// header lines than this is refused.
pub const HEADER_SLOTS: usize = 24;

/// One header line: its name and its value, as bytes.
#[derive(Debug, PartialEq, Eq)]
pub struct Header {
    pub name: Vec<u8>,
    pub value: Vec<u8>,
}

/// A [`Header`] as two byte sequences.
pub struct HeaderView {
    pub name: Seq<u8>,
    pub value: Seq<u8>,
}

impl View for Header {
    type V = HeaderView;

    open spec fn view(&self) -> HeaderView {
        HeaderView { name: self.name@, value: self.value@ }
    }
}

/// The views of `headers`, in order.
pub open spec fn header_views(headers: Seq<Header>) -> Seq<HeaderView> {
    Seq::new(headers.len(), |i: int| headers[i]@)
}

/// The value of the last of `headers` that is named `name`, where there is
/// one.
pub open spec fn last_value(headers: Seq<HeaderView>, name: Seq<u8>) -> Option<Seq<u8>>
    decreases headers.len(),
{
    if headers.len() == 0 {
        None
    } else if headers.last().name == name {
        Some(headers.last().value)
    } else {
        last_value(headers.drop_last(), name)
    }
}

/// Whether `a` and `b` hold the same bytes.
pub fn bytes_equal(a: &[u8], b: &[u8]) -> (same: bool)
    ensures
        same == (a@ == b@),
{
    if a.len() != b.len() {
        return false;
    }
    let mut i: usize = 0;
    while i < a.len()
        invariant
            i <= a@.len(),
            a@.len() == b@.len(),
            forall|j: int| 0 <= j < i ==> a@[j] == b@[j],
        decreases a@.len() - i,
    {
        if a[i] != b[i] {
            return false;
        }
        i = i + 1;
    }
    assert(a@ =~= b@);
    true
}

/// The header slots of one connection: a fixed number of them, of which the
/// first few hold the header lines of the request at hand and the others are
/// empty.
#[derive(Debug)]
pub struct HeaderSlots {
    populated: Vec<Header>,
}

impl View for HeaderSlots {
    type V = Seq<HeaderView>;

    /// The populated slots, in order.
    closed spec fn view(&self) -> Seq<HeaderView> {
        header_views(self.populated@)
    }
}

impl HeaderSlots {
    /// No more slots are populated than there are.
    #[verifier::type_invariant]
    pub open spec fn inv(&self) -> bool {
        self@.len() <= HEADER_SLOTS
    }

    /// Slots that are all empty.
    pub fn new() -> (slots: HeaderSlots)
        ensures
            slots@ == Seq::<HeaderView>::empty(),
    {
        let slots = HeaderSlots { populated: Vec::new() };
        assert(slots@ =~= Seq::<HeaderView>::empty());
        slots
    }

    /// The number of slots, populated or not.
    pub fn capacity(&self) -> (n: usize)
        ensures
            n == HEADER_SLOTS,
    {
        HEADER_SLOTS
    }

    /// The number of populated slots.
    pub fn len(&self) -> (n: usize)
        ensures
            n == self@.len(),
            n <= HEADER_SLOTS,
    {
        proof {
            use_type_invariant(self);
        }
        self.populated.len()
    }

    /// The header in the populated slot `i`.
    pub fn get(&self, i: usize) -> (header: &Header)
        requires
            i < self@.len(),
        ensures
            header@ == self@[i as int],
    {
        &self.populated[i]
    }

    /// Empties every slot.
    pub fn reset(&mut self)
        ensures
            final(self)@ == Seq::<HeaderView>::empty(),
    {
        self.populated = Vec::new();
        assert(self@ =~= Seq::<HeaderView>::empty());
    }

    /// Puts `headers` into the first slots and empties the others.
    pub fn fill(&mut self, headers: Vec<Header>)
        requires
            headers@.len() <= HEADER_SLOTS,
        ensures
            final(self)@ == header_views(headers@),
    {
        self.populated = headers;
    }

    /// The populated slot that holds the last header named `name`.
    pub fn find_last(&self, name: &[u8]) -> (found: Option<usize>)
        ensures
            match found {
                Some(i) => i < self@.len() && self@[i as int].name == name@ && last_value(
                    self@,
                    name@,
                ) == Some(self@[i as int].value),
                None => last_value(self@, name@) is None,
            },
    {
        let mut i: usize = self.populated.len();
        assert(self@.take(i as int) =~= self@);
        while i > 0
            invariant
                i <= self@.len(),
                self@.len() == self.populated@.len(),
                last_value(self@, name@) == last_value(self@.take(i as int), name@),
            decreases i,
        {
            let ghost prefix = self@.take(i as int);
            assert(prefix.last() == self@[i - 1]);
            assert(prefix.drop_last() =~= self@.take(i - 1));
            i = i - 1;
            if bytes_equal(self.populated[i].name.as_slice(), name) {
                return Some(i);
            }
        }
        None
    }
}

/// The request line of a request and the number of header slots that its
/// header lines take up. The headers themselves are in the connection's
/// [`HeaderSlots`].
#[derive(Debug, PartialEq, Eq)]
pub struct Request {
    /// The method, such as `GET`.
    pub method: Option<Vec<u8>>,
    /// The path, such as `/about-us`.
    pub path: Option<Vec<u8>>,
    /// The minor version: `1` for `HTTP/1.1`.
    pub version: Option<u8>,
    /// The number of populated header slots.
    pub headers: usize,
}

/// A [`Request`] over byte sequences.
pub struct RequestView {
    pub method: Option<Seq<u8>>,
    pub path: Option<Seq<u8>>,
    pub version: Option<u8>,
    pub headers: nat,
}

impl View for Request {
    type V = RequestView;

    open spec fn view(&self) -> RequestView {
        RequestView {
            method: bytes_view(self.method),
            path: bytes_view(self.path),
            version: self.version,
            headers: self.headers as nat,
        }
    }
}

impl RequestView {
    /// A request of which nothing has been parsed yet.
    pub open spec fn empty() -> RequestView {
        RequestView { method: None, path: None, version: None, headers: 0 }
    }
}

impl Request {
    /// A request of which nothing has been parsed yet.
    pub fn new() -> (request: Request)
        ensures
            request@ == RequestView::empty(),
    {
        Request { method: None, path: None, version: None, headers: 0 }
    }
}

/// How far the parser came with the bytes it was given.
#[derive(Clone, Copy, Debug, PartialEq, Eq, Structural)]
pub enum ParseStatus {
    /// The head is complete and takes up this many bytes.
    Complete(usize),
    /// The bytes are the beginning of a head and more are needed.
    Partial,
    /// The bytes cannot be the beginning of a head.
    Invalid,
}

/// What the parser made of the readable bytes: how far it came and the parts
/// of the head that it found.
#[derive(Debug, PartialEq, Eq)]
pub struct ParsedHead {
    pub status: ParseStatus,
    pub method: Option<Vec<u8>>,
    pub path: Option<Vec<u8>>,
    pub version: Option<u8>,
    pub headers: Vec<Header>,
}

/// A [`ParsedHead`] over byte sequences.
pub struct HeadView {
    pub status: ParseStatus,
    pub method: Option<Seq<u8>>,
    pub path: Option<Seq<u8>>,
    pub version: Option<u8>,
    pub headers: Seq<HeaderView>,
}

/// The bytes of `bytes`, where there are any.
pub open spec fn bytes_view(bytes: Option<Vec<u8>>) -> Option<Seq<u8>> {
    match bytes {
        Some(b) => Some(b@),
        None => None,
    }
}

impl View for ParsedHead {
    type V = HeadView;

    open spec fn view(&self) -> HeadView {
        HeadView {
            status: self.status,
            method: bytes_view(self.method),
            path: bytes_view(self.path),
            version: self.version,
            headers: header_views(self.headers@),
        }
    }
}

/// What `httparse` makes of `input` when it is given `slots` empty header
/// slots to fill.
pub uninterp spec fn parsed_head(input: Seq<u8>, slots: nat) -> HeadView;

/// Runs `httparse::Request::parse` on `input` with `slots` empty header slots
/// and copies out what it found.
///
/// Nothing is claimed of the result but that it depends on `input` and
/// `slots` alone: the same bytes give the same head.
#[verifier::external_body]
pub(crate) fn parse_head(input: &[u8], slots: usize) -> (head: ParsedHead)
    requires
        slots <= HEADER_SLOTS,
    ensures
        head@ == parsed_head(input@, slots as nat),
{
    let mut array = vec![httparse::EMPTY_HEADER; slots];
    let mut request = httparse::Request::new(&mut array);
    let status = match request.parse(input) {
        Ok(httparse::Status::Complete(length)) => ParseStatus::Complete(length),
        Ok(httparse::Status::Partial) => ParseStatus::Partial,
        Err(_) => ParseStatus::Invalid,
    };
    let own = |h: &httparse::Header| Header { name: h.name.as_bytes().to_vec(), value: h.value.to_vec() };
    ParsedHead {
        status,
        method: request.method.map(|m| m.as_bytes().to_vec()),
        path: request.path.map(|p| p.as_bytes().to_vec()),
        version: request.version,
        headers: request.headers.iter().map(own).collect(),
    }
}

} // verus!
