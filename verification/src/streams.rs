//! The two stream adapters: one reads a host stream as a sequence of byte
//! buffers, the other holds such a sequence to a declared total length.
//!
//! Both are written as rules. The owner of the underlying stream pulls from
//! it and, once it is ready, hands what came back to `poll_next`, which says
//! what the adapted sequence yields for it.

use vstd::prelude::*;
use vstd::string::StringExecFns;
use crate::decimal::{digits, push_decimal};
use crate::error::{Error, ErrorView};

verus! {

/// bytes's shared byte buffer, the data of a body. Nothing of its inside is
/// known here but what [`bytes_of`] names.
#[verifier::external_type_specification]
#[verifier::external_body]
pub struct ExBytes(bytes::Bytes);

/// http's header map, the trailers of a body. It is only named: no body here
/// has trailers.
#[verifier::external_type_specification]
#[verifier::external_body]
#[verifier::reject_recursive_types(T)]
pub struct ExHeaderMap<T>(http::HeaderMap<T>);

/// http's header value, which a header map holds unless told otherwise.
#[verifier::external_type_specification]
#[verifier::external_body]
pub struct ExHeaderValue(http::HeaderValue);

/// The bytes that a `Bytes` buffer holds.
pub uninterp spec fn bytes_of(data: bytes::Bytes) -> Seq<u8>;

/// Turns a chunk into a `Bytes` buffer with bytes's
/// `impl From<Vec<u8>> for Bytes`, which takes the vector's storage over: the
/// buffer holds the bytes of the chunk, in order.
#[verifier::external_body]
fn into_bytes(chunk: Vec<u8>) -> (data: bytes::Bytes)
    ensures
        bytes_of(data) == chunk@,
{
    bytes::Bytes::from(chunk)
}

/// What a sequence of byte buffers yields on one pull, to the contracts: a
/// chunk, an error, or `None` for the end of the sequence.
pub type Item = Option<Result<Seq<u8>, ErrorView>>;

/// The view of what a pull yielded.
pub open spec fn item_view(item: Option<Result<Vec<u8>, Error>>) -> Item {
    match item {
        Some(Ok(chunk)) => Some(Ok(chunk@)),
        Some(Err(e)) => Some(Err(e@)),
        None => None,
    }
}

/// The view of what a pull on a body yielded.
pub open spec fn data_view(item: Option<Result<bytes::Bytes, Error>>) -> Item {
    match item {
        Some(Ok(data)) => Some(Ok(bytes_of(data))),
        Some(Err(e)) => Some(Err(e@)),
        None => None,
    }
}

fn into_data(item: Option<Result<Vec<u8>, Error>>) -> (out: Option<Result<bytes::Bytes, Error>>)
    ensures
        data_view(out) == item_view(item),
{
    match item {
        Some(Ok(chunk)) => Some(Ok(into_bytes(chunk))),
        Some(Err(e)) => Some(Err(e)),
        None => None,
    }
}

/// What is written to the host for one item of a sequence: the bytes of a
/// chunk, the rendering of an error, or `None` to close.
pub open spec fn host_item(item: Item) -> Option<Result<Seq<u8>, Seq<char>>> {
    match item {
        Some(Ok(chunk)) => Some(Ok(chunk)),
        Some(Err(e)) => Some(Err(e.rendered())),
        None => None,
    }
}

/// The view of what is written to the host for one item.
pub open spec fn host_view(item: Option<Result<Vec<u8>, String>>) -> Option<
    Result<Seq<u8>, Seq<char>>,
> {
    match item {
        Some(Ok(chunk)) => Some(Ok(chunk@)),
        Some(Err(text)) => Some(Err(text@)),
        None => None,
    }
}

/// What one pull on the host's readable stream produced, in plain values.
#[derive(Debug)]
pub enum HostPull {
    /// The host handed over a byte array: its bytes.
    Chunk(Vec<u8>),
    /// The host handed over a value that is no byte array; the text says what
    /// it was.
    NotBytes(String),
    /// The host raised an error; the text is the host's rendering of it.
    Raised(String),
    /// The host closed the stream.
    Closed,
}

/// The view of a [`HostPull`].
pub enum HostPullView {
    Chunk(Seq<u8>),
    NotBytes(Seq<char>),
    Raised(Seq<char>),
    Closed,
}

impl View for HostPull {
    type V = HostPullView;

    open spec fn view(&self) -> HostPullView {
        match *self {
            HostPull::Chunk(bytes) => HostPullView::Chunk(bytes@),
            HostPull::NotBytes(m) => HostPullView::NotBytes(m@),
            HostPull::Raised(m) => HostPullView::Raised(m@),
            HostPull::Closed => HostPullView::Closed,
        }
    }
}

/// How the host renders the error with which it closes a stream on purpose.
pub open spec fn aborted_text() -> Seq<char> {
    "Error: aborted"@
}

/// What the adapted sequence yields for one pull on the host stream: a chunk
/// as it came, the end where the host closed or aborted the stream, and an
/// error of the host's for everything else.
pub open spec fn adapted(pulled: HostPullView) -> Item {
    match pulled {
        HostPullView::Chunk(bytes) => Some(Ok(bytes)),
        HostPullView::NotBytes(m) => Some(Err(ErrorView::JsError(m))),
        HostPullView::Raised(m) => if m == aborted_text() {
            None
        } else {
            Some(Err(ErrorView::JsError(m)))
        },
        HostPullView::Closed => None,
    }
}

/// What the adapted sequence yields, pull by pull, for what a run of pulls on
/// the host stream produced.
pub open spec fn adapted_all(pulls: Seq<HostPullView>) -> Seq<Item> {
    Seq::new(pulls.len(), |i: int| adapted(pulls[i]))
}

/// The pulls of a host stream that hands over `chunks`, one by one.
pub open spec fn chunk_pulls(chunks: Seq<Seq<u8>>) -> Seq<HostPullView> {
    Seq::new(chunks.len(), |i: int| HostPullView::Chunk(chunks[i]))
}

/// The items of a sequence that yields `chunks`, one by one.
pub open spec fn chunk_items(chunks: Seq<Seq<u8>>) -> Seq<Item> {
    Seq::new(chunks.len(), |i: int| Some(Ok(chunks[i])))
}

/// The bytes of the chunks among `items`, in order; errors and ends hold
/// none.
pub open spec fn content(items: Seq<Item>) -> Seq<u8>
    decreases items.len(),
{
    if items.len() == 0 {
        Seq::empty()
    } else {
        content(items.drop_last()) + match items.last() {
            Some(Ok(chunk)) => chunk,
            _ => Seq::empty(),
        }
    }
}

/// Reads a host stream as a pull-based sequence of owned byte buffers.
#[derive(Debug)]
pub struct ByteStream {}

impl ByteStream {
    /// An adapter for one host stream, of which it is the only reader.
    pub fn new() -> (stream: ByteStream) {
        ByteStream {}
    }

    /// Says what the sequence yields for what the host stream produced.
    pub fn poll_next(&mut self, pulled: HostPull) -> (out: Option<Result<Vec<u8>, Error>>)
        ensures
            item_view(out) == adapted(pulled@),
    {
        match pulled {
            HostPull::Chunk(bytes) => Some(Ok(bytes)),
            HostPull::NotBytes(m) => Some(Err(Error::from_js_text(m))),
            HostPull::Raised(m) => {
                let aborted = String::from_str("Error: aborted");
                if m == aborted {
                    None
                } else {
                    Some(Err(Error::from_js_text(m)))
                }
            },
            HostPull::Closed => None,
        }
    }

    /// The sequence as the data of a body: what `poll_next` yields, each
    /// chunk as a `Bytes` buffer.
    pub fn poll_data(&mut self, pulled: HostPull) -> (out: Option<Result<bytes::Bytes, Error>>)
        ensures
            data_view(out) == adapted(pulled@),
    {
        into_data(self.poll_next(pulled))
    }

    /// The trailers of the body: there are none, and asking never fails.
    pub fn poll_trailers(&mut self) -> (out: Result<Option<http::HeaderMap>, Error>)
        ensures
            out is Ok,
            out->Ok_0 is None,
    {
        Ok(None)
    }
}

/// The message of the error that reports a total other than the declared one.
pub open spec fn mismatch_text(expected: nat, actual: nat) -> Seq<char> {
    "fixed length stream had different length than expected (expected "@ + digits(expected)
        + ", got "@ + digits(actual) + ")"@
}

/// The error that reports a total other than the declared one.
pub open spec fn length_mismatch(expected: nat, actual: nat) -> ErrorView {
    ErrorView::RustError(mismatch_text(expected, actual))
}

/// Where a fixed-length sequence stands: the length it declared and the
/// bytes it has realized so far.
pub struct Progress {
    pub length: nat,
    pub count: nat,
}

impl Progress {
    /// A sequence that declares `length` bytes and has realized none.
    pub open spec fn start(length: nat) -> Progress {
        Progress { length, count: 0 }
    }

    /// The total after a chunk of `len` bytes has come in.
    pub open spec fn total_with(self, len: nat) -> nat {
        self.count + len
    }

    /// What the sequence yields when its inner sequence yields `inner`.
    pub open spec fn yields(self, inner: Item) -> Item {
        match inner {
            Some(Err(e)) => Some(Err(e)),
            Some(Ok(chunk)) => if self.total_with(chunk.len()) > self.length {
                Some(Err(length_mismatch(self.length, self.total_with(chunk.len()))))
            } else {
                Some(Ok(chunk))
            },
            None => if self.count != self.length {
                Some(Err(length_mismatch(self.length, self.count)))
            } else {
                None
            },
        }
    }

    /// Where the sequence stands after its inner sequence yielded `inner`:
    /// a chunk is counted, whether it is passed on or not, and the count
    /// stops at the largest `u64`.
    pub open spec fn after(self, inner: Item) -> Progress {
        match inner {
            Some(Ok(chunk)) => Progress {
                length: self.length,
                count: if self.total_with(chunk.len()) > u64::MAX {
                    u64::MAX as nat
                } else {
                    self.total_with(chunk.len())
                },
            },
            _ => self,
        }
    }

    /// Where the sequence stands after its inner sequence yielded the items
    /// of `inner`, one pull each.
    pub open spec fn after_all(self, inner: Seq<Item>) -> Progress
        decreases inner.len(),
    {
        if inner.len() == 0 {
            self
        } else {
            self.after_all(inner.drop_last()).after(inner.last())
        }
    }

    /// What the sequence yields, pull by pull, while its inner sequence
    /// yields the items of `inner`.
    pub open spec fn run(self, inner: Seq<Item>) -> Seq<Item>
        decreases inner.len(),
    {
        if inner.len() == 0 {
            Seq::empty()
        } else {
            self.run(inner.drop_last()).push(
                self.after_all(inner.drop_last()).yields(inner.last()),
            )
        }
    }
}

/// Which constructor of the host's fixed-length stream takes a length.
#[derive(Debug, Clone, Copy, PartialEq, Eq, Structural)]
pub enum HostLength {
    /// The length is in the host's standard number range.
    Number(u32),
    /// The length takes a big integer.
    BigInt(u64),
}

/// The host representation of a declared length: a number below the largest
/// `u32`, a big integer from there on.
pub open spec fn host_length_of(length: nat) -> HostLength {
    if length < u32::MAX {
        HostLength::Number(length as u32)
    } else {
        HostLength::BigInt(length as u64)
    }
}

/// Holds a sequence of byte buffers to a total length declared up front.
#[derive(Debug)]
pub struct FixedLengthStream {
    length: u64,
    bytes_read: u64,
}

impl View for FixedLengthStream {
    type V = Progress;

    closed spec fn view(&self) -> Progress {
        Progress { length: self.length as nat, count: self.bytes_read as nat }
    }
}

fn mismatch_error(expected: u64, actual: u128) -> (e: Error)
    ensures
        e@ == length_mismatch(expected as nat, actual as nat),
{
    let mut s = String::from_str(
        "fixed length stream had different length than expected (expected ",
    );
    push_decimal(&mut s, expected as u128);
    s.append(", got ");
    push_decimal(&mut s, actual);
    s.append(")");
    Error::from(s)
}

impl FixedLengthStream {
    /// A wrapper that declares `length` bytes and has realized none.
    pub fn wrap(length: u64) -> (stream: FixedLengthStream)
        ensures
            stream@ == Progress::start(length as nat),
    {
        FixedLengthStream { length, bytes_read: 0 }
    }

    /// The declared length.
    pub fn length(&self) -> (n: u64)
        ensures
            n == self@.length,
    {
        self.length
    }

    /// The bytes realized so far.
    pub fn bytes_read(&self) -> (n: u64)
        ensures
            n == self@.count,
    {
        self.bytes_read
    }

    /// Says what the sequence yields for what its inner sequence yielded, and
    /// counts the chunk if there is one.
    ///
    /// An error of the inner sequence passes through and no length is
    /// checked. A chunk that takes the count above the declared length is
    /// replaced by the error that reports both numbers. At the end of the
    /// inner sequence the count must be the declared length, else that same
    /// error is yielded in place of the end. The wrapper keeps no memory of
    /// having failed: a later pull is judged by the count alone.
    pub fn poll_next(&mut self, inner: Option<Result<Vec<u8>, Error>>) -> (out: Option<
        Result<Vec<u8>, Error>,
    >)
        ensures
            item_view(out) == old(self)@.yields(item_view(inner)),
            final(self)@ == old(self)@.after(item_view(inner)),
            final(self)@.length == old(self)@.length,
            final(self)@.count >= old(self)@.count,
            inner is Some && inner->0 is Err ==> out == inner,
            out is Some && out->0 is Ok ==> out == inner,
    {
        match inner {
            Some(Err(err)) => Some(Err(err)),
            Some(Ok(chunk)) => {
                let total: u128 = self.bytes_read as u128 + chunk.len() as u128;
                self.bytes_read = if total > u64::MAX as u128 {
                    u64::MAX
                } else {
                    total as u64
                };
                if total > self.length as u128 {
                    Some(Err(mismatch_error(self.length, total)))
                } else {
                    Some(Ok(chunk))
                }
            },
            None => {
                if self.bytes_read != self.length {
                    Some(Err(mismatch_error(self.length, self.bytes_read as u128)))
                } else {
                    None
                }
            },
        }
    }

    /// The sequence as the data of a body: what `poll_next` yields, each
    /// chunk as a `Bytes` buffer.
    pub fn poll_data(&mut self, inner: Option<Result<Vec<u8>, Error>>) -> (out: Option<
        Result<bytes::Bytes, Error>,
    >)
        ensures
            data_view(out) == old(self)@.yields(item_view(inner)),
            final(self)@ == old(self)@.after(item_view(inner)),
    {
        into_data(self.poll_next(inner))
    }

    /// The trailers of the body: there are none, and asking never fails.
    pub fn poll_trailers(&mut self) -> (out: Result<Option<http::HeaderMap>, Error>)
        ensures
            out is Ok,
            out->Ok_0 is None,
            final(self)@ == old(self)@,
    {
        Ok(None)
    }

    /// The sequence as the host is fed it: what `poll_next` yields, each
    /// error rendered, since the host takes an error as text.
    pub fn poll_host(&mut self, inner: Option<Result<Vec<u8>, Error>>) -> (out: Option<
        Result<Vec<u8>, String>,
    >)
        ensures
            host_view(out) == host_item(old(self)@.yields(item_view(inner))),
            final(self)@ == old(self)@.after(item_view(inner)),
    {
        match self.poll_next(inner) {
            Some(Ok(chunk)) => Some(Ok(chunk)),
            Some(Err(e)) => Some(Err(e.to_string())),
            None => None,
        }
    }

    /// The form in which the host takes the declared length when it makes a
    /// fixed-length stream of its own.
    pub fn host_length(&self) -> (h: HostLength)
        ensures
            h == host_length_of(self@.length),
    {
        if self.length < u32::MAX as u64 {
            HostLength::Number(self.length as u32)
        } else {
            HostLength::BigInt(self.length)
        }
    }
}

} // verus!
