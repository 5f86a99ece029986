//! A file-like resource handle whose protocol state lives in a phantom type
//! parameter. A handle is created closed, must be opened before it can be
//! read, and must be read before its payload can be taken or the handle
//! closed again. Because each operation is only defined on the handle type
//! tagged with the required state, a call made out of order is rejected by
//! the type checker: no runtime state check exists or is needed. Each
//! transition consumes its handle by value, so a stale handle from an earlier
//! state cannot be reused.

use vstd::prelude::*;
use core::marker::PhantomData;

verus! {

/// State tag: the handle is closed. The only permitted operation is `open`.
pub struct Closed;

/// State tag: the handle is open. The only permitted operation is `read`.
pub struct Open;

/// State tag: the handle has been read. `get_data` and `close` are permitted.
pub struct Readable;

/// The value a `read` places into the handle, standing in for a real read
/// result.
pub const READ_VALUE: i32 = 42;

/// A resource handle carrying an integer payload and a compile-time state
/// tag. The tag is a zero-sized marker: it selects which operations exist on
/// the handle but holds no data at run time.
#[verifier::reject_recursive_types(State)]
pub struct FileHandle<State> {
    data: i32,
    _state: PhantomData<State>,
}

impl<State> FileHandle<State> {
    /// The payload the handle currently carries.
    pub closed spec fn payload(&self) -> int {
        self.data as int
    }
}

/// The payload of a freshly created handle.
pub open spec fn initial_payload() -> int {
    0
}

/// How `open` transforms the payload: it is preserved.
pub open spec fn open_payload(p: int) -> int {
    p
}

/// How `read` transforms the payload: the read result replaces whatever was
/// there before.
pub open spec fn read_payload(p: int) -> int {
    READ_VALUE as int
}

/// How `close` transforms the payload: it is reset.
pub open spec fn close_payload(p: int) -> int {
    0
}

impl FileHandle<Closed> {
    /// Creates a handle, closed and with the initial payload.
    pub fn new() -> (r: Self)
        ensures
            r.payload() == initial_payload(),
    {
        FileHandle { data: 0, _state: PhantomData }
    }

    /// Transitions the handle from `Closed` to `Open`, consuming it. The
    /// payload is unchanged.
    pub fn open(self) -> (r: FileHandle<Open>)
        ensures
            r.payload() == open_payload(self.payload()),
    {
        FileHandle { data: self.data, _state: PhantomData }
    }
}

impl FileHandle<Open> {
    /// Transitions the handle from `Open` to `Readable`, consuming it. The
    /// payload becomes the read result `READ_VALUE`.
    pub fn read(self) -> (r: FileHandle<Readable>)
        ensures
            r.payload() == read_payload(self.payload()),
    {
        FileHandle { data: READ_VALUE, _state: PhantomData }
    }
}

impl FileHandle<Readable> {
    /// Returns the payload without consuming the handle; only a handle that
    /// has been read offers it.
    pub fn get_data(&self) -> (r: i32)
        ensures
            r as int == self.payload(),
    {
        self.data
    }

    /// Transitions the handle from `Readable` back to `Closed`, consuming it
    /// and resetting the payload. The result can be opened again.
    pub fn close(self) -> (r: FileHandle<Closed>)
        ensures
            r.payload() == close_payload(self.payload()),
    {
        FileHandle { data: 0, _state: PhantomData }
    }
}

/// Runs the whole protocol once — create, open, read, take the payload,
/// close — and returns the value taken, which is always the read result.
pub fn use_file() -> (r: i32)
    ensures
        r == READ_VALUE,
{
    let f = FileHandle::<Closed>::new();
    let f = f.open();
    let f = f.read();
    let data = f.get_data();
    let _f = f.close();
    data
}

/// Law: over the full valid sequence — create, open, read — the payload that
/// `get_data` then hands out is the read result 42, whatever the initial
/// payload contributed.
pub proof fn lemma_protocol_value()
    ensures
        read_payload(open_payload(initial_payload())) == 42,
{
}

/// Law: reading overwrites the payload. Whatever payload `p` the handle
/// carried while open, after `read` the payload — the value `get_data`
/// returns — is the read result 42, never the pre-read value 0.
pub proof fn lemma_read_overwrites(p: int)
    ensures
        read_payload(p) == 42,
        read_payload(p) != 0,
{
}

/// Law: a full cycle — open, read, close — ends with the payload a freshly
/// created closed handle has, whatever payload `p` the cycle started from:
/// closing reproduces the initial closed handle's observable state.
pub proof fn lemma_round_trip(p: int)
    ensures
        close_payload(read_payload(open_payload(p))) == initial_payload(),
{
}

} // verus!
