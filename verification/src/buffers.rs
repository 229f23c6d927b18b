//! Messages of the connector, and the shape of its replies to a command.

use vstd::prelude::*;
use vstd::string::*;
use vstd::utf8::*;
use crate::error::Error;

verus! {

/// The byte that ends every message of the connector.
pub const TERMINATOR: u8 = 0;

/// No reply of the connector is shorter than `<error></error>`.
pub const MIN_RESPONSE_LENGTH: usize = 15;

/// No result is shorter than `<result success="true">`.
pub const MIN_RESULT_LENGTH: usize = 23;

/// Where a result carries `r` and an exception carries `e`.
pub const DEFINING_BYTE: usize = 1;

/// Where the value of a result's `success` attribute starts.
pub const RESULT_BOOL_START: usize = 17;

/// The byte at `DEFINING_BYTE` of every result: the letter `r`.
pub const RESULT_MARK: u8 = 0x72;

/// The byte at `RESULT_BOOL_START` of a result that reports success: the
/// letter `t`.
pub const SUCCESS_MARK: u8 = 0x74;

/// What an address of zero is reported as.
pub const NULL_POINTER_MESSAGE: &'static str = "Коннектор вернул нулевой указатель";

/// What precedes a reply that is too short to be one, in the error that reports it.
pub const UNEXPECTED_MESSAGE_PREFIX: &'static str = "Коннектор вернул неожиданное сообщение \"";

/// No byte of `s` is the terminator.
pub open spec fn terminator_free(s: Seq<u8>) -> bool {
    forall|i: int| 0 <= i < s.len() ==> s[i] != TERMINATOR
}

/// `msg` is what `raw` holds before its first terminator, or all of `raw`
/// where it holds none.
pub open spec fn is_message_of(msg: Seq<u8>, raw: Seq<u8>) -> bool {
    &&& msg.len() <= raw.len()
    &&& msg =~= raw.subrange(0, msg.len() as int)
    &&& forall|i: int| 0 <= i < msg.len() ==> #[trigger] raw[i] != TERMINATOR
    &&& msg.len() < raw.len() ==> raw[msg.len() as int] == TERMINATOR
}

/// The second byte says that the reply is a result.
pub open spec fn is_result_spec(bytes: Seq<u8>) -> bool
    recommends
        bytes.len() > DEFINING_BYTE,
{
    bytes[DEFINING_BYTE as int] == RESULT_MARK
}

/// The `success` attribute of a result starts with `t`.
pub open spec fn is_success_spec(bytes: Seq<u8>) -> bool
    recommends
        bytes.len() > RESULT_BOOL_START,
{
    bytes[RESULT_BOOL_START as int] == SUCCESS_MARK
}

/// The reply is long enough for the bytes that decide its shape to be there.
pub open spec fn well_sized(bytes: Seq<u8>) -> bool {
    &&& bytes.len() >= MIN_RESPONSE_LENGTH
    &&& is_result_spec(bytes) ==> bytes.len() >= MIN_RESULT_LENGTH
}

/// The three shapes of a reply, and what is none of them.
#[derive(Debug, Clone, Copy, PartialEq, Eq, Structural)]
pub enum Shape {
    /// `<result success="true" ... />`
    Success,
    /// `<result success="false">...</result>`
    Failure,
    /// `<error>...</error>`
    Exception,
    /// Too short for its shape to be read.
    Malformed,
}

/// The shape of a reply, read from its length and two of its bytes.
pub open spec fn shape_of(bytes: Seq<u8>) -> Shape {
    if !well_sized(bytes) {
        Shape::Malformed
    } else if !is_result_spec(bytes) {
        Shape::Exception
    } else if is_success_spec(bytes) {
        Shape::Success
    } else {
        Shape::Failure
    }
}

/// The shape of a reply whose length is taken on trust.
pub open spec fn trusted_shape_of(bytes: Seq<u8>) -> Shape
    recommends
        bytes.len() > DEFINING_BYTE,
        is_result_spec(bytes) ==> bytes.len() > RESULT_BOOL_START,
{
    if !is_result_spec(bytes) {
        Shape::Exception
    } else if is_success_spec(bytes) {
        Shape::Success
    } else {
        Shape::Failure
    }
}

/// The text of the error that reports a reply of shape `shape` whose
/// content reads `text`.
pub open spec fn rejection_text(shape: Shape, text: Seq<char>) -> Seq<char> {
    if shape == Shape::Malformed {
        UNEXPECTED_MESSAGE_PREFIX@ + text + "\""@
    } else {
        text
    }
}

/// What `String::from_utf8_lossy` makes of `bytes`.
pub uninterp spec fn lossy_text(bytes: Seq<u8>) -> Seq<char>;

/// `String::from_utf8_lossy`, copied into a `String`: the text that the bytes
/// encode, with each ill-formed part replaced by U+FFFD. Bytes that are
/// well-formed UTF-8 come back as the text they encode.
#[verifier::external_body]
fn string_from_utf8_lossy(bytes: &[u8]) -> (text: String)
    ensures
        text@ == lossy_text(bytes@),
        valid_utf8(bytes@) ==> text@ == decode_utf8(bytes@),
{
    String::from_utf8_lossy(bytes).into_owned()
}

/// `std::str::from_utf8`, with the error dropped: the bytes as text, where
/// they are well-formed UTF-8, and nothing where they are not.
#[verifier::external_body]
pub(crate) fn str_from_utf8(bytes: &[u8]) -> (text: Option<&str>)
    ensures
        text.is_some() == valid_utf8(bytes@),
        text matches Some(s) ==> s.spec_bytes() == bytes@,
{
    std::str::from_utf8(bytes).ok()
}

/// One message of the connector: the bytes before its terminator.
#[derive(Debug)]
pub struct TCStr {
    bytes: Vec<u8>,
}

impl View for TCStr {
    type V = Seq<u8>;

    closed spec fn view(&self) -> Seq<u8> {
        self.bytes@
    }
}

impl TCStr {
    #[verifier::type_invariant]
    spec fn well_formed(&self) -> bool {
        terminator_free(self.bytes@)
    }

    /// Takes the message out of what the connector handed over: the bytes
    /// before the first terminator.
    pub fn new(raw: &[u8]) -> (buf: TCStr)
        ensures
            is_message_of(buf@, raw@),
            terminator_free(buf@),
    {
        let mut bytes: Vec<u8> = Vec::new();
        let mut i: usize = 0;
        while i < raw.len() && raw[i] != TERMINATOR
            invariant
                i <= raw.len(),
                bytes@ =~= raw@.subrange(0, i as int),
                forall|j: int| 0 <= j < i ==> #[trigger] raw@[j] != TERMINATOR,
                terminator_free(bytes@),
            decreases raw.len() - i,
        {
            bytes.push(raw[i]);
            i += 1;
        }
        TCStr { bytes }
    }

    /// The message as bytes, without its terminator.
    pub fn to_bytes(&self) -> (bytes: &[u8])
        ensures
            bytes@ == self@,
            terminator_free(bytes@),
    {
        proof {
            use_type_invariant(self);
        }
        self.bytes.as_slice()
    }

    /// How many bytes the message holds.
    pub fn len(&self) -> (n: usize)
        ensures
            n == self@.len(),
    {
        self.bytes.len()
    }

    /// Whether the message holds no byte at all.
    pub fn is_empty(&self) -> (b: bool)
        ensures
            b == (self@.len() == 0),
    {
        self.bytes.len() == 0
    }

    /// The message as text, where it is well-formed UTF-8.
    pub fn to_str(&self) -> (text: Option<&str>)
        ensures
            text.is_some() == valid_utf8(self@),
            text matches Some(s) ==> s.spec_bytes() == self@,
    {
        str_from_utf8(self.bytes.as_slice())
    }

    /// The message as text, with whatever is not UTF-8 replaced.
    pub fn to_string_lossy(&self) -> (text: String)
        ensures
            text@ == lossy_text(self@),
            valid_utf8(self@) ==> text@ == decode_utf8(self@),
    {
        string_from_utf8_lossy(self.bytes.as_slice())
    }

    /// Gives up the message for its bytes.
    pub fn into_bytes(self) -> (bytes: Vec<u8>)
        ensures
            bytes@ == self@,
            terminator_free(bytes@),
    {
        proof {
            use_type_invariant(&self);
        }
        self.bytes
    }
}

/// An address that the connector returned, as an error where it is null.
pub fn as_nonnull_txc_buf(p: usize) -> (r: Result<usize, Error>)
    ensures
        p != 0 ==> r == Ok::<usize, Error>(p),
        p == 0 ==> (r matches Err(Error::Internal(m)) && m@ == NULL_POINTER_MESSAGE@),
{
    if crate::likely(p != 0) {
        Ok(p)
    } else {
        Err(Error::Internal(String::from_str(NULL_POINTER_MESSAGE)))
    }
}

/// Whether the second byte says that the reply is a result.
pub fn is_result(bytes: &[u8]) -> (b: bool)
    requires
        bytes.len() > DEFINING_BYTE,
    ensures
        b == is_result_spec(bytes@),
{
    bytes[DEFINING_BYTE] == RESULT_MARK
}

/// Whether the `success` attribute of a result starts with `t`.
pub fn is_success(bytes: &[u8]) -> (b: bool)
    requires
        bytes.len() > RESULT_BOOL_START,
    ensures
        b == is_success_spec(bytes@),
{
    bytes[RESULT_BOOL_START] == SUCCESS_MARK
}

/// Reads the shape of a reply, checking its length before any byte.
pub fn response_shape(bytes: &[u8]) -> (shape: Shape)
    ensures
        shape == shape_of(bytes@),
{
    let len = bytes.len();
    if len < MIN_RESPONSE_LENGTH || (is_result(bytes) && len < MIN_RESULT_LENGTH) {
        Shape::Malformed
    } else if !is_result(bytes) {
        Shape::Exception
    } else if is_success(bytes) {
        Shape::Success
    } else {
        Shape::Failure
    }
}

/// Reads the shape of a reply from the two deciding bytes alone.
pub fn trusted_response_shape(bytes: &[u8]) -> (shape: Shape)
    requires
        bytes.len() > DEFINING_BYTE,
        is_result_spec(bytes@) ==> bytes.len() > RESULT_BOOL_START,
    ensures
        shape == trusted_shape_of(bytes@),
        shape != Shape::Malformed,
{
    if !is_result(bytes) {
        Shape::Exception
    } else if is_success(bytes) {
        Shape::Success
    } else {
        Shape::Failure
    }
}

/// The error that a reply of shape `shape` stands for, given the reply as
/// text; a success stands for none.
pub fn rejection(shape: Shape, text: String) -> (e: Option<Error>)
    ensures
        match shape {
            Shape::Success => e is None,
            Shape::Failure => e matches Some(Error::InvalidCommand(m)) && m@ == text@,
            Shape::Exception => e matches Some(Error::Internal(m)) && m@ == text@,
            Shape::Malformed => e matches Some(Error::Internal(m)) && m@ == rejection_text(
                shape,
                text@,
            ),
        },
{
    match shape {
        Shape::Success => None,
        Shape::Failure => Some(Error::InvalidCommand(text)),
        Shape::Exception => Some(Error::Internal(text)),
        Shape::Malformed => Some(
            Error::Internal(
                String::from_str(UNEXPECTED_MESSAGE_PREFIX).concat(text.as_str()).concat("\""),
            ),
        ),
    }
}

/// What `parse_send_response` and its trusting variant owe for a reply `buf`
/// once its shape is known to be `shape`.
pub open spec fn parsed_as(shape: Shape, buf: Seq<u8>, r: Result<TCStr, Error>) -> bool {
    match shape {
        Shape::Success => r matches Ok(m) && m@ == buf,
        Shape::Failure => r matches Err(Error::InvalidCommand(m)) && m@ == lossy_text(buf),
        Shape::Exception => r matches Err(Error::Internal(m)) && m@ == lossy_text(buf),
        Shape::Malformed => r matches Err(Error::Internal(m)) && m@ == rejection_text(
            shape,
            lossy_text(buf),
        ),
    }
}

/// Turns the connector's reply to a command into the outcome of the command.
///
/// A result that reports success is handed back as it came. A result that
/// does not is an `InvalidCommand`, an exception is `Internal`; both carry the
/// reply as text. A reply too short to be either is `Internal` too.
pub fn parse_send_response(buf: TCStr) -> (r: Result<TCStr, Error>)
    ensures
        parsed_as(shape_of(buf@), buf@, r),
        well_sized(buf@) && is_result_spec(buf@) && is_success_spec(buf@) ==> (r matches Ok(m)
            && m@ == buf@),
        well_sized(buf@) && is_result_spec(buf@) && !is_success_spec(buf@) ==> (r matches Err(
            Error::InvalidCommand(_),
        )),
        !is_result_spec(buf@) || !well_sized(buf@) ==> (r matches Err(Error::Internal(_))),
        valid_utf8(buf@) ==> (r matches Err(e) ==> e.message_spec() == Some(
            rejection_text(shape_of(buf@), decode_utf8(buf@)),
        )),
{
    let shape = response_shape(buf.to_bytes());
    if crate::likely(shape == Shape::Success) {
        Ok(buf)
    } else {
        match rejection(shape, buf.to_string_lossy()) {
            Some(e) => Err(e),
            None => Ok(buf),
        }
    }
}

/// `parse_send_response` for a caller who knows the reply to be as long as
/// its shape demands: it reads the two deciding bytes and nothing else.
pub fn parse_send_response_unchecked(buf: TCStr) -> (r: Result<TCStr, Error>)
    requires
        buf@.len() > DEFINING_BYTE,
        is_result_spec(buf@) ==> buf@.len() > RESULT_BOOL_START,
    ensures
        parsed_as(trusted_shape_of(buf@), buf@, r),
        is_result_spec(buf@) && is_success_spec(buf@) ==> (r matches Ok(m) && m@ == buf@),
        is_result_spec(buf@) && !is_success_spec(buf@) ==> (r matches Err(Error::InvalidCommand(_))),
        !is_result_spec(buf@) ==> (r matches Err(Error::Internal(_))),
        valid_utf8(buf@) ==> (r matches Err(e) ==> e.message_spec() == Some(decode_utf8(buf@))),
{
    let shape = trusted_response_shape(buf.to_bytes());
    if crate::likely(shape == Shape::Success) {
        Ok(buf)
    } else {
        match rejection(shape, buf.to_string_lossy()) {
            Some(e) => Err(e),
            None => Ok(buf),
        }
    }
}

/// The two marks are the letters that the connector writes.
pub proof fn marks_are_letters()
    ensures
        RESULT_MARK == 'r' as u8,
        SUCCESS_MARK == 't' as u8,
{
}

/// A reply has one message: two readings of the same bytes agree. To show
/// that a message is a given sequence, show that the sequence is a message of
/// the reply.
pub proof fn message_is_unique(a: Seq<u8>, b: Seq<u8>, raw: Seq<u8>)
    requires
        is_message_of(a, raw),
        is_message_of(b, raw),
    ensures
        a == b,
{
    if a.len() < b.len() {
        assert(b[a.len() as int] == raw[a.len() as int]);
    } else if b.len() < a.len() {
        assert(a[b.len() as int] == raw[b.len() as int]);
    }
    assert(a =~= b);
}

/// Where the two modes differ: on every reply that is long enough they read
/// the same shape.
pub proof fn modes_agree(bytes: Seq<u8>)
    requires
        well_sized(bytes),
    ensures
        shape_of(bytes) == trusted_shape_of(bytes),
{
}

} // verus!
