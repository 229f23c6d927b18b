//! The connector's entry points, and what its answers to the calls that
//! manage it mean.

use vstd::prelude::*;
use vstd::string::*;
use vstd::utf8::*;
use crate::buffers::{lossy_text, TCStr};
use crate::error::Error;

verus! {

/// How many entry points a connector module must export.
pub const ENTRY_POINTS: usize = 6;

/// What precedes the symbol in the report of a missing entry point.
pub const MISSING_ENTRY_POINT_PREFIX: &'static str = "Не удалось получить адресс функции ";

/// The functions that a connector module must export, in the order in which
/// they are looked up.
#[derive(Debug, Clone, Copy, PartialEq, Eq, Structural, Hash)]
pub enum EntryPoint {
    /// Starts the connector with a log directory and a log level.
    Initialize,
    /// Changes the log level of a running connector.
    SetLogLevel,
    /// Submits a command and returns the connector's reply.
    SendCommand,
    /// Registers the function that receives deliveries.
    SetCallbackEx,
    /// Releases a buffer that the connector handed out.
    FreeMemory,
    /// Stops the connector.
    UnInitialize,
}

impl EntryPoint {
    /// The entry point's place in the order of lookup.
    pub open spec fn index_spec(&self) -> int {
        match self {
            EntryPoint::Initialize => 0,
            EntryPoint::SetLogLevel => 1,
            EntryPoint::SendCommand => 2,
            EntryPoint::SetCallbackEx => 3,
            EntryPoint::FreeMemory => 4,
            EntryPoint::UnInitialize => 5,
        }
    }

    /// The exported symbol, terminated as the operating system's lookup wants it.
    pub open spec fn symbol_spec(&self) -> Seq<char> {
        match self {
            EntryPoint::Initialize => "Initialize\0"@,
            EntryPoint::SetLogLevel => "SetLogLevel\0"@,
            EntryPoint::SendCommand => "SendCommand\0"@,
            EntryPoint::SetCallbackEx => "SetCallbackEx\0"@,
            EntryPoint::FreeMemory => "FreeMemory\0"@,
            EntryPoint::UnInitialize => "UnInitialize\0"@,
        }
    }

    /// The entry point's place in the order of lookup.
    pub fn index(&self) -> (i: usize)
        ensures
            i == self.index_spec(),
            i < ENTRY_POINTS,
    {
        match self {
            EntryPoint::Initialize => 0,
            EntryPoint::SetLogLevel => 1,
            EntryPoint::SendCommand => 2,
            EntryPoint::SetCallbackEx => 3,
            EntryPoint::FreeMemory => 4,
            EntryPoint::UnInitialize => 5,
        }
    }

    /// The entry point that is looked up at place `i`, if there is such a place.
    pub fn from_index(i: usize) -> (ep: Option<EntryPoint>)
        ensures
            ep.is_some() == (i < ENTRY_POINTS),
            ep matches Some(e) ==> e.index_spec() == i,
    {
        if i == 0 {
            Some(EntryPoint::Initialize)
        } else if i == 1 {
            Some(EntryPoint::SetLogLevel)
        } else if i == 2 {
            Some(EntryPoint::SendCommand)
        } else if i == 3 {
            Some(EntryPoint::SetCallbackEx)
        } else if i == 4 {
            Some(EntryPoint::FreeMemory)
        } else if i == 5 {
            Some(EntryPoint::UnInitialize)
        } else {
            None
        }
    }

    /// The exported symbol, terminated as the operating system's lookup wants it.
    pub fn symbol(&self) -> (s: &'static str)
        ensures
            s@ == self.symbol_spec(),
    {
        match self {
            EntryPoint::Initialize => "Initialize\0",
            EntryPoint::SetLogLevel => "SetLogLevel\0",
            EntryPoint::SendCommand => "SendCommand\0",
            EntryPoint::SetCallbackEx => "SetCallbackEx\0",
            EntryPoint::FreeMemory => "FreeMemory\0",
            EntryPoint::UnInitialize => "UnInitialize\0",
        }
    }

    /// The report of this entry point missing from a module.
    pub fn missing_message(&self) -> (text: String)
        ensures
            text@ == MISSING_ENTRY_POINT_PREFIX@ + self.symbol_spec(),
    {
        String::from_str(MISSING_ENTRY_POINT_PREFIX).concat(self.symbol())
    }
}

/// Every one of the six addresses is that of a function.
pub open spec fn all_resolved(addresses: Seq<usize>) -> bool {
    &&& addresses.len() == ENTRY_POINTS
    &&& forall|i: int| 0 <= i < ENTRY_POINTS ==> addresses[i] != 0
}

/// `ep` is the first entry point, in the order of lookup, whose address is null.
pub open spec fn first_missing(addresses: Seq<usize>, ep: EntryPoint) -> bool {
    &&& addresses[ep.index_spec()] == 0
    &&& forall|i: int| 0 <= i < ep.index_spec() ==> addresses[i] != 0
}

/// The addresses of a loaded module's entry points: all six, none of them null.
pub struct FunctionTable {
    addresses: [usize; 6],
}

impl View for FunctionTable {
    type V = Seq<usize>;

    closed spec fn view(&self) -> Seq<usize> {
        self.addresses@
    }
}

impl FunctionTable {
    #[verifier::type_invariant]
    spec fn well_formed(&self) -> bool {
        all_resolved(self.addresses@)
    }

    /// Makes the table of a module from what the lookup of each entry point
    /// gave, null standing for a symbol that the module does not export.
    ///
    /// There is a table only where all six were found. Where one is missing
    /// the answer is the first such entry point, and no table.
    pub fn resolve(addresses: &[usize; 6]) -> (r: Result<FunctionTable, EntryPoint>)
        ensures
            r is Ok == all_resolved(addresses@),
            r matches Ok(table) ==> table@ == addresses@,
            r matches Err(ep) ==> first_missing(addresses@, ep),
    {
        let mut i: usize = 0;
        while i < ENTRY_POINTS
            invariant
                i <= ENTRY_POINTS,
                forall|j: int| 0 <= j < i ==> addresses@[j] != 0,
            decreases ENTRY_POINTS - i,
        {
            if addresses[i] == 0 {
                match EntryPoint::from_index(i) {
                    Some(ep) => {
                        return Err(ep);
                    },
                    None => {},
                }
            }
            i += 1;
        }
        Ok(FunctionTable { addresses: *addresses })
    }

    /// The address of an entry point, which is never null.
    pub fn address(&self, ep: EntryPoint) -> (a: usize)
        ensures
            a == self@[ep.index_spec()],
            a != 0,
            all_resolved(self@),
    {
        proof {
            use_type_invariant(self);
        }
        self.addresses[ep.index()]
    }
}

/// What the connector's answer to `Initialize`, `SetLogLevel` or
/// `UnInitialize` means: nothing where the call succeeded, and otherwise the
/// connector's account of the failure, given as text.
pub fn reply_outcome(reply: Option<TCStr>) -> (r: Result<(), String>)
    ensures
        reply is None ==> r is Ok,
        reply matches Some(buf) ==> (r matches Err(text) && text@ == lossy_text(buf@) && (
        valid_utf8(buf@) ==> text@ == decode_utf8(buf@))),
{
    match reply {
        None => Ok(()),
        Some(buf) => Err(buf.to_string_lossy()),
    }
}

/// What the connector's answer to `Initialize` means for the one who loads
/// it: a connector that answers with anything but null did not start.
pub fn initialization_outcome(reply: Option<TCStr>) -> (r: Result<(), Error>)
    ensures
        reply is None ==> r is Ok,
        reply matches Some(buf) ==> (r matches Err(Error::Initialization(text)) && text@
            == lossy_text(buf@) && (valid_utf8(buf@) ==> text@ == decode_utf8(buf@))),
{
    match reply_outcome(reply) {
        Ok(()) => Ok(()),
        Err(text) => Err(Error::Initialization(text)),
    }
}

} // verus!
