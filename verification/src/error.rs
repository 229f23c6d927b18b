//! The error taxonomy of the binding.

use vstd::prelude::*;
use vstd::string::*;

verus! {

/// The operating system's error value, carried through untouched.
#[verifier::external_type_specification]
#[verifier::external_body]
pub struct ExIoError(std::io::Error);

/// What precedes the cause in the text of a loading error.
pub const LOADING_PREFIX: &'static str = "Не удалось загрузить библиотеку: ";

/// What precedes the connector's message in the text of an initialization error.
pub const INITIALIZATION_PREFIX: &'static str = "Инициализация библиотеки трагически провалилась: ";

/// What precedes the connector's message in the text of a rejected command.
pub const INVALID_COMMAND_PREFIX: &'static str = "Команда не прошла проверку и не была отправлена: ";

/// What precedes the connector's message in the text of an internal error.
pub const INTERNAL_PREFIX: &'static str = "Внутренняя ошибка/exception коннектора - скорее всего это - исключительная ситуация, которая не должна происходить в принципе.\nПроверьте целостность файлов, актуальность версий и параметры окружения.\nЕсли ситуация повторяется и надежда иссякла, вы могли бы создать issue наgithub.\n";

/// Everything that can go wrong between the caller and the connector.
#[derive(Debug)]
pub enum Error {
    /// The module could not be loaded, or one of its entry points is missing.
    Loading(std::io::Error),
    /// The connector refused to initialize; holds its message.
    Initialization(String),
    /// The connector rejected a command; holds its reply.
    InvalidCommand(String),
    /// The connector raised an exception or broke its protocol; holds what it said.
    Internal(String),
}

/// `std::fmt::Display` of `std::io::Error`: the text of the cause. It depends
/// on the operating system's message tables, so nothing is claimed of it.
#[verifier::external_body]
fn io_error_text(e: &std::io::Error) -> (text: String) {
    format!("{e}")
}

impl Error {
    /// The connector's own words, where the error carries any.
    pub open spec fn message_spec(&self) -> Option<Seq<char>> {
        match self {
            Error::Loading(_) => None,
            Error::Initialization(m) => Some(m@),
            Error::InvalidCommand(m) => Some(m@),
            Error::Internal(m) => Some(m@),
        }
    }

    /// The text that comes before the detail in `to_text`.
    pub open spec fn prefix(&self) -> Seq<char> {
        match self {
            Error::Loading(_) => LOADING_PREFIX@,
            Error::Initialization(_) => INITIALIZATION_PREFIX@,
            Error::InvalidCommand(_) => INVALID_COMMAND_PREFIX@,
            Error::Internal(_) => INTERNAL_PREFIX@,
        }
    }

    /// The text that comes after the detail in `to_text`: one space, except
    /// for an internal error, whose text ends with the connector's message.
    pub open spec fn suffix(&self) -> Seq<char> {
        match self {
            Error::Internal(_) => Seq::<char>::empty(),
            _ => " "@,
        }
    }

    /// The text of an error that carries a message of the connector.
    pub open spec fn to_text_spec(&self) -> Seq<char>
        recommends
            self.message_spec() is Some,
    {
        self.prefix() + self.message_spec()->0 + self.suffix()
    }

    /// The connector's message, verbatim; `None` for a loading error, which
    /// carries the operating system's error instead.
    pub fn message(&self) -> (m: Option<&String>)
        ensures
            m.is_some() == self.message_spec().is_some(),
            m matches Some(s) ==> Some(s@) == self.message_spec(),
    {
        match self {
            Error::Loading(_) => None,
            Error::Initialization(m) => Some(m),
            Error::InvalidCommand(m) => Some(m),
            Error::Internal(m) => Some(m),
        }
    }

    /// The operating system's error behind a loading error; `None` for the others.
    pub fn source(&self) -> (s: Option<&std::io::Error>)
        ensures
            s.is_some() == (self is Loading),
            s matches Some(e) ==> *self matches Error::Loading(inner) && *e == inner,
    {
        match self {
            Error::Loading(e) => Some(e),
            _ => None,
        }
    }

    /// The error as a line for a person to read: a fixed explanation of the
    /// kind of error, then the detail, then the suffix of that kind.
    pub fn to_text(&self) -> (text: String)
        ensures
            match self.message_spec() {
                Some(_) => text@ == self.to_text_spec(),
                None => exists|cause: Seq<char>| text@ == self.prefix() + cause + self.suffix(),
            },
    {
        match self {
            Error::Loading(e) => {
                let cause = io_error_text(e);
                let text = String::from_str(LOADING_PREFIX).concat(cause.as_str()).concat(" ");
                assert(text@ == self.prefix() + cause@ + self.suffix());
                text
            },
            Error::Initialization(m) => String::from_str(INITIALIZATION_PREFIX).concat(
                m.as_str(),
            ).concat(" "),
            Error::InvalidCommand(m) => String::from_str(INVALID_COMMAND_PREFIX).concat(
                m.as_str(),
            ).concat(" "),
            Error::Internal(m) => {
                let text = String::from_str(INTERNAL_PREFIX).concat(m.as_str());
                assert(text@ =~= self.prefix() + m@ + self.suffix());
                text
            },
        }
    }
}

} // verus!
