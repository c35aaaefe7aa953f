//! The structured errors that every operation of the library reports.
use vstd::prelude::*;
use vstd::string::StringExecFns;

verus! {

/// One of the three guarded collections of the state store.
#[derive(Clone, Copy, Debug, PartialEq, Eq, Structural)]
pub enum Slot {
    ModLoaders,
    LocalMods,
    RemoteMods,
}

#[derive(Debug, PartialEq, Eq)]
pub enum Error {
    /// An entry was asked for an operation it does not offer: the
    /// operation's name, then the entry's identifier.
    CapabilityNotSupported(String, String),
    /// A slot of the state store was read before anything was written to it.
    DataNotLoaded(Slot),
    /// A collection holds nothing under the given identifier.
    DataEntryNotFound(String),
    /// The mod can only be obtained by hand; carries the loader's identifier.
    ManualActionRequired(String),
    /// The file system or the operating system refused something.
    IoFailure(String),
    /// A remote catalogue could not be fetched: the source, then the cause.
    RemoteFetchFailure(String, String),
    /// A registry entry could not be built: the entry, then the cause.
    ConstructionFailure(String, String),
    /// A path has no file name to derive an identifier from.
    FailedToGetFileName(String),
    /// A name that belongs to none of an enumeration's variants.
    UnknownEnumVariant(String),
}

/// The mathematical value of an [`Error`].
pub enum ErrorView {
    CapabilityNotSupported(Seq<char>, Seq<char>),
    DataNotLoaded(Slot),
    DataEntryNotFound(Seq<char>),
    ManualActionRequired(Seq<char>),
    IoFailure(Seq<char>),
    RemoteFetchFailure(Seq<char>, Seq<char>),
    ConstructionFailure(Seq<char>, Seq<char>),
    FailedToGetFileName(Seq<char>),
    UnknownEnumVariant(Seq<char>),
}

impl View for Error {
    type V = ErrorView;

    open spec fn view(&self) -> ErrorView {
        match self {
            Error::CapabilityNotSupported(o, e) => ErrorView::CapabilityNotSupported(o@, e@),
            Error::DataNotLoaded(s) => ErrorView::DataNotLoaded(*s),
            Error::DataEntryNotFound(i) => ErrorView::DataEntryNotFound(i@),
            Error::ManualActionRequired(l) => ErrorView::ManualActionRequired(l@),
            Error::IoFailure(c) => ErrorView::IoFailure(c@),
            Error::RemoteFetchFailure(s, c) => ErrorView::RemoteFetchFailure(s@, c@),
            Error::ConstructionFailure(e, c) => ErrorView::ConstructionFailure(e@, c@),
            Error::FailedToGetFileName(p) => ErrorView::FailedToGetFileName(p@),
            Error::UnknownEnumVariant(n) => ErrorView::UnknownEnumVariant(n@),
        }
    }
}

/// The name under which a slot appears in messages.
pub open spec fn slot_name(slot: Slot) -> Seq<char> {
    match slot {
        Slot::ModLoaders => "mod loaders"@,
        Slot::LocalMods => "local mods"@,
        Slot::RemoteMods => "remote mods"@,
    }
}

/// The text that [`Error::message`] gives for an error.
pub open spec fn message_of(e: ErrorView) -> Seq<char> {
    match e {
        ErrorView::CapabilityNotSupported(o, i) => "Operation '"@ + o + "' is not supported by '"@
            + i + "'"@,
        ErrorView::DataNotLoaded(s) => "Data has not been loaded yet: "@ + slot_name(s),
        ErrorView::DataEntryNotFound(i) => "Failed to find data entry: "@ + i,
        ErrorView::ManualActionRequired(l) => "Manual action is required for mod loader: "@ + l,
        ErrorView::IoFailure(c) => "Input or output failed: "@ + c,
        ErrorView::RemoteFetchFailure(s, c) => "Failed to fetch remote data from '"@ + s + "': "@
            + c,
        ErrorView::ConstructionFailure(i, c) => "Failed to set up '"@ + i + "': "@ + c,
        ErrorView::FailedToGetFileName(p) => "Failed to get file name from path: "@ + p,
        ErrorView::UnknownEnumVariant(n) => "Unknown enum variant: "@ + n,
    }
}

impl Slot {
    pub fn name(self) -> (r: &'static str)
        ensures
            r@ == slot_name(self),
    {
        match self {
            Slot::ModLoaders => "mod loaders",
            Slot::LocalMods => "local mods",
            Slot::RemoteMods => "remote mods",
        }
    }
}

impl Clone for Error {
    fn clone(&self) -> (r: Self)
        ensures
            r == *self,
    {
        match self {
            Error::CapabilityNotSupported(o, e) => Error::CapabilityNotSupported(
                o.clone(),
                e.clone(),
            ),
            Error::DataNotLoaded(s) => Error::DataNotLoaded(*s),
            Error::DataEntryNotFound(i) => Error::DataEntryNotFound(i.clone()),
            Error::ManualActionRequired(l) => Error::ManualActionRequired(l.clone()),
            Error::IoFailure(c) => Error::IoFailure(c.clone()),
            Error::RemoteFetchFailure(s, c) => Error::RemoteFetchFailure(s.clone(), c.clone()),
            Error::ConstructionFailure(e, c) => Error::ConstructionFailure(e.clone(), c.clone()),
            Error::FailedToGetFileName(p) => Error::FailedToGetFileName(p.clone()),
            Error::UnknownEnumVariant(n) => Error::UnknownEnumVariant(n.clone()),
        }
    }
}

impl Error {
    /// The error as a line of text for the observer.
    pub fn message(&self) -> (r: String)
        ensures
            r@ == message_of(self@),
    {
        match self {
            Error::CapabilityNotSupported(o, i) => {
                let mut s = String::from_str("Operation '");
                s.append(o.as_str());
                s.append("' is not supported by '");
                s.append(i.as_str());
                s.append("'");
                s
            },
            Error::DataNotLoaded(slot) => {
                let mut s = String::from_str("Data has not been loaded yet: ");
                s.append(slot.name());
                s
            },
            Error::DataEntryNotFound(i) => {
                let mut s = String::from_str("Failed to find data entry: ");
                s.append(i.as_str());
                s
            },
            Error::ManualActionRequired(l) => {
                let mut s = String::from_str("Manual action is required for mod loader: ");
                s.append(l.as_str());
                s
            },
            Error::IoFailure(c) => {
                let mut s = String::from_str("Input or output failed: ");
                s.append(c.as_str());
                s
            },
            Error::RemoteFetchFailure(src, c) => {
                let mut s = String::from_str("Failed to fetch remote data from '");
                s.append(src.as_str());
                s.append("': ");
                s.append(c.as_str());
                s
            },
            Error::ConstructionFailure(i, c) => {
                let mut s = String::from_str("Failed to set up '");
                s.append(i.as_str());
                s.append("': ");
                s.append(c.as_str());
                s
            },
            Error::FailedToGetFileName(p) => {
                let mut s = String::from_str("Failed to get file name from path: ");
                s.append(p.as_str());
                s
            },
            Error::UnknownEnumVariant(n) => {
                let mut s = String::from_str("Unknown enum variant: ");
                s.append(n.as_str());
                s
            },
        }
    }
}

} // verus!
