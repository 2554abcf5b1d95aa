//! The two kinds of failure this crate reports.

use vstd::prelude::*;

verus! {

/// A failure reported to the immediate caller. Nothing is retried.
#[derive(Debug, PartialEq, Eq)]
pub enum ImpError {
    /// A name was asked of the frozen store and the store does not hold it.
    ImportLookup { name: String },
    /// The import lock was released while it was not held.
    Usage,
}

/// The mathematical value of an [`ImpError`].
pub enum ImpErrorView {
    ImportLookup { name: Seq<char> },
    Usage,
}

impl View for ImpError {
    type V = ImpErrorView;

    open spec fn view(&self) -> ImpErrorView {
        match self {
            ImpError::ImportLookup { name } => ImpErrorView::ImportLookup { name: name@ },
            ImpError::Usage => ImpErrorView::Usage,
        }
    }
}

impl Clone for ImpError {
    fn clone(&self) -> (copy: Self)
        ensures
            copy@ == self@,
    {
        match self {
            ImpError::ImportLookup { name } => ImpError::ImportLookup { name: name.clone() },
            ImpError::Usage => ImpError::Usage,
        }
    }
}

/// The text of the message carried by an error value.
pub open spec fn message_of(e: ImpErrorView) -> Seq<char> {
    match e {
        ImpErrorView::ImportLookup { name } => "No such frozen object named "@ + name,
        ImpErrorView::Usage => "global import lock not held"@,
    }
}

/// `needle` occurs in `hay` as a contiguous run of characters.
pub open spec fn occurs_in(needle: Seq<char>, hay: Seq<char>) -> bool {
    exists|i: int|
        0 <= i && i + needle.len() <= hay.len() && #[trigger] hay.subrange(
            i,
            i + needle.len(),
        ) == needle
}

impl ImpError {
    /// The error for a name that the frozen store does not hold.
    pub fn import_lookup(name: &str) -> (e: ImpError)
        ensures
            e@ == (ImpErrorView::ImportLookup { name: name@ }),
    {
        ImpError::ImportLookup { name: name.to_owned() }
    }

    /// The message of this error, as diagnostics show it.
    pub fn message(&self) -> (text: String)
        ensures
            text@ == message_of(self@),
    {
        match self {
            ImpError::ImportLookup { name } => {
                "No such frozen object named ".to_owned().concat(name.as_str())
            },
            ImpError::Usage => "global import lock not held".to_owned(),
        }
    }
}

/// The message of a lookup failure names the module that was asked for.
pub proof fn lemma_lookup_message_names_module(name: Seq<char>)
    ensures
        occurs_in(name, message_of(ImpErrorView::ImportLookup { name })),
{
    let start = "No such frozen object named "@.len() as int;
    let text = message_of(ImpErrorView::ImportLookup { name });
    assert(text.subrange(start, start + name.len()) == name);
}

} // verus!
