//! Loading the certificates of a directory of trusted roots, one file after the other.
use vstd::prelude::*;

verus! {

/// Where Android keeps the roots that it trusts.
pub const ANDROID_CACERTS: &'static str = "/system/etc/security/cacerts";

/// What came of the last action.
#[derive(Clone, Copy, Debug, PartialEq, Eq)]
pub enum CaEvent<E> {
    /// The directory was opened, or not.
    Directory { opened: bool },
    /// The directory has no further entry.
    NoMoreEntries,
    /// The next entry could not be told.
    EntryUnreadable,
    /// The next entry is a file, or something else.
    Entry { is_file: bool },
    /// The text of the file was read, or not.
    File { read: bool },
    /// The text is a certificate, or not.
    Certificate { parsed: bool },
    /// The certificate was added to the store.
    Added,
    /// The store refused the certificate.
    Refused(E),
}

/// What to do next.
#[derive(Clone, Copy, Debug, PartialEq, Eq)]
pub enum CaAction<E> {
    /// Go to the next entry of the directory.
    NextEntry,
    /// Read the text of the entry.
    ReadFile,
    /// Parse the text as a certificate.
    ParseCertificate,
    /// Add the certificate to the store.
    AddCertificate,
    /// All is done.
    Finish,
    /// Give up with this error.
    Abort(E),
}

/// What to do next, given what came of the last action. Whatever is not a readable file with a
/// certificate is passed over, and only a store that refuses a certificate ends the work early.
pub open spec fn action_of<E>(event: CaEvent<E>) -> CaAction<E> {
    match event {
        CaEvent::Entry { is_file: true } => CaAction::ReadFile,
        CaEvent::File { read: true } => CaAction::ParseCertificate,
        CaEvent::Certificate { parsed: true } => CaAction::AddCertificate,
        CaEvent::Refused(e) => CaAction::Abort(e),
        CaEvent::Directory { opened: false } | CaEvent::NoMoreEntries => CaAction::Finish,
        _ => CaAction::NextEntry,
    }
}

/// Whether an event can come of an action.
pub open spec fn answers<E>(action: CaAction<E>, event: CaEvent<E>) -> bool {
    match action {
        CaAction::NextEntry => event is NoMoreEntries || event is EntryUnreadable || event is Entry,
        CaAction::ReadFile => event is File,
        CaAction::ParseCertificate => event is Certificate,
        CaAction::AddCertificate => event is Added || event is Refused,
        CaAction::Finish => false,
        CaAction::Abort(_) => false,
    }
}

/// Whether a series of events is one in which the directory is opened and each later event comes of
/// the action that the one before it called for.
pub open spec fn is_trace<E>(events: Seq<CaEvent<E>>) -> bool {
    &&& events.len() > 0
    &&& events[0] is Directory
    &&& forall|i: int|
        0 < i < events.len() ==> answers(action_of(events[i - 1]), #[trigger] events[i])
}

/// What to do next, given what came of the last action.
pub fn next_action<E>(event: CaEvent<E>) -> (action: CaAction<E>)
    ensures
        action == action_of(event),
{
    match event {
        CaEvent::Directory { opened } => if opened {
            CaAction::NextEntry
        } else {
            CaAction::Finish
        },
        CaEvent::NoMoreEntries => CaAction::Finish,
        CaEvent::EntryUnreadable => CaAction::NextEntry,
        CaEvent::Entry { is_file } => if is_file {
            CaAction::ReadFile
        } else {
            CaAction::NextEntry
        },
        CaEvent::File { read } => if read {
            CaAction::ParseCertificate
        } else {
            CaAction::NextEntry
        },
        CaEvent::Certificate { parsed } => if parsed {
            CaAction::AddCertificate
        } else {
            CaAction::NextEntry
        },
        CaEvent::Added => CaAction::NextEntry,
        CaEvent::Refused(e) => CaAction::Abort(e),
    }
}

/// Only an entry that is a file, could be read and holds a certificate has that certificate added.
pub proof fn law_only_certificate_files_are_added<E>(events: Seq<CaEvent<E>>, i: int)
    requires
        is_trace(events),
        0 <= i < events.len(),
        action_of(events[i]) is AddCertificate,
    ensures
        i >= 2,
        events[i - 2] == (CaEvent::Entry::<E> { is_file: true }),
        events[i - 1] == (CaEvent::File::<E> { read: true }),
        events[i] == (CaEvent::Certificate::<E> { parsed: true }),
{
    assert(answers(action_of(events[i - 1]), events[i]));
    assert(answers(action_of(events[i - 2]), events[i - 1]));
}

/// Every entry that is a file, could be read and holds a certificate has that certificate added.
pub proof fn law_every_certificate_file_is_added<E>(events: Seq<CaEvent<E>>, i: int)
    requires
        is_trace(events),
        0 <= i,
        i + 3 < events.len(),
        events[i] == (CaEvent::Entry::<E> { is_file: true }),
        events[i + 1] == (CaEvent::File::<E> { read: true }),
        events[i + 2] == (CaEvent::Certificate::<E> { parsed: true }),
    ensures
        events[i + 3] is Added || events[i + 3] is Refused,
{
    assert(answers(action_of(events[i + 2]), events[i + 3]));
}

/// The work ends early only with the error of a store that refused a certificate, and nothing
/// happens behind that.
pub proof fn law_refusal_ends_the_work<E>(events: Seq<CaEvent<E>>, i: int, error: E)
    requires
        is_trace(events),
        0 <= i < events.len(),
    ensures
        action_of(events[i]) == CaAction::Abort(error) <==> events[i] == CaEvent::Refused(error),
        events[i] is Refused ==> i + 1 == events.len(),
{
    if i + 1 < events.len() {
        assert(answers(action_of(events[i]), events[i + 1]));
    }
}

/// Whatever is no file, cannot be read or is no certificate is passed over, and so is what has been
/// added: the next entry is looked at, as it is once the directory is open.
pub proof fn law_other_entries_are_passed_over<E>(event: CaEvent<E>)
    ensures
        action_of(event) is NextEntry <==> {
            ||| event == (CaEvent::Directory::<E> { opened: true })
            ||| event is EntryUnreadable
            ||| event == (CaEvent::Entry::<E> { is_file: false })
            ||| event == (CaEvent::File::<E> { read: false })
            ||| event == (CaEvent::Certificate::<E> { parsed: false })
            ||| event is Added
        },
{
}

/// The work is done exactly when the directory has no further entry, or could not be opened.
pub proof fn law_work_ends_with_the_directory<E>(event: CaEvent<E>)
    ensures
        action_of(event) is Finish <==> event is NoMoreEntries || event == (
        CaEvent::Directory::<E> { opened: false }),
{
}

} // verus!
