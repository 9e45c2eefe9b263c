//! The closed set of error kinds that the guest knows, and the mapping of
//! platform errors onto it.

use crate::layout::{bytes_less, lemma_ascii_text_less, lemma_bytes_less_transitive};
use vstd::prelude::*;
use vstd::string::{to_string_from_display_ensures, StringExecFns};
use vstd::utf8::encode_utf8;

verus! {

/// The tag of an [`IOErr`]. The variants stand in alphabetical order, which
/// is the order of their discriminants.
#[derive(Clone, Copy, PartialEq, Eq, Structural, PartialOrd, Ord, Hash)]
pub enum IOErrTag {
    AlreadyExists,
    BrokenPipe,
    Interrupted,
    NotFound,
    Other,
    OutOfMemory,
    PermissionDenied,
    Unsupported,
}

impl IOErrTag {
    /// The discriminant byte of the tag.
    pub open spec fn discriminant_spec(&self) -> u8 {
        match self {
            IOErrTag::AlreadyExists => 0,
            IOErrTag::BrokenPipe => 1,
            IOErrTag::Interrupted => 2,
            IOErrTag::NotFound => 3,
            IOErrTag::Other => 4,
            IOErrTag::OutOfMemory => 5,
            IOErrTag::PermissionDenied => 6,
            IOErrTag::Unsupported => 7,
        }
    }

    /// The discriminant byte of the tag.
    #[verifier::when_used_as_spec(discriminant_spec)]
    pub fn discriminant(&self) -> (d: u8)
        ensures
            d == self.discriminant_spec(),
    {
        match self {
            IOErrTag::AlreadyExists => 0,
            IOErrTag::BrokenPipe => 1,
            IOErrTag::Interrupted => 2,
            IOErrTag::NotFound => 3,
            IOErrTag::Other => 4,
            IOErrTag::OutOfMemory => 5,
            IOErrTag::PermissionDenied => 6,
            IOErrTag::Unsupported => 7,
        }
    }

    /// The name of the tag as diagnostics print it.
    pub open spec fn debug_name_text(&self) -> Seq<char> {
        match self {
            IOErrTag::AlreadyExists => "IOErrTag::AlreadyExists"@,
            IOErrTag::BrokenPipe => "IOErrTag::BrokenPipe"@,
            IOErrTag::Interrupted => "IOErrTag::Interrupted"@,
            IOErrTag::NotFound => "IOErrTag::NotFound"@,
            IOErrTag::Other => "IOErrTag::Other"@,
            IOErrTag::OutOfMemory => "IOErrTag::OutOfMemory"@,
            IOErrTag::PermissionDenied => "IOErrTag::PermissionDenied"@,
            IOErrTag::Unsupported => "IOErrTag::Unsupported"@,
        }
    }

    /// The name of the tag as diagnostics print it.
    pub fn debug_name(&self) -> (name: &'static str)
        ensures
            name@ == self.debug_name_text(),
    {
        match self {
            IOErrTag::AlreadyExists => "IOErrTag::AlreadyExists",
            IOErrTag::BrokenPipe => "IOErrTag::BrokenPipe",
            IOErrTag::Interrupted => "IOErrTag::Interrupted",
            IOErrTag::NotFound => "IOErrTag::NotFound",
            IOErrTag::Other => "IOErrTag::Other",
            IOErrTag::OutOfMemory => "IOErrTag::OutOfMemory",
            IOErrTag::PermissionDenied => "IOErrTag::PermissionDenied",
            IOErrTag::Unsupported => "IOErrTag::Unsupported",
        }
    }
}

/// The discriminants of the tags follow the alphabetical order of their
/// names.
pub proof fn lemma_tags_are_alphabetical(a: IOErrTag, b: IOErrTag)
    requires
        a.discriminant() < b.discriminant(),
    ensures
        bytes_less(encode_utf8(a.debug_name_text()), encode_utf8(b.debug_name_text())),
    decreases b.discriminant() - a.discriminant(),
{
    let before = match b {
        IOErrTag::AlreadyExists | IOErrTag::BrokenPipe => IOErrTag::AlreadyExists,
        IOErrTag::Interrupted => IOErrTag::BrokenPipe,
        IOErrTag::NotFound => IOErrTag::Interrupted,
        IOErrTag::Other => IOErrTag::NotFound,
        IOErrTag::OutOfMemory => IOErrTag::Other,
        IOErrTag::PermissionDenied => IOErrTag::OutOfMemory,
        IOErrTag::Unsupported => IOErrTag::PermissionDenied,
    };
    reveal_strlit("IOErrTag::AlreadyExists");
    reveal_strlit("IOErrTag::BrokenPipe");
    reveal_strlit("IOErrTag::Interrupted");
    reveal_strlit("IOErrTag::NotFound");
    reveal_strlit("IOErrTag::Other");
    reveal_strlit("IOErrTag::OutOfMemory");
    reveal_strlit("IOErrTag::PermissionDenied");
    reveal_strlit("IOErrTag::Unsupported");
    let first_difference: int = if b == IOErrTag::OutOfMemory {
        11
    } else {
        10
    };
    lemma_ascii_text_less(before.debug_name_text(), b.debug_name_text(), first_difference);
    if a != before {
        lemma_tags_are_alphabetical(a, before);
        lemma_bytes_less_transitive(
            encode_utf8(a.debug_name_text()),
            encode_utf8(before.debug_name_text()),
            encode_utf8(b.debug_name_text()),
        );
    }
}

/// The kinds of platform error that have a tag of their own. Every other
/// kind is `Unclassified`.
#[derive(Clone, Copy, PartialEq, Eq, Structural, Debug)]
pub enum PlatformErrorKind {
    NotFound,
    PermissionDenied,
    AlreadyExists,
    BrokenPipe,
    Interrupted,
    Unsupported,
    OutOfMemory,
    Unclassified,
}

impl PlatformErrorKind {
    /// The tag that a platform error of this kind is reported under. The
    /// mapping is total: a kind without a tag of its own is `Other`.
    pub open spec fn tag_spec(&self) -> IOErrTag {
        match self {
            PlatformErrorKind::NotFound => IOErrTag::NotFound,
            PlatformErrorKind::PermissionDenied => IOErrTag::PermissionDenied,
            PlatformErrorKind::AlreadyExists => IOErrTag::AlreadyExists,
            PlatformErrorKind::BrokenPipe => IOErrTag::BrokenPipe,
            PlatformErrorKind::Interrupted => IOErrTag::Interrupted,
            PlatformErrorKind::Unsupported => IOErrTag::Unsupported,
            PlatformErrorKind::OutOfMemory => IOErrTag::OutOfMemory,
            PlatformErrorKind::Unclassified => IOErrTag::Other,
        }
    }

    /// The tag that a platform error of this kind is reported under.
    #[verifier::when_used_as_spec(tag_spec)]
    pub fn tag(&self) -> (tag: IOErrTag)
        ensures
            tag == self.tag_spec(),
    {
        match self {
            PlatformErrorKind::NotFound => IOErrTag::NotFound,
            PlatformErrorKind::PermissionDenied => IOErrTag::PermissionDenied,
            PlatformErrorKind::AlreadyExists => IOErrTag::AlreadyExists,
            PlatformErrorKind::BrokenPipe => IOErrTag::BrokenPipe,
            PlatformErrorKind::Interrupted => IOErrTag::Interrupted,
            PlatformErrorKind::Unsupported => IOErrTag::Unsupported,
            PlatformErrorKind::OutOfMemory => IOErrTag::OutOfMemory,
            PlatformErrorKind::Unclassified => IOErrTag::Other,
        }
    }
}

/// `std::io::Error`, carried through as an opaque value.
#[verifier::external_type_specification]
#[verifier::external_body]
pub struct ExIoError(std::io::Error);

/// The kind of a platform error: the variant of [`PlatformErrorKind`] named
/// like the `std::io::ErrorKind` of the error, or `Unclassified` where none
/// is.
pub uninterp spec fn io_error_kind(e: std::io::Error) -> PlatformErrorKind;

/// Calls `std::io::Error::kind` and hands the kind on as a
/// [`PlatformErrorKind`]: each of seven kinds as the variant of its name,
/// every other one as `Unclassified`. The contract gives the result a name
/// and claims nothing else of it.
#[verifier::external_body]
fn kind_of_io_error(e: &std::io::Error) -> (kind: PlatformErrorKind)
    ensures
        kind == io_error_kind(*e),
{
    match e.kind() {
        std::io::ErrorKind::NotFound => PlatformErrorKind::NotFound,
        std::io::ErrorKind::PermissionDenied => PlatformErrorKind::PermissionDenied,
        std::io::ErrorKind::AlreadyExists => PlatformErrorKind::AlreadyExists,
        std::io::ErrorKind::BrokenPipe => PlatformErrorKind::BrokenPipe,
        std::io::ErrorKind::Interrupted => PlatformErrorKind::Interrupted,
        std::io::ErrorKind::Unsupported => PlatformErrorKind::Unsupported,
        std::io::ErrorKind::OutOfMemory => PlatformErrorKind::OutOfMemory,
        _ => PlatformErrorKind::Unclassified,
    }
}

/// The text that the `Debug` form of a text prints: the text in quotes, with
/// its special characters escaped.
pub uninterp spec fn debug_quoted(text: Seq<char>) -> Seq<char>;

/// Formats a text with `{:?}`, which calls `<str as Debug>::fmt`. The
/// contract gives the result a name and claims nothing else of it.
#[verifier::external_body]
fn quote(text: &str) -> (quoted: String)
    ensures
        quoted@ == debug_quoted(text@),
{
    format!("{:?}", text)
}

/// An error as the guest reads it: a tag, and for `Other` a message.
pub struct IOErr {
    payload: Option<String>,
    tag: IOErrTag,
}

impl IOErr {
    #[verifier::type_invariant]
    spec fn well_formed(self) -> bool {
        (self.tag == IOErrTag::Other) <==> (self.payload is Some)
    }

    /// The tag of the error.
    pub closed spec fn tag_spec(&self) -> IOErrTag {
        self.tag
    }

    /// The message of the error: present for the tag `Other` and for no
    /// other tag.
    pub closed spec fn message_spec(&self) -> Option<Seq<char>> {
        match self.payload {
            Some(text) => Some(text@),
            None => None,
        }
    }

    /// An error with a tag that carries no message.
    pub fn new_simple(tag: IOErrTag) -> (r: Self)
        requires
            tag != IOErrTag::Other,
        ensures
            r.tag() == tag,
            r.message_spec() is None,
    {
        IOErr { payload: None, tag }
    }

    /// An error with the tag `Other` and a message.
    pub fn new_other(msg: &str) -> (r: Self)
        ensures
            r.tag() == IOErrTag::Other,
            r.message_spec() == Some(msg@),
    {
        IOErr { payload: Some(msg.to_owned()), tag: IOErrTag::Other }
    }

    /// The error with the tag `NotFound`.
    pub fn not_found() -> (r: Self)
        ensures
            r.tag() == IOErrTag::NotFound,
            r.message_spec() is None,
    {
        Self::new_simple(IOErrTag::NotFound)
    }

    /// The error with the tag `PermissionDenied`.
    pub fn permission_denied() -> (r: Self)
        ensures
            r.tag() == IOErrTag::PermissionDenied,
            r.message_spec() is None,
    {
        Self::new_simple(IOErrTag::PermissionDenied)
    }

    /// The error with the tag `AlreadyExists`.
    pub fn already_exists() -> (r: Self)
        ensures
            r.tag() == IOErrTag::AlreadyExists,
            r.message_spec() is None,
    {
        Self::new_simple(IOErrTag::AlreadyExists)
    }

    /// The tag of the error.
    #[verifier::when_used_as_spec(tag_spec)]
    pub fn tag(&self) -> (tag: IOErrTag)
        ensures
            tag == self.tag_spec(),
            (tag == IOErrTag::Other) <==> (self.message_spec() is Some),
    {
        proof {
            use_type_invariant(self);
        }
        self.tag
    }

    /// The message of the error, where it has one.
    pub fn message(&self) -> (message: Option<&str>)
        ensures
            match message {
                Some(text) => self.message_spec() == Some(text@),
                None => self.message_spec() is None,
            },
            (message is Some) <==> (self.tag() == IOErrTag::Other),
    {
        proof {
            use_type_invariant(self);
        }
        match &self.payload {
            Some(text) => Some(text.as_str()),
            None => None,
        }
    }

    /// The error for a platform error of the given kind. The message is kept
    /// where the kind has no tag of its own, and dropped otherwise.
    pub fn from_kind(kind: PlatformErrorKind, message: &str) -> (r: Self)
        ensures
            r.tag() == kind.tag(),
            r.message_spec() == (if kind.tag() == IOErrTag::Other {
                Some(message@)
            } else {
                None
            }),
    {
        match kind.tag() {
            IOErrTag::Other => Self::new_other(message),
            tag => Self::new_simple(tag),
        }
    }

    /// Whether this is the error that reports the platform error `e`: its
    /// tag is the one of the kind of `e`, and where that is `Other`, its
    /// message is the text that `e` displays as.
    pub open spec fn reports(&self, e: &std::io::Error) -> bool {
        &&& self.tag() == io_error_kind(*e).tag()
        &&& match self.message_spec() {
            Some(message) => self.tag() == IOErrTag::Other && exists|text: String|
                to_string_from_display_ensures::<std::io::Error>(e, text) && text@ == message,
            None => self.tag() != IOErrTag::Other,
        }
    }

    /// The error that reports a platform error.
    pub fn from_io_error(e: &std::io::Error) -> (r: Self)
        ensures
            r.reports(e),
    {
        let kind = kind_of_io_error(e);
        match kind {
            PlatformErrorKind::Unclassified => {
                let text = e.to_string();
                Self::from_kind(kind, text.as_str())
            },
            _ => Self::from_kind(kind, ""),
        }
    }

    /// The error as diagnostics print it: `IOErr::Other(..)` around the
    /// quoted message, or `IOErr::` and the name of the tag.
    pub fn debug_string(&self) -> (text: String)
        ensures
            text@ == match self.message_spec() {
                Some(message) => "IOErr::Other("@ + debug_quoted(message) + ")"@,
                None => "IOErr::"@ + self.tag().debug_name_text(),
            },
    {
        match self.message() {
            Some(message) => {
                let mut text = "IOErr::Other(".to_owned();
                text.append(quote(message).as_str());
                text.append(")");
                text
            },
            None => {
                let mut text = "IOErr::".to_owned();
                text.append(self.tag().debug_name());
                text
            },
        }
    }
}

impl Clone for IOErr {
    /// A copy with the same tag and, for `Other`, the same message.
    fn clone(&self) -> (r: Self)
        ensures
            r == *self,
    {
        proof {
            use_type_invariant(self);
        }
        match &self.payload {
            Some(text) => IOErr { payload: Some(text.clone()), tag: self.tag },
            None => IOErr { payload: None, tag: self.tag },
        }
    }
}

} // verus!
