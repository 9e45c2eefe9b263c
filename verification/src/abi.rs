//! The tagged values that cross the boundary between host and guest.
//!
//! The guest reads a fallible result as a payload followed by one
//! discriminant byte, and it expects that byte even where a tag union has a
//! single variant. The types here can be built through their constructors
//! only, so the byte always agrees with the payload.

use vstd::prelude::*;

verus! {

/// The discriminant byte of a failure.
pub const ERR_DISCRIMINANT: u8 = 0;

/// The discriminant byte of a success.
pub const OK_DISCRIMINANT: u8 = 1;

/// The discriminant byte of a tag union with one variant.
pub const SINGLE_TAG_DISCRIMINANT: u8 = 0;

/// The payload of a [`RocTry`]: one of the two shapes that share its storage.
pub enum RocTryPayload<T, E> {
    Success(T),
    Failure(E),
}

/// The outcome of a fallible operation as the guest reads it: a payload and
/// the discriminant byte that says which of its two shapes is there.
pub struct RocTry<T, E> {
    payload: RocTryPayload<T, E>,
    discriminant: u8,
}

impl<T, E> View for RocTry<T, E> {
    type V = Result<T, E>;

    closed spec fn view(&self) -> Result<T, E> {
        match self.payload {
            RocTryPayload::Success(value) => Ok(value),
            RocTryPayload::Failure(value) => Err(value),
        }
    }
}

impl<T, E> RocTry<T, E> {
    #[verifier::type_invariant]
    spec fn well_formed(self) -> bool {
        self == Self::encode(self@)
    }

    /// The encoding of an outcome.
    pub closed spec fn encode(outcome: Result<T, E>) -> Self {
        match outcome {
            Ok(value) => RocTry { payload: RocTryPayload::Success(value), discriminant: OK_DISCRIMINANT },
            Err(value) => RocTry {
                payload: RocTryPayload::Failure(value),
                discriminant: ERR_DISCRIMINANT,
            },
        }
    }

    /// The discriminant byte.
    pub closed spec fn discriminant_spec(&self) -> u8 {
        self.discriminant
    }

    /// Decoding an encoded outcome gives the outcome back, and the
    /// discriminant byte is 1 for a success and 0 for a failure.
    pub proof fn lemma_round_trip(outcome: Result<T, E>)
        ensures
            Self::encode(outcome)@ == outcome,
            Self::encode(outcome).discriminant() == (if outcome is Ok {
                OK_DISCRIMINANT
            } else {
                ERR_DISCRIMINANT
            }),
    {
    }

    /// An encoding is determined by what it decodes to.
    pub proof fn lemma_encode_is_injective(a: Result<T, E>, b: Result<T, E>)
        requires
            Self::encode(a) == Self::encode(b),
        ensures
            a == b,
    {
        Self::lemma_round_trip(a);
        Self::lemma_round_trip(b);
    }

    /// A success.
    pub fn ok(value: T) -> (r: Self)
        ensures
            r == Self::encode(Ok(value)),
            r@ == Ok::<T, E>(value),
            r.discriminant() == OK_DISCRIMINANT,
    {
        RocTry { payload: RocTryPayload::Success(value), discriminant: OK_DISCRIMINANT }
    }

    /// A failure.
    pub fn err(value: E) -> (r: Self)
        ensures
            r == Self::encode(Err(value)),
            r@ == Err::<T, E>(value),
            r.discriminant() == ERR_DISCRIMINANT,
    {
        RocTry { payload: RocTryPayload::Failure(value), discriminant: ERR_DISCRIMINANT }
    }

    /// The discriminant byte: 1 for a success, 0 for a failure.
    #[verifier::when_used_as_spec(discriminant_spec)]
    pub fn discriminant(&self) -> (d: u8)
        ensures
            d == self.discriminant_spec(),
            d == (if self@ is Ok {
                OK_DISCRIMINANT
            } else {
                ERR_DISCRIMINANT
            }),
    {
        proof {
            use_type_invariant(self);
        }
        self.discriminant
    }

    /// Whether the payload is that of a success.
    pub fn is_ok(&self) -> (b: bool)
        ensures
            b == (self@ is Ok),
    {
        proof {
            use_type_invariant(self);
        }
        self.discriminant == OK_DISCRIMINANT
    }

    /// The payload, by reference.
    pub fn as_result(&self) -> (r: Result<&T, &E>)
        ensures
            match r {
                Ok(value) => self@ == Ok::<T, E>(*value),
                Err(value) => self@ == Err::<T, E>(*value),
            },
    {
        match &self.payload {
            RocTryPayload::Success(value) => Ok(value),
            RocTryPayload::Failure(value) => Err(value),
        }
    }

    /// The outcome that was encoded.
    pub fn into_result(self) -> (r: Result<T, E>)
        ensures
            r == self@,
    {
        match self.payload {
            RocTryPayload::Success(value) => Ok(value),
            RocTryPayload::Failure(value) => Err(value),
        }
    }
}

/// A tag union with one variant. The guest still expects the discriminant
/// byte after the payload, and the byte is always 0.
pub struct RocSingleTagWrapper<T> {
    payload: T,
    discriminant: u8,
}

impl<T> View for RocSingleTagWrapper<T> {
    type V = T;

    closed spec fn view(&self) -> T {
        self.payload
    }
}

impl<T> RocSingleTagWrapper<T> {
    #[verifier::type_invariant]
    spec fn well_formed(self) -> bool {
        self.discriminant == SINGLE_TAG_DISCRIMINANT
    }

    /// The wrapper around a payload.
    pub closed spec fn wrap(payload: T) -> Self {
        RocSingleTagWrapper { payload, discriminant: SINGLE_TAG_DISCRIMINANT }
    }

    /// The discriminant byte.
    pub closed spec fn discriminant_spec(&self) -> u8 {
        self.discriminant
    }

    /// Reading a wrapped payload gives the payload back, and the
    /// discriminant byte is 0.
    pub proof fn lemma_round_trip(payload: T)
        ensures
            Self::wrap(payload)@ == payload,
            Self::wrap(payload).discriminant() == SINGLE_TAG_DISCRIMINANT,
    {
    }

    /// Wraps a payload.
    pub fn new(payload: T) -> (r: Self)
        ensures
            r == Self::wrap(payload),
            r@ == payload,
            r.discriminant() == SINGLE_TAG_DISCRIMINANT,
    {
        RocSingleTagWrapper { payload, discriminant: SINGLE_TAG_DISCRIMINANT }
    }

    /// The discriminant byte, which is 0.
    #[verifier::when_used_as_spec(discriminant_spec)]
    pub fn discriminant(&self) -> (d: u8)
        ensures
            d == self.discriminant_spec(),
            d == SINGLE_TAG_DISCRIMINANT,
    {
        proof {
            use_type_invariant(self);
        }
        self.discriminant
    }

    /// The payload, by reference.
    pub fn payload(&self) -> (payload: &T)
        ensures
            *payload == self@,
    {
        &self.payload
    }

    /// The payload.
    pub fn into_payload(self) -> (payload: T)
        ensures
            payload == self@,
    {
        self.payload
    }
}

/// What a path names. The variants stand in alphabetical order, which is the
/// order of their discriminants.
#[derive(Clone, Copy, PartialEq, Eq, Structural, Debug)]
pub enum PathType {
    IsDir,
    IsFile,
    IsSymLink,
}

impl PathType {
    /// The discriminant byte of the variant.
    pub open spec fn discriminant_spec(&self) -> u8 {
        match self {
            PathType::IsDir => 0,
            PathType::IsFile => 1,
            PathType::IsSymLink => 2,
        }
    }

    /// The discriminant byte of the variant.
    #[verifier::when_used_as_spec(discriminant_spec)]
    pub fn discriminant(&self) -> (d: u8)
        ensures
            d == self.discriminant_spec(),
    {
        match self {
            PathType::IsDir => 0,
            PathType::IsFile => 1,
            PathType::IsSymLink => 2,
        }
    }

    /// What a path names, from what the platform says of it: a symbolic link
    /// where it is one, whatever it points to; else a directory where it is
    /// one; else a file.
    pub open spec fn classify_spec(is_symlink: bool, is_dir: bool) -> PathType {
        if is_symlink {
            PathType::IsSymLink
        } else if is_dir {
            PathType::IsDir
        } else {
            PathType::IsFile
        }
    }

    /// What a path names, from what the platform says of it.
    #[verifier::when_used_as_spec(classify_spec)]
    pub fn classify(is_symlink: bool, is_dir: bool) -> (path_type: PathType)
        ensures
            path_type == Self::classify_spec(is_symlink, is_dir),
    {
        if is_symlink {
            PathType::IsSymLink
        } else if is_dir {
            PathType::IsDir
        } else {
            PathType::IsFile
        }
    }
}

} // verus!
