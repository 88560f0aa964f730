//! Strongly typed identifier values: a kind is a type implementing
//! [`PrefixedId`], and [`TypedId`] binds an identifier string to its kind so
//! that identifiers of different kinds can never be mixed up.

use vstd::prelude::*;

use core::marker::PhantomData;

use crate::engine::Id;
use crate::engine::accepted_by;
use crate::engine::expected_desc;
use crate::engine::is_id_char;
use crate::engine::prefix_views;
use crate::engine::str_eq;
use crate::engine::tagged;
use crate::error::ParseIdError;

verus! {

/// A kind of identifier: a display name and the prefixes its string forms
/// may carry. The primary prefix comes first; the rest are legacy aliases,
/// accepted on parse but never used by generation.
pub trait PrefixedId {
    /// The accepted prefixes, primary first, each at most 4 characters.
    spec fn spec_prefixes() -> Seq<Seq<char>>;

    /// The display name a failed parse reports.
    spec fn spec_type_name() -> Seq<char>;

    /// Every kind has a primary prefix, and no prefix is longer than 4
    /// characters.
    proof fn prefixes_wf()
        ensures
            Self::spec_prefixes().len() >= 1,
            forall|i: int|
                0 <= i < Self::spec_prefixes().len() ==> (
                #[trigger] Self::spec_prefixes()[i]).len() <= 4,
    ;

    /// The accepted prefixes as strings, primary first.
    fn accepted_prefixes() -> (ps: Vec<String>)
        ensures
            prefix_views(ps@) == Self::spec_prefixes(),
    ;

    /// The display name as a string.
    fn display_name() -> (n: String)
        ensures
            n@ == Self::spec_type_name(),
    ;

    /// Return the prefix that generation uses.
    fn id_prefix() -> (p: String)
        ensures
            p@ == Self::spec_prefixes()[0],
    ;

    /// Generate a new identifier string under the primary prefix.
    fn new_id() -> (r: String)
        ensures
            tagged(r@, Self::spec_prefixes()[0]),
            accepted_by(r@, Self::spec_prefixes()),
            r@.len() == Self::spec_prefixes()[0].len() + 22,
            forall|i: int|
                Self::spec_prefixes()[0].len() < i < r@.len() ==> is_id_char(#[trigger] r@[i]),
    {
        proof {
            Self::prefixes_wf();
        }
        let p = Self::id_prefix();
        let r = Id::generate(p.as_str());
        proof {
            assert(tagged(r@, Self::spec_prefixes()[0]));
        }
        r
    }
}

/// An immutable identifier value of kind `T`. It holds the full canonical
/// string form, which always starts with one of the kind's accepted
/// prefixes followed by `_`.
#[derive(Debug)]
#[verifier::reject_recursive_types(T)]
pub struct TypedId<T: PrefixedId> {
    raw: String,
    kind: PhantomData<T>,
}

impl<T: PrefixedId> View for TypedId<T> {
    type V = Seq<char>;

    closed spec fn view(&self) -> Seq<char> {
        self.raw@
    }
}

impl<T: PrefixedId> TypedId<T> {
    /// The value's invariant: its string form carries one of the kind's
    /// accepted tags.
    pub open spec fn wf(self) -> bool {
        accepted_by(self@, T::spec_prefixes())
    }

    /// Mint a fresh identifier: the kind's primary prefix, `_`, and a
    /// random 21-character suffix.
    pub fn new() -> (r: Self)
        ensures
            r.wf(),
            tagged(r@, T::spec_prefixes()[0]),
            r@.len() == T::spec_prefixes()[0].len() + 22,
            forall|i: int|
                T::spec_prefixes()[0].len() < i < r@.len() ==> is_id_char(#[trigger] r@[i]),
    {
        let raw = T::new_id();
        TypedId { raw, kind: PhantomData }
    }

    /// Reconstruct an identifier from a string. This succeeds exactly when
    /// the string starts with one of the kind's accepted prefixes followed
    /// by `_`; the string is kept unchanged, so an alias prefix is never
    /// rewritten. On failure the error names the kind and its accepted
    /// prefixes.
    pub fn parse(s: &str) -> (r: Result<Self, ParseIdError>)
        ensures
            match r {
                Ok(v) => accepted_by(s@, T::spec_prefixes()) && v@ == s@ && v.wf(),
                Err(e) => {
                    &&& !accepted_by(s@, T::spec_prefixes())
                    &&& e.typename@ == T::spec_type_name()
                    &&& e.expected@ == expected_desc(T::spec_prefixes())
                },
            },
    {
        let prefixes = T::accepted_prefixes();
        let name = T::display_name();
        match Id::parse(s, &prefixes, name.as_str()) {
            Ok(raw) => Ok(TypedId { raw, kind: PhantomData }),
            Err(e) => Err(e),
        }
    }

    /// Extracts a string slice containing the entire id.
    pub fn as_str(&self) -> (r: &str)
        ensures
            r@ == self@,
    {
        self.raw.as_str()
    }

    /// The canonical string form, unchanged: rendering is total and exact.
    pub fn render(&self) -> (r: String)
        ensures
            r@ == self@,
    {
        self.raw.clone()
    }

    /// Compare against a bare string: true exactly when the canonical form
    /// equals it character for character.
    pub fn eq_str(&self, other: &str) -> (b: bool)
        ensures
            b == (self@ == other@),
    {
        str_eq(self.raw.as_str(), other)
    }
}

impl<T: PrefixedId> Clone for TypedId<T> {
    /// Cloning keeps the string form.
    fn clone(&self) -> (r: Self)
        ensures
            r@ == self@,
    {
        TypedId { raw: self.raw.clone(), kind: PhantomData }
    }
}

impl<T: PrefixedId> PartialEq for TypedId<T> {
    /// Two values of one kind are equal exactly when their string forms are.
    fn eq(&self, other: &Self) -> bool {
        self.raw == other.raw
    }
}

impl<T: PrefixedId> vstd::std_specs::cmp::PartialEqSpecImpl for TypedId<T> {
    open spec fn obeys_eq_spec() -> bool {
        true
    }

    open spec fn eq_spec(&self, other: &Self) -> bool {
        self@ == other@
    }
}

impl<T: PrefixedId> Default for TypedId<T> {
    /// The default value is a freshly minted identifier.
    fn default() -> (r: Self)
        ensures
            r.wf(),
            tagged(r@, T::spec_prefixes()[0]),
    {
        TypedId::new()
    }
}

impl<T: PrefixedId> TypedId<T> {
    /// Encode for a nullable text column: absence stays absence — never an
    /// empty string — and a value is stored as its canonical string form.
    pub fn encode_column(v: Option<TypedId<T>>) -> (r: Option<String>)
        ensures
            v is None <==> r is None,
            v is Some ==> r is Some && r->0@ == v->0@,
    {
        match v {
            None => None,
            Some(id) => Some(id.raw),
        }
    }

    /// Decode from a nullable text column: NULL reads back as absence, and
    /// a stored string is reconstructed through `parse`, surfacing its
    /// error.
    pub fn decode_column(c: Option<String>) -> (r: Result<Option<TypedId<T>>, ParseIdError>)
        ensures
            match c {
                None => r is Ok && r->Ok_0 is None,
                Some(s) => match r {
                    Ok(v) => accepted_by(s@, T::spec_prefixes()) && v is Some && v->0@ == s@
                        && v->0.wf(),
                    Err(e) => {
                        &&& !accepted_by(s@, T::spec_prefixes())
                        &&& e.typename@ == T::spec_type_name()
                        &&& e.expected@ == expected_desc(T::spec_prefixes())
                    },
                },
            },
    {
        match c {
            None => Ok(None),
            Some(s) => match TypedId::<T>::parse(s.as_str()) {
                Ok(v) => Ok(Some(v)),
                Err(e) => Err(e),
            },
        }
    }

    /// Identifiers are never produced from a numeric surrogate: every call
    /// fails, naming the kind.
    pub fn from_numeric(_n: u64) -> (r: Result<TypedId<T>, ParseIdError>)
        ensures
            r is Err,
            r->Err_0.typename@ == T::spec_type_name(),
            r->Err_0.expected@ == "id built from a string, never from a number"@,
    {
        Err(
            ParseIdError {
                typename: T::display_name(),
                expected: String::from_str("id built from a string, never from a number"),
            },
        )
    }
}

/// Round-trip law at the typed level: a string with the shape `new` mints —
/// the kind's primary prefix, then `_` — is exactly what `parse` accepts
/// and returns unchanged, so `parse(render(v))` reconstructs `v`.
pub proof fn lemma_typed_round_trip<T: PrefixedId>(generated: Seq<char>)
    requires
        tagged(generated, T::spec_prefixes()[0]),
    ensures
        crate::engine::spec_parse(generated, T::spec_prefixes()) == Some(generated),
{
    T::prefixes_wf();
    crate::engine::lemma_round_trip(generated, T::spec_prefixes(), 0);
}

} // verus!
