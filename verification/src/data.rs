//! The contract every loadable data type satisfies, plus the error values
//! that the resource lifecycle carries.

use vstd::prelude::*;

verus! {

/// A type-erased description of why a load failed.
///
/// The failure is captured as a plain message so that it can be shared with
/// every current and future awaiter of the failed resource.
pub struct LoadError {
    message: String,
}

impl View for LoadError {
    type V = Seq<char>;

    closed spec fn view(&self) -> Seq<char> {
        self.message@
    }
}

impl Clone for LoadError {
    fn clone(&self) -> (result: Self)
        ensures
            result@ == self@,
    {
        LoadError { message: self.message.clone() }
    }
}

impl LoadError {
    /// Captures a failure described by `message`.
    pub fn new(message: String) -> (result: Self)
        ensures
            result@ == message@,
    {
        LoadError { message }
    }

    /// Captures the message of any error value satisfying [`ResourceLoadError`].
    pub fn from_error<E: ResourceLoadError>(error: &E) -> (result: Self) {
        LoadError { message: error.message() }
    }

    /// The captured failure message.
    pub fn message(&self) -> (message: &String)
        ensures
            message@ == self@,
    {
        &self.message
    }
}

/// A trait for values that describe a resource load failure.
pub trait ResourceLoadError {
    /// A human-readable description of the failure.
    fn message(&self) -> String;
}

/// Why a request to save resource data was not carried out.
pub struct SaveError {
    message: String,
}

impl View for SaveError {
    type V = Seq<char>;

    closed spec fn view(&self) -> Seq<char> {
        self.message@
    }
}

impl SaveError {
    /// The error reported by data types that do not support saving.
    pub fn not_supported() -> (result: Self)
        ensures
            result@ == "Saving is not supported!"@,
    {
        SaveError { message: String::from_str("Saving is not supported!") }
    }

    /// A save failure described by `message`.
    pub fn new(message: String) -> (result: Self)
        ensures
            result@ == message@,
    {
        SaveError { message }
    }

    /// The description of the failure.
    pub fn message(&self) -> (message: &String)
        ensures
            message@ == self@,
    {
        &self.message
    }
}

/// The capability set required of any loadable data type: a readable and
/// settable path, a stable type tag, and an embedded-or-file-backed flag.
/// Saving to an external format is optional and unsupported by default.
///
/// Structured persistence of loaded data into the host engine's own archive
/// format is a capability of the host's reflection and serialization layer,
/// not of this contract: [`ResourceData::save`] covers only the optional
/// type-specific external file format.
pub trait ResourceData: Sized {
    /// The tag identifying the concrete type of data held in `self`.
    spec fn spec_type_tag(&self) -> u64;

    /// The path the data was (or will be) loaded from.
    spec fn spec_path(&self) -> Seq<char>;

    /// Whether the data was generated procedurally rather than loaded from a file.
    spec fn spec_is_embedded(&self) -> bool;

    /// Returns the tag identifying the concrete type of data held in `self`.
    fn type_tag(&self) -> (tag: u64)
        ensures
            tag == self.spec_type_tag(),
    ;

    /// Returns the path of the data.
    fn path(&self) -> (path: &String)
        ensures
            path@ == self.spec_path(),
    ;

    /// Replaces the path of the data, leaving its tag, its embedded flag and
    /// its content untouched.
    fn set_path(&mut self, new_path: String)
        ensures
            final(self).spec_path() == new_path@,
            final(self).spec_type_tag() == old(self).spec_type_tag(),
            final(self).spec_is_embedded() == old(self).spec_is_embedded(),
    ;

    /// Returns true if the data was generated procedurally, not read from a file.
    fn is_embedded(&self) -> (embedded: bool)
        ensures
            embedded == self.spec_is_embedded(),
    ;

    /// Whether the type overrides [`ResourceData::save`] with a saving
    /// routine of its own. Types that keep the default leave this false.
    open spec fn spec_save_supported() -> bool {
        false
    }

    /// Saves the data to a file at `path` in a type-specific external format.
    /// Data types that have no such format keep this default, which changes
    /// nothing and reports, recoverably, that saving is unsupported.
    fn save(&mut self, path: &String) -> (result: Result<(), SaveError>)
        ensures
            !Self::spec_save_supported() ==> {
                &&& *final(self) == *old(self)
                &&& result matches Err(error) && error@ == "Saving is not supported!"@
            },
    {
        Err(SaveError::not_supported())
    }
}

/// The extra capabilities of a concrete data type that can be erased into (and
/// recovered from) the shared type-erased representation `Erased`: a tag fixed
/// for the whole type, a default value, and a checked downcast.
pub trait TypedResourceData: ResourceData {
    /// The type-erased representation this type can be stored as.
    type Erased: ResourceData;

    /// The tag assigned to this concrete type.
    spec fn spec_type_tag_of() -> u64;

    /// The type-erased image of `self`.
    spec fn spec_erase(self) -> Self::Erased;

    /// The typed value recovered from an erased one, when the tags agree.
    spec fn spec_downcast(erased: Self::Erased) -> Option<Self>;

    /// Every value of the type carries the type's own tag.
    proof fn lemma_tag_fixed(&self)
        ensures
            self.spec_type_tag() == Self::spec_type_tag_of(),
    ;

    /// Erasing preserves the tag, the path and the embedded flag, and is
    /// undone exactly by the downcast.
    proof fn lemma_erase_roundtrip(self)
        ensures
            Self::spec_downcast(self.spec_erase()) == Some(self),
            self.spec_erase().spec_type_tag() == Self::spec_type_tag_of(),
            self.spec_erase().spec_path() == self.spec_path(),
            self.spec_erase().spec_is_embedded() == self.spec_is_embedded(),
    ;

    /// The downcast succeeds exactly on erased values carrying this type's
    /// tag, and is undone exactly by erasure.
    proof fn lemma_downcast_tag(erased: Self::Erased)
        ensures
            (Self::spec_downcast(erased) is Some) <==> (erased.spec_type_tag()
                == Self::spec_type_tag_of()),
            Self::spec_downcast(erased) matches Some(value) ==> value.spec_erase() == erased,
    ;

    /// Returns the tag assigned to this concrete type.
    fn type_tag_of() -> (tag: u64)
        ensures
            tag == Self::spec_type_tag_of(),
    ;

    /// Returns the default value for this type: a placeholder with an empty
    /// path that was never loaded from a file.
    fn default_data() -> (data: Self)
        ensures
            data.spec_path() == Seq::<char>::empty(),
            data.spec_is_embedded(),
    ;

    /// Erases `self` into the shared representation.
    fn erase(self) -> (erased: Self::Erased)
        ensures
            erased == self.spec_erase(),
    ;

    /// Borrows the typed value held in `erased`, if the tags agree.
    fn downcast_ref(erased: &Self::Erased) -> (result: Option<&Self>)
        ensures
            match result {
                Some(value) => Self::spec_downcast(*erased) == Some(*value),
                None => Self::spec_downcast(*erased) is None,
            },
    ;

    /// Recovers the typed value held in `erased`, or returns `erased`
    /// unchanged if the tags disagree.
    fn downcast(erased: Self::Erased) -> (result: Result<Self, Self::Erased>)
        ensures
            match result {
                Ok(value) => Self::spec_downcast(erased) == Some(value),
                Err(unchanged) => unchanged == erased && Self::spec_downcast(erased) is None,
            },
    ;
}

} // verus!
