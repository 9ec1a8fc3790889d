//! Built-in sample resource kinds: a small, concrete data model that shows
//! how loadable types satisfy the data contract, and the shared type-erased
//! representation they are stored as.

use vstd::prelude::*;

use crate::data::ResourceData;
use crate::data::TypedResourceData;

verus! {

/// The tag assigned to [`AnimationData`].
pub const ANIMATION_RESOURCE_TAG: u64 = 1;

/// The tag assigned to [`TextureData`].
pub const TEXTURE_RESOURCE_TAG: u64 = 2;

/// A keyframe animation track, file-backed or procedurally built.
#[derive(Clone, Debug, PartialEq, Eq)]
pub struct AnimationData {
    /// The path the animation was (or will be) loaded from.
    pub path: String,
    /// True if the animation was built procedurally, not read from a file.
    pub embedded: bool,
    /// The serialized animation definition.
    pub definition: Vec<u8>,
}

/// A rectangular texture, file-backed or procedurally built.
#[derive(Clone, Debug, PartialEq, Eq)]
pub struct TextureData {
    /// The path the texture was (or will be) loaded from.
    pub path: String,
    /// True if the texture was built procedurally, not read from a file.
    pub embedded: bool,
    /// The raw pixel bytes.
    pub pixels: Vec<u8>,
}

/// The shared type-erased representation of the sample resource kinds: what
/// an untyped container stores, one variant per concrete type.
#[derive(Clone, Debug, PartialEq, Eq)]
pub enum AnyData {
    /// An erased [`AnimationData`].
    Animation(AnimationData),
    /// An erased [`TextureData`].
    Texture(TextureData),
}

impl ResourceData for AnimationData {
    open spec fn spec_type_tag(&self) -> u64 {
        ANIMATION_RESOURCE_TAG
    }

    open spec fn spec_path(&self) -> Seq<char> {
        self.path@
    }

    open spec fn spec_is_embedded(&self) -> bool {
        self.embedded
    }

    fn type_tag(&self) -> u64 {
        ANIMATION_RESOURCE_TAG
    }

    fn path(&self) -> &String {
        &self.path
    }

    fn set_path(&mut self, new_path: String) {
        self.path = new_path;
    }

    fn is_embedded(&self) -> bool {
        self.embedded
    }
}

impl TypedResourceData for AnimationData {
    type Erased = AnyData;

    open spec fn spec_type_tag_of() -> u64 {
        ANIMATION_RESOURCE_TAG
    }

    open spec fn spec_erase(self) -> AnyData {
        AnyData::Animation(self)
    }

    open spec fn spec_downcast(erased: AnyData) -> Option<Self> {
        match erased {
            AnyData::Animation(animation) => Some(animation),
            _ => None,
        }
    }

    proof fn lemma_tag_fixed(&self) {
    }

    proof fn lemma_erase_roundtrip(self) {
    }

    proof fn lemma_downcast_tag(erased: AnyData) {
    }

    fn type_tag_of() -> u64 {
        ANIMATION_RESOURCE_TAG
    }

    fn default_data() -> Self {
        AnimationData { path: String::new(), embedded: true, definition: Vec::new() }
    }

    fn erase(self) -> AnyData {
        AnyData::Animation(self)
    }

    fn downcast_ref(erased: &AnyData) -> Option<&Self> {
        match erased {
            AnyData::Animation(animation) => Some(animation),
            _ => None,
        }
    }

    fn downcast(erased: AnyData) -> Result<Self, AnyData> {
        match erased {
            AnyData::Animation(animation) => Ok(animation),
            other => Err(other),
        }
    }
}

impl Default for AnimationData {
    /// An empty, procedurally built animation with no path.
    fn default() -> (data: Self)
        ensures
            data.spec_path() == Seq::<char>::empty(),
            data.spec_is_embedded(),
            data.definition@ == Seq::<u8>::empty(),
    {
        AnimationData { path: String::new(), embedded: true, definition: Vec::new() }
    }
}

impl ResourceData for TextureData {
    open spec fn spec_type_tag(&self) -> u64 {
        TEXTURE_RESOURCE_TAG
    }

    open spec fn spec_path(&self) -> Seq<char> {
        self.path@
    }

    open spec fn spec_is_embedded(&self) -> bool {
        self.embedded
    }

    fn type_tag(&self) -> u64 {
        TEXTURE_RESOURCE_TAG
    }

    fn path(&self) -> &String {
        &self.path
    }

    fn set_path(&mut self, new_path: String) {
        self.path = new_path;
    }

    fn is_embedded(&self) -> bool {
        self.embedded
    }
}

impl TypedResourceData for TextureData {
    type Erased = AnyData;

    open spec fn spec_type_tag_of() -> u64 {
        TEXTURE_RESOURCE_TAG
    }

    open spec fn spec_erase(self) -> AnyData {
        AnyData::Texture(self)
    }

    open spec fn spec_downcast(erased: AnyData) -> Option<Self> {
        match erased {
            AnyData::Texture(texture) => Some(texture),
            _ => None,
        }
    }

    proof fn lemma_tag_fixed(&self) {
    }

    proof fn lemma_erase_roundtrip(self) {
    }

    proof fn lemma_downcast_tag(erased: AnyData) {
    }

    fn type_tag_of() -> u64 {
        TEXTURE_RESOURCE_TAG
    }

    fn default_data() -> Self {
        TextureData { path: String::new(), embedded: true, pixels: Vec::new() }
    }

    fn erase(self) -> AnyData {
        AnyData::Texture(self)
    }

    fn downcast_ref(erased: &AnyData) -> Option<&Self> {
        match erased {
            AnyData::Texture(texture) => Some(texture),
            _ => None,
        }
    }

    fn downcast(erased: AnyData) -> Result<Self, AnyData> {
        match erased {
            AnyData::Texture(texture) => Ok(texture),
            other => Err(other),
        }
    }
}

impl Default for TextureData {
    /// An empty, procedurally built texture with no path.
    fn default() -> (data: Self)
        ensures
            data.spec_path() == Seq::<char>::empty(),
            data.spec_is_embedded(),
            data.pixels@ == Seq::<u8>::empty(),
    {
        TextureData { path: String::new(), embedded: true, pixels: Vec::new() }
    }
}

impl ResourceData for AnyData {
    open spec fn spec_type_tag(&self) -> u64 {
        match self {
            AnyData::Animation(animation) => animation.spec_type_tag(),
            AnyData::Texture(texture) => texture.spec_type_tag(),
        }
    }

    open spec fn spec_path(&self) -> Seq<char> {
        match self {
            AnyData::Animation(animation) => animation.spec_path(),
            AnyData::Texture(texture) => texture.spec_path(),
        }
    }

    open spec fn spec_is_embedded(&self) -> bool {
        match self {
            AnyData::Animation(animation) => animation.spec_is_embedded(),
            AnyData::Texture(texture) => texture.spec_is_embedded(),
        }
    }

    fn type_tag(&self) -> u64 {
        match self {
            AnyData::Animation(animation) => animation.type_tag(),
            AnyData::Texture(texture) => texture.type_tag(),
        }
    }

    fn path(&self) -> &String {
        match self {
            AnyData::Animation(animation) => animation.path(),
            AnyData::Texture(texture) => texture.path(),
        }
    }

    fn set_path(&mut self, new_path: String) {
        match self {
            AnyData::Animation(animation) => animation.set_path(new_path),
            AnyData::Texture(texture) => texture.set_path(new_path),
        }
    }

    fn is_embedded(&self) -> bool {
        match self {
            AnyData::Animation(animation) => animation.is_embedded(),
            AnyData::Texture(texture) => texture.is_embedded(),
        }
    }
}

} // verus!
