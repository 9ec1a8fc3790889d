//! Reference-counted, lock-protected handles for loadable assets.
//!
//! A resource begins as a pending container holding the path it will be
//! loaded from, moves exactly once to a terminal state (loaded data, or a
//! load error), and notifies every registered waiter of that single
//! transition. Typed handles give statically checked access to the
//! type-erased data behind an untyped handle.

pub mod collect;
pub mod data;
pub mod formatted_text;
pub mod sample;
pub mod state;
pub mod text_box;
pub mod typed;
pub mod untyped;
pub use collect::ReflectNode;
pub use collect::UsedResourceSet;
pub use collect::collect_used_resources;
pub use data::LoadError;
pub use data::ResourceData;
pub use data::ResourceLoadError;
pub use data::SaveError;
pub use data::TypedResourceData;
pub use formatted_text::FormattedText;
pub use formatted_text::TextLine;
pub use sample::AnimationData;
pub use sample::AnyData;
pub use sample::TextureData;
pub use state::CommitError;
pub use state::PollOutcome;
pub use state::ResourceState;
pub use text_box::HorizontalDirection;
pub use text_box::Position;
pub use text_box::SelectionRange;
pub use text_box::TextBox;
pub use text_box::TextBoxBuilder;
pub use text_box::TextBoxKey;
pub use text_box::VerticalDirection;
pub use typed::Resource;
pub use typed::ResourceDataRef;
pub use typed::ResourceStateGuard;
pub use typed::ResourceStateRef;
pub use untyped::StateGuard;
pub use untyped::UntypedResource;
