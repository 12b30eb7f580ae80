//! Sticker creation payload and its builder.
use vstd::prelude::*;
use vstd::std_specs::convert::IntoSpec;

verus! {

/// Payload for creating a sticker.
#[derive(Debug, Clone, Default)]
pub struct CreateSticker {
    pub name: String,
    pub description: String,
    pub tags: String,
}

/// Builder for creating a Sticker.
#[derive(Debug, Clone)]
pub struct CreateStickerBuilder {
    params: CreateSticker,
}

impl View for CreateStickerBuilder {
    type V = CreateSticker;

    /// The payload built so far.
    closed spec fn view(&self) -> CreateSticker {
        self.params
    }
}

impl CreateStickerBuilder {
    /// Create a new CreateStickerBuilder.
    pub fn new<T: Into<String>, U: Into<String>, V: Into<String>>(name: T, description: U, tags: V) -> (r: Self)
        ensures
            T::obeys_into_spec() && U::obeys_into_spec() && V::obeys_into_spec() ==> r@ == (CreateSticker {
                name: name.into_spec(),
                description: description.into_spec(),
                tags: tags.into_spec(),
            }),
            r@ == (CreateSticker { name: r@.name, description: r@.description, tags: r@.tags }),
    {
        CreateStickerBuilder {
            params: CreateSticker {
                name: name.into(),
                description: description.into(),
                tags: tags.into(),
            },
        }
    }

    /// Build the CreateSticker payload.
    pub fn build(self) -> (r: CreateSticker)
        ensures
            r == self@,
    {
        self.params
    }
}

} // verus!
