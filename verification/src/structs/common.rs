//! Records shared by several kinds of entity.

use crate::json::{Json, JsonView};
use crate::names::lemma_attribute_names;
use crate::schema::{
    lemma_reads_required, read_required, required, with_required, write_required, DecodeError,
    DecodeErrorView, Schema,
};
use vstd::prelude::*;

verus! {

/// An image attached to an entity.
#[derive(Debug, PartialEq, Eq)]
pub struct Image {
    /// The number of the image.
    pub id: u32,
    /// The identifier of the image.
    pub uuid: String,
    /// What sort of entity this is; `type` on the wire.
    pub kind: String,
    pub attributes: ImageAttributes,
}

/// The model of an [`Image`].
pub struct ImageView {
    pub id: u32,
    pub uuid: Seq<char>,
    pub kind: Seq<char>,
    pub attributes: ImageAttributesView,
}

impl DeepView for Image {
    type V = ImageView;

    open spec fn deep_view(&self) -> ImageView {
        ImageView {
            id: self.id,
            uuid: self.uuid@,
            kind: self.kind@,
            attributes: self.attributes.deep_view(),
        }
    }
}

impl Schema for Image {
    open spec fn valid(value: ImageView) -> bool {
        true
    }

    #[verifier::opaque]
    open spec fn decoded(doc: JsonView) -> Result<ImageView, DecodeErrorView> {
        let id = required::<u32>(doc, "id"@);
        let uuid = required::<String>(doc, "uuid"@);
        let kind = required::<String>(doc, "kind"@);
        let attributes = required::<ImageAttributes>(doc, "attributes"@);
        if id is Err {
            Err(id->Err_0)
        } else if uuid is Err {
            Err(uuid->Err_0)
        } else if kind is Err {
            Err(kind->Err_0)
        } else if attributes is Err {
            Err(attributes->Err_0)
        } else {
            Ok(
                ImageView {
                    id: id->Ok_0,
                    uuid: uuid->Ok_0,
                    kind: kind->Ok_0,
                    attributes: attributes->Ok_0,
                },
            )
        }
    }

    #[verifier::opaque]
    open spec fn encoded(value: ImageView) -> JsonView {
        let members = Map::empty();
        let members = with_required::<u32>(members, "id"@, value.id);
        let members = with_required::<String>(members, "uuid"@, value.uuid);
        let members = with_required::<String>(members, "kind"@, value.kind);
        let members = with_required::<ImageAttributes>(members, "attributes"@, value.attributes);
        JsonView::Object(members)
    }

    fn decode(doc: &Json) -> (result: Result<Image, DecodeError>) {
        proof {
            reveal(<Image as Schema>::decoded);
        }
        let id = read_required::<u32>(doc, "id")?;
        let uuid = read_required::<String>(doc, "uuid")?;
        let kind = read_required::<String>(doc, "kind")?;
        let attributes = read_required::<ImageAttributes>(doc, "attributes")?;
        Ok(Image { id, uuid, kind, attributes })
    }

    fn encode(&self) -> (doc: Json) {
        proof {
            reveal(<Image as Schema>::encoded);
        }
        let doc = Json::object();
        let doc = write_required(doc, "id", &self.id);
        let doc = write_required(doc, "uuid", &self.uuid);
        let doc = write_required(doc, "kind", &self.kind);
        let doc = write_required(doc, "attributes", &self.attributes);
        doc
    }

    proof fn decoded_is_valid(doc: JsonView) {
    }

    proof fn encoded_decodes(value: ImageView) {
        reveal(<Image as Schema>::decoded);
        reveal(<Image as Schema>::encoded);
        lemma_attribute_names();
        let members = Self::encoded(value)->Object_0;
        lemma_reads_required::<u32>(members, "id"@, value.id);
        lemma_reads_required::<String>(members, "uuid"@, value.uuid);
        lemma_reads_required::<String>(members, "kind"@, value.kind);
        lemma_reads_required::<ImageAttributes>(members, "attributes"@, value.attributes);
    }
}

/// Where an image can be fetched in each of its sizes, and how it is meant
/// to be shown.
#[derive(Debug, PartialEq, Eq)]
pub struct ImageAttributes {
    pub thumb: String,
    pub small: String,
    pub medium: String,
    pub large: String,
    /// How the image lies, such as `landscape`.
    pub orientation: String,
    /// What the image is for, such as `cover` or `logo`.
    pub image_type: String,
}

/// The model of an [`ImageAttributes`].
pub struct ImageAttributesView {
    pub thumb: Seq<char>,
    pub small: Seq<char>,
    pub medium: Seq<char>,
    pub large: Seq<char>,
    pub orientation: Seq<char>,
    pub image_type: Seq<char>,
}

impl DeepView for ImageAttributes {
    type V = ImageAttributesView;

    open spec fn deep_view(&self) -> ImageAttributesView {
        ImageAttributesView {
            thumb: self.thumb@,
            small: self.small@,
            medium: self.medium@,
            large: self.large@,
            orientation: self.orientation@,
            image_type: self.image_type@,
        }
    }
}

impl Schema for ImageAttributes {
    open spec fn valid(value: ImageAttributesView) -> bool {
        true
    }

    #[verifier::opaque]
    open spec fn decoded(doc: JsonView) -> Result<ImageAttributesView, DecodeErrorView> {
        let thumb = required::<String>(doc, "thumb"@);
        let small = required::<String>(doc, "small"@);
        let medium = required::<String>(doc, "medium"@);
        let large = required::<String>(doc, "large"@);
        let orientation = required::<String>(doc, "orientation"@);
        let image_type = required::<String>(doc, "image_type"@);
        if thumb is Err {
            Err(thumb->Err_0)
        } else if small is Err {
            Err(small->Err_0)
        } else if medium is Err {
            Err(medium->Err_0)
        } else if large is Err {
            Err(large->Err_0)
        } else if orientation is Err {
            Err(orientation->Err_0)
        } else if image_type is Err {
            Err(image_type->Err_0)
        } else {
            Ok(
                ImageAttributesView {
                    thumb: thumb->Ok_0,
                    small: small->Ok_0,
                    medium: medium->Ok_0,
                    large: large->Ok_0,
                    orientation: orientation->Ok_0,
                    image_type: image_type->Ok_0,
                },
            )
        }
    }

    #[verifier::opaque]
    open spec fn encoded(value: ImageAttributesView) -> JsonView {
        let members = Map::empty();
        let members = with_required::<String>(members, "thumb"@, value.thumb);
        let members = with_required::<String>(members, "small"@, value.small);
        let members = with_required::<String>(members, "medium"@, value.medium);
        let members = with_required::<String>(members, "large"@, value.large);
        let members = with_required::<String>(members, "orientation"@, value.orientation);
        let members = with_required::<String>(members, "image_type"@, value.image_type);
        JsonView::Object(members)
    }

    fn decode(doc: &Json) -> (result: Result<ImageAttributes, DecodeError>) {
        proof {
            reveal(<ImageAttributes as Schema>::decoded);
        }
        let thumb = read_required::<String>(doc, "thumb")?;
        let small = read_required::<String>(doc, "small")?;
        let medium = read_required::<String>(doc, "medium")?;
        let large = read_required::<String>(doc, "large")?;
        let orientation = read_required::<String>(doc, "orientation")?;
        let image_type = read_required::<String>(doc, "image_type")?;
        Ok(ImageAttributes { thumb, small, medium, large, orientation, image_type })
    }

    fn encode(&self) -> (doc: Json) {
        proof {
            reveal(<ImageAttributes as Schema>::encoded);
        }
        let doc = Json::object();
        let doc = write_required(doc, "thumb", &self.thumb);
        let doc = write_required(doc, "small", &self.small);
        let doc = write_required(doc, "medium", &self.medium);
        let doc = write_required(doc, "large", &self.large);
        let doc = write_required(doc, "orientation", &self.orientation);
        let doc = write_required(doc, "image_type", &self.image_type);
        doc
    }

    proof fn decoded_is_valid(doc: JsonView) {
    }

    proof fn encoded_decodes(value: ImageAttributesView) {
        reveal(<ImageAttributes as Schema>::decoded);
        reveal(<ImageAttributes as Schema>::encoded);
        lemma_attribute_names();
        let members = Self::encoded(value)->Object_0;
        lemma_reads_required::<String>(members, "thumb"@, value.thumb);
        lemma_reads_required::<String>(members, "small"@, value.small);
        lemma_reads_required::<String>(members, "medium"@, value.medium);
        lemma_reads_required::<String>(members, "large"@, value.large);
        lemma_reads_required::<String>(members, "orientation"@, value.orientation);
        lemma_reads_required::<String>(members, "image_type"@, value.image_type);
    }
}

} // verus!
