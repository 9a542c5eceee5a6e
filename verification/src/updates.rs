//! The changes written back to the database once an image has a new name.
use vstd::prelude::*;

verus! {

/// Sets `field` to `new_file_name` in the record `record_id`; with an
/// `image_id`, only in the entry of the record's `images` array with that id.
pub struct ImageUpdate {
    pub record_id: String,
    pub image_id: Option<String>,
    pub field: String,
    pub new_file_name: String,
}

impl View for ImageUpdate {
    type V = (Seq<char>, Option<Seq<char>>, Seq<char>, Seq<char>);

    open spec fn view(&self) -> Self::V {
        (
            self.record_id@,
            match self.image_id {
                Some(id) => Some(id@),
                None => None,
            },
            self.field@,
            self.new_file_name@,
        )
    }
}

/// The update of a buzz message: its `image` field gets the new name.
pub fn buzz_message_update(document_id: &str, new_file_name: &str) -> (res: ImageUpdate)
    ensures
        res@ == (document_id@, None::<Seq<char>>, "image"@, new_file_name@),
{
    ImageUpdate {
        record_id: String::from_str(document_id),
        image_id: None,
        field: String::from_str("image"),
        new_file_name: String::from_str(new_file_name),
    }
}

/// The update of one image of a product: the `file` of the matching entry
/// of its `images` array gets the new name.
pub fn product_image_update(product_id: &str, image_id: &str, new_file_name: &str) -> (res: ImageUpdate)
    ensures
        res@ == (product_id@, Some(image_id@), "images.$.file"@, new_file_name@),
{
    ImageUpdate {
        record_id: String::from_str(product_id),
        image_id: Some(String::from_str(image_id)),
        field: String::from_str("images.$.file"),
        new_file_name: String::from_str(new_file_name),
    }
}

/// The update made for one image of a store: the record whose id is the
/// image's id gets the new name in its `logo` field.
pub fn store_image_update(image_id: &str, new_file_name: &str) -> (res: ImageUpdate)
    ensures
        res@ == (image_id@, None::<Seq<char>>, "logo"@, new_file_name@),
{
    ImageUpdate {
        record_id: String::from_str(image_id),
        image_id: None,
        field: String::from_str("logo"),
        new_file_name: String::from_str(new_file_name),
    }
}

} // verus!
