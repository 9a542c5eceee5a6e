//! The work and the database change each command makes for an image.
use vstd::prelude::*;
use crate::jobs::{is_document_job, lemma_document_job_works_on_its_copy, plan_document_job, ImageJob};
use crate::paths::{joined, tmp_dir_of};
use crate::versions::{command_views, document_versions, resize_commands_of, texts};
use crate::md5_hasher::{jpg_extension, md5_hex};
use crate::store_images::{collect_store_images, entered, ids_distinct, refs_view, ImageRef};
use crate::updates::{buzz_message_update, product_image_update, store_image_update, ImageUpdate};

verus! {

/// The new name of an image file: its MD5 digest in lowercase hexadecimal
/// followed by `.jpg`.
pub open spec fn new_name_of(image_name: Seq<char>) -> Seq<char> {
    md5_hex(image_name) + jpg_extension()
}

/// `step` is the work on the image `image_name` of a buzz message, kept
/// under `<source_root>/buzz_message/<document_id>`, and the setting of the
/// message's `image` to the new name.
pub open spec fn is_buzz_message_step(
    step: (ImageJob, ImageUpdate),
    source_root: Seq<char>,
    document_id: Seq<char>,
    image_name: Seq<char>,
) -> bool {
    &&& is_document_job(step.0, source_root, "buzz_message"@, document_id, image_name, new_name_of(image_name))
    &&& step.1@ == (document_id, None::<Seq<char>>, "image"@, new_name_of(image_name))
}

/// The work and the change for the image of the buzz message `document_id`.
pub fn buzz_message_plan(source_root: &str, document_id: &str, image_name: &str) -> (res: (ImageJob, ImageUpdate))
    ensures
        is_buzz_message_step(res, source_root@, document_id@, image_name@),
        res.0.new_file_name@ == md5_hex(image_name@) + ".jpg"@,
        res.0.tmp_file_path@ == joined(
            tmp_dir_of("buzz_message"@, document_id@),
            md5_hex(image_name@) + ".jpg"@,
        ),
        command_views(res.0.resize_commands@) == resize_commands_of(
            md5_hex(image_name@) + ".jpg"@,
            tmp_dir_of("buzz_message"@, document_id@),
            document_versions(),
            true,
        ),
        res.1.new_file_name@ == res.0.new_file_name@,
{
    let job = plan_document_job(source_root, "buzz_message", document_id, image_name);
    let update = buzz_message_update(document_id, job.new_file_name.as_str());
    (job, update)
}

/// `step` is the work on the image `image_id` of the product `product_id`,
/// kept under `<source_root>/product_image/<image_id>`, and the setting of
/// that image's `file` to the new name.
pub open spec fn is_product_image_step(
    step: (ImageJob, ImageUpdate),
    source_root: Seq<char>,
    product_id: Seq<char>,
    image_id: Seq<char>,
    image_name: Seq<char>,
) -> bool {
    &&& is_document_job(step.0, source_root, "product_image"@, image_id, image_name, new_name_of(image_name))
    &&& step.1@ == (product_id, Some(image_id), "images.$.file"@, new_name_of(image_name))
}

/// The work and the change for the image `image_id` of the product `product_id`.
pub fn product_image_plan(
    source_root: &str,
    product_id: &str,
    image_id: &str,
    image_name: &str,
) -> (res: (ImageJob, ImageUpdate))
    ensures
        is_product_image_step(res, source_root@, product_id@, image_id@, image_name@),
        res.0.new_file_name@ == md5_hex(image_name@) + ".jpg"@,
        res.0.tmp_dir_path@ == tmp_dir_of("product_image"@, image_id@),
        res.0.tmp_file_path@ == joined(res.0.tmp_dir_path@, res.0.new_file_name@),
        command_views(res.0.resize_commands@) == resize_commands_of(
            res.0.new_file_name@,
            res.0.tmp_dir_path@,
            document_versions(),
            true,
        ),
        res.1.new_file_name@ == res.0.new_file_name@,
{
    let job = plan_document_job(source_root, "product_image", image_id, image_name);
    let update = product_image_update(product_id, image_id, job.new_file_name.as_str());
    (job, update)
}

/// `step` is the work on the store image `image` = (id, file name), kept
/// under `<source_root>/store_image/<id>`, and the setting of `logo` to the
/// new name in the record whose id is the image's id.
pub open spec fn is_store_image_step(
    step: (ImageJob, ImageUpdate),
    source_root: Seq<char>,
    image: (Seq<char>, Seq<char>),
) -> bool {
    &&& is_document_job(step.0, source_root, "store_image"@, image.0, image.1, new_name_of(image.1))
    &&& step.1@ == (image.0, None::<Seq<char>>, "logo"@, new_name_of(image.1))
}

/// The steps are those of the images, one each, in the same order.
pub open spec fn are_store_image_steps(
    steps: Seq<(ImageJob, ImageUpdate)>,
    source_root: Seq<char>,
    images: Seq<(Seq<char>, Seq<char>)>,
) -> bool {
    &&& steps.len() == images.len()
    &&& forall|i: int| 0 <= i < steps.len() ==> is_store_image_step(#[trigger] steps[i], source_root, images[i])
}

/// The work and the change for every image of a store: its logo and its
/// gallery, one step per image id, with the file name of the last image
/// that has the id. The order of the steps is left open.
pub fn store_plan(source_root: &str, logo: &ImageRef, images: &Vec<ImageRef>) -> (res: Vec<(ImageJob, ImageUpdate)>)
    ensures
        exists|collected: Seq<(Seq<char>, Seq<char>)>|
            #![trigger are_store_image_steps(res@, source_root@, collected)]
            {
                &&& ids_distinct(collected)
                &&& entered(collected) == entered(seq![logo@] + refs_view(images@))
                &&& are_store_image_steps(res@, source_root@, collected)
            },
        forall|i: int|
            #![trigger res@[i]]
            0 <= i < res@.len() ==> {
                &&& res@[i].0.tmp_dir_path@ == tmp_dir_of("store_image"@, res@[i].1.record_id@)
                &&& res@[i].0.tmp_file_path@ == joined(res@[i].0.tmp_dir_path@, res@[i].0.new_file_name@)
                &&& command_views(res@[i].0.resize_commands@) == resize_commands_of(
                    res@[i].0.new_file_name@,
                    res@[i].0.tmp_dir_path@,
                    document_versions(),
                    true,
                )
                &&& res@[i].1.new_file_name@ == res@[i].0.new_file_name@
            },
{
    let collected = collect_store_images(logo, images);
    let ghost c = refs_view(collected@);
    let mut res: Vec<(ImageJob, ImageUpdate)> = Vec::new();
    let mut i: usize = 0;
    while i < collected.len()
        invariant
            i <= collected@.len(),
            c == refs_view(collected@),
            res@.len() == i,
            forall|j: int| 0 <= j < i ==> is_store_image_step(#[trigger] res@[j], source_root@, c[j]),
        decreases collected@.len() - i,
    {
        let image = &collected[i];
        let job = plan_document_job(source_root, "store_image", image.id.as_str(), image.file.as_str());
        let update = store_image_update(image.id.as_str(), job.new_file_name.as_str());
        res.push((job, update));
        i = i + 1;
    }
    assert(are_store_image_steps(res@, source_root@, c));
    res
}

/// In a buzz message step the message's image is copied into its scratch
/// directory under its new name, the MD5 digest of its old name followed by
/// `.jpg`; every resize command works on that copy in that directory and
/// turns it upright; the message's `image` is set to that same name.
pub proof fn lemma_buzz_message_step_resizes_its_copy(
    step: (ImageJob, ImageUpdate),
    source_root: Seq<char>,
    document_id: Seq<char>,
    image_name: Seq<char>,
)
    requires
        is_buzz_message_step(step, source_root, document_id, image_name),
    ensures
        step.0.new_file_name@ == md5_hex(image_name) + ".jpg"@,
        step.0.tmp_dir_path@ == "/tmp/"@ + "buzz_message"@ + seq!['-'] + document_id,
        step.0.tmp_file_path@ == step.0.tmp_dir_path@ + seq!['/'] + step.0.new_file_name@,
        step.0.source_file_path@ == source_root + seq!['/'] + "buzz_message"@ + seq!['/']
            + document_id + seq!['/'] + image_name,
        step.0.resize_commands@.len() == 7,
        forall|i: int|
            #![trigger step.0.resize_commands@[i]]
            0 <= i < 7 ==> {
                let a = texts(step.0.resize_commands@[i].args@);
                &&& step.0.resize_commands@[i].current_dir@ == step.0.tmp_dir_path@
                &&& a[1] == step.0.new_file_name@
                &&& a[4] == "-auto-orient"@
            },
        step.1@.0 == document_id,
        step.1@.1 is None,
        step.1@.2 == "image"@,
        step.1@.3 == step.0.new_file_name@,
{
    lemma_document_job_works_on_its_copy(
        step.0,
        source_root,
        "buzz_message"@,
        document_id,
        image_name,
        new_name_of(image_name),
    );
}

/// In a product image step the image is copied into its scratch directory
/// under its new name, the MD5 digest of its old name followed by `.jpg`;
/// the seven document versions (the second one `web`) are made of that copy
/// in that directory, each turned upright; the product's entry for the image
/// gets that same name.
pub proof fn lemma_product_image_step_resizes_its_copy(
    step: (ImageJob, ImageUpdate),
    source_root: Seq<char>,
    product_id: Seq<char>,
    image_id: Seq<char>,
    image_name: Seq<char>,
)
    requires
        is_product_image_step(step, source_root, product_id, image_id, image_name),
    ensures
        step.0.new_file_name@ == md5_hex(image_name) + ".jpg"@,
        step.0.tmp_dir_path@ == "/tmp/"@ + "product_image"@ + seq!['-'] + image_id,
        step.0.tmp_file_path@ == step.0.tmp_dir_path@ + seq!['/'] + step.0.new_file_name@,
        step.0.source_file_path@ == source_root + seq!['/'] + "product_image"@ + seq!['/'] + image_id
            + seq!['/'] + image_name,
        step.0.resize_commands@.len() == 7,
        forall|i: int|
            #![trigger step.0.resize_commands@[i]]
            0 <= i < 7 ==> {
                let a = texts(step.0.resize_commands@[i].args@);
                &&& step.0.resize_commands@[i].current_dir@ == step.0.tmp_dir_path@
                &&& a[1] == step.0.new_file_name@
                &&& a[4] == "-auto-orient"@
            },
        texts(step.0.resize_commands@[1].args@)[7] == "web"@ + seq!['_'] + step.0.new_file_name@,
        step.1@.0 == product_id,
        step.1@.1 == Some(image_id),
        step.1@.2 == "images.$.file"@,
        step.1@.3 == step.0.new_file_name@,
{
    lemma_document_job_works_on_its_copy(
        step.0,
        source_root,
        "product_image"@,
        image_id,
        image_name,
        new_name_of(image_name),
    );
}

/// In a store image step the image is copied into its scratch directory
/// under its new name, the MD5 digest of its old name followed by `.jpg`;
/// the seven document versions are made of that copy in that directory, each
/// turned upright; the record with the image's id gets that same name as
/// its `logo`.
pub proof fn lemma_store_image_step_resizes_its_copy(
    step: (ImageJob, ImageUpdate),
    source_root: Seq<char>,
    image: (Seq<char>, Seq<char>),
)
    requires
        is_store_image_step(step, source_root, image),
    ensures
        step.0.new_file_name@ == md5_hex(image.1) + ".jpg"@,
        step.0.tmp_dir_path@ == "/tmp/"@ + "store_image"@ + seq!['-'] + image.0,
        step.0.tmp_file_path@ == step.0.tmp_dir_path@ + seq!['/'] + step.0.new_file_name@,
        step.0.source_file_path@ == source_root + seq!['/'] + "store_image"@ + seq!['/'] + image.0
            + seq!['/'] + image.1,
        step.0.resize_commands@.len() == 7,
        forall|i: int|
            #![trigger step.0.resize_commands@[i]]
            0 <= i < 7 ==> {
                let a = texts(step.0.resize_commands@[i].args@);
                &&& step.0.resize_commands@[i].current_dir@ == step.0.tmp_dir_path@
                &&& a[1] == step.0.new_file_name@
                &&& a[4] == "-auto-orient"@
            },
        texts(step.0.resize_commands@[1].args@)[7] == "web"@ + seq!['_'] + step.0.new_file_name@,
        step.1@.0 == image.0,
        step.1@.1 is None,
        step.1@.2 == "logo"@,
        step.1@.3 == step.0.new_file_name@,
{
    lemma_document_job_works_on_its_copy(
        step.0,
        source_root,
        "store_image"@,
        image.0,
        image.1,
        new_name_of(image.1),
    );
}

} // verus!
