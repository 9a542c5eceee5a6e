//! The work done for one image: where it is fetched from, where it is
//! worked on, its new name, and the versions made of it.
use vstd::prelude::*;
use crate::md5_hasher::{generate, jpg_extension, md5_hex};
use crate::paths::{join_path, joined, source_dir_of, source_dir_path, tmp_dir_of, tmp_dir_path, upload_dir_path, uploads_root};
use crate::versions::{
    lemma_commands_shape, texts, collection_resizes, collection_versions, command_views, document_versions, recreate_versions,
    resize_commands_of, ResizeCommand,
};

verus! {

/// The paths, the new name and the resize commands of one image.
pub struct ImageJob {
    /// The scratch directory the image is worked on in.
    pub tmp_dir_path: String,
    /// The directory the image is fetched from and its versions go back to.
    pub source_dir_path: String,
    /// The name the image gets in the scratch directory.
    pub new_file_name: String,
    /// The path of the image in the scratch directory.
    pub tmp_file_path: String,
    /// The path the image is fetched from.
    pub source_file_path: String,
    /// The commands that make the versions of the image.
    pub resize_commands: Vec<ResizeCommand>,
}

/// `job` holds the given paths, name and commands.
pub open spec fn job_is(
    job: ImageJob,
    tmp_dir: Seq<char>,
    source_dir: Seq<char>,
    image_name: Seq<char>,
    new_file_name: Seq<char>,
    versions: Seq<(Seq<char>, Seq<char>)>,
    auto_orient: bool,
) -> bool {
    &&& job.tmp_dir_path@ == tmp_dir
    &&& job.source_dir_path@ == source_dir
    &&& job.new_file_name@ == new_file_name
    &&& job.tmp_file_path@ == joined(tmp_dir, new_file_name)
    &&& job.source_file_path@ == joined(source_dir, image_name)
    &&& command_views(job.resize_commands@) == resize_commands_of(
        new_file_name,
        tmp_dir,
        versions,
        auto_orient,
    )
}

/// `job` is the work on the image `image_name` of the document
/// `document_id`, stored under `<source_root>/<source_name>`, renamed to
/// `new_file_name`.
pub open spec fn is_document_job(
    job: ImageJob,
    source_root: Seq<char>,
    source_name: Seq<char>,
    document_id: Seq<char>,
    image_name: Seq<char>,
    new_file_name: Seq<char>,
) -> bool {
    job_is(
        job,
        tmp_dir_of(source_name, document_id),
        source_dir_of(source_root, source_name, document_id),
        image_name,
        new_file_name,
        document_versions(),
        true,
    )
}

/// The work on the image `image_name` of the document `document_id`,
/// stored under `<source_root>/<source_name>`, once its new name is known.
pub fn document_job(
    source_root: &str,
    source_name: &str,
    document_id: &str,
    image_name: &str,
    new_file_name: &str,
) -> (res: ImageJob)
    ensures
        is_document_job(res, source_root@, source_name@, document_id@, image_name@, new_file_name@),
{
    let tmp_dir = tmp_dir_path(source_name, document_id);
    let source_dir = source_dir_path(source_root, source_name, document_id);
    let tmp_file_path = join_path(tmp_dir.as_str(), new_file_name);
    let source_file_path = join_path(source_dir.as_str(), image_name);
    let resize_commands = recreate_versions(new_file_name, tmp_dir.as_str());
    ImageJob {
        tmp_dir_path: tmp_dir,
        source_dir_path: source_dir,
        new_file_name: String::from_str(new_file_name),
        tmp_file_path,
        source_file_path,
        resize_commands,
    }
}

/// The work on the image `image_name` of the document `document_id`; its
/// new name is the MD5 digest of `image_name` followed by `.jpg`.
pub fn plan_document_job(
    source_root: &str,
    source_name: &str,
    document_id: &str,
    image_name: &str,
) -> (res: ImageJob)
    ensures
        is_document_job(
            res,
            source_root@,
            source_name@,
            document_id@,
            image_name@,
            md5_hex(image_name@) + jpg_extension(),
        ),
{
    let new_file_name = generate(image_name);
    document_job(source_root, source_name, document_id, image_name, new_file_name.as_str())
}

/// `job` is the upload of `file_name` into the collection item
/// `collection_name`/`collection_id`, renamed to `new_file_name`.
pub open spec fn is_collection_job(
    job: ImageJob,
    collection_name: Seq<char>,
    collection_id: Seq<char>,
    file_name: Seq<char>,
    new_file_name: Seq<char>,
) -> bool {
    job_is(
        job,
        tmp_dir_of(collection_name, collection_id),
        source_dir_of(uploads_root(), collection_name, collection_id),
        file_name,
        new_file_name,
        collection_versions(),
        false,
    )
}

/// The work on the image `file_name` uploaded to the item `collection_id`
/// of the collection `collection_name`, renamed to `new_file_name`.
pub fn collection_job(
    collection_name: &str,
    collection_id: &str,
    file_name: &str,
    new_file_name: &str,
) -> (res: ImageJob)
    ensures
        is_collection_job(res, collection_name@, collection_id@, file_name@, new_file_name@),
{
    let tmp_dir = tmp_dir_path(collection_name, collection_id);
    let source_dir = upload_dir_path(collection_name, collection_id);
    let tmp_file_path = join_path(tmp_dir.as_str(), new_file_name);
    let source_file_path = join_path(source_dir.as_str(), file_name);
    let resize_commands = collection_resizes(new_file_name, tmp_dir.as_str());
    ImageJob {
        tmp_dir_path: tmp_dir,
        source_dir_path: source_dir,
        new_file_name: String::from_str(new_file_name),
        tmp_file_path,
        source_file_path,
        resize_commands,
    }
}

/// In the work on a document image, the image is fetched from
/// `<root>/<source_name>/<document_id>/<image_name>` and copied into the
/// scratch directory `/tmp/<source_name>-<document_id>` under its new name;
/// the seven resize commands all run in the scratch directory on that copy,
/// each turns it upright, each writes `<alias>_<new name>` there, and the
/// second one writes the `web` version.
pub proof fn lemma_document_job_works_on_its_copy(
    job: ImageJob,
    source_root: Seq<char>,
    source_name: Seq<char>,
    document_id: Seq<char>,
    image_name: Seq<char>,
    new_file_name: Seq<char>,
)
    requires
        is_document_job(job, source_root, source_name, document_id, image_name, new_file_name),
    ensures
        job.tmp_dir_path@ == "/tmp/"@ + source_name + seq!['-'] + document_id,
        job.new_file_name@ == new_file_name,
        job.tmp_file_path@ == job.tmp_dir_path@ + seq!['/'] + new_file_name,
        job.source_file_path@ == source_root + seq!['/'] + source_name + seq!['/'] + document_id
            + seq!['/'] + image_name,
        job.resize_commands@.len() == 7,
        forall|i: int|
            #![trigger job.resize_commands@[i]]
            0 <= i < 7 ==> {
                let a = texts(job.resize_commands@[i].args@);
                &&& job.resize_commands@[i].current_dir@ == job.tmp_dir_path@
                &&& a.len() == 8
                &&& a[1] == new_file_name
                &&& a[4] == "-auto-orient"@
                &&& a[7] == document_versions()[i].1 + seq!['_'] + new_file_name
            },
        texts(job.resize_commands@[1].args@)[7] == "web"@ + seq!['_'] + new_file_name,
{
    lemma_commands_shape(
        new_file_name,
        job.tmp_dir_path@,
        document_versions(),
        true,
        job.resize_commands@,
    );
    assert(job.resize_commands@[1] == job.resize_commands@[1]);
}

/// In the work on an image uploaded to a collection item, the image is
/// fetched from the item's upload directory and copied into
/// `/tmp/<collection_name>-<collection_id>` under its new name; the six
/// resize commands all run there on that copy, none turns it upright, and
/// they make the document versions less `web`.
pub proof fn lemma_collection_job_works_on_its_copy(
    job: ImageJob,
    collection_name: Seq<char>,
    collection_id: Seq<char>,
    file_name: Seq<char>,
    new_file_name: Seq<char>,
)
    requires
        is_collection_job(job, collection_name, collection_id, file_name, new_file_name),
    ensures
        job.tmp_dir_path@ == "/tmp/"@ + collection_name + seq!['-'] + collection_id,
        job.new_file_name@ == new_file_name,
        job.tmp_file_path@ == job.tmp_dir_path@ + seq!['/'] + new_file_name,
        job.source_file_path@ == job.source_dir_path@ + seq!['/'] + file_name,
        job.resize_commands@.len() == 6,
        forall|i: int|
            #![trigger job.resize_commands@[i]]
            0 <= i < 6 ==> {
                let a = texts(job.resize_commands@[i].args@);
                let v = document_versions().remove(1)[i];
                &&& job.resize_commands@[i].current_dir@ == job.tmp_dir_path@
                &&& a.len() == 7
                &&& a[1] == new_file_name
                &&& a[3] == v.0
                &&& a[4] == "+profile"@
                &&& a[6] == v.1 + seq!['_'] + new_file_name
            },
{
    crate::versions::lemma_collection_versions_drop_web();
    lemma_commands_shape(
        new_file_name,
        job.tmp_dir_path@,
        collection_versions(),
        false,
        job.resize_commands@,
    );
}

} // verus!
