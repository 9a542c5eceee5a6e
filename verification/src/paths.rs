//! The paths under which images are fetched, worked on and stored.
use vstd::prelude::*;

verus! {

/// `dir`, a slash, and `name`.
pub open spec fn joined(dir: Seq<char>, name: Seq<char>) -> Seq<char> {
    dir + seq!['/'] + name
}

/// `/tmp/<source_name>-<document_id>`: the scratch directory of one document.
pub open spec fn tmp_dir_of(source_name: Seq<char>, document_id: Seq<char>) -> Seq<char> {
    "/tmp/"@ + source_name + seq!['-'] + document_id
}

/// `<root>/<source_name>/<document_id>`: where the images of one document are stored.
pub open spec fn source_dir_of(root: Seq<char>, source_name: Seq<char>, document_id: Seq<char>) -> Seq<char> {
    joined(joined(root, source_name), document_id)
}

/// The directory under which the upload step of a collection keeps its images.
pub open spec fn uploads_root() -> Seq<char> {
    "/home/nitin/work/mobmerry/public/uploads"@
}

/// Joins a directory path and an entry name with a single `/`.
pub fn join_path(dir: &str, name: &str) -> (res: String)
    ensures
        res@ == joined(dir@, name@),
{
    let mut res = String::from_str(dir);
    let slash = "/";
    proof {
        reveal_strlit("/");
    }
    res.append(slash);
    res.append(name);
    assert(res@ =~= joined(dir@, name@));
    res
}

/// The scratch directory path of a document: `/tmp/<source_name>-<document_id>`.
pub fn tmp_dir_path(source_name: &str, document_id: &str) -> (res: String)
    ensures
        res@ == tmp_dir_of(source_name@, document_id@),
{
    let mut res = String::from_str("/tmp/");
    res.append(source_name);
    let dash = "-";
    proof {
        reveal_strlit("-");
    }
    res.append(dash);
    res.append(document_id);
    assert(res@ =~= tmp_dir_of(source_name@, document_id@));
    res
}

/// The storage directory of a document: `<root>/<source_name>/<document_id>`.
pub fn source_dir_path(root: &str, source_name: &str, document_id: &str) -> (res: String)
    ensures
        res@ == source_dir_of(root@, source_name@, document_id@),
{
    let name_dir = join_path(root, source_name);
    join_path(name_dir.as_str(), document_id)
}

/// The storage directory of an item of a collection under the uploads root.
pub fn upload_dir_path(collection_name: &str, collection_id: &str) -> (res: String)
    ensures
        res@ == source_dir_of(uploads_root(), collection_name@, collection_id@),
{
    source_dir_path("/home/nitin/work/mobmerry/public/uploads", collection_name, collection_id)
}

} // verus!
