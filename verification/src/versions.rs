//! The resized versions made of an image, and the GraphicsMagick commands
//! that make them.
use vstd::prelude::*;

verus! {

/// One run of GraphicsMagick: the program, its arguments, and the directory
/// it runs in.
pub struct ResizeCommand {
    pub program: String,
    pub args: Vec<String>,
    pub current_dir: String,
}

/// The texts of a list of arguments.
pub open spec fn texts(args: Seq<String>) -> Seq<Seq<char>> {
    args.map_values(|a: String| a@)
}

impl View for ResizeCommand {
    type V = (Seq<char>, Seq<Seq<char>>, Seq<char>);

    open spec fn view(&self) -> Self::V {
        (self.program@, texts(self.args@), self.current_dir@)
    }
}

/// The name of a version of `file_name`: `<alias>_<file_name>`.
pub open spec fn versioned_name(alias: Seq<char>, file_name: Seq<char>) -> Seq<char> {
    alias + seq!['_'] + file_name
}

/// The arguments of `gm` that write the version `alias` of `file_name`,
/// resized to the geometry `size`, without colour profiles; with
/// `auto_orient` the image is also turned upright first.
pub open spec fn resize_args(
    file_name: Seq<char>,
    size: Seq<char>,
    alias: Seq<char>,
    auto_orient: bool,
) -> Seq<Seq<char>> {
    let head = seq!["convert"@, file_name, "-resize"@, size];
    let tail = seq!["+profile"@, "!icc,!xmp,*"@, versioned_name(alias, file_name)];
    if auto_orient {
        head + seq!["-auto-orient"@] + tail
    } else {
        head + tail
    }
}

/// The command that writes one version of `file_name` inside `dir`.
pub open spec fn resize_command_of(
    file_name: Seq<char>,
    dir: Seq<char>,
    size: Seq<char>,
    alias: Seq<char>,
    auto_orient: bool,
) -> (Seq<char>, Seq<Seq<char>>, Seq<char>) {
    ("gm"@, resize_args(file_name, size, alias, auto_orient), dir)
}

/// The versions (geometry, alias) recreated for an image of a document.
pub open spec fn document_versions() -> Seq<(Seq<char>, Seq<char>)> {
    seq![
        ("100x100"@, "thumb"@),
        ("225x"@, "web"@),
        ("290x"@, "ldpi"@),
        ("420x"@, "mdpi"@),
        ("520x"@, "hdpi"@),
        ("630x"@, "xhdpi"@),
        ("1062x"@, "xxhdpi"@),
    ]
}

/// The versions (geometry, alias) made for an image uploaded to a collection.
pub open spec fn collection_versions() -> Seq<(Seq<char>, Seq<char>)> {
    seq![
        ("100x100"@, "thumb"@),
        ("290x"@, "ldpi"@),
        ("420x"@, "mdpi"@),
        ("520x"@, "hdpi"@),
        ("630x"@, "xhdpi"@),
        ("1062x"@, "xxhdpi"@),
    ]
}

/// The commands that make each version of a table, in the table's order.
pub open spec fn resize_commands_of(
    file_name: Seq<char>,
    dir: Seq<char>,
    versions: Seq<(Seq<char>, Seq<char>)>,
    auto_orient: bool,
) -> Seq<(Seq<char>, Seq<Seq<char>>, Seq<char>)> {
    versions.map_values(
        |v: (Seq<char>, Seq<char>)| resize_command_of(file_name, dir, v.0, v.1, auto_orient),
    )
}

/// The views of a list of commands.
pub open spec fn command_views(cmds: Seq<ResizeCommand>) -> Seq<(Seq<char>, Seq<Seq<char>>, Seq<char>)> {
    cmds.map_values(|c: ResizeCommand| c@)
}

/// The pairs of texts of a table of (geometry, alias) pairs.
pub open spec fn table_view(t: Seq<(&str, &str)>) -> Seq<(Seq<char>, Seq<char>)> {
    t.map_values(|p: (&str, &str)| (p.0@, p.1@))
}

/// A `String` holding `s`.
fn owned(s: &str) -> (res: String)
    ensures
        res@ == s@,
{
    String::from_str(s)
}

/// The command that writes the version `alias` of `file_name`, resized to
/// `size`, inside `tmp_dir_path`.
pub fn resize_image(
    file_name: &str,
    tmp_dir_path: &str,
    size: &str,
    alias: &str,
    auto_orient: bool,
) -> (res: ResizeCommand)
    ensures
        res@ == resize_command_of(file_name@, tmp_dir_path@, size@, alias@, auto_orient),
{
    let mut new_file_name = owned(alias);
    let underscore = "_";
    proof {
        reveal_strlit("_");
    }
    new_file_name.append(underscore);
    new_file_name.append(file_name);
    assert(new_file_name@ =~= versioned_name(alias@, file_name@));
    let mut args: Vec<String> = Vec::new();
    args.push(owned("convert"));
    args.push(owned(file_name));
    args.push(owned("-resize"));
    args.push(owned(size));
    if auto_orient {
        args.push(owned("-auto-orient"));
    }
    args.push(owned("+profile"));
    args.push(owned("!icc,!xmp,*"));
    args.push(new_file_name);
    let res = ResizeCommand { program: owned("gm"), args, current_dir: owned(tmp_dir_path) };
    assert(texts(res.args@) =~= resize_args(file_name@, size@, alias@, auto_orient));
    res
}

/// The commands for every version of a table, in its order.
fn resize_all(
    file_name: &str,
    tmp_dir_path: &str,
    table: &Vec<(&str, &str)>,
    auto_orient: bool,
) -> (res: Vec<ResizeCommand>)
    ensures
        command_views(res@) == resize_commands_of(
            file_name@,
            tmp_dir_path@,
            table_view(table@),
            auto_orient,
        ),
{
    let mut res: Vec<ResizeCommand> = Vec::new();
    let mut i: usize = 0;
    while i < table.len()
        invariant
            i <= table@.len(),
            command_views(res@) == resize_commands_of(
                file_name@,
                tmp_dir_path@,
                table_view(table@.subrange(0, i as int)),
                auto_orient,
            ),
        decreases table@.len() - i,
    {
        let (size, alias) = table[i];
        let cmd = resize_image(file_name, tmp_dir_path, size, alias, auto_orient);
        let ghost before = res@;
        res.push(cmd);
        let ghost prefix = table_view(table@.subrange(0, i as int));
        assert(table_view(table@.subrange(0, i + 1)) =~= prefix.push((size@, alias@)));
        assert(command_views(res@) =~= command_views(before).push(cmd@));
        assert(resize_commands_of(file_name@, tmp_dir_path@, prefix.push((size@, alias@)), auto_orient)
            =~= resize_commands_of(file_name@, tmp_dir_path@, prefix, auto_orient).push(
            resize_command_of(file_name@, tmp_dir_path@, size@, alias@, auto_orient),
        ));
        assert(command_views(res@) =~= resize_commands_of(
            file_name@,
            tmp_dir_path@,
            table_view(table@.subrange(0, i + 1)),
            auto_orient,
        ));
        i = i + 1;
    }
    assert(table@.subrange(0, i as int) =~= table@);
    res
}

/// The (geometry, alias) table of document versions.
fn document_version_table() -> (t: Vec<(&'static str, &'static str)>)
    ensures
        table_view(t@) == document_versions(),
{
    let mut t: Vec<(&'static str, &'static str)> = Vec::new();
    t.push(("100x100", "thumb"));
    t.push(("225x", "web"));
    t.push(("290x", "ldpi"));
    t.push(("420x", "mdpi"));
    t.push(("520x", "hdpi"));
    t.push(("630x", "xhdpi"));
    t.push(("1062x", "xxhdpi"));
    assert(table_view(t@) =~= document_versions());
    t
}

/// The (geometry, alias) table of collection versions.
fn collection_version_table() -> (t: Vec<(&'static str, &'static str)>)
    ensures
        table_view(t@) == collection_versions(),
{
    let mut t: Vec<(&'static str, &'static str)> = Vec::new();
    t.push(("100x100", "thumb"));
    t.push(("290x", "ldpi"));
    t.push(("420x", "mdpi"));
    t.push(("520x", "hdpi"));
    t.push(("630x", "xhdpi"));
    t.push(("1062x", "xxhdpi"));
    assert(table_view(t@) =~= collection_versions());
    t
}

/// The commands that recreate every version of the image `new_file_name`
/// held in `tmp_dir_path`, each turned upright: thumb (100x100), web (225x),
/// ldpi (290x), mdpi (420x), hdpi (520x), xhdpi (630x) and xxhdpi (1062x).
pub fn recreate_versions(new_file_name: &str, tmp_dir_path: &str) -> (res: Vec<ResizeCommand>)
    ensures
        command_views(res@) == resize_commands_of(
            new_file_name@,
            tmp_dir_path@,
            document_versions(),
            true,
        ),
{
    let table = document_version_table();
    resize_all(new_file_name, tmp_dir_path, &table, true)
}

/// The commands that make every version of an image uploaded to a
/// collection, held in `tmp_dir_path`: thumb, ldpi, mdpi, hdpi, xhdpi and
/// xxhdpi, with the geometries of the document versions.
pub fn collection_resizes(new_file_name: &str, tmp_dir_path: &str) -> (res: Vec<ResizeCommand>)
    ensures
        command_views(res@) == resize_commands_of(
            new_file_name@,
            tmp_dir_path@,
            collection_versions(),
            false,
        ),
{
    let table = collection_version_table();
    resize_all(new_file_name, tmp_dir_path, &table, false)
}

/// The aliases of a version table are pairwise different.
pub open spec fn aliases_distinct(versions: Seq<(Seq<char>, Seq<char>)>) -> bool {
    forall|i: int, j: int|
        0 <= i < versions.len() && 0 <= j < versions.len() && i != j ==> versions[i].1
            != versions[j].1
}

/// No two versions of a table write the same file, and no version
/// overwrites the image it is made from.
pub open spec fn outputs_distinct(file_name: Seq<char>, versions: Seq<(Seq<char>, Seq<char>)>) -> bool {
    &&& forall|i: int, j: int|
        0 <= i < versions.len() && 0 <= j < versions.len() && i != j ==> versioned_name(
            versions[i].1,
            file_name,
        ) != versioned_name(versions[j].1, file_name)
    &&& forall|i: int|
        0 <= i < versions.len() ==> versioned_name(versions[i].1, file_name) != file_name
}

/// Equal texts with a common ending have equal beginnings.
proof fn lemma_common_suffix(a: Seq<char>, b: Seq<char>, r: Seq<char>)
    requires
        a + r == b + r,
    ensures
        a == b,
{
    assert(a =~= (a + r).subrange(0, a.len() as int));
    assert(b =~= (b + r).subrange(0, b.len() as int));
}

/// Versions with different aliases are written to different files, none of
/// them the image itself.
pub proof fn lemma_outputs_distinct(file_name: Seq<char>, versions: Seq<(Seq<char>, Seq<char>)>)
    requires
        aliases_distinct(versions),
    ensures
        outputs_distinct(file_name, versions),
{
    assert forall|i: int, j: int|
        0 <= i < versions.len() && 0 <= j < versions.len() && i != j implies versioned_name(
            versions[i].1,
            file_name,
        ) != versioned_name(versions[j].1, file_name) by {
        if versioned_name(versions[i].1, file_name) == versioned_name(versions[j].1, file_name) {
            assert(versions[i].1 + seq!['_'] + file_name == (versions[i].1 + seq!['_']) + file_name);
            assert(versions[j].1 + seq!['_'] + file_name == (versions[j].1 + seq!['_']) + file_name);
            lemma_common_suffix(versions[i].1 + seq!['_'], versions[j].1 + seq!['_'], file_name);
            lemma_common_suffix(versions[i].1, versions[j].1, seq!['_']);
        }
    }
    assert forall|i: int| 0 <= i < versions.len() implies versioned_name(versions[i].1, file_name)
        != file_name by {
        assert(versioned_name(versions[i].1, file_name).len() > file_name.len());
    }
}

/// The aliases of the document versions are pairwise different.
pub proof fn lemma_document_aliases_distinct()
    ensures
        aliases_distinct(document_versions()),
{
    reveal_strlit("thumb");
    reveal_strlit("web");
    reveal_strlit("ldpi");
    reveal_strlit("mdpi");
    reveal_strlit("hdpi");
    reveal_strlit("xhdpi");
    reveal_strlit("xxhdpi");
    let v = document_versions();
    assert forall|i: int, j: int| 0 <= i < v.len() && 0 <= j < v.len() && i != j implies v[i].1
        != v[j].1 by {
        if v[i].1.len() == v[j].1.len() {
            assert(v[i].1[0] != v[j].1[0]);
        }
    }
}

/// The aliases of the collection versions are pairwise different.
pub proof fn lemma_collection_aliases_distinct()
    ensures
        aliases_distinct(collection_versions()),
{
    lemma_document_aliases_distinct();
    lemma_collection_versions_drop_web();
}

/// The versions recreated for a document image are written to seven
/// different files, none of them the image itself.
pub proof fn lemma_document_outputs_distinct(file_name: Seq<char>)
    ensures
        outputs_distinct(file_name, document_versions()),
{
    lemma_document_aliases_distinct();
    lemma_outputs_distinct(file_name, document_versions());
}

/// The versions made for an image of a collection are written to six
/// different files, none of them the image itself.
pub proof fn lemma_collection_outputs_distinct(file_name: Seq<char>)
    ensures
        outputs_distinct(file_name, collection_versions()),
{
    lemma_collection_aliases_distinct();
    lemma_outputs_distinct(file_name, collection_versions());
}

/// The versions made for an upload to a collection are the versions made for
/// a document image, in the same order and with the same geometries, less
/// the `web` version.
pub proof fn lemma_collection_versions_drop_web()
    ensures
        collection_versions() == document_versions().remove(1),
        document_versions()[1] == ("225x"@, "web"@),
{
    assert(collection_versions() =~= document_versions().remove(1));
}

/// What each command of a list built from a version table does: it runs
/// `gm convert` in `dir` on `file_name`, resizes it to the geometry of its
/// version, turns it upright only when asked, drops its colour profiles, and
/// writes `<alias>_<file_name>`; there is one command per version.
pub proof fn lemma_commands_shape(
    file_name: Seq<char>,
    dir: Seq<char>,
    versions: Seq<(Seq<char>, Seq<char>)>,
    auto_orient: bool,
    cmds: Seq<ResizeCommand>,
)
    requires
        command_views(cmds) == resize_commands_of(file_name, dir, versions, auto_orient),
    ensures
        cmds.len() == versions.len(),
        forall|i: int|
            #![trigger cmds[i]]
            0 <= i < cmds.len() ==> {
                let a = texts(cmds[i].args@);
                let last = if auto_orient { 7int } else { 6int };
                &&& cmds[i].program@ == "gm"@
                &&& cmds[i].current_dir@ == dir
                &&& a.len() == last + 1
                &&& a[0] == "convert"@
                &&& a[1] == file_name
                &&& a[2] == "-resize"@
                &&& a[3] == versions[i].0
                &&& (auto_orient ==> a[4] == "-auto-orient"@)
                &&& a[last - 2] == "+profile"@
                &&& a[last - 1] == "!icc,!xmp,*"@
                &&& a[last] == versions[i].1 + seq!['_'] + file_name
            },
{
    assert(command_views(cmds).len() == cmds.len());
    assert forall|i: int| #![trigger cmds[i]] 0 <= i < cmds.len() implies {
        let a = texts(cmds[i].args@);
        let last = if auto_orient { 7int } else { 6int };
        &&& cmds[i].program@ == "gm"@
        &&& cmds[i].current_dir@ == dir
        &&& a.len() == last + 1
        &&& a[0] == "convert"@
        &&& a[1] == file_name
        &&& a[2] == "-resize"@
        &&& a[3] == versions[i].0
        &&& (auto_orient ==> a[4] == "-auto-orient"@)
        &&& a[last - 2] == "+profile"@
        &&& a[last - 1] == "!icc,!xmp,*"@
        &&& a[last] == versions[i].1 + seq!['_'] + file_name
    } by {
        assert(command_views(cmds)[i] == cmds[i]@);
        assert(command_views(cmds)[i] == resize_command_of(
            file_name,
            dir,
            versions[i].0,
            versions[i].1,
            auto_orient,
        ));
    }
}

} // verus!
