//! The images of a store: its logo and its gallery, one name per image id.
use vstd::prelude::*;

verus! {

/// A reference to a stored image: its id and its file name.
pub struct ImageRef {
    pub id: String,
    pub file: String,
}

impl View for ImageRef {
    type V = (Seq<char>, Seq<char>);

    open spec fn view(&self) -> Self::V {
        (self.id@, self.file@)
    }
}

/// The (id, file name) pairs of a list of references.
pub open spec fn refs_view(refs: Seq<ImageRef>) -> Seq<(Seq<char>, Seq<char>)> {
    refs.map_values(|r: ImageRef| r@)
}

/// The file name of each id after the pairs are entered in order into a
/// map, a later pair replacing the name of an earlier one with its id.
pub open spec fn entered(pairs: Seq<(Seq<char>, Seq<char>)>) -> Map<Seq<char>, Seq<char>>
    decreases pairs.len(),
{
    if pairs.len() == 0 {
        Map::empty()
    } else {
        entered(pairs.drop_last()).insert(pairs.last().0, pairs.last().1)
    }
}

/// No id occurs twice among the pairs.
pub open spec fn ids_distinct(pairs: Seq<(Seq<char>, Seq<char>)>) -> bool {
    forall|i: int, j: int| 0 <= i < pairs.len() && 0 <= j < pairs.len() && i != j ==> pairs[i].0 != pairs[j].0
}

/// Replacing the pair of an id in a list without repeated ids enters the new pair.
proof fn lemma_entered_update(pairs: Seq<(Seq<char>, Seq<char>)>, k: int, p: (Seq<char>, Seq<char>))
    requires
        ids_distinct(pairs),
        0 <= k < pairs.len(),
        pairs[k].0 == p.0,
    ensures
        entered(pairs.update(k, p)) == entered(pairs).insert(p.0, p.1),
    decreases pairs.len(),
{
    let upd = pairs.update(k, p);
    if k == pairs.len() - 1 {
        assert(upd.drop_last() =~= pairs.drop_last());
        assert(entered(upd) =~= entered(pairs).insert(p.0, p.1));
    } else {
        assert(upd.drop_last() =~= pairs.drop_last().update(k, p));
        lemma_entered_update(pairs.drop_last(), k, p);
        assert(pairs.last().0 != p.0);
        assert(entered(upd) =~= entered(pairs).insert(p.0, p.1));
    }
}

/// The ids of the entered map are the ids of the pairs.
proof fn lemma_entered_domain(pairs: Seq<(Seq<char>, Seq<char>)>, id: Seq<char>)
    ensures
        entered(pairs).dom().contains(id) <==> exists|i: int| 0 <= i < pairs.len() && pairs[i].0 == id,
    decreases pairs.len(),
{
    if pairs.len() > 0 {
        lemma_entered_domain(pairs.drop_last(), id);
        if entered(pairs).dom().contains(id) && pairs.last().0 != id {
            let i = choose|i: int| 0 <= i < pairs.drop_last().len() && pairs.drop_last()[i].0 == id;
            assert(pairs[i].0 == id);
        }
        if exists|i: int| 0 <= i < pairs.len() && pairs[i].0 == id {
            let i = choose|i: int| 0 <= i < pairs.len() && pairs[i].0 == id;
            if i < pairs.len() - 1 {
                assert(pairs.drop_last()[i].0 == id);
            }
        }
    }
}

/// Where the pair with the id `id` stands among `refs`, if one does.
fn position_of(refs: &Vec<ImageRef>, id: &String) -> (res: Option<usize>)
    ensures
        match res {
            Some(k) => k < refs@.len() && refs@[k as int].id@ == id@,
            None => forall|i: int| 0 <= i < refs@.len() ==> refs@[i].id@ != id@,
        },
{
    let mut i: usize = 0;
    while i < refs.len()
        invariant
            i <= refs@.len(),
            forall|j: int| 0 <= j < i ==> refs@[j].id@ != id@,
        decreases refs@.len() - i,
    {
        if refs[i].id == *id {
            return Some(i);
        }
        i = i + 1;
    }
    None
}

/// A copy of a reference.
fn copy_ref(r: &ImageRef) -> (res: ImageRef)
    ensures
        res@ == r@,
{
    ImageRef { id: r.id.clone(), file: r.file.clone() }
}

/// Enters `r` into `refs`: replaces the file name of its id, or appends it.
fn enter(refs: &mut Vec<ImageRef>, r: ImageRef)
    requires
        ids_distinct(refs_view(old(refs)@)),
    ensures
        ids_distinct(refs_view(final(refs)@)),
        entered(refs_view(final(refs)@)) == entered(refs_view(old(refs)@)).insert(r.id@, r.file@),
{
    let ghost before = refs_view(refs@);
    match position_of(refs, &r.id) {
        Some(k) => {
            let ghost p = r@;
            refs.set(k, r);
            assert(refs_view(refs@) =~= before.update(k as int, p));
            proof {
                lemma_entered_update(before, k as int, p);
            }
        },
        None => {
            let ghost p = r@;
            refs.push(r);
            assert(refs_view(refs@) =~= before.push(p));
            assert(refs_view(refs@).drop_last() =~= before);
        },
    }
}

/// The images of a store, one per id: the logo first, then the gallery
/// images, a later image replacing the file name of an earlier one with the
/// same id. The order of the result is left open.
pub fn collect_store_images(logo: &ImageRef, images: &Vec<ImageRef>) -> (res: Vec<ImageRef>)
    ensures
        ids_distinct(refs_view(res@)),
        entered(refs_view(res@)) == entered(seq![logo@] + refs_view(images@)),
{
    let mut res: Vec<ImageRef> = Vec::new();
    let ghost all = seq![logo@] + refs_view(images@);
    assert(refs_view(res@) =~= Seq::<(Seq<char>, Seq<char>)>::empty());
    enter(&mut res, copy_ref(logo));
    assert(all.subrange(0, 1).drop_last() =~= Seq::<(Seq<char>, Seq<char>)>::empty());
    let mut i: usize = 0;
    while i < images.len()
        invariant
            i <= images@.len(),
            all == seq![logo@] + refs_view(images@),
            ids_distinct(refs_view(res@)),
            entered(refs_view(res@)) == entered(all.subrange(0, i + 1)),
        decreases images@.len() - i,
    {
        let r = copy_ref(&images[i]);
        enter(&mut res, r);
        assert(all.subrange(0, i + 2).drop_last() =~= all.subrange(0, i + 1));
        assert(all[i + 1] == images@[i as int]@);
        i = i + 1;
    }
    assert(all.subrange(0, i + 1) =~= all);
    res
}

/// The collected images hold exactly the ids of the logo and the gallery,
/// each once, with the file name of the last image that has the id.
pub proof fn lemma_collected_images(
    logo: (Seq<char>, Seq<char>),
    images: Seq<(Seq<char>, Seq<char>)>,
    collected: Seq<(Seq<char>, Seq<char>)>,
    id: Seq<char>,
)
    requires
        ids_distinct(collected),
        entered(collected) == entered(seq![logo] + images),
    ensures
        (exists|i: int| 0 <= i < collected.len() && collected[i].0 == id) <==> (id == logo.0 || exists|i: int| 0 <= i < images.len() && images[i].0 == id),
{
    let all = seq![logo] + images;
    lemma_entered_domain(collected, id);
    lemma_entered_domain(all, id);
    if id == logo.0 {
        assert(all[0].0 == id);
    }
    if exists|i: int| 0 <= i < images.len() && images[i].0 == id {
        let i = choose|i: int| 0 <= i < images.len() && images[i].0 == id;
        assert(all[i + 1].0 == id);
    }
    if exists|i: int| 0 <= i < all.len() && all[i].0 == id {
        let i = choose|i: int| 0 <= i < all.len() && all[i].0 == id;
        if i > 0 {
            assert(images[i - 1].0 == id);
        }
    }
}

} // verus!
