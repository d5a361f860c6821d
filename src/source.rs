use vstd::prelude::*;
use crate::model::MediaRef;

verus! {

/// A media item that a source platform lists beside a post, under a key that
/// the post's attachments refer to. An item may come without a URL.
#[derive(Clone, Debug)]
pub struct KeyedMedia {
    pub key: String,
    pub url: Option<String>,
    pub mime: String,
}

/// `i` is the first listed item with key `k`.
pub open spec fn first_with_key(found: Seq<KeyedMedia>, k: Seq<char>, i: int) -> bool {
    &&& 0 <= i < found.len()
    &&& found[i].key@ == k
    &&& forall|j: int| 0 <= j < i ==> found[j].key@ != k
}

/// The media that key `k` stands for: the first listed item with that key,
/// if it has a URL; nothing otherwise.
pub open spec fn media_for_key(found: Seq<KeyedMedia>, k: Seq<char>) -> Seq<MediaRef> {
    if exists|i: int| first_with_key(found, k, i) {
        let i = choose|i: int| first_with_key(found, k, i);
        match found[i].url {
            Some(u) => seq![MediaRef { url: u, mime: found[i].mime }],
            None => Seq::empty(),
        }
    } else {
        Seq::empty()
    }
}

/// The media of a post whose attachments name `keys`, in the order of `keys`.
pub open spec fn media_in_key_order(keys: Seq<String>, found: Seq<KeyedMedia>) -> Seq<MediaRef>
    decreases keys.len(),
{
    if keys.len() == 0 {
        Seq::empty()
    } else {
        media_in_key_order(keys.drop_last(), found) + media_for_key(found, keys.last()@)
    }
}

proof fn lemma_first_unique(found: Seq<KeyedMedia>, k: Seq<char>, i: int, j: int)
    requires
        first_with_key(found, k, i),
        first_with_key(found, k, j),
    ensures
        i == j,
{
}

/// Lays out a post's media in the order that its attachments name their keys,
/// each key taking the first listed item with that key; keys with no such
/// item, or whose item has no URL, are left out.
pub fn media_by_keys(keys: &Vec<String>, found: &Vec<KeyedMedia>) -> (r: Vec<MediaRef>)
    ensures
        r@ == media_in_key_order(keys@, found@),
{
    let mut r: Vec<MediaRef> = Vec::new();
    let mut i: usize = 0;
    while i < keys.len()
        invariant
            i <= keys@.len(),
            r@ == media_in_key_order(keys@.subrange(0, i as int), found@),
        decreases keys.len() - i,
    {
        let ghost before = keys@.subrange(0, i as int);
        let ghost next = keys@.subrange(0, i + 1);
        assert(next.drop_last() =~= before);
        assert(next.last() == keys@[i as int]);
        let mut j: usize = 0;
        while j < found.len() && !(found[j].key == keys[i])
            invariant
                i < keys@.len(),
                j <= found@.len(),
                forall|m: int| 0 <= m < j ==> found@[m].key@ != keys@[i as int]@,
            decreases found.len() - j,
        {
            j = j + 1;
        }
        if j < found.len() {
            proof {
                assert(first_with_key(found@, keys@[i as int]@, j as int));
                let c = choose|c: int| first_with_key(found@, keys@[i as int]@, c);
                lemma_first_unique(found@, keys@[i as int]@, c, j as int);
            }
            match &found[j].url {
                Some(u) => {
                    let m = MediaRef { url: u.clone(), mime: found[j].mime.clone() };
                    r.push(m);
                    assert(r@ =~= media_in_key_order(next, found@));
                },
                None => {
                    assert(r@ =~= media_in_key_order(next, found@));
                },
            }
        } else {
            assert(r@ =~= media_in_key_order(next, found@));
        }
        i = i + 1;
    }
    assert(keys@.subrange(0, keys@.len() as int) =~= keys@);
    r
}

} // verus!
