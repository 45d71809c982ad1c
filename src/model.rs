use vstd::prelude::*;
use crate::outcome::Effect;

verus! {

/// What the world looks like to the façade: the remote store, bucket name to
/// (key to object bytes), and the local files, path to bytes.
pub struct World {
    pub store: Map<Seq<char>, Map<Seq<char>, Seq<u8>>>,
    pub files: Map<Seq<char>, Seq<u8>>,
}

/// `names` is a bucket listing of `w`: it names exactly the buckets present.
pub open spec fn lists_buckets(w: World, names: Seq<Seq<char>>) -> bool {
    forall|n: Seq<char>| names.contains(n) <==> w.store.dom().contains(n)
}

/// `names` is an object listing of bucket `b` in `w`: it names exactly the
/// keys present in `b`.
pub open spec fn lists_keys(w: World, b: Seq<char>, names: Seq<Seq<char>>) -> bool {
    w.store.dom().contains(b) && forall|k: Seq<char>| names.contains(k) <==> w.store[b].dom().contains(k)
}

/// The world after the remote store has carried out one request.
pub open spec fn apply(w: World, e: Effect) -> World {
    match e {
        Effect::CreateBucket(b, _) => World { store: w.store.insert(b, Map::empty()), files: w.files },
        Effect::DeleteBucket(b) => World { store: w.store.remove(b), files: w.files },
        Effect::PutObject(b, k, p) => World {
            store: w.store.insert(b, w.store[b].insert(k, w.files[p])),
            files: w.files,
        },
        Effect::DeleteObject(b, k) => World { store: w.store.insert(b, w.store[b].remove(k)), files: w.files },
        Effect::GetObject(b, k, p) => World { store: w.store, files: w.files.insert(p, w.store[b][k]) },
    }
}

/// The world after a sequence of requests, carried out in order.
pub open spec fn apply_all(w: World, es: Seq<Effect>) -> World
    decreases es.len(),
{
    if es.len() == 0 {
        w
    } else {
        apply_all(apply(w, es[0]), es.drop_first())
    }
}

} // verus!
