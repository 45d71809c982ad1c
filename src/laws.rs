use vstd::prelude::*;
use crate::facade::{
    create_decision, delete_bucket_decision, delete_object_decision, get_object_decision,
    list_objects_decision, upload_plan,
};
use crate::model::{apply, apply_all, lists_buckets, lists_keys, World};
use crate::outcome::{Effect, Fault};
use crate::paths::{download_path_of, file_name_of};

verus! {

/// A key listing of a bucket with no objects is empty, and one of a bucket
/// with an object is not.
proof fn key_listing_empty_iff(w: World, b: Seq<char>, keys: Seq<Seq<char>>)
    requires
        lists_keys(w, b, keys),
    ensures
        keys.len() == 0 <==> w.store[b].dom().is_empty(),
{
    if keys.len() > 0 {
        assert(keys.contains(keys[0]));
        assert(w.store[b].dom().contains(keys[0]));
    } else {
        if !w.store[b].dom().is_empty() {
            let k = w.store[b].dom().choose();
            assert(w.store[b].dom().contains(k));
            assert(keys.contains(k));
        }
    }
}

/// Creating a bucket that the store lacks is decided as a creation, and
/// every bucket listing of the store afterwards names the bucket.
pub proof fn create_absent_then_exists(w: World, buckets: Seq<Seq<char>>, b: Seq<char>, region: Seq<char>)
    requires
        lists_buckets(w, buckets),
        !w.store.dom().contains(b),
    ensures
        create_decision(buckets, b, region) == Ok::<Effect, Fault>(Effect::CreateBucket(b, region)),
        forall|after: Seq<Seq<char>>|
            #[trigger] lists_buckets(apply(w, Effect::CreateBucket(b, region)), after) ==> after.contains(b),
{
    assert(!buckets.contains(b));
    assert forall|after: Seq<Seq<char>>|
        #[trigger] lists_buckets(apply(w, Effect::CreateBucket(b, region)), after) implies after.contains(b) by {
        assert(apply(w, Effect::CreateBucket(b, region)).store.dom().contains(b));
    }
}

/// Creating a bucket that the store already holds is refused with
/// `AlreadyExists`, and no request is made.
pub proof fn create_present_refused(w: World, buckets: Seq<Seq<char>>, b: Seq<char>, region: Seq<char>)
    requires
        lists_buckets(w, buckets),
        w.store.dom().contains(b),
    ensures
        create_decision(buckets, b, region) == Err::<Effect, Fault>(Fault::AlreadyExists(b)),
{
    assert(buckets.contains(b));
}

/// Deleting a bucket with no objects is decided as its deletion, and every
/// bucket listing of the store afterwards lacks it.
pub proof fn delete_empty_then_absent(w: World, buckets: Seq<Seq<char>>, keys: Seq<Seq<char>>, b: Seq<char>)
    requires
        lists_buckets(w, buckets),
        lists_keys(w, b, keys),
        w.store[b].dom().is_empty(),
    ensures
        delete_bucket_decision(buckets, keys, b) == Ok::<Effect, Fault>(Effect::DeleteBucket(b)),
        forall|after: Seq<Seq<char>>|
            #[trigger] lists_buckets(apply(w, Effect::DeleteBucket(b)), after) ==> !after.contains(b),
{
    key_listing_empty_iff(w, b, keys);
    assert(buckets.contains(b));
    assert forall|after: Seq<Seq<char>>|
        #[trigger] lists_buckets(apply(w, Effect::DeleteBucket(b)), after) implies !after.contains(b) by {
        assert(!apply(w, Effect::DeleteBucket(b)).store.dom().contains(b));
    }
}

/// Deleting a bucket that holds an object is refused with `Conflict`, and
/// no request is made, so the bucket and its objects stay as they are.
pub proof fn delete_nonempty_refused(w: World, buckets: Seq<Seq<char>>, keys: Seq<Seq<char>>, b: Seq<char>)
    requires
        lists_buckets(w, buckets),
        lists_keys(w, b, keys),
        !w.store[b].dom().is_empty(),
    ensures
        delete_bucket_decision(buckets, keys, b) == Err::<Effect, Fault>(Fault::Conflict(b)),
{
    key_listing_empty_iff(w, b, keys);
    assert(buckets.contains(b));
}

/// Uploading a readable local file and then fetching the key named after
/// it writes, at the download path, exactly the bytes of the file.
pub proof fn upload_then_get_round_trip(w: World, buckets: Seq<Seq<char>>, b: Seq<char>, p: Seq<char>, region: Seq<char>)
    requires
        lists_buckets(w, buckets),
        file_name_of(p) is Some,
        w.files.dom().contains(p),
    ensures
        upload_plan(buckets, b, p, region) is Ok,
        forall|keys: Seq<Seq<char>>|
            #[trigger] lists_keys(apply_all(w, upload_plan(buckets, b, p, region)->Ok_0), b, keys) ==> {
                let k = file_name_of(p)->Some_0;
                let w1 = apply_all(w, upload_plan(buckets, b, p, region)->Ok_0);
                &&& get_object_decision(keys, b, k) == Ok::<Effect, Fault>(Effect::GetObject(b, k, download_path_of(k)))
                &&& apply(w1, Effect::GetObject(b, k, download_path_of(k))).files[download_path_of(k)] == w.files[p]
            },
{
    let k = file_name_of(p)->Some_0;
    let plan = upload_plan(buckets, b, p, region)->Ok_0;
    let put = Effect::PutObject(b, k, p);
    let w1 = apply_all(w, plan);
    if buckets.contains(b) {
        assert(plan =~= seq![put]);
        assert(plan.drop_first() =~= Seq::<Effect>::empty());
        assert(apply_all(apply(w, put), Seq::<Effect>::empty()) == apply(w, put));
        assert(w1 == apply(w, put));
    } else {
        let create = Effect::CreateBucket(b, region);
        assert(plan =~= seq![create, put]);
        assert(plan.drop_first() =~= seq![put]);
        assert(plan.drop_first().drop_first() =~= Seq::<Effect>::empty());
        let w0 = apply(w, create);
        assert(apply_all(apply(w0, put), Seq::<Effect>::empty()) == apply(w0, put));
        assert(apply_all(w0, seq![put]) == apply_all(apply(w0, put), seq![put].drop_first()));
        assert(seq![put].drop_first() =~= Seq::<Effect>::empty());
        assert(w1 == apply(w0, put));
    }
    assert(w1.files == w.files);
    assert(w1.store[b][k] == w.files[p]);
    assert forall|keys: Seq<Seq<char>>| #[trigger] lists_keys(w1, b, keys) implies
        get_object_decision(keys, b, k) == Ok::<Effect, Fault>(Effect::GetObject(b, k, download_path_of(k))) by {
        assert(w1.store[b].dom().contains(k));
        assert(keys.contains(k));
    }
}

/// Deleting or fetching a key that the bucket lacks is refused with
/// `KeyNotFound`, and no request is made.
pub proof fn absent_key_not_found(w: World, buckets: Seq<Seq<char>>, keys: Seq<Seq<char>>, b: Seq<char>, k: Seq<char>)
    requires
        lists_buckets(w, buckets),
        lists_keys(w, b, keys),
        !w.store[b].dom().contains(k),
    ensures
        delete_object_decision(buckets, keys, b, k) == Err::<Effect, Fault>(Fault::KeyNotFound(b, k)),
        get_object_decision(keys, b, k) == Err::<Effect, Fault>(Fault::KeyNotFound(b, k)),
{
    assert(buckets.contains(b));
    assert(!keys.contains(k));
}

/// Listing the keys of an existing bucket with no objects gives the empty
/// sequence, not an error.
pub proof fn list_empty_bucket(w: World, buckets: Seq<Seq<char>>, keys: Seq<Seq<char>>, b: Seq<char>)
    requires
        lists_buckets(w, buckets),
        lists_keys(w, b, keys),
        w.store[b].dom().is_empty(),
    ensures
        list_objects_decision(buckets, b, keys) == Ok::<Seq<Seq<char>>, Fault>(Seq::empty()),
{
    key_listing_empty_iff(w, b, keys);
    assert(buckets.contains(b));
    assert(keys =~= Seq::<Seq<char>>::empty());
}

} // verus!
