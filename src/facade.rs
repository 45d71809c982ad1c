use vstd::prelude::*;
use crate::listing::{is_listed, listed_names, name_or_empty, names_of};
use crate::outcome::{decision_view, plan_view, Effect, FacadeError, Fault, Request};
use crate::paths::{download_path, download_path_of, file_name, file_name_of};

verus! {

/// The region used where neither an override nor the environment gives one.
pub const FALLBACK_REGION: &'static str = "us-west-2";

/// The region resolution chain: the explicit override, else the region that
/// the environment or profile configures, else the fallback region.
pub open spec fn region_choice(explicit: Option<Seq<char>>, configured: Option<Seq<char>>) -> Seq<char> {
    match explicit {
        Some(r) => r,
        None => match configured {
            Some(r) => r,
            None => "us-west-2"@,
        },
    }
}

/// The view of an optional string.
pub open spec fn opt_view(o: Option<String>) -> Option<Seq<char>> {
    match o {
        Some(s) => Some(s@),
        None => None,
    }
}

/// Resolves the region from the explicit override and the configured region,
/// in that order, falling back to `FALLBACK_REGION`. Never fails.
pub fn bucket_region(explicit: Option<String>, configured: Option<String>) -> (r: String)
    ensures
        r@ == region_choice(opt_view(explicit), opt_view(configured)),
{
    match explicit {
        Some(r) => r,
        None => match configured {
            Some(r) => r,
            None => {
                proof {
                    reveal_strlit("us-west-2");
                }
                String::from_str(FALLBACK_REGION)
            },
        },
    }
}

/// The names of all buckets, in the order of the remote listing.
pub fn list_buckets(entries: &Vec<Option<String>>) -> (r: Vec<String>)
    ensures
        names_of(r@) == entries@.map_values(|o: Option<String>| name_or_empty(o)),
{
    listed_names(entries)
}

/// Whether the bucket listing names `bucket_name`, by a scan of the whole
/// listing.
pub fn bucket_exists(buckets: &Vec<String>, bucket_name: &str) -> (r: bool)
    ensures
        r == names_of(buckets@).contains(bucket_name@),
{
    is_listed(buckets, bucket_name)
}

/// What creating bucket `b` in `region` comes to, given the bucket listing.
pub open spec fn create_decision(buckets: Seq<Seq<char>>, b: Seq<char>, region: Seq<char>) -> Result<Effect, Fault> {
    if buckets.contains(b) {
        Err(Fault::AlreadyExists(b))
    } else {
        Ok(Effect::CreateBucket(b, region))
    }
}

/// Decides the creation of `bucket` in `region`: refused with `AlreadyExists`
/// where the listing names it, else a request to create it.
pub fn create_bucket(buckets: &Vec<String>, bucket: &str, region: &str) -> (r: Result<Request, FacadeError>)
    ensures
        decision_view(r) == create_decision(names_of(buckets@), bucket@, region@),
{
    if bucket_exists(buckets, bucket) {
        Err(FacadeError::AlreadyExists(String::from_str(bucket)))
    } else {
        Ok(Request::CreateBucket(String::from_str(bucket), String::from_str(region)))
    }
}

/// What deleting bucket `b` comes to, given the bucket listing and the
/// listing of `b`'s keys.
pub open spec fn delete_bucket_decision(buckets: Seq<Seq<char>>, keys: Seq<Seq<char>>, b: Seq<char>) -> Result<Effect, Fault> {
    if !buckets.contains(b) {
        Err(Fault::BucketNotFound(b))
    } else if keys.len() > 0 {
        Err(Fault::Conflict(b))
    } else {
        Ok(Effect::DeleteBucket(b))
    }
}

/// Decides the deletion of `bucket`: `BucketNotFound` where the bucket
/// listing does not name it (the key listing is then not read), `Conflict`
/// where its key listing is not empty, else a request to delete it.
pub fn delete_bucket(buckets: &Vec<String>, keys: &Vec<String>, bucket: &str) -> (r: Result<Request, FacadeError>)
    ensures
        decision_view(r) == delete_bucket_decision(names_of(buckets@), names_of(keys@), bucket@),
{
    if !bucket_exists(buckets, bucket) {
        Err(FacadeError::BucketNotFound(String::from_str(bucket)))
    } else if keys.len() != 0 {
        Err(FacadeError::Conflict(String::from_str(bucket)))
    } else {
        Ok(Request::DeleteBucket(String::from_str(bucket)))
    }
}

/// What listing the keys of bucket `b` comes to, given the bucket listing
/// and the names of `b`'s remote key listing.
pub open spec fn list_objects_decision(buckets: Seq<Seq<char>>, b: Seq<char>, keys: Seq<Seq<char>>) -> Result<Seq<Seq<char>>, Fault> {
    if buckets.contains(b) {
        Ok(keys)
    } else {
        Err(Fault::BucketNotFound(b))
    }
}

/// The keys of bucket `bucket`, in the order of its remote listing, or
/// `BucketNotFound` where the bucket listing does not name it. An empty
/// bucket gives an empty sequence.
pub fn list_objects(buckets: &Vec<String>, bucket: &str, entries: &Vec<Option<String>>) -> (r: Result<Vec<String>, FacadeError>)
    ensures
        match r {
            Ok(keys) => Ok(names_of(keys@)),
            Err(e) => Err(e@),
        } == list_objects_decision(
            names_of(buckets@),
            bucket@,
            entries@.map_values(|o: Option<String>| name_or_empty(o)),
        ),
{
    if !bucket_exists(buckets, bucket) {
        Err(FacadeError::BucketNotFound(String::from_str(bucket)))
    } else {
        Ok(listed_names(entries))
    }
}

/// What uploading the local file `p` to bucket `b` comes to: the bucket is
/// created in `region` first where the listing does not name it, and the
/// object is stored under the file's name.
pub open spec fn upload_plan(buckets: Seq<Seq<char>>, b: Seq<char>, p: Seq<char>, region: Seq<char>) -> Result<Seq<Effect>, Fault> {
    match file_name_of(p) {
        None => Err(Fault::NoFileName(p)),
        Some(k) => {
            let put = seq![Effect::PutObject(b, k, p)];
            if buckets.contains(b) {
                Ok(put)
            } else {
                Ok(seq![Effect::CreateBucket(b, region)] + put)
            }
        },
    }
}

/// Decides the upload of local file `filepath` to `bucket`: `NoFileName`
/// where the path has no final component, else the requests to make in
/// order, the creation of the bucket in `region` where the listing does not
/// name it, then the storing of the file under its name.
pub fn upload_object(buckets: &Vec<String>, bucket: &str, filepath: &str, region: &str) -> (r: Result<Vec<Request>, FacadeError>)
    ensures
        plan_view(r) == upload_plan(names_of(buckets@), bucket@, filepath@, region@),
{
    let key = match file_name(filepath) {
        Some(k) => k,
        None => {
            return Err(FacadeError::NoFileName(String::from_str(filepath)));
        },
    };
    let mut plan: Vec<Request> = Vec::new();
    match create_bucket(buckets, bucket, region) {
        Ok(q) => plan.push(q),
        Err(_) => {},
    }
    plan.push(Request::PutObject(String::from_str(bucket), key, String::from_str(filepath)));
    proof {
        let put = seq![Effect::PutObject(bucket@, file_name_of(filepath@)->Some_0, filepath@)];
        if names_of(buckets@).contains(bucket@) {
            assert(plan@.map_values(|q: Request| q@) =~= put);
        } else {
            assert(plan@.map_values(|q: Request| q@) =~= seq![Effect::CreateBucket(bucket@, region@)] + put);
        }
    }
    Ok(plan)
}

/// What deleting key `k` from bucket `b` comes to, given the bucket listing
/// and the listing of `b`'s keys.
pub open spec fn delete_object_decision(buckets: Seq<Seq<char>>, keys: Seq<Seq<char>>, b: Seq<char>, k: Seq<char>) -> Result<Effect, Fault> {
    if !buckets.contains(b) {
        Err(Fault::BucketNotFound(b))
    } else if !keys.contains(k) {
        Err(Fault::KeyNotFound(b, k))
    } else {
        Ok(Effect::DeleteObject(b, k))
    }
}

/// Decides the deletion of `key` from `bucket`: `BucketNotFound` where the
/// bucket listing does not name the bucket (the key listing is then not
/// read), `KeyNotFound` where its key listing does not name the key, else a
/// request to delete the object.
pub fn delete_object(buckets: &Vec<String>, keys: &Vec<String>, bucket: &str, key: &str) -> (r: Result<Request, FacadeError>)
    ensures
        decision_view(r) == delete_object_decision(names_of(buckets@), names_of(keys@), bucket@, key@),
{
    if !bucket_exists(buckets, bucket) {
        Err(FacadeError::BucketNotFound(String::from_str(bucket)))
    } else if !is_listed(keys, key) {
        Err(FacadeError::KeyNotFound(String::from_str(bucket), String::from_str(key)))
    } else {
        Ok(Request::DeleteObject(String::from_str(bucket), String::from_str(key)))
    }
}

/// What fetching key `k` of bucket `b` comes to, given the listing of `b`'s
/// keys. The bucket listing is not consulted.
pub open spec fn get_object_decision(keys: Seq<Seq<char>>, b: Seq<char>, k: Seq<char>) -> Result<Effect, Fault> {
    if !keys.contains(k) {
        Err(Fault::KeyNotFound(b, k))
    } else {
        Ok(Effect::GetObject(b, k, download_path_of(k)))
    }
}

/// Decides the download of `key` from `bucket`: `KeyNotFound` where the key
/// listing does not name it, else a request to write the object to its
/// download path.
pub fn get_object(keys: &Vec<String>, bucket: &str, key: &str) -> (r: Result<Request, FacadeError>)
    ensures
        decision_view(r) == get_object_decision(names_of(keys@), bucket@, key@),
{
    if !is_listed(keys, key) {
        Err(FacadeError::KeyNotFound(String::from_str(bucket), String::from_str(key)))
    } else {
        Ok(Request::GetObject(String::from_str(bucket), String::from_str(key), download_path(key)))
    }
}

} // verus!
