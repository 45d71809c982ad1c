use s3cli::facade::{
    bucket_exists, bucket_region, create_bucket, delete_bucket, delete_object, get_object,
    list_buckets, list_objects, upload_object, FALLBACK_REGION,
};
use s3cli::outcome::{FacadeError, Request};
use s3cli::paths::download_path;
use s3cli::spot::{
    request_spot_instance, spot_request, DEFAULT_IMAGE_ID, DEFAULT_INSTANCE_TYPE,
    DEFAULT_SPOT_PRICE,
};
use std::collections::BTreeMap;

fn names(v: &[&str]) -> Vec<String> {
    v.iter().map(|s| s.to_string()).collect()
}

/// A stand-in for the remote store: bucket name to (key to bytes).
struct Remote {
    buckets: BTreeMap<String, BTreeMap<String, Vec<u8>>>,
    files: BTreeMap<String, Vec<u8>>,
}

impl Remote {
    fn new() -> Remote {
        Remote { buckets: BTreeMap::new(), files: BTreeMap::new() }
    }

    fn bucket_listing(&self) -> Vec<String> {
        self.buckets.keys().cloned().collect()
    }

    fn key_listing(&self, bucket: &str) -> Vec<String> {
        match self.buckets.get(bucket) {
            Some(objects) => objects.keys().cloned().collect(),
            None => Vec::new(),
        }
    }

    fn perform(&mut self, q: &Request) {
        match q {
            Request::CreateBucket(b, _) => {
                self.buckets.insert(b.clone(), BTreeMap::new());
            }
            Request::DeleteBucket(b) => {
                self.buckets.remove(b);
            }
            Request::PutObject(b, k, p) => {
                let data = self.files[p].clone();
                self.buckets.get_mut(b).unwrap().insert(k.clone(), data);
            }
            Request::DeleteObject(b, k) => {
                self.buckets.get_mut(b).unwrap().remove(k);
            }
            Request::GetObject(b, k, p) => {
                let data = self.buckets[b][k].clone();
                self.files.insert(p.clone(), data);
            }
        }
    }
}

#[test]
fn create_delete_delete_again_scenario() {
    let mut remote = Remote::new();
    assert!(!bucket_exists(&remote.bucket_listing(), "test-bucket"));

    let q = create_bucket(&remote.bucket_listing(), "test-bucket", "us-west-2").unwrap();
    remote.perform(&q);
    assert!(bucket_exists(&remote.bucket_listing(), "test-bucket"));
    assert!(remote.key_listing("test-bucket").is_empty());

    let q = delete_bucket(&remote.bucket_listing(), &remote.key_listing("test-bucket"), "test-bucket").unwrap();
    remote.perform(&q);
    assert!(!bucket_exists(&remote.bucket_listing(), "test-bucket"));

    let e = delete_bucket(&remote.bucket_listing(), &remote.key_listing("test-bucket"), "test-bucket").unwrap_err();
    assert_eq!(e, FacadeError::BucketNotFound("test-bucket".to_string()));
    assert_ne!(e.exit_code(), 0);
    assert!(remote.buckets.is_empty());
}

#[test]
fn create_absent_bucket_then_exists() {
    let buckets = names(&["alpha", "beta"]);
    let q = create_bucket(&buckets, "gamma", "eu-west-1").unwrap();
    assert_eq!(q, Request::CreateBucket("gamma".to_string(), "eu-west-1".to_string()));
}

#[test]
fn create_present_bucket_already_exists() {
    let buckets = names(&["alpha", "beta"]);
    let e = create_bucket(&buckets, "beta", "eu-west-1").unwrap_err();
    assert_eq!(e, FacadeError::AlreadyExists("beta".to_string()));
}

#[test]
fn bucket_exists_scans_whole_listing() {
    let buckets = names(&["a", "b", "last"]);
    assert!(bucket_exists(&buckets, "a"));
    assert!(bucket_exists(&buckets, "last"));
    assert!(!bucket_exists(&buckets, "las"));
    assert!(!bucket_exists(&Vec::new(), "a"));
}

#[test]
fn list_buckets_reads_missing_names_as_empty() {
    let entries = vec![Some("one".to_string()), None, Some("two".to_string())];
    assert_eq!(list_buckets(&entries), names(&["one", "", "two"]));
    assert_eq!(list_buckets(&Vec::new()), Vec::<String>::new());
}

#[test]
fn list_objects_of_empty_bucket_is_empty() {
    let buckets = names(&["empty"]);
    assert_eq!(list_objects(&buckets, "empty", &Vec::new()), Ok(Vec::new()));
}

#[test]
fn list_objects_keeps_listing_order() {
    let buckets = names(&["photos"]);
    let entries = vec![Some("z.png".to_string()), Some("a.png".to_string()), None];
    assert_eq!(list_objects(&buckets, "photos", &entries), Ok(names(&["z.png", "a.png", ""])));
}

#[test]
fn list_objects_of_missing_bucket_not_found() {
    let buckets = names(&["photos"]);
    let e = list_objects(&buckets, "videos", &Vec::new()).unwrap_err();
    assert_eq!(e, FacadeError::BucketNotFound("videos".to_string()));
}

#[test]
fn delete_empty_bucket_then_absent() {
    let mut remote = Remote::new();
    remote.buckets.insert("old".to_string(), BTreeMap::new());
    let q = delete_bucket(&remote.bucket_listing(), &remote.key_listing("old"), "old").unwrap();
    assert_eq!(q, Request::DeleteBucket("old".to_string()));
    remote.perform(&q);
    assert!(!bucket_exists(&remote.bucket_listing(), "old"));
}

#[test]
fn delete_nonempty_bucket_conflict() {
    let buckets = names(&["full"]);
    let keys = names(&["k1"]);
    let e = delete_bucket(&buckets, &keys, "full").unwrap_err();
    assert_eq!(e, FacadeError::Conflict("full".to_string()));
}

#[test]
fn upload_to_missing_bucket_creates_it_first() {
    let buckets = names(&["other"]);
    let plan = upload_object(&buckets, "docs", "notes/report.txt", "us-west-2").unwrap();
    assert_eq!(
        plan,
        vec![
            Request::CreateBucket("docs".to_string(), "us-west-2".to_string()),
            Request::PutObject("docs".to_string(), "report.txt".to_string(), "notes/report.txt".to_string()),
        ]
    );
}

#[test]
fn upload_to_existing_bucket_only_puts() {
    let buckets = names(&["docs"]);
    let plan = upload_object(&buckets, "docs", "/tmp/a/b/photo.png", "us-west-2").unwrap();
    assert_eq!(
        plan,
        vec![Request::PutObject("docs".to_string(), "photo.png".to_string(), "/tmp/a/b/photo.png".to_string())]
    );
}

#[test]
fn upload_without_file_name_refused() {
    let buckets = names(&["docs"]);
    assert_eq!(
        upload_object(&buckets, "docs", "..", "us-west-2"),
        Err(FacadeError::NoFileName("..".to_string()))
    );
    assert_eq!(
        upload_object(&buckets, "docs", "/", "us-west-2"),
        Err(FacadeError::NoFileName("/".to_string()))
    );
}

#[test]
fn upload_then_get_round_trip() {
    let mut remote = Remote::new();
    let content = vec![0u8, 1, 2, 255, 7, 7];
    remote.files.insert("data/blob.bin".to_string(), content.clone());
    for q in upload_object(&remote.bucket_listing(), "store", "data/blob.bin", "us-west-2").unwrap() {
        remote.perform(&q);
    }
    let q = get_object(&remote.key_listing("store"), "store", "blob.bin").unwrap();
    assert_eq!(
        q,
        Request::GetObject("store".to_string(), "blob.bin".to_string(), "./test/blob.bin".to_string())
    );
    remote.perform(&q);
    assert_eq!(remote.files["./test/blob.bin"], content);
}

#[test]
fn absent_key_delete_and_get_not_found() {
    let buckets = names(&["b"]);
    let keys = names(&["present"]);
    let expected = FacadeError::KeyNotFound("b".to_string(), "absent".to_string());
    assert_eq!(delete_object(&buckets, &keys, "b", "absent"), Err(expected.clone()));
    assert_eq!(get_object(&keys, "b", "absent"), Err(expected));
}

#[test]
fn delete_object_of_missing_bucket_not_found() {
    let buckets = names(&["b"]);
    assert_eq!(
        delete_object(&buckets, &Vec::new(), "c", "k"),
        Err(FacadeError::BucketNotFound("c".to_string()))
    );
}

#[test]
fn delete_present_object() {
    let buckets = names(&["b"]);
    let keys = names(&["x", "k"]);
    assert_eq!(
        delete_object(&buckets, &keys, "b", "k"),
        Ok(Request::DeleteObject("b".to_string(), "k".to_string()))
    );
}

#[test]
fn download_path_is_under_test_directory() {
    assert_eq!(download_path("cat.jpg"), "./test/cat.jpg".to_string());
}

#[test]
fn region_resolution_order() {
    assert_eq!(bucket_region(Some("ap-south-1".to_string()), Some("eu-west-1".to_string())), "ap-south-1");
    assert_eq!(bucket_region(None, Some("eu-west-1".to_string())), "eu-west-1");
    assert_eq!(bucket_region(None, None), "us-west-2");
    assert_eq!(FALLBACK_REGION, "us-west-2");
}

#[test]
fn spot_request_defaults_and_encoded_script() {
    let r = request_spot_instance("echo hi");
    assert_eq!(r.image_id, DEFAULT_IMAGE_ID);
    assert_eq!(r.image_id, "ami-0c47a507d2c485dff");
    assert_eq!(r.instance_type, "t2.micro");
    assert_eq!(r.spot_price, "0.01");
    assert_eq!(DEFAULT_INSTANCE_TYPE, "t2.micro");
    assert_eq!(DEFAULT_SPOT_PRICE, "0.01");
    assert_eq!(r.instance_count, 1);
    assert_eq!(r.user_data, "ZWNobyBoaQ==");
}

#[test]
fn spot_request_with_given_parameters() {
    let r = spot_request("ami-1", "m5.large", "0.20", "");
    assert_eq!(r.image_id, "ami-1");
    assert_eq!(r.instance_type, "m5.large");
    assert_eq!(r.spot_price, "0.20");
    assert_eq!(r.instance_count, 1);
    assert_eq!(r.user_data, "");
    assert_eq!(spot_request("a", "b", "c", "ab").user_data, "YWI=");
    assert_eq!(spot_request("a", "b", "c", "abc").user_data, "YWJj");
}

#[test]
fn exit_codes_nonzero_and_distinct_per_class() {
    let s = || "x".to_string();
    let errors = vec![
        FacadeError::BucketNotFound(s()),
        FacadeError::AlreadyExists(s()),
        FacadeError::Conflict(s()),
        FacadeError::NoFileName(s()),
        FacadeError::Authentication(s()),
        FacadeError::Transport(s()),
        FacadeError::Io(s()),
    ];
    let codes: Vec<i32> = errors.iter().map(|e| e.exit_code()).collect();
    assert_eq!(codes, vec![2, 3, 4, 5, 6, 7, 8]);
    assert_eq!(FacadeError::KeyNotFound(s(), s()).exit_code(), 2);
}
