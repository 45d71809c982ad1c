use vstd::prelude::*;

verus! {

/// Why an operation of the façade did not complete.
#[derive(Debug, Clone, PartialEq, Eq)]
pub enum FacadeError {
    /// The named bucket is not in the store's bucket listing.
    BucketNotFound(String),
    /// The key (second field) is not in the listing of the bucket (first field).
    KeyNotFound(String, String),
    /// A bucket of that name is already in the store's bucket listing.
    AlreadyExists(String),
    /// The bucket still holds objects and cannot be deleted.
    Conflict(String),
    /// The local path names no file, so no object key can be derived from it.
    NoFileName(String),
    /// No credentials could be found for the session.
    Authentication(String),
    /// The remote API reported a failure.
    Transport(String),
    /// A local file could not be read or written.
    Io(String),
}

/// The mathematical form of a `FacadeError`.
pub enum Fault {
    BucketNotFound(Seq<char>),
    KeyNotFound(Seq<char>, Seq<char>),
    AlreadyExists(Seq<char>),
    Conflict(Seq<char>),
    NoFileName(Seq<char>),
    Authentication(Seq<char>),
    Transport(Seq<char>),
    Io(Seq<char>),
}

impl View for FacadeError {
    type V = Fault;

    open spec fn view(&self) -> Fault {
        match self {
            FacadeError::BucketNotFound(b) => Fault::BucketNotFound(b@),
            FacadeError::KeyNotFound(b, k) => Fault::KeyNotFound(b@, k@),
            FacadeError::AlreadyExists(b) => Fault::AlreadyExists(b@),
            FacadeError::Conflict(b) => Fault::Conflict(b@),
            FacadeError::NoFileName(p) => Fault::NoFileName(p@),
            FacadeError::Authentication(m) => Fault::Authentication(m@),
            FacadeError::Transport(m) => Fault::Transport(m@),
            FacadeError::Io(m) => Fault::Io(m@),
        }
    }
}

/// The process exit code for an error: non-zero, and distinct for each class.
pub open spec fn exit_code_of(f: Fault) -> i32 {
    match f {
        Fault::BucketNotFound(_) => 2,
        Fault::KeyNotFound(_, _) => 2,
        Fault::AlreadyExists(_) => 3,
        Fault::Conflict(_) => 4,
        Fault::NoFileName(_) => 5,
        Fault::Authentication(_) => 6,
        Fault::Transport(_) => 7,
        Fault::Io(_) => 8,
    }
}

impl FacadeError {
    /// The exit code with which the command-line tool ends on this error.
    pub fn exit_code(&self) -> (r: i32)
        ensures
            r == exit_code_of(self@),
            r != 0,
    {
        match self {
            FacadeError::BucketNotFound(_) => 2,
            FacadeError::KeyNotFound(_, _) => 2,
            FacadeError::AlreadyExists(_) => 3,
            FacadeError::Conflict(_) => 4,
            FacadeError::NoFileName(_) => 5,
            FacadeError::Authentication(_) => 6,
            FacadeError::Transport(_) => 7,
            FacadeError::Io(_) => 8,
        }
    }
}

/// A call to the remote store that the façade has decided to make, once its
/// pre-conditions were checked against a listing.
#[derive(Debug, Clone, PartialEq, Eq)]
pub enum Request {
    /// Create the bucket (first field) in the region (second field).
    CreateBucket(String, String),
    /// Delete the (empty) bucket.
    DeleteBucket(String),
    /// Store the contents of the local file (third field) in the bucket
    /// (first field) under the key (second field).
    PutObject(String, String, String),
    /// Delete the key (second field) from the bucket (first field).
    DeleteObject(String, String),
    /// Write the object of the bucket (first field) and key (second field) to
    /// the local path (third field).
    GetObject(String, String, String),
}

/// The mathematical form of a `Request`.
pub enum Effect {
    CreateBucket(Seq<char>, Seq<char>),
    DeleteBucket(Seq<char>),
    PutObject(Seq<char>, Seq<char>, Seq<char>),
    DeleteObject(Seq<char>, Seq<char>),
    GetObject(Seq<char>, Seq<char>, Seq<char>),
}

impl View for Request {
    type V = Effect;

    open spec fn view(&self) -> Effect {
        match self {
            Request::CreateBucket(b, r) => Effect::CreateBucket(b@, r@),
            Request::DeleteBucket(b) => Effect::DeleteBucket(b@),
            Request::PutObject(b, k, p) => Effect::PutObject(b@, k@, p@),
            Request::DeleteObject(b, k) => Effect::DeleteObject(b@, k@),
            Request::GetObject(b, k, p) => Effect::GetObject(b@, k@, p@),
        }
    }
}

/// The view of a decision that yields at most one request.
pub open spec fn decision_view(r: Result<Request, FacadeError>) -> Result<Effect, Fault> {
    match r {
        Ok(q) => Ok(q@),
        Err(e) => Err(e@),
    }
}

/// The view of a decision that yields a sequence of requests, made in order.
pub open spec fn plan_view(r: Result<Vec<Request>, FacadeError>) -> Result<Seq<Effect>, Fault> {
    match r {
        Ok(qs) => Ok(qs@.map_values(|q: Request| q@)),
        Err(e) => Err(e@),
    }
}

} // verus!
