use vstd::prelude::*;
use vstd::string::StringSliceAdditionalSpecFns;

verus! {

/// The standard, padded base64 text of a byte sequence.
pub uninterp spec fn base64_of(b: Seq<u8>) -> Seq<char>;

/// The length of the padded base64 text of `n` bytes: four characters for
/// each started group of three bytes.
pub open spec fn base64_len(n: nat) -> nat {
    4 * ((n + 2) / 3)
}

/// Relies on `base64::encode` (0.13): the standard alphabet with padding,
/// four characters for each started group of three bytes. It panics only
/// where that length overflows `usize`, which `requires` rules out.
#[verifier::external_body]
fn encode_base64(b: &[u8]) -> (r: String)
    requires
        base64_len(b@.len()) <= usize::MAX,
    ensures
        r@ == base64_of(b@),
        r@.len() == base64_len(b@.len()),
{
    base64::encode(b)
}

/// The machine image that a spot request asks for unless told otherwise.
pub const DEFAULT_IMAGE_ID: &'static str = "ami-0c47a507d2c485dff";

/// The instance shape that a spot request asks for unless told otherwise.
pub const DEFAULT_INSTANCE_TYPE: &'static str = "t2.micro";

/// The highest price per instance hour that a spot request offers unless
/// told otherwise.
pub const DEFAULT_SPOT_PRICE: &'static str = "0.01";

/// One request for spot instances, ready to send to the provisioning API.
#[derive(Debug, Clone, PartialEq, Eq)]
pub struct SpotRequestSpec {
    pub image_id: String,
    pub instance_type: String,
    pub spot_price: String,
    pub instance_count: i64,
    /// The bootstrap script, base64-encoded as the API requires.
    pub user_data: String,
}

/// Builds the request for exactly one instance of `image_id` and
/// `instance_type` at no more than `spot_price` per hour, with the bootstrap
/// script encoded in base64.
pub fn spot_request(image_id: &str, instance_type: &str, spot_price: &str, user_data_script: &str) -> (r: SpotRequestSpec)
    requires
        user_data_script.spec_bytes().len() <= usize::MAX / 2,
    ensures
        r.image_id@ == image_id@,
        r.instance_type@ == instance_type@,
        r.spot_price@ == spot_price@,
        r.instance_count == 1,
        r.user_data@ == base64_of(user_data_script.spec_bytes()),
{
    let bytes = user_data_script.as_bytes();
    assert(base64_len(bytes@.len()) <= usize::MAX) by (nonlinear_arith)
        requires
            bytes@.len() <= usize::MAX / 2,
    {
    }
    SpotRequestSpec {
        image_id: String::from_str(image_id),
        instance_type: String::from_str(instance_type),
        spot_price: String::from_str(spot_price),
        instance_count: 1,
        user_data: encode_base64(bytes),
    }
}

/// Builds the request for one spot instance with the default image, shape
/// and price, carrying `user_data_script` as its bootstrap script.
pub fn request_spot_instance(user_data_script: &str) -> (r: SpotRequestSpec)
    requires
        user_data_script.spec_bytes().len() <= usize::MAX / 2,
    ensures
        r.image_id@ == DEFAULT_IMAGE_ID@,
        r.instance_type@ == DEFAULT_INSTANCE_TYPE@,
        r.spot_price@ == DEFAULT_SPOT_PRICE@,
        r.instance_count == 1,
        r.user_data@ == base64_of(user_data_script.spec_bytes()),
{
    spot_request(DEFAULT_IMAGE_ID, DEFAULT_INSTANCE_TYPE, DEFAULT_SPOT_PRICE, user_data_script)
}

} // verus!
