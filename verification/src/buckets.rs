//! Bucket listings persisted per profile: the data shapes and the pure path
//! and conversion steps. Serializing the container and touching the
//! filesystem happen in outside glue.

use vstd::prelude::*;
use vstd::string::StringExecFns;

verus! {

/// One bucket as persisted: its name and its creation date rendered as
/// text.
pub struct BucketDto {
    pub name: String,
    pub creation_date: String,
}

/// All buckets visible to one profile.
pub struct BucketsContainer {
    pub profile_name: String,
    pub buckets: Vec<BucketDto>,
}

/// Converts one listed bucket's fields into the persisted shape.
pub fn bucket_to_dto(name: String, creation_date: String) -> (dto: BucketDto)
    ensures
        dto.name == name,
        dto.creation_date == creation_date,
{
    BucketDto { name, creation_date }
}

/// Packs a profile's buckets for persisting.
pub fn buckets_container(profile_name: String, buckets: Vec<BucketDto>) -> (c: BucketsContainer)
    ensures
        c.profile_name == profile_name,
        c.buckets == buckets,
{
    BucketsContainer { profile_name, buckets }
}

/// The file name a profile's buckets are stored under.
pub fn buckets_file_name(profile: &str) -> (r: String)
    ensures
        r@ == profile@ + ".toml"@,
{
    let mut s = String::from_str(profile);
    s.append(".toml");
    s
}

/// The directory bucket files are stored in, under the data directory.
pub fn buckets_data_dir(data_directory: &str) -> (r: String)
    ensures
        r@ == data_directory@ + "/"@ + "buckets"@,
{
    let mut s = String::from_str(data_directory);
    s.append("/");
    s.append("buckets");
    s
}

/// The full path of a profile's bucket file.
pub fn buckets_file_path(data_directory: &str, profile: &str) -> (r: String)
    ensures
        r@ == data_directory@ + "/"@ + "buckets"@ + "/"@ + profile@ + ".toml"@,
{
    let mut s = buckets_data_dir(data_directory);
    s.append("/");
    let name = buckets_file_name(profile);
    s.append(name.as_str());
    s
}

} // verus!
