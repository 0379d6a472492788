//! The commands of the command-line client, and what each one asks the store.
pub use crate::utils::parse_bucket_and_key;
use crate::text::{split_at_first, split_first};
use crate::utils::{parse_bucket_and_prefix, split_first_slash};
use vstd::prelude::*;

verus! {

/// Run the daemon.
#[derive(Debug)]
pub struct RunCmd {}

/// Status of the daemon, or of a bucket or object (`bucket` or `bucket/key`).
#[derive(Debug)]
pub struct StatusCmd {
    pub bucket_and_key: String,
}

/// List buckets, or the objects of a bucket under a key prefix (`bucket/prefix`).
#[derive(Debug)]
pub struct ListCmd {
    pub bucket_and_prefix: String,
}

/// Get an object (`bucket/key`) to a file, or to standard output.
#[derive(Debug)]
pub struct GetCmd {
    pub bucket_and_key: String,
    pub outfile: Option<String>,
}

/// Put an object (`bucket/key`) from a file, or from standard input.
#[derive(Debug)]
pub struct PutCmd {
    pub bucket_and_key: String,
    pub infile: Option<String>,
}

/// Get or set the tags of a bucket (`bucket/`) or an object (`bucket/key`).
#[derive(Debug)]
pub struct TagCmd {
    pub bucket_and_key: String,
    /// Tags `name=value`; none given means that the tags are read.
    pub tag: Option<Vec<String>>,
    /// Reset previous tags instead of appending.
    pub reset: bool,
}

#[derive(Debug)]
pub enum Cmd {
    Run(RunCmd),
    Status(StatusCmd),
    List(ListCmd),
    Get(GetCmd),
    Put(PutCmd),
    Tag(TagCmd),
}

/// The client's command line.
#[derive(Debug)]
pub struct CLI {
    pub cmd: Cmd,
}

/// What a listing asks the store for.
#[derive(Debug)]
pub enum ListPlan {
    /// All buckets.
    Buckets,
    /// The objects of a bucket under a prefix, grouped by `/`.
    Objects { bucket: String, prefix: String },
}

impl ListCmd {
    /// An empty bucket lists the buckets; otherwise the objects of the bucket.
    pub fn plan(&self) -> (r: ListPlan)
        ensures
            ({
                let (b, p) = split_first_slash(self.bucket_and_prefix@);
                if b.len() == 0 {
                    r is Buckets
                } else {
                    r matches ListPlan::Objects { bucket, prefix } && bucket@ == b && prefix@ == match p {
                        Some(q) => q,
                        None => Seq::empty(),
                    }
                }
            }),
    {
        match parse_bucket_and_prefix(self.bucket_and_prefix.as_str()) {
            Ok((bucket, prefix)) => {
                if bucket.as_str().unicode_len() == 0 {
                    ListPlan::Buckets
                } else {
                    ListPlan::Objects { bucket, prefix }
                }
            },
            Err(_) => ListPlan::Buckets,
        }
    }
}

/// A tag: its key, and its value when one was given.
#[derive(Debug)]
pub struct Tag {
    pub key: String,
    pub value: Option<String>,
}

/// A tag from `name=value`: the key ends at the first `=`; without `=` the tag has no value.
pub open spec fn tag_parts(t: Seq<char>) -> (Seq<char>, Option<Seq<char>>) {
    split_at_first(t, '=')
}

/// Whether `tag` is the tag that `t` spells.
pub open spec fn is_tag_of(tag: Tag, t: Seq<char>) -> bool {
    &&& tag.key@ == tag_parts(t).0
    &&& match (tag.value, tag_parts(t).1) {
        (Some(a), Some(b)) => a@ == b,
        (None, None) => true,
        _ => false,
    }
}

pub fn parse_tag(t: &str) -> (r: Tag)
    ensures
        is_tag_of(r, t@),
{
    let (key, value) = split_first(t, '=');
    Tag { key, value }
}

/// What a tag command asks the store for.
#[derive(Debug)]
pub enum TagPlan {
    GetBucketTagging { bucket: String },
    GetObjectTagging { bucket: String, key: String },
    PutBucketTagging { bucket: String, tags: Vec<Tag> },
    PutObjectTagging { bucket: String, key: String, tags: Vec<Tag> },
}

impl TagCmd {
    /// Without tags the tags are read, with tags they are written; an empty
    /// key addresses the bucket. Fails with `Missing key` when the argument
    /// holds no `/`.
    pub fn plan(&self) -> (r: Result<TagPlan, String>)
        ensures
            ({
                let (b, k) = split_first_slash(self.bucket_and_key@);
                match k {
                    None => r matches Err(e) && e@ == "Missing key"@,
                    Some(k) => match r {
                        Ok(TagPlan::GetBucketTagging { bucket }) => self.tag is None && k.len() == 0
                            && bucket@ == b,
                        Ok(TagPlan::GetObjectTagging { bucket, key }) => self.tag is None && k.len()
                            > 0 && bucket@ == b && key@ == k,
                        Ok(TagPlan::PutBucketTagging { bucket, tags }) => self.tag is Some && k.len()
                            == 0 && bucket@ == b && tags@.len() == self.tag.unwrap()@.len()
                            && forall|i: int|
                            0 <= i < tags@.len() ==> is_tag_of(#[trigger] tags@[i], self.tag.unwrap()@[i]@),
                        Ok(TagPlan::PutObjectTagging { bucket, key, tags }) => self.tag is Some
                            && k.len() > 0 && bucket@ == b && key@ == k && tags@.len()
                            == self.tag.unwrap()@.len() && forall|i: int|
                            0 <= i < tags@.len() ==> is_tag_of(#[trigger] tags@[i], self.tag.unwrap()@[i]@),
                        Err(_) => false,
                    },
                }
            }),
    {
        let (bucket, key) = match parse_bucket_and_key(self.bucket_and_key.as_str()) {
            Ok(bk) => bk,
            Err(e) => {
                return Err(e);
            },
        };
        match &self.tag {
            None => {
                if key.as_str().unicode_len() == 0 {
                    Ok(TagPlan::GetBucketTagging { bucket })
                } else {
                    Ok(TagPlan::GetObjectTagging { bucket, key })
                }
            },
            Some(list) => {
                let mut tags: Vec<Tag> = Vec::new();
                let mut i: usize = 0;
                while i < list.len()
                    invariant
                        i <= list@.len(),
                        tags@.len() == i,
                        forall|j: int|
                            0 <= j < i ==> is_tag_of(#[trigger] tags@[j], list@[j]@),
                    decreases list@.len() - i,
                {
                    tags.push(parse_tag(list[i].as_str()));
                    i = i + 1;
                }
                if key.as_str().unicode_len() == 0 {
                    Ok(TagPlan::PutBucketTagging { bucket, tags })
                } else {
                    Ok(TagPlan::PutObjectTagging { bucket, key, tags })
                }
            },
        }
    }
}

} // verus!
