//! The write-ahead queue: one file per buffered object under a root
//! directory, named by the percent-encoded `bucket/key`.
use crate::encoding::{ascii_text, lemma_decode_encode, percent_decode, percent_encode, url_decode, url_encode};
use crate::text::{find_char, index_of_char, lemma_index_of_char_bounds};
use vstd::prelude::*;
use vstd::utf8::*;

verus! {

/// The queue directory that a gateway uses unless told otherwise.
pub const WRITE_QUEUE_DIR: &'static str = ".s3d/write_queue";

/// The file name of the queue entry for an object: `bucket/key`, percent-encoded.
pub open spec fn entry_name(bucket: Seq<char>, key: Seq<char>) -> Seq<char> {
    ascii_text(percent_encode(encode_utf8(bucket + seq!['/'] + key)))
}

/// The bucket and key that a queue entry's file name stands for: its decoded
/// text split at the first `/`. `None` when the name does not decode to
/// UTF-8 text or holds no `/`.
pub open spec fn entry_parts(name: Seq<char>) -> Option<(Seq<char>, Seq<char>)> {
    let bytes = percent_decode(encode_utf8(name));
    if !valid_utf8(bytes) {
        None
    } else {
        let t = decode_utf8(bytes);
        let i = index_of_char(t, '/');
        if i < t.len() {
            Some((t.take(i), t.skip(i + 1)))
        } else {
            None
        }
    }
}

/// `dir/name`.
pub open spec fn path_in(dir: Seq<char>, name: Seq<char>) -> Seq<char> {
    dir + seq!['/'] + name
}

/// An upload that a flush pass has to make: the queue file to read, and the
/// bucket and key to write it to.
#[derive(Debug)]
pub struct FlushJob {
    pub file: String,
    pub bucket: String,
    pub key: String,
}

/// The jobs for the entries of a directory listing, in listing order; a name
/// that stands for no bucket and key is passed over.
pub open spec fn jobs_of(root: Seq<char>, names: Seq<String>) -> Seq<(Seq<char>, Seq<char>, Seq<char>)>
    decreases names.len(),
{
    if names.len() == 0 {
        seq![]
    } else {
        let earlier = jobs_of(root, names.drop_last());
        match entry_parts(names.last()@) {
            Some((b, k)) => earlier.push((path_in(root, names.last()@), b, k)),
            None => earlier,
        }
    }
}

pub open spec fn job_view(j: FlushJob) -> (Seq<char>, Seq<char>, Seq<char>) {
    (j.file@, j.bucket@, j.key@)
}

/// The queue of buffered writes under the directory `root`.
#[derive(Debug)]
pub struct WriteQueue {
    pub root: String,
}

impl WriteQueue {
    pub fn new(root: &str) -> (r: WriteQueue)
        ensures
            r.root@ == root@,
    {
        WriteQueue { root: root.to_owned() }
    }

    /// The path of the queue file of an object.
    pub fn to_file_name(&self, bucket: &str, key: &str) -> (r: String)
        ensures
            r@ == path_in(self.root@, entry_name(bucket@, key@)),
    {
        proof {
            reveal_strlit("/");
        }
        let mut joined = bucket.to_owned();
        joined.append("/");
        joined.append(key);
        assert("/"@ =~= seq!['/']);
        assert(joined@ =~= bucket@ + seq!['/'] + key@);
        let name = url_encode(joined.as_str());
        self.entry_path(name.as_str())
    }

    /// The path of a queue file from its name.
    pub fn entry_path(&self, name: &str) -> (r: String)
        ensures
            r@ == path_in(self.root@, name@),
    {
        proof {
            reveal_strlit("/");
        }
        let mut path = self.root.clone();
        path.append("/");
        path.append(name);
        path
    }

    /// The bucket and key that a queue file's name stands for.
    pub fn parse_entry(name: &str) -> (r: Option<(String, String)>)
        ensures
            match r {
                Some((b, k)) => entry_parts(name@) == Some((b@, k@)),
                None => entry_parts(name@) is None,
            },
    {
        let text = match url_decode(name) {
            Some(t) => t,
            None => {
                return None;
            },
        };
        let t = text.as_str();
        let n = t.unicode_len();
        let i = find_char(t, '/');
        if i < n {
            let bucket = t.substring_char(0, i).to_owned();
            let key = t.substring_char(i + 1, n).to_owned();
            Some((bucket, key))
        } else {
            None
        }
    }

    /// The upload that a flush has to make for the queue file `name`; `None`
    /// when the name stands for no bucket and key.
    pub fn flush_job(&self, name: &str) -> (r: Option<FlushJob>)
        ensures
            match r {
                Some(j) => entry_parts(name@) == Some((j.bucket@, j.key@)) && j.file@ == path_in(
                    self.root@,
                    name@,
                ),
                None => entry_parts(name@) is None,
            },
    {
        match WriteQueue::parse_entry(name) {
            Some((bucket, key)) => Some(FlushJob { file: self.entry_path(name), bucket, key }),
            None => None,
        }
    }

    /// The uploads of one flush pass over a listing of the queue directory.
    pub fn plan_work(&self, names: &Vec<String>) -> (r: Vec<FlushJob>)
        ensures
            r@.map_values(|j: FlushJob| job_view(j)) == jobs_of(self.root@, names@),
    {
        let mut jobs: Vec<FlushJob> = Vec::new();
        let mut i: usize = 0;
        while i < names.len()
            invariant
                i <= names@.len(),
                jobs@.map_values(|j: FlushJob| job_view(j)) == jobs_of(self.root@, names@.take(i as int)),
            decreases names@.len() - i,
        {
            assert(names@.take(i + 1).drop_last() =~= names@.take(i as int));
            let ghost before = jobs@;
            match self.flush_job(names[i].as_str()) {
                Some(j) => {
                    jobs.push(j);
                    assert(jobs@.map_values(|j: FlushJob| job_view(j)) =~= before.map_values(
                        |j: FlushJob| job_view(j),
                    ).push(job_view(jobs@.last())));
                },
                None => {},
            }
            i = i + 1;
        }
        assert(names@.take(names@.len() as int) =~= names@);
        jobs
    }
}

/// A queue entry's name gives back the bucket and key it was made from,
/// provided that the bucket holds no `/` (a bucket parsed from a path never does).
pub proof fn lemma_entry_round_trip(bucket: Seq<char>, key: Seq<char>)
    requires
        !bucket.contains('/'),
    ensures
        entry_parts(entry_name(bucket, key)) == Some((bucket, key)),
{
    let t = bucket + seq!['/'] + key;
    lemma_decode_encode(t);
    lemma_index_of_char_bounds(t, '/');
    let i = index_of_char(t, '/');
    assert(t[bucket.len() as int] == '/');
    if i < bucket.len() {
        assert(t[i] == bucket[i]);
    }
    assert(i == bucket.len());
    assert(t.take(i) =~= bucket);
    assert(t.skip(i + 1) =~= key);
}

/// Two objects never share a queue file, when their buckets hold no `/`.
pub proof fn lemma_entry_names_distinct(b1: Seq<char>, k1: Seq<char>, b2: Seq<char>, k2: Seq<char>)
    requires
        !b1.contains('/'),
        !b2.contains('/'),
        b1 != b2 || k1 != k2,
    ensures
        entry_name(b1, k1) != entry_name(b2, k2),
{
    lemma_entry_round_trip(b1, k1);
    lemma_entry_round_trip(b2, k2);
}

/// A flush pass retries every queue file still listed: each listed name that
/// stands for a bucket and key gets an upload of that file to that bucket
/// and key, whether or not an earlier pass failed on it.
pub proof fn lemma_pass_uploads_listed(root: Seq<char>, names: Seq<String>, i: int)
    requires
        0 <= i < names.len(),
        entry_parts(names[i]@) is Some,
    ensures
        jobs_of(root, names).contains(
            (path_in(root, names[i]@), entry_parts(names[i]@)->Some_0.0, entry_parts(names[i]@)->Some_0.1),
        ),
    decreases names.len(),
{
    let earlier = jobs_of(root, names.drop_last());
    if i < names.len() - 1 {
        lemma_pass_uploads_listed(root, names.drop_last(), i);
        assert(names.drop_last()[i] == names[i]);
        let j = choose|j: int| 0 <= j < earlier.len() && earlier[j] == (
            path_in(root, names[i]@),
            entry_parts(names[i]@)->Some_0.0,
            entry_parts(names[i]@)->Some_0.1,
        );
        let (b, k) = entry_parts(names.last()@)->Some_0;
        if entry_parts(names.last()@) is Some {
            assert(jobs_of(root, names) == earlier.push((path_in(root, names.last()@), b, k)));
            assert(jobs_of(root, names)[j] == earlier[j]);
        }
    } else {
        assert(names[i] == names.last());
        let jobs = jobs_of(root, names);
        assert(jobs[jobs.len() - 1] == (
            path_in(root, names[i]@),
            entry_parts(names[i]@)->Some_0.0,
            entry_parts(names[i]@)->Some_0.1,
        ));
    }
}

/// A flush pass touches only what the listing holds: a queue file whose name
/// is not listed (one that an earlier successful flush removed) gets no
/// upload, and an empty listing makes no upload at all.
pub proof fn lemma_pass_skips_unlisted(root: Seq<char>, names: Seq<String>, name: Seq<char>)
    requires
        forall|i: int| 0 <= i < names.len() ==> #[trigger] names[i]@ != name,
    ensures
        forall|j: int|
            0 <= j < jobs_of(root, names).len() ==> (#[trigger] jobs_of(root, names)[j]).0 != path_in(
                root,
                name,
            ),
        names.len() == 0 ==> jobs_of(root, names).len() == 0,
    decreases names.len(),
{
    if names.len() > 0 {
        let rest = names.drop_last();
        assert forall|i: int| 0 <= i < rest.len() implies #[trigger] rest[i]@ != name by {
            assert(rest[i] == names[i]);
        }
        lemma_pass_skips_unlisted(root, rest, name);
        let last = names.last()@;
        assert(names[names.len() - 1]@ != name);
        if path_in(root, last) == path_in(root, name) {
            assert(last =~= path_in(root, last).skip(root.len() as int + 1));
            assert(name =~= path_in(root, name).skip(root.len() as int + 1));
        }
        let earlier = jobs_of(root, rest);
        assert forall|j: int| 0 <= j < jobs_of(root, names).len() implies (#[trigger] jobs_of(
            root,
            names,
        )[j]).0 != path_in(root, name) by {
            if j < earlier.len() {
                assert(jobs_of(root, names)[j] == earlier[j]);
            }
        }
    }
}

/// The content of `file` in a queue directory seen as a map from path to bytes.
pub open spec fn stored(dir: Map<Seq<char>, Seq<u8>>, file: Seq<char>) -> Option<Seq<u8>> {
    if dir.contains_key(file) {
        Some(dir[file])
    } else {
        None
    }
}

/// The queue directory after a put of `data` to `bucket/key` under `root`.
pub open spec fn after_put(
    dir: Map<Seq<char>, Seq<u8>>,
    root: Seq<char>,
    bucket: Seq<char>,
    key: Seq<char>,
    data: Seq<u8>,
) -> Map<Seq<char>, Seq<u8>> {
    dir.insert(path_in(root, entry_name(bucket, key)), data)
}

/// Read your own write: a get right after a put returns exactly the data
/// put, and a later put of another object does not disturb it.
pub proof fn lemma_put_then_get(
    dir: Map<Seq<char>, Seq<u8>>,
    root: Seq<char>,
    bucket: Seq<char>,
    key: Seq<char>,
    data: Seq<u8>,
    other_bucket: Seq<char>,
    other_key: Seq<char>,
    other_data: Seq<u8>,
)
    requires
        !bucket.contains('/'),
        !other_bucket.contains('/'),
        bucket != other_bucket || key != other_key,
    ensures
        stored(after_put(dir, root, bucket, key, data), path_in(root, entry_name(bucket, key)))
            == Some(data),
        stored(
            after_put(after_put(dir, root, bucket, key, data), root, other_bucket, other_key, other_data),
            path_in(root, entry_name(bucket, key)),
        ) == Some(data),
{
    lemma_entry_names_distinct(bucket, key, other_bucket, other_key);
    let n1 = entry_name(bucket, key);
    let n2 = entry_name(other_bucket, other_key);
    if path_in(root, n1) == path_in(root, n2) {
        assert(n1 =~= path_in(root, n1).skip(root.len() as int + 1));
        assert(n2 =~= path_in(root, n2).skip(root.len() as int + 1));
    }
}

/// A successful flush of a buffered put: the job read back from the queue
/// file's name uploads the file's content to the same bucket and key, and
/// the queue file is then gone, so the remote store holds the data and the
/// local copy is absent.
pub proof fn lemma_flush_moves_data(
    dir: Map<Seq<char>, Seq<u8>>,
    remote: Map<(Seq<char>, Seq<char>), Seq<u8>>,
    root: Seq<char>,
    bucket: Seq<char>,
    key: Seq<char>,
    data: Seq<u8>,
)
    requires
        !bucket.contains('/'),
    ensures
        ({
            let name = entry_name(bucket, key);
            let file = path_in(root, name);
            let local = after_put(dir, root, bucket, key, data);
            match entry_parts(name) {
                Some((b, k)) => {
                    let uploaded = remote.insert((b, k), local[file]);
                    &&& stored(local.remove(file), file) is None
                    &&& uploaded[(bucket, key)] == data
                },
                None => false,
            }
        }),
{
    lemma_entry_round_trip(bucket, key);
}

} // verus!
