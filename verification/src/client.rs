//! The client: which images it submits, to which targets, which it skips,
//! and what it makes of the answers.
use crate::api;
use crate::elf::{elf_metadata, ElfError, ElfMetadata};
use crate::numfmt::{bytes_hex, dec_text, push_dec};
use crate::text::{
    chars_of, is_prefix, push_chars, push_text, starts_with, str_eq, string_of, texts,
};
use vstd::prelude::*;

verus! {

/// `orion::errors::UnknownCryptoError`, the error of the hashing library:
/// carried through as it is.
#[verifier::external_type_specification]
#[verifier::external_body]
pub struct ExUnknownCryptoError(orion::errors::UnknownCryptoError);

/// How the client reaches the server.
#[derive(Debug)]
pub struct Credentials {
    pub token: String,
    pub host: String,
}

/// What the client is asked to do.
#[derive(Debug)]
pub enum Subcommand {
    ListTargets,
    Run(RunCommand),
}

/// A command to the client.
#[derive(Debug)]
pub struct Command {
    pub credentials: Credentials,
    pub cmd: Subcommand,
}

/// A command to run images.
#[derive(Debug)]
pub struct RunCommand {
    /// The target to run on; the one that each image names where none is
    /// given.
    pub target: Option<String>,
    /// The file that remembers which images have passed.
    pub cache: Option<String>,
    /// The images, or the directories to look for images in.
    pub files: Vec<String>,
    /// Whether directories are searched.
    pub recursive: bool,
    /// Whether the logs of runs that passed are shown.
    pub show_output: bool,
}

/// Why the client does nothing.
#[derive(Debug, Clone, Copy, PartialEq, Eq, Structural)]
pub enum ClientError {
    /// The host does not start with `http`.
    BadHost,
    /// An image cannot be read.
    Elf(ElfError),
    /// An image cannot be hashed.
    Hash,
    /// No target is given, and the image names none.
    NoTarget,
    /// Some run failed.
    TestFailed,
}

impl Command {
    /// Checks that the command can be carried out: the host must start with
    /// `http`.
    pub fn check(&self) -> (r: Result<(), ClientError>)
        ensures
            r == if is_prefix("http"@, self.credentials.host@) {
                Ok::<(), ClientError>(())
            } else {
                Err::<(), ClientError>(ClientError::BadHost)
            },
    {
        if starts_with(self.credentials.host.as_str(), "http") {
            Ok(())
        } else {
            Err(ClientError::BadHost)
        }
    }
}

/// The images that have passed, by their hashes, in the order in which
/// they were remembered. No hash is kept twice.
#[derive(Debug)]
pub struct Cache {
    files: Vec<String>,
}

/// The hashes as plain values.
pub closed spec fn hashes(cache: Cache) -> Seq<Seq<char>> {
    cache.files@.map_values(|h: String| h@)
}

/// No text stands twice in the list.
pub open spec fn distinct(list: Seq<Seq<char>>) -> bool {
    forall|i: int, j: int|
        0 <= i < list.len() && 0 <= j < list.len() && #[trigger] list[i] == #[trigger] list[j]
            ==> i == j
}

impl Cache {
    #[verifier::type_invariant]
    spec fn well_formed(&self) -> bool {
        distinct(hashes(*self))
    }

    /// A cache that remembers nothing.
    pub fn empty() -> (cache: Cache)
        ensures
            hashes(cache).len() == 0,
    {
        Cache { files: Vec::new() }
    }

    /// A cache that remembers the hashes of the list, each once, in the
    /// order in which each comes first.
    pub fn from_hashes(list: Vec<String>) -> (cache: Cache)
        ensures
            hashes(cache) == distinct_names(list@.map_values(|h: String| h@)),
            distinct(hashes(cache)),
    {
        let ghost names = list@.map_values(|h: String| h@);
        let mut cache = Cache::empty();
        let mut i: usize = 0;
        assert(hashes(cache) =~= distinct_names(names.take(0)));
        while i < list.len()
            invariant
                i <= list.len(),
                names == list@.map_values(|h: String| h@),
                hashes(cache) == distinct_names(names.take(i as int)),
            decreases list.len() - i,
        {
            assert(names.take(i + 1).drop_last() == names.take(i as int));
            assert(names.take(i + 1).last() == list[i as int]@);
            cache.insert(list[i].clone());
            i += 1;
        }
        assert(names.take(names.len() as int) == names);
        proof {
            use_type_invariant(&cache);
        }
        cache
    }

    /// The hashes that are remembered.
    pub fn files(&self) -> (list: &Vec<String>)
        ensures
            list@.map_values(|h: String| h@) == hashes(*self),
            distinct(hashes(*self)),
    {
        proof {
            use_type_invariant(self);
        }
        &self.files
    }

    /// Whether the image with this hash has passed.
    pub fn contains(&self, hash: &str) -> (r: bool)
        ensures
            r == hashes(*self).contains(hash@),
    {
        let mut i: usize = 0;
        while i < self.files.len()
            invariant
                i <= self.files.len(),
                forall|j: int| 0 <= j < i ==> (#[trigger] hashes(*self)[j]) != hash@,
            decreases self.files.len() - i,
        {
            if str_eq(self.files[i].as_str(), hash) {
                assert(hashes(*self)[i as int] == hash@);
                return true;
            }
            i += 1;
        }
        false
    }

    /// Remembers that the image with this hash has passed. A hash that is
    /// remembered already is not kept twice.
    pub fn insert(&mut self, hash: String)
        ensures
            hashes(*final(self)) == if hashes(*old(self)).contains(hash@) {
                hashes(*old(self))
            } else {
                hashes(*old(self)).push(hash@)
            },
            distinct(hashes(*final(self))),
    {
        proof {
            use_type_invariant(&*self);
        }
        if !self.contains(hash.as_str()) {
            let ghost before = hashes(*self);
            let mut files: Vec<String> = Vec::new();
            assert(files@.map_values(|h: String| h@) =~= Seq::<Seq<char>>::empty());
            core::mem::swap(&mut self.files, &mut files);
            files.push(hash);
            assert(files@.map_values(|h: String| h@) =~= before.push(hash@));
            assert(distinct(before.push(hash@))) by {
                assert forall|i: int, j: int|
                    0 <= i < before.len() + 1 && 0 <= j < before.len() + 1 && #[trigger] before.push(
                        hash@,
                    )[i] == #[trigger] before.push(hash@)[j] implies i == j by {
                    if i < before.len() && j < before.len() {
                        assert(before[i] == before[j]);
                    } else if i < before.len() {
                        assert(before[i] == hash@);
                    } else if j < before.len() {
                        assert(before[j] == hash@);
                    }
                }
            }
            core::mem::swap(&mut self.files, &mut files);
        }
    }
}

/// The BLAKE2b-256 digest of the data, or `None` where the hashing
/// library fails.
pub uninterp spec fn blake2b_256(data: Seq<u8>) -> Option<Seq<u8>>;

/// `orion::hash::digest` hashes the data with BLAKE2b-256. The contract
/// claims only that the outcome is the one the library has for this data.
#[verifier::external_body]
fn digest(data: &[u8]) -> (r: Result<Vec<u8>, orion::errors::UnknownCryptoError>)
    ensures
        match r {
            Ok(d) => blake2b_256(data@) == Some(d@),
            Err(_) => blake2b_256(data@) is None,
        },
{
    orion::hash::digest(data).map(|d| d.as_ref().to_vec())
}

/// `hex::encode` writes each byte as two lower-case hexadecimal digits.
#[verifier::external_body]
fn hex_encode(data: &[u8]) -> (s: String)
    ensures
        s@ == bytes_hex(data@, false),
{
    hex::encode(data)
}

/// The hash under which an image is remembered: its digest in lower-case
/// hexadecimal.
pub open spec fn image_hash(elf: Seq<u8>) -> Option<Seq<char>> {
    match blake2b_256(elf) {
        Some(d) => Some(bytes_hex(d, false)),
        None => None,
    }
}

/// Hashes an image.
pub fn hash_image(elf: &[u8]) -> (r: Result<String, ClientError>)
    ensures
        match r {
            Ok(h) => image_hash(elf@) == Some(h@),
            Err(e) => e == ClientError::Hash && image_hash(elf@) is None,
        },
{
    match digest(elf) {
        Ok(d) => Ok(hex_encode(d.as_slice())),
        Err(_) => Err(ClientError::Hash),
    }
}

/// One image to submit.
#[derive(Debug)]
pub struct Job {
    pub path: String,
    pub target: String,
    pub elf: Vec<u8>,
    pub hash: String,
    pub timeout: Option<u64>,
}

/// What becomes of one image.
#[derive(Debug)]
pub enum Plan {
    /// It passed before and is skipped.
    Skip { target: String, path: String, hash: String },
    /// It is submitted.
    Submit(Job),
}

/// What becomes of an image, as plain values.
pub enum PlanModel {
    Skip { target: Seq<char>, path: Seq<char>, hash: Seq<char> },
    Submit {
        path: Seq<char>,
        target: Seq<char>,
        elf: Seq<u8>,
        hash: Seq<char>,
        timeout: Option<u64>,
    },
}

impl View for Plan {
    type V = PlanModel;

    open spec fn view(&self) -> PlanModel {
        match *self {
            Plan::Skip { target, path, hash } => PlanModel::Skip {
                target: target@,
                path: path@,
                hash: hash@,
            },
            Plan::Submit(job) => PlanModel::Submit {
                path: job.path@,
                target: job.target@,
                elf: job.elf@,
                hash: job.hash@,
                timeout: job.timeout,
            },
        }
    }
}

/// The target of an image: the one given to the client, or else the one
/// that the image names.
pub open spec fn target_choice(given: Option<Seq<char>>, named: Option<Seq<char>>) -> Option<
    Seq<char>,
> {
    match given {
        Some(t) => Some(t),
        None => named,
    }
}

/// What becomes of an image with this hash and this metadata. It must have
/// a target. An image whose hash the cache remembers is skipped; any other
/// is submitted with the timeout that it names.
pub open spec fn plan_of(
    path: Seq<char>,
    elf: Seq<u8>,
    hash: Seq<char>,
    named: Option<Seq<char>>,
    timeout: Option<u64>,
    given: Option<Seq<char>>,
    remembered: Seq<Seq<char>>,
) -> Result<PlanModel, ClientError> {
    match target_choice(given, named) {
        None => Err(ClientError::NoTarget),
        Some(target) => if remembered.contains(hash) {
            Ok(PlanModel::Skip { target, path, hash })
        } else {
            Ok(PlanModel::Submit { path, target, elf, hash, timeout })
        },
    }
}

/// Decides what becomes of an image whose hash and metadata are known.
pub fn plan_job(
    path: String,
    elf: Vec<u8>,
    hash: String,
    meta: ElfMetadata,
    given: &Option<String>,
    cache: &Cache,
) -> (r: Result<Plan, ClientError>)
    ensures
        match r {
            Ok(plan) => plan_of(
                path@,
                elf@,
                hash@,
                meta@.target,
                meta.timeout,
                option_text(*given),
                hashes(*cache),
            ) == Ok::<PlanModel, ClientError>(plan@),
            Err(e) => plan_of(
                path@,
                elf@,
                hash@,
                meta@.target,
                meta.timeout,
                option_text(*given),
                hashes(*cache),
            ) == Err::<PlanModel, ClientError>(e),
        },
{
    let timeout = meta.timeout;
    let target = match given {
        Some(t) => t.clone(),
        None => match meta.target {
            Some(t) => t,
            None => {
                return Err(ClientError::NoTarget);
            },
        },
    };
    if cache.contains(hash.as_str()) {
        Ok(Plan::Skip { target, path, hash })
    } else {
        Ok(Plan::Submit(Job { path, target, elf, hash, timeout }))
    }
}

/// What an optional string says.
pub open spec fn option_text(s: Option<String>) -> Option<Seq<char>> {
    match s {
        Some(s) => Some(s@),
        None => None,
    }
}

/// What was decided of an image, and what of its metadata was ignored.
#[derive(Debug)]
pub struct Prepared {
    /// What becomes of the image.
    pub plan: Result<Plan, ClientError>,
    /// The target section holds bytes that are no UTF-8 text: it was ignored.
    pub target_ignored: bool,
    /// The timeout section is not 4 bytes long: it was ignored.
    pub timeout_ignored: bool,
}

/// What of the metadata of an image was ignored, target first: nothing
/// where the image cannot be hashed or read.
pub open spec fn ignored_of(elf: Seq<u8>) -> (bool, bool) {
    match (image_hash(elf), elf_metadata(elf)) {
        (Some(_), Ok(meta)) => (meta.target_ignored, meta.timeout_ignored),
        _ => (false, false),
    }
}

/// Decides what becomes of an image: it is hashed, its metadata is read,
/// and the plan is made from both. What was ignored of the metadata is
/// handed on, so that it can be warned of.
pub fn prepare_job(path: String, elf: Vec<u8>, given: &Option<String>, cache: &Cache) -> (p:
    Prepared)
    ensures
        (p.target_ignored, p.timeout_ignored) == ignored_of(elf@),
        match p.plan {
            Ok(plan) => image_hash(elf@) is Some && elf_metadata(elf@) is Ok && plan_of(
                path@,
                elf@,
                image_hash(elf@)->0,
                elf_metadata(elf@)->Ok_0.target,
                elf_metadata(elf@)->Ok_0.timeout,
                option_text(*given),
                hashes(*cache),
            ) == Ok::<PlanModel, ClientError>(plan@),
            Err(e) => match image_hash(elf@) {
                None => e == ClientError::Hash,
                Some(hash) => match elf_metadata(elf@) {
                    Err(elf_error) => e == ClientError::Elf(elf_error),
                    Ok(meta) => e == ClientError::NoTarget && plan_of(
                        path@,
                        elf@,
                        hash,
                        meta.target,
                        meta.timeout,
                        option_text(*given),
                        hashes(*cache),
                    ) is Err,
                },
            },
        },
{
    let hash = match hash_image(elf.as_slice()) {
        Ok(h) => h,
        Err(e) => {
            return Prepared { plan: Err(e), target_ignored: false, timeout_ignored: false };
        },
    };
    let meta = match ElfMetadata::from_elf(elf.as_slice()) {
        Ok(m) => m,
        Err(e) => {
            return Prepared {
                plan: Err(ClientError::Elf(e)),
                target_ignored: false,
                timeout_ignored: false,
            };
        },
    };
    let target_ignored = meta.target_ignored;
    let timeout_ignored = meta.timeout_ignored;
    Prepared { plan: plan_job(path, elf, hash, meta, given, cache), target_ignored, timeout_ignored }
}

/// The different names in the list, in the order in which each comes first.
pub open spec fn distinct_names(names: Seq<Seq<char>>) -> Seq<Seq<char>>
    decreases names.len(),
{
    if names.len() == 0 {
        Seq::empty()
    } else {
        let before = distinct_names(names.drop_last());
        if before.contains(names.last()) {
            before
        } else {
            before.push(names.last())
        }
    }
}

/// The positions in the list at which the name stands, in increasing order.
pub open spec fn positions_of(names: Seq<Seq<char>>, name: Seq<char>) -> Seq<usize>
    decreases names.len(),
{
    if names.len() == 0 {
        Seq::empty()
    } else {
        let before = positions_of(names.drop_last(), name);
        if names.last() == name {
            before.push((names.len() - 1) as usize)
        } else {
            before
        }
    }
}

/// The jobs of one target.
#[derive(Debug)]
pub struct TargetJobs {
    pub target: String,
    /// The positions of the target's jobs in the list of all jobs, in
    /// increasing order.
    pub jobs: Vec<usize>,
}

/// The targets of the jobs.
pub open spec fn job_targets(jobs: Seq<Job>) -> Seq<Seq<char>> {
    jobs.map_values(|j: Job| j.target@)
}

/// The groups are the jobs by target: one group for each target, in the
/// order in which the targets come first, and in each group all jobs of
/// the target in the order of the list.
pub open spec fn groups_jobs(groups: Seq<TargetJobs>, targets: Seq<Seq<char>>) -> bool {
    &&& groups.map_values(|g: TargetJobs| g.target@) == distinct_names(targets)
    &&& forall|g: int|
        0 <= g < groups.len() ==> (#[trigger] groups[g]).jobs@ == positions_of(
            targets,
            groups[g].target@,
        )
}

/// Groups the jobs by target.
pub fn jobs_by_target(jobs: &Vec<Job>) -> (groups: Vec<TargetJobs>)
    ensures
        groups_jobs(groups@, job_targets(jobs@)),
{
    let ghost targets = job_targets(jobs@);
    let mut groups: Vec<TargetJobs> = Vec::new();
    let mut i: usize = 0;
    assert(groups@.map_values(|g: TargetJobs| g.target@) =~= distinct_names(targets.take(0)));
    while i < jobs.len()
        invariant
            i <= jobs.len(),
            targets == job_targets(jobs@),
            targets.len() == jobs.len(),
            groups_jobs(groups@, targets.take(i as int)),
        decreases jobs.len() - i,
    {
        let ghost seen = targets.take(i as int);
        let ghost next = targets.take(i + 1);
        let ghost names = groups@.map_values(|g: TargetJobs| g.target@);
        assert(next.drop_last() == seen);
        assert(next.last() == jobs[i as int].target@);
        let target = &jobs[i].target;
        let mut g: usize = 0;
        let mut found: Option<usize> = None;
        while g < groups.len()
            invariant_except_break
                found is None,
                forall|k: int| 0 <= k < g ==> #[trigger] names[k] != target@,
            invariant
                g <= groups.len(),
                names == groups@.map_values(|g: TargetJobs| g.target@),
            ensures
                match found {
                    Some(k) => k < groups.len() && names[k as int] == target@,
                    None => !names.contains(target@),
                },
            decreases groups.len() - g,
        {
            if str_eq(groups[g].target.as_str(), target.as_str()) {
                found = Some(g);
                assert(names[g as int] == groups[g as int].target@);
                break ;
            }
            g += 1;
        }
        match found {
            Some(k) => {
                let ghost old_groups = groups@;
                let mut group = groups.remove(k);
                group.jobs.push(i);
                groups.insert(k, group);
                assert(groups@.map_values(|g: TargetJobs| g.target@) =~= names);
                assert forall|m: int| 0 <= m < groups.len() implies (#[trigger] groups[m]).jobs@
                    == positions_of(next, groups[m].target@) by {
                    if m == k {
                        assert(old_groups[m].jobs@ == positions_of(seen, old_groups[m].target@));
                    } else {
                        assert(groups[m] == old_groups[m]);
                        assert(names[m] == old_groups[m].target@);
                        assert(names[k as int] == old_groups[k as int].target@);
                        assert(names[m] != names[k as int]) by {
                            lemma_distinct_names(seen, m, k as int);
                        }
                    }
                }
            },
            None => {
                let ghost old_groups = groups@;
                let mut list: Vec<usize> = Vec::new();
                list.push(i);
                groups.push(TargetJobs { target: target.clone(), jobs: list });
                assert(groups@.map_values(|g: TargetJobs| g.target@) =~= names.push(target@));
                assert forall|m: int| 0 <= m < groups.len() implies (#[trigger] groups[m]).jobs@
                    == positions_of(next, groups[m].target@) by {
                    if m < old_groups.len() {
                        assert(groups[m] == old_groups[m]);
                        assert(names[m] == old_groups[m].target@);
                    } else {
                        lemma_no_position(seen, target@);
                        assert(list@ =~= Seq::<usize>::empty().push(i));
                    }
                }
            },
        }
        i += 1;
    }
    assert(targets.take(targets.len() as int) == targets);
    groups
}

/// The distinct names hold no name twice.
pub proof fn lemma_distinct_names(names: Seq<Seq<char>>, a: int, b: int)
    requires
        0 <= a < distinct_names(names).len(),
        0 <= b < distinct_names(names).len(),
        a != b,
    ensures
        distinct_names(names)[a] != distinct_names(names)[b],
    decreases names.len(),
{
    if names.len() > 0 {
        let before = distinct_names(names.drop_last());
        if before.contains(names.last()) {
            lemma_distinct_names(names.drop_last(), a, b);
        } else if a < before.len() && b < before.len() {
            lemma_distinct_names(names.drop_last(), a, b);
        } else if a < before.len() {
            assert(before[a] != names.last());
        } else {
            assert(before[b] != names.last());
        }
    }
}

/// A name that is not among the distinct names stands nowhere in the list.
pub proof fn lemma_no_position(names: Seq<Seq<char>>, name: Seq<char>)
    requires
        !distinct_names(names).contains(name),
    ensures
        positions_of(names, name) == Seq::<usize>::empty(),
    decreases names.len(),
{
    if names.len() > 0 {
        let before = distinct_names(names.drop_last());
        if before.contains(names.last()) {
            assert(names.last() != name);
        } else {
            assert(before.push(names.last())[before.len() as int] == names.last());
            assert forall|k: int| 0 <= k < before.len() implies before[k] != name by {
                assert(before.push(names.last())[k] == before[k]);
            }
        }
        lemma_no_position(names.drop_last(), name);
    }
}

/// What came of one submitted image: whether it passed, and its hash where
/// it did.
#[derive(Debug)]
pub struct JobResult {
    pub ok: bool,
    pub hash: String,
}

/// Whether a status code of the server means that the run passed: the
/// codes from 200 to 299 do.
pub fn status_is_success(status: u16) -> (ok: bool)
    ensures
        ok == (200 <= status <= 299),
{
    200 <= status && status <= 299
}

/// What came of a submitted image, from the answer of the server: `None`
/// where no answer came. A run passed when the answer has a status of
/// success, and only then its hash is kept.
pub fn job_result(job: &Job, status: Option<u16>) -> (result: JobResult)
    ensures
        result.ok == (status matches Some(code) && 200 <= code <= 299),
        result.hash@ == if result.ok {
            job.hash@
        } else {
            Seq::<char>::empty()
        },
{
    let ok = match status {
        Some(code) => status_is_success(code),
        None => false,
    };
    if ok {
        JobResult { ok, hash: job.hash.clone() }
    } else {
        JobResult { ok, hash: String::new() }
    }
}

/// The number of results that passed.
pub open spec fn passed_count(results: Seq<JobResult>) -> nat
    decreases results.len(),
{
    if results.len() == 0 {
        0
    } else {
        passed_count(results.drop_last()) + if results.last().ok {
            1nat
        } else {
            0nat
        }
    }
}

/// How the runs of a command went.
#[derive(Debug, Clone, Copy, PartialEq, Eq, Structural)]
pub struct Tally {
    pub succeeded: usize,
    pub failed: usize,
}

/// Counts the runs that passed and those that failed, and remembers the
/// hashes of those that passed.
pub fn tally(results: &Vec<JobResult>, cache: &mut Cache) -> (counts: Tally)
    ensures
        counts.succeeded == passed_count(results@),
        counts.succeeded + counts.failed == results.len(),
        forall|i: int|
            0 <= i < results.len() && (#[trigger] results[i]).ok ==> hashes(*final(cache)).contains(
                results[i].hash@,
            ),
        forall|h: Seq<char>| hashes(*old(cache)).contains(h) ==> hashes(*final(cache)).contains(h),
        forall|h: Seq<char>|
            hashes(*final(cache)).contains(h) ==> hashes(*old(cache)).contains(h) || exists|i: int|
                0 <= i < results.len() && (#[trigger] results[i]).ok && results[i].hash@ == h,
{
    let mut succeeded: usize = 0;
    let mut failed: usize = 0;
    let mut i: usize = 0;
    while i < results.len()
        invariant
            i <= results.len(),
            succeeded == passed_count(results@.take(i as int)),
            succeeded + failed == i,
            forall|j: int|
                0 <= j < i && (#[trigger] results[j]).ok ==> hashes(*cache).contains(
                    results[j].hash@,
                ),
            forall|h: Seq<char>| hashes(*old(cache)).contains(h) ==> hashes(*cache).contains(h),
            forall|h: Seq<char>|
                hashes(*cache).contains(h) ==> hashes(*old(cache)).contains(h) || exists|j: int|
                    0 <= j < i && (#[trigger] results[j]).ok && results[j].hash@ == h,
        decreases results.len() - i,
    {
        assert(results@.take(i + 1).drop_last() == results@.take(i as int));
        assert(results@.take(i + 1).last() == results@[i as int]);
        if results[i].ok {
            let ghost before = hashes(*cache);
            cache.insert(results[i].hash.clone());
            assert(hashes(*cache).contains(results[i as int].hash@)) by {
                if before.contains(results[i as int].hash@) {
                } else {
                    assert(hashes(*cache)[before.len() as int] == results[i as int].hash@);
                }
            }
            assert forall|h: Seq<char>| before.contains(h) implies hashes(*cache).contains(h) by {
                if !before.contains(results[i as int].hash@) {
                    let k = choose|k: int| 0 <= k < before.len() && before[k] == h;
                    assert(hashes(*cache)[k] == h);
                }
            }
            assert forall|h: Seq<char>| hashes(*cache).contains(h) implies before.contains(h) || h
                == results[i as int].hash@ by {
                if !before.contains(results[i as int].hash@) {
                    let k = choose|k: int| 0 <= k < hashes(*cache).len() && hashes(*cache)[k] == h;
                    if k < before.len() {
                        assert(before[k] == h);
                    }
                }
            }
            succeeded += 1;
        } else {
            failed += 1;
        }
        i += 1;
    }
    assert(results@.take(results@.len() as int) == results@);
    Tally { succeeded, failed }
}

/// How a command to run images ends: in an error where some run failed.
pub fn run(counts: Tally) -> (r: Result<(), ClientError>)
    ensures
        r == if counts.failed != 0 {
            Err::<(), ClientError>(ClientError::TestFailed)
        } else {
            Ok::<(), ClientError>(())
        },
{
    if counts.failed != 0 {
        Err(ClientError::TestFailed)
    } else {
        Ok(())
    }
}

/// The text, with spaces after it until it is `width` characters long.
pub open spec fn padded(s: Seq<char>, width: nat) -> Seq<char> {
    if s.len() >= width {
        s
    } else {
        s + Seq::new((width - s.len()) as nat, |i: int| ' ')
    }
}

fn push_padded(out: &mut Vec<char>, s: &str, width: usize)
    ensures
        final(out)@ == old(out)@ + padded(s@, width as nat),
{
    let chars = chars_of(s);
    push_chars(out, &chars);
    let mut n: usize = chars.len();
    while n < width
        invariant
            chars@ == s@,
            n >= chars.len(),
            n == chars.len() || n <= width,
            out@ == old(out)@ + s@ + Seq::new((n - chars.len()) as nat, |i: int| ' '),
        decreases width - n,
    {
        out.push(' ');
        assert(Seq::new((n + 1 - chars.len()) as nat, |i: int| ' ') =~= Seq::new(
            (n - chars.len()) as nat,
            |i: int| ' ',
        ).push(' '));
        assert(out@ =~= old(out)@ + s@ + Seq::new((n + 1 - chars.len()) as nat, |i: int| ' '));
        n += 1;
    }
    assert(out@ =~= old(out)@ + padded(s@, width as nat));
}

/// One row of the list of targets: three columns of 20, 14 and 6
/// characters, with one space between them.
pub open spec fn columns(a: Seq<char>, b: Seq<char>, c: Seq<char>) -> Seq<char> {
    padded(a, 20) + " "@ + padded(b, 14) + " "@ + padded(c, 6)
}

/// The row of one target in the list.
pub open spec fn target_row(target: api::Target) -> Seq<char> {
    columns(
        target.name@,
        target.chip@,
        if target.up {
            "true"@
        } else {
            "false"@
        },
    )
}

fn row(a: &str, b: &str, c: &str) -> (r: Vec<char>)
    ensures
        r@ == columns(a@, b@, c@),
{
    let mut out: Vec<char> = Vec::new();
    push_padded(&mut out, a, 20);
    push_text(&mut out, " ");
    push_padded(&mut out, b, 14);
    push_text(&mut out, " ");
    push_padded(&mut out, c, 6);
    assert(out@ =~= columns(a@, b@, c@));
    out
}

/// The list of targets as the client prints it: a title, the head of the
/// columns, and one row per target.
pub open spec fn target_listing(targets: Seq<api::Target>) -> Seq<Seq<char>> {
    seq![
        "Teleprobe server supports the following targets:"@,
        columns("name"@, "chip"@, "up"@),
    ] + Seq::new(targets.len(), |i: int| target_row(targets[i]))
}

/// Writes the list of targets.
pub fn list_targets(list: &api::TargetList) -> (lines: Vec<String>)
    ensures
        texts(lines@) == target_listing(list.targets@),
{
    let mut lines: Vec<String> = Vec::new();
    lines.push(string_of(&chars_of("Teleprobe server supports the following targets:")));
    lines.push(string_of(&row("name", "chip", "up")));
    let mut i: usize = 0;
    while i < list.targets.len()
        invariant
            i <= list.targets.len(),
            lines.len() == i + 2,
            lines@[0]@ == "Teleprobe server supports the following targets:"@,
            lines@[1]@ == columns("name"@, "chip"@, "up"@),
            forall|j: int| 0 <= j < i ==> (#[trigger] lines@[j + 2])@ == target_row(list.targets@[j]),
        decreases list.targets.len() - i,
    {
        let target = &list.targets[i];
        let up = if target.up {
            "true"
        } else {
            "false"
        };
        let line = row(target.name.as_str(), target.chip.as_str(), up);
        lines.push(string_of(&line));
        i += 1;
    }
    assert forall|j: int| 0 <= j < lines.len() implies texts(lines@)[j] == target_listing(
        list.targets@,
    )[j] by {
        if j >= 2 {
            assert(lines@[(j - 2) + 2]@ == target_row(list.targets@[j - 2]));
        }
    }
    assert(texts(lines@) =~= target_listing(list.targets@));
    lines
}

/// The address to which an image for a target is submitted.
pub fn run_url(host: &str, target: &str) -> (url: String)
    ensures
        url@ == host@ + "/targets/"@ + target@ + "/run"@,
{
    let mut out: Vec<char> = Vec::new();
    push_text(&mut out, host);
    push_text(&mut out, "/targets/");
    push_text(&mut out, target);
    push_text(&mut out, "/run");
    assert(out@ =~= host@ + "/targets/"@ + target@ + "/run"@);
    string_of(&out)
}

/// The address at which the targets are listed.
pub fn targets_url(host: &str) -> (url: String)
    ensures
        url@ == host@ + "/targets"@,
{
    let mut out: Vec<char> = Vec::new();
    push_text(&mut out, host);
    push_text(&mut out, "/targets");
    assert(out@ =~= host@ + "/targets"@);
    string_of(&out)
}

/// The line that reports what came of one image.
pub open spec fn job_line(target: Seq<char>, path: Seq<char>, verdict: Seq<char>) -> Seq<char> {
    "=== "@ + target + " "@ + path + ": "@ + verdict
}

/// The verdict on a run that failed with a status code.
pub open spec fn failure_text(status: u16, reason: Seq<char>) -> Seq<char> {
    "FAILED: HTTP request failed with status code: "@ + dec_text(status as nat) + ": "@ + reason
}

/// Writes the line that reports an image for which no answer came.
pub fn lost_job_line(target: &str, path: &str) -> (line: String)
    ensures
        line@ == job_line(target@, path@, "FAILED: HTTP request failed"@),
{
    let mut out: Vec<char> = Vec::new();
    push_text(&mut out, "=== ");
    push_text(&mut out, target);
    push_text(&mut out, " ");
    push_text(&mut out, path);
    push_text(&mut out, ": ");
    push_text(&mut out, "FAILED: HTTP request failed");
    string_of(&out)
}

/// Writes the line that reports what came of one image. `Ok(())` is a run
/// that passed, `Err(None)` one that was skipped, and `Err(Some(..))` one
/// that failed with this status code and reason.
pub fn run_job(target: &str, path: &str, outcome: Result<(), Option<(u16, &str)>>) -> (line: String)
    ensures
        line@ == job_line(
            target@,
            path@,
            match outcome {
                Ok(()) => "OK"@,
                Err(None) => "SKIPPED"@,
                Err(Some((status, reason))) => failure_text(status, reason@),
            },
        ),
{
    let mut out: Vec<char> = Vec::new();
    push_text(&mut out, "=== ");
    push_text(&mut out, target);
    push_text(&mut out, " ");
    push_text(&mut out, path);
    push_text(&mut out, ": ");
    let ghost head = out@;
    match outcome {
        Ok(()) => {
            push_text(&mut out, "OK");
        },
        Err(None) => {
            push_text(&mut out, "SKIPPED");
        },
        Err(Some((status, reason))) => {
            push_text(&mut out, "FAILED: HTTP request failed with status code: ");
            push_dec(&mut out, status as u128);
            push_text(&mut out, ": ");
            push_text(&mut out, reason);
            assert(out@ =~= head + failure_text(status, reason@));
        },
    }
    string_of(&out)
}

} // verus!
