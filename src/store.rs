//! The job store: a registry of conversion jobs keyed by identifier, and the
//! operations that create jobs, settle them and report on them.
use vstd::prelude::*;
use vstd::hash_map::StringHashMap;
use crate::job::{
    ConversionJob, ConvertResponse, FileError, JobState, JobStatus, ResponseView, StartError,
    invalid_url_response, start_failed_response, started_response, status_response,
};
use crate::url::{is_valid_youtube_url, is_video_url};

verus! {

broadcast use vstd::string::group_string_axioms;

/// A lowercase hexadecimal digit.
pub open spec fn is_lower_hex(c: char) -> bool {
    ('0' <= c && c <= '9') || ('a' <= c && c <= 'f')
}

/// The hyphenated text form of a random (version 4) UUID:
/// `xxxxxxxx-xxxx-4xxx-xxxx-xxxxxxxxxxxx` in lowercase hexadecimal digits.
pub open spec fn is_hyphenated_uuid(s: Seq<char>) -> bool {
    &&& s.len() == 36
    &&& s[14] == '4'
    &&& forall|i: int|
        0 <= i < 36 ==> if i == 8 || i == 13 || i == 18 || i == 23 {
            s[i] == '-'
        } else {
            is_lower_hex(#[trigger] s[i])
        }
}

/// Relies on `uuid::Uuid::new_v4` for a fresh random identifier, and on the
/// `Display` impl of `uuid::Uuid`, which writes its hyphenated lowercase form.
#[verifier::external_body]
fn new_job_id() -> (r: String)
    ensures
        is_hyphenated_uuid(r@),
{
    uuid::Uuid::new_v4().to_string()
}

/// The state of job `id` in `jobs`, or `None` where there is no such job.
pub open spec fn lookup(jobs: Map<Seq<char>, JobState>, id: Seq<char>) -> Option<JobState> {
    if jobs.contains_key(id) {
        Some(jobs[id])
    } else {
        None
    }
}

/// `jobs` after job `id` was settled to `outcome`: only a job that is still
/// processing moves; any other store is left as it was.
pub open spec fn settled(
    jobs: Map<Seq<char>, JobState>,
    id: Seq<char>,
    outcome: JobState,
) -> Map<Seq<char>, JobState> {
    if lookup(jobs, id) == Some(JobState::Processing) {
        jobs.insert(id, outcome)
    } else {
        jobs
    }
}

/// Registry of conversion jobs. Each job owns a working directory of type `W`,
/// held here for as long as the job is.
#[verifier::reject_recursive_types(W)]
pub struct JobStore<W> {
    jobs: StringHashMap<JobStatus>,
    workdirs: StringHashMap<W>,
}

impl<W> View for JobStore<W> {
    type V = Map<Seq<char>, JobState>;

    closed spec fn view(&self) -> Map<Seq<char>, JobState> {
        self.jobs@.map_values(|s: JobStatus| s@)
    }
}

impl<W> JobStore<W> {
    /// Every job has its working directory, and nothing else has one; the
    /// store holds finitely many jobs.
    pub closed spec fn wf(&self) -> bool {
        &&& self.workdirs@.dom() == self.jobs@.dom()
        &&& self.jobs@.dom().finite()
    }

    /// The working directory that each job owns, by identifier.
    pub closed spec fn dirs(&self) -> Map<Seq<char>, W> {
        self.workdirs@
    }

    /// A well-formed store holds finitely many jobs.
    pub proof fn lemma_finite(&self)
        requires
            self.wf(),
        ensures
            self@.dom().finite(),
    {
        assert(self@.dom() =~= self.jobs@.dom());
    }

    /// An empty store.
    pub fn new() -> (r: Self)
        ensures
            r.wf(),
            r@ == Map::<Seq<char>, JobState>::empty(),
    {
        let r = JobStore { jobs: StringHashMap::new(), workdirs: StringHashMap::new() };
        assert(r@ =~= Map::<Seq<char>, JobState>::empty());
        r
    }

    /// Whether a job has the identifier `id`.
    pub fn contains(&self, id: &str) -> (r: bool)
        ensures
            r == self@.contains_key(id@),
    {
        self.jobs.contains_key(id)
    }

    /// The state of job `id`.
    pub fn get(&self, id: &str) -> (r: Option<&JobStatus>)
        ensures
            match r {
                Some(s) => lookup(self@, id@) == Some(s@),
                None => lookup(self@, id@) is None,
            },
    {
        self.jobs.get(id)
    }

    /// The working directory of job `id`.
    pub fn workdir(&self, id: &str) -> (r: Option<&W>)
        requires
            self.wf(),
        ensures
            r is Some == self@.contains_key(id@),
            r is Some ==> self.dirs().contains_key(id@) && *r->Some_0 == self.dirs()[id@],
    {
        self.workdirs.get(id)
    }

    /// Adds `job`, whose identifier no job has yet.
    pub fn insert(&mut self, job: ConversionJob<W>)
        requires
            old(self).wf(),
            !old(self)@.contains_key(job.id@),
        ensures
            final(self).wf(),
            final(self)@ == old(self)@.insert(job.id@, job.status@),
            final(self).dirs() == old(self).dirs().insert(job.id@, job.temp_dir),
    {
        let ConversionJob { id, temp_dir, status } = job;
        let key = id.clone();
        self.workdirs.insert(key, temp_dir);
        self.jobs.insert(id, status);
        assert(self@ =~= old(self)@.insert(job.id@, job.status@));
    }

    /// Creates a processing job `id` that owns `temp_dir`, unless a job
    /// already has that identifier.
    pub fn start_with_id(&mut self, id: String, temp_dir: W) -> (r: Result<String, StartError>)
        requires
            old(self).wf(),
        ensures
            final(self).wf(),
            r is Err <==> old(self)@.contains_key(id@),
            match r {
                Ok(job_id) => {
                    &&& job_id@ == id@
                    &&& final(self)@ == old(self)@.insert(id@, JobState::Processing)
                    &&& final(self).dirs() == old(self).dirs().insert(id@, temp_dir)
                },
                Err(e) => {
                    &&& e is IdInUse
                    &&& final(self)@ == old(self)@
                    &&& final(self).dirs() == old(self).dirs()
                },
            },
    {
        if self.jobs.contains_key(id.as_str()) {
            return Err(StartError::IdInUse);
        }
        let job_id = id.clone();
        self.insert(ConversionJob { id, temp_dir, status: JobStatus::Processing });
        Ok(job_id)
    }

    /// Creates a processing job that owns `temp_dir`, under a fresh random
    /// identifier. It fails only where the identifier drawn is already taken.
    pub fn start_conversion(&mut self, temp_dir: W) -> (r: Result<String, StartError>)
        requires
            old(self).wf(),
        ensures
            final(self).wf(),
            match r {
                Ok(id) => {
                    &&& is_hyphenated_uuid(id@)
                    &&& !old(self)@.contains_key(id@)
                    &&& final(self)@ == old(self)@.insert(id@, JobState::Processing)
                    &&& final(self).dirs() == old(self).dirs().insert(id@, temp_dir)
                },
                Err(e) => {
                    &&& e is IdInUse
                    &&& final(self)@ == old(self)@
                    &&& final(self).dirs() == old(self).dirs()
                    &&& exists|k: Seq<char>|
                        #[trigger] old(self)@.contains_key(k) && is_hyphenated_uuid(k)
                },
            },
    {
        let id = new_job_id();
        let ghost drawn = id@;
        let r = self.start_with_id(id, temp_dir);
        assert(r is Err ==> old(self)@.contains_key(drawn) && is_hyphenated_uuid(drawn));
        r
    }

    /// Moves job `id` from processing to `outcome`; a job that is unknown or
    /// already final is left as it is.
    pub fn settle(&mut self, id: &str, outcome: JobStatus)
        requires
            old(self).wf(),
        ensures
            final(self).wf(),
            final(self)@ == settled(old(self)@, id@, outcome@),
            final(self).dirs() == old(self).dirs(),
    {
        let processing = match self.jobs.get(id) {
            Some(JobStatus::Processing) => true,
            _ => false,
        };
        assert(processing ==> self.jobs@.contains_key(id@));
        if processing {
            let ghost o = outcome@;
            self.jobs.insert(String::from_str(id), outcome);
            assert(self@ =~= old(self)@.insert(id@, o));
            assert(self.jobs@.dom() =~= old(self).jobs@.dom());
        }
    }

    /// Marks job `id` completed with its audio file at `mp3_path`.
    pub fn mark_completed(&mut self, id: &str, mp3_path: String)
        requires
            old(self).wf(),
        ensures
            final(self).wf(),
            final(self)@ == settled(old(self)@, id@, JobState::Completed(mp3_path@)),
            final(self).dirs() == old(self).dirs(),
    {
        self.settle(id, JobStatus::Completed { mp3_path });
    }

    /// Marks job `id` failed with the user-facing `message`.
    pub fn mark_error(&mut self, id: &str, message: String)
        requires
            old(self).wf(),
        ensures
            final(self).wf(),
            final(self)@ == settled(old(self)@, id@, JobState::Failed(message@)),
            final(self).dirs() == old(self).dirs(),
    {
        self.settle(id, JobStatus::Error { message });
    }

    /// Reports on job `job_id`; an unknown identifier is reported as not found.
    pub fn get_job_status(&self, job_id: &str) -> (r: ConvertResponse)
        ensures
            r@ == status_response(job_id@, lookup(self@, job_id@)),
    {
        let id = String::from_str(job_id);
        match self.jobs.get(job_id) {
            None => ConvertResponse {
                id,
                status: String::from_str("not_found"),
                message: String::from_str("Job not found"),
            },
            Some(JobStatus::Processing) => ConvertResponse {
                id,
                status: String::from_str("processing"),
                message: String::from_str("Processing your video..."),
            },
            Some(JobStatus::Completed { .. }) => ConvertResponse {
                id,
                status: String::from_str("completed"),
                message: String::from_str("Conversion completed successfully"),
            },
            Some(JobStatus::Error { message }) => ConvertResponse {
                id,
                status: String::from_str("error"),
                message: message.clone(),
            },
        }
    }

    /// Where the audio file of job `job_id` is, once the job has completed.
    pub fn mp3_file_path(&self, job_id: &str) -> (r: Result<String, FileError>)
        ensures
            match lookup(self@, job_id@) {
                None => r == Err::<String, FileError>(FileError::NotFound),
                Some(JobState::Completed(p)) => r is Ok && r->Ok_0@ == p,
                Some(_) => r == Err::<String, FileError>(FileError::NotReady),
            },
    {
        match self.jobs.get(job_id) {
            None => Err(FileError::NotFound),
            Some(JobStatus::Completed { mp3_path }) => Ok(mp3_path.clone()),
            Some(_) => Err(FileError::NotReady),
        }
    }
}

/// Handles a request to convert `url`: a refused address is answered at once and
/// leaves the store alone; otherwise `make_workdir` is asked for a working
/// directory. Its failure is reported with its reason; with a directory in
/// hand a processing job is created that owns it, unless the identifier drawn
/// for it is already taken.
pub fn convert_video<W, F: FnOnce() -> Result<W, String>>(
    store: &mut JobStore<W>,
    url: &str,
    make_workdir: F,
) -> (r: ConvertResponse)
    requires
        old(store).wf(),
        make_workdir.requires(()),
    ensures
        final(store).wf(),
        !(url@.len() > 0 && is_video_url(url@)) ==> {
            &&& r@ == invalid_url_response()
            &&& final(store)@ == old(store)@
            &&& final(store).dirs() == old(store).dirs()
        },
        url@.len() > 0 && is_video_url(url@) ==> exists|d: Result<W, String>|
            #[trigger] make_workdir.ensures((), d) && match d {
                Err(reason) => {
                    &&& r@ == start_failed_response(reason@)
                    &&& final(store)@ == old(store)@
                    &&& final(store).dirs() == old(store).dirs()
                },
                Ok(dir) => started_or_taken(old(store), final(store), r@, dir),
            },
{
    if url.is_empty() || !is_valid_youtube_url(url) {
        return ConvertResponse {
            id: String::new(),
            status: String::from_str("error"),
            message: String::from_str("Please enter a valid YouTube URL"),
        };
    }
    let made = make_workdir();
    let ghost d = made;
    let started = match made {
        Ok(dir) => store.start_conversion(dir),
        Err(reason) => Err(StartError::Workdir(reason)),
    };
    let r = match started {
        Ok(id) => ConvertResponse {
            id,
            status: String::from_str("processing"),
            message: String::from_str("Conversion started"),
        },
        Err(e) => {
            let mut message = String::from_str("Failed to start conversion: ");
            let reason = e.message();
            message.append(reason.as_str());
            ConvertResponse { id: String::new(), status: String::from_str("error"), message }
        },
    };
    assert(make_workdir.ensures((), d));
    r
}

/// After a start with the directory `dir` in hand, `after` and `r` tell of a
/// processing job that owns `dir` under a fresh identifier; or, where `before`
/// already held an identifier of the kind drawn, possibly of a refusal that
/// leaves the store alone.
pub open spec fn started_or_taken<W>(
    before: &JobStore<W>,
    after: &JobStore<W>,
    r: ResponseView,
    dir: W,
) -> bool {
    ||| {
        &&& r == started_response(r.id)
        &&& is_hyphenated_uuid(r.id)
        &&& !before@.contains_key(r.id)
        &&& after@ == before@.insert(r.id, JobState::Processing)
        &&& after.dirs() == before.dirs().insert(r.id, dir)
    }
    ||| {
        &&& r == start_failed_response("job identifier already in use"@)
        &&& after@ == before@
        &&& after.dirs() == before.dirs()
        &&& exists|k: Seq<char>| #[trigger] before@.contains_key(k) && is_hyphenated_uuid(k)
    }
}

/// A job that was just started has a non-empty identifier, and a report on it
/// right after says it is processing.
pub proof fn started_job_reports_processing(jobs: Map<Seq<char>, JobState>, id: Seq<char>)
    requires
        is_hyphenated_uuid(id),
        !jobs.contains_key(id),
    ensures
        id.len() > 0,
        status_response(id, lookup(jobs.insert(id, JobState::Processing), id)) == (ResponseView {
            id,
            status: "processing"@,
            message: "Processing your video..."@,
        }),
{
}

/// An identifier that no job has is reported as not found.
pub proof fn unknown_job_reports_not_found(jobs: Map<Seq<char>, JobState>, id: Seq<char>)
    requires
        !jobs.contains_key(id),
    ensures
        status_response(id, lookup(jobs, id)).status == "not_found"@,
{
}

/// A job in a final state keeps it: settling any job, or starting a new one,
/// leaves it as it was, so every later report on it says the same.
pub proof fn final_state_is_stable(
    jobs: Map<Seq<char>, JobState>,
    id: Seq<char>,
    other: Seq<char>,
    outcome: JobState,
)
    requires
        jobs.contains_key(id),
        jobs[id].is_terminal(),
    ensures
        lookup(settled(jobs, other, outcome), id) == lookup(jobs, id),
        status_response(id, lookup(settled(jobs, other, outcome), id)) == status_response(
            id,
            lookup(jobs, id),
        ),
        !jobs.contains_key(other) ==> lookup(jobs.insert(other, JobState::Processing), id)
            == lookup(jobs, id),
{
}

/// Each store of `stores` follows from the one before by starting a job with
/// the identifier at the same place in `ids`.
pub open spec fn started_in_turn(stores: Seq<Map<Seq<char>, JobState>>, ids: Seq<Seq<char>>) -> bool {
    &&& stores.len() == ids.len() + 1
    &&& forall|i: int|
        0 <= i < ids.len() ==> {
            &&& !stores[i].contains_key(#[trigger] ids[i])
            &&& stores[i + 1] == stores[i].insert(ids[i], JobState::Processing)
        }
}

proof fn lemma_started_keeps_jobs(
    stores: Seq<Map<Seq<char>, JobState>>,
    ids: Seq<Seq<char>>,
    i: int,
    j: int,
)
    requires
        started_in_turn(stores, ids),
        0 <= i <= j < stores.len(),
    ensures
        stores[i].dom().subset_of(stores[j].dom()),
    decreases j - i,
{
    if i < j {
        lemma_started_keeps_jobs(stores, ids, i, j - 1);
        assert(stores[j] == stores[j - 1].insert(ids[j - 1], JobState::Processing));
    }
}

proof fn lemma_started_count(stores: Seq<Map<Seq<char>, JobState>>, ids: Seq<Seq<char>>, k: int)
    requires
        started_in_turn(stores, ids),
        stores[0].dom().finite(),
        0 <= k < stores.len(),
    ensures
        stores[k].dom().finite(),
        stores[k].len() == stores[0].len() + k,
    decreases k,
{
    if k > 0 {
        lemma_started_count(stores, ids, k - 1);
        assert(stores[k] == stores[k - 1].insert(ids[k - 1], JobState::Processing));
        assert(!stores[k - 1].contains_key(ids[k - 1]));
    }
}

/// Starts made one after another give out pairwise distinct identifiers, and
/// afterwards the store holds exactly one more job per start.
pub proof fn started_ids_are_distinct(stores: Seq<Map<Seq<char>, JobState>>, ids: Seq<Seq<char>>)
    requires
        started_in_turn(stores, ids),
        stores[0].dom().finite(),
    ensures
        forall|i: int, j: int| 0 <= i < j < ids.len() ==> ids[i] != ids[j],
        stores.last().len() == stores[0].len() + ids.len(),
        forall|i: int| 0 <= i < ids.len() ==> stores.last().contains_key(#[trigger] ids[i]),
{
    assert forall|i: int, j: int| 0 <= i < j < ids.len() implies ids[i] != ids[j] by {
        lemma_started_keeps_jobs(stores, ids, i + 1, j);
        assert(stores[i + 1].contains_key(ids[i]));
        assert(!stores[j].contains_key(ids[j]));
    }
    assert forall|i: int| 0 <= i < ids.len() implies stores.last().contains_key(#[trigger] ids[i]) by {
        lemma_started_keeps_jobs(stores, ids, i + 1, stores.len() - 1);
        assert(stores[i + 1].contains_key(ids[i]));
    }
    lemma_started_count(stores, ids, stores.len() - 1);
}

/// `after` follows from `before` by one change that the store makes: settling
/// some job, or starting a job under an identifier that no job has.
pub open spec fn one_change(before: Map<Seq<char>, JobState>, after: Map<Seq<char>, JobState>) -> bool {
    ||| exists|other: Seq<char>, outcome: JobState| after == #[trigger] settled(before, other, outcome)
    ||| exists|other: Seq<char>|
        !before.contains_key(other) && after == #[trigger] before.insert(other, JobState::Processing)
}

proof fn lemma_final_state_kept(stores: Seq<Map<Seq<char>, JobState>>, id: Seq<char>, k: int)
    requires
        stores.len() > 0,
        stores[0].contains_key(id),
        stores[0][id].is_terminal(),
        forall|i: int| 0 <= i < stores.len() - 1 ==> one_change(stores[i], #[trigger] stores[i + 1]),
        0 <= k < stores.len(),
    ensures
        lookup(stores[k], id) == lookup(stores[0], id),
    decreases k,
{
    if k > 0 {
        lemma_final_state_kept(stores, id, k - 1);
        let j = k - 1;
        assert(one_change(stores[j], stores[j + 1]));
        let prev = stores[k - 1];
        if exists|other: Seq<char>, outcome: JobState| stores[k] == #[trigger] settled(prev, other, outcome) {
            let (other, outcome) = choose|other: Seq<char>, outcome: JobState|
                stores[k] == #[trigger] settled(prev, other, outcome);
            final_state_is_stable(prev, id, other, outcome);
        } else {
            let other = choose|other: Seq<char>|
                !prev.contains_key(other) && stores[k] == #[trigger] prev.insert(other, JobState::Processing);
            final_state_is_stable(prev, id, other, JobState::Processing);
        }
    }
}

/// Once a job is final, any run of later changes to the store leaves every
/// report on it the same as the first.
pub proof fn final_reports_repeat(stores: Seq<Map<Seq<char>, JobState>>, id: Seq<char>)
    requires
        stores.len() > 0,
        stores[0].contains_key(id),
        stores[0][id].is_terminal(),
        forall|i: int| 0 <= i < stores.len() - 1 ==> one_change(stores[i], #[trigger] stores[i + 1]),
    ensures
        forall|k: int|
            0 <= k < stores.len() ==> status_response(id, lookup(#[trigger] stores[k], id))
                == status_response(id, lookup(stores[0], id)),
{
    assert forall|k: int| 0 <= k < stores.len() implies status_response(
        id,
        lookup(#[trigger] stores[k], id),
    ) == status_response(id, lookup(stores[0], id)) by {
        lemma_final_state_kept(stores, id, k);
    }
}

} // verus!
