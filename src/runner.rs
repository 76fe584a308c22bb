//! The extraction runner's decisions. The runner tries the strategies of the
//! table in order until one yields an MP3 file; the caller performs each attempt
//! (and each pause) and reports its outcome, and the runner answers with what to
//! do next.
use vstd::prelude::*;
use crate::classify::{failure_message, failure_message_of};
use crate::job::{JobState, JobStatus};
use crate::strategy::{texts, STRATEGY_COUNT};
use crate::text::{chars_of, contains, mentions};

verus! {

broadcast use vstd::string::group_string_axioms;

/// Seconds of cooldown, in place of the pause, after a failure that looks like
/// bot detection or rate limiting.
pub const COOLDOWN_SECS: u64 = 10;

/// Seconds of pause between two attempts.
pub const PAUSE_SECS: u64 = 2;

/// The path names a file whose extension is `mp3`: its last component ends in
/// `.mp3` with at least one character before the dot.
pub open spec fn has_mp3_extension(p: Seq<char>) -> bool {
    let n = p.len() as int;
    &&& n >= 5
    &&& p[n - 4] == '.'
    &&& p[n - 3] == 'm'
    &&& p[n - 2] == 'p'
    &&& p[n - 1] == '3'
    &&& p[n - 5] != '/'
}

/// The first of `paths` that names an MP3 file.
pub open spec fn first_mp3(paths: Seq<Seq<char>>) -> Option<Seq<char>>
    decreases paths.len(),
{
    if paths.len() == 0 {
        None
    } else if has_mp3_extension(paths[0]) {
        Some(paths[0])
    } else {
        first_mp3(paths.drop_first())
    }
}

/// The failure text asks for a long cooldown before the next attempt.
pub open spec fn is_throttled(e: Seq<char>) -> bool {
    contains(e, "Sign in to confirm"@) || contains(e, "rate limit"@) || contains(e, "429"@)
}

/// What became of one attempt.
pub enum AttemptOutcome {
    /// The tool exited successfully; `entries` are the paths that the working
    /// directory then held.
    Exited { entries: Vec<String> },
    /// The tool exited with a failure and wrote `stderr`.
    Failed { stderr: String },
    /// The tool could not be started; `error` says why.
    NotLaunched { error: String },
}

/// What an `AttemptOutcome` says, as character sequences.
pub enum OutcomeView {
    Exited(Seq<Seq<char>>),
    Failed(Seq<char>),
    NotLaunched(Seq<char>),
}

impl View for AttemptOutcome {
    type V = OutcomeView;

    open spec fn view(&self) -> OutcomeView {
        match self {
            AttemptOutcome::Exited { entries } => OutcomeView::Exited(texts(entries@)),
            AttemptOutcome::Failed { stderr } => OutcomeView::Failed(stderr@),
            AttemptOutcome::NotLaunched { error } => OutcomeView::NotLaunched(error@),
        }
    }
}

/// What the caller does next.
#[derive(Debug)]
pub enum RunnerAction {
    /// Wait `delay_secs` seconds, then run the tool with strategy `strategy`.
    Attempt { strategy: usize, delay_secs: u64 },
    /// Stop; the job ends in `status`.
    Finish { status: JobStatus },
}

/// What a `RunnerAction` says.
pub enum ActionView {
    Attempt(nat, nat),
    Finish(JobState),
}

impl View for RunnerAction {
    type V = ActionView;

    open spec fn view(&self) -> ActionView {
        match self {
            RunnerAction::Attempt { strategy, delay_secs } => ActionView::Attempt(
                *strategy as nat,
                *delay_secs as nat,
            ),
            RunnerAction::Finish { status } => ActionView::Finish(status@),
        }
    }
}

/// The runner's position: the strategy whose attempt is under way, and the
/// failure text of the latest failed attempt.
pub struct Runner {
    current: usize,
    last_error: String,
}

/// What a `Runner` holds.
pub struct RunnerView {
    pub current: nat,
    pub last_error: Seq<char>,
}

impl View for Runner {
    type V = RunnerView;

    closed spec fn view(&self) -> RunnerView {
        RunnerView { current: self.current as nat, last_error: self.last_error@ }
    }
}

/// The failure text that the runner keeps after `o`: a failed run's error
/// output, a note on a launch failure, or the earlier text where the tool
/// exited successfully.
pub open spec fn failure_text_after(last_error: Seq<char>, o: OutcomeView) -> Seq<char> {
    match o {
        OutcomeView::Exited(_) => last_error,
        OutcomeView::Failed(e) => e,
        OutcomeView::NotLaunched(e) => "Command execution failed: "@ + e,
    }
}

/// The wait before the attempt that follows `o`: the cooldown after a throttled
/// failure, the pause otherwise. No wait follows the last attempt.
pub open spec fn delay_after(o: OutcomeView) -> nat {
    match o {
        OutcomeView::Failed(e) => if is_throttled(e) {
            COOLDOWN_SECS as nat
        } else {
            PAUSE_SECS as nat
        },
        _ => PAUSE_SECS as nat,
    }
}

/// One decision: after outcome `o` of the attempt with strategy `s.current`,
/// finish with the MP3 file that it produced; else try the next strategy;
/// else, with the table exhausted, finish with the message for the last failure.
pub open spec fn runner_step(s: RunnerView, o: OutcomeView) -> (RunnerView, ActionView) {
    let last = failure_text_after(s.last_error, o);
    if o is Exited && first_mp3(o->Exited_0) is Some {
        (
            RunnerView { current: s.current, last_error: last },
            ActionView::Finish(JobState::Completed(first_mp3(o->Exited_0)->0)),
        )
    } else if s.current + 1 < STRATEGY_COUNT {
        (
            RunnerView { current: s.current + 1, last_error: last },
            ActionView::Attempt(s.current + 1, delay_after(o)),
        )
    } else {
        (
            RunnerView { current: s.current, last_error: last },
            ActionView::Finish(JobState::Failed(failure_message_of(last))),
        )
    }
}

proof fn lemma_first_mp3(paths: Seq<Seq<char>>, j: int)
    requires
        0 <= j <= paths.len(),
        forall|k: int| 0 <= k < j ==> !has_mp3_extension(#[trigger] paths[k]),
        j == paths.len() || has_mp3_extension(paths[j]),
    ensures
        first_mp3(paths) == if j < paths.len() {
            Some(paths[j])
        } else {
            None
        },
    decreases j,
{
    if j > 0 {
        let rest = paths.drop_first();
        assert forall|k: int| 0 <= k < j - 1 implies !has_mp3_extension(#[trigger] rest[k]) by {
            assert(rest[k] == paths[k + 1]);
        }
        lemma_first_mp3(rest, j - 1);
    }
}

/// Whether `path` names an MP3 file.
pub fn is_mp3_path(path: &str) -> (r: bool)
    ensures
        r == has_mp3_extension(path@),
{
    let cs = chars_of(path);
    let n = cs.len();
    n >= 5 && cs[n - 4] == '.' && cs[n - 3] == 'm' && cs[n - 2] == 'p' && cs[n - 1] == '3'
        && cs[n - 5] != '/'
}

/// Index of the first of `paths` that names an MP3 file.
pub fn find_mp3(paths: &Vec<String>) -> (r: Option<usize>)
    ensures
        match r {
            Some(i) => {
                &&& i < paths.len()
                &&& has_mp3_extension(paths@[i as int]@)
                &&& forall|k: int| 0 <= k < i ==> !has_mp3_extension(#[trigger] paths@[k]@)
                &&& first_mp3(texts(paths@)) == Some(paths@[i as int]@)
            },
            None => first_mp3(texts(paths@)) is None,
        },
{
    let mut i: usize = 0;
    while i < paths.len()
        invariant
            i <= paths.len(),
            forall|k: int| 0 <= k < i ==> !has_mp3_extension(#[trigger] texts(paths@)[k]),
        decreases paths.len() - i,
    {
        if is_mp3_path(paths[i].as_str()) {
            proof {
                assert forall|k: int| 0 <= k < i implies !has_mp3_extension(#[trigger] paths@[k]@) by {
                    assert(texts(paths@)[k] == paths@[k]@);
                }
                lemma_first_mp3(texts(paths@), i as int);
            }
            return Some(i);
        }
        i += 1;
    }
    proof {
        lemma_first_mp3(texts(paths@), i as int);
    }
    None
}

/// The attempt that ends with outcome `o` produced an MP3 file.
pub open spec fn produced_mp3(o: OutcomeView) -> bool {
    o is Exited && first_mp3(o->Exited_0) is Some
}

/// The runner as it stands before its first attempt.
pub open spec fn initial_runner() -> RunnerView {
    RunnerView { current: 0, last_error: Seq::empty() }
}

/// The runner after taking in the outcomes `os`, one after another, from `s`.
pub open spec fn run(s: RunnerView, os: Seq<OutcomeView>) -> RunnerView
    decreases os.len(),
{
    if os.len() == 0 {
        s
    } else {
        runner_step(run(s, os.drop_last()), os.last()).0
    }
}

/// The failure text of the latest failed attempt among `os`, or `earlier`
/// where none of them failed.
pub open spec fn last_failure_text(earlier: Seq<char>, os: Seq<OutcomeView>) -> Seq<char>
    decreases os.len(),
{
    if os.len() == 0 {
        earlier
    } else {
        match os.last() {
            OutcomeView::Exited(_) => last_failure_text(earlier, os.drop_last()),
            OutcomeView::Failed(e) => e,
            OutcomeView::NotLaunched(e) => "Command execution failed: "@ + e,
        }
    }
}

proof fn lemma_run_prefix(os: Seq<OutcomeView>, k: int)
    requires
        os.len() == STRATEGY_COUNT,
        forall|i: int| 0 <= i < os.len() ==> !produced_mp3(#[trigger] os[i]),
        0 <= k < os.len(),
    ensures
        run(initial_runner(), os.take(k)) == (RunnerView {
            current: k as nat,
            last_error: last_failure_text(Seq::empty(), os.take(k)),
        }),
    decreases k,
{
    if k > 0 {
        lemma_run_prefix(os, k - 1);
        let p = os.take(k);
        assert(p.drop_last() =~= os.take(k - 1));
        assert(p.last() == os[k - 1]);
        assert(!produced_mp3(os[k - 1]));
    }
}

/// When no attempt yields an MP3 file, every strategy is tried in table order,
/// and the job then fails with the message for the failure text of the last
/// failed attempt, whatever the earlier attempts wrote.
pub proof fn last_failure_decides(os: Seq<OutcomeView>)
    requires
        os.len() == STRATEGY_COUNT,
        forall|i: int| 0 <= i < os.len() ==> !produced_mp3(#[trigger] os[i]),
    ensures
        forall|k: int|
            0 <= k < os.len() - 1 ==> #[trigger] runner_step(run(initial_runner(), os.take(k)), os[k]).1
                == ActionView::Attempt((k + 1) as nat, delay_after(os[k])),
        runner_step(run(initial_runner(), os.take(os.len() - 1)), os.last()).1 == ActionView::Finish(
            JobState::Failed(failure_message_of(last_failure_text(Seq::empty(), os))),
        ),
{
    assert forall|k: int| 0 <= k < os.len() - 1 implies #[trigger] runner_step(
        run(initial_runner(), os.take(k)),
        os[k],
    ).1 == ActionView::Attempt((k + 1) as nat, delay_after(os[k])) by {
        lemma_run_prefix(os, k);
        assert(!produced_mp3(os[k]));
    }
    let n = os.len() - 1;
    lemma_run_prefix(os, n);
    assert(os.drop_last() =~= os.take(n));
    assert(!produced_mp3(os[n]));
}

impl Runner {
    /// A runner about to make its first attempt, with strategy 0.
    pub fn new() -> (r: Runner)
        ensures
            r@ == initial_runner(),
    {
        Runner { current: 0, last_error: String::new() }
    }

    /// Whether the runner points into the strategy table.
    pub open spec fn wf(&self) -> bool {
        self@.current < STRATEGY_COUNT
    }

    /// The strategy whose attempt is under way.
    pub fn current(&self) -> (r: usize)
        ensures
            r == self@.current,
    {
        self.current
    }

    /// Takes in the outcome of the current attempt and decides what follows.
    pub fn record(&mut self, outcome: AttemptOutcome) -> (r: RunnerAction)
        requires
            old(self).wf(),
        ensures
            final(self).wf(),
            (final(self)@, r@) == runner_step(old(self)@, outcome@),
    {
        let ghost o = outcome@;
        let mut found: Option<String> = None;
        let mut throttled = false;
        match outcome {
            AttemptOutcome::Exited { entries } => {
                match find_mp3(&entries) {
                    Some(i) => {
                        found = Some(entries[i].clone());
                    },
                    None => {},
                }
            },
            AttemptOutcome::Failed { stderr } => {
                let cs = chars_of(stderr.as_str());
                throttled = mentions(&cs, "Sign in to confirm") || mentions(&cs, "rate limit")
                    || mentions(&cs, "429");
                self.last_error = stderr;
            },
            AttemptOutcome::NotLaunched { error } => {
                let mut e = String::from_str("Command execution failed: ");
                e.append(error.as_str());
                self.last_error = e;
            },
        }
        assert(self.last_error@ == failure_text_after(old(self)@.last_error, o));
        match found {
            Some(path) => RunnerAction::Finish { status: JobStatus::Completed { mp3_path: path } },
            None => {
                if self.current + 1 < STRATEGY_COUNT {
                    self.current = self.current + 1;
                    let delay_secs = if throttled {
                        COOLDOWN_SECS
                    } else {
                        PAUSE_SECS
                    };
                    RunnerAction::Attempt { strategy: self.current, delay_secs }
                } else {
                    let message = failure_message(self.last_error.as_str());
                    RunnerAction::Finish { status: JobStatus::Error { message } }
                }
            },
        }
    }
}

} // verus!
