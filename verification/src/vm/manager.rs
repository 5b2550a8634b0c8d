//! The deletion of a machine, guarded: a running machine is never deleted,
//! and without `force` nothing is deleted that the operator has not
//! confirmed.

use crate::config::schema::{VmConfig, VmConfigView};
use crate::error::{out_of_turn, out_of_turn_error, text_result, ErrorView, QvmError};
use crate::text::{chars_of, occurs_at, occurs_in, trim_text, trimmed};
use crate::utils::paths::{find_vm_dir, resolve_under_root, resolved, storage_root, vm_dir_outcome};
use vstd::prelude::*;

verus! {

/// Whether `c` is the letter `lower` in either case.
pub open spec fn is_letter(c: char, lower: char, upper: char) -> bool {
    c == lower || c == upper
}

/// Whether a line of input confirms: `y` or `yes`, in any mix of upper and
/// lower case, white space around it ignored. Everything else, the empty
/// line too, does not.
pub open spec fn affirmative(answer: Seq<char>) -> bool {
    let t = trimmed(answer);
    ||| (t.len() == 1 && is_letter(t[0], 'y', 'Y'))
    ||| (t.len() == 3 && is_letter(t[0], 'y', 'Y') && is_letter(t[1], 'e', 'E') && is_letter(
        t[2],
        's',
        'S',
    ))
}

/// Whether a line of input confirms.
pub fn is_affirmative(answer: &str) -> (r: bool)
    ensures
        r == affirmative(answer@),
{
    let t = trim_text(answer);
    let v = chars_of(t.as_str());
    if v.len() == 1 {
        v[0] == 'y' || v[0] == 'Y'
    } else if v.len() == 3 {
        (v[0] == 'y' || v[0] == 'Y') && (v[1] == 'e' || v[1] == 'E') && (v[2] == 's' || v[2]
            == 'S')
    } else {
        false
    }
}

/// How far the deletion of a machine has come: what it waits for.
#[derive(Debug, Clone, Copy, PartialEq, Eq, Structural)]
pub enum DeleteStage {
    /// Whether the machine is running is being checked.
    AwaitLiveness,
    /// The descriptor is being loaded.
    AwaitDescriptor,
    /// The operator is being asked.
    AwaitAnswer,
    /// The directory of the machine is being removed.
    AwaitRemoval,
    /// The deletion is over, well or badly.
    Finished,
}

/// The deletion of one machine, in progress.
#[derive(Debug, Clone)]
pub struct Deletion {
    pub name: String,
    /// Whether to delete without asking.
    pub force: bool,
    /// Root directory of the machine.
    pub dir: String,
    pub stage: DeleteStage,
}

/// What the host reports back once it has carried out an action.
#[derive(Debug)]
pub enum DeleteEvent {
    /// The liveness check has ended; `running` tells whether the machine
    /// is running.
    Liveness { running: bool },
    /// The descriptor of the machine has been loaded.
    Loaded(VmConfig),
    /// The operator has answered with this line.
    Answered { line: String },
    /// The directory of the machine has been removed.
    Removed,
    /// The action could not be carried out.
    Failed(QvmError),
}

/// What the host is to do next.
#[derive(Debug, Clone)]
pub enum DeleteAction {
    /// Check whether the machine `name` is running.
    CheckLiveness { name: String },
    /// Load the descriptor of the machine `name`; where that fails, report
    /// the failure with `Failed`.
    LoadDescriptor { name: String },
    /// Show the operator what is about to be deleted, and read one line of
    /// confirmation.
    Confirm { name: String, dir: String, disk: String, efi_vars: String },
    /// Remove the directory `dir` with everything in it.
    RemoveTree { dir: String },
    /// Tell the operator that the machine `name` was deleted. The deletion
    /// is over.
    ReportDeleted { name: String },
    /// Tell the operator that nothing was deleted. The deletion is over,
    /// and it has not failed.
    ReportCancelled,
    /// Report the failure. The deletion is over.
    Fail(QvmError),
}

/// `Deletion` in contracts: every text is the sequence of its characters.
pub struct DeletionView {
    pub name: Seq<char>,
    pub force: bool,
    pub dir: Seq<char>,
    pub stage: DeleteStage,
}

/// `DeleteEvent` in contracts: every text is the sequence of its characters.
pub enum DeleteEventView {
    Liveness { running: bool },
    Loaded(VmConfigView),
    Answered { line: Seq<char> },
    Removed,
    Failed(ErrorView),
}

/// `DeleteAction` in contracts: every text is the sequence of its characters.
pub enum DeleteActionView {
    CheckLiveness { name: Seq<char> },
    LoadDescriptor { name: Seq<char> },
    Confirm { name: Seq<char>, dir: Seq<char>, disk: Seq<char>, efi_vars: Seq<char> },
    RemoveTree { dir: Seq<char> },
    ReportDeleted { name: Seq<char> },
    ReportCancelled,
    Fail(ErrorView),
}

impl View for Deletion {
    type V = DeletionView;

    open spec fn view(&self) -> DeletionView {
        DeletionView { name: self.name@, force: self.force, dir: self.dir@, stage: self.stage }
    }
}

impl View for DeleteEvent {
    type V = DeleteEventView;

    open spec fn view(&self) -> DeleteEventView {
        match self {
            DeleteEvent::Liveness { running } => DeleteEventView::Liveness { running: *running },
            DeleteEvent::Loaded(config) => DeleteEventView::Loaded(config@),
            DeleteEvent::Answered { line } => DeleteEventView::Answered { line: line@ },
            DeleteEvent::Removed => DeleteEventView::Removed,
            DeleteEvent::Failed(e) => DeleteEventView::Failed(e@),
        }
    }
}

impl View for DeleteAction {
    type V = DeleteActionView;

    open spec fn view(&self) -> DeleteActionView {
        match self {
            DeleteAction::CheckLiveness { name } => DeleteActionView::CheckLiveness { name: name@ },
            DeleteAction::LoadDescriptor { name } => DeleteActionView::LoadDescriptor {
                name: name@,
            },
            DeleteAction::Confirm { name, dir, disk, efi_vars } => DeleteActionView::Confirm {
                name: name@,
                dir: dir@,
                disk: disk@,
                efi_vars: efi_vars@,
            },
            DeleteAction::RemoveTree { dir } => DeleteActionView::RemoveTree { dir: dir@ },
            DeleteAction::ReportDeleted { name } => DeleteActionView::ReportDeleted { name: name@ },
            DeleteAction::ReportCancelled => DeleteActionView::ReportCancelled,
            DeleteAction::Fail(e) => DeleteActionView::Fail(e@),
        }
    }
}

impl DeletionView {
    /// The deletion at another stage.
    pub open spec fn at(self, stage: DeleteStage) -> DeletionView {
        DeletionView { name: self.name, force: self.force, dir: self.dir, stage: stage }
    }

    /// The deletion ends with a failure.
    pub open spec fn fail(self, e: ErrorView) -> (DeletionView, DeleteActionView) {
        (self.at(DeleteStage::Finished), DeleteActionView::Fail(e))
    }

    /// The directory of the machine is to be removed.
    pub open spec fn remove(self) -> (DeletionView, DeleteActionView) {
        (self.at(DeleteStage::AwaitRemoval), DeleteActionView::RemoveTree { dir: self.dir })
    }

    /// The deletion after an event, and what the host is to do next.
    ///
    /// A running machine ends the deletion with `VmRunning`. Else the
    /// descriptor is loaded: nothing is deleted that cannot be described,
    /// so a descriptor that is missing, unreadable or malformed ends the
    /// deletion with `Parse`, which carries the text of the failure to load
    /// it. With `force` the directory is then removed;
    /// without, the operator is shown the directory, the disk and the store
    /// of EFI variables, both resolved under the directory, and the
    /// directory is removed only on an answer that confirms: any other
    /// answer ends the deletion with nothing removed and no failure.
    /// `Failed` ends the deletion at any other stage with the failure it
    /// brings.
    /// An event that was not waited for ends it with `out_of_turn`.
    pub open spec fn advance(self, event: DeleteEventView) -> (DeletionView, DeleteActionView) {
        match event {
            DeleteEventView::Failed(e) => if self.stage == DeleteStage::Finished {
                self.fail(out_of_turn())
            } else if self.stage == DeleteStage::AwaitDescriptor {
                self.fail(ErrorView::Parse { detail: e.message() })
            } else {
                self.fail(e)
            },
            DeleteEventView::Liveness { running } => if self.stage != DeleteStage::AwaitLiveness {
                self.fail(out_of_turn())
            } else if running {
                self.fail(ErrorView::VmRunning { name: self.name })
            } else {
                (
                    self.at(DeleteStage::AwaitDescriptor),
                    DeleteActionView::LoadDescriptor { name: self.name },
                )
            },
            DeleteEventView::Loaded(config) => if self.stage != DeleteStage::AwaitDescriptor {
                self.fail(out_of_turn())
            } else if self.force {
                self.remove()
            } else {
                (
                    self.at(DeleteStage::AwaitAnswer),
                    DeleteActionView::Confirm {
                        name: self.name,
                        dir: self.dir,
                        disk: resolved(self.dir, config.paths.disk),
                        efi_vars: resolved(self.dir, config.paths.efi_vars),
                    },
                )
            },
            DeleteEventView::Answered { line } => if self.stage != DeleteStage::AwaitAnswer {
                self.fail(out_of_turn())
            } else if affirmative(line) {
                self.remove()
            } else {
                (self.at(DeleteStage::Finished), DeleteActionView::ReportCancelled)
            },
            DeleteEventView::Removed => if self.stage != DeleteStage::AwaitRemoval {
                self.fail(out_of_turn())
            } else {
                (
                    self.at(DeleteStage::Finished),
                    DeleteActionView::ReportDeleted { name: self.name },
                )
            },
        }
    }

    /// The actions that answer a run of events, in order.
    pub open spec fn run(self, events: Seq<DeleteEventView>) -> Seq<DeleteActionView>
        decreases events.len(),
    {
        if events.len() == 0 {
            seq![]
        } else {
            let step = self.advance(events[0]);
            seq![step.1] + step.0.run(events.skip(1))
        }
    }
}

/// The deletion of the machine `name` as it begins, for each outcome of
/// the search for its directory: where the directory is there, whether the
/// machine is running is checked first; where it is not, nothing begins.
pub open spec fn deletion_begun(
    name: Seq<char>,
    force: bool,
    lookup: Result<Seq<char>, ErrorView>,
) -> Result<(DeletionView, DeleteActionView), ErrorView> {
    match lookup {
        Err(e) => Err(e),
        Ok(dir) => Ok(
            (
                DeletionView {
                    name: name,
                    force: force,
                    dir: dir,
                    stage: DeleteStage::AwaitLiveness,
                },
                DeleteActionView::CheckLiveness { name: name },
            ),
        ),
    }
}

/// A deletion that has begun, or the failure to begin, by its view.
pub open spec fn begun_view(r: Result<(Deletion, DeleteAction), QvmError>) -> Result<
    (DeletionView, DeleteActionView),
    ErrorView,
> {
    match r {
        Ok(pair) => Ok((pair.0@, pair.1@)),
        Err(e) => Err(e@),
    }
}

impl Deletion {
    /// Begins the deletion of the machine `name`, for a given outcome of
    /// the search for its directory.
    pub fn begin(name: &str, force: bool, lookup: Result<String, QvmError>) -> (r: Result<
        (Deletion, DeleteAction),
        QvmError,
    >)
        ensures
            begun_view(r) == deletion_begun(name@, force, text_result(lookup)),
    {
        match lookup {
            Err(e) => Err(e),
            Ok(dir) => {
                let deletion = Deletion {
                    name: name.to_owned(),
                    force,
                    dir,
                    stage: DeleteStage::AwaitLiveness,
                };
                Ok((deletion, DeleteAction::CheckLiveness { name: name.to_owned() }))
            },
        }
    }

    fn fail(self, e: QvmError) -> (r: (Deletion, DeleteAction))
        ensures
            (r.0@, r.1@) == self@.fail(e@),
    {
        let mut next = self;
        next.stage = DeleteStage::Finished;
        (next, DeleteAction::Fail(e))
    }

    fn remove(self) -> (r: (Deletion, DeleteAction))
        ensures
            (r.0@, r.1@) == self@.remove(),
    {
        let action = DeleteAction::RemoveTree { dir: self.dir.clone() };
        let mut next = self;
        next.stage = DeleteStage::AwaitRemoval;
        (next, action)
    }

    /// The deletion after an event, and what the host is to do next.
    pub fn advance(self, event: DeleteEvent) -> (r: (Deletion, DeleteAction))
        ensures
            (r.0@, r.1@) == self@.advance(event@),
    {
        match event {
            DeleteEvent::Failed(e) => {
                if self.stage == DeleteStage::Finished {
                    self.fail(out_of_turn_error())
                } else if self.stage == DeleteStage::AwaitDescriptor {
                    let described = QvmError::Parse { detail: e.message() };
                    self.fail(described)
                } else {
                    self.fail(e)
                }
            },
            DeleteEvent::Liveness { running } => {
                if self.stage != DeleteStage::AwaitLiveness {
                    self.fail(out_of_turn_error())
                } else if running {
                    let e = QvmError::VmRunning { name: self.name.clone() };
                    self.fail(e)
                } else {
                    let action = DeleteAction::LoadDescriptor { name: self.name.clone() };
                    let mut next = self;
                    next.stage = DeleteStage::AwaitDescriptor;
                    (next, action)
                }
            },
            DeleteEvent::Loaded(config) => {
                if self.stage != DeleteStage::AwaitDescriptor {
                    self.fail(out_of_turn_error())
                } else if self.force {
                    self.remove()
                } else {
                    let action = DeleteAction::Confirm {
                        name: self.name.clone(),
                        dir: self.dir.clone(),
                        disk: resolve_under_root(self.dir.as_str(), config.paths.disk.as_str()),
                        efi_vars: resolve_under_root(
                            self.dir.as_str(),
                            config.paths.efi_vars.as_str(),
                        ),
                    };
                    let mut next = self;
                    next.stage = DeleteStage::AwaitAnswer;
                    (next, action)
                }
            },
            DeleteEvent::Answered { line } => {
                if self.stage != DeleteStage::AwaitAnswer {
                    self.fail(out_of_turn_error())
                } else if is_affirmative(line.as_str()) {
                    self.remove()
                } else {
                    let mut next = self;
                    next.stage = DeleteStage::Finished;
                    (next, DeleteAction::ReportCancelled)
                }
            },
            DeleteEvent::Removed => {
                if self.stage != DeleteStage::AwaitRemoval {
                    self.fail(out_of_turn_error())
                } else {
                    let action = DeleteAction::ReportDeleted { name: self.name.clone() };
                    let mut next = self;
                    next.stage = DeleteStage::Finished;
                    (next, action)
                }
            },
        }
    }
}

/// The manager of the machines of a host.
#[derive(Debug, Clone, Copy, PartialEq, Eq, Structural)]
pub struct VmManager;

impl VmManager {
    /// A manager.
    pub fn new() -> (m: VmManager)
        ensures
            m == VmManager,
    {
        VmManager
    }

    /// Begins the deletion of the machine `name`: looks for its directory
    /// and gives back the deletion in progress with its first action, or
    /// the failure of the search, `NotFound` where there is no such
    /// directory. The host carries out each action and hands the event back
    /// to `Deletion::advance`, until the action is `ReportDeleted`,
    /// `ReportCancelled` or `Fail`.
    pub fn delete_vm(&self, name: &str, force: bool) -> (r: Result<
        (Deletion, DeleteAction),
        QvmError,
    >)
        ensures
            exists|home: Option<Seq<char>>, present: bool|
                begun_view(r) == deletion_begun(name@, force, vm_dir_outcome(name@, home, present)),
    {
        let lookup = find_vm_dir(name);
        Deletion::begin(name, force, lookup)
    }
}

impl Default for VmManager {
    fn default() -> (m: VmManager)
        ensures
            m == VmManager,
    {
        VmManager::new()
    }
}

/// Every event of a run is answered by one action.
pub proof fn lemma_run_len(d: DeletionView, events: Seq<DeleteEventView>)
    ensures
        d.run(events).len() == events.len(),
    decreases events.len(),
{
    if events.len() > 0 {
        lemma_run_len(d.advance(events[0]).0, events.skip(1));
    }
}

/// The action that answers the event `k` of a run is the one that the
/// deletion issues after the events before it.
pub proof fn lemma_run_step(d: DeletionView, events: Seq<DeleteEventView>, k: int)
    requires
        0 < k < events.len(),
    ensures
        d.run(events).len() == events.len(),
        d.run(events)[0] == d.advance(events[0]).1,
        d.run(events)[k] == d.advance(events[0]).0.run(events.skip(1))[k - 1],
{
    lemma_run_len(d, events);
    lemma_run_len(d.advance(events[0]).0, events.skip(1));
}

/// A deletion that is over stays over: whatever comes, nothing is removed.
pub proof fn lemma_finished_stays(d: DeletionView, events: Seq<DeleteEventView>, k: int)
    requires
        d.stage == DeleteStage::Finished,
        0 <= k < events.len(),
    ensures
        d.run(events).len() == events.len(),
        d.run(events)[k] == DeleteActionView::Fail(out_of_turn()),
    decreases events.len(),
{
    lemma_run_len(d, events);
    lemma_run_len(d.advance(events[0]).0, events.skip(1));
    if k > 0 {
        lemma_finished_stays(d.advance(events[0]).0, events.skip(1), k - 1);
    }
}

/// Deleting a running machine fails with `VmRunning`, and nothing is
/// removed then or later: no action of the run, whatever events follow,
/// removes the directory.
pub proof fn lemma_running_machine_is_kept(
    d: DeletionView,
    events: Seq<DeleteEventView>,
    k: int,
)
    requires
        d.stage == DeleteStage::AwaitLiveness,
        0 <= k < events.len(),
        events[0] == (DeleteEventView::Liveness { running: true }),
    ensures
        d.run(events).len() == events.len(),
        d.run(events)[0] == DeleteActionView::Fail(ErrorView::VmRunning { name: d.name }),
        !(d.run(events)[k] is RemoveTree),
{
    lemma_run_len(d, events);
    lemma_run_len(d.advance(events[0]).0, events.skip(1));
    if k > 0 {
        lemma_finished_stays(d.advance(events[0]).0, events.skip(1), k - 1);
    }
}

/// A machine whose descriptor cannot be loaded is not deleted: the
/// deletion fails with `Parse`, which carries the text of the failure, and
/// nothing is removed then or later.
pub proof fn lemma_undescribed_machine_is_kept(
    d: DeletionView,
    events: Seq<DeleteEventView>,
    k: int,
    e: ErrorView,
)
    requires
        d.stage == DeleteStage::AwaitDescriptor,
        0 <= k < events.len(),
        events[0] == DeleteEventView::Failed(e),
    ensures
        d.run(events).len() == events.len(),
        d.run(events)[0] == DeleteActionView::Fail(ErrorView::Parse { detail: e.message() }),
        !(d.run(events)[k] is RemoveTree),
{
    lemma_run_len(d, events);
    lemma_run_len(d.advance(events[0]).0, events.skip(1));
    if k > 0 {
        lemma_finished_stays(d.advance(events[0]).0, events.skip(1), k - 1);
    }
}

/// Once the removal is under way, it is not asked for again.
pub proof fn lemma_removal_once(d: DeletionView, events: Seq<DeleteEventView>, k: int)
    requires
        d.stage == DeleteStage::AwaitRemoval,
        0 <= k < events.len(),
    ensures
        !(d.run(events)[k] is RemoveTree),
{
    lemma_run_len(d, events);
    if k > 0 {
        lemma_run_step(d, events, k);
        lemma_finished_stays(d.advance(events[0]).0, events.skip(1), k - 1);
    }
}

/// From the question to the operator on, the directory is removed only as
/// the answer to a line that confirms.
pub proof fn lemma_removal_after_answer(d: DeletionView, events: Seq<DeleteEventView>, k: int)
    requires
        d.stage == DeleteStage::AwaitAnswer,
        0 <= k < events.len(),
        d.run(events)[k] is RemoveTree,
    ensures
        k == 0,
        events[0] matches DeleteEventView::Answered { line } && affirmative(line),
{
    lemma_run_len(d, events);
    if k > 0 {
        let next = d.advance(events[0]).0;
        lemma_run_step(d, events, k);
        if next.stage == DeleteStage::Finished {
            lemma_finished_stays(next, events.skip(1), k - 1);
        } else {
            lemma_removal_once(next, events.skip(1), k - 1);
        }
    }
}

/// From the loading of the descriptor on, the directory is removed only
/// once the descriptor is there, at once with `force`, else as the answer
/// to a line that confirms.
pub proof fn lemma_removal_after_descriptor(
    d: DeletionView,
    events: Seq<DeleteEventView>,
    k: int,
)
    requires
        d.stage == DeleteStage::AwaitDescriptor,
        0 <= k < events.len(),
        d.run(events)[k] is RemoveTree,
    ensures
        events[0] is Loaded,
        d.force ==> k == 0,
        !d.force ==> k == 1 && (events[1] matches DeleteEventView::Answered { line }
            && affirmative(line)),
{
    lemma_run_len(d, events);
    if k > 0 {
        let next = d.advance(events[0]).0;
        let rest = events.skip(1);
        lemma_run_step(d, events, k);
        if next.stage == DeleteStage::Finished {
            lemma_finished_stays(next, rest, k - 1);
        } else if next.stage == DeleteStage::AwaitRemoval {
            lemma_removal_once(next, rest, k - 1);
        } else {
            lemma_removal_after_answer(next, rest, k - 1);
        }
    }
}

/// The directory of a machine is removed only behind its guards: the
/// liveness check has reported that the machine is not running, the
/// descriptor has been loaded, and, unless `force` is set, the operator has
/// answered with a line that confirms.
pub proof fn lemma_removal_is_guarded(d: DeletionView, events: Seq<DeleteEventView>, k: int)
    requires
        d.stage == DeleteStage::AwaitLiveness,
        0 <= k < events.len(),
        d.run(events)[k] is RemoveTree,
    ensures
        events[0] == (DeleteEventView::Liveness { running: false }),
        k >= 1 && events[1] is Loaded,
        d.force ==> k == 1,
        !d.force ==> k == 2 && (events[2] matches DeleteEventView::Answered { line }
            && affirmative(line)),
{
    lemma_run_len(d, events);
    if k > 0 {
        let next = d.advance(events[0]).0;
        let rest = events.skip(1);
        lemma_run_step(d, events, k);
        if next.stage == DeleteStage::Finished {
            lemma_finished_stays(next, rest, k - 1);
        } else {
            lemma_removal_after_descriptor(next, rest, k - 1);
        }
    }
}

/// Deleting a machine whose directory is not there fails with `NotFound`,
/// and the text of the failure holds the name of the machine. The home
/// directory is taken as known: without one the search fails before the
/// directory is looked for.
pub proof fn lemma_missing_machine_is_reported(name: Seq<char>, home: Seq<char>, force: bool)
    ensures
        deletion_begun(name, force, vm_dir_outcome(name, Some(home), false)) == Err::<
            (DeletionView, DeleteActionView),
            ErrorView,
        >(ErrorView::NotFound { name: name, root: storage_root(home) }),
        occurs_in((ErrorView::NotFound { name: name, root: storage_root(home) }).message(), name),
{
    let e = ErrorView::NotFound { name: name, root: storage_root(home) };
    let head = "VM '"@;
    let at = head.len() as int;
    assert(e.message().subrange(at, at + name.len()) =~= name);
    assert(occurs_at(e.message(), name, at));
}

} // verus!
