//! The login service's active-configuration pointer and its backup, the
//! operations that change them, and the plans that the mode switches run.
use vstd::prelude::*;

verus! {

/// The two login profiles.
#[derive(Debug, Clone, Copy, PartialEq, Eq, Structural)]
pub enum Profile {
    Desktop,
    Game,
}

/// What the pointer or the backup holds.
#[derive(Debug, Clone, Copy, PartialEq, Eq, Structural)]
pub enum Entry {
    /// A symbolic link to a profile.
    LinkTo(Profile),
    /// A regular file with a profile's content.
    CopyOf(Profile),
    /// A file whose content is neither profile.
    Unrecognized,
}

/// One step of a mode switch or of a revert.
#[derive(Debug, Clone, Copy, PartialEq, Eq, Structural)]
pub enum StoreOp {
    /// Make the pointer a symbolic link to the profile, replacing whatever
    /// stood there in one step (link under another name, then rename).
    LinkPointer(Profile),
    /// Copy what the pointer holds to the backup.
    BackupPointer,
    /// Replace the pointer with a copy of the profile (copy, then rename over it).
    CopyProfile(Profile),
    /// Replace the pointer with a copy of the backup.
    RestoreBackup,
    /// Remove the backup.
    DeleteBackup,
    /// Restart the login service.
    RestartService,
    /// Start the detached task that reverts the switch after a delay.
    ScheduleRevert,
}

/// The pointer and its backup; `None` where the file is absent.
#[derive(Debug, Clone, Copy, PartialEq, Eq, Structural)]
pub struct StoreState {
    pub pointer: Option<Entry>,
    pub backup: Option<Entry>,
}

/// What a copy of `e` holds: copying follows a link to its target.
pub open spec fn content_of(e: Entry) -> Entry {
    match e {
        Entry::LinkTo(p) => Entry::CopyOf(p),
        _ => e,
    }
}

/// The pointer makes the login service load profile `p`.
pub open spec fn resolves_to(pointer: Option<Entry>, p: Profile) -> bool {
    pointer == Some(Entry::LinkTo(p)) || pointer == Some(Entry::CopyOf(p))
}

pub open spec fn apply_op(s: StoreState, op: StoreOp) -> StoreState {
    match op {
        StoreOp::LinkPointer(p) => StoreState { pointer: Some(Entry::LinkTo(p)), ..s },
        StoreOp::BackupPointer => match s.pointer {
            Some(e) => StoreState { backup: Some(content_of(e)), ..s },
            None => s,
        },
        StoreOp::CopyProfile(p) => StoreState { pointer: Some(Entry::CopyOf(p)), ..s },
        StoreOp::RestoreBackup => match s.backup {
            Some(e) => StoreState { pointer: Some(e), ..s },
            None => s,
        },
        StoreOp::DeleteBackup => StoreState { backup: None, ..s },
        StoreOp::RestartService => s,
        StoreOp::ScheduleRevert => s,
    }
}

/// The state after running `ops` in order from `s`.
pub open spec fn apply_ops(s: StoreState, ops: Seq<StoreOp>) -> StoreState
    decreases ops.len(),
{
    if ops.len() == 0 {
        s
    } else {
        apply_ops(apply_op(s, ops[0]), ops.drop_first())
    }
}

/// Startup reset: re-link the pointer to the desktop profile.
pub open spec fn desktop_plan() -> Seq<StoreOp> {
    seq![StoreOp::LinkPointer(Profile::Desktop), StoreOp::RestartService]
}

/// Switch by re-linking: the startup reset restores the desktop later.
pub open spec fn game_plan() -> Seq<StoreOp> {
    seq![StoreOp::LinkPointer(Profile::Game), StoreOp::RestartService]
}

/// Switch by copying, with a backup when there is something to save, and a
/// scheduled revert.
pub open spec fn timed_game_plan(pointer_exists: bool) -> Seq<StoreOp> {
    let tail = seq![
        StoreOp::CopyProfile(Profile::Game),
        StoreOp::RestartService,
        StoreOp::ScheduleRevert,
    ];
    if pointer_exists {
        seq![StoreOp::BackupPointer] + tail
    } else {
        tail
    }
}

/// A timed switch from `s`, as `timed_game_mode_plan` plans it from what
/// exists: `None` where it is refused.
pub open spec fn timed_switch(s: StoreState) -> Option<StoreState> {
    if s.backup is Some {
        None
    } else {
        Some(apply_ops(s, timed_game_plan(s.pointer is Some)))
    }
}

/// What the detached task runs once the delay is over.
pub open spec fn revert_plan() -> Seq<StoreOp> {
    seq![StoreOp::RestoreBackup, StoreOp::DeleteBackup, StoreOp::RestartService]
}

impl StoreState {
    /// Runs one operation on the state.
    pub fn apply(&mut self, op: StoreOp)
        ensures
            *final(self) == apply_op(*old(self), op),
    {
        match op {
            StoreOp::LinkPointer(p) => {
                self.pointer = Some(Entry::LinkTo(p));
            },
            StoreOp::BackupPointer => {
                if let Some(e) = self.pointer {
                    self.backup = Some(
                        match e {
                            Entry::LinkTo(p) => Entry::CopyOf(p),
                            _ => e,
                        },
                    );
                }
            },
            StoreOp::CopyProfile(p) => {
                self.pointer = Some(Entry::CopyOf(p));
            },
            StoreOp::RestoreBackup => {
                if let Some(e) = self.backup {
                    self.pointer = Some(e);
                }
            },
            StoreOp::DeleteBackup => {
                self.backup = None;
            },
            StoreOp::RestartService => {},
            StoreOp::ScheduleRevert => {},
        }
    }

    /// Runs `ops` in order.
    pub fn apply_all(&mut self, ops: &Vec<StoreOp>)
        ensures
            *final(self) == apply_ops(*old(self), ops@),
    {
        let mut i: usize = 0;
        assert(ops@.subrange(0, ops@.len() as int) =~= ops@);
        while i < ops.len()
            invariant
                i <= ops.len(),
                apply_ops(*old(self), ops@) == apply_ops(*self, ops@.subrange(i as int, ops@.len() as int)),
            decreases ops.len() - i,
        {
            proof {
                let rest = ops@.subrange(i as int, ops@.len() as int);
                assert(rest.drop_first() =~= ops@.subrange(i + 1, ops@.len() as int));
            }
            self.apply(ops[i]);
            i = i + 1;
        }
        assert(ops@.subrange(ops@.len() as int, ops@.len() as int) =~= Seq::<StoreOp>::empty());
    }
}

/// The steps that reset the pointer to the desktop profile at startup.
pub fn desktop_mode_plan() -> (r: Vec<StoreOp>)
    ensures
        r@ == desktop_plan(),
{
    let r = vec![StoreOp::LinkPointer(Profile::Desktop), StoreOp::RestartService];
    assert(r@ =~= desktop_plan());
    r
}

/// The steps that switch to game mode by re-linking the pointer.
pub fn game_mode_plan() -> (r: Vec<StoreOp>)
    ensures
        r@ == game_plan(),
{
    let r = vec![StoreOp::LinkPointer(Profile::Game), StoreOp::RestartService];
    assert(r@ =~= game_plan());
    r
}

/// Why a timed switch does not run.
#[derive(Debug, Clone, Copy, PartialEq, Eq, Structural)]
pub enum SwitchError {
    /// A backup exists: an earlier switch still awaits its revert, and a new
    /// backup would overwrite the configuration that the revert restores.
    RevertPending,
}

/// The steps that switch to game mode by copying, saving the pointer first
/// where it exists, and scheduling the revert; refused while a backup exists.
pub fn timed_game_mode_plan(pointer_exists: bool, backup_exists: bool) -> (r: Result<
    Vec<StoreOp>,
    SwitchError,
>)
    ensures
        backup_exists ==> r == Err::<Vec<StoreOp>, SwitchError>(SwitchError::RevertPending),
        !backup_exists ==> r is Ok && r->Ok_0@ == timed_game_plan(pointer_exists),
{
    if backup_exists {
        return Err(SwitchError::RevertPending);
    }
    let mut r: Vec<StoreOp> = Vec::new();
    if pointer_exists {
        r.push(StoreOp::BackupPointer);
    }
    r.push(StoreOp::CopyProfile(Profile::Game));
    r.push(StoreOp::RestartService);
    r.push(StoreOp::ScheduleRevert);
    assert(r@ =~= timed_game_plan(pointer_exists));
    Ok(r)
}

/// Why a revert does not run.
#[derive(Debug, Clone, Copy, PartialEq, Eq, Structural)]
pub enum RevertError {
    /// There is no backup to restore.
    NoBackup,
}

/// The steps of the revert, given whether the backup exists when the delay
/// is over; without a backup there is nothing to restore.
pub fn revert_mode_plan(backup_exists: bool) -> (r: Result<Vec<StoreOp>, RevertError>)
    ensures
        backup_exists ==> r is Ok && r->Ok_0@ == revert_plan(),
        !backup_exists ==> r == Err::<Vec<StoreOp>, RevertError>(RevertError::NoBackup),
{
    if backup_exists {
        let r = vec![StoreOp::RestoreBackup, StoreOp::DeleteBackup, StoreOp::RestartService];
        assert(r@ =~= revert_plan());
        Ok(r)
    } else {
        Err(RevertError::NoBackup)
    }
}

/// Runs a plan step by step for a caller that performs each step: the first
/// step that fails ends the run, and nothing after it is performed.
#[derive(Debug)]
pub struct ProtocolRun {
    plan: Vec<StoreOp>,
    done: usize,
    failed: bool,
}

pub struct RunView {
    pub plan: Seq<StoreOp>,
    /// How many steps succeeded.
    pub done: nat,
    pub failed: bool,
}

impl View for ProtocolRun {
    type V = RunView;

    closed spec fn view(&self) -> RunView {
        RunView { plan: self.plan@, done: self.done as nat, failed: self.failed }
    }
}

impl ProtocolRun {
    pub open spec fn wf(&self) -> bool {
        self@.done <= self@.plan.len()
    }

    pub fn new(plan: Vec<StoreOp>) -> (r: Self)
        ensures
            r.wf(),
            r@ == (RunView { plan: plan@, done: 0, failed: false }),
    {
        ProtocolRun { plan, done: 0, failed: false }
    }

    /// The step to perform now, if the run goes on.
    pub fn next_op(&self) -> (r: Option<StoreOp>)
        requires
            self.wf(),
        ensures
            r == if !self@.failed && self@.done < self@.plan.len() {
                Some(self@.plan[self@.done as int])
            } else {
                None::<StoreOp>
            },
    {
        if !self.failed && self.done < self.plan.len() {
            Some(self.plan[self.done])
        } else {
            None
        }
    }

    /// Takes the outcome of the step that `next_op` gave.
    pub fn report(&mut self, ok: bool)
        requires
            old(self).wf(),
        ensures
            final(self).wf(),
            final(self)@.plan == old(self)@.plan,
            !old(self)@.failed && old(self)@.done < old(self)@.plan.len() ==> if ok {
                final(self)@.done == old(self)@.done + 1 && !final(self)@.failed
            } else {
                final(self)@.done == old(self)@.done && final(self)@.failed
            },
            old(self)@.failed || old(self)@.done == old(self)@.plan.len() ==> final(self)@ == old(
                self,
            )@,
    {
        if !self.failed && self.done < self.plan.len() {
            if ok {
                self.done = self.done + 1;
            } else {
                self.failed = true;
            }
        }
    }

    /// Every step succeeded.
    pub fn is_complete(&self) -> (r: bool)
        ensures
            r == (!self@.failed && self@.done == self@.plan.len()),
    {
        !self.failed && self.done == self.plan.len()
    }

    pub fn has_failed(&self) -> (r: bool)
        ensures
            r == self@.failed,
    {
        self.failed
    }
}

proof fn lemma_apply_two(s: StoreState, a: StoreOp, b: StoreOp)
    ensures
        apply_ops(s, seq![a, b]) == apply_op(apply_op(s, a), b),
{
    assert(seq![a, b].drop_first() =~= seq![b]);
    assert(seq![b].drop_first() =~= Seq::<StoreOp>::empty());
    let s1 = apply_op(s, a);
    let s2 = apply_op(s1, b);
    assert(apply_ops(s2, Seq::<StoreOp>::empty()) == s2);
    assert(apply_ops(s1, seq![b]) == s2);
}

proof fn lemma_apply_three(s: StoreState, a: StoreOp, b: StoreOp, c: StoreOp)
    ensures
        apply_ops(s, seq![a, b, c]) == apply_op(apply_op(apply_op(s, a), b), c),
{
    let ops = seq![a, b, c];
    assert(ops.drop_first() =~= seq![b, c]);
    assert(seq![b, c].drop_first() =~= seq![c]);
    assert(seq![c].drop_first() =~= Seq::<StoreOp>::empty());
    let s1 = apply_op(s, a);
    let s2 = apply_op(s1, b);
    let s3 = apply_op(s2, c);
    assert(apply_ops(s3, Seq::<StoreOp>::empty()) == s3);
    assert(apply_ops(s2, seq![c]) == s3);
    assert(apply_ops(s1, seq![b, c]) == s3);
}

/// Whatever the pointer held before (nothing, either profile, a stray file),
/// the startup reset leaves it resolving to the desktop profile, and a second
/// reset changes nothing.
pub proof fn lemma_startup_converges(s: StoreState)
    ensures
        resolves_to(apply_ops(s, desktop_plan()).pointer, Profile::Desktop),
        apply_ops(apply_ops(s, desktop_plan()), desktop_plan()) == apply_ops(s, desktop_plan()),
{
    let p = desktop_plan();
    lemma_apply_two(s, p[0], p[1]);
    lemma_apply_two(apply_ops(s, p), p[0], p[1]);
}

/// From no backup, a timed switch from a pointer holding `e` saves `e`'s content and loads the
/// game profile; the revert then puts that content back and drops the backup.
pub proof fn lemma_backup_round_trip(s: StoreState, e: Entry)
    requires
        s.pointer == Some(e),
        s.backup is None,
    ensures
        timed_switch(s) == Some(apply_ops(s, timed_game_plan(true))),
        resolves_to(apply_ops(s, timed_game_plan(true)).pointer, Profile::Game),
        apply_ops(s, timed_game_plan(true)).backup == Some(content_of(e)),
        apply_ops(apply_ops(s, timed_game_plan(true)), revert_plan()).pointer == Some(content_of(e)),
        apply_ops(apply_ops(s, timed_game_plan(true)), revert_plan()).backup is None,
{
    let t = timed_game_plan(true);
    assert(t.drop_first() =~= seq![
        StoreOp::CopyProfile(Profile::Game),
        StoreOp::RestartService,
        StoreOp::ScheduleRevert,
    ]);
    lemma_apply_three(
        apply_op(s, StoreOp::BackupPointer),
        StoreOp::CopyProfile(Profile::Game),
        StoreOp::RestartService,
        StoreOp::ScheduleRevert,
    );
    let mid = apply_ops(s, t);
    lemma_apply_three(mid, StoreOp::RestoreBackup, StoreOp::DeleteBackup, StoreOp::RestartService);
}

/// While a switch awaits its revert, a second timed switch is refused, so
/// the saved configuration survives and the pending revert restores it.
pub proof fn lemma_pending_revert_blocks_switch(s: StoreState, e: Entry)
    requires
        s.pointer == Some(e),
        s.backup is None,
    ensures
        timed_switch(s) is Some,
        timed_switch(timed_switch(s)->Some_0) is None,
        apply_ops(timed_switch(s)->Some_0, revert_plan()).pointer == Some(content_of(e)),
{
    lemma_backup_round_trip(s, e);
}

/// The pointer loads one of the two profiles.
pub open spec fn resolves_to_profile(pointer: Option<Entry>) -> bool {
    resolves_to(pointer, Profile::Desktop) || resolves_to(pointer, Profile::Game)
}

/// The pointer loads a profile, and a backup, where there is one, holds one.
pub open spec fn store_wf(s: StoreState) -> bool {
    &&& resolves_to_profile(s.pointer)
    &&& (s.backup matches Some(e) ==> resolves_to_profile(Some(e)))
}

proof fn lemma_op_keeps_wf(s: StoreState, op: StoreOp)
    requires
        store_wf(s),
    ensures
        store_wf(apply_op(s, op)),
{
}

proof fn lemma_ops_keep_wf(s: StoreState, ops: Seq<StoreOp>)
    requires
        store_wf(s),
    ensures
        store_wf(apply_ops(s, ops)),
    decreases ops.len(),
{
    if ops.len() > 0 {
        lemma_op_keeps_wf(s, ops[0]);
        lemma_ops_keep_wf(apply_op(s, ops[0]), ops.drop_first());
    }
}

/// No operation ever leaves the pointer missing or holding anything but a
/// profile: from a well-formed store, every prefix of every plan (switch,
/// timed switch, revert, reset) leaves the store well-formed.
pub proof fn lemma_every_prefix_keeps_pointer(s: StoreState, ops: Seq<StoreOp>)
    requires
        store_wf(s),
    ensures
        forall|k: int| 0 <= k <= ops.len() ==> store_wf(#[trigger] apply_ops(s, ops.take(k))),
{
    assert forall|k: int| 0 <= k <= ops.len() implies store_wf(#[trigger] apply_ops(s, ops.take(k))) by {
        lemma_ops_keep_wf(s, ops.take(k));
    }
}

/// Whatever stood at the pointer before (nothing, a stray file), the startup
/// reset and the re-linking switch make it load a profile from their first
/// step on, and keep it so.
pub proof fn lemma_relink_plans_never_leave_pointer_missing(s: StoreState)
    ensures
        forall|k: int| 1 <= k <= desktop_plan().len() ==> resolves_to(
            #[trigger] apply_ops(s, desktop_plan().take(k)).pointer,
            Profile::Desktop,
        ),
        forall|k: int| 1 <= k <= game_plan().len() ==> resolves_to(
            #[trigger] apply_ops(s, game_plan().take(k)).pointer,
            Profile::Game,
        ),
{
    let d = desktop_plan();
    let g = game_plan();
    assert(d.take(1) =~= seq![d[0]]);
    assert(d.take(2) =~= d);
    assert(g.take(1) =~= seq![g[0]]);
    assert(g.take(2) =~= g);
    lemma_apply_two(s, d[0], d[1]);
    lemma_apply_two(s, g[0], g[1]);
    assert(seq![d[0]].drop_first() =~= Seq::<StoreOp>::empty());
    assert(seq![g[0]].drop_first() =~= Seq::<StoreOp>::empty());
    assert(apply_ops(apply_op(s, d[0]), Seq::<StoreOp>::empty()) == apply_op(s, d[0]));
    assert(apply_ops(apply_op(s, g[0]), Seq::<StoreOp>::empty()) == apply_op(s, g[0]));
}

} // verus!
