//! The saga's effect log and the compensation plan derived from it.
//!
//! The log is an ordered, append-only record of the durable external effects
//! the saga has committed. It grows during the forward pass and is only read
//! afterwards. Compensation is computed from the log alone: the remote
//! project is deleted exactly when its creation was recorded, the workspace
//! is removed exactly when the directory creation was recorded, in reverse
//! commitment order, and nothing else is ever done.

use vstd::prelude::*;

verus! {

/// One durable external effect committed by the saga.
#[derive(PartialEq, Eq, Debug)]
pub enum Effect {
    DirectoryCreated,
    TemplateCloned,
    RemoteCreated { id: i32 },
    BranchPushed { branch: String },
    RemoteRegistered,
}

/// The mathematical content of an `Effect`.
pub enum EffectView {
    DirectoryCreated,
    TemplateCloned,
    RemoteCreated { id: i32 },
    BranchPushed { branch: Seq<char> },
    RemoteRegistered,
}

impl View for Effect {
    type V = EffectView;

    open spec fn view(&self) -> EffectView {
        match *self {
            Effect::DirectoryCreated => EffectView::DirectoryCreated,
            Effect::TemplateCloned => EffectView::TemplateCloned,
            Effect::RemoteCreated { id } => EffectView::RemoteCreated { id },
            Effect::BranchPushed { branch } => EffectView::BranchPushed { branch: branch@ },
            Effect::RemoteRegistered => EffectView::RemoteRegistered,
        }
    }
}

impl Effect {
    /// A field-for-field copy.
    pub fn duplicate(&self) -> (r: Effect)
        ensures
            r == *self,
    {
        match self {
            Effect::DirectoryCreated => Effect::DirectoryCreated,
            Effect::TemplateCloned => Effect::TemplateCloned,
            Effect::RemoteCreated { id } => Effect::RemoteCreated { id: *id },
            Effect::BranchPushed { branch } => Effect::BranchPushed { branch: branch.clone() },
            Effect::RemoteRegistered => Effect::RemoteRegistered,
        }
    }
}

/// The ordered record of committed effects, in commitment order.
#[derive(Debug)]
pub struct SagaEffectLog {
    pub entries: Vec<Effect>,
}

impl View for SagaEffectLog {
    type V = Seq<EffectView>;

    open spec fn view(&self) -> Seq<EffectView> {
        self.entries@.map_values(|e: Effect| e@)
    }
}

impl SagaEffectLog {
    /// An empty log: nothing committed yet.
    pub fn new() -> (r: SagaEffectLog)
        ensures
            r@ == Seq::<EffectView>::empty(),
    {
        let r = SagaEffectLog { entries: Vec::new() };
        proof {
            assert(r@ =~= Seq::<EffectView>::empty());
        }
        r
    }

    /// Records one committed effect at the end of the log.
    pub fn append(&mut self, e: Effect)
        ensures
            final(self)@ == old(self)@.push(e@),
    {
        self.entries.push(e);
        proof {
            assert(self@ =~= old(self)@.push(e@));
        }
    }

    /// The number of committed effects.
    pub fn len(&self) -> (n: usize)
        ensures
            n == self@.len(),
    {
        self.entries.len()
    }

    /// A copy recording the same effects.
    pub fn duplicate(&self) -> (r: SagaEffectLog)
        ensures
            r@ == self@,
            r.entries@ == self.entries@,
    {
        let mut entries: Vec<Effect> = Vec::new();
        let mut i: usize = 0;
        while i < self.entries.len()
            invariant
                0 <= i <= self.entries@.len(),
                entries@.len() == i,
                forall|j: int| 0 <= j < i ==> entries@[j] == self.entries@[j],
            decreases self.entries@.len() - i,
        {
            entries.push(self.entries[i].duplicate());
            i += 1;
        }
        proof {
            assert(entries@ =~= self.entries@);
        }
        SagaEffectLog { entries }
    }
}

/// The id recorded with the first remote-creation effect, if any.
pub open spec fn first_remote_id(log: Seq<EffectView>) -> Option<i32>
    decreases log.len(),
{
    if log.len() == 0 {
        None
    } else {
        match log[0] {
            EffectView::RemoteCreated { id } => Some(id),
            _ => first_remote_id(log.drop_first()),
        }
    }
}

/// Whether the log records that the saga created the workspace directory.
pub open spec fn mentions_directory_created(log: Seq<EffectView>) -> bool
    decreases log.len(),
{
    if log.len() == 0 {
        false
    } else {
        log[0] is DirectoryCreated || mentions_directory_created(log.drop_first())
    }
}

/// One best-effort compensating action.
#[derive(PartialEq, Eq, Structural, Clone, Copy, Debug)]
pub enum Compensation {
    DeleteRemoteProject { id: i32 },
    RemoveWorkspace,
}

/// The compensation owed for a log: delete the recorded remote project if
/// one was recorded, then remove the workspace if its creation was recorded
/// — reverse commitment order, nothing else.
pub open spec fn compensation_of(log: Seq<EffectView>) -> Seq<Compensation> {
    (match first_remote_id(log) {
        Some(id) => seq![Compensation::DeleteRemoteProject { id }],
        None => Seq::<Compensation>::empty(),
    }) + (if mentions_directory_created(log) {
        seq![Compensation::RemoveWorkspace]
    } else {
        Seq::<Compensation>::empty()
    })
}

pub(crate) proof fn lemma_first_remote_id_push(log: Seq<EffectView>, e: EffectView)
    ensures
        first_remote_id(log.push(e)) == (if first_remote_id(log) is Some {
            first_remote_id(log)
        } else {
            match e {
                EffectView::RemoteCreated { id } => Some(id),
                _ => None,
            }
        }),
    decreases log.len(),
{
    if log.len() == 0 {
        assert(log.push(e)[0] == e);
        assert(log.push(e).drop_first() =~= Seq::<EffectView>::empty());
        assert(first_remote_id(Seq::<EffectView>::empty()) is None);
    } else {
        assert(log.push(e)[0] == log[0]);
        assert(log.push(e).drop_first() =~= log.drop_first().push(e));
        lemma_first_remote_id_push(log.drop_first(), e);
    }
}

pub(crate) proof fn lemma_mentions_directory_created_push(log: Seq<EffectView>, e: EffectView)
    ensures
        mentions_directory_created(log.push(e)) == (mentions_directory_created(log)
            || e is DirectoryCreated),
    decreases log.len(),
{
    if log.len() == 0 {
        assert(log.push(e)[0] == e);
        assert(log.push(e).drop_first() =~= Seq::<EffectView>::empty());
        assert(!mentions_directory_created(Seq::<EffectView>::empty()));
    } else {
        assert(log.push(e)[0] == log[0]);
        assert(log.push(e).drop_first() =~= log.drop_first().push(e));
        lemma_mentions_directory_created_push(log.drop_first(), e);
    }
}

/// Computes the compensation owed for a log, exactly as `compensation_of`
/// describes it.
pub fn compensation_plan(log: &SagaEffectLog) -> (plan: Vec<Compensation>)
    ensures
        plan@ == compensation_of(log@),
{
    let mut remote: Option<i32> = None;
    let mut dir_created = false;
    let mut i: usize = 0;
    proof {
        assert(log@.take(0) =~= Seq::<EffectView>::empty());
    }
    while i < log.entries.len()
        invariant
            0 <= i <= log.entries@.len(),
            log@.len() == log.entries@.len(),
            remote == first_remote_id(log@.take(i as int)),
            dir_created == mentions_directory_created(log@.take(i as int)),
        decreases log.entries@.len() - i,
    {
        proof {
            assert(log@.take(i + 1) =~= log@.take(i as int).push(log@[i as int]));
            lemma_first_remote_id_push(log@.take(i as int), log@[i as int]);
            lemma_mentions_directory_created_push(log@.take(i as int), log@[i as int]);
        }
        match &log.entries[i] {
            Effect::RemoteCreated { id } => {
                if remote.is_none() {
                    remote = Some(*id);
                }
            },
            Effect::DirectoryCreated => {
                dir_created = true;
            },
            _ => {},
        }
        i += 1;
    }
    proof {
        assert(log@.take(log@.len() as int) =~= log@);
    }
    let mut plan: Vec<Compensation> = Vec::new();
    match remote {
        Some(id) => {
            plan.push(Compensation::DeleteRemoteProject { id });
        },
        None => {},
    }
    if dir_created {
        plan.push(Compensation::RemoveWorkspace);
    }
    proof {
        assert(plan@ =~= compensation_of(log@));
    }
    plan
}

/// Compensation acts on exactly the recorded set of effects: a workspace
/// removal appears exactly when directory creation was recorded, a remote
/// deletion exactly when a remote creation was recorded — and then with the
/// recorded id — the deletion precedes the removal, and no other action ever
/// appears.
pub proof fn lemma_compensation_exact(log: Seq<EffectView>)
    ensures
        compensation_of(log).contains(Compensation::RemoveWorkspace)
            <==> mentions_directory_created(log),
        forall|id: i32|
            #[trigger] compensation_of(log).contains(Compensation::DeleteRemoteProject { id })
                <==> first_remote_id(log) == Some(id),
        forall|i: int|
            0 <= i < compensation_of(log).len() ==> (compensation_of(log)[i] is RemoveWorkspace
                || compensation_of(log)[i] is DeleteRemoteProject),
        forall|i: int, j: int|
            (0 <= i < compensation_of(log).len() && 0 <= j < compensation_of(log).len()
                && compensation_of(log)[i] is DeleteRemoteProject && compensation_of(
                log,
            )[j] is RemoveWorkspace) ==> i < j,
{
    let plan = compensation_of(log);
    if mentions_directory_created(log) {
        assert(plan[plan.len() - 1] == Compensation::RemoveWorkspace);
        assert(plan.contains(Compensation::RemoveWorkspace));
    }
    if plan.contains(Compensation::RemoveWorkspace) {
        assert(mentions_directory_created(log));
    }
    assert forall|id: i32|
        #[trigger] plan.contains(Compensation::DeleteRemoteProject { id }) implies first_remote_id(
        log,
    ) == Some(id) by {
        let i = choose|i: int|
            0 <= i < plan.len() && plan[i] == (Compensation::DeleteRemoteProject { id });
        assert(i == 0);
    }
    assert forall|id: i32| first_remote_id(log) == Some(id) implies #[trigger] plan.contains(
        Compensation::DeleteRemoteProject { id },
    ) by {
        assert(plan[0] == (Compensation::DeleteRemoteProject { id }));
    }
}

} // verus!
