//! The mirror loader as a state machine: each outcome reported by the caller
//! moves it one phase on, and each phase names the one database action that
//! the caller performs next.
use vstd::prelude::*;
use crate::batch::{
    attach_statement, copies_spec, data_copy_batch, mirror_alias, transaction_batch,
    transaction_spec,
};
use crate::catalog::{definitions_of, names_of, select_kind, texts, ObjectKind, SchemaObject};

verus! {

/// Why loading stopped.
#[derive(Clone, Copy, Debug, PartialEq, Eq, Structural)]
pub enum LoadFailure {
    /// A direct connection to the source or to the mirror could not be opened.
    Connection,
    /// A catalog query on the source failed.
    SchemaRead,
    /// A batch of table or view DDL failed on the mirror.
    SchemaApply,
    /// Attaching the mirror or copying the rows failed.
    DataCopy,
}

/// Where the loader stands.
#[derive(Clone, Copy, Debug, PartialEq, Eq, Structural)]
pub enum LoadPhase {
    Connecting,
    ReadingTables,
    ApplyingTables,
    ReadingViews,
    ApplyingViews,
    Attaching,
    Copying,
    Loaded,
    Failed(LoadFailure),
}

/// The connection a statement goes to.
#[derive(Clone, Copy, Debug, PartialEq, Eq, Structural)]
pub enum Target {
    Source,
    Mirror,
}

/// What the caller does next.
#[derive(Debug)]
pub enum LoadAction {
    /// Open one direct connection to the source and one to the mirror.
    Connect,
    /// Read the catalog entries of one kind from the source.
    ReadCatalog(ObjectKind),
    /// Execute the batch `sql` on the connection `target`.
    Execute { target: Target, sql: String },
    /// Execute `statement` on the source connection, binding the mirror's URI as its
    /// parameter.
    AttachMirror { statement: String },
    /// Loading is complete: release both connections and start ticking.
    Finish,
    /// Loading failed: release both connections and do not start ticking.
    Abort(LoadFailure),
}

/// The outcome of the last action.
#[derive(Debug)]
pub enum LoadEvent {
    /// The connections opened, or the statement batch took effect.
    Succeeded,
    /// The catalog query returned these entries, in catalog order.
    Catalog(Vec<SchemaObject>),
    /// The action failed.
    Failed,
}

/// The mirror loader: its phase and what it has read from the catalog.
pub struct MirrorLoader {
    pub phase: LoadPhase,
    pub table_names: Vec<String>,
    pub table_ddl: Vec<String>,
    pub view_ddl: Vec<String>,
}

/// The phase that follows `p` on the outcome `ev`. Each phase awaits one kind
/// of outcome; any other outcome fails the load in that phase's stage.
pub open spec fn next_phase(p: LoadPhase, ev: LoadEvent) -> LoadPhase {
    match p {
        LoadPhase::Connecting => if ev is Succeeded {
            LoadPhase::ReadingTables
        } else {
            LoadPhase::Failed(LoadFailure::Connection)
        },
        LoadPhase::ReadingTables => if ev is Catalog {
            LoadPhase::ApplyingTables
        } else {
            LoadPhase::Failed(LoadFailure::SchemaRead)
        },
        LoadPhase::ApplyingTables => if ev is Succeeded {
            LoadPhase::ReadingViews
        } else {
            LoadPhase::Failed(LoadFailure::SchemaApply)
        },
        LoadPhase::ReadingViews => if ev is Catalog {
            LoadPhase::ApplyingViews
        } else {
            LoadPhase::Failed(LoadFailure::SchemaRead)
        },
        LoadPhase::ApplyingViews => if ev is Succeeded {
            LoadPhase::Attaching
        } else {
            LoadPhase::Failed(LoadFailure::SchemaApply)
        },
        LoadPhase::Attaching => if ev is Succeeded {
            LoadPhase::Copying
        } else {
            LoadPhase::Failed(LoadFailure::DataCopy)
        },
        LoadPhase::Copying => if ev is Succeeded {
            LoadPhase::Loaded
        } else {
            LoadPhase::Failed(LoadFailure::DataCopy)
        },
        LoadPhase::Loaded => LoadPhase::Loaded,
        LoadPhase::Failed(e) => LoadPhase::Failed(e),
    }
}

/// The position of a phase in the fixed loading order.
pub open spec fn rank(p: LoadPhase) -> nat {
    match p {
        LoadPhase::Connecting => 0,
        LoadPhase::ReadingTables => 1,
        LoadPhase::ApplyingTables => 2,
        LoadPhase::ReadingViews => 3,
        LoadPhase::ApplyingViews => 4,
        LoadPhase::Attaching => 5,
        LoadPhase::Copying => 6,
        LoadPhase::Loaded => 7,
        LoadPhase::Failed(_) => 8,
    }
}

/// The action that the loader `m` asks for in its current phase.
pub open spec fn action_of(a: LoadAction, m: MirrorLoader) -> bool {
    match m.phase {
        LoadPhase::Connecting => a is Connect,
        LoadPhase::ReadingTables => a == LoadAction::ReadCatalog(ObjectKind::Table),
        LoadPhase::ApplyingTables => a is Execute && a->target == Target::Mirror && a->sql@
            == transaction_spec(texts(m.table_ddl@)),
        LoadPhase::ReadingViews => a == LoadAction::ReadCatalog(ObjectKind::View),
        LoadPhase::ApplyingViews => a is Execute && a->target == Target::Mirror && a->sql@
            == transaction_spec(texts(m.view_ddl@)),
        LoadPhase::Attaching => a is AttachMirror && a->statement@ == "ATTACH DATABASE ? as "@
            + mirror_alias(),
        LoadPhase::Copying => a is Execute && a->target == Target::Source && a->sql@
            == transaction_spec(copies_spec(texts(m.table_names@))),
        LoadPhase::Loaded => a is Finish,
        LoadPhase::Failed(e) => a == LoadAction::Abort(e),
    }
}

/// The phase reached from a new loader through the outcomes `evs`, in order.
pub open spec fn run_phase(evs: Seq<LoadEvent>) -> LoadPhase
    decreases evs.len(),
{
    if evs.len() == 0 {
        LoadPhase::Connecting
    } else {
        next_phase(run_phase(evs.drop_last()), evs.last())
    }
}

/// A load that has finished, or has failed, stays so whatever is reported
/// afterwards: after the first failure no further statement is issued, and
/// after loading completes the catalog is never read and no schema is applied
/// again.
pub proof fn lemma_outcome_is_final(evs: Seq<LoadEvent>, k: int)
    requires
        0 <= k <= evs.len(),
        run_phase(evs.take(k)) is Failed || run_phase(evs.take(k)) == LoadPhase::Loaded,
    ensures
        run_phase(evs) == run_phase(evs.take(k)),
    decreases evs.len(),
{
    if k < evs.len() {
        assert(evs.drop_last().take(k) =~= evs.take(k));
        lemma_outcome_is_final(evs.drop_last(), k);
    } else {
        assert(evs.take(k) =~= evs);
    }
}

/// Loading passes through its phases one at a time and in one fixed order:
/// in a run that has not failed, after `k` outcomes the loader stands at the
/// `k`-th phase of that order (or has finished).
pub proof fn lemma_phases_in_order(evs: Seq<LoadEvent>)
    ensures
        !(run_phase(evs) is Failed) ==> rank(run_phase(evs)) == if evs.len() < 7 {
            evs.len()
        } else {
            7
        },
    decreases evs.len(),
{
    if evs.len() > 0 {
        lemma_phases_in_order(evs.drop_last());
    }
}

/// Every table is created, in one transaction that succeeded, before the
/// view batch is issued; and both schema batches have succeeded before the
/// data is copied.
pub proof fn lemma_tables_before_views_before_copy(evs: Seq<LoadEvent>)
    ensures
        run_phase(evs) == LoadPhase::ApplyingViews ==> {
            &&& evs.len() == 4
            &&& run_phase(evs.take(2)) == LoadPhase::ApplyingTables
            &&& evs[2] is Succeeded
        },
        run_phase(evs) == LoadPhase::Copying ==> {
            &&& evs.len() == 6
            &&& run_phase(evs.take(2)) == LoadPhase::ApplyingTables
            &&& evs[2] is Succeeded
            &&& run_phase(evs.take(4)) == LoadPhase::ApplyingViews
            &&& evs[4] is Succeeded
        },
{
    let p = run_phase(evs);
    if p == LoadPhase::ApplyingViews || p == LoadPhase::Copying {
        lemma_phases_in_order(evs);
        let n = evs.len() as int;
        assert forall|k: int| 0 <= k <= n implies !(run_phase(#[trigger] evs.take(k)) is Failed)
            && rank(run_phase(evs.take(k))) == k by {
            if run_phase(evs.take(k)) is Failed {
                lemma_outcome_is_final(evs, k);
            }
            lemma_phases_in_order(evs.take(k));
        }
        assert(evs.take(3).drop_last() =~= evs.take(2));
        assert(evs.take(3).last() == evs[2]);
        if n == 6 {
            assert(evs.take(5).drop_last() =~= evs.take(4));
            assert(evs.take(5).last() == evs[4]);
        }
    }
}

impl MirrorLoader {
    /// A loader that has not yet connected to either store.
    pub fn new() -> (r: MirrorLoader)
        ensures
            r.phase == LoadPhase::Connecting,
            r.table_names@.len() == 0,
            r.table_ddl@.len() == 0,
            r.view_ddl@.len() == 0,
    {
        MirrorLoader {
            phase: LoadPhase::Connecting,
            table_names: Vec::new(),
            table_ddl: Vec::new(),
            view_ddl: Vec::new(),
        }
    }

    /// The action that the current phase asks for.
    pub fn current_action(&self) -> (a: LoadAction)
        ensures
            action_of(a, *self),
    {
        match self.phase {
            LoadPhase::Connecting => LoadAction::Connect,
            LoadPhase::ReadingTables => LoadAction::ReadCatalog(ObjectKind::Table),
            LoadPhase::ApplyingTables => LoadAction::Execute {
                target: Target::Mirror,
                sql: transaction_batch(&self.table_ddl),
            },
            LoadPhase::ReadingViews => LoadAction::ReadCatalog(ObjectKind::View),
            LoadPhase::ApplyingViews => LoadAction::Execute {
                target: Target::Mirror,
                sql: transaction_batch(&self.view_ddl),
            },
            LoadPhase::Attaching => LoadAction::AttachMirror { statement: attach_statement() },
            LoadPhase::Copying => LoadAction::Execute {
                target: Target::Source,
                sql: data_copy_batch(&self.table_names),
            },
            LoadPhase::Loaded => LoadAction::Finish,
            LoadPhase::Failed(e) => LoadAction::Abort(e),
        }
    }

    /// Takes the outcome of the last action and returns the next one. Table
    /// names and table DDL are kept from the table catalog read, view DDL from
    /// the view catalog read, each in catalog order; nothing else changes
    /// them.
    pub fn step(&mut self, ev: LoadEvent) -> (a: LoadAction)
        ensures
            final(self).phase == next_phase(old(self).phase, ev),
            action_of(a, *final(self)),
            old(self).phase == LoadPhase::ReadingTables && ev is Catalog ==> {
                &&& texts(final(self).table_names@) == names_of(ev->0@, ObjectKind::Table)
                &&& texts(final(self).table_ddl@) == definitions_of(ev->0@, ObjectKind::Table)
            },
            !(old(self).phase == LoadPhase::ReadingTables && ev is Catalog) ==> {
                &&& final(self).table_names@ == old(self).table_names@
                &&& final(self).table_ddl@ == old(self).table_ddl@
            },
            old(self).phase == LoadPhase::ReadingViews && ev is Catalog ==> texts(
                final(self).view_ddl@,
            ) == definitions_of(ev->0@, ObjectKind::View),
            !(old(self).phase == LoadPhase::ReadingViews && ev is Catalog)
                ==> final(self).view_ddl@ == old(self).view_ddl@,
    {
        let succeeded = matches!(ev, LoadEvent::Succeeded);
        match self.phase {
            LoadPhase::Connecting => {
                self.phase = if succeeded {
                    LoadPhase::ReadingTables
                } else {
                    LoadPhase::Failed(LoadFailure::Connection)
                };
            },
            LoadPhase::ReadingTables => {
                match ev {
                    LoadEvent::Catalog(objs) => {
                        let sel = select_kind(&objs, ObjectKind::Table);
                        self.table_names = sel.names;
                        self.table_ddl = sel.definitions;
                        self.phase = LoadPhase::ApplyingTables;
                    },
                    _ => {
                        self.phase = LoadPhase::Failed(LoadFailure::SchemaRead);
                    },
                }
            },
            LoadPhase::ApplyingTables => {
                self.phase = if succeeded {
                    LoadPhase::ReadingViews
                } else {
                    LoadPhase::Failed(LoadFailure::SchemaApply)
                };
            },
            LoadPhase::ReadingViews => {
                match ev {
                    LoadEvent::Catalog(objs) => {
                        let sel = select_kind(&objs, ObjectKind::View);
                        self.view_ddl = sel.definitions;
                        self.phase = LoadPhase::ApplyingViews;
                    },
                    _ => {
                        self.phase = LoadPhase::Failed(LoadFailure::SchemaRead);
                    },
                }
            },
            LoadPhase::ApplyingViews => {
                self.phase = if succeeded {
                    LoadPhase::Attaching
                } else {
                    LoadPhase::Failed(LoadFailure::SchemaApply)
                };
            },
            LoadPhase::Attaching => {
                self.phase = if succeeded {
                    LoadPhase::Copying
                } else {
                    LoadPhase::Failed(LoadFailure::DataCopy)
                };
            },
            LoadPhase::Copying => {
                self.phase = if succeeded {
                    LoadPhase::Loaded
                } else {
                    LoadPhase::Failed(LoadFailure::DataCopy)
                };
            },
            LoadPhase::Loaded => {},
            LoadPhase::Failed(_) => {},
        }
        self.current_action()
    }
}

} // verus!
