//! Schema evolution: which steps bring a stored project to the newest schema,
//! and what those steps do to it.
//!
//! The planner is executable and works from what a store reports about
//! itself. What the steps do is stated on an image of the store, and the
//! plan is proved to be forward-only, to keep every text, and to be a no-op
//! on a store that was migrated before.

use vstd::prelude::*;
use vstd::string::*;
use crate::text::text_eq;

verus! {

/// The newest schema version.
pub const LATEST_VERSION: u32 = 2;

/// One step of schema evolution.
#[derive(Debug, Clone, Copy, PartialEq, Eq, Structural)]
pub enum MigrationStep {
    /// Add the nullable parent column to the task table.
    AddParentColumn,
    /// Add the nullable dependency column to the task table.
    AddDependColumn,
    /// Rewrite the done flag of the two-state encoding to the done code of
    /// the three-state encoding.
    RewriteLegacyDone,
    /// Create the memory table unless it exists.
    CreateMemories,
    /// Store the version counter.
    RecordVersion(u32),
}

/// A stored task as far as schema evolution is concerned: its texts and its
/// status code.
pub struct StoredRow {
    pub id: Seq<char>,
    pub title: Seq<char>,
    pub description: Seq<char>,
    pub code: int,
}

/// An image of a stored project.
pub struct StoreImage {
    /// The metadata table exists.
    pub has_meta: bool,
    /// The version counter in the metadata table, if one is stored.
    pub version: Option<int>,
    /// The task table has the parent column.
    pub has_parent: bool,
    /// The task table has the dependency column.
    pub has_depend: bool,
    /// The memory table exists.
    pub has_memories: bool,
    /// The task rows.
    pub tasks: Seq<StoredRow>,
}

/// The version that a store reports: its counter, or zero where it has none.
pub open spec fn reported_version(image: StoreImage) -> int {
    match image.version {
        Some(v) => if image.has_meta {
            v
        } else {
            0
        },
        None => 0,
    }
}

/// The status code of a row after the legacy rewrite: the old done flag
/// becomes the done code, every other code stays.
pub open spec fn rewritten(row: StoredRow) -> StoredRow {
    if row.code == 1 {
        StoredRow { code: 2, ..row }
    } else {
        row
    }
}

/// The store after one step.
pub open spec fn step_applied(image: StoreImage, step: MigrationStep) -> StoreImage {
    match step {
        MigrationStep::AddParentColumn => StoreImage { has_parent: true, ..image },
        MigrationStep::AddDependColumn => StoreImage { has_depend: true, ..image },
        MigrationStep::RewriteLegacyDone => StoreImage {
            tasks: image.tasks.map_values(|row: StoredRow| rewritten(row)),
            ..image
        },
        MigrationStep::CreateMemories => StoreImage { has_memories: true, ..image },
        MigrationStep::RecordVersion(v) => StoreImage { version: Some(v as int), ..image },
    }
}

/// The store after a list of steps, taken in order.
pub open spec fn steps_applied(image: StoreImage, steps: Seq<MigrationStep>) -> StoreImage
    decreases steps.len(),
{
    if steps.len() == 0 {
        image
    } else {
        step_applied(steps_applied(image, steps.drop_last()), steps.last())
    }
}

/// A migration: the step that brings a store to a schema version.
#[derive(Debug, Clone, Copy, PartialEq, Eq, Structural)]
pub struct Migration {
    pub version: u32,
    pub step: MigrationStep,
}

/// The migrations, by rising version: the legacy rewrite brings a store to
/// version one, the memory table to version two.
pub open spec fn migrations() -> Seq<Migration> {
    seq![
        Migration { version: 1, step: MigrationStep::RewriteLegacyDone },
        Migration { version: 2, step: MigrationStep::CreateMemories },
    ]
}

/// The steps that add the columns that a task table lacks.
pub open spec fn column_steps(has_parent: bool, has_depend: bool) -> Seq<MigrationStep> {
    let parent = if has_parent {
        Seq::<MigrationStep>::empty()
    } else {
        seq![MigrationStep::AddParentColumn]
    };
    if has_depend {
        parent
    } else {
        parent.push(MigrationStep::AddDependColumn)
    }
}

/// The steps of the migrations that are due for a store at `version`: each
/// migration above that version gives its step and records its version.
pub open spec fn due(list: Seq<Migration>, version: int) -> Seq<MigrationStep>
    decreases list.len(),
{
    if list.len() == 0 {
        Seq::<MigrationStep>::empty()
    } else {
        let before = due(list.drop_last(), version);
        let migration = list.last();
        if version < migration.version {
            before.push(migration.step).push(MigrationStep::RecordVersion(migration.version))
        } else {
            before
        }
    }
}

/// The steps for a store that reports these columns and this version:
/// missing columns are added first, then the migrations that are due are
/// taken by rising version.
pub open spec fn plan(has_parent: bool, has_depend: bool, version: int) -> Seq<MigrationStep> {
    column_steps(has_parent, has_depend) + due(migrations(), version)
}

/// The store after one migration, taken only while the store reports a
/// version below the migration's.
pub open spec fn migration_applied(image: StoreImage, migration: Migration) -> StoreImage {
    if reported_version(image) < migration.version {
        step_applied(
            step_applied(image, migration.step),
            MigrationStep::RecordVersion(migration.version),
        )
    } else {
        image
    }
}

/// The store after migration: the metadata table is there, and the planned
/// steps were taken. A counter without its table does not survive.
pub open spec fn migrated(image: StoreImage) -> StoreImage {
    let ready = StoreImage {
        has_meta: true,
        version: if image.has_meta {
            image.version
        } else {
            None
        },
        ..image
    };
    steps_applied(ready, plan(ready.has_parent, ready.has_depend, reported_version(ready)))
}

/// Some column of the list has this name.
pub open spec fn has_column(columns: Seq<Seq<char>>, name: Seq<char>) -> bool {
    columns.contains(name)
}

fn names_column(columns: &Vec<String>, name: &str) -> (found: bool)
    ensures
        found == has_column(columns.deep_view(), name@),
{
    let mut i: usize = 0;
    while i < columns.len()
        invariant
            i <= columns@.len(),
            forall|j: int| 0 <= j < i ==> columns.deep_view()[j] != name@,
        decreases columns@.len() - i,
    {
        assert(columns.deep_view()[i as int] == columns@[i as int]@);
        if text_eq(columns[i].as_str(), name) {
            return true;
        }
        i += 1;
    }
    false
}

/// Whether a reported version lies below a migration's.
fn below(reported: i32, version: u32) -> (yes: bool)
    ensures
        yes == ((reported as int) < (version as int)),
{
    reported < 0 || (reported as u32) < version
}

/// The migrations, by rising version.
pub fn migration_list() -> (list: Vec<Migration>)
    ensures
        list@ == migrations(),
{
    let mut list: Vec<Migration> = Vec::new();
    list.push(Migration { version: 1, step: MigrationStep::RewriteLegacyDone });
    list.push(Migration { version: LATEST_VERSION, step: MigrationStep::CreateMemories });
    assert(list@ =~= migrations());
    list
}

/// Plans the migration of a store from the columns that its task table
/// reports and from its version counter.
pub fn migration_plan(columns: &Vec<String>, version: i32) -> (steps: Vec<MigrationStep>)
    ensures
        steps@ == plan(
            has_column(columns.deep_view(), "parent_id"@),
            has_column(columns.deep_view(), "depend_id"@),
            version as int,
        ),
{
    let mut steps: Vec<MigrationStep> = Vec::new();
    if !names_column(columns, "parent_id") {
        steps.push(MigrationStep::AddParentColumn);
    }
    if !names_column(columns, "depend_id") {
        steps.push(MigrationStep::AddDependColumn);
    }
    let ghost fixes = steps@;
    assert(fixes =~= column_steps(
        has_column(columns.deep_view(), "parent_id"@),
        has_column(columns.deep_view(), "depend_id"@),
    ));
    let list = migration_list();
    let mut i: usize = 0;
    assert(list@.take(0) =~= Seq::<Migration>::empty());
    assert(steps@ =~= fixes + due(list@.take(0), version as int));
    while i < list.len()
        invariant
            i <= list@.len(),
            steps@ == fixes + due(list@.take(i as int), version as int),
        decreases list@.len() - i,
    {
        let migration = list[i];
        proof {
            assert(list@.take(i + 1).drop_last() =~= list@.take(i as int));
            assert(list@.take(i + 1).last() == migration);
        }
        let ghost before = steps@;
        if below(version, migration.version) {
            steps.push(migration.step);
            steps.push(MigrationStep::RecordVersion(migration.version));
            assert(steps@ =~= fixes + due(list@.take(i + 1), version as int));
        }
        i += 1;
    }
    assert(list@.take(i as int) =~= list@);
    steps
}

/// The plan, step by step.
pub proof fn plan_unrolled(has_parent: bool, has_depend: bool, version: int)
    ensures
        plan(has_parent, has_depend, version) == {
            let columns = column_steps(has_parent, has_depend);
            let first = if version < 1 {
                columns.push(MigrationStep::RewriteLegacyDone).push(
                    MigrationStep::RecordVersion(1),
                )
            } else {
                columns
            };
            if version < 2 {
                first.push(MigrationStep::CreateMemories).push(MigrationStep::RecordVersion(2))
            } else {
                first
            }
        },
{
    let list = migrations();
    let one = list.drop_last();
    assert(one.len() == 1);
    assert(one.last() == list[0]);
    let none = one.drop_last();
    assert(none.len() == 0);
    assert(due(none, version) =~= Seq::<MigrationStep>::empty());
    let first = due(one, version);
    let both = due(list, version);
    assert(first =~= if version < 1 {
        seq![MigrationStep::RewriteLegacyDone, MigrationStep::RecordVersion(1)]
    } else {
        Seq::<MigrationStep>::empty()
    });
    let columns = column_steps(has_parent, has_depend);
    let unrolled = {
        let first = if version < 1 {
            columns.push(MigrationStep::RewriteLegacyDone).push(MigrationStep::RecordVersion(1))
        } else {
            columns
        };
        if version < 2 {
            first.push(MigrationStep::CreateMemories).push(MigrationStep::RecordVersion(2))
        } else {
            first
        }
    };
    assert(columns + both =~= unrolled);
}

/// Taking one more step after a list of steps.
pub proof fn one_more_step(image: StoreImage, steps: Seq<MigrationStep>, step: MigrationStep)
    ensures
        steps_applied(image, steps.push(step)) == step_applied(steps_applied(image, steps), step),
{
    assert(steps.push(step).drop_last() =~= steps);
}

/// What migration comes to, stage by stage.
pub open spec fn migrated_directly(image: StoreImage) -> StoreImage {
    let version = if image.has_meta {
        image.version
    } else {
        None
    };
    let reported: int = match version {
        Some(v) => v,
        None => 0,
    };
    StoreImage {
        has_meta: true,
        version: if reported < 2 {
            Some(2int)
        } else {
            version
        },
        has_parent: true,
        has_depend: true,
        has_memories: image.has_memories || reported < 2,
        tasks: if reported < 1 {
            image.tasks.map_values(|row: StoredRow| rewritten(row))
        } else {
            image.tasks
        },
    }
}

/// The planned steps, taken in order, come to exactly the staged result.
pub proof fn plan_comes_to(image: StoreImage)
    ensures
        migrated(image) == migrated_directly(image),
{
    let ready = StoreImage {
        has_meta: true,
        version: if image.has_meta {
            image.version
        } else {
            None
        },
        ..image
    };
    let version = reported_version(ready);
    let none = Seq::<MigrationStep>::empty();
    assert(steps_applied(ready, none) == ready);
    let a = if ready.has_parent {
        none
    } else {
        none.push(MigrationStep::AddParentColumn)
    };
    assert(seq![MigrationStep::AddParentColumn] =~= none.push(MigrationStep::AddParentColumn));
    one_more_step(ready, none, MigrationStep::AddParentColumn);
    let after_a = steps_applied(ready, a);
    assert(after_a == StoreImage { has_parent: true, ..ready });
    let b = if ready.has_depend {
        a
    } else {
        a.push(MigrationStep::AddDependColumn)
    };
    one_more_step(ready, a, MigrationStep::AddDependColumn);
    let after_b = steps_applied(ready, b);
    assert(after_b == StoreImage { has_parent: true, has_depend: true, ..ready });
    let c = if version < 1 {
        b.push(MigrationStep::RewriteLegacyDone).push(MigrationStep::RecordVersion(1))
    } else {
        b
    };
    one_more_step(ready, b, MigrationStep::RewriteLegacyDone);
    one_more_step(
        ready,
        b.push(MigrationStep::RewriteLegacyDone),
        MigrationStep::RecordVersion(1),
    );
    let after_c = steps_applied(ready, c);
    let d = if version < 2 {
        c.push(MigrationStep::CreateMemories).push(MigrationStep::RecordVersion(2))
    } else {
        c
    };
    one_more_step(ready, c, MigrationStep::CreateMemories);
    one_more_step(ready, c.push(MigrationStep::CreateMemories), MigrationStep::RecordVersion(2));
    plan_unrolled(ready.has_parent, ready.has_depend, version);
    assert(b == column_steps(ready.has_parent, ready.has_depend));
    assert(d == plan(ready.has_parent, ready.has_depend, version));
}

/// Migration is forward-only: afterwards the store reports the newest
/// version, or the later one that it reported before, and it has the
/// metadata table, both link columns and, where it was behind, the memory
/// table.
pub proof fn migration_reaches_latest(image: StoreImage)
    ensures
        reported_version(migrated(image)) == if reported_version(image) < LATEST_VERSION {
            LATEST_VERSION as int
        } else {
            reported_version(image)
        },
        migrated(image).has_meta,
        migrated(image).has_parent,
        migrated(image).has_depend,
        reported_version(image) < LATEST_VERSION ==> migrated(image).has_memories,
        image.has_memories ==> migrated(image).has_memories,
{
    plan_comes_to(image);
}

/// Migration keeps every row and every text. On a store below version one a
/// task whose flag is the legacy done value gets the done code; every other
/// code stays, and from version one on all codes stay.
pub proof fn migration_rewrites_legacy_done(image: StoreImage)
    ensures
        migrated(image).tasks.len() == image.tasks.len(),
        forall|i: int|
            0 <= i < image.tasks.len() ==> {
                let before = image.tasks[i];
                let after = #[trigger] migrated(image).tasks[i];
                &&& after.id == before.id
                &&& after.title == before.title
                &&& after.description == before.description
                &&& after.code == if reported_version(image) < 1 && before.code == 1 {
                    2
                } else {
                    before.code
                }
            },
{
    plan_comes_to(image);
}

/// Migrating a migrated store changes nothing, and nothing is planned for
/// it.
pub proof fn migration_is_idempotent(image: StoreImage)
    ensures
        migrated(migrated(image)) == migrated(image),
        plan(
            migrated(image).has_parent,
            migrated(image).has_depend,
            reported_version(migrated(image)),
        ) == Seq::<MigrationStep>::empty(),
{
    plan_comes_to(image);
    plan_comes_to(migrated(image));
    let once = migrated(image);
    assert(once.tasks =~= migrated_directly(once).tasks);
    plan_unrolled(once.has_parent, once.has_depend, reported_version(once));
    assert(plan(once.has_parent, once.has_depend, reported_version(once))
        =~= Seq::<MigrationStep>::empty());
}

/// A migration that was taken is not taken again: applied to its own
/// result it changes nothing.
pub proof fn migration_is_no_op_when_reapplied(image: StoreImage, migration: Migration)
    requires
        image.has_meta,
    ensures
        migration_applied(migration_applied(image, migration), migration) == migration_applied(
            image,
            migration,
        ),
{
}

/// Taking the planned steps is taking the migrations one after the other,
/// each only while the store reports a version below its own.
pub proof fn plan_takes_migrations_in_turn(image: StoreImage)
    requires
        image.has_meta,
        image.has_parent,
        image.has_depend,
    ensures
        steps_applied(image, plan(true, true, reported_version(image))) == migration_applied(
            migration_applied(image, migrations()[0]),
            migrations()[1],
        ),
{
    let version = reported_version(image);
    plan_unrolled(true, true, version);
    let none = Seq::<MigrationStep>::empty();
    assert(column_steps(true, true) == none);
    assert(steps_applied(image, none) == image);
    one_more_step(image, none, MigrationStep::RewriteLegacyDone);
    one_more_step(image, none.push(MigrationStep::RewriteLegacyDone), MigrationStep::RecordVersion(1));
    let first = if version < 1 {
        none.push(MigrationStep::RewriteLegacyDone).push(MigrationStep::RecordVersion(1))
    } else {
        none
    };
    one_more_step(image, first, MigrationStep::CreateMemories);
    one_more_step(image, first.push(MigrationStep::CreateMemories), MigrationStep::RecordVersion(2));
}

} // verus!
