//! The versioned schema guard that a store consults when it is opened.
//!
//! A store carries one integer, its version marker. Version 0 means that the
//! store is fresh; version `n` means that it stands at the `n`-th revision of
//! the schema. The guard decides which statements bring a store to the latest
//! revision, and refuses a store that is already ahead of it.

use vstd::prelude::*;

verus! {

/// One schema revision: the statements that create it from nothing, and the
/// statements that move a store to it from the revision before or back again.
#[derive(Debug, PartialEq, Eq)]
pub struct Migration {
    pub schema: String,
    pub forward: String,
    pub backward: Option<String>,
}

pub ghost struct MigrationView {
    pub schema: Seq<char>,
    pub forward: Seq<char>,
    pub backward: Option<Seq<char>>,
}

impl View for Migration {
    type V = MigrationView;

    open spec fn view(&self) -> MigrationView {
        MigrationView {
            schema: self.schema@,
            forward: self.forward@,
            backward: self.backward.deep_view(),
        }
    }
}

impl DeepView for Migration {
    type V = MigrationView;

    open spec fn deep_view(&self) -> MigrationView {
        self@
    }
}

impl Migration {
    /// The first revision of a schema: it only knows how to create the tables.
    pub fn initial(schema: &str) -> (migration: Self)
        ensures
            migration@ == (MigrationView {
                schema: schema@,
                forward: Seq::<char>::empty(),
                backward: None,
            }),
    {
        Migration { schema: schema.to_owned(), forward: String::new(), backward: None }
    }

    /// Creates the revision on a store: executes the statements of its schema.
    pub fn initialize(&self, conn: &mut Connection)
        ensures
            final(conn)@ == (ConnectionView {
                executed: old(conn)@.executed.push(self@.schema),
                ..old(conn)@
            }),
    {
        conn.executed.push(self.schema.clone());
        assert(conn@.executed =~= old(conn)@.executed.push(self@.schema));
    }

    /// Moves a store forward to the revision: executes its forward statements.
    pub fn run(&self, conn: &mut Connection)
        ensures
            final(conn)@ == (ConnectionView {
                executed: old(conn)@.executed.push(self@.forward),
                ..old(conn)@
            }),
    {
        conn.executed.push(self.forward.clone());
        assert(conn@.executed =~= old(conn)@.executed.push(self@.forward));
    }
}

/// Why a store could not be opened.
#[derive(Debug, Clone, Copy, PartialEq, Eq, Structural)]
pub enum SchemaError {
    /// The store was written under a later revision than this schema knows.
    /// There is no way back to an earlier revision.
    UnsupportedNewerSchema { stored: u16, latest: u16 },
}

/// The part of a store that the guard reads and writes: the version marker, and
/// the batches of statements that were executed on it, oldest first.
#[derive(Debug, PartialEq, Eq)]
pub struct Connection {
    pub user_version: u16,
    pub executed: Vec<String>,
}

pub ghost struct ConnectionView {
    pub user_version: u16,
    pub executed: Seq<Seq<char>>,
}

impl View for Connection {
    type V = ConnectionView;

    open spec fn view(&self) -> ConnectionView {
        ConnectionView { user_version: self.user_version, executed: self.executed.deep_view() }
    }
}

impl Connection {
    /// A store on which nothing was executed yet.
    pub fn fresh() -> (conn: Self)
        ensures
            conn@ == (ConnectionView { user_version: 0, executed: Seq::empty() }),
    {
        let conn = Connection { user_version: 0, executed: Vec::new() };
        assert(conn.executed.deep_view() =~= Seq::<Seq<char>>::empty());
        conn
    }
}

/// The `forward` statements of the revisions `from ..= to`, in that order.
pub open spec fn forward_statements(migrations: Seq<MigrationView>, from: int, to: int) -> Seq<
    Seq<char>,
> {
    Seq::new((to - from + 1) as nat, |i: int| migrations[from + i].forward)
}

/// The batches of statements that bring a store with the given version marker
/// to revision `latest_index` of `migrations`, or the refusal of a store that
/// is ahead of it.
pub open spec fn statements_for(
    migrations: Seq<MigrationView>,
    latest_index: int,
    user_version: u16,
) -> Result<Seq<Seq<char>>, SchemaError> {
    if user_version == 0 {
        Ok(seq![migrations[latest_index].schema])
    } else if user_version - 1 < latest_index {
        Ok(forward_statements(migrations, user_version - 1, latest_index))
    } else if user_version - 1 == latest_index {
        Ok(Seq::empty())
    } else {
        Err(
            SchemaError::UnsupportedNewerSchema {
                stored: user_version,
                latest: (latest_index + 1) as u16,
            },
        )
    }
}

/// The revisions of a schema, oldest first, and the position of the latest.
#[derive(Debug, PartialEq, Eq)]
pub struct Schema {
    current_index: usize,
    migrations: Vec<Migration>,
}

impl Schema {
    /// The revisions, oldest first.
    pub closed spec fn migrations(&self) -> Seq<MigrationView> {
        self.migrations.deep_view()
    }

    /// The position of the latest revision.
    pub closed spec fn current_index(&self) -> int {
        self.current_index as int
    }

    /// The latest revision exists, and its version fits the marker.
    pub closed spec fn well_formed(&self) -> bool {
        &&& self.current_index < self.migrations.len()
        &&& self.current_index < u16::MAX
    }

    /// The version marker of a store that stands at the latest revision.
    pub open spec fn latest_version(&self) -> int {
        self.current_index() + 1
    }

    /// The schema whose latest revision is the last of `migrations`. There is
    /// none for an empty list, nor for one with more revisions than the
    /// version marker can count.
    pub fn new(migrations: Vec<Migration>) -> (schema: Option<Self>)
        ensures
            schema is Some <==> 0 < migrations.len() <= u16::MAX,
            schema matches Some(s) ==> {
                &&& s.well_formed()
                &&& s.migrations() == migrations.deep_view()
                &&& s.current_index() == migrations.len() - 1
            },
    {
        if migrations.len() == 0 || migrations.len() > 0xffff {
            None
        } else {
            Some(Schema { current_index: migrations.len() - 1, migrations })
        }
    }

    /// The version marker of a store that stands at the latest revision.
    pub fn latest(&self) -> (version: u16)
        requires
            self.well_formed(),
        ensures
            version == self.latest_version(),
    {
        (self.current_index + 1) as u16
    }

    /// Decides what opening a store with the given version marker takes: the
    /// batches of statements to execute, in order, after which the marker is
    /// set to the latest version. A fresh store gets the latest schema, a store
    /// at the latest version gets nothing, an older store gets the forward
    /// migrations from its own revision through the latest, and a newer store
    /// is refused.
    pub fn plan(&self, user_version: u16) -> (result: Result<Vec<String>, SchemaError>)
        requires
            self.well_formed(),
        ensures
            plan_view(result) == statements_for(
                self.migrations(),
                self.current_index(),
                user_version,
            ),
    {
        let mut batches: Vec<String> = Vec::new();
        if user_version == 0 {
            batches.push(self.migrations[self.current_index].schema.clone());
            assert(batches.deep_view() =~= seq![self.migrations()[self.current_index()].schema]);
            Ok(batches)
        } else {
            let stored_index: usize = (user_version - 1) as usize;
            if stored_index < self.current_index {
                let mut v: usize = stored_index;
                while v <= self.current_index
                    invariant
                        self.well_formed(),
                        stored_index <= v <= self.current_index + 1,
                        batches.len() == v - stored_index,
                        forall|i: int|
                            0 <= i < batches.len() ==> batches[i]@ == self.migrations[stored_index
                                + i]@.forward,
                    decreases self.current_index + 1 - v,
                {
                    batches.push(self.migrations[v].forward.clone());
                    v += 1;
                }
                assert(batches.deep_view() =~= forward_statements(
                    self.migrations(),
                    stored_index as int,
                    self.current_index(),
                ));
                Ok(batches)
            } else if stored_index > self.current_index {
                Err(
                    SchemaError::UnsupportedNewerSchema {
                        stored: user_version,
                        latest: (self.current_index + 1) as u16,
                    },
                )
            } else {
                assert(batches.deep_view() =~= Seq::<Seq<char>>::empty());
                Ok(batches)
            }
        }
    }

    /// Opens a store: brings it to the latest revision and sets its version
    /// marker to the latest version. A fresh store gets the latest schema, a
    /// store at the latest version is left alone, an older store gets the
    /// forward migrations from its own revision through the latest, and a
    /// newer store is refused and left as it was.
    pub fn initialize(&self, conn: &mut Connection) -> (result: Result<(), SchemaError>)
        requires
            self.well_formed(),
        ensures
            match statements_for(self.migrations(), self.current_index(), old(conn)@.user_version) {
                Ok(batches) => {
                    &&& result is Ok
                    &&& final(conn)@.executed == old(conn)@.executed + batches
                    &&& final(conn)@.user_version == self.latest_version()
                },
                Err(e) => result == Err::<(), SchemaError>(e) && final(conn)@ == old(conn)@,
            },
    {
        let user_version = conn.user_version;
        let ghost before = conn@.executed;
        if user_version == 0 {
            self.migrations[self.current_index].initialize(conn);
            assert(conn@.executed =~= before + seq![
                self.migrations()[self.current_index()].schema,
            ]);
        } else {
            let stored_index: usize = (user_version - 1) as usize;
            if stored_index > self.current_index {
                return Err(
                    SchemaError::UnsupportedNewerSchema {
                        stored: user_version,
                        latest: (self.current_index + 1) as u16,
                    },
                );
            }
            if stored_index < self.current_index {
                let mut v: usize = stored_index;
                while v <= self.current_index
                    invariant
                        self.well_formed(),
                        stored_index <= v <= self.current_index + 1,
                        conn@.user_version == user_version,
                        conn@.executed == before + Seq::new(
                            (v - stored_index) as nat,
                            |i: int| self.migrations()[stored_index + i].forward,
                        ),
                    decreases self.current_index + 1 - v,
                {
                    let ghost done = conn@.executed;
                    self.migrations[v].run(conn);
                    assert(conn@.executed =~= before + Seq::new(
                        (v + 1 - stored_index) as nat,
                        |i: int| self.migrations()[stored_index + i].forward,
                    ));
                    v += 1;
                }
            } else {
                assert(conn@.executed =~= before + Seq::<Seq<char>>::empty());
            }
        }
        conn.user_version = self.latest();
        Ok(())
    }
}

/// The view of what `plan` returns.
pub open spec fn plan_view(result: Result<Vec<String>, SchemaError>) -> Result<
    Seq<Seq<char>>,
    SchemaError,
> {
    match result {
        Ok(batches) => Ok(batches.deep_view()),
        Err(e) => Err(e),
    }
}

/// Opening a fresh store executes the latest schema once and sets the marker
/// to the latest version; opening a store that stands at the latest version
/// executes nothing; opening a store that is ahead of it fails.
pub proof fn lemma_schema_guard(schema: Schema, user_version: u16)
    requires
        schema.well_formed(),
    ensures
        user_version == 0 ==> statements_for(
            schema.migrations(),
            schema.current_index(),
            user_version,
        ) == Ok::<Seq<Seq<char>>, SchemaError>(
            seq![schema.migrations()[schema.current_index()].schema],
        ),
        user_version == schema.latest_version() ==> statements_for(
            schema.migrations(),
            schema.current_index(),
            user_version,
        ) == Ok::<Seq<Seq<char>>, SchemaError>(Seq::empty()),
        user_version > schema.latest_version() ==> statements_for(
            schema.migrations(),
            schema.current_index(),
            user_version,
        ) is Err,
{
}

} // verus!
