use crate::error::DatabaseErrorKind;
use crate::error::Error;
use vstd::prelude::*;

verus! {

/// Everything that ever crossed a statement channel: each issued statement,
/// in order, paired with the result the channel returned for it.
pub type StatementLog = Seq<(Seq<char>, Result<(), Error>)>;

/// The statement-execution channel of one database connection: accepts a
/// batch of SQL text, returns success or a classified database error.
///
/// `log` is the channel's history; `wf` is whatever well-formedness an
/// implementation maintains across calls. The channel alone decides each
/// outcome — the contract only ties the returned result to the history and
/// keeps `AlreadyInTransaction`, which is raised locally by the manager and
/// never by a backend, out of the channel's vocabulary.
pub trait SimpleConnection: Sized {
    /// Every statement issued on this channel so far, with its result.
    spec fn log(&self) -> StatementLog;

    /// The well-formedness this channel maintains across calls.
    spec fn wf(&self) -> bool;

    /// Execute one batch of SQL text.
    fn batch_execute(&mut self, sql: &str) -> (r: Result<(), Error>)
        requires
            old(self).wf(),
        ensures
            final(self).wf(),
            final(self).log() == old(self).log().push((sql@, r)),
            r matches Err(e) ==> e is DatabaseError,
    ;
}

/// An in-memory statement channel for exercising a manager without a real
/// backend. Outcomes are taken from a script, front to back — `None` answers
/// success, `Some((kind, message))` answers that database error — and every
/// call after the script's end succeeds. Each statement is kept, in order,
/// for inspection.
pub struct ScriptedConnection {
    script: Vec<Option<(DatabaseErrorKind, String)>>,
    next: usize,
    issued: Vec<String>,
    hist: Ghost<StatementLog>,
}

impl ScriptedConnection {
    /// A channel on which every statement succeeds.
    pub fn new() -> (c: Self)
        ensures
            c.wf(),
            c.log() == Seq::<(Seq<char>, Result<(), Error>)>::empty(),
    {
        ScriptedConnection {
            script: Vec::new(),
            next: 0,
            issued: Vec::new(),
            hist: Ghost(Seq::empty()),
        }
    }

    /// A channel whose first calls answer as `script` dictates.
    pub fn with_script(script: Vec<Option<(DatabaseErrorKind, String)>>) -> (c: Self)
        ensures
            c.wf(),
            c.log() == Seq::<(Seq<char>, Result<(), Error>)>::empty(),
    {
        ScriptedConnection { script, next: 0, issued: Vec::new(), hist: Ghost(Seq::empty()) }
    }

    /// Every statement issued so far, in order: the textual side of `log`.
    pub fn issued_sql(&self) -> (v: &Vec<String>)
        requires
            self.wf(),
        ensures
            v@.len() == self.log().len(),
            forall|i: int| 0 <= i < v@.len() ==> v@[i]@ == self.log()[i].0,
    {
        &self.issued
    }
}

impl SimpleConnection for ScriptedConnection {
    closed spec fn log(&self) -> StatementLog {
        self.hist@
    }

    closed spec fn wf(&self) -> bool {
        &&& self.issued@.len() == self.hist@.len()
        &&& forall|i: int| 0 <= i < self.hist@.len() ==> self.issued@[i]@ == self.hist@[i].0
    }

    fn batch_execute(&mut self, sql: &str) -> (r: Result<(), Error>) {
        let r: Result<(), Error> = if self.next < self.script.len() {
            let entry = &self.script[self.next];
            self.next = self.next + 1;
            match entry {
                Option::None => Ok(()),
                Option::Some((kind, message)) => Err(
                    Error::DatabaseError(*kind, message.clone()),
                ),
            }
        } else {
            Ok(())
        };
        self.issued.push(sql.to_owned());
        proof {
            self.hist@ = self.hist@.push((sql@, r));
        }
        proof {
            assert forall|i: int| 0 <= i < self.hist@.len() implies self.issued@[i]@
                == self.hist@[i].0 by {
                if i < self.hist@.len() - 1 {
                    assert(old(self).issued@[i]@ == old(self).hist@[i].0);
                }
            }
        }
        r
    }
}

} // verus!
