//! Execution time as the engine sees it: an observer that is told the
//! runtime after each execution, and a feedback that hands it on to a new
//! corpus entry.

use vstd::prelude::*;
use vstd::string::StringExecFns;
use crate::duration::RunDuration;

verus! {

/// A simple observer that is fed with a runtime value after each execution.
#[derive(Clone, Debug, PartialEq, Eq)]
pub struct ManualTimeObserver {
    name: String,
    last_runtime: Option<RunDuration>,
}

impl ManualTimeObserver {
    /// The observer's name.
    pub closed spec fn spec_name(&self) -> Seq<char> {
        self.name@
    }

    /// The runtime of the last execution, if it has one.
    pub closed spec fn spec_last_runtime(&self) -> Option<RunDuration> {
        self.last_runtime
    }

    /// Creates a new observer with the given name and no runtime.
    #[must_use]
    pub fn new(name: &'static str) -> (r: Self)
        ensures
            r.spec_name() == name@,
            r.spec_last_runtime() is None,
    {
        ManualTimeObserver { name: String::from_str(name), last_runtime: None }
    }

    /// Creates a new observer with a name that is made at run time.
    #[must_use]
    pub fn with_name(name: String) -> (r: Self)
        ensures
            r.spec_name() == name@,
            r.spec_last_runtime() is None,
    {
        ManualTimeObserver { name, last_runtime: None }
    }

    /// Gets the runtime of the last execution of the target.
    #[must_use]
    pub fn last_runtime(&self) -> (r: &Option<RunDuration>)
        ensures
            *r == self.spec_last_runtime(),
    {
        &self.last_runtime
    }

    /// Sets the runtime of the last execution of the target.
    pub fn set_last_runtime(&mut self, last_runtime: Option<RunDuration>)
        ensures
            final(self).spec_last_runtime() == last_runtime,
            final(self).spec_name() == old(self).spec_name(),
    {
        self.last_runtime = last_runtime;
    }

    /// The observer's name.
    pub fn name(&self) -> (r: &str)
        ensures
            r@ == self.spec_name(),
    {
        self.name.as_str()
    }

    /// Whether the observer goes by the given name.
    pub fn name_matches(&self, name: &String) -> (r: bool)
        ensures
            r == (self.spec_name() == name@),
    {
        self.name == *name
    }
}

/// A feedback that never finds an execution interesting, but keeps its
/// runtime for the corpus entry that another feedback may create.
#[derive(Clone, Debug, PartialEq, Eq)]
pub struct ManualTimeFeedback {
    exec_time: Option<RunDuration>,
    name: String,
}

impl ManualTimeFeedback {
    /// The name of the observer that this feedback reads.
    pub closed spec fn spec_name(&self) -> Seq<char> {
        self.name@
    }

    /// The runtime kept for the next corpus entry.
    pub closed spec fn spec_exec_time(&self) -> Option<RunDuration> {
        self.exec_time
    }

    /// Creates a feedback that reads the observer with the given name.
    #[must_use]
    pub fn new(name: &'static str) -> (r: Self)
        ensures
            r.spec_name() == name@,
            r.spec_exec_time() is None,
    {
        ManualTimeFeedback { exec_time: None, name: String::from_str(name) }
    }

    /// Creates a feedback that holds `exec_time` for the next corpus entry
    /// and reads the observer with the given name.
    #[must_use]
    pub fn with_exec_time(name: String, exec_time: Option<RunDuration>) -> (r: Self)
        ensures
            r.spec_name() == name@,
            r.spec_exec_time() == exec_time,
    {
        ManualTimeFeedback { exec_time, name }
    }

    /// Creates a feedback that reads the given observer.
    #[must_use]
    pub fn new_with_observer(observer: &ManualTimeObserver) -> (r: Self)
        ensures
            r.spec_name() == observer.spec_name(),
            r.spec_exec_time() is None,
    {
        ManualTimeFeedback { exec_time: None, name: String::from_str(observer.name()) }
    }

    /// The name of the observer that this feedback reads.
    pub fn name(&self) -> (r: &str)
        ensures
            r@ == self.spec_name(),
    {
        self.name.as_str()
    }

    /// The runtime kept for the next corpus entry.
    pub fn exec_time(&self) -> (r: Option<RunDuration>)
        ensures
            r == self.spec_exec_time(),
    {
        self.exec_time
    }

    /// Takes note of the observer's runtime. The execution is never
    /// interesting on account of its time.
    pub fn is_interesting(&mut self, observer: &ManualTimeObserver) -> (r: bool)
        ensures
            !r,
            final(self).spec_exec_time() == observer.spec_last_runtime(),
            final(self).spec_name() == old(self).spec_name(),
    {
        self.exec_time = *observer.last_runtime();
        false
    }

    /// Hands out the runtime for a new corpus entry and forgets it.
    pub fn append_metadata(&mut self) -> (r: Option<RunDuration>)
        ensures
            r == old(self).spec_exec_time(),
            final(self).spec_exec_time() is None,
            final(self).spec_name() == old(self).spec_name(),
    {
        let exec_time = self.exec_time;
        self.exec_time = None;
        exec_time
    }

    /// Forgets the runtime of an execution that makes no corpus entry.
    pub fn discard_metadata(&mut self)
        ensures
            final(self).spec_exec_time() is None,
            final(self).spec_name() == old(self).spec_name(),
    {
        self.exec_time = None;
    }
}

} // verus!
