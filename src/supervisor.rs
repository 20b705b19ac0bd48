//! The supervisor of the three tasks: the first one to finish, whatever
//! its result, ends the process and names the report.
use crate::transport::{is_terminal, transport_run, Notification, TransportError};
use vstd::prelude::*;
use vstd::string::*;

verus! {

/// The three concurrent tasks.
#[derive(Clone, Copy, Debug, PartialEq, Eq, Structural)]
pub enum Task {
    WeatherFetcher,
    Publisher,
    MqttLoop,
}

pub open spec fn task_label(t: Task) -> Seq<char> {
    match t {
        Task::WeatherFetcher => "Weather fetcher"@,
        Task::Publisher => "Publisher task"@,
        Task::MqttLoop => "MQTT loop"@,
    }
}

/// Which task ended the process, and its result in words.
#[derive(Clone, Debug, PartialEq, Eq)]
pub struct ShutdownReport {
    pub task: Task,
    pub outcome: String,
}

pub open spec fn report_message(task: Task, outcome: Seq<char>) -> Seq<char> {
    task_label(task) + " finished: "@ + outcome
}

impl ShutdownReport {
    /// `<task> finished: <outcome>`
    pub fn message(&self) -> (r: String)
        ensures
            r@ == report_message(self.task, self.outcome@),
    {
        let mut r = String::new();
        match self.task {
            Task::WeatherFetcher => r.append("Weather fetcher"),
            Task::Publisher => r.append("Publisher task"),
            Task::MqttLoop => r.append("MQTT loop"),
        }
        r.append(" finished: ");
        r.append(self.outcome.as_str());
        r
    }
}

/// The report that a sequence of task completions leads to: the first.
pub open spec fn first_report(finished: Seq<(Task, Seq<char>)>) -> Option<(Task, Seq<char>)> {
    if finished.len() == 0 {
        None
    } else {
        Some(finished[0])
    }
}

pub open spec fn report_view(r: Option<ShutdownReport>) -> Option<(Task, Seq<char>)> {
    match r {
        Some(rep) => Some((rep.task, rep.outcome@)),
        None => None,
    }
}

/// Waits for the first of the tasks to finish.
pub struct Supervisor {
    first: Option<ShutdownReport>,
    finished: Ghost<Seq<(Task, Seq<char>)>>,
}

impl Supervisor {
    /// The completions seen so far, in order.
    pub closed spec fn spec_finished(&self) -> Seq<(Task, Seq<char>)> {
        self.finished@
    }

    pub closed spec fn spec_report(&self) -> Option<(Task, Seq<char>)> {
        report_view(self.first)
    }

    pub open spec fn wf(&self) -> bool {
        self.spec_report() == first_report(self.spec_finished())
    }

    pub fn new() -> (r: Supervisor)
        ensures
            r.wf(),
            r.spec_finished() == Seq::<(Task, Seq<char>)>::empty(),
    {
        Supervisor { first: None, finished: Ghost(Seq::empty()) }
    }

    /// `task` finished with `outcome`; returns whether it is the first, which
    /// ends the process.
    pub fn on_finished(&mut self, task: Task, outcome: String) -> (r: bool)
        requires
            old(self).wf(),
        ensures
            final(self).wf(),
            final(self).spec_finished() == old(self).spec_finished().push((task, outcome@)),
            r == (old(self).spec_finished().len() == 0),
    {
        self.finished = Ghost(self.finished@.push((task, outcome@)));
        match self.first {
            Some(_) => false,
            None => {
                self.first = Some(ShutdownReport { task, outcome });
                true
            },
        }
    }

    /// The report of the first task that finished, if one has.
    pub fn report(&self) -> (r: &Option<ShutdownReport>)
        requires
            self.wf(),
        ensures
            report_view(*r) == first_report(self.spec_finished()),
    {
        &self.first
    }
}

/// Where the transport loop's stream ends after notifications of which none
/// is terminal, the loop ends with `StreamEnded`, and once that completion
/// reaches the supervisor first, the report names the transport loop,
/// whatever the other two tasks do afterwards.
pub proof fn lemma_transport_end_reported(
    ns: Seq<Notification>,
    outcome: Seq<char>,
    later: Seq<(Task, Seq<char>)>,
)
    requires
        forall|i: int| 0 <= i < ns.len() ==> !is_terminal(#[trigger] ns[i]),
    ensures
        transport_run(ns) == TransportError::StreamEnded,
        first_report(seq![(Task::MqttLoop, outcome)] + later) == Some((Task::MqttLoop, outcome)),
{
    crate::transport::lemma_transport_run(ns, ns.len() as int);
    assert((seq![(Task::MqttLoop, outcome)] + later)[0] == (Task::MqttLoop, outcome));
}

} // verus!
