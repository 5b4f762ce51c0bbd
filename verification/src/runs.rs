//! Runs of savings: statements that are executed one after the other.
//!
//! A statement that fails either ends the run, or is reported and passed over.
use vstd::prelude::*;

use crate::store::{Statement, StatementView};

verus! {

/// What becomes of a run when a statement fails.
pub enum OnFailure {
    /// The failure is reported in these words, and the run goes on.
    Report(String),
    /// The run ends.
    Abort,
}

/// What an [`OnFailure`] holds.
pub enum OnFailureView {
    Report(Seq<char>),
    Abort,
}

impl View for OnFailure {
    type V = OnFailureView;

    open spec fn view(&self) -> OnFailureView {
        match self {
            OnFailure::Report(words) => OnFailureView::Report(words@),
            OnFailure::Abort => OnFailureView::Abort,
        }
    }
}

impl Clone for OnFailure {
    fn clone(&self) -> (copy: Self)
        ensures
            copy@ == self@,
    {
        match self {
            OnFailure::Report(words) => OnFailure::Report(words.clone()),
            OnFailure::Abort => OnFailure::Abort,
        }
    }
}

/// A statement of a run.
pub struct SaveStep {
    pub statement: Statement,
    pub on_failure: OnFailure,
}

/// What a [`SaveStep`] holds.
#[verifier::ext_equal]
pub struct SaveStepView {
    pub statement: StatementView,
    pub on_failure: OnFailureView,
}

impl View for SaveStep {
    type V = SaveStepView;

    open spec fn view(&self) -> SaveStepView {
        SaveStepView { statement: self.statement@, on_failure: self.on_failure@ }
    }
}

impl DeepView for SaveStep {
    type V = SaveStepView;

    open spec fn deep_view(&self) -> SaveStepView {
        self@
    }
}

/// A run of savings: its steps, how many of them are behind it, and whether it
/// was aborted.
pub struct SaveRun {
    steps: Vec<SaveStep>,
    done: usize,
    aborted: bool,
}

/// What a [`SaveRun`] holds.
#[verifier::ext_equal]
pub struct SaveRunView {
    pub steps: Seq<SaveStepView>,
    pub done: nat,
    pub aborted: bool,
}

impl View for SaveRun {
    type V = SaveRunView;

    closed spec fn view(&self) -> SaveRunView {
        SaveRunView {
            steps: self.steps.deep_view(),
            done: self.done as nat,
            aborted: self.aborted,
        }
    }
}

impl SaveRunView {
    /// A run that has not begun.
    pub open spec fn of(steps: Seq<SaveStepView>) -> SaveRunView {
        SaveRunView { steps, done: 0, aborted: false }
    }

    /// Whether a statement is to be executed next.
    pub open spec fn pending(self) -> bool {
        !self.aborted && self.done < self.steps.len()
    }

    /// The step whose statement is to be executed next.
    pub open spec fn step(self) -> SaveStepView {
        self.steps[self.done as int]
    }

    /// The run once the statement has been executed.
    pub open spec fn after(self, stored: bool) -> SaveRunView {
        if !self.pending() {
            self
        } else if stored || self.step().on_failure is Report {
            SaveRunView { done: self.done + 1, ..self }
        } else {
            SaveRunView { aborted: true, ..self }
        }
    }

    /// The run once several statements have been executed.
    pub open spec fn after_all(self, stored: Seq<bool>) -> SaveRunView
        decreases stored.len(),
    {
        if stored.len() == 0 {
            self
        } else {
            self.after_all(stored.drop_last()).after(stored.last())
        }
    }
}

impl SaveRun {
    /// A run that has not begun.
    pub fn new(steps: Vec<SaveStep>) -> (run: Self)
        ensures
            run@ == SaveRunView::of(steps.deep_view()),
            run@.steps == steps.deep_view(),
            run@.done == 0,
            !run@.aborted,
    {
        SaveRun { steps, done: 0, aborted: false }
    }

    /// The statement that is to be executed next; none when the run is over.
    pub fn next_statement(&self) -> (statement: Option<Statement>)
        ensures
            match statement {
                Some(statement) => self@.pending() && statement@ == self@.step().statement,
                None => !self@.pending(),
            },
            (statement is Some) == (!self@.aborted && self@.done < self@.steps.len()),
            statement matches Some(statement) ==> statement@ == self@.steps[self@.done as int].statement,
    {
        if !self.aborted && self.done < self.steps.len() {
            Some(self.steps[self.done].statement.clone())
        } else {
            None
        }
    }

    /// Takes in whether the statement was stored. Gives the words in which a failure
    /// is reported, where it is.
    pub fn record(&mut self, stored: bool) -> (report: Option<String>)
        ensures
            final(self)@ == old(self)@.after(stored),
            match report {
                Some(words) => !stored && old(self)@.pending() && old(self)@.step().on_failure
                    == OnFailureView::Report(words@),
                None => stored || !old(self)@.pending() || old(self)@.step().on_failure
                    == OnFailureView::Abort,
            },
            final(self)@.steps == old(self)@.steps,
            old(self)@.aborted || old(self)@.done >= old(self)@.steps.len() ==> final(self)@
                == old(self)@ && report is None,
            !old(self)@.aborted && old(self)@.done < old(self)@.steps.len() ==> match old(
                self,
            )@.steps[old(self)@.done as int].on_failure {
                OnFailureView::Report(words) => {
                    &&& final(self)@.done == old(self)@.done + 1
                    &&& !final(self)@.aborted
                    &&& stored ==> report is None
                    &&& !stored ==> (report matches Some(said) && said@ == words)
                },
                OnFailureView::Abort => {
                    &&& report is None
                    &&& final(self)@.aborted == !stored
                    &&& final(self)@.done == (if stored {
                        old(self)@.done + 1
                    } else {
                        old(self)@.done
                    })
                },
            },
    {
        if self.aborted || self.done >= self.steps.len() {
            return None;
        }
        if stored {
            self.done = self.done + 1;
            return None;
        }
        let on_failure = self.steps[self.done].on_failure.clone();
        match on_failure {
            OnFailure::Report(words) => {
                self.done = self.done + 1;
                Some(words)
            },
            OnFailure::Abort => {
                self.aborted = true;
                None
            },
        }
    }

    /// Whether a statement failed that ends the run.
    pub fn is_aborted(&self) -> (aborted: bool)
        ensures
            aborted == self@.aborted,
    {
        self.aborted
    }
}

/// Whether a step fails in a way that ends the run.
pub open spec fn fatal(steps: Seq<SaveStepView>, stored: Seq<bool>, i: int) -> bool {
    !stored[i] && steps[i].on_failure is Abort
}

/// As long as no failure ends it, a run executes its statements in order: after as
/// many outcomes as it has had, it is at the step of that number.
pub proof fn steps_run_in_order(steps: Seq<SaveStepView>, stored: Seq<bool>)
    requires
        stored.len() <= steps.len(),
        forall|i: int| 0 <= i < stored.len() ==> !#[trigger] fatal(steps, stored, i),
    ensures
        SaveRunView::of(steps).after_all(stored) == (SaveRunView {
            steps,
            done: stored.len(),
            aborted: false,
        }),
    decreases stored.len(),
{
    if stored.len() > 0 {
        let earlier = stored.drop_last();
        assert forall|i: int| 0 <= i < earlier.len() implies !#[trigger] fatal(
            steps,
            earlier,
            i,
        ) by {
            assert(!fatal(steps, stored, i));
        }
        steps_run_in_order(steps, earlier);
        assert(!fatal(steps, stored, stored.len() - 1));
    }
}

/// A run in which every failure is reported is never aborted: whatever fails, every
/// statement is executed.
pub proof fn reporting_run_completes(steps: Seq<SaveStepView>, stored: Seq<bool>)
    requires
        stored.len() == steps.len(),
        forall|i: int| 0 <= i < steps.len() ==> (#[trigger] steps[i]).on_failure is Report,
    ensures
        !SaveRunView::of(steps).after_all(stored).pending(),
        !SaveRunView::of(steps).after_all(stored).aborted,
        SaveRunView::of(steps).after_all(stored).done == steps.len(),
{
    assert forall|i: int| 0 <= i < stored.len() implies !#[trigger] fatal(steps, stored, i) by {
        assert(steps[i].on_failure is Report);
    }
    steps_run_in_order(steps, stored);
}

/// The first failure that ends a run is the last thing that happens in it: no later
/// statement is executed, whatever is said to have come of it.
pub proof fn nothing_runs_after_abort(steps: Seq<SaveStepView>, stored: Seq<bool>, at: int)
    requires
        0 <= at < stored.len() <= steps.len(),
        forall|i: int| 0 <= i < at ==> !#[trigger] fatal(steps, stored, i),
        fatal(steps, stored, at),
    ensures
        SaveRunView::of(steps).after_all(stored) == (SaveRunView {
            steps,
            done: at as nat,
            aborted: true,
        }),
    decreases stored.len(),
{
    let earlier = stored.drop_last();
    if at == stored.len() - 1 {
        assert forall|i: int| 0 <= i < earlier.len() implies !#[trigger] fatal(
            steps,
            earlier,
            i,
        ) by {
            assert(!fatal(steps, stored, i));
        }
        steps_run_in_order(steps, earlier);
    } else {
        assert forall|i: int| 0 <= i < at implies !#[trigger] fatal(steps, earlier, i) by {
            assert(!fatal(steps, stored, i));
        }
        nothing_runs_after_abort(steps, earlier, at);
    }
}

/// The view of a step holds its statement and what becomes of the run when it fails.
pub proof fn step_view_is_faithful(step: SaveStep)
    ensures
        step@.statement == step.statement@,
        match step.on_failure {
            OnFailure::Report(words) => step@.on_failure == OnFailureView::Report(words@),
            OnFailure::Abort => step@.on_failure == OnFailureView::Abort,
        },
        step.deep_view() == step@,
{
}

/// A run takes one step at a time. A statement that was stored, or whose failure is
/// only reported, is behind it; any other failure aborts it where it stands. When it
/// is over or aborted, nothing changes it.
pub proof fn run_takes_one_step_at_a_time(run: SaveRunView, stored: bool)
    ensures
        SaveRunView::of(run.steps) == (SaveRunView { steps: run.steps, done: 0, aborted: false }),
        run.pending() == (!run.aborted && run.done < run.steps.len()),
        run.pending() ==> run.step() == run.steps[run.done as int],
        run.aborted || run.done >= run.steps.len() ==> run.after(stored) == run,
        !run.aborted && run.done < run.steps.len() ==> {
            let fails = !stored && run.steps[run.done as int].on_failure == OnFailureView::Abort;
            &&& run.after(stored).steps == run.steps
            &&& run.after(stored).aborted == fails
            &&& run.after(stored).done == (if fails {
                run.done
            } else {
                run.done + 1
            })
        },
{
}

/// Outcomes are taken in one after the other.
pub proof fn outcomes_are_taken_in_order(run: SaveRunView, stored: Seq<bool>, next: bool)
    ensures
        run.after_all(Seq::empty()) == run,
        run.after_all(stored.push(next)) == run.after_all(stored).after(next),
{
    assert(stored.push(next).drop_last() =~= stored);
}

} // verus!
