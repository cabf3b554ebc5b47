//! The application loop: alternates a render phase and a read phase,
//! dispatches each input occurrence against the view's widgets, forwards
//! the produced event to the state handler, and restores the terminal
//! exactly once on every exit path — normal quit, render failure, or
//! read failure.
//!
//! The terminal itself is outside this core: the loop's decisions are
//! driven here by the per-iteration outcome the backend reports, so the
//! whole control flow, the restoration invariant included, is checked for
//! every possible run.

use vstd::prelude::*;

use crate::widget::{dispatch, first_match_at, no_match, Button, Input};

verus! {

/// Defines errors originating from the application loop itself.
#[derive(Clone, Copy, Debug, PartialEq, Eq, Structural)]
pub enum Error {
    /// Failed to render a frame: the backend's draw reported an I/O error.
    Render,
    /// Failed to read interface events: the backend's read reported an I/O
    /// error.
    EventRead,
}

/// What the terminal backend reported for one loop iteration: the render
/// phase failed, or the render succeeded and the read phase failed, or both
/// phases succeeded and an input occurrence arrived.
#[derive(Clone, Copy, Debug, PartialEq, Eq, Structural)]
pub enum StepOutcome {
    /// The draw of the frame failed; the loop exits with a render error.
    RenderFailed,
    /// The read of the next occurrence failed; the loop exits with a read
    /// error.
    ReadFailed,
    /// An input occurrence arrived and is handed to the dispatcher.
    Input(Input),
}

/// What one run of the loop did: how it ended (if it did), how many backend
/// outcomes it consumed, and how often the terminal-restore capability was
/// invoked.
pub struct RunReport {
    /// `None` while the loop would still be running (the supplied outcomes
    /// ran out); otherwise the result the loop returns to its caller.
    pub outcome: Option<Result<(), Error>>,
    /// How often the terminal was restored: exactly once on every exit,
    /// never before one.
    pub restores: usize,
    /// How many backend outcomes the loop consumed.
    pub consumed: usize,
}

/// Manages the user interface of the application: owns the widgets of the
/// active view and the state handler that consumes dispatched events and
/// decides termination.
pub struct App<E, F, G> {
    /// The widgets of the active view, in declaration order; the dispatcher
    /// consults them first to last.
    view: Vec<Button<E, F>>,
    /// The state collaborator's event capability: consumes one event,
    /// reports whether the loop should terminate.
    on_event: G,
}

impl<E: Copy, F: Fn() -> E, G: Fn(E) -> bool> App<E, F, G> {
    /// The widgets of the active view.
    pub closed spec fn spec_view(&self) -> Seq<Button<E, F>> {
        self.view@
    }

    /// The state handler this loop forwards events to.
    pub closed spec fn spec_on_event(&self) -> G {
        self.on_event
    }

    /// A well-formed loop holds only well-formed widgets and a handler that
    /// accepts every event.
    pub open spec fn wf(&self) -> bool {
        &&& forall|i: int| 0 <= i < self.spec_view().len() ==> (#[trigger] self.spec_view()[i]).wf()
        &&& forall|e: E| call_requires(self.spec_on_event(), (e,))
    }

    /// Whether some widget of the view is triggered by the occurrence.
    pub open spec fn has_match(&self, input: Input) -> bool {
        !no_match(self.spec_view(), input)
    }

    /// Whether forwarding the event of the first matching widget to the
    /// state handler may answer `b`.
    pub open spec fn decides(&self, input: Input, b: bool) -> bool {
        exists|i: int, e: E|
            #![trigger self.spec_view()[i].produces(e)]
            first_match_at(self.spec_view(), input->KeyPress_0, i) && self.spec_view()[i].produces(
                e,
            ) && call_ensures(self.spec_on_event(), (e,), b)
    }

    /// Whether the loop, seeing the `j`-th backend outcome, keeps running:
    /// the outcome was an input occurrence, and if it matched a widget, the
    /// state handler answered "continue".
    pub open spec fn continues_at(&self, s: Seq<StepOutcome>, j: int) -> bool {
        &&& s[j] is Input
        &&& (self.has_match(s[j]->Input_0) ==> self.decides(s[j]->Input_0, false))
    }

    /// Builds the loop over a view and a state handler.
    pub fn new(view: Vec<Button<E, F>>, on_event: G) -> (r: Self)
        requires
            forall|i: int| 0 <= i < view@.len() ==> (#[trigger] view@[i]).wf(),
            forall|e: E| call_requires(on_event, (e,)),
        ensures
            r.wf(),
            r.spec_view() == view@,
            r.spec_on_event() == on_event,
    {
        Self { view, on_event }
    }

    /// Handles one occurrence inputted by the user: resolves it against the
    /// view's widgets, forwards the produced event (if any) to the state
    /// handler, and returns whether the application should quit. An
    /// occurrence matching no widget is not an error: the answer is then
    /// "continue".
    pub fn handle_event(&mut self, input: Input) -> (r: bool)
        requires
            old(self).wf(),
        ensures
            *final(self) == *old(self),
            !old(self).has_match(input) ==> r == false,
            old(self).has_match(input) ==> old(self).decides(input, r),
    {
        proof {
            assert forall|i: int| 0 <= i < self.view@.len() implies (#[trigger] self.view@[i]).wf() by {
                assert(self.spec_view()[i].wf());
            }
        }
        match dispatch(&self.view, &input) {
            Some(e) => {
                proof {
                    assert(call_requires(self.spec_on_event(), (e,)));
                }
                let r = (self.on_event)(e);
                proof {
                    let i = choose|i: int|
                        first_match_at(self.view@, input->KeyPress_0, i) && self.view@[i].produces(
                            e,
                        );
                    assert(self.spec_view()[i].produces(e));
                    assert(first_match_at(self.spec_view(), input->KeyPress_0, i));
                }
                r
            },
            None => false,
        }
    }

    /// Renders the active view: the spans of each widget, in view order.
    /// The drawable surface itself is the backend's; it paints these spans.
    pub fn draw(&self) -> (r: Vec<Vec<String>>)
        requires
            self.wf(),
        ensures
            r@.len() == self.spec_view().len(),
            forall|i: int|
                0 <= i < r@.len() ==> {
                    &&& (#[trigger] r@[i])@.len() == 2
                    &&& r@[i]@[0]@ == self.spec_view()[i].hint_spec()
                    &&& r@[i]@[1]@ == self.spec_view()[i].label_span_spec()
                },
    {
        let mut r: Vec<Vec<String>> = Vec::new();
        let mut i: usize = 0;
        while i < self.view.len()
            invariant
                self.wf(),
                i <= self.spec_view().len(),
                r@.len() == i,
                forall|j: int|
                    0 <= j < i ==> {
                        &&& (#[trigger] r@[j])@.len() == 2
                        &&& r@[j]@[0]@ == self.spec_view()[j].hint_spec()
                        &&& r@[j]@[1]@ == self.spec_view()[j].label_span_spec()
                    },
            decreases self.spec_view().len() - i,
        {
            let spans = self.view[i].draw();
            r.push(spans);
            i += 1;
        }
        r
    }

    /// Runs the loop over the backend outcomes in `script`, in order, and
    /// reports how it ended.
    ///
    /// The contract carries the loop's central guarantees: the terminal is
    /// restored exactly once whenever the loop exits and never while it
    /// still runs; a failed render or read is fatal at once, with the
    /// matching error; a normal exit happens only on an input occurrence
    /// whose dispatched event the state handler answered with "terminate";
    /// and every earlier outcome was an occurrence the loop carried on
    /// from — in particular one matching no widget never ends the run.
    pub fn run_script(&mut self, script: &Vec<StepOutcome>) -> (r: RunReport)
        requires
            old(self).wf(),
        ensures
            *final(self) == *old(self),
            r.consumed <= script@.len(),
            r.outcome is None ==> r.consumed == script@.len(),
            r.outcome is Some ==> r.consumed >= 1,
            r.outcome is Some ==> r.restores == 1,
            r.outcome is None ==> r.restores == 0,
            (r.outcome == Some(Result::<(), Error>::Err(Error::Render))) <==> (r.consumed >= 1
                && script@[r.consumed - 1] is RenderFailed),
            (r.outcome == Some(Result::<(), Error>::Err(Error::EventRead))) <==> (r.consumed >= 1
                && script@[r.consumed - 1] is ReadFailed),
            r.outcome == Some(Result::<(), Error>::Ok(())) ==> {
                &&& r.consumed >= 1
                &&& script@[r.consumed - 1] is Input
                &&& old(self).has_match(script@[r.consumed - 1]->Input_0)
                &&& old(self).decides(script@[r.consumed - 1]->Input_0, true)
            },
            forall|j: int| 0 <= j < r.consumed - 1 ==> old(self).continues_at(script@, j),
            r.outcome is None && r.consumed >= 1 ==> old(self).continues_at(
                script@,
                r.consumed - 1,
            ),
    {
        let mut idx: usize = 0;
        while idx < script.len()
            invariant
                old(self).wf(),
                *self == *old(self),
                idx <= script@.len(),
                forall|j: int| 0 <= j < idx ==> old(self).continues_at(script@, j),
            decreases script@.len() - idx,
        {
            match script[idx] {
                StepOutcome::RenderFailed => {
                    return RunReport {
                        outcome: Some(Err(Error::Render)),
                        restores: 1,
                        consumed: idx + 1,
                    };
                },
                StepOutcome::ReadFailed => {
                    return RunReport {
                        outcome: Some(Err(Error::EventRead)),
                        restores: 1,
                        consumed: idx + 1,
                    };
                },
                StepOutcome::Input(input) => {
                    if self.handle_event(input) {
                        return RunReport {
                            outcome: Some(Ok(())),
                            restores: 1,
                            consumed: idx + 1,
                        };
                    }
                },
            }
            idx += 1;
        }
        proof {
            if idx >= 1 {
                assert(old(self).continues_at(script@, idx - 1));
            }
        }
        RunReport { outcome: None, restores: 0, consumed: idx }
    }
}

} // verus!
