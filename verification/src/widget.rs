//! Trigger widgets: a labelled button that binds one key to a zero-argument
//! event producer, and the dispatcher that resolves an input occurrence
//! against a view's widgets, first match winning.

use vstd::prelude::*;

use crate::key::{key_display, valid_trigger, push_key_display, Key};

verus! {

/// One discrete unit of input reported by the terminal backend, as far as
/// the core reads it: a key press, or anything else (mouse, resize, focus,
/// a key the core does not model), which no widget can match.
#[derive(Clone, Copy, Debug, PartialEq, Eq, Structural)]
pub enum Input {
    /// A key was pressed.
    KeyPress(Key),
    /// Any other occurrence; the dispatcher never matches it.
    Other,
}

/// Why a widget could not be constructed.
#[derive(Clone, Copy, Debug, PartialEq, Eq, Structural)]
pub enum WidgetError {
    /// The trigger key was a bare modifier key, which cannot be bound.
    UnsupportedTrigger,
    /// The label was empty: a widget must render to non-empty display text.
    EmptyLabel,
}

/// What a button emits when triggered: a constant event, or a call of a
/// producer evaluated at trigger time.
enum Producer<E, F> {
    Const(E),
    Then(F),
}

/// A pressable button: in a terminal interface a key mapping with a label,
/// emitting an event when its key is pressed.
pub struct Button<E, F> {
    /// The label of the button.
    label: String,
    /// The trigger of the button.
    trigger: Key,
    /// The output event producer invoked when the button is triggered.
    output: Producer<E, F>,
}

impl<E: Copy, F: Fn() -> E> Button<E, F> {
    /// The key this button is triggered by.
    pub closed spec fn spec_trigger(&self) -> Key {
        self.trigger
    }

    /// The label text of this button.
    pub closed spec fn spec_label(&self) -> Seq<char> {
        self.label@
    }

    /// Whether this button emits a constant event, fixed at construction.
    pub closed spec fn is_const(&self) -> bool {
        self.output is Const
    }

    /// Whether `e` is an event this button's producer may emit.
    pub closed spec fn produces(&self, e: E) -> bool {
        match self.output {
            Producer::Const(c) => e == c,
            Producer::Then(f) => call_ensures(f, (), e),
        }
    }

    /// A well-formed button binds a non-modifier key, carries a non-empty
    /// label, and holds a producer that may be invoked.
    pub closed spec fn wf(&self) -> bool {
        &&& valid_trigger(self.trigger)
        &&& self.label@.len() > 0
        &&& match self.output {
            Producer::Const(_) => true,
            Producer::Then(f) => call_requires(f, ()),
        }
    }

    /// Builds a new button that emits a constant event.
    ///
    /// Fails exactly when `trigger` is a bare modifier key, which cannot be
    /// bound, or when `label` is empty: rejecting both here keeps the
    /// drawing path total and every drawn widget visible.
    pub fn new(label: &str, trigger: Key, output: E) -> (r: Result<Self, WidgetError>)
        ensures
            r is Ok <==> valid_trigger(trigger) && label@.len() > 0,
            match r {
                Ok(b) => {
                    &&& b.wf()
                    &&& b.is_const()
                    &&& b.spec_trigger() == trigger
                    &&& b.spec_label() == label@
                    &&& forall|e: E| b.produces(e) <==> e == output
                },
                Err(we) => match we {
                    WidgetError::UnsupportedTrigger => !valid_trigger(trigger),
                    WidgetError::EmptyLabel => valid_trigger(trigger) && label@.len() == 0,
                },
            },
    {
        if let Key::Modifier = trigger {
            return Err(WidgetError::UnsupportedTrigger);
        }
        if label.is_empty() {
            return Err(WidgetError::EmptyLabel);
        }
        Ok(Self { label: String::from_str(label), trigger, output: Producer::Const(output) })
    }

    /// Builds a new button whose emitted event is created at trigger time by
    /// `output`, for cases where the event reads context only known then.
    ///
    /// Fails exactly when `trigger` is a bare modifier key or `label` is
    /// empty, as [`Button::new`] does.
    pub fn new_then(label: &str, trigger: Key, output: F) -> (r: Result<Self, WidgetError>)
        requires
            call_requires(output, ()),
        ensures
            r is Ok <==> valid_trigger(trigger) && label@.len() > 0,
            match r {
                Ok(b) => {
                    &&& b.wf()
                    &&& b.spec_trigger() == trigger
                    &&& b.spec_label() == label@
                    &&& forall|e: E| b.produces(e) <==> call_ensures(output, (), e)
                },
                Err(we) => match we {
                    WidgetError::UnsupportedTrigger => !valid_trigger(trigger),
                    WidgetError::EmptyLabel => valid_trigger(trigger) && label@.len() == 0,
                },
            },
    {
        if let Key::Modifier = trigger {
            return Err(WidgetError::UnsupportedTrigger);
        }
        if label.is_empty() {
            return Err(WidgetError::EmptyLabel);
        }
        Ok(Self { label: String::from_str(label), trigger, output: Producer::Then(output) })
    }

    /// The key-hint span of this button: `<` + key display + `>`.
    pub open spec fn hint_spec(&self) -> Seq<char> {
        seq!['<'] + key_display(self.spec_trigger()) + seq!['>']
    }

    /// The label span of this button: a space followed by the label.
    pub open spec fn label_span_spec(&self) -> Seq<char> {
        seq![' '] + self.spec_label()
    }

    /// Returns the rendered text of this button: the key-hint span followed
    /// by the label span. The result depends on the button alone, so two
    /// renders without an intervening change agree.
    pub fn draw(&self) -> (r: Vec<String>)
        requires
            self.wf(),
        ensures
            r@.len() == 2,
            r@[0]@ == self.hint_spec(),
            r@[1]@ == self.label_span_spec(),
    {
        proof {
            reveal_strlit("<");
            reveal_strlit(">");
            reveal_strlit(" ");
        }
        let mut hint = String::from_str("<");
        push_key_display(self.trigger, &mut hint);
        hint.append(">");
        let mut label = String::from_str(" ");
        label.append(self.label.as_str());
        proof {
            assert(hint@ =~= self.hint_spec());
            assert(label@ =~= self.label_span_spec());
        }
        let mut r: Vec<String> = Vec::new();
        r.push(hint);
        r.push(label);
        r
    }

    /// Checks whether this button is triggered by a key press: returns the
    /// produced event exactly when `code` equals the bound trigger, and
    /// invokes the producer at most once, only on a match.
    pub fn handle_trigger(&self, code: Key) -> (r: Option<E>)
        requires
            self.wf(),
        ensures
            r is Some <==> code == self.spec_trigger(),
            match r {
                Some(e) => self.produces(e),
                None => true,
            },
    {
        if code == self.trigger {
            match &self.output {
                Producer::Const(c) => Some(*c),
                Producer::Then(f) => Some(f()),
            }
        } else {
            None
        }
    }
}

/// Law: label rendering is idempotent. Any two results that meet the
/// contract of [`Button::draw`] for the same widget are identical, span for
/// span and byte for byte: drawing twice without an intervening change of
/// the widget cannot differ.
pub proof fn lemma_draw_idempotent<E: Copy, F: Fn() -> E>(
    b: &Button<E, F>,
    r1: Seq<Seq<char>>,
    r2: Seq<Seq<char>>,
)
    requires
        r1.len() == 2,
        r1[0] == b.hint_spec(),
        r1[1] == b.label_span_spec(),
        r2.len() == 2,
        r2[0] == b.hint_spec(),
        r2[1] == b.label_span_spec(),
    ensures
        r1 == r2,
{
    assert(r1 =~= r2);
}

/// Law: a button built by the constant constructor emits the same event on
/// every trigger, however often it fires.
pub proof fn lemma_const_button_stable<E: Copy, F: Fn() -> E>(b: &Button<E, F>, e1: E, e2: E)
    requires
        b.is_const(),
        b.produces(e1),
        b.produces(e2),
    ensures
        e1 == e2,
{
}

/// Whether `i` is the first position in `ws` whose button is triggered by
/// the key `k`.
pub open spec fn first_match_at<E: Copy, F: Fn() -> E>(
    ws: Seq<Button<E, F>>,
    k: Key,
    i: int,
) -> bool {
    &&& 0 <= i < ws.len()
    &&& ws[i].spec_trigger() == k
    &&& forall|j: int| 0 <= j < i ==> ws[j].spec_trigger() != k
}

/// Whether no button of `ws` is triggered by the input occurrence: either it
/// is not a key press, or no trigger equals its key.
pub open spec fn no_match<E: Copy, F: Fn() -> E>(ws: Seq<Button<E, F>>, input: Input) -> bool {
    match input {
        Input::KeyPress(k) => forall|i: int| 0 <= i < ws.len() ==> ws[i].spec_trigger() != k,
        Input::Other => true,
    }
}

/// Law: at most one position of a view is the first match for a key, so the
/// dispatcher's result is pinned to a single widget — with triggers
/// `['a', 'b', 'a']`, a press of `'a'` resolves to the first widget and
/// never the third.
pub proof fn lemma_first_match_unique<E: Copy, F: Fn() -> E>(
    ws: Seq<Button<E, F>>,
    k: Key,
    i: int,
    j: int,
)
    requires
        first_match_at(ws, k, i),
        first_match_at(ws, k, j),
    ensures
        i == j,
{
    if i < j {
        assert(ws[i].spec_trigger() != k);
    }
    if j < i {
        assert(ws[j].spec_trigger() != k);
    }
}

/// Resolves an input occurrence against the view's widgets: the first widget
/// whose trigger matches produces the event, later widgets are not
/// consulted; an occurrence matching no widget yields no event, which is not
/// an error.
pub fn dispatch<E: Copy, F: Fn() -> E>(widgets: &Vec<Button<E, F>>, input: &Input) -> (r: Option<
    E,
>)
    requires
        forall|i: int| 0 <= i < widgets@.len() ==> (#[trigger] widgets@[i]).wf(),
    ensures
        r is None <==> no_match(widgets@, *input),
        match r {
            Some(e) => exists|i: int|
                #[trigger] first_match_at(widgets@, input->KeyPress_0, i) && widgets@[i].produces(
                    e,
                ),
            None => true,
        },
{
    let k = match input {
        Input::KeyPress(k) => *k,
        Input::Other => {
            return None;
        },
    };
    let mut i: usize = 0;
    while i < widgets.len()
        invariant
            i <= widgets@.len(),
            forall|j: int| 0 <= j < widgets@.len() ==> (#[trigger] widgets@[j]).wf(),
            forall|j: int| 0 <= j < i ==> (#[trigger] widgets@[j]).spec_trigger() != k,
            *input == Input::KeyPress(k),
        decreases widgets@.len() - i,
    {
        match widgets[i].handle_trigger(k) {
            Some(e) => {
                proof {
                    assert(first_match_at(widgets@, k, i as int));
                }
                return Some(e);
            },
            None => {
                i += 1;
            },
        }
    }
    None
}

} // verus!
