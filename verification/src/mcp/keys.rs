//! A batch of text and keys to type.
use vstd::prelude::*;
use vstd::string::*;
use vstd::utf8::*;

use crate::input::keys::{parse_key, Key, KeyView};
use crate::json::{object_text, JsonObject, JsonView};
use crate::mcp::outcome::{
    done, failed, joined, make_done, make_failed, unit_view, Outcome, OutcomeView,
};
use crate::text::option_view;

verus! {

/// One thing to type: raw text or a special key.
#[derive(Debug)]
pub struct KeyInput {
    /// Raw text to type.
    pub text: Option<String>,
    /// Special key name (Enter, Tab, Ctrl+c, etc).
    pub key: Option<String>,
}

/// One thing to type, as text.
pub struct KeyInputView {
    pub text: Option<Seq<char>>,
    pub key: Option<Seq<char>>,
}

impl View for KeyInput {
    type V = KeyInputView;

    open spec fn view(&self) -> KeyInputView {
        KeyInputView { text: option_view(self.text), key: option_view(self.key) }
    }
}

/// The things that a batch holds.
pub open spec fn input_views(v: Seq<KeyInput>) -> Seq<KeyInputView> {
    v.map_values(|k: KeyInput| k@)
}

// ---------------------------------------------------------------------------
// What to type
// ---------------------------------------------------------------------------

/// One thing to do to a terminal.
#[derive(Debug)]
pub enum InputAction {
    /// Write these bytes.
    Text(Vec<u8>),
    /// Press this key.
    Press(Key),
}

/// One thing to do to a terminal, as bytes and keys.
pub enum InputActionView {
    Text(Seq<u8>),
    Press(KeyView),
}

impl View for InputAction {
    type V = InputActionView;

    open spec fn view(&self) -> InputActionView {
        match self {
            InputAction::Text(bytes) => InputActionView::Text(bytes@),
            InputAction::Press(key) => InputActionView::Press(key@),
        }
    }
}

impl InputAction {
    /// A key that is pressed holds no modifier beyond the three.
    pub open spec fn valid(self) -> bool {
        match self {
            InputAction::Text(_) => true,
            InputAction::Press(key) => key.modifiers.valid(),
        }
    }
}

/// Actions as bytes and keys.
pub open spec fn input_action_views(v: Seq<InputAction>) -> Seq<InputActionView> {
    v.map_values(|a: InputAction| a@)
}

/// What to do for one thing to type, or what is wrong with it. Text goes before a
/// key.
pub open spec fn item_action(item: KeyInputView) -> Result<InputActionView, Seq<char>> {
    match (item.text, item.key) {
        (Some(text), _) => Ok(InputActionView::Text(encode_utf8(text))),
        (None, Some(name)) => match parse_key(name) {
            Ok(key) => Ok(InputActionView::Press(key)),
            Err(e) => Err(e),
        },
        (None, None) => Err("Each input element must have 'text' or 'key'"@),
    }
}

/// What to do for the things to type up to the first one that something is wrong
/// with, and what is wrong with that.
pub open spec fn batch_actions(items: Seq<KeyInputView>) -> (
    Seq<InputActionView>,
    Option<Seq<char>>,
)
    decreases items.len(),
{
    if items.len() == 0 {
        (Seq::empty(), None)
    } else {
        match item_action(items[0]) {
            Err(e) => (Seq::empty(), Some(e)),
            Ok(action) => {
                let rest = batch_actions(items.drop_first());
                (seq![action] + rest.0, rest.1)
            },
        }
    }
}

/// One thing to type in short: text in quotes and cut where it is long, or the
/// name of the key.
pub open spec fn item_summary(item: KeyInputView) -> Seq<char> {
    match (item.text, item.key) {
        (Some(text), _) => if encode_utf8(text).len() > 30 {
            "'"@ + text.take(
                if text.len() < 27 {
                    text.len() as int
                } else {
                    27
                },
            ) + "...'"@
        } else {
            "'"@ + text + "'"@
        },
        (None, Some(name)) => name,
        (None, None) => "?"@,
    }
}

/// Text has at least as many bytes as characters.
proof fn lemma_utf8_len(text: Seq<char>)
    ensures
        text.len() <= encode_utf8(text).len(),
    decreases text.len(),
{
    if text.len() > 0 {
        lemma_utf8_len(text.drop_first());
    }
}

/// However long a text is, what is said of it is short.
pub proof fn law_text_summary_is_short(item: KeyInputView)
    requires
        item.text is Some,
    ensures
        item_summary(item).len() <= 32,
{
    reveal_strlit("'");
    reveal_strlit("...'");
    lemma_utf8_len(item.text->0);
}

/// A batch in short.
pub open spec fn batch_summary(items: Seq<KeyInputView>) -> Seq<char>
    decreases items.len(),
{
    if items.len() == 0 {
        Seq::empty()
    } else if items.len() == 1 {
        item_summary(items[0])
    } else {
        batch_summary(items.drop_last()) + " + "@ + item_summary(items.last())
    }
}

/// What to do for one thing to type, or what is wrong with it.
pub fn action_for(item: &KeyInput) -> (res: Result<InputAction, String>)
    ensures
        match res {
            Ok(action) => action.valid() && item_action(item@) == Ok::<InputActionView, Seq<char>>(
                action@,
            ),
            Err(e) => item_action(item@) == Err::<InputActionView, Seq<char>>(e@),
        },
{
    match &item.text {
        Some(text) => {
            let mut bytes: Vec<u8> = Vec::new();
            bytes.extend_from_slice(text.as_str().as_bytes());
            assert(bytes@ =~= encode_utf8(text@));
            Ok(InputAction::Text(bytes))
        },
        None => match &item.key {
            Some(name) => match Key::from_str(name.as_str()) {
                Ok(key) => Ok(InputAction::Press(key)),
                Err(e) => Err(e),
            },
            None => Err("Each input element must have 'text' or 'key'".to_string()),
        },
    }
}

/// One thing to type in short.
fn summary_of(item: &KeyInput) -> (res: String)
    ensures
        res@ == item_summary(item@),
{
    match &item.text {
        Some(text) => {
            let text = text.as_str();
            let mut res = "'".to_string();
            if text.as_bytes().len() > 30 {
                let n: usize = text.unicode_len();
                let kept: usize = if n < 27 {
                    n
                } else {
                    27
                };
                let head = text.substring_char(0, kept);
                assert(head@ =~= text@.take(kept as int));
                res.append(head);
                res.append("...'");
            } else {
                res.append(text);
                res.append("'");
            }
            res
        },
        None => match &item.key {
            Some(name) => name.as_str().to_string(),
            None => "?".to_string(),
        },
    }
}

/// What a batch comes to.
#[derive(Debug)]
pub struct BatchPlan {
    /// What to do, in order.
    pub actions: Vec<InputAction>,
    /// What is wrong with the first thing that has no action.
    pub error: Option<String>,
    /// The number of things in the batch.
    pub count: usize,
    /// The batch in short.
    pub summary: String,
}

/// What a batch comes to, as text, bytes and keys.
pub struct BatchPlanView {
    pub actions: Seq<InputActionView>,
    pub error: Option<Seq<char>>,
    pub count: nat,
    pub summary: Seq<char>,
}

impl View for BatchPlan {
    type V = BatchPlanView;

    open spec fn view(&self) -> BatchPlanView {
        BatchPlanView {
            actions: input_action_views(self.actions@),
            error: option_view(self.error),
            count: self.count as nat,
            summary: self.summary@,
        }
    }
}

impl BatchPlan {
    /// Every action is valid.
    pub open spec fn valid(self) -> bool {
        forall|i: int| 0 <= i < self.actions@.len() ==> (#[trigger] self.actions@[i]).valid()
    }
}

/// What the batch `items` comes to.
pub open spec fn batch_plan(items: Seq<KeyInputView>) -> BatchPlanView {
    BatchPlanView {
        actions: batch_actions(items).0,
        error: batch_actions(items).1,
        count: items.len(),
        summary: batch_summary(items),
    }
}

/// A batch in short.
fn summarize(input: &Vec<KeyInput>) -> (res: String)
    ensures
        res@ == batch_summary(input_views(input@)),
{
    let ghost items = input_views(input@);
    let mut res = String::new();
    let mut i: usize = 0;
    assert(items.take(0) =~= Seq::empty());
    while i < input.len()
        invariant
            i <= input.len(),
            items == input_views(input@),
            res@ == batch_summary(items.take(i as int)),
        decreases input.len() - i,
    {
        let ghost here = items.take(i + 1);
        assert(here.drop_last() =~= items.take(i as int));
        assert(here.last() == input@[i as int]@);
        let item = summary_of(&input[i]);
        if i > 0 {
            res.append(" + ");
        }
        res.append(item.as_str());
        proof {
            if i == 0 {
                assert(res@ =~= item_summary(here[0]));
            }
        }
        i += 1;
    }
    assert(items.take(i as int) =~= items);
    res
}

/// What to do for a batch of text and keys. Every action is to be done in order
/// until one fails; an error stands behind all of them.
pub fn plan_batch(input: &Vec<KeyInput>) -> (res: BatchPlan)
    ensures
        res@ == batch_plan(input_views(input@)),
        res.valid(),
{
    let ghost items = input_views(input@);
    let summary = summarize(input);
    let mut actions: Vec<InputAction> = Vec::new();
    let mut error: Option<String> = None;
    let mut i: usize = 0;
    assert(items.skip(0) =~= items);
    assert(input_action_views(actions@) + batch_actions(items).0 =~= batch_actions(items).0);
    while i < input.len() && error.is_none()
        invariant
            i <= input.len(),
            items == input_views(input@),
            forall|j: int| 0 <= j < actions@.len() ==> (#[trigger] actions@[j]).valid(),
            match error {
                None => {
                    &&& input_action_views(actions@) + batch_actions(items.skip(i as int)).0
                        == batch_actions(items).0
                    &&& batch_actions(items.skip(i as int)).1 == batch_actions(items).1
                },
                Some(e) => {
                    &&& input_action_views(actions@) == batch_actions(items).0
                    &&& Some(e@) == batch_actions(items).1
                },
            },
        decreases input.len() - i,
    {
        let ghost here = items.skip(i as int);
        let ghost before = input_action_views(actions@);
        assert(here[0] == input@[i as int]@);
        assert(here.drop_first() =~= items.skip(i + 1));
        match action_for(&input[i]) {
            Ok(action) => {
                actions.push(action);
                assert(input_action_views(actions@) + batch_actions(items.skip(i + 1)).0 =~= before
                    + batch_actions(here).0);
            },
            Err(e) => {
                error = Some(e);
                assert(input_action_views(actions@) =~= before + batch_actions(here).0);
            },
        }
        i += 1;
    }
    proof {
        if error is None {
            assert(items.skip(i as int) =~= Seq::empty());
            assert(input_action_views(actions@) =~= batch_actions(items).0);
        }
    }
    BatchPlan { actions, error, count: input.len(), summary }
}

// ---------------------------------------------------------------------------
// What comes of it
// ---------------------------------------------------------------------------

/// What is said where an action failed with `e`.
pub open spec fn action_failure(action: InputActionView, e: Seq<char>) -> Seq<char> {
    match action {
        InputActionView::Text(_) => "Failed to send text: "@ + e,
        InputActionView::Press(_) => "Failed to send key: "@ + e,
    }
}

/// What the tool answers for the batch `items` on the terminal `id`, where the
/// action with the number `failure.0` failed with `failure.1`, or none did.
pub open spec fn batch_outcome(
    id: Seq<char>,
    items: Seq<KeyInputView>,
    failure: Option<(int, Seq<char>)>,
) -> OutcomeView {
    match (failure, batch_actions(items).1) {
        (Some((i, e)), _) => failed(action_failure(batch_actions(items).0[i], e)),
        (None, Some(e)) => failed(e),
        (None, None) => done(
            object_text(seq![("success"@, JsonView::Flag(true))]),
            "terminal_send_keys"@,
            id,
            seq![("count"@, JsonView::Count(items.len()))],
            "sent "@ + batch_summary(items),
        ),
    }
}

/// The answer of a tool that has nothing more to say than that it worked.
pub(crate) fn success_reply() -> (res: String)
    ensures
        res@ == object_text(seq![("success"@, JsonView::Flag(true))]),
{
    let object = JsonObject::new().flag("success", true);
    assert(object@ =~= seq![("success"@, JsonView::Flag(true))]);
    object.to_json()
}

// ---------------------------------------------------------------------------
// Doing it
// ---------------------------------------------------------------------------

/// A batch that is being done, action by action.
#[derive(Debug)]
pub struct BatchRun {
    plan: BatchPlan,
    done: usize,
    failure: Option<String>,
}

/// A batch that is being done.
pub struct BatchRunView {
    /// What the batch comes to.
    pub plan: BatchPlanView,
    /// The number of actions that worked.
    pub done: nat,
    /// What the action behind them failed with, if it did.
    pub failure: Option<Seq<char>>,
}

impl View for BatchRun {
    type V = BatchRunView;

    closed spec fn view(&self) -> BatchRunView {
        BatchRunView {
            plan: self.plan@,
            done: self.done as nat,
            failure: option_view(self.failure),
        }
    }
}

impl BatchRunView {
    /// Nothing done yet.
    pub open spec fn start(plan: BatchPlanView) -> BatchRunView {
        BatchRunView { plan, done: 0, failure: None }
    }

    /// The action to do next: none after a failure.
    pub open spec fn next(self) -> Option<InputActionView> {
        if self.failure is None && self.done < self.plan.actions.len() {
            Some(self.plan.actions[self.done as int])
        } else {
            None
        }
    }

    /// After the next action, if there is one, worked or failed.
    pub open spec fn step(self, result: Result<(), Seq<char>>) -> BatchRunView {
        if self.next() is Some {
            match result {
                Ok(_) => BatchRunView { done: self.done + 1, ..self },
                Err(e) => BatchRunView { failure: Some(e), ..self },
            }
        } else {
            self
        }
    }

    /// After actions that gave all of `results`.
    pub open spec fn after(self, results: Seq<Result<(), Seq<char>>>) -> BatchRunView
        decreases results.len(),
    {
        if results.len() == 0 {
            self
        } else {
            self.after(results.drop_last()).step(results.last())
        }
    }

    /// What the tool answers on the terminal `id` where no action is left.
    pub open spec fn outcome(self, id: Seq<char>) -> OutcomeView {
        match (self.failure, self.plan.error) {
            (Some(e), _) => failed(action_failure(self.plan.actions[self.done as int], e)),
            (None, Some(e)) => failed(e),
            (None, None) => done(
                object_text(seq![("success"@, JsonView::Flag(true))]),
                "terminal_send_keys"@,
                id,
                seq![("count"@, JsonView::Count(self.plan.count))],
                "sent "@ + self.plan.summary,
            ),
        }
    }
}

impl BatchRun {
    /// Where there is a failure, an action failed.
    #[verifier::type_invariant]
    closed spec fn failed_within(self) -> bool {
        self.failure is Some ==> self.done < self.plan.actions@.len()
    }

    /// Every action is valid.
    pub closed spec fn valid(self) -> bool {
        self.plan.valid()
    }

    /// Nothing done yet.
    pub fn new(plan: BatchPlan) -> (res: BatchRun)
        ensures
            res@ == BatchRunView::start(plan@),
            plan.valid() ==> res.valid(),
    {
        BatchRun { plan, done: 0, failure: None }
    }

    /// The action to do next, if one is left to do.
    pub fn next(&self) -> (res: Option<&InputAction>)
        ensures
            match res {
                Some(action) => self@.next() == Some(action@) && (self.valid() ==> action.valid()),
                None => self@.next() is None,
            },
    {
        if self.failure.is_none() && self.done < self.plan.actions.len() {
            assert(self@.plan.actions[self.done as int] == self.plan.actions@[self.done as int]@);
            Some(&self.plan.actions[self.done])
        } else {
            None
        }
    }

    /// Takes in whether the next action worked.
    pub fn report(&mut self, result: Result<(), String>)
        ensures
            final(self)@ == old(self)@.step(unit_view(result)),
            old(self).valid() ==> final(self).valid(),
    {
        if self.failure.is_none() && self.done < self.plan.actions.len() {
            match result {
                Ok(_) => {
                    self.done = self.done + 1;
                },
                Err(e) => {
                    self.failure = Some(e);
                },
            }
        }
    }

    /// Whether what was written is to be handed on: where all is done and nothing
    /// was wrong.
    pub fn must_flush(&self) -> (res: bool)
        ensures
            res == (self@.next() is None && self@.failure is None && self@.plan.error is None),
    {
        self.done >= self.plan.actions.len() && self.failure.is_none() && self.plan.error.is_none()
    }

    /// What the tool answers on the terminal `id`, after the last action.
    pub fn outcome(self, id: &str) -> (res: Outcome)
        requires
            self@.next() is None,
        ensures
            res@ == self@.outcome(id@),
    {
        proof {
            use_type_invariant(&self);
        }
        match self.failure {
            Some(e) => {
                assert(self@.plan.actions[self.done as int]
                    == self.plan.actions@[self.done as int]@);
                match &self.plan.actions[self.done] {
                    InputAction::Text(_) => make_failed(joined("Failed to send text: ", e.as_str())),
                    InputAction::Press(_) => make_failed(joined("Failed to send key: ", e.as_str())),
                }
            },
            None => match self.plan.error {
                Some(e) => make_failed(e),
                None => {
                    let params = JsonObject::new().count("count", self.plan.count as u64);
                    assert(params@ =~= seq![("count"@, JsonView::Count(self.plan.count as nat))]);
                    make_done(
                        success_reply(),
                        "terminal_send_keys",
                        id,
                        params,
                        joined("sent ", self.plan.summary.as_str()),
                    )
                },
            },
        }
    }
}

// ---------------------------------------------------------------------------
// Laws
// ---------------------------------------------------------------------------

proof fn lemma_run_goes_on(run: BatchRunView, results: Seq<Result<(), Seq<char>>>)
    requires
        run.failure is None,
        run.done + results.len() <= run.plan.actions.len(),
        forall|i: int| 0 <= i < results.len() ==> (#[trigger] results[i]) is Ok,
    ensures
        run.after(results) == (BatchRunView { done: run.done + results.len(), ..run }),
    decreases results.len(),
{
    if results.len() > 0 {
        let front = results.drop_last();
        assert forall|i: int| 0 <= i < front.len() implies (#[trigger] front[i]) is Ok by {
            assert(front[i] == results[i]);
        }
        lemma_run_goes_on(run, front);
        assert(results[results.len() - 1] is Ok);
    }
}

/// A batch whose actions all work is answered as a whole: with success, or with
/// what is wrong with the first thing that has no action.
pub proof fn law_run_without_failure(
    id: Seq<char>,
    items: Seq<KeyInputView>,
    results: Seq<Result<(), Seq<char>>>,
)
    requires
        results.len() == batch_actions(items).0.len(),
        forall|i: int| 0 <= i < results.len() ==> (#[trigger] results[i]) is Ok,
    ensures
        ({
            let run = BatchRunView::start(batch_plan(items)).after(results);
            &&& run.next() is None
            &&& run.outcome(id) == batch_outcome(id, items, None)
        }),
{
    lemma_run_goes_on(BatchRunView::start(batch_plan(items)), results);
}

/// The first action that fails ends a batch: nothing is left to do, whatever is
/// heard later, and the failure is what the answer is about.
pub proof fn law_run_ends_at_first_failure(
    id: Seq<char>,
    items: Seq<KeyInputView>,
    worked: Seq<Result<(), Seq<char>>>,
    e: Seq<char>,
    later: Seq<Result<(), Seq<char>>>,
)
    requires
        worked.len() < batch_actions(items).0.len(),
        forall|i: int| 0 <= i < worked.len() ==> (#[trigger] worked[i]) is Ok,
    ensures
        ({
            let run = BatchRunView::start(batch_plan(items)).after(worked.push(Err(e)) + later);
            &&& run.next() is None
            &&& run.outcome(id) == batch_outcome(id, items, Some((worked.len() as int, e)))
        }),
    decreases later.len(),
{
    let start = BatchRunView::start(batch_plan(items));
    let all = worked.push(Err(e)) + later;
    if later.len() == 0 {
        lemma_run_goes_on(start, worked);
        assert(all =~= worked.push(Err(e)));
        assert(all.drop_last() =~= worked);
    } else {
        law_run_ends_at_first_failure(id, items, worked, e, later.drop_last());
        assert(all.drop_last() =~= worked.push(Err(e)) + later.drop_last());
    }
}

/// A batch is done whole exactly where nothing is wrong with any thing in it.
/// Else what comes before the first thing that something is wrong with is still
/// done, that thing is what the error is about, and nothing behind it is done.
pub proof fn law_batch_stops_at_first_error(items: Seq<KeyInputView>)
    ensures
        ({
            let (actions, error) = batch_actions(items);
            &&& actions.len() <= items.len()
            &&& forall|i: int|
                0 <= i < actions.len() ==> item_action(items[i]) == Ok::<
                    InputActionView,
                    Seq<char>,
                >(#[trigger] actions[i])
            &&& match error {
                None => actions.len() == items.len(),
                Some(e) => actions.len() < items.len() && item_action(items[actions.len() as int])
                    == Err::<InputActionView, Seq<char>>(e),
            }
        }),
    decreases items.len(),
{
    if items.len() > 0 && item_action(items[0]) is Ok {
        let rest = items.drop_first();
        law_batch_stops_at_first_error(rest);
        let (actions, error) = batch_actions(items);
        let (later, _) = batch_actions(rest);
        assert forall|i: int| 0 <= i < actions.len() implies item_action(items[i]) == Ok::<
            InputActionView,
            Seq<char>,
        >(#[trigger] actions[i]) by {
            if i > 0 {
                assert(actions[i] == later[i - 1]);
                assert(rest[i - 1] == items[i]);
            }
        }
        if later.len() < rest.len() {
            assert(rest[later.len() as int] == items[actions.len() as int]);
        }
    }
}

} // verus!
