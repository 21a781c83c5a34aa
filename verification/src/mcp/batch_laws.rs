//! What a batch of text and keys comes to, and what reaches the terminal.
use vstd::prelude::*;
use vstd::string::*;
use vstd::utf8::*;

use crate::input::keys::parse_key;
use crate::json::JsonView;
use crate::json_laws::{field, law_objects_are_their_fields};
use crate::mcp::keys::{
    batch_actions, batch_plan, batch_summary, item_action, item_summary,
    law_batch_stops_at_first_error, BatchRunView, InputActionView, KeyInputView,
};
use crate::mcp::outcome::{InteractionView, OutcomeView};
use crate::text_laws::lemma_encode_concat;

verus! {

// ---------------------------------------------------------------------------
// One thing to type
// ---------------------------------------------------------------------------

/// Text is written byte for byte, whatever key stands beside it: the bytes read back
/// as that text.
pub proof fn law_text_is_written_byte_for_byte(text: Seq<char>, key: Option<Seq<char>>)
    ensures
        item_action(KeyInputView { text: Some(text), key }) matches Ok(InputActionView::Text(bytes))
            && bytes == encode_utf8(text) && decode_utf8(bytes) == text,
{
    encode_utf8_decode_utf8(text);
}

/// A key is the one that its name stands for, a name that stands for none is refused
/// with what is wrong with it, and so is a thing that is neither text nor key.
pub proof fn law_keys_go_by_their_names(name: Seq<char>)
    ensures
        match parse_key(name) {
            Ok(key) => item_action(KeyInputView { text: None, key: Some(name) }) == Ok::<
                InputActionView,
                Seq<char>,
            >(InputActionView::Press(key)),
            Err(e) => item_action(KeyInputView { text: None, key: Some(name) }) == Err::<
                InputActionView,
                Seq<char>,
            >(e),
        },
        item_action(KeyInputView { text: None, key: None }) == Err::<InputActionView, Seq<char>>(
            "Each input element must have 'text' or 'key'"@,
        ),
{
}

// ---------------------------------------------------------------------------
// A batch
// ---------------------------------------------------------------------------

/// Things to type that are all text.
pub open spec fn text_items(texts: Seq<Seq<char>>) -> Seq<KeyInputView> {
    texts.map_values(|t: Seq<char>| KeyInputView { text: Some(t), key: None })
}

/// Texts one behind the other.
pub open spec fn all_text(texts: Seq<Seq<char>>) -> Seq<char>
    decreases texts.len(),
{
    if texts.len() == 0 {
        Seq::empty()
    } else {
        texts[0] + all_text(texts.drop_first())
    }
}

/// The bytes of the text that the actions write, one behind the other.
pub open spec fn typed_bytes(actions: Seq<InputActionView>) -> Seq<u8>
    decreases actions.len(),
{
    if actions.len() == 0 {
        Seq::empty()
    } else {
        match actions[0] {
            InputActionView::Text(bytes) => bytes + typed_bytes(actions.drop_first()),
            InputActionView::Press(_) => typed_bytes(actions.drop_first()),
        }
    }
}

/// The bytes of a batch of texts are those of the texts one behind the other: nothing
/// is lost, added or moved.
pub proof fn law_text_batches_are_joined(texts: Seq<Seq<char>>)
    ensures
        batch_actions(text_items(texts)).1 is None,
        batch_actions(text_items(texts)).0.len() == texts.len(),
        typed_bytes(batch_actions(text_items(texts)).0) == encode_utf8(all_text(texts)),
        decode_utf8(typed_bytes(batch_actions(text_items(texts)).0)) == all_text(texts),
    decreases texts.len(),
{
    let items = text_items(texts);
    if texts.len() == 0 {
        assert(items =~= Seq::empty());
        assert(encode_utf8(Seq::<char>::empty()) =~= Seq::<u8>::empty());
    } else {
        let rest = texts.drop_first();
        law_text_batches_are_joined(rest);
        assert(items.drop_first() =~= text_items(rest));
        law_text_is_written_byte_for_byte(texts[0], None);
        assert(items[0] == KeyInputView { text: Some(texts[0]), key: None });
        lemma_encode_concat(texts[0], all_text(rest));
        let actions = batch_actions(items).0;
        let later = batch_actions(text_items(rest)).0;
        assert(actions[0] == InputActionView::Text(encode_utf8(texts[0])));
        assert(actions.drop_first() =~= later);
    }
    encode_utf8_decode_utf8(all_text(texts));
}

/// Every thing that has an action gets it at its own place, up to the first that has
/// none; a plan counts all things, whatever is wrong with them.
pub proof fn law_plans_keep_places(items: Seq<KeyInputView>, i: int)
    requires
        0 <= i < items.len(),
        forall|j: int| 0 <= j <= i ==> item_action(#[trigger] items[j]) is Ok,
    ensures
        i < batch_plan(items).actions.len(),
        item_action(items[i]) == Ok::<InputActionView, Seq<char>>(batch_plan(items).actions[i]),
        batch_plan(items).count == items.len(),
        batch_plan(items).actions.len() == items.len() <==> batch_plan(items).error is None,
{
    law_batch_stops_at_first_error(items);
    let n = batch_actions(items).0.len() as int;
    if n <= i {
        assert(item_action(items[n]) is Ok);
    }
    assert(item_action(items[i]) == Ok::<InputActionView, Seq<char>>(batch_actions(items).0[i]));
}

// ---------------------------------------------------------------------------
// In short
// ---------------------------------------------------------------------------

/// Text of at most 30 bytes stands in quotes as it is, and longer text by its first 27
/// characters; a key stands by its name.
pub proof fn law_things_in_short(text: Seq<char>, key: Option<Seq<char>>, name: Seq<char>)
    ensures
        encode_utf8(text).len() <= 30 ==> item_summary(KeyInputView { text: Some(text), key })
            == "'"@ + text + "'"@,
        encode_utf8(text).len() > 30 && text.len() >= 27 ==> item_summary(
            KeyInputView { text: Some(text), key },
        ) == "'"@ + text.take(27) + "...'"@,
        encode_utf8(text).len() > 30 && text.len() < 27 ==> item_summary(
            KeyInputView { text: Some(text), key },
        ) == "'"@ + text + "...'"@,
        item_summary(KeyInputView { text: None, key: Some(name) }) == name,
        item_summary(KeyInputView { text: None, key: None }) == "?"@,
{
    if text.len() < 27 {
        assert(text.take(text.len() as int) =~= text);
    }
}

/// A batch in short is each thing in short, with a plus sign between them.
pub proof fn law_batches_in_short(items: Seq<KeyInputView>, item: KeyInputView)
    ensures
        batch_summary(seq![item]) == item_summary(item),
        items.len() > 0 ==> batch_summary(items.push(item)) == batch_summary(items) + " + "@
            + item_summary(item),
        batch_summary(Seq::<KeyInputView>::empty()).len() == 0,
        batch_plan(items).summary == batch_summary(items),
{
    if items.len() > 0 {
        assert(items.push(item).drop_last() =~= items);
    }
}

// ---------------------------------------------------------------------------
// Doing it
// ---------------------------------------------------------------------------

/// Actions are handed out in their order, each after the one before it worked, until
/// none is left.
pub proof fn law_actions_are_handed_out_in_order(
    items: Seq<KeyInputView>,
    results: Seq<Result<(), Seq<char>>>,
)
    requires
        forall|i: int| 0 <= i < results.len() ==> (#[trigger] results[i]) is Ok,
        results.len() <= batch_plan(items).actions.len(),
    ensures
        ({
            let run = BatchRunView::start(batch_plan(items)).after(results);
            &&& run.done == results.len()
            &&& run.failure is None
            &&& run.plan == batch_plan(items)
            &&& results.len() < batch_plan(items).actions.len() ==> run.next() == Some(
                batch_plan(items).actions[results.len() as int],
            )
            &&& results.len() == batch_plan(items).actions.len() ==> run.next() is None
        }),
    decreases results.len(),
{
    if results.len() > 0 {
        let front = results.drop_last();
        assert forall|i: int| 0 <= i < front.len() implies (#[trigger] front[i]) is Ok by {
            assert(front[i] == results[i]);
        }
        law_actions_are_handed_out_in_order(items, front);
        assert(results[results.len() - 1] is Ok);
    }
}

/// A batch all of whose actions work is answered with success where nothing was wrong
/// with any thing in it, and else with what was wrong with the first.
pub proof fn law_batches_are_answered(
    id: Seq<char>,
    items: Seq<KeyInputView>,
    results: Seq<Result<(), Seq<char>>>,
)
    requires
        results.len() == batch_plan(items).actions.len(),
        forall|i: int| 0 <= i < results.len() ==> (#[trigger] results[i]) is Ok,
    ensures
        ({
            let outcome = BatchRunView::start(batch_plan(items)).after(results).outcome(id);
            match batch_plan(items).error {
                Some(e) => outcome == (OutcomeView {
                    reply: Err(e),
                    interaction: None,
                    list_changed: false,
                }),
                None => outcome == (OutcomeView {
                    reply: Ok(seq!['{'] + field("success"@, "true"@) + seq!['}']),
                    interaction: Some(
                        InteractionView {
                            tool: "terminal_send_keys"@,
                            terminal_id: Some(id),
                            params: seq![("count"@, JsonView::Count(items.len()))],
                            success: true,
                            summary: Some("sent "@ + batch_summary(items)),
                        },
                    ),
                    list_changed: false,
                }),
            }
        }),
{
    reveal_strlit("success");
    let entry = ("success"@, JsonView::Flag(true));
    law_objects_are_their_fields(entry, entry, entry);
    law_actions_are_handed_out_in_order(items, results);
}

/// The first action that fails is what the answer is about: text or key, by what was
/// to be done there, with its error.
pub proof fn law_failed_actions_are_told(
    id: Seq<char>,
    items: Seq<KeyInputView>,
    worked: Seq<Result<(), Seq<char>>>,
    e: Seq<char>,
)
    requires
        worked.len() < batch_plan(items).actions.len(),
        forall|i: int| 0 <= i < worked.len() ==> (#[trigger] worked[i]) is Ok,
    ensures
        ({
            let run = BatchRunView::start(batch_plan(items)).after(worked.push(Err(e)));
            &&& run.next() is None
            &&& run.outcome(id) == (OutcomeView {
                reply: Err(
                    if items[worked.len() as int].text is Some {
                        "Failed to send text: "@ + e
                    } else {
                        "Failed to send key: "@ + e
                    },
                ),
                interaction: None,
                list_changed: false,
            })
        }),
{
    law_actions_are_handed_out_in_order(items, worked);
    assert(worked.push(Err(e)).drop_last() =~= worked);
    law_batch_stops_at_first_error(items);
    let k = worked.len() as int;
    assert(item_action(items[k]) == Ok::<InputActionView, Seq<char>>(batch_actions(items).0[k]));
}

} // verus!
