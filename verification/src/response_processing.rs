//! What becomes of the items of the model's answer.
use vstd::prelude::*;

use crate::codex::turn::ProcessedResponseItem;
use crate::protocol::{
    FunctionCallOutputPayload, McpCallResult, ResponseInputItem, ResponseItem,
};

verus! {

/// What is returned to the model, in order.
pub open spec fn responses_of(items: Seq<ProcessedResponseItem>) -> Seq<ResponseInputItem>
    decreases items.len(),
{
    if items.len() == 0 {
        Seq::empty()
    } else {
        match items.last().response {
            Some(response) => responses_of(items.drop_last()).push(response),
            None => responses_of(items.drop_last()),
        }
    }
}

/// What the conversation keeps of an outcome that is returned to the model: that of a tool, as the
/// output of its call. A failed call of an external tool is kept with its error.
pub open spec fn kept_output(response: ResponseInputItem) -> Option<ResponseItem> {
    match response {
        ResponseInputItem::FunctionCallOutput { call_id, output } => Some(
            ResponseItem::FunctionCallOutput { call_id, output },
        ),
        ResponseInputItem::CustomToolCallOutput { call_id, output } => Some(
            ResponseItem::CustomToolCallOutput { call_id, output },
        ),
        ResponseInputItem::McpToolCallOutput { call_id, result } => Some(
            ResponseItem::FunctionCallOutput {
                call_id,
                output: match result {
                    McpCallResult::Returned(output) => output,
                    McpCallResult::Failed(err) => FunctionCallOutputPayload {
                        content: err,
                        content_items: None,
                        success: Some(false),
                    },
                },
            },
        ),
        ResponseInputItem::Message { .. } => None,
    }
}

/// What the conversation keeps of the outcomes, in order.
pub open spec fn kept_outputs(responses: Seq<ResponseInputItem>) -> Seq<ResponseItem>
    decreases responses.len(),
{
    if responses.len() == 0 {
        Seq::empty()
    } else {
        match kept_output(responses.last()) {
            Some(output) => kept_outputs(responses.drop_last()).push(output),
            None => kept_outputs(responses.drop_last()),
        }
    }
}

/// The items themselves, in order.
pub open spec fn plain_items(items: Seq<ProcessedResponseItem>) -> Seq<ResponseItem> {
    Seq::new(items.len(), |i: int| items[i].item)
}

/// What the conversation keeps: the items of the answer and then the outputs of its calls.
pub open spec fn recorded(items: Seq<ProcessedResponseItem>) -> Seq<ResponseItem> {
    plain_items(items) + kept_outputs(responses_of(items))
}

impl FunctionCallOutputPayload {
    /// A copy of the payload.
    pub fn copy(&self) -> (r: Self)
        ensures
            r == *self,
    {
        FunctionCallOutputPayload {
            content: self.content.clone(),
            content_items: match &self.content_items {
                Some(items) => Some(items.clone()),
                None => None,
            },
            success: self.success,
        }
    }
}

/// What the conversation keeps of an outcome.
pub fn output_to_keep(response: &ResponseInputItem) -> (r: Option<ResponseItem>)
    ensures
        r == kept_output(*response),
{
    match response {
        ResponseInputItem::FunctionCallOutput { call_id, output } => Some(
            ResponseItem::FunctionCallOutput { call_id: call_id.clone(), output: output.copy() },
        ),
        ResponseInputItem::CustomToolCallOutput { call_id, output } => Some(
            ResponseItem::CustomToolCallOutput { call_id: call_id.clone(), output: output.clone() },
        ),
        ResponseInputItem::McpToolCallOutput { call_id, result } => {
            let output = match result {
                McpCallResult::Returned(output) => output.copy(),
                McpCallResult::Failed(err) => FunctionCallOutputPayload {
                    content: err.clone(),
                    content_items: None,
                    success: Some(false),
                },
            };
            Some(ResponseItem::FunctionCallOutput { call_id: call_id.clone(), output })
        },
        ResponseInputItem::Message { .. } => None,
    }
}

/// Splits the items of the model's answer into what is sent back to the model on the next turn and
/// what is recorded in the conversation.
pub fn process_items(processed_items: Vec<ProcessedResponseItem>) -> (r: (
    Vec<ResponseInputItem>,
    Vec<ResponseItem>,
))
    ensures
        r.0@ == responses_of(processed_items@),
        r.1@ == recorded(processed_items@),
{
    let ghost all = processed_items@;
    let mut rest = processed_items;
    let mut to_record: Vec<ResponseItem> = Vec::new();
    let mut new_inputs: Vec<ResponseItem> = Vec::new();
    let mut responses: Vec<ResponseInputItem> = Vec::new();
    let ghost mut k: int = 0;
    assert(rest@ =~= all.skip(0));
    assert(all.take(0).len() == 0);
    while rest.len() > 0
        invariant
            0 <= k <= all.len(),
            rest@ == all.skip(k),
            to_record@ == plain_items(all.take(k)),
            responses@ == responses_of(all.take(k)),
            new_inputs@ == kept_outputs(responses@),
        decreases rest@.len(),
    {
        let next = rest.remove(0);
        let ghost before = responses@;
        proof {
            assert(next == all[k]);
            assert(all.take(k + 1).drop_last() =~= all.take(k));
            assert(all.take(k + 1).last() == all[k]);
            assert(plain_items(all.take(k + 1)) =~= plain_items(all.take(k)).push(all[k].item));
            assert(rest@ =~= all.skip(k + 1));
        }
        if let Some(response) = next.response {
            if let Some(output) = output_to_keep(&response) {
                new_inputs.push(output);
            }
            responses.push(response);
            assert(responses@.drop_last() =~= before);
        }
        to_record.push(next.item);
        proof {
            k = k + 1;
        }
    }
    assert(all.take(k) =~= all);
    to_record.append(&mut new_inputs);
    (responses, to_record)
}

/// Every item of the answer is recorded, in order and before the outputs.
pub proof fn law_every_item_is_recorded(items: Seq<ProcessedResponseItem>, i: int)
    requires
        0 <= i < items.len(),
    ensures
        recorded(items).len() >= items.len(),
        recorded(items)[i] == items[i].item,
{
}

/// Every outcome of a tool is recorded under the call that it belongs to.
pub proof fn law_every_output_is_recorded(items: Seq<ProcessedResponseItem>, i: int)
    requires
        0 <= i < items.len(),
        items[i].response matches Some(response) && kept_output(response) is Some,
    ensures
        recorded(items).contains(kept_output(items[i].response->0)->0),
{
    lemma_response_is_kept(items, i);
    let response = items[i].response->0;
    let at = responses_of(items).index_of(response);
    lemma_output_is_kept(responses_of(items), at);
    let outputs = kept_outputs(responses_of(items));
    let output = kept_output(response)->0;
    let j = outputs.index_of(output);
    assert(recorded(items)[items.len() + j] == output);
}

proof fn lemma_response_is_kept(items: Seq<ProcessedResponseItem>, i: int)
    requires
        0 <= i < items.len(),
        items[i].response is Some,
    ensures
        responses_of(items).contains(items[i].response->0),
    decreases items.len(),
{
    let response = items[i].response->0;
    let shorter = responses_of(items.drop_last());
    if i == items.len() - 1 {
        assert(responses_of(items).last() == response);
    } else {
        lemma_response_is_kept(items.drop_last(), i);
        let j = shorter.index_of(response);
        assert(responses_of(items)[j] == response);
    }
}

proof fn lemma_output_is_kept(responses: Seq<ResponseInputItem>, i: int)
    requires
        0 <= i < responses.len(),
        kept_output(responses[i]) is Some,
    ensures
        kept_outputs(responses).contains(kept_output(responses[i])->0),
    decreases responses.len(),
{
    let output = kept_output(responses[i])->0;
    let shorter = kept_outputs(responses.drop_last());
    if i == responses.len() - 1 {
        assert(kept_outputs(responses).last() == output);
    } else {
        lemma_output_is_kept(responses.drop_last(), i);
        let j = shorter.index_of(output);
        assert(kept_outputs(responses)[j] == output);
    }
}

/// What is recorded behind the items of the answer.
pub open spec fn recorded_outputs(items: Seq<ProcessedResponseItem>) -> Seq<ResponseItem> {
    recorded(items).skip(items.len() as int)
}

proof fn lemma_responses_concat(a: Seq<ProcessedResponseItem>, b: Seq<ProcessedResponseItem>)
    ensures
        responses_of(a + b) == responses_of(a) + responses_of(b),
    decreases b.len(),
{
    if b.len() == 0 {
        assert(a + b =~= a);
        assert(responses_of(a) + responses_of(b) =~= responses_of(a));
    } else {
        lemma_responses_concat(a, b.drop_last());
        assert((a + b).drop_last() =~= a + b.drop_last());
        assert((a + b).last() == b.last());
        assert(responses_of(a + b) =~= responses_of(a) + responses_of(b));
    }
}

proof fn lemma_kept_concat(a: Seq<ResponseInputItem>, b: Seq<ResponseInputItem>)
    ensures
        kept_outputs(a + b) == kept_outputs(a) + kept_outputs(b),
    decreases b.len(),
{
    if b.len() == 0 {
        assert(a + b =~= a);
        assert(kept_outputs(a) + kept_outputs(b) =~= kept_outputs(a));
    } else {
        lemma_kept_concat(a, b.drop_last());
        assert((a + b).drop_last() =~= a + b.drop_last());
        assert((a + b).last() == b.last());
        assert(kept_outputs(a + b) =~= kept_outputs(a) + kept_outputs(b));
    }
}

/// Two answers in a row are processed like one after the other: neither what is returned to the
/// model nor what is recorded of one depends on the other.
pub proof fn law_answers_are_processed_one_by_one(
    a: Seq<ProcessedResponseItem>,
    b: Seq<ProcessedResponseItem>,
)
    ensures
        responses_of(a + b) == responses_of(a) + responses_of(b),
        recorded_outputs(a + b) == recorded_outputs(a) + recorded_outputs(b),
{
    lemma_responses_concat(a, b);
    lemma_kept_concat(responses_of(a), responses_of(b));
    assert(recorded_outputs(a + b) =~= kept_outputs(responses_of(a + b)));
    assert(recorded_outputs(a) =~= kept_outputs(responses_of(a)));
    assert(recorded_outputs(b) =~= kept_outputs(responses_of(b)));
}

/// An item whose response is the output of a tool call is recorded with that output under the
/// identity of the call, whether a function, a custom tool or an external tool was called, and
/// whether the call succeeded or failed. An item without a response, or with a message, is recorded
/// alone. What an item's response is, the model is sent back.
pub proof fn law_item_is_recorded_with_its_output(one: ProcessedResponseItem)
    ensures
        ({
            let items = seq![one];
            &&& recorded(items).len() > 0
            &&& recorded(items)[0] == one.item
            &&& responses_of(items) == match one.response {
                Some(response) => seq![response],
                None => Seq::empty(),
            }
            &&& match one.response {
                None => recorded_outputs(items).len() == 0,
                Some(ResponseInputItem::Message { .. }) => recorded_outputs(items).len() == 0,
                Some(ResponseInputItem::FunctionCallOutput { call_id, output }) => {
                    recorded_outputs(items) == seq![
                        ResponseItem::FunctionCallOutput { call_id, output },
                    ]
                },
                Some(ResponseInputItem::CustomToolCallOutput { call_id, output }) => {
                    recorded_outputs(items) == seq![
                        ResponseItem::CustomToolCallOutput { call_id, output },
                    ]
                },
                Some(ResponseInputItem::McpToolCallOutput { call_id, result }) => {
                    &&& recorded_outputs(items).len() == 1
                    &&& recorded_outputs(items)[0] matches ResponseItem::FunctionCallOutput {
                        call_id: id,
                        output,
                    }
                    &&& id == call_id
                    &&& match result {
                        McpCallResult::Returned(returned) => output == returned,
                        McpCallResult::Failed(err) => output.content == err
                            && output.content_items is None && output.success == Some(false),
                    }
                },
            }
        }),
{
    let items = seq![one];
    assert(items.drop_last() =~= Seq::empty());
    assert(items.last() == one);
    let responses = responses_of(items);
    assert(responses_of(items.drop_last()) =~= Seq::empty());
    assert(kept_outputs(Seq::empty()) =~= Seq::<ResponseItem>::empty());
    if let Some(response) = one.response {
        assert(responses =~= seq![response]);
        assert(responses.drop_last() =~= Seq::empty());
    } else {
        assert(responses =~= Seq::empty());
    }
    assert(recorded_outputs(items) =~= kept_outputs(responses));
}

/// Wherever in an answer a tool's output stands, it is recorded under its call: an output of a
/// function or of a custom tool as it is, and what an external tool returned as it was returned.
pub proof fn law_no_output_is_lost(items: Seq<ProcessedResponseItem>, i: int)
    requires
        0 <= i < items.len(),
    ensures
        match items[i].response {
            Some(ResponseInputItem::FunctionCallOutput { call_id, output }) => recorded(
                items,
            ).contains(ResponseItem::FunctionCallOutput { call_id, output }),
            Some(ResponseInputItem::CustomToolCallOutput { call_id, output }) => recorded(
                items,
            ).contains(ResponseItem::CustomToolCallOutput { call_id, output }),
            Some(ResponseInputItem::McpToolCallOutput { call_id, result }) => match result {
                McpCallResult::Returned(output) => recorded(items).contains(
                    ResponseItem::FunctionCallOutput { call_id, output },
                ),
                McpCallResult::Failed(err) => recorded(items).contains(
                    ResponseItem::FunctionCallOutput {
                        call_id,
                        output: FunctionCallOutputPayload {
                            content: err,
                            content_items: None,
                            success: Some(false),
                        },
                    },
                ),
            },
            _ => true,
        },
{
    if let Some(response) = items[i].response {
        if response !is Message {
            law_every_output_is_recorded(items, i);
        }
    }
}

/// There is something to send back exactly where an item has a response.
pub proof fn lemma_responses_count(items: Seq<ProcessedResponseItem>)
    ensures
        (responses_of(items).len() > 0) == (exists|i: int|
            0 <= i < items.len() && (#[trigger] items[i]).response is Some),
    decreases items.len(),
{
    if items.len() > 0 {
        let shorter = items.drop_last();
        lemma_responses_count(shorter);
        if responses_of(shorter).len() > 0 {
            let i = choose|i: int| 0 <= i < shorter.len() && (#[trigger] shorter[i]).response is Some;
            assert(items[i] == shorter[i]);
        }
        if exists|i: int| 0 <= i < items.len() && (#[trigger] items[i]).response is Some {
            let i = choose|i: int| 0 <= i < items.len() && (#[trigger] items[i]).response is Some;
            if i < shorter.len() {
                assert(shorter[i] == items[i]);
            }
        }
        assert(items[items.len() - 1] == items.last());
    }
}

/// Every response goes back to the model.
pub proof fn law_every_response_is_sent_back(items: Seq<ProcessedResponseItem>, i: int)
    requires
        0 <= i < items.len(),
        items[i].response is Some,
    ensures
        responses_of(items).contains(items[i].response->0),
{
    let one = items[i];
    let before = items.take(i);
    let after = items.skip(i + 1);
    assert(items =~= before + (seq![one] + after));
    law_answers_are_processed_one_by_one(before, seq![one] + after);
    law_answers_are_processed_one_by_one(seq![one], after);
    law_item_is_recorded_with_its_output(one);
    let k = responses_of(before).len() as int;
    assert(responses_of(seq![one])[0] == one.response->0);
    assert(responses_of(items)[k] == one.response->0);
}

} // verus!
