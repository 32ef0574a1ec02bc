//! The chat-batch service: a batch echo transform standing in for a real
//! model call, so the surrounding pipeline can be exercised end to end.

use vstd::prelude::*;
use crate::envelope::VosError;

verus! {

/// One chat message: who said it and what was said.
pub struct ChatMessage {
    pub role: String,
    pub content: String,
}

/// One batch item: which provider and model to address, for which session,
/// with the conversation so far.
pub struct ChatItem {
    pub provider: String,
    pub model: String,
    pub persona: Option<String>,
    pub session_id: String,
    pub messages: Vec<ChatMessage>,
}

/// A batch of chat requests.
pub struct ChatBatchReq {
    pub batch: Vec<ChatItem>,
}

/// One echoed result.
pub struct ChatBatchItemResp {
    pub session_id: String,
    pub content: String,
    pub usage_tokens: Option<u32>,
    pub provider: Option<String>,
    pub model: Option<String>,
    pub latency_ms: Option<u64>,
}

/// The results, one per batch item, in batch order.
pub struct ChatBatchResp {
    pub results: Vec<ChatBatchItemResp>,
}

/// Answers chat batches with echoes.
pub struct ModelManagerService;

/// The content of the last message in a conversation, or nothing.
pub open spec fn last_content(messages: Seq<ChatMessage>) -> Seq<char> {
    if messages.len() == 0 {
        Seq::empty()
    } else {
        messages.last().content@
    }
}

/// The echoed content for one batch item.
pub open spec fn echo_content(provider: Seq<char>, model: Seq<char>, last: Seq<char>) -> Seq<
    char,
> {
    "(stub) "@ + provider + " → "@ + model + " responded to: "@ + last
}

/// How one echoed result reflects its batch item.
pub open spec fn echo_item_ok(item: ChatItem, r: ChatBatchItemResp) -> bool {
    &&& r.session_id@ == item.session_id@
    &&& r.content@ == echo_content(item.provider@, item.model@, last_content(item.messages@))
    &&& r.usage_tokens is None
    &&& r.provider matches Some(p) && p@ == item.provider@
    &&& r.model matches Some(m) && m@ == item.model@
    &&& r.latency_ms == Some(25u64)
}

impl ModelManagerService {
    /// Echoes every batch item back, in order; never fails.
    pub fn chat_batch(req: ChatBatchReq) -> (r: Result<ChatBatchResp, VosError>)
        ensures
            r matches Ok(resp) && resp.results@.len() == req.batch@.len() && (forall|i: int|
                0 <= i < req.batch@.len() ==> echo_item_ok(
                    req.batch@[i],
                    #[trigger] resp.results@[i],
                )),
    {
        let mut results: Vec<ChatBatchItemResp> = Vec::new();
        let n = req.batch.len();
        let mut i: usize = 0;
        while i < n
            invariant
                n == req.batch@.len(),
                i <= n,
                results@.len() == i,
                forall|k: int|
                    0 <= k < i ==> echo_item_ok(req.batch@[k], #[trigger] results@[k]),
            decreases n - i,
        {
            let it = &req.batch[i];
            let mut content = "(stub) ".to_owned();
            content.append(it.provider.as_str());
            content.append(" → ");
            content.append(it.model.as_str());
            content.append(" responded to: ");
            let mlen = it.messages.len();
            if mlen > 0 {
                content.append(it.messages[mlen - 1].content.as_str());
            }
            proof {
                assert(content@ == echo_content(
                    it.provider@,
                    it.model@,
                    last_content(it.messages@),
                ));
            }
            results.push(
                ChatBatchItemResp {
                    session_id: it.session_id.clone(),
                    content,
                    usage_tokens: None,
                    provider: Some(it.provider.clone()),
                    model: Some(it.model.clone()),
                    latency_ms: Some(25),
                },
            );
            i += 1;
        }
        Ok(ChatBatchResp { results })
    }
}

} // verus!
