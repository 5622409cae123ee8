use vstd::prelude::*;

use crate::models::Page;
use crate::prompt::{system_prompt_text, PromptTemplate};

verus! {

/// Who speaks a message of a conversation.
#[derive(Clone, Copy, Debug, PartialEq, Eq, Structural)]
pub enum Role {
    System,
    User,
    Assistant,
}

/// One role-tagged message of the context sent to the completion service.
pub struct ChatMessage {
    pub role: Role,
    pub content: String,
}

impl View for ChatMessage {
    type V = (Role, Seq<char>);

    open spec fn view(&self) -> (Role, Seq<char>) {
        (self.role, self.content@)
    }
}

/// The turns of `pages` in page order: each prompt as the user's message,
/// then its completion as the assistant's.
pub open spec fn turns_of(pages: Seq<Page>) -> Seq<(Role, Seq<char>)>
    decreases pages.len(),
{
    if pages.len() == 0 {
        Seq::empty()
    } else {
        let last = pages.last();
        turns_of(pages.drop_last()) + seq![(Role::User, last.prompt@), (Role::Assistant, last.completion@)]
    }
}

/// The whole context for a new message: the system prompt, the earlier turns,
/// then the new message from the user.
pub open spec fn context_of(system: Seq<char>, pages: Seq<Page>, message: Seq<char>) -> Seq<(Role, Seq<char>)> {
    seq![(Role::System, system)] + turns_of(pages) + seq![(Role::User, message)]
}

pub open spec fn views_of(msgs: Seq<ChatMessage>) -> Seq<(Role, Seq<char>)> {
    msgs.map_values(|m: ChatMessage| m@)
}

/// The turns of a story alternate user and assistant, two per page, in page
/// order: position `2i` holds the prompt of page `i` and position `2i + 1` its completion.
pub proof fn lemma_turns_follow_page_order(pages: Seq<Page>)
    ensures
        turns_of(pages).len() == 2 * pages.len(),
        forall|i: int|
            0 <= i < pages.len() ==> #[trigger] turns_of(pages)[2 * i] == (Role::User, pages[i].prompt@)
                && turns_of(pages)[2 * i + 1] == (Role::Assistant, pages[i].completion@),
    decreases pages.len(),
{
    if pages.len() > 0 {
        lemma_turns_follow_page_order(pages.drop_last());
        let t = turns_of(pages);
        assert forall|i: int| 0 <= i < pages.len() implies #[trigger] t[2 * i] == (Role::User, pages[i].prompt@)
            && t[2 * i + 1] == (Role::Assistant, pages[i].completion@) by {
            if i < pages.len() - 1 {
                assert(pages.drop_last()[i] == pages[i]);
            }
        }
    }
}

/// The context sent to the completion service always starts with the system
/// prompt, ends with the new message, and holds each earlier page's prompt and
/// completion in between, in page order.
pub proof fn lemma_context_order(system: Seq<char>, pages: Seq<Page>, message: Seq<char>)
    ensures
        context_of(system, pages, message).len() == 2 * pages.len() + 2,
        context_of(system, pages, message)[0] == (Role::System, system),
        context_of(system, pages, message)[2 * pages.len() as int + 1] == (Role::User, message),
        forall|i: int|
            0 <= i < pages.len() ==> #[trigger] context_of(system, pages, message)[2 * i + 1] == (
            Role::User,
            pages[i].prompt@,
        ) && context_of(system, pages, message)[2 * i + 2] == (Role::Assistant, pages[i].completion@),
{
    lemma_turns_follow_page_order(pages);
    let c = context_of(system, pages, message);
    assert forall|i: int| 0 <= i < pages.len() implies #[trigger] c[2 * i + 1] == (Role::User, pages[i].prompt@)
        && c[2 * i + 2] == (Role::Assistant, pages[i].completion@) by {
        assert(turns_of(pages)[2 * i] == (Role::User, pages[i].prompt@));
    }
}

/// The messages for a completion request: the system prompt, each page's
/// prompt and completion in page order, then the new message.
pub fn conversation_context(pages: &Vec<Page>, message: &str) -> (r: Vec<ChatMessage>)
    ensures
        views_of(r@) == context_of(system_prompt_text(), pages@, message@),
{
    let mut out: Vec<ChatMessage> = Vec::new();
    out.push(ChatMessage { role: Role::System, content: PromptTemplate::system_prompt() });
    let mut i: usize = 0;
    while i < pages.len()
        invariant
            0 <= i <= pages.len(),
            views_of(out@) == seq![(Role::System, system_prompt_text())] + turns_of(pages@.subrange(0, i as int)),
        decreases pages.len() - i,
    {
        let page = &pages[i];
        let ghost before = out@;
        out.push(ChatMessage { role: Role::User, content: page.prompt.clone() });
        out.push(ChatMessage { role: Role::Assistant, content: page.completion.clone() });
        proof {
            let next = pages@.subrange(0, i + 1);
            assert(next.drop_last() =~= pages@.subrange(0, i as int));
            assert(next.last() == pages@[i as int]);
            assert(views_of(out@) =~= views_of(before) + seq![
                (Role::User, pages@[i as int].prompt@),
                (Role::Assistant, pages@[i as int].completion@),
            ]);
            assert(views_of(out@) =~= seq![(Role::System, system_prompt_text())] + turns_of(next));
        }
        i = i + 1;
    }
    out.push(ChatMessage { role: Role::User, content: String::from_str(message) });
    proof {
        assert(pages@.subrange(0, pages.len() as int) =~= pages@);
        assert(views_of(out@) =~= context_of(system_prompt_text(), pages@, message@));
    }
    out
}

} // verus!
