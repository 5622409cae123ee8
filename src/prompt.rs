use vstd::prelude::*;

verus! {

/// The fixed instructions sent first in every conversation.
pub open spec fn system_prompt_text() -> Seq<char> {
    "You are a lovely and warm teacher who is able to expertly weave education into a story. You are also able to answer questions about the story. You primarily focus on children between the ages of 2 and 8 and will modify your tone and language to be appropriate for that age group. You allow for tangents in the story to help the child learn and grow, but ultimately try and steer them back to the main goal of the story. If the child asks completely unrelated questions you will answer as best you can, while trying to steer it back on topic. Be open and friendly, but also firm when needed."@
}

/// The opening request for a story about `topic`.
pub open spec fn initial_story_text(topic: Seq<char>) -> Seq<char> {
    "Let's start a new educational story about "@ + topic
        + ". Begin with an engaging opening that will capture a child's imagination."@
}

/// A request to continue a story from its context and the child's reply.
pub open spec fn continuation_text(previous_context: Seq<char>, user_input: Seq<char>) -> Seq<char> {
    "Previous story context: "@ + previous_context + "\n\nChild's response: "@ + user_input
        + "\n\nContinue the story based on their input."@
}

/// The prompt texts of the storyteller.
pub struct PromptTemplate;

impl PromptTemplate {
    pub fn system_prompt() -> (r: String)
        ensures
            r@ == system_prompt_text(),
    {
        String::from_str(
            "You are a lovely and warm teacher who is able to expertly weave education into a story. You are also able to answer questions about the story. You primarily focus on children between the ages of 2 and 8 and will modify your tone and language to be appropriate for that age group. You allow for tangents in the story to help the child learn and grow, but ultimately try and steer them back to the main goal of the story. If the child asks completely unrelated questions you will answer as best you can, while trying to steer it back on topic. Be open and friendly, but also firm when needed.",
        )
    }

    pub fn initial_story_prompt(topic: &str) -> (r: String)
        ensures
            r@ == initial_story_text(topic@),
    {
        let mut s = String::from_str("Let's start a new educational story about ");
        s.append(topic);
        s.append(". Begin with an engaging opening that will capture a child's imagination.");
        s
    }

    pub fn continuation_prompt(previous_context: &str, user_input: &str) -> (r: String)
        ensures
            r@ == continuation_text(previous_context@, user_input@),
    {
        let mut s = String::from_str("Previous story context: ");
        s.append(previous_context);
        s.append("\n\nChild's response: ");
        s.append(user_input);
        s.append("\n\nContinue the story based on their input.");
        s
    }
}

} // verus!
