//! Questions that a session asks the user.
use vstd::prelude::*;

verus! {

/// An answer that is offered.
#[derive(Debug, Clone, PartialEq, Eq)]
pub struct ToolRequestUserInputOption {
    pub label: String,
    pub description: String,
}

/// A question to the user.
#[derive(Debug, Clone, PartialEq, Eq)]
pub struct ToolRequestUserInputQuestion {
    pub id: String,
    pub header: String,
    pub question: String,
    pub is_other: bool,
    pub is_secret: bool,
    pub options: Option<Vec<ToolRequestUserInputOption>>,
}

/// The questions of a request, and what they are about.
#[derive(Debug, Clone, PartialEq, Eq)]
pub struct ToolRequestUserInputParams {
    pub thread_id: String,
    pub turn_id: String,
    pub item_id: String,
    pub questions: Vec<ToolRequestUserInputQuestion>,
}

/// The question of a request that waits for its answer.
#[derive(Debug, Clone, PartialEq, Eq)]
pub struct InteractivePromptSnapshot {
    pub thread_id: String,
    pub turn_id: String,
    pub item_id: String,
    pub request_id: i64,
    pub prompt_message_id: Option<i32>,
    pub awaiting_freeform_text: bool,
    pub question: ToolRequestUserInputQuestion,
}

/// What the user answered to a question.
#[derive(Debug, Clone, PartialEq, Eq)]
pub struct ToolRequestUserInputAnswer {
    pub question_id: String,
    pub answers: Vec<String>,
}

/// What the user answered to the questions of a request.
#[derive(Debug, Clone, PartialEq, Eq)]
pub struct ToolRequestUserInputResponse {
    pub answers: Vec<ToolRequestUserInputAnswer>,
}

/// Whether one of the questions asks for a secret.
pub open spec fn asks_secret(questions: Seq<ToolRequestUserInputQuestion>) -> bool {
    exists|i: int| 0 <= i < questions.len() && (#[trigger] questions[i]).is_secret
}

/// Whether one of the questions asks for a secret. Such a request is not shown.
pub fn has_secret_question(questions: &Vec<ToolRequestUserInputQuestion>) -> (res: bool)
    ensures
        res == asks_secret(questions@),
{
    let mut i: usize = 0;
    while i < questions.len()
        invariant
            i <= questions@.len(),
            forall|k: int| 0 <= k < i ==> !(#[trigger] questions@[k]).is_secret,
        decreases questions@.len() - i,
    {
        if questions[i].is_secret {
            return true;
        }
        i += 1;
    }
    false
}

/// One question that asks for a secret is enough, wherever it stands among the others.
pub proof fn law_one_secret_is_enough(
    first: Seq<ToolRequestUserInputQuestion>,
    question: ToolRequestUserInputQuestion,
    rest: Seq<ToolRequestUserInputQuestion>,
)
    ensures
        asks_secret(first.push(question) + rest) <==> asks_secret(first) || question.is_secret
            || asks_secret(rest),
        !asks_secret(Seq::empty()),
{
    let all = first.push(question) + rest;
    if question.is_secret {
        assert(all[first.len() as int].is_secret);
    }
    if asks_secret(first) {
        let i = choose|i: int| 0 <= i < first.len() && (#[trigger] first[i]).is_secret;
        assert(all[i].is_secret);
    }
    if asks_secret(rest) {
        let i = choose|i: int| 0 <= i < rest.len() && (#[trigger] rest[i]).is_secret;
        assert(all[first.len() + 1 + i].is_secret);
    }
    if asks_secret(all) {
        let i = choose|i: int| 0 <= i < all.len() && (#[trigger] all[i]).is_secret;
        if i < first.len() {
            assert(first[i].is_secret);
        } else if i > first.len() {
            assert(rest[i - first.len() - 1].is_secret);
        }
    }
}

} // verus!
