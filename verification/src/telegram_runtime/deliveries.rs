//! Deliveries: whatever is shown in Telegram is claimed before, so that nothing is shown twice, and
//! put on record behind.
use vstd::prelude::*;
use vstd::string::*;

use crate::repository::TranscriptMirrorRole;
use crate::telegram_runtime::PLAN_IMPLEMENTATION_MESSAGE;
use crate::text;

verus! {

broadcast use vstd::string::group_string_axioms;

/// What the question about a plan goes by where its turn left no reply.
pub const PLAN_QUESTION_SUBJECT: &'static str = "plan_implementation_prompt";

/// What is delivered.
#[derive(Debug, Clone, Copy, PartialEq, Eq, Structural)]
pub enum DeliveryKind {
    UserEcho,
    AssistantFinal,
    PreviewDraft,
    SystemNotice,
    RequestUserInputPrompt,
    ApprovalPrompt,
}

/// The reply of a turn, with the id of the turn where it is known.
#[derive(Debug)]
pub struct TurnReply {
    pub turn_id: Option<String>,
    pub text: String,
}

impl TurnReply {
    /// The same reply.
    pub fn copy(&self) -> (res: Self)
        ensures
            res == *self,
    {
        TurnReply { turn_id: text::clone_opt(&self.turn_id), text: self.text.clone() }
    }
}

/// The question what becomes of a plan, with the reply of the turn that made it.
#[derive(Debug)]
pub struct PlanQuestion {
    pub turn_id: Option<String>,
    pub reply: Option<String>,
}

/// What the key of a delivery is made from, besides its session and its kind.
#[derive(Debug, Clone, PartialEq, Eq)]
pub enum ProvisionalKey {
    Text { text: String, occurred_at: String },
    Request { request_id: i64, item_id: String },
}

/// What the key of a delivery is made from, by what its texts say.
#[verifier::ext_equal]
pub enum KeyModel {
    Text { text: Seq<char>, occurred_at: Seq<char> },
    Request { request_id: i64, item_id: Seq<char> },
}

impl View for ProvisionalKey {
    type V = KeyModel;

    open spec fn view(&self) -> KeyModel {
        match *self {
            ProvisionalKey::Text { text, occurred_at } => KeyModel::Text {
                text: text@,
                occurred_at: occurred_at@,
            },
            ProvisionalKey::Request { request_id, item_id } => KeyModel::Request {
                request_id,
                item_id: item_id@,
            },
        }
    }
}

/// The claim to make a delivery to Telegram.
#[derive(Debug, Clone, PartialEq, Eq)]
pub struct DeliveryClaim {
    pub thread_key: String,
    pub session_id: String,
    pub turn_id: Option<String>,
    pub provisional_key: Option<ProvisionalKey>,
    pub kind: DeliveryKind,
    /// Who claims the delivery.
    pub owner: String,
}

/// A claim, by what its texts say.
#[verifier::ext_equal]
pub struct ClaimModel {
    pub thread_key: Seq<char>,
    pub session_id: Seq<char>,
    pub turn_id: Option<Seq<char>>,
    pub provisional_key: Option<KeyModel>,
    pub kind: DeliveryKind,
    pub owner: Seq<char>,
}

impl View for DeliveryClaim {
    type V = ClaimModel;

    open spec fn view(&self) -> ClaimModel {
        ClaimModel {
            thread_key: self.thread_key@,
            session_id: self.session_id@,
            turn_id: text::opt_view(self.turn_id),
            provisional_key: match self.provisional_key {
                Some(key) => Some(key@),
                None => None,
            },
            kind: self.kind,
            owner: self.owner@,
        }
    }
}

/// What a delivery is about, and where it comes from.
#[derive(Debug)]
pub enum ClaimSource {
    /// A prompt that was sent in Telegram.
    Prompt { text: String },
    /// The press of the button that has a plan carried out.
    PlanButton,
    /// The reply of a turn that was started in Telegram.
    Reply { reply: TurnReply },
    /// The question what becomes of the plan of such a turn.
    PlanPrompt { question: PlanQuestion },
    /// A prompt of a local client.
    MirroredPrompt { text: String },
    /// A preview of a turn of a local client.
    MirroredDraft { turn_id: String },
    /// The reply of a turn of a local client.
    MirroredReply { reply: TurnReply },
    /// A message that was found in the log of a session.
    Logged { role: TranscriptMirrorRole, turn_id: String },
    /// A question of a session.
    Question { turn_id: String, request_id: i64, item_id: String },
    /// A request of a session for approval.
    Approval { turn_id: String, request_id: i64, item_id: String },
    /// The question what becomes of the plan of a local client.
    LocalPlan { reply: Option<String> },
}

impl ClaimSource {
    /// What is delivered.
    pub open spec fn kind(self) -> DeliveryKind {
        match self {
            ClaimSource::Prompt { .. } => DeliveryKind::UserEcho,
            ClaimSource::PlanButton => DeliveryKind::UserEcho,
            ClaimSource::Reply { .. } => DeliveryKind::AssistantFinal,
            ClaimSource::PlanPrompt { .. } => DeliveryKind::SystemNotice,
            ClaimSource::MirroredPrompt { .. } => DeliveryKind::UserEcho,
            ClaimSource::MirroredDraft { .. } => DeliveryKind::PreviewDraft,
            ClaimSource::MirroredReply { .. } => DeliveryKind::AssistantFinal,
            ClaimSource::Logged { role, .. } => match role {
                TranscriptMirrorRole::User => DeliveryKind::UserEcho,
                TranscriptMirrorRole::Assistant => DeliveryKind::AssistantFinal,
            },
            ClaimSource::Question { .. } => DeliveryKind::RequestUserInputPrompt,
            ClaimSource::Approval { .. } => DeliveryKind::ApprovalPrompt,
            ClaimSource::LocalPlan { .. } => DeliveryKind::SystemNotice,
        }
    }

    /// Who claims the delivery.
    pub open spec fn owner(self) -> Seq<char> {
        match self {
            ClaimSource::Prompt { .. } => "telegram_thread_flow"@,
            ClaimSource::PlanButton => "telegram_plan_callback"@,
            ClaimSource::Reply { .. } => "telegram_thread_flow"@,
            ClaimSource::PlanPrompt { .. } => "telegram_thread_flow"@,
            ClaimSource::MirroredPrompt { .. } => "status_sync"@,
            ClaimSource::MirroredDraft { .. } => "status_sync"@,
            ClaimSource::MirroredReply { .. } => "status_sync"@,
            ClaimSource::Logged { .. } => "codex_home_session_mirror"@,
            ClaimSource::Question { .. } => "interaction_bridge"@,
            ClaimSource::Approval { .. } => "interaction_bridge"@,
            ClaimSource::LocalPlan { .. } => "interaction_bridge"@,
        }
    }

    /// The turn that the delivery belongs to, where it is known.
    pub open spec fn turn_id(self) -> Option<Seq<char>> {
        match self {
            ClaimSource::Prompt { .. } => None,
            ClaimSource::PlanButton => None,
            ClaimSource::Reply { reply } => text::opt_view(reply.turn_id),
            ClaimSource::PlanPrompt { question } => text::opt_view(question.turn_id),
            ClaimSource::MirroredPrompt { .. } => None,
            ClaimSource::MirroredDraft { turn_id } => Some(turn_id@),
            ClaimSource::MirroredReply { reply } => text::opt_view(reply.turn_id),
            ClaimSource::Logged { turn_id, .. } => Some(turn_id@),
            ClaimSource::Question { turn_id, .. } => Some(turn_id@),
            ClaimSource::Approval { turn_id, .. } => Some(turn_id@),
            ClaimSource::LocalPlan { .. } => None,
        }
    }

    /// What the key of the delivery is made from, where it has one: a reply has a key only where
    /// its turn is not known.
    pub open spec fn key(self, occurred_at: Seq<char>) -> Option<KeyModel> {
        match self {
            ClaimSource::Prompt { text } => Some(KeyModel::Text { text: text@, occurred_at }),
            ClaimSource::PlanButton => Some(
                KeyModel::Text { text: PLAN_IMPLEMENTATION_MESSAGE@, occurred_at },
            ),
            ClaimSource::Reply { reply } => reply_key(reply, occurred_at),
            ClaimSource::PlanPrompt { question } => Some(plan_key(question.reply, occurred_at)),
            ClaimSource::MirroredPrompt { text } => Some(
                KeyModel::Text { text: text@, occurred_at },
            ),
            ClaimSource::MirroredDraft { .. } => None,
            ClaimSource::MirroredReply { reply } => reply_key(reply, occurred_at),
            ClaimSource::Logged { .. } => None,
            ClaimSource::Question { turn_id, request_id, item_id } => Some(
                KeyModel::Request { request_id, item_id: item_id@ },
            ),
            ClaimSource::Approval { turn_id, request_id, item_id } => Some(
                KeyModel::Request { request_id, item_id: item_id@ },
            ),
            ClaimSource::LocalPlan { reply } => Some(plan_key(reply, occurred_at)),
        }
    }
}

/// What the key of a reply is made from: it has one only where its turn is not known.
pub open spec fn reply_key(reply: TurnReply, occurred_at: Seq<char>) -> Option<KeyModel> {
    match reply.turn_id {
        Some(_) => None,
        None => Some(KeyModel::Text { text: reply.text@, occurred_at }),
    }
}

/// What the key of the question about a plan is made from: the reply of its turn, or a fixed word.
pub open spec fn plan_key(reply: Option<String>, occurred_at: Seq<char>) -> KeyModel {
    KeyModel::Text {
        text: text::or_text(text::opt_view(reply), PLAN_QUESTION_SUBJECT@),
        occurred_at,
    }
}

fn make_reply_key(reply: &TurnReply, occurred_at: &str) -> (res: Option<ProvisionalKey>)
    ensures
        opt_key(res) == reply_key(*reply, occurred_at@),
{
    match &reply.turn_id {
        Some(_) => None,
        None => Some(
            ProvisionalKey::Text {
                text: reply.text.clone(),
                occurred_at: occurred_at.to_owned(),
            },
        ),
    }
}

fn make_plan_key(reply: Option<String>, occurred_at: &str) -> (res: ProvisionalKey)
    ensures
        res@ == plan_key(reply, occurred_at@),
{
    let subject = match reply {
        Some(reply) => reply,
        None => PLAN_QUESTION_SUBJECT.to_owned(),
    };
    ProvisionalKey::Text { text: subject, occurred_at: occurred_at.to_owned() }
}

/// A key that may be absent, by what its texts say.
pub open spec fn opt_key(key: Option<ProvisionalKey>) -> Option<KeyModel> {
    match key {
        Some(key) => Some(key@),
        None => None,
    }
}

/// The claim of a delivery, for a thread and a session; `occurred_at` is when that happened which
/// it is about.
pub fn delivery_claim(
    source: ClaimSource,
    thread_key: &str,
    session_id: &str,
    occurred_at: &str,
) -> (res: DeliveryClaim)
    ensures
        res@ == (ClaimModel {
            thread_key: thread_key@,
            session_id: session_id@,
            turn_id: source.turn_id(),
            provisional_key: source.key(occurred_at@),
            kind: source.kind(),
            owner: source.owner(),
        }),
{
    let (owner, kind, turn_id, provisional_key) = match source {
        ClaimSource::Prompt { text } => (
            "telegram_thread_flow",
            DeliveryKind::UserEcho,
            None,
            Some(ProvisionalKey::Text { text, occurred_at: occurred_at.to_owned() }),
        ),
        ClaimSource::PlanButton => (
            "telegram_plan_callback",
            DeliveryKind::UserEcho,
            None,
            Some(
                ProvisionalKey::Text {
                    text: PLAN_IMPLEMENTATION_MESSAGE.to_owned(),
                    occurred_at: occurred_at.to_owned(),
                },
            ),
        ),
        ClaimSource::Reply { reply } => {
            let key = make_reply_key(&reply, occurred_at);
            ("telegram_thread_flow", DeliveryKind::AssistantFinal, reply.turn_id, key)
        },
        ClaimSource::PlanPrompt { question } => (
            "telegram_thread_flow",
            DeliveryKind::SystemNotice,
            question.turn_id,
            Some(make_plan_key(question.reply, occurred_at)),
        ),
        ClaimSource::MirroredPrompt { text } => (
            "status_sync",
            DeliveryKind::UserEcho,
            None,
            Some(ProvisionalKey::Text { text, occurred_at: occurred_at.to_owned() }),
        ),
        ClaimSource::MirroredDraft { turn_id } => (
            "status_sync",
            DeliveryKind::PreviewDraft,
            Some(turn_id),
            None,
        ),
        ClaimSource::MirroredReply { reply } => {
            let key = make_reply_key(&reply, occurred_at);
            ("status_sync", DeliveryKind::AssistantFinal, reply.turn_id, key)
        },
        ClaimSource::Logged { role, turn_id } => {
            let kind = match role {
                TranscriptMirrorRole::User => DeliveryKind::UserEcho,
                TranscriptMirrorRole::Assistant => DeliveryKind::AssistantFinal,
            };
            ("codex_home_session_mirror", kind, Some(turn_id), None)
        },
        ClaimSource::Question { turn_id, request_id, item_id } => (
            "interaction_bridge",
            DeliveryKind::RequestUserInputPrompt,
            Some(turn_id),
            Some(ProvisionalKey::Request { request_id, item_id }),
        ),
        ClaimSource::Approval { turn_id, request_id, item_id } => (
            "interaction_bridge",
            DeliveryKind::ApprovalPrompt,
            Some(turn_id),
            Some(ProvisionalKey::Request { request_id, item_id }),
        ),
        ClaimSource::LocalPlan { reply } => (
            "interaction_bridge",
            DeliveryKind::SystemNotice,
            None,
            Some(make_plan_key(reply, occurred_at)),
        ),
    };
    DeliveryClaim {
        thread_key: thread_key.to_owned(),
        session_id: session_id.to_owned(),
        turn_id,
        provisional_key,
        kind,
        owner: owner.to_owned(),
    }
}

/// What was delivered to Telegram, or came from it.
#[derive(Debug, Clone, Copy, PartialEq, Eq, Structural)]
pub enum DeliverySource {
    /// A message of the user.
    Message { message_id: i32 },
    /// The press of the button that has a plan carried out.
    PlanButton,
    /// The reply of a turn; the preview may show it already.
    Reply { preview_completed: bool },
    /// The question what becomes of a plan.
    PlanPrompt,
    /// A prompt of a local client.
    MirroredPrompt,
    /// The reply of a turn of a local client.
    MirroredReply { preview_completed: bool, mirror_inserted: bool },
    /// A message that was found in the log of a session, at a line of it.
    Logged { role: TranscriptMirrorRole, line_no: u64 },
    /// Such a message that the transcript has already; it is not shown.
    LoggedBefore { line_no: u64 },
}

impl DeliverySource {
    /// Who claims the delivery.
    pub open spec fn owner(self) -> Seq<char> {
        match self {
            DeliverySource::Message { .. } => "telegram_thread_flow"@,
            DeliverySource::PlanButton => "telegram_plan_callback"@,
            DeliverySource::Reply { .. } => "telegram_thread_flow"@,
            DeliverySource::PlanPrompt => "telegram_thread_flow"@,
            DeliverySource::MirroredPrompt => "status_sync"@,
            DeliverySource::MirroredReply { .. } => "status_sync"@,
            DeliverySource::Logged { .. } => "codex_home_session_mirror"@,
            DeliverySource::LoggedBefore { .. } => "codex_home_session_mirror"@,
        }
    }

    /// Who carries the delivery out.
    pub open spec fn executor(self) -> Seq<char> {
        match self {
            DeliverySource::Message { .. } => "telegram_inbound"@,
            DeliverySource::PlanButton => "telegram_plan_callback"@,
            DeliverySource::Reply { .. } => "telegram_thread_flow"@,
            DeliverySource::PlanPrompt => "telegram_thread_flow"@,
            DeliverySource::MirroredPrompt => "telegram_status_sync"@,
            DeliverySource::MirroredReply { .. } => "telegram_status_sync"@,
            DeliverySource::Logged { .. } => "codex_home_session_mirror"@,
            DeliverySource::LoggedBefore { .. } => "codex_home_session_mirror"@,
        }
    }

    /// What carried the delivery.
    pub open spec fn transport_ref(self) -> Option<Seq<char>> {
        match self {
            DeliverySource::Message { message_id } => Some(
                "message:"@ + text::signed_decimal(message_id as int),
            ),
            DeliverySource::PlanButton => Some("callback:plan_implement"@),
            _ => None,
        }
    }

    /// What the delivery made in Telegram.
    pub open spec fn target_type(self) -> Option<Seq<char>> {
        match self {
            DeliverySource::Message { .. } => Some("telegram_inbound_message"@),
            DeliverySource::PlanButton => Some("telegram_plan_callback"@),
            DeliverySource::Reply { .. } => Some("telegram_assistant_final"@),
            DeliverySource::PlanPrompt => Some("telegram_plan_prompt"@),
            DeliverySource::MirroredPrompt => Some("telegram_user_echo"@),
            DeliverySource::MirroredReply { .. } => Some("telegram_assistant_final"@),
            DeliverySource::Logged { role, .. } => Some(
                match role {
                    TranscriptMirrorRole::User => "telegram_codex_home_user_echo"@,
                    TranscriptMirrorRole::Assistant => "telegram_codex_home_assistant_final"@,
                },
            ),
            DeliverySource::LoggedBefore { .. } => None,
        }
    }

    /// Whether the preview shows what was delivered, where there is one.
    pub open spec fn preview_completed(self) -> Option<bool> {
        match self {
            DeliverySource::Reply { preview_completed } => Some(preview_completed),
            DeliverySource::MirroredReply { preview_completed, .. } => Some(preview_completed),
            _ => None,
        }
    }

    /// Whether what was delivered is new to the transcript, where that was seen.
    pub open spec fn mirror_inserted(self) -> Option<bool> {
        match self {
            DeliverySource::MirroredReply { mirror_inserted, .. } => Some(mirror_inserted),
            _ => None,
        }
    }

    /// Why nothing was shown.
    pub open spec fn skipped(self) -> Option<Seq<char>> {
        match self {
            DeliverySource::LoggedBefore { .. } => Some("existing_transcript_mirror"@),
            _ => None,
        }
    }

    /// The line of the log that the message was found at.
    pub open spec fn line_no(self) -> Option<u64> {
        match self {
            DeliverySource::Logged { line_no, .. } => Some(line_no),
            DeliverySource::LoggedBefore { line_no } => Some(line_no),
            _ => None,
        }
    }
}

/// What is put on record about a delivery.
#[derive(Debug, Clone, PartialEq, Eq)]
pub struct DeliveryReport {
    /// Who claims the delivery.
    pub owner: String,
    /// Who carries it out.
    pub executor: String,
    pub transport_ref: Option<String>,
    /// What it made in Telegram, and where, unless nothing was shown.
    pub target_type: Option<String>,
    pub target_ref: Option<String>,
    pub preview_completed: Option<bool>,
    pub mirror_inserted: Option<bool>,
    /// Why nothing was shown.
    pub skipped: Option<String>,
    /// The line of the log of the session that it was found at.
    pub line_no: Option<u64>,
}

/// The place of a thread, in words.
pub open spec fn place_of(chat_id: i64, thread_id: i32) -> Seq<char> {
    "chat:"@ + text::signed_decimal(chat_id as int) + "/thread:"@ + text::signed_decimal(
        thread_id as int,
    )
}

/// The place of a thread, in words.
pub fn place_text(chat_id: i64, thread_id: i32) -> (res: String)
    ensures
        res@ == place_of(chat_id, thread_id),
{
    let chat = text::signed_decimal_text(chat_id);
    let thread = text::signed_decimal_text(thread_id as i64);
    text::concat4("chat:", chat.as_str(), "/thread:", thread.as_str())
}

/// The message that carried a delivery, in words.
pub fn message_ref(message_id: i32) -> (res: String)
    ensures
        res@ == "message:"@ + text::signed_decimal(message_id as int),
{
    let id = text::signed_decimal_text(message_id as i64);
    text::concat2("message:", id.as_str())
}

/// What is put on record about a delivery.
pub fn delivery_report(source: DeliverySource, chat_id: i64, thread_id: i32) -> (res: DeliveryReport)
    ensures
        res.owner@ == source.owner(),
        res.executor@ == source.executor(),
        text::opt_view(res.transport_ref) == source.transport_ref(),
        text::opt_view(res.target_type) == source.target_type(),
        text::opt_view(res.target_ref) == if source.target_type() is Some {
            Some(place_of(chat_id, thread_id))
        } else {
            None
        },
        res.preview_completed == source.preview_completed(),
        res.mirror_inserted == source.mirror_inserted(),
        text::opt_view(res.skipped) == source.skipped(),
        res.line_no == source.line_no(),
{
    let mut transport_ref: Option<String> = None;
    let mut preview_completed: Option<bool> = None;
    let mut mirror_inserted: Option<bool> = None;
    let mut line_no: Option<u64> = None;
    let (owner, executor, target_type) = match source {
        DeliverySource::Message { message_id } => {
            transport_ref = Some(message_ref(message_id));
            ("telegram_thread_flow", "telegram_inbound", "telegram_inbound_message")
        },
        DeliverySource::PlanButton => {
            transport_ref = Some("callback:plan_implement".to_owned());
            ("telegram_plan_callback", "telegram_plan_callback", "telegram_plan_callback")
        },
        DeliverySource::Reply { preview_completed: shown } => {
            preview_completed = Some(shown);
            ("telegram_thread_flow", "telegram_thread_flow", "telegram_assistant_final")
        },
        DeliverySource::PlanPrompt => (
            "telegram_thread_flow",
            "telegram_thread_flow",
            "telegram_plan_prompt",
        ),
        DeliverySource::MirroredPrompt => (
            "status_sync",
            "telegram_status_sync",
            "telegram_user_echo",
        ),
        DeliverySource::MirroredReply { preview_completed: shown, mirror_inserted: inserted } => {
            preview_completed = Some(shown);
            mirror_inserted = Some(inserted);
            ("status_sync", "telegram_status_sync", "telegram_assistant_final")
        },
        DeliverySource::Logged { role, line_no: line } => {
            line_no = Some(line);
            let target_type = match role {
                TranscriptMirrorRole::User => "telegram_codex_home_user_echo",
                TranscriptMirrorRole::Assistant => "telegram_codex_home_assistant_final",
            };
            ("codex_home_session_mirror", "codex_home_session_mirror", target_type)
        },
        DeliverySource::LoggedBefore { line_no: line } => {
            return DeliveryReport {
                owner: "codex_home_session_mirror".to_owned(),
                executor: "codex_home_session_mirror".to_owned(),
                transport_ref: None,
                target_type: None,
                target_ref: None,
                preview_completed: None,
                mirror_inserted: None,
                skipped: Some("existing_transcript_mirror".to_owned()),
                line_no: Some(line),
            };
        },
    };
    DeliveryReport {
        owner: owner.to_owned(),
        executor: executor.to_owned(),
        transport_ref,
        target_type: Some(target_type.to_owned()),
        target_ref: Some(place_text(chat_id, thread_id)),
        preview_completed,
        mirror_inserted,
        skipped: None,
        line_no,
    }
}

/// A claim can always be told from others: it names a turn, or has a key of its own.
pub proof fn law_claims_are_identified(source: ClaimSource, occurred_at: Seq<char>)
    ensures
        source.turn_id() is Some || source.key(occurred_at) is Some,
{
}

/// The reply of a turn has a key exactly where its turn is not known, whoever started the turn.
pub proof fn law_replies_go_by_their_turn(reply: TurnReply, occurred_at: Seq<char>)
    ensures
        (ClaimSource::Reply { reply }).key(occurred_at) is None <==> reply.turn_id is Some,
        (ClaimSource::Reply { reply }).key(occurred_at) == (ClaimSource::MirroredReply {
            reply,
        }).key(occurred_at),
        (ClaimSource::Reply { reply }).turn_id() == (ClaimSource::MirroredReply { reply }).turn_id(),
{
}

/// What a user wrote is echoed, what a session said in the end is its reply, what it asks is a
/// question of its kind, and what becomes of a plan is asked as a notice: a delivery is of the kind
/// of what is delivered, wherever it comes from.
pub proof fn law_deliveries_are_of_their_kind(
    said: String,
    turn_id: String,
    request_id: i64,
    item_id: String,
    reply: TurnReply,
    question: PlanQuestion,
    answer: Option<String>,
)
    ensures
        (ClaimSource::Prompt { text: said }).kind() == DeliveryKind::UserEcho,
        (ClaimSource::MirroredPrompt { text: said }).kind() == DeliveryKind::UserEcho,
        ClaimSource::PlanButton.kind() == DeliveryKind::UserEcho,
        (ClaimSource::Logged { role: TranscriptMirrorRole::User, turn_id }).kind()
            == DeliveryKind::UserEcho,
        (ClaimSource::Reply { reply }).kind() == DeliveryKind::AssistantFinal,
        (ClaimSource::MirroredReply { reply }).kind() == DeliveryKind::AssistantFinal,
        (ClaimSource::Logged { role: TranscriptMirrorRole::Assistant, turn_id }).kind()
            == DeliveryKind::AssistantFinal,
        (ClaimSource::MirroredDraft { turn_id }).kind() == DeliveryKind::PreviewDraft,
        (ClaimSource::Question { turn_id, request_id, item_id }).kind()
            == DeliveryKind::RequestUserInputPrompt,
        (ClaimSource::Approval { turn_id, request_id, item_id }).kind()
            == DeliveryKind::ApprovalPrompt,
        (ClaimSource::PlanPrompt { question }).kind() == DeliveryKind::SystemNotice,
        (ClaimSource::LocalPlan { reply: answer }).kind() == DeliveryKind::SystemNotice,
{
}

/// Two prompts are claimed apart if they say something else or came at another time, and two
/// questions if they are other requests or other items; what is claimed of the same is claimed
/// alike.
pub proof fn law_different_deliveries_have_different_keys(
    first: String,
    second: String,
    at: Seq<char>,
    later: Seq<char>,
    turn_id: String,
    one: i64,
    other: i64,
    item: String,
    item_after: String,
)
    ensures
        (ClaimSource::Prompt { text: first }).key(at) == (ClaimSource::Prompt { text: second }).key(
            later,
        ) <==> first@ == second@ && at == later,
        (ClaimSource::Prompt { text: first }).key(at) == (ClaimSource::MirroredPrompt {
            text: second,
        }).key(later) <==> first@ == second@ && at == later,
        (ClaimSource::Question { turn_id, request_id: one, item_id: item }).key(at) == (
        ClaimSource::Question { turn_id, request_id: other, item_id: item_after }).key(later) <==> one
            == other && item@ == item_after@,
        (ClaimSource::Approval { turn_id, request_id: one, item_id: item }).key(at) == (
        ClaimSource::Approval { turn_id, request_id: other, item_id: item_after }).key(later) <==> one
            == other && item@ == item_after@,
{
    let here = (ClaimSource::Prompt { text: first }).key(at);
    let there = (ClaimSource::Prompt { text: second }).key(later);
    assert(here->0->text == first@ && here->0->occurred_at == at);
    assert(there->0->text == second@ && there->0->occurred_at == later);
    let ask = (ClaimSource::Question { turn_id, request_id: one, item_id: item }).key(at);
    let again = (ClaimSource::Question {
        turn_id,
        request_id: other,
        item_id: item_after,
    }).key(later);
    assert(ask->0->request_id == one && ask->0->item_id == item@);
    assert(again->0->request_id == other && again->0->item_id == item_after@);
}

/// What belongs to a turn is claimed for that turn.
pub proof fn law_deliveries_belong_to_their_turn(
    turn_id: String,
    role: TranscriptMirrorRole,
    request_id: i64,
    item_id: String,
    said: String,
    question: PlanQuestion,
    reply: TurnReply,
)
    ensures
        (ClaimSource::MirroredDraft { turn_id }).turn_id() == Some(turn_id@),
        (ClaimSource::Logged { role, turn_id }).turn_id() == Some(turn_id@),
        (ClaimSource::Question { turn_id, request_id, item_id }).turn_id() == Some(turn_id@),
        (ClaimSource::Approval { turn_id, request_id, item_id }).turn_id() == Some(turn_id@),
        reply.turn_id matches Some(of) ==> (ClaimSource::Reply { reply }).turn_id() == Some(of@),
        question.turn_id matches Some(of) ==> (ClaimSource::PlanPrompt { question }).turn_id()
            == Some(of@),
        (ClaimSource::Prompt { text: said }).turn_id() is None,
        (ClaimSource::MirroredPrompt { text: said }).turn_id() is None,
        ClaimSource::PlanButton.turn_id() is None,
{
}

/// The question about a plan goes by the reply of the turn that made it, and by the same word for
/// every plan whose turn left none.
pub proof fn law_plan_questions_go_by_their_reply(
    turn_id: Option<String>,
    reply: Option<String>,
    at: Seq<char>,
)
    ensures
        ({
            let here = (ClaimSource::PlanPrompt { question: PlanQuestion { turn_id, reply } }).key(at);
            let local = (ClaimSource::LocalPlan { reply }).key(at);
            &&& here == local
            &&& here == Some(
                KeyModel::Text {
                    text: match reply {
                        Some(reply) => reply@,
                        None => "plan_implementation_prompt"@,
                    },
                    occurred_at: at,
                },
            )
        }),
{
}

/// Whoever claims a delivery is also on record for it, and the parts of the bot claim under names of
/// their own.
pub proof fn law_claims_and_records_name_the_same_owner(
    said: String,
    reply: TurnReply,
    question: PlanQuestion,
    role: TranscriptMirrorRole,
    turn_id: String,
    message_id: i32,
    line_no: u64,
    shown: bool,
    inserted: bool,
)
    ensures
        (ClaimSource::Prompt { text: said }).owner() == (DeliverySource::Message {
            message_id,
        }).owner(),
        ClaimSource::PlanButton.owner() == DeliverySource::PlanButton.owner(),
        (ClaimSource::Reply { reply }).owner() == (DeliverySource::Reply {
            preview_completed: shown,
        }).owner(),
        (ClaimSource::PlanPrompt { question }).owner() == DeliverySource::PlanPrompt.owner(),
        (ClaimSource::MirroredPrompt { text: said }).owner() == DeliverySource::MirroredPrompt.owner(),
        (ClaimSource::MirroredReply { reply }).owner() == (DeliverySource::MirroredReply {
            preview_completed: shown,
            mirror_inserted: inserted,
        }).owner(),
        (ClaimSource::Logged { role, turn_id }).owner() == (DeliverySource::Logged {
            role,
            line_no,
        }).owner(),
        (DeliverySource::Logged { role, line_no }).owner() == (DeliverySource::LoggedBefore {
            line_no,
        }).owner(),
        (ClaimSource::Prompt { text: said }).owner() == "telegram_thread_flow"@,
        ClaimSource::PlanButton.owner() == "telegram_plan_callback"@,
        (ClaimSource::MirroredPrompt { text: said }).owner() == "status_sync"@,
        (ClaimSource::Logged { role, turn_id }).owner() == "codex_home_session_mirror"@,
        (ClaimSource::LocalPlan { reply: None }).owner() == "interaction_bridge"@,
{
}

/// What is on record about a delivery says what it made in Telegram, and for a message of the user
/// which message that was. Only what was in the transcript before made nothing.
pub proof fn law_records_say_what_was_made(source: DeliverySource)
    ensures
        source.target_type() is None <==> source is LoggedBefore,
        source.skipped() is Some <==> source is LoggedBefore,
        source.target_type() == Some("telegram_inbound_message"@) || source !is Message,
        source.target_type() == Some("telegram_plan_callback"@) || source !is PlanButton,
        source.target_type() == Some("telegram_plan_prompt"@) || source !is PlanPrompt,
        source.target_type() == Some("telegram_user_echo"@) || source !is MirroredPrompt,
        source.target_type() == Some("telegram_assistant_final"@) || !(source is Reply || source
            is MirroredReply),
        source matches DeliverySource::Logged { role, .. } ==> source.target_type() == Some(
            if role == TranscriptMirrorRole::User {
                "telegram_codex_home_user_echo"@
            } else {
                "telegram_codex_home_assistant_final"@
            },
        ),
        source matches DeliverySource::Message { message_id } ==> source.transport_ref() == Some(
            "message:"@ + text::signed_decimal(message_id as int),
        ),
        source.transport_ref() is Some <==> source is Message || source is PlanButton,
        source.line_no() is Some <==> source is Logged || source is LoggedBefore,
        source matches DeliverySource::Logged { line_no, .. } ==> source.line_no() == Some(line_no),
        source matches DeliverySource::LoggedBefore { line_no } ==> source.line_no() == Some(
            line_no,
        ),
        source.preview_completed() is Some <==> source is Reply || source is MirroredReply,
        source matches DeliverySource::Reply { preview_completed } ==> source.preview_completed()
            == Some(preview_completed),
        source matches DeliverySource::MirroredReply { preview_completed, mirror_inserted }
            ==> source.preview_completed() == Some(preview_completed) && source.mirror_inserted()
            == Some(mirror_inserted),
        source.mirror_inserted() is Some <==> source is MirroredReply,
{
}

/// A place names its chat and its thread, in this order.
pub proof fn law_places_name_chat_and_thread(chat_id: i64, thread_id: i32)
    ensures
        ({
            let place = place_of(chat_id, thread_id);
            let chat = text::signed_decimal(chat_id as int);
            let thread = text::signed_decimal(thread_id as int);
            &&& text::occurs_at(place, chat, 5)
            &&& text::occurs_at(place, thread, place.len() - thread.len())
            &&& place.len() == chat.len() + thread.len() + 13
        }),
{
    reveal_strlit("chat:");
    reveal_strlit("/thread:");
    let place = place_of(chat_id, thread_id);
    let chat = text::signed_decimal(chat_id as int);
    let thread = text::signed_decimal(thread_id as int);
    assert(place.subrange(5, 5 + chat.len() as int) =~= chat);
    assert(place.subrange(place.len() - thread.len(), place.len() as int) =~= thread);
}

/// Whoever carries a delivery out is on record for it: what came in a message, the press of the
/// button, the flow of the thread, the mirroring of a local client, or the reading of a log.
pub proof fn law_records_name_who_delivers(source: DeliverySource)
    ensures
        source.executor() == match source {
            DeliverySource::Message { .. } => "telegram_inbound"@,
            DeliverySource::MirroredPrompt => "telegram_status_sync"@,
            DeliverySource::MirroredReply { .. } => "telegram_status_sync"@,
            _ => source.owner(),
        },
        source is PlanButton ==> source.owner() == "telegram_plan_callback"@,
        source is Reply || source is PlanPrompt ==> source.owner() == "telegram_thread_flow"@,
        source is Logged || source is LoggedBefore ==> source.owner()
            == "codex_home_session_mirror"@,
{
}

} // verus!
