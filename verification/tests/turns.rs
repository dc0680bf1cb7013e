use threadbridge::interactive::ToolRequestUserInputQuestion;
use threadbridge::repository::{
    TranscriptMirrorDelivery, TranscriptMirrorEntry, TranscriptMirrorOrigin, TranscriptMirrorRole,
};
use threadbridge::telegram_runtime::deliveries::{
    delivery_claim, delivery_report, ClaimSource, DeliveryClaim, DeliveryKind, DeliverySource,
    PlanQuestion, ProvisionalKey, TurnReply,
};
use threadbridge::telegram_runtime::preview::CodexThreadEvent;
use threadbridge::telegram_runtime::turn_watch::{
    advance_turn_question, begin_turn_question, watch_image_turn, watch_turn, TurnAnswer,
    TurnQuestionError, TurnQuestionEvent, TurnQuestionStage, TurnQuestionStep, WatchAction,
};

fn started(turn_id: Option<&str>) -> CodexThreadEvent {
    CodexThreadEvent::TurnStarted { turn_id: turn_id.map(str::to_owned) }
}

fn entry(text: &str) -> TranscriptMirrorEntry {
    TranscriptMirrorEntry {
        timestamp: "2026-03-22T00:00:00.000Z".to_owned(),
        session_id: "thr_a".to_owned(),
        turn_id: None,
        origin: TranscriptMirrorOrigin::Telegram,
        role: TranscriptMirrorRole::Assistant,
        delivery: TranscriptMirrorDelivery::Process,
        phase: None,
        text: text.to_owned(),
    }
}

fn claim(source: ClaimSource) -> DeliveryClaim {
    delivery_claim(source, "thread-1", "thr_a", "2026-03-22T00:00:00.000Z")
}

fn text_key(text: &str) -> Option<ProvisionalKey> {
    Some(ProvisionalKey::Text {
        text: text.to_owned(),
        occurred_at: "2026-03-22T00:00:00.000Z".to_owned(),
    })
}

fn reply(turn_id: Option<&str>) -> TurnReply {
    TurnReply { turn_id: turn_id.map(str::to_owned), text: "done".to_owned() }
}

fn question(is_secret: bool) -> ToolRequestUserInputQuestion {
    ToolRequestUserInputQuestion {
        id: "q".to_owned(),
        header: "Header".to_owned(),
        question: "Which?".to_owned(),
        is_other: false,
        is_secret,
        options: None,
    }
}

#[test]
fn started_turns_are_recorded_and_promoted() {
    let (turn_id, actions) = watch_turn(None, &started(Some("turn-1")), None);
    assert_eq!(turn_id.as_deref(), Some("turn-1"));
    assert_eq!(actions.len(), 3);
    assert!(matches!(&actions[0], WatchAction::RecordStart { turn_id } if turn_id == "turn-1"));
    assert!(matches!(&actions[1], WatchAction::PromoteEcho { turn_id } if turn_id == "turn-1"));
    assert!(matches!(&actions[2], WatchAction::ShowEvent));
    let (turn_id, actions) = watch_turn(turn_id, &started(None), None);
    assert_eq!(turn_id.as_deref(), Some("turn-1"));
    assert_eq!(actions.len(), 1);
    assert!(matches!(&actions[0], WatchAction::ShowEvent));
}

#[test]
fn entries_of_a_turn_name_it() {
    let (_, actions) = watch_turn(
        Some("turn-1".to_owned()),
        &CodexThreadEvent::TurnCompleted,
        Some(entry("thinking")),
    );
    assert_eq!(actions.len(), 3);
    let (WatchAction::ShowEntry { entry: shown }, WatchAction::AppendEntry { entry: kept }) =
        (&actions[1], &actions[2])
    else {
        panic!("expected the entry");
    };
    let mut expected = entry("thinking");
    expected.turn_id = Some("turn-1".to_owned());
    assert_eq!(shown, &expected);
    assert_eq!(kept, &expected);
    let (turn_id, actions) =
        watch_turn(Some("turn-1".to_owned()), &started(Some("turn-2")), Some(entry("x")));
    assert_eq!(turn_id.as_deref(), Some("turn-2"));
    assert!(matches!(
        &actions[4],
        WatchAction::AppendEntry { entry } if entry.turn_id.as_deref() == Some("turn-2")
    ));
}

#[test]
fn image_turns_are_recorded_and_shown() {
    let actions = watch_image_turn(&started(Some("turn-1")));
    assert_eq!(actions.len(), 2);
    assert!(matches!(&actions[0], WatchAction::RecordStart { turn_id } if turn_id == "turn-1"));
    assert!(matches!(&actions[1], WatchAction::ShowEvent));
    assert_eq!(watch_image_turn(&CodexThreadEvent::ThreadStarted).len(), 1);
}

#[test]
fn secret_questions_of_a_turn_are_declined() {
    let (stage, step) = begin_turn_question(&vec![question(false), question(true)]);
    assert_eq!(stage, TurnQuestionStage::Finished);
    assert!(matches!(step, TurnQuestionStep::Finish { outcome: Ok(TurnAnswer::Declined) }));
}

#[test]
fn questions_of_a_turn_are_answered() {
    let (stage, step) = begin_turn_question(&vec![question(false)]);
    assert!(matches!(step, TurnQuestionStep::Register));
    let (stage, step) = advance_turn_question(stage, TurnQuestionEvent::Done);
    assert!(matches!(step, TurnQuestionStep::ShowPrompt));
    let (stage, step) = advance_turn_question(stage, TurnQuestionEvent::Done);
    assert!(matches!(step, TurnQuestionStep::AwaitAnswer));
    let (_, lost) = advance_turn_question(stage, TurnQuestionEvent::Failed("gone".to_owned()));
    let TurnQuestionStep::Finish { outcome: Err(error) } = lost else {
        panic!("expected an error");
    };
    assert_eq!(error.to_text(), "request_user_input response dropped");
    let (stage, step) = advance_turn_question(stage, TurnQuestionEvent::Done);
    assert!(matches!(step, TurnQuestionStep::Finish { outcome: Ok(TurnAnswer::Answered) }));
    let (_, step) = advance_turn_question(stage, TurnQuestionEvent::Done);
    assert!(matches!(
        step,
        TurnQuestionStep::Finish { outcome: Err(TurnQuestionError::OutOfTurn) }
    ));
    let (_, step) = advance_turn_question(
        TurnQuestionStage::Registering,
        TurnQuestionEvent::Failed("full".to_owned()),
    );
    assert!(matches!(
        step,
        TurnQuestionStep::Finish { outcome: Err(TurnQuestionError::Outside(reason)) }
            if reason == "full"
    ));
}

#[test]
fn replies_are_claimed_by_their_turn() {
    let known = claim(ClaimSource::Reply { reply: reply(Some("turn-1")) });
    assert_eq!(
        known,
        DeliveryClaim {
            thread_key: "thread-1".to_owned(),
            session_id: "thr_a".to_owned(),
            turn_id: Some("turn-1".to_owned()),
            provisional_key: None,
            kind: DeliveryKind::AssistantFinal,
            owner: "telegram_thread_flow".to_owned(),
        }
    );
    let unknown = claim(ClaimSource::MirroredReply { reply: reply(None) });
    assert_eq!(unknown.turn_id, None);
    assert_eq!(unknown.provisional_key, text_key("done"));
    assert_eq!(unknown.owner, "status_sync");
}

#[test]
fn plan_questions_go_by_the_reply() {
    let asked = claim(ClaimSource::PlanPrompt {
        question: PlanQuestion {
            turn_id: Some("turn-1".to_owned()),
            reply: Some("the plan".to_owned()),
        },
    });
    assert_eq!(asked.kind, DeliveryKind::SystemNotice);
    assert_eq!(asked.turn_id.as_deref(), Some("turn-1"));
    assert_eq!(asked.provisional_key, text_key("the plan"));
    let asked = claim(ClaimSource::PlanPrompt {
        question: PlanQuestion { turn_id: None, reply: None },
    });
    assert_eq!(asked.provisional_key, text_key("plan_implementation_prompt"));
    let local = claim(ClaimSource::LocalPlan { reply: None });
    assert_eq!(local.owner, "interaction_bridge");
    assert_eq!(local.provisional_key, text_key("plan_implementation_prompt"));
}

#[test]
fn every_delivery_has_its_claim() {
    let prompt = claim(ClaimSource::Prompt { text: "hello".to_owned() });
    assert_eq!(prompt.kind, DeliveryKind::UserEcho);
    assert_eq!(prompt.provisional_key, text_key("hello"));
    let button = claim(ClaimSource::PlanButton);
    assert_eq!(button.owner, "telegram_plan_callback");
    assert_eq!(button.provisional_key, text_key("Implement the plan."));
    let mirrored = claim(ClaimSource::MirroredPrompt { text: "hello".to_owned() });
    assert_eq!(mirrored.owner, "status_sync");
    let draft = claim(ClaimSource::MirroredDraft { turn_id: "turn-1".to_owned() });
    assert_eq!((draft.kind, draft.provisional_key), (DeliveryKind::PreviewDraft, None));
    let logged = claim(ClaimSource::Logged {
        role: TranscriptMirrorRole::Assistant,
        turn_id: "turn-1".to_owned(),
    });
    assert_eq!(logged.kind, DeliveryKind::AssistantFinal);
    assert_eq!(logged.owner, "codex_home_session_mirror");
    let asked = claim(ClaimSource::Question {
        turn_id: "turn-1".to_owned(),
        request_id: 7,
        item_id: "item".to_owned(),
    });
    assert_eq!(asked.kind, DeliveryKind::RequestUserInputPrompt);
    assert_eq!(
        asked.provisional_key,
        Some(ProvisionalKey::Request { request_id: 7, item_id: "item".to_owned() })
    );
    let approval = claim(ClaimSource::Approval {
        turn_id: "turn-1".to_owned(),
        request_id: 8,
        item_id: "item".to_owned(),
    });
    assert_eq!(approval.kind, DeliveryKind::ApprovalPrompt);
    assert_eq!(approval.owner, "interaction_bridge");
}

#[test]
fn deliveries_are_put_on_record() {
    let reply = delivery_report(DeliverySource::Reply { preview_completed: true }, 42, 7);
    assert_eq!(reply.executor, "telegram_thread_flow");
    assert_eq!(reply.target_type.as_deref(), Some("telegram_assistant_final"));
    assert_eq!(reply.preview_completed, Some(true));
    let mirrored = delivery_report(
        DeliverySource::MirroredReply { preview_completed: false, mirror_inserted: true },
        42,
        7,
    );
    assert_eq!(mirrored.executor, "telegram_status_sync");
    assert_eq!((mirrored.preview_completed, mirrored.mirror_inserted), (Some(false), Some(true)));
    let echo = delivery_report(DeliverySource::MirroredPrompt, 42, 7);
    assert_eq!(echo.target_type.as_deref(), Some("telegram_user_echo"));
    let plan = delivery_report(DeliverySource::PlanPrompt, 42, 7);
    assert_eq!(plan.target_type.as_deref(), Some("telegram_plan_prompt"));
    let button = delivery_report(DeliverySource::PlanButton, 42, 7);
    assert_eq!(button.transport_ref.as_deref(), Some("callback:plan_implement"));
    let logged = delivery_report(
        DeliverySource::Logged { role: TranscriptMirrorRole::User, line_no: 3 },
        42,
        7,
    );
    assert_eq!(logged.target_type.as_deref(), Some("telegram_codex_home_user_echo"));
    assert_eq!(logged.line_no, Some(3));
    let skipped = delivery_report(DeliverySource::LoggedBefore { line_no: 4 }, 42, 7);
    assert_eq!((skipped.target_type, skipped.target_ref), (None, None));
    assert_eq!(skipped.skipped.as_deref(), Some("existing_transcript_mirror"));
    assert_eq!(skipped.line_no, Some(4));
}
