use std::fmt::Debug;

use threadbridge::collaboration_mode::CollaborationMode;
use threadbridge::execution_mode::{ExecutionMode, SessionExecutionSnapshot};
use threadbridge::interactive::{
    InteractivePromptSnapshot, ToolRequestUserInputAnswer, ToolRequestUserInputOption,
    ToolRequestUserInputParams, ToolRequestUserInputQuestion, ToolRequestUserInputResponse,
};
use threadbridge::repository::SessionBinding;
use threadbridge::runtime_interaction::{RuntimeInteractionRequest, TurnCompletionSummary};
use threadbridge::telegram_runtime::callbacks::{
    advance_callback, begin_callback, data_of_three, parse_callback, CallbackAction, CallbackAlert,
    CallbackError, CallbackEvent, CallbackStep, OptionChoice, PlanChoice,
};
use threadbridge::telegram_runtime::final_reply::{
    render_markdown_to_telegram_html, truncate_chars, FinalReplyDelivery, ReplyAction,
    ReplyOutcome, TelegramReplyPlan,
};
use threadbridge::telegram_runtime::interaction_bridge::{
    advance_answer, advance_bridge, advance_resolve, approval_resolved_text, begin_answer,
    begin_approval, begin_plan_question, begin_question, begin_resolve, bridge_report,
    questions_completed_text, questions_resolved_text, AnswerEvent, AnswerOutcome, AnswerStep,
    ApprovalPrompt, BridgeEvent, BridgeKind, BridgeStep, BridgeThread, QuestionPrompt,
    ResolveEvent, ResolveStep,
};
use threadbridge::telegram_runtime::media::{
    advance_outbox, begin_outbox, extract_incoming_image, file_extension_for_image,
    outbox_log, resolve_workspace_file_path, route_outbox_file, IncomingAttachments,
    IncomingDocument, OutboxDelivery, OutboxEvent, OutboxFileKind, OutboxFileRoute, OutboxStep,
    TelegramDeliverySurface, TELEGRAM_BOT_PHOTO_LIMIT_BYTES,
};
use threadbridge::telegram_runtime::restore::{
    advance_restore, begin_restore, render_restore_page, restored_thread_title, ArchivedThread,
    RestorableThread, RestoreAlert, RestoreError, RestoreEvent, RestoreStep,
};
use threadbridge::telegram_runtime::{
    plan_implementation_markup, render_request_user_input_prompt, request_user_input_markup,
    FlowError,
};
use threadbridge::tool_results::TelegramOutboxItem;

fn name<T: Debug>(step: &T) -> String {
    let text = format!("{step:?}");
    text.split(|c: char| !c.is_alphanumeric()).next().unwrap_or("").to_owned()
}

fn binding() -> SessionBinding {
    SessionBinding::fresh(
        Some("/work".to_owned()),
        Some("thr_a".to_owned()),
        SessionExecutionSnapshot::from_mode(ExecutionMode::FullAuto),
    )
}

fn question(is_secret: bool) -> ToolRequestUserInputQuestion {
    ToolRequestUserInputQuestion {
        id: "q1".to_owned(),
        header: "Scope".to_owned(),
        question: "Which one?".to_owned(),
        is_other: true,
        is_secret,
        options: Some(vec![ToolRequestUserInputOption {
            label: "First".to_owned(),
            description: "the first".to_owned(),
        }]),
    }
}

fn request(is_secret: bool) -> RuntimeInteractionRequest {
    RuntimeInteractionRequest {
        thread_key: "key".to_owned(),
        request_id: 3,
        params: ToolRequestUserInputParams {
            thread_id: "thr_a".to_owned(),
            turn_id: "turn-1".to_owned(),
            item_id: "item-1".to_owned(),
            questions: vec![question(is_secret)],
        },
    }
}

fn thread() -> BridgeEvent {
    BridgeEvent::Thread(Some(BridgeThread { chat_id: 42, message_thread_id: Some(7) }))
}

#[test]
fn questions_are_shown_once() {
    let (stage, step) = begin_question(&request(false));
    assert_eq!(name(&step), "FindThread");
    let (stage, step) = advance_bridge(stage, thread());
    assert_eq!(name(&step), "Register");
    let (stage, step) = advance_bridge(stage, BridgeEvent::Done);
    assert!(matches!(
        step,
        BridgeStep::Claim { kind: BridgeKind::Question, session_id } if session_id == "thr_a"
    ));
    let (_, step) = advance_bridge(stage, BridgeEvent::Claimed { claimed: false });
    assert!(matches!(step, BridgeStep::Finish { outcome: Ok(()) }));
}

#[test]
fn secret_questions_are_not_shown() {
    let (_, step) = begin_question(&request(true));
    assert!(matches!(step, BridgeStep::Finish { outcome: Ok(()) }));
}

#[test]
fn approvals_are_noted_and_committed() {
    let (stage, _) = begin_approval("thr_a".to_owned());
    let (stage, step) = advance_bridge(stage, thread());
    assert!(matches!(
        step,
        BridgeStep::Claim { kind: BridgeKind::Approval, session_id } if session_id == "thr_a"
    ));
    let (stage, step) = advance_bridge(stage, BridgeEvent::Claimed { claimed: true });
    assert!(matches!(step, BridgeStep::Send { kind: BridgeKind::Approval }));
    let (stage, step) = advance_bridge(stage, BridgeEvent::Sent { message_id: 9 });
    assert!(matches!(step, BridgeStep::Note { message_id: 9 }));
    let (stage, step) = advance_bridge(stage, BridgeEvent::Done);
    assert!(matches!(step, BridgeStep::Commit { message_id: Some(9) }));
    let (_, step) = advance_bridge(stage, BridgeEvent::Failed("bus".to_owned()));
    assert!(matches!(step, BridgeStep::Finish { outcome: Ok(()) }));
    let report = bridge_report(BridgeKind::Approval, 42, 7, Some(9));
    assert_eq!(report.target_type.as_deref(), Some("telegram_approval_prompt"));
    assert_eq!(report.target_ref.as_deref(), Some("chat:42/thread:7"));
    assert_eq!(report.transport_ref.as_deref(), Some("message:9"));
    assert_eq!(report.executor, "telegram_interaction_bridge");
}

#[test]
fn plan_questions_need_a_plan_and_a_session() {
    let summary = |has_plan| TurnCompletionSummary {
        thread_key: "key".to_owned(),
        collaboration_mode: CollaborationMode::Plan,
        final_text: None,
        has_plan,
    };
    let (_, step) = begin_plan_question(&summary(false));
    assert!(matches!(step, BridgeStep::Finish { outcome: Ok(()) }));
    let (stage, _) = begin_plan_question(&summary(true));
    let (stage, step) = advance_bridge(stage, thread());
    assert_eq!(name(&step), "ReadSession");
    let (_, step) = advance_bridge(stage, BridgeEvent::Session(Some("  ".to_owned())));
    assert!(matches!(step, BridgeStep::Finish { outcome: Ok(()) }));
    let (stage, _) = begin_plan_question(&summary(true));
    let (stage, _) = advance_bridge(stage, thread());
    let (_, step) = advance_bridge(stage, BridgeEvent::Session(Some("thr_b".to_owned())));
    assert!(matches!(
        step,
        BridgeStep::Claim { kind: BridgeKind::Plan, session_id } if session_id == "thr_b"
    ));
}

#[test]
fn resolved_requests_edit_their_prompts() {
    let (stage, step) = begin_resolve(Some(ApprovalPrompt {
        thread_key: "key".to_owned(),
        message_id: 11,
    }));
    assert_eq!(name(&step), "Resolve");
    let (stage, step) = advance_resolve(
        stage,
        ResolveEvent::Question(Some(QuestionPrompt { chat_id: 42, message_id: Some(5) })),
    );
    assert!(matches!(step, ResolveStep::EditQuestion { chat_id: 42, message_id: 5 }));
    let (stage, step) = advance_resolve(stage, ResolveEvent::Failed("old".to_owned()));
    assert_eq!(name(&step), "FindThread");
    let (_, step) = advance_resolve(stage, ResolveEvent::Thread(Some(42)));
    assert!(matches!(step, ResolveStep::EditApproval { chat_id: 42, message_id: 11 }));
    assert_eq!(questions_resolved_text(), "Info: Questions resolved.");
    assert_eq!(approval_resolved_text(), "Info: Approval resolved.");
}

#[test]
fn answered_questions_go_on_or_end() {
    let snapshot = |prompt_message_id| InteractivePromptSnapshot {
        thread_id: "thr_a".to_owned(),
        turn_id: "turn-1".to_owned(),
        item_id: "item-1".to_owned(),
        request_id: 3,
        prompt_message_id,
        awaiting_freeform_text: false,
        question: question(false),
    };
    let (stage, step) = begin_answer(AnswerOutcome::NextQuestion { snapshot: snapshot(None) });
    assert!(matches!(step, AnswerStep::SendPrompt { snapshot: shown } if shown == snapshot(None)));
    let (stage, step) = advance_answer(stage, AnswerEvent::Sent { message_id: 8 });
    assert!(matches!(step, AnswerStep::NotePrompt { message_id: 8 }));
    let (_, step) = advance_answer(stage, AnswerEvent::Done);
    assert!(matches!(step, AnswerStep::Finish { outcome: Ok(()) }));
    let (_, step) = begin_answer(AnswerOutcome::NextQuestion { snapshot: snapshot(Some(6)) });
    assert!(matches!(
        step,
        AnswerStep::EditPrompt { message_id: 6, snapshot: shown } if shown == snapshot(Some(6))
    ));
    assert!(questions_completed_text().starts_with("Info: "));
}

#[test]
fn answers_go_to_who_waits_for_them() {
    let response = || ToolRequestUserInputResponse {
        answers: vec![ToolRequestUserInputAnswer {
            question_id: "q".to_owned(),
            answers: vec!["First".to_owned()],
        }],
    };
    let (stage, step) = begin_answer(AnswerOutcome::CompletedHere {
        prompt_message_id: Some(6),
        response: response(),
    });
    assert!(matches!(step, AnswerStep::Respond { response: given } if given == response()));
    let (_, step) = advance_answer(stage, AnswerEvent::Failed("gone".to_owned()));
    assert!(matches!(step, AnswerStep::EditCompleted { message_id: 6 }));
    let (stage, step) = begin_answer(AnswerOutcome::CompletedLocally {
        thread_key: "key".to_owned(),
        request_id: 3,
        prompt_message_id: None,
        response: response(),
    });
    assert!(matches!(
        step,
        AnswerStep::Submit { thread_key, request_id: 3, response: given }
            if thread_key == "key" && given == response()
    ));
    let (_, step) = advance_answer(stage, AnswerEvent::Failed("gone".to_owned()));
    assert!(matches!(step, AnswerStep::Finish { outcome: Err(FlowError::Outside(_)) }));
}

#[test]
fn buttons_read_back() {
    let markup = request_user_input_markup(3, &question(false)).unwrap();
    let first = &markup.rows[0][0];
    assert_eq!(first.label, "First");
    assert!(matches!(
        parse_callback(&first.data),
        CallbackAction::ChooseOption { request_id: Some(3), choice: OptionChoice::Index(0) }
    ));
    let last = &markup.rows[markup.rows.len() - 1][0];
    assert!(matches!(
        parse_callback(&last.data),
        CallbackAction::ChooseOption { request_id: Some(3), choice: OptionChoice::Other }
    ));
    let plan = plan_implementation_markup();
    assert!(matches!(
        parse_callback(&plan.rows[0][0].data),
        CallbackAction::PlanImplement { choice: PlanChoice::Yes }
    ));
    assert!(matches!(
        parse_callback(&data_of_three("restore_pick", "key", "8")),
        CallbackAction::RestorePick { thread_key, offset: 8 } if thread_key == "key"
    ));
    assert!(matches!(parse_callback("whatever"), CallbackAction::Unknown));
}

#[test]
fn prompts_show_their_question() {
    let text = render_request_user_input_prompt(&InteractivePromptSnapshot {
        thread_id: "thr_a".to_owned(),
        turn_id: "turn-1".to_owned(),
        item_id: "item-1".to_owned(),
        request_id: 3,
        prompt_message_id: None,
        awaiting_freeform_text: false,
        question: ToolRequestUserInputQuestion { is_other: false, ..question(false) },
    });
    assert_eq!(
        text,
        "Question: Scope: Which one?\n- First: the first\n- Other: reply with your own text"
    );
}

#[test]
fn options_that_are_no_number_are_refused() {
    let action = || CallbackAction::ChooseOption {
        request_id: Some(3),
        choice: OptionChoice::Invalid,
    };
    let (stage, step) = begin_callback(action(), true);
    assert_eq!(name(&step), "ReadPrompt");
    let (_, step) = advance_callback(stage, CallbackEvent::Prompt(Some(2)));
    assert!(matches!(
        step,
        CallbackStep::Finish { outcome: Err(CallbackError::InvalidOption) }
    ));
    let (stage, _) = begin_callback(action(), true);
    let (_, step) = advance_callback(stage, CallbackEvent::Prompt(None));
    assert!(matches!(step, CallbackStep::Alert { alert: CallbackAlert::NotPending }));
    let (_, step) = begin_callback(action(), false);
    assert!(matches!(step, CallbackStep::Alert { alert: CallbackAlert::OnlyInThread }));
    let (_, step) = begin_callback(
        CallbackAction::ChooseOption { request_id: None, choice: OptionChoice::Other },
        true,
    );
    assert!(matches!(
        step,
        CallbackStep::Finish { outcome: Err(CallbackError::InvalidRequest) }
    ));
}

#[test]
fn chosen_answers_are_applied() {
    let begin = || {
        let (stage, _) = begin_callback(
            CallbackAction::ChooseOption { request_id: Some(3), choice: OptionChoice::Other },
            true,
        );
        advance_callback(stage, CallbackEvent::Prompt(Some(2)))
    };
    let (stage, step) = begin();
    assert!(matches!(step, CallbackStep::ChooseOption { request_id: 3, index: 2 }));
    let (_, step) = advance_callback(stage, CallbackEvent::Chosen(None));
    assert!(matches!(step, CallbackStep::Alert { alert: CallbackAlert::NotPending }));
    let (stage, _) = begin();
    let outcome = AnswerOutcome::CompletedHere {
        prompt_message_id: Some(6),
        response: ToolRequestUserInputResponse { answers: Vec::new() },
    };
    let (_, step) = advance_callback(stage, CallbackEvent::Chosen(Some(outcome)));
    assert!(matches!(
        step,
        CallbackStep::ApplyAnswer {
            outcome: AnswerOutcome::CompletedHere { prompt_message_id: Some(6), .. }
        }
    ));
}

#[test]
fn adoption_buttons_change_the_session() {
    let (stage, _) = begin_callback(
        CallbackAction::AdoptTui { thread_key: "key".to_owned() },
        true,
    );
    let (_, step) = advance_callback(stage, CallbackEvent::Thread(false));
    assert!(matches!(step, CallbackStep::Alert { alert: CallbackAlert::ThreadNotFound }));
    let (stage, _) = begin_callback(
        CallbackAction::AdoptTui { thread_key: "key".to_owned() },
        true,
    );
    let (mut stage, mut step) = advance_callback(stage, CallbackEvent::Thread(true));
    let mut names = vec![name(&step)];
    for event in [
        CallbackEvent::Done,
        CallbackEvent::Done,
        CallbackEvent::Failed("title".to_owned()),
        CallbackEvent::Done,
    ] {
        (stage, step) = advance_callback(stage, event);
        names.push(name(&step));
    }
    assert_eq!(names, vec!["AdoptTui", "Edit", "RefreshTitle", "Answer", "Finish"]);
    let (stage, _) = begin_callback(
        CallbackAction::RejectTui { thread_key: "key".to_owned() },
        true,
    );
    let (_, step) = advance_callback(stage, CallbackEvent::Thread(true));
    assert!(matches!(step, CallbackStep::RejectTui { thread_key } if thread_key == "key"));
}

#[test]
fn archived_threads_are_listed_in_pages() {
    let archived: Vec<ArchivedThread> = (0..9)
        .map(|n| ArchivedThread {
            thread_key: format!("key-{n}"),
            title: Some(format!("Title {n}")),
            message_thread_id: Some(n),
        })
        .collect();
    let (_, first) = render_restore_page(&archived, 0);
    let (_, second) = render_restore_page(&archived, 8);
    let picks = |page: &threadbridge::telegram_runtime::callbacks::Keyboard| {
        page.rows
            .iter()
            .flatten()
            .filter(|button| button.data.starts_with("restore_pick"))
            .count()
    };
    assert_eq!(picks(&first), 8);
    assert_eq!(picks(&second), 1);
    let (text, none) = render_restore_page(&Vec::new(), 0);
    assert_eq!(none.rows.len(), 0);
    assert!(!text.is_empty());
    assert!(restored_thread_title(None, Some(4)).contains('4'));
    assert!(restored_thread_title(Some("T"), None).starts_with('T'));
}

#[test]
fn only_resumed_threads_are_restored() {
    let found = |is_archived, session| {
        RestoreEvent::Thread(Some(RestorableThread {
            is_archived,
            title: Some("T".to_owned()),
            message_thread_id: Some(4),
            session,
        }))
    };
    let (stage, _) = begin_restore();
    let (_, step) = advance_restore(stage, RestoreEvent::Thread(None));
    assert!(matches!(step, RestoreStep::Alert { alert: RestoreAlert::Missing }));
    let (stage, _) = begin_restore();
    let (_, step) = advance_restore(stage, found(false, None));
    assert!(matches!(step, RestoreStep::Alert { alert: RestoreAlert::AlreadyActive }));
    let (stage, _) = begin_restore();
    let (_, step) = advance_restore(stage, found(true, None));
    assert!(matches!(step, RestoreStep::Alert { alert: RestoreAlert::Unusable { .. } }));
    let (stage, _) = begin_restore();
    let (stage, _) = advance_restore(stage, found(true, Some(binding())));
    let (stage, step) = advance_restore(stage, RestoreEvent::Done);
    assert!(matches!(
        step,
        RestoreStep::Recap { target }
            if target.session_id.as_str() == "thr_a" && target.workspace == "/work"
    ));
    let (stage, step) = advance_restore(stage, RestoreEvent::Refused("gone".to_owned()));
    assert_eq!(name(&step), "MarkBroken");
    let (_, step) = advance_restore(stage, RestoreEvent::Done);
    assert!(matches!(step, RestoreStep::Alert { alert: RestoreAlert::NotResumed }));
    let mut homeless = binding();
    homeless.workspace_cwd = None;
    let (stage, _) = begin_restore();
    let (_, step) = advance_restore(stage, found(true, Some(homeless)));
    let RestoreStep::Finish { outcome: Err(error) } = step else {
        panic!("expected an end");
    };
    assert_eq!(error, RestoreError::MissingWorkspace);
    assert_eq!(error.to_text(), "session binding is missing workspace_cwd");
}

#[test]
fn outbox_is_sent_in_order() {
    let deliveries = vec![
        OutboxDelivery {
            item: TelegramOutboxItem::Text { text: "hi".to_owned() },
            surface: TelegramDeliverySurface::Content,
        },
        OutboxDelivery {
            item: TelegramOutboxItem::Photo { path: "a.png".to_owned(), caption: None },
            surface: TelegramDeliverySurface::Content,
        },
    ];
    let (mut stage, mut step) = begin_outbox(&deliveries);
    let mut names = vec![name(&step)];
    for event in [
        OutboxEvent::Done,
        OutboxEvent::Measured { size_bytes: TELEGRAM_BOT_PHOTO_LIMIT_BYTES + 1 },
        OutboxEvent::Done,
        OutboxEvent::Done,
        OutboxEvent::Done,
        OutboxEvent::Done,
    ] {
        (stage, step) = advance_outbox(&deliveries, stage, event);
        names.push(name(&step));
    }
    assert_eq!(
        names,
        vec![
            "SendText",
            "Measure",
            "SendNotice",
            "SendDocument",
            "RemoveOutbox",
            "Log",
            "Finish",
        ]
    );
    assert!(matches!(step, OutboxStep::Finish { outcome: Ok(()) }));
    assert!(outbox_log(2).contains('2'));
    assert_eq!(
        route_outbox_file(OutboxFileKind::Photo, TELEGRAM_BOT_PHOTO_LIMIT_BYTES),
        OutboxFileRoute::Photo
    );
    assert_eq!(
        route_outbox_file(OutboxFileKind::Document, u64::MAX),
        OutboxFileRoute::TooLarge
    );
    assert_eq!(resolve_workspace_file_path("/work", "a/b.png"), "/work/a/b.png");
}

#[test]
fn images_get_a_lower_case_extension() {
    assert_eq!(file_extension_for_image("image/png", Some("PHOTO.JPeG")), ".jpeg");
    assert_eq!(file_extension_for_image("image/webp", None), ".webp");
    let attachments = |photo: Option<Vec<String>>, document| IncomingAttachments {
        message_id: 12,
        caption: Some("look".to_owned()),
        photo,
        document,
    };
    let photo = extract_incoming_image(&attachments(
        Some(vec!["small".to_owned(), "large".to_owned()]),
        None,
    ))
    .unwrap();
    assert_eq!(photo.file_id, "large");
    assert_eq!(photo.mime_type, "image/jpeg");
    let document = |mime: &str| IncomingDocument {
        file_id: "doc".to_owned(),
        mime_type: Some(mime.to_owned()),
        file_name: Some("x.PNG".to_owned()),
    };
    let image = extract_incoming_image(&attachments(None, Some(document("image/png")))).unwrap();
    assert_eq!(image.file_id, "doc");
    assert!(extract_incoming_image(&attachments(None, Some(document("text/plain")))).is_none());
    assert!(extract_incoming_image(&attachments(None, None)).is_none());
}

#[test]
fn rendered_replies_keep_no_foreign_markup() {
    let html = render_markdown_to_telegram_html("a < b & **c**");
    assert_eq!(html, "a &lt; b &amp; <b>c</b>");
    assert_eq!(truncate_chars("abcdef", 10), "abcdef");
    assert!(truncate_chars("abcdef", 4).chars().count() <= 4);
}

#[test]
fn replies_fall_back_to_plain_text() {
    let (mut delivery, action) = FinalReplyDelivery::begin("**hi**");
    assert!(matches!(action, ReplyAction::SendHtml(html) if html == "■ <b>hi</b>"));
    let action = delivery.advance(ReplyOutcome::Failed);
    assert!(matches!(action, ReplyAction::SendText(text) if text.contains("**hi**")));
    assert!(matches!(delivery.advance(ReplyOutcome::Sent), ReplyAction::Finish));
    let (_, action) = FinalReplyDelivery::begin_planned(
        "x",
        TelegramReplyPlan::MarkdownAttachment {
            notice_text: "long".to_owned(),
            markdown: "x".to_owned(),
        },
    );
    assert!(matches!(action, ReplyAction::SendText(_)));
}
