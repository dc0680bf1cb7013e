use threadbridge::telegram_runtime::media::{
    OutboxFileDispatchPlan, OutboxFileKind, TELEGRAM_BOT_DOCUMENT_LIMIT_BYTES,
    TELEGRAM_BOT_PHOTO_LIMIT_BYTES, plan_outbox_file_dispatch,
};

#[test]
fn photo_over_limit_falls_back_to_document() {
    let plan = plan_outbox_file_dispatch(
        OutboxFileKind::Photo,
        TELEGRAM_BOT_PHOTO_LIMIT_BYTES + 1,
        "images/generated/test.png",
    );
    assert!(matches!(
        plan,
        OutboxFileDispatchPlan::SendAsDocument { notice: Some(_) }
    ));
}

#[test]
fn oversized_document_is_skipped_with_notice() {
    let plan = plan_outbox_file_dispatch(
        OutboxFileKind::Document,
        TELEGRAM_BOT_DOCUMENT_LIMIT_BYTES + 1,
        "artifacts/report.zip",
    );
    assert!(matches!(plan, OutboxFileDispatchPlan::Skip { .. }));
}
