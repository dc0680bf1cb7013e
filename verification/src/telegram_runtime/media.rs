//! Images and files: what a user sends into a thread, and what a session sends out of it.
use vstd::prelude::*;
use vstd::string::*;

use crate::paths;
use crate::telegram_runtime::TelegramSystemIntent;
use crate::text;
use crate::tool_results::TelegramOutboxItem;

verus! {

broadcast use vstd::string::group_string_axioms;

pub const TELEGRAM_OUTBOX_FILE: &'static str = ".threadbridge/tool_results/telegram_outbox.json";

pub const TELEGRAM_BOT_PHOTO_LIMIT_BYTES: u64 = 10 * 1024 * 1024;

pub const TELEGRAM_BOT_DOCUMENT_LIMIT_BYTES: u64 = 50 * 1024 * 1024;

/// A text in lower case.
pub uninterp spec fn lowercased(s: Seq<char>) -> Seq<char>;

/// `str::to_lowercase` of std: the text with each character mapped to its lower case, as Unicode
/// lays it down. The result is a function of the text alone.
#[verifier::external_body]
fn to_lowercase(s: &str) -> (res: String)
    ensures
        res@ == lowercased(s@),
{
    s.to_lowercase()
}

/// Where the last dot of a name stands.
pub open spec fn last_dot(name: Seq<char>) -> Option<int> {
    text::find_back(name, seq!['.'], name.len() as int)
}

/// What stands behind the last dot of a name, if anything does.
pub open spec fn extension_of(name: Seq<char>) -> Option<Seq<char>> {
    match last_dot(name) {
        Some(at) => if at + 1 < name.len() {
            Some(name.skip(at + 1))
        } else {
            None
        },
        None => None,
    }
}

/// What stands before the last dot of a name.
pub open spec fn stem_of(name: Seq<char>) -> Option<Seq<char>> {
    match last_dot(name) {
        Some(at) => Some(name.take(at)),
        None => None,
    }
}

/// The extension of an image: its own, in lower case, or else one that goes with its type.
pub open spec fn image_extension(mime_type: Seq<char>, extension: Option<Seq<char>>) -> Seq<char> {
    match extension {
        Some(extension) => "."@ + extension,
        None => if mime_type == "image/jpeg"@ {
            ".jpg"@
        } else if mime_type == "image/gif"@ {
            ".gif"@
        } else if mime_type == "image/webp"@ {
            ".webp"@
        } else {
            ".png"@
        },
    }
}

/// The extension of a name, in lower case.
pub open spec fn lower_extension(name: Option<Seq<char>>) -> Option<Seq<char>> {
    match name {
        Some(name) => match extension_of(name) {
            Some(extension) => Some(lowercased(extension)),
            None => None,
        },
        None => None,
    }
}

/// A name cut at its last dot: what stands before it, and what stands behind it.
fn split_name(name: &str) -> (res: Option<(String, String)>)
    ensures
        match res {
            Some(parts) => stem_of(name@) == Some(parts.0@) && last_dot(name@) is Some && 0
                <= last_dot(name@)->0 < name@.len()
                && parts.1@ == name@.skip(last_dot(name@)->0 + 1),
            None => last_dot(name@) is None,
        },
{
    let chars = text::to_chars(name);
    let mut dot: Vec<char> = Vec::new();
    dot.push('.');
    proof {
        assert(dot@ =~= seq!['.']);
    }
    match text::last_position(&chars, &dot) {
        Some(at) => {
            let left = text::string_between(&chars, 0, at);
            let right = text::string_between(&chars, at + 1, chars.len());
            proof {
                assert(left@ =~= name@.take(at as int));
                assert(right@ =~= name@.skip(at + 1));
            }
            Some((left, right))
        },
        None => None,
    }
}

/// The extension of an image, from its own in lower case where it has one.
pub fn extension_for_image(mime_type: &str, extension: Option<&str>) -> (res: String)
    ensures
        res@ == image_extension(mime_type@, text::opt_str_view(extension)),
{
    match extension {
        Some(extension) => text::concat2(".", extension),
        None => {
            if text::same_text(mime_type, "image/jpeg") {
                ".jpg".to_owned()
            } else if text::same_text(mime_type, "image/gif") {
                ".gif".to_owned()
            } else if text::same_text(mime_type, "image/webp") {
                ".webp".to_owned()
            } else {
                ".png".to_owned()
            }
        },
    }
}

/// The extension of an image with a type and maybe a name.
pub fn file_extension_for_image(mime_type: &str, file_name: Option<&str>) -> (res: String)
    ensures
        res@ == image_extension(mime_type@, lower_extension(text::opt_str_view(file_name))),
{
    if let Some(name) = file_name {
        if let Some((_, extension)) = split_name(name) {
            if !extension.as_str().is_empty() {
                let lower = to_lowercase(extension.as_str());
                return extension_for_image(mime_type, Some(lower.as_str()));
            }
        }
    }
    extension_for_image(mime_type, None)
}

/// A document in a message.
#[derive(Debug, Clone)]
pub struct IncomingDocument {
    pub file_id: String,
    pub mime_type: Option<String>,
    pub file_name: Option<String>,
}

/// What a message brings along.
#[derive(Debug, Clone)]
pub struct IncomingAttachments {
    pub message_id: i32,
    pub caption: Option<String>,
    /// The files of a photo, from the smallest to the largest.
    pub photo: Option<Vec<String>>,
    pub document: Option<IncomingDocument>,
}

/// An image that came in a message.
#[derive(Debug)]
pub struct IncomingImage {
    pub caption: Option<String>,
    pub file_id: String,
    pub file_name: String,
    pub mime_type: String,
}

/// An image that came in a message, as a value.
pub struct ImageModel {
    pub caption: Option<Seq<char>>,
    pub file_id: Seq<char>,
    pub file_name: Seq<char>,
    pub mime_type: Seq<char>,
}

impl View for IncomingImage {
    type V = ImageModel;

    open spec fn view(&self) -> ImageModel {
        ImageModel {
            caption: text::opt_view(self.caption),
            file_id: self.file_id@,
            file_name: self.file_name@,
            mime_type: self.mime_type@,
        }
    }
}

/// The image that a document is: one whose type says so.
pub open spec fn document_image(
    caption: Option<Seq<char>>,
    message_id: i32,
    document: IncomingDocument,
) -> Option<ImageModel> {
    match document.mime_type {
        Some(mime_type) => if "image/"@.is_prefix_of(mime_type@) {
            let name = text::opt_view(document.file_name);
            let stem = match name {
                Some(name) => stem_of(name),
                None => None,
            };
            Some(
                ImageModel {
                    caption,
                    file_id: document.file_id@,
                    file_name: text::or_text(
                        stem,
                        "document_"@ + text::signed_decimal(message_id as int),
                    ) + image_extension(mime_type@, lower_extension(name)),
                    mime_type: mime_type@,
                },
            )
        } else {
            None
        },
        None => None,
    }
}

/// The image that came in a message: the largest file of a photo, or else a document that is one.
pub open spec fn image_of(attachments: IncomingAttachments) -> Option<ImageModel> {
    let caption = text::filled(text::opt_view(attachments.caption));
    match attachments.photo {
        Some(files) => if files@.len() > 0 {
            Some(
                ImageModel {
                    caption,
                    file_id: files@.last()@,
                    file_name: "photo_"@ + text::signed_decimal(attachments.message_id as int)
                        + ".jpg"@,
                    mime_type: "image/jpeg"@,
                },
            )
        } else {
            None
        },
        None => match attachments.document {
            Some(document) => document_image(caption, attachments.message_id, document),
            None => None,
        },
    }
}

/// An optional image as a value.
pub open spec fn opt_image(image: Option<IncomingImage>) -> Option<ImageModel> {
    match image {
        Some(image) => Some(image@),
        None => None,
    }
}

/// The image that a document is.
fn extract_document_image(
    caption: Option<String>,
    message_id: i32,
    document: &IncomingDocument,
) -> (res: Option<IncomingImage>)
    ensures
        opt_image(res) == document_image(text::opt_view(caption), message_id, *document),
{
    match &document.mime_type {
        Some(mime_type) => {
            if !text::starts_with(mime_type.as_str(), "image/") {
                return None;
            }
            let extension = file_extension_for_image(
                mime_type.as_str(),
                text::as_deref(&document.file_name),
            );
            let split = match &document.file_name {
                Some(name) => split_name(name.as_str()),
                None => None,
            };
            let stem = match split {
                Some((stem, _)) => stem,
                None => {
                    let id = text::signed_decimal_text(message_id as i64);
                    text::concat2("document_", id.as_str())
                },
            };
            Some(
                IncomingImage {
                    caption,
                    file_id: document.file_id.clone(),
                    file_name: text::concat2(stem.as_str(), extension.as_str()),
                    mime_type: mime_type.clone(),
                },
            )
        },
        None => None,
    }
}

/// The image that came in a message.
pub fn extract_incoming_image(attachments: &IncomingAttachments) -> (res: Option<IncomingImage>)
    ensures
        opt_image(res) == image_of(*attachments),
{
    let caption = match text::trim_filled(text::as_deref(&attachments.caption)) {
        Some(caption) => Some(caption.to_owned()),
        None => None,
    };
    match &attachments.photo {
        Some(files) => {
            if files.len() == 0 {
                return None;
            }
            let id = text::signed_decimal_text(attachments.message_id as i64);
            Some(
                IncomingImage {
                    caption,
                    file_id: files[files.len() - 1].clone(),
                    file_name: text::concat3("photo_", id.as_str(), ".jpg"),
                    mime_type: "image/jpeg".to_owned(),
                },
            )
        },
        None => match &attachments.document {
            Some(document) => extract_document_image(caption, attachments.message_id, document),
            None => None,
        },
    }
}

/// Where an item of the outbox is to be seen.
#[derive(Clone, Copy, Debug, PartialEq, Eq, Structural)]
pub enum TelegramDeliverySurface {
    Content,
    Status,
}

/// An item of the outbox on its way to the thread.
#[derive(Debug)]
pub struct OutboxDelivery {
    pub item: TelegramOutboxItem,
    pub surface: TelegramDeliverySurface,
}

/// What kind of file an item is.
#[derive(Clone, Copy, Debug, PartialEq, Eq, Structural)]
pub enum OutboxFileKind {
    Photo,
    Document,
}

/// How a file is sent.
#[derive(Clone, Copy, Debug, PartialEq, Eq, Structural)]
pub enum OutboxFileRoute {
    Photo,
    Document,
    PhotoAsDocument,
    TooLarge,
}

/// How a file is to be sent, with what is said of it.
#[derive(Debug, Clone, PartialEq, Eq)]
pub enum OutboxFileDispatchPlan {
    SendAsPhoto,
    SendAsDocument { notice: Option<String> },
    Skip { notice: String },
}

/// What is said of a file.
#[derive(Debug, Clone, PartialEq, Eq)]
pub enum OutboxNotice {
    PhotoAsDocument,
    PhotoTooLarge,
    DocumentTooLarge,
    Unreadable { reason: String },
}

impl OutboxNotice {
    /// What is said of the file at `path`.
    pub open spec fn body(self, path: Seq<char>) -> Seq<char> {
        match self {
            OutboxNotice::PhotoAsDocument => "Photo `"@ + path
                + "` exceeded Telegram's bot photo limit; sending it as a document instead."@,
            OutboxNotice::PhotoTooLarge => "Photo `"@ + path
                + "` exceeded Telegram's bot upload limit and was not delivered."@,
            OutboxNotice::DocumentTooLarge => "Document `"@ + path
                + "` exceeded Telegram's bot upload limit and was not delivered."@,
            OutboxNotice::Unreadable { reason } => "Attachment `"@ + path
                + "` is missing or unreadable: "@ + reason@,
        }
    }

    /// What is said of the file at `path`.
    pub fn to_text(&self, path: &str) -> (res: String)
        ensures
            res@ == self.body(path@),
    {
        match self {
            OutboxNotice::PhotoAsDocument => text::concat3(
                "Photo `",
                path,
                "` exceeded Telegram's bot photo limit; sending it as a document instead.",
            ),
            OutboxNotice::PhotoTooLarge => text::concat3(
                "Photo `",
                path,
                "` exceeded Telegram's bot upload limit and was not delivered.",
            ),
            OutboxNotice::DocumentTooLarge => text::concat3(
                "Document `",
                path,
                "` exceeded Telegram's bot upload limit and was not delivered.",
            ),
            OutboxNotice::Unreadable { reason } => text::concat4(
                "Attachment `",
                path,
                "` is missing or unreadable: ",
                reason.as_str(),
            ),
        }
    }
}

/// How a file of a size is sent: a photo within the limit for photos as one, what is within the
/// limit for documents as a document, and what is larger not at all.
pub open spec fn route_of(kind: OutboxFileKind, size_bytes: u64) -> OutboxFileRoute {
    if size_bytes > TELEGRAM_BOT_DOCUMENT_LIMIT_BYTES {
        OutboxFileRoute::TooLarge
    } else if kind == OutboxFileKind::Document {
        OutboxFileRoute::Document
    } else if size_bytes > TELEGRAM_BOT_PHOTO_LIMIT_BYTES {
        OutboxFileRoute::PhotoAsDocument
    } else {
        OutboxFileRoute::Photo
    }
}

/// How a file of a size is sent.
pub fn route_outbox_file(kind: OutboxFileKind, size_bytes: u64) -> (res: OutboxFileRoute)
    ensures
        res == route_of(kind, size_bytes),
{
    if size_bytes > TELEGRAM_BOT_DOCUMENT_LIMIT_BYTES {
        OutboxFileRoute::TooLarge
    } else if kind == OutboxFileKind::Document {
        OutboxFileRoute::Document
    } else if size_bytes > TELEGRAM_BOT_PHOTO_LIMIT_BYTES {
        OutboxFileRoute::PhotoAsDocument
    } else {
        OutboxFileRoute::Photo
    }
}

/// What is said of a file that is too large to be sent.
pub open spec fn too_large(kind: OutboxFileKind) -> OutboxNotice {
    match kind {
        OutboxFileKind::Photo => OutboxNotice::PhotoTooLarge,
        OutboxFileKind::Document => OutboxNotice::DocumentTooLarge,
    }
}

fn too_large_notice(kind: OutboxFileKind) -> (res: OutboxNotice)
    ensures
        res == too_large(kind),
{
    match kind {
        OutboxFileKind::Photo => OutboxNotice::PhotoTooLarge,
        OutboxFileKind::Document => OutboxNotice::DocumentTooLarge,
    }
}

/// How a file of a size is to be sent, with what is said of it.
pub fn plan_outbox_file_dispatch(
    kind: OutboxFileKind,
    size_bytes: u64,
    relative_path: &str,
) -> (res: OutboxFileDispatchPlan)
    ensures
        match route_of(kind, size_bytes) {
            OutboxFileRoute::Photo => res is SendAsPhoto,
            OutboxFileRoute::Document => res matches OutboxFileDispatchPlan::SendAsDocument {
                notice,
            } && notice is None,
            OutboxFileRoute::PhotoAsDocument => res matches OutboxFileDispatchPlan::SendAsDocument {
                notice,
            } && text::opt_view(notice) == Some(
                OutboxNotice::PhotoAsDocument.body(relative_path@),
            ),
            OutboxFileRoute::TooLarge => res matches OutboxFileDispatchPlan::Skip { notice }
                && notice@ == too_large(kind).body(relative_path@),
        },
{
    match route_outbox_file(kind, size_bytes) {
        OutboxFileRoute::Photo => OutboxFileDispatchPlan::SendAsPhoto,
        OutboxFileRoute::Document => OutboxFileDispatchPlan::SendAsDocument { notice: None },
        OutboxFileRoute::PhotoAsDocument => OutboxFileDispatchPlan::SendAsDocument {
            notice: Some(OutboxNotice::PhotoAsDocument.to_text(relative_path)),
        },
        OutboxFileRoute::TooLarge => OutboxFileDispatchPlan::Skip {
            notice: too_large_notice(kind).to_text(relative_path),
        },
    }
}

/// A notice as it is sent: with the surface before it, unless that is the content itself.
pub fn outbox_notice_text(surface: TelegramDeliverySurface, message: &str) -> (res: String)
    ensures
        res@ == match surface {
            TelegramDeliverySurface::Content => message@,
            TelegramDeliverySurface::Status => "[status] "@ + message@,
        },
{
    match surface {
        TelegramDeliverySurface::Content => message.to_owned(),
        TelegramDeliverySurface::Status => text::concat2("[status] ", message),
    }
}

/// What a text of the outbox is sent as.
pub fn outbox_text_intent(surface: TelegramDeliverySurface) -> (res: TelegramSystemIntent)
    ensures
        res == match surface {
            TelegramDeliverySurface::Status => TelegramSystemIntent::Warning,
            TelegramDeliverySurface::Content => TelegramSystemIntent::Info,
        },
{
    match surface {
        TelegramDeliverySurface::Status => TelegramSystemIntent::Warning,
        TelegramDeliverySurface::Content => TelegramSystemIntent::Info,
    }
}

/// Where a file of the outbox lies.
pub fn resolve_workspace_file_path(workspace_path: &str, relative_path: &str) -> (res: String)
    ensures
        res@ == paths::below(workspace_path@, relative_path@),
{
    paths::join(workspace_path, relative_path)
}

/// What is put on record once the outbox is sent.
pub fn outbox_log(count: usize) -> (res: String)
    ensures
        res@ == "Dispatched "@ + text::decimal(count as nat)
            + " Telegram outbox item(s) from workspace runtime."@,
{
    let count = text::decimal_text(count as u64);
    text::concat3("Dispatched ", count.as_str(), " Telegram outbox item(s) from workspace runtime.")
}

/// How far the sending of an outbox has come.
#[derive(Debug, Clone, Copy, PartialEq, Eq, Structural)]
pub enum OutboxStage {
    Measuring { index: usize },
    /// A notice is being sent before the document itself.
    Announcing { index: usize },
    Sending { index: usize },
    Removing,
    Logging,
    Finished,
}

/// What came of a step.
#[derive(Debug)]
pub enum OutboxEvent {
    Done,
    Measured { size_bytes: u64 },
    Unreadable { reason: String },
    Failed { reason: String },
}

/// What is to be done next, with the item of the outbox at `index`.
#[derive(Debug)]
pub enum OutboxStep {
    SendText { index: usize },
    /// Find out how large the file is.
    Measure { index: usize },
    SendPhoto { index: usize },
    SendDocument { index: usize },
    SendNotice { index: usize, notice: OutboxNotice },
    /// Remove the file that holds the outbox.
    RemoveOutbox,
    Log { count: usize },
    Finish { outcome: Result<(), String> },
}

/// The end of the sending.
pub open spec fn outbox_ended(outcome: Result<(), String>) -> (OutboxStage, OutboxStep) {
    (OutboxStage::Finished, OutboxStep::Finish { outcome })
}

/// What kind of file an item is; a text counts as a document.
pub open spec fn kind_of(item: TelegramOutboxItem) -> OutboxFileKind {
    match item {
        TelegramOutboxItem::Photo { path, caption } => OutboxFileKind::Photo,
        _ => OutboxFileKind::Document,
    }
}

/// The first step with the item at `index`, or the step behind the last item.
pub open spec fn outbox_from(deliveries: Seq<OutboxDelivery>, index: int) -> (
    OutboxStage,
    OutboxStep,
) {
    if index < deliveries.len() {
        match deliveries[index].item {
            TelegramOutboxItem::Text { text } => (
                OutboxStage::Sending { index: index as usize },
                OutboxStep::SendText { index: index as usize },
            ),
            _ => (
                OutboxStage::Measuring { index: index as usize },
                OutboxStep::Measure { index: index as usize },
            ),
        }
    } else {
        (OutboxStage::Removing, OutboxStep::RemoveOutbox)
    }
}

/// What follows from the size of the file at `index`.
pub open spec fn outbox_measured(
    deliveries: Seq<OutboxDelivery>,
    index: usize,
    size_bytes: u64,
) -> (OutboxStage, OutboxStep) {
    let kind = kind_of(deliveries[index as int].item);
    match route_of(kind, size_bytes) {
        OutboxFileRoute::Photo => (OutboxStage::Sending { index }, OutboxStep::SendPhoto { index }),
        OutboxFileRoute::Document => (
            OutboxStage::Sending { index },
            OutboxStep::SendDocument { index },
        ),
        OutboxFileRoute::PhotoAsDocument => (
            OutboxStage::Announcing { index },
            OutboxStep::SendNotice { index, notice: OutboxNotice::PhotoAsDocument },
        ),
        OutboxFileRoute::TooLarge => (
            OutboxStage::Sending { index },
            OutboxStep::SendNotice { index, notice: too_large(kind) },
        ),
    }
}

/// What follows from an event.
pub open spec fn outbox_next(
    deliveries: Seq<OutboxDelivery>,
    stage: OutboxStage,
    event: OutboxEvent,
) -> (OutboxStage, OutboxStep) {
    match (stage, event) {
        (OutboxStage::Finished, _) => (stage, OutboxStep::Finish { outcome: Ok(()) }),
        (_, OutboxEvent::Failed { reason }) => outbox_ended(Err(reason)),
        (OutboxStage::Measuring { index }, OutboxEvent::Measured { size_bytes }) => outbox_measured(
            deliveries,
            index,
            size_bytes,
        ),
        (OutboxStage::Measuring { index }, OutboxEvent::Unreadable { reason }) => (
            OutboxStage::Sending { index },
            OutboxStep::SendNotice { index, notice: OutboxNotice::Unreadable { reason } },
        ),
        (OutboxStage::Announcing { index }, _) => (
            OutboxStage::Sending { index },
            OutboxStep::SendDocument { index },
        ),
        (OutboxStage::Removing, _) => if deliveries.len() > 0 {
            (OutboxStage::Logging, OutboxStep::Log { count: deliveries.len() as usize })
        } else {
            outbox_ended(Ok(()))
        },
        (OutboxStage::Logging, _) => outbox_ended(Ok(())),
        (OutboxStage::Sending { index }, _) => outbox_from(deliveries, index + 1),
        (OutboxStage::Measuring { index }, _) => outbox_from(deliveries, index + 1),
    }
}

fn outbox_start(deliveries: &Vec<OutboxDelivery>, index: usize) -> (res: (OutboxStage, OutboxStep))
    ensures
        res == outbox_from(deliveries@, index as int),
{
    if index < deliveries.len() {
        match &deliveries[index].item {
            TelegramOutboxItem::Text { .. } => (
                OutboxStage::Sending { index },
                OutboxStep::SendText { index },
            ),
            _ => (OutboxStage::Measuring { index }, OutboxStep::Measure { index }),
        }
    } else {
        (OutboxStage::Removing, OutboxStep::RemoveOutbox)
    }
}

fn outbox_skip_to_next(deliveries: &Vec<OutboxDelivery>, index: usize) -> (res: (
    OutboxStage,
    OutboxStep,
))
    ensures
        res == outbox_from(deliveries@, index + 1),
{
    if index < deliveries.len() {
        outbox_start(deliveries, index + 1)
    } else {
        (OutboxStage::Removing, OutboxStep::RemoveOutbox)
    }
}

/// The first step of the sending of an outbox.
pub fn begin_outbox(deliveries: &Vec<OutboxDelivery>) -> (res: (OutboxStage, OutboxStep))
    ensures
        res == outbox_from(deliveries@, 0),
{
    outbox_start(deliveries, 0)
}

/// Whether a stage is about an item that the outbox has.
pub open spec fn outbox_stage_fits(deliveries: Seq<OutboxDelivery>, stage: OutboxStage) -> bool {
    match stage {
        OutboxStage::Measuring { index } => index < deliveries.len(),
        OutboxStage::Announcing { index } => index < deliveries.len(),
        OutboxStage::Sending { index } => index < deliveries.len(),
        _ => true,
    }
}

/// The next step of the sending of an outbox.
pub fn advance_outbox(
    deliveries: &Vec<OutboxDelivery>,
    stage: OutboxStage,
    event: OutboxEvent,
) -> (res: (OutboxStage, OutboxStep))
    requires
        outbox_stage_fits(deliveries@, stage),
    ensures
        res == outbox_next(deliveries@, stage, event),
        outbox_stage_fits(deliveries@, res.0),
{
    match (stage, event) {
        (OutboxStage::Finished, _) => (
            OutboxStage::Finished,
            OutboxStep::Finish { outcome: Ok(()) },
        ),
        (_, OutboxEvent::Failed { reason }) => (
            OutboxStage::Finished,
            OutboxStep::Finish { outcome: Err(reason) },
        ),
        (OutboxStage::Measuring { index }, OutboxEvent::Measured { size_bytes }) => {
            let kind = match &deliveries[index].item {
                TelegramOutboxItem::Photo { .. } => OutboxFileKind::Photo,
                _ => OutboxFileKind::Document,
            };
            match route_outbox_file(kind, size_bytes) {
                OutboxFileRoute::Photo => (
                    OutboxStage::Sending { index },
                    OutboxStep::SendPhoto { index },
                ),
                OutboxFileRoute::Document => (
                    OutboxStage::Sending { index },
                    OutboxStep::SendDocument { index },
                ),
                OutboxFileRoute::PhotoAsDocument => (
                    OutboxStage::Announcing { index },
                    OutboxStep::SendNotice { index, notice: OutboxNotice::PhotoAsDocument },
                ),
                OutboxFileRoute::TooLarge => (
                    OutboxStage::Sending { index },
                    OutboxStep::SendNotice { index, notice: too_large_notice(kind) },
                ),
            }
        },
        (OutboxStage::Measuring { index }, OutboxEvent::Unreadable { reason }) => (
            OutboxStage::Sending { index },
            OutboxStep::SendNotice { index, notice: OutboxNotice::Unreadable { reason } },
        ),
        (OutboxStage::Announcing { index }, _) => (
            OutboxStage::Sending { index },
            OutboxStep::SendDocument { index },
        ),
        (OutboxStage::Removing, _) => {
            if deliveries.len() > 0 {
                (OutboxStage::Logging, OutboxStep::Log { count: deliveries.len() })
            } else {
                (OutboxStage::Finished, OutboxStep::Finish { outcome: Ok(()) })
            }
        },
        (OutboxStage::Logging, _) => (
            OutboxStage::Finished,
            OutboxStep::Finish { outcome: Ok(()) },
        ),
        (OutboxStage::Sending { index }, _) => outbox_skip_to_next(deliveries, index),
        (OutboxStage::Measuring { index }, _) => outbox_skip_to_next(deliveries, index),
    }
}

/// How many steps the sending of an outbox can still take.
pub open spec fn outbox_steps_left(deliveries: Seq<OutboxDelivery>, stage: OutboxStage) -> int {
    match stage {
        OutboxStage::Measuring { index } => 3 * (deliveries.len() - index) + 3,
        OutboxStage::Announcing { index } => 3 * (deliveries.len() - index) + 2,
        OutboxStage::Sending { index } => 3 * (deliveries.len() - index) + 1,
        OutboxStage::Removing => 2,
        OutboxStage::Logging => 1,
        OutboxStage::Finished => 0,
    }
}

/// Whatever comes of its steps, the sending of an outbox ends.
pub proof fn law_outbox_ends(
    deliveries: Seq<OutboxDelivery>,
    stage: OutboxStage,
    event: OutboxEvent,
)
    requires
        deliveries.len() <= usize::MAX,
        outbox_stage_fits(deliveries, stage),
    ensures
        outbox_next(deliveries, stage, event).1 is Finish <==> outbox_next(
            deliveries,
            stage,
            event,
        ).0 is Finished,
        stage !is Finished ==> 0 <= outbox_steps_left(
            deliveries,
            outbox_next(deliveries, stage, event).0,
        ) < outbox_steps_left(deliveries, stage),
{
}

/// The item that a stage is about, if any.
pub open spec fn item_at(stage: OutboxStage) -> Option<usize> {
    match stage {
        OutboxStage::Measuring { index } => Some(index),
        OutboxStage::Announcing { index } => Some(index),
        OutboxStage::Sending { index } => Some(index),
        _ => None,
    }
}

/// The items of an outbox are sent in their order, each behind the one before it and none twice,
/// and the outbox is removed only behind the last one.
pub proof fn law_outbox_keeps_its_order(
    deliveries: Seq<OutboxDelivery>,
    stage: OutboxStage,
    event: OutboxEvent,
)
    requires
        deliveries.len() <= usize::MAX,
        outbox_stage_fits(deliveries, stage),
    ensures
        ({
            let next = outbox_next(deliveries, stage, event);
            &&& item_at(next.0) is Some ==> item_at(stage) is Some && (item_at(next.0)
                == item_at(stage) || item_at(next.0)->0 == item_at(stage)->0 + 1)
            &&& next.1 is RemoveOutbox ==> item_at(stage) is Some && item_at(stage)->0 + 1
                == deliveries.len()
        }),
{
}

/// Nothing larger than Telegram takes is sent: a photo is within the limit for photos, and a
/// document within the limit for documents, as far as a file was measured.
pub proof fn law_no_file_is_too_large(
    deliveries: Seq<OutboxDelivery>,
    stage: OutboxStage,
    event: OutboxEvent,
)
    ensures
        outbox_next(deliveries, stage, event).1 is SendPhoto ==> (event matches OutboxEvent::Measured {
            size_bytes,
        } && size_bytes <= TELEGRAM_BOT_PHOTO_LIMIT_BYTES),
        outbox_next(deliveries, stage, event).1 is SendDocument ==> (stage is Announcing || (
        event matches OutboxEvent::Measured { size_bytes } && size_bytes
            <= TELEGRAM_BOT_DOCUMENT_LIMIT_BYTES)),
        outbox_next(deliveries, stage, event).0 is Announcing ==> (
        event matches OutboxEvent::Measured { size_bytes } && size_bytes
            <= TELEGRAM_BOT_DOCUMENT_LIMIT_BYTES),
{
}

/// A photo is sent as one up to ten megabytes, and as a document, behind a notice, above that; a
/// document as a document. Above fifty megabytes neither is sent, and the notice says which it was.
pub proof fn law_files_are_sent_by_their_size(
    deliveries: Seq<OutboxDelivery>,
    index: usize,
    size_bytes: u64,
)
    requires
        index < deliveries.len(),
    ensures
        ({
            let next = outbox_next(
                deliveries,
                OutboxStage::Measuring { index },
                OutboxEvent::Measured { size_bytes },
            );
            let is_photo = deliveries[index as int].item is Photo;
            &&& is_photo && size_bytes <= 10_485_760 ==> next.1 == (OutboxStep::SendPhoto { index })
            &&& is_photo && 10_485_760 < size_bytes <= 52_428_800 ==> next.1 == (
            OutboxStep::SendNotice { index, notice: OutboxNotice::PhotoAsDocument })
                && outbox_next(deliveries, next.0, OutboxEvent::Done).1 == (
            OutboxStep::SendDocument { index })
            &&& !is_photo && size_bytes <= 52_428_800 ==> next.1 == (OutboxStep::SendDocument {
                index,
            })
            &&& is_photo && size_bytes > 52_428_800 ==> next.1 == (OutboxStep::SendNotice {
                index,
                notice: OutboxNotice::PhotoTooLarge,
            })
            &&& !is_photo && size_bytes > 52_428_800 ==> next.1 == (OutboxStep::SendNotice {
                index,
                notice: OutboxNotice::DocumentTooLarge,
            })
        }),
{
}

/// A text is sent at once and a file is measured first; a file that cannot be read is told of, with
/// the reason. Behind the last item the outbox is removed, and what was sent is put on record.
pub proof fn law_every_item_is_sent(
    deliveries: Seq<OutboxDelivery>,
    index: usize,
    reason: String,
)
    requires
        deliveries.len() <= usize::MAX,
    ensures
        index < deliveries.len() && deliveries[index as int].item is Text ==> outbox_from(
            deliveries,
            index as int,
        ).1 == (OutboxStep::SendText { index }),
        index < deliveries.len() && deliveries[index as int].item !is Text ==> outbox_from(
            deliveries,
            index as int,
        ).1 == (OutboxStep::Measure { index }),
        outbox_from(deliveries, deliveries.len() as int).1 is RemoveOutbox,
        outbox_next(
            deliveries,
            OutboxStage::Measuring { index },
            OutboxEvent::Unreadable { reason },
        ).1 == (OutboxStep::SendNotice { index, notice: OutboxNotice::Unreadable { reason } }),
        deliveries.len() > 0 ==> outbox_next(deliveries, OutboxStage::Removing, OutboxEvent::Done).1
            == (OutboxStep::Log { count: deliveries.len() as usize }),
        deliveries.len() == 0 ==> outbox_next(deliveries, OutboxStage::Removing, OutboxEvent::Done).1
            == (OutboxStep::Finish { outcome: Ok(()) }),
        outbox_next(deliveries, OutboxStage::Sending { index }, OutboxEvent::Failed { reason }).1
            == (OutboxStep::Finish { outcome: Err(reason) }),
{
}

/// A notice names the file that it is about.
pub proof fn law_notices_name_their_file(notice: OutboxNotice, path: Seq<char>)
    ensures
        text::contains(notice.body(path), path),
        notice matches OutboxNotice::Unreadable { reason } ==> reason@.is_suffix_of(
            notice.body(path),
        ),
{
    let head = match notice {
        OutboxNotice::PhotoAsDocument => "Photo `"@,
        OutboxNotice::PhotoTooLarge => "Photo `"@,
        OutboxNotice::DocumentTooLarge => "Document `"@,
        OutboxNotice::Unreadable { .. } => "Attachment `"@,
    };
    let at = head.len() as int;
    assert(notice.body(path).subrange(at, at + path.len()) =~= path);
    assert(text::occurs_at(notice.body(path), path, at));
    if let OutboxNotice::Unreadable { reason } = notice {
        let whole = notice.body(path);
        assert(whole.skip(whole.len() - reason@.len()) =~= reason@);
    }
}

/// Of a photo the largest file is taken, whatever else comes along; a document is an image only if
/// its type says so. The caption is kept where it says something, and the file gets an extension
/// that goes with its type.
pub proof fn law_images_are_taken_from_messages(attachments: IncomingAttachments)
    ensures
        ({
            let image = image_of(attachments);
            let has_caption = attachments.caption is Some && !text::is_blank(
                attachments.caption->0@,
            );
            &&& attachments.photo matches Some(files) ==> (image is Some <==> files@.len() > 0) && (
            files@.len() > 0 ==> image->0.file_id == files@[files@.len() - 1]@
                && image->0.mime_type == "image/jpeg"@ && image->0.file_name == "photo_"@
                + text::signed_decimal(attachments.message_id as int) + ".jpg"@)
            &&& attachments.photo is None && attachments.document is None ==> image is None
            &&& attachments.photo is None && attachments.document is Some ==> (image is Some
                <==> attachments.document->0.mime_type is Some && text::occurs_at(
                attachments.document->0.mime_type->0@,
                "image/"@,
                0,
            ))
            &&& attachments.photo is None && image is Some ==> image->0.file_id
                == attachments.document->0.file_id@ && image->0.mime_type
                == attachments.document->0.mime_type->0@
            &&& image is Some ==> image->0.caption == if has_caption {
                Some(text::trimmed(attachments.caption->0@))
            } else {
                None
            }
        }),
{
    let prefix = "image/"@;
    if attachments.document is Some && attachments.document->0.mime_type is Some {
        let mime = attachments.document->0.mime_type->0@;
        if prefix.is_prefix_of(mime) {
            assert(mime.subrange(0, prefix.len() as int) =~= prefix);
        }
        if text::occurs_at(mime, prefix, 0) {
            assert(prefix =~= mime.subrange(0, prefix.len() as int));
            assert(prefix.is_prefix_of(mime));
        }
    }
}

/// The extension of a name is what stands behind its last dot, and its stem what stands before; a
/// name without a dot has neither.
pub proof fn law_names_end_with_their_extension(stem: Seq<char>, extension: Seq<char>)
    requires
        !extension.contains('.'),
    ensures
        extension.len() > 0 ==> extension_of(stem + seq!['.'] + extension) == Some(extension),
        stem_of(stem + seq!['.'] + extension) == Some(stem),
        extension_of(extension) is None,
        stem_of(extension) is None,
        extension_of(stem + seq!['.']) is None,
{
    let dot = seq!['.'];
    let name = stem + dot + extension;
    let at = stem.len() as int;
    text::law_the_last_position_is_found(name, dot, name.len() as int);
    text::law_the_last_position_is_found(extension, dot, extension.len() as int);
    text::law_the_last_position_is_found(stem + dot, dot, (stem + dot).len() as int);
    assert(name.subrange(at, at + 1) =~= dot);
    assert(text::occurs_at(name, dot, at));
    assert forall|i: int| at < i implies !#[trigger] text::occurs_at(name, dot, i) by {
        if text::occurs_at(name, dot, i) {
            assert(name.subrange(i, i + 1)[0] == '.');
            assert(extension[i - at - 1] == '.');
            assert(extension.contains('.'));
        }
    }
    assert forall|i: int| !#[trigger] text::occurs_at(extension, dot, i) by {
        if text::occurs_at(extension, dot, i) {
            assert(extension.subrange(i, i + 1)[0] == '.');
            assert(extension.contains('.'));
        }
    }
    assert((stem + dot).subrange(at, at + 1) =~= dot);
    assert(text::occurs_at(stem + dot, dot, at));
    assert(name.skip(at + 1) =~= extension);
    assert(name.take(at) =~= stem);
}

/// An image keeps its own extension; without one it gets that of its type, and a type that is not
/// known counts as PNG.
pub proof fn law_images_have_the_extension_of_their_type(
    mime_type: Seq<char>,
    extension: Seq<char>,
)
    ensures
        image_extension(mime_type, Some(extension)) == "."@ + extension,
        image_extension("image/jpeg"@, None) == ".jpg"@,
        image_extension("image/gif"@, None) == ".gif"@,
        image_extension("image/webp"@, None) == ".webp"@,
        mime_type != "image/jpeg"@ && mime_type != "image/gif"@ && mime_type != "image/webp"@
            ==> image_extension(mime_type, None) == ".png"@,
{
    reveal_strlit("image/jpeg");
    reveal_strlit("image/gif");
    reveal_strlit("image/webp");
    assert("image/jpeg"@[6] == 'j' && "image/gif"@[6] == 'g' && "image/webp"@[6] == 'w');
}

} // verus!
