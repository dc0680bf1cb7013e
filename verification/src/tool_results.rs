//! What a session leaves in the outbox of its workspace to be sent.
use vstd::prelude::*;
use vstd::string::*;

use crate::text;

verus! {

broadcast use vstd::string::group_string_axioms;

/// The items to send.
#[derive(Debug, Clone)]
pub struct TelegramOutbox {
    pub items: Vec<TelegramOutboxItem>,
}

/// An item to send.
#[derive(Debug, Clone)]
pub enum TelegramOutboxItem {
    Text { text: String },
    Photo { path: String, caption: Option<String> },
    Document { path: String, caption: Option<String> },
}

/// What is wrong with an outbox.
#[derive(Debug, Clone, Copy, PartialEq, Eq, Structural)]
pub enum OutboxError {
    InvalidText,
    InvalidFile,
}

impl OutboxError {
    /// What is wrong, in words.
    pub fn to_text(&self) -> (res: String)
        ensures
            res@ == match *self {
                OutboxError::InvalidText => "Invalid telegram outbox text item."@,
                OutboxError::InvalidFile => "Invalid telegram outbox file item."@,
            },
    {
        match self {
            OutboxError::InvalidText => "Invalid telegram outbox text item.".to_owned(),
            OutboxError::InvalidFile => "Invalid telegram outbox file item.".to_owned(),
        }
    }
}

/// What is wrong with an item, if anything: a text must say something, and a file must be
/// named.
pub open spec fn item_error(item: TelegramOutboxItem) -> Option<OutboxError> {
    match item {
        TelegramOutboxItem::Text { text } => if text::is_blank(text@) {
            Some(OutboxError::InvalidText)
        } else {
            None
        },
        TelegramOutboxItem::Photo { path, caption } => if text::is_blank(path@) {
            Some(OutboxError::InvalidFile)
        } else {
            None
        },
        TelegramOutboxItem::Document { path, caption } => if text::is_blank(path@) {
            Some(OutboxError::InvalidFile)
        } else {
            None
        },
    }
}

/// What is wrong with the first item with which anything is wrong.
pub open spec fn first_error(items: Seq<TelegramOutboxItem>) -> Option<OutboxError>
    decreases items.len(),
{
    if items.len() == 0 {
        None
    } else if item_error(items[0]) is Some {
        item_error(items[0])
    } else {
        first_error(items.skip(1))
    }
}

/// What is wrong with an item, if anything.
fn check_item(item: &TelegramOutboxItem) -> (res: Option<OutboxError>)
    ensures
        res == item_error(*item),
{
    match item {
        TelegramOutboxItem::Text { text } => {
            if text::trim(text.as_str()).is_empty() {
                Some(OutboxError::InvalidText)
            } else {
                None
            }
        },
        TelegramOutboxItem::Photo { path, .. } => {
            if text::trim(path.as_str()).is_empty() {
                Some(OutboxError::InvalidFile)
            } else {
                None
            }
        },
        TelegramOutboxItem::Document { path, .. } => {
            if text::trim(path.as_str()).is_empty() {
                Some(OutboxError::InvalidFile)
            } else {
                None
            }
        },
    }
}

/// An outbox that was read is accepted as it is, unless something is wrong with an item.
pub fn parse_telegram_outbox(outbox: TelegramOutbox) -> (res: Result<TelegramOutbox, OutboxError>)
    ensures
        res == match first_error(outbox.items@) {
            Some(error) => Err::<TelegramOutbox, OutboxError>(error),
            None => Ok(outbox),
        },
{
    let ghost all = outbox.items@;
    let mut i: usize = 0;
    proof {
        assert(all.skip(0) =~= all);
    }
    while i < outbox.items.len()
        invariant
            i <= outbox.items@.len(),
            all == outbox.items@,
            first_error(all) == first_error(all.skip(i as int)),
        decreases outbox.items@.len() - i,
    {
        proof {
            assert(all.skip(i as int)[0] == all[i as int]);
            assert(all.skip(i as int).skip(1) =~= all.skip(i + 1));
        }
        match check_item(&outbox.items[i]) {
            Some(error) => return Err(error),
            None => {},
        }
        i += 1;
    }
    Ok(outbox)
}

/// An outbox is accepted exactly where every text says something and every file is named.
pub proof fn law_accepted_outbox_is_filled(items: Seq<TelegramOutboxItem>)
    ensures
        first_error(items) is None <==> forall|i: int|
            0 <= i < items.len() ==> item_error(#[trigger] items[i]) is None,
    decreases items.len(),
{
    if items.len() > 0 {
        law_accepted_outbox_is_filled(items.skip(1));
        if first_error(items) is None {
            assert forall|i: int| 0 <= i < items.len() implies item_error(
                #[trigger] items[i],
            ) is None by {
                if i > 0 {
                    assert(items.skip(1)[i - 1] == items[i]);
                }
            }
        }
        if forall|i: int| 0 <= i < items.len() ==> item_error(#[trigger] items[i]) is None {
            assert(item_error(items[0]) is None);
            assert forall|i: int| 0 <= i < items.skip(1).len() implies item_error(
                #[trigger] items.skip(1)[i],
            ) is None by {
                assert(items.skip(1)[i] == items[i + 1]);
            }
        }
    }
}

/// A text is refused where it is blank, and a photo or a document where its path is; a caption is
/// never asked for.
pub proof fn law_items_must_say_something(item: TelegramOutboxItem)
    ensures
        item matches TelegramOutboxItem::Text { text } ==> item_error(item) == if text::is_blank(
            text@,
        ) {
            Some(OutboxError::InvalidText)
        } else {
            None
        },
        item matches TelegramOutboxItem::Photo { path, .. } ==> item_error(item)
            == if text::is_blank(path@) {
            Some(OutboxError::InvalidFile)
        } else {
            None
        },
        item matches TelegramOutboxItem::Document { path, .. } ==> item_error(item)
            == if text::is_blank(path@) {
            Some(OutboxError::InvalidFile)
        } else {
            None
        },
{
}

/// The first item with which something is wrong decides what is said of the outbox.
pub proof fn law_the_first_wrong_item_decides(items: Seq<TelegramOutboxItem>, i: int)
    requires
        0 <= i < items.len(),
        item_error(items[i]) is Some,
        forall|k: int| 0 <= k < i ==> item_error(#[trigger] items[k]) is None,
    ensures
        first_error(items) == item_error(items[i]),
    decreases i,
{
    if i > 0 {
        let rest = items.skip(1);
        assert(item_error(items[0]) is None);
        assert forall|k: int| 0 <= k < i - 1 implies item_error(#[trigger] rest[k]) is None by {
            assert(rest[k] == items[k + 1]);
        }
        law_the_first_wrong_item_decides(rest, i - 1);
    }
}

} // verus!
