//! The titles of threads, and the question whether a session of the terminal interface is
//! adopted.
use vstd::prelude::*;
use vstd::string::*;

use crate::paths;
use crate::repository::{MetadataModel, SessionBinding, ThreadMetadata};
use crate::telegram_runtime;
use crate::telegram_runtime::callbacks;
use crate::telegram_runtime::callbacks::{Button, ButtonModel, Keyboard};
use crate::telegram_runtime::TelegramSystemIntent;
use crate::text;
use crate::thread_state;
use crate::thread_state::BindingStatus;

verus! {

broadcast use vstd::string::group_string_axioms;

pub const TELEGRAM_TOPIC_TITLE_MAX_CHARS: usize = 128;

/// The name of the directory of a workspace.
pub open spec fn basename_of(workspace: Option<Seq<char>>) -> Option<Seq<char>> {
    match workspace {
        Some(workspace) => text::filled(paths::file_name_of(workspace)),
        None => None,
    }
}

/// A title, cut so that it and the suffix fit.
pub open spec fn fitted(base: Seq<char>, suffix: Seq<char>) -> Seq<char> {
    let limit = TELEGRAM_TOPIC_TITLE_MAX_CHARS as int;
    if suffix.len() >= limit {
        suffix.take(limit)
    } else if base.len() <= limit - suffix.len() {
        base + suffix
    } else {
        let keep = if limit - suffix.len() >= 3 {
            limit - suffix.len() - 3
        } else {
            0
        };
        base.take(keep) + "..."@ + suffix
    }
}

/// The title of a thread before it is cut: its own, or the name of its workspace.
pub open spec fn title_base(metadata: MetadataModel, workspace: Option<Seq<char>>) -> Seq<char> {
    match text::filled(metadata.title) {
        Some(title) => title,
        None => text::or_text(basename_of(workspace), "Unbound"@),
    }
}

/// What stands behind the title.
pub open spec fn title_suffix(broken: bool) -> Seq<char> {
    if broken {
        " · broken"@
    } else {
        Seq::empty()
    }
}

/// The title of a thread.
pub open spec fn topic_title(
    metadata: MetadataModel,
    workspace: Option<Seq<char>>,
    broken: bool,
) -> Seq<char> {
    fitted(title_base(metadata, workspace), title_suffix(broken))
}

/// The name of the directory of a workspace.
pub fn workspace_basename(workspace_path: Option<&str>) -> (res: Option<String>)
    ensures
        text::opt_view(res) == basename_of(text::opt_str_view(workspace_path)),
{
    match workspace_path {
        Some(path) => {
            let name = paths::file_name(path);
            match text::trim_filled(text::as_deref(&name)) {
                Some(name) => Some(name.to_owned()),
                None => None,
            }
        },
        None => None,
    }
}

/// A title, cut so that it and the suffix fit.
pub fn truncate_topic_base(base: &str, suffix: &str) -> (res: String)
    ensures
        res@ == fitted(base@, suffix@),
{
    let limit: usize = TELEGRAM_TOPIC_TITLE_MAX_CHARS;
    let end = text::to_chars(suffix);
    if end.len() >= limit {
        proof {
            assert(end@.subrange(0, limit as int) =~= suffix@.take(limit as int));
        }
        return text::string_between(&end, 0, limit);
    }
    let room: usize = limit - end.len();
    let chars = text::to_chars(base);
    if chars.len() <= room {
        return text::concat2(base, suffix);
    }
    let keep: usize = if room >= 3 {
        room - 3
    } else {
        0
    };
    proof {
        assert(chars@.subrange(0, keep as int) =~= base@.take(keep as int));
    }
    let cut = text::string_between(&chars, 0, keep);
    text::concat3(cut.as_str(), "...", suffix)
}

/// The title of a thread.
pub fn render_topic_title(
    metadata: &ThreadMetadata,
    workspace_path: Option<&str>,
    broken: bool,
) -> (res: String)
    ensures
        res@ == topic_title(metadata@, text::opt_str_view(workspace_path), broken),
{
    let base = match text::trim_filled(text::as_deref(&metadata.title)) {
        Some(title) => title.to_owned(),
        None => match workspace_basename(workspace_path) {
            Some(name) => name,
            None => "Unbound".to_owned(),
        },
    };
    if broken {
        truncate_topic_base(base.as_str(), " · broken")
    } else {
        let none = String::new();
        truncate_topic_base(base.as_str(), none.as_str())
    }
}

/// The title of a thread with its binding.
pub fn title_for_binding(metadata: &ThreadMetadata, session: Option<&SessionBinding>) -> (res: String)
    ensures
        res@ == topic_title(
            metadata@,
            match crate::repository::opt_binding_ref(session) {
                Some(binding) => binding.workspace_cwd,
                None => None,
            },
            thread_state::binding_status_of(crate::repository::opt_binding_ref(session))
                == BindingStatus::Broken,
        ),
{
    let status = thread_state::resolve_binding_status(metadata, session);
    let workspace = match session {
        Some(binding) => text::as_deref(&binding.workspace_cwd),
        None => None,
    };
    render_topic_title(metadata, workspace, status == BindingStatus::Broken)
}

/// What the suffix of a title says.
pub open spec fn suffix_label(broken: bool) -> Seq<char> {
    if broken {
        "broken"@
    } else {
        "none"@
    }
}

/// What is said of the suffix of a title.
pub fn topic_title_suffix_label(broken: bool) -> (res: &'static str)
    ensures
        res@ == suffix_label(broken),
{
    if broken {
        "broken"
    } else {
        "none"
    }
}

/// The question whether a session of the terminal interface is adopted.
pub fn tui_adoption_prompt_text() -> (res: String)
    ensures
        res@ == telegram_runtime::prefixed(
            telegram_runtime::system_marker(TelegramSystemIntent::Question),
            "後續對話是否以 TUI session"@,
        ),
{
    telegram_runtime::format_system_text(
        TelegramSystemIntent::Question,
        "後續對話是否以 TUI session",
    )
}

/// The buttons of the question whether a session of the terminal interface is adopted.
pub fn tui_adoption_prompt_markup(thread_key: &str) -> (res: Keyboard)
    ensures
        res@ == seq![
            seq![
                ButtonModel {
                    label: "繼續 TUI 對話 (默認)"@,
                    data: callbacks::button_data(
                        seq![callbacks::CALLBACK_TUI_ADOPT_ACCEPT@, thread_key@],
                    ),
                },
                ButtonModel {
                    label: "恢復原對話"@,
                    data: callbacks::button_data(
                        seq![callbacks::CALLBACK_TUI_ADOPT_REJECT@, thread_key@],
                    ),
                },
            ],
        ],
{
    let mut row: Vec<Button> = Vec::new();
    row.push(
        Button {
            label: "繼續 TUI 對話 (默認)".to_owned(),
            data: callbacks::data_of_two(callbacks::CALLBACK_TUI_ADOPT_ACCEPT, thread_key),
        },
    );
    row.push(
        Button {
            label: "恢復原對話".to_owned(),
            data: callbacks::data_of_two(callbacks::CALLBACK_TUI_ADOPT_REJECT, thread_key),
        },
    );
    let mut res = Keyboard::new();
    proof {
        assert(callbacks::row_model(row@) =~= seq![row@[0]@, row@[1]@]);
    }
    res.push_row(row);
    res
}

/// Whether a thread is to be asked about a session of the terminal interface: one waits to be
/// adopted, and the question was not asked yet.
pub fn adoption_prompt_is_due(message_thread_id: Option<i32>, session: Option<&SessionBinding>) -> (res:
    bool)
    ensures
        res == (message_thread_id is Some && (session matches Some(binding)
            && binding.tui_session_adoption_pending
            && binding.tui_session_adoption_prompt_message_id is None)),
{
    match session {
        Some(binding) => message_thread_id.is_some() && binding.tui_session_adoption_pending
            && binding.tui_session_adoption_prompt_message_id.is_none(),
        None => false,
    }
}

/// Whether a refused change of a title does not matter: the chat has no topics, or the topic
/// is gone.
pub open spec fn is_harmless(error: Seq<char>) -> bool {
    text::contains(error, "Bad Request: BOT_FORUM_CREATE_FORBIDDEN"@) || text::contains(
        error,
        "Bad Request: message thread not found"@,
    )
}

/// Whether a refused change of a title does not matter.
pub fn is_telegram_topic_management_unavailable_error_text(error_text: &str) -> (res: bool)
    ensures
        res == is_harmless(error_text@),
{
    text::has_text(error_text, "Bad Request: BOT_FORUM_CREATE_FORBIDDEN") || text::has_text(
        error_text,
        "Bad Request: message thread not found",
    )
}

/// A title never exceeds what Telegram takes, and the mark of a broken thread is never cut
/// off.
pub proof fn law_titles_fit(metadata: MetadataModel, workspace: Option<Seq<char>>, broken: bool)
    ensures
        topic_title(metadata, workspace, broken).len() <= TELEGRAM_TOPIC_TITLE_MAX_CHARS,
        broken ==> topic_title(metadata, workspace, broken).skip(
            topic_title(metadata, workspace, broken).len() - title_suffix(true).len(),
        ) == title_suffix(true),
{
    reveal_strlit(" · broken");
    reveal_strlit("...");
    let base = title_base(metadata, workspace);
    let suffix = title_suffix(broken);
    let title = topic_title(metadata, workspace, broken);
    assert(suffix.len() <= 9);
    let n = title.len() - suffix.len();
    if broken {
        assert(title.skip(n) =~= suffix);
    }
}

/// The title of a thread is its own; where it has none it is the name of the directory of its
/// workspace, and where that is not known either the thread is unbound. A title that fits is not
/// cut; one that does not is cut at its end, with three dots in place of the rest.
pub proof fn law_titles_say_what_the_thread_is(
    metadata: MetadataModel,
    workspace: Option<Seq<char>>,
    broken: bool,
)
    ensures
        ({
            let mark = if broken {
                " · broken"@
            } else {
                Seq::empty()
            };
            let base = title_base(metadata, workspace);
            let title = topic_title(metadata, workspace, broken);
            &&& metadata.title is Some && !text::is_blank(metadata.title->0) ==> base
                == text::trimmed(metadata.title->0)
            &&& (metadata.title is None || text::is_blank(metadata.title->0)) && workspace is Some
                && paths::file_name_of(workspace->0) is Some && !text::is_blank(
                paths::file_name_of(workspace->0)->0,
            ) ==> base == text::trimmed(paths::file_name_of(workspace->0)->0)
            &&& (metadata.title is None || text::is_blank(metadata.title->0)) && workspace is None
                ==> base == "Unbound"@
            &&& base.len() + mark.len() <= 128 ==> title == base + mark
            &&& base.len() + mark.len() > 128 ==> title.len() == 128 && title == base.take(
                125 - mark.len(),
            ) + "..."@ + mark
        }),
{
    reveal_strlit(" · broken");
    reveal_strlit("...");
}

/// Only these two refusals do not matter: that the chat has no topics, and that the topic is gone.
pub proof fn law_only_missing_topics_are_harmless(before: Seq<char>, after: Seq<char>)
    ensures
        is_harmless(before + "Bad Request: BOT_FORUM_CREATE_FORBIDDEN"@ + after),
        is_harmless(before + "Bad Request: message thread not found"@ + after),
        is_harmless(before) <==> text::contains(
            before,
            "Bad Request: BOT_FORUM_CREATE_FORBIDDEN"@,
        ) || text::contains(before, "Bad Request: message thread not found"@),
{
    let no_topics = "Bad Request: BOT_FORUM_CREATE_FORBIDDEN"@;
    let gone = "Bad Request: message thread not found"@;
    let at = before.len() as int;
    assert((before + no_topics + after).subrange(at, at + no_topics.len()) =~= no_topics);
    assert(text::occurs_at(before + no_topics + after, no_topics, at));
    assert((before + gone + after).subrange(at, at + gone.len()) =~= gone);
    assert(text::occurs_at(before + gone + after, gone, at));
}

/// A title is marked exactly where the binding of its thread is broken.
pub proof fn law_broken_bindings_are_marked()
    ensures
        suffix_label(true) == "broken"@,
        suffix_label(false) == "none"@,
{
}

} // verus!
