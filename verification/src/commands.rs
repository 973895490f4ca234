//! The chat commands of the bot and the dialog that registers a player.
//!
//! Every function here is a decision: it takes what the chat session
//! delivered as plain values and says what has to be shown or sent. The
//! caller talks to the chat service and to the server process.
use vstd::prelude::*;
use vstd::string::*;

use crate::language::Language;
use crate::text::same_text;

verus! {

/// The text for `lang` out of an English and a Japanese one.
pub open spec fn pick_text(lang: Language, english: Seq<char>, japanese: Seq<char>) -> Seq<char> {
    match lang {
        Language::English => english,
        Language::Japanese => japanese,
    }
}

/// Chooses between an English and a Japanese text.
pub fn pick(lang: Language, english: &'static str, japanese: &'static str) -> (r: &'static str)
    ensures
        r@ == pick_text(lang, english@, japanese@),
{
    match lang {
        Language::English => english,
        Language::Japanese => japanese,
    }
}

/// A slash command as it is announced to the chat service.
#[derive(Debug, Clone)]
pub struct CommandSpec {
    pub name: String,
    pub description: String,
}

/// Describes a slash command by its name and its description.
pub fn register(name: &str, description: &str) -> (r: CommandSpec)
    ensures
        r.name@ == name@,
        r.description@ == description@,
{
    CommandSpec { name: String::from_str(name), description: String::from_str(description) }
}

/// Description of the `server` command.
pub open spec fn server_description(lang: Language) -> Seq<char> {
    pick_text(
        lang,
        "Register to the Minecraft server allowlist"@,
        "Minecraftサーバーのallowlistに登録する"@,
    )
}

/// Description of the `restart` command.
pub open spec fn restart_description(lang: Language) -> Seq<char> {
    pick_text(lang, "Restart the Minecraft server"@, "Minecraftサーバーを再起動する"@)
}

/// The commands that the bot announces once its session is ready:
/// `server`, then `restart`, each described in the display language.
pub fn command_catalog(lang: Language) -> (r: Vec<CommandSpec>)
    ensures
        r@.len() == 2,
        r@[0].name@ == "server"@,
        r@[0].description@ == server_description(lang),
        r@[1].name@ == "restart"@,
        r@[1].description@ == restart_description(lang),
{
    let mut r: Vec<CommandSpec> = Vec::new();
    r.push(
        register(
            "server",
            pick(
                lang,
                "Register to the Minecraft server allowlist",
                "Minecraftサーバーのallowlistに登録する",
            ),
        ),
    );
    r.push(
        register(
            "restart",
            pick(lang, "Restart the Minecraft server", "Minecraftサーバーを再起動する"),
        ),
    );
    r
}

/// The dialog that asks a player for a game identifier. It has one short,
/// required text field.
#[derive(Debug, Clone)]
pub struct ModalForm {
    pub custom_id: String,
    pub title: String,
    pub field_id: String,
    pub label: String,
    pub placeholder: String,
}

/// A message sent in answer to an interaction; an ephemeral one is shown to
/// the person who triggered it only.
#[derive(Debug, Clone)]
pub struct Reply {
    pub content: String,
    pub ephemeral: bool,
}

/// What a slash command leads to.
#[derive(Debug, Clone)]
pub enum CommandAction {
    /// Open the registration dialog.
    ShowModal(ModalForm),
    /// Announce the restart with this reply, then restart the server off
    /// the event path.
    Restart(Reply),
    /// Not a command of this bot.
    Ignore,
}

/// Title of the registration dialog.
pub open spec fn modal_title(lang: Language) -> Seq<char> {
    pick_text(lang, "Server Registration"@, "サーバー登録"@)
}

/// Label of the dialog's text field.
pub open spec fn modal_label(lang: Language) -> Seq<char> {
    pick_text(lang, "Game ID"@, "ゲームID"@)
}

/// Placeholder of the dialog's text field.
pub open spec fn modal_placeholder(lang: Language) -> Seq<char> {
    pick_text(lang, "Enter your Game ID"@, "ゲームIDを入力してください"@)
}

/// Text that announces a restart.
pub open spec fn restart_notice(lang: Language) -> Seq<char> {
    pick_text(lang, "🔄 Restarting server..."@, "🔄 サーバーを再起動しています..."@)
}

impl ModalForm {
    /// Whether this is the registration dialog in the language `lang`.
    pub open spec fn is_registration(&self, lang: Language) -> bool {
        &&& self.custom_id@ == "server_modal"@
        &&& self.title@ == modal_title(lang)
        &&& self.field_id@ == "game_id"@
        &&& self.label@ == modal_label(lang)
        &&& self.placeholder@ == modal_placeholder(lang)
    }
}

/// Decides what the slash command `name` leads to: `server` opens the
/// registration dialog, `restart` announces and requests a restart, any
/// other name is ignored.
pub fn handle_command(name: &str, lang: Language) -> (r: CommandAction)
    ensures
        name@ == "server"@ ==> (r matches CommandAction::ShowModal(form) && form.is_registration(
            lang,
        )),
        name@ == "restart"@ ==> (r matches CommandAction::Restart(reply) && reply.content@
            == restart_notice(lang) && !reply.ephemeral),
        name@ != "server"@ && name@ != "restart"@ ==> r is Ignore,
{
    proof {
        reveal_strlit("server");
        reveal_strlit("restart");
        assert("server"@.len() != "restart"@.len());
    }
    if same_text(name, "server") {
        CommandAction::ShowModal(
            ModalForm {
                custom_id: String::from_str("server_modal"),
                title: String::from_str(pick(lang, "Server Registration", "サーバー登録")),
                field_id: String::from_str("game_id"),
                label: String::from_str(pick(lang, "Game ID", "ゲームID")),
                placeholder: String::from_str(
                    pick(lang, "Enter your Game ID", "ゲームIDを入力してください"),
                ),
            },
        )
    } else if same_text(name, "restart") {
        CommandAction::Restart(
            Reply {
                content: String::from_str(
                    pick(lang, "🔄 Restarting server...", "🔄 サーバーを再起動しています..."),
                ),
                ephemeral: false,
            },
        )
    } else {
        CommandAction::Ignore
    }
}

/// Whether a submitted dialog with this identifier is the registration dialog.
pub fn is_registration_modal(custom_id: &str) -> (r: bool)
    ensures
        r == (custom_id@ == "server_modal"@),
{
    same_text(custom_id, "server_modal")
}

/// The console line that puts `game_id` on the server's allowlist. The
/// identifier is quoted and otherwise passed on as it is.
pub open spec fn allowlist_command(game_id: Seq<char>) -> Seq<char> {
    "allowlist add \""@ + game_id + "\""@
}

/// Text that asks for a game identifier after an empty submission.
pub open spec fn missing_id_text(lang: Language) -> Seq<char> {
    pick_text(lang, "❌ Please enter a Game ID."@, "❌ ゲームIDを入力してください。"@)
}

/// Text that confirms the registration of `game_id`.
pub open spec fn added_text(lang: Language, game_id: Seq<char>) -> Seq<char> {
    match lang {
        Language::English => "✅ `"@ + game_id + "` has been added to the whitelist!"@,
        Language::Japanese => "✅ `"@ + game_id + "` をホワイトリストに追加しました！"@,
    }
}

/// Text that reports that the console line did not reach the server.
pub open spec fn send_failed_text(lang: Language) -> Seq<char> {
    pick_text(
        lang,
        "❌ Failed to send command to server."@,
        "❌ サーバーへのコマンド送信に失敗しました。"@,
    )
}

/// What a submitted registration dialog leads to.
#[derive(Debug, Clone)]
pub enum ModalAction {
    /// Nothing is sent to the server; answer with this reply.
    Reject(Reply),
    /// Send this line to the server's console, then answer with
    /// [`modal_reply`] according to the outcome.
    Send { command: String },
}

/// Decides what a submitted registration dialog leads to. `game_id` is the
/// value of the dialog's first text field, if it has one. An empty or absent
/// identifier is rejected; any other is put into an allowlist command.
pub fn handle_modal(game_id: Option<&str>, lang: Language) -> (r: ModalAction)
    ensures
        match game_id {
            Some(id) if id@.len() > 0 => r matches ModalAction::Send { command } && command@
                == allowlist_command(id@),
            _ => r matches ModalAction::Reject(reply) && reply.content@ == missing_id_text(lang)
                && reply.ephemeral,
        },
{
    let id = match game_id {
        Some(id) => id,
        None => "",
    };
    proof {
        reveal_strlit("");
    }
    if id.is_empty() {
        ModalAction::Reject(
            Reply {
                content: String::from_str(
                    pick(lang, "❌ Please enter a Game ID.", "❌ ゲームIDを入力してください。"),
                ),
                ephemeral: true,
            },
        )
    } else {
        let mut command = String::from_str("allowlist add \"");
        command.append(id);
        command.append("\"");
        ModalAction::Send { command }
    }
}

/// The reply that ends a registration: a confirmation that names the
/// identifier when the console line was sent, a failure notice when it was
/// not. Either is shown to the submitter only.
pub fn modal_reply(game_id: &str, lang: Language, sent: bool) -> (r: Reply)
    ensures
        r.ephemeral,
        r.content@ == if sent {
            added_text(lang, game_id@)
        } else {
            send_failed_text(lang)
        },
{
    if sent {
        let mut content = String::from_str("✅ `");
        content.append(game_id);
        content.append(
            match lang {
                Language::English => "` has been added to the whitelist!",
                Language::Japanese => "` をホワイトリストに追加しました！",
            },
        );
        Reply { content, ephemeral: true }
    } else {
        Reply {
            content: String::from_str(
                pick(
                    lang,
                    "❌ Failed to send command to server.",
                    "❌ サーバーへのコマンド送信に失敗しました。",
                ),
            ),
            ephemeral: true,
        }
    }
}

} // verus!
