use bedrock_bot::commands::command_catalog;
use bedrock_bot::commands::handle_command;
use bedrock_bot::commands::handle_modal;
use bedrock_bot::commands::is_registration_modal;
use bedrock_bot::commands::modal_reply;
use bedrock_bot::commands::pick;
use bedrock_bot::commands::register;
use bedrock_bot::commands::CommandAction;
use bedrock_bot::commands::ModalAction;
use bedrock_bot::language::Language;
use bedrock_bot::server_controller::ServerController;

#[test]
fn register_keeps_name_and_description() {
    let spec = register("server", "desc");
    assert_eq!(spec.name, "server");
    assert_eq!(spec.description, "desc");
}

#[test]
fn pick_chooses_by_language() {
    assert_eq!(pick(Language::English, "a", "b"), "a");
    assert_eq!(pick(Language::Japanese, "a", "b"), "b");
}

#[test]
fn catalog_announces_server_and_restart() {
    let en = command_catalog(Language::English);
    assert_eq!(en.len(), 2);
    assert_eq!(en[0].name, "server");
    assert_eq!(en[0].description, "Register to the Minecraft server allowlist");
    assert_eq!(en[1].name, "restart");
    assert_eq!(en[1].description, "Restart the Minecraft server");
    let jp = command_catalog(Language::Japanese);
    assert_eq!(jp[0].name, "server");
    assert_eq!(jp[0].description, "Minecraftサーバーのallowlistに登録する");
    assert_eq!(jp[1].name, "restart");
    assert_eq!(jp[1].description, "Minecraftサーバーを再起動する");
}

#[test]
fn server_command_opens_the_registration_dialog() {
    match handle_command("server", Language::English) {
        CommandAction::ShowModal(form) => {
            assert_eq!(form.custom_id, "server_modal");
            assert_eq!(form.title, "Server Registration");
            assert_eq!(form.field_id, "game_id");
            assert_eq!(form.label, "Game ID");
            assert_eq!(form.placeholder, "Enter your Game ID");
        }
        other => panic!("unexpected action {:?}", other),
    }
    match handle_command("server", Language::Japanese) {
        CommandAction::ShowModal(form) => {
            assert_eq!(form.custom_id, "server_modal");
            assert_eq!(form.title, "サーバー登録");
            assert_eq!(form.field_id, "game_id");
            assert_eq!(form.label, "ゲームID");
            assert_eq!(form.placeholder, "ゲームIDを入力してください");
        }
        other => panic!("unexpected action {:?}", other),
    }
}

#[test]
fn restart_command_announces_the_restart_to_everybody() {
    match handle_command("restart", Language::English) {
        CommandAction::Restart(reply) => {
            assert_eq!(reply.content, "🔄 Restarting server...");
            assert!(!reply.ephemeral);
        }
        other => panic!("unexpected action {:?}", other),
    }
    match handle_command("restart", Language::Japanese) {
        CommandAction::Restart(reply) => {
            assert_eq!(reply.content, "🔄 サーバーを再起動しています...");
            assert!(!reply.ephemeral);
        }
        other => panic!("unexpected action {:?}", other),
    }
}

#[test]
fn other_commands_are_ignored() {
    assert!(matches!(handle_command("stop", Language::English), CommandAction::Ignore));
    assert!(matches!(handle_command("", Language::English), CommandAction::Ignore));
    assert!(matches!(handle_command("Server", Language::Japanese), CommandAction::Ignore));
    assert!(matches!(handle_command("restart ", Language::Japanese), CommandAction::Ignore));
}

#[test]
fn only_the_registration_dialog_is_accepted() {
    assert!(is_registration_modal("server_modal"));
    assert!(!is_registration_modal("server"));
    assert!(!is_registration_modal(""));
}

#[test]
fn empty_submission_is_rejected() {
    match handle_modal(Some(""), Language::English) {
        ModalAction::Reject(reply) => {
            assert_eq!(reply.content, "❌ Please enter a Game ID.");
            assert!(reply.ephemeral);
        }
        other => panic!("unexpected action {:?}", other),
    }
    match handle_modal(None, Language::Japanese) {
        ModalAction::Reject(reply) => {
            assert_eq!(reply.content, "❌ ゲームIDを入力してください。");
            assert!(reply.ephemeral);
        }
        other => panic!("unexpected action {:?}", other),
    }
}

#[test]
fn submission_becomes_an_allowlist_command() {
    match handle_modal(Some("Steve"), Language::English) {
        ModalAction::Send { command } => assert_eq!(command, "allowlist add \"Steve\""),
        other => panic!("unexpected action {:?}", other),
    }
    match handle_modal(Some("Alex 2"), Language::Japanese) {
        ModalAction::Send { command } => assert_eq!(command, "allowlist add \"Alex 2\""),
        other => panic!("unexpected action {:?}", other),
    }
    match handle_modal(Some(" "), Language::Japanese) {
        ModalAction::Send { command } => assert_eq!(command, "allowlist add \" \""),
        other => panic!("unexpected action {:?}", other),
    }
}

#[test]
fn reply_names_the_identifier_after_success() {
    let reply = modal_reply("Steve", Language::English, true);
    assert_eq!(reply.content, "✅ `Steve` has been added to the whitelist!");
    assert!(reply.ephemeral);
    let reply = modal_reply("Steve", Language::Japanese, true);
    assert_eq!(reply.content, "✅ `Steve` をホワイトリストに追加しました！");
    assert!(reply.ephemeral);
}

#[test]
fn reply_reports_a_failed_send() {
    let reply = modal_reply("Steve", Language::English, false);
    assert_eq!(reply.content, "❌ Failed to send command to server.");
    assert!(reply.ephemeral);
    let reply = modal_reply("Steve", Language::Japanese, false);
    assert_eq!(reply.content, "❌ サーバーへのコマンド送信に失敗しました。");
    assert!(reply.ephemeral);
}

#[test]
fn registration_reaches_the_console_of_a_running_server_only() {
    let command = match handle_modal(Some("Steve"), Language::English) {
        ModalAction::Send { command } => command,
        other => panic!("unexpected action {:?}", other),
    };
    let mut controller = ServerController::new("../".to_string());
    let sent = controller.send_command(&command).is_ok();
    assert_eq!(
        modal_reply("Steve", Language::English, sent).content,
        "❌ Failed to send command to server."
    );
    controller.spawn_finished(true).unwrap();
    assert_eq!(controller.send_command(&command), Ok("allowlist add \"Steve\"\n".to_string()));
}
