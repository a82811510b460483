//! What the caller is shown: the texts, the keyboards, and the outcome that
//! every action attempt ends in.

use vstd::prelude::*;
use vstd::string::StringExecFns;

verus! {

/// One of the five buttons a caller can press.
#[derive(Clone, Copy, Debug, PartialEq, Eq, Structural)]
pub enum ActionToken {
    /// Wake the server.
    Wol,
    /// Ask before shutting the server down.
    ShutdownConfirm,
    /// Yes, shut it down.
    ShutdownYes,
    /// Probe the server.
    Status,
    /// Drop what is pending.
    Cancel,
}

/// The token of the wake button.
pub const TOKEN_WOL: &'static str = "wol";

/// The token of the shut-down button, which opens the prompt.
pub const TOKEN_SHUTDOWN_CONFIRM: &'static str = "shutdown_confirm";

/// The token of the confirming button of the prompt.
pub const TOKEN_SHUTDOWN_YES: &'static str = "shutdown_yes";

/// The token of the status button.
pub const TOKEN_STATUS: &'static str = "status";

/// The token of the cancelling button of the prompt.
pub const TOKEN_CANCEL: &'static str = "cancel";

/// Shown with the main menu.
pub const TEXT_MAIN_MENU: &'static str = "🚀 Серверный менеджер\n\nВыберите действие:";

/// Shown to a caller who acted again inside the cooldown.
pub const TEXT_PLEASE_WAIT: &'static str = "⏳ Пожалуйста, подождите перед повторным нажатием";

/// Shown for a token that is no command.
pub const TEXT_UNKNOWN: &'static str =
    "❌ Неизвестная команда. Используйте /start для возврата в главное меню.";

/// Shown with the confirm-or-cancel prompt.
pub const TEXT_CONFIRM: &'static str = "⚠️ Подтверждение\n\nВы уверены, что хотите выключить сервер?";

/// Shown after a cancel.
pub const TEXT_CANCELLED: &'static str = "❌ Операция отменена";

/// Shown while the wake command is on its way.
pub const TEXT_WAKE_STARTED: &'static str = "⏳ Отправляю команду на включение...";

/// Shown when the wake command was sent.
pub const TEXT_WAKE_SENT: &'static str =
    "🔌 Magic packet отправлен!\n\nСервер должен запуститься в течение 30 секунд.";

/// Shown when the wake command could not be sent.
pub const TEXT_WAKE_FAILED: &'static str =
    "❌ Не удалось отправить команду включения.\nПроверьте настройки сети.";

/// Shown while the shutdown command is on its way.
pub const TEXT_SHUTDOWN_STARTED: &'static str = "⏳ Отправляю команду на выключение...";

/// Shown when the shutdown command was sent.
pub const TEXT_SHUTDOWN_SENT: &'static str = "🔴 Команда выключения отправлена!";

/// Shown when the shutdown command could not be sent.
pub const TEXT_SHUTDOWN_FAILED: &'static str =
    "❌ Не удалось отправить команду выключения.\nПроверьте настройки SSH.";

/// Shown while the server is probed.
pub const TEXT_STATUS_STARTED: &'static str = "⏳ Проверяю статус сервера...";

/// Shown when the probe ran out of time.
pub const TEXT_STATUS_TIMEOUT: &'static str = "⏱️ Таймаут проверки статуса!";

/// The head of the online report; the detail follows it.
pub const TEXT_ONLINE_PREFIX: &'static str = "🟢 Сервер онлайн\n\n";

/// The online report when no detail could be had.
pub const TEXT_ONLINE_NO_DETAIL: &'static str = "🟢 Сервер онлайн\n\nSSH-туннель активен.";

/// The offline report.
pub const TEXT_OFFLINE: &'static str = "🔴 Сервер оффлайн\n\nSSH-туннель не отвечает.";

/// Shown when carrying out a decision broke off.
pub const TEXT_HANDLER_FAILED: &'static str =
    "❌ Произошла ошибка при выполнении команды.\nПопробуйте позже или обратитесь к администратору.";

/// The label of the wake button.
pub const LABEL_WOL: &'static str = "🔌 Включить";

/// The label of the shut-down button.
pub const LABEL_SHUTDOWN: &'static str = "🔴 Выключить";

/// The label of the status button.
pub const LABEL_STATUS: &'static str = "🟢 Статус";

/// The label of the confirming button.
pub const LABEL_CONFIRM_YES: &'static str = "✅ Да, выключить";

/// The label of the cancelling button.
pub const LABEL_CONFIRM_NO: &'static str = "❌ Отмена";

/// The text that a token travels as.
pub open spec fn token_text(t: ActionToken) -> Seq<char> {
    match t {
        ActionToken::Wol => TOKEN_WOL@,
        ActionToken::ShutdownConfirm => TOKEN_SHUTDOWN_CONFIRM@,
        ActionToken::ShutdownYes => TOKEN_SHUTDOWN_YES@,
        ActionToken::Status => TOKEN_STATUS@,
        ActionToken::Cancel => TOKEN_CANCEL@,
    }
}

impl ActionToken {
    /// The text that this token travels as.
    pub fn as_str(&self) -> (r: &'static str)
        ensures
            r@ == token_text(*self),
    {
        match self {
            ActionToken::Wol => TOKEN_WOL,
            ActionToken::ShutdownConfirm => TOKEN_SHUTDOWN_CONFIRM,
            ActionToken::ShutdownYes => TOKEN_SHUTDOWN_YES,
            ActionToken::Status => TOKEN_STATUS,
            ActionToken::Cancel => TOKEN_CANCEL,
        }
    }
}

/// How an attempt ended.
#[derive(Clone, Copy, Debug, PartialEq, Eq, Structural)]
pub enum Verdict {
    /// The attempt did what was asked, or there was nothing to do.
    Success,
    /// The attempt was turned away or went wrong.
    Failed,
    /// The attempt ran out of time; this is not counted as a failure.
    TimedOut,
}

/// Which keyboard the shown message carries afterwards.
#[derive(Clone, Copy, Debug, PartialEq, Eq, Structural)]
pub enum Affordance {
    /// The message keeps the keyboard it has.
    Unchanged,
    /// The main menu.
    MainMenu,
    /// The confirm-or-cancel prompt.
    Confirm,
}

/// The result of one action attempt, ready to be shown.
#[derive(Debug)]
pub struct Outcome {
    pub verdict: Verdict,
    pub text: String,
    pub affordance: Affordance,
}

/// An outcome as plain values.
pub struct OutcomeView {
    pub verdict: Verdict,
    pub text: Seq<char>,
    pub affordance: Affordance,
}

impl View for Outcome {
    type V = OutcomeView;

    open spec fn view(&self) -> OutcomeView {
        OutcomeView { verdict: self.verdict, text: self.text@, affordance: self.affordance }
    }
}

/// Builds an outcome from its three parts.
pub fn outcome(verdict: Verdict, text: &str, affordance: Affordance) -> (r: Outcome)
    ensures
        r@ == (OutcomeView { verdict, text: text@, affordance }),
{
    Outcome { verdict, text: String::from_str(text), affordance }
}

} // verus!
