//! Notifications, by the side that receives them.

use vstd::prelude::*;
use crate::json::{Json, JsonView};
use crate::messages::jsonrpc::notification::{
    read_notification, NotificationMessage, NotificationMessageView,
};
use crate::messages::jsonrpc::request::read_method;
use crate::messages::jsonrpc::{MessageError, MessageFault, KEY_METHOD};
use crate::text::text_eq;

verus! {

/// The methods of the notifications that a server sends to a client.
#[derive(Debug, Clone, Copy, PartialEq, Eq, Structural)]
pub enum ClientNotificationMethod {
    LogTrace,
    LogMessage,
    PublishDiagnostics,
    ShowMessage,
    Telemetry,
}

impl ClientNotificationMethod {
    /// The name of the method on the wire.
    pub open spec fn name_spec(self) -> Seq<char> {
        match self {
            ClientNotificationMethod::LogTrace => "$/logTrace"@,
            ClientNotificationMethod::LogMessage => "window/logMessage"@,
            ClientNotificationMethod::PublishDiagnostics => "textDocument/publishDiagnostics"@,
            ClientNotificationMethod::ShowMessage => "window/showMessage"@,
            ClientNotificationMethod::Telemetry => "telemetry/event"@,
        }
    }

    /// The method of this name, where there is one.
    pub open spec fn named(name: Seq<char>) -> Option<ClientNotificationMethod> {
        if name == "$/logTrace"@ {
            Some(ClientNotificationMethod::LogTrace)
        } else if name == "window/logMessage"@ {
            Some(ClientNotificationMethod::LogMessage)
        } else if name == "textDocument/publishDiagnostics"@ {
            Some(ClientNotificationMethod::PublishDiagnostics)
        } else if name == "window/showMessage"@ {
            Some(ClientNotificationMethod::ShowMessage)
        } else if name == "telemetry/event"@ {
            Some(ClientNotificationMethod::Telemetry)
        } else {
            None
        }
    }

    pub fn name(self) -> (name: &'static str)
        ensures
            name@ == self.name_spec(),
    {
        match self {
            ClientNotificationMethod::LogTrace => "$/logTrace",
            ClientNotificationMethod::LogMessage => "window/logMessage",
            ClientNotificationMethod::PublishDiagnostics => "textDocument/publishDiagnostics",
            ClientNotificationMethod::ShowMessage => "window/showMessage",
            ClientNotificationMethod::Telemetry => "telemetry/event",
        }
    }

    pub fn from_name(name: &str) -> (method: Option<ClientNotificationMethod>)
        ensures
            method == Self::named(name@),
    {
        if text_eq(name, "$/logTrace") {
            Some(ClientNotificationMethod::LogTrace)
        } else if text_eq(name, "window/logMessage") {
            Some(ClientNotificationMethod::LogMessage)
        } else if text_eq(name, "textDocument/publishDiagnostics") {
            Some(ClientNotificationMethod::PublishDiagnostics)
        } else if text_eq(name, "window/showMessage") {
            Some(ClientNotificationMethod::ShowMessage)
        } else if text_eq(name, "telemetry/event") {
            Some(ClientNotificationMethod::Telemetry)
        } else {
            None
        }
    }

    /// A method is the one that its name names.
    pub proof fn lemma_named_name(self)
        ensures
            Self::named(self.name_spec()) == Some(self),
    {
        lemma_client_notification_method_names();
    }

    /// A name names no other method than the one that has it.
    pub proof fn lemma_name_named(name: Seq<char>)
        ensures
            Self::named(name) matches Some(method) ==> method.name_spec() == name,
    {
    }
}

/// How long the name of each notification method on the client's side is, and
/// the characters that tell it from every other notification method of its
/// length.
pub proof fn lemma_client_notification_method_names()
    ensures
        "$/logTrace"@.len() == 10,
        "$/logTrace"@[2] == 'l',
        "window/logMessage"@.len() == 17,
        "textDocument/publishDiagnostics"@.len() == 31,
        "textDocument/publishDiagnostics"@[0] == 't',
        "window/showMessage"@.len() == 18,
        "telemetry/event"@.len() == 15,
        "telemetry/event"@[0] == 't',
{
    reveal_strlit("$/logTrace");
    reveal_strlit("window/logMessage");
    reveal_strlit("textDocument/publishDiagnostics");
    reveal_strlit("window/showMessage");
    reveal_strlit("telemetry/event");
}

/// The notifications that a server sends to a client.
#[derive(Debug, PartialEq)]
pub enum AllClientNotifications {
    LogTrace(NotificationMessage),
    LogMessage(NotificationMessage),
    PublishDiagnostics(NotificationMessage),
    ShowMessage(NotificationMessage),
    Telemetry(NotificationMessage),
}

impl AllClientNotifications {
    /// The method of this notification.
    pub open spec fn method_spec(&self) -> ClientNotificationMethod {
        match self {
            AllClientNotifications::LogTrace(_) => ClientNotificationMethod::LogTrace,
            AllClientNotifications::LogMessage(_) => ClientNotificationMethod::LogMessage,
            AllClientNotifications::PublishDiagnostics(_) => {
                ClientNotificationMethod::PublishDiagnostics
            },
            AllClientNotifications::ShowMessage(_) => ClientNotificationMethod::ShowMessage,
            AllClientNotifications::Telemetry(_) => ClientNotificationMethod::Telemetry,
        }
    }

    /// The notification without its method.
    pub open spec fn message_spec(&self) -> NotificationMessage {
        match self {
            AllClientNotifications::LogTrace(message) => *message,
            AllClientNotifications::LogMessage(message) => *message,
            AllClientNotifications::PublishDiagnostics(message) => *message,
            AllClientNotifications::ShowMessage(message) => *message,
            AllClientNotifications::Telemetry(message) => *message,
        }
    }

    pub fn method(&self) -> (method: ClientNotificationMethod)
        ensures
            method == self.method_spec(),
    {
        match self {
            AllClientNotifications::LogTrace(_) => ClientNotificationMethod::LogTrace,
            AllClientNotifications::LogMessage(_) => ClientNotificationMethod::LogMessage,
            AllClientNotifications::PublishDiagnostics(_) => {
                ClientNotificationMethod::PublishDiagnostics
            },
            AllClientNotifications::ShowMessage(_) => ClientNotificationMethod::ShowMessage,
            AllClientNotifications::Telemetry(_) => ClientNotificationMethod::Telemetry,
        }
    }

    pub fn message(&self) -> (message: &NotificationMessage)
        ensures
            *message == self.message_spec(),
    {
        match self {
            AllClientNotifications::LogTrace(message) => message,
            AllClientNotifications::LogMessage(message) => message,
            AllClientNotifications::PublishDiagnostics(message) => message,
            AllClientNotifications::ShowMessage(message) => message,
            AllClientNotifications::Telemetry(message) => message,
        }
    }

    /// The notification of the method `method` that `message` holds.
    pub fn new(
        method: ClientNotificationMethod,
        message: NotificationMessage,
    ) -> (made: AllClientNotifications)
        ensures
            made.method_spec() == method,
            made.message_spec() == message,
    {
        match method {
            ClientNotificationMethod::LogTrace => AllClientNotifications::LogTrace(message),
            ClientNotificationMethod::LogMessage => AllClientNotifications::LogMessage(message),
            ClientNotificationMethod::PublishDiagnostics => {
                AllClientNotifications::PublishDiagnostics(message)
            },
            ClientNotificationMethod::ShowMessage => AllClientNotifications::ShowMessage(message),
            ClientNotificationMethod::Telemetry => AllClientNotifications::Telemetry(message),
        }
    }
}

/// The methods of the notifications that a client sends to a server.
#[derive(Debug, Clone, Copy, PartialEq, Eq, Structural)]
pub enum ServerNotificationMethod {
    Initialized,
    SetTrace,
    Exit,
    WillSaveTextDocument,
    WorkDoneProgressCancel,
    DidOpenText,
    DidChangeText,
    DidSaveTextDocument,
    DidCloseTextDocument,
    DidOpenNotebook,
    DidChangeNotebook,
    DidSaveNotebookDocument,
    DidCloseNotebookDocument,
    DidChangeNotification,
    DidChangeWorkspaceFolders,
    DidCreateFiles,
    DidRenameFiles,
    DidDeleteFiles,
    DidChangeWatcheFiles,
}

impl ServerNotificationMethod {
    /// The name of the method on the wire.
    pub open spec fn name_spec(self) -> Seq<char> {
        match self {
            ServerNotificationMethod::Initialized => "initialized"@,
            ServerNotificationMethod::SetTrace => "$/setTrace"@,
            ServerNotificationMethod::Exit => "exit"@,
            ServerNotificationMethod::WillSaveTextDocument => "textDocument/willSave"@,
            ServerNotificationMethod::WorkDoneProgressCancel => "window/workDoneProgress/cancel"@,
            ServerNotificationMethod::DidOpenText => "textDocument/didOpen"@,
            ServerNotificationMethod::DidChangeText => "textDocument/didChange"@,
            ServerNotificationMethod::DidSaveTextDocument => "textDocument/didSave"@,
            ServerNotificationMethod::DidCloseTextDocument => "textDocument/didClose"@,
            ServerNotificationMethod::DidOpenNotebook => "notebookDocument/didOpen"@,
            ServerNotificationMethod::DidChangeNotebook => "notebookDocument/didChange"@,
            ServerNotificationMethod::DidSaveNotebookDocument => "notebookDocument/didSave"@,
            ServerNotificationMethod::DidCloseNotebookDocument => "notebookDocument/didClose"@,
            ServerNotificationMethod::DidChangeNotification => "workspace/didChangeConfiguration"@,
            ServerNotificationMethod::DidChangeWorkspaceFolders => {
                "workspace/didChangeWorkspaceFolders"@
            },
            ServerNotificationMethod::DidCreateFiles => "workspace/didCreateFiles"@,
            ServerNotificationMethod::DidRenameFiles => "workspace/didRenameFiles"@,
            ServerNotificationMethod::DidDeleteFiles => "workspace/didDeleteFiles"@,
            ServerNotificationMethod::DidChangeWatcheFiles => "workspace/didChangeWatchedFiles"@,
        }
    }

    /// The method of this name, where there is one.
    pub open spec fn named(name: Seq<char>) -> Option<ServerNotificationMethod> {
        if name == "initialized"@ {
            Some(ServerNotificationMethod::Initialized)
        } else if name == "$/setTrace"@ {
            Some(ServerNotificationMethod::SetTrace)
        } else if name == "exit"@ {
            Some(ServerNotificationMethod::Exit)
        } else if name == "textDocument/willSave"@ {
            Some(ServerNotificationMethod::WillSaveTextDocument)
        } else if name == "window/workDoneProgress/cancel"@ {
            Some(ServerNotificationMethod::WorkDoneProgressCancel)
        } else if name == "textDocument/didOpen"@ {
            Some(ServerNotificationMethod::DidOpenText)
        } else if name == "textDocument/didChange"@ {
            Some(ServerNotificationMethod::DidChangeText)
        } else if name == "textDocument/didSave"@ {
            Some(ServerNotificationMethod::DidSaveTextDocument)
        } else if name == "textDocument/didClose"@ {
            Some(ServerNotificationMethod::DidCloseTextDocument)
        } else if name == "notebookDocument/didOpen"@ {
            Some(ServerNotificationMethod::DidOpenNotebook)
        } else if name == "notebookDocument/didChange"@ {
            Some(ServerNotificationMethod::DidChangeNotebook)
        } else if name == "notebookDocument/didSave"@ {
            Some(ServerNotificationMethod::DidSaveNotebookDocument)
        } else if name == "notebookDocument/didClose"@ {
            Some(ServerNotificationMethod::DidCloseNotebookDocument)
        } else if name == "workspace/didChangeConfiguration"@ {
            Some(ServerNotificationMethod::DidChangeNotification)
        } else if name == "workspace/didChangeWorkspaceFolders"@ {
            Some(ServerNotificationMethod::DidChangeWorkspaceFolders)
        } else if name == "workspace/didCreateFiles"@ {
            Some(ServerNotificationMethod::DidCreateFiles)
        } else if name == "workspace/didRenameFiles"@ {
            Some(ServerNotificationMethod::DidRenameFiles)
        } else if name == "workspace/didDeleteFiles"@ {
            Some(ServerNotificationMethod::DidDeleteFiles)
        } else if name == "workspace/didChangeWatchedFiles"@ {
            Some(ServerNotificationMethod::DidChangeWatcheFiles)
        } else {
            None
        }
    }

    pub fn name(self) -> (name: &'static str)
        ensures
            name@ == self.name_spec(),
    {
        match self {
            ServerNotificationMethod::Initialized => "initialized",
            ServerNotificationMethod::SetTrace => "$/setTrace",
            ServerNotificationMethod::Exit => "exit",
            ServerNotificationMethod::WillSaveTextDocument => "textDocument/willSave",
            ServerNotificationMethod::WorkDoneProgressCancel => "window/workDoneProgress/cancel",
            ServerNotificationMethod::DidOpenText => "textDocument/didOpen",
            ServerNotificationMethod::DidChangeText => "textDocument/didChange",
            ServerNotificationMethod::DidSaveTextDocument => "textDocument/didSave",
            ServerNotificationMethod::DidCloseTextDocument => "textDocument/didClose",
            ServerNotificationMethod::DidOpenNotebook => "notebookDocument/didOpen",
            ServerNotificationMethod::DidChangeNotebook => "notebookDocument/didChange",
            ServerNotificationMethod::DidSaveNotebookDocument => "notebookDocument/didSave",
            ServerNotificationMethod::DidCloseNotebookDocument => "notebookDocument/didClose",
            ServerNotificationMethod::DidChangeNotification => "workspace/didChangeConfiguration",
            ServerNotificationMethod::DidChangeWorkspaceFolders => {
                "workspace/didChangeWorkspaceFolders"
            },
            ServerNotificationMethod::DidCreateFiles => "workspace/didCreateFiles",
            ServerNotificationMethod::DidRenameFiles => "workspace/didRenameFiles",
            ServerNotificationMethod::DidDeleteFiles => "workspace/didDeleteFiles",
            ServerNotificationMethod::DidChangeWatcheFiles => "workspace/didChangeWatchedFiles",
        }
    }

    pub fn from_name(name: &str) -> (method: Option<ServerNotificationMethod>)
        ensures
            method == Self::named(name@),
    {
        if text_eq(name, "initialized") {
            Some(ServerNotificationMethod::Initialized)
        } else if text_eq(name, "$/setTrace") {
            Some(ServerNotificationMethod::SetTrace)
        } else if text_eq(name, "exit") {
            Some(ServerNotificationMethod::Exit)
        } else if text_eq(name, "textDocument/willSave") {
            Some(ServerNotificationMethod::WillSaveTextDocument)
        } else if text_eq(name, "window/workDoneProgress/cancel") {
            Some(ServerNotificationMethod::WorkDoneProgressCancel)
        } else if text_eq(name, "textDocument/didOpen") {
            Some(ServerNotificationMethod::DidOpenText)
        } else if text_eq(name, "textDocument/didChange") {
            Some(ServerNotificationMethod::DidChangeText)
        } else if text_eq(name, "textDocument/didSave") {
            Some(ServerNotificationMethod::DidSaveTextDocument)
        } else if text_eq(name, "textDocument/didClose") {
            Some(ServerNotificationMethod::DidCloseTextDocument)
        } else if text_eq(name, "notebookDocument/didOpen") {
            Some(ServerNotificationMethod::DidOpenNotebook)
        } else if text_eq(name, "notebookDocument/didChange") {
            Some(ServerNotificationMethod::DidChangeNotebook)
        } else if text_eq(name, "notebookDocument/didSave") {
            Some(ServerNotificationMethod::DidSaveNotebookDocument)
        } else if text_eq(name, "notebookDocument/didClose") {
            Some(ServerNotificationMethod::DidCloseNotebookDocument)
        } else if text_eq(name, "workspace/didChangeConfiguration") {
            Some(ServerNotificationMethod::DidChangeNotification)
        } else if text_eq(name, "workspace/didChangeWorkspaceFolders") {
            Some(ServerNotificationMethod::DidChangeWorkspaceFolders)
        } else if text_eq(name, "workspace/didCreateFiles") {
            Some(ServerNotificationMethod::DidCreateFiles)
        } else if text_eq(name, "workspace/didRenameFiles") {
            Some(ServerNotificationMethod::DidRenameFiles)
        } else if text_eq(name, "workspace/didDeleteFiles") {
            Some(ServerNotificationMethod::DidDeleteFiles)
        } else if text_eq(name, "workspace/didChangeWatchedFiles") {
            Some(ServerNotificationMethod::DidChangeWatcheFiles)
        } else {
            None
        }
    }

    /// A method is the one that its name names.
    pub proof fn lemma_named_name(self)
        ensures
            Self::named(self.name_spec()) == Some(self),
    {
        lemma_server_notification_method_names();
    }

    /// A name names no other method than the one that has it.
    pub proof fn lemma_name_named(name: Seq<char>)
        ensures
            Self::named(name) matches Some(method) ==> method.name_spec() == name,
    {
    }
}

/// How long the name of each notification method on the server's side is, and
/// the characters that tell it from every other notification method of its
/// length.
pub proof fn lemma_server_notification_method_names()
    ensures
        "initialized"@.len() == 11,
        "$/setTrace"@.len() == 10,
        "$/setTrace"@[2] == 's',
        "exit"@.len() == 4,
        "textDocument/willSave"@.len() == 21,
        "textDocument/willSave"@[13] == 'w',
        "window/workDoneProgress/cancel"@.len() == 30,
        "textDocument/didOpen"@.len() == 20,
        "textDocument/didOpen"@[16] == 'O',
        "textDocument/didChange"@.len() == 22,
        "textDocument/didSave"@.len() == 20,
        "textDocument/didSave"@[16] == 'S',
        "textDocument/didClose"@.len() == 21,
        "textDocument/didClose"@[13] == 'd',
        "notebookDocument/didOpen"@.len() == 24,
        "notebookDocument/didOpen"@[0] == 'n',
        "notebookDocument/didOpen"@[20] == 'O',
        "notebookDocument/didChange"@.len() == 26,
        "notebookDocument/didSave"@.len() == 24,
        "notebookDocument/didSave"@[0] == 'n',
        "notebookDocument/didSave"@[20] == 'S',
        "notebookDocument/didClose"@.len() == 25,
        "workspace/didChangeConfiguration"@.len() == 32,
        "workspace/didChangeWorkspaceFolders"@.len() == 35,
        "workspace/didCreateFiles"@.len() == 24,
        "workspace/didCreateFiles"@[0] == 'w',
        "workspace/didCreateFiles"@[13] == 'C',
        "workspace/didRenameFiles"@.len() == 24,
        "workspace/didRenameFiles"@[0] == 'w',
        "workspace/didRenameFiles"@[13] == 'R',
        "workspace/didDeleteFiles"@.len() == 24,
        "workspace/didDeleteFiles"@[0] == 'w',
        "workspace/didDeleteFiles"@[13] == 'D',
        "workspace/didChangeWatchedFiles"@.len() == 31,
        "workspace/didChangeWatchedFiles"@[0] == 'w',
{
    reveal_strlit("initialized");
    reveal_strlit("$/setTrace");
    reveal_strlit("exit");
    reveal_strlit("textDocument/willSave");
    reveal_strlit("window/workDoneProgress/cancel");
    reveal_strlit("textDocument/didOpen");
    reveal_strlit("textDocument/didChange");
    reveal_strlit("textDocument/didSave");
    reveal_strlit("textDocument/didClose");
    reveal_strlit("notebookDocument/didOpen");
    reveal_strlit("notebookDocument/didChange");
    reveal_strlit("notebookDocument/didSave");
    reveal_strlit("notebookDocument/didClose");
    reveal_strlit("workspace/didChangeConfiguration");
    reveal_strlit("workspace/didChangeWorkspaceFolders");
    reveal_strlit("workspace/didCreateFiles");
    reveal_strlit("workspace/didRenameFiles");
    reveal_strlit("workspace/didDeleteFiles");
    reveal_strlit("workspace/didChangeWatchedFiles");
}

/// The notifications that a client sends to a server.
#[derive(Debug, PartialEq)]
pub enum AllServerNotifications {
    Initialized(NotificationMessage),
    SetTrace(NotificationMessage),
    Exit(NotificationMessage),
    WillSaveTextDocument(NotificationMessage),
    WorkDoneProgressCancel(NotificationMessage),
    DidOpenText(NotificationMessage),
    DidChangeText(NotificationMessage),
    DidSaveTextDocument(NotificationMessage),
    DidCloseTextDocument(NotificationMessage),
    DidOpenNotebook(NotificationMessage),
    DidChangeNotebook(NotificationMessage),
    DidSaveNotebookDocument(NotificationMessage),
    DidCloseNotebookDocument(NotificationMessage),
    DidChangeNotification(NotificationMessage),
    DidChangeWorkspaceFolders(NotificationMessage),
    DidCreateFiles(NotificationMessage),
    DidRenameFiles(NotificationMessage),
    DidDeleteFiles(NotificationMessage),
    DidChangeWatcheFiles(NotificationMessage),
}

impl AllServerNotifications {
    /// The method of this notification.
    pub open spec fn method_spec(&self) -> ServerNotificationMethod {
        match self {
            AllServerNotifications::Initialized(_) => ServerNotificationMethod::Initialized,
            AllServerNotifications::SetTrace(_) => ServerNotificationMethod::SetTrace,
            AllServerNotifications::Exit(_) => ServerNotificationMethod::Exit,
            AllServerNotifications::WillSaveTextDocument(_) => {
                ServerNotificationMethod::WillSaveTextDocument
            },
            AllServerNotifications::WorkDoneProgressCancel(_) => {
                ServerNotificationMethod::WorkDoneProgressCancel
            },
            AllServerNotifications::DidOpenText(_) => ServerNotificationMethod::DidOpenText,
            AllServerNotifications::DidChangeText(_) => ServerNotificationMethod::DidChangeText,
            AllServerNotifications::DidSaveTextDocument(_) => {
                ServerNotificationMethod::DidSaveTextDocument
            },
            AllServerNotifications::DidCloseTextDocument(_) => {
                ServerNotificationMethod::DidCloseTextDocument
            },
            AllServerNotifications::DidOpenNotebook(_) => ServerNotificationMethod::DidOpenNotebook,
            AllServerNotifications::DidChangeNotebook(_) => {
                ServerNotificationMethod::DidChangeNotebook
            },
            AllServerNotifications::DidSaveNotebookDocument(_) => {
                ServerNotificationMethod::DidSaveNotebookDocument
            },
            AllServerNotifications::DidCloseNotebookDocument(_) => {
                ServerNotificationMethod::DidCloseNotebookDocument
            },
            AllServerNotifications::DidChangeNotification(_) => {
                ServerNotificationMethod::DidChangeNotification
            },
            AllServerNotifications::DidChangeWorkspaceFolders(_) => {
                ServerNotificationMethod::DidChangeWorkspaceFolders
            },
            AllServerNotifications::DidCreateFiles(_) => ServerNotificationMethod::DidCreateFiles,
            AllServerNotifications::DidRenameFiles(_) => ServerNotificationMethod::DidRenameFiles,
            AllServerNotifications::DidDeleteFiles(_) => ServerNotificationMethod::DidDeleteFiles,
            AllServerNotifications::DidChangeWatcheFiles(_) => {
                ServerNotificationMethod::DidChangeWatcheFiles
            },
        }
    }

    /// The notification without its method.
    pub open spec fn message_spec(&self) -> NotificationMessage {
        match self {
            AllServerNotifications::Initialized(message) => *message,
            AllServerNotifications::SetTrace(message) => *message,
            AllServerNotifications::Exit(message) => *message,
            AllServerNotifications::WillSaveTextDocument(message) => *message,
            AllServerNotifications::WorkDoneProgressCancel(message) => *message,
            AllServerNotifications::DidOpenText(message) => *message,
            AllServerNotifications::DidChangeText(message) => *message,
            AllServerNotifications::DidSaveTextDocument(message) => *message,
            AllServerNotifications::DidCloseTextDocument(message) => *message,
            AllServerNotifications::DidOpenNotebook(message) => *message,
            AllServerNotifications::DidChangeNotebook(message) => *message,
            AllServerNotifications::DidSaveNotebookDocument(message) => *message,
            AllServerNotifications::DidCloseNotebookDocument(message) => *message,
            AllServerNotifications::DidChangeNotification(message) => *message,
            AllServerNotifications::DidChangeWorkspaceFolders(message) => *message,
            AllServerNotifications::DidCreateFiles(message) => *message,
            AllServerNotifications::DidRenameFiles(message) => *message,
            AllServerNotifications::DidDeleteFiles(message) => *message,
            AllServerNotifications::DidChangeWatcheFiles(message) => *message,
        }
    }

    pub fn method(&self) -> (method: ServerNotificationMethod)
        ensures
            method == self.method_spec(),
    {
        match self {
            AllServerNotifications::Initialized(_) => ServerNotificationMethod::Initialized,
            AllServerNotifications::SetTrace(_) => ServerNotificationMethod::SetTrace,
            AllServerNotifications::Exit(_) => ServerNotificationMethod::Exit,
            AllServerNotifications::WillSaveTextDocument(_) => {
                ServerNotificationMethod::WillSaveTextDocument
            },
            AllServerNotifications::WorkDoneProgressCancel(_) => {
                ServerNotificationMethod::WorkDoneProgressCancel
            },
            AllServerNotifications::DidOpenText(_) => ServerNotificationMethod::DidOpenText,
            AllServerNotifications::DidChangeText(_) => ServerNotificationMethod::DidChangeText,
            AllServerNotifications::DidSaveTextDocument(_) => {
                ServerNotificationMethod::DidSaveTextDocument
            },
            AllServerNotifications::DidCloseTextDocument(_) => {
                ServerNotificationMethod::DidCloseTextDocument
            },
            AllServerNotifications::DidOpenNotebook(_) => ServerNotificationMethod::DidOpenNotebook,
            AllServerNotifications::DidChangeNotebook(_) => {
                ServerNotificationMethod::DidChangeNotebook
            },
            AllServerNotifications::DidSaveNotebookDocument(_) => {
                ServerNotificationMethod::DidSaveNotebookDocument
            },
            AllServerNotifications::DidCloseNotebookDocument(_) => {
                ServerNotificationMethod::DidCloseNotebookDocument
            },
            AllServerNotifications::DidChangeNotification(_) => {
                ServerNotificationMethod::DidChangeNotification
            },
            AllServerNotifications::DidChangeWorkspaceFolders(_) => {
                ServerNotificationMethod::DidChangeWorkspaceFolders
            },
            AllServerNotifications::DidCreateFiles(_) => ServerNotificationMethod::DidCreateFiles,
            AllServerNotifications::DidRenameFiles(_) => ServerNotificationMethod::DidRenameFiles,
            AllServerNotifications::DidDeleteFiles(_) => ServerNotificationMethod::DidDeleteFiles,
            AllServerNotifications::DidChangeWatcheFiles(_) => {
                ServerNotificationMethod::DidChangeWatcheFiles
            },
        }
    }

    pub fn message(&self) -> (message: &NotificationMessage)
        ensures
            *message == self.message_spec(),
    {
        match self {
            AllServerNotifications::Initialized(message) => message,
            AllServerNotifications::SetTrace(message) => message,
            AllServerNotifications::Exit(message) => message,
            AllServerNotifications::WillSaveTextDocument(message) => message,
            AllServerNotifications::WorkDoneProgressCancel(message) => message,
            AllServerNotifications::DidOpenText(message) => message,
            AllServerNotifications::DidChangeText(message) => message,
            AllServerNotifications::DidSaveTextDocument(message) => message,
            AllServerNotifications::DidCloseTextDocument(message) => message,
            AllServerNotifications::DidOpenNotebook(message) => message,
            AllServerNotifications::DidChangeNotebook(message) => message,
            AllServerNotifications::DidSaveNotebookDocument(message) => message,
            AllServerNotifications::DidCloseNotebookDocument(message) => message,
            AllServerNotifications::DidChangeNotification(message) => message,
            AllServerNotifications::DidChangeWorkspaceFolders(message) => message,
            AllServerNotifications::DidCreateFiles(message) => message,
            AllServerNotifications::DidRenameFiles(message) => message,
            AllServerNotifications::DidDeleteFiles(message) => message,
            AllServerNotifications::DidChangeWatcheFiles(message) => message,
        }
    }

    /// The notification of the method `method` that `message` holds.
    pub fn new(
        method: ServerNotificationMethod,
        message: NotificationMessage,
    ) -> (made: AllServerNotifications)
        ensures
            made.method_spec() == method,
            made.message_spec() == message,
    {
        match method {
            ServerNotificationMethod::Initialized => AllServerNotifications::Initialized(message),
            ServerNotificationMethod::SetTrace => AllServerNotifications::SetTrace(message),
            ServerNotificationMethod::Exit => AllServerNotifications::Exit(message),
            ServerNotificationMethod::WillSaveTextDocument => {
                AllServerNotifications::WillSaveTextDocument(message)
            },
            ServerNotificationMethod::WorkDoneProgressCancel => {
                AllServerNotifications::WorkDoneProgressCancel(message)
            },
            ServerNotificationMethod::DidOpenText => AllServerNotifications::DidOpenText(message),
            ServerNotificationMethod::DidChangeText => {
                AllServerNotifications::DidChangeText(message)
            },
            ServerNotificationMethod::DidSaveTextDocument => {
                AllServerNotifications::DidSaveTextDocument(message)
            },
            ServerNotificationMethod::DidCloseTextDocument => {
                AllServerNotifications::DidCloseTextDocument(message)
            },
            ServerNotificationMethod::DidOpenNotebook => {
                AllServerNotifications::DidOpenNotebook(message)
            },
            ServerNotificationMethod::DidChangeNotebook => {
                AllServerNotifications::DidChangeNotebook(message)
            },
            ServerNotificationMethod::DidSaveNotebookDocument => {
                AllServerNotifications::DidSaveNotebookDocument(message)
            },
            ServerNotificationMethod::DidCloseNotebookDocument => {
                AllServerNotifications::DidCloseNotebookDocument(message)
            },
            ServerNotificationMethod::DidChangeNotification => {
                AllServerNotifications::DidChangeNotification(message)
            },
            ServerNotificationMethod::DidChangeWorkspaceFolders => {
                AllServerNotifications::DidChangeWorkspaceFolders(message)
            },
            ServerNotificationMethod::DidCreateFiles => {
                AllServerNotifications::DidCreateFiles(message)
            },
            ServerNotificationMethod::DidRenameFiles => {
                AllServerNotifications::DidRenameFiles(message)
            },
            ServerNotificationMethod::DidDeleteFiles => {
                AllServerNotifications::DidDeleteFiles(message)
            },
            ServerNotificationMethod::DidChangeWatcheFiles => {
                AllServerNotifications::DidChangeWatcheFiles(message)
            },
        }
    }
}

/// The methods of the notifications that either side may send.
#[derive(Debug, Clone, Copy, PartialEq, Eq, Structural)]
pub enum ImplementationNotificationMethod {
    CancelRequest,
    Progress,
}

impl ImplementationNotificationMethod {
    /// The name of the method on the wire.
    pub open spec fn name_spec(self) -> Seq<char> {
        match self {
            ImplementationNotificationMethod::CancelRequest => "$/cancelRequest"@,
            ImplementationNotificationMethod::Progress => "$/progress"@,
        }
    }

    /// The method of this name, where there is one.
    pub open spec fn named(name: Seq<char>) -> Option<ImplementationNotificationMethod> {
        if name == "$/cancelRequest"@ {
            Some(ImplementationNotificationMethod::CancelRequest)
        } else if name == "$/progress"@ {
            Some(ImplementationNotificationMethod::Progress)
        } else {
            None
        }
    }

    pub fn name(self) -> (name: &'static str)
        ensures
            name@ == self.name_spec(),
    {
        match self {
            ImplementationNotificationMethod::CancelRequest => "$/cancelRequest",
            ImplementationNotificationMethod::Progress => "$/progress",
        }
    }

    pub fn from_name(name: &str) -> (method: Option<ImplementationNotificationMethod>)
        ensures
            method == Self::named(name@),
    {
        if text_eq(name, "$/cancelRequest") {
            Some(ImplementationNotificationMethod::CancelRequest)
        } else if text_eq(name, "$/progress") {
            Some(ImplementationNotificationMethod::Progress)
        } else {
            None
        }
    }

    /// A method is the one that its name names.
    pub proof fn lemma_named_name(self)
        ensures
            Self::named(self.name_spec()) == Some(self),
    {
        lemma_implementation_notification_method_names();
    }

    /// A name names no other method than the one that has it.
    pub proof fn lemma_name_named(name: Seq<char>)
        ensures
            Self::named(name) matches Some(method) ==> method.name_spec() == name,
    {
    }
}

/// How long the name of each notification method of either side is, and the
/// characters that tell it from every other notification method of its length.
pub proof fn lemma_implementation_notification_method_names()
    ensures
        "$/cancelRequest"@.len() == 15,
        "$/cancelRequest"@[0] == '$',
        "$/progress"@.len() == 10,
        "$/progress"@[2] == 'p',
{
    reveal_strlit("$/cancelRequest");
    reveal_strlit("$/progress");
}

/// The notifications that either side may send: how they are handled depends on the implementation.
#[derive(Debug, PartialEq)]
pub enum AllImplementationNotifications {
    CancelRequest(NotificationMessage),
    Progress(NotificationMessage),
}

impl AllImplementationNotifications {
    /// The method of this notification.
    pub open spec fn method_spec(&self) -> ImplementationNotificationMethod {
        match self {
            AllImplementationNotifications::CancelRequest(_) => {
                ImplementationNotificationMethod::CancelRequest
            },
            AllImplementationNotifications::Progress(_) => {
                ImplementationNotificationMethod::Progress
            },
        }
    }

    /// The notification without its method.
    pub open spec fn message_spec(&self) -> NotificationMessage {
        match self {
            AllImplementationNotifications::CancelRequest(message) => *message,
            AllImplementationNotifications::Progress(message) => *message,
        }
    }

    pub fn method(&self) -> (method: ImplementationNotificationMethod)
        ensures
            method == self.method_spec(),
    {
        match self {
            AllImplementationNotifications::CancelRequest(_) => {
                ImplementationNotificationMethod::CancelRequest
            },
            AllImplementationNotifications::Progress(_) => {
                ImplementationNotificationMethod::Progress
            },
        }
    }

    pub fn message(&self) -> (message: &NotificationMessage)
        ensures
            *message == self.message_spec(),
    {
        match self {
            AllImplementationNotifications::CancelRequest(message) => message,
            AllImplementationNotifications::Progress(message) => message,
        }
    }

    /// The notification of the method `method` that `message` holds.
    pub fn new(
        method: ImplementationNotificationMethod,
        message: NotificationMessage,
    ) -> (made: AllImplementationNotifications)
        ensures
            made.method_spec() == method,
            made.message_spec() == message,
    {
        match method {
            ImplementationNotificationMethod::CancelRequest => {
                AllImplementationNotifications::CancelRequest(message)
            },
            ImplementationNotificationMethod::Progress => {
                AllImplementationNotifications::Progress(message)
            },
        }
    }
}

/// The method of a notification, with the side that receives it.
#[derive(Debug, Clone, Copy, PartialEq, Eq, Structural)]
pub enum NotificationMethod {
    Client(ClientNotificationMethod),
    Server(ServerNotificationMethod),
    ImplementationDependent(ImplementationNotificationMethod),
}

impl NotificationMethod {
    /// The name of the method on the wire.
    pub open spec fn name_spec(self) -> Seq<char> {
        match self {
            NotificationMethod::Client(method) => method.name_spec(),
            NotificationMethod::Server(method) => method.name_spec(),
            NotificationMethod::ImplementationDependent(method) => method.name_spec(),
        }
    }

    /// The method of this name, where there is one.
    pub open spec fn named(name: Seq<char>) -> Option<NotificationMethod> {
        match ClientNotificationMethod::named(name) {
            Some(method) => Some(NotificationMethod::Client(method)),
            None => match ServerNotificationMethod::named(name) {
                Some(method) => Some(NotificationMethod::Server(method)),
                None => match ImplementationNotificationMethod::named(name) {
                    Some(method) => Some(NotificationMethod::ImplementationDependent(method)),
                    None => None,
                },
            },
        }
    }

    pub fn name(self) -> (name: &'static str)
        ensures
            name@ == self.name_spec(),
    {
        match self {
            NotificationMethod::Client(method) => method.name(),
            NotificationMethod::Server(method) => method.name(),
            NotificationMethod::ImplementationDependent(method) => method.name(),
        }
    }

    pub fn from_name(name: &str) -> (method: Option<NotificationMethod>)
        ensures
            method == Self::named(name@),
    {
        match ClientNotificationMethod::from_name(name) {
            Some(method) => Some(NotificationMethod::Client(method)),
            None => match ServerNotificationMethod::from_name(name) {
                Some(method) => Some(NotificationMethod::Server(method)),
                None => match ImplementationNotificationMethod::from_name(name) {
                    Some(method) => Some(NotificationMethod::ImplementationDependent(method)),
                    None => None,
                },
            },
        }
    }

    /// A method is the one that its name names: no two notification methods
    /// share a name.
    pub proof fn lemma_named_name(self)
        ensures
            Self::named(self.name_spec()) == Some(self),
    {
        lemma_client_notification_method_names();
        lemma_server_notification_method_names();
        lemma_implementation_notification_method_names();
    }

    /// A name names no other method than the one that has it.
    pub proof fn lemma_name_named(name: Seq<char>)
        ensures
            Self::named(name) matches Some(method) ==> method.name_spec() == name,
    {
    }
}

/// Every notification there is.
#[derive(Debug, PartialEq)]
pub enum AllNotifications {
    Client(AllClientNotifications),
    Server(AllServerNotifications),
    ImplementationDependent(AllImplementationNotifications),
}

/// The mathematical view of a notification: its method and what it holds.
pub struct NotificationView {
    pub method: NotificationMethod,
    pub message: NotificationMessageView,
}

impl View for AllNotifications {
    type V = NotificationView;

    open spec fn view(&self) -> NotificationView {
        NotificationView { method: self.method_spec(), message: self.message_spec()@ }
    }
}

/// The notification that a JSON value stands for: the method decides the
/// variant, and the version must be in order.
pub open spec fn read_notifications(json: JsonView) -> Option<NotificationView> {
    match json.field(KEY_METHOD@) {
        Some(JsonView::Text(name)) => match (
            NotificationMethod::named(name),
            read_notification(json, name),
        ) {
            (Some(method), Ok(message)) => Some(NotificationView { method, message }),
            _ => None,
        },
        _ => None,
    }
}

impl AllNotifications {
    /// The method of this notification.
    pub open spec fn method_spec(&self) -> NotificationMethod {
        match self {
            AllNotifications::Client(n) => NotificationMethod::Client(n.method_spec()),
            AllNotifications::Server(n) => NotificationMethod::Server(n.method_spec()),
            AllNotifications::ImplementationDependent(n) => {
                NotificationMethod::ImplementationDependent(n.method_spec())
            },
        }
    }

    /// The notification without its method.
    pub open spec fn message_spec(&self) -> NotificationMessage {
        match self {
            AllNotifications::Client(n) => n.message_spec(),
            AllNotifications::Server(n) => n.message_spec(),
            AllNotifications::ImplementationDependent(n) => n.message_spec(),
        }
    }

    pub fn method(&self) -> (method: NotificationMethod)
        ensures
            method == self.method_spec(),
    {
        match self {
            AllNotifications::Client(n) => NotificationMethod::Client(n.method()),
            AllNotifications::Server(n) => NotificationMethod::Server(n.method()),
            AllNotifications::ImplementationDependent(n) => {
                NotificationMethod::ImplementationDependent(n.method())
            },
        }
    }

    pub fn message(&self) -> (message: &NotificationMessage)
        ensures
            *message == self.message_spec(),
    {
        match self {
            AllNotifications::Client(n) => n.message(),
            AllNotifications::Server(n) => n.message(),
            AllNotifications::ImplementationDependent(n) => n.message(),
        }
    }

    /// The notification of the method `method` that `message` holds.
    pub fn new(method: NotificationMethod, message: NotificationMessage) -> (made:
        AllNotifications)
        ensures
            made.method_spec() == method,
            made.message_spec() == message,
    {
        match method {
            NotificationMethod::Client(method) => AllNotifications::Client(
                AllClientNotifications::new(method, message),
            ),
            NotificationMethod::Server(method) => AllNotifications::Server(
                AllServerNotifications::new(method, message),
            ),
            NotificationMethod::ImplementationDependent(method) => {
                AllNotifications::ImplementationDependent(
                    AllImplementationNotifications::new(method, message),
                )
            },
        }
    }

    /// What is written for a notification reads back as that notification.
    pub proof fn lemma_round_trip(&self, json: JsonView)
        requires
            crate::messages::jsonrpc::notification::is_notification_json(
                json,
                self.method_spec().name_spec(),
                self.message_spec()@,
            ),
        ensures
            read_notifications(json) == Some(self@),
    {
        self.method_spec().lemma_named_name();
    }

    /// The JSON object of this notification.
    pub fn to_json(&self) -> (json: Json)
        ensures
            crate::messages::jsonrpc::notification::is_notification_json(
                json@,
                self.method_spec().name_spec(),
                self.message_spec()@,
            ),
    {
        self.message().to_json(self.method().name())
    }

    /// Reads a notification from a JSON value.
    pub fn from_json(json: &Json) -> (notification: Result<AllNotifications, MessageError>)
        ensures
            match notification {
                Ok(found) => read_notifications(json@) == Some(found@),
                Err(e) => read_notifications(json@).is_none() && e@ == MessageFault::NoVariant,
            },
    {
        let name = match read_method(json) {
            Some(name) => name,
            None => {
                return Err(MessageError::NoVariant);
            },
        };
        let method = match NotificationMethod::from_name(name.as_str()) {
            Some(method) => method,
            None => {
                return Err(MessageError::NoVariant);
            },
        };
        match NotificationMessage::from_json(json, name.as_str()) {
            Ok(message) => Ok(AllNotifications::new(method, message)),
            Err(_) => Err(MessageError::NoVariant),
        }
    }
}

} // verus!
