//! Requests, by the side that answers them.

use vstd::prelude::*;
use crate::json::{Json, JsonView};
use crate::messages::jsonrpc::request::{
    read_method, read_request, LspRequest, RequestId, RequestMessage, RequestMessageView,
};
use crate::messages::jsonrpc::{MessageError, MessageFault, KEY_METHOD};
use crate::text::text_eq;

verus! {

/// The methods of the requests that a server sends and a client answers.
#[derive(Debug, Clone, Copy, PartialEq, Eq, Structural)]
pub enum ClientRequestMethod {
    RegisterCapability,
    UnregisterCapability,
    InlayHintRefresh,
    SemanticTokensRefresh,
    InlineValueRefresh,
    WorkspaceDiagnosticsRefresh,
    Configuration,
    WorkspaceFolders,
    ApplyWorkspaceEdit,
    ShowMessageRequest,
    ShowDocument,
    WorkDoneProgressCreate,
}

impl ClientRequestMethod {
    /// The name of the method on the wire.
    pub open spec fn name_spec(self) -> Seq<char> {
        match self {
            ClientRequestMethod::RegisterCapability => "client/registerCapability"@,
            ClientRequestMethod::UnregisterCapability => "client/unregisterCapability"@,
            ClientRequestMethod::InlayHintRefresh => "workspace/inlayHint/refresh"@,
            ClientRequestMethod::SemanticTokensRefresh => "workspace/semanticTokens/refresh"@,
            ClientRequestMethod::InlineValueRefresh => "workspace/inlineValue/refresh"@,
            ClientRequestMethod::WorkspaceDiagnosticsRefresh => "workspace/diagnostic/refresh"@,
            ClientRequestMethod::Configuration => "workspace/configuration"@,
            ClientRequestMethod::WorkspaceFolders => "workspace/workspaceFolders"@,
            ClientRequestMethod::ApplyWorkspaceEdit => "workspace/applyEdit"@,
            ClientRequestMethod::ShowMessageRequest => "window/showMessageRequest"@,
            ClientRequestMethod::ShowDocument => "window/showDocument"@,
            ClientRequestMethod::WorkDoneProgressCreate => "window/workDoneProgress/create"@,
        }
    }

    /// The method of this name, where there is one.
    pub open spec fn named(name: Seq<char>) -> Option<ClientRequestMethod> {
        if name == "client/registerCapability"@ {
            Some(ClientRequestMethod::RegisterCapability)
        } else if name == "client/unregisterCapability"@ {
            Some(ClientRequestMethod::UnregisterCapability)
        } else if name == "workspace/inlayHint/refresh"@ {
            Some(ClientRequestMethod::InlayHintRefresh)
        } else if name == "workspace/semanticTokens/refresh"@ {
            Some(ClientRequestMethod::SemanticTokensRefresh)
        } else if name == "workspace/inlineValue/refresh"@ {
            Some(ClientRequestMethod::InlineValueRefresh)
        } else if name == "workspace/diagnostic/refresh"@ {
            Some(ClientRequestMethod::WorkspaceDiagnosticsRefresh)
        } else if name == "workspace/configuration"@ {
            Some(ClientRequestMethod::Configuration)
        } else if name == "workspace/workspaceFolders"@ {
            Some(ClientRequestMethod::WorkspaceFolders)
        } else if name == "workspace/applyEdit"@ {
            Some(ClientRequestMethod::ApplyWorkspaceEdit)
        } else if name == "window/showMessageRequest"@ {
            Some(ClientRequestMethod::ShowMessageRequest)
        } else if name == "window/showDocument"@ {
            Some(ClientRequestMethod::ShowDocument)
        } else if name == "window/workDoneProgress/create"@ {
            Some(ClientRequestMethod::WorkDoneProgressCreate)
        } else {
            None
        }
    }

    pub fn name(self) -> (name: &'static str)
        ensures
            name@ == self.name_spec(),
    {
        match self {
            ClientRequestMethod::RegisterCapability => "client/registerCapability",
            ClientRequestMethod::UnregisterCapability => "client/unregisterCapability",
            ClientRequestMethod::InlayHintRefresh => "workspace/inlayHint/refresh",
            ClientRequestMethod::SemanticTokensRefresh => "workspace/semanticTokens/refresh",
            ClientRequestMethod::InlineValueRefresh => "workspace/inlineValue/refresh",
            ClientRequestMethod::WorkspaceDiagnosticsRefresh => "workspace/diagnostic/refresh",
            ClientRequestMethod::Configuration => "workspace/configuration",
            ClientRequestMethod::WorkspaceFolders => "workspace/workspaceFolders",
            ClientRequestMethod::ApplyWorkspaceEdit => "workspace/applyEdit",
            ClientRequestMethod::ShowMessageRequest => "window/showMessageRequest",
            ClientRequestMethod::ShowDocument => "window/showDocument",
            ClientRequestMethod::WorkDoneProgressCreate => "window/workDoneProgress/create",
        }
    }

    pub fn from_name(name: &str) -> (method: Option<ClientRequestMethod>)
        ensures
            method == Self::named(name@),
    {
        if text_eq(name, "client/registerCapability") {
            Some(ClientRequestMethod::RegisterCapability)
        } else if text_eq(name, "client/unregisterCapability") {
            Some(ClientRequestMethod::UnregisterCapability)
        } else if text_eq(name, "workspace/inlayHint/refresh") {
            Some(ClientRequestMethod::InlayHintRefresh)
        } else if text_eq(name, "workspace/semanticTokens/refresh") {
            Some(ClientRequestMethod::SemanticTokensRefresh)
        } else if text_eq(name, "workspace/inlineValue/refresh") {
            Some(ClientRequestMethod::InlineValueRefresh)
        } else if text_eq(name, "workspace/diagnostic/refresh") {
            Some(ClientRequestMethod::WorkspaceDiagnosticsRefresh)
        } else if text_eq(name, "workspace/configuration") {
            Some(ClientRequestMethod::Configuration)
        } else if text_eq(name, "workspace/workspaceFolders") {
            Some(ClientRequestMethod::WorkspaceFolders)
        } else if text_eq(name, "workspace/applyEdit") {
            Some(ClientRequestMethod::ApplyWorkspaceEdit)
        } else if text_eq(name, "window/showMessageRequest") {
            Some(ClientRequestMethod::ShowMessageRequest)
        } else if text_eq(name, "window/showDocument") {
            Some(ClientRequestMethod::ShowDocument)
        } else if text_eq(name, "window/workDoneProgress/create") {
            Some(ClientRequestMethod::WorkDoneProgressCreate)
        } else {
            None
        }
    }

    /// A method is the one that its name names.
    pub proof fn lemma_named_name(self)
        ensures
            Self::named(self.name_spec()) == Some(self),
    {
        lemma_client_request_method_names();
    }

    /// A name names no other method than the one that has it.
    pub proof fn lemma_name_named(name: Seq<char>)
        ensures
            Self::named(name) matches Some(method) ==> method.name_spec() == name,
    {
    }
}

/// How long the name of each request method on the client's side is, and the
/// characters that tell it from every other request method of its length.
pub proof fn lemma_client_request_method_names()
    ensures
        "client/registerCapability"@.len() == 25,
        "client/registerCapability"@[0] == 'c',
        "client/unregisterCapability"@.len() == 27,
        "client/unregisterCapability"@[0] == 'c',
        "client/unregisterCapability"@[1] == 'l',
        "workspace/inlayHint/refresh"@.len() == 27,
        "workspace/inlayHint/refresh"@[0] == 'w',
        "workspace/semanticTokens/refresh"@.len() == 32,
        "workspace/semanticTokens/refresh"@[0] == 'w',
        "workspace/inlineValue/refresh"@.len() == 29,
        "workspace/inlineValue/refresh"@[0] == 'w',
        "workspace/diagnostic/refresh"@.len() == 28,
        "workspace/diagnostic/refresh"@[0] == 'w',
        "workspace/configuration"@.len() == 23,
        "workspace/configuration"@[0] == 'w',
        "workspace/configuration"@[9] == '/',
        "workspace/workspaceFolders"@.len() == 26,
        "workspace/workspaceFolders"@[0] == 'w',
        "workspace/workspaceFolders"@[10] == 'w',
        "workspace/applyEdit"@.len() == 19,
        "workspace/applyEdit"@[0] == 'w',
        "workspace/applyEdit"@[1] == 'o',
        "window/showMessageRequest"@.len() == 25,
        "window/showMessageRequest"@[0] == 'w',
        "window/showMessageRequest"@[1] == 'i',
        "window/showDocument"@.len() == 19,
        "window/showDocument"@[0] == 'w',
        "window/showDocument"@[1] == 'i',
        "window/workDoneProgress/create"@.len() == 30,
        "window/workDoneProgress/create"@[0] == 'w',
{
    reveal_strlit("client/registerCapability");
    reveal_strlit("client/unregisterCapability");
    reveal_strlit("workspace/inlayHint/refresh");
    reveal_strlit("workspace/semanticTokens/refresh");
    reveal_strlit("workspace/inlineValue/refresh");
    reveal_strlit("workspace/diagnostic/refresh");
    reveal_strlit("workspace/configuration");
    reveal_strlit("workspace/workspaceFolders");
    reveal_strlit("workspace/applyEdit");
    reveal_strlit("window/showMessageRequest");
    reveal_strlit("window/showDocument");
    reveal_strlit("window/workDoneProgress/create");
}

/// The requests that a server sends and a client answers.
#[derive(Debug, PartialEq)]
pub enum AllClientRequests {
    RegisterCapability(RequestMessage),
    UnregisterCapability(RequestMessage),
    InlayHintRefresh(RequestMessage),
    SemanticTokensRefresh(RequestMessage),
    InlineValueRefresh(RequestMessage),
    WorkspaceDiagnosticsRefresh(RequestMessage),
    Configuration(RequestMessage),
    WorkspaceFolders(RequestMessage),
    ApplyWorkspaceEdit(RequestMessage),
    ShowMessageRequest(RequestMessage),
    ShowDocument(RequestMessage),
    WorkDoneProgressCreate(RequestMessage),
}

impl AllClientRequests {
    /// The method of this request.
    pub open spec fn method_spec(&self) -> ClientRequestMethod {
        match self {
            AllClientRequests::RegisterCapability(_) => ClientRequestMethod::RegisterCapability,
            AllClientRequests::UnregisterCapability(_) => ClientRequestMethod::UnregisterCapability,
            AllClientRequests::InlayHintRefresh(_) => ClientRequestMethod::InlayHintRefresh,
            AllClientRequests::SemanticTokensRefresh(_) => {
                ClientRequestMethod::SemanticTokensRefresh
            },
            AllClientRequests::InlineValueRefresh(_) => ClientRequestMethod::InlineValueRefresh,
            AllClientRequests::WorkspaceDiagnosticsRefresh(_) => {
                ClientRequestMethod::WorkspaceDiagnosticsRefresh
            },
            AllClientRequests::Configuration(_) => ClientRequestMethod::Configuration,
            AllClientRequests::WorkspaceFolders(_) => ClientRequestMethod::WorkspaceFolders,
            AllClientRequests::ApplyWorkspaceEdit(_) => ClientRequestMethod::ApplyWorkspaceEdit,
            AllClientRequests::ShowMessageRequest(_) => ClientRequestMethod::ShowMessageRequest,
            AllClientRequests::ShowDocument(_) => ClientRequestMethod::ShowDocument,
            AllClientRequests::WorkDoneProgressCreate(_) => {
                ClientRequestMethod::WorkDoneProgressCreate
            },
        }
    }

    /// The request without its method.
    pub open spec fn message_spec(&self) -> RequestMessage {
        match self {
            AllClientRequests::RegisterCapability(message) => *message,
            AllClientRequests::UnregisterCapability(message) => *message,
            AllClientRequests::InlayHintRefresh(message) => *message,
            AllClientRequests::SemanticTokensRefresh(message) => *message,
            AllClientRequests::InlineValueRefresh(message) => *message,
            AllClientRequests::WorkspaceDiagnosticsRefresh(message) => *message,
            AllClientRequests::Configuration(message) => *message,
            AllClientRequests::WorkspaceFolders(message) => *message,
            AllClientRequests::ApplyWorkspaceEdit(message) => *message,
            AllClientRequests::ShowMessageRequest(message) => *message,
            AllClientRequests::ShowDocument(message) => *message,
            AllClientRequests::WorkDoneProgressCreate(message) => *message,
        }
    }

    pub fn method(&self) -> (method: ClientRequestMethod)
        ensures
            method == self.method_spec(),
    {
        match self {
            AllClientRequests::RegisterCapability(_) => ClientRequestMethod::RegisterCapability,
            AllClientRequests::UnregisterCapability(_) => ClientRequestMethod::UnregisterCapability,
            AllClientRequests::InlayHintRefresh(_) => ClientRequestMethod::InlayHintRefresh,
            AllClientRequests::SemanticTokensRefresh(_) => {
                ClientRequestMethod::SemanticTokensRefresh
            },
            AllClientRequests::InlineValueRefresh(_) => ClientRequestMethod::InlineValueRefresh,
            AllClientRequests::WorkspaceDiagnosticsRefresh(_) => {
                ClientRequestMethod::WorkspaceDiagnosticsRefresh
            },
            AllClientRequests::Configuration(_) => ClientRequestMethod::Configuration,
            AllClientRequests::WorkspaceFolders(_) => ClientRequestMethod::WorkspaceFolders,
            AllClientRequests::ApplyWorkspaceEdit(_) => ClientRequestMethod::ApplyWorkspaceEdit,
            AllClientRequests::ShowMessageRequest(_) => ClientRequestMethod::ShowMessageRequest,
            AllClientRequests::ShowDocument(_) => ClientRequestMethod::ShowDocument,
            AllClientRequests::WorkDoneProgressCreate(_) => {
                ClientRequestMethod::WorkDoneProgressCreate
            },
        }
    }

    pub fn message(&self) -> (message: &RequestMessage)
        ensures
            *message == self.message_spec(),
    {
        match self {
            AllClientRequests::RegisterCapability(message) => message,
            AllClientRequests::UnregisterCapability(message) => message,
            AllClientRequests::InlayHintRefresh(message) => message,
            AllClientRequests::SemanticTokensRefresh(message) => message,
            AllClientRequests::InlineValueRefresh(message) => message,
            AllClientRequests::WorkspaceDiagnosticsRefresh(message) => message,
            AllClientRequests::Configuration(message) => message,
            AllClientRequests::WorkspaceFolders(message) => message,
            AllClientRequests::ApplyWorkspaceEdit(message) => message,
            AllClientRequests::ShowMessageRequest(message) => message,
            AllClientRequests::ShowDocument(message) => message,
            AllClientRequests::WorkDoneProgressCreate(message) => message,
        }
    }

    /// The request of the method `method` that `message` holds.
    pub fn new(method: ClientRequestMethod, message: RequestMessage) -> (made: AllClientRequests)
        ensures
            made.method_spec() == method,
            made.message_spec() == message,
    {
        match method {
            ClientRequestMethod::RegisterCapability => {
                AllClientRequests::RegisterCapability(message)
            },
            ClientRequestMethod::UnregisterCapability => {
                AllClientRequests::UnregisterCapability(message)
            },
            ClientRequestMethod::InlayHintRefresh => AllClientRequests::InlayHintRefresh(message),
            ClientRequestMethod::SemanticTokensRefresh => {
                AllClientRequests::SemanticTokensRefresh(message)
            },
            ClientRequestMethod::InlineValueRefresh => {
                AllClientRequests::InlineValueRefresh(message)
            },
            ClientRequestMethod::WorkspaceDiagnosticsRefresh => {
                AllClientRequests::WorkspaceDiagnosticsRefresh(message)
            },
            ClientRequestMethod::Configuration => AllClientRequests::Configuration(message),
            ClientRequestMethod::WorkspaceFolders => AllClientRequests::WorkspaceFolders(message),
            ClientRequestMethod::ApplyWorkspaceEdit => {
                AllClientRequests::ApplyWorkspaceEdit(message)
            },
            ClientRequestMethod::ShowMessageRequest => {
                AllClientRequests::ShowMessageRequest(message)
            },
            ClientRequestMethod::ShowDocument => AllClientRequests::ShowDocument(message),
            ClientRequestMethod::WorkDoneProgressCreate => {
                AllClientRequests::WorkDoneProgressCreate(message)
            },
        }
    }
}

impl LspRequest for AllClientRequests {
    open spec fn request_id_spec(&self) -> RequestId {
        self.message_spec().id
    }

    fn request_id(&self) -> (id: &RequestId) {
        match self {
            AllClientRequests::RegisterCapability(request) => request.request_id(),
            AllClientRequests::UnregisterCapability(request) => request.request_id(),
            AllClientRequests::InlayHintRefresh(request) => request.request_id(),
            AllClientRequests::SemanticTokensRefresh(request) => request.request_id(),
            AllClientRequests::InlineValueRefresh(request) => request.request_id(),
            AllClientRequests::WorkspaceDiagnosticsRefresh(request) => request.request_id(),
            AllClientRequests::Configuration(request) => request.request_id(),
            AllClientRequests::WorkspaceFolders(request) => request.request_id(),
            AllClientRequests::ApplyWorkspaceEdit(request) => request.request_id(),
            AllClientRequests::ShowMessageRequest(request) => request.request_id(),
            AllClientRequests::ShowDocument(request) => request.request_id(),
            AllClientRequests::WorkDoneProgressCreate(request) => request.request_id(),
        }
    }
}

/// The methods of the requests that a client sends and a server answers.
#[derive(Debug, Clone, Copy, PartialEq, Eq, Structural)]
pub enum ServerRequestMethod {
    Initialize,
    Shutdown,
    WillSaveWaitUntilTextDocument,
    GotoDeclaration,
    GotoDefinition,
    GotoTypeDefinition,
    GotoImplementation,
    References,
    CallHierarchyPrepare,
    CallHierarchyIncoming,
    CallHierarchyOutgoing,
    TypeHierarchyPrepare,
    TypeHierarchySuper,
    TypeHierarchySub,
    DocumentHighlights,
    DocumentLink,
    DocumentLinkResolve,
    Hover,
    CodeLens,
    CodeLensResolve,
    CodeLensRefresh,
    FoldingRange,
    SelectionRange,
    DocumentSymbols,
    SemanticTokensFull,
    SemanticTokensFullDelta,
    SemanticTokensRange,
    InlayHint,
    InlayHindResolve,
    InlineValue,
    Moniker,
    Completion,
    ResolveCompletionItem,
    DocumentDiagnostics,
    WorkspaceDiagnostics,
    SignatureHelp,
    CodeAction,
    CodeActionResolve,
    DocumentColor,
    ColorPresentation,
    DocumentFormatting,
    DocumentRangeFormatting,
    DocumentOnTypeFormatting,
    Rename,
    PrepareRename,
    LinkedEditingRange,
    WorkspaceSymbols,
    WorkspaceSymbolsResolve,
    WillCreateFiles,
    WillRenameFiles,
    WillDeleteFiles,
    ExecuteCommand,
}

impl ServerRequestMethod {
    /// The name of the method on the wire.
    pub open spec fn name_spec(self) -> Seq<char> {
        match self {
            ServerRequestMethod::Initialize => "initialize"@,
            ServerRequestMethod::Shutdown => "shutdown"@,
            ServerRequestMethod::WillSaveWaitUntilTextDocument => "textDocument/willSaveWaitUntil"@,
            ServerRequestMethod::GotoDeclaration => "textDocument/declaration"@,
            ServerRequestMethod::GotoDefinition => "textDocument/definition"@,
            ServerRequestMethod::GotoTypeDefinition => "textDocument/typeDefinition"@,
            ServerRequestMethod::GotoImplementation => "textDocument/implementation"@,
            ServerRequestMethod::References => "textDocument/references"@,
            ServerRequestMethod::CallHierarchyPrepare => "textDocument/prepareCallHierarchy"@,
            ServerRequestMethod::CallHierarchyIncoming => "callHierarchy/incomingCalls"@,
            ServerRequestMethod::CallHierarchyOutgoing => "callHierarchy/outgoingCalls"@,
            ServerRequestMethod::TypeHierarchyPrepare => "textDocument/prepareTypeHierarchy"@,
            ServerRequestMethod::TypeHierarchySuper => "typeHierarchy/supertypes"@,
            ServerRequestMethod::TypeHierarchySub => "typeHierarchy/subtypes"@,
            ServerRequestMethod::DocumentHighlights => "textDocument/documentHighlight"@,
            ServerRequestMethod::DocumentLink => "textDocument/documentLink"@,
            ServerRequestMethod::DocumentLinkResolve => "documentLink/resolve"@,
            ServerRequestMethod::Hover => "textDocument/hover"@,
            ServerRequestMethod::CodeLens => "textDocument/codeLens"@,
            ServerRequestMethod::CodeLensResolve => "codeLens/resolve"@,
            ServerRequestMethod::CodeLensRefresh => "workspace/codeLens/refresh"@,
            ServerRequestMethod::FoldingRange => "textDocument/foldingRange"@,
            ServerRequestMethod::SelectionRange => "textDocument/selectionRange"@,
            ServerRequestMethod::DocumentSymbols => "textDocument/documentSymbol"@,
            ServerRequestMethod::SemanticTokensFull => "textDocument/semanticTokens/full"@,
            ServerRequestMethod::SemanticTokensFullDelta => {
                "textDocument/semanticTokens/full/delta"@
            },
            ServerRequestMethod::SemanticTokensRange => "textDocument/semanticTokens/range"@,
            ServerRequestMethod::InlayHint => "textDocument/inlayHint"@,
            ServerRequestMethod::InlayHindResolve => "inlayHint/resolve"@,
            ServerRequestMethod::InlineValue => "textDocument/inlineValue"@,
            ServerRequestMethod::Moniker => "textDocument/moniker"@,
            ServerRequestMethod::Completion => "textDocument/completion"@,
            ServerRequestMethod::ResolveCompletionItem => "completionItem/resolve"@,
            ServerRequestMethod::DocumentDiagnostics => "textDocument/diagnostic"@,
            ServerRequestMethod::WorkspaceDiagnostics => "workspace/diagnostic"@,
            ServerRequestMethod::SignatureHelp => "textDocument/signatureHelp"@,
            ServerRequestMethod::CodeAction => "textDocument/codeAction"@,
            ServerRequestMethod::CodeActionResolve => "codeAction/resolve"@,
            ServerRequestMethod::DocumentColor => "textDocument/documentColor"@,
            ServerRequestMethod::ColorPresentation => "textDocument/colorPresentation"@,
            ServerRequestMethod::DocumentFormatting => "textDocument/formatting"@,
            ServerRequestMethod::DocumentRangeFormatting => "textDocument/rangeFormatting"@,
            ServerRequestMethod::DocumentOnTypeFormatting => "textDocument/onTypeFormatting"@,
            ServerRequestMethod::Rename => "textDocument/rename"@,
            ServerRequestMethod::PrepareRename => "textDocument/prepareRename"@,
            ServerRequestMethod::LinkedEditingRange => "textDocument/linkedEditingRange"@,
            ServerRequestMethod::WorkspaceSymbols => "workspace/symbol"@,
            ServerRequestMethod::WorkspaceSymbolsResolve => "workspaceSymbol/resolve"@,
            ServerRequestMethod::WillCreateFiles => "workspace/willCreateFiles"@,
            ServerRequestMethod::WillRenameFiles => "workspace/willRenameFiles"@,
            ServerRequestMethod::WillDeleteFiles => "workspace/willDeleteFiles"@,
            ServerRequestMethod::ExecuteCommand => "workspace/executeCommand"@,
        }
    }

    /// The method of this name, where there is one.
    pub open spec fn named(name: Seq<char>) -> Option<ServerRequestMethod> {
        if name == "initialize"@ {
            Some(ServerRequestMethod::Initialize)
        } else if name == "shutdown"@ {
            Some(ServerRequestMethod::Shutdown)
        } else if name == "textDocument/willSaveWaitUntil"@ {
            Some(ServerRequestMethod::WillSaveWaitUntilTextDocument)
        } else if name == "textDocument/declaration"@ {
            Some(ServerRequestMethod::GotoDeclaration)
        } else if name == "textDocument/definition"@ {
            Some(ServerRequestMethod::GotoDefinition)
        } else if name == "textDocument/typeDefinition"@ {
            Some(ServerRequestMethod::GotoTypeDefinition)
        } else if name == "textDocument/implementation"@ {
            Some(ServerRequestMethod::GotoImplementation)
        } else if name == "textDocument/references"@ {
            Some(ServerRequestMethod::References)
        } else if name == "textDocument/prepareCallHierarchy"@ {
            Some(ServerRequestMethod::CallHierarchyPrepare)
        } else if name == "callHierarchy/incomingCalls"@ {
            Some(ServerRequestMethod::CallHierarchyIncoming)
        } else if name == "callHierarchy/outgoingCalls"@ {
            Some(ServerRequestMethod::CallHierarchyOutgoing)
        } else if name == "textDocument/prepareTypeHierarchy"@ {
            Some(ServerRequestMethod::TypeHierarchyPrepare)
        } else if name == "typeHierarchy/supertypes"@ {
            Some(ServerRequestMethod::TypeHierarchySuper)
        } else if name == "typeHierarchy/subtypes"@ {
            Some(ServerRequestMethod::TypeHierarchySub)
        } else if name == "textDocument/documentHighlight"@ {
            Some(ServerRequestMethod::DocumentHighlights)
        } else if name == "textDocument/documentLink"@ {
            Some(ServerRequestMethod::DocumentLink)
        } else if name == "documentLink/resolve"@ {
            Some(ServerRequestMethod::DocumentLinkResolve)
        } else if name == "textDocument/hover"@ {
            Some(ServerRequestMethod::Hover)
        } else if name == "textDocument/codeLens"@ {
            Some(ServerRequestMethod::CodeLens)
        } else if name == "codeLens/resolve"@ {
            Some(ServerRequestMethod::CodeLensResolve)
        } else if name == "workspace/codeLens/refresh"@ {
            Some(ServerRequestMethod::CodeLensRefresh)
        } else if name == "textDocument/foldingRange"@ {
            Some(ServerRequestMethod::FoldingRange)
        } else if name == "textDocument/selectionRange"@ {
            Some(ServerRequestMethod::SelectionRange)
        } else if name == "textDocument/documentSymbol"@ {
            Some(ServerRequestMethod::DocumentSymbols)
        } else if name == "textDocument/semanticTokens/full"@ {
            Some(ServerRequestMethod::SemanticTokensFull)
        } else if name == "textDocument/semanticTokens/full/delta"@ {
            Some(ServerRequestMethod::SemanticTokensFullDelta)
        } else if name == "textDocument/semanticTokens/range"@ {
            Some(ServerRequestMethod::SemanticTokensRange)
        } else if name == "textDocument/inlayHint"@ {
            Some(ServerRequestMethod::InlayHint)
        } else if name == "inlayHint/resolve"@ {
            Some(ServerRequestMethod::InlayHindResolve)
        } else if name == "textDocument/inlineValue"@ {
            Some(ServerRequestMethod::InlineValue)
        } else if name == "textDocument/moniker"@ {
            Some(ServerRequestMethod::Moniker)
        } else if name == "textDocument/completion"@ {
            Some(ServerRequestMethod::Completion)
        } else if name == "completionItem/resolve"@ {
            Some(ServerRequestMethod::ResolveCompletionItem)
        } else if name == "textDocument/diagnostic"@ {
            Some(ServerRequestMethod::DocumentDiagnostics)
        } else if name == "workspace/diagnostic"@ {
            Some(ServerRequestMethod::WorkspaceDiagnostics)
        } else if name == "textDocument/signatureHelp"@ {
            Some(ServerRequestMethod::SignatureHelp)
        } else if name == "textDocument/codeAction"@ {
            Some(ServerRequestMethod::CodeAction)
        } else if name == "codeAction/resolve"@ {
            Some(ServerRequestMethod::CodeActionResolve)
        } else if name == "textDocument/documentColor"@ {
            Some(ServerRequestMethod::DocumentColor)
        } else if name == "textDocument/colorPresentation"@ {
            Some(ServerRequestMethod::ColorPresentation)
        } else if name == "textDocument/formatting"@ {
            Some(ServerRequestMethod::DocumentFormatting)
        } else if name == "textDocument/rangeFormatting"@ {
            Some(ServerRequestMethod::DocumentRangeFormatting)
        } else if name == "textDocument/onTypeFormatting"@ {
            Some(ServerRequestMethod::DocumentOnTypeFormatting)
        } else if name == "textDocument/rename"@ {
            Some(ServerRequestMethod::Rename)
        } else if name == "textDocument/prepareRename"@ {
            Some(ServerRequestMethod::PrepareRename)
        } else if name == "textDocument/linkedEditingRange"@ {
            Some(ServerRequestMethod::LinkedEditingRange)
        } else if name == "workspace/symbol"@ {
            Some(ServerRequestMethod::WorkspaceSymbols)
        } else if name == "workspaceSymbol/resolve"@ {
            Some(ServerRequestMethod::WorkspaceSymbolsResolve)
        } else if name == "workspace/willCreateFiles"@ {
            Some(ServerRequestMethod::WillCreateFiles)
        } else if name == "workspace/willRenameFiles"@ {
            Some(ServerRequestMethod::WillRenameFiles)
        } else if name == "workspace/willDeleteFiles"@ {
            Some(ServerRequestMethod::WillDeleteFiles)
        } else if name == "workspace/executeCommand"@ {
            Some(ServerRequestMethod::ExecuteCommand)
        } else {
            None
        }
    }

    pub fn name(self) -> (name: &'static str)
        ensures
            name@ == self.name_spec(),
    {
        match self {
            ServerRequestMethod::Initialize => "initialize",
            ServerRequestMethod::Shutdown => "shutdown",
            ServerRequestMethod::WillSaveWaitUntilTextDocument => "textDocument/willSaveWaitUntil",
            ServerRequestMethod::GotoDeclaration => "textDocument/declaration",
            ServerRequestMethod::GotoDefinition => "textDocument/definition",
            ServerRequestMethod::GotoTypeDefinition => "textDocument/typeDefinition",
            ServerRequestMethod::GotoImplementation => "textDocument/implementation",
            ServerRequestMethod::References => "textDocument/references",
            ServerRequestMethod::CallHierarchyPrepare => "textDocument/prepareCallHierarchy",
            ServerRequestMethod::CallHierarchyIncoming => "callHierarchy/incomingCalls",
            ServerRequestMethod::CallHierarchyOutgoing => "callHierarchy/outgoingCalls",
            ServerRequestMethod::TypeHierarchyPrepare => "textDocument/prepareTypeHierarchy",
            ServerRequestMethod::TypeHierarchySuper => "typeHierarchy/supertypes",
            ServerRequestMethod::TypeHierarchySub => "typeHierarchy/subtypes",
            ServerRequestMethod::DocumentHighlights => "textDocument/documentHighlight",
            ServerRequestMethod::DocumentLink => "textDocument/documentLink",
            ServerRequestMethod::DocumentLinkResolve => "documentLink/resolve",
            ServerRequestMethod::Hover => "textDocument/hover",
            ServerRequestMethod::CodeLens => "textDocument/codeLens",
            ServerRequestMethod::CodeLensResolve => "codeLens/resolve",
            ServerRequestMethod::CodeLensRefresh => "workspace/codeLens/refresh",
            ServerRequestMethod::FoldingRange => "textDocument/foldingRange",
            ServerRequestMethod::SelectionRange => "textDocument/selectionRange",
            ServerRequestMethod::DocumentSymbols => "textDocument/documentSymbol",
            ServerRequestMethod::SemanticTokensFull => "textDocument/semanticTokens/full",
            ServerRequestMethod::SemanticTokensFullDelta => {
                "textDocument/semanticTokens/full/delta"
            },
            ServerRequestMethod::SemanticTokensRange => "textDocument/semanticTokens/range",
            ServerRequestMethod::InlayHint => "textDocument/inlayHint",
            ServerRequestMethod::InlayHindResolve => "inlayHint/resolve",
            ServerRequestMethod::InlineValue => "textDocument/inlineValue",
            ServerRequestMethod::Moniker => "textDocument/moniker",
            ServerRequestMethod::Completion => "textDocument/completion",
            ServerRequestMethod::ResolveCompletionItem => "completionItem/resolve",
            ServerRequestMethod::DocumentDiagnostics => "textDocument/diagnostic",
            ServerRequestMethod::WorkspaceDiagnostics => "workspace/diagnostic",
            ServerRequestMethod::SignatureHelp => "textDocument/signatureHelp",
            ServerRequestMethod::CodeAction => "textDocument/codeAction",
            ServerRequestMethod::CodeActionResolve => "codeAction/resolve",
            ServerRequestMethod::DocumentColor => "textDocument/documentColor",
            ServerRequestMethod::ColorPresentation => "textDocument/colorPresentation",
            ServerRequestMethod::DocumentFormatting => "textDocument/formatting",
            ServerRequestMethod::DocumentRangeFormatting => "textDocument/rangeFormatting",
            ServerRequestMethod::DocumentOnTypeFormatting => "textDocument/onTypeFormatting",
            ServerRequestMethod::Rename => "textDocument/rename",
            ServerRequestMethod::PrepareRename => "textDocument/prepareRename",
            ServerRequestMethod::LinkedEditingRange => "textDocument/linkedEditingRange",
            ServerRequestMethod::WorkspaceSymbols => "workspace/symbol",
            ServerRequestMethod::WorkspaceSymbolsResolve => "workspaceSymbol/resolve",
            ServerRequestMethod::WillCreateFiles => "workspace/willCreateFiles",
            ServerRequestMethod::WillRenameFiles => "workspace/willRenameFiles",
            ServerRequestMethod::WillDeleteFiles => "workspace/willDeleteFiles",
            ServerRequestMethod::ExecuteCommand => "workspace/executeCommand",
        }
    }

    pub fn from_name(name: &str) -> (method: Option<ServerRequestMethod>)
        ensures
            method == Self::named(name@),
    {
        if text_eq(name, "initialize") {
            Some(ServerRequestMethod::Initialize)
        } else if text_eq(name, "shutdown") {
            Some(ServerRequestMethod::Shutdown)
        } else if text_eq(name, "textDocument/willSaveWaitUntil") {
            Some(ServerRequestMethod::WillSaveWaitUntilTextDocument)
        } else if text_eq(name, "textDocument/declaration") {
            Some(ServerRequestMethod::GotoDeclaration)
        } else if text_eq(name, "textDocument/definition") {
            Some(ServerRequestMethod::GotoDefinition)
        } else if text_eq(name, "textDocument/typeDefinition") {
            Some(ServerRequestMethod::GotoTypeDefinition)
        } else if text_eq(name, "textDocument/implementation") {
            Some(ServerRequestMethod::GotoImplementation)
        } else if text_eq(name, "textDocument/references") {
            Some(ServerRequestMethod::References)
        } else if text_eq(name, "textDocument/prepareCallHierarchy") {
            Some(ServerRequestMethod::CallHierarchyPrepare)
        } else if text_eq(name, "callHierarchy/incomingCalls") {
            Some(ServerRequestMethod::CallHierarchyIncoming)
        } else if text_eq(name, "callHierarchy/outgoingCalls") {
            Some(ServerRequestMethod::CallHierarchyOutgoing)
        } else if text_eq(name, "textDocument/prepareTypeHierarchy") {
            Some(ServerRequestMethod::TypeHierarchyPrepare)
        } else if text_eq(name, "typeHierarchy/supertypes") {
            Some(ServerRequestMethod::TypeHierarchySuper)
        } else if text_eq(name, "typeHierarchy/subtypes") {
            Some(ServerRequestMethod::TypeHierarchySub)
        } else if text_eq(name, "textDocument/documentHighlight") {
            Some(ServerRequestMethod::DocumentHighlights)
        } else if text_eq(name, "textDocument/documentLink") {
            Some(ServerRequestMethod::DocumentLink)
        } else if text_eq(name, "documentLink/resolve") {
            Some(ServerRequestMethod::DocumentLinkResolve)
        } else if text_eq(name, "textDocument/hover") {
            Some(ServerRequestMethod::Hover)
        } else if text_eq(name, "textDocument/codeLens") {
            Some(ServerRequestMethod::CodeLens)
        } else if text_eq(name, "codeLens/resolve") {
            Some(ServerRequestMethod::CodeLensResolve)
        } else if text_eq(name, "workspace/codeLens/refresh") {
            Some(ServerRequestMethod::CodeLensRefresh)
        } else if text_eq(name, "textDocument/foldingRange") {
            Some(ServerRequestMethod::FoldingRange)
        } else if text_eq(name, "textDocument/selectionRange") {
            Some(ServerRequestMethod::SelectionRange)
        } else if text_eq(name, "textDocument/documentSymbol") {
            Some(ServerRequestMethod::DocumentSymbols)
        } else if text_eq(name, "textDocument/semanticTokens/full") {
            Some(ServerRequestMethod::SemanticTokensFull)
        } else if text_eq(name, "textDocument/semanticTokens/full/delta") {
            Some(ServerRequestMethod::SemanticTokensFullDelta)
        } else if text_eq(name, "textDocument/semanticTokens/range") {
            Some(ServerRequestMethod::SemanticTokensRange)
        } else if text_eq(name, "textDocument/inlayHint") {
            Some(ServerRequestMethod::InlayHint)
        } else if text_eq(name, "inlayHint/resolve") {
            Some(ServerRequestMethod::InlayHindResolve)
        } else if text_eq(name, "textDocument/inlineValue") {
            Some(ServerRequestMethod::InlineValue)
        } else if text_eq(name, "textDocument/moniker") {
            Some(ServerRequestMethod::Moniker)
        } else if text_eq(name, "textDocument/completion") {
            Some(ServerRequestMethod::Completion)
        } else if text_eq(name, "completionItem/resolve") {
            Some(ServerRequestMethod::ResolveCompletionItem)
        } else if text_eq(name, "textDocument/diagnostic") {
            Some(ServerRequestMethod::DocumentDiagnostics)
        } else if text_eq(name, "workspace/diagnostic") {
            Some(ServerRequestMethod::WorkspaceDiagnostics)
        } else if text_eq(name, "textDocument/signatureHelp") {
            Some(ServerRequestMethod::SignatureHelp)
        } else if text_eq(name, "textDocument/codeAction") {
            Some(ServerRequestMethod::CodeAction)
        } else if text_eq(name, "codeAction/resolve") {
            Some(ServerRequestMethod::CodeActionResolve)
        } else if text_eq(name, "textDocument/documentColor") {
            Some(ServerRequestMethod::DocumentColor)
        } else if text_eq(name, "textDocument/colorPresentation") {
            Some(ServerRequestMethod::ColorPresentation)
        } else if text_eq(name, "textDocument/formatting") {
            Some(ServerRequestMethod::DocumentFormatting)
        } else if text_eq(name, "textDocument/rangeFormatting") {
            Some(ServerRequestMethod::DocumentRangeFormatting)
        } else if text_eq(name, "textDocument/onTypeFormatting") {
            Some(ServerRequestMethod::DocumentOnTypeFormatting)
        } else if text_eq(name, "textDocument/rename") {
            Some(ServerRequestMethod::Rename)
        } else if text_eq(name, "textDocument/prepareRename") {
            Some(ServerRequestMethod::PrepareRename)
        } else if text_eq(name, "textDocument/linkedEditingRange") {
            Some(ServerRequestMethod::LinkedEditingRange)
        } else if text_eq(name, "workspace/symbol") {
            Some(ServerRequestMethod::WorkspaceSymbols)
        } else if text_eq(name, "workspaceSymbol/resolve") {
            Some(ServerRequestMethod::WorkspaceSymbolsResolve)
        } else if text_eq(name, "workspace/willCreateFiles") {
            Some(ServerRequestMethod::WillCreateFiles)
        } else if text_eq(name, "workspace/willRenameFiles") {
            Some(ServerRequestMethod::WillRenameFiles)
        } else if text_eq(name, "workspace/willDeleteFiles") {
            Some(ServerRequestMethod::WillDeleteFiles)
        } else if text_eq(name, "workspace/executeCommand") {
            Some(ServerRequestMethod::ExecuteCommand)
        } else {
            None
        }
    }

    /// A method is the one that its name names.
    pub proof fn lemma_named_name(self)
        ensures
            Self::named(self.name_spec()) == Some(self),
    {
        lemma_server_request_method_names();
    }

    /// A name names no other method than the one that has it.
    pub proof fn lemma_name_named(name: Seq<char>)
        ensures
            Self::named(name) matches Some(method) ==> method.name_spec() == name,
    {
    }
}

/// How long the name of each request method on the server's side is, and the
/// characters that tell it from every other request method of its length.
pub proof fn lemma_server_request_method_names()
    ensures
        "initialize"@.len() == 10,
        "shutdown"@.len() == 8,
        "textDocument/willSaveWaitUntil"@.len() == 30,
        "textDocument/willSaveWaitUntil"@[0] == 't',
        "textDocument/willSaveWaitUntil"@[13] == 'w',
        "textDocument/declaration"@.len() == 24,
        "textDocument/declaration"@[0] == 't',
        "textDocument/declaration"@[1] == 'e',
        "textDocument/declaration"@[13] == 'd',
        "textDocument/definition"@.len() == 23,
        "textDocument/definition"@[0] == 't',
        "textDocument/definition"@[13] == 'd',
        "textDocument/definition"@[14] == 'e',
        "textDocument/typeDefinition"@.len() == 27,
        "textDocument/typeDefinition"@[0] == 't',
        "textDocument/typeDefinition"@[13] == 't',
        "textDocument/implementation"@.len() == 27,
        "textDocument/implementation"@[0] == 't',
        "textDocument/implementation"@[13] == 'i',
        "textDocument/references"@.len() == 23,
        "textDocument/references"@[0] == 't',
        "textDocument/references"@[13] == 'r',
        "textDocument/prepareCallHierarchy"@.len() == 33,
        "textDocument/prepareCallHierarchy"@[13] == 'p',
        "textDocument/prepareCallHierarchy"@[20] == 'C',
        "callHierarchy/incomingCalls"@.len() == 27,
        "callHierarchy/incomingCalls"@[0] == 'c',
        "callHierarchy/incomingCalls"@[1] == 'a',
        "callHierarchy/incomingCalls"@[14] == 'i',
        "callHierarchy/outgoingCalls"@.len() == 27,
        "callHierarchy/outgoingCalls"@[0] == 'c',
        "callHierarchy/outgoingCalls"@[1] == 'a',
        "callHierarchy/outgoingCalls"@[14] == 'o',
        "textDocument/prepareTypeHierarchy"@.len() == 33,
        "textDocument/prepareTypeHierarchy"@[13] == 'p',
        "textDocument/prepareTypeHierarchy"@[20] == 'T',
        "typeHierarchy/supertypes"@.len() == 24,
        "typeHierarchy/supertypes"@[0] == 't',
        "typeHierarchy/supertypes"@[1] == 'y',
        "typeHierarchy/subtypes"@.len() == 22,
        "typeHierarchy/subtypes"@[0] == 't',
        "typeHierarchy/subtypes"@[1] == 'y',
        "textDocument/documentHighlight"@.len() == 30,
        "textDocument/documentHighlight"@[0] == 't',
        "textDocument/documentHighlight"@[13] == 'd',
        "textDocument/documentLink"@.len() == 25,
        "textDocument/documentLink"@[0] == 't',
        "textDocument/documentLink"@[13] == 'd',
        "documentLink/resolve"@.len() == 20,
        "documentLink/resolve"@[0] == 'd',
        "textDocument/hover"@.len() == 18,
        "textDocument/hover"@[0] == 't',
        "textDocument/codeLens"@.len() == 21,
        "codeLens/resolve"@.len() == 16,
        "codeLens/resolve"@[0] == 'c',
        "workspace/codeLens/refresh"@.len() == 26,
        "workspace/codeLens/refresh"@[0] == 'w',
        "workspace/codeLens/refresh"@[10] == 'c',
        "textDocument/foldingRange"@.len() == 25,
        "textDocument/foldingRange"@[0] == 't',
        "textDocument/foldingRange"@[13] == 'f',
        "textDocument/selectionRange"@.len() == 27,
        "textDocument/selectionRange"@[0] == 't',
        "textDocument/selectionRange"@[13] == 's',
        "textDocument/documentSymbol"@.len() == 27,
        "textDocument/documentSymbol"@[0] == 't',
        "textDocument/documentSymbol"@[13] == 'd',
        "textDocument/semanticTokens/full"@.len() == 32,
        "textDocument/semanticTokens/full"@[0] == 't',
        "textDocument/semanticTokens/full/delta"@.len() == 38,
        "textDocument/semanticTokens/range"@.len() == 33,
        "textDocument/semanticTokens/range"@[13] == 's',
        "textDocument/inlayHint"@.len() == 22,
        "textDocument/inlayHint"@[0] == 't',
        "textDocument/inlayHint"@[1] == 'e',
        "inlayHint/resolve"@.len() == 17,
        "textDocument/inlineValue"@.len() == 24,
        "textDocument/inlineValue"@[0] == 't',
        "textDocument/inlineValue"@[1] == 'e',
        "textDocument/inlineValue"@[13] == 'i',
        "textDocument/moniker"@.len() == 20,
        "textDocument/moniker"@[0] == 't',
        "textDocument/completion"@.len() == 23,
        "textDocument/completion"@[0] == 't',
        "textDocument/completion"@[13] == 'c',
        "textDocument/completion"@[15] == 'm',
        "completionItem/resolve"@.len() == 22,
        "completionItem/resolve"@[0] == 'c',
        "textDocument/diagnostic"@.len() == 23,
        "textDocument/diagnostic"@[0] == 't',
        "textDocument/diagnostic"@[13] == 'd',
        "textDocument/diagnostic"@[14] == 'i',
        "workspace/diagnostic"@.len() == 20,
        "workspace/diagnostic"@[0] == 'w',
        "textDocument/signatureHelp"@.len() == 26,
        "textDocument/signatureHelp"@[0] == 't',
        "textDocument/signatureHelp"@[13] == 's',
        "textDocument/codeAction"@.len() == 23,
        "textDocument/codeAction"@[0] == 't',
        "textDocument/codeAction"@[13] == 'c',
        "textDocument/codeAction"@[15] == 'd',
        "codeAction/resolve"@.len() == 18,
        "codeAction/resolve"@[0] == 'c',
        "textDocument/documentColor"@.len() == 26,
        "textDocument/documentColor"@[0] == 't',
        "textDocument/documentColor"@[13] == 'd',
        "textDocument/colorPresentation"@.len() == 30,
        "textDocument/colorPresentation"@[0] == 't',
        "textDocument/colorPresentation"@[13] == 'c',
        "textDocument/formatting"@.len() == 23,
        "textDocument/formatting"@[0] == 't',
        "textDocument/formatting"@[13] == 'f',
        "textDocument/rangeFormatting"@.len() == 28,
        "textDocument/rangeFormatting"@[0] == 't',
        "textDocument/onTypeFormatting"@.len() == 29,
        "textDocument/onTypeFormatting"@[0] == 't',
        "textDocument/rename"@.len() == 19,
        "textDocument/rename"@[0] == 't',
        "textDocument/prepareRename"@.len() == 26,
        "textDocument/prepareRename"@[0] == 't',
        "textDocument/prepareRename"@[13] == 'p',
        "textDocument/linkedEditingRange"@.len() == 31,
        "workspace/symbol"@.len() == 16,
        "workspace/symbol"@[0] == 'w',
        "workspaceSymbol/resolve"@.len() == 23,
        "workspaceSymbol/resolve"@[0] == 'w',
        "workspaceSymbol/resolve"@[9] == 'S',
        "workspace/willCreateFiles"@.len() == 25,
        "workspace/willCreateFiles"@[0] == 'w',
        "workspace/willCreateFiles"@[1] == 'o',
        "workspace/willCreateFiles"@[14] == 'C',
        "workspace/willRenameFiles"@.len() == 25,
        "workspace/willRenameFiles"@[0] == 'w',
        "workspace/willRenameFiles"@[1] == 'o',
        "workspace/willRenameFiles"@[14] == 'R',
        "workspace/willDeleteFiles"@.len() == 25,
        "workspace/willDeleteFiles"@[0] == 'w',
        "workspace/willDeleteFiles"@[1] == 'o',
        "workspace/willDeleteFiles"@[14] == 'D',
        "workspace/executeCommand"@.len() == 24,
        "workspace/executeCommand"@[0] == 'w',
{
    reveal_strlit("initialize");
    reveal_strlit("shutdown");
    reveal_strlit("textDocument/willSaveWaitUntil");
    reveal_strlit("textDocument/declaration");
    reveal_strlit("textDocument/definition");
    reveal_strlit("textDocument/typeDefinition");
    reveal_strlit("textDocument/implementation");
    reveal_strlit("textDocument/references");
    reveal_strlit("textDocument/prepareCallHierarchy");
    reveal_strlit("callHierarchy/incomingCalls");
    reveal_strlit("callHierarchy/outgoingCalls");
    reveal_strlit("textDocument/prepareTypeHierarchy");
    reveal_strlit("typeHierarchy/supertypes");
    reveal_strlit("typeHierarchy/subtypes");
    reveal_strlit("textDocument/documentHighlight");
    reveal_strlit("textDocument/documentLink");
    reveal_strlit("documentLink/resolve");
    reveal_strlit("textDocument/hover");
    reveal_strlit("textDocument/codeLens");
    reveal_strlit("codeLens/resolve");
    reveal_strlit("workspace/codeLens/refresh");
    reveal_strlit("textDocument/foldingRange");
    reveal_strlit("textDocument/selectionRange");
    reveal_strlit("textDocument/documentSymbol");
    reveal_strlit("textDocument/semanticTokens/full");
    reveal_strlit("textDocument/semanticTokens/full/delta");
    reveal_strlit("textDocument/semanticTokens/range");
    reveal_strlit("textDocument/inlayHint");
    reveal_strlit("inlayHint/resolve");
    reveal_strlit("textDocument/inlineValue");
    reveal_strlit("textDocument/moniker");
    reveal_strlit("textDocument/completion");
    reveal_strlit("completionItem/resolve");
    reveal_strlit("textDocument/diagnostic");
    reveal_strlit("workspace/diagnostic");
    reveal_strlit("textDocument/signatureHelp");
    reveal_strlit("textDocument/codeAction");
    reveal_strlit("codeAction/resolve");
    reveal_strlit("textDocument/documentColor");
    reveal_strlit("textDocument/colorPresentation");
    reveal_strlit("textDocument/formatting");
    reveal_strlit("textDocument/rangeFormatting");
    reveal_strlit("textDocument/onTypeFormatting");
    reveal_strlit("textDocument/rename");
    reveal_strlit("textDocument/prepareRename");
    reveal_strlit("textDocument/linkedEditingRange");
    reveal_strlit("workspace/symbol");
    reveal_strlit("workspaceSymbol/resolve");
    reveal_strlit("workspace/willCreateFiles");
    reveal_strlit("workspace/willRenameFiles");
    reveal_strlit("workspace/willDeleteFiles");
    reveal_strlit("workspace/executeCommand");
}

/// The requests that a client sends and a server answers.
#[derive(Debug, PartialEq)]
pub enum AllServerRequests {
    Initialize(RequestMessage),
    Shutdown(RequestMessage),
    WillSaveWaitUntilTextDocument(RequestMessage),
    GotoDeclaration(RequestMessage),
    GotoDefinition(RequestMessage),
    GotoTypeDefinition(RequestMessage),
    GotoImplementation(RequestMessage),
    References(RequestMessage),
    CallHierarchyPrepare(RequestMessage),
    CallHierarchyIncoming(RequestMessage),
    CallHierarchyOutgoing(RequestMessage),
    TypeHierarchyPrepare(RequestMessage),
    TypeHierarchySuper(RequestMessage),
    TypeHierarchySub(RequestMessage),
    DocumentHighlights(RequestMessage),
    DocumentLink(RequestMessage),
    DocumentLinkResolve(RequestMessage),
    Hover(RequestMessage),
    CodeLens(RequestMessage),
    CodeLensResolve(RequestMessage),
    CodeLensRefresh(RequestMessage),
    FoldingRange(RequestMessage),
    SelectionRange(RequestMessage),
    DocumentSymbols(RequestMessage),
    SemanticTokensFull(RequestMessage),
    SemanticTokensFullDelta(RequestMessage),
    SemanticTokensRange(RequestMessage),
    InlayHint(RequestMessage),
    InlayHindResolve(RequestMessage),
    InlineValue(RequestMessage),
    Moniker(RequestMessage),
    Completion(RequestMessage),
    ResolveCompletionItem(RequestMessage),
    DocumentDiagnostics(RequestMessage),
    WorkspaceDiagnostics(RequestMessage),
    SignatureHelp(RequestMessage),
    CodeAction(RequestMessage),
    CodeActionResolve(RequestMessage),
    DocumentColor(RequestMessage),
    ColorPresentation(RequestMessage),
    DocumentFormatting(RequestMessage),
    DocumentRangeFormatting(RequestMessage),
    DocumentOnTypeFormatting(RequestMessage),
    Rename(RequestMessage),
    PrepareRename(RequestMessage),
    LinkedEditingRange(RequestMessage),
    WorkspaceSymbols(RequestMessage),
    WorkspaceSymbolsResolve(RequestMessage),
    WillCreateFiles(RequestMessage),
    WillRenameFiles(RequestMessage),
    WillDeleteFiles(RequestMessage),
    ExecuteCommand(RequestMessage),
}

impl AllServerRequests {
    /// The method of this request.
    pub open spec fn method_spec(&self) -> ServerRequestMethod {
        match self {
            AllServerRequests::Initialize(_) => ServerRequestMethod::Initialize,
            AllServerRequests::Shutdown(_) => ServerRequestMethod::Shutdown,
            AllServerRequests::WillSaveWaitUntilTextDocument(_) => {
                ServerRequestMethod::WillSaveWaitUntilTextDocument
            },
            AllServerRequests::GotoDeclaration(_) => ServerRequestMethod::GotoDeclaration,
            AllServerRequests::GotoDefinition(_) => ServerRequestMethod::GotoDefinition,
            AllServerRequests::GotoTypeDefinition(_) => ServerRequestMethod::GotoTypeDefinition,
            AllServerRequests::GotoImplementation(_) => ServerRequestMethod::GotoImplementation,
            AllServerRequests::References(_) => ServerRequestMethod::References,
            AllServerRequests::CallHierarchyPrepare(_) => ServerRequestMethod::CallHierarchyPrepare,
            AllServerRequests::CallHierarchyIncoming(_) => {
                ServerRequestMethod::CallHierarchyIncoming
            },
            AllServerRequests::CallHierarchyOutgoing(_) => {
                ServerRequestMethod::CallHierarchyOutgoing
            },
            AllServerRequests::TypeHierarchyPrepare(_) => ServerRequestMethod::TypeHierarchyPrepare,
            AllServerRequests::TypeHierarchySuper(_) => ServerRequestMethod::TypeHierarchySuper,
            AllServerRequests::TypeHierarchySub(_) => ServerRequestMethod::TypeHierarchySub,
            AllServerRequests::DocumentHighlights(_) => ServerRequestMethod::DocumentHighlights,
            AllServerRequests::DocumentLink(_) => ServerRequestMethod::DocumentLink,
            AllServerRequests::DocumentLinkResolve(_) => ServerRequestMethod::DocumentLinkResolve,
            AllServerRequests::Hover(_) => ServerRequestMethod::Hover,
            AllServerRequests::CodeLens(_) => ServerRequestMethod::CodeLens,
            AllServerRequests::CodeLensResolve(_) => ServerRequestMethod::CodeLensResolve,
            AllServerRequests::CodeLensRefresh(_) => ServerRequestMethod::CodeLensRefresh,
            AllServerRequests::FoldingRange(_) => ServerRequestMethod::FoldingRange,
            AllServerRequests::SelectionRange(_) => ServerRequestMethod::SelectionRange,
            AllServerRequests::DocumentSymbols(_) => ServerRequestMethod::DocumentSymbols,
            AllServerRequests::SemanticTokensFull(_) => ServerRequestMethod::SemanticTokensFull,
            AllServerRequests::SemanticTokensFullDelta(_) => {
                ServerRequestMethod::SemanticTokensFullDelta
            },
            AllServerRequests::SemanticTokensRange(_) => ServerRequestMethod::SemanticTokensRange,
            AllServerRequests::InlayHint(_) => ServerRequestMethod::InlayHint,
            AllServerRequests::InlayHindResolve(_) => ServerRequestMethod::InlayHindResolve,
            AllServerRequests::InlineValue(_) => ServerRequestMethod::InlineValue,
            AllServerRequests::Moniker(_) => ServerRequestMethod::Moniker,
            AllServerRequests::Completion(_) => ServerRequestMethod::Completion,
            AllServerRequests::ResolveCompletionItem(_) => {
                ServerRequestMethod::ResolveCompletionItem
            },
            AllServerRequests::DocumentDiagnostics(_) => ServerRequestMethod::DocumentDiagnostics,
            AllServerRequests::WorkspaceDiagnostics(_) => ServerRequestMethod::WorkspaceDiagnostics,
            AllServerRequests::SignatureHelp(_) => ServerRequestMethod::SignatureHelp,
            AllServerRequests::CodeAction(_) => ServerRequestMethod::CodeAction,
            AllServerRequests::CodeActionResolve(_) => ServerRequestMethod::CodeActionResolve,
            AllServerRequests::DocumentColor(_) => ServerRequestMethod::DocumentColor,
            AllServerRequests::ColorPresentation(_) => ServerRequestMethod::ColorPresentation,
            AllServerRequests::DocumentFormatting(_) => ServerRequestMethod::DocumentFormatting,
            AllServerRequests::DocumentRangeFormatting(_) => {
                ServerRequestMethod::DocumentRangeFormatting
            },
            AllServerRequests::DocumentOnTypeFormatting(_) => {
                ServerRequestMethod::DocumentOnTypeFormatting
            },
            AllServerRequests::Rename(_) => ServerRequestMethod::Rename,
            AllServerRequests::PrepareRename(_) => ServerRequestMethod::PrepareRename,
            AllServerRequests::LinkedEditingRange(_) => ServerRequestMethod::LinkedEditingRange,
            AllServerRequests::WorkspaceSymbols(_) => ServerRequestMethod::WorkspaceSymbols,
            AllServerRequests::WorkspaceSymbolsResolve(_) => {
                ServerRequestMethod::WorkspaceSymbolsResolve
            },
            AllServerRequests::WillCreateFiles(_) => ServerRequestMethod::WillCreateFiles,
            AllServerRequests::WillRenameFiles(_) => ServerRequestMethod::WillRenameFiles,
            AllServerRequests::WillDeleteFiles(_) => ServerRequestMethod::WillDeleteFiles,
            AllServerRequests::ExecuteCommand(_) => ServerRequestMethod::ExecuteCommand,
        }
    }

    /// The request without its method.
    pub open spec fn message_spec(&self) -> RequestMessage {
        match self {
            AllServerRequests::Initialize(message) => *message,
            AllServerRequests::Shutdown(message) => *message,
            AllServerRequests::WillSaveWaitUntilTextDocument(message) => *message,
            AllServerRequests::GotoDeclaration(message) => *message,
            AllServerRequests::GotoDefinition(message) => *message,
            AllServerRequests::GotoTypeDefinition(message) => *message,
            AllServerRequests::GotoImplementation(message) => *message,
            AllServerRequests::References(message) => *message,
            AllServerRequests::CallHierarchyPrepare(message) => *message,
            AllServerRequests::CallHierarchyIncoming(message) => *message,
            AllServerRequests::CallHierarchyOutgoing(message) => *message,
            AllServerRequests::TypeHierarchyPrepare(message) => *message,
            AllServerRequests::TypeHierarchySuper(message) => *message,
            AllServerRequests::TypeHierarchySub(message) => *message,
            AllServerRequests::DocumentHighlights(message) => *message,
            AllServerRequests::DocumentLink(message) => *message,
            AllServerRequests::DocumentLinkResolve(message) => *message,
            AllServerRequests::Hover(message) => *message,
            AllServerRequests::CodeLens(message) => *message,
            AllServerRequests::CodeLensResolve(message) => *message,
            AllServerRequests::CodeLensRefresh(message) => *message,
            AllServerRequests::FoldingRange(message) => *message,
            AllServerRequests::SelectionRange(message) => *message,
            AllServerRequests::DocumentSymbols(message) => *message,
            AllServerRequests::SemanticTokensFull(message) => *message,
            AllServerRequests::SemanticTokensFullDelta(message) => *message,
            AllServerRequests::SemanticTokensRange(message) => *message,
            AllServerRequests::InlayHint(message) => *message,
            AllServerRequests::InlayHindResolve(message) => *message,
            AllServerRequests::InlineValue(message) => *message,
            AllServerRequests::Moniker(message) => *message,
            AllServerRequests::Completion(message) => *message,
            AllServerRequests::ResolveCompletionItem(message) => *message,
            AllServerRequests::DocumentDiagnostics(message) => *message,
            AllServerRequests::WorkspaceDiagnostics(message) => *message,
            AllServerRequests::SignatureHelp(message) => *message,
            AllServerRequests::CodeAction(message) => *message,
            AllServerRequests::CodeActionResolve(message) => *message,
            AllServerRequests::DocumentColor(message) => *message,
            AllServerRequests::ColorPresentation(message) => *message,
            AllServerRequests::DocumentFormatting(message) => *message,
            AllServerRequests::DocumentRangeFormatting(message) => *message,
            AllServerRequests::DocumentOnTypeFormatting(message) => *message,
            AllServerRequests::Rename(message) => *message,
            AllServerRequests::PrepareRename(message) => *message,
            AllServerRequests::LinkedEditingRange(message) => *message,
            AllServerRequests::WorkspaceSymbols(message) => *message,
            AllServerRequests::WorkspaceSymbolsResolve(message) => *message,
            AllServerRequests::WillCreateFiles(message) => *message,
            AllServerRequests::WillRenameFiles(message) => *message,
            AllServerRequests::WillDeleteFiles(message) => *message,
            AllServerRequests::ExecuteCommand(message) => *message,
        }
    }

    pub fn method(&self) -> (method: ServerRequestMethod)
        ensures
            method == self.method_spec(),
    {
        match self {
            AllServerRequests::Initialize(_) => ServerRequestMethod::Initialize,
            AllServerRequests::Shutdown(_) => ServerRequestMethod::Shutdown,
            AllServerRequests::WillSaveWaitUntilTextDocument(_) => {
                ServerRequestMethod::WillSaveWaitUntilTextDocument
            },
            AllServerRequests::GotoDeclaration(_) => ServerRequestMethod::GotoDeclaration,
            AllServerRequests::GotoDefinition(_) => ServerRequestMethod::GotoDefinition,
            AllServerRequests::GotoTypeDefinition(_) => ServerRequestMethod::GotoTypeDefinition,
            AllServerRequests::GotoImplementation(_) => ServerRequestMethod::GotoImplementation,
            AllServerRequests::References(_) => ServerRequestMethod::References,
            AllServerRequests::CallHierarchyPrepare(_) => ServerRequestMethod::CallHierarchyPrepare,
            AllServerRequests::CallHierarchyIncoming(_) => {
                ServerRequestMethod::CallHierarchyIncoming
            },
            AllServerRequests::CallHierarchyOutgoing(_) => {
                ServerRequestMethod::CallHierarchyOutgoing
            },
            AllServerRequests::TypeHierarchyPrepare(_) => ServerRequestMethod::TypeHierarchyPrepare,
            AllServerRequests::TypeHierarchySuper(_) => ServerRequestMethod::TypeHierarchySuper,
            AllServerRequests::TypeHierarchySub(_) => ServerRequestMethod::TypeHierarchySub,
            AllServerRequests::DocumentHighlights(_) => ServerRequestMethod::DocumentHighlights,
            AllServerRequests::DocumentLink(_) => ServerRequestMethod::DocumentLink,
            AllServerRequests::DocumentLinkResolve(_) => ServerRequestMethod::DocumentLinkResolve,
            AllServerRequests::Hover(_) => ServerRequestMethod::Hover,
            AllServerRequests::CodeLens(_) => ServerRequestMethod::CodeLens,
            AllServerRequests::CodeLensResolve(_) => ServerRequestMethod::CodeLensResolve,
            AllServerRequests::CodeLensRefresh(_) => ServerRequestMethod::CodeLensRefresh,
            AllServerRequests::FoldingRange(_) => ServerRequestMethod::FoldingRange,
            AllServerRequests::SelectionRange(_) => ServerRequestMethod::SelectionRange,
            AllServerRequests::DocumentSymbols(_) => ServerRequestMethod::DocumentSymbols,
            AllServerRequests::SemanticTokensFull(_) => ServerRequestMethod::SemanticTokensFull,
            AllServerRequests::SemanticTokensFullDelta(_) => {
                ServerRequestMethod::SemanticTokensFullDelta
            },
            AllServerRequests::SemanticTokensRange(_) => ServerRequestMethod::SemanticTokensRange,
            AllServerRequests::InlayHint(_) => ServerRequestMethod::InlayHint,
            AllServerRequests::InlayHindResolve(_) => ServerRequestMethod::InlayHindResolve,
            AllServerRequests::InlineValue(_) => ServerRequestMethod::InlineValue,
            AllServerRequests::Moniker(_) => ServerRequestMethod::Moniker,
            AllServerRequests::Completion(_) => ServerRequestMethod::Completion,
            AllServerRequests::ResolveCompletionItem(_) => {
                ServerRequestMethod::ResolveCompletionItem
            },
            AllServerRequests::DocumentDiagnostics(_) => ServerRequestMethod::DocumentDiagnostics,
            AllServerRequests::WorkspaceDiagnostics(_) => ServerRequestMethod::WorkspaceDiagnostics,
            AllServerRequests::SignatureHelp(_) => ServerRequestMethod::SignatureHelp,
            AllServerRequests::CodeAction(_) => ServerRequestMethod::CodeAction,
            AllServerRequests::CodeActionResolve(_) => ServerRequestMethod::CodeActionResolve,
            AllServerRequests::DocumentColor(_) => ServerRequestMethod::DocumentColor,
            AllServerRequests::ColorPresentation(_) => ServerRequestMethod::ColorPresentation,
            AllServerRequests::DocumentFormatting(_) => ServerRequestMethod::DocumentFormatting,
            AllServerRequests::DocumentRangeFormatting(_) => {
                ServerRequestMethod::DocumentRangeFormatting
            },
            AllServerRequests::DocumentOnTypeFormatting(_) => {
                ServerRequestMethod::DocumentOnTypeFormatting
            },
            AllServerRequests::Rename(_) => ServerRequestMethod::Rename,
            AllServerRequests::PrepareRename(_) => ServerRequestMethod::PrepareRename,
            AllServerRequests::LinkedEditingRange(_) => ServerRequestMethod::LinkedEditingRange,
            AllServerRequests::WorkspaceSymbols(_) => ServerRequestMethod::WorkspaceSymbols,
            AllServerRequests::WorkspaceSymbolsResolve(_) => {
                ServerRequestMethod::WorkspaceSymbolsResolve
            },
            AllServerRequests::WillCreateFiles(_) => ServerRequestMethod::WillCreateFiles,
            AllServerRequests::WillRenameFiles(_) => ServerRequestMethod::WillRenameFiles,
            AllServerRequests::WillDeleteFiles(_) => ServerRequestMethod::WillDeleteFiles,
            AllServerRequests::ExecuteCommand(_) => ServerRequestMethod::ExecuteCommand,
        }
    }

    pub fn message(&self) -> (message: &RequestMessage)
        ensures
            *message == self.message_spec(),
    {
        match self {
            AllServerRequests::Initialize(message) => message,
            AllServerRequests::Shutdown(message) => message,
            AllServerRequests::WillSaveWaitUntilTextDocument(message) => message,
            AllServerRequests::GotoDeclaration(message) => message,
            AllServerRequests::GotoDefinition(message) => message,
            AllServerRequests::GotoTypeDefinition(message) => message,
            AllServerRequests::GotoImplementation(message) => message,
            AllServerRequests::References(message) => message,
            AllServerRequests::CallHierarchyPrepare(message) => message,
            AllServerRequests::CallHierarchyIncoming(message) => message,
            AllServerRequests::CallHierarchyOutgoing(message) => message,
            AllServerRequests::TypeHierarchyPrepare(message) => message,
            AllServerRequests::TypeHierarchySuper(message) => message,
            AllServerRequests::TypeHierarchySub(message) => message,
            AllServerRequests::DocumentHighlights(message) => message,
            AllServerRequests::DocumentLink(message) => message,
            AllServerRequests::DocumentLinkResolve(message) => message,
            AllServerRequests::Hover(message) => message,
            AllServerRequests::CodeLens(message) => message,
            AllServerRequests::CodeLensResolve(message) => message,
            AllServerRequests::CodeLensRefresh(message) => message,
            AllServerRequests::FoldingRange(message) => message,
            AllServerRequests::SelectionRange(message) => message,
            AllServerRequests::DocumentSymbols(message) => message,
            AllServerRequests::SemanticTokensFull(message) => message,
            AllServerRequests::SemanticTokensFullDelta(message) => message,
            AllServerRequests::SemanticTokensRange(message) => message,
            AllServerRequests::InlayHint(message) => message,
            AllServerRequests::InlayHindResolve(message) => message,
            AllServerRequests::InlineValue(message) => message,
            AllServerRequests::Moniker(message) => message,
            AllServerRequests::Completion(message) => message,
            AllServerRequests::ResolveCompletionItem(message) => message,
            AllServerRequests::DocumentDiagnostics(message) => message,
            AllServerRequests::WorkspaceDiagnostics(message) => message,
            AllServerRequests::SignatureHelp(message) => message,
            AllServerRequests::CodeAction(message) => message,
            AllServerRequests::CodeActionResolve(message) => message,
            AllServerRequests::DocumentColor(message) => message,
            AllServerRequests::ColorPresentation(message) => message,
            AllServerRequests::DocumentFormatting(message) => message,
            AllServerRequests::DocumentRangeFormatting(message) => message,
            AllServerRequests::DocumentOnTypeFormatting(message) => message,
            AllServerRequests::Rename(message) => message,
            AllServerRequests::PrepareRename(message) => message,
            AllServerRequests::LinkedEditingRange(message) => message,
            AllServerRequests::WorkspaceSymbols(message) => message,
            AllServerRequests::WorkspaceSymbolsResolve(message) => message,
            AllServerRequests::WillCreateFiles(message) => message,
            AllServerRequests::WillRenameFiles(message) => message,
            AllServerRequests::WillDeleteFiles(message) => message,
            AllServerRequests::ExecuteCommand(message) => message,
        }
    }

    /// The request of the method `method` that `message` holds.
    pub fn new(method: ServerRequestMethod, message: RequestMessage) -> (made: AllServerRequests)
        ensures
            made.method_spec() == method,
            made.message_spec() == message,
    {
        match method {
            ServerRequestMethod::Initialize => AllServerRequests::Initialize(message),
            ServerRequestMethod::Shutdown => AllServerRequests::Shutdown(message),
            ServerRequestMethod::WillSaveWaitUntilTextDocument => {
                AllServerRequests::WillSaveWaitUntilTextDocument(message)
            },
            ServerRequestMethod::GotoDeclaration => AllServerRequests::GotoDeclaration(message),
            ServerRequestMethod::GotoDefinition => AllServerRequests::GotoDefinition(message),
            ServerRequestMethod::GotoTypeDefinition => {
                AllServerRequests::GotoTypeDefinition(message)
            },
            ServerRequestMethod::GotoImplementation => {
                AllServerRequests::GotoImplementation(message)
            },
            ServerRequestMethod::References => AllServerRequests::References(message),
            ServerRequestMethod::CallHierarchyPrepare => {
                AllServerRequests::CallHierarchyPrepare(message)
            },
            ServerRequestMethod::CallHierarchyIncoming => {
                AllServerRequests::CallHierarchyIncoming(message)
            },
            ServerRequestMethod::CallHierarchyOutgoing => {
                AllServerRequests::CallHierarchyOutgoing(message)
            },
            ServerRequestMethod::TypeHierarchyPrepare => {
                AllServerRequests::TypeHierarchyPrepare(message)
            },
            ServerRequestMethod::TypeHierarchySuper => {
                AllServerRequests::TypeHierarchySuper(message)
            },
            ServerRequestMethod::TypeHierarchySub => AllServerRequests::TypeHierarchySub(message),
            ServerRequestMethod::DocumentHighlights => {
                AllServerRequests::DocumentHighlights(message)
            },
            ServerRequestMethod::DocumentLink => AllServerRequests::DocumentLink(message),
            ServerRequestMethod::DocumentLinkResolve => {
                AllServerRequests::DocumentLinkResolve(message)
            },
            ServerRequestMethod::Hover => AllServerRequests::Hover(message),
            ServerRequestMethod::CodeLens => AllServerRequests::CodeLens(message),
            ServerRequestMethod::CodeLensResolve => AllServerRequests::CodeLensResolve(message),
            ServerRequestMethod::CodeLensRefresh => AllServerRequests::CodeLensRefresh(message),
            ServerRequestMethod::FoldingRange => AllServerRequests::FoldingRange(message),
            ServerRequestMethod::SelectionRange => AllServerRequests::SelectionRange(message),
            ServerRequestMethod::DocumentSymbols => AllServerRequests::DocumentSymbols(message),
            ServerRequestMethod::SemanticTokensFull => {
                AllServerRequests::SemanticTokensFull(message)
            },
            ServerRequestMethod::SemanticTokensFullDelta => {
                AllServerRequests::SemanticTokensFullDelta(message)
            },
            ServerRequestMethod::SemanticTokensRange => {
                AllServerRequests::SemanticTokensRange(message)
            },
            ServerRequestMethod::InlayHint => AllServerRequests::InlayHint(message),
            ServerRequestMethod::InlayHindResolve => AllServerRequests::InlayHindResolve(message),
            ServerRequestMethod::InlineValue => AllServerRequests::InlineValue(message),
            ServerRequestMethod::Moniker => AllServerRequests::Moniker(message),
            ServerRequestMethod::Completion => AllServerRequests::Completion(message),
            ServerRequestMethod::ResolveCompletionItem => {
                AllServerRequests::ResolveCompletionItem(message)
            },
            ServerRequestMethod::DocumentDiagnostics => {
                AllServerRequests::DocumentDiagnostics(message)
            },
            ServerRequestMethod::WorkspaceDiagnostics => {
                AllServerRequests::WorkspaceDiagnostics(message)
            },
            ServerRequestMethod::SignatureHelp => AllServerRequests::SignatureHelp(message),
            ServerRequestMethod::CodeAction => AllServerRequests::CodeAction(message),
            ServerRequestMethod::CodeActionResolve => AllServerRequests::CodeActionResolve(message),
            ServerRequestMethod::DocumentColor => AllServerRequests::DocumentColor(message),
            ServerRequestMethod::ColorPresentation => AllServerRequests::ColorPresentation(message),
            ServerRequestMethod::DocumentFormatting => {
                AllServerRequests::DocumentFormatting(message)
            },
            ServerRequestMethod::DocumentRangeFormatting => {
                AllServerRequests::DocumentRangeFormatting(message)
            },
            ServerRequestMethod::DocumentOnTypeFormatting => {
                AllServerRequests::DocumentOnTypeFormatting(message)
            },
            ServerRequestMethod::Rename => AllServerRequests::Rename(message),
            ServerRequestMethod::PrepareRename => AllServerRequests::PrepareRename(message),
            ServerRequestMethod::LinkedEditingRange => {
                AllServerRequests::LinkedEditingRange(message)
            },
            ServerRequestMethod::WorkspaceSymbols => AllServerRequests::WorkspaceSymbols(message),
            ServerRequestMethod::WorkspaceSymbolsResolve => {
                AllServerRequests::WorkspaceSymbolsResolve(message)
            },
            ServerRequestMethod::WillCreateFiles => AllServerRequests::WillCreateFiles(message),
            ServerRequestMethod::WillRenameFiles => AllServerRequests::WillRenameFiles(message),
            ServerRequestMethod::WillDeleteFiles => AllServerRequests::WillDeleteFiles(message),
            ServerRequestMethod::ExecuteCommand => AllServerRequests::ExecuteCommand(message),
        }
    }
}

impl LspRequest for AllServerRequests {
    open spec fn request_id_spec(&self) -> RequestId {
        self.message_spec().id
    }

    fn request_id(&self) -> (id: &RequestId) {
        match self {
            AllServerRequests::Initialize(request) => request.request_id(),
            AllServerRequests::Shutdown(request) => request.request_id(),
            AllServerRequests::WillSaveWaitUntilTextDocument(request) => request.request_id(),
            AllServerRequests::GotoDeclaration(request) => request.request_id(),
            AllServerRequests::GotoDefinition(request) => request.request_id(),
            AllServerRequests::GotoTypeDefinition(request) => request.request_id(),
            AllServerRequests::GotoImplementation(request) => request.request_id(),
            AllServerRequests::References(request) => request.request_id(),
            AllServerRequests::CallHierarchyPrepare(request) => request.request_id(),
            AllServerRequests::CallHierarchyIncoming(request) => request.request_id(),
            AllServerRequests::CallHierarchyOutgoing(request) => request.request_id(),
            AllServerRequests::TypeHierarchyPrepare(request) => request.request_id(),
            AllServerRequests::TypeHierarchySuper(request) => request.request_id(),
            AllServerRequests::TypeHierarchySub(request) => request.request_id(),
            AllServerRequests::DocumentHighlights(request) => request.request_id(),
            AllServerRequests::DocumentLink(request) => request.request_id(),
            AllServerRequests::DocumentLinkResolve(request) => request.request_id(),
            AllServerRequests::Hover(request) => request.request_id(),
            AllServerRequests::CodeLens(request) => request.request_id(),
            AllServerRequests::CodeLensResolve(request) => request.request_id(),
            AllServerRequests::CodeLensRefresh(request) => request.request_id(),
            AllServerRequests::FoldingRange(request) => request.request_id(),
            AllServerRequests::SelectionRange(request) => request.request_id(),
            AllServerRequests::DocumentSymbols(request) => request.request_id(),
            AllServerRequests::SemanticTokensFull(request) => request.request_id(),
            AllServerRequests::SemanticTokensFullDelta(request) => request.request_id(),
            AllServerRequests::SemanticTokensRange(request) => request.request_id(),
            AllServerRequests::InlayHint(request) => request.request_id(),
            AllServerRequests::InlayHindResolve(request) => request.request_id(),
            AllServerRequests::InlineValue(request) => request.request_id(),
            AllServerRequests::Moniker(request) => request.request_id(),
            AllServerRequests::Completion(request) => request.request_id(),
            AllServerRequests::ResolveCompletionItem(request) => request.request_id(),
            AllServerRequests::DocumentDiagnostics(request) => request.request_id(),
            AllServerRequests::WorkspaceDiagnostics(request) => request.request_id(),
            AllServerRequests::SignatureHelp(request) => request.request_id(),
            AllServerRequests::CodeAction(request) => request.request_id(),
            AllServerRequests::CodeActionResolve(request) => request.request_id(),
            AllServerRequests::DocumentColor(request) => request.request_id(),
            AllServerRequests::ColorPresentation(request) => request.request_id(),
            AllServerRequests::DocumentFormatting(request) => request.request_id(),
            AllServerRequests::DocumentRangeFormatting(request) => request.request_id(),
            AllServerRequests::DocumentOnTypeFormatting(request) => request.request_id(),
            AllServerRequests::Rename(request) => request.request_id(),
            AllServerRequests::PrepareRename(request) => request.request_id(),
            AllServerRequests::LinkedEditingRange(request) => request.request_id(),
            AllServerRequests::WorkspaceSymbols(request) => request.request_id(),
            AllServerRequests::WorkspaceSymbolsResolve(request) => request.request_id(),
            AllServerRequests::WillCreateFiles(request) => request.request_id(),
            AllServerRequests::WillRenameFiles(request) => request.request_id(),
            AllServerRequests::WillDeleteFiles(request) => request.request_id(),
            AllServerRequests::ExecuteCommand(request) => request.request_id(),
        }
    }
}

/// The method of a request, with the side that answers it.
#[derive(Debug, Clone, Copy, PartialEq, Eq, Structural)]
pub enum RequestMethod {
    Client(ClientRequestMethod),
    Server(ServerRequestMethod),
}

impl RequestMethod {
    /// The name of the method on the wire.
    pub open spec fn name_spec(self) -> Seq<char> {
        match self {
            RequestMethod::Client(method) => method.name_spec(),
            RequestMethod::Server(method) => method.name_spec(),
        }
    }

    /// The method of this name, where there is one.
    pub open spec fn named(name: Seq<char>) -> Option<RequestMethod> {
        match ClientRequestMethod::named(name) {
            Some(method) => Some(RequestMethod::Client(method)),
            None => match ServerRequestMethod::named(name) {
                Some(method) => Some(RequestMethod::Server(method)),
                None => None,
            },
        }
    }

    pub fn name(self) -> (name: &'static str)
        ensures
            name@ == self.name_spec(),
    {
        match self {
            RequestMethod::Client(method) => method.name(),
            RequestMethod::Server(method) => method.name(),
        }
    }

    pub fn from_name(name: &str) -> (method: Option<RequestMethod>)
        ensures
            method == Self::named(name@),
    {
        match ClientRequestMethod::from_name(name) {
            Some(method) => Some(RequestMethod::Client(method)),
            None => match ServerRequestMethod::from_name(name) {
                Some(method) => Some(RequestMethod::Server(method)),
                None => None,
            },
        }
    }

    /// A method is the one that its name names: no two request methods share
    /// a name.
    pub proof fn lemma_named_name(self)
        ensures
            Self::named(self.name_spec()) == Some(self),
    {
        lemma_client_request_method_names();
        lemma_server_request_method_names();
    }

    /// A name names no other method than the one that has it.
    pub proof fn lemma_name_named(name: Seq<char>)
        ensures
            Self::named(name) matches Some(method) ==> method.name_spec() == name,
    {
    }
}

/// Every request there is.
#[derive(Debug, PartialEq)]
pub enum AllRequests {
    Client(AllClientRequests),
    Server(AllServerRequests),
}

/// The mathematical view of a request: its method and what it holds.
pub struct RequestView {
    pub method: RequestMethod,
    pub message: RequestMessageView,
}

impl View for AllRequests {
    type V = RequestView;

    open spec fn view(&self) -> RequestView {
        RequestView { method: self.method_spec(), message: self.message_spec()@ }
    }
}

impl LspRequest for AllRequests {
    open spec fn request_id_spec(&self) -> RequestId {
        self.message_spec().id
    }

    fn request_id(&self) -> (id: &RequestId) {
        match self {
            AllRequests::Client(request) => request.request_id(),
            AllRequests::Server(request) => request.request_id(),
        }
    }
}

/// The request that a JSON value stands for: the method decides the variant,
/// and identifier and version must be in order.
pub open spec fn read_requests(json: JsonView) -> Option<RequestView> {
    match json.field(KEY_METHOD@) {
        Some(JsonView::Text(name)) => match (RequestMethod::named(name), read_request(json, name)) {
            (Some(method), Ok(message)) => Some(RequestView { method, message }),
            _ => None,
        },
        _ => None,
    }
}

impl AllRequests {
    /// The method of this request.
    pub open spec fn method_spec(&self) -> RequestMethod {
        match self {
            AllRequests::Client(request) => RequestMethod::Client(request.method_spec()),
            AllRequests::Server(request) => RequestMethod::Server(request.method_spec()),
        }
    }

    /// The request without its method.
    pub open spec fn message_spec(&self) -> RequestMessage {
        match self {
            AllRequests::Client(request) => request.message_spec(),
            AllRequests::Server(request) => request.message_spec(),
        }
    }

    pub fn method(&self) -> (method: RequestMethod)
        ensures
            method == self.method_spec(),
    {
        match self {
            AllRequests::Client(request) => RequestMethod::Client(request.method()),
            AllRequests::Server(request) => RequestMethod::Server(request.method()),
        }
    }

    pub fn message(&self) -> (message: &RequestMessage)
        ensures
            *message == self.message_spec(),
    {
        match self {
            AllRequests::Client(request) => request.message(),
            AllRequests::Server(request) => request.message(),
        }
    }

    /// The request of the method `method` that `message` holds.
    pub fn new(method: RequestMethod, message: RequestMessage) -> (made: AllRequests)
        ensures
            made.method_spec() == method,
            made.message_spec() == message,
    {
        match method {
            RequestMethod::Client(method) => AllRequests::Client(
                AllClientRequests::new(method, message),
            ),
            RequestMethod::Server(method) => AllRequests::Server(
                AllServerRequests::new(method, message),
            ),
        }
    }

    /// What is written for a request with a valid identifier reads back as
    /// that request.
    pub proof fn lemma_round_trip(&self, json: JsonView)
        requires
            crate::messages::jsonrpc::request::is_request_json(
                json,
                self.method_spec().name_spec(),
                self.message_spec()@,
            ),
            self@.message.id.is_valid(),
        ensures
            read_requests(json) == Some(self@),
    {
        self.method_spec().lemma_named_name();
    }

    /// The JSON object of this request.
    pub fn to_json(&self) -> (json: Json)
        ensures
            crate::messages::jsonrpc::request::is_request_json(
                json@,
                self.method_spec().name_spec(),
                self.message_spec()@,
            ),
    {
        self.message().to_json(self.method().name())
    }

    /// Reads a request from a JSON value.
    pub fn from_json(json: &Json) -> (request: Result<AllRequests, MessageError>)
        ensures
            match request {
                Ok(found) => read_requests(json@) == Some(found@),
                Err(e) => read_requests(json@).is_none() && e@ == MessageFault::NoVariant,
            },
    {
        let name = match read_method(json) {
            Some(name) => name,
            None => {
                return Err(MessageError::NoVariant);
            },
        };
        let method = match RequestMethod::from_name(name.as_str()) {
            Some(method) => method,
            None => {
                return Err(MessageError::NoVariant);
            },
        };
        match RequestMessage::from_json(json, name.as_str()) {
            Ok(message) => Ok(AllRequests::new(method, message)),
            Err(_) => Err(MessageError::NoVariant),
        }
    }
}

} // verus!
