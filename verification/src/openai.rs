//! The data model of the OpenAI responses, streaming and embeddings APIs, as far as
//! it holds no floating-point values, and the client settings requests are built from.
use vstd::prelude::*;

verus! {

/// The cheapest current embedding model.
pub const TEXT_EMBEDDING_3_SMALL: &'static str = "text-embedding-3-small";
pub const GPT4_O: &'static str = "gpt-4o";
pub const GPT4_O_MINI: &'static str = "gpt-4o-mini";
/// Reasoning models.
pub const GPT5: &'static str = "gpt-5";
pub const GPT5_MINI: &'static str = "gpt-5-mini";
pub const API_URL_V1: &'static str = "https://api.openai.com/v1";

#[verifier::external_type_specification]
#[verifier::external_body]
pub struct ExJsonValue(serde_json::Value);

/// A chunk of streamed chat completion text.
#[derive(Clone, Debug)]
pub struct Delta {
    pub content: Option<String>,
}

/// Where and how API requests are sent.
#[derive(Clone, Debug)]
pub struct CustomClient {
    api_endpoint: String,
    api_key: String,
    organization: Option<String>,
    /// Request timeout in seconds.
    timeout: Option<u64>,
}

impl CustomClient {
    /// The base URL requests go to.
    pub closed spec fn spec_api_endpoint(&self) -> Seq<char> {
        self.api_endpoint@
    }

    /// The key requests authenticate with.
    pub closed spec fn spec_api_key(&self) -> Seq<char> {
        self.api_key@
    }

    /// The organization requests are made for, if any.
    pub closed spec fn spec_organization(&self) -> Option<Seq<char>> {
        match self.organization {
            Some(o) => Some(o@),
            None => None,
        }
    }

    /// The request timeout in seconds, if any.
    pub closed spec fn spec_timeout(&self) -> Option<u64> {
        self.timeout
    }

    /// The request timeout in seconds, if any.
    pub fn timeout(&self) -> (res: Option<u64>)
        ensures
            res == self.spec_timeout(),
    {
        self.timeout
    }

    /// A client of the public v1 API authenticating with `key`.
    pub fn new(key: String) -> (res: Self)
        ensures
            res.spec_api_endpoint() == API_URL_V1@,
            res.spec_api_key() == key@,
            res.spec_organization() is None,
            res.spec_timeout() is None,
    {
        CustomClient { api_endpoint: API_URL_V1.to_owned(), api_key: key, organization: None, timeout: None }
    }

    /// The URL of the endpoint `path`: the API base, a slash, and the path.
    pub fn request_url(&self, path: &str) -> (res: String)
        ensures
            res@ == self.spec_api_endpoint() + "/"@ + path@,
    {
        self.api_endpoint.as_str().to_owned().concat("/").concat(path)
    }

    /// The value of the `Authorization` header: `Bearer ` and the key.
    pub fn authorization(&self) -> (res: String)
        ensures
            res@ == "Bearer "@ + self.spec_api_key(),
    {
        "Bearer ".to_owned().concat(self.api_key.as_str())
    }
    /// The headers every request carries: the bearer authorization, the assistants API
    /// version and, when one is set, the organization.
    pub fn request_headers(&self) -> (res: Vec<(String, String)>)
        ensures
            res@.len() == (if self.spec_organization() is Some { 3int } else { 2int }),
            res@[0].0@ == "Authorization"@ && res@[0].1@ == "Bearer "@ + self.spec_api_key(),
            res@[1].0@ == "OpenAI-Beta"@ && res@[1].1@ == "assistants=v2"@,
            self.spec_organization() matches Some(o) ==> res@[2].0@ == "openai-organization"@
                && res@[2].1@ == o,
    {
        let mut headers: Vec<(String, String)> = Vec::new();
        headers.push(("Authorization".to_owned(), self.authorization()));
        headers.push(("OpenAI-Beta".to_owned(), "assistants=v2".to_owned()));
        match &self.organization {
            Some(o) => headers.push(("openai-organization".to_owned(), o.clone())),
            None => {},
        }
        headers
    }
}

// --- Responses API: enumerations ---

#[derive(Clone, Debug)]
pub struct ReasoningConfig {
    pub effort: Option<ReasoningEffortConfig>,
    pub summary: Option<ReasoningSummaryConfig>,
}

#[derive(Clone, Copy, Debug, PartialEq, Eq, Structural)]
pub enum ReasoningEffortConfig {
    Minimal,
    Low,
    Medium,
    High,
}

#[derive(Clone, Copy, Debug, PartialEq, Eq, Structural)]
pub enum ReasoningSummaryConfig {
    Auto,
    Concise,
    Detailed,
}

/// Additional output data a request may ask for.
#[derive(Clone, Copy, Debug, PartialEq, Eq, Structural)]
pub enum Includable {
    FileSearchCallResults,
    MessageInputImageImageUrl,
    ComputerCallOutputOutputImageUrl,
    ReasoningEncryptedContent,
}

#[derive(Clone, Copy, Debug, PartialEq, Eq, Structural)]
pub enum ServiceTier {
    Auto,
    Default,
    Flex,
}

#[derive(Clone, Copy, Debug, PartialEq, Eq, Structural)]
pub enum ToolChoiceOption {
    /// The model calls no tool (`"none"` on the wire).
    NoTool,
    Auto,
    Required,
}

#[derive(Clone, Copy, Debug, PartialEq, Eq, Structural)]
pub enum BuiltInToolType {
    FileSearch,
    WebSearchPreview,
    ComputerUsePreview,
}

#[derive(Clone, Copy, Debug, PartialEq, Eq, Structural)]
pub enum TruncationStrategy {
    Auto,
    Disabled,
}

#[derive(Clone, Copy, Debug, PartialEq, Eq, Structural)]
pub enum EasyMessageRole {
    User,
    Assistant,
    System,
    Developer,
}

#[derive(Clone, Copy, Debug, PartialEq, Eq, Structural)]
pub enum MessageRole {
    User,
    System,
    Developer,
    Assistant,
}

#[derive(Clone, Copy, Debug, PartialEq, Eq, Structural)]
pub enum ItemStatus {
    InProgress,
    Completed,
    Incomplete,
}

#[derive(Clone, Copy, Debug, PartialEq, Eq, Structural)]
pub enum FileSearchStatus {
    InProgress,
    Searching,
    Completed,
    Incomplete,
    Failed,
}

#[derive(Clone, Copy, Debug, PartialEq, Eq, Structural)]
pub enum ComputerActionType {
    Click,
    DoubleClick,
    Drag,
    Keypress,
    Move,
    Screenshot,
    Scroll,
    Type,
    Wait,
}

#[derive(Clone, Copy, Debug, PartialEq, Eq, Structural)]
pub enum MouseButton {
    Left,
    Right,
    Wheel,
    Back,
    Forward,
}

#[derive(Clone, Copy, Debug, PartialEq, Eq, Structural)]
pub enum WebSearchStatus {
    InProgress,
    Searching,
    Completed,
    Failed,
}

#[derive(Clone, Copy, Debug, PartialEq, Eq, Structural)]
pub enum ReasoningSummaryType {
    SummaryText,
}

#[derive(Clone, Copy, Debug, PartialEq, Eq, Structural)]
pub enum InputContentType {
    InputText,
    InputImage,
    InputFile,
}

#[derive(Clone, Copy, Debug, PartialEq, Eq, Structural)]
pub enum ImageDetail {
    Low,
    High,
    Auto,
}

#[derive(Clone, Copy, Debug, PartialEq, Eq, Structural)]
pub enum ComputerEnvironment {
    Windows,
    Mac,
    Linux,
    Ubuntu,
    Browser,
}

#[derive(Clone, Copy, Debug, PartialEq, Eq, Structural)]
pub enum FileSearchRanker {
    Auto,
    Default20241115,
}

#[derive(Clone, Copy, Debug, PartialEq, Eq, Structural)]
pub enum WebSearchToolType {
    WebSearchPreview,
}

#[derive(Clone, Copy, Debug, PartialEq, Eq, Structural)]
pub enum SearchContextSize {
    Low,
    Medium,
    High,
}

// --- Inputs ---

/// An image input to the model.
#[derive(Clone, Debug)]
pub struct InputImage {
    pub detail: ImageDetail,
    pub file_id: Option<String>,
    pub image_url: Option<String>,
}

/// A text input to the model.
#[derive(Clone, Debug)]
pub struct InputText {
    pub text: String,
}

/// A file input to the model.
#[derive(Clone, Debug)]
pub struct InputFile {
    /// Base64 encoded file content.
    pub file_data: Option<String>,
    pub file_id: Option<String>,
    pub filename: Option<String>,
}

/// Multi-modal input contents.
#[derive(Clone, Debug)]
pub enum InputContent {
    InputText(InputText),
    InputImage(InputImage),
    InputFile(InputFile),
}

#[derive(Clone, Debug)]
pub enum InputMessageContent {
    Text(String),
    List(InputContent),
}

/// A message input to the model.
#[derive(Clone, Debug)]
pub struct InputMessage {
    pub content: InputMessageContent,
    pub role: MessageRole,
    pub status: Option<ItemStatus>,
}

impl InputMessage {
    /// A plain text message from `role`.
    pub fn from_text(role: MessageRole, message: String) -> (res: Self)
        ensures
            res.role == role,
            res.content == InputMessageContent::Text(message),
            res.status is None,
    {
        InputMessage { content: InputMessageContent::Text(message), role, status: None }
    }
}

// --- Outputs ---

/// A text output from the model.
#[derive(Clone, Debug)]
pub struct OutputText {
    pub annotations: Vec<TextAnnotation>,
    pub text: String,
}

/// A refusal from the model.
#[derive(Clone, Debug)]
pub struct OutpuRefusal {
    pub refusal: String,
}

/// An annotation within the text output.
#[derive(Clone, Debug)]
pub enum TextAnnotation {
    FileCitation(FileCitationAnnotation),
    UrlCitation(UrlCitationAnnotation),
    FilePath(FilePathAnnotation),
}

#[derive(Clone, Debug)]
pub struct FileCitationAnnotation {
    pub file_id: String,
    pub index: u32,
}

#[derive(Clone, Debug)]
pub struct UrlCitationAnnotation {
    pub end_index: u32,
    pub start_index: u32,
    pub title: String,
    pub url: String,
}

#[derive(Clone, Debug)]
pub struct FilePathAnnotation {
    pub file_id: String,
    pub index: u32,
}

/// Content item in an output message.
#[derive(Clone, Debug)]
pub enum OutputContent {
    OutputText(OutputText),
    Refusal(OutpuRefusal),
    FunctionCall(FunctionToolCall),
}

/// An output message from the model.
#[derive(Clone, Debug)]
pub struct OutputMessage {
    pub id: String,
    pub content: Vec<OutputContent>,
    /// Always `Assistant`.
    pub role: MessageRole,
    pub status: ItemStatus,
}

/// A pending safety check for a computer call.
#[derive(Clone, Debug)]
pub struct PendingSafetyCheck {
    pub id: String,
    pub code: String,
    pub message: String,
}

/// A computer screenshot image used with the computer use tool.
#[derive(Clone, Debug)]
pub struct ComputerToolCallOutputScreenshot {
    pub file_id: Option<String>,
    pub image_url: Option<String>,
}

#[derive(Clone, Debug)]
pub struct ComputerKeypressAction {
    pub keys: Vec<String>,
}

#[derive(Clone, Debug)]
pub struct ComputerScreenshotAction {}

#[derive(Clone, Debug)]
pub struct ComputerTypeAction {
    pub text: String,
}

#[derive(Clone, Debug)]
pub struct ComputerWaitAction {}

/// The output of a computer tool call, sent back as input.
#[derive(Clone, Debug)]
pub struct InputComputerCallOutput {
    pub call_id: String,
    pub output: ComputerToolCallOutputScreenshot,
    pub id: Option<String>,
    pub acknowledged_safety_checks: Option<Vec<AcknowledgedSafetyCheck>>,
    pub status: Option<ItemStatus>,
}

#[derive(Clone, Debug)]
pub struct AcknowledgedSafetyCheck {
    pub id: String,
    pub code: Option<String>,
    pub message: Option<String>,
}

/// The results of a web search tool call.
#[derive(Clone, Debug)]
pub struct FunctionWebSearch {
    pub id: String,
    pub status: WebSearchStatus,
}

/// A tool call to run a function.
#[derive(Clone, Debug)]
pub struct FunctionToolCall {
    /// A JSON string of the arguments.
    pub arguments: String,
    pub call_id: String,
    pub name: String,
    pub id: Option<String>,
    pub status: Option<ItemStatus>,
}

/// The output of a function tool call, sent back as input.
#[derive(Clone, Debug)]
pub struct InputFunctionCallOutput {
    pub call_id: String,
    /// A JSON string of the output.
    pub output: String,
    pub id: Option<String>,
    pub status: Option<ItemStatus>,
}

/// A description of the chain of thought used by a reasoning model.
#[derive(Clone, Debug)]
pub struct ReasoningItem {
    pub id: String,
    pub summary: Vec<ReasoningSummary>,
    pub encrypted_content: Option<String>,
    pub status: Option<ItemStatus>,
}

#[derive(Clone, Debug)]
pub struct ReasoningSummary {
    pub text: String,
}

/// An internal identifier for an item to reference.
#[derive(Clone, Debug)]
pub struct InputItemReference {
    pub id: String,
}

/// An item of a conversation sent as the `input` of a request. (File search and
/// computer calls, which carry scores and coordinates, are only ever produced by the
/// API and are not kept in a conversation.)
#[derive(Clone, Debug)]
pub enum InputItem {
    Message(InputMessage),
    ComputerCallOutput(InputComputerCallOutput),
    WebSearchCall(FunctionWebSearch),
    FunctionCall(FunctionToolCall),
    FunctionCallOutput(InputFunctionCallOutput),
    Reasoning(ReasoningItem),
    ItemReference(InputItemReference),
}

impl InputItem {
    /// A plain text message from `role`.
    pub fn from_text(role: MessageRole, message: String) -> (res: Self)
        ensures
            res == InputItem::Message(
                InputMessage { content: InputMessageContent::Text(message), role, status: None },
            ),
    {
        InputItem::Message(InputMessage::from_text(role, message))
    }
}

/// An item of a response's output, as far as the conversation logic reads it.
#[derive(Clone, Debug)]
pub enum OutputItem {
    FunctionCall(FunctionToolCall),
    Message(OutputMessage),
    /// A file search call; its results are not read.
    FileSearchCall,
    Reasoning(ReasoningItem),
}

// --- Tools ---

/// A function in your own code the model can choose to call.
#[derive(Clone, Debug)]
pub struct FunctionTool {
    pub name: String,
    /// A JSON schema object describing the parameters.
    pub parameters: Option<serde_json::Value>,
    pub strict: Option<bool>,
    pub description: Option<String>,
}

/// The user's location for web search.
#[derive(Clone, Debug)]
pub struct WebSearchUserLocation {
    pub city: Option<String>,
    pub country: Option<String>,
    pub region: Option<String>,
    pub timezone: Option<String>,
}

/// A tool that searches the web.
#[derive(Clone, Debug)]
pub struct WebSearchTool {
    pub search_context_size: Option<SearchContextSize>,
    pub user_location: Option<WebSearchUserLocation>,
}

/// A tool that controls a virtual computer.
#[derive(Clone, Debug)]
pub struct ComputerTool {
    pub display_height: u32,
    pub display_width: u32,
    pub environment: ComputerEnvironment,
}

/// Forces the model to call a specific function.
#[derive(Clone, Debug)]
pub struct ToolChoiceFunction {
    pub kind: ToolChoiceFunctionType,
    pub name: String,
}

#[derive(Clone, Copy, Debug, PartialEq, Eq, Structural)]
pub enum ToolChoiceFunctionType {
    Function,
}

/// Makes the model use a built-in tool.
#[derive(Clone, Debug)]
pub struct ToolChoiceType {
    pub kind: BuiltInToolType,
}

/// Which tool, if any, the model calls.
#[derive(Clone, Debug)]
pub enum ToolChoice {
    Option(ToolChoiceOption),
    Type(ToolChoiceType),
    Function(ToolChoiceFunction),
}

// --- Usage ---

#[derive(Clone, Debug)]
pub struct Usage {
    pub input_tokens: u32,
    pub input_tokens_details: InputTokensDetails,
    pub output_tokens: u32,
    pub output_tokens_details: OutputTokensDetails,
    pub total_tokens: u32,
}

#[derive(Clone, Debug)]
pub struct InputTokensDetails {
    pub cached_tokens: u32,
}

#[derive(Clone, Debug)]
pub struct OutputTokensDetails {
    pub reasoning_tokens: u32,
}

// --- Streaming events ---

#[derive(Clone, Debug)]
pub struct ContentPartAdded {
    pub item_id: String,
    pub output_index: usize,
    pub content_index: usize,
    pub part: OutputContent,
}

#[derive(Clone, Debug)]
pub struct OutputTextDelta {
    pub item_id: String,
    pub output_index: usize,
    pub content_index: usize,
    pub delta: String,
}

#[derive(Clone, Debug)]
pub struct FunctionCallArgumentsDelta {
    pub item_id: String,
    pub output_index: usize,
    pub delta: String,
}

#[derive(Clone, Debug)]
pub struct FunctionCallArgumentsDone {
    pub item_id: String,
    pub output_index: usize,
    pub arguments: String,
}

#[derive(Clone, Debug)]
pub struct FileSearchCallOutput {
    pub output_index: usize,
    pub item_id: String,
}

#[derive(Clone, Debug)]
pub struct OutputTextDone {
    pub item_id: String,
    pub output_index: usize,
    pub content_index: usize,
    /// The complete text of this output text part.
    pub text: String,
}

#[derive(Clone, Debug)]
pub struct ContentPartDone {
    pub item_id: String,
    pub output_index: usize,
    pub content_index: usize,
    pub part: OutputContent,
}

#[derive(Clone, Debug)]
pub struct OutputTextAnnotationAdded {
    pub item_id: String,
    pub output_index: usize,
    pub content_index: usize,
    pub annotation_index: usize,
    pub annotation: FileCitation,
}

#[derive(Clone, Debug)]
pub struct FileCitation {
    pub kind: String,
    pub index: usize,
    pub file_id: String,
    pub filename: String,
}

/// An error reported by the API.
#[derive(Clone, Debug)]
pub struct ResponseError {
    pub code: String,
    pub message: String,
}

#[derive(Clone, Debug)]
pub struct ErrorEvent {
    pub sequence_number: Option<u64>,
    pub error: ResponseError,
}

// --- Embeddings ---

/// Request body of the embeddings API.
#[derive(Clone, Debug)]
pub struct EmbeddingsRequest {
    pub input: EmbeddingsInput,
    pub model: String,
    pub dimensions: Option<u32>,
    /// `float` or `base64`.
    pub encoding_format: Option<String>,
    pub user: Option<String>,
}

/// Text or tokens to embed.
#[derive(Clone, Debug)]
pub enum EmbeddingsInput {
    String(String),
    Strings(Vec<String>),
    Tokens(Vec<u32>),
    TokensList(Vec<Vec<u32>>),
}

#[derive(Clone, Debug)]
pub struct EmbeddingsUsage {
    pub prompt_tokens: u32,
    pub total_tokens: u32,
}

} // verus!
