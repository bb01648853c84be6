//! Planning the client's HTTP requests.
//!
//! Every method of the client issues exactly one request; its method, URL,
//! JSON body shape and whether it expects an event-stream response are pure
//! functions of the call's arguments, computed here. An optional identifier
//! sent in a body is `null` when absent, matching the wire protocol; an
//! optional record field is omitted instead (see `wire`).

use vstd::prelude::*;

verus! {

use vstd::string::StringExecFns;
use crate::types::LLMConfig;
use crate::types::Target;
use crate::types::ToolConfig;
use crate::wire::WireField;
use crate::wire::WireFieldModel;
use crate::wire::WireValue;
use crate::wire::WireValueModel;
use crate::wire::fields_view;
use crate::wire::llmconfig_wire_s;
use crate::wire::target_wire_s;
use crate::wire::toolconfig_wire_s;

/// The HTTP method of a request.
#[derive(Clone, Copy, Debug, PartialEq, Eq, Structural)]
pub enum HttpMethod {
    Get,
    Post,
    Put,
    Delete,
}

/// One planned request: method, full URL, optional JSON body as a wire
/// object, and whether the caller expects an event-stream response.
#[derive(Debug, PartialEq, Eq)]
pub struct RequestPlan {
    pub method: HttpMethod,
    pub url: String,
    pub body: Option<Vec<WireField>>,
    pub accept_event_stream: bool,
}

/// Mathematical value of a `RequestPlan`.
#[verifier::ext_equal]
pub struct PlanModel {
    pub method: HttpMethod,
    pub url: Seq<char>,
    pub body: Option<Seq<WireFieldModel>>,
    pub accept_event_stream: bool,
}

impl View for RequestPlan {
    type V = PlanModel;

    open spec fn view(&self) -> PlanModel {
        PlanModel {
            method: self.method,
            url: self.url@,
            body: match &self.body {
                Some(b) => Some(fields_view(b@)),
                None => None,
            },
            accept_event_stream: self.accept_event_stream,
        }
    }
}

/// The value of an optional borrowed string.
pub open spec fn opt_ref_view(o: Option<&str>) -> Option<Seq<char>> {
    match o {
        Some(s) => Some(s@),
        None => None,
    }
}

/// An optional string sent in a body: the string, or `null` when absent.
pub open spec fn nullable_str_s(v: Option<Seq<char>>) -> WireValueModel {
    match v {
        Some(s) => WireValueModel::Str(s),
        None => WireValueModel::Null,
    }
}

/// Builds the wire value of an optional string: `null` when absent.
fn nullable_str(v: Option<&str>) -> (r: WireValue)
    ensures
        r@ == nullable_str_s(opt_ref_view(v)),
{
    match v {
        Some(s) => WireValue::Str(String::from_str(s)),
        None => WireValue::Null,
    }
}

/// The decimal digit character of `d`.
pub open spec fn digit_char(d: nat) -> char {
    if d == 0 {
        '0'
    } else if d == 1 {
        '1'
    } else if d == 2 {
        '2'
    } else if d == 3 {
        '3'
    } else if d == 4 {
        '4'
    } else if d == 5 {
        '5'
    } else if d == 6 {
        '6'
    } else if d == 7 {
        '7'
    } else if d == 8 {
        '8'
    } else {
        '9'
    }
}

/// The decimal digits of `n`, most significant first, no leading zero except
/// for zero itself.
pub open spec fn dec_digits(n: nat) -> Seq<char>
    decreases n,
{
    if n < 10 {
        seq![digit_char(n)]
    } else {
        dec_digits(n / 10).push(digit_char(n % 10))
    }
}

/// The one-character string of a decimal digit.
fn digit_str(d: usize) -> (s: String)
    requires
        d < 10,
    ensures
        s@ == seq![digit_char(d as nat)],
{
    proof {
        reveal_strlit("0");
        reveal_strlit("1");
        reveal_strlit("2");
        reveal_strlit("3");
        reveal_strlit("4");
        reveal_strlit("5");
        reveal_strlit("6");
        reveal_strlit("7");
        reveal_strlit("8");
        reveal_strlit("9");
    }
    let s = if d == 0 {
        String::from_str("0")
    } else if d == 1 {
        String::from_str("1")
    } else if d == 2 {
        String::from_str("2")
    } else if d == 3 {
        String::from_str("3")
    } else if d == 4 {
        String::from_str("4")
    } else if d == 5 {
        String::from_str("5")
    } else if d == 6 {
        String::from_str("6")
    } else if d == 7 {
        String::from_str("7")
    } else if d == 8 {
        String::from_str("8")
    } else {
        String::from_str("9")
    };
    proof {
        assert(s@ =~= seq![digit_char(d as nat)]);
    }
    s
}

/// Writes `n` in decimal.
pub fn usize_to_string(n: usize) -> (s: String)
    ensures
        s@ == dec_digits(n as nat),
    decreases n,
{
    if n < 10 {
        digit_str(n)
    } else {
        let mut s = usize_to_string(n / 10);
        let d = digit_str(n % 10);
        s.append(d.as_str());
        proof {
            assert(s@ =~= dec_digits(n as nat));
        }
        s
    }
}

/// The plan of the chat call: post the message, with the conversation to
/// continue or `null` to start one, and expect an event stream.
pub open spec fn chat_plan_s(
    base: Seq<char>,
    conversation_id: Option<Seq<char>>,
    message: Seq<char>,
) -> PlanModel {
    PlanModel {
        method: HttpMethod::Post,
        url: base + "/api/chat"@,
        body: Some(
            seq![
                WireFieldModel {
                    name: "conversation_id"@,
                    value: nullable_str_s(conversation_id),
                },
                WireFieldModel { name: "message"@, value: WireValueModel::Str(message) },
            ],
        ),
        accept_event_stream: true,
    }
}

/// Plans the chat call.
pub fn plan_chat(base: &str, conversation_id: Option<&str>, message: &str) -> (p: RequestPlan)
    ensures
        p@ == chat_plan_s(base@, opt_ref_view(conversation_id), message@),
{
    let mut body: Vec<WireField> = Vec::new();
    body.push(
        WireField { name: String::from_str("conversation_id"), value: nullable_str(conversation_id) },
    );
    body.push(
        WireField {
            name: String::from_str("message"),
            value: WireValue::Str(String::from_str(message)),
        },
    );
    let p = RequestPlan {
        method: HttpMethod::Post,
        url: String::from_str(base).concat("/api/chat"),
        body: Some(body),
        accept_event_stream: true,
    };
    proof {
        assert(p@ =~~= chat_plan_s(base@, opt_ref_view(conversation_id), message@));
    }
    p
}

/// The plan of listing all conversations.
pub open spec fn list_conversations_plan_s(base: Seq<char>) -> PlanModel {
    PlanModel {
        method: HttpMethod::Get,
        url: base + "/api/conversations"@,
        body: None,
        accept_event_stream: false,
    }
}

/// Plans listing all conversations.
pub fn plan_list_conversations(base: &str) -> (p: RequestPlan)
    ensures
        p@ == list_conversations_plan_s(base@),
{
    let p = RequestPlan {
        method: HttpMethod::Get,
        url: String::from_str(base).concat("/api/conversations"),
        body: None,
        accept_event_stream: false,
    };
    proof {
        assert(p@ =~~= list_conversations_plan_s(base@));
    }
    p
}

/// The plan of fetching a conversation's messages.
pub open spec fn get_conversation_plan_s(base: Seq<char>, conversation_id: Seq<char>) -> PlanModel {
    PlanModel {
        method: HttpMethod::Get,
        url: base + "/api/conversations/"@ + conversation_id,
        body: None,
        accept_event_stream: false,
    }
}

/// Plans fetching a conversation's messages.
pub fn plan_get_conversation(base: &str, conversation_id: &str) -> (p: RequestPlan)
    ensures
        p@ == get_conversation_plan_s(base@, conversation_id@),
{
    let p = RequestPlan {
        method: HttpMethod::Get,
        url: String::from_str(base).concat("/api/conversations/").concat(conversation_id),
        body: None,
        accept_event_stream: false,
    };
    proof {
        assert(p@ =~~= get_conversation_plan_s(base@, conversation_id@));
    }
    p
}

/// The plan of creating a conversation, with a title or `null`.
pub open spec fn create_conversation_plan_s(base: Seq<char>, title: Option<Seq<char>>) -> PlanModel {
    PlanModel {
        method: HttpMethod::Post,
        url: base + "/api/conversations"@,
        body: Some(seq![WireFieldModel { name: "title"@, value: nullable_str_s(title) }]),
        accept_event_stream: false,
    }
}

/// Plans creating a conversation.
pub fn plan_create_conversation(base: &str, title: Option<&str>) -> (p: RequestPlan)
    ensures
        p@ == create_conversation_plan_s(base@, opt_ref_view(title)),
{
    let mut body: Vec<WireField> = Vec::new();
    body.push(WireField { name: String::from_str("title"), value: nullable_str(title) });
    let p = RequestPlan {
        method: HttpMethod::Post,
        url: String::from_str(base).concat("/api/conversations"),
        body: Some(body),
        accept_event_stream: false,
    };
    proof {
        assert(p@ =~~= create_conversation_plan_s(base@, opt_ref_view(title)));
    }
    p
}

/// The plan of deleting a conversation.
pub open spec fn delete_conversation_plan_s(base: Seq<char>, conversation_id: Seq<char>) -> PlanModel {
    PlanModel {
        method: HttpMethod::Delete,
        url: base + "/api/conversations/"@ + conversation_id,
        body: None,
        accept_event_stream: false,
    }
}

/// Plans deleting a conversation.
pub fn plan_delete_conversation(base: &str, conversation_id: &str) -> (p: RequestPlan)
    ensures
        p@ == delete_conversation_plan_s(base@, conversation_id@),
{
    let p = RequestPlan {
        method: HttpMethod::Delete,
        url: String::from_str(base).concat("/api/conversations/").concat(conversation_id),
        body: None,
        accept_event_stream: false,
    };
    proof {
        assert(p@ =~~= delete_conversation_plan_s(base@, conversation_id@));
    }
    p
}

/// The plan of adding a target: its record's wire shape is the body.
pub open spec fn add_target_plan_s(base: Seq<char>, target: crate::types::TargetModel) -> PlanModel {
    PlanModel {
        method: HttpMethod::Post,
        url: base + "/api/targets"@,
        body: Some(target_wire_s(target)),
        accept_event_stream: false,
    }
}

/// Plans adding a target.
pub fn plan_add_target(base: &str, target: &Target) -> (p: RequestPlan)
    ensures
        p@ == add_target_plan_s(base@, target@),
{
    let p = RequestPlan {
        method: HttpMethod::Post,
        url: String::from_str(base).concat("/api/targets"),
        body: Some(target.to_wire()),
        accept_event_stream: false,
    };
    proof {
        assert(p@ =~~= add_target_plan_s(base@, target@));
    }
    p
}

/// The plan of listing all targets.
pub open spec fn list_targets_plan_s(base: Seq<char>) -> PlanModel {
    PlanModel {
        method: HttpMethod::Get,
        url: base + "/api/targets"@,
        body: None,
        accept_event_stream: false,
    }
}

/// Plans listing all targets.
pub fn plan_list_targets(base: &str) -> (p: RequestPlan)
    ensures
        p@ == list_targets_plan_s(base@),
{
    let p = RequestPlan {
        method: HttpMethod::Get,
        url: String::from_str(base).concat("/api/targets"),
        body: None,
        accept_event_stream: false,
    };
    proof {
        assert(p@ =~~= list_targets_plan_s(base@));
    }
    p
}

/// The plan of removing a target by name.
pub open spec fn remove_target_plan_s(base: Seq<char>, name: Seq<char>) -> PlanModel {
    PlanModel {
        method: HttpMethod::Delete,
        url: base + "/api/targets/"@ + name,
        body: None,
        accept_event_stream: false,
    }
}

/// Plans removing a target.
pub fn plan_remove_target(base: &str, name: &str) -> (p: RequestPlan)
    ensures
        p@ == remove_target_plan_s(base@, name@),
{
    let p = RequestPlan {
        method: HttpMethod::Delete,
        url: String::from_str(base).concat("/api/targets/").concat(name),
        body: None,
        accept_event_stream: false,
    };
    proof {
        assert(p@ =~~= remove_target_plan_s(base@, name@));
    }
    p
}

/// The plan of probing an OpenAPI spec URL.
pub open spec fn probe_target_plan_s(base: Seq<char>, url: Seq<char>) -> PlanModel {
    PlanModel {
        method: HttpMethod::Post,
        url: base + "/api/targets/probe"@,
        body: Some(seq![WireFieldModel { name: "url"@, value: WireValueModel::Str(url) }]),
        accept_event_stream: false,
    }
}

/// Plans probing an OpenAPI spec URL.
pub fn plan_probe_target(base: &str, url: &str) -> (p: RequestPlan)
    ensures
        p@ == probe_target_plan_s(base@, url@),
{
    let mut body: Vec<WireField> = Vec::new();
    body.push(
        WireField { name: String::from_str("url"), value: WireValue::Str(String::from_str(url)) },
    );
    let p = RequestPlan {
        method: HttpMethod::Post,
        url: String::from_str(base).concat("/api/targets/probe"),
        body: Some(body),
        accept_event_stream: false,
    };
    proof {
        assert(p@ =~~= probe_target_plan_s(base@, url@));
    }
    p
}

/// The plan of listing all tools.
pub open spec fn list_tools_plan_s(base: Seq<char>) -> PlanModel {
    PlanModel {
        method: HttpMethod::Get,
        url: base + "/api/tools"@,
        body: None,
        accept_event_stream: false,
    }
}

/// Plans listing all tools.
pub fn plan_list_tools(base: &str) -> (p: RequestPlan)
    ensures
        p@ == list_tools_plan_s(base@),
{
    let p = RequestPlan {
        method: HttpMethod::Get,
        url: String::from_str(base).concat("/api/tools"),
        body: None,
        accept_event_stream: false,
    };
    proof {
        assert(p@ =~~= list_tools_plan_s(base@));
    }
    p
}

/// The plan of listing all tool sources.
pub open spec fn list_tool_sources_plan_s(base: Seq<char>) -> PlanModel {
    PlanModel {
        method: HttpMethod::Get,
        url: base + "/api/tools/sources"@,
        body: None,
        accept_event_stream: false,
    }
}

/// Plans listing all tool sources.
pub fn plan_list_tool_sources(base: &str) -> (p: RequestPlan)
    ensures
        p@ == list_tool_sources_plan_s(base@),
{
    let p = RequestPlan {
        method: HttpMethod::Get,
        url: String::from_str(base).concat("/api/tools/sources"),
        body: None,
        accept_event_stream: false,
    };
    proof {
        assert(p@ =~~= list_tool_sources_plan_s(base@));
    }
    p
}

/// The plan of fetching a conversation's tool configuration.
pub open spec fn get_conversation_tools_plan_s(
    base: Seq<char>,
    conversation_id: Seq<char>,
) -> PlanModel {
    PlanModel {
        method: HttpMethod::Get,
        url: base + "/api/conversations/"@ + conversation_id + "/tools"@,
        body: None,
        accept_event_stream: false,
    }
}

/// Plans fetching a conversation's tool configuration.
pub fn plan_get_conversation_tools(base: &str, conversation_id: &str) -> (p: RequestPlan)
    ensures
        p@ == get_conversation_tools_plan_s(base@, conversation_id@),
{
    let p = RequestPlan {
        method: HttpMethod::Get,
        url: String::from_str(base).concat("/api/conversations/").concat(conversation_id).concat(
            "/tools",
        ),
        body: None,
        accept_event_stream: false,
    };
    proof {
        assert(p@ =~~= get_conversation_tools_plan_s(base@, conversation_id@));
    }
    p
}

/// The plan of updating a conversation's tool configuration: the record's
/// wire shape is the body.
pub open spec fn update_conversation_tools_plan_s(
    base: Seq<char>,
    conversation_id: Seq<char>,
    config: crate::types::ToolConfigModel,
) -> PlanModel {
    PlanModel {
        method: HttpMethod::Put,
        url: base + "/api/conversations/"@ + conversation_id + "/tools"@,
        body: Some(toolconfig_wire_s(config)),
        accept_event_stream: false,
    }
}

/// Plans updating a conversation's tool configuration.
pub fn plan_update_conversation_tools(base: &str, conversation_id: &str, config: &ToolConfig) -> (p:
    RequestPlan)
    ensures
        p@ == update_conversation_tools_plan_s(base@, conversation_id@, config@),
{
    let p = RequestPlan {
        method: HttpMethod::Put,
        url: String::from_str(base).concat("/api/conversations/").concat(conversation_id).concat(
            "/tools",
        ),
        body: Some(config.to_wire()),
        accept_event_stream: false,
    };
    proof {
        assert(p@ =~~= update_conversation_tools_plan_s(base@, conversation_id@, config@));
    }
    p
}

/// The plan of editing a message and regenerating from it: put the new
/// content and expect an event stream.
pub open spec fn edit_message_plan_s(
    base: Seq<char>,
    conversation_id: Seq<char>,
    index: nat,
    new_content: Seq<char>,
) -> PlanModel {
    PlanModel {
        method: HttpMethod::Put,
        url: base + "/api/conversations/"@ + conversation_id + "/messages/"@ + dec_digits(index),
        body: Some(
            seq![WireFieldModel { name: "content"@, value: WireValueModel::Str(new_content) }],
        ),
        accept_event_stream: true,
    }
}

/// Plans editing a message.
pub fn plan_edit_message(base: &str, conversation_id: &str, index: usize, new_content: &str) -> (p:
    RequestPlan)
    ensures
        p@ == edit_message_plan_s(base@, conversation_id@, index as nat, new_content@),
{
    let mut body: Vec<WireField> = Vec::new();
    body.push(
        WireField {
            name: String::from_str("content"),
            value: WireValue::Str(String::from_str(new_content)),
        },
    );
    let idx = usize_to_string(index);
    let p = RequestPlan {
        method: HttpMethod::Put,
        url: String::from_str(base).concat("/api/conversations/").concat(conversation_id).concat(
            "/messages/",
        ).concat(idx.as_str()),
        body: Some(body),
        accept_event_stream: true,
    };
    proof {
        assert(p@ =~~= edit_message_plan_s(base@, conversation_id@, index as nat, new_content@));
    }
    p
}

/// The plan of regenerating from a message index: post the index and expect
/// an event stream.
pub open spec fn regenerate_from_plan_s(
    base: Seq<char>,
    conversation_id: Seq<char>,
    index: nat,
) -> PlanModel {
    PlanModel {
        method: HttpMethod::Post,
        url: base + "/api/conversations/"@ + conversation_id + "/regenerate"@,
        body: Some(seq![WireFieldModel { name: "from_index"@, value: WireValueModel::Num(index) }]),
        accept_event_stream: true,
    }
}

/// Plans regenerating from a message index.
pub fn plan_regenerate_from(base: &str, conversation_id: &str, index: usize) -> (p: RequestPlan)
    ensures
        p@ == regenerate_from_plan_s(base@, conversation_id@, index as nat),
{
    let mut body: Vec<WireField> = Vec::new();
    body.push(WireField { name: String::from_str("from_index"), value: WireValue::Num(index) });
    let p = RequestPlan {
        method: HttpMethod::Post,
        url: String::from_str(base).concat("/api/conversations/").concat(conversation_id).concat(
            "/regenerate",
        ),
        body: Some(body),
        accept_event_stream: true,
    };
    proof {
        assert(p@ =~~= regenerate_from_plan_s(base@, conversation_id@, index as nat));
    }
    p
}

/// The plan of deleting one message.
pub open spec fn delete_message_plan_s(
    base: Seq<char>,
    conversation_id: Seq<char>,
    index: nat,
) -> PlanModel {
    PlanModel {
        method: HttpMethod::Delete,
        url: base + "/api/conversations/"@ + conversation_id + "/messages/"@ + dec_digits(index),
        body: None,
        accept_event_stream: false,
    }
}

/// Plans deleting one message.
pub fn plan_delete_message(base: &str, conversation_id: &str, index: usize) -> (p: RequestPlan)
    ensures
        p@ == delete_message_plan_s(base@, conversation_id@, index as nat),
{
    let idx = usize_to_string(index);
    let p = RequestPlan {
        method: HttpMethod::Delete,
        url: String::from_str(base).concat("/api/conversations/").concat(conversation_id).concat(
            "/messages/",
        ).concat(idx.as_str()),
        body: None,
        accept_event_stream: false,
    };
    proof {
        assert(p@ =~~= delete_message_plan_s(base@, conversation_id@, index as nat));
    }
    p
}

/// The plan of deleting all messages from an index on.
pub open spec fn delete_messages_from_plan_s(
    base: Seq<char>,
    conversation_id: Seq<char>,
    index: nat,
) -> PlanModel {
    PlanModel {
        method: HttpMethod::Delete,
        url: base + "/api/conversations/"@ + conversation_id + "/messages/"@ + dec_digits(index)
            + "/from"@,
        body: None,
        accept_event_stream: false,
    }
}

/// Plans deleting all messages from an index on.
pub fn plan_delete_messages_from(base: &str, conversation_id: &str, index: usize) -> (p: RequestPlan)
    ensures
        p@ == delete_messages_from_plan_s(base@, conversation_id@, index as nat),
{
    let idx = usize_to_string(index);
    let p = RequestPlan {
        method: HttpMethod::Delete,
        url: String::from_str(base).concat("/api/conversations/").concat(conversation_id).concat(
            "/messages/",
        ).concat(idx.as_str()).concat("/from"),
        body: None,
        accept_event_stream: false,
    };
    proof {
        assert(p@ =~~= delete_messages_from_plan_s(base@, conversation_id@, index as nat));
    }
    p
}

/// The plan of fetching the LLM configuration.
pub open spec fn get_llm_config_plan_s(base: Seq<char>) -> PlanModel {
    PlanModel {
        method: HttpMethod::Get,
        url: base + "/api/config/llm"@,
        body: None,
        accept_event_stream: false,
    }
}

/// Plans fetching the LLM configuration.
pub fn plan_get_llm_config(base: &str) -> (p: RequestPlan)
    ensures
        p@ == get_llm_config_plan_s(base@),
{
    let p = RequestPlan {
        method: HttpMethod::Get,
        url: String::from_str(base).concat("/api/config/llm"),
        body: None,
        accept_event_stream: false,
    };
    proof {
        assert(p@ =~~= get_llm_config_plan_s(base@));
    }
    p
}

/// The plan of updating the LLM configuration: the record's wire shape is
/// the body.
pub open spec fn update_llm_config_plan_s(
    base: Seq<char>,
    config: crate::types::LLMConfigModel,
) -> PlanModel {
    PlanModel {
        method: HttpMethod::Put,
        url: base + "/api/config/llm"@,
        body: Some(llmconfig_wire_s(config)),
        accept_event_stream: false,
    }
}

/// Plans updating the LLM configuration.
pub fn plan_update_llm_config(base: &str, config: &LLMConfig) -> (p: RequestPlan)
    ensures
        p@ == update_llm_config_plan_s(base@, config@),
{
    let p = RequestPlan {
        method: HttpMethod::Put,
        url: String::from_str(base).concat("/api/config/llm"),
        body: Some(config.to_wire()),
        accept_event_stream: false,
    };
    proof {
        assert(p@ =~~= update_llm_config_plan_s(base@, config@));
    }
    p
}

/// The plan of probing for local LLM providers.
pub open spec fn probe_llm_providers_plan_s(base: Seq<char>) -> PlanModel {
    PlanModel {
        method: HttpMethod::Get,
        url: base + "/api/config/llm/providers"@,
        body: None,
        accept_event_stream: false,
    }
}

/// Plans probing for local LLM providers.
pub fn plan_probe_llm_providers(base: &str) -> (p: RequestPlan)
    ensures
        p@ == probe_llm_providers_plan_s(base@),
{
    let p = RequestPlan {
        method: HttpMethod::Get,
        url: String::from_str(base).concat("/api/config/llm/providers"),
        body: None,
        accept_event_stream: false,
    };
    proof {
        assert(p@ =~~= probe_llm_providers_plan_s(base@));
    }
    p
}

/// The plan of fetching the models a provider offers: post the provider's
/// base URL, with the API key or `null`.
pub open spec fn fetch_models_plan_s(
    base: Seq<char>,
    api_base: Seq<char>,
    api_key: Option<Seq<char>>,
) -> PlanModel {
    PlanModel {
        method: HttpMethod::Post,
        url: base + "/api/config/llm/models"@,
        body: Some(
            seq![
                WireFieldModel { name: "api_base"@, value: WireValueModel::Str(api_base) },
                WireFieldModel { name: "api_key"@, value: nullable_str_s(api_key) },
            ],
        ),
        accept_event_stream: false,
    }
}

/// Plans fetching the models a provider offers.
pub fn plan_fetch_models(base: &str, api_base: &str, api_key: Option<&str>) -> (p: RequestPlan)
    ensures
        p@ == fetch_models_plan_s(base@, api_base@, opt_ref_view(api_key)),
{
    let mut body: Vec<WireField> = Vec::new();
    body.push(
        WireField {
            name: String::from_str("api_base"),
            value: WireValue::Str(String::from_str(api_base)),
        },
    );
    body.push(WireField { name: String::from_str("api_key"), value: nullable_str(api_key) });
    let p = RequestPlan {
        method: HttpMethod::Post,
        url: String::from_str(base).concat("/api/config/llm/models"),
        body: Some(body),
        accept_event_stream: false,
    };
    proof {
        assert(p@ =~~= fetch_models_plan_s(base@, api_base@, opt_ref_view(api_key)));
    }
    p
}

/// The plan of fetching the proxy configuration.
pub open spec fn get_proxy_config_plan_s(base: Seq<char>) -> PlanModel {
    PlanModel {
        method: HttpMethod::Get,
        url: base + "/api/config/proxy"@,
        body: None,
        accept_event_stream: false,
    }
}

/// Plans fetching the proxy configuration.
pub fn plan_get_proxy_config(base: &str) -> (p: RequestPlan)
    ensures
        p@ == get_proxy_config_plan_s(base@),
{
    let p = RequestPlan {
        method: HttpMethod::Get,
        url: String::from_str(base).concat("/api/config/proxy"),
        body: None,
        accept_event_stream: false,
    };
    proof {
        assert(p@ =~~= get_proxy_config_plan_s(base@));
    }
    p
}

/// The plan of updating the proxy configuration.
pub open spec fn update_proxy_config_plan_s(base: Seq<char>, proxy_url: Seq<char>) -> PlanModel {
    PlanModel {
        method: HttpMethod::Put,
        url: base + "/api/config/proxy"@,
        body: Some(seq![WireFieldModel { name: "url"@, value: WireValueModel::Str(proxy_url) }]),
        accept_event_stream: false,
    }
}

/// Plans updating the proxy configuration.
pub fn plan_update_proxy_config(base: &str, proxy_url: &str) -> (p: RequestPlan)
    ensures
        p@ == update_proxy_config_plan_s(base@, proxy_url@),
{
    let mut body: Vec<WireField> = Vec::new();
    body.push(
        WireField {
            name: String::from_str("url"),
            value: WireValue::Str(String::from_str(proxy_url)),
        },
    );
    let p = RequestPlan {
        method: HttpMethod::Put,
        url: String::from_str(base).concat("/api/config/proxy"),
        body: Some(body),
        accept_event_stream: false,
    };
    proof {
        assert(p@ =~~= update_proxy_config_plan_s(base@, proxy_url@));
    }
    p
}

/// The plan of testing a proxy configuration.
pub open spec fn test_proxy_plan_s(base: Seq<char>, proxy_url: Seq<char>) -> PlanModel {
    PlanModel {
        method: HttpMethod::Post,
        url: base + "/api/config/proxy/test"@,
        body: Some(seq![WireFieldModel { name: "url"@, value: WireValueModel::Str(proxy_url) }]),
        accept_event_stream: false,
    }
}

/// Plans testing a proxy configuration.
pub fn plan_test_proxy(base: &str, proxy_url: &str) -> (p: RequestPlan)
    ensures
        p@ == test_proxy_plan_s(base@, proxy_url@),
{
    let mut body: Vec<WireField> = Vec::new();
    body.push(
        WireField {
            name: String::from_str("url"),
            value: WireValue::Str(String::from_str(proxy_url)),
        },
    );
    let p = RequestPlan {
        method: HttpMethod::Post,
        url: String::from_str(base).concat("/api/config/proxy/test"),
        body: Some(body),
        accept_event_stream: false,
    };
    proof {
        assert(p@ =~~= test_proxy_plan_s(base@, proxy_url@));
    }
    p
}

} // verus!
