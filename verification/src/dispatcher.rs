//! The server's answers to JSON-RPC requests.
//!
//! A request that needs the Telegram service is answered in steps: `dispatch`
//! says what to ask of the service, the caller asks it, and `resume` turns the
//! reply into the response.
use vstd::prelude::*;
use vstd::string::*;
use crate::json::{
    as_str_spec, entries_view, get_spec, items_view, json_str, make_array, make_object, push_entry,
    push_item, JsonModel, JsonValue,
};
use crate::protocol::{
    error_response, success_response, ErrorModel, JsonRpcError, JsonRpcRequest, JsonRpcResponse,
};
use crate::registry::{register_all_tools, registered_kinds_spec, registry_map, ToolRegistry};
use crate::service::{call_shape, outcome_fits, ServiceAnswer, ServiceCall, ServiceReply};
use crate::tools::image::{after_download, after_read, after_read_spec, DownloadStep};
use crate::tools::output::text_result_model;
use crate::tools::schema::{ToolInfoModel};
use crate::tools::{
    complete_spec, info_of, lemma_prepared_shape, ok_text, prepare_for, prepare_spec,
    prepared_view, tool_info_spec, tool_shape, tool_shape_spec, ToolKind,
};
use crate::tools::output::{error_text, text_result};

verus! {

/// `{"protocolVersion": "2024-11-05", "capabilities": {}, "serverInfo":
/// {"name": "telegram-mcp-rs", "version": "0.1.0"}}`.
pub open spec fn initialize_model() -> JsonModel {
    JsonModel::Object(
        Seq::empty().push(("protocolVersion"@, JsonModel::Str("2024-11-05"@))).push(
            ("capabilities"@, JsonModel::Object(Seq::empty())),
        ).push(
            (
                "serverInfo"@,
                JsonModel::Object(
                    Seq::empty().push(("name"@, JsonModel::Str("telegram-mcp-rs"@))).push(
                        ("version"@, JsonModel::Str("0.1.0"@)),
                    ),
                ),
            ),
        ),
    )
}

/// A tool as `tools/list` describes it.
pub open spec fn listed_tool(info: ToolInfoModel) -> JsonModel {
    JsonModel::Object(
        Seq::empty().push(("name"@, JsonModel::Str(info.name))).push(
            ("description"@, JsonModel::Str(info.description)),
        ).push(("inputSchema"@, info.input_schema)),
    )
}

/// `{"tools": [...]}`, one item for each tool of the registry, in its order.
pub open spec fn tools_list_model(entries: Seq<(Seq<char>, ToolKind)>) -> JsonModel {
    JsonModel::Object(
        Seq::empty().push(
            (
                "tools"@,
                JsonModel::Array(
                    entries.map_values(
                        |e: (Seq<char>, ToolKind)| listed_tool(tool_info_spec(e.1)),
                    ),
                ),
            ),
        ),
    )
}

/// The arguments of a `tools/call`: `params.arguments`, or `{}`.
pub open spec fn call_arguments(params: JsonModel) -> JsonModel {
    match get_spec(params, "arguments"@) {
        Some(a) => a,
        None => JsonModel::Object(Seq::empty()),
    }
}

/// A response to request `id` with this result.
pub open spec fn answers_with(r: JsonRpcResponse, id: JsonValue, result: JsonModel) -> bool {
    &&& r.jsonrpc@ == "2.0"@
    &&& r.id == id
    &&& r.error is None
    &&& r.result matches Some(v) && v@ == result
}

/// A response to request `id` with this error.
pub open spec fn fails_with(r: JsonRpcResponse, id: JsonValue, e: ErrorModel) -> bool {
    &&& r.jsonrpc@ == "2.0"@
    &&& r.id == id
    &&& r.result is None
    &&& r.error matches Some(err) && err@ == e
}

pub open spec fn plain_error(code: i32, message: Seq<char>) -> ErrorModel {
    ErrorModel { code, message, data: None }
}

/// A request that waits for the Telegram service.
#[derive(Debug)]
pub struct PendingCall {
    pub id: JsonValue,
    pub kind: ToolKind,
    pub call: ServiceCall,
    /// For `get_image`, the file that it has downloaded and waits to read.
    pub downloaded: Option<String>,
}

/// What the server does next with a request.
#[derive(Debug)]
pub enum Step {
    /// Answer it, or (for a notification) not.
    Done(Option<JsonRpcResponse>),
    /// Ask the Telegram service the pending request's call, then resume.
    Call(PendingCall),
    /// Read the downloaded file of the pending request, then resume.
    ReadFile(PendingCall),
}

/// What the caller hands back after a step.
#[derive(Debug)]
pub enum Event {
    Answered(Result<ServiceAnswer, String>),
    FileRead(Result<Vec<u8>, String>),
}

/// The event that a pending request waits for.
pub open spec fn event_fits(p: PendingCall, ev: Event) -> bool {
    match ev {
        Event::Answered(outcome) => p.downloaded is None && outcome_fits(p.call@, outcome),
        Event::FileRead(_) => p.kind == ToolKind::GetImage && p.downloaded is Some,
    }
}

impl PendingCall {
    /// Whether an event is the one that this request waits for, answering a
    /// call of the tool's kind.
    pub fn expects(&self, ev: &Event) -> (b: bool)
        ensures
            b == (event_fits(*self, *ev) && (self.downloaded is None ==> call_shape(self.call@)
                == tool_shape_spec(self.kind))),
    {
        let shape_ok = match self.downloaded {
            Some(_) => true,
            None => self.call.reply_shape() == tool_shape(self.kind),
        };
        let fits = match ev {
            Event::Answered(outcome) => {
                self.downloaded.is_none() && match outcome {
                    Ok(a) => self.call.accepts(&a.reply),
                    Err(_) => true,
                }
            },
            Event::FileRead(_) => self.kind == ToolKind::GetImage && self.downloaded.is_some(),
        };
        shape_ok && fits
    }
}

/// How the server answers a request, given its registry of tools.
pub open spec fn dispatch_spec(tools: ToolRegistry, req: JsonRpcRequest, step: Step) -> bool {
    match req.id {
        None => step matches Step::Done(None),
        Some(id) => if req.method@ == "initialize"@ {
            step matches Step::Done(Some(r)) && answers_with(r, id, initialize_model())
        } else if req.method@ == "tools/list"@ {
            step matches Step::Done(Some(r)) && answers_with(
                r,
                id,
                tools_list_model(tools.entry_list()),
            )
        } else if req.method@ == "tools/call"@ {
            match req.params {
                None => step matches Step::Done(Some(r)) && fails_with(
                    r,
                    id,
                    plain_error(-32602i32, "Missing params"@),
                ),
                Some(params) => match get_spec(params@, "name"@) {
                    Some(n) if as_str_spec(n) is Some => {
                        let name = as_str_spec(n)->Some_0;
                        if tools@.contains_key(name) {
                            let kind = tools@[name];
                            match prepare_spec(kind, call_arguments(params@)) {
                                Ok(c) => step matches Step::Call(p) && p.id == id && p.kind
                                    == kind && p.call@ == c && p.downloaded is None,
                                Err(e) => step matches Step::Done(Some(r)) && fails_with(r, id, e),
                            }
                        } else {
                            step matches Step::Done(Some(r)) && fails_with(
                                r,
                                id,
                                plain_error(-32601i32, "Tool not found: "@ + name),
                            )
                        }
                    },
                    _ => step matches Step::Done(Some(r)) && fails_with(
                        r,
                        id,
                        plain_error(-32602i32, "Missing or invalid 'name' in params"@),
                    ),
                },
            }
        } else {
            step matches Step::Done(Some(r)) && fails_with(
                r,
                id,
                plain_error(-32601i32, "Method not found: "@ + req.method@),
            )
        },
    }
}

/// How the server goes on with a pending request once the caller has done
/// what the last step asked.
pub open spec fn resume_spec(p: PendingCall, ev: Event, step: Step) -> bool {
    if p.kind != ToolKind::GetImage {
        match ev {
            Event::Answered(outcome) => step matches Step::Done(Some(r)) && answers_with(
                r,
                p.id,
                complete_spec(p.kind, p.call@, outcome),
            ),
            _ => true,
        }
    } else {
        match ev {
            Event::Answered(Ok(a)) => {
                &&& step matches Step::ReadFile(q)
                &&& step->ReadFile_0.id == p.id
                &&& step->ReadFile_0.kind == p.kind
                &&& step->ReadFile_0.call == p.call
                &&& step->ReadFile_0.downloaded is Some
                &&& a.reply is Path
                &&& step->ReadFile_0.downloaded->Some_0@ == a.reply->Path_0@
            },
            Event::Answered(Err(e)) => step matches Step::Done(Some(r)) && answers_with(
                r,
                p.id,
                text_result_model("Error downloading media: "@ + e@, true),
            ),
            Event::FileRead(read) => step matches Step::Done(Some(r)) && answers_with(
                r,
                p.id,
                after_read_spec(
                    p.downloaded->Some_0@,
                    match read {
                        Ok(b) => Ok(b@),
                        Err(e) => Err(e@),
                    },
                ),
            ),
        }
    }
}

fn initialize_result() -> (r: JsonValue)
    ensures
        r@ == initialize_model(),
{
    let mut info: Vec<(String, JsonValue)> = Vec::new();
    push_entry(&mut info, "name", json_str("telegram-mcp-rs"));
    push_entry(&mut info, "version", json_str("0.1.0"));
    let mut e: Vec<(String, JsonValue)> = Vec::new();
    push_entry(&mut e, "protocolVersion", json_str("2024-11-05"));
    push_entry(&mut e, "capabilities", JsonValue::empty_object());
    assert(entries_view(info@) =~= Seq::empty().push(("name"@, JsonModel::Str("telegram-mcp-rs"@))).push(
        ("version"@, JsonModel::Str("0.1.0"@)),
    ));
    push_entry(&mut e, "serverInfo", make_object(info));
    assert(entries_view(e@) =~= initialize_model()->Object_0);
    make_object(e)
}

fn listed_tool_json(kind: ToolKind) -> (r: JsonValue)
    ensures
        r@ == listed_tool(tool_info_spec(kind)),
{
    let info = info_of(kind);
    let mut e: Vec<(String, JsonValue)> = Vec::new();
    push_entry(&mut e, "name", JsonValue::Str(info.name));
    push_entry(&mut e, "description", JsonValue::Str(info.description));
    push_entry(&mut e, "inputSchema", info.input_schema);
    assert(entries_view(e@) =~= listed_tool(tool_info_spec(kind))->Object_0);
    make_object(e)
}

fn error_of(code: i32, message: String) -> (e: JsonRpcError)
    ensures
        e@ == plain_error(code, message@),
{
    JsonRpcError { code, message, data: None }
}

fn concat(prefix: &str, rest: &str) -> (s: String)
    ensures
        s@ == prefix@ + rest@,
{
    let mut s = String::from_str(prefix);
    s.append(rest);
    s
}

/// Answers JSON-RPC requests with the tools of its registry.
pub struct Dispatcher {
    pub tools: ToolRegistry,
}

impl Dispatcher {
    /// A dispatcher with every tool that the server offers.
    pub fn new() -> (d: Dispatcher)
        ensures
            d.tools@ == registry_map(registered_kinds_spec()),
    {
        Dispatcher { tools: register_all_tools() }
    }

    pub fn with_tools(tools: ToolRegistry) -> (d: Dispatcher)
        ensures
            d.tools == tools,
    {
        Dispatcher { tools }
    }

    fn tools_list(&self) -> (r: JsonValue)
        ensures
            r@ == tools_list_model(self.tools.entry_list()),
    {
        let kinds = self.tools.kinds();
        let ghost entries = self.tools.entry_list();
        let mut items: Vec<JsonValue> = Vec::new();
        let mut i: usize = 0;
        while i < kinds.len()
            invariant
                0 <= i <= kinds.len(),
                entries == self.tools.entry_list(),
                kinds@ == entries.map_values(|e: (Seq<char>, ToolKind)| e.1),
                items_view(items@) == entries.take(i as int).map_values(
                    |e: (Seq<char>, ToolKind)| listed_tool(tool_info_spec(e.1)),
                ),
            decreases kinds.len() - i,
        {
            push_item(&mut items, listed_tool_json(kinds[i]));
            i = i + 1;
            assert(items_view(items@) =~= entries.take(i as int).map_values(
                |e: (Seq<char>, ToolKind)| listed_tool(tool_info_spec(e.1)),
            ));
        }
        assert(entries.take(i as int) =~= entries);
        let mut e: Vec<(String, JsonValue)> = Vec::new();
        push_entry(&mut e, "tools", make_array(items));
        assert(entries_view(e@) =~= tools_list_model(entries)->Object_0);
        make_object(e)
    }

    /// The first step of answering a request.
    pub fn dispatch(&self, req: JsonRpcRequest) -> (step: Step)
        ensures
            dispatch_spec(self.tools, req, step),
            step matches Step::Call(p) ==> call_shape(p.call@) == tool_shape_spec(p.kind)
                && p.downloaded is None,
    {
        let id = match req.id {
            Some(id) => id,
            None => return Step::Done(None),
        };
        if req.method == String::from_str("initialize") {
            return Step::Done(Some(success_response(id, initialize_result())));
        }
        if req.method == String::from_str("tools/list") {
            return Step::Done(Some(success_response(id, self.tools_list())));
        }
        if req.method == String::from_str("tools/call") {
            let params = match req.params {
                Some(p) => p,
                None => {
                    return Step::Done(
                        Some(error_response(id, error_of(-32602, String::from_str("Missing params")))),
                    );
                },
            };
            let name = match params.get("name") {
                Some(n) => match n.as_str() {
                    Some(s) => s.clone(),
                    None => {
                        return Step::Done(
                            Some(
                                error_response(
                                    id,
                                    error_of(
                                        -32602,
                                        String::from_str("Missing or invalid 'name' in params"),
                                    ),
                                ),
                            ),
                        );
                    },
                },
                None => {
                    return Step::Done(
                        Some(
                            error_response(
                                id,
                                error_of(
                                    -32602,
                                    String::from_str("Missing or invalid 'name' in params"),
                                ),
                            ),
                        ),
                    );
                },
            };
            let empty = JsonValue::empty_object();
            let args = match params.get("arguments") {
                Some(a) => a,
                None => &empty,
            };
            return match self.tools.get(name.as_str()) {
                Some(kind) => match prepare_for(kind, args) {
                    Ok(call) => {
                        proof {
                            lemma_prepared_shape(kind, args@);
                        }
                        Step::Call(PendingCall { id, kind, call, downloaded: None })
                    },
                    Err(e) => Step::Done(Some(error_response(id, e))),
                },
                None => Step::Done(
                    Some(error_response(id, error_of(-32601, concat("Tool not found: ", name.as_str())))),
                ),
            };
        }
        Step::Done(
            Some(error_response(id, error_of(-32601, concat("Method not found: ", req.method.as_str())))),
        )
    }

    /// The next step of answering a pending request, once the caller has done
    /// what the last step asked.
    pub fn resume(&self, p: PendingCall, ev: Event) -> (step: Step)
        requires
            event_fits(p, ev),
            p.downloaded is None ==> call_shape(p.call@) == tool_shape_spec(p.kind),
        ensures
            resume_spec(p, ev, step),
    {
        if p.kind != ToolKind::GetImage {
            match ev {
                Event::Answered(outcome) => {
                    let result = match outcome {
                        Ok(answer) => text_result(ok_text(p.kind, &p.call, &answer), false),
                        Err(e) => text_result(error_text(e.as_str()), true),
                    };
                    Step::Done(Some(success_response(p.id, result)))
                },
                Event::FileRead(_) => Step::Done(None),
            }
        } else {
            match ev {
                Event::Answered(outcome) => {
                    let reply = match outcome {
                        Ok(a) => Ok(a.reply),
                        Err(e) => Err(e),
                    };
                    match after_download(reply) {
                        DownloadStep::ReadFile(path) => Step::ReadFile(
                            PendingCall { id: p.id, kind: p.kind, call: p.call, downloaded: Some(path) },
                        ),
                        DownloadStep::Answer(v) => Step::Done(Some(success_response(p.id, v))),
                    }
                },
                Event::FileRead(read) => {
                    let path = match p.downloaded {
                        Some(d) => d,
                        None => String::new(),
                    };
                    Step::Done(Some(success_response(p.id, after_read(path.as_str(), read))))
                },
            }
        }
    }
}

} // verus!
