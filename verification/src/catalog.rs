//! The static catalog of tools: for each tool its name, its description and
//! the schema of its arguments.

use crate::dispatch::{
    lemma_tool_names_distinct, resolve_spec, tool_names, ResolveErrorV, ToolCallV,
};
use crate::json::{
    lemma_array_view, lemma_object_view, member_views, views_of, Json, JsonV, Member, MemberV,
};
use vstd::prelude::*;

verus! {

/// One argument of a tool, as its schema describes it.
#[derive(Debug, PartialEq)]
pub struct Property {
    pub name: &'static str,
    /// The JSON type of the argument.
    pub kind: &'static str,
    pub description: &'static str,
    /// For an array, the JSON type of its items.
    pub items: Option<&'static str>,
    /// The values that the argument may take; empty where any value may stand.
    pub choices: Vec<&'static str>,
}

/// The mathematical value of a [`Property`].
pub struct PropertyV {
    pub name: Seq<char>,
    pub kind: Seq<char>,
    pub description: Seq<char>,
    pub items: Option<Seq<char>>,
    pub choices: Seq<Seq<char>>,
}

/// One tool of the catalog.
#[derive(Debug, PartialEq)]
pub struct ToolSpec {
    pub name: &'static str,
    pub description: &'static str,
    pub properties: Vec<Property>,
    /// The names of the arguments that a call must give.
    pub required: Vec<&'static str>,
}

/// The mathematical value of a [`ToolSpec`].
pub struct ToolSpecV {
    pub name: Seq<char>,
    pub description: Seq<char>,
    pub properties: Seq<PropertyV>,
    pub required: Seq<Seq<char>>,
}

/// The texts of `items`, in order.
pub open spec fn names_of(items: Seq<&'static str>) -> Seq<Seq<char>> {
    Seq::new(items.len(), |i: int| items[i]@)
}

impl View for Property {
    type V = PropertyV;

    open spec fn view(&self) -> PropertyV {
        PropertyV {
            name: self.name@,
            kind: self.kind@,
            description: self.description@,
            items: match self.items {
                Some(t) => Some(t@),
                None => None,
            },
            choices: names_of(self.choices@),
        }
    }
}

/// The values of `properties`, in order.
pub open spec fn property_views(properties: Seq<Property>) -> Seq<PropertyV> {
    Seq::new(properties.len(), |i: int| properties[i]@)
}

impl View for ToolSpec {
    type V = ToolSpecV;

    open spec fn view(&self) -> ToolSpecV {
        ToolSpecV {
            name: self.name@,
            description: self.description@,
            properties: property_views(self.properties@),
            required: names_of(self.required@),
        }
    }
}

/// The values of `tools`, in order.
pub open spec fn tool_views(tools: Seq<ToolSpec>) -> Seq<ToolSpecV> {
    Seq::new(tools.len(), |i: int| tools[i]@)
}

/// An argument that may hold any value of the type `kind`.
pub open spec fn plain(name: Seq<char>, kind: Seq<char>, description: Seq<char>) -> PropertyV {
    PropertyV { name, kind, description, items: None, choices: Seq::empty() }
}

/// The argument `process_id`, described by `description`.
pub open spec fn process_id(description: Seq<char>) -> PropertyV {
    plain("process_id"@, "string"@, description)
}

/// The tool that takes the process id of the app and nothing else.
pub open spec fn app_tool(name: Seq<char>, description: Seq<char>) -> ToolSpecV {
    ToolSpecV {
        name,
        description,
        properties: seq![process_id("Process ID of the app"@)],
        required: seq!["process_id"@],
    }
}

/// The catalog of tools.
pub open spec fn catalog_spec() -> Seq<ToolSpecV> {
    seq![
        ToolSpecV {
            name: "launch_app"@,
            description: "Launch a Tauri application"@,
            properties: seq![
                plain("app_path"@, "string"@, "Path to the Tauri application"@),
                PropertyV {
                    name: "args"@,
                    kind: "array"@,
                    description: "Optional launch arguments"@,
                    items: Some("string"@),
                    choices: Seq::empty(),
                },
            ],
            required: seq!["app_path"@],
        },
        ToolSpecV {
            name: "stop_app"@,
            description: "Stop a running Tauri application"@,
            properties: seq![process_id("Process ID of the app to stop"@)],
            required: seq!["process_id"@],
        },
        ToolSpecV {
            name: "get_app_logs"@,
            description: "Get stdout/stderr logs from a running app"@,
            properties: seq![
                process_id("Process ID of the app"@),
                plain("lines"@, "number"@, "Number of recent lines to return"@),
            ],
            required: seq!["process_id"@],
        },
        ToolSpecV {
            name: "take_screenshot"@,
            description: "Take a screenshot of the app window"@,
            properties: seq![
                process_id("Process ID of the app"@),
                plain("output_path"@, "string"@, "Optional path to save the screenshot"@),
            ],
            required: seq!["process_id"@],
        },
        app_tool("get_window_info"@, "Get window dimensions, position, and state"@),
        ToolSpecV {
            name: "send_keyboard_input"@,
            description: "Send keyboard input to the app"@,
            properties: seq![
                process_id("Process ID of the app"@),
                plain("keys"@, "string"@, "Keys to send"@),
            ],
            required: seq!["process_id"@, "keys"@],
        },
        ToolSpecV {
            name: "send_mouse_click"@,
            description: "Send mouse click to specific coordinates"@,
            properties: seq![
                process_id("Process ID of the app"@),
                plain("x"@, "number"@, "X coordinate"@),
                plain("y"@, "number"@, "Y coordinate"@),
                PropertyV {
                    name: "button"@,
                    kind: "string"@,
                    description: "Mouse button"@,
                    items: None,
                    choices: seq!["left"@, "right"@, "middle"@],
                },
            ],
            required: seq!["process_id"@, "x"@, "y"@],
        },
        ToolSpecV {
            name: "execute_js"@,
            description: "Execute JavaScript in the app's webview"@,
            properties: seq![
                process_id("Process ID of the app"@),
                plain("javascript_code"@, "string"@, "JavaScript code to execute"@),
            ],
            required: seq!["process_id"@, "javascript_code"@],
        },
        app_tool("get_devtools_info"@, "Get DevTools connection information"@),
        app_tool("monitor_resources"@, "Monitor CPU, memory, and other resource usage"@),
        app_tool("list_ipc_handlers"@, "List all registered Tauri IPC commands"@),
        ToolSpecV {
            name: "call_ipc_command"@,
            description: "Call a Tauri IPC command"@,
            properties: seq![
                process_id("Process ID of the app"@),
                plain("command_name"@, "string"@, "Name of the IPC command"@),
                plain("args"@, "object"@, "Arguments to pass to the command"@),
            ],
            required: seq!["process_id"@, "command_name"@],
        },
        ToolSpecV {
            name: "find_running_apps"@,
            description: "Find running Tauri applications on the system"@,
            properties: Seq::empty(),
            required: Seq::empty(),
        },
        ToolSpecV {
            name: "attach_to_app"@,
            description: "Attach to an already running Tauri application by PID"@,
            properties: seq![plain("pid"@, "number"@, "Process ID of the running app"@)],
            required: seq!["pid"@],
        },
    ]
}

/// The array of the strings `items`.
pub open spec fn text_array(items: Seq<Seq<char>>) -> JsonV {
    JsonV::Array(Seq::new(items.len(), |i: int| JsonV::Str(items[i])))
}

/// The object with the one member `key`.
pub open spec fn object1(key: Seq<char>, value: JsonV) -> JsonV {
    JsonV::Object(seq![MemberV { key, value }])
}

/// The schema of one argument: its type, the type of its items where it is
/// an array, the values it may take where they are limited, and its
/// description.
pub open spec fn property_json(p: PropertyV) -> JsonV {
    let kind = seq![MemberV { key: "type"@, value: JsonV::Str(p.kind) }];
    let items = match p.items {
        Some(t) => kind.push(MemberV { key: "items"@, value: object1("type"@, JsonV::Str(t)) }),
        None => kind,
    };
    let choices = if p.choices.len() > 0 {
        items.push(MemberV { key: "enum"@, value: text_array(p.choices) })
    } else {
        items
    };
    JsonV::Object(choices.push(MemberV { key: "description"@, value: JsonV::Str(p.description) }))
}

/// The object that holds, under the name of each argument, its schema.
pub open spec fn properties_json(properties: Seq<PropertyV>) -> JsonV {
    JsonV::Object(
        Seq::new(
            properties.len(),
            |i: int| MemberV { key: properties[i].name, value: property_json(properties[i]) },
        ),
    )
}

/// The schema of the argument object of `tool`.  The member `required` is
/// there where the tool requires an argument.
pub open spec fn schema_json(tool: ToolSpecV) -> JsonV {
    let base = seq![
        MemberV { key: "type"@, value: JsonV::Str("object"@) },
        MemberV { key: "properties"@, value: properties_json(tool.properties) },
    ];
    if tool.required.len() > 0 {
        JsonV::Object(base.push(MemberV { key: "required"@, value: text_array(tool.required) }))
    } else {
        JsonV::Object(base)
    }
}

/// The entry of `tool` in the list of tools.
pub open spec fn tool_json(tool: ToolSpecV) -> JsonV {
    JsonV::Object(
        seq![
            MemberV { key: "name"@, value: JsonV::Str(tool.name) },
            MemberV { key: "description"@, value: JsonV::Str(tool.description) },
            MemberV { key: "inputSchema"@, value: schema_json(tool) },
        ],
    )
}

/// The list of tools as a client receives it.
pub open spec fn catalog_json(tools: Seq<ToolSpecV>) -> JsonV {
    object1("tools"@, JsonV::Array(Seq::new(tools.len(), |i: int| tool_json(tools[i]))))
}

/// The names of the tools that `tools` holds, in order.
pub open spec fn catalog_names(tools: Seq<ToolSpecV>) -> Seq<Seq<char>> {
    Seq::new(tools.len(), |i: int| tools[i].name)
}

fn plain_property(name: &'static str, kind: &'static str, description: &'static str) -> (p:
    Property)
    ensures
        p@ == plain(name@, kind@, description@),
{
    let choices: Vec<&'static str> = Vec::new();
    proof {
        assert(names_of(choices@) =~= Seq::<Seq<char>>::empty());
    }
    Property { name, kind, description, items: None, choices }
}

fn process_id_property(description: &'static str) -> (p: Property)
    ensures
        p@ == process_id(description@),
{
    plain_property("process_id", "string", description)
}

fn names1(a: &'static str) -> (v: Vec<&'static str>)
    ensures
        names_of(v@) == seq![a@],
{
    let mut v: Vec<&'static str> = Vec::new();
    v.push(a);
    proof {
        assert(names_of(v@) =~= seq![a@]);
    }
    v
}

fn names2(a: &'static str, b: &'static str) -> (v: Vec<&'static str>)
    ensures
        names_of(v@) == seq![a@, b@],
{
    let mut v: Vec<&'static str> = Vec::new();
    v.push(a);
    v.push(b);
    proof {
        assert(names_of(v@) =~= seq![a@, b@]);
    }
    v
}

fn names3(a: &'static str, b: &'static str, c: &'static str) -> (v: Vec<&'static str>)
    ensures
        names_of(v@) == seq![a@, b@, c@],
{
    let mut v: Vec<&'static str> = Vec::new();
    v.push(a);
    v.push(b);
    v.push(c);
    proof {
        assert(names_of(v@) =~= seq![a@, b@, c@]);
    }
    v
}

fn properties1(a: Property) -> (v: Vec<Property>)
    ensures
        property_views(v@) == seq![a@],
{
    let mut v: Vec<Property> = Vec::new();
    v.push(a);
    proof {
        assert(property_views(v@) =~= seq![a@]);
    }
    v
}

fn properties2(a: Property, b: Property) -> (v: Vec<Property>)
    ensures
        property_views(v@) == seq![a@, b@],
{
    let mut v: Vec<Property> = Vec::new();
    v.push(a);
    v.push(b);
    proof {
        assert(property_views(v@) =~= seq![a@, b@]);
    }
    v
}

fn properties3(a: Property, b: Property, c: Property) -> (v: Vec<Property>)
    ensures
        property_views(v@) == seq![a@, b@, c@],
{
    let mut v: Vec<Property> = Vec::new();
    v.push(a);
    v.push(b);
    v.push(c);
    proof {
        assert(property_views(v@) =~= seq![a@, b@, c@]);
    }
    v
}

fn app_tool_entry(name: &'static str, description: &'static str) -> (t: ToolSpec)
    ensures
        t@ == app_tool(name@, description@),
{
    ToolSpec {
        name,
        description,
        properties: properties1(process_id_property("Process ID of the app")),
        required: names1("process_id"),
    }
}

fn launch_app_entry() -> (t: ToolSpec)
    ensures
        t@ == catalog_spec()[0],
{
    let no_choices: Vec<&'static str> = Vec::new();
    proof {
        assert(names_of(no_choices@) =~= Seq::<Seq<char>>::empty());
    }
    ToolSpec {
        name: "launch_app",
        description: "Launch a Tauri application",
        properties: properties2(
            plain_property("app_path", "string", "Path to the Tauri application"),
            Property {
                name: "args",
                kind: "array",
                description: "Optional launch arguments",
                items: Some("string"),
                choices: no_choices,
            },
        ),
        required: names1("app_path"),
    }
}

fn send_mouse_click_entry() -> (t: ToolSpec)
    ensures
        t@ == catalog_spec()[6],
{
    let mut properties: Vec<Property> = Vec::new();
    properties.push(process_id_property("Process ID of the app"));
    properties.push(plain_property("x", "number", "X coordinate"));
    properties.push(plain_property("y", "number", "Y coordinate"));
    properties.push(
        Property {
            name: "button",
            kind: "string",
            description: "Mouse button",
            items: None,
            choices: names3("left", "right", "middle"),
        },
    );
    proof {
        assert(property_views(properties@) =~= catalog_spec()[6].properties);
    }
    ToolSpec {
        name: "send_mouse_click",
        description: "Send mouse click to specific coordinates",
        properties,
        required: names3("process_id", "x", "y"),
    }
}

/// The catalog of tools.
pub fn tool_catalog() -> (tools: Vec<ToolSpec>)
    ensures
        tool_views(tools@) == catalog_spec(),
{
    let mut tools: Vec<ToolSpec> = Vec::new();
    tools.push(launch_app_entry());
    tools.push(
        ToolSpec {
            name: "stop_app",
            description: "Stop a running Tauri application",
            properties: properties1(process_id_property("Process ID of the app to stop")),
            required: names1("process_id"),
        },
    );
    tools.push(
        ToolSpec {
            name: "get_app_logs",
            description: "Get stdout/stderr logs from a running app",
            properties: properties2(
                process_id_property("Process ID of the app"),
                plain_property("lines", "number", "Number of recent lines to return"),
            ),
            required: names1("process_id"),
        },
    );
    tools.push(
        ToolSpec {
            name: "take_screenshot",
            description: "Take a screenshot of the app window",
            properties: properties2(
                process_id_property("Process ID of the app"),
                plain_property("output_path", "string", "Optional path to save the screenshot"),
            ),
            required: names1("process_id"),
        },
    );
    tools.push(app_tool_entry("get_window_info", "Get window dimensions, position, and state"));
    tools.push(
        ToolSpec {
            name: "send_keyboard_input",
            description: "Send keyboard input to the app",
            properties: properties2(
                process_id_property("Process ID of the app"),
                plain_property("keys", "string", "Keys to send"),
            ),
            required: names2("process_id", "keys"),
        },
    );
    tools.push(send_mouse_click_entry());
    tools.push(
        ToolSpec {
            name: "execute_js",
            description: "Execute JavaScript in the app's webview",
            properties: properties2(
                process_id_property("Process ID of the app"),
                plain_property("javascript_code", "string", "JavaScript code to execute"),
            ),
            required: names2("process_id", "javascript_code"),
        },
    );
    tools.push(app_tool_entry("get_devtools_info", "Get DevTools connection information"));
    tools.push(
        app_tool_entry("monitor_resources", "Monitor CPU, memory, and other resource usage"),
    );
    tools.push(app_tool_entry("list_ipc_handlers", "List all registered Tauri IPC commands"));
    tools.push(
        ToolSpec {
            name: "call_ipc_command",
            description: "Call a Tauri IPC command",
            properties: properties3(
                process_id_property("Process ID of the app"),
                plain_property("command_name", "string", "Name of the IPC command"),
                plain_property("args", "object", "Arguments to pass to the command"),
            ),
            required: names2("process_id", "command_name"),
        },
    );
    let no_properties: Vec<Property> = Vec::new();
    let no_names: Vec<&'static str> = Vec::new();
    proof {
        assert(property_views(no_properties@) =~= Seq::<PropertyV>::empty());
        assert(names_of(no_names@) =~= Seq::<Seq<char>>::empty());
    }
    tools.push(
        ToolSpec {
            name: "find_running_apps",
            description: "Find running Tauri applications on the system",
            properties: no_properties,
            required: no_names,
        },
    );
    tools.push(
        ToolSpec {
            name: "attach_to_app",
            description: "Attach to an already running Tauri application by PID",
            properties: properties1(
                plain_property("pid", "number", "Process ID of the running app"),
            ),
            required: names1("pid"),
        },
    );
    proof {
        assert(tool_views(tools@) =~= catalog_spec());
    }
    tools
}

/// The array of the strings `items`.
fn names_json(items: &Vec<&'static str>) -> (r: Json)
    ensures
        r@ == text_array(names_of(items@)),
{
    let mut out: Vec<Json> = Vec::new();
    let mut i: usize = 0;
    while i < items.len()
        invariant
            i <= items.len(),
            out@.len() == i,
            forall|j: int| 0 <= j < i ==> out@[j]@ == JsonV::Str(items@[j]@),
        decreases items.len() - i,
    {
        out.push(Json::string(items[i]));
        i += 1;
    }
    proof {
        lemma_array_view(out);
        assert(views_of(out@) =~= Seq::new(
            names_of(items@).len(),
            |i: int| JsonV::Str(names_of(items@)[i]),
        ));
    }
    Json::Array(out)
}

/// The schema of one argument.
pub fn property_schema(p: &Property) -> (r: Json)
    ensures
        r@ == property_json(p@),
{
    let mut r = Json::object().with("type", Json::string(p.kind));
    match p.items {
        Some(t) => {
            r = r.with("items", Json::object().with("type", Json::string(t)));
        },
        None => {},
    }
    if p.choices.len() > 0 {
        r = r.with("enum", names_json(&p.choices));
    }
    let r = r.with("description", Json::string(p.description));
    proof {
        assert(Seq::<MemberV>::empty().push(MemberV { key: "type"@, value: JsonV::Str(p.kind@) })
            =~= seq![MemberV { key: "type"@, value: JsonV::Str(p.kind@) }]);
        match p.items {
            Some(t) => {
                assert(Seq::<MemberV>::empty().push(
                    MemberV { key: "type"@, value: JsonV::Str(t@) },
                ) =~= seq![MemberV { key: "type"@, value: JsonV::Str(t@) }]);
            },
            None => {},
        }
    }
    r
}

/// The object that holds, under the name of each argument, its schema.
fn properties_schema(properties: &Vec<Property>) -> (r: Json)
    ensures
        r@ == properties_json(property_views(properties@)),
{
    let mut out: Vec<Member> = Vec::new();
    let mut i: usize = 0;
    while i < properties.len()
        invariant
            i <= properties.len(),
            out@.len() == i,
            forall|j: int|
                0 <= j < i ==> out@[j].key@ == properties@[j].name@ && out@[j].value@
                    == property_json(properties@[j]@),
        decreases properties.len() - i,
    {
        let value = property_schema(&properties[i]);
        out.push(Member { key: properties[i].name.to_owned(), value });
        i += 1;
    }
    proof {
        lemma_object_view(out);
        let views = property_views(properties@);
        assert(member_views(out@) =~= Seq::new(
            views.len(),
            |i: int| MemberV { key: views[i].name, value: property_json(views[i]) },
        ));
    }
    Json::Object(out)
}

/// The entry of `tool` in the list of tools.
pub fn tool_entry(tool: &ToolSpec) -> (r: Json)
    ensures
        r@ == tool_json(tool@),
{
    let mut schema = Json::object().with("type", Json::string("object")).with(
        "properties",
        properties_schema(&tool.properties),
    );
    if tool.required.len() > 0 {
        schema = schema.with("required", names_json(&tool.required));
    }
    let r = Json::object().with("name", Json::string(tool.name)).with(
        "description",
        Json::string(tool.description),
    ).with("inputSchema", schema);
    proof {
        let base = seq![
            MemberV { key: "type"@, value: JsonV::Str("object"@) },
            MemberV { key: "properties"@, value: properties_json(tool@.properties) },
        ];
        assert(Seq::<MemberV>::empty().push(base[0]).push(base[1]) =~= base);
        assert(schema@ == schema_json(tool@));
        let entry = seq![
            MemberV { key: "name"@, value: JsonV::Str(tool@.name) },
            MemberV { key: "description"@, value: JsonV::Str(tool@.description) },
            MemberV { key: "inputSchema"@, value: schema_json(tool@) },
        ];
        assert(Seq::<MemberV>::empty().push(entry[0]).push(entry[1]).push(entry[2]) =~= entry);
    }
    r
}

/// The list of tools as a client receives it.
pub fn list_tools() -> (r: Json)
    ensures
        r@ == catalog_json(catalog_spec()),
{
    let tools = tool_catalog();
    let mut out: Vec<Json> = Vec::new();
    let mut i: usize = 0;
    while i < tools.len()
        invariant
            i <= tools.len(),
            out@.len() == i,
            forall|j: int| 0 <= j < i ==> out@[j]@ == tool_json(tools@[j]@),
        decreases tools.len() - i,
    {
        out.push(tool_entry(&tools[i]));
        i += 1;
    }
    let list = Json::array(out);
    let r = Json::object().with("tools", list);
    proof {
        let views = tool_views(tools@);
        assert(views_of(out@) =~= Seq::new(views.len(), |i: int| tool_json(views[i])));
        assert(Seq::<MemberV>::empty().push(MemberV { key: "tools"@, value: list@ }) =~= seq![
            MemberV { key: "tools"@, value: list@ },
        ]);
    }
    r
}

/// The list of tools names exactly the tools that the dispatch table knows,
/// in the same order.
pub proof fn lemma_catalog_names()
    ensures
        catalog_names(catalog_spec()) == tool_names(),
{
    assert(catalog_names(catalog_spec()) =~= tool_names());
}

/// Whether a resolution reports a missing argument.
pub open spec fn reports_missing(r: Result<ToolCallV, ResolveErrorV>) -> bool {
    r is Err && r->Err_0 is Missing
}

/// The list and the dispatch table agree on what a tool requires: a call
/// that lacks an argument which the list marks as required is refused with
/// a missing argument reported.
pub proof fn lemma_required_is_checked(tool: int, argument: int, args: JsonV)
    requires
        0 <= tool < catalog_spec().len(),
        0 <= argument < catalog_spec()[tool].required.len(),
        args.field(catalog_spec()[tool].required[argument]) is None,
    ensures
        reports_missing(resolve_spec(catalog_spec()[tool].name, args)),
{
    lemma_tool_names_distinct();
    lemma_catalog_names();
    let names = tool_names();
    let name = catalog_spec()[tool].name;
    assert(name == catalog_names(catalog_spec())[tool]);
    assert(name == names[tool]);
    assert(names[0] == "launch_app"@);
    assert(names[1] == "stop_app"@);
    assert(names[2] == "get_app_logs"@);
    assert(names[3] == "take_screenshot"@);
    assert(names[4] == "get_window_info"@);
    assert(names[5] == "send_keyboard_input"@);
    assert(names[6] == "send_mouse_click"@);
    assert(names[7] == "execute_js"@);
    assert(names[8] == "get_devtools_info"@);
    assert(names[9] == "monitor_resources"@);
    assert(names[10] == "list_ipc_handlers"@);
    assert(names[11] == "call_ipc_command"@);
    assert(names[12] == "find_running_apps"@);
    assert(names[13] == "attach_to_app"@);
}

/// A tool that the list gives no required argument is resolved whatever it
/// is called with.
pub proof fn lemma_nothing_required(tool: int, args: JsonV)
    requires
        0 <= tool < catalog_spec().len(),
        catalog_spec()[tool].required.len() == 0,
    ensures
        resolve_spec(catalog_spec()[tool].name, args) is Ok,
{
    assert(tool == 12);
    lemma_tool_names_distinct();
    let names = tool_names();
    assert(names[12] == "find_running_apps"@);
    assert(names[0] == "launch_app"@);
    assert(names[1] == "stop_app"@);
    assert(names[2] == "get_app_logs"@);
    assert(names[3] == "take_screenshot"@);
    assert(names[4] == "get_window_info"@);
    assert(names[5] == "send_keyboard_input"@);
    assert(names[6] == "send_mouse_click"@);
    assert(names[7] == "execute_js"@);
    assert(names[8] == "get_devtools_info"@);
    assert(names[9] == "monitor_resources"@);
    assert(names[10] == "list_ipc_handlers"@);
    assert(names[11] == "call_ipc_command"@);
}

} // verus!
