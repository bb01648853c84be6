//! The wire shapes of the records the client sends.
//!
//! A request body is a JSON object, modeled as an ordered list of named
//! fields holding plain values: a string, a number, a list of strings, or
//! `null`. An optional record field that is `None` is omitted from the
//! object; reading a shape back looks fields up by name, ignores unknown
//! fields, and fails on a field of the wrong type — mirroring how the server
//! and the client's JSON codec treat these objects.

use vstd::prelude::*;

verus! {

use vstd::string::StringExecFns;
use crate::types::LLMConfig;
use crate::types::LLMConfigModel;
use crate::types::Target;
use crate::types::TargetModel;
use crate::types::ToolConfig;
use crate::types::ToolConfigModel;

/// One plain JSON value of a wire object.
#[derive(Debug, PartialEq, Eq)]
pub enum WireValue {
    Null,
    Str(String),
    Num(usize),
    StrList(Vec<String>),
}

/// Mathematical value of a `WireValue`.
#[verifier::ext_equal]
pub enum WireValueModel {
    Null,
    Str(Seq<char>),
    Num(nat),
    StrList(Seq<Seq<char>>),
}

impl View for WireValue {
    type V = WireValueModel;

    open spec fn view(&self) -> WireValueModel {
        match self {
            WireValue::Null => WireValueModel::Null,
            WireValue::Str(s) => WireValueModel::Str(s@),
            WireValue::Num(n) => WireValueModel::Num(*n as nat),
            WireValue::StrList(v) => WireValueModel::StrList(v@.map_values(|s: String| s@)),
        }
    }
}

/// One named field of a wire object.
#[derive(Debug, PartialEq, Eq)]
pub struct WireField {
    pub name: String,
    pub value: WireValue,
}

/// Mathematical value of a `WireField`.
#[verifier::ext_equal]
pub struct WireFieldModel {
    pub name: Seq<char>,
    pub value: WireValueModel,
}

impl View for WireField {
    type V = WireFieldModel;

    open spec fn view(&self) -> WireFieldModel {
        WireFieldModel { name: self.name@, value: self.value@ }
    }
}

/// The fields of a wire object, as their values.
pub open spec fn fields_view(fields: Seq<WireField>) -> Seq<WireFieldModel> {
    fields.map_values(|f: WireField| f@)
}

/// The value of the first field named `name`, if any.
pub open spec fn wire_get(fields: Seq<WireFieldModel>, name: Seq<char>) -> Option<WireValueModel>
    decreases fields.len(),
{
    if fields.len() == 0 {
        None
    } else if fields[0].name == name {
        Some(fields[0].value)
    } else {
        wire_get(fields.skip(1), name)
    }
}

/// Looking a name up in a concatenation finds it in the first part that has
/// it.
pub proof fn lemma_wire_get_append(a: Seq<WireFieldModel>, b: Seq<WireFieldModel>, name: Seq<char>)
    ensures
        wire_get(a + b, name) == if wire_get(a, name) is Some {
            wire_get(a, name)
        } else {
            wire_get(b, name)
        },
    decreases a.len(),
{
    if a.len() == 0 {
        assert(a + b =~= b);
    } else {
        lemma_wire_get_append(a.skip(1), b, name);
        assert((a + b).skip(1) =~= a.skip(1) + b);
        assert((a + b)[0] == a[0]);
    }
}

/// Looking anything up in an empty object finds nothing.
pub proof fn lemma_wire_get_empty(name: Seq<char>)
    ensures
        wire_get(Seq::empty(), name) is None,
{
}

/// Looking a name up in a one-field object finds that field exactly when the
/// name matches.
pub proof fn lemma_wire_get_single(f: WireFieldModel, name: Seq<char>)
    ensures
        wire_get(seq![f], name) == if f.name == name {
            Some(f.value)
        } else {
            None
        },
{
    reveal_with_fuel(wire_get, 2);
    assert(seq![f].skip(1).len() == 0);
}

/// Finds the first field named `name`.
pub fn wire_lookup<'a>(fields: &'a Vec<WireField>, name: &str) -> (r: Option<&'a WireValue>)
    ensures
        r matches Some(v) ==> wire_get(fields_view(fields@), name@) == Some(v@),
        r is None ==> wire_get(fields_view(fields@), name@) is None,
{
    let name_s = String::from_str(name);
    let ghost fs = fields_view(fields@);
    let mut i: usize = 0;
    proof {
        assert(fs.skip(0) =~= fs);
    }
    while i < fields.len()
        invariant
            i <= fields.len(),
            fs == fields_view(fields@),
            name_s@ == name@,
            wire_get(fs, name@) == wire_get(fs.skip(i as int), name@),
        decreases fields.len() - i,
    {
        proof {
            assert(fs.skip(i as int)[0] == fs[i as int]);
            assert(fs.skip(i as int).skip(1) =~= fs.skip(i + 1));
        }
        if fields[i].name == name_s {
            return Some(&fields[i].value);
        }
        i += 1;
    }
    proof {
        assert(fs.skip(fields@.len() as int) =~= Seq::<WireFieldModel>::empty());
    }
    None
}

/// A field carrying an optional string: present exactly when the value is.
pub open spec fn opt_field_s(name: Seq<char>, v: Option<Seq<char>>) -> Seq<WireFieldModel> {
    match v {
        Some(s) => seq![WireFieldModel { name: name, value: WireValueModel::Str(s) }],
        None => seq![],
    }
}

/// A field carrying an optional list of strings: present exactly when the
/// value is.
pub open spec fn opt_list_field_s(name: Seq<char>, v: Option<Seq<Seq<char>>>) -> Seq<
    WireFieldModel,
> {
    match v {
        Some(l) => seq![WireFieldModel { name: name, value: WireValueModel::StrList(l) }],
        None => seq![],
    }
}

/// Whether `name` is present as a string field.
pub open spec fn req_str_ok(fields: Seq<WireFieldModel>, name: Seq<char>) -> bool {
    match wire_get(fields, name) {
        Some(WireValueModel::Str(_)) => true,
        _ => false,
    }
}

/// The string field `name`, where `req_str_ok` holds.
pub open spec fn req_str(fields: Seq<WireFieldModel>, name: Seq<char>) -> Seq<char> {
    match wire_get(fields, name) {
        Some(WireValueModel::Str(s)) => s,
        _ => Seq::empty(),
    }
}

/// Whether `name` is absent or present as a string field.
pub open spec fn opt_str_ok(fields: Seq<WireFieldModel>, name: Seq<char>) -> bool {
    match wire_get(fields, name) {
        None => true,
        Some(WireValueModel::Str(_)) => true,
        _ => false,
    }
}

/// The optional string field `name`, where `opt_str_ok` holds.
pub open spec fn opt_str(fields: Seq<WireFieldModel>, name: Seq<char>) -> Option<Seq<char>> {
    match wire_get(fields, name) {
        Some(WireValueModel::Str(s)) => Some(s),
        _ => None,
    }
}

/// Whether `name` is absent or present as a list-of-strings field.
pub open spec fn opt_list_ok(fields: Seq<WireFieldModel>, name: Seq<char>) -> bool {
    match wire_get(fields, name) {
        None => true,
        Some(WireValueModel::StrList(_)) => true,
        _ => false,
    }
}

/// The optional list-of-strings field `name`, where `opt_list_ok` holds.
pub open spec fn opt_list(fields: Seq<WireFieldModel>, name: Seq<char>) -> Option<Seq<Seq<char>>> {
    match wire_get(fields, name) {
        Some(WireValueModel::StrList(l)) => Some(l),
        _ => None,
    }
}

/// The wire shape of a `Target`: `name` and `baseUrl` always, `spec`,
/// `authType`, `token` and `description` only when present.
pub open spec fn target_wire_s(t: TargetModel) -> Seq<WireFieldModel> {
    seq![
        WireFieldModel { name: "name"@, value: WireValueModel::Str(t.name) },
        WireFieldModel { name: "baseUrl"@, value: WireValueModel::Str(t.base_url) },
    ] + opt_field_s("spec"@, t.spec_url) + opt_field_s("authType"@, t.auth_type) + opt_field_s(
        "token"@,
        t.token,
    ) + opt_field_s("description"@, t.description)
}

/// Reading a `Target` back from a wire object: `name` and `baseUrl` must be
/// present as strings, the other four may be absent; a field of the wrong
/// type fails.
pub open spec fn target_of_wire_s(fields: Seq<WireFieldModel>) -> Option<TargetModel> {
    if req_str_ok(fields, "name"@) && req_str_ok(fields, "baseUrl"@) && opt_str_ok(fields, "spec"@)
        && opt_str_ok(fields, "authType"@) && opt_str_ok(fields, "token"@) && opt_str_ok(
        fields,
        "description"@,
    ) {
        Some(
            TargetModel {
                name: req_str(fields, "name"@),
                base_url: req_str(fields, "baseUrl"@),
                spec_url: opt_str(fields, "spec"@),
                auth_type: opt_str(fields, "authType"@),
                token: opt_str(fields, "token"@),
                description: opt_str(fields, "description"@),
            },
        )
    } else {
        None
    }
}

/// Evaluates a lookup in a `Target`'s wire shape for any key.
proof fn lemma_target_wire_get(t: TargetModel, k: Seq<char>)
    ensures
        wire_get(target_wire_s(t), k) == if k == "name"@ {
            Some(WireValueModel::Str(t.name))
        } else if k == "baseUrl"@ {
            Some(WireValueModel::Str(t.base_url))
        } else if k == "spec"@ && t.spec_url is Some {
            Some(WireValueModel::Str(t.spec_url.unwrap()))
        } else if k == "authType"@ && t.auth_type is Some {
            Some(WireValueModel::Str(t.auth_type.unwrap()))
        } else if k == "token"@ && t.token is Some {
            Some(WireValueModel::Str(t.token.unwrap()))
        } else if k == "description"@ && t.description is Some {
            Some(WireValueModel::Str(t.description.unwrap()))
        } else {
            None::<WireValueModel>
        },
{
    let f1 = WireFieldModel { name: "name"@, value: WireValueModel::Str(t.name) };
    let f2 = WireFieldModel { name: "baseUrl"@, value: WireValueModel::Str(t.base_url) };
    let head = seq![f1, f2];
    let o1 = opt_field_s("spec"@, t.spec_url);
    let o2 = opt_field_s("authType"@, t.auth_type);
    let o3 = opt_field_s("token"@, t.token);
    let o4 = opt_field_s("description"@, t.description);
    assert(target_wire_s(t) == ((((head + o1) + o2) + o3) + o4));
    assert(head =~= seq![f1] + seq![f2]);
    lemma_wire_get_append((((head + o1) + o2) + o3), o4, k);
    lemma_wire_get_append(((head + o1) + o2), o3, k);
    lemma_wire_get_append((head + o1), o2, k);
    lemma_wire_get_append(head, o1, k);
    lemma_wire_get_append(seq![f1], seq![f2], k);
    lemma_wire_get_single(f1, k);
    lemma_wire_get_single(f2, k);
    match t.spec_url {
        Some(s) => lemma_wire_get_single(
            WireFieldModel { name: "spec"@, value: WireValueModel::Str(s) },
            k,
        ),
        None => lemma_wire_get_empty(k),
    }
    match t.auth_type {
        Some(s) => lemma_wire_get_single(
            WireFieldModel { name: "authType"@, value: WireValueModel::Str(s) },
            k,
        ),
        None => lemma_wire_get_empty(k),
    }
    match t.token {
        Some(s) => lemma_wire_get_single(
            WireFieldModel { name: "token"@, value: WireValueModel::Str(s) },
            k,
        ),
        None => lemma_wire_get_empty(k),
    }
    match t.description {
        Some(s) => lemma_wire_get_single(
            WireFieldModel { name: "description"@, value: WireValueModel::Str(s) },
            k,
        ),
        None => lemma_wire_get_empty(k),
    }
    assert(wire_get(Seq::<WireFieldModel>::empty(), k) is None);
}

/// A `Target` serialized to the wire and read back is the same record,
/// field for field, optional omissions respected.
pub proof fn lemma_target_wire_round_trip(t: TargetModel)
    ensures
        target_of_wire_s(target_wire_s(t)) == Some(t),
{
    reveal_strlit("name");
    reveal_strlit("baseUrl");
    reveal_strlit("spec");
    reveal_strlit("authType");
    reveal_strlit("token");
    reveal_strlit("description");
    assert("name"@.len() == 4 && "baseUrl"@.len() == 7 && "spec"@.len() == 4 && "authType"@.len()
        == 8 && "token"@.len() == 5 && "description"@.len() == 11);
    assert("name"@ != "spec"@) by {
        assert("name"@[0] == 'n');
        assert("spec"@[0] == 's');
    }
    let fs = target_wire_s(t);
    lemma_target_wire_get(t, "name"@);
    lemma_target_wire_get(t, "baseUrl"@);
    lemma_target_wire_get(t, "spec"@);
    lemma_target_wire_get(t, "authType"@);
    lemma_target_wire_get(t, "token"@);
    lemma_target_wire_get(t, "description"@);
    assert(wire_get(fs, "name"@) == Some(WireValueModel::Str(t.name)));
    assert(wire_get(fs, "baseUrl"@) == Some(WireValueModel::Str(t.base_url)));
    assert(opt_str(fs, "spec"@) == t.spec_url && opt_str_ok(fs, "spec"@));
    assert(opt_str(fs, "authType"@) == t.auth_type && opt_str_ok(fs, "authType"@));
    assert(opt_str(fs, "token"@) == t.token && opt_str_ok(fs, "token"@));
    assert(opt_str(fs, "description"@) == t.description && opt_str_ok(fs, "description"@));
}

/// Clones a list of strings.
fn clone_strings(v: &Vec<String>) -> (r: Vec<String>)
    ensures
        r@ == v@,
{
    let mut r: Vec<String> = Vec::new();
    let mut i: usize = 0;
    while i < v.len()
        invariant
            i <= v.len(),
            r@ == v@.take(i as int),
        decreases v.len() - i,
    {
        r.push(v[i].clone());
        proof {
            assert(r@ =~= v@.take(i + 1));
        }
        i += 1;
    }
    proof {
        assert(v@.take(v@.len() as int) =~= v@);
    }
    r
}

impl Target {
    /// This record's wire shape.
    pub fn to_wire(&self) -> (w: Vec<WireField>)
        ensures
            fields_view(w@) == target_wire_s(self@),
    {
        let mut w: Vec<WireField> = Vec::new();
        w.push(WireField { name: String::from_str("name"), value: WireValue::Str(self.name.clone()) });
        w.push(
            WireField {
                name: String::from_str("baseUrl"),
                value: WireValue::Str(self.base_url.clone()),
            },
        );
        match &self.spec_url {
            Some(s) => w.push(
                WireField { name: String::from_str("spec"), value: WireValue::Str(s.clone()) },
            ),
            None => {},
        }
        match &self.auth_type {
            Some(s) => w.push(
                WireField { name: String::from_str("authType"), value: WireValue::Str(s.clone()) },
            ),
            None => {},
        }
        match &self.token {
            Some(s) => w.push(
                WireField { name: String::from_str("token"), value: WireValue::Str(s.clone()) },
            ),
            None => {},
        }
        match &self.description {
            Some(s) => w.push(
                WireField {
                    name: String::from_str("description"),
                    value: WireValue::Str(s.clone()),
                },
            ),
            None => {},
        }
        proof {
            assert(fields_view(w@) =~= target_wire_s(self@));
        }
        w
    }

    /// Reads a record back from a wire object, failing on a missing required
    /// field or a field of the wrong type.
    pub fn from_wire(fields: &Vec<WireField>) -> (r: Option<Target>)
        ensures
            r matches Some(t) ==> target_of_wire_s(fields_view(fields@)) == Some(t@),
            r is None ==> target_of_wire_s(fields_view(fields@)) is None,
    {
        let name = match wire_lookup(fields, "name") {
            Some(WireValue::Str(s)) => s.clone(),
            _ => {
                return None;
            },
        };
        let base_url = match wire_lookup(fields, "baseUrl") {
            Some(WireValue::Str(s)) => s.clone(),
            _ => {
                return None;
            },
        };
        let spec_url = match wire_lookup(fields, "spec") {
            Some(WireValue::Str(s)) => Some(s.clone()),
            None => None,
            _ => {
                return None;
            },
        };
        let auth_type = match wire_lookup(fields, "authType") {
            Some(WireValue::Str(s)) => Some(s.clone()),
            None => None,
            _ => {
                return None;
            },
        };
        let token = match wire_lookup(fields, "token") {
            Some(WireValue::Str(s)) => Some(s.clone()),
            None => None,
            _ => {
                return None;
            },
        };
        let description = match wire_lookup(fields, "description") {
            Some(WireValue::Str(s)) => Some(s.clone()),
            None => None,
            _ => {
                return None;
            },
        };
        Some(Target { name, base_url, spec_url, auth_type, token, description })
    }
}

/// The wire shape of a `ToolConfig`: each list only when present.
pub open spec fn toolconfig_wire_s(c: ToolConfigModel) -> Seq<WireFieldModel> {
    opt_list_field_s("enabled_sources"@, c.enabled_sources) + opt_list_field_s(
        "disabled_tools"@,
        c.disabled_tools,
    )
}

/// Reading a `ToolConfig` back from a wire object.
pub open spec fn toolconfig_of_wire_s(fields: Seq<WireFieldModel>) -> Option<ToolConfigModel> {
    if opt_list_ok(fields, "enabled_sources"@) && opt_list_ok(fields, "disabled_tools"@) {
        Some(
            ToolConfigModel {
                enabled_sources: opt_list(fields, "enabled_sources"@),
                disabled_tools: opt_list(fields, "disabled_tools"@),
            },
        )
    } else {
        None
    }
}

/// A `ToolConfig` serialized to the wire and read back is the same record.
pub proof fn lemma_toolconfig_wire_round_trip(c: ToolConfigModel)
    ensures
        toolconfig_of_wire_s(toolconfig_wire_s(c)) == Some(c),
{
    reveal_strlit("enabled_sources");
    reveal_strlit("disabled_tools");
    assert("enabled_sources"@.len() == 15 && "disabled_tools"@.len() == 14);
    let o1 = opt_list_field_s("enabled_sources"@, c.enabled_sources);
    let o2 = opt_list_field_s("disabled_tools"@, c.disabled_tools);
    let keys = seq!["enabled_sources"@, "disabled_tools"@];
    assert forall|j: int| 0 <= j < 2 implies ({
        let k = #[trigger] keys[j];
        wire_get(o1 + o2, k) == if wire_get(o1, k) is Some {
            wire_get(o1, k)
        } else {
            wire_get(o2, k)
        } && wire_get(o1, k) == if c.enabled_sources is Some && k == "enabled_sources"@ {
            Some(WireValueModel::StrList(c.enabled_sources.unwrap()))
        } else {
            None::<WireValueModel>
        } && wire_get(o2, k) == if c.disabled_tools is Some && k == "disabled_tools"@ {
            Some(WireValueModel::StrList(c.disabled_tools.unwrap()))
        } else {
            None::<WireValueModel>
        }
    }) by {
        let k = keys[j];
        lemma_wire_get_append(o1, o2, k);
        match c.enabled_sources {
            Some(l) => lemma_wire_get_single(
                WireFieldModel { name: "enabled_sources"@, value: WireValueModel::StrList(l) },
                k,
            ),
            None => lemma_wire_get_empty(k),
        }
        match c.disabled_tools {
            Some(l) => lemma_wire_get_single(
                WireFieldModel { name: "disabled_tools"@, value: WireValueModel::StrList(l) },
                k,
            ),
            None => lemma_wire_get_empty(k),
        }
    }
    assert(keys[0] == "enabled_sources"@);
    assert(keys[1] == "disabled_tools"@);
    assert(opt_list(toolconfig_wire_s(c), "enabled_sources"@) == c.enabled_sources);
    assert(opt_list(toolconfig_wire_s(c), "disabled_tools"@) == c.disabled_tools);
}

impl ToolConfig {
    /// This record's wire shape.
    pub fn to_wire(&self) -> (w: Vec<WireField>)
        ensures
            fields_view(w@) == toolconfig_wire_s(self@),
    {
        let mut w: Vec<WireField> = Vec::new();
        match &self.enabled_sources {
            Some(l) => w.push(
                WireField {
                    name: String::from_str("enabled_sources"),
                    value: WireValue::StrList(clone_strings(l)),
                },
            ),
            None => {},
        }
        match &self.disabled_tools {
            Some(l) => w.push(
                WireField {
                    name: String::from_str("disabled_tools"),
                    value: WireValue::StrList(clone_strings(l)),
                },
            ),
            None => {},
        }
        proof {
            assert(fields_view(w@) =~= toolconfig_wire_s(self@));
        }
        w
    }
}

/// The wire shape of an `LLMConfig`: its three fields, always present.
pub open spec fn llmconfig_wire_s(c: LLMConfigModel) -> Seq<WireFieldModel> {
    seq![
        WireFieldModel { name: "api_base"@, value: WireValueModel::Str(c.api_base) },
        WireFieldModel { name: "api_key"@, value: WireValueModel::Str(c.api_key) },
        WireFieldModel { name: "model"@, value: WireValueModel::Str(c.model) },
    ]
}

/// Reading an `LLMConfig` back from a wire object: all three fields must be
/// present as strings.
pub open spec fn llmconfig_of_wire_s(fields: Seq<WireFieldModel>) -> Option<LLMConfigModel> {
    if req_str_ok(fields, "api_base"@) && req_str_ok(fields, "api_key"@) && req_str_ok(
        fields,
        "model"@,
    ) {
        Some(
            LLMConfigModel {
                api_base: req_str(fields, "api_base"@),
                api_key: req_str(fields, "api_key"@),
                model: req_str(fields, "model"@),
            },
        )
    } else {
        None
    }
}

/// An `LLMConfig` serialized to the wire and read back is the same record.
pub proof fn lemma_llmconfig_wire_round_trip(c: LLMConfigModel)
    ensures
        llmconfig_of_wire_s(llmconfig_wire_s(c)) == Some(c),
{
    reveal_strlit("api_base");
    reveal_strlit("api_key");
    reveal_strlit("model");
    assert("api_base"@.len() == 8 && "api_key"@.len() == 7 && "model"@.len() == 5);
    let f1 = WireFieldModel { name: "api_base"@, value: WireValueModel::Str(c.api_base) };
    let f2 = WireFieldModel { name: "api_key"@, value: WireValueModel::Str(c.api_key) };
    let f3 = WireFieldModel { name: "model"@, value: WireValueModel::Str(c.model) };
    let fs = llmconfig_wire_s(c);
    assert(fs =~= (seq![f1] + seq![f2]) + seq![f3]);
    let keys = seq!["api_base"@, "api_key"@, "model"@];
    assert forall|j: int| 0 <= j < 3 implies ({
        let k = #[trigger] keys[j];
        wire_get(fs, k) == if wire_get(seq![f1], k) is Some {
            wire_get(seq![f1], k)
        } else if wire_get(seq![f2], k) is Some {
            wire_get(seq![f2], k)
        } else {
            wire_get(seq![f3], k)
        }
    }) by {
        let k = keys[j];
        lemma_wire_get_append(seq![f1] + seq![f2], seq![f3], k);
        lemma_wire_get_append(seq![f1], seq![f2], k);
        lemma_wire_get_single(f1, k);
        lemma_wire_get_single(f2, k);
        lemma_wire_get_single(f3, k);
    }
    assert(keys[0] == "api_base"@);
    assert(keys[1] == "api_key"@);
    assert(keys[2] == "model"@);
    lemma_wire_get_single(f1, "api_base"@);
    lemma_wire_get_single(f2, "api_key"@);
    lemma_wire_get_single(f3, "model"@);
    lemma_wire_get_single(f1, "api_key"@);
    lemma_wire_get_single(f2, "api_base"@);
    lemma_wire_get_single(f1, "model"@);
    lemma_wire_get_single(f2, "model"@);
    lemma_wire_get_single(f3, "api_base"@);
    lemma_wire_get_single(f3, "api_key"@);
    assert(req_str(fs, "api_base"@) == c.api_base && req_str_ok(fs, "api_base"@));
    assert(req_str(fs, "api_key"@) == c.api_key && req_str_ok(fs, "api_key"@));
    assert(req_str(fs, "model"@) == c.model && req_str_ok(fs, "model"@));
}

impl LLMConfig {
    /// This record's wire shape.
    pub fn to_wire(&self) -> (w: Vec<WireField>)
        ensures
            fields_view(w@) == llmconfig_wire_s(self@),
    {
        let mut w: Vec<WireField> = Vec::new();
        w.push(
            WireField {
                name: String::from_str("api_base"),
                value: WireValue::Str(self.api_base.clone()),
            },
        );
        w.push(
            WireField {
                name: String::from_str("api_key"),
                value: WireValue::Str(self.api_key.clone()),
            },
        );
        w.push(
            WireField { name: String::from_str("model"), value: WireValue::Str(self.model.clone()) },
        );
        proof {
            assert(fields_view(w@) =~= llmconfig_wire_s(self@));
        }
        w
    }
}

} // verus!
