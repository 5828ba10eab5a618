//! Parameter schemas of tools.

use vstd::prelude::*;
use crate::tools::json::{
    json_doc,
    json_docs,
    json_flag,
    json_list,
    json_map_insert,
    json_map_new,
    json_members,
    json_object,
    json_text,
    JsonDoc,
};

verus! {

/// One parameter of a tool.
#[derive(Clone, Copy, Debug)]
pub struct ParamDef {
    pub name: &'static str,
    /// One of `string`, `number`, `boolean`, `array` and `object`.
    pub param_type: &'static str,
    pub required: bool,
    pub description: &'static str,
}

impl ParamDef {
    pub fn new(
        name: &'static str,
        param_type: &'static str,
        required: bool,
        description: &'static str,
    ) -> (p: ParamDef)
        ensures
            p.name == name,
            p.param_type == param_type,
            p.required == required,
            p.description == description,
    {
        ParamDef { name, param_type, required, description }
    }

    /// The members of the JSON object that describes this parameter: its
    /// type and its description.
    pub open spec fn members(self) -> Map<Seq<char>, JsonDoc> {
        JsonDoc::no_members().insert(
            "type"@,
            JsonDoc::Text(self.param_type@),
        ).insert("description"@, JsonDoc::Text(self.description@))
    }

    /// The JSON object that describes this parameter.
    pub open spec fn doc(self) -> JsonDoc {
        JsonDoc::Object(self.members())
    }

    /// The JSON object that describes this parameter.
    pub fn to_json(&self) -> (value: serde_json::Value)
        ensures
            json_doc(value) == self.doc(),
    {
        let mut members = json_map_new();
        json_map_insert(&mut members, "type", json_text(self.param_type));
        json_map_insert(&mut members, "description", json_text(self.description));
        json_object(members)
    }
}

/// The parameters of a tool, in the order in which they are declared.
pub struct ToolSchema {
    pub params: Vec<ParamDef>,
}

impl ToolSchema {
    pub fn new(params: Vec<ParamDef>) -> (s: ToolSchema)
        ensures
            s.params == params,
    {
        ToolSchema { params }
    }

    /// The schema of a tool without parameters.
    pub fn empty() -> (s: ToolSchema)
        ensures
            s.params@ == Seq::<ParamDef>::empty(),
    {
        ToolSchema { params: Vec::new() }
    }

    /// The `properties` of a schema: the description of every parameter,
    /// under the parameter's name. Of two parameters with one name the later
    /// one stands.
    pub open spec fn properties(params: Seq<ParamDef>) -> Map<Seq<char>, JsonDoc>
        decreases params.len(),
    {
        if params.len() == 0 {
            Map::empty()
        } else {
            Self::properties(params.drop_last()).insert(params.last().name@, params.last().doc())
        }
    }

    /// The `required` list of a schema: the names of the required
    /// parameters, in the order of their declaration.
    pub open spec fn required_names(params: Seq<ParamDef>) -> Seq<JsonDoc>
        decreases params.len(),
    {
        if params.len() == 0 {
            Seq::empty()
        } else if params.last().required {
            Self::required_names(params.drop_last()).push(JsonDoc::Text(params.last().name@))
        } else {
            Self::required_names(params.drop_last())
        }
    }

    /// The members of the JSON Schema object of these parameters.
    pub open spec fn members(self) -> Map<Seq<char>, JsonDoc> {
        JsonDoc::no_members().insert("type"@, JsonDoc::Text("object"@)).insert(
            "properties"@,
            JsonDoc::Object(Self::properties(self.params@)),
        ).insert("required"@, JsonDoc::List(Self::required_names(self.params@))).insert(
            "additionalProperties"@,
            JsonDoc::Flag(false),
        )
    }

    /// The JSON Schema object of these parameters.
    pub open spec fn doc(self) -> JsonDoc {
        JsonDoc::Object(self.members())
    }

    /// The JSON Schema object of these parameters: an object that admits no
    /// other member than the declared parameters.
    pub fn to_json(&self) -> (value: serde_json::Value)
        ensures
            json_doc(value) == self.doc(),
    {
        let mut properties = json_map_new();
        let mut required: Vec<serde_json::Value> = Vec::new();
        let mut i: usize = 0;
        while i < self.params.len()
            invariant
                i <= self.params.len(),
                json_members(properties) == Self::properties(self.params@.subrange(0, i as int)),
                json_docs(required@) == Self::required_names(self.params@.subrange(0, i as int)),
            decreases self.params.len() - i,
        {
            let param = &self.params[i];
            proof {
                let done = self.params@.subrange(0, i as int);
                let next = self.params@.subrange(0, i + 1);
                assert(next.drop_last() =~= done);
                assert(next.last() == *param);
            }
            json_map_insert(&mut properties, param.name, param.to_json());
            if param.required {
                let ghost before = required@;
                let name = json_text(param.name);
                required.push(name);
                assert(json_docs(required@) =~= json_docs(before).push(json_doc(name)));
            }
            i += 1;
        }
        assert(self.params@.subrange(0, i as int) =~= self.params@);
        let mut members = json_map_new();
        json_map_insert(&mut members, "type", json_text("object"));
        json_map_insert(&mut members, "properties", json_object(properties));
        json_map_insert(&mut members, "required", json_list(required));
        json_map_insert(&mut members, "additionalProperties", json_flag(false));
        json_object(members)
    }
}

} // verus!
