use vstd::prelude::*;

verus! {

/// One declared property of a tool's input schema: its name, its JSON type
/// and a caller-facing description.
pub struct PropertySpec {
    pub name: String,
    pub json_type: String,
    pub description: String,
}

/// A JSON-Schema-shaped description of a tool's arguments: the declared
/// properties and which of them are required. The schema is advisory to the
/// caller; the dispatcher independently re-validates every call.
pub struct InputSchema {
    pub properties: Vec<PropertySpec>,
    pub required: Vec<String>,
}

/// Static metadata describing one callable tool, published by the listing
/// operation. Created once, never mutated.
pub struct ToolDescriptor {
    pub name: String,
    pub description: String,
    pub input_schema: InputSchema,
}

/// The answer to a listing query: the catalog and a next-page marker. This
/// library never produces a marker — the catalog is small and static.
pub struct ToolListing {
    pub tools: Vec<ToolDescriptor>,
    pub next_cursor: Option<String>,
}

/// The one catalog this server publishes: a single descriptor named
/// `get-weather`, whose schema declares two text properties — the location
/// and the auxiliary note — and marks both required.
pub open spec fn is_weather_catalog(l: ToolListing) -> bool {
    &&& l.next_cursor is None
    &&& l.tools@.len() == 1
    &&& l.tools@[0].name@ == "get-weather"@
    &&& l.tools@[0].description@ == "Get the weather for a given city."@
    &&& l.tools@[0].input_schema.properties@.len() == 2
    &&& l.tools@[0].input_schema.properties@[0].name@ == "city"@
    &&& l.tools@[0].input_schema.properties@[0].json_type@ == "string"@
    &&& l.tools@[0].input_schema.properties@[0].description@ == "The city name to get weather for"@
    &&& l.tools@[0].input_schema.properties@[1].name@ == "sidenote"@
    &&& l.tools@[0].input_schema.properties@[1].json_type@ == "string"@
    &&& l.tools@[0].input_schema.properties@[1].description@ == "Required additional information"@
    &&& l.tools@[0].input_schema.required@.len() == 2
    &&& l.tools@[0].input_schema.required@[0]@ == "city"@
    &&& l.tools@[0].input_schema.required@[1]@ == "sidenote"@
}

/// Law: listing is deterministic and stateless. Any two listings the listing
/// contract admits agree in every published field, so repeated queries return
/// the same single-descriptor catalog no matter how many tool calls came in
/// between.
pub proof fn lemma_listing_deterministic(a: ToolListing, b: ToolListing)
    requires
        is_weather_catalog(a),
        is_weather_catalog(b),
    ensures
        a.next_cursor is None && b.next_cursor is None,
        a.tools@.len() == b.tools@.len(),
        a.tools@[0].name@ == b.tools@[0].name@,
        a.tools@[0].description@ == b.tools@[0].description@,
        a.tools@[0].input_schema.properties@.len() == b.tools@[0].input_schema.properties@.len(),
        forall|i: int|
            0 <= i < 2 ==> a.tools@[0].input_schema.properties@[i].name@ == b.tools@[0].input_schema.properties@[i].name@,
        forall|i: int|
            0 <= i < 2 ==> a.tools@[0].input_schema.properties@[i].json_type@ == b.tools@[0].input_schema.properties@[i].json_type@,
        forall|i: int|
            0 <= i < 2 ==> a.tools@[0].input_schema.properties@[i].description@ == b.tools@[0].input_schema.properties@[i].description@,
        a.tools@[0].input_schema.required@.len() == b.tools@[0].input_schema.required@.len(),
        forall|i: int|
            0 <= i < 2 ==> a.tools@[0].input_schema.required@[i]@ == b.tools@[0].input_schema.required@[i]@,
{
}

} // verus!
