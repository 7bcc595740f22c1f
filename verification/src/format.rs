//! The response format of a request, and how it is written on the wire.
//!
//! A format goes out as the string `json` or as a schema document embedded
//! as a JSON value. It comes in as a string: `json`, or the text of a schema
//! document. The two directions differ for a schema on purpose: only the
//! plain format is read back from what was written.

use schemars::schema::RootSchema;
use schemars::JsonSchema;
use vstd::prelude::*;

verus! {

/// `schemars::schema::RootSchema`: the root object of a JSON Schema document.
/// Its contents are not looked into here; a value is only carried.
#[verifier::external_type_specification]
#[verifier::external_body]
pub struct ExRootSchema(schemars::schema::RootSchema);

/// `serde_json::Error`: why a text could not be read as JSON of some type.
#[verifier::external_type_specification]
#[verifier::external_body]
pub struct ExJsonError(serde_json::Error);

/// `Clone::clone` of `RootSchema`, which the type derives field by field:
/// the copy equals the value it was made from.
pub assume_specification[ <RootSchema as Clone>::clone ](schema: &RootSchema) -> (copy: RootSchema)
    ensures
        copy == *schema,
;

/// `==` on `str`: two strings are equal when they hold the same characters.
pub assume_specification[ <str as PartialEq>::eq ](left: &str, right: &str) -> (equal: bool)
    ensures
        equal == (left@ == right@),
;

/// What `serde_json::from_str::<RootSchema>` returns for a text.
pub uninterp spec fn parsed_root_schema(text: Seq<char>) -> Result<RootSchema, serde_json::Error>;

/// Calls `serde_json::from_str::<RootSchema>`. Parsing reads nothing but
/// the text, so the same text always gives the same schema or the same
/// diagnostic.
#[verifier::external_body]
fn parse_root_schema(text: &str) -> (parsed: Result<RootSchema, serde_json::Error>)
    ensures
        parsed == parsed_root_schema(text@),
{
    serde_json::from_str::<RootSchema>(text)
}

/// Takes `SchemaSettings::draft07`, sets its field `inline_subschemas` as
/// asked, and generates the root schema of `T` with
/// `SchemaGenerator::into_root_schema_for`, which runs `T`'s own account of
/// its shape. Nothing is claimed of the schema.
#[verifier::external_body]
fn generate_root_schema<T: JsonSchema>(inline_subschemas: bool) -> RootSchema {
    let mut settings = schemars::gen::SchemaSettings::draft07();
    settings.inline_subschemas = inline_subschemas;
    settings.into_generator().into_root_schema_for::<T>()
}

/// A JSON Schema that describes the shape of the wanted response.
#[derive(Debug, Clone)]
pub struct JsonStructure {
    schema: RootSchema,
}

impl View for JsonStructure {
    type V = RootSchema;

    /// The schema document that the structure holds.
    closed spec fn view(&self) -> RootSchema {
        self.schema
    }
}

impl JsonStructure {
    /// The draft-07 schema of `T`, generated with sub-schemas written out in
    /// place rather than referred to, because the service resolves no
    /// references. A type that contains itself is still referred to from
    /// inside its own schema.
    pub fn new<T: JsonSchema>() -> JsonStructure {
        JsonStructure::from_schema(generate_root_schema::<T>(true))
    }

    /// Wraps a schema document as it is.
    pub fn from_schema(schema: RootSchema) -> (structure: JsonStructure)
        ensures
            structure@ == schema,
    {
        JsonStructure { schema }
    }

    /// The schema document.
    pub fn schema(&self) -> (schema: &RootSchema)
        ensures
            *schema == self@,
    {
        &self.schema
    }
}

/// The format in which the service is asked to answer.
#[derive(Debug, Clone)]
pub enum FormatType {
    /// Any JSON.
    Json,
    /// JSON of the shape that the schema describes.
    StructuredJson(JsonStructure),
}

/// A format as mathematics: plain, or structured by a schema document.
pub enum FormatView {
    Json,
    StructuredJson(RootSchema),
}

impl View for FormatType {
    type V = FormatView;

    open spec fn view(&self) -> FormatView {
        match *self {
            FormatType::Json => FormatView::Json,
            FormatType::StructuredJson(structure) => FormatView::StructuredJson(structure@),
        }
    }
}

/// What the format field of a request holds: a string, or a schema
/// document embedded as a JSON value of its own.
#[derive(Debug, Clone, Copy)]
pub enum FormatWire<'a> {
    Text(&'static str),
    Document(&'a RootSchema),
}

/// A format's wire value as mathematics: a string as the sequence of its
/// characters, or a schema document.
pub enum FormatWireView {
    Text(Seq<char>),
    Document(RootSchema),
}

impl<'a> View for FormatWire<'a> {
    type V = FormatWireView;

    open spec fn view(&self) -> FormatWireView {
        match *self {
            FormatWire::Text(text) => FormatWireView::Text(text@),
            FormatWire::Document(schema) => FormatWireView::Document(*schema),
        }
    }
}

/// A format string was neither `json` nor the text of a schema document.
#[derive(Debug)]
pub struct SchemaParseError {
    source: serde_json::Error,
}

impl View for SchemaParseError {
    type V = serde_json::Error;

    /// The parser's diagnostic.
    closed spec fn view(&self) -> serde_json::Error {
        self.source
    }
}

impl SchemaParseError {
    /// The parser's diagnostic.
    pub fn source(&self) -> (source: &serde_json::Error)
        ensures
            *source == self@,
    {
        &self.source
    }

    /// Hands out the parser's diagnostic.
    pub fn into_inner(self) -> (source: serde_json::Error)
        ensures
            source == self@,
    {
        self.source
    }
}

/// The characters of the string that asks for plain JSON.
pub open spec fn json_tag() -> Seq<char> {
    seq!['j', 's', 'o', 'n']
}

/// The literal `"json"` holds the characters of the tag.
proof fn lemma_json_literal()
    ensures
        "json"@ == json_tag(),
{
    reveal_strlit("json");
    assert("json"@ =~= json_tag());
}

impl FormatView {
    /// The wire value of a format: the string `json`, or the schema
    /// document itself.
    pub open spec fn wire(self) -> FormatWireView {
        match self {
            FormatView::Json => FormatWireView::Text(json_tag()),
            FormatView::StructuredJson(schema) => FormatWireView::Document(schema),
        }
    }
}

/// A decoded format or the error, each by its view.
pub open spec fn decode_view(decoded: Result<FormatType, SchemaParseError>) -> Result<
    FormatView,
    serde_json::Error,
> {
    match decoded {
        Ok(format) => Ok(format@),
        Err(error) => Err(error@),
    }
}

impl FormatType {
    /// What a parser's answer on a format string stands for: its schema as
    /// a structured format, or its diagnostic as the error.
    pub open spec fn of_parsed(parsed: Result<RootSchema, serde_json::Error>) -> Result<
        FormatView,
        serde_json::Error,
    > {
        match parsed {
            Ok(schema) => Ok(FormatView::StructuredJson(schema)),
            Err(diagnostic) => Err(diagnostic),
        }
    }

    /// The format that a string on the wire stands for: plain JSON for the
    /// string `json`, and for any other string what parsing it as a schema
    /// document gives.
    pub open spec fn decoded(text: Seq<char>) -> Result<FormatView, serde_json::Error> {
        if text == json_tag() {
            Ok(FormatView::Json)
        } else {
            Self::of_parsed(parsed_root_schema(text))
        }
    }

    /// Encodes this format as the value of a request's format field.
    pub fn encode(&self) -> (wire: FormatWire<'_>)
        ensures
            wire@ == self@.wire(),
    {
        match self {
            FormatType::Json => {
                proof {
                    lemma_json_literal();
                }
                FormatWire::Text("json")
            },
            FormatType::StructuredJson(structure) => FormatWire::Document(structure.schema()),
        }
    }

    /// Turns a parser's answer on a format string into a format: a schema
    /// becomes a structured format, a diagnostic becomes the error.
    pub fn from_parsed(parsed: Result<RootSchema, serde_json::Error>) -> (format: Result<
        FormatType,
        SchemaParseError,
    >)
        ensures
            decode_view(format) == Self::of_parsed(parsed),
    {
        match parsed {
            Ok(schema) => Ok(FormatType::StructuredJson(JsonStructure::from_schema(schema))),
            Err(source) => Err(SchemaParseError { source }),
        }
    }

    /// Decodes the string that a format field holds: `json` is the plain
    /// format, any other string is parsed as a schema document, and what
    /// the parser rejects is an error that carries its diagnostic.
    pub fn decode(text: &str) -> (format: Result<FormatType, SchemaParseError>)
        ensures
            decode_view(format) == Self::decoded(text@),
            text@ == json_tag() ==> format is Ok && format->Ok_0 is Json,
            text@ != json_tag() ==> (format is Ok <==> parsed_root_schema(text@) is Ok),
            text@ != json_tag() && format is Ok ==> format->Ok_0 is StructuredJson,
    {
        proof {
            lemma_json_literal();
        }
        if *text == *"json" {
            Ok(FormatType::Json)
        } else {
            Self::from_parsed(parse_root_schema(text))
        }
    }

    /// A format that goes out as a string comes back from that string as
    /// the same format. Only the plain format goes out as a string.
    pub proof fn lemma_text_round_trip(format: FormatView)
        requires
            format.wire() is Text,
        ensures
            format == FormatView::Json,
            Self::decoded(format.wire()->Text_0) == Ok::<FormatView, serde_json::Error>(format),
    {
    }
}

} // verus!
