//! JSON Schemas and the validation of a value against one.

use vstd::prelude::*;
use serde_json::Value;
use crate::error::{Error, ErrorDetails};
use crate::json::json_text;
use crate::text::texts;

verus! {

/// Whether the JSON document with this compact text is a schema that
/// `jsonschema::validator_for` accepts.
pub uninterp spec fn schema_compiles(schema: Seq<char>) -> bool;

/// The messages of the errors that the validator of `schema` finds in
/// `instance`, in the order in which it reports them; both are compact texts.
pub uninterp spec fn schema_errors(schema: Seq<char>, instance: Seq<char>) -> Seq<Seq<char>>;

/// Calls `jsonschema::validator_for` on the schema and, where that gives a
/// validator, `Validator::iter_errors` on the instance, and writes each error
/// out with `to_string`. `None` stands for a schema that does not compile.
/// The crate is built without its resolvers for remote references, so that
/// the outcome depends on the two documents alone.
#[verifier::external_body]
pub(crate) fn schema_check(schema: &Value, instance: &Value) -> (r: Option<Vec<String>>)
    ensures
        r is Some <==> schema_compiles(json_text(*schema)),
        r matches Some(v) ==> texts(v@) == schema_errors(json_text(*schema), json_text(*instance)),
{
    match jsonschema::validator_for(schema) {
        Ok(validator) => {
            let mut messages = Vec::new();
            for e in validator.iter_errors(instance) {
                messages.push(e.to_string());
            }
            Some(messages)
        },
        Err(_) => None,
    }
}

/// What validating a value against a schema comes to.
pub enum SchemaVerdict {
    /// The value matches the schema.
    Valid,
    /// The schema itself is not one.
    BadSchema,
    /// The value breaks the schema in these ways.
    Violations(Seq<Seq<char>>),
}

/// The verdict on the instance with compact text `instance` under the schema
/// with compact text `schema`.
pub open spec fn schema_verdict(schema: Seq<char>, instance: Seq<char>) -> SchemaVerdict {
    if !schema_compiles(schema) {
        SchemaVerdict::BadSchema
    } else if schema_errors(schema, instance).len() == 0 {
        SchemaVerdict::Valid
    } else {
        SchemaVerdict::Violations(schema_errors(schema, instance))
    }
}

/// The text of the error for a schema that is not one.
pub open spec fn bad_schema_text() -> Seq<char> {
    "The JSON Schema is invalid"@
}

/// Says that `r` is what validation returns where the verdict on `data` under
/// `schema` is `verdict`.
pub open spec fn reports(r: Result<(), Error>, verdict: SchemaVerdict, data: Value, schema: Value) -> bool {
    match verdict {
        SchemaVerdict::Valid => r is Ok,
        SchemaVerdict::BadSchema => r matches Err(e) && e.is_json_schema(bad_schema_text()),
        SchemaVerdict::Violations(ms) => r matches Err(e)
            && e.details matches ErrorDetails::JsonSchemaValidation { messages, data: d, schema: s }
            && texts(messages@) == ms && *d == data && *s == schema,
    }
}

/// The verdict that the outcome of a schema check stands for: `None` for a
/// schema that is not one, else the messages of what the value breaks.
pub open spec fn verdict_of(check: Option<Vec<String>>) -> SchemaVerdict {
    match check {
        None => SchemaVerdict::BadSchema,
        Some(messages) => if messages@.len() == 0 {
            SchemaVerdict::Valid
        } else {
            SchemaVerdict::Violations(texts(messages@))
        },
    }
}

/// Turns the outcome of a schema check of `instance` under `schema` into a
/// result: nothing to report where no message came back, else an error that
/// carries the messages, the value and the schema.
pub fn report_schema_check(check: Option<Vec<String>>, instance: &Value, schema: &Value) -> (r: Result<
    (),
    Error,
>)
    ensures
        reports(r, verdict_of(check), *instance, *schema),
{
    match check {
        None => Err(
            Error::new(
                ErrorDetails::JsonSchema { message: String::from_str("The JSON Schema is invalid") },
            ),
        ),
        Some(messages) => {
            if messages.len() == 0 {
                Ok(())
            } else {
                Err(
                    Error::new(
                        ErrorDetails::JsonSchemaValidation {
                            messages,
                            data: Box::new(instance.clone()),
                            schema: Box::new(schema.clone()),
                        },
                    ),
                )
            }
        },
    }
}

/// Validates `instance` against the schema `schema`.
pub fn validate_against(schema: &Value, instance: &Value) -> (r: Result<(), Error>)
    ensures
        reports(r, schema_verdict(json_text(*schema), json_text(*instance)), *instance, *schema),
{
    report_schema_check(schema_check(schema, instance), instance, schema)
}

/// A schema that is part of the configuration.
#[derive(Debug, Clone, PartialEq)]
pub struct StaticJSONSchema {
    pub value: Value,
}

/// A schema that came with a request.
#[derive(Debug, Clone, PartialEq)]
pub struct DynamicJSONSchema {
    pub value: Value,
}

/// A schema of either origin, by reference.
#[derive(Debug)]
pub enum JsonSchemaRef<'a> {
    Static(&'a StaticJSONSchema),
    Dynamic(&'a DynamicJSONSchema),
}

impl StaticJSONSchema {
    /// A schema from its document, or a `JsonSchema` error where the document
    /// is no schema.
    pub fn from_value(value: &Value) -> (r: Result<StaticJSONSchema, Error>)
        ensures
            match r {
                Ok(s) => schema_compiles(json_text(*value)) && s.value == *value,
                Err(e) => !schema_compiles(json_text(*value)) && e.is_json_schema(bad_schema_text()),
            },
    {
        match schema_check(value, value) {
            Some(_) => Ok(StaticJSONSchema { value: value.clone() }),
            None => Err(
                Error::new(
                    ErrorDetails::JsonSchema { message: String::from_str("The JSON Schema is invalid") },
                ),
            ),
        }
    }

    /// Validates `instance` against this schema.
    pub fn validate(&self, instance: &Value) -> (r: Result<(), Error>)
        ensures
            reports(
                r,
                schema_verdict(json_text(self.value), json_text(*instance)),
                *instance,
                self.value,
            ),
    {
        validate_against(&self.value, instance)
    }
}

impl DynamicJSONSchema {
    /// A schema from its document. Whether the document is a schema shows
    /// when a value is validated against it.
    pub fn new(value: Value) -> (s: DynamicJSONSchema)
        ensures
            s.value == value,
    {
        DynamicJSONSchema { value }
    }

    /// Validates `instance` against this schema.
    pub fn validate(&self, instance: &Value) -> (r: Result<(), Error>)
        ensures
            reports(
                r,
                schema_verdict(json_text(self.value), json_text(*instance)),
                *instance,
                self.value,
            ),
    {
        validate_against(&self.value, instance)
    }
}

impl<'a> JsonSchemaRef<'a> {
    /// The document of the schema.
    pub open spec fn document(self) -> Value {
        match self {
            JsonSchemaRef::Static(s) => s.value,
            JsonSchemaRef::Dynamic(s) => s.value,
        }
    }

    /// The document of the schema.
    pub fn value(&self) -> (v: &Value)
        ensures
            *v == self.document(),
    {
        match self {
            JsonSchemaRef::Static(s) => &s.value,
            JsonSchemaRef::Dynamic(s) => &s.value,
        }
    }

    /// Validates `instance` against the schema.
    pub fn validate(&self, instance: &Value) -> (r: Result<(), Error>)
        ensures
            reports(
                r,
                schema_verdict(json_text(self.document()), json_text(*instance)),
                *instance,
                self.document(),
            ),
    {
        match self {
            JsonSchemaRef::Static(s) => s.validate(instance),
            JsonSchemaRef::Dynamic(s) => s.validate(instance),
        }
    }
}

} // verus!
