//! The schema description of the textual wire shape: a named entry whose
//! shape is the one of a plain string.

use crate::codec::TickEncoded;
use vstd::prelude::*;

verus! {

/// The schema object schemars produces.
#[verifier::external_type_specification]
#[verifier::external_body]
pub struct ExSchema(schemars::Schema);

/// The schema generation context schemars supplies.
#[verifier::external_type_specification]
#[verifier::external_body]
pub struct ExSchemaGenerator(schemars::generate::SchemaGenerator);

/// The fixed schema that schemars produces for a plain string. The call's
/// result depends on nothing, so the one parameter is a placeholder.
pub uninterp spec fn plain_string_schema_shape(anything: bool) -> schemars::Schema;

/// Relies on <String as schemars::JsonSchema>::json_schema: it ignores the
/// generation context and returns the fixed schema of a plain string value.
#[verifier::external_body]
fn plain_string_schema(generator: &mut schemars::generate::SchemaGenerator) -> (r:
    schemars::Schema)
    ensures
        r == plain_string_schema_shape(true),
        *final(generator) == *old(generator),
{
    <String as schemars::JsonSchema>::json_schema(generator)
}

impl TickEncoded {
    /// The fixed name under which the textual wire shape is registered.
    pub fn schema_name() -> (r: String)
        ensures
            r@ == "TickEncoded"@,
    {
        "TickEncoded".to_owned()
    }

    /// The wire shape of an encoded value: always the one schema a plain
    /// string has, whatever the target byte-convertible type; the supplied
    /// generation context is left untouched.
    pub fn json_schema(generator: &mut schemars::generate::SchemaGenerator) -> (r:
        schemars::Schema)
        ensures
            r == plain_string_schema_shape(true),
            *final(generator) == *old(generator),
    {
        plain_string_schema(generator)
    }
}

}
