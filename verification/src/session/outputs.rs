//! The size of a display, out of what the compositors' programs report.

use vstd::prelude::*;

use crate::command::{output_text, trimmed_output, CommandOutput};
use crate::models::settings::Real;
use crate::session::backend::{ensure_gui_session_env, gui_ready, GuiEnvironment};
use crate::text;

verus! {

/// A JSON value. An object holds its fields in the order in which its map is walked.
pub enum Json {
    Null,
    Bool(bool),
    /// A number: as a 64-bit integer where it is one, and as the bits of a double where it can
    /// be one.
    Number { integer: Option<i64>, double: Option<u64> },
    Text(Seq<char>),
    Array(Seq<Json>),
    Object(Seq<(Seq<char>, Json)>),
}

/// The value of the field `key`, if there is one.
pub open spec fn field(value: Json, key: Seq<char>) -> Option<Json> {
    match value {
        Json::Object(fields) => first_field(fields, key),
        _ => None,
    }
}

/// The value of the first field with this key.
pub open spec fn first_field(fields: Seq<(Seq<char>, Json)>, key: Seq<char>) -> Option<Json>
    decreases fields.len(),
{
    if fields.len() == 0 {
        None
    } else if fields.first().0 == key {
        Some(fields.first().1)
    } else {
        first_field(fields.skip(1), key)
    }
}

#[verifier::external_type_specification]
#[verifier::external_body]
pub struct ExJsonValue(serde_json::Value);

/// What a `serde_json::Value` holds.
pub uninterp spec fn json_contents(value: serde_json::Value) -> Json;

/// What `serde_json::from_slice` makes of bytes: a JSON value, or the text of its error.
pub uninterp spec fn json_document(bytes: Seq<u8>) -> Result<Json, Seq<char>>;

/// Calls `serde_json::from_slice` for a `serde_json::Value`. Whether the bytes are taken, what
/// the value then holds, and what the error says otherwise, depends on the bytes alone.
#[verifier::external_body]
fn parse_json(bytes: &[u8]) -> (r: Result<serde_json::Value, String>)
    ensures
        match r {
            Ok(value) => json_document(bytes@) == Ok::<Json, Seq<char>>(json_contents(value)),
            Err(e) => json_document(bytes@) == Err::<Json, Seq<char>>(e@),
        },
{
    match serde_json::from_slice(bytes) {
        Ok(value) => Ok(value),
        Err(e) => Err(e.to_string()),
    }
}

/// Calls `serde_json::Value::get` with a string: the value of that field, where the value is an
/// object that has it.
#[verifier::external_body]
fn json_field<'a>(value: &'a serde_json::Value, key: &str) -> (r: Option<&'a serde_json::Value>)
    ensures
        match r {
            Some(found) => field(json_contents(*value), key@) == Some(json_contents(*found)),
            None => field(json_contents(*value), key@) is None,
        },
{
    value.get(key)
}

/// Calls `serde_json::Value::as_str`: the text, where the value is one.
#[verifier::external_body]
fn json_text(value: &serde_json::Value) -> (r: Option<&str>)
    ensures
        match r {
            Some(t) => json_contents(*value) == Json::Text(t@),
            None => !(json_contents(*value) is Text),
        },
{
    value.as_str()
}

/// Calls `serde_json::Value::as_i64`: the number, where the value is a number and that a 64-bit
/// integer.
#[verifier::external_body]
fn json_integer(value: &serde_json::Value) -> (r: Option<i64>)
    ensures
        r == (match json_contents(*value) {
            Json::Number { integer, double } => integer,
            _ => None,
        }),
{
    value.as_i64()
}

/// Calls `serde_json::Value::as_f64`: the bits of the number as a double, where the value is a
/// number and can be one.
#[verifier::external_body]
fn json_real(value: &serde_json::Value) -> (r: Option<u64>)
    ensures
        r == (match json_contents(*value) {
            Json::Number { integer, double } => double,
            _ => None,
        }),
{
    match value.as_f64() {
        Some(x) => Some(x.to_bits()),
        None => None,
    }
}

/// Calls `serde_json::Value::is_object`.
#[verifier::external_body]
fn json_is_object(value: &serde_json::Value) -> (r: bool)
    ensures
        r == (json_contents(*value) is Object),
{
    value.is_object()
}

/// What the values of a list hold.
pub open spec fn items_of(values: Seq<serde_json::Value>) -> Seq<Json> {
    values.map_values(|value: serde_json::Value| json_contents(value))
}

/// Calls `serde_json::Value::as_array`: the items, where the value is an array.
#[verifier::external_body]
fn json_array(value: &serde_json::Value) -> (r: Option<&Vec<serde_json::Value>>)
    ensures
        match r {
            Some(items) => json_contents(*value) == Json::Array(items_of(items@)),
            None => !(json_contents(*value) is Array),
        },
{
    value.as_array()
}

/// The values of the fields of an object, in order.
pub open spec fn values_of(fields: Seq<(Seq<char>, Json)>) -> Seq<Json> {
    fields.map_values(|f: (Seq<char>, Json)| f.1)
}

/// Calls `serde_json::Map::values` on the map of an object: the values of its fields, in the
/// order in which the map is walked.
#[verifier::external_body]
fn json_values(value: &serde_json::Value) -> (r: Option<Vec<serde_json::Value>>)
    ensures
        match r {
            Some(values) => {
                &&& json_contents(*value) is Object
                &&& items_of(values@) == values_of(json_contents(*value)->Object_0)
            },
            None => !(json_contents(*value) is Object),
        },
{
    match value.as_object() {
        Some(map) => Some(map.values().cloned().collect()),
        None => None,
    }
}

/// The value is a text that says `name`.
pub open spec fn says(value: Option<Json>, name: Seq<char>) -> bool {
    value == Some(Json::Text(name))
}

/// The integer that a field holds, or zero.
pub open spec fn integer_or_zero(value: Option<Json>) -> i64 {
    match value {
        Some(Json::Number { integer: Some(n), double }) => n,
        _ => 0,
    }
}

/// The first of the outputs with this name.
pub open spec fn output_named(outputs: Seq<Json>, name: Seq<char>) -> Option<Json>
    decreases outputs.len(),
{
    if outputs.len() == 0 {
        None
    } else if says(field(outputs.first(), "name"@), name) {
        Some(outputs.first())
    } else {
        output_named(outputs.skip(1), name)
    }
}

fn has_name(output: &serde_json::Value, name: &str) -> (r: bool)
    ensures
        r == says(field(json_contents(*output), "name"@), name@),
{
    match json_field(output, "name") {
        Some(value) => match json_text(value) {
            Some(t) => text::same(t, name),
            None => false,
        },
        None => false,
    }
}

fn find_output<'a>(outputs: &'a Vec<serde_json::Value>, name: &str) -> (r: Option<
    &'a serde_json::Value,
>)
    ensures
        match r {
            Some(output) => output_named(items_of(outputs@), name@) == Some(json_contents(*output)),
            None => output_named(items_of(outputs@), name@) is None,
        },
{
    let ghost items = items_of(outputs@);
    let mut i: usize = 0;
    assert(items.skip(0) =~= items);
    while i < outputs.len()
        invariant
            i <= outputs@.len(),
            items == items_of(outputs@),
            output_named(items, name@) == output_named(items.skip(i as int), name@),
        decreases outputs@.len() - i,
    {
        assert(items.skip(i as int).first() == json_contents(outputs@[i as int]));
        assert(items.skip(i as int).skip(1) =~= items.skip(i + 1));
        if has_name(&outputs[i], name) {
            return Some(&outputs[i]);
        }
        i += 1;
    }
    None
}

fn integer_field(value: &serde_json::Value, key: &str) -> (r: i64)
    ensures
        r == integer_or_zero(field(json_contents(*value), key@)),
{
    match json_field(value, key) {
        Some(found) => match json_integer(found) {
            Some(n) => n,
            None => 0,
        },
        None => 0,
    }
}

/// The outputs in a report of niri: an array, or the values of an object.
pub open spec fn niri_outputs(document: Json) -> Option<Seq<Json>> {
    match document {
        Json::Array(items) => Some(items),
        Json::Object(fields) => Some(values_of(fields)),
        _ => None,
    }
}

/// The logical size of an output, in a report of niri.
pub open spec fn niri_size(document: Json, name: Seq<char>) -> Result<(i64, i64), Seq<char>> {
    match niri_outputs(document) {
        None => Err("Unexpected niri outputs shape"@),
        Some(outputs) => match output_named(outputs, name) {
            None => Err("Niri output "@ + name + " not found"@),
            Some(output) => match field(output, "logical"@) {
                Some(Json::Object(logical)) => Ok(
                    (
                        integer_or_zero(first_field(logical, "width"@)),
                        integer_or_zero(first_field(logical, "height"@)),
                    ),
                ),
                _ => Err("Missing niri logical size"@),
            },
        },
    }
}

/// A result, by the characters of its error.
pub open spec fn told<T>(r: Result<T, String>) -> Result<T, Seq<char>> {
    match r {
        Ok(value) => Ok(value),
        Err(e) => Err(e@),
    }
}

/// The logical size of an output, in a report of niri that has been parsed.
pub fn niri_logical_size(document: &serde_json::Value, name: &str) -> (r: Result<
    (i64, i64),
    String,
>)
    ensures
        told(r) == niri_size(json_contents(*document), name@),
{
    let found: Option<Result<(i64, i64), String>> = match json_array(document) {
        Some(outputs) => Some(niri_size_among(outputs, name)),
        None => match json_values(document) {
            Some(outputs) => Some(niri_size_among(&outputs, name)),
            None => None,
        },
    };
    match found {
        Some(result) => result,
        None => Err("Unexpected niri outputs shape".to_string()),
    }
}

fn niri_size_among(outputs: &Vec<serde_json::Value>, name: &str) -> (r: Result<(i64, i64), String>)
    ensures
        told(r) == niri_size(Json::Array(items_of(outputs@)), name@),
{
    let output: &serde_json::Value = match find_output(outputs, name) {
        Some(output) => output,
        None => {
            return Err(text::concat3("Niri output ", name, " not found"));
        },
    };
    match json_field(output, "logical") {
        Some(logical) => if json_is_object(logical) {
            Ok((integer_field(logical, "width"), integer_field(logical, "height")))
        } else {
            Err("Missing niri logical size".to_string())
        },
        None => Err("Missing niri logical size".to_string()),
    }
}

/// The logical size of an output, with what `niri msg --json outputs` came to.
pub fn niri_output_logical_size(name: &str, outcome: &Result<CommandOutput, String>) -> (r: Result<
    (i64, i64),
    String,
>)
    ensures
        told(r) == (match *outcome {
            Err(err) => Err::<(i64, i64), Seq<char>>("Failed to run niri msg: "@ + err@),
            Ok(output) => if !output.success {
                Err(output_text(output.stderr@))
            } else {
                match json_document(output.stdout@) {
                    Err(err) => Err("Invalid niri JSON: "@ + err),
                    Ok(document) => niri_size(document, name@),
                }
            },
        }),
{
    match outcome {
        Err(err) => Err(text::concat2("Failed to run niri msg: ", err.as_str())),
        Ok(output) => {
            if !output.success {
                return Err(trimmed_output(&output.stderr));
            }
            match parse_json(output.stdout.as_slice()) {
                Err(err) => Err(text::concat2("Invalid niri JSON: ", err.as_str())),
                Ok(document) => niri_logical_size(&document, name),
            }
        },
    }
}

/// The size of an output in pixels, and its scale where the report tells it.
#[derive(Debug, Clone, Copy, PartialEq, Eq, Structural)]
pub struct KdeOutput {
    pub width: i64,
    pub height: i64,
    pub scale: Option<Real>,
}

/// The size and scale of an output, in a report of KDE.
pub open spec fn kde_size(document: Json, name: Seq<char>) -> Result<KdeOutput, Seq<char>> {
    match field(document, "outputs"@) {
        Some(Json::Array(outputs)) => match output_named(outputs, name) {
            None => Err("KDE output "@ + name + " not found"@),
            Some(output) => match field(output, "size"@) {
                Some(Json::Object(size)) => Ok(
                    KdeOutput {
                        width: integer_or_zero(first_field(size, "width"@)),
                        height: integer_or_zero(first_field(size, "height"@)),
                        scale: match field(output, "scale"@) {
                            Some(Json::Number { integer, double: Some(bits) }) => Some(Real { bits }),
                            _ => None,
                        },
                    },
                ),
                _ => Err("Missing KDE output size"@),
            },
        },
        _ => Err("Missing KDE outputs array"@),
    }
}

/// The size and scale of an output, in a report of KDE that has been parsed.
pub fn kde_pixel_size(document: &serde_json::Value, name: &str) -> (r: Result<KdeOutput, String>)
    ensures
        told(r) == kde_size(json_contents(*document), name@),
{
    let outputs: &Vec<serde_json::Value> = match json_field(document, "outputs") {
        Some(value) => match json_array(value) {
            Some(outputs) => outputs,
            None => {
                return Err("Missing KDE outputs array".to_string());
            },
        },
        None => {
            return Err("Missing KDE outputs array".to_string());
        },
    };
    let output: &serde_json::Value = match find_output(outputs, name) {
        Some(output) => output,
        None => {
            return Err(text::concat3("KDE output ", name, " not found"));
        },
    };
    let scale: Option<Real> = match json_field(output, "scale") {
        Some(value) => match json_real(value) {
            Some(bits) => Some(Real { bits }),
            None => None,
        },
        None => None,
    };
    match json_field(output, "size") {
        Some(size) => if json_is_object(size) {
            Ok(
                KdeOutput {
                    width: integer_field(size, "width"),
                    height: integer_field(size, "height"),
                    scale,
                },
            )
        } else {
            Err("Missing KDE output size".to_string())
        },
        None => Err("Missing KDE output size".to_string()),
    }
}

/// The size and scale of an output, with what `kscreen-doctor -j` came to. The logical size is
/// the size divided by the scale, rounded.
pub fn kde_output_logical_size(
    name: &str,
    env: &GuiEnvironment,
    outcome: &Result<CommandOutput, String>,
) -> (r: Result<KdeOutput, String>)
    ensures
        told(r) == (if !gui_ready(*env) {
            Err::<KdeOutput, Seq<char>>(
                "KDE display query"@
                    + " requires XDG_RUNTIME_DIR and either WAYLAND_DISPLAY or DISPLAY"@,
            )
        } else {
            match *outcome {
                Err(err) => Err("Failed to run kscreen-doctor: "@ + err@),
                Ok(output) => if !output.success {
                    Err(output_text(output.stderr@))
                } else {
                    match json_document(output.stdout@) {
                        Err(err) => Err("Invalid kscreen JSON: "@ + err),
                        Ok(document) => kde_size(document, name@),
                    }
                },
            }
        }),
{
    match ensure_gui_session_env("KDE display query", env) {
        Ok(()) => {},
        Err(e) => {
            return Err(e);
        },
    }
    match outcome {
        Err(err) => Err(text::concat2("Failed to run kscreen-doctor: ", err.as_str())),
        Ok(output) => {
            if !output.success {
                return Err(trimmed_output(&output.stderr));
            }
            match parse_json(output.stdout.as_slice()) {
                Err(err) => Err(text::concat2("Invalid kscreen JSON: ", err.as_str())),
                Ok(document) => kde_pixel_size(&document, name),
            }
        },
    }
}

/// The value of a field is that of the first one with its key.
pub proof fn law_field_is_the_first_with_its_key(
    fields: Seq<(Seq<char>, Json)>,
    key: Seq<char>,
    at: int,
)
    requires
        0 <= at < fields.len(),
        fields[at].0 == key,
        forall|j: int| 0 <= j < at ==> (#[trigger] fields[j]).0 != key,
    ensures
        field(Json::Object(fields), key) == Some(fields[at].1),
        first_field(fields, key) == Some(fields[at].1),
    decreases fields.len(),
{
    if at > 0 {
        assert(fields[0].0 != key);
        let rest = fields.skip(1);
        assert(rest[at - 1] == fields[at]);
        assert forall|j: int| 0 <= j < at - 1 implies (#[trigger] rest[j]).0 != key by {
            assert(rest[j] == fields[j + 1]);
        }
        law_field_is_the_first_with_its_key(rest, key, at - 1);
    }
}

/// Only an object has fields, and only those that it holds.
pub proof fn law_missing_field_is_missing(
    fields: Seq<(Seq<char>, Json)>,
    key: Seq<char>,
    value: Json,
)
    requires
        forall|j: int| 0 <= j < fields.len() ==> (#[trigger] fields[j]).0 != key,
    ensures
        field(Json::Object(fields), key) is None,
        first_field(fields, key) is None,
        !(value is Object) ==> field(value, key) is None,
    decreases fields.len(),
{
    if fields.len() > 0 {
        assert(fields[0].0 != key);
        let rest = fields.skip(1);
        assert forall|j: int| 0 <= j < rest.len() implies (#[trigger] rest[j]).0 != key by {
            assert(rest[j] == fields[j + 1]);
        }
        law_missing_field_is_missing(rest, key, value);
    }
}

/// An output is the first one whose name is the one that is sought.
pub proof fn law_output_is_the_first_with_its_name(
    outputs: Seq<Json>,
    name: Seq<char>,
    at: int,
)
    requires
        0 <= at < outputs.len(),
        field(outputs[at], "name"@) == Some(Json::Text(name)),
        forall|j: int|
            0 <= j < at ==> field(#[trigger] outputs[j], "name"@) != Some(Json::Text(name)),
    ensures
        output_named(outputs, name) == Some(outputs[at]),
    decreases outputs.len(),
{
    if at > 0 {
        assert(field(outputs[0], "name"@) != Some(Json::Text(name)));
        let rest = outputs.skip(1);
        assert(rest[at - 1] == outputs[at]);
        assert forall|j: int| 0 <= j < at - 1 implies field(#[trigger] rest[j], "name"@) != Some(
            Json::Text(name),
        ) by {
            assert(rest[j] == outputs[j + 1]);
        }
        law_output_is_the_first_with_its_name(rest, name, at - 1);
    }
}

/// An output that is not there is not found.
pub proof fn law_missing_output_is_missing(outputs: Seq<Json>, name: Seq<char>)
    requires
        forall|j: int|
            0 <= j < outputs.len() ==> field(#[trigger] outputs[j], "name"@) != Some(
                Json::Text(name),
            ),
    ensures
        output_named(outputs, name) is None,
    decreases outputs.len(),
{
    if outputs.len() > 0 {
        assert(field(outputs[0], "name"@) != Some(Json::Text(name)));
        let rest = outputs.skip(1);
        assert forall|j: int| 0 <= j < rest.len() implies field(#[trigger] rest[j], "name"@)
            != Some(Json::Text(name)) by {
            assert(rest[j] == outputs[j + 1]);
        }
        law_missing_output_is_missing(rest, name);
    }
}

/// The size that niri reports of an output is its logical width and height, in that order; a
/// number that is missing or is no integer counts as zero.
pub proof fn law_niri_reports_logical_sizes(
    document: serde_json::Value,
    name: &str,
    r: Result<(i64, i64), String>,
    outputs: Seq<Json>,
    output: Json,
    logical: Json,
)
    requires
        call_ensures(niri_logical_size, (&document, name), r),
        json_contents(document) == Json::Array(outputs),
        output_named(outputs, name@) == Some(output),
        field(output, "logical"@) == Some(logical),
    ensures
        r is Ok <==> logical is Object,
        r matches Ok((width, height)) ==> {
            &&& field(logical, "width"@) matches Some(Json::Number { integer: Some(n), double }) ==> n
                == width
            &&& field(logical, "height"@) matches Some(Json::Number { integer: Some(n), double })
                ==> n == height
            &&& field(logical, "width"@) is None ==> width == 0
            &&& field(logical, "height"@) is None ==> height == 0
        },
        r matches Err(e) ==> e@ == "Missing niri logical size"@,
{
}

/// A report of niri may be an object too, whose values are the outputs.
pub proof fn law_niri_reports_are_arrays_or_objects(
    document: Json,
    fields: Seq<(Seq<char>, Json)>,
    name: Seq<char>,
    i: int,
)
    requires
        0 <= i < fields.len(),
    ensures
        niri_size(Json::Object(fields), name) == niri_size(Json::Array(values_of(fields)), name),
        values_of(fields).len() == fields.len(),
        values_of(fields)[i] == fields[i].1,
        !(document is Array) && !(document is Object) ==> niri_size(document, name) == Err::<
            (i64, i64),
            Seq<char>,
        >("Unexpected niri outputs shape"@),
        document matches Json::Array(outputs) ==> (output_named(outputs, name) is None ==> niri_size(
            document,
            name,
        ) == Err::<(i64, i64), Seq<char>>("Niri output "@ + name + " not found"@)),
{
}

/// A report of niri is read exactly where the program ran, succeeded and wrote JSON.
pub proof fn law_niri_must_write_json(
    name: &str,
    outcome: Result<CommandOutput, String>,
    r: Result<(i64, i64), String>,
)
    requires
        call_ensures(niri_output_logical_size, (name, &outcome), r),
    ensures
        outcome matches Err(err) ==> r is Err && r->Err_0@ == "Failed to run niri msg: "@ + err@,
        outcome matches Ok(output) ==> (!output.success ==> r is Err && r->Err_0@ == text::trimmed(
            text::lossy(output.stderr@),
        )),
        outcome matches Ok(output) ==> (output.success ==> match json_document(output.stdout@) {
            Err(err) => r is Err && r->Err_0@ == "Invalid niri JSON: "@ + err,
            Ok(document) => told(r) == niri_size(document, name@),
        }),
{
}

/// The size that KDE reports of an output is its width and height in pixels, in that order, with
/// its scale where that is a number.
pub proof fn law_kde_reports_pixel_sizes(
    document: serde_json::Value,
    name: &str,
    r: Result<KdeOutput, String>,
    outputs: Seq<Json>,
    output: Json,
    size: Json,
)
    requires
        call_ensures(kde_pixel_size, (&document, name), r),
        field(json_contents(document), "outputs"@) == Some(Json::Array(outputs)),
        output_named(outputs, name@) == Some(output),
        field(output, "size"@) == Some(size),
    ensures
        r is Ok <==> size is Object,
        r matches Ok(read) ==> {
            &&& field(size, "width"@) matches Some(Json::Number { integer: Some(n), double }) ==> n
                == read.width
            &&& field(size, "height"@) matches Some(Json::Number { integer: Some(n), double }) ==> n
                == read.height
            &&& field(size, "width"@) is None ==> read.width == 0
            &&& field(size, "height"@) is None ==> read.height == 0
            &&& field(output, "scale"@) matches Some(Json::Number { integer, double: Some(bits) })
                ==> read.scale == Some(Real { bits })
            &&& field(output, "scale"@) is None ==> read.scale is None
        },
        r matches Err(e) ==> e@ == "Missing KDE output size"@,
{
}

/// A report of KDE without the list of outputs, or without the output, is told apart.
pub proof fn law_kde_reports_must_list_the_output(
    document: serde_json::Value,
    name: &str,
    r: Result<KdeOutput, String>,
)
    requires
        call_ensures(kde_pixel_size, (&document, name), r),
    ensures
        !(field(json_contents(document), "outputs"@) matches Some(outputs) && outputs is Array)
            ==> r is Err && r->Err_0@ == "Missing KDE outputs array"@,
        field(json_contents(document), "outputs"@) matches Some(Json::Array(outputs)) ==> (
        output_named(outputs, name@) is None ==> r is Err && r->Err_0@ == "KDE output "@ + name@
            + " not found"@),
{
}

/// A report of KDE is read exactly where a graphical session can be reached and the program ran,
/// succeeded and wrote JSON.
pub proof fn law_kde_must_write_json(
    name: &str,
    env: GuiEnvironment,
    outcome: Result<CommandOutput, String>,
    r: Result<KdeOutput, String>,
)
    requires
        call_ensures(kde_output_logical_size, (name, &env, &outcome), r),
    ensures
        ({
            let reachable = env.xdg_runtime_dir && (env.wayland_display || env.display);
            &&& !reachable ==> r is Err && r->Err_0@ == "KDE display query"@
                + " requires XDG_RUNTIME_DIR and either WAYLAND_DISPLAY or DISPLAY"@
            &&& reachable ==> (outcome matches Err(err) ==> r is Err && r->Err_0@
                == "Failed to run kscreen-doctor: "@ + err@)
            &&& reachable ==> (outcome matches Ok(output) ==> (!output.success ==> r is Err
                && r->Err_0@ == text::trimmed(text::lossy(output.stderr@))))
            &&& reachable ==> (outcome matches Ok(output) ==> (output.success ==> match json_document(
                output.stdout@,
            ) {
                Err(err) => r is Err && r->Err_0@ == "Invalid kscreen JSON: "@ + err,
                Ok(document) => told(r) == kde_size(document, name@),
            }))
        }),
{
}

}
