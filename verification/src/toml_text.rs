//! The texts of TOML documents.
use vstd::prelude::*;

use crate::config_loader::{TomlModel, TomlValue};
use crate::named;

verus! {

/// The value of a document as the `toml` crate holds it.
#[verifier::external_type_specification]
#[verifier::external_body]
pub struct ExTomlValue(toml::Value);

/// What a value of the `toml` crate holds: a float by the bits of its binary64 form, a date by its
/// text, a table by its members in the order in which they are walked.
pub uninterp spec fn toml_contents(value: toml::Value) -> TomlModel;

/// What the text of a document holds, or why it is no document.
pub uninterp spec fn toml_document(contents: Seq<char>) -> Result<TomlModel, Seq<char>>;

/// One level of a value: what an array or a table holds is still the `toml` crate's.
enum TomlLevel {
    Text(String),
    Integer(i64),
    FloatBits(u64),
    Boolean(bool),
    Datetime(String),
    Array(Vec<toml::Value>),
    Table(Vec<(String, toml::Value)>),
}

/// Whether `level` is the outermost level of a value.
spec fn is_level_of(level: TomlLevel, contents: TomlModel) -> bool {
    match level {
        TomlLevel::Text(s) => contents == TomlModel::Text(s@),
        TomlLevel::Integer(i) => contents == TomlModel::Integer(i),
        TomlLevel::FloatBits(bits) => contents == TomlModel::FloatBits(bits),
        TomlLevel::Boolean(b) => contents == TomlModel::Boolean(b),
        TomlLevel::Datetime(d) => contents == TomlModel::Datetime(d@),
        TomlLevel::Array(items) => {
            &&& contents matches TomlModel::Array(all)
            &&& all.len() == items@.len()
            &&& forall|i: int| 0 <= i < all.len() ==> all[i] == toml_contents(#[trigger] items@[i])
        },
        TomlLevel::Table(members) => {
            &&& contents matches TomlModel::Table(all)
            &&& all.len() == members@.len()
            &&& forall|i: int|
                0 <= i < all.len() ==> all[i] == (
                    (#[trigger] members@[i]).0@,
                    toml_contents(members@[i].1),
                )
            &&& named::unique(members@)
        },
    }
}

/// Tells the variants of `toml::Value` apart and hands out what each holds. A table is a map from
/// names, so no two of its members have one name.
#[verifier::external_body]
fn open_level(value: toml::Value) -> (r: TomlLevel)
    ensures
        is_level_of(r, toml_contents(value)),
{
    match value {
        toml::Value::String(s) => TomlLevel::Text(s),
        toml::Value::Integer(i) => TomlLevel::Integer(i),
        toml::Value::Float(f) => TomlLevel::FloatBits(f.to_bits()),
        toml::Value::Boolean(b) => TomlLevel::Boolean(b),
        toml::Value::Datetime(d) => TomlLevel::Datetime(d.to_string()),
        toml::Value::Array(items) => TomlLevel::Array(items),
        toml::Value::Table(table) => TomlLevel::Table(table.into_iter().collect()),
    }
}

/// `toml::from_str` reads a document. Whether the text is one, what it holds and, where it is none,
/// the message of the error depend on the text alone; which documents there are is left unsaid.
#[verifier::external_body]
fn read_document(contents: &str) -> (r: Result<toml::Value, String>)
    ensures
        match r {
            Ok(value) => toml_document(contents@) == Ok::<TomlModel, Seq<char>>(
                toml_contents(value),
            ),
            Err(why) => toml_document(contents@) == Err::<TomlModel, Seq<char>>(why@),
        },
{
    toml::from_str::<toml::Value>(contents).map_err(|e| e.to_string())
}

/// A value of the `toml` crate as this library holds it.
fn convert(value: toml::Value) -> (r: TomlValue)
    ensures
        r@ == toml_contents(value),
        r.wf(),
    decreases toml_contents(value),
{
    let ghost contents = toml_contents(value);
    match open_level(value) {
        TomlLevel::Text(s) => TomlValue::Text(s),
        TomlLevel::Integer(i) => TomlValue::Integer(i),
        TomlLevel::FloatBits(bits) => TomlValue::FloatBits(bits),
        TomlLevel::Boolean(b) => TomlValue::Boolean(b),
        TomlLevel::Datetime(d) => TomlValue::Datetime(d),
        TomlLevel::Array(items) => {
            let ghost all = items@;
            let ghost models = contents->Array_0;
            let mut rest = items;
            let mut out: Vec<TomlValue> = Vec::new();
            let mut i: usize = 0;
            let n: usize = rest.len();
            while i < n
                invariant
                    i <= n == all.len(),
                    contents == toml_contents(value),
                    contents == TomlModel::Array(models),
                    models.len() == all.len(),
                    forall|j: int|
                        0 <= j < all.len() ==> models[j] == toml_contents(#[trigger] all[j]),
                    rest@ == all.skip(i as int),
                    out@.len() == i,
                    forall|j: int| 0 <= j < i ==> (#[trigger] out@[j]).model() == models[j],
                decreases n - i,
            {
                let item = rest.remove(0);
                proof {
                    assert(item == all[i as int]);
                    assert(decreases_to!(contents => contents->Array_0));
                    assert(decreases_to!(models => models[i as int]));
                }
                out.push(convert(item));
                assert(rest@ =~= all.skip(i + 1));
                i += 1;
            }
            let r = TomlValue::Array(out);
            assert(r.model()->Array_0 =~= models);
            r
        },
        TomlLevel::Table(members) => {
            let ghost all = members@;
            let ghost models = contents->Table_0;
            let mut rest = members;
            let mut out: Vec<(String, TomlValue)> = Vec::new();
            let mut i: usize = 0;
            let n: usize = rest.len();
            while i < n
                invariant
                    i <= n == all.len(),
                    contents == toml_contents(value),
                    contents == TomlModel::Table(models),
                    models.len() == all.len(),
                    forall|j: int|
                        0 <= j < all.len() ==> models[j] == (
                            (#[trigger] all[j]).0@,
                            toml_contents(all[j].1),
                        ),
                    rest@ == all.skip(i as int),
                    out@.len() == i,
                    forall|j: int|
                        0 <= j < i ==> (#[trigger] out@[j]).0 == all[j].0 && out@[j].1.wf()
                            && out@[j].1.model() == models[j].1,
                decreases n - i,
            {
                let (name, member) = rest.remove(0);
                proof {
                    assert((name, member) == all[i as int]);
                    assert(decreases_to!(contents => contents->Table_0));
                    assert(decreases_to!(models => models[i as int]));
                    assert(decreases_to!(models[i as int] => models[i as int].1));
                }
                out.push((name, convert(member)));
                assert(rest@ =~= all.skip(i + 1));
                i += 1;
            }
            assert forall|x: int, y: int| 0 <= x < y < out@.len() implies (#[trigger] out@[x]).0@
                != (#[trigger] out@[y]).0@ by {
                assert(all[x].0@ != all[y].0@);
            }
            let r = TomlValue::Table(out);
            assert(r.model()->Table_0 =~= models);
            r
        },
    }
}

/// The value of a document, or why the text is no document.
pub fn parse_toml(contents: &str) -> (r: Result<TomlValue, String>)
    ensures
        match toml_document(contents@) {
            Ok(document) => r matches Ok(value) && value@ == document && value.wf(),
            Err(why) => r matches Err(message) && message@ == why,
        },
{
    match read_document(contents) {
        Ok(value) => Ok(convert(value)),
        Err(why) => Err(why),
    }
}

} // verus!
