//! The layers of the configuration: the user's `config.toml`, below what is managed for them.
use vstd::prelude::*;

use crate::named;
use crate::path;
use crate::toml_text::{parse_toml, toml_document};

verus! {

/// A TOML value. A float is held by the bits of its binary64 form, a date by its text, a table by
/// its members.
#[derive(Debug, PartialEq, Eq)]
pub enum TomlValue {
    Text(String),
    Integer(i64),
    FloatBits(u64),
    Boolean(bool),
    Datetime(String),
    Array(Vec<TomlValue>),
    Table(Vec<(String, TomlValue)>),
}

/// A TOML value over characters.
pub enum TomlModel {
    Text(Seq<char>),
    Integer(i64),
    FloatBits(u64),
    Boolean(bool),
    Datetime(Seq<char>),
    Array(Seq<TomlModel>),
    Table(Seq<(Seq<char>, TomlModel)>),
}

impl View for TomlValue {
    type V = TomlModel;

    open spec fn view(&self) -> TomlModel {
        self.model()
    }
}

impl TomlValue {
    /// The value over characters.
    pub open spec fn model(self) -> TomlModel
        decreases self,
    {
        match self {
            TomlValue::Text(s) => TomlModel::Text(s@),
            TomlValue::Integer(i) => TomlModel::Integer(i),
            TomlValue::FloatBits(bits) => TomlModel::FloatBits(bits),
            TomlValue::Boolean(b) => TomlModel::Boolean(b),
            TomlValue::Datetime(d) => TomlModel::Datetime(d@),
            TomlValue::Array(items) => TomlModel::Array(
                Seq::new(
                    items@.len(),
                    |i: int|
                        if 0 <= i < items@.len() {
                            items@[i].model()
                        } else {
                            arbitrary()
                        },
                ),
            ),
            TomlValue::Table(members) => TomlModel::Table(
                Seq::new(
                    members@.len(),
                    |i: int|
                        if 0 <= i < members@.len() {
                            (members@[i].0@, members@[i].1.model())
                        } else {
                            arbitrary()
                        },
                ),
            ),
        }
    }

    /// Whether no table, at any depth outside of arrays, has two members of one name.
    pub open spec fn wf(self) -> bool
        decreases self,
    {
        match self {
            TomlValue::Table(members) => {
                &&& named::unique(members@)
                &&& forall|i: int| 0 <= i < members@.len() ==> (#[trigger] members@[i]).1.wf()
            },
            _ => true,
        }
    }

    /// The value at a path of names.
    pub open spec fn at(self, names: Seq<Seq<char>>) -> Option<TomlValue>
        decreases names.len(),
    {
        if names.len() == 0 {
            Some(self)
        } else {
            match self {
                TomlValue::Table(members) => match named::lookup(members@, names[0]) {
                    Some(v) => v.at(names.skip(1)),
                    None => None,
                },
                _ => None,
            }
        }
    }
}

/// The members of `overlay` whose names `base` does not have, in order.
pub open spec fn absent_members(
    overlay: Seq<(String, TomlValue)>,
    base: Seq<(String, TomlValue)>,
) -> Seq<(String, TomlValue)>
    decreases overlay.len(),
{
    if overlay.len() == 0 {
        Seq::empty()
    } else {
        let before = absent_members(overlay.drop_last(), base);
        if named::lookup(base, overlay.last().0@) is Some {
            before
        } else {
            before.push(overlay.last())
        }
    }
}

/// Whether `r` is `base` with `overlay` merged into it: two tables are merged member by member,
/// what only one of them has stays as it is; anything else is replaced by the overlay.
pub open spec fn is_merge(base: TomlValue, overlay: TomlValue, r: TomlValue) -> bool
    decreases base,
{
    match (base, overlay) {
        (TomlValue::Table(b), TomlValue::Table(o)) => {
            &&& r matches TomlValue::Table(m)
            &&& m@.len() == b@.len() + absent_members(o@, b@).len()
            &&& forall|i: int|
                #![trigger m@[i]]
                0 <= i < b@.len() ==> m@[i].0 == b@[i].0 && match named::lookup(o@, b@[i].0@) {
                    Some(v) => is_merge(b@[i].1, v, m@[i].1),
                    None => m@[i].1 == b@[i].1,
                }
            &&& forall|j: int|
                #![trigger absent_members(o@, b@)[j]]
                0 <= j < absent_members(o@, b@).len() ==> m@[b@.len() + j] == absent_members(
                    o@,
                    b@,
                )[j]
        },
        _ => r == overlay,
    }
}

/// A name that is looked up in a list without the members that another list has.
proof fn lemma_absent_lookup(
    overlay: Seq<(String, TomlValue)>,
    base: Seq<(String, TomlValue)>,
    name: Seq<char>,
)
    requires
        named::unique(overlay),
    ensures
        named::unique(absent_members(overlay, base)),
        named::lookup(base, name) is Some ==> named::lookup(absent_members(overlay, base), name) is None,
        named::lookup(base, name) is None ==> named::lookup(absent_members(overlay, base), name)
            == named::lookup(overlay, name),
        forall|i: int|
            0 <= i < absent_members(overlay, base).len() ==> overlay.contains(
                #[trigger] absent_members(overlay, base)[i],
            ),
    decreases overlay.len(),
{
    let all = absent_members(overlay, base);
    if overlay.len() == 0 {
        named::lemma_position_is(all, name, 0);
        named::lemma_position_is(overlay, name, 0);
    } else {
        let front = overlay.drop_last();
        let last = overlay.last();
        assert forall|i: int, j: int| 0 <= i < j < front.len() implies (#[trigger] front[i]).0@ != (
        #[trigger] front[j]).0@ by {
            assert(front[i] == overlay[i] && front[j] == overlay[j]);
        }
        lemma_absent_lookup(front, base, name);
        let before = absent_members(front, base);
        assert forall|i: int| 0 <= i < all.len() implies overlay.contains(#[trigger] all[i]) by {
            if i < before.len() {
                assert(all[i] == before[i]);
                let j = choose|j: int| 0 <= j < front.len() && front[j] == before[i];
                assert(overlay[j] == all[i]);
            } else {
                assert(overlay[overlay.len() - 1] == all[i]);
            }
        }
        if named::lookup(base, last.0@) is None {
            assert forall|i: int, j: int| 0 <= i < j < all.len() implies (#[trigger] all[i]).0@ != (
            #[trigger] all[j]).0@ by {
                if j < before.len() {
                    assert(all[i] == before[i] && all[j] == before[j]);
                } else {
                    assert(all[i] == before[i]);
                    let k = choose|k: int| 0 <= k < front.len() && front[k] == before[i];
                    assert(overlay[k] == before[i]);
                    assert(overlay[k].0@ != overlay[overlay.len() - 1].0@);
                }
            }
            lemma_lookup_push(before, last, name);
        }
        assert(front.push(last) =~= overlay);
        lemma_lookup_push(front, last, name);
    }
}

/// A name that is looked up in a list with one more member.
proof fn lemma_lookup_push(
    list: Seq<(String, TomlValue)>,
    last: (String, TomlValue),
    name: Seq<char>,
)
    ensures
        named::lookup(list.push(last), name) == if named::lookup(list, name) is Some {
            named::lookup(list, name)
        } else if last.0@ == name {
            Some(last.1)
        } else {
            None
        },
{
    named::lemma_position(list, name);
    let p = named::position(list, name) as int;
    let longer = list.push(last);
    if p < list.len() {
        assert forall|i: int| 0 <= i < p implies (#[trigger] longer[i]).0@ != name by {
            assert(longer[i] == list[i]);
        }
        named::lemma_position_is(longer, name, p);
    } else {
        assert forall|i: int| 0 <= i < list.len() implies (#[trigger] longer[i]).0@ != name by {
            assert(longer[i] == list[i]);
        }
        if last.0@ == name {
            named::lemma_position_is(longer, name, list.len() as int);
        } else {
            named::lemma_position_is(longer, name, longer.len() as int);
        }
    }
}

/// Taking one more member into account removes from the absent ones the member of its name.
proof fn lemma_absent_grows(
    overlay: Seq<(String, TomlValue)>,
    base: Seq<(String, TomlValue)>,
    next: (String, TomlValue),
)
    requires
        named::unique(overlay),
        named::lookup(base, next.0@) is None,
    ensures
        ({
            let now = absent_members(overlay, base);
            let k = named::position(now, next.0@) as int;
            absent_members(overlay, base.push(next)) == if k < now.len() {
                now.remove(k)
            } else {
                now
            }
        }),
    decreases overlay.len(),
{
    let name = next.0@;
    let now = absent_members(overlay, base);
    let then = absent_members(overlay, base.push(next));
    if overlay.len() == 0 {
        named::lemma_position_is(now, name, 0);
    } else {
        let front = overlay.drop_last();
        let last = overlay.last();
        assert forall|i: int, j: int| 0 <= i < j < front.len() implies (#[trigger] front[i]).0@ != (
        #[trigger] front[j]).0@ by {
            assert(front[i] == overlay[i] && front[j] == overlay[j]);
        }
        lemma_absent_grows(front, base, next);
        let before = absent_members(front, base);
        let before_then = absent_members(front, base.push(next));
        named::lemma_position(before, name);
        named::lemma_position(now, name);
        let k = named::position(before, name) as int;
        lemma_lookup_push(base, next, last.0@);
        lemma_absent_lookup(front, base, name);
        lemma_absent_lookup(overlay, base, name);
        if named::lookup(base, last.0@) is Some {
            assert(now == before);
        } else {
            assert(now == before.push(last));
            if last.0@ == name {
                assert(k == before.len()) by {
                    if k < before.len() {
                        assert(front.contains(before[k]));
                        let j = choose|j: int| 0 <= j < front.len() && front[j] == before[k];
                        assert(overlay[j].0@ != overlay[overlay.len() - 1].0@);
                    }
                }
                assert forall|i: int| 0 <= i < before.len() implies (#[trigger] now[i]).0@ != name by {
                    assert(now[i] == before[i]);
                }
                named::lemma_position_is(now, name, before.len() as int);
                assert(then == before_then);
                assert(now.remove(before.len() as int) =~= before);
            } else {
                assert(then == before_then.push(last));
                if k < before.len() {
                    assert forall|i: int| 0 <= i < k implies (#[trigger] now[i]).0@ != name by {
                        assert(now[i] == before[i]);
                    }
                    assert(now[k] == before[k]);
                    named::lemma_position_is(now, name, k);
                    assert(now.remove(k) =~= before.remove(k).push(last));
                } else {
                    assert forall|i: int| 0 <= i < now.len() implies (#[trigger] now[i]).0@
                        != name by {
                        if i < before.len() {
                            assert(now[i] == before[i]);
                        }
                    }
                    named::lemma_position_is(now, name, now.len() as int);
                }
            }
        }
    }
}

/// Merges `overlay` into `base`, giving `overlay` precedence.
pub fn merge_toml_values(base: TomlValue, overlay: TomlValue) -> (r: TomlValue)
    requires
        base.wf(),
        overlay.wf(),
    ensures
        is_merge(base, overlay, r),
        r.wf(),
    decreases base,
{
    match (base, overlay) {
        (TomlValue::Table(base_table), TomlValue::Table(overlay_table)) => {
            let ghost b = base_table@;
            let ghost o = overlay_table@;
            let mut rest = base_table;
            let mut pending = overlay_table;
            let mut out: Vec<(String, TomlValue)> = Vec::new();
            let n: usize = rest.len();
            let mut i: usize = 0;
            proof {
                assert(b.take(0) =~= Seq::empty());
                lemma_absent_of_nothing(o);
            }
            while i < n
                invariant
                    i <= n == b.len(),
                    base == TomlValue::Table(base_table),
                    b == base_table@,
                    base.wf(),
                    overlay.wf(),
                    overlay matches TomlValue::Table(t) && t@ == o,
                    rest@ == b.skip(i as int),
                    pending@ == absent_members(o, b.take(i as int)),
                    out@.len() == i,
                    forall|j: int|
                        #![trigger out@[j]]
                        0 <= j < i ==> out@[j].0 == b[j].0 && out@[j].1.wf() && match named::lookup(
                            o,
                            b[j].0@,
                        ) {
                            Some(v) => is_merge(b[j].1, v, out@[j].1),
                            None => out@[j].1 == b[j].1,
                        },
                decreases n - i,
            {
                let (name, existing) = rest.remove(0);
                proof {
                    assert((name, existing) == b[i as int]);
                    assert(b[i as int].1.wf());
                    assert(decreases_to!(base => base_table));
                    assert(decreases_to!(base_table => base_table@));
                    assert(decreases_to!(base_table@ => base_table@[i as int]));
                    assert(decreases_to!(base_table@[i as int] => base_table@[i as int].1));
                    lemma_prefix_lacks_next(b, i as int);
                    lemma_absent_lookup(o, b.take(i as int), name@);
                    lemma_absent_grows(o, b.take(i as int), b[i as int]);
                    assert(b.take(i + 1) =~= b.take(i as int).push(b[i as int]));
                }
                match named::find(&pending, name.as_str()) {
                    Some(k) => {
                        let ghost was = pending@;
                        let (_gone, value) = pending.remove(k);
                        proof {
                            assert(value == was[k as int].1);
                            assert(o.contains(was[k as int]));
                            let j = choose|j: int| 0 <= j < o.len() && o[j] == was[k as int];
                            assert(o[j].1.wf());
                        }
                        let merged = merge_toml_values(existing, value);
                        out.push((name, merged));
                    },
                    None => {
                        out.push((name, existing));
                    },
                }
                assert(rest@ =~= b.skip(i + 1));
                i += 1;
            }
            assert(b.take(i as int) =~= b);
            let ghost kept = out@;
            let ghost added = pending@;
            out.append(&mut pending);
            let r = TomlValue::Table(out);
            proof {
                assert forall|j: int| 0 <= j < out@.len() implies (#[trigger] out@[j]).1.wf() by {
                    if j < kept.len() {
                        assert(out@[j] == kept[j]);
                    } else {
                        assert(out@[j] == added[j - kept.len()]);
                        lemma_absent_lookup(o, b, Seq::empty());
                        assert(o.contains(added[j - kept.len()]));
                        let k = choose|k: int| 0 <= k < o.len() && o[k] == added[j - kept.len()];
                        assert(o[k].1.wf());
                    }
                }
                assert forall|x: int, y: int| 0 <= x < y < out@.len() implies (#[trigger] out@[x]).0@
                    != (#[trigger] out@[y]).0@ by {
                    if y < kept.len() {
                        assert(out@[x] == kept[x] && out@[y] == kept[y]);
                        assert(kept[x].0 == b[x].0 && kept[y].0 == b[y].0);
                    } else if x >= kept.len() {
                        lemma_absent_lookup(o, b, Seq::empty());
                        assert(out@[x] == added[x - kept.len()]);
                        assert(out@[y] == added[y - kept.len()]);
                    } else {
                        assert(out@[x] == kept[x]);
                        assert(kept[x].0 == b[x].0);
                        assert(out@[y] == added[y - kept.len()]);
                        let name = b[x].0@;
                        lemma_absent_lookup(o, b, name);
                        named::lemma_position(b, name);
                        named::lemma_position(added, name);
                    }
                }
                assert(named::unique(out@));
                assert forall|j: int|
                    #![trigger absent_members(o, b)[j]]
                    0 <= j < absent_members(o, b).len() implies out@[b.len() + j] == absent_members(
                    o,
                    b,
                )[j] by {
                    assert(out@[kept.len() + j] == added[j]);
                }
                assert forall|j: int|
                    #![trigger out@[j]]
                    0 <= j < b.len() implies out@[j].0 == b[j].0 && match named::lookup(
                    o,
                    b[j].0@,
                ) {
                    Some(v) => is_merge(b[j].1, v, out@[j].1),
                    None => out@[j].1 == b[j].1,
                } by {
                    assert(out@[j] == kept[j]);
                }
            }
            r
        },
        (_, overlay) => overlay,
    }
}

proof fn lemma_absent_of_nothing(o: Seq<(String, TomlValue)>)
    ensures
        absent_members(o, Seq::<(String, TomlValue)>::empty()) == o,
    decreases o.len(),
{
    let none = Seq::<(String, TomlValue)>::empty();
    if o.len() > 0 {
        lemma_absent_of_nothing(o.drop_last());
        named::lemma_position_is(none, o.last().0@, 0);
        assert(o.drop_last().push(o.last()) =~= o);
    }
}

/// In a list without repeated names, the name of a member does not stand before it.
proof fn lemma_prefix_lacks_next(b: Seq<(String, TomlValue)>, i: int)
    requires
        named::unique(b),
        0 <= i < b.len(),
    ensures
        named::lookup(b.take(i), b[i].0@) is None,
{
    let front = b.take(i);
    assert forall|j: int| 0 <= j < front.len() implies (#[trigger] front[j]).0@ != b[i].0@ by {
        assert(front[j] == b[j]);
    }
    named::lemma_position_is(front, b[i].0@, front.len() as int);
}

/// The layers of the configuration, the lowest first.
#[derive(Debug)]
pub struct LoadedConfigLayers {
    pub base: TomlValue,
    pub managed_config: Option<TomlValue>,
    pub managed_preferences: Option<TomlValue>,
}

impl LoadedConfigLayers {
    pub open spec fn wf(self) -> bool {
        &&& self.base.wf()
        &&& self.managed_config matches Some(v) ==> v.wf()
        &&& self.managed_preferences matches Some(v) ==> v.wf()
    }
}

/// Whether `r` is `base` with a layer merged into it, where there is one.
pub open spec fn is_layered(base: TomlValue, layer: Option<TomlValue>, r: TomlValue) -> bool {
    match layer {
        Some(overlay) => is_merge(base, overlay, r),
        None => r == base,
    }
}

/// The configuration that the layers amount to: managed preferences above the managed
/// configuration above the user's.
pub fn apply_managed_layers(layers: LoadedConfigLayers) -> (r: TomlValue)
    requires
        layers.wf(),
    ensures
        exists|middle: TomlValue|
            #[trigger] is_layered(layers.base, layers.managed_config, middle) && is_layered(
                middle,
                layers.managed_preferences,
                r,
            ),
        r.wf(),
{
    let middle = match layers.managed_config {
        Some(overlay) => merge_toml_values(layers.base, overlay),
        None => layers.base,
    };
    let ghost m = middle;
    assert(is_layered(layers.base, layers.managed_config, m));
    match layers.managed_preferences {
        Some(overlay) => merge_toml_values(middle, overlay),
        None => middle,
    }
}

/// What reading a file of the configuration came to.
#[derive(Debug)]
pub enum ConfigFile {
    Parsed(TomlValue),
    /// The file is there but is no TOML.
    Invalid(String),
    NotFound,
    Unreadable(String),
}

/// Why the configuration cannot be loaded.
#[derive(Debug, PartialEq, Eq)]
pub enum ConfigError {
    InvalidData(String),
    Io(String),
}

/// What the text of a file of the configuration comes to.
pub fn parse_config(contents: &str) -> (r: ConfigFile)
    ensures
        match toml_document(contents@) {
            Ok(document) => r matches ConfigFile::Parsed(value) && value@ == document && value.wf(),
            Err(why) => r matches ConfigFile::Invalid(message) && message@ == why,
        },
{
    match parse_toml(contents) {
        Ok(value) => ConfigFile::Parsed(value),
        Err(why) => ConfigFile::Invalid(why),
    }
}

/// What a file of the configuration holds: one that is not there holds nothing.
pub fn read_config_from_path(file: ConfigFile) -> (r: Result<Option<TomlValue>, ConfigError>)
    ensures
        r == match file {
            ConfigFile::Parsed(value) => Ok::<Option<TomlValue>, ConfigError>(Some(value)),
            ConfigFile::NotFound => Ok(None),
            ConfigFile::Invalid(why) => Err(ConfigError::InvalidData(why)),
            ConfigFile::Unreadable(why) => Err(ConfigError::Io(why)),
        },
{
    match file {
        ConfigFile::Parsed(value) => Ok(Some(value)),
        ConfigFile::Invalid(why) => Err(ConfigError::InvalidData(why)),
        ConfigFile::NotFound => Ok(None),
        ConfigFile::Unreadable(why) => Err(ConfigError::Io(why)),
    }
}

/// The value of a file, where it can be had.
pub open spec fn file_value(file: ConfigFile) -> Option<TomlValue> {
    match file {
        ConfigFile::Parsed(value) => Some(value),
        _ => None,
    }
}

/// The error of a file, where it has one.
pub open spec fn file_error(file: ConfigFile) -> Option<ConfigError> {
    match file {
        ConfigFile::Invalid(why) => Some(ConfigError::InvalidData(why)),
        ConfigFile::Unreadable(why) => Some(ConfigError::Io(why)),
        _ => None,
    }
}

/// The layers that the files and the managed preferences hold. Without a user's file the base is
/// an empty table; the first error, in this order, is the error of all.
pub fn load_config_layers(
    user_config: ConfigFile,
    managed_config: ConfigFile,
    managed_preferences: Result<Option<TomlValue>, String>,
) -> (r: Result<LoadedConfigLayers, ConfigError>)
    ensures
        match r {
            Ok(layers) => {
                &&& file_error(user_config) is None
                &&& file_error(managed_config) is None
                &&& managed_preferences == Ok::<Option<TomlValue>, String>(
                    layers.managed_preferences,
                )
                &&& layers.managed_config == file_value(managed_config)
                &&& match file_value(user_config) {
                    Some(value) => layers.base == value,
                    None => layers.base matches TomlValue::Table(t) && t@.len() == 0,
                }
            },
            Err(e) => if file_error(user_config) is Some {
                Some(e) == file_error(user_config)
            } else if file_error(managed_config) is Some {
                Some(e) == file_error(managed_config)
            } else {
                managed_preferences matches Err(why) && e == ConfigError::Io(why)
            },
        },
{
    let user = match read_config_from_path(user_config) {
        Ok(value) => value,
        Err(e) => return Err(e),
    };
    let managed_config = match read_config_from_path(managed_config) {
        Ok(value) => value,
        Err(e) => return Err(e),
    };
    let managed_preferences = match managed_preferences {
        Ok(value) => value,
        Err(why) => return Err(ConfigError::Io(why)),
    };
    let base = match user {
        Some(value) => value,
        None => TomlValue::Table(Vec::new()),
    };
    Ok(LoadedConfigLayers { base, managed_config, managed_preferences })
}

/// The configuration that the files and the managed preferences amount to.
pub fn load_config_as_toml(
    user_config: ConfigFile,
    managed_config: ConfigFile,
    managed_preferences: Result<Option<TomlValue>, String>,
) -> (r: Result<TomlValue, ConfigError>)
    requires
        file_value(user_config) matches Some(v) ==> v.wf(),
        file_value(managed_config) matches Some(v) ==> v.wf(),
        managed_preferences matches Ok(Some(v)) ==> v.wf(),
    ensures
        match r {
            Ok(value) => {
                &&& file_error(user_config) is None
                &&& file_error(managed_config) is None
                &&& managed_preferences is Ok
                &&& exists|base: TomlValue, middle: TomlValue|
                    {
                        &&& match file_value(user_config) {
                            Some(v) => base == v,
                            None => base matches TomlValue::Table(t) && t@.len() == 0,
                        }
                        &&& #[trigger] is_layered(base, file_value(managed_config), middle)
                        &&& is_layered(middle, managed_preferences->Ok_0, value)
                    }
            },
            Err(e) => if file_error(user_config) is Some {
                Some(e) == file_error(user_config)
            } else if file_error(managed_config) is Some {
                Some(e) == file_error(managed_config)
            } else {
                managed_preferences matches Err(why) && e == ConfigError::Io(why)
            },
        },
{
    match load_config_layers(user_config, managed_config, managed_preferences) {
        Ok(layers) => Ok(apply_managed_layers(layers)),
        Err(e) => Err(e),
    }
}

/// Where the managed configuration is looked for: in a place of the system on Unix, beside the
/// user's own elsewhere, where paths are those of Windows.
pub fn managed_config_default_path(codex_home: &str, on_unix: bool) -> (r: String)
    ensures
        r@ == if on_unix {
            "/etc/codex/managed_config.toml"@
        } else {
            path::joined_path(codex_home@, "managed_config.toml"@, true)
        },
{
    if on_unix {
        "/etc/codex/managed_config.toml".to_owned()
    } else {
        path::join(codex_home, "managed_config.toml", true)
    }
}

/// The files that hold the user's and the managed configuration.
pub fn config_paths(codex_home: &str, managed_config_path: Option<String>, on_unix: bool) -> (r: (
    String,
    String,
))
    ensures
        r.0@ == path::joined_path(codex_home@, "config.toml"@, !on_unix),
        match managed_config_path {
            Some(p) => r.1 == p,
            None => r.1@ == if on_unix {
                "/etc/codex/managed_config.toml"@
            } else {
                path::joined_path(codex_home@, "managed_config.toml"@, true)
            },
        },
{
    let managed = match managed_config_path {
        Some(p) => p,
        None => managed_config_default_path(codex_home, on_unix),
    };
    (path::join(codex_home, "config.toml", !on_unix), managed)
}

/// The members of a merged table.
proof fn lemma_merge_lookup(
    b: Seq<(String, TomlValue)>,
    o: Seq<(String, TomlValue)>,
    m: Seq<(String, TomlValue)>,
    name: Seq<char>,
)
    requires
        named::unique(b),
        named::unique(o),
        m.len() == b.len() + absent_members(o, b).len(),
        forall|i: int| 0 <= i < b.len() ==> (#[trigger] m[i]).0 == b[i].0,
        forall|j: int|
            #![trigger absent_members(o, b)[j]]
            0 <= j < absent_members(o, b).len() ==> m[b.len() + j] == absent_members(o, b)[j],
    ensures
        named::position(b, name) < b.len() ==> named::position(m, name) == named::position(b, name),
        named::position(b, name) == b.len() ==> named::lookup(m, name) == named::lookup(o, name),
{
    let absent = absent_members(o, b);
    named::lemma_position(b, name);
    lemma_absent_lookup(o, b, name);
    let p = named::position(b, name) as int;
    assert forall|i: int| 0 <= i < p implies (#[trigger] m[i]).0@ != name by {
        assert(m[i].0 == b[i].0);
    }
    if p < b.len() {
        assert(m[p].0 == b[p].0);
        named::lemma_position_is(m, name, p);
    } else {
        named::lemma_position(absent, name);
        let q = named::position(absent, name) as int;
        assert forall|i: int| 0 <= i < b.len() + q implies (#[trigger] m[i]).0@ != name by {
            if i >= b.len() {
                assert(m[b.len() + (i - b.len())] == absent[i - b.len()]);
            }
        }
        if q < absent.len() {
            assert(m[b.len() + q] == absent[q]);
        }
        named::lemma_position_is(m, name, b.len() + q);
    }
}

/// The overlay takes precedence: a value in it that is no table is the value in the result, at any
/// depth.
pub proof fn law_overlay_takes_precedence(
    base: TomlValue,
    overlay: TomlValue,
    r: TomlValue,
    names: Seq<Seq<char>>,
)
    requires
        base.wf(),
        overlay.wf(),
        is_merge(base, overlay, r),
        overlay.at(names) is Some,
        overlay.at(names)->0 !is Table,
    ensures
        r.at(names) == overlay.at(names),
    decreases names.len(),
{
    match (base, overlay) {
        (TomlValue::Table(b), TomlValue::Table(o)) => {
            let m = r->Table_0;
            let name = names[0];
            assert forall|i: int| 0 <= i < b@.len() implies (#[trigger] m@[i]).0 == b@[i].0 by {}
            lemma_merge_lookup(b@, o@, m@, name);
            named::lemma_position(b@, name);
            named::lemma_position(o@, name);
            let p = named::position(b@, name) as int;
            if p < b@.len() {
                let v = named::lookup(o@, name)->0;
                assert(m@[p].0 == b@[p].0);
                assert(is_merge(b@[p].1, v, m@[p].1));
                assert(b@[p].1.wf());
                let q = named::position(o@, name) as int;
                assert(o@[q].1.wf());
                law_overlay_takes_precedence(b@[p].1, v, m@[p].1, names.skip(1));
            }
        },
        _ => {},
    }
}

/// What the overlay says nothing of is kept: a path whose first name the overlay does not have
/// leads to the same value as before.
pub proof fn law_rest_of_base_is_kept(
    base: TomlValue,
    overlay: TomlValue,
    r: TomlValue,
    names: Seq<Seq<char>>,
)
    requires
        base.wf(),
        overlay.wf(),
        is_merge(base, overlay, r),
        base is Table,
        names.len() > 0,
        overlay matches TomlValue::Table(o) && named::lookup(o@, names[0]) is None,
    ensures
        r.at(names) == base.at(names),
{
    let b = base->Table_0;
    let o = overlay->Table_0;
    let m = r->Table_0;
    let name = names[0];
    assert forall|i: int| 0 <= i < b@.len() implies (#[trigger] m@[i]).0 == b@[i].0 by {}
    lemma_merge_lookup(b@, o@, m@, name);
    named::lemma_position(b@, name);
    let p = named::position(b@, name) as int;
    if p < b@.len() {
        assert(m@[p].0 == b@[p].0);
        assert(m@[p].1 == b@[p].1);
    }
}

/// Of the layers, the managed preferences have the last word: a value in them that is no table is
/// the value of the configuration.
pub proof fn law_preferences_have_the_last_word(
    middle: TomlValue,
    preferences: TomlValue,
    r: TomlValue,
    names: Seq<Seq<char>>,
)
    requires
        middle.wf(),
        preferences.wf(),
        is_layered(middle, Some(preferences), r),
        preferences.at(names) is Some,
        preferences.at(names)->0 !is Table,
    ensures
        r.at(names) == preferences.at(names),
{
    law_overlay_takes_precedence(middle, preferences, r, names);
}

/// Without managed layers the configuration is the user's.
pub proof fn law_no_layers_leave_the_base(base: TomlValue, middle: TomlValue, r: TomlValue)
    requires
        is_layered(base, None, middle),
        is_layered(middle, None, r),
    ensures
        r == base,
{
}

/// A value merged into itself stays as it is.
proof fn lemma_merge_with_itself(value: TomlValue, r: TomlValue)
    requires
        value.wf(),
        is_merge(value, value, r),
    ensures
        r@ == value@,
    decreases value,
{
    if let TomlValue::Table(t) = value {
        let m = r->Table_0;
        assert forall|k: int| 0 <= k < t@.len() implies named::lookup(
            t@,
            (#[trigger] t@[k]).0@,
        ) is Some by {
            named::lemma_position(t@, t@[k].0@);
        }
        lemma_all_present(t@, t@);
        assert forall|i: int| 0 <= i < t@.len() implies (#[trigger] m@[i]).0 == t@[i].0
            && m@[i].1.model() == t@[i].1.model() by {
            named::lemma_position_is(t@, t@[i].0@, i);
            assert(t@[i].1.wf());
            assert(is_merge(t@[i].1, t@[i].1, m@[i].1));
            lemma_merge_with_itself(t@[i].1, m@[i].1);
        }
        assert(r@->Table_0 =~= value@->Table_0);
    }
}

/// Where a list has all names of another, the other adds nothing to it.
proof fn lemma_all_present(o: Seq<(String, TomlValue)>, m: Seq<(String, TomlValue)>)
    requires
        forall|k: int| 0 <= k < o.len() ==> named::lookup(m, (#[trigger] o[k]).0@) is Some,
    ensures
        absent_members(o, m).len() == 0,
    decreases o.len(),
{
    if o.len() > 0 {
        let front = o.drop_last();
        assert forall|k: int| 0 <= k < front.len() implies named::lookup(
            m,
            (#[trigger] front[k]).0@,
        ) is Some by {
            assert(front[k] == o[k]);
        }
        lemma_all_present(front, m);
        assert(named::lookup(m, o[o.len() - 1].0@) is Some);
    }
}

/// Merging the same overlay once more changes nothing.
pub proof fn law_merging_again_changes_nothing(
    base: TomlValue,
    overlay: TomlValue,
    once: TomlValue,
    twice: TomlValue,
)
    requires
        base.wf(),
        overlay.wf(),
        is_merge(base, overlay, once),
        is_merge(once, overlay, twice),
    ensures
        twice@ == once@,
    decreases base,
{
    match (base, overlay) {
        (TomlValue::Table(bt), TomlValue::Table(ot)) => {
            let b = bt@;
            let o = ot@;
            let m = once->Table_0@;
            let m2 = twice->Table_0@;
            let absent = absent_members(o, b);
            assert forall|i: int| 0 <= i < b.len() implies (#[trigger] m[i]).0 == b[i].0 by {}
            assert forall|k: int| 0 <= k < o.len() implies named::lookup(
                m,
                (#[trigger] o[k]).0@,
            ) is Some by {
                let name = o[k].0@;
                lemma_merge_lookup(b, o, m, name);
                named::lemma_position(b, name);
                named::lemma_position_is(o, name, k);
            }
            lemma_all_present(o, m);
            assert forall|i: int| 0 <= i < m.len() implies (#[trigger] m2[i]).0 == m[i].0
                && m2[i].1.model() == m[i].1.model() by {
                if i < b.len() {
                    let name = b[i].0@;
                    assert(m[i].0 == b[i].0);
                    if let Some(v) = named::lookup(o, name) {
                        named::lemma_position(o, name);
                        let q = named::position(o, name) as int;
                        assert(o[q].1.wf());
                        assert(b[i].1.wf());
                        assert(is_merge(b[i].1, v, m[i].1));
                        assert(is_merge(m[i].1, v, m2[i].1));
                        law_merging_again_changes_nothing(b[i].1, v, m[i].1, m2[i].1);
                    }
                } else {
                    let j = i - b.len();
                    assert(m[b.len() + j] == absent[j]);
                    lemma_absent_lookup(o, b, Seq::empty());
                    assert(o.contains(absent[j]));
                    let k = choose|k: int| 0 <= k < o.len() && o[k] == absent[j];
                    named::lemma_position_is(o, o[k].0@, k);
                    assert(o[k].1.wf());
                    assert(is_merge(m[i].1, o[k].1, m2[i].1));
                    lemma_merge_with_itself(o[k].1, m2[i].1);
                }
            }
            assert(twice@->Table_0 =~= once@->Table_0);
        },
        _ => {
            lemma_merge_with_itself(overlay, twice);
        },
    }
}

/// Merging an empty table into a table changes nothing.
pub proof fn law_merging_an_empty_table_changes_nothing(
    base: TomlValue,
    overlay: TomlValue,
    r: TomlValue,
)
    requires
        base is Table,
        overlay matches TomlValue::Table(o) && o@.len() == 0,
        is_merge(base, overlay, r),
    ensures
        r@ == base@,
{
    let b = base->Table_0@;
    let o = overlay->Table_0@;
    let m = r->Table_0@;
    assert forall|i: int| 0 <= i < b.len() implies (#[trigger] m[i]) == b[i] by {
        named::lemma_position_is(o, b[i].0@, 0);
        assert(m[i].0 == b[i].0);
    }
    assert(r@->Table_0 =~= base@->Table_0);
}

/// Whether an overlay says nothing of what a path leads to: the path leads nowhere in it, and no
/// value on the way that is no table stands in the place of a table.
pub open spec fn says_nothing_of(overlay: TomlValue, names: Seq<Seq<char>>) -> bool {
    &&& overlay.at(names) is None
    &&& forall|n: int|
        0 <= n <= names.len() && #[trigger] overlay.at(names.take(n)) is Some ==> overlay.at(
            names.take(n),
        )->0 is Table
}

/// What the overlay says nothing of is kept, at any depth: tables that both have are merged, and
/// never replaced.
pub proof fn law_rest_of_base_is_kept_at_any_depth(
    base: TomlValue,
    overlay: TomlValue,
    r: TomlValue,
    names: Seq<Seq<char>>,
)
    requires
        base.wf(),
        overlay.wf(),
        is_merge(base, overlay, r),
        base.at(names) is Some,
        says_nothing_of(overlay, names),
    ensures
        r.at(names) == base.at(names),
    decreases names.len(),
{
    assert(names.take(0) =~= Seq::empty());
    assert(overlay.at(names.take(0)) == Some(overlay));
    assert(names.len() > 0);
    assert(overlay is Table);
    assert(base is Table);
    let b = base->Table_0@;
    let o = overlay->Table_0@;
    let m = r->Table_0@;
    let name = names[0];
    assert forall|i: int| 0 <= i < b.len() implies (#[trigger] m[i]).0 == b[i].0 by {}
    lemma_merge_lookup(b, o, m, name);
    named::lemma_position(b, name);
    named::lemma_position(o, name);
    let p = named::position(b, name) as int;
    assert(p < b.len());
    assert(m[p].0 == b[p].0);
    assert(b[p].1.wf());
    if let Some(v) = named::lookup(o, name) {
        let q = named::position(o, name) as int;
        assert(o[q].1.wf());
        assert(is_merge(b[p].1, v, m[p].1));
        let rest = names.skip(1);
        assert forall|n: int|
            0 <= n <= rest.len() && #[trigger] v.at(rest.take(n)) is Some implies v.at(
            rest.take(n),
        )->0 is Table by {
            let longer = names.take(n + 1);
            assert(longer[0] == name);
            assert(longer.skip(1) =~= rest.take(n));
            assert(overlay.at(longer) == v.at(rest.take(n)));
        }
        law_rest_of_base_is_kept_at_any_depth(b[p].1, v, m[p].1, rest);
    } else {
        assert(m[p].1 == b[p].1);
    }
}

/// What the overlay holds and the base does not have comes into the result as it is, at any depth.
pub proof fn law_overlay_adds_what_is_missing(
    base: TomlValue,
    overlay: TomlValue,
    r: TomlValue,
    names: Seq<Seq<char>>,
)
    requires
        base.wf(),
        overlay.wf(),
        is_merge(base, overlay, r),
        overlay.at(names) is Some,
        base.at(names) is None,
    ensures
        r.at(names) == overlay.at(names),
    decreases names.len(),
{
    assert(names.len() > 0);
    match (base, overlay) {
        (TomlValue::Table(bt), TomlValue::Table(ot)) => {
            let b = bt@;
            let o = ot@;
            let m = r->Table_0@;
            let name = names[0];
            assert forall|i: int| 0 <= i < b.len() implies (#[trigger] m[i]).0 == b[i].0 by {}
            lemma_merge_lookup(b, o, m, name);
            named::lemma_position(b, name);
            named::lemma_position(o, name);
            let p = named::position(b, name) as int;
            if p < b.len() {
                let v = named::lookup(o, name)->0;
                let q = named::position(o, name) as int;
                assert(o[q].1.wf());
                assert(b[p].1.wf());
                assert(m[p].0 == b[p].0);
                assert(is_merge(b[p].1, v, m[p].1));
                law_overlay_adds_what_is_missing(b[p].1, v, m[p].1, names.skip(1));
            }
        },
        _ => {},
    }
}

/// Nothing comes into the result from elsewhere: what a path leads to in it is a table, or what the
/// path leads to in the overlay or in the base.
pub proof fn law_nothing_is_made_up(
    base: TomlValue,
    overlay: TomlValue,
    r: TomlValue,
    names: Seq<Seq<char>>,
)
    requires
        base.wf(),
        overlay.wf(),
        is_merge(base, overlay, r),
        r.at(names) is Some,
        r.at(names)->0 !is Table,
    ensures
        r.at(names) == overlay.at(names) || r.at(names) == base.at(names),
    decreases names.len(),
{
    match (base, overlay) {
        (TomlValue::Table(bt), TomlValue::Table(ot)) => {
            let b = bt@;
            let o = ot@;
            let m = r->Table_0@;
            assert(names.len() > 0);
            let name = names[0];
            assert forall|i: int| 0 <= i < b.len() implies (#[trigger] m[i]).0 == b[i].0 by {}
            lemma_merge_lookup(b, o, m, name);
            named::lemma_position(b, name);
            named::lemma_position(o, name);
            let p = named::position(b, name) as int;
            if p < b.len() {
                assert(m[p].0 == b[p].0);
                if let Some(v) = named::lookup(o, name) {
                    let q = named::position(o, name) as int;
                    assert(o[q].1.wf());
                    assert(b[p].1.wf());
                    assert(is_merge(b[p].1, v, m[p].1));
                    law_nothing_is_made_up(b[p].1, v, m[p].1, names.skip(1));
                } else {
                    assert(m[p].1 == b[p].1);
                }
            }
        },
        _ => {},
    }
}

/// A value that is no table gives way to whatever the overlay has in its place, a table too, at any
/// depth.
pub proof fn law_values_give_way(
    base: TomlValue,
    overlay: TomlValue,
    r: TomlValue,
    names: Seq<Seq<char>>,
)
    requires
        base.wf(),
        overlay.wf(),
        is_merge(base, overlay, r),
        overlay.at(names) is Some,
        base.at(names) is Some,
        base.at(names)->0 !is Table,
    ensures
        r.at(names) == overlay.at(names),
    decreases names.len(),
{
    if names.len() > 0 {
        match (base, overlay) {
            (TomlValue::Table(bt), TomlValue::Table(ot)) => {
                let b = bt@;
                let o = ot@;
                let m = r->Table_0@;
                let name = names[0];
                assert forall|i: int| 0 <= i < b.len() implies (#[trigger] m[i]).0 == b[i].0 by {}
                lemma_merge_lookup(b, o, m, name);
                named::lemma_position(b, name);
                named::lemma_position(o, name);
                let p = named::position(b, name) as int;
                let v = named::lookup(o, name)->0;
                let q = named::position(o, name) as int;
                assert(o[q].1.wf());
                assert(b[p].1.wf());
                assert(m[p].0 == b[p].0);
                assert(is_merge(b[p].1, v, m[p].1));
                law_values_give_way(b[p].1, v, m[p].1, names.skip(1));
            },
            _ => {},
        }
    }
}

/// A layer that is there is merged over what lies below it; one that is not changes nothing.
pub proof fn law_layers_are_merged(base: TomlValue, overlay: TomlValue, r: TomlValue)
    ensures
        is_layered(base, Some(overlay), r) <==> is_merge(base, overlay, r),
        is_layered(base, None, r) <==> r == base,
{
}

/// A path leads from table to table, by the names of their members.
pub proof fn law_paths_lead_through_tables(value: TomlValue, name: Seq<char>, rest: Seq<Seq<char>>)
    ensures
        value.at(Seq::empty()) == Some(value),
        value.at(seq![name] + rest) == match value {
            TomlValue::Table(members) => match named::lookup(members@, name) {
                Some(v) => v.at(rest),
                None => None,
            },
            _ => None,
        },
{
    let names = seq![name] + rest;
    assert(names.skip(1) =~= rest);
    assert(names[0] == name);
}

/// A file that is missing is no error and has no value; one that is there but makes no sense, or
/// cannot be read, is an error of its own kind, with the reason.
pub proof fn law_files_have_values_or_errors(value: TomlValue, why: String)
    ensures
        file_value(ConfigFile::Parsed(value)) == Some(value),
        file_error(ConfigFile::Parsed(value)) is None,
        file_value(ConfigFile::NotFound) is None,
        file_error(ConfigFile::NotFound) is None,
        file_value(ConfigFile::Invalid(why)) is None,
        file_error(ConfigFile::Invalid(why)) == Some(ConfigError::InvalidData(why)),
        file_value(ConfigFile::Unreadable(why)) is None,
        file_error(ConfigFile::Unreadable(why)) == Some(ConfigError::Io(why)),
{
}

/// The layers are what the files hold: the user's file below, or an empty table where there is none,
/// and the managed ones above it. The first file that cannot be used is the error.
pub proof fn law_layers_are_what_the_files_hold(
    user: ConfigFile,
    managed: ConfigFile,
    preferences: Result<Option<TomlValue>, String>,
    r: Result<LoadedConfigLayers, ConfigError>,
)
    requires
        call_ensures(load_config_layers, (user, managed, preferences), r),
    ensures
        ({
            let bad = |f: ConfigFile| f is Invalid || f is Unreadable;
            &&& r is Ok <==> !bad(user) && !bad(managed) && preferences is Ok
            &&& r matches Ok(layers) ==> {
                &&& user matches ConfigFile::Parsed(v) ==> layers.base == v
                &&& user is NotFound ==> (layers.base matches TomlValue::Table(t) && t@.len() == 0)
                &&& managed matches ConfigFile::Parsed(v) ==> layers.managed_config == Some(v)
                &&& managed is NotFound ==> layers.managed_config is None
                &&& layers.managed_preferences == preferences->Ok_0
            }
            &&& match user {
                ConfigFile::Invalid(why) => r matches Err(ConfigError::InvalidData(m)) && m == why,
                ConfigFile::Unreadable(why) => r matches Err(ConfigError::Io(m)) && m == why,
                _ => match managed {
                    ConfigFile::Invalid(why) => r matches Err(ConfigError::InvalidData(m)) && m
                        == why,
                    ConfigFile::Unreadable(why) => r matches Err(ConfigError::Io(m)) && m == why,
                    _ => preferences matches Err(why) ==> (r matches Err(ConfigError::Io(m)) && m
                        == why),
                },
            }
        }),
{
}

/// The managed file lies in a fixed place where there is one for the whole machine, and else beside
/// the user's own; a path that is given comes first.
pub proof fn law_managed_file_has_its_place(
    home: &str,
    given: Option<String>,
    on_unix: bool,
    r: (String, String),
)
    requires
        call_ensures(config_paths, (home, given, on_unix), r),
    ensures
        r.0@ == path::joined_path(home@, "config.toml"@, !on_unix),
        given is Some ==> r.1 == given->0,
        given is None && on_unix ==> r.1@ == "/etc/codex/managed_config.toml"@,
        given is None && !on_unix ==> r.1@ == path::joined_path(
            home@,
            "managed_config.toml"@,
            true,
        ),
{
}

/// What is said of a configuration is what it holds: each value as it is, a list in its order, and a
/// table with its names.
pub proof fn law_model_is_faithful(value: TomlValue, i: int)
    ensures
        match value {
            TomlValue::Text(s) => value@ == TomlModel::Text(s@),
            TomlValue::Integer(n) => value@ == TomlModel::Integer(n),
            TomlValue::FloatBits(bits) => value@ == TomlModel::FloatBits(bits),
            TomlValue::Boolean(b) => value@ == TomlModel::Boolean(b),
            TomlValue::Datetime(d) => value@ == TomlModel::Datetime(d@),
            TomlValue::Array(items) => value@ matches TomlModel::Array(all) && all.len()
                == items@.len() && (0 <= i < all.len() ==> all[i] == items@[i]@),
            TomlValue::Table(members) => value@ matches TomlModel::Table(all) && all.len()
                == members@.len() && (0 <= i < all.len() ==> all[i].0 == members@[i].0@ && all[i].1
                == members@[i].1@),
        },
{
}

} // verus!
