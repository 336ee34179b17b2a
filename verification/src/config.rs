//! Layered configuration documents: parsing, overlaying, forcing the
//! processor count and serialising, on top of the `axconfig_gen` crate.

use vstd::prelude::*;
use axconfig_gen::{Config, ConfigErr, ConfigValue};

verus! {

/// The place of an item in a document: the name of its table and its key.
/// Items outside any table are in the table named by `global_table`.
pub type ItemKey = (Seq<char>, Seq<char>);

/// What a document holds under a key: the value in TOML notation, the
/// declared type if there is one, and the comments above the item.
pub type Item = (Seq<char>, Option<Seq<char>>, Seq<char>);

/// The items of a document.
pub type Items = Map<(Seq<char>, Seq<char>), (Seq<char>, Option<Seq<char>>, Seq<char>)>;

/// The named tables of a document, each with the comments above it.
pub type Tables = Map<Seq<char>, Seq<char>>;

/// `axconfig_gen::Config`, a configuration document.
#[verifier::external_type_specification]
#[verifier::external_body]
pub struct ExConfig(axconfig_gen::Config);

/// `axconfig_gen::ConfigErr`, the crate's error.
#[verifier::external_type_specification]
#[verifier::external_body]
pub struct ExConfigErr(axconfig_gen::ConfigErr);

/// The items that a `Config` holds, in its global table and in its named
/// tables: for each table name and key the value as `to_toml_value` writes
/// it, the type as it is displayed, and the comments.
pub uninterp spec fn config_items(c: Config) -> Map<
    (Seq<char>, Seq<char>),
    (Seq<char>, Option<Seq<char>>, Seq<char>),
>;

/// The named tables that a `Config` holds, each with its comments.
pub uninterp spec fn config_tables(c: Config) -> Map<Seq<char>, Seq<char>>;

/// What `Config::from_toml` reads from a text: the items and the tables, or
/// nothing where it fails.
pub uninterp spec fn parsed_toml(text: Seq<char>) -> Option<
    (Map<(Seq<char>, Seq<char>), (Seq<char>, Option<Seq<char>>, Seq<char>)>, Map<Seq<char>, Seq<char>>),
>;

/// Whether `ConfigValue::update` lets a value with its declared type be
/// replaced by a new value with its declared type.
pub uninterp spec fn value_accepts(
    old_value: Seq<char>,
    old_type: Option<Seq<char>>,
    new_value: Seq<char>,
    new_type: Option<Seq<char>>,
) -> bool;

/// The value that `ConfigValue::new` reads from a text, as `to_toml_value`
/// writes it, or nothing where it fails.
pub uninterp spec fn toml_value(text: Seq<char>) -> Option<Seq<char>>;

/// The text that `Config::dump_toml` writes for the given items and tables.
pub uninterp spec fn rendered_toml(
    items: Map<(Seq<char>, Seq<char>), (Seq<char>, Option<Seq<char>>, Seq<char>)>,
    tables: Map<Seq<char>, Seq<char>>,
) -> Seq<char>;

/// The name under which the items outside any table are found.
pub open spec fn global_table() -> Seq<char> {
    "$GLOBAL"@
}

/// The key of the processor count in the global table.
pub open spec fn cpu_key() -> ItemKey {
    (global_table(), "smp"@)
}

/// Whether every item of `base` that `over` has too lets itself be replaced
/// by the one of `over`.
pub open spec fn overlay_accepted(base: Items, over: Items) -> bool {
    forall|k: ItemKey|
        base.dom().contains(k) && over.dom().contains(k) ==> value_accepts(
            base[k].0,
            base[k].1,
            #[trigger] over[k].0,
            over[k].1,
        )
}

/// An item whose value is replaced: it takes the new value, keeps its
/// declared type unless it had none, and keeps its comments.
pub open spec fn replaced_item(old: Item, new: Item) -> Item {
    (
        new.0,
        if old.1 is None {
            new.1
        } else {
            old.1
        },
        old.2,
    )
}

/// The items of `base` with the values of those that `over` has too replaced.
pub open spec fn updated_items(base: Items, over: Items) -> Items {
    Map::new(
        |k: ItemKey| base.dom().contains(k),
        |k: ItemKey|
            if over.dom().contains(k) {
                replaced_item(base[k], over[k])
            } else {
                base[k]
            },
    )
}

/// The items of `over` laid over those of `base`: where both have an item
/// the value of `over` wins, and the items that only one has are kept.
pub open spec fn overlaid_items(base: Items, over: Items) -> Items {
    Map::new(
        |k: ItemKey| base.dom().contains(k) || over.dom().contains(k),
        |k: ItemKey|
            if base.dom().contains(k) {
                if over.dom().contains(k) {
                    replaced_item(base[k], over[k])
                } else {
                    base[k]
                }
            } else {
                over[k]
            },
    )
}

/// The tables of both documents; a table that both have keeps the comments
/// it has in `base`.
pub open spec fn overlaid_tables(base: Tables, over: Tables) -> Tables {
    over.union_prefer_right(base)
}

/// Calls `Config::from_toml`. The result is believed to be what
/// `parsed_toml` names: the call succeeds exactly where that is some
/// document, and the `Config` then holds its items and tables.
#[verifier::external_body]
fn parse_config(text: &str) -> (r: Result<Config, ConfigErr>)
    ensures
        match r {
            Ok(c) => parsed_toml(text@) == Some((config_items(c), config_tables(c))),
            Err(_) => parsed_toml(text@) is None,
        },
{
    Config::from_toml(text)
}

/// Walks a `Config` with `Config::iter` and hands out the table name and the
/// key of each item. The list is believed to name exactly the items held,
/// each of them once.
#[verifier::external_body]
fn config_keys(c: &Config) -> (r: Vec<(String, String)>)
    ensures
        r.deep_view().to_set() == config_items(*c).dom(),
        r.deep_view().no_duplicates(),
{
    c.iter().map(|item| (item.table_name().to_owned(), item.key().to_owned())).collect()
}

/// Calls `Config::update`, which replaces the value of each item of `c` that
/// `other` has too, by `ConfigValue::update`, and stops with an error at the
/// first item that does not accept its new value. Believed: it succeeds
/// exactly where every such item accepts, and then the items of `c` are the
/// old ones with those values replaced and its tables are unchanged.
#[verifier::external_body]
fn update_values(c: &mut Config, other: &Config) -> (r: Result<(), ConfigErr>)
    ensures
        r is Ok <==> overlay_accepted(config_items(*old(c)), config_items(*other)),
        r is Ok ==> config_items(*final(c)) == updated_items(
            config_items(*old(c)),
            config_items(*other),
        ),
        r is Ok ==> config_tables(*final(c)) == config_tables(*old(c)),
{
    c.update(other).map(|_| ())
}

/// Takes the item under `table` and `key` out of `c`, with
/// `Config::table_at_mut` and the `remove` of the table found. Believed: the
/// item is gone and nothing else has changed.
#[verifier::external_body]
fn remove_item(c: &mut Config, table: &str, key: &str)
    requires
        config_items(*old(c)).dom().contains((table@, key@)),
    ensures
        config_items(*final(c)) == config_items(*old(c)).remove((table@, key@)),
        config_tables(*final(c)) == config_tables(*old(c)),
{
    c.table_at_mut(table).unwrap().remove(key);
}

/// Calls `Config::merge`, which adds the items and tables of `other` to `c`
/// and fails at an item that `c` has already. Believed: it succeeds exactly
/// where the two have no item in common, and then `c` holds the items of
/// both, and the tables of both with its own comments where both have one.
#[verifier::external_body]
fn merge_new(c: &mut Config, other: &Config) -> (r: Result<(), ConfigErr>)
    ensures
        r is Ok <==> config_items(*old(c)).dom().disjoint(config_items(*other).dom()),
        r is Ok ==> config_items(*final(c)) == config_items(*old(c)).union_prefer_right(
            config_items(*other),
        ),
        r is Ok ==> config_tables(*final(c)) == config_tables(*other).union_prefer_right(
            config_tables(*old(c)),
        ),
{
    c.merge(other)
}

/// Reads `value` with `ConfigValue::new` and gives it to the item under
/// `table` and `key`, found with `Config::config_at_mut`, by
/// `ConfigValue::update`. Believed: it succeeds exactly where the text is
/// read as a value and the item accepts that value, and then the item holds
/// it and nothing else has changed.
#[verifier::external_body]
fn set_value(c: &mut Config, table: &str, key: &str, value: &str) -> (r: Result<(), ConfigErr>)
    requires
        config_items(*old(c)).dom().contains((table@, key@)),
    ensures
        r is Ok <==> toml_value(value@) is Some && value_accepts(
            config_items(*old(c))[(table@, key@)].0,
            config_items(*old(c))[(table@, key@)].1,
            toml_value(value@).unwrap(),
            None,
        ),
        r is Ok ==> config_items(*final(c)) == config_items(*old(c)).insert(
            (table@, key@),
            replaced_item(
                config_items(*old(c))[(table@, key@)],
                (toml_value(value@).unwrap(), None, Seq::empty()),
            ),
        ),
        r is Ok ==> config_tables(*final(c)) == config_tables(*old(c)),
{
    let value = ConfigValue::new(value)?;
    c.config_at_mut(table, key).unwrap().value_mut().update(value)
}

/// Calls `Config::dump_toml`, which never fails. The text is believed to be
/// the one function of the items and tables that `rendered_toml` names.
#[verifier::external_body]
fn dump_toml(c: &Config) -> (r: String)
    ensures
        r@ == rendered_toml(config_items(*c), config_tables(*c)),
{
    c.dump_toml().unwrap_or_default()
}

/// The words of a `ConfigErr`, by its `Display`. Nothing is claimed of them.
#[verifier::external_body]
fn error_text(e: &ConfigErr) -> (r: String) {
    e.to_string()
}

/// A configuration document.
pub struct Document {
    config: Config,
}

/// Why no merged document was made.
#[derive(Debug, Clone)]
pub enum ConfigError {
    /// The built-in default document is not read as a document.
    Defaults { detail: String },
    /// The built-in fragment of the platform is not read as a document.
    Fragment { detail: String },
    /// An item of the defaults does not accept the value that the fragment
    /// of the platform gives it.
    Builtin { detail: String },
    /// The override file is not read as a document.
    Parse { path: String, detail: String },
    /// An item does not accept the value that the override file gives it.
    Merge { path: String, detail: String },
    /// The document has no item for the processor count.
    NoCpuCount,
    /// The item for the processor count does not accept a number.
    CpuCount { detail: String },
}

/// An override file that has been read: where it was found and its text.
#[derive(Debug, Clone)]
pub struct Layer {
    pub path: String,
    pub text: String,
}

/// The kind of a failure of a merge, without the words of the outside error.
#[derive(PartialEq, Eq, Structural)]
pub enum Failure {
    Defaults,
    Fragment,
    Builtin,
    /// The override at this place in the list is not read as a document.
    Parse(nat),
    /// The override at this place in the list is not accepted.
    Merge(nat),
    NoCpuCount,
    CpuCount,
}

/// `over` laid over `base`, or nothing where an item of `base` does not
/// accept its new value.
pub open spec fn overlaid(base: (Items, Tables), over: (Items, Tables)) -> Option<(Items, Tables)> {
    if overlay_accepted(base.0, over.0) {
        Some((overlaid_items(base.0, over.0), overlaid_tables(base.1, over.1)))
    } else {
        None
    }
}

/// The built-in document of a platform: its fragment laid over the defaults.
pub open spec fn spec_base(defaults: Seq<char>, fragment: Seq<char>) -> Result<
    (Items, Tables),
    Failure,
> {
    match parsed_toml(defaults) {
        None => Err(Failure::Defaults),
        Some(d) => match parsed_toml(fragment) {
            None => Err(Failure::Fragment),
            Some(f) => match overlaid(d, f) {
                None => Err(Failure::Builtin),
                Some(doc) => Ok(doc),
            },
        },
    }
}

/// The document with the text of an override file laid over it; `place` is
/// the place of the file in the list of overrides.
pub open spec fn spec_layer(doc: (Items, Tables), text: Seq<char>, place: nat) -> Result<
    (Items, Tables),
    Failure,
> {
    match parsed_toml(text) {
        None => Err(Failure::Parse(place)),
        Some(over) => match overlaid(doc, over) {
            None => Err(Failure::Merge(place)),
            Some(d) => Ok(d),
        },
    }
}

/// The document with the texts of the override files laid over it one after
/// the other, the first one first. The first failure ends it.
pub open spec fn spec_layers(doc: (Items, Tables), texts: Seq<Seq<char>>) -> Result<
    (Items, Tables),
    Failure,
>
    decreases texts.len(),
{
    if texts.len() == 0 {
        Ok(doc)
    } else {
        match spec_layers(doc, texts.drop_last()) {
            Err(e) => Err(e),
            Ok(d) => spec_layer(d, texts.last(), (texts.len() - 1) as nat),
        }
    }
}

/// The document with the processor count forced to `cpus`, whatever it held
/// there before.
pub open spec fn spec_with_cpus(doc: (Items, Tables), cpus: nat) -> Result<(Items, Tables), Failure> {
    if !doc.0.dom().contains(cpu_key()) {
        Err(Failure::NoCpuCount)
    } else {
        match toml_value(crate::text::decimal(cpus)) {
            None => Err(Failure::CpuCount),
            Some(value) => if value_accepts(doc.0[cpu_key()].0, doc.0[cpu_key()].1, value, None) {
                Ok(
                    (
                        doc.0.insert(
                            cpu_key(),
                            replaced_item(doc.0[cpu_key()], (value, None, Seq::empty())),
                        ),
                        doc.1,
                    ),
                )
            } else {
                Err(Failure::CpuCount)
            },
        }
    }
}

/// The final document: the defaults, the fragment of the platform, the
/// override files in their order, and then the processor count.
pub open spec fn spec_merge(
    defaults: Seq<char>,
    fragment: Seq<char>,
    texts: Seq<Seq<char>>,
    cpus: nat,
) -> Result<(Items, Tables), Failure> {
    match spec_base(defaults, fragment) {
        Err(e) => Err(e),
        Ok(base) => match spec_layers(base, texts) {
            Err(e) => Err(e),
            Ok(doc) => spec_with_cpus(doc, cpus),
        },
    }
}

/// The texts of the layers, in their order.
pub open spec fn layer_texts(layers: Seq<Layer>) -> Seq<Seq<char>> {
    Seq::new(layers.len(), |i: int| layers[i].text@)
}

/// Whether the file has to be written: it is missing or unreadable, or it
/// holds another text than the new one.
pub open spec fn spec_should_write(on_disk: Option<Seq<char>>, text: Seq<char>) -> bool {
    match on_disk {
        Some(old) => old != text,
        None => true,
    }
}

/// Decides whether the serialised document has to be written, given what
/// the file holds now.
pub fn should_write(on_disk: Option<&str>, text: &str) -> (r: bool)
    ensures
        r == spec_should_write(
            match on_disk {
                Some(old) => Some(old@),
                None => None,
            },
            text@,
        ),
{
    match on_disk {
        Some(old) => !crate::text::same_text(old, text),
        None => true,
    }
}

impl ConfigError {
    /// The kind of the failure; for an override file, `place` is its place
    /// in the list.
    pub open spec fn spec_kind(self, place: nat) -> Failure {
        match self {
            ConfigError::Defaults { .. } => Failure::Defaults,
            ConfigError::Fragment { .. } => Failure::Fragment,
            ConfigError::Builtin { .. } => Failure::Builtin,
            ConfigError::Parse { .. } => Failure::Parse(place),
            ConfigError::Merge { .. } => Failure::Merge(place),
            ConfigError::NoCpuCount => Failure::NoCpuCount,
            ConfigError::CpuCount { .. } => Failure::CpuCount,
        }
    }

    /// The path of the override file that the failure is about, if it is
    /// about one.
    pub open spec fn spec_path(self) -> Option<Seq<char>> {
        match self {
            ConfigError::Parse { path, .. } => Some(path@),
            ConfigError::Merge { path, .. } => Some(path@),
            _ => None,
        }
    }

    /// The error in words.
    pub open spec fn spec_message(self) -> Seq<char> {
        match self {
            ConfigError::Defaults { detail } => "base config is invalid: "@ + detail@,
            ConfigError::Fragment { detail } => "platform config is invalid: "@ + detail@,
            ConfigError::Builtin { detail } => "failed to load built-in config: "@ + detail@,
            ConfigError::Parse { path, detail } => "failed to parse config file `"@ + path@ + "`: "@
                + detail@,
            ConfigError::Merge { path, detail } => "failed to merge config file `"@ + path@ + "`: "@
                + detail@,
            ConfigError::NoCpuCount => "the config has no item `smp`"@,
            ConfigError::CpuCount { detail } => "failed to set the number of CPUs: "@ + detail@,
        }
    }

    /// The error in words.
    pub fn message(&self) -> (r: String)
        ensures
            r@ == self.spec_message(),
    {
        match self {
            ConfigError::Defaults { detail } => crate::text::concat2(
                "base config is invalid: ",
                detail.as_str(),
            ),
            ConfigError::Fragment { detail } => crate::text::concat2(
                "platform config is invalid: ",
                detail.as_str(),
            ),
            ConfigError::Builtin { detail } => crate::text::concat2(
                "failed to load built-in config: ",
                detail.as_str(),
            ),
            ConfigError::Parse { path, detail } => {
                let mut m = crate::text::concat3("failed to parse config file `", path.as_str(), "`: ");
                m.append(detail.as_str());
                m
            },
            ConfigError::Merge { path, detail } => {
                let mut m = crate::text::concat3("failed to merge config file `", path.as_str(), "`: ");
                m.append(detail.as_str());
                m
            },
            ConfigError::NoCpuCount => "the config has no item `smp`".to_owned(),
            ConfigError::CpuCount { detail } => crate::text::concat2(
                "failed to set the number of CPUs: ",
                detail.as_str(),
            ),
        }
    }
}

/// Whether the pair of texts occurs in the list.
fn contains_key(keys: &Vec<(String, String)>, table: &str, key: &str) -> (r: bool)
    ensures
        r == keys.deep_view().to_set().contains((table@, key@)),
{
    let mut i: usize = 0;
    while i < keys.len()
        invariant
            i <= keys.len(),
            forall|j: int| 0 <= j < i ==> keys.deep_view()[j] != (table@, key@),
        decreases keys.len() - i,
    {
        if crate::text::same_text(keys[i].0.as_str(), table) && crate::text::same_text(
            keys[i].1.as_str(),
            key,
        ) {
            assert(keys.deep_view()[i as int] == (table@, key@));
            assert(keys.deep_view().contains((table@, key@)));
            return true;
        }
        i += 1;
    }
    assert(!keys.deep_view().contains((table@, key@)));
    false
}

impl View for Document {
    type V = (Items, Tables);

    closed spec fn view(&self) -> (Items, Tables) {
        (config_items(self.config), config_tables(self.config))
    }
}

impl Document {
    /// The text that the document is serialised to.
    pub open spec fn spec_toml(&self) -> Seq<char> {
        rendered_toml(self@.0, self@.1)
    }

    /// The value under the key of the processor count, in TOML notation.
    pub open spec fn spec_cpus(&self) -> Seq<char> {
        self@.0[cpu_key()].0
    }

    /// Reads a document from its text. Where the text is not read as one,
    /// the words of the failure come back.
    pub fn parse(text: &str) -> (r: Result<Document, String>)
        ensures
            match r {
                Ok(d) => parsed_toml(text@) == Some(d@),
                Err(_) => parsed_toml(text@) is None,
            },
    {
        match parse_config(text) {
            Ok(config) => Ok(Document { config }),
            Err(e) => Err(error_text(&e)),
        }
    }

    /// Lays `over` over this document: an item that both have takes the
    /// value of `over`, the other items of both are kept. Where an item does
    /// not accept its new value, the words of the failure come back.
    pub fn overlay(self, over: Document) -> (r: Result<Document, String>)
        ensures
            match r {
                Ok(d) => overlaid(self@, over@) == Some(d@),
                Err(_) => overlaid(self@, over@) is None,
            },
    {
        let Document { config: mut base } = self;
        let Document { config: mut rest } = over;
        let ghost base0 = config_items(base);
        let ghost over0 = config_items(rest);
        let ghost tables0 = config_tables(base);
        let base_keys = config_keys(&base);
        let over_keys = config_keys(&rest);
        match update_values(&mut base, &rest) {
            Err(e) => {
                return Err(error_text(&e));
            },
            Ok(_) => {},
        }
        let mut i: usize = 0;
        assert forall|j: int| 0 <= j < over_keys.len() implies config_items(rest).dom().contains(
            #[trigger] over_keys.deep_view()[j],
        ) by {
            assert(over_keys.deep_view().contains(over_keys.deep_view()[j]));
        }
        while i < over_keys.len()
            invariant
                i <= over_keys.len(),
                over_keys.deep_view().to_set() == over0.dom(),
                over_keys.deep_view().no_duplicates(),
                base_keys.deep_view().to_set() == base0.dom(),
                config_tables(rest) == config_tables(over.config),
                forall|k: ItemKey| #[trigger]
                    config_items(rest).dom().contains(k) ==> over0.dom().contains(k) && config_items(
                        rest,
                    )[k] == over0[k],
                forall|k: ItemKey|
                    over0.dom().contains(k) && !base0.dom().contains(k)
                        ==> #[trigger] config_items(rest).dom().contains(k),
                forall|j: int|
                    i <= j < over_keys.len() ==> config_items(rest).dom().contains(
                        #[trigger] over_keys.deep_view()[j],
                    ),
                forall|j: int|
                    0 <= j < i && base0.dom().contains(#[trigger] over_keys.deep_view()[j])
                        ==> !config_items(rest).dom().contains(over_keys.deep_view()[j]),
            decreases over_keys.len() - i,
        {
            let table = over_keys[i].0.as_str();
            let key = over_keys[i].1.as_str();
            assert(over_keys.deep_view()[i as int] == (table@, key@));
            if contains_key(&base_keys, table, key) {
                remove_item(&mut rest, table, key);
            }
            i += 1;
        }
        proof {
            assert forall|k: ItemKey|
                !(config_items(base).dom().contains(k) && config_items(rest).dom().contains(
                    k,
                )) by {
                if config_items(rest).dom().contains(k) && base0.dom().contains(k) {
                    assert(over_keys.deep_view().to_set().contains(k));
                    let j = choose|j: int|
                        0 <= j < over_keys.deep_view().len() && over_keys.deep_view()[j] == k;
                    assert(base0.dom().contains(over_keys.deep_view()[j]));
                }
            }
        }
        let ghost kept = config_items(rest);
        match merge_new(&mut base, &rest) {
            Ok(_) => {
                proof {
                    assert(config_items(base) =~= overlaid_items(base0, over0)) by {
                        assert forall|k: ItemKey|
                            overlaid_items(base0, over0).dom().contains(k) implies config_items(
                            base,
                        ).dom().contains(k) by {
                            if !base0.dom().contains(k) {
                                assert(kept.dom().contains(k));
                            }
                        }
                        assert forall|k: ItemKey|
                            config_items(base).dom().contains(k) implies #[trigger] config_items(
                            base,
                        )[k] == overlaid_items(base0, over0)[k] by {
                            if kept.dom().contains(k) {
                                assert(over0.dom().contains(k));
                            }
                        }
                    }
                    assert(config_tables(base) =~= overlaid_tables(tables0, config_tables(over.config)));
                }
                Ok(Document { config: base })
            },
            Err(e) => {
                proof {
                    assert(false);
                }
                Err(error_text(&e))
            },
        }
    }

    /// Whether the document has an item under `table` and `key`.
    pub fn has_item(&self, table: &str, key: &str) -> (r: bool)
        ensures
            r == self@.0.dom().contains((table@, key@)),
    {
        let keys = config_keys(&self.config);
        contains_key(&keys, table, key)
    }

    /// Forces the processor count of the document to `cpus`, whatever it
    /// held there before.
    pub fn with_cpus(self, cpus: u32) -> (r: Result<Document, ConfigError>)
        ensures
            match r {
                Ok(d) => spec_with_cpus(self@, cpus as nat) == Ok::<(Items, Tables), Failure>(d@),
                Err(e) => spec_with_cpus(self@, cpus as nat) == Err::<(Items, Tables), Failure>(
                    e.spec_kind(0),
                ) && e.spec_path() is None,
            },
    {
        if !self.has_item("$GLOBAL", "smp") {
            return Err(ConfigError::NoCpuCount);
        }
        let Document { config: mut config } = self;
        let number = crate::text::decimal_string(cpus);
        match set_value(&mut config, "$GLOBAL", "smp", number.as_str()) {
            Ok(_) => Ok(Document { config }),
            Err(e) => Err(ConfigError::CpuCount { detail: error_text(&e) }),
        }
    }

    /// Serialises the document.
    pub fn dump(&self) -> (r: String)
        ensures
            r@ == self.spec_toml(),
    {
        dump_toml(&self.config)
    }
}

/// Makes the built-in document of a platform from the text of the defaults
/// and the text of the platform's fragment.
pub fn base(defaults: &str, fragment: &str) -> (r: Result<Document, ConfigError>)
    ensures
        match r {
            Ok(d) => spec_base(defaults@, fragment@) == Ok::<(Items, Tables), Failure>(d@),
            Err(e) => spec_base(defaults@, fragment@) == Err::<(Items, Tables), Failure>(
                e.spec_kind(0),
            ) && e.spec_path() is None,
        },
{
    let d = match Document::parse(defaults) {
        Ok(d) => d,
        Err(detail) => {
            return Err(ConfigError::Defaults { detail });
        },
    };
    let f = match Document::parse(fragment) {
        Ok(f) => f,
        Err(detail) => {
            return Err(ConfigError::Fragment { detail });
        },
    };
    match d.overlay(f) {
        Ok(doc) => Ok(doc),
        Err(detail) => Err(ConfigError::Builtin { detail }),
    }
}

/// Lays the override file found at `path`, with the text `text`, over the
/// document.
pub fn layer(doc: Document, path: &str, text: &str) -> (r: Result<Document, ConfigError>)
    ensures
        match r {
            Ok(d) => spec_layer(doc@, text@, 0) == Ok::<(Items, Tables), Failure>(d@),
            Err(e) => spec_layer(doc@, text@, 0) == Err::<(Items, Tables), Failure>(e.spec_kind(0))
                && e.spec_path() == Some(path@),
        },
{
    let over = match Document::parse(text) {
        Ok(o) => o,
        Err(detail) => {
            return Err(ConfigError::Parse { path: path.to_owned(), detail });
        },
    };
    match doc.overlay(over) {
        Ok(d) => Ok(d),
        Err(detail) => Err(ConfigError::Merge { path: path.to_owned(), detail }),
    }
}

/// Merges the whole configuration: the defaults, the fragment of the
/// platform, the override files in their order, and the processor count on
/// top. On a failure that is about an override file, the error names the
/// file's path.
pub fn merge(defaults: &str, fragment: &str, layers: &Vec<Layer>, cpus: u32) -> (r: Result<
    Document,
    ConfigError,
>)
    ensures
        match r {
            Ok(d) => spec_merge(defaults@, fragment@, layer_texts(layers@), cpus as nat) == Ok::<
                (Items, Tables),
                Failure,
            >(d@),
            Err(e) => exists|place: nat|
                spec_merge(defaults@, fragment@, layer_texts(layers@), cpus as nat) == Err::<
                    (Items, Tables),
                    Failure,
                >(#[trigger] e.spec_kind(place)) && (e.spec_path() is Some ==> place < layers.len()
                    && e.spec_path() == Some(layers[place as int].path@)),
        },
{
    let mut doc = match base(defaults, fragment) {
        Ok(d) => d,
        Err(e) => {
            assert(spec_merge(defaults@, fragment@, layer_texts(layers@), cpus as nat) == Err::<
                (Items, Tables),
                Failure,
            >(e.spec_kind(0)));
            return Err(e);
        },
    };
    let ghost texts = layer_texts(layers@);
    let ghost built_in = doc@;
    let mut i: usize = 0;
    assert(texts.take(0) =~= Seq::<Seq<char>>::empty());
    while i < layers.len()
        invariant
            i <= layers.len(),
            texts == layer_texts(layers@),
            spec_layers(built_in, texts.take(i as int)) == Ok::<(Items, Tables), Failure>(doc@),
            spec_base(defaults@, fragment@) == Ok::<(Items, Tables), Failure>(built_in),
        decreases layers.len() - i,
    {
        let ghost before = doc@;
        proof {
            assert(texts.take(i + 1).drop_last() =~= texts.take(i as int));
            assert(texts.take(i + 1).last() == layers[i as int].text@);
        }
        match layer(doc, layers[i].path.as_str(), layers[i].text.as_str()) {
            Ok(d) => {
                doc = d;
            },
            Err(e) => {
                proof {
                    lemma_layers_failure(built_in, texts, (i + 1) as nat);
                    assert(spec_layer(before, layers[i as int].text@, i as nat) == Err::<
                        (Items, Tables),
                        Failure,
                    >(e.spec_kind(i as nat)));
                    assert(spec_merge(defaults@, fragment@, texts, cpus as nat) == Err::<
                        (Items, Tables),
                        Failure,
                    >(e.spec_kind(i as nat)));
                }
                return Err(e);
            },
        }
        proof {
            assert(spec_layer(before, layers[i as int].text@, i as nat) == Ok::<
                (Items, Tables),
                Failure,
            >(doc@));
        }
        i += 1;
    }
    assert(texts.take(i as int) =~= texts);
    match doc.with_cpus(cpus) {
        Ok(d) => Ok(d),
        Err(e) => {
            assert(spec_merge(defaults@, fragment@, texts, cpus as nat) == Err::<
                (Items, Tables),
                Failure,
            >(e.spec_kind(0)));
            Err(e)
        },
    }
}

/// A failure at one of the first `n` override files is the failure of the
/// whole list.
pub proof fn lemma_layers_failure(doc: (Items, Tables), texts: Seq<Seq<char>>, n: nat)
    requires
        n <= texts.len(),
        spec_layers(doc, texts.take(n as int)) is Err,
    ensures
        spec_layers(doc, texts) == spec_layers(doc, texts.take(n as int)),
    decreases texts.len(),
{
    if n < texts.len() {
        assert(texts.drop_last().take(n as int) =~= texts.take(n as int));
        lemma_layers_failure(doc, texts.drop_last(), n);
    } else {
        assert(texts.take(n as int) =~= texts);
    }
}

/// Later layers win: in a document laid over another, every item of the
/// upper one has the upper one's value, and every item that only the lower
/// one has is unchanged.
pub proof fn lemma_later_layer_wins(base: (Items, Tables), over: (Items, Tables), k: ItemKey)
    requires
        overlaid(base, over) is Some,
    ensures
        over.0.dom().contains(k) ==> overlaid(base, over).unwrap().0.dom().contains(k) && overlaid(
            base,
            over,
        ).unwrap().0[k].0 == over.0[k].0,
        base.0.dom().contains(k) && !over.0.dom().contains(k) ==> overlaid(
            base,
            over,
        ).unwrap().0.dom().contains(k) && overlaid(base, over).unwrap().0[k] == base.0[k],
{
}

/// The processor count of a merged document is the number asked for,
/// whatever the defaults, the platform and the override files say of it.
pub proof fn lemma_cpu_count_is_forced(
    defaults: Seq<char>,
    fragment: Seq<char>,
    texts: Seq<Seq<char>>,
    cpus: nat,
)
    ensures
        spec_merge(defaults, fragment, texts, cpus) matches Ok(doc) ==> doc.0.dom().contains(
            cpu_key(),
        ) && Some(doc.0[cpu_key()].0) == toml_value(crate::text::decimal(cpus)),
{
}

/// Merging is a function of its inputs: two documents merged from the same
/// texts, in the same order, with the same processor count, are serialised
/// to the same text.
pub proof fn lemma_merge_is_deterministic(
    first: Document,
    second: Document,
    defaults: Seq<char>,
    fragment: Seq<char>,
    texts: Seq<Seq<char>>,
    cpus: nat,
)
    requires
        spec_merge(defaults, fragment, texts, cpus) == Ok::<(Items, Tables), Failure>(first@),
        spec_merge(defaults, fragment, texts, cpus) == Ok::<(Items, Tables), Failure>(second@),
    ensures
        first.spec_toml() == second.spec_toml(),
{
}

/// Writing is idempotent: once the text of a merged document is on disk, a
/// second merge of the same inputs does not ask for another write.
pub proof fn lemma_second_write_is_skipped(
    first: Document,
    second: Document,
    defaults: Seq<char>,
    fragment: Seq<char>,
    texts: Seq<Seq<char>>,
    cpus: nat,
)
    requires
        spec_merge(defaults, fragment, texts, cpus) == Ok::<(Items, Tables), Failure>(first@),
        spec_merge(defaults, fragment, texts, cpus) == Ok::<(Items, Tables), Failure>(second@),
    ensures
        !spec_should_write(Some(first.spec_toml()), second.spec_toml()),
{
}

} // verus!
