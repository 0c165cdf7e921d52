//! Settings for the auto splitter, read from a TOML document.
//!
//! The settings are the top-level pairs of the document. Their values are
//! booleans, strings, integers and floats; a document with any other value at
//! its top level is refused.

use vstd::prelude::*;

use crate::splitter::SplitterThread;

verus! {

/// The bits are those of a float that is not a number.
pub open spec fn is_nan(bits: u64) -> bool {
    bits % 0x8000_0000_0000_0000 > 0x7ff0_0000_0000_0000
}

/// A value at the top level of a TOML document.
#[derive(Debug)]
pub enum TomlValue {
    /// A boolean.
    Boolean(bool),
    /// A string.
    String(String),
    /// An integer.
    Integer(i64),
    /// A float, as the bits of its double precision representation.
    Float(u64),
    /// A date or time, as its debug text.
    Datetime(String),
    /// An array, as its debug text.
    Array(String),
    /// A table, as its debug text.
    Table(String),
}

/// What a [`TomlValue`] is.
pub enum TomlValueView {
    /// A boolean.
    Boolean(bool),
    /// A string.
    String(Seq<char>),
    /// An integer.
    Integer(i64),
    /// A float, as the bits of its double precision representation.
    Float(u64),
    /// A date or time, as its debug text.
    Datetime(Seq<char>),
    /// An array, as its debug text.
    Array(Seq<char>),
    /// A table, as its debug text.
    Table(Seq<char>),
}

impl View for TomlValue {
    type V = TomlValueView;

    open spec fn view(&self) -> TomlValueView {
        match self {
            TomlValue::Boolean(value) => TomlValueView::Boolean(*value),
            TomlValue::String(value) => TomlValueView::String(value@),
            TomlValue::Integer(value) => TomlValueView::Integer(*value),
            TomlValue::Float(bits) => TomlValueView::Float(*bits),
            TomlValue::Datetime(text) => TomlValueView::Datetime(text@),
            TomlValue::Array(text) => TomlValueView::Array(text@),
            TomlValue::Table(text) => TomlValueView::Table(text@),
        }
    }
}

/// The top-level pairs of a TOML document, in the order of its table.
pub open spec fn pairs_view(pairs: Seq<(String, TomlValue)>) -> Seq<(Seq<char>, TomlValueView)> {
    pairs.map_values(|pair: (String, TomlValue)| (pair.0@, pair.1@))
}

/// No key occurs twice among the pairs.
pub open spec fn has_distinct_keys<V>(pairs: Seq<(Seq<char>, V)>) -> bool {
    forall|i: int, j: int|
        0 <= i < j < pairs.len() ==> (#[trigger] pairs[i]).0 != (#[trigger] pairs[j]).0
}

/// The value, but with one pattern for all floats that are not a number.
pub open spec fn canonical(value: TomlValueView) -> TomlValueView {
    match value {
        TomlValueView::Float(bits) => if is_nan(bits) {
            TomlValueView::Float(0x7ff8_0000_0000_0000)
        } else {
            value
        },
        _ => value,
    }
}

/// The pairs with canonical values.
pub open spec fn canonical_pairs(pairs: Seq<(Seq<char>, TomlValueView)>) -> Seq<
    (Seq<char>, TomlValueView),
> {
    pairs.map_values(|pair: (Seq<char>, TomlValueView)| (pair.0, canonical(pair.1)))
}

/// What a result of parsing says.
pub open spec fn parsed_view(parsed: Result<Vec<(String, TomlValue)>, String>) -> Result<
    Seq<(Seq<char>, TomlValueView)>,
    Seq<char>,
> {
    match parsed {
        Ok(pairs) => Ok(pairs_view(pairs@)),
        Err(message) => Err(message@),
    }
}

/// The parsed pairs are those of the document, up to the bits of floats that
/// are not a number, or the error is that of the document.
pub open spec fn is_reading(
    parsed: Result<Seq<(Seq<char>, TomlValueView)>, Seq<char>>,
    document: Result<Seq<(Seq<char>, TomlValueView)>, Seq<char>>,
) -> bool {
    match (parsed, document) {
        (Ok(pairs), Ok(expected)) => canonical_pairs(pairs) == expected,
        (Err(message), Err(expected)) => message == expected,
        _ => false,
    }
}

/// What `toml::from_str` makes of a text: the top-level pairs of the document,
/// in the order in which its table is walked, with canonical values, or the
/// message of the error if the text is no TOML document. Dates, arrays and
/// tables are given by the text that `Debug` makes of a `toml::Value`.
pub uninterp spec fn toml_document(text: Seq<char>) -> Result<
    Seq<(Seq<char>, TomlValueView)>,
    Seq<char>,
>;

/// `toml::from_str` reads a document into a table, or fails if the text is no
/// TOML document. What it reads, and the message of its error, depend on the
/// text alone, up to the bits of a float that is not a number, which are left
/// unsaid. A table holds each of its keys once.
#[verifier::external_body]
fn parse_toml(text: &str) -> (parsed: Result<Vec<(String, TomlValue)>, String>)
    ensures
        is_reading(parsed_view(parsed), toml_document(text@)),
        parsed matches Ok(pairs) ==> has_distinct_keys(pairs_view(pairs@)),
{
    let mut pairs = Vec::new();
    for (key, value) in toml::from_str::<toml::Table>(text).map_err(|e| e.to_string())? {
        let value = match value {
            toml::Value::Boolean(x) => TomlValue::Boolean(x),
            toml::Value::String(x) => TomlValue::String(x),
            toml::Value::Integer(x) => TomlValue::Integer(x),
            toml::Value::Float(x) => TomlValue::Float(x.to_bits()),
            toml::Value::Datetime(_) => TomlValue::Datetime(format!("{value:?}")),
            toml::Value::Array(_) => TomlValue::Array(format!("{value:?}")),
            toml::Value::Table(_) => TomlValue::Table(format!("{value:?}")),
        };
        pairs.push((key, value));
    }
    Ok(pairs)
}

/// The value of a setting.
#[derive(Debug)]
pub enum SettingValue {
    /// A boolean.
    Bool(bool),
    /// A string.
    String(String),
    /// An integer.
    I64(i64),
    /// A float, as the bits of its double precision representation.
    F64(u64),
}

/// What a [`SettingValue`] is.
pub enum SettingValueView {
    /// A boolean.
    Bool(bool),
    /// A string.
    String(Seq<char>),
    /// An integer.
    I64(i64),
    /// A float, as the bits of its double precision representation.
    F64(u64),
}

impl View for SettingValue {
    type V = SettingValueView;

    open spec fn view(&self) -> SettingValueView {
        match self {
            SettingValue::Bool(value) => SettingValueView::Bool(*value),
            SettingValue::String(value) => SettingValueView::String(value@),
            SettingValue::I64(value) => SettingValueView::I64(*value),
            SettingValue::F64(bits) => SettingValueView::F64(*bits),
        }
    }
}

/// Why a document was refused.
#[derive(Debug)]
pub enum SettingsError {
    /// The text is no TOML document; the message of the parser is given.
    Toml(String),
    /// A value is of a type that no setting can have; its debug text is given.
    Unsupported(String),
}

/// What a [`SettingsError`] says.
pub enum SettingsErrorView {
    /// The text is no TOML document; the message of the parser is given.
    Toml(Seq<char>),
    /// A value is of a type that no setting can have; its debug text is given.
    Unsupported(Seq<char>),
}

impl View for SettingsError {
    type V = SettingsErrorView;

    open spec fn view(&self) -> SettingsErrorView {
        match self {
            SettingsError::Toml(message) => SettingsErrorView::Toml(message@),
            SettingsError::Unsupported(text) => SettingsErrorView::Unsupported(text@),
        }
    }
}

/// The setting that a value of a document stands for, or the debug text of the
/// value if no setting can have it.
pub open spec fn setting_of(value: TomlValueView) -> Result<SettingValueView, Seq<char>> {
    match value {
        TomlValueView::Boolean(x) => Ok(SettingValueView::Bool(x)),
        TomlValueView::String(x) => Ok(SettingValueView::String(x)),
        TomlValueView::Integer(x) => Ok(SettingValueView::I64(x)),
        TomlValueView::Float(x) => Ok(SettingValueView::F64(x)),
        TomlValueView::Datetime(text) => Err(text),
        TomlValueView::Array(text) => Err(text),
        TomlValueView::Table(text) => Err(text),
    }
}

/// A map of settings. It keeps the order in which the keys were first
/// inserted.
#[derive(Debug)]
pub struct SettingsMap {
    entries: Vec<(String, SettingValue)>,
}

/// The entries of a map of settings.
pub open spec fn entries_view(entries: Seq<(String, SettingValue)>) -> Seq<
    (Seq<char>, SettingValueView),
> {
    entries.map_values(|entry: (String, SettingValue)| (entry.0@, entry.1@))
}

/// The entries after a setting is inserted: its value replaces that of the
/// entry with the same key, or else a new entry comes last.
pub open spec fn inserted(
    entries: Seq<(Seq<char>, SettingValueView)>,
    key: Seq<char>,
    value: SettingValueView,
) -> Seq<(Seq<char>, SettingValueView)> {
    if exists|i: int| 0 <= i < entries.len() && (#[trigger] entries[i]).0 == key {
        entries.map_values(
            |entry: (Seq<char>, SettingValueView)|
                if entry.0 == key {
                    (key, value)
                } else {
                    entry
                },
        )
    } else {
        entries.push((key, value))
    }
}

/// What comes of inserting pairs one after the other: the entries, and the
/// error of the first pair that is no setting. The pairs before it stay
/// inserted, those after it are not looked at.
pub open spec fn filled(
    entries: Seq<(Seq<char>, SettingValueView)>,
    pairs: Seq<(Seq<char>, TomlValueView)>,
) -> (Seq<(Seq<char>, SettingValueView)>, Result<(), SettingsErrorView>)
    decreases pairs.len(),
{
    if pairs.len() == 0 {
        (entries, Ok(()))
    } else {
        match setting_of(pairs[0].1) {
            Ok(value) => filled(inserted(entries, pairs[0].0, value), pairs.drop_first()),
            Err(text) => (entries, Err(SettingsErrorView::Unsupported(text))),
        }
    }
}

impl View for SettingsMap {
    type V = Seq<(Seq<char>, SettingValueView)>;

    closed spec fn view(&self) -> Seq<(Seq<char>, SettingValueView)> {
        entries_view(self.entries@)
    }
}

impl SettingsMap {
    /// No key occurs twice.
    pub open spec fn wf(self) -> bool {
        has_distinct_keys(self@)
    }

    /// An empty map.
    pub fn new() -> (map: SettingsMap)
        ensures
            map.wf(),
            map@.len() == 0,
    {
        SettingsMap { entries: Vec::new() }
    }

    /// Sets a setting.
    pub fn insert(&mut self, key: String, value: SettingValue)
        requires
            old(self).wf(),
        ensures
            final(self).wf(),
            final(self)@ == inserted(old(self)@, key@, value@),
    {
        let mut i: usize = 0;
        while i < self.entries.len()
            invariant
                self.wf(),
                self.entries == old(self).entries,
                i <= self.entries.len(),
                forall|j: int| 0 <= j < i ==> (#[trigger] self.entries@[j]).0@ != key@,
            decreases self.entries.len() - i,
        {
            if self.entries[i].0 == key {
                let ghost before = self@;
                assert(before[i as int].0 == key@);
                self.entries.set(i, (key, value));
                assert(self@ =~= inserted(before, key@, value@)) by {
                    assert forall|j: int| 0 <= j < before.len() && j != i implies (
                    #[trigger] before[j]).0 != key@ by {
                        assert(before[i as int].0 == key@);
                    }
                }
                return ;
            }
            i += 1;
        }
        let ghost before = self@;
        assert forall|j: int| 0 <= j < before.len() implies (#[trigger] before[j]).0 != key@ by {
            assert(before[j].0 == self.entries@[j].0@);
        }
        self.entries.push((key, value));
        assert(self@ =~= inserted(before, key@, value@));
    }

    /// The entries of the map, in order.
    pub fn into_entries(self) -> (entries: Vec<(String, SettingValue)>)
        ensures
            entries_view(entries@) == self@,
    {
        self.entries
    }
}

/// The setting that a value of a document stands for, or the error that names
/// the value.
pub fn to_setting(value: TomlValue) -> (setting: Result<SettingValue, SettingsError>)
    ensures
        match setting_of(value@) {
            Ok(expected) => setting matches Ok(s) && s@ == expected,
            Err(text) => setting matches Err(e) && e@ == SettingsErrorView::Unsupported(text),
        },
        value matches TomlValue::Boolean(x) ==> (setting matches Ok(SettingValue::Bool(y)) && y
            == x),
        value matches TomlValue::String(x) ==> (setting matches Ok(SettingValue::String(y)) && y@
            == x@),
        value matches TomlValue::Integer(x) ==> (setting matches Ok(SettingValue::I64(y)) && y
            == x),
        value matches TomlValue::Float(x) ==> (setting matches Ok(SettingValue::F64(y)) && y == x),
{
    match value {
        TomlValue::Boolean(x) => Ok(SettingValue::Bool(x)),
        TomlValue::String(x) => Ok(SettingValue::String(x)),
        TomlValue::Integer(x) => Ok(SettingValue::I64(x)),
        TomlValue::Float(bits) => Ok(SettingValue::F64(bits)),
        TomlValue::Datetime(text) | TomlValue::Array(text) | TomlValue::Table(text) => {
            Err(SettingsError::Unsupported(text))
        },
    }
}

/// Inserts the pairs of a document into the map, up to the first that is no
/// setting.
pub fn fill(pairs: Vec<(String, TomlValue)>, map: &mut SettingsMap) -> (result: Result<
    (),
    SettingsError,
>)
    requires
        old(map).wf(),
    ensures
        final(map).wf(),
        final(map)@ == filled(old(map)@, pairs_view(pairs@)).0,
        result_view(result) == filled(old(map)@, pairs_view(pairs@)).1,
{
    let ghost all = pairs_view(pairs@);
    assert(all.skip(0) =~= all);
    for pair in iter: pairs
        invariant
            map.wf(),
            all == pairs_view(iter.seq()),
            filled(old(map)@, all) == filled(map@, all.skip(iter.index() as int)),
    {
        let ghost rest = all.skip(iter.index() as int);
        assert(rest[0] == (pair.0@, pair.1@));
        assert(rest.drop_first() =~= all.skip(iter.index() as int + 1));
        match to_setting(pair.1) {
            Ok(value) => map.insert(pair.0, value),
            Err(error) => return Err(error),
        }
    }
    Ok(())
}

/// What a result of reading settings says.
pub open spec fn result_view(result: Result<(), SettingsError>) -> Result<(), SettingsErrorView> {
    match result {
        Ok(()) => Ok(()),
        Err(error) => Err(error@),
    }
}

/// What comes of reading the settings of a document, given what parsing it
/// gave: the entries, and the error if there is one.
pub open spec fn loaded(
    entries: Seq<(Seq<char>, SettingValueView)>,
    parsed: Result<Seq<(Seq<char>, TomlValueView)>, Seq<char>>,
) -> (Seq<(Seq<char>, SettingValueView)>, Result<(), SettingsErrorView>) {
    match parsed {
        Ok(pairs) => filled(entries, pairs),
        Err(message) => (entries, Err(SettingsErrorView::Toml(message))),
    }
}

impl SplitterThread {
    /// Reads the settings of a TOML document into the map.
    pub fn load_settings(text: &str, map: &mut SettingsMap) -> (result: Result<(), SettingsError>)
        requires
            old(map).wf(),
        ensures
            final(map).wf(),
            exists|parsed: Result<Seq<(Seq<char>, TomlValueView)>, Seq<char>>|
                {
                    &&& #[trigger] is_reading(parsed, toml_document(text@))
                    &&& final(map)@ == loaded(old(map)@, parsed).0
                    &&& old(map)@.len() == 0 && result is Ok ==> final(map)@ == settings_of(
                        parsed->Ok_0,
                    )
                },
            result_view(result) == loaded(old(map)@, toml_document(text@)).1,
            old(map)@.len() == 0 && result is Ok ==> (toml_document(text@) matches Ok(pairs) && {
                &&& final(map)@.len() == pairs.len()
                &&& forall|i: int|
                    0 <= i < pairs.len() ==> {
                        &&& (#[trigger] final(map)@[i]).0 == pairs[i].0
                        &&& match (pairs[i].1, final(map)@[i].1) {
                            (TomlValueView::Boolean(x), SettingValueView::Bool(y)) => x == y,
                            (TomlValueView::String(x), SettingValueView::String(y)) => x == y,
                            (TomlValueView::Integer(x), SettingValueView::I64(y)) => x == y,
                            (TomlValueView::Float(x), SettingValueView::F64(y)) => x == y || is_nan(
                                x,
                            ) && is_nan(y),
                            _ => false,
                        }
                    }
            }),
            toml_document(text@) matches Ok(pairs) ==> has_distinct_keys(pairs),
    {
        let parsed = parse_toml(text);
        proof {
            let view = parsed_view(parsed);
            law_readings_agree(map@, view, toml_document(text@));
            if let Ok(pairs) = view {
                assert(forall|i: int|
                    0 <= i < pairs.len() ==> (#[trigger] canonical_pairs(pairs)[i]).0
                        == pairs[i].0);
                law_fill_succeeds_on_settings(map@, pairs);
                if map@.len() == 0 && filled(map@, pairs).1 is Ok {
                    law_document_becomes_its_settings(pairs);
                    law_reading_keeps_the_document(pairs, toml_document(text@)->Ok_0);
                    assert(map@ =~= seq![]);
                }
            }
        }
        match parsed {
            Ok(pairs) => fill(pairs, map),
            Err(message) => Err(SettingsError::Toml(message)),
        }
    }
}

/// Whatever bits a parser gives to floats that are not a number, the same
/// documents are refused, with the same errors, and the settings have the same
/// keys in the same order.
pub proof fn law_readings_agree(
    entries: Seq<(Seq<char>, SettingValueView)>,
    parsed: Result<Seq<(Seq<char>, TomlValueView)>, Seq<char>>,
    document: Result<Seq<(Seq<char>, TomlValueView)>, Seq<char>>,
)
    requires
        is_reading(parsed, document),
    ensures
        loaded(entries, parsed).1 == loaded(entries, document).1,
        keys_of(loaded(entries, parsed).0) == keys_of(loaded(entries, document).0),
{
    if let Ok(pairs) = parsed {
        lemma_canonical_pairs_fill_alike(entries, entries, pairs);
    }
}

/// If no float of the document is not a number, there is one reading only: the
/// document itself.
pub proof fn law_reading_of_numbers_is_exact(
    parsed: Result<Seq<(Seq<char>, TomlValueView)>, Seq<char>>,
    document: Result<Seq<(Seq<char>, TomlValueView)>, Seq<char>>,
)
    requires
        is_reading(parsed, document),
        document matches Ok(pairs) ==> forall|i: int|
            0 <= i < pairs.len() ==> !((#[trigger] pairs[i]).1 is Float && is_nan(
                pairs[i].1->Float_0,
            )),
    ensures
        parsed == document,
{
    if let Ok(pairs) = parsed {
        let expected = document->Ok_0;
        assert forall|i: int| 0 <= i < pairs.len() implies #[trigger] pairs[i] == expected[i] by {
            assert(expected[i] == (pairs[i].0, canonical(pairs[i].1)));
        }
        assert(pairs =~= expected);
    }
}

/// The keys of the entries, in order.
pub open spec fn keys_of(entries: Seq<(Seq<char>, SettingValueView)>) -> Seq<Seq<char>> {
    entries.map_values(|entry: (Seq<char>, SettingValueView)| entry.0)
}

/// Canonical pairs are refused for the same reason as the pairs themselves, and
/// leave entries with the same keys.
proof fn lemma_canonical_pairs_fill_alike(
    a: Seq<(Seq<char>, SettingValueView)>,
    b: Seq<(Seq<char>, SettingValueView)>,
    pairs: Seq<(Seq<char>, TomlValueView)>,
)
    requires
        keys_of(a) == keys_of(b),
    ensures
        filled(a, pairs).1 == filled(b, canonical_pairs(pairs)).1,
        keys_of(filled(a, pairs).0) == keys_of(filled(b, canonical_pairs(pairs)).0),
    decreases pairs.len(),
{
    if pairs.len() > 0 {
        let other = canonical_pairs(pairs);
        assert(other[0] == (pairs[0].0, canonical(pairs[0].1)));
        assert(other.drop_first() =~= canonical_pairs(pairs.drop_first()));
        if let Ok(value) = setting_of(pairs[0].1) {
            let next = setting_of(other[0].1)->Ok_0;
            lemma_inserted_keys(a, b, pairs[0].0, value, next);
            lemma_canonical_pairs_fill_alike(
                inserted(a, pairs[0].0, value),
                inserted(b, pairs[0].0, next),
                pairs.drop_first(),
            );
        }
    }
}

/// The keys after an insertion depend on the keys before it only.
proof fn lemma_inserted_keys(
    a: Seq<(Seq<char>, SettingValueView)>,
    b: Seq<(Seq<char>, SettingValueView)>,
    key: Seq<char>,
    x: SettingValueView,
    y: SettingValueView,
)
    requires
        keys_of(a) == keys_of(b),
    ensures
        keys_of(inserted(a, key, x)) == keys_of(inserted(b, key, y)),
{
    assert(a.len() == keys_of(a).len() && b.len() == keys_of(b).len());
    assert forall|i: int| 0 <= i < a.len() implies (#[trigger] a[i]).0 == b[i].0 by {
        assert(keys_of(a)[i] == a[i].0);
        assert(keys_of(b)[i] == b[i].0);
    }
    if exists|i: int| 0 <= i < a.len() && (#[trigger] a[i]).0 == key {
        let i = choose|i: int| 0 <= i < a.len() && (#[trigger] a[i]).0 == key;
        assert(b[i].0 == key);
    }
    if exists|i: int| 0 <= i < b.len() && (#[trigger] b[i]).0 == key {
        let i = choose|i: int| 0 <= i < b.len() && (#[trigger] b[i]).0 == key;
        assert(a[i].0 == key);
    }
    assert(keys_of(inserted(a, key, x)) =~= keys_of(inserted(b, key, y)));
}

/// The message about a value that no setting can have.
pub fn unsupported_message(text: &str) -> (message: String)
    ensures
        message@ == "Unsupported value type: "@ + text@,
{
    let mut message = "Unsupported value type: ".to_owned();
    message.append(text);
    message
}

/// The settings that the pairs of a document stand for, in their order.
pub open spec fn settings_of(pairs: Seq<(Seq<char>, TomlValueView)>) -> Seq<
    (Seq<char>, SettingValueView),
> {
    pairs.map_values(
        |pair: (Seq<char>, TomlValueView)| (pair.0, setting_of(pair.1)->Ok_0),
    )
}

/// A document can be read exactly if all of its values are settings.
/// Otherwise the error names the first value that is none.
pub proof fn law_fill_succeeds_on_settings(
    entries: Seq<(Seq<char>, SettingValueView)>,
    pairs: Seq<(Seq<char>, TomlValueView)>,
)
    ensures
        filled(entries, pairs).1 is Ok <==> forall|i: int|
            0 <= i < pairs.len() ==> setting_of((#[trigger] pairs[i]).1) is Ok,
        forall|i: int|
            0 <= i < pairs.len() && setting_of((#[trigger] pairs[i]).1) is Err && (forall|j: int|
                0 <= j < i ==> setting_of((#[trigger] pairs[j]).1) is Ok) ==> filled(
                entries,
                pairs,
            ).1 == Err::<(), SettingsErrorView>(
                SettingsErrorView::Unsupported(setting_of(pairs[i].1)->Err_0),
            ),
    decreases pairs.len(),
{
    if pairs.len() > 0 && setting_of(pairs[0].1) is Ok {
        let rest = pairs.drop_first();
        let next = inserted(entries, pairs[0].0, setting_of(pairs[0].1)->Ok_0);
        law_fill_succeeds_on_settings(next, rest);
        assert(forall|i: int| 0 <= i < rest.len() ==> #[trigger] rest[i] == pairs[i + 1]);
        assert(forall|i: int| 0 < i < pairs.len() ==> #[trigger] pairs[i] == rest[i - 1]);
    }
}

/// Read into an empty map, a document gives exactly its own pairs, in its
/// order.
pub proof fn law_fresh_map_mirrors_document(pairs: Seq<(Seq<char>, TomlValueView)>)
    requires
        has_distinct_keys(pairs),
        forall|i: int| 0 <= i < pairs.len() ==> setting_of((#[trigger] pairs[i]).1) is Ok,
    ensures
        filled(seq![], pairs).0 == settings_of(pairs),
{
    lemma_fill_new_keys(seq![], pairs);
    assert(seq![] + settings_of(pairs) =~= settings_of(pairs));
}

/// Pairs with new keys come after the entries of the map.
proof fn lemma_fill_new_keys(
    entries: Seq<(Seq<char>, SettingValueView)>,
    pairs: Seq<(Seq<char>, TomlValueView)>,
)
    requires
        has_distinct_keys(pairs),
        forall|i: int| 0 <= i < pairs.len() ==> setting_of((#[trigger] pairs[i]).1) is Ok,
        forall|i: int, j: int|
            0 <= i < entries.len() && 0 <= j < pairs.len() ==> (#[trigger] entries[i]).0 != (
            #[trigger] pairs[j]).0,
    ensures
        filled(entries, pairs).0 == entries + settings_of(pairs),
    decreases pairs.len(),
{
    if pairs.len() > 0 {
        let rest = pairs.drop_first();
        let next = inserted(entries, pairs[0].0, setting_of(pairs[0].1)->Ok_0);
        assert(next == entries.push((pairs[0].0, setting_of(pairs[0].1)->Ok_0)));
        assert(forall|i: int| 0 <= i < rest.len() ==> #[trigger] rest[i] == pairs[i + 1]);
        lemma_fill_new_keys(next, rest);
        assert(next + settings_of(rest) =~= entries + settings_of(pairs));
    } else {
        assert(entries + settings_of(pairs) =~= entries);
    }
}

/// After a setting is inserted the map has it, with the new value only. The
/// other settings are as before, and no key occurs twice.
pub proof fn law_insert_sets_one_setting(
    entries: Seq<(Seq<char>, SettingValueView)>,
    key: Seq<char>,
    value: SettingValueView,
)
    requires
        has_distinct_keys(entries),
    ensures
        has_distinct_keys(inserted(entries, key, value)),
        forall|v: SettingValueView|
            #[trigger] inserted(entries, key, value).contains((key, v)) <==> v == value,
        forall|k: Seq<char>, v: SettingValueView|
            k != key ==> (#[trigger] inserted(entries, key, value).contains((k, v))
                <==> entries.contains((k, v))),
{
    let after = inserted(entries, key, value);
    if exists|i: int| 0 <= i < entries.len() && (#[trigger] entries[i]).0 == key {
        let at = choose|i: int| 0 <= i < entries.len() && (#[trigger] entries[i]).0 == key;
        assert(after[at] == (key, value));
        assert forall|k: Seq<char>, v: SettingValueView| k != key implies (
        #[trigger] after.contains((k, v)) <==> entries.contains((k, v))) by {
            if entries.contains((k, v)) {
                let i = choose|i: int| 0 <= i < entries.len() && entries[i] == (k, v);
                assert(after[i] == (k, v));
            }
            if after.contains((k, v)) {
                let i = choose|i: int| 0 <= i < after.len() && after[i] == (k, v);
                assert(entries[i] == (k, v));
            }
        }
        assert(forall|i: int| 0 <= i < after.len() ==> (#[trigger] after[i]).0 == entries[i].0);
    } else {
        assert(after[entries.len() as int] == (key, value));
        assert forall|k: Seq<char>, v: SettingValueView| k != key implies (
        #[trigger] after.contains((k, v)) <==> entries.contains((k, v))) by {
            if entries.contains((k, v)) {
                let i = choose|i: int| 0 <= i < entries.len() && entries[i] == (k, v);
                assert(after[i] == (k, v));
            }
        }
    }
}

/// The bits of a float that is not a number have all bits of the exponent set
/// and some bit of the fraction.
pub proof fn law_bits_of_what_is_no_number(bits: u64)
    ensures
        is_nan(bits) <==> bits & 0x7ff0_0000_0000_0000 == 0x7ff0_0000_0000_0000 && bits
            & 0x000f_ffff_ffff_ffff != 0,
{
    assert(bits % 0x8000_0000_0000_0000 > 0x7ff0_0000_0000_0000 <==> bits & 0x7ff0_0000_0000_0000
        == 0x7ff0_0000_0000_0000 && bits & 0x000f_ffff_ffff_ffff != 0) by (bit_vector);
}

/// A setting keeps the value: booleans, strings, integers and floats become
/// settings of their own kind with the same value, bit by bit. Dates, arrays
/// and tables become none, and are named by their own text.
pub proof fn law_setting_keeps_the_value(value: TomlValueView)
    ensures
        value matches TomlValueView::Boolean(x) ==> setting_of(value) == Ok::<_, Seq<char>>(
            SettingValueView::Bool(x),
        ),
        value matches TomlValueView::String(x) ==> setting_of(value) == Ok::<_, Seq<char>>(
            SettingValueView::String(x),
        ),
        value matches TomlValueView::Integer(x) ==> setting_of(value) == Ok::<_, Seq<char>>(
            SettingValueView::I64(x),
        ),
        value matches TomlValueView::Float(x) ==> setting_of(value) == Ok::<_, Seq<char>>(
            SettingValueView::F64(x),
        ),
        value matches TomlValueView::Datetime(text) ==> setting_of(value) == Err::<
            SettingValueView,
            _,
        >(text),
        value matches TomlValueView::Array(text) ==> setting_of(value) == Err::<
            SettingValueView,
            _,
        >(text),
        value matches TomlValueView::Table(text) ==> setting_of(value) == Err::<
            SettingValueView,
            _,
        >(text),
{
}

/// No two values become the same setting.
pub proof fn law_settings_tell_values_apart(a: TomlValueView, b: TomlValueView)
    requires
        setting_of(a) is Ok,
        setting_of(a) == setting_of(b),
    ensures
        a == b,
{
}

/// What is said of values, errors and results says all of them.
pub proof fn law_views_keep_the_values(
    value: TomlValue,
    setting: SettingValue,
    error: SettingsError,
    result: Result<(), SettingsError>,
)
    ensures
        match value {
            TomlValue::Boolean(x) => value@ == TomlValueView::Boolean(x),
            TomlValue::String(x) => value@ == TomlValueView::String(x@),
            TomlValue::Integer(x) => value@ == TomlValueView::Integer(x),
            TomlValue::Float(x) => value@ == TomlValueView::Float(x),
            TomlValue::Datetime(x) => value@ == TomlValueView::Datetime(x@),
            TomlValue::Array(x) => value@ == TomlValueView::Array(x@),
            TomlValue::Table(x) => value@ == TomlValueView::Table(x@),
        },
        match setting {
            SettingValue::Bool(x) => setting@ == SettingValueView::Bool(x),
            SettingValue::String(x) => setting@ == SettingValueView::String(x@),
            SettingValue::I64(x) => setting@ == SettingValueView::I64(x),
            SettingValue::F64(x) => setting@ == SettingValueView::F64(x),
        },
        match error {
            SettingsError::Toml(x) => error@ == SettingsErrorView::Toml(x@),
            SettingsError::Unsupported(x) => error@ == SettingsErrorView::Unsupported(x@),
        },
        result is Ok <==> result_view(result) is Ok,
        result matches Err(e) ==> result_view(result) == Err::<(), _>(e@),
{
}

/// What is said of pairs and entries says all of them, each in its place.
pub proof fn law_views_keep_the_order(
    pairs: Seq<(String, TomlValue)>,
    entries: Seq<(String, SettingValue)>,
)
    ensures
        pairs_view(pairs).len() == pairs.len(),
        forall|i: int|
            0 <= i < pairs.len() ==> #[trigger] pairs_view(pairs)[i] == (pairs[i].0@, pairs[i].1@),
        entries_view(entries).len() == entries.len(),
        forall|i: int|
            0 <= i < entries.len() ==> #[trigger] entries_view(entries)[i] == (
                entries[i].0@,
                entries[i].1@,
            ),
        has_distinct_keys(entries_view(entries)) <==> forall|i: int, j: int|
            0 <= i < j < entries.len() ==> (#[trigger] entries[i]).0@ != (
            #[trigger] entries[j]).0@,
{
    let view = entries_view(entries);
    assert(forall|i: int| 0 <= i < entries.len() ==> (#[trigger] view[i]).0 == entries[i].0@);
    assert(forall|i: int| 0 <= i < entries.len() ==> (#[trigger] entries[i]).0@ == view[i].0);
}

/// A reading has the keys of the document, in its order, each with the value
/// that it has there. Only where the document has a float that is not a number
/// may the reading have another one.
pub proof fn law_reading_keeps_the_document(
    parsed: Seq<(Seq<char>, TomlValueView)>,
    document: Seq<(Seq<char>, TomlValueView)>,
)
    requires
        is_reading(
            Ok::<Seq<(Seq<char>, TomlValueView)>, Seq<char>>(parsed),
            Ok::<Seq<(Seq<char>, TomlValueView)>, Seq<char>>(document),
        ),
    ensures
        parsed.len() == document.len(),
        forall|i: int|
            0 <= i < document.len() ==> {
                &&& (#[trigger] parsed[i]).0 == document[i].0
                &&& parsed[i].1 != document[i].1 ==> match (parsed[i].1, document[i].1) {
                    (TomlValueView::Float(x), TomlValueView::Float(y)) => is_nan(x) && is_nan(y),
                    _ => false,
                }
            },
{
    assert forall|i: int| 0 <= i < document.len() implies {
        &&& (#[trigger] parsed[i]).0 == document[i].0
        &&& parsed[i].1 != document[i].1 ==> match (parsed[i].1, document[i].1) {
            (TomlValueView::Float(x), TomlValueView::Float(y)) => is_nan(x) && is_nan(y),
            _ => false,
        }
    } by {
        assert(document[i] == (parsed[i].0, canonical(parsed[i].1)));
    }
}

/// A text that is no document changes no setting, and the error is the message
/// of the parser. No other error is given for it, and it for no document.
pub proof fn law_unreadable_document_changes_nothing(
    entries: Seq<(Seq<char>, SettingValueView)>,
    parsed: Result<Seq<(Seq<char>, TomlValueView)>, Seq<char>>,
)
    ensures
        parsed matches Err(message) ==> loaded(entries, parsed).0 == entries && loaded(
            entries,
            parsed,
        ).1 == Err::<(), _>(SettingsErrorView::Toml(message)),
        parsed matches Ok(pairs) ==> !(loaded(entries, parsed).1 matches Err(
            SettingsErrorView::Toml(_),
        )),
        parsed matches Ok(pairs) ==> loaded(entries, parsed) == filled(entries, pairs),
{
    if let Ok(pairs) = parsed {
        lemma_fill_errors(entries, pairs);
    }
}

/// Inserting pairs fails only for what a pair holds.
proof fn lemma_fill_errors(
    entries: Seq<(Seq<char>, SettingValueView)>,
    pairs: Seq<(Seq<char>, TomlValueView)>,
)
    ensures
        filled(entries, pairs).1 matches Err(error) ==> error is Unsupported,
    decreases pairs.len(),
{
    if pairs.len() > 0 && setting_of(pairs[0].1) is Ok {
        lemma_fill_errors(
            inserted(entries, pairs[0].0, setting_of(pairs[0].1)->Ok_0),
            pairs.drop_first(),
        );
    }
}

/// An inserted setting takes the place of the one with the same key, or else
/// comes last. All others stay where they are.
pub proof fn law_insert_keeps_the_order(
    entries: Seq<(Seq<char>, SettingValueView)>,
    key: Seq<char>,
    value: SettingValueView,
)
    ensures
        forall|i: int|
            0 <= i < entries.len() && entries[i].0 != key ==> #[trigger] inserted(
                entries,
                key,
                value,
            )[i] == entries[i],
        forall|i: int|
            0 <= i < entries.len() && entries[i].0 == key ==> #[trigger] inserted(
                entries,
                key,
                value,
            )[i] == (key, value),
        (exists|i: int| 0 <= i < entries.len() && (#[trigger] entries[i]).0 == key) ==> inserted(
            entries,
            key,
            value,
        ).len() == entries.len(),
        !(exists|i: int| 0 <= i < entries.len() && (#[trigger] entries[i]).0 == key) ==> inserted(
            entries,
            key,
            value,
        ).len() == entries.len() + 1 && inserted(entries, key, value).last() == (key, value),
{
}

/// Read into an empty map, each pair of a document becomes the setting with its
/// key and its value, of the same kind, at the same place.
pub proof fn law_document_becomes_its_settings(pairs: Seq<(Seq<char>, TomlValueView)>)
    requires
        has_distinct_keys(pairs),
        forall|i: int|
            0 <= i < pairs.len() ==> {
                let value = (#[trigger] pairs[i]).1;
                value is Boolean || value is String || value is Integer || value is Float
            },
    ensures
        filled(seq![], pairs).1 is Ok,
        filled(seq![], pairs).0 == settings_of(pairs),
        settings_of(pairs).len() == pairs.len(),
        forall|i: int|
            0 <= i < pairs.len() ==> {
                &&& (#[trigger] settings_of(pairs)[i]).0 == pairs[i].0
                &&& match (pairs[i].1, settings_of(pairs)[i].1) {
                    (TomlValueView::Boolean(x), SettingValueView::Bool(y)) => x == y,
                    (TomlValueView::String(x), SettingValueView::String(y)) => x == y,
                    (TomlValueView::Integer(x), SettingValueView::I64(y)) => x == y,
                    (TomlValueView::Float(x), SettingValueView::F64(y)) => x == y,
                    _ => false,
                }
            },
{
    law_fill_succeeds_on_settings(seq![], pairs);
    law_fresh_map_mirrors_document(pairs);
}

/// The pairs up to the first that is no setting are put into the map, one
/// after the other, so that of two with one key the later counts. All other
/// settings stay as they are, and all keys where they are. The rest of the
/// pairs does not matter but for the error, which names the first refused
/// value.
pub proof fn law_fill_sets_the_pairs(
    entries: Seq<(Seq<char>, SettingValueView)>,
    pairs: Seq<(Seq<char>, TomlValueView)>,
    n: int,
)
    requires
        has_distinct_keys(entries),
        0 <= n <= pairs.len(),
        forall|i: int|
            0 <= i < n ==> {
                let value = (#[trigger] pairs[i]).1;
                value is Boolean || value is String || value is Integer || value is Float
            },
        n < pairs.len() ==> pairs[n].1 is Datetime || pairs[n].1 is Array || pairs[n].1 is Table,
    ensures
        n == pairs.len() <==> filled(entries, pairs).1 is Ok,
        n < pairs.len() ==> match pairs[n].1 {
            TomlValueView::Datetime(text) => filled(entries, pairs).1 == Err::<(), _>(
                SettingsErrorView::Unsupported(text),
            ),
            TomlValueView::Array(text) => filled(entries, pairs).1 == Err::<(), _>(
                SettingsErrorView::Unsupported(text),
            ),
            TomlValueView::Table(text) => filled(entries, pairs).1 == Err::<(), _>(
                SettingsErrorView::Unsupported(text),
            ),
            _ => false,
        },
        has_distinct_keys(filled(entries, pairs).0),
        filled(entries, pairs).0.len() >= entries.len(),
        forall|i: int|
            0 <= i < entries.len() ==> (#[trigger] filled(entries, pairs).0[i]).0 == entries[i].0,
        forall|i: int|
            0 <= i < n && (forall|j: int| i < j < n ==> (#[trigger] pairs[j]).0 != pairs[i].0)
                ==> filled(entries, pairs).0.contains(
                (
                    (#[trigger] pairs[i]).0,
                    match pairs[i].1 {
                        TomlValueView::Boolean(x) => SettingValueView::Bool(x),
                        TomlValueView::String(x) => SettingValueView::String(x),
                        TomlValueView::Integer(x) => SettingValueView::I64(x),
                        TomlValueView::Float(x) => SettingValueView::F64(x),
                        _ => arbitrary(),
                    },
                ),
            ),
        forall|key: Seq<char>, value: SettingValueView|
            (forall|i: int| 0 <= i < n ==> (#[trigger] pairs[i]).0 != key) ==> (
            #[trigger] filled(entries, pairs).0.contains((key, value)) <==> entries.contains(
                (key, value),
            )),
    decreases n,
{
    if n > 0 {
        let rest = pairs.drop_first();
        let key = pairs[0].0;
        let value = setting_of(pairs[0].1)->Ok_0;
        let next = inserted(entries, key, value);
        let after = filled(next, rest).0;
        law_insert_sets_one_setting(entries, key, value);
        law_insert_keeps_the_order(entries, key, value);
        assert(forall|i: int| 0 <= i < rest.len() ==> #[trigger] rest[i] == pairs[i + 1]);
        assert(forall|i: int| 0 < i < pairs.len() ==> #[trigger] pairs[i] == rest[i - 1]);
        law_fill_sets_the_pairs(next, rest, n - 1);
        assert forall|i: int| 0 <= i < entries.len() implies (#[trigger] after[i]).0
            == entries[i].0 by {
            assert(next[i].0 == entries[i].0);
            assert(after[i].0 == next[i].0);
        }
        assert forall|i: int|
            0 <= i < n && (forall|j: int|
                i < j < n ==> (#[trigger] pairs[j]).0 != pairs[i].0) implies after.contains(
            ((#[trigger] pairs[i]).0, setting_of(pairs[i].1)->Ok_0),
        ) by {
            if i == 0 {
                assert forall|j: int| 0 <= j < n - 1 implies (#[trigger] rest[j]).0 != key by {
                    assert(pairs[j + 1].0 != key);
                }
                assert(next.contains((key, value)));
            } else {
                assert(rest[i - 1] == pairs[i]);
                assert forall|j: int| i - 1 < j < n - 1 implies (#[trigger] rest[j]).0 != rest[i
                    - 1].0 by {
                    assert(pairs[j + 1].0 != pairs[i].0);
                }
            }
        }
        assert forall|k: Seq<char>, v: SettingValueView|
            (forall|i: int| 0 <= i < n ==> (#[trigger] pairs[i]).0 != k) implies (
        #[trigger] after.contains((k, v)) <==> entries.contains((k, v))) by {
            assert(pairs[0].0 != k);
            assert forall|i: int| 0 <= i < n - 1 implies (#[trigger] rest[i]).0 != k by {
                assert(pairs[i + 1].0 != k);
            }
            assert(next.contains((k, v)) <==> entries.contains((k, v)));
        }
    }
}

} // verus!
