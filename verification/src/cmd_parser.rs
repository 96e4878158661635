//! Reader of comma-separated `key=value` device arguments.
//!
//! A device declares the parameters it knows; the argument text is then
//! split at commas, each item at its first `=`, and every value is stored
//! under its parameter. The first item may stand without a key: it is the
//! device type, kept under the empty key.

use vstd::prelude::*;
use vstd::string::*;
use crate::config::ConfigError;
use crate::config::ConfigErrorView;
use crate::text::find_sep;
use crate::text::next_sep;
use crate::text::lemma_next_sep;
use crate::text::parse_unsigned;
use crate::text::read_unsigned;
use crate::text::str_equal;
use crate::text::to_chars;

verus! {

/// The declared parameters of a device, each with the value given so far.
pub type Fields = Seq<(Seq<char>, Option<Seq<char>>)>;

/// Index of the first parameter named `key` at or after `from`, or the
/// number of parameters when there is none.
pub open spec fn key_index(fields: Fields, key: Seq<char>, from: int) -> int
    decreases fields.len() - from,
{
    if from < 0 || from >= fields.len() {
        fields.len() as int
    } else if fields[from].0 == key {
        from
    } else {
        key_index(fields, key, from + 1)
    }
}

/// The parameters after `key` was declared: a new parameter without a
/// value, or the old one with its value forgotten.
pub open spec fn declare(fields: Fields, key: Seq<char>) -> Fields {
    let at = key_index(fields, key, 0);
    if at < fields.len() {
        fields.update(at, (key, None))
    } else {
        fields.push((key, None))
    }
}

/// The value stored under `key`, if the parameter is declared and set.
pub open spec fn value_of(fields: Fields, key: Seq<char>) -> Option<Seq<char>> {
    let at = key_index(fields, key, 0);
    if at < fields.len() {
        fields[at].1
    } else {
        None
    }
}

/// What reading an argument text leaves behind: the parameters as far as
/// they were filled, and the error that stopped the reading, if any.
pub struct Reading {
    pub fields: Fields,
    pub error: Option<ConfigErrorView>,
}

/// The key under which an item is stored: the text before its first `=`;
/// without `=`, the empty key for the first item and the whole item for
/// the others.
pub open spec fn item_key(item: Seq<char>, first: bool) -> Seq<char> {
    let eq = next_sep(item, '=', 0);
    if eq < item.len() {
        item.subrange(0, eq)
    } else if first {
        Seq::<char>::empty()
    } else {
        item
    }
}

/// The value an item carries: the text after its first `=`; without `=`,
/// the whole item for the first item and nothing for the others.
pub open spec fn item_value(item: Seq<char>, first: bool) -> Seq<char> {
    let eq = next_sep(item, '=', 0);
    if eq < item.len() {
        item.subrange(eq + 1, item.len() as int)
    } else if first {
        item
    } else {
        Seq::<char>::empty()
    }
}

/// The text of an item before its first `=`, or the whole item.
pub open spec fn item_head(item: Seq<char>) -> Seq<char> {
    item.subrange(0, next_sep(item, '=', 0))
}

/// True when the text begins or ends with `c`.
pub open spec fn edged_by(s: Seq<char>, c: char) -> bool {
    s.len() > 0 && (s[0] == c || s.last() == c)
}

/// Stores one item. An item that begins or ends with `=` is rejected, as is
/// one for an undeclared parameter or for a parameter that has its value.
pub open spec fn apply_item(fields: Fields, name: Seq<char>, item: Seq<char>, first: bool) -> Reading {
    if edged_by(item, '=') {
        Reading { fields, error: Some(ConfigErrorView::InvalidParam(item, name)) }
    } else {
        let key = item_key(item, first);
        let at = key_index(fields, key, 0);
        if at >= fields.len() {
            Reading { fields, error: Some(ConfigErrorView::InvalidParam(item_head(item), name)) }
        } else if fields[at].1 is Some {
            Reading { fields, error: Some(ConfigErrorView::FieldRepeat(name, key)) }
        } else {
            Reading { fields: fields.update(at, (key, Some(item_value(item, first)))), error: None }
        }
    }
}

/// Stores the items of `s` from position `pos` on, stopping at the first
/// one that is rejected.
pub open spec fn apply_items(fields: Fields, name: Seq<char>, s: Seq<char>, pos: int, first: bool) -> Reading
    decreases s.len() - pos,
{
    let end = next_sep(s, ',', pos);
    let step = apply_item(fields, name, s.subrange(pos, end), first);
    if step.error is Some || end >= s.len() || end < pos {
        step
    } else {
        apply_items(step.fields, name, s, end + 1, false)
    }
}

/// Reads a whole argument text. A text that begins or ends with a comma is
/// rejected before anything is stored.
pub open spec fn read_params(fields: Fields, name: Seq<char>, s: Seq<char>) -> Reading {
    if edged_by(s, ',') {
        Reading { fields, error: Some(ConfigErrorView::InvalidParam(s, name)) }
    } else {
        apply_items(fields, name, s, 0, true)
    }
}

/// The name a conversion error gives a parameter: the device's name stands
/// for the empty key.
pub open spec fn field_label(name: Seq<char>, key: Seq<char>) -> Seq<char> {
    if key.len() == 0 {
        name
    } else {
        key
    }
}

/// The number stored under `key`, no larger than `max`; an error when the
/// value is not such a number.
pub open spec fn number_of(fields: Fields, name: Seq<char>, key: Seq<char>, max: int) -> Result<
    Option<int>,
    ConfigErrorView,
> {
    match value_of(fields, key) {
        None => Ok(None),
        Some(raw) => match parse_unsigned(raw, max) {
            Some(n) => Ok(Some(n)),
            None => Err(ConfigErrorView::ConvertValueFailed(field_label(name, key), raw)),
        },
    }
}

/// The truth value a switch text stands for.
pub open spec fn parse_switch(raw: Seq<char>) -> Option<bool> {
    if raw == "true"@ || raw == "on"@ || raw == "yes"@ {
        Some(true)
    } else if raw == "false"@ || raw == "off"@ || raw == "no"@ {
        Some(false)
    } else {
        None
    }
}

/// The switch stored under `key`; an error when the value is no switch.
pub open spec fn switch_of(fields: Fields, name: Seq<char>, key: Seq<char>) -> Result<
    Option<bool>,
    ConfigErrorView,
> {
    match value_of(fields, key) {
        None => Ok(None),
        Some(raw) => match parse_switch(raw) {
            Some(b) => Ok(Some(b)),
            None => Err(ConfigErrorView::ConvertValueFailed(field_label(name, key), raw)),
        },
    }
}

/// No parameter is declared twice.
pub open spec fn distinct_keys(fields: Fields) -> bool {
    forall|i: int, j: int|
        0 <= i < j < fields.len() ==> (#[trigger] fields[i]).0 != (#[trigger] fields[j]).0
}

/// `key_index` stays between its starting point and the end, points at a
/// parameter named `key` when it stops early, and skips none.
pub proof fn lemma_key_index(fields: Fields, key: Seq<char>, from: int)
    requires
        0 <= from <= fields.len(),
    ensures
        from <= key_index(fields, key, from) <= fields.len(),
        key_index(fields, key, from) < fields.len() ==> fields[key_index(fields, key, from)].0
            == key,
        forall|i: int| from <= i < key_index(fields, key, from) ==> (#[trigger] fields[i]).0 != key,
    decreases fields.len() - from,
{
    if from < fields.len() && fields[from].0 != key {
        lemma_key_index(fields, key, from + 1);
    }
}

/// Declaring a parameter declares none twice.
pub proof fn lemma_declare_keeps_keys_distinct(fields: Fields, key: Seq<char>)
    requires
        distinct_keys(fields),
    ensures
        distinct_keys(declare(fields, key)),
{
    lemma_key_index(fields, key, 0);
    let at = key_index(fields, key, 0);
    let after = declare(fields, key);
    assert forall|i: int, j: int| 0 <= i < j < after.len() implies (#[trigger] after[i]).0 != (
    #[trigger] after[j]).0 by {
        if at < fields.len() {
            assert(after[i].0 == fields[i].0 && after[j].0 == fields[j].0);
        } else if j < fields.len() {
            assert(after[i] == fields[i] && after[j] == fields[j]);
        } else {
            assert(after[i] == fields[i]);
        }
    }
}

/// Storing an item declares nothing: the parameters keep their names.
pub proof fn lemma_item_keeps_keys(fields: Fields, name: Seq<char>, item: Seq<char>, first: bool)
    ensures
        apply_item(fields, name, item, first).fields.len() == fields.len(),
        forall|i: int|
            0 <= i < fields.len() ==> (#[trigger] apply_item(fields, name, item, first).fields[i]).0
                == fields[i].0,
{
    lemma_key_index(fields, item_key(item, first), 0);
}

/// Reading an argument text declares nothing: the parameters keep their names.
pub proof fn lemma_items_keep_keys(
    fields: Fields,
    name: Seq<char>,
    s: Seq<char>,
    pos: int,
    first: bool,
)
    ensures
        apply_items(fields, name, s, pos, first).fields.len() == fields.len(),
        forall|i: int|
            0 <= i < fields.len() ==> (#[trigger] apply_items(
                fields,
                name,
                s,
                pos,
                first,
            ).fields[i]).0 == fields[i].0,
    decreases s.len() - pos,
{
    let end = next_sep(s, ',', pos);
    let step = apply_item(fields, name, s.subrange(pos, end), first);
    lemma_item_keeps_keys(fields, name, s.subrange(pos, end), first);
    if !(step.error is Some || end >= s.len() || end < pos) {
        lemma_items_keep_keys(step.fields, name, s, end + 1, false);
        let last = apply_items(step.fields, name, s, end + 1, false).fields;
        assert forall|i: int| 0 <= i < fields.len() implies (#[trigger] last[i]).0
            == fields[i].0 by {
            assert(step.fields[i].0 == fields[i].0);
        }
    }
}

/// Reading an argument text leaves no parameter declared twice.
pub proof fn lemma_reading_keeps_keys_distinct(fields: Fields, name: Seq<char>, s: Seq<char>)
    requires
        distinct_keys(fields),
    ensures
        distinct_keys(read_params(fields, name, s).fields),
{
    let after = read_params(fields, name, s).fields;
    if !edged_by(s, ',') {
        lemma_items_keep_keys(fields, name, s, 0, true);
    }
    assert forall|i: int, j: int| 0 <= i < j < after.len() implies (#[trigger] after[i]).0 != (
    #[trigger] after[j]).0 by {
        assert(after[i].0 == fields[i].0 && after[j].0 == fields[j].0);
    }
}

/// One declared parameter and the value given to it.
#[derive(Debug, Clone, PartialEq, Eq)]
pub struct Param {
    pub key: String,
    pub value: Option<String>,
}

/// The parameters of a parser, each by its view.
pub open spec fn param_views(params: Seq<Param>) -> Fields {
    params.map_values(|p: Param| (p.key@, crate::config::text_view(p.value)))
}

/// A `CmdParser` as mathematics: the device name and the parameters.
pub struct CmdParserView {
    pub name: Seq<char>,
    pub fields: Fields,
}

/// Reader of the arguments of one device.
///
/// A parameter is declared once: every parser that `new`, `push` and
/// `parse` can make has distinct keys.
#[derive(Debug, Clone, PartialEq, Eq)]
pub struct CmdParser {
    name: String,
    params: Vec<Param>,
}

impl View for CmdParser {
    type V = CmdParserView;

    closed spec fn view(&self) -> CmdParserView {
        CmdParserView { name: self.name@, fields: param_views(self.params@) }
    }
}

impl CmdParser {
    /// A parser for the device `name`, with no parameter declared.
    pub fn new(name: &str) -> (parser: CmdParser)
        ensures
            parser@.name == name@,
            parser@.fields == Seq::<(Seq<char>, Option<Seq<char>>)>::empty(),
            distinct_keys(parser@.fields),
    {
        let parser = CmdParser { name: String::from_str(name), params: Vec::new() };
        assert(parser@.fields =~= Seq::<(Seq<char>, Option<Seq<char>>)>::empty());
        parser
    }

    /// The name of the device whose arguments are read.
    pub fn name(&self) -> (name: String)
        ensures
            name@ == self@.name,
    {
        self.name.clone()
    }

    /// Position of the parameter `key`, or the number of parameters.
    fn position(&self, key: &str) -> (at: usize)
        ensures
            at == key_index(self@.fields, key@, 0),
            at <= self.params@.len(),
    {
        let wanted = String::from_str(key);
        let mut i: usize = 0;
        while i < self.params.len()
            invariant
                wanted@ == key@,
                i <= self.params@.len(),
                key_index(param_views(self.params@), key@, 0) == key_index(
                    param_views(self.params@),
                    key@,
                    i as int,
                ),
            decreases self.params@.len() - i,
        {
            if self.params[i].key == wanted {
                return i;
            }
            i = i + 1;
        }
        i
    }

    /// Declares the parameter `key`. Declaring it again forgets its value.
    pub fn push(&mut self, key: &str)
        ensures
            final(self)@.name == old(self)@.name,
            final(self)@.fields == declare(old(self)@.fields, key@),
            distinct_keys(old(self)@.fields) ==> distinct_keys(final(self)@.fields),
    {
        proof {
            if distinct_keys(self@.fields) {
                lemma_declare_keeps_keys_distinct(self@.fields, key@);
            }
        }
        let at = self.position(key);
        let param = Param { key: String::from_str(key), value: None };
        if at < self.params.len() {
            self.params.set(at, param);
        } else {
            self.params.push(param);
        }
        assert(self@.fields =~= declare(old(self)@.fields, key@));
    }

    /// Stores one item of an argument text.
    fn store(&mut self, item: &str, first: bool) -> (r: Result<(), ConfigError>)
        ensures
            final(self)@.name == old(self)@.name,
            final(self)@.fields == apply_item(old(self)@.fields, old(self)@.name, item@, first).fields,
            match r {
                Ok(()) => apply_item(old(self)@.fields, old(self)@.name, item@, first).error is None,
                Err(e) => apply_item(old(self)@.fields, old(self)@.name, item@, first).error
                    == Some(e@),
            },
    {
        let chars = to_chars(item);
        let n: usize = chars.len();
        if n > 0 && (chars[0] == '=' || chars[n - 1] == '=') {
            return Err(ConfigError::InvalidParam(String::from_str(item), self.name.clone()));
        }
        let eq = find_sep(&chars, '=', 0);
        let head = String::from_str(item.substring_char(0, eq));
        let key: String;
        let value: String;
        if eq < n {
            key = String::from_str(item.substring_char(0, eq));
            value = String::from_str(item.substring_char(eq + 1, n));
        } else if first {
            key = String::new();
            value = String::from_str(item);
        } else {
            key = String::from_str(item);
            value = String::new();
        }
        assert(key@ == item_key(item@, first));
        assert(value@ == item_value(item@, first));
        let at = self.position(key.as_str());
        if at >= self.params.len() {
            return Err(ConfigError::InvalidParam(head, self.name.clone()));
        }
        if self.params[at].value.is_some() {
            return Err(ConfigError::FieldRepeat(self.name.clone(), key));
        }
        let ghost before = self@.fields;
        self.params.set(at, Param { key, value: Some(value) });
        assert(self@.fields =~= before.update(
            at as int,
            (item_key(item@, first), Some(item_value(item@, first))),
        ));
        Ok(())
    }

    /// Reads the argument text `cmd_param` into the declared parameters.
    ///
    /// Reading stops at the first item that is rejected; the items before
    /// it stay stored.
    pub fn parse(&mut self, cmd_param: &str) -> (r: Result<(), ConfigError>)
        ensures
            final(self)@.name == old(self)@.name,
            final(self)@.fields == read_params(old(self)@.fields, old(self)@.name, cmd_param@).fields,
            match r {
                Ok(()) => read_params(old(self)@.fields, old(self)@.name, cmd_param@).error is None,
                Err(e) => read_params(old(self)@.fields, old(self)@.name, cmd_param@).error
                    == Some(e@),
            },
            distinct_keys(old(self)@.fields) ==> distinct_keys(final(self)@.fields),
    {
        proof {
            if distinct_keys(self@.fields) {
                lemma_reading_keeps_keys_distinct(self@.fields, self@.name, cmd_param@);
            }
        }
        let chars = to_chars(cmd_param);
        let n: usize = chars.len();
        if n > 0 && (chars[0] == ',' || chars[n - 1] == ',') {
            return Err(ConfigError::InvalidParam(String::from_str(cmd_param), self.name.clone()));
        }
        let ghost start = self@;
        let mut pos: usize = 0;
        let mut first = true;
        loop
            invariant
                chars@ == cmd_param@,
                n == chars@.len(),
                pos <= n,
                start == old(self)@,
                !edged_by(cmd_param@, ','),
                distinct_keys(start.fields) ==> distinct_keys(
                    read_params(start.fields, start.name, cmd_param@).fields,
                ),
                self@.name == start.name,
                apply_items(start.fields, start.name, cmd_param@, 0, true) == apply_items(
                    self@.fields,
                    start.name,
                    cmd_param@,
                    pos as int,
                    first,
                ),
            decreases n - pos,
        {
            let end = find_sep(&chars, ',', pos);
            proof {
                lemma_next_sep(cmd_param@, ',', pos as int);
            }
            let stored = self.store(cmd_param.substring_char(pos, end), first);
            match stored {
                Err(e) => {
                    return Err(e);
                },
                Ok(()) => {},
            }
            if end >= n {
                return Ok(());
            }
            pos = end + 1;
            first = false;
        }
    }

    /// The text stored under `key`, if any.
    pub fn get_value(&self, key: &str) -> (value: Option<String>)
        ensures
            crate::config::text_view(value) == value_of(self@.fields, key@),
    {
        let at = self.position(key);
        if at < self.params.len() {
            self.params[at].value.clone()
        } else {
            None
        }
    }

    /// The name under which a conversion error reports `key`.
    fn label(&self, key: &str) -> (label: String)
        ensures
            label@ == field_label(self@.name, key@),
    {
        if key.unicode_len() == 0 {
            self.name.clone()
        } else {
            String::from_str(key)
        }
    }

    /// The number stored under `key`, which may be as large as `max`.
    pub fn get_number(&self, key: &str, max: u32) -> (r: Result<Option<u32>, ConfigError>)
        ensures
            match r {
                Ok(Some(n)) => number_of(self@.fields, self@.name, key@, max as int) == Ok::<
                    Option<int>,
                    ConfigErrorView,
                >(Some(n as int)),
                Ok(None) => number_of(self@.fields, self@.name, key@, max as int) == Ok::<
                    Option<int>,
                    ConfigErrorView,
                >(None),
                Err(e) => number_of(self@.fields, self@.name, key@, max as int) == Err::<
                    Option<int>,
                    ConfigErrorView,
                >(e@),
            },
    {
        match self.get_value(key) {
            None => Ok(None),
            Some(raw) => match read_unsigned(raw.as_str(), max) {
                Some(n) => Ok(Some(n)),
                None => Err(ConfigError::ConvertValueFailed(self.label(key), raw)),
            },
        }
    }

    /// The switch stored under `key`.
    pub fn get_switch(&self, key: &str) -> (r: Result<Option<bool>, ConfigError>)
        ensures
            match r {
                Ok(b) => switch_of(self@.fields, self@.name, key@) == Ok::<
                    Option<bool>,
                    ConfigErrorView,
                >(b),
                Err(e) => switch_of(self@.fields, self@.name, key@) == Err::<
                    Option<bool>,
                    ConfigErrorView,
                >(e@),
            },
    {
        match self.get_value(key) {
            None => Ok(None),
            Some(raw) => {
                let text = raw.as_str();
                if str_equal(text, "true") || str_equal(text, "on") || str_equal(text, "yes") {
                    Ok(Some(true))
                } else if str_equal(text, "false") || str_equal(text, "off") || str_equal(
                    text,
                    "no",
                ) {
                    Ok(Some(false))
                } else {
                    Err(ConfigError::ConvertValueFailed(self.label(key), raw))
                }
            },
        }
    }
}

} // verus!
