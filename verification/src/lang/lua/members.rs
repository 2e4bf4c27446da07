//! What a class or a namespace holds besides functions: fields, properties,
//! signals, constants, aliases, enumerations and bitfields.

use crate::items::{append_items, lemma_all_items, lemma_next_item, no_items, push_item};
use crate::lang::{generated, GenerateError, GenerateErrorView};
use crate::lang::lua::function::{functions_text, gen_functions};
use crate::lang::lua::names::{show_anytyp, shown};
use crate::lang::lua::params::{
    gen_param_names_typed, gen_return_signal, return_signal, signal_field, signal_name,
    typed_names,
};
use crate::library::{
    Alias, AliasView, Bitfield, BitfieldView, Constant, ConstantView, Enumeration, EnumerationView,
    Field, FieldView, Member, MemberView, Property, PropertyView, Signal, SignalView,
};
use crate::text::{
    decimal_up_to, join, joined, parse_decimal, replace_char, swapped, to_uppercase, uppercase,
};
use vstd::prelude::*;
use vstd::string::StringExecFns;

verus! {

/// The line of a member in the table of its enumeration; nothing for a
/// member that is not to be shown.
pub open spec fn member_text(member: MemberView) -> Seq<char> {
    if member.info.introspectable {
        "\t[\""@ + uppercase(member.name) + "\"] = "@ + member.value + ",\n"@
    } else {
        Seq::empty()
    }
}

impl Member {
    /// Writes the member as an entry of the table of its enumeration.
    pub fn gen(&self) -> (text: String)
        ensures
            text@ == member_text(self.deep_view()),
    {
        if !self.info.introspectable {
            return String::new();
        }
        let mut text = "\t[\"".to_owned();
        text.append(to_uppercase(self.name.as_str()).as_str());
        text.append("\"] = ");
        text.append(self.value.as_str());
        text.append(",\n");
        text
    }
}

/// The line of a field; nothing for a private one.
pub open spec fn field_text(field: FieldView, ns: Seq<char>) -> Seq<char> {
    if field.private {
        Seq::empty()
    } else {
        "--- @field "@ + field.name + " "@ + shown(field.typ, ns) + "\n"@
    }
}

impl Field {
    /// Writes the field as a field of the class that it stands in.
    pub fn gen(&self, ns: &str) -> (text: String)
        ensures
            text@ == field_text(self.deep_view(), ns@),
    {
        if self.private {
            return String::new();
        }
        let mut text = "--- @field ".to_owned();
        text.append(self.name.as_str());
        text.append(" ");
        text.append(show_anytyp(&self.typ, ns).as_str());
        text.append("\n");
        text
    }
}

/// The line of a property: a field whose name has `_` for every `-`.
pub open spec fn property_text(property: PropertyView, ns: Seq<char>) -> Seq<char> {
    "--- @field "@ + swapped(property.name, '-', '_') + " "@ + shown(property.typ, ns) + "\n"@
}

impl Property {
    /// Writes the property as a field of the class that it stands in.
    pub fn gen(&self, ns: &str) -> (text: String)
        ensures
            text@ == property_text(self.deep_view(), ns@),
    {
        let mut text = "--- @field ".to_owned();
        text.append(replace_char(self.name.as_str(), '-', '_').as_str());
        text.append(" ");
        text.append(show_anytyp(&self.typ, ns).as_str());
        text.append("\n");
        text
    }
}

/// The line of a signal: a field that holds a handler, which takes the
/// object and then the parameters of the signal.
pub open spec fn signal_text(signal: SignalView, ns: Seq<char>) -> Seq<char> {
    if !signal.info.introspectable {
        Seq::empty()
    } else {
        let head = "--- @field "@ + signal_field(signal.name) + " fun("@ + joined(
            seq!["self"@] + typed_names(signal.parameters, ns),
            ", "@,
        );
        match return_signal(signal) {
            Some(ret) => head + "):"@ + ret + "\n"@,
            None => head + ")\n"@,
        }
    }
}

impl Signal {
    /// Writes the signal as a field of the class that it stands in.
    pub fn gen(&self, ns: &str) -> (text: String)
        ensures
            text@ == signal_text(self.deep_view(), ns@),
    {
        if !self.info.introspectable {
            return String::new();
        }
        let mut names: Vec<String> = no_items();
        push_item(&mut names, "self".to_owned());
        assert(names.deep_view() =~= seq!["self"@]);
        append_items(&mut names, gen_param_names_typed(&self.parameters, ns));
        let mut text = "--- @field ".to_owned();
        text.append(signal_name(self.name.as_str()).as_str());
        text.append(" fun(");
        text.append(join(&names, ", ").as_str());
        match gen_return_signal(self) {
            Some(ret) => {
                text.append("):");
                text.append(ret.as_str());
                text.append("\n");
            },
            None => {
                text.append(")\n");
            },
        }
        text
    }
}

/// The line of a constant: its value as it stands where that is a number,
/// and between quotes where it is not.
pub open spec fn constant_text(constant: ConstantView, ns: Seq<char>) -> Seq<char> {
    if !constant.info.introspectable {
        Seq::empty()
    } else if decimal_up_to(constant.value, u32::MAX as nat) is Some {
        ns + "."@ + constant.name + " = "@ + constant.value + "\n"@
    } else {
        ns + "."@ + constant.name + " = \""@ + constant.value + "\"\n"@
    }
}

impl Constant {
    /// Writes the constant as a field of the namespace `ns`.
    pub fn gen(&self, ns: &str) -> (text: String)
        ensures
            text@ == constant_text(self.deep_view(), ns@),
    {
        if !self.info.introspectable {
            return String::new();
        }
        let mut text = ns.to_owned();
        text.append(".");
        text.append(self.name.as_str());
        if parse_decimal(self.value.as_str(), u32::MAX as u64).is_some() {
            text.append(" = ");
            text.append(self.value.as_str());
            text.append("\n");
        } else {
            text.append(" = \"");
            text.append(self.value.as_str());
            text.append("\"\n");
        }
        text
    }
}

/// The line of an alias.
pub open spec fn alias_text(alias: AliasView, ns: Seq<char>) -> Seq<char> {
    "--- @alias "@ + ns + "."@ + alias.name + " "@ + shown(alias.typ, ns) + "\n"@
}

impl Alias {
    /// Writes the alias as an alias of the namespace `ns`.
    pub fn gen(&self, ns: &str) -> (text: String)
        ensures
            text@ == alias_text(self.deep_view(), ns@),
    {
        let mut text = "--- @alias ".to_owned();
        text.append(ns);
        text.append(".");
        text.append(self.name.as_str());
        text.append(" ");
        text.append(show_anytyp(&self.typ, ns).as_str());
        text.append("\n");
        text
    }
}

/// The lines of the fields `items`.
pub open spec fn fields_text(items: Seq<FieldView>, ns: Seq<char>) -> Seq<char>
    decreases items.len(),
{
    if items.len() == 0 {
        Seq::empty()
    } else {
        fields_text(items.drop_last(), ns) + field_text(items.last(), ns)
    }
}

/// Writes what `fields_text` gives.
pub(crate) fn gen_fields(items: &Vec<Field>, ns: &str) -> (text: String)
    ensures
        text@ == fields_text(items.deep_view(), ns@),
{
    let mut text = String::new();
    let mut i: usize = 0;
    while i < items.len()
        invariant
            i <= items.len(),
            text@ == fields_text(items.deep_view().take(i as int), ns@),
        decreases items.len() - i,
    {
        proof {
            lemma_next_item(items, i as int);
        }
        text.append(items[i].gen(ns).as_str());
        i += 1;
    }
    proof {
        lemma_all_items(items);
    }
    text
}

/// The lines of the properties `items`.
pub open spec fn properties_text(items: Seq<PropertyView>, ns: Seq<char>) -> Seq<char>
    decreases items.len(),
{
    if items.len() == 0 {
        Seq::empty()
    } else {
        properties_text(items.drop_last(), ns) + property_text(items.last(), ns)
    }
}

/// Writes what `properties_text` gives.
pub(crate) fn gen_properties(items: &Vec<Property>, ns: &str) -> (text: String)
    ensures
        text@ == properties_text(items.deep_view(), ns@),
{
    let mut text = String::new();
    let mut i: usize = 0;
    while i < items.len()
        invariant
            i <= items.len(),
            text@ == properties_text(items.deep_view().take(i as int), ns@),
        decreases items.len() - i,
    {
        proof {
            lemma_next_item(items, i as int);
        }
        text.append(items[i].gen(ns).as_str());
        i += 1;
    }
    proof {
        lemma_all_items(items);
    }
    text
}

/// The lines of the signals `items`.
pub open spec fn signals_text(items: Seq<SignalView>, ns: Seq<char>) -> Seq<char>
    decreases items.len(),
{
    if items.len() == 0 {
        Seq::empty()
    } else {
        signals_text(items.drop_last(), ns) + signal_text(items.last(), ns)
    }
}

/// Writes what `signals_text` gives.
pub(crate) fn gen_signals(items: &Vec<Signal>, ns: &str) -> (text: String)
    ensures
        text@ == signals_text(items.deep_view(), ns@),
{
    let mut text = String::new();
    let mut i: usize = 0;
    while i < items.len()
        invariant
            i <= items.len(),
            text@ == signals_text(items.deep_view().take(i as int), ns@),
        decreases items.len() - i,
    {
        proof {
            lemma_next_item(items, i as int);
        }
        text.append(items[i].gen(ns).as_str());
        i += 1;
    }
    proof {
        lemma_all_items(items);
    }
    text
}

/// The entries of the members `items`.
pub open spec fn members_text(items: Seq<MemberView>) -> Seq<char>
    decreases items.len(),
{
    if items.len() == 0 {
        Seq::empty()
    } else {
        members_text(items.drop_last()) + member_text(items.last())
    }
}

/// Writes what `members_text` gives.
fn gen_members(items: &Vec<Member>) -> (text: String)
    ensures
        text@ == members_text(items.deep_view()),
{
    let mut text = String::new();
    let mut i: usize = 0;
    while i < items.len()
        invariant
            i <= items.len(),
            text@ == members_text(items.deep_view().take(i as int)),
        decreases items.len() - i,
    {
        proof {
            lemma_next_item(items, i as int);
        }
        text.append(items[i].gen().as_str());
        i += 1;
    }
    proof {
        lemma_all_items(items);
    }
    text
}

/// The lines of the constants `items`.
pub open spec fn constants_text(items: Seq<ConstantView>, ns: Seq<char>) -> Seq<char>
    decreases items.len(),
{
    if items.len() == 0 {
        Seq::empty()
    } else {
        constants_text(items.drop_last(), ns) + constant_text(items.last(), ns)
    }
}

/// Writes what `constants_text` gives.
pub(crate) fn gen_constants(items: &Vec<Constant>, ns: &str) -> (text: String)
    ensures
        text@ == constants_text(items.deep_view(), ns@),
{
    let mut text = String::new();
    let mut i: usize = 0;
    while i < items.len()
        invariant
            i <= items.len(),
            text@ == constants_text(items.deep_view().take(i as int), ns@),
        decreases items.len() - i,
    {
        proof {
            lemma_next_item(items, i as int);
        }
        text.append(items[i].gen(ns).as_str());
        i += 1;
    }
    proof {
        lemma_all_items(items);
    }
    text
}

/// The lines of the aliases `items`.
pub open spec fn aliases_text(items: Seq<AliasView>, ns: Seq<char>) -> Seq<char>
    decreases items.len(),
{
    if items.len() == 0 {
        Seq::empty()
    } else {
        aliases_text(items.drop_last(), ns) + alias_text(items.last(), ns)
    }
}

/// Writes what `aliases_text` gives.
pub(crate) fn gen_aliases(items: &Vec<Alias>, ns: &str) -> (text: String)
    ensures
        text@ == aliases_text(items.deep_view(), ns@),
{
    let mut text = String::new();
    let mut i: usize = 0;
    while i < items.len()
        invariant
            i <= items.len(),
            text@ == aliases_text(items.deep_view().take(i as int), ns@),
        decreases items.len() - i,
    {
        proof {
            lemma_next_item(items, i as int);
        }
        text.append(items[i].gen(ns).as_str());
        i += 1;
    }
    proof {
        lemma_all_items(items);
    }
    text
}

/// The table of an enumeration: its members and its functions.
pub open spec fn enumeration_text(enumeration: EnumerationView, ns: Seq<char>) -> Result<
    Seq<char>,
    GenerateErrorView,
> {
    if !enumeration.info.introspectable {
        Ok(Seq::empty())
    } else {
        match functions_text(enumeration.functions, ""@, ns) {
            Ok(functions) => Ok(
                "--- @enum "@ + ns + "."@ + enumeration.name + "\n"@ + ns + "."@
                    + enumeration.name + " = {\n"@ + members_text(enumeration.members) + functions
                    + "}\n"@,
            ),
            Err(error) => Err(error),
        }
    }
}

impl Enumeration {
    /// Writes the enumeration as a table of the namespace `ns`.
    pub fn gen(&self, ns: &str) -> (text: Result<String, GenerateError>)
        ensures
            generated(text) == enumeration_text(self.deep_view(), ns@),
    {
        if !self.info.introspectable {
            return Ok(String::new());
        }
        let functions = gen_functions(&self.functions, "", ns)?;
        let mut text = "--- @enum ".to_owned();
        text.append(ns);
        text.append(".");
        text.append(self.name.as_str());
        text.append("\n");
        text.append(ns);
        text.append(".");
        text.append(self.name.as_str());
        text.append(" = {\n");
        text.append(gen_members(&self.members).as_str());
        text.append(functions.as_str());
        text.append("}\n");
        Ok(text)
    }
}

/// The table of a bitfield: its members and its functions. The table can be
/// called with a list of members.
pub open spec fn bitfield_text(bitfield: BitfieldView, ns: Seq<char>) -> Result<
    Seq<char>,
    GenerateErrorView,
> {
    if !bitfield.info.introspectable {
        Ok(Seq::empty())
    } else {
        match functions_text(bitfield.functions, ""@, ns) {
            Ok(functions) => Ok(
                "--- @enum "@ + ns + "."@ + bitfield.name + "\n"@ + "--- @overload fun({any}): "@
                    + ns + "."@ + bitfield.name + "\n"@ + ns + "."@ + bitfield.name + " = {\n"@
                    + members_text(bitfield.members) + functions + "}\n"@,
            ),
            Err(error) => Err(error),
        }
    }
}

impl Bitfield {
    /// Writes the bitfield as a table of the namespace `ns`.
    pub fn gen(&self, ns: &str) -> (text: Result<String, GenerateError>)
        ensures
            generated(text) == bitfield_text(self.deep_view(), ns@),
    {
        if !self.info.introspectable {
            return Ok(String::new());
        }
        let functions = gen_functions(&self.functions, "", ns)?;
        let mut text = "--- @enum ".to_owned();
        text.append(ns);
        text.append(".");
        text.append(self.name.as_str());
        text.append("\n");
        text.append("--- @overload fun({any}): ");
        text.append(ns);
        text.append(".");
        text.append(self.name.as_str());
        text.append("\n");
        text.append(ns);
        text.append(".");
        text.append(self.name.as_str());
        text.append(" = {\n");
        text.append(gen_members(&self.members).as_str());
        text.append(functions.as_str());
        text.append("}\n");
        Ok(text)
    }
}

/// The tables of the enumerations `items`, or the first that cannot be
/// written.
pub open spec fn enumerations_text(
    items: Seq<EnumerationView>,
    ns: Seq<char>,
) -> Result<Seq<char>, GenerateErrorView>
    decreases items.len(),
{
    if items.len() == 0 {
        Ok(Seq::empty())
    } else {
        match enumerations_text(items.drop_last(), ns) {
            Ok(before) => match enumeration_text(items.last(), ns) {
                Ok(last) => Ok(before + last),
                Err(error) => Err(error),
            },
            Err(error) => Err(error),
        }
    }
}

/// What cannot be written among the first `n` of `items` cannot be written
/// among all of them.
proof fn lemma_enumerations_text_stays(items: Seq<EnumerationView>, ns: Seq<char>, n: int)
    requires
        0 <= n <= items.len(),
    ensures
        enumerations_text(
            items.take(n),
            ns,
        ) is Err ==> enumerations_text(items, ns) == enumerations_text(items.take(n), ns),
    decreases items.len() - n,
{
    if n == items.len() {
        assert(items.take(n) =~= items);
    } else {
        assert(items.drop_last().take(n) =~= items.take(n));
        lemma_enumerations_text_stays(items.drop_last(), ns, n);
    }
}

/// Writes what `enumerations_text` gives.
pub(crate) fn gen_enumerations(items: &Vec<Enumeration>, ns: &str) -> (text: Result<
    String,
    GenerateError,
>)
    ensures
        generated(text) == enumerations_text(items.deep_view(), ns@),
{
    let mut text = String::new();
    let mut i: usize = 0;
    while i < items.len()
        invariant
            i <= items.len(),
            enumerations_text(
                items.deep_view().take(i as int),
                ns@,
            ) == Ok::<Seq<char>, GenerateErrorView>(text@),
        decreases items.len() - i,
    {
        proof {
            lemma_next_item(items, i as int);
            lemma_enumerations_text_stays(items.deep_view(), ns@, i + 1);
        }
        text.append(items[i].gen(ns)?.as_str());
        i += 1;
    }
    proof {
        lemma_all_items(items);
    }
    Ok(text)
}

/// The tables of the bitfields `items`, or the first that cannot be written.
pub open spec fn bitfields_text(
    items: Seq<BitfieldView>,
    ns: Seq<char>,
) -> Result<Seq<char>, GenerateErrorView>
    decreases items.len(),
{
    if items.len() == 0 {
        Ok(Seq::empty())
    } else {
        match bitfields_text(items.drop_last(), ns) {
            Ok(before) => match bitfield_text(items.last(), ns) {
                Ok(last) => Ok(before + last),
                Err(error) => Err(error),
            },
            Err(error) => Err(error),
        }
    }
}

/// What cannot be written among the first `n` of `items` cannot be written
/// among all of them.
proof fn lemma_bitfields_text_stays(items: Seq<BitfieldView>, ns: Seq<char>, n: int)
    requires
        0 <= n <= items.len(),
    ensures
        bitfields_text(
            items.take(n),
            ns,
        ) is Err ==> bitfields_text(items, ns) == bitfields_text(items.take(n), ns),
    decreases items.len() - n,
{
    if n == items.len() {
        assert(items.take(n) =~= items);
    } else {
        assert(items.drop_last().take(n) =~= items.take(n));
        lemma_bitfields_text_stays(items.drop_last(), ns, n);
    }
}

/// Writes what `bitfields_text` gives.
pub(crate) fn gen_bitfields(items: &Vec<Bitfield>, ns: &str) -> (text: Result<
    String,
    GenerateError,
>)
    ensures
        generated(text) == bitfields_text(items.deep_view(), ns@),
{
    let mut text = String::new();
    let mut i: usize = 0;
    while i < items.len()
        invariant
            i <= items.len(),
            bitfields_text(
                items.deep_view().take(i as int),
                ns@,
            ) == Ok::<Seq<char>, GenerateErrorView>(text@),
        decreases items.len() - i,
    {
        proof {
            lemma_next_item(items, i as int);
            lemma_bitfields_text_stays(items.deep_view(), ns@, i + 1);
        }
        text.append(items[i].gen(ns)?.as_str());
        i += 1;
    }
    proof {
        lemma_all_items(items);
    }
    Ok(text)
}

} // verus!
