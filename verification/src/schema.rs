//! The module descriptor and its decoding from a module's info payload.

use vstd::prelude::*;
use crate::error::{BridgeError, Field, SchemaFault};
use crate::json::{json_items, json_member, json_parse, json_text};

verus! {

/// Descriptor of a loaded module.
#[derive(Clone, Debug, PartialEq, Eq)]
pub struct ModuleInfo {
    pub name: String,
    pub description: String,
    pub manufacturer: String,
    pub components: Vec<String>,
}

/// A descriptor's field values.
pub struct Descriptor {
    pub name: Seq<char>,
    pub description: Seq<char>,
    pub manufacturer: Seq<char>,
    pub components: Seq<Seq<char>>,
}

impl View for ModuleInfo {
    type V = Descriptor;

    open spec fn view(&self) -> Descriptor {
        Descriptor {
            name: self.name@,
            description: self.description@,
            manufacturer: self.manufacturer@,
            components: self.components@.map_values(|s: String| s@),
        }
    }
}

impl Field {
    /// The key under which a descriptor's JSON form holds the member.
    pub open spec fn key(self) -> Seq<char> {
        match self {
            Field::Name => "Name"@,
            Field::Description => "Description"@,
            Field::Manufacturer => "Manufacturer"@,
            Field::Components => "Components"@,
        }
    }

    /// The key under which a descriptor's JSON form holds the member.
    pub fn name(self) -> (r: &'static str)
        ensures
            r@ == self.key(),
    {
        match self {
            Field::Name => "Name",
            Field::Description => "Description",
            Field::Manufacturer => "Manufacturer",
            Field::Components => "Components",
        }
    }
}

/// The text that a document holds under a field's key, where that member is a
/// JSON string.
pub open spec fn text_member(document: serde_json::Value, field: Field) -> Option<Seq<char>> {
    match json_member(document, field.key()) {
        Some(value) => json_text(value),
        None => None,
    }
}

/// The texts of a list of values, where every one of them is a JSON string.
pub open spec fn texts(list: Seq<serde_json::Value>) -> Option<Seq<Seq<char>>> {
    if forall|i: int| 0 <= i < list.len() ==> (#[trigger] json_text(list[i])).is_some() {
        Some(Seq::new(list.len(), |i: int| json_text(list[i]).unwrap()))
    } else {
        None
    }
}

/// The texts that a document holds under a field's key, where that member is
/// a JSON array of strings.
pub open spec fn list_member(document: serde_json::Value, field: Field) -> Option<
    Seq<Seq<char>>,
> {
    match json_member(document, field.key()) {
        Some(value) => match json_items(value) {
            Some(list) => texts(list),
            None => None,
        },
        None => None,
    }
}

/// The descriptor made of four members, or the first of them, in the order
/// name, description, manufacturer, components, that is absent.
pub open spec fn assembled(
    name: Option<Seq<char>>,
    description: Option<Seq<char>>,
    manufacturer: Option<Seq<char>>,
    components: Option<Seq<Seq<char>>>,
) -> Result<Descriptor, Field> {
    if name.is_none() {
        Err(Field::Name)
    } else if description.is_none() {
        Err(Field::Description)
    } else if manufacturer.is_none() {
        Err(Field::Manufacturer)
    } else if components.is_none() {
        Err(Field::Components)
    } else {
        Ok(
            Descriptor {
                name: name.unwrap(),
                description: description.unwrap(),
                manufacturer: manufacturer.unwrap(),
                components: components.unwrap(),
            },
        )
    }
}

/// The descriptor that a document stands for, or the first member, in the
/// order name, description, manufacturer, components, that it lacks or holds
/// with the wrong type. Members under other keys are ignored.
///
/// The members are read from a document that was parsed whole, so a key
/// that the text repeats counts with its last value: such a text is not
/// refused as holding a member twice.
pub open spec fn described(document: serde_json::Value) -> Result<Descriptor, Field> {
    assembled(
        text_member(document, Field::Name),
        text_member(document, Field::Description),
        text_member(document, Field::Manufacturer),
        list_member(document, Field::Components),
    )
}

/// The view of a member that was read from a document.
pub open spec fn text_view(member: Option<String>) -> Option<Seq<char>> {
    match member {
        Some(s) => Some(s@),
        None => None,
    }
}

/// The view of a list member that was read from a document.
pub open spec fn list_view(member: Option<Vec<String>>) -> Option<Seq<Seq<char>>> {
    match member {
        Some(v) => Some(v@.map_values(|s: String| s@)),
        None => None,
    }
}

/// Reads the text under a field's key.
fn read_text(document: &serde_json::Value, field: Field) -> (r: Option<String>)
    ensures
        text_view(r) == text_member(*document, field),
{
    match crate::json::member(document, field.name()) {
        Some(value) => match crate::json::text(value) {
            Some(s) => Some(s.to_owned()),
            None => None,
        },
        None => None,
    }
}

/// Reads the texts of a list of values.
fn read_texts(list: &Vec<serde_json::Value>) -> (r: Option<Vec<String>>)
    ensures
        list_view(r) == texts(list@),
{
    let n: usize = list.len();
    let mut out: Vec<String> = Vec::new();
    let mut i: usize = 0;
    while i < n
        invariant
            n == list@.len(),
            i <= n,
            out@.len() == i,
            forall|j: int| 0 <= j < i ==> json_text(list@[j]) == Some(#[trigger] out@[j]@),
        decreases n - i,
    {
        match crate::json::text(&list[i]) {
            Some(s) => {
                out.push(s.to_owned());
            },
            None => {
                return None;
            },
        }
        i += 1;
    }
    assert forall|j: int| 0 <= j < list@.len() implies (#[trigger] json_text(list@[j])).is_some() by {
        assert(json_text(list@[j]) == Some(out@[j]@));
    }
    assert(out@.map_values(|s: String| s@) =~= Seq::new(
        list@.len(),
        |i: int| json_text(list@[i]).unwrap(),
    ));
    Some(out)
}

/// Reads the list of texts under a field's key.
fn read_list(document: &serde_json::Value, field: Field) -> (r: Option<Vec<String>>)
    ensures
        list_view(r) == list_member(*document, field),
{
    match crate::json::member(document, field.name()) {
        Some(value) => match crate::json::items(value) {
            Some(list) => read_texts(list),
            None => None,
        },
        None => None,
    }
}

/// What decoding a text yields: the descriptor of the document that the text
/// holds, a member fault where the document is no descriptor, and a syntax
/// fault where the text is no document.
///
/// The text is parsed whole, as a `serde_json::Value`, before any member is
/// read. So every member has to be one that this parser takes, also under a
/// key that is then ignored: a number too large for a float, a lone
/// surrogate escape in a string, or nesting deeper than the parser's limit
/// makes the whole text no document, wherever it stands. A key that the
/// text repeats counts with its last value.
pub open spec fn decodes_to(text: Seq<char>, r: Result<ModuleInfo, BridgeError>) -> bool {
    match json_parse(text) {
        Some(document) => match described(document) {
            Ok(descriptor) => r matches Ok(info) && info@ == descriptor,
            Err(field) => r == Err::<ModuleInfo, BridgeError>(
                BridgeError::Schema { fault: SchemaFault::Member { field } },
            ),
        },
        None => r matches Err(BridgeError::Schema { fault: SchemaFault::Syntax { .. } }),
    }
}

/// A text holds a descriptor when it is a JSON document that has all four
/// members with their types.
pub open spec fn holds_descriptor(text: Seq<char>) -> bool {
    json_parse(text) matches Some(document) && described(document) is Ok
}

/// Decoding succeeds exactly on the texts that hold a descriptor, and fails
/// on every other text with a schema error and nothing else.
pub proof fn decoding_fails_with_schema_error(text: Seq<char>, r: Result<ModuleInfo, BridgeError>)
    requires
        decodes_to(text, r),
    ensures
        holds_descriptor(text) <==> r is Ok,
        !holds_descriptor(text) <==> r matches Err(BridgeError::Schema { .. }),
{
}

impl ModuleInfo {
    /// Makes a descriptor of its four members, each as it was found or not.
    ///
    /// Fails with `Schema`, naming the first member in the order name,
    /// description, manufacturer, components that is absent, exactly when
    /// one is.
    pub fn from_members(
        name: Option<String>,
        description: Option<String>,
        manufacturer: Option<String>,
        components: Option<Vec<String>>,
    ) -> (r: Result<ModuleInfo, BridgeError>)
        ensures
            match assembled(
                text_view(name),
                text_view(description),
                text_view(manufacturer),
                list_view(components),
            ) {
                Ok(descriptor) => r matches Ok(info) && info@ == descriptor,
                Err(field) => r == Err::<ModuleInfo, BridgeError>(
                    BridgeError::Schema { fault: SchemaFault::Member { field } },
                ),
            },
            r matches Ok(info) ==> Some(info.name) == name && Some(info.description) == description
                && Some(info.manufacturer) == manufacturer && Some(info.components) == components,
    {
        let name = match name {
            Some(s) => s,
            None => {
                return Err(ModuleInfo::lacks(Field::Name));
            },
        };
        let description = match description {
            Some(s) => s,
            None => {
                return Err(ModuleInfo::lacks(Field::Description));
            },
        };
        let manufacturer = match manufacturer {
            Some(s) => s,
            None => {
                return Err(ModuleInfo::lacks(Field::Manufacturer));
            },
        };
        let components = match components {
            Some(v) => v,
            None => {
                return Err(ModuleInfo::lacks(Field::Components));
            },
        };
        Ok(ModuleInfo { name, description, manufacturer, components })
    }

    fn lacks(field: Field) -> (e: BridgeError)
        ensures
            e == (BridgeError::Schema { fault: SchemaFault::Member { field } }),
    {
        BridgeError::Schema { fault: SchemaFault::Member { field } }
    }

    /// Reads a descriptor from a parsed document: its four members are
    /// looked up by key, and members under other keys are ignored.
    pub fn from_document(document: &serde_json::Value) -> (r: Result<ModuleInfo, BridgeError>)
        ensures
            match described(*document) {
                Ok(descriptor) => r matches Ok(info) && info@ == descriptor,
                Err(field) => r == Err::<ModuleInfo, BridgeError>(
                    BridgeError::Schema { fault: SchemaFault::Member { field } },
                ),
            },
    {
        ModuleInfo::from_members(
            read_text(document, Field::Name),
            read_text(document, Field::Description),
            read_text(document, Field::Manufacturer),
            read_list(document, Field::Components),
        )
    }

    /// Decodes a descriptor from JSON text.
    pub fn from_json(text: &str) -> (r: Result<ModuleInfo, BridgeError>)
        ensures
            decodes_to(text@, r),
    {
        match crate::json::parse(text) {
            Ok(document) => ModuleInfo::from_document(&document),
            Err(error) => Err(
                BridgeError::Schema {
                    fault: SchemaFault::Syntax { message: crate::json::report(&error) },
                },
            ),
        }
    }
}

} // verus!
