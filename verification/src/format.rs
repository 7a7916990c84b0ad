//! The two shapes in which a document is written out, and what each shape
//! does to the names of fields and collections.

use vstd::prelude::*;
use vstd::string::StrSliceExecFns;
use crate::model::{LayerKind, LayerType};

verus! {

/// The shape of the output: the element-and-attribute shape of TMX, or the
/// flat object shape of JSON.
#[derive(Debug, Clone, Copy, PartialEq, Eq, Structural)]
pub enum SerializationFormat {
    XmlFormat,
    JsonFormat,
}

/// Whether a field key starts with the marker of an attribute.
pub open spec fn has_marker(name: Seq<char>) -> bool {
    name.len() > 0 && name[0] == '@'
}

/// The value of the `type` field that tells the kinds of layer apart.
pub open spec fn type_tag(kind: LayerKind) -> Seq<char> {
    match kind {
        LayerKind::Tile => "tilelayer"@,
        LayerKind::Image => "imagelayer"@,
        LayerKind::Group => "group"@,
        LayerKind::Object => "objectgroup"@,
    }
}

impl SerializationFormat {
    /// The key that a field is written under. The XML shape keeps every key,
    /// so that marked keys become attributes; the JSON shape, which has no
    /// attributes, drops the marker.
    pub open spec fn name_of(self, name: Seq<char>) -> Seq<char> {
        match self {
            SerializationFormat::XmlFormat => name,
            SerializationFormat::JsonFormat => if has_marker(name) {
                name.skip(1)
            } else {
                name
            },
        }
    }

    /// The key that a collection is written under. The XML shape repeats one
    /// element per item and so drops the last character, the plural, of the
    /// key; the JSON shape keeps the key for one array.
    pub open spec fn vec_name_of(self, name: Seq<char>) -> Seq<char> {
        match self {
            SerializationFormat::XmlFormat => if name.len() > 0 {
                name.drop_last()
            } else {
                name
            },
            SerializationFormat::JsonFormat => name,
        }
    }

    /// The value of the `type` field of a layer, for the shape that has one.
    pub open spec fn layer_type_of(self, kind: LayerKind) -> Option<Seq<char>> {
        match self {
            SerializationFormat::XmlFormat => None,
            SerializationFormat::JsonFormat => Some(type_tag(kind)),
        }
    }

    /// Maps the key of a field to the key it is written under.
    pub fn transform_name<'a>(self, name: &'a str) -> (r: &'a str)
        ensures
            r@ == self.name_of(name@),
            !has_marker(name@) ==> r@ == name@,
    {
        match self {
            SerializationFormat::XmlFormat => name,
            SerializationFormat::JsonFormat => {
                let n = name.unicode_len();
                if n > 0 && name.get_char(0) == '@' {
                    name.substring_char(1, n)
                } else {
                    name
                }
            },
        }
    }

    /// Maps the plural key of a collection to the key it is written under.
    pub fn transform_vec_name<'a>(self, name: &'a str) -> (r: &'a str)
        ensures
            r@ == self.vec_name_of(name@),
    {
        match self {
            SerializationFormat::XmlFormat => {
                let n = name.unicode_len();
                if n > 0 {
                    name.substring_char(0, n - 1)
                } else {
                    name
                }
            },
            SerializationFormat::JsonFormat => name,
        }
    }

    /// The value of the `type` field of a layer: none in the XML shape, where
    /// the name of the element tells the kind.
    pub fn layer_type(self, layer: &LayerType) -> (r: Option<&'static str>)
        ensures
            match r {
                Some(tag) => self.layer_type_of(layer@.kind) == Some(tag@),
                None => self.layer_type_of(layer@.kind) is None,
            },
    {
        match self {
            SerializationFormat::XmlFormat => None,
            SerializationFormat::JsonFormat => Some(
                match layer {
                    LayerType::Layer(_) => "tilelayer",
                    LayerType::ImageLayer(_) => "imagelayer",
                    LayerType::Group(_) => "group",
                    LayerType::ObjectGroup(_) => "objectgroup",
                },
            ),
        }
    }
}

/// A name without the marker is written as it is under both shapes, and the
/// XML shape changes no name at all.
pub proof fn lemma_unmarked_name_stays(format: SerializationFormat, name: Seq<char>)
    ensures
        SerializationFormat::XmlFormat.name_of(name) == name,
        !has_marker(name) ==> format.name_of(name) == name,
{
}

} // verus!
