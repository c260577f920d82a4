//! The `#[config(..)]` attribute vocabulary: the keys that may appear on the
//! struct and on its fields, the shape each key takes, and the rules that
//! relate field keys to one another (dependencies, exclusions, implications).

use vstd::prelude::*;
use crate::error::ParseError;
use crate::ident::Ident;
use crate::text::str_eq;

verus! {

// !- Attribute shape

/// The syntactic shape an attribute key is written in:
/// `key`, `key = value` or `key(..)`.
#[derive(Debug, Copy, Clone, PartialEq, Eq, Structural)]
pub enum Shape {
    Flag,
    KeyValue,
    List,
}

// !- Struct attributes

/// Keys accepted in a struct-level `#[config(..)]`.
#[derive(Debug, Copy, Clone, PartialEq, Eq, Hash, Structural)]
pub enum StructAttr {
    Derive,
    BuilderDerive,
    OverrideDerive,
    Attr,
    BuilderAttr,
    OverrideAttr,
}

/// The name a struct attribute key is written with.
pub open spec fn spec_struct_attr_name(a: StructAttr) -> Seq<char> {
    match a {
        StructAttr::Derive => "derive"@,
        StructAttr::BuilderDerive => "builder_derive"@,
        StructAttr::OverrideDerive => "override_derive"@,
        StructAttr::Attr => "attr"@,
        StructAttr::BuilderAttr => "builder_attr"@,
        StructAttr::OverrideAttr => "override_attr"@,
    }
}

/// Every struct attribute key is written as a list.
pub open spec fn spec_struct_attr_shapes(a: StructAttr) -> Seq<Shape> {
    seq![Shape::List]
}

impl StructAttr {
    /// The name this key is written with.
    pub fn as_str(self) -> (r: &'static str)
        ensures
            r@ == spec_struct_attr_name(self),
    {
        match self {
            StructAttr::Derive => "derive",
            StructAttr::BuilderDerive => "builder_derive",
            StructAttr::OverrideDerive => "override_derive",
            StructAttr::Attr => "attr",
            StructAttr::BuilderAttr => "builder_attr",
            StructAttr::OverrideAttr => "override_attr",
        }
    }

    /// The shapes this key may be written in.
    pub fn supported_shapes(&self) -> (r: Vec<Shape>)
        ensures
            r@ == spec_struct_attr_shapes(*self),
    {
        let mut v = Vec::new();
        v.push(Shape::List);
        v
    }

    /// Whether this key may be written in `shape`.
    pub fn supports_shape(self, shape: Shape) -> (r: bool)
        ensures
            r == spec_struct_attr_shapes(self).contains(shape),
    {
        let shapes = self.supported_shapes();
        contains_shape(&shapes, shape)
    }

    /// Accepts `shape` for this key, or reports it against `ident`.
    pub fn validate_shape(self, shape: Shape, ident: &Ident) -> (r: Result<(), ParseError>)
        ensures
            r is Ok <==> spec_struct_attr_shapes(self).contains(shape),
            r matches Err(e) ==> e == (ParseError::InvalidAttrShape { ident: *ident, shape }),
    {
        if self.supports_shape(shape) {
            Ok(())
        } else {
            Err(ParseError::InvalidAttrShape { ident: ident.duplicate(), shape })
        }
    }

    /// Looks up the key written as `ident`.
    pub fn from_ident(ident: &Ident) -> (r: Result<StructAttr, ParseError>)
        ensures
            match struct_attr_named(ident.name@) {
                Some(a) => r == Ok::<StructAttr, ParseError>(a),
                None => r == Err::<StructAttr, ParseError>(ParseError::UnknownAttr { ident: *ident }),
            },
            r matches Ok(a) ==> spec_struct_attr_name(a) == ident.name@,
            r is Err ==> forall|a: StructAttr| spec_struct_attr_name(a) != ident.name@,
    {
        let name = ident.name.as_str();
        if str_eq(name, "derive") {
            Ok(StructAttr::Derive)
        } else if str_eq(name, "builder_derive") {
            Ok(StructAttr::BuilderDerive)
        } else if str_eq(name, "override_derive") {
            Ok(StructAttr::OverrideDerive)
        } else if str_eq(name, "attr") {
            Ok(StructAttr::Attr)
        } else if str_eq(name, "builder_attr") {
            Ok(StructAttr::BuilderAttr)
        } else if str_eq(name, "override_attr") {
            Ok(StructAttr::OverrideAttr)
        } else {
            assert forall|a: StructAttr| spec_struct_attr_name(a) != ident.name@ by {
                match a {
                    StructAttr::Derive => {},
                    StructAttr::BuilderDerive => {},
                    StructAttr::OverrideDerive => {},
                    StructAttr::Attr => {},
                    StructAttr::BuilderAttr => {},
                    StructAttr::OverrideAttr => {},
                }
            }
            Err(ParseError::UnknownAttr { ident: ident.duplicate() })
        }
    }
}

/// The struct key written as `name`, if there is one.
pub open spec fn struct_attr_named(name: Seq<char>) -> Option<StructAttr> {
    if name == "derive"@ {
        Some(StructAttr::Derive)
    } else if name == "builder_derive"@ {
        Some(StructAttr::BuilderDerive)
    } else if name == "override_derive"@ {
        Some(StructAttr::OverrideDerive)
    } else if name == "attr"@ {
        Some(StructAttr::Attr)
    } else if name == "builder_attr"@ {
        Some(StructAttr::BuilderAttr)
    } else if name == "override_attr"@ {
        Some(StructAttr::OverrideAttr)
    } else {
        None
    }
}

fn contains_shape(shapes: &Vec<Shape>, shape: Shape) -> (r: bool)
    ensures
        r == shapes@.contains(shape),
{
    let mut i: usize = 0;
    while i < shapes.len()
        invariant
            i <= shapes.len(),
            forall|j: int| 0 <= j < i ==> shapes@[j] != shape,
        decreases shapes.len() - i,
    {
        if shapes[i] == shape {
            return true;
        }
        i = i + 1;
    }
    false
}


// !- Field attributes

/// Keys accepted in a field-level `#[config(..)]`.
#[derive(Debug, Copy, Clone, PartialEq, Eq, Hash, Structural)]
pub enum FieldAttr {
    Copy,
    Default,
    SkipAll,
    ConfigSkipGetter,
    BuilderSkip,
    OverrideAttr,
    OverrideSkip,
    OverrideRequired,
    OverrideFrom,
    OverrideVia,
}

/// The name a field attribute key is written with.
pub open spec fn spec_field_attr_name(a: FieldAttr) -> Seq<char> {
    match a {
        FieldAttr::Copy => "copy"@,
        FieldAttr::Default => "default"@,
        FieldAttr::SkipAll => "skip_all"@,
        FieldAttr::ConfigSkipGetter => "config_skip_getter"@,
        FieldAttr::BuilderSkip => "builder_skip"@,
        FieldAttr::OverrideAttr => "override_attr"@,
        FieldAttr::OverrideSkip => "override_skip"@,
        FieldAttr::OverrideRequired => "override_required"@,
        FieldAttr::OverrideFrom => "override_from"@,
        FieldAttr::OverrideVia => "override_via"@,
    }
}

/// Keys that need another key to be present as well.
pub open spec fn spec_dependencies(a: FieldAttr) -> Seq<FieldAttr> {
    match a {
        FieldAttr::OverrideVia => seq![FieldAttr::OverrideFrom],
        _ => seq![],
    }
}

/// Keys that cannot be combined with `a` (listed on one side of each pair).
pub open spec fn spec_incompatible(a: FieldAttr) -> Seq<FieldAttr> {
    match a {
        FieldAttr::OverrideRequired => seq![FieldAttr::Default],
        FieldAttr::OverrideSkip => seq![
            FieldAttr::OverrideRequired,
            FieldAttr::OverrideFrom,
            FieldAttr::OverrideVia,
        ],
        FieldAttr::SkipAll => seq![
            FieldAttr::OverrideRequired,
            FieldAttr::OverrideFrom,
            FieldAttr::OverrideVia,
        ],
        FieldAttr::OverrideAttr => seq![FieldAttr::SkipAll, FieldAttr::OverrideSkip],
        _ => seq![],
    }
}

/// Keys that `a` already implies, and which are therefore redundant beside it.
pub open spec fn spec_implied(a: FieldAttr) -> Seq<FieldAttr> {
    match a {
        FieldAttr::SkipAll => seq![
            FieldAttr::ConfigSkipGetter,
            FieldAttr::BuilderSkip,
            FieldAttr::OverrideSkip,
        ],
        FieldAttr::OverrideRequired => seq![FieldAttr::BuilderSkip],
        _ => seq![],
    }
}

/// The shape each field key is written in.
pub open spec fn spec_field_attr_shapes(a: FieldAttr) -> Seq<Shape> {
    match a {
        FieldAttr::Default => seq![Shape::KeyValue],
        FieldAttr::OverrideFrom => seq![Shape::KeyValue],
        FieldAttr::OverrideVia => seq![Shape::KeyValue],
        FieldAttr::OverrideAttr => seq![Shape::List],
        _ => seq![Shape::Flag],
    }
}

/// Keys whose contents are passed through to generated code; such a key may
/// be written more than once.
pub open spec fn spec_is_passthrough(a: FieldAttr) -> bool {
    a == FieldAttr::OverrideAttr
}

impl FieldAttr {
    /// The name this key is written with.
    pub fn as_str(self) -> (r: &'static str)
        ensures
            r@ == spec_field_attr_name(self),
    {
        match self {
            FieldAttr::Copy => "copy",
            FieldAttr::Default => "default",
            FieldAttr::SkipAll => "skip_all",
            FieldAttr::ConfigSkipGetter => "config_skip_getter",
            FieldAttr::BuilderSkip => "builder_skip",
            FieldAttr::OverrideAttr => "override_attr",
            FieldAttr::OverrideSkip => "override_skip",
            FieldAttr::OverrideRequired => "override_required",
            FieldAttr::OverrideFrom => "override_from",
            FieldAttr::OverrideVia => "override_via",
        }
    }

    /// Keys that must accompany this one.
    pub fn dependencies(&self) -> (r: Vec<FieldAttr>)
        ensures
            r@ == spec_dependencies(*self),
    {
        let mut v = Vec::new();
        match self {
            FieldAttr::OverrideVia => {
                v.push(FieldAttr::OverrideFrom);
            },
            _ => {},
        }
        proof {
            assert(v@ =~= spec_dependencies(*self));
        }
        v
    }

    /// Keys that cannot be combined with this one.
    pub fn incompatible_attrs(&self) -> (r: Vec<FieldAttr>)
        ensures
            r@ == spec_incompatible(*self),
    {
        let mut v = Vec::new();
        match self {
            FieldAttr::OverrideRequired => {
                v.push(FieldAttr::Default);
            },
            FieldAttr::OverrideSkip | FieldAttr::SkipAll => {
                v.push(FieldAttr::OverrideRequired);
                v.push(FieldAttr::OverrideFrom);
                v.push(FieldAttr::OverrideVia);
            },
            FieldAttr::OverrideAttr => {
                v.push(FieldAttr::SkipAll);
                v.push(FieldAttr::OverrideSkip);
            },
            _ => {},
        }
        proof {
            assert(v@ =~= spec_incompatible(*self));
        }
        v
    }

    /// Keys this one already implies.
    pub fn implied_attrs(&self) -> (r: Vec<FieldAttr>)
        ensures
            r@ == spec_implied(*self),
    {
        let mut v = Vec::new();
        match self {
            FieldAttr::SkipAll => {
                v.push(FieldAttr::ConfigSkipGetter);
                v.push(FieldAttr::BuilderSkip);
                v.push(FieldAttr::OverrideSkip);
            },
            FieldAttr::OverrideRequired => {
                v.push(FieldAttr::BuilderSkip);
            },
            _ => {},
        }
        proof {
            assert(v@ =~= spec_implied(*self));
        }
        v
    }

    /// The shapes this key may be written in.
    pub fn supported_shapes(&self) -> (r: Vec<Shape>)
        ensures
            r@ == spec_field_attr_shapes(*self),
    {
        let mut v = Vec::new();
        match self {
            FieldAttr::Default | FieldAttr::OverrideFrom | FieldAttr::OverrideVia => {
                v.push(Shape::KeyValue);
            },
            FieldAttr::OverrideAttr => {
                v.push(Shape::List);
            },
            _ => {
                v.push(Shape::Flag);
            },
        }
        proof {
            assert(v@ =~= spec_field_attr_shapes(*self));
        }
        v
    }

    /// Whether this key may be written in `shape`.
    pub fn supports_shape(self, shape: Shape) -> (r: bool)
        ensures
            r == spec_field_attr_shapes(self).contains(shape),
    {
        let shapes = self.supported_shapes();
        contains_shape(&shapes, shape)
    }

    /// Accepts `shape` for this key, or reports it against `ident`.
    pub fn validate_shape(self, shape: Shape, ident: &Ident) -> (r: Result<(), ParseError>)
        ensures
            r is Ok <==> spec_field_attr_shapes(self).contains(shape),
            r matches Err(e) ==> e == (ParseError::InvalidAttrShape { ident: *ident, shape }),
    {
        if self.supports_shape(shape) {
            Ok(())
        } else {
            Err(ParseError::InvalidAttrShape { ident: ident.duplicate(), shape })
        }
    }

    /// Whether the contents of this key are passed through to generated code.
    pub fn is_passthrough(&self) -> (r: bool)
        ensures
            r == spec_is_passthrough(*self),
    {
        match self {
            FieldAttr::OverrideAttr => true,
            _ => false,
        }
    }

    /// Looks up the key written as `ident`.
    pub fn from_ident(ident: &Ident) -> (r: Result<FieldAttr, ParseError>)
        ensures
            match field_attr_named(ident.name@) {
                Some(a) => r == Ok::<FieldAttr, ParseError>(a),
                None => r == Err::<FieldAttr, ParseError>(ParseError::UnknownAttr { ident: *ident }),
            },
            r matches Ok(a) ==> spec_field_attr_name(a) == ident.name@,
            r is Err ==> forall|a: FieldAttr| spec_field_attr_name(a) != ident.name@,
    {
        let name = ident.name.as_str();
        if str_eq(name, "copy") {
            Ok(FieldAttr::Copy)
        } else if str_eq(name, "default") {
            Ok(FieldAttr::Default)
        } else if str_eq(name, "skip_all") {
            Ok(FieldAttr::SkipAll)
        } else if str_eq(name, "config_skip_getter") {
            Ok(FieldAttr::ConfigSkipGetter)
        } else if str_eq(name, "builder_skip") {
            Ok(FieldAttr::BuilderSkip)
        } else if str_eq(name, "override_attr") {
            Ok(FieldAttr::OverrideAttr)
        } else if str_eq(name, "override_skip") {
            Ok(FieldAttr::OverrideSkip)
        } else if str_eq(name, "override_required") {
            Ok(FieldAttr::OverrideRequired)
        } else if str_eq(name, "override_from") {
            Ok(FieldAttr::OverrideFrom)
        } else if str_eq(name, "override_via") {
            Ok(FieldAttr::OverrideVia)
        } else {
            assert forall|a: FieldAttr| spec_field_attr_name(a) != ident.name@ by {
                match a {
                    FieldAttr::Copy => {},
                    FieldAttr::Default => {},
                    FieldAttr::SkipAll => {},
                    FieldAttr::ConfigSkipGetter => {},
                    FieldAttr::BuilderSkip => {},
                    FieldAttr::OverrideAttr => {},
                    FieldAttr::OverrideSkip => {},
                    FieldAttr::OverrideRequired => {},
                    FieldAttr::OverrideFrom => {},
                    FieldAttr::OverrideVia => {},
                }
            }
            Err(ParseError::UnknownAttr { ident: ident.duplicate() })
        }
    }
}

/// The field key written as `name`, if there is one.
pub open spec fn field_attr_named(name: Seq<char>) -> Option<FieldAttr> {
    if name == "copy"@ {
        Some(FieldAttr::Copy)
    } else if name == "default"@ {
        Some(FieldAttr::Default)
    } else if name == "skip_all"@ {
        Some(FieldAttr::SkipAll)
    } else if name == "config_skip_getter"@ {
        Some(FieldAttr::ConfigSkipGetter)
    } else if name == "builder_skip"@ {
        Some(FieldAttr::BuilderSkip)
    } else if name == "override_attr"@ {
        Some(FieldAttr::OverrideAttr)
    } else if name == "override_skip"@ {
        Some(FieldAttr::OverrideSkip)
    } else if name == "override_required"@ {
        Some(FieldAttr::OverrideRequired)
    } else if name == "override_from"@ {
        Some(FieldAttr::OverrideFrom)
    } else if name == "override_via"@ {
        Some(FieldAttr::OverrideVia)
    } else {
        None
    }
}

} // verus!
