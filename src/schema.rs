//! The schema model: a tree of fields with their naming and defaulting
//! attributes, and the rules that compose a field's variable name.

use vstd::prelude::*;
use crate::error::{SchemaError, SchemaErrorView};
use crate::scalar::ScalarType;
use crate::text::{join, joined, to_upper, trim_separator, trimmed, upper};

verus! {

/// What a field holds.
pub enum FieldKind {
    /// A value read from one variable; required unless it has a default.
    Scalar(ScalarType),
    /// A value read from one variable, absent when the variable is.
    Optional(ScalarType),
    /// A nested structure, resolved under a prefix of its own.
    Nested(SchemaNode),
}

/// One field of a structure, with its attributes.
///
/// `default` belongs to scalar fields and `var` to leaf fields only;
/// [`SchemaNode::new`] refuses other combinations, and resolution reads no
/// attribute that a field's kind does not take.
pub struct FieldDescriptor {
    /// The field's identifier; its upper case is the default name fragment.
    pub name: String,
    pub kind: FieldKind,
    /// An exact variable name that replaces all prefix composition.
    pub var: Option<String>,
    /// A replacement for the name fragment, still composed with the prefix.
    pub rename: Option<String>,
    /// Text parsed in place of an absent variable.
    pub default: Option<String>,
    /// For a nested field: leave this field's fragment out of the prefix chain.
    pub no_prefix: bool,
}

/// The description of one configuration structure.
pub struct SchemaNode {
    /// The fields, in declaration order.
    pub fields: Vec<FieldDescriptor>,
    /// A prefix of the structure itself, composed after the incoming prefix.
    pub own_prefix: Option<String>,
}

impl FieldDescriptor {
    /// The name fragment of the field: its rename, or else its name, upper-cased.
    pub open spec fn name_fragment(&self) -> Seq<char> {
        match self.rename {
            Some(r) => upper(r@),
            None => upper(self.name@),
        }
    }

    /// The variable that the field reads under `prefix`.
    pub open spec fn var_name_at(&self, prefix: Seq<char>) -> Seq<char> {
        match self.var {
            Some(v) => v@,
            None => joined(prefix, self.name_fragment()),
        }
    }

    /// The incoming prefix of a nested field's structure under `prefix`.
    pub open spec fn child_prefix_at(&self, prefix: Seq<char>) -> Seq<char> {
        if self.no_prefix {
            prefix
        } else {
            joined(prefix, self.name_fragment())
        }
    }

    /// The attribute combination of this field itself that is not allowed.
    pub open spec fn own_error(&self) -> Option<SchemaErrorView> {
        match self.kind {
            FieldKind::Scalar(_) => None,
            FieldKind::Optional(_) => {
                if self.default is Some {
                    Some(SchemaErrorView::DefaultOnOptional { field: self.name@ })
                } else {
                    None
                }
            },
            FieldKind::Nested(_) => {
                if self.default is Some {
                    Some(SchemaErrorView::DefaultOnNested { field: self.name@ })
                } else if self.var is Some {
                    Some(SchemaErrorView::VarOnNested { field: self.name@ })
                } else {
                    None
                }
            },
        }
    }

    /// The name fragment of the field.
    pub fn fragment(&self) -> (r: String)
        ensures
            r@ == self.name_fragment(),
    {
        match &self.rename {
            Some(r) => to_upper(r.as_str()),
            None => to_upper(self.name.as_str()),
        }
    }

    /// The variable that the field reads under `prefix`.
    pub fn variable_name(&self, prefix: &str) -> (r: String)
        ensures
            r@ == self.var_name_at(prefix@),
    {
        match &self.var {
            Some(v) => v.clone(),
            None => join(prefix, self.fragment().as_str()),
        }
    }

    /// The incoming prefix of a nested field's structure under `prefix`.
    pub fn child_prefix(&self, prefix: &str) -> (r: String)
        ensures
            r@ == self.child_prefix_at(prefix@),
    {
        if self.no_prefix {
            prefix.to_string()
        } else {
            join(prefix, self.fragment().as_str())
        }
    }
}

impl SchemaNode {
    /// The prefix under which the fields of this structure are named, when it
    /// is reached with `incoming`.
    pub open spec fn effective_prefix_at(&self, incoming: Seq<char>) -> Seq<char> {
        match self.own_prefix {
            Some(p) => joined(incoming, trimmed(p@)),
            None => incoming,
        }
    }

    /// The prefix under which the fields of this structure are named.
    pub fn effective_prefix(&self, incoming: &str) -> (r: String)
        ensures
            r@ == self.effective_prefix_at(incoming@),
    {
        match &self.own_prefix {
            Some(p) => join(incoming, trim_separator(p.as_str()).as_str()),
            None => incoming.to_string(),
        }
    }
}

impl FieldDescriptor {
    /// A required scalar field with no attributes.
    pub fn scalar(name: &str, ty: ScalarType) -> (r: FieldDescriptor)
        ensures
            r.name@ == name@,
            r.kind == FieldKind::Scalar(ty),
            r.var is None && r.rename is None && r.default is None && !r.no_prefix,
    {
        FieldDescriptor {
            name: name.to_string(),
            kind: FieldKind::Scalar(ty),
            var: None,
            rename: None,
            default: None,
            no_prefix: false,
        }
    }

    /// An optional scalar field with no attributes.
    pub fn optional(name: &str, ty: ScalarType) -> (r: FieldDescriptor)
        ensures
            r.name@ == name@,
            r.kind == FieldKind::Optional(ty),
            r.var is None && r.rename is None && r.default is None && !r.no_prefix,
    {
        FieldDescriptor {
            name: name.to_string(),
            kind: FieldKind::Optional(ty),
            var: None,
            rename: None,
            default: None,
            no_prefix: false,
        }
    }

    /// A nested field holding the structure `node`, with no attributes.
    pub fn nested(name: &str, node: SchemaNode) -> (r: FieldDescriptor)
        ensures
            r.name@ == name@,
            r.kind == FieldKind::Nested(node),
            r.var is None && r.rename is None && r.default is None && !r.no_prefix,
    {
        FieldDescriptor {
            name: name.to_string(),
            kind: FieldKind::Nested(node),
            var: None,
            rename: None,
            default: None,
            no_prefix: false,
        }
    }

    /// This field reading exactly the variable `var`.
    pub fn with_var(self, var: &str) -> (r: FieldDescriptor)
        ensures
            r.var matches Some(v) && v@ == var@,
            r.name == self.name && r.kind == self.kind && r.rename == self.rename,
            r.default == self.default && r.no_prefix == self.no_prefix,
    {
        FieldDescriptor { var: Some(var.to_string()), ..self }
    }

    /// This field with the name fragment taken from `rename`.
    pub fn with_rename(self, rename: &str) -> (r: FieldDescriptor)
        ensures
            r.rename matches Some(v) && v@ == rename@,
            r.name == self.name && r.kind == self.kind && r.var == self.var,
            r.default == self.default && r.no_prefix == self.no_prefix,
    {
        FieldDescriptor { rename: Some(rename.to_string()), ..self }
    }

    /// This field falling back on the text `default` when its variable is absent.
    pub fn with_default(self, default: &str) -> (r: FieldDescriptor)
        ensures
            r.default matches Some(v) && v@ == default@,
            r.name == self.name && r.kind == self.kind && r.var == self.var,
            r.rename == self.rename && r.no_prefix == self.no_prefix,
    {
        FieldDescriptor { default: Some(default.to_string()), ..self }
    }

    /// This field leaving its fragment out of the prefix chain.
    pub fn without_prefix(self) -> (r: FieldDescriptor)
        ensures
            r.no_prefix,
            r.name == self.name && r.kind == self.kind && r.var == self.var,
            r.rename == self.rename && r.default == self.default,
    {
        FieldDescriptor { no_prefix: true, ..self }
    }
}

/// The first disallowed attribute combination in a field, depth first.
pub open spec fn field_error(f: FieldDescriptor) -> Option<SchemaErrorView>
    decreases f,
{
    match f.own_error() {
        Some(e) => Some(e),
        None => match f.kind {
            FieldKind::Nested(n) => fields_error(n.fields@),
            _ => None,
        },
    }
}

/// The first disallowed attribute combination among `fs`, in order, depth first.
pub open spec fn fields_error(fs: Seq<FieldDescriptor>) -> Option<SchemaErrorView>
    decreases fs,
{
    if fs.len() == 0 {
        None
    } else {
        match fields_error(fs.subrange(0, fs.len() - 1)) {
            Some(e) => Some(e),
            None => field_error(fs[fs.len() - 1]),
        }
    }
}

/// Checks a field and, for a nested one, its structure.
fn check_field(f: &FieldDescriptor) -> (r: Result<(), SchemaError>)
    ensures
        match r {
            Ok(()) => field_error(*f) is None,
            Err(e) => field_error(*f) == Some(e@),
        },
    decreases f,
{
    match &f.kind {
        FieldKind::Scalar(_) => Ok(()),
        FieldKind::Optional(_) => {
            if f.default.is_some() {
                Err(SchemaError::DefaultOnOptional { field: f.name.clone() })
            } else {
                Ok(())
            }
        },
        FieldKind::Nested(n) => {
            if f.default.is_some() {
                Err(SchemaError::DefaultOnNested { field: f.name.clone() })
            } else if f.var.is_some() {
                Err(SchemaError::VarOnNested { field: f.name.clone() })
            } else {
                check_fields(&n.fields)
            }
        },
    }
}

/// Checks each field in order and stops at the first disallowed combination.
fn check_fields(fields: &Vec<FieldDescriptor>) -> (r: Result<(), SchemaError>)
    ensures
        match r {
            Ok(()) => fields_error(fields@) is None,
            Err(e) => fields_error(fields@) == Some(e@),
        },
    decreases fields,
{
    let mut i: usize = 0;
    while i < fields.len()
        invariant
            i <= fields@.len(),
            fields_error(fields@.take(i as int)) is None,
        decreases fields@.len() - i,
    {
        assert(fields@.take(i + 1).subrange(0, i as int) == fields@.take(i as int));
        assert(decreases_to!(fields => fields@[i as int]));
        let checked = check_field(&fields[i]);
        match checked {
            Ok(()) => {},
            Err(e) => {
                proof {
                    lemma_fields_error_prefix(fields@, i as int + 1);
                }
                return Err(e);
            },
        }
        i = i + 1;
    }
    assert(fields@.take(i as int) == fields@);
    Ok(())
}

/// An error in a prefix of the fields is the error of all of them.
proof fn lemma_fields_error_prefix(fs: Seq<FieldDescriptor>, k: int)
    requires
        0 <= k <= fs.len(),
        fields_error(fs.take(k)) is Some,
    ensures
        fields_error(fs) == fields_error(fs.take(k)),
    decreases fs.len() - k,
{
    if k < fs.len() {
        assert(fs.take(k + 1).subrange(0, k) == fs.take(k));
        lemma_fields_error_prefix(fs, k + 1);
    } else {
        assert(fs.take(k) == fs);
    }
}

impl SchemaNode {
    /// A structure without a prefix of its own, from its fields; refused with
    /// the first disallowed attribute combination, in order and depth first.
    pub fn new(fields: Vec<FieldDescriptor>) -> (r: Result<SchemaNode, SchemaError>)
        ensures
            match r {
                Ok(n) => fields_error(fields@) is None && n.fields == fields && n.own_prefix
                    is None,
                Err(e) => fields_error(fields@) == Some(e@),
            },
    {
        match check_fields(&fields) {
            Ok(()) => Ok(SchemaNode { fields, own_prefix: None }),
            Err(e) => Err(e),
        }
    }

    /// A structure with the prefix `prefix` of its own, from its fields;
    /// refused as by [`SchemaNode::new`].
    pub fn with_prefix(prefix: &str, fields: Vec<FieldDescriptor>) -> (r: Result<
        SchemaNode,
        SchemaError,
    >)
        ensures
            match r {
                Ok(n) => {
                    &&& fields_error(fields@) is None
                    &&& n.fields == fields
                    &&& n.own_prefix matches Some(p) && p@ == prefix@
                },
                Err(e) => fields_error(fields@) == Some(e@),
            },
    {
        match check_fields(&fields) {
            Ok(()) => Ok(SchemaNode { fields, own_prefix: Some(prefix.to_string()) }),
            Err(e) => Err(e),
        }
    }

    /// Checks the whole structure for disallowed attribute combinations.
    pub fn validate(&self) -> (r: Result<(), SchemaError>)
        ensures
            match r {
                Ok(()) => fields_error(self.fields@) is None,
                Err(e) => fields_error(self.fields@) == Some(e@),
            },
    {
        check_fields(&self.fields)
    }
}

} // verus!
