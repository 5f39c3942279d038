//! The resolution engine: walks a schema against an environment, composing
//! each leaf's variable name, reading and parsing it, and assembling the
//! value tree or the first error met.

use vstd::prelude::*;
use crate::env::Env;
use crate::error::{ErrorView, FromEnvError};
use crate::scalar::{opt_view, parse, parse_scalar, ScalarType, ScalarValue, ScalarView};
use crate::schema::{FieldDescriptor, FieldKind, SchemaNode};

verus! {

/// A resolved configuration: one value per field, in declaration order.
#[derive(Debug, PartialEq, Eq)]
pub enum Value {
    /// The value of a scalar field.
    Scalar(ScalarValue),
    /// The value of an optional field: `None` when its variable was absent.
    Optional(Option<ScalarValue>),
    /// The values of a structure's fields.
    Node(Vec<Value>),
}

/// The mathematical meaning of a [`Value`].
pub enum ValueView {
    Scalar(ScalarView),
    Optional(Option<ScalarView>),
    Node(Seq<ValueView>),
}

/// The mathematical meaning of a value tree.
pub open spec fn value_view(v: Value) -> ValueView
    decreases v,
{
    match v {
        Value::Scalar(s) => ValueView::Scalar(s@),
        Value::Optional(o) => ValueView::Optional(opt_view(o)),
        Value::Node(vs) => ValueView::Node(values_view(vs@)),
    }
}

/// The meanings of a sequence of value trees, element by element.
pub open spec fn values_view(s: Seq<Value>) -> Seq<ValueView>
    decreases s,
{
    if s.len() == 0 {
        Seq::empty()
    } else {
        values_view(s.subrange(0, s.len() - 1)).push(value_view(s[s.len() - 1]))
    }
}

impl View for Value {
    type V = ValueView;

    open spec fn view(&self) -> ValueView {
        value_view(*self)
    }
}

impl Value {
    /// The value of field `i` of a structure; `None` for a leaf value or an
    /// index past the fields.
    pub fn field(&self, i: usize) -> (r: Option<&Value>)
        ensures
            match r {
                Some(v) => self matches Value::Node(vs) && i < vs@.len() && *v == vs@[i as int],
                None => !(self matches Value::Node(vs) && i < vs@.len()),
            },
    {
        match self {
            Value::Node(vs) => {
                if i < vs.len() {
                    Some(&vs[i])
                } else {
                    None
                }
            },
            _ => None,
        }
    }
}

/// The view of a resolution result.
pub open spec fn result_view(r: Result<Value, FromEnvError>) -> Result<ValueView, ErrorView> {
    match r {
        Ok(v) => Ok(v@),
        Err(e) => Err(e@),
    }
}

/// `text`, read for the variable `name`, parsed as `ty`.
pub open spec fn parse_leaf(ty: ScalarType, name: Seq<char>, text: Seq<char>) -> Result<
    ScalarView,
    ErrorView,
> {
    match parse_scalar(ty, text) {
        Some(v) => Ok(v),
        None => Err(
            ErrorView::ParsingFailure { var_name: name, expected_type: ty.spec_name(), str_value: text },
        ),
    }
}

/// The value of field `f` of a structure whose fields are named under `prefix`.
pub open spec fn resolve_field(
    f: FieldDescriptor,
    prefix: Seq<char>,
    env: Map<Seq<char>, Seq<char>>,
) -> Result<ValueView, ErrorView>
    decreases f,
{
    let name = f.var_name_at(prefix);
    match f.kind {
        FieldKind::Scalar(ty) => {
            if env.contains_key(name) {
                match parse_leaf(ty, name, env[name]) {
                    Ok(v) => Ok(ValueView::Scalar(v)),
                    Err(e) => Err(e),
                }
            } else {
                match f.default {
                    Some(d) => match parse_leaf(ty, name, d@) {
                        Ok(v) => Ok(ValueView::Scalar(v)),
                        Err(e) => Err(e),
                    },
                    None => Err(ErrorView::MissingEnvVar { var_name: name }),
                }
            }
        },
        FieldKind::Optional(ty) => {
            if env.contains_key(name) {
                match parse_leaf(ty, name, env[name]) {
                    Ok(v) => Ok(ValueView::Optional(Some(v))),
                    Err(e) => Err(e),
                }
            } else {
                Ok(ValueView::Optional(None))
            }
        },
        FieldKind::Nested(n) => resolve_node(n, f.child_prefix_at(prefix), env),
    }
}

/// The values of the fields `fs`, in order, or the error of the first field
/// that fails.
pub open spec fn resolve_fields(
    fs: Seq<FieldDescriptor>,
    prefix: Seq<char>,
    env: Map<Seq<char>, Seq<char>>,
) -> Result<Seq<ValueView>, ErrorView>
    decreases fs,
{
    if fs.len() == 0 {
        Ok(Seq::empty())
    } else {
        match resolve_fields(fs.subrange(0, fs.len() - 1), prefix, env) {
            Err(e) => Err(e),
            Ok(vs) => match resolve_field(fs[fs.len() - 1], prefix, env) {
                Err(e) => Err(e),
                Ok(v) => Ok(vs.push(v)),
            },
        }
    }
}

/// The resolution of structure `n` reached with the prefix `incoming`.
pub open spec fn resolve_node(
    n: SchemaNode,
    incoming: Seq<char>,
    env: Map<Seq<char>, Seq<char>>,
) -> Result<ValueView, ErrorView>
    decreases n,
{
    match resolve_fields(n.fields@, n.effective_prefix_at(incoming), env) {
        Ok(vs) => Ok(ValueView::Node(vs)),
        Err(e) => Err(e),
    }
}

/// An error among the first `k` fields is the error of all of them.
pub proof fn lemma_resolve_fields_prefix_err(
    fs: Seq<FieldDescriptor>,
    k: int,
    prefix: Seq<char>,
    env: Map<Seq<char>, Seq<char>>,
)
    requires
        0 <= k <= fs.len(),
        resolve_fields(fs.take(k), prefix, env) is Err,
    ensures
        resolve_fields(fs, prefix, env) == resolve_fields(fs.take(k), prefix, env),
    decreases fs.len() - k,
{
    if k < fs.len() {
        assert(fs.take(k + 1).subrange(0, k) == fs.take(k));
        lemma_resolve_fields_prefix_err(fs, k + 1, prefix, env);
    } else {
        assert(fs.take(k) == fs);
    }
}

/// Parses `text`, read for the variable `name`, as `ty`.
fn parse_leaf_value(ty: ScalarType, name: &String, text: &str) -> (r: Result<
    ScalarValue,
    FromEnvError,
>)
    ensures
        match r {
            Ok(v) => parse_leaf(ty, name@, text@) == Ok::<ScalarView, ErrorView>(v@),
            Err(e) => parse_leaf(ty, name@, text@) == Err::<ScalarView, ErrorView>(e@),
        },
{
    match parse(ty, text) {
        Some(v) => Ok(v),
        None => Err(
            FromEnvError::ParsingFailure {
                var_name: name.clone(),
                expected_type: ty.name(),
                str_value: text.to_string(),
            },
        ),
    }
}

/// Resolves field `f` of a structure whose fields are named under `prefix`.
fn resolve_field_value(f: &FieldDescriptor, prefix: &str, env: &Env) -> (r: Result<
    Value,
    FromEnvError,
>)
    ensures
        result_view(r) == resolve_field(*f, prefix@, env@),
    decreases f,
{
    match &f.kind {
        FieldKind::Scalar(ty) => {
            let name = f.variable_name(prefix);
            let text = match env.get(name.as_str()) {
                Some(t) => t.as_str(),
                None => match &f.default {
                    Some(d) => d.as_str(),
                    None => {
                        return Err(FromEnvError::MissingEnvVar { var_name: name });
                    },
                },
            };
            match parse_leaf_value(*ty, &name, text) {
                Ok(v) => Ok(Value::Scalar(v)),
                Err(e) => Err(e),
            }
        },
        FieldKind::Optional(ty) => {
            let name = f.variable_name(prefix);
            match env.get(name.as_str()) {
                Some(t) => match parse_leaf_value(*ty, &name, t.as_str()) {
                    Ok(v) => Ok(Value::Optional(Some(v))),
                    Err(e) => Err(e),
                },
                None => Ok(Value::Optional(None)),
            }
        },
        FieldKind::Nested(n) => {
            let child = f.child_prefix(prefix);
            resolve(n, child.as_str(), env)
        },
    }
}

/// Resolves structure `node`, reached with the prefix `incoming`, against
/// `env`: the value of every field in declaration order, or the first error
/// met depth first.
pub fn resolve(node: &SchemaNode, incoming: &str, env: &Env) -> (r: Result<Value, FromEnvError>)
    ensures
        result_view(r) == resolve_node(*node, incoming@, env@),
    decreases node,
{
    let prefix = node.effective_prefix(incoming);
    let ghost fs = node.fields@;
    let mut values: Vec<Value> = Vec::new();
    let mut i: usize = 0;
    while i < node.fields.len()
        invariant
            fs == node.fields@,
            i <= fs.len(),
            prefix@ == node.effective_prefix_at(incoming@),
            resolve_fields(fs.take(i as int), prefix@, env@) == Ok::<Seq<ValueView>, ErrorView>(
                values_view(values@),
            ),
        decreases fs.len() - i,
    {
        assert(fs.take(i + 1).subrange(0, i as int) == fs.take(i as int));
        assert(decreases_to!(node => node.fields));
        assert(decreases_to!(node.fields => fs[i as int]));
        let ghost before = values@;
        match resolve_field_value(&node.fields[i], prefix.as_str(), env) {
            Ok(v) => {
                values.push(v);
                assert(values@.subrange(0, values@.len() - 1) == before);
            },
            Err(e) => {
                proof {
                    lemma_resolve_fields_prefix_err(fs, i as int + 1, prefix@, env@);
                }
                return Err(e);
            },
        }
        i = i + 1;
    }
    assert(fs.take(i as int) == fs);
    Ok(Value::Node(values))
}

/// Resolves structure `node` at the root, with an empty incoming prefix.
pub fn resolve_root(node: &SchemaNode, env: &Env) -> (r: Result<Value, FromEnvError>)
    ensures
        result_view(r) == resolve_node(*node, Seq::empty(), env@),
{
    let root = String::new();
    resolve(node, root.as_str(), env)
}

/// A configuration type read from environment variables through a schema.
///
/// Implementors give the schema of the type and build a value of it from the
/// tree that resolving that schema produces; reading from an environment is
/// provided, and fails exactly as [`resolve`] does.
pub trait FromEnv: Sized {
    /// The schema of the type.
    fn schema() -> SchemaNode;

    /// Builds a value from the tree that resolving the schema produced.
    fn from_value(v: Value) -> Self;

    /// Reads a value with the incoming prefix `prefix`.
    fn from_env_with_prefix(env: &Env, prefix: &str) -> Result<Self, FromEnvError> {
        let schema = Self::schema();
        match resolve(&schema, prefix, env) {
            Ok(v) => Ok(Self::from_value(v)),
            Err(e) => Err(e),
        }
    }

    /// Reads a value at the root, with an empty incoming prefix.
    fn from_env(env: &Env) -> Result<Self, FromEnvError> {
        let root = String::new();
        Self::from_env_with_prefix(env, root.as_str())
    }
}

} // verus!
